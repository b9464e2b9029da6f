//! Hex renderings of byte strings, and the decoding of hex strings handed
//! back by the external signer.  Rendering and decoding run through the
//! `hex` crate; their contracts pin the exact character sequences.

use vstd::prelude::*;
use vstd::string::StringExecFns;

verus! {

/// The lower-case hex digit for a value below sixteen.
pub open spec fn hex_digit_char(v: nat) -> char {
    if v == 0 { '0' }
    else if v == 1 { '1' }
    else if v == 2 { '2' }
    else if v == 3 { '3' }
    else if v == 4 { '4' }
    else if v == 5 { '5' }
    else if v == 6 { '6' }
    else if v == 7 { '7' }
    else if v == 8 { '8' }
    else if v == 9 { '9' }
    else if v == 10 { 'a' }
    else if v == 11 { 'b' }
    else if v == 12 { 'c' }
    else if v == 13 { 'd' }
    else if v == 14 { 'e' }
    else { 'f' }
}

/// Lower-case hex rendering of a byte string: two digits per byte.
pub open spec fn spec_hex(b: Seq<u8>) -> Seq<char>
    decreases b.len(),
{
    if b.len() == 0 {
        Seq::empty()
    } else {
        seq![hex_digit_char((b[0] / 16) as nat), hex_digit_char((b[0] % 16) as nat)]
            + spec_hex(b.drop_first())
    }
}

pub proof fn lemma_spec_hex_len(b: Seq<u8>)
    ensures
        spec_hex(b).len() == 2 * b.len(),
    decreases b.len(),
{
    if b.len() > 0 {
        lemma_spec_hex_len(b.drop_first());
    }
}

/// Relies on `hex::encode`: each byte becomes two lower-case hex digits,
/// in order.
#[verifier::external_body]
pub(crate) fn hex_encode(data: &[u8]) -> (r: String)
    ensures
        r@ == spec_hex(data@),
{
    hex::encode(data)
}

/// Hex rendering with the customary `0x` prefix.
pub fn hex_0x(data: &[u8]) -> (r: String)
    ensures
        r@ == seq!['0', 'x'] + spec_hex(data@),
{
    let mut s = <String as StringExecFns>::from_str("0x");
    let digits = hex_encode(data);
    s.append(digits.as_str());
    proof {
        reveal_strlit("0x");
        assert(s@ =~= seq!['0', 'x'] + spec_hex(data@));
    }
    s
}

/// Whether a byte is the ASCII code of a hex digit, either case.
pub open spec fn is_hex_digit_byte(b: u8) -> bool {
    (48 <= b && b <= 57) || (97 <= b && b <= 102) || (65 <= b && b <= 70)
}

/// The value of a hex digit byte, upper or lower case.
pub open spec fn hex_byte_val(b: u8) -> nat {
    if 48 <= b && b <= 57 {
        (b - 48) as nat
    } else if 97 <= b && b <= 102 {
        (b - 87) as nat
    } else {
        (b - 55) as nat
    }
}

/// An even-length run of hex digit bytes.
pub open spec fn valid_hex_seq(s: Seq<u8>) -> bool {
    s.len() % 2 == 0 && forall|i: int| 0 <= i < s.len() ==> is_hex_digit_byte(#[trigger] s[i])
}

/// The bytes denoted by a run of hex digits, two digits per byte.
pub open spec fn spec_unhex(s: Seq<u8>) -> Seq<u8>
    decreases s.len(),
{
    if s.len() < 2 {
        Seq::empty()
    } else {
        seq![(hex_byte_val(s[0]) * 16 + hex_byte_val(s[1])) as u8] + spec_unhex(s.skip(2))
    }
}

/// The value of one hex digit byte, or `None` when it is no hex digit.
pub fn hex_byte_value(b: u8) -> (r: Option<u8>)
    ensures
        r is Some <==> is_hex_digit_byte(b),
        r matches Some(v) ==> v == hex_byte_val(b),
{
    if 48 <= b && b <= 57 {
        Some(b - 48)
    } else if 97 <= b && b <= 102 {
        Some(b - 87)
    } else if 65 <= b && b <= 70 {
        Some(b - 55)
    } else {
        None
    }
}

/// Decodes the hex digits of `b` from `start` on: `Some` exactly when an
/// even number of digits follows and every one is a hex digit.
pub fn decode_hex(b: &[u8], start: usize) -> (r: Option<Vec<u8>>)
    requires
        start <= b@.len(),
    ensures
        r is Some <==> valid_hex_seq(b@.skip(start as int)),
        r matches Some(out) ==> out@ == spec_unhex(b@.skip(start as int)),
{
    if (b.len() - start) % 2 != 0 {
        return None;
    }
    let mut out: Vec<u8> = Vec::new();
    let mut i: usize = start;
    while i < b.len()
        invariant
            start <= i <= b@.len(),
            (b@.len() - start) % 2 == 0,
            (i - start) % 2 == 0,
            forall|j: int| start <= j < i ==> is_hex_digit_byte(#[trigger] b@[j]),
            spec_unhex(b@.skip(start as int)) == out@ + spec_unhex(b@.skip(i as int)),
        decreases b@.len() - i,
    {
        let hi = match hex_byte_value(b[i]) {
            Some(v) => v,
            None => {
                proof {
                    assert(b@.skip(start as int)[i - start] == b@[i as int]);
                }
                return None;
            },
        };
        let lo = match hex_byte_value(b[i + 1]) {
            Some(v) => v,
            None => {
                proof {
                    assert(b@.skip(start as int)[i + 1 - start] == b@[i as int + 1]);
                }
                return None;
            },
        };
        out.push(hi * 16 + lo);
        proof {
            let tail = b@.skip(i as int);
            assert(tail.len() >= 2);
            assert(tail[0] == b@[i as int]);
            assert(tail[1] == b@[i as int + 1]);
            assert(tail.skip(2) =~= b@.skip(i as int + 2));
            assert(spec_unhex(tail) == seq![(hex_byte_val(tail[0]) * 16 + hex_byte_val(
                tail[1],
            )) as u8] + spec_unhex(tail.skip(2)));
            assert(spec_unhex(b@.skip(start as int)) =~= out@ + spec_unhex(
                b@.skip(i as int + 2),
            ));
        }
        i = i + 2;
    }
    proof {
        assert(b@.skip(i as int).len() == 0);
        assert(spec_unhex(b@.skip(start as int)) =~= out@);
    }
    Some(out)
}

} // verus!
