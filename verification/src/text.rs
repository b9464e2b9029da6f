//! Bridges between `String` values at the library's boundary and the
//! character vectors its rendering logic works on, plus the JSON string
//! escaping used by the signing payload.

use vstd::prelude::*;

verus! {

/// Relies on `str::chars`: the characters of the string, in order.
#[verifier::external_body]
pub(crate) fn str_chars(s: &str) -> (r: Vec<char>)
    ensures
        r@ == s@,
{
    s.chars().collect()
}

/// Relies on `String`'s `FromIterator<char>` impl: the collected string
/// holds exactly the given characters, in order.
#[verifier::external_body]
pub(crate) fn chars_string(v: &Vec<char>) -> (r: String)
    ensures
        r@ == v@,
{
    v.iter().collect()
}

/// JSON escaping of one character: quote and backslash get a backslash,
/// common control characters their short forms, other control characters a
/// `\u00..` sequence, everything else stands for itself.
pub open spec fn esc_char(c: char) -> Seq<char> {
    if c == '"' {
        seq!['\\', '"']
    } else if c == '\\' {
        seq!['\\', '\\']
    } else if c == '\u{8}' {
        seq!['\\', 'b']
    } else if c == '\t' {
        seq!['\\', 't']
    } else if c == '\n' {
        seq!['\\', 'n']
    } else if c == '\u{c}' {
        seq!['\\', 'f']
    } else if c == '\r' {
        seq!['\\', 'r']
    } else if (c as u32) < 32 {
        seq!['\\', 'u', '0', '0',
            crate::hexstr::hex_digit_char((c as u32 / 16) as nat),
            crate::hexstr::hex_digit_char((c as u32 % 16) as nat)]
    } else {
        seq![c]
    }
}

/// JSON escaping of a whole string.
pub open spec fn json_escaped(s: Seq<char>) -> Seq<char>
    decreases s.len(),
{
    if s.len() == 0 {
        Seq::empty()
    } else {
        esc_char(s[0]) + json_escaped(s.drop_first())
    }
}

pub proof fn lemma_json_escaped_push(s: Seq<char>, c: char)
    ensures
        json_escaped(s.push(c)) == json_escaped(s) + esc_char(c),
    decreases s.len(),
{
    let sp = s.push(c);
    assert(sp.len() == s.len() + 1);
    assert(json_escaped(sp) == esc_char(sp[0]) + json_escaped(sp.drop_first()));
    if s.len() == 0 {
        assert(sp[0] == c);
        assert(sp.drop_first() =~= Seq::<char>::empty());
        assert(json_escaped(sp.drop_first()) == Seq::<char>::empty());
        assert(json_escaped(s) == Seq::<char>::empty());
        assert(json_escaped(sp) =~= json_escaped(s) + esc_char(c));
    } else {
        lemma_json_escaped_push(s.drop_first(), c);
        assert(sp[0] == s[0]);
        assert(sp.drop_first() =~= s.drop_first().push(c));
        assert(json_escaped(sp.drop_first()) == json_escaped(s.drop_first()) + esc_char(c));
        assert(json_escaped(s) == esc_char(s[0]) + json_escaped(s.drop_first()));
        assert(json_escaped(sp) =~= json_escaped(s) + esc_char(c));
    }
}

pub fn hex_digit(v: u32) -> (r: char)
    requires
        v < 16,
    ensures
        r == crate::hexstr::hex_digit_char(v as nat),
{
    match v {
        0 => '0',
        1 => '1',
        2 => '2',
        3 => '3',
        4 => '4',
        5 => '5',
        6 => '6',
        7 => '7',
        8 => '8',
        9 => '9',
        10 => 'a',
        11 => 'b',
        12 => 'c',
        13 => 'd',
        14 => 'e',
        _ => 'f',
    }
}

/// Appends the JSON escaping of `s` to `out`.
pub fn push_escaped(out: &mut Vec<char>, s: &Vec<char>)
    ensures
        final(out)@ == old(out)@ + json_escaped(s@),
{
    let ghost orig = out@;
    let mut i: usize = 0;
    while i < s.len()
        invariant
            i <= s.len(),
            out@ == orig + json_escaped(s@.take(i as int)),
        decreases s.len() - i,
    {
        let c = s[i];
        if c == '"' {
            out.push('\\');
            out.push('"');
        } else if c == '\\' {
            out.push('\\');
            out.push('\\');
        } else if c == '\u{8}' {
            out.push('\\');
            out.push('b');
        } else if c == '\t' {
            out.push('\\');
            out.push('t');
        } else if c == '\n' {
            out.push('\\');
            out.push('n');
        } else if c == '\u{c}' {
            out.push('\\');
            out.push('f');
        } else if c == '\r' {
            out.push('\\');
            out.push('r');
        } else if (c as u32) < 32 {
            out.push('\\');
            out.push('u');
            out.push('0');
            out.push('0');
            out.push(hex_digit(c as u32 / 16));
            out.push(hex_digit(c as u32 % 16));
        } else {
            out.push(c);
        }
        proof {
            lemma_json_escaped_push(s@.take(i as int), c);
            assert(s@.take(i as int).push(c) =~= s@.take(i + 1));
            assert(out@ =~= orig + json_escaped(s@.take(i + 1)));
        }
        i = i + 1;
    }
    proof {
        assert(s@.take(s@.len() as int) =~= s@);
    }
}

/// Appends the characters of `s` to `out` unescaped.
pub fn push_chars(out: &mut Vec<char>, s: &Vec<char>)
    ensures
        final(out)@ == old(out)@ + s@,
{
    let ghost orig = out@;
    let mut i: usize = 0;
    while i < s.len()
        invariant
            i <= s.len(),
            out@ == orig + s@.take(i as int),
        decreases s.len() - i,
    {
        out.push(s[i]);
        proof {
            assert(out@ =~= orig + s@.take(i + 1));
        }
        i = i + 1;
    }
    proof {
        assert(s@.take(s@.len() as int) =~= s@);
    }
}

/// A non-empty run of ASCII decimal digits.
pub open spec fn all_digits(s: Seq<u8>) -> bool {
    s.len() > 0 && forall|i: int| 0 <= i < s.len() ==> 48 <= #[trigger] s[i] <= 57
}

/// The number a run of decimal digits denotes.
pub open spec fn digits_val(s: Seq<u8>) -> nat
    decreases s.len(),
{
    if s.len() == 0 {
        0
    } else {
        (digits_val(s.drop_last()) * 10 + (s.last() - 48)) as nat
    }
}

/// A digit run never denotes less than any of its prefixes.
pub proof fn lemma_digits_prefix_le(s: Seq<u8>, j: int)
    requires
        0 <= j <= s.len(),
        all_digits(s),
    ensures
        digits_val(s.take(j)) <= digits_val(s),
    decreases s.len() - j,
{
    if j < s.len() {
        assert(s.take(j + 1).drop_last() =~= s.take(j));
        assert(s.take(j + 1).last() == s[j]);
        assert(digits_val(s.take(j + 1)) == digits_val(s.take(j)) * 10 + (s[j] - 48));
        assert(digits_val(s.take(j)) * 10 >= digits_val(s.take(j)));
        lemma_digits_prefix_le(s, j + 1);
    } else {
        assert(s.take(j) =~= s);
    }
}

/// The digit run of an optionally sign-prefixed number: a single leading
/// `+` is dropped, as the standard unsigned parse accepts one.
pub open spec fn strip_plus(s: Seq<u8>) -> Seq<u8> {
    if s.len() > 0 && s[0] == 43 {
        s.drop_first()
    } else {
        s
    }
}

/// Reads an unsigned decimal number: `Some` exactly when the bytes are an
/// optional leading `+` and then a non-empty digit run whose value fits.
pub fn parse_u128(s: &[u8]) -> (r: Option<u128>)
    ensures
        r is Some <==> (all_digits(strip_plus(s@)) && digits_val(strip_plus(s@)) <= u128::MAX),
        r matches Some(v) ==> v == digits_val(strip_plus(s@)),
{
    let start: usize = if s.len() > 0 && s[0] == 43 {
        1
    } else {
        0
    };
    proof {
        assert(strip_plus(s@) =~= s@.skip(start as int));
    }
    if s.len() == start {
        return None;
    }
    let ghost digits = s@.skip(start as int);
    let mut acc: u128 = 0;
    let mut i: usize = start;
    while i < s.len()
        invariant
            start <= i <= s@.len(),
            start < s@.len(),
            digits == s@.skip(start as int),
            digits == strip_plus(s@),
            forall|j: int| start <= j < i ==> 48 <= #[trigger] s@[j] <= 57,
            acc == digits_val(digits.take(i - start)),
        decreases s@.len() - i,
    {
        let b = s[i];
        if !(48 <= b && b <= 57) {
            proof {
                assert(digits[i - start] == s@[i as int]);
            }
            return None;
        }
        let d: u128 = (b - 48) as u128;
        proof {
            assert(digits.take(i + 1 - start).drop_last() =~= digits.take(i - start));
            assert(digits.take(i + 1 - start).last() == s@[i as int]);
        }
        let shifted = match acc.checked_mul(10) {
            Some(v) => v,
            None => {
                proof {
                    if all_digits(digits) {
                        lemma_digits_prefix_le(digits, i + 1 - start);
                    }
                }
                return None;
            },
        };
        acc = match shifted.checked_add(d) {
            Some(v) => v,
            None => {
                proof {
                    if all_digits(digits) {
                        lemma_digits_prefix_le(digits, i + 1 - start);
                    }
                }
                return None;
            },
        };
        i = i + 1;
    }
    proof {
        assert(digits.take(digits.len() as int) =~= digits);
        assert(forall|j: int| 0 <= j < digits.len() ==> digits[j] == s@[j + start]);
    }
    Some(acc)
}

/// Decimal rendering of a number.
pub open spec fn spec_dec(n: nat) -> Seq<char>
    decreases n,
{
    if n < 10 {
        seq![crate::hexstr::hex_digit_char(n)]
    } else {
        spec_dec(n / 10) + seq![crate::hexstr::hex_digit_char(n % 10)]
    }
}

/// The decimal digits of `n`, most significant first.
pub fn dec_u64(n: u64) -> (r: Vec<char>)
    ensures
        r@ == spec_dec(n as nat),
    decreases n,
{
    if n < 10 {
        let mut r: Vec<char> = Vec::new();
        r.push(hex_digit(n as u32));
        proof {
            assert(r@ =~= spec_dec(n as nat));
        }
        r
    } else {
        let mut r = dec_u64(n / 10);
        r.push(hex_digit((n % 10) as u32));
        proof {
            assert(r@ =~= spec_dec(n as nat));
        }
        r
    }
}

/// Appends the characters of a literal to `out`.
pub fn push_str_chars(out: &mut Vec<char>, s: &str)
    ensures
        final(out)@ == old(out)@ + s@,
{
    let v = str_chars(s);
    push_chars(out, &v);
}

} // verus!
