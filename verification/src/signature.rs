//! Signatures returned by the external signer: raw bytes tagged with a
//! scheme, parsed from the chain's tagged-union signature layout.

use vstd::prelude::*;
use crate::errors::SigningError;

verus! {

/// The signature scheme, doubling as an account's declared key type.
#[derive(Clone, Copy, Debug, PartialEq, Eq, Structural)]
pub enum SignatureScheme {
    Sr25519,
    Ed25519,
    Ecdsa,
}

/// The length of a raw signature under each scheme.
pub open spec fn spec_sig_len(s: SignatureScheme) -> nat {
    match s {
        SignatureScheme::Sr25519 => 64,
        SignatureScheme::Ed25519 => 64,
        SignatureScheme::Ecdsa => 65,
    }
}

/// The tag byte that introduces each scheme in the wire layout.
pub open spec fn spec_sig_tag(s: SignatureScheme) -> u8 {
    match s {
        SignatureScheme::Sr25519 => 1,
        SignatureScheme::Ed25519 => 0,
        SignatureScheme::Ecdsa => 2,
    }
}

/// An opaque raw signature tagged with its scheme.  Produced once per
/// signing attempt; never mutated.
pub struct Signature {
    pub scheme: SignatureScheme,
    pub bytes: Vec<u8>,
}

impl Signature {
    /// Raw byte count matches the scheme.
    pub open spec fn wf(&self) -> bool {
        self.bytes@.len() == spec_sig_len(self.scheme)
    }

    /// The tagged wire form: scheme tag, then the raw bytes.
    pub open spec fn spec_wire(&self) -> Seq<u8> {
        seq![spec_sig_tag(self.scheme)] + self.bytes@
    }
}

impl Clone for Signature {
    fn clone(&self) -> (r: Self)
        ensures
            r.scheme == self.scheme,
            r.bytes@ == self.bytes@,
            r.wf() == self.wf(),
            r.spec_wire() == self.spec_wire(),
    {
        Signature { scheme: self.scheme, bytes: self.bytes.clone() }
    }
}

/// Reads a signature from the chain's tagged-union layout: one tag byte
/// (0 ed25519, 1 sr25519, 2 ecdsa), then the scheme's raw byte count,
/// nothing more.
pub fn parse_signature(raw: &Vec<u8>) -> (r: Result<Signature, SigningError>)
    ensures
        r is Ok <==> (raw@.len() >= 1 && {
            ||| (raw@[0] == 0 && raw@.len() == 65)
            ||| (raw@[0] == 1 && raw@.len() == 65)
            ||| (raw@[0] == 2 && raw@.len() == 66)
        }),
        r matches Ok(s) ==> s.wf() && s.spec_wire() == raw@ && s.bytes@ == raw@.drop_first(),
        r matches Err(e) ==> e is MalformedSignature,
{
    if raw.len() == 0 {
        return Err(SigningError::MalformedSignature);
    }
    let tag = raw[0];
    let scheme = if tag == 0 && raw.len() == 65 {
        SignatureScheme::Ed25519
    } else if tag == 1 && raw.len() == 65 {
        SignatureScheme::Sr25519
    } else if tag == 2 && raw.len() == 66 {
        SignatureScheme::Ecdsa
    } else {
        return Err(SigningError::MalformedSignature);
    };
    let mut bytes: Vec<u8> = Vec::new();
    let mut i: usize = 1;
    while i < raw.len()
        invariant
            1 <= i <= raw@.len(),
            bytes@ == raw@.subrange(1, i as int),
        decreases raw@.len() - i,
    {
        bytes.push(raw[i]);
        proof {
            assert(bytes@ =~= raw@.subrange(1, i + 1));
        }
        i = i + 1;
    }
    let s = Signature { scheme, bytes };
    proof {
        assert(raw@.subrange(1, raw@.len() as int) =~= raw@.drop_first());
        assert(s.spec_wire() =~= raw@);
    }
    Ok(s)
}

} // verus!
