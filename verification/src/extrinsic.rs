//! Reassembly of the signed transaction: call data, nonce, era, tip,
//! signer identity, and the returned signature, combined per the chain's
//! extrinsic binary layout, plus the hex rendering shown to the user.

use vstd::prelude::*;
use vstd::string::StringSliceAdditionalSpecFns;
use crate::account::{Account, same_account};
use crate::encoder::clone_bytes;
use crate::errors::{AssemblyError, SigningError, SigningFlowError};
use crate::hexstr::{spec_unhex, valid_hex_seq, decode_hex, hex_0x};
use crate::payload::{Era, spec_era_bytes, era_bytes};
use crate::scale::{spec_compact, compact_u64, compact_u128};
use crate::signature::Signature;

verus! {

/// Version byte of a signed extrinsic: protocol version 4 with the signed
/// bit set.
pub open spec fn spec_version_byte() -> u8 {
    0x84u8
}

/// The body of a signed extrinsic, before the length prefix: version
/// byte, the signer as an id-form multi-address (tag 0 and 32 key bytes),
/// the tagged signature, era, compact nonce, compact tip, and the call
/// data.
pub open spec fn spec_extrinsic_body(
    call_data: Seq<u8>,
    nonce: u64,
    era: Era,
    tip: u128,
    public_key: Seq<u8>,
    signature: &Signature,
) -> Seq<u8> {
    seq![spec_version_byte(), 0u8] + public_key + signature.spec_wire() + spec_era_bytes(era)
        + spec_compact(nonce as nat) + spec_compact(tip as nat) + call_data
}

/// The full wire form: the body behind its compact byte count.
pub open spec fn spec_extrinsic_bytes(
    call_data: Seq<u8>,
    nonce: u64,
    era: Era,
    tip: u128,
    public_key: Seq<u8>,
    signature: &Signature,
) -> Seq<u8> {
    let body = spec_extrinsic_body(call_data, nonce, era, tip, public_key, signature);
    spec_compact(body.len()) + body
}

/// A submittable signed transaction.  Immutable once assembled; submission
/// consumes it by value, so one value can be submitted at most once.
pub struct SignedExtrinsic {
    pub call_data: Vec<u8>,
    pub nonce: u64,
    pub era: Era,
    pub tip: u128,
    pub signer: Account,
    pub signature: Signature,
    pub bytes: Vec<u8>,
}

impl SignedExtrinsic {
    /// The parts agree: the signature's scheme is the signer's declared
    /// key type, and the cached wire bytes are the layout of the parts.
    pub open spec fn wf(&self) -> bool {
        &&& self.signer.wf()
        &&& self.signature.wf()
        &&& self.signature.scheme == self.signer.ty
        &&& self.bytes@ == spec_extrinsic_bytes(
            self.call_data@,
            self.nonce,
            self.era,
            self.tip,
            self.signer.public_key@,
            &self.signature,
        )
    }

    /// The wire bytes, for display beside the raw form.
    pub fn encoded(&self) -> (r: &Vec<u8>)
        ensures
            r@ == self.bytes@,
    {
        &self.bytes
    }

    /// The wire bytes for submission.  Consumes the extrinsic: after this
    /// call the value is gone, and no second submission can be made from
    /// it.
    pub fn into_bytes(self) -> (r: Vec<u8>)
        ensures
            r@ == self.bytes@,
    {
        self.bytes
    }

    /// Hex rendering of the wire bytes, for user-facing display.
    pub fn render_hex(&self) -> (r: String)
        ensures
            r@ == crate::payload::spec_hex_0x(self.bytes@),
    {
        hex_0x(self.bytes.as_slice())
    }
}

/// Combines the parts of a signed transaction.  Fails exactly when the
/// signature's scheme is incompatible with the signer's declared key
/// type; no construction proceeds from a mismatched signature kind.
pub fn assemble(
    call_data: Vec<u8>,
    nonce: u64,
    era: Era,
    tip: u128,
    signer: Account,
    signature: Signature,
) -> (r: Result<SignedExtrinsic, AssemblyError>)
    requires
        signer.wf(),
        signature.wf(),
    ensures
        r is Ok <==> signature.scheme == signer.ty,
        r matches Err(e) ==> e == AssemblyError::SchemeMismatch,
        r matches Ok(x) ==> {
            &&& x.wf()
            &&& x.call_data@ == call_data@
            &&& x.nonce == nonce
            &&& x.era == era
            &&& x.tip == tip
            &&& same_account(&x.signer, &signer)
            &&& x.signature == signature
        },
{
    let scheme_ok = match (signature.scheme, signer.ty) {
        (crate::signature::SignatureScheme::Sr25519, crate::signature::SignatureScheme::Sr25519) => true,
        (crate::signature::SignatureScheme::Ed25519, crate::signature::SignatureScheme::Ed25519) => true,
        (crate::signature::SignatureScheme::Ecdsa, crate::signature::SignatureScheme::Ecdsa) => true,
        _ => false,
    };
    if !scheme_ok {
        return Err(AssemblyError::SchemeMismatch);
    }
    let mut body: Vec<u8> = Vec::new();
    body.push(0x84u8);
    body.push(0u8);
    let mut pk = clone_bytes(&signer.public_key);
    body.append(&mut pk);
    body.push(match signature.scheme {
        crate::signature::SignatureScheme::Ed25519 => 0u8,
        crate::signature::SignatureScheme::Sr25519 => 1u8,
        crate::signature::SignatureScheme::Ecdsa => 2u8,
    });
    let mut sig_bytes = clone_bytes(&signature.bytes);
    body.append(&mut sig_bytes);
    let mut era_scale = era_bytes(era);
    body.append(&mut era_scale);
    let mut nonce_scale = compact_u64(nonce);
    body.append(&mut nonce_scale);
    let mut tip_scale = compact_u128(tip);
    body.append(&mut tip_scale);
    let mut call = clone_bytes(&call_data);
    body.append(&mut call);
    proof {
        assert(body@ =~= spec_extrinsic_body(
            call_data@,
            nonce,
            era,
            tip,
            signer.public_key@,
            &signature,
        ));
    }
    let mut bytes = compact_u64(body.len() as u64);
    bytes.append(&mut body);
    let x = SignedExtrinsic { call_data, nonce, era, tip, signer, signature, bytes };
    proof {
        assert(x.bytes@ =~= spec_extrinsic_bytes(
            x.call_data@,
            x.nonce,
            x.era,
            x.tip,
            x.signer.public_key@,
            &x.signature,
        ));
    }
    Ok(x)
}

/// What the signer's textual reply must look like: a `0x` prefix and an
/// even run of hex digits.
pub open spec fn reply_well_formed(reply_bytes: Seq<u8>) -> bool {
    &&& reply_bytes.len() >= 2
    &&& reply_bytes[0] == 48
    &&& reply_bytes[1] == 120
    &&& valid_hex_seq(reply_bytes.skip(2))
}

/// The signature bytes a well-formed reply denotes.
pub open spec fn spec_reply_signature(reply_bytes: Seq<u8>) -> Seq<u8> {
    spec_unhex(reply_bytes.skip(2))
}

/// Whether a well-formed reply's bytes fit one of the tagged signature
/// layouts.
pub open spec fn reply_parses(reply_bytes: Seq<u8>) -> bool {
    reply_well_formed(reply_bytes) && {
        let raw = spec_reply_signature(reply_bytes);
        &&& raw.len() >= 1
        &&& ((raw[0] == 0 && raw.len() == 65) || (raw[0] == 1 && raw.len() == 65) || (raw[0] == 2
            && raw.len() == 66))
    }
}

/// The scheme a parseable reply's tag byte selects.
pub open spec fn reply_scheme(reply_bytes: Seq<u8>) -> crate::signature::SignatureScheme {
    let raw = spec_reply_signature(reply_bytes);
    if raw.len() >= 1 && raw[0] == 0 {
        crate::signature::SignatureScheme::Ed25519
    } else if raw.len() >= 1 && raw[0] == 2 {
        crate::signature::SignatureScheme::Ecdsa
    } else {
        crate::signature::SignatureScheme::Sr25519
    }
}

/// Finishes one signing attempt from the signer's textual reply: decodes
/// the hex, reads the tagged signature, and reassembles the signed
/// extrinsic.  Each failure is surfaced distinctly; a scheme mismatch is
/// refused before any extrinsic exists.
pub fn complete_signing(
    call_data: Vec<u8>,
    nonce: u64,
    era: Era,
    tip: u128,
    signer: Account,
    reply: &str,
) -> (r: Result<SignedExtrinsic, SigningFlowError>)
    requires
        signer.wf(),
    ensures
        r is Ok <==> (reply_parses(reply.spec_bytes()) && reply_scheme(reply.spec_bytes())
            == signer.ty),
        r matches Ok(x) ==> {
            &&& x.wf()
            &&& x.call_data@ == call_data@
            &&& x.nonce == nonce
            &&& x.era == era
            &&& x.tip == tip
            &&& same_account(&x.signer, &signer)
            &&& x.signature.spec_wire() == spec_reply_signature(reply.spec_bytes())
        },
        (r matches Err(SigningFlowError::Signing(s)) && s is MalformedText)
            <==> !reply_well_formed(reply.spec_bytes()),
        (r matches Err(SigningFlowError::Signing(s)) && s is MalformedSignature)
            <==> (reply_well_formed(reply.spec_bytes()) && !reply_parses(reply.spec_bytes())),
        (r matches Err(SigningFlowError::Assembly(a)) && a == AssemblyError::SchemeMismatch)
            <==> (reply_parses(reply.spec_bytes()) && reply_scheme(reply.spec_bytes())
            != signer.ty),
{
    let bytes = reply.as_bytes();
    if bytes.len() < 2 {
        return Err(SigningFlowError::Signing(SigningError::MalformedText));
    }
    let b0 = bytes[0];
    let b1 = bytes[1];
    if !(b0 == 48 && b1 == 120) {
        return Err(SigningFlowError::Signing(SigningError::MalformedText));
    }
    let raw = match decode_hex(bytes, 2) {
        Some(v) => v,
        None => {
            return Err(SigningFlowError::Signing(SigningError::MalformedText));
        },
    };
    let signature = match crate::signature::parse_signature(&raw) {
        Ok(s) => s,
        Err(_) => {
            return Err(SigningFlowError::Signing(SigningError::MalformedSignature));
        },
    };
    match assemble(call_data, nonce, era, tip, signer, signature) {
        Ok(x) => Ok(x),
        Err(e) => Err(SigningFlowError::Assembly(e)),
    }
}

} // verus!
