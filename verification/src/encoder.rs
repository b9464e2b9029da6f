//! Canonical binary encoding of a call: the action to perform, rendered
//! against the call schema the chain's metadata currently declares,
//! independent of signer, nonce, and signature.

use vstd::prelude::*;
use crate::conviction::{Conviction, spec_weight};
use crate::errors::EncodingError;
use crate::scale::{spec_compact, spec_u128_le, compact_u32, u128_le_bytes};

verus! {

/// The logical vote a user composes.  `balance` is denominated in the
/// smallest chain unit.
pub struct VoteIntent {
    pub referendum_id: u32,
    pub aye: bool,
    pub balance: u128,
    pub conviction: Conviction,
}

/// The shape of arguments a call position expects, as the loaded metadata
/// declares it.
#[derive(Clone, Copy, Debug, PartialEq, Eq, Structural)]
pub enum CallShape {
    /// A standard conviction vote: compact poll index, vote byte, balance.
    ConvictionVoteStandard,
    /// A system remark: length-prefixed bytes.
    SystemRemark,
}

/// Where a call lives in the runtime and what it expects, scoped to the
/// connected chain's metadata.
#[derive(Clone, Copy, Debug, PartialEq, Eq, Structural)]
pub struct CallSchema {
    pub pallet_index: u8,
    pub call_index: u8,
    pub shape: CallShape,
}

/// An action the encoder can render.
pub enum CallAction {
    Vote(VoteIntent),
    Remark(Vec<u8>),
}

/// The vote byte of the chain's `Vote` wire type: the aye bit (128) above
/// the conviction weight.
pub open spec fn spec_vote_byte(aye: bool, c: Conviction) -> u8 {
    if aye {
        (128 + spec_weight(c)) as u8
    } else {
        spec_weight(c)
    }
}

/// Call data of a standard conviction vote: pallet and call indices, the
/// compact poll index, the `Standard` variant tag, the vote byte, and the
/// little-endian balance.
pub open spec fn spec_vote_call(schema: CallSchema, intent: VoteIntent) -> Seq<u8> {
    seq![schema.pallet_index, schema.call_index]
        + spec_compact(intent.referendum_id as nat)
        + seq![0u8, spec_vote_byte(intent.aye, intent.conviction)]
        + spec_u128_le(intent.balance)
}

/// Call data of a system remark: pallet and call indices, then the bytes
/// behind their compact length.
pub open spec fn spec_remark_call(schema: CallSchema, text: Seq<u8>) -> Seq<u8> {
    seq![schema.pallet_index, schema.call_index] + spec_compact(text.len()) + text
}

/// What a successful encoding must equal, per action kind.
pub open spec fn spec_call_data(schema: CallSchema, action: CallAction) -> Seq<u8> {
    match action {
        CallAction::Vote(intent) => spec_vote_call(schema, intent),
        CallAction::Remark(text) => spec_remark_call(schema, text@),
    }
}

/// Whether the action's shape is the one the schema declares.
pub open spec fn shape_matches(schema: CallSchema, action: &CallAction) -> bool {
    match action {
        CallAction::Vote(_) => schema.shape == CallShape::ConvictionVoteStandard,
        CallAction::Remark(_) => schema.shape == CallShape::SystemRemark,
    }
}

/// Renders an action into canonical call data.  Pure and deterministic;
/// an action whose shape the schema does not declare is refused, never
/// truncated or defaulted.
pub fn encode_call(schema: &CallSchema, action: &CallAction) -> (r: Result<
    Vec<u8>,
    EncodingError,
>)
    ensures
        r is Ok <==> shape_matches(*schema, action),
        r matches Ok(bytes) ==> bytes@ == spec_call_data(*schema, *action),
        r matches Err(e) ==> e == EncodingError::ShapeMismatch,
{
    match action {
        CallAction::Vote(intent) => {
            if !(schema.shape == CallShape::ConvictionVoteStandard) {
                return Err(EncodingError::ShapeMismatch);
            }
            let mut out: Vec<u8> = Vec::new();
            out.push(schema.pallet_index);
            out.push(schema.call_index);
            let mut poll = compact_u32(intent.referendum_id);
            out.append(&mut poll);
            out.push(0u8);
            let vote_byte = if intent.aye {
                intent.conviction.to_value()
            } else {
                intent.conviction.to_value() - 128
            };
            out.push(vote_byte);
            let mut bal = u128_le_bytes(intent.balance);
            out.append(&mut bal);
            proof {
                assert(out@ =~= spec_vote_call(*schema, *intent));
            }
            Ok(out)
        },
        CallAction::Remark(text) => {
            if !(schema.shape == CallShape::SystemRemark) {
                return Err(EncodingError::ShapeMismatch);
            }
            let mut out: Vec<u8> = Vec::new();
            out.push(schema.pallet_index);
            out.push(schema.call_index);
            let mut len_prefix = crate::scale::compact_u64(text.len() as u64);
            out.append(&mut len_prefix);
            let mut body = clone_bytes(text);
            out.append(&mut body);
            proof {
                assert(out@ =~= spec_remark_call(*schema, text@));
            }
            Ok(out)
        },
    }
}

/// A copy of a byte vector, element for element.
pub fn clone_bytes(v: &Vec<u8>) -> (r: Vec<u8>)
    ensures
        r@ == v@,
{
    let mut r: Vec<u8> = Vec::new();
    let mut i: usize = 0;
    while i < v.len()
        invariant
            i <= v@.len(),
            r@ == v@.take(i as int),
        decreases v@.len() - i,
    {
        r.push(v[i]);
        proof {
            assert(r@ =~= v@.take(i + 1));
        }
        i = i + 1;
    }
    proof {
        assert(v@.take(v@.len() as int) =~= v@);
    }
    r
}

/// Re-encoding the same action against the same schema yields
/// byte-identical call data: the encoding is a function of its inputs
/// alone, and `encode_call` pins its result to it.
pub proof fn lemma_encode_deterministic(
    schema: CallSchema,
    action: CallAction,
    r1: Seq<u8>,
    r2: Seq<u8>,
)
    requires
        r1 == spec_call_data(schema, action),
        r2 == spec_call_data(schema, action),
    ensures
        r1 == r2,
{
}

} // verus!
