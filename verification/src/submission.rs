//! Tracking a submitted extrinsic to finalization, and extracting the
//! domain success event from the finalized block.  Chain-level inclusion
//! and application-level success are kept distinct: a finalized block
//! without the expected event is a reported failure, never a success.

use vstd::prelude::*;
use crate::errors::SubmissionError;
use crate::hexstr::spec_hex;
use crate::text::{chars_string, dec_u64, push_chars, push_str_chars, spec_dec, str_chars};

verus! {

/// The informational display line for one finalized block: its number,
/// then its hash hex-prefixed, each on a line of its own.
pub open spec fn spec_block_line(number: u64, hash: Seq<u8>) -> Seq<char> {
    "Block #"@ + spec_dec(number as nat) + ":\n  Hash: 0x"@ + spec_hex(hash) + "\n"@
}

/// Renders the display line for a finalized block.
pub fn format_block_line(number: u64, hash: &Vec<u8>) -> (r: String)
    ensures
        r@ == spec_block_line(number, hash@),
{
    let mut out: Vec<char> = Vec::new();
    push_str_chars(&mut out, "Block #");
    let digits = dec_u64(number);
    push_chars(&mut out, &digits);
    push_str_chars(&mut out, ":\n  Hash: 0x");
    let hex = crate::hexstr::hex_encode(hash.as_slice());
    let hex_chars = str_chars(hex.as_str());
    push_chars(&mut out, &hex_chars);
    push_str_chars(&mut out, "\n");
    proof {
        assert(out@ =~= spec_block_line(number, hash@));
    }
    chars_string(&out)
}

/// One event the chain emitted for the tracked extrinsic, by its position
/// in the runtime's event taxonomy.
pub struct ChainEvent {
    pub pallet_index: u8,
    pub variant_index: u8,
    /// The event's encoded fields, opaque to the tracker.
    pub data: Vec<u8>,
}

/// The event that marks application-level success, as the runtime
/// declares it.
#[derive(Clone, Copy, Debug, PartialEq, Eq, Structural)]
pub struct EventMarker {
    pub pallet_index: u8,
    pub variant_index: u8,
}

/// Whether an event is the expected success marker.
pub open spec fn is_marker(e: &ChainEvent, marker: EventMarker) -> bool {
    e.pallet_index == marker.pallet_index && e.variant_index == marker.variant_index
}

/// Two events with the same position indices and the same payload.
pub open spec fn same_event(a: &ChainEvent, b: &ChainEvent) -> bool {
    &&& a.pallet_index == b.pallet_index
    &&& a.variant_index == b.variant_index
    &&& a.data@ == b.data@
}

impl Clone for ChainEvent {
    fn clone(&self) -> (r: Self)
        ensures
            same_event(&r, self),
    {
        ChainEvent {
            pallet_index: self.pallet_index,
            variant_index: self.variant_index,
            data: self.data.clone(),
        }
    }
}

/// Among all events of the finalized block for this extrinsic, the first
/// one matching the success marker; a finalized block without it is the
/// distinct failure `EventNotFound`, because finalization does not imply
/// application-level success.
pub fn extract_success_event(events: &Vec<ChainEvent>, marker: EventMarker) -> (r: Result<
    ChainEvent,
    SubmissionError,
>)
    ensures
        r is Ok <==> (exists|i: int| 0 <= i < events@.len() && is_marker(&events@[i], marker)),
        r matches Ok(e) ==> (exists|i: int|
            {
                &&& 0 <= i < events@.len()
                &&& is_marker(&events@[i], marker)
                &&& same_event(&e, &events@[i])
                &&& forall|j: int| 0 <= j < i ==> !is_marker(&events@[j], marker)
            }),
        r matches Err(err) ==> err is EventNotFound,
{
    let mut idx: usize = 0;
    while idx < events.len()
        invariant
            idx <= events@.len(),
            forall|j: int| 0 <= j < idx ==> !is_marker(&events@[j], marker),
        decreases events@.len() - idx,
    {
        if events[idx].pallet_index == marker.pallet_index && events[idx].variant_index
            == marker.variant_index {
            let e = events[idx].clone();
            proof {
                assert(is_marker(&events@[idx as int], marker));
            }
            return Ok(e);
        }
        idx = idx + 1;
    }
    Err(SubmissionError::EventNotFound)
}

/// Where a submission stands, as the caller observes it.
pub enum TrackState {
    /// Handed to the node; no inclusion seen yet.
    Submitted,
    /// Seen in a (not yet final) block.
    InBlock,
    /// Finalized and resolved: either the success event, or the distinct
    /// failure.
    Done(Result<ChainEvent, SubmissionError>),
}

/// One notification from the node while watching the extrinsic.
pub enum WatchSignal {
    /// The extrinsic was included in a block.
    InBlock,
    /// The block containing the extrinsic finalized, with the events it
    /// emitted for this extrinsic.
    Finalized(Vec<ChainEvent>),
    /// Watching failed: transport loss, rejection, or a timeout.
    Failed(SubmissionError),
}

impl TrackState {
    pub open spec fn is_done(&self) -> bool {
        self is Done
    }
}

/// Advances the tracker by one notification.  Inclusion notifications
/// keep the submission pending; finalization resolves it through the
/// event extraction; a terminal state absorbs everything after it.
pub fn track_advance(state: TrackState, signal: WatchSignal, marker: EventMarker) -> (r:
    TrackState)
    ensures
        state.is_done() ==> r == state,
        !state.is_done() ==> match signal {
            WatchSignal::InBlock => r is InBlock,
            WatchSignal::Finalized(events) => {
                &&& r is Done
                &&& (r matches TrackState::Done(res) ==> {
                    &&& (res is Ok <==> exists|i: int|
                        0 <= i < events@.len() && is_marker(&events@[i], marker))
                    &&& (res matches Err(e) ==> e is EventNotFound)
                })
            },
            WatchSignal::Failed(err) => r == TrackState::Done(
                Result::<ChainEvent, SubmissionError>::Err(err),
            ),
        },
{
    match state {
        TrackState::Done(res) => TrackState::Done(res),
        _ => match signal {
            WatchSignal::InBlock => TrackState::InBlock,
            WatchSignal::Finalized(events) => TrackState::Done(
                extract_success_event(&events, marker),
            ),
            WatchSignal::Failed(err) => TrackState::Done(Err(err)),
        },
    }
}

/// Finalization without the expected event resolves to `EventNotFound`,
/// never to success: any extraction result that meets the extraction
/// contract on a block whose events lack the marker is that distinct
/// failure.  Chain-level inclusion is not application-level success.
pub proof fn lemma_finalized_without_event_fails(
    events: Seq<ChainEvent>,
    marker: EventMarker,
    res: Result<ChainEvent, SubmissionError>,
)
    requires
        res is Ok <==> (exists|i: int| 0 <= i < events.len() && is_marker(&events[i], marker)),
        res matches Err(e) ==> e is EventNotFound,
        forall|i: int| 0 <= i < events.len() ==> !is_marker(&events[i], marker),
    ensures
        res matches Err(e) && e is EventNotFound,
{
}

} // verus!
