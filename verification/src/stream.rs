use vstd::prelude::*;
use tokio::sync::watch::Receiver;
use crate::bus;

verus! {

/// Whether an observed event belongs to the conversation between
/// `viewer_id` and `partner_id`: the event's pair must equal the
/// conversation's pair in one direction or the other, so both sides of
/// the same conversation wake each other's streams.
pub open spec fn spec_event_matches(viewer_id: i32, partner_id: i32, event: (i32, i32)) -> bool {
    event == (viewer_id, partner_id) || event == (partner_id, viewer_id)
}

pub fn event_matches(viewer_id: i32, partner_id: i32, event: (i32, i32)) -> (r: bool)
    ensures
        r == spec_event_matches(viewer_id, partner_id, event),
{
    (event.0 == viewer_id && event.1 == partner_id) || (event.0 == partner_id && event.1
        == viewer_id)
}

/// What a woken stream does next: skip back to waiting, or re-fetch the
/// conversation from durable state and push one freshly rendered frame.
#[derive(Debug, Clone, Copy, PartialEq, Eq, Structural)]
pub enum StreamAction {
    Skip,
    Refetch,
}

/// One decision step of the live stream loop: the stream re-fetches and
/// emits exactly when the observed event is its own conversation's pair,
/// in either direction, and stays silent otherwise.
pub fn on_event(viewer_id: i32, partner_id: i32, event: (i32, i32)) -> (r: StreamAction)
    ensures
        r == if spec_event_matches(viewer_id, partner_id, event) {
            StreamAction::Refetch
        } else {
            StreamAction::Skip
        },
{
    if event_matches(viewer_id, partner_id, event) {
        StreamAction::Refetch
    } else {
        StreamAction::Skip
    }
}

/// Reads the bus's most recent event for a woken stream and filters it:
/// the stream is handed an event exactly when it belongs to its own
/// conversation. Whatever the shared channel held at the moment of the
/// read, no event for another pair ever comes back.
pub fn next_update(listener: &Receiver<(i32, i32)>, viewer_id: i32, partner_id: i32) -> (r: Option<
    (i32, i32),
>)
    ensures
        r matches Some(e) ==> spec_event_matches(viewer_id, partner_id, e),
{
    let event = bus::latest_event(listener);
    if event_matches(viewer_id, partner_id, event) {
        Some(event)
    } else {
        None
    }
}

/// Law (no cross-talk): a stream for the pair `(viewer, partner)` never
/// acts on an event whose unordered endpoints are not exactly that pair:
/// if the event matches, its endpoint set is the conversation's endpoint
/// set.
pub proof fn lemma_no_cross_talk(viewer_id: i32, partner_id: i32, event: (i32, i32))
    ensures
        spec_event_matches(viewer_id, partner_id, event) ==> set![event.0, event.1] == set![
            viewer_id,
            partner_id,
        ],
        set![event.0, event.1] != set![viewer_id, partner_id] ==> !spec_event_matches(
            viewer_id,
            partner_id,
            event,
        ),
{
    if spec_event_matches(viewer_id, partner_id, event) {
        assert(set![event.0, event.1] =~= set![viewer_id, partner_id]);
    }
}

} // verus!
