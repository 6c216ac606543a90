use vstd::prelude::*;
use tokio::sync::watch::{Receiver, Sender};

verus! {

/// The sending half of the process-wide broadcast channel carrying
/// "a message was sent from A to B" events.
#[verifier::external_type_specification]
#[verifier::external_body]
#[verifier::reject_recursive_types(T)]
pub struct ExSender<T>(Sender<T>);

/// The receiving half: one per open streaming connection.
#[verifier::external_type_specification]
#[verifier::external_body]
#[verifier::reject_recursive_types(T)]
pub struct ExReceiver<T>(Receiver<T>);

/// Relies on tokio's watch::Sender::send_replace: it stores the value in
/// the channel's single slot and notifies receivers; it never fails and
/// never blocks, expressly also when there is no receiver at all (unlike
/// watch::Sender::send, which rejects a value when every receiver is
/// gone).
#[verifier::external_body]
fn watch_publish(bus: &Sender<(i32, i32)>, event: (i32, i32)) {
    bus.send_replace(event);
}

/// Relies on tokio's watch::Receiver::borrow: it yields the most recently
/// sent value. The channel is shared and mutable, so nothing relates two
/// reads; the stream logic therefore states what holds of whatever event
/// comes back.
#[verifier::external_body]
fn watch_latest(listener: &Receiver<(i32, i32)>) -> (i32, i32) {
    *listener.borrow()
}

/// Publishes a message-sent event on the bus. Best-effort by design: the
/// call cannot fail and does not block, and with zero subscribers the
/// event is simply dropped rather than buffered, since every subscriber
/// re-reads durable state when it wakes.
pub fn publish(bus: &Sender<(i32, i32)>, sender_id: i32, recipient_id: i32) {
    watch_publish(bus, (sender_id, recipient_id));
}

/// Reads the most recent event the bus carries, for a woken subscriber.
pub fn latest_event(listener: &Receiver<(i32, i32)>) -> (i32, i32) {
    watch_latest(listener)
}

/// A model of the channel the bus is built on: a single last-value-wins
/// slot with a version counter standing for the wake notification. The
/// trusted calls above are relied on to behave as this model does; the
/// model itself is fully verified and lets the bus's delivery rules be
/// stated and proved.
pub struct BusModel {
    /// The most recent event, if any was ever published.
    pub last: Option<(i32, i32)>,
    /// How many events were published; a subscriber that remembers the
    /// version it last observed can tell whether it missed anything.
    pub version: u64,
}

impl BusModel {
    pub fn new() -> (r: Self)
        ensures
            r.last is None,
            r.version == 0,
    {
        BusModel { last: None, version: 0 }
    }

    /// Publishing is total: it consults no subscriber list, cannot fail
    /// and overwrites the slot, so a publisher is never blocked and a slow
    /// subscriber skips intermediate events instead of queueing them.
    pub fn publish(&mut self, sender_id: i32, recipient_id: i32)
        requires
            old(self).version < u64::MAX,
        ensures
            final(self).last == Some((sender_id, recipient_id)),
            final(self).version == old(self).version + 1,
    {
        self.last = Some((sender_id, recipient_id));
        self.version = self.version + 1;
    }

    /// What a subscriber that last observed version `seen` wakes to: the
    /// newest event when anything was published since, and nothing
    /// otherwise. Only the most recent event is ever delivered; there is
    /// no backlog.
    pub fn observe(&self, seen: u64) -> (r: Option<((i32, i32), u64)>)
        ensures
            r == spec_observe(*self, seen),
    {
        match self.last {
            Some(e) => if seen < self.version {
                Some((e, self.version))
            } else {
                None
            },
            None => None,
        }
    }
}

/// What observing the slot yields: the newest event and its version, when
/// one was published after the subscriber's last look.
pub open spec fn spec_observe(bus: BusModel, seen: u64) -> Option<((i32, i32), u64)> {
    match bus.last {
        Some(e) => if seen < bus.version {
            Some((e, bus.version))
        } else {
            None
        },
        None => None,
    }
}

/// Law: the slot is last-value-wins. Once a newer event has replaced `a`
/// in the slot, no observation at any point of progress can hand `a` out
/// again; a slow subscriber skips it rather than seeing it late.
pub proof fn lemma_only_newest_observable(bus: BusModel, a: (i32, i32), seen: u64)
    requires
        bus.last != Some(a),
    ensures
        spec_observe(bus, seen) matches Some(p) ==> p.0 != a,
{
}

} // verus!
