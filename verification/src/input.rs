//! Input capture: normalized pointer events and the queue that carries
//! them from the host's event-dispatch thread to the overlay frame.
//!
//! Positions are carried in thousandths of a logical point so that the
//! host's fractional coordinates survive the trip as plain values.

use vstd::prelude::*;

verus! {

/// The normalized phase of a pointer contact.
#[derive(Clone, Copy, Debug, PartialEq, Eq, Structural)]
pub enum TouchPhase {
    /// The contact began.
    Start,
    /// The contact moved, or is in a phase with no normalized meaning
    /// (stationary, unrecognized).
    Move,
    /// The contact ended.
    End,
    /// The host cancelled the contact.
    Cancel,
}

/// The normalized phase of a host-native phase value: the host reports
/// began as 0, ended as 3 and cancelled as 4; everything else (moved,
/// stationary, future values) normalizes to `Move`.
pub open spec fn native_phase(raw: int) -> TouchPhase {
    if raw == 0 {
        TouchPhase::Start
    } else if raw == 3 {
        TouchPhase::End
    } else if raw == 4 {
        TouchPhase::Cancel
    } else {
        TouchPhase::Move
    }
}

/// Maps the host's native phase enumeration to the normalized phase.
pub fn phase_from_native(raw: isize) -> (p: TouchPhase)
    ensures
        p == native_phase(raw as int),
{
    if raw == 0 {
        TouchPhase::Start
    } else if raw == 3 {
        TouchPhase::End
    } else if raw == 4 {
        TouchPhase::Cancel
    } else {
        TouchPhase::Move
    }
}

/// The host dispatches pointer/touch events under event type zero; all
/// other event classes are left alone.
pub fn is_touch_event(event_type: isize) -> (r: bool)
    ensures
        r <==> event_type == 0,
{
    event_type == 0
}

/// One normalized pointer event.
#[derive(Clone, Copy, Debug, PartialEq, Eq, Structural)]
pub struct PointerEvent {
    /// Stable per-contact identifier, derived from the host's own
    /// per-contact object identity.
    pub contact_id: u64,
    /// The normalized phase.
    pub phase: TouchPhase,
    /// Position in the host's local coordinate space, thousandths of a
    /// logical point.
    pub x_milli: i64,
    /// Position in the host's local coordinate space, thousandths of a
    /// logical point.
    pub y_milli: i64,
}

/// Builds the normalized event for one observed contact.
pub fn normalize_touch(contact_id: u64, raw_phase: isize, x_milli: i64, y_milli: i64) -> (e:
    PointerEvent)
    ensures
        e == (PointerEvent {
            contact_id,
            phase: native_phase(raw_phase as int),
            x_milli,
            y_milli,
        }),
{
    PointerEvent { contact_id, phase: phase_from_native(raw_phase), x_milli, y_milli }
}

/// The queue of normalized pointer events. The capture shim appends from
/// the host's dispatch thread; the overlay drains once per frame. The
/// mutual-exclusion lock around each access lives with the caller; the
/// queue itself carries the append/drain behavior.
pub struct InputQueue {
    events: Vec<PointerEvent>,
}

impl View for InputQueue {
    type V = Seq<PointerEvent>;

    /// The queued events, oldest first.
    closed spec fn view(&self) -> Seq<PointerEvent> {
        self.events@
    }
}

impl InputQueue {
    /// An empty queue.
    pub fn new() -> (q: InputQueue)
        ensures
            q@ == Seq::<PointerEvent>::empty(),
    {
        InputQueue { events: Vec::new() }
    }

    /// Appends one event at the back of the queue.
    pub fn append(&mut self, e: PointerEvent)
        ensures
            final(self)@ == old(self)@.push(e),
    {
        self.events.push(e);
    }

    /// How many events are waiting.
    pub fn len(&self) -> (n: usize)
        ensures
            n == self@.len(),
    {
        self.events.len()
    }

    /// Takes every queued event, in append order, and leaves the queue
    /// empty: each event is delivered to exactly one drain.
    pub fn drain(&mut self) -> (drained: Vec<PointerEvent>)
        ensures
            drained@ == old(self)@,
            final(self)@ == Seq::<PointerEvent>::empty(),
    {
        let mut taken: Vec<PointerEvent> = Vec::new();
        core::mem::swap(&mut taken, &mut self.events);
        taken
    }
}

/// A run of appends, oldest first, on top of already-queued events.
pub open spec fn appended(queued: Seq<PointerEvent>, appends: Seq<PointerEvent>) -> Seq<
    PointerEvent,
>
    decreases appends.len(),
{
    if appends.len() == 0 {
        queued
    } else {
        appended(queued.push(appends[0]), appends.drop_first())
    }
}

/// Law: appending events and then draining yields exactly the appended
/// events in append order (after whatever was queued before), and the
/// drained queue is empty, so a second drain with no intervening append
/// yields the empty sequence.
pub proof fn lemma_queue_round_trip(queued: Seq<PointerEvent>, appends: Seq<PointerEvent>)
    ensures
        appended(queued, appends) == queued + appends,
        appended(Seq::<PointerEvent>::empty(), appends) == appends,
    decreases appends.len(),
{
    if appends.len() == 0 {
        assert(appended(queued, appends) =~= queued + appends);
        assert(appended(Seq::<PointerEvent>::empty(), appends) =~= appends);
    } else {
        lemma_queue_round_trip(queued.push(appends[0]), appends.drop_first());
        assert(queued.push(appends[0]) + appends.drop_first() =~= queued + appends);
        lemma_queue_round_trip(Seq::<PointerEvent>::empty().push(appends[0]), appends.drop_first());
        assert(Seq::<PointerEvent>::empty().push(appends[0]) + appends.drop_first() =~= appends);
        assert(appended(Seq::<PointerEvent>::empty(), appends) =~= appends);
    }
}

} // verus!
