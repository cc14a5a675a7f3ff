use vstd::prelude::*;

verus! {

/// An authored event that clip playback emits when it crosses a timestamp.
#[derive(Clone, Copy, PartialEq, Eq, Structural, Debug)]
pub struct AnimationEvent {
    pub signal_id: u64,
}

/// The events one clip has emitted since they were last drained, oldest
/// first.
pub struct SignalQueue {
    events: Vec<AnimationEvent>,
}

impl View for SignalQueue {
    type V = Seq<AnimationEvent>;

    closed spec fn view(&self) -> Seq<AnimationEvent> {
        self.events@
    }
}

/// What a drain hands out and what it leaves behind.
pub open spec fn drained(pending: Seq<AnimationEvent>) -> (Seq<AnimationEvent>, Seq<AnimationEvent>) {
    (pending, Seq::empty())
}

impl SignalQueue {
    pub fn new() -> (r: SignalQueue)
        ensures
            r@ == Seq::<AnimationEvent>::empty(),
    {
        SignalQueue { events: Vec::new() }
    }

    /// Appends an event that playback emitted.
    pub fn push(&mut self, event: AnimationEvent)
        ensures
            final(self)@ == old(self)@.push(event),
    {
        self.events.push(event);
    }

    /// Hands out every pending event, oldest first, and leaves the queue
    /// empty.
    pub fn drain(&mut self) -> (r: Vec<AnimationEvent>)
        ensures
            (r@, final(self)@) == drained(old(self)@),
    {
        let mut out: Vec<AnimationEvent> = Vec::new();
        std::mem::swap(&mut out, &mut self.events);
        out
    }
}

/// Draining twice with no playback in between hands out everything the
/// first time and nothing the second.
pub proof fn lemma_drain_twice(pending: Seq<AnimationEvent>)
    ensures
        drained(pending).0 == pending,
        drained(drained(pending).1).0 == Seq::<AnimationEvent>::empty(),
        drained(drained(pending).1).1 == Seq::<AnimationEvent>::empty(),
{
}

} // verus!
