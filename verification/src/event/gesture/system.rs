//! Output buffer of the gesture recogniser and the resource holding both.
use vstd::prelude::*;

use super::event::GestureEvent;
use super::recognizer::GestureRecognizer;

verus! {

/// Gestures recognised since the buffer was last drained, oldest first.
pub struct GestureEvents {
    pub buffer: Vec<GestureEvent>,
}

impl GestureEvents {
    pub fn new() -> (r: GestureEvents)
        ensures
            r.buffer@ == Seq::<GestureEvent>::empty(),
    {
        GestureEvents { buffer: Vec::with_capacity(4) }
    }

    pub fn push(&mut self, event: GestureEvent)
        ensures
            final(self).buffer@ == old(self).buffer@.push(event),
    {
        self.buffer.push(event);
    }

    pub fn clear(&mut self)
        ensures
            final(self).buffer@ == Seq::<GestureEvent>::empty(),
    {
        self.buffer.clear();
    }

    /// Takes every buffered gesture out, oldest first, leaving the
    /// buffer empty.
    pub fn drain(&mut self) -> (out: Vec<GestureEvent>)
        ensures
            out@ == old(self).buffer@,
            final(self).buffer@ == Seq::<GestureEvent>::empty(),
    {
        let mut out = Vec::new();
        std::mem::swap(&mut out, &mut self.buffer);
        out
    }
}

/// The recogniser state machine together with its output buffer, kept
/// as one resource.
pub struct GestureSystem {
    pub recognizer: GestureRecognizer,
    pub events: GestureEvents,
}

impl GestureSystem {
    pub fn new() -> (r: GestureSystem)
        ensures
            r.recognizer == GestureRecognizer::initial(),
            r.events.buffer@ == Seq::<GestureEvent>::empty(),
    {
        GestureSystem { recognizer: GestureRecognizer::new(), events: GestureEvents::new() }
    }
}

} // verus!
