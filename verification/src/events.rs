//! Structured stream events and the ordered, fallible delivery channel to
//! the external caller.

use vstd::prelude::*;

use crate::errors::FfiError;
use crate::video_stream::VideoFrame;

verus! {

/// Payload of a stream event: either an item handed over under a fresh
/// handle, or the definitive end of the stream.
#[derive(Clone, Copy, Debug, PartialEq, Eq, Structural)]
pub enum EventPayload {
    ItemReceived { item_handle: u64, frame: VideoFrame },
    EndOfStream,
}

/// An immutable event referencing the originating stream's handle.
#[derive(Clone, Copy, Debug, PartialEq, Eq, Structural)]
pub struct StreamEvent {
    pub stream_handle: u64,
    pub payload: EventPayload,
}

pub open spec fn is_eos(e: StreamEvent) -> bool {
    e.payload is EndOfStream
}

/// Ordered delivery channel from producers to the external caller. The
/// history records every event submitted, in submission order; delivery of
/// an individual event may fail (the receiver may be gone) and such a
/// failure is never fatal to the submitting producer.
pub struct EventSink {
    tx: tokio::sync::mpsc::UnboundedSender<StreamEvent>,
    history: Ghost<Seq<StreamEvent>>,
}

impl EventSink {
    /// All events ever submitted, in order.
    pub closed spec fn history(self) -> Seq<StreamEvent> {
        self.history@
    }

    pub fn new(tx: tokio::sync::mpsc::UnboundedSender<StreamEvent>) -> (s: EventSink)
        ensures
            s.history() == Seq::<StreamEvent>::empty(),
    {
        EventSink { tx, history: Ghost(Seq::empty()) }
    }

    /// Submits one event. The event always enters the history; the result
    /// only reports whether the external receiver was still there.
    pub fn emit(&mut self, event: StreamEvent) -> (r: Result<(), FfiError>)
        ensures
            final(self).history() == old(self).history().push(event),
            r matches Err(e) ==> e == FfiError::DeliveryFailure,
    {
        proof {
            self.history@ = self.history@.push(event);
        }
        if crate::channel::send_unbounded(&self.tx, event) {
            Ok(())
        } else {
            Err(FfiError::DeliveryFailure)
        }
    }
}

} // verus!
