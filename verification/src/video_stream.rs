//! The stream bridge: setup of a video stream over a registered track, and
//! the producer state machine that turns source items into registry handles
//! plus ordered events, with a guaranteed terminal end-of-stream event.
//!
//! The asynchronous run loop itself (racing the close signal against the
//! next source item) lives outside the library; it drives the producer by
//! calling `on_frame`, `request_stop` and `finish`, in that discipline.

use vstd::prelude::*;

use crate::channel::{fire_close_signal, new_close_signal};
use crate::errors::FfiError;
use crate::events::{is_eos, EventPayload, EventSink, StreamEvent};
use crate::registry::{HandleRegistry, Resource, ResourceKind};

verus! {

#[derive(Clone, Copy, Debug, PartialEq, Eq, Structural)]
pub enum VideoStreamType {
    Native,
    WebGl,
    Html,
}

/// Model of one decoded frame buffer: the payload stored under an item
/// handle.
#[derive(Clone, Copy, Debug, PartialEq, Eq, Structural)]
pub struct FrameBuffer {
    pub width: u32,
    pub height: u32,
}

/// Model of one produced frame: descriptive info plus its buffer.
#[derive(Clone, Copy, Debug, PartialEq, Eq, Structural)]
pub struct VideoFrame {
    pub timestamp_us: i64,
    pub rotation: u32,
    pub buffer: FrameBuffer,
}

/// The stream resource stored in the registry. Releasing its handle fires
/// the close signal towards the producer task.
pub struct FfiVideoStream {
    pub handle_id: u64,
    pub stream_type: VideoStreamType,
    close_tx: Option<tokio::sync::oneshot::Sender<()>>,
}

impl FfiVideoStream {
    pub closed spec fn handle_id_spec(self) -> u64 {
        self.handle_id
    }

    pub closed spec fn stream_type_spec(self) -> VideoStreamType {
        self.stream_type
    }

    /// Fires the cancellation signal, if the stream still holds one. A
    /// signal sent after the producer already terminated fails silently.
    pub fn signal_close(self) {
        if let Some(tx) = self.close_tx {
            fire_close_signal(tx);
        }
    }
}

/// The lifecycle of a producer: `Running` pulls items, `Closing` has stopped
/// pulling but still owes the end-of-stream event, `Closed` is terminal.
#[derive(Clone, Copy, Debug, PartialEq, Eq, Structural)]
pub enum StreamPhase {
    Running,
    Closing,
    Closed,
}

pub open spec fn item_event(stream_handle: u64, item_handle: u64, frame: VideoFrame) -> StreamEvent {
    StreamEvent {
        stream_handle,
        payload: EventPayload::ItemReceived { item_handle, frame },
    }
}

pub open spec fn eos_event(stream_handle: u64) -> StreamEvent {
    StreamEvent { stream_handle, payload: EventPayload::EndOfStream }
}

/// The per-stream producer: tracks the phase and, as ghost state, the exact
/// sequence of events this stream has submitted to the sink.
pub struct StreamProducer {
    stream_handle: u64,
    phase: StreamPhase,
    emitted: Ghost<Seq<StreamEvent>>,
}

impl StreamProducer {
    pub closed spec fn handle(self) -> u64 {
        self.stream_handle
    }

    pub closed spec fn phase(self) -> StreamPhase {
        self.phase
    }

    /// The events this stream has submitted, in submission order.
    pub closed spec fn emitted(self) -> Seq<StreamEvent> {
        self.emitted@
    }

    /// Every event carries this stream's handle; before the terminal phase
    /// no end-of-stream was emitted; once closed, the sequence ends with the
    /// single end-of-stream event.
    pub open spec fn wf(self) -> bool {
        &&& forall|i: int|
            0 <= i < self.emitted().len() ==> (#[trigger] self.emitted()[i]).stream_handle
                == self.handle()
        &&& if self.phase() is Closed {
            &&& self.emitted().len() >= 1
            &&& is_eos(self.emitted().last())
            &&& forall|i: int| 0 <= i < self.emitted().len() - 1 ==> !is_eos(#[trigger] self.emitted()[i])
        } else {
            forall|i: int| 0 <= i < self.emitted().len() ==> !is_eos(#[trigger] self.emitted()[i])
        }
    }

    /// Whether the producer still pulls items.
    pub fn is_running(&self) -> (r: bool)
        ensures
            r == (self.phase() == StreamPhase::Running),
    {
        self.phase == StreamPhase::Running
    }

    /// Whether the producer reached its terminal phase.
    pub fn is_closed(&self) -> (r: bool)
        ensures
            r == (self.phase() == StreamPhase::Closed),
    {
        self.phase == StreamPhase::Closed
    }

    pub fn new(stream_handle: u64) -> (p: StreamProducer)
        ensures
            p.wf(),
            p.handle() == stream_handle,
            p.phase() == StreamPhase::Running,
            p.emitted() == Seq::<StreamEvent>::empty(),
    {
        StreamProducer { stream_handle, phase: StreamPhase::Running, emitted: Ghost(Seq::empty()) }
    }

    /// One source item arrived: store its buffer under a fresh handle and
    /// submit the item event. A delivery failure is reported but never stops
    /// the stream. Returns the fresh item handle and whether delivery
    /// succeeded.
    pub fn on_frame(&mut self, registry: &mut HandleRegistry, sink: &mut EventSink, frame:
        VideoFrame) -> (r: (u64, bool))
        requires
            old(self).wf(),
            old(self).phase() == StreamPhase::Running,
            old(registry).wf(),
            old(registry).can_allocate(),
        ensures
            final(self).wf(),
            final(registry).wf(),
            old(registry).evolves_to(*final(registry)),
            final(self).handle() == old(self).handle(),
            final(self).phase() == StreamPhase::Running,
            r.0 == old(registry).next(),
            final(registry).next() == old(registry).next() + 1,
            final(registry).signals() == old(registry).signals(),
            !old(registry).issued(r.0),
            final(registry).issued(r.0),
            final(registry).as_map() == old(registry).as_map().insert(
                r.0,
                Resource::Buffer(frame.buffer),
            ),
            final(self).emitted() == old(self).emitted().push(
                item_event(old(self).handle(), r.0, frame),
            ),
            final(sink).history() == old(sink).history().push(
                item_event(old(self).handle(), r.0, frame),
            ),
    {
        let item_handle = registry.allocate();
        let stored = registry.store(item_handle, Resource::Buffer(frame.buffer));
        match stored {
            Ok(()) => {},
            Err(_) => {
                assert(false);
            },
        }
        let event = StreamEvent {
            stream_handle: self.stream_handle,
            payload: EventPayload::ItemReceived { item_handle, frame },
        };
        proof {
            self.emitted@ = self.emitted@.push(event);
        }
        let delivered = match sink.emit(event) {
            Ok(()) => true,
            Err(_) => false,
        };
        (item_handle, delivered)
    }

    /// The close signal fired or the source reported exhaustion: stop
    /// pulling items. The end-of-stream event is still owed.
    pub fn request_stop(&mut self)
        requires
            old(self).wf(),
            old(self).phase() != StreamPhase::Closed,
        ensures
            final(self).wf(),
            final(self).handle() == old(self).handle(),
            final(self).phase() == StreamPhase::Closing,
            final(self).emitted() == old(self).emitted(),
    {
        self.phase = StreamPhase::Closing;
    }

    /// Unconditionally submits the single end-of-stream event and reaches
    /// the terminal phase, even when earlier deliveries failed. When the
    /// stream is cancelled before any item, the whole event sequence is
    /// exactly that one end-of-stream event.
    pub fn finish(&mut self, sink: &mut EventSink) -> (delivered: bool)
        requires
            old(self).wf(),
            old(self).phase() != StreamPhase::Closed,
        ensures
            final(self).wf(),
            final(self).handle() == old(self).handle(),
            final(self).phase() == StreamPhase::Closed,
            final(self).emitted() == old(self).emitted().push(eos_event(old(self).handle())),
            final(sink).history() == old(sink).history().push(eos_event(old(self).handle())),
            old(self).emitted().len() == 0 ==> final(self).emitted() =~= seq![
                eos_event(old(self).handle()),
            ],
    {
        self.phase = StreamPhase::Closed;
        let event = StreamEvent {
            stream_handle: self.stream_handle,
            payload: EventPayload::EndOfStream,
        };
        proof {
            self.emitted@ = self.emitted@.push(event);
        }
        let delivered = match sink.emit(event) {
            Ok(()) => true,
            Err(_) => false,
        };
        delivered
    }
}

/// Everything `setup` hands back: the stream's handle and metadata, the
/// producer to drive, and the receiving half of the close signal for the
/// run loop to await.
pub struct StreamSetup {
    pub handle: u64,
    pub stream_type: VideoStreamType,
    pub producer: StreamProducer,
    pub close_rx: tokio::sync::oneshot::Receiver<()>,
}

/// Validation of a setup request against the registry contents: the precise
/// error owed for each way the request can be malformed.
pub open spec fn setup_validation(
    m: Map<u64, Resource>,
    track_handle: u64,
    stream_type: VideoStreamType,
) -> Result<(), FfiError> {
    if !m.contains_key(track_handle) {
        Err(FfiError::InvalidHandle)
    } else if !(m[track_handle] is Track) {
        Err(FfiError::TypeMismatch)
    } else if !(m[track_handle]->Track_0.rtc_track_spec() is Video) {
        Err(FfiError::InvalidRequest)
    } else if stream_type != VideoStreamType::Native {
        Err(FfiError::InvalidRequest)
    } else {
        Ok(())
    }
}

impl FfiVideoStream {
    /// Sets up a new video stream over the track stored under
    /// `track_handle`: validates that the source is a video track of a
    /// supported stream type, allocates the stream's handle, stores the
    /// stream resource (carrying the close signal) under it, and returns
    /// the producer for the run loop to drive. Fails, leaving the registry
    /// contents untouched, exactly when validation fails.
    pub fn setup(registry: &mut HandleRegistry, track_handle: u64, stream_type: VideoStreamType)
        -> (r: Result<StreamSetup, FfiError>)
        requires
            old(registry).wf(),
            old(registry).can_allocate(),
        ensures
            final(registry).wf(),
            old(registry).evolves_to(*final(registry)),
            final(registry).signals() == old(registry).signals(),
            r is Ok <==> setup_validation(old(registry).as_map(), track_handle, stream_type)
                is Ok,
            match r {
                Ok(s) => {
                    &&& s.handle == old(registry).next()
                    &&& final(registry).next() == old(registry).next() + 1
                    &&& !old(registry).issued(s.handle)
                    &&& final(registry).issued(s.handle)
                    &&& s.stream_type == stream_type
                    &&& final(registry).as_map().contains_key(s.handle)
                    &&& (final(registry).as_map()[s.handle] matches Resource::VideoStream(vs)
                        && vs.handle_id_spec() == s.handle && vs.stream_type_spec() == stream_type)
                    &&& forall|k: u64|
                        k != s.handle ==> (#[trigger] final(registry).as_map().contains_key(k)
                            <==> old(registry).as_map().contains_key(k)) && (old(
                            registry,
                        ).as_map().contains_key(k) ==> final(registry).as_map()[k] == old(
                            registry,
                        ).as_map()[k])
                    &&& s.producer.wf()
                    &&& s.producer.handle() == s.handle
                    &&& s.producer.phase() == StreamPhase::Running
                    &&& s.producer.emitted() == Seq::<StreamEvent>::empty()
                },
                Err(e) => {
                    &&& final(registry).as_map() == old(registry).as_map()
                    &&& final(registry).next() == old(registry).next()
                    &&& Err::<(), FfiError>(e) == setup_validation(
                        old(registry).as_map(),
                        track_handle,
                        stream_type,
                    )
                },
            },
    {
        let retrieved = registry.retrieve(track_handle, ResourceKind::Track);
        let track = match retrieved {
            Ok(res) => res,
            Err(e) => {
                return Err(e);
            },
        };
        let rtc = match track {
            Resource::Track(t) => t.rtc_track(),
            _ => {
                assert(false);
                return Err(FfiError::TypeMismatch);
            },
        };
        match rtc {
            crate::track::MediaStreamTrack::Video(_) => {},
            _ => {
                return Err(FfiError::InvalidRequest);
            },
        }
        if stream_type != VideoStreamType::Native {
            return Err(FfiError::InvalidRequest);
        }
        let handle_id = registry.allocate();
        let (close_tx, close_rx) = new_close_signal();
        let stream = FfiVideoStream { handle_id, stream_type, close_tx: Some(close_tx) };
        let stored = registry.store(handle_id, Resource::VideoStream(stream));
        match stored {
            Ok(()) => {},
            Err(e) => {
                assert(false);
                return Err(e);
            },
        }
        Ok(StreamSetup {
            handle: handle_id,
            stream_type,
            producer: StreamProducer::new(handle_id),
            close_rx,
        })
    }
}

/// Law: once a stream is closed, the event sequence it delivered ends with
/// exactly one end-of-stream event: the last event is the terminus and no
/// earlier event is one. No producer step accepts a closed stream, so no
/// event ever follows it.
pub proof fn lemma_closed_stream_terminal_shape(p: StreamProducer)
    requires
        p.wf(),
        p.phase() == StreamPhase::Closed,
    ensures
        p.emitted().len() >= 1,
        is_eos(p.emitted().last()),
        forall|i: int| 0 <= i < p.emitted().len() - 1 ==> !is_eos(#[trigger] p.emitted()[i]),
{
}

} // verus!
