use stream_bridge::errors::FfiError;
use stream_bridge::events::{EventPayload, EventSink, StreamEvent};
use stream_bridge::ids::TrackSid;
use stream_bridge::registry::{HandleRegistry, Resource, ResourceKind};
use stream_bridge::track::{
    RemoteAudioTrack, RemoteVideoTrack, RtcAudioTrack, RtcVideoTrack, Track,
};
use stream_bridge::video_stream::{FfiVideoStream, FrameBuffer, VideoFrame, VideoStreamType};

fn video_track() -> Resource {
    Resource::Track(Track::RemoteVideo(RemoteVideoTrack {
        sid: TrackSid(9),
        rtc_track: RtcVideoTrack { id: 5, enabled: true },
        transceiver: None,
        muted: false,
    }))
}

fn audio_track() -> Resource {
    Resource::Track(Track::RemoteAudio(RemoteAudioTrack {
        sid: TrackSid(10),
        rtc_track: RtcAudioTrack { id: 6, enabled: true },
        transceiver: None,
        muted: false,
    }))
}

fn frame(n: i64) -> VideoFrame {
    VideoFrame {
        timestamp_us: n,
        rotation: 0,
        buffer: FrameBuffer { width: 100 + n as u32, height: 200 },
    }
}

fn store_track(registry: &mut HandleRegistry, resource: Resource) -> u64 {
    let h = registry.allocate();
    registry.store(h, resource).unwrap();
    h
}

#[test]
fn setup_on_video_track_succeeds() {
    let mut registry = HandleRegistry::new();
    let track_handle = store_track(&mut registry, video_track());
    let setup = FfiVideoStream::setup(&mut registry, track_handle, VideoStreamType::Native)
        .expect("setup on a video track must succeed");
    assert_eq!(setup.stream_type, VideoStreamType::Native);
    assert_ne!(setup.handle, track_handle);
    // The stream resource is stored under the returned handle.
    assert!(registry.retrieve(setup.handle, ResourceKind::VideoStream).is_ok());
}

#[test]
fn setup_on_audio_track_is_invalid_request() {
    let mut registry = HandleRegistry::new();
    let track_handle = store_track(&mut registry, audio_track());
    let r = FfiVideoStream::setup(&mut registry, track_handle, VideoStreamType::Native);
    assert!(matches!(r, Err(FfiError::InvalidRequest)));
}

#[test]
fn setup_with_unsupported_stream_type_is_invalid_request() {
    let mut registry = HandleRegistry::new();
    let track_handle = store_track(&mut registry, video_track());
    let r = FfiVideoStream::setup(&mut registry, track_handle, VideoStreamType::WebGl);
    assert!(matches!(r, Err(FfiError::InvalidRequest)));
}

#[test]
fn setup_on_absent_handle_is_invalid_handle() {
    let mut registry = HandleRegistry::new();
    let r = FfiVideoStream::setup(&mut registry, 12345, VideoStreamType::Native);
    assert!(matches!(r, Err(FfiError::InvalidHandle)));
}

#[test]
fn setup_on_non_track_resource_is_type_mismatch() {
    let mut registry = HandleRegistry::new();
    let h = registry.allocate();
    registry
        .store(h, Resource::Buffer(FrameBuffer { width: 1, height: 1 }))
        .unwrap();
    let r = FfiVideoStream::setup(&mut registry, h, VideoStreamType::Native);
    assert!(matches!(r, Err(FfiError::TypeMismatch)));
}

#[test]
fn stream_delivers_items_in_order_then_end_of_stream() {
    // Scenario: setup over a supported source, receive N item events in
    // source-emission order, release the handle externally, then the final
    // event is the end-of-stream terminus.
    let (tx, mut rx) = tokio::sync::mpsc::unbounded_channel::<StreamEvent>();
    let mut sink = EventSink::new(tx);
    let mut registry = HandleRegistry::new();
    let track_handle = store_track(&mut registry, video_track());
    let mut setup =
        FfiVideoStream::setup(&mut registry, track_handle, VideoStreamType::Native).unwrap();

    let mut item_handles = Vec::new();
    for n in 0..3 {
        let (item_handle, delivered) =
            setup
                .producer
                .on_frame(&mut registry, &mut sink, frame(n));
        assert!(delivered);
        item_handles.push(item_handle);
    }

    // Releasing the stream's handle fires the cancellation signal.
    registry.release(setup.handle).unwrap();
    assert!(setup.close_rx.try_recv().is_ok());
    setup.producer.request_stop();
    let delivered = setup.producer.finish(&mut sink);
    assert!(delivered);

    for n in 0..3 {
        let ev = rx.try_recv().expect("item event expected");
        assert_eq!(ev.stream_handle, setup.handle);
        match ev.payload {
            EventPayload::ItemReceived { item_handle, frame: f } => {
                assert_eq!(item_handle, item_handles[n as usize]);
                assert_eq!(f, frame(n));
            }
            other => panic!("expected an item event, got {:?}", other),
        }
        // Each item's buffer is retrievable under its fresh handle.
        assert!(registry
            .retrieve(item_handles[n as usize], ResourceKind::Buffer)
            .is_ok());
    }
    let last = rx.try_recv().expect("end-of-stream event expected");
    assert_eq!(
        last,
        StreamEvent { stream_handle: setup.handle, payload: EventPayload::EndOfStream }
    );
    assert!(rx.try_recv().is_err(), "no event may follow the end-of-stream");
}

#[test]
fn cancel_before_first_item_yields_only_end_of_stream() {
    let (tx, mut rx) = tokio::sync::mpsc::unbounded_channel::<StreamEvent>();
    let mut sink = EventSink::new(tx);
    let mut registry = HandleRegistry::new();
    let track_handle = store_track(&mut registry, video_track());
    let mut setup =
        FfiVideoStream::setup(&mut registry, track_handle, VideoStreamType::Native).unwrap();

    registry.release(setup.handle).unwrap();
    assert!(setup.close_rx.try_recv().is_ok());
    setup.producer.request_stop();
    setup.producer.finish(&mut sink);

    let only = rx.try_recv().expect("exactly one event expected");
    assert_eq!(
        only,
        StreamEvent { stream_handle: setup.handle, payload: EventPayload::EndOfStream }
    );
    assert!(rx.try_recv().is_err());
}

#[test]
fn delivery_failure_is_not_fatal_to_the_producer() {
    let (tx, rx) = tokio::sync::mpsc::unbounded_channel::<StreamEvent>();
    drop(rx);
    let mut sink = EventSink::new(tx);
    let mut registry = HandleRegistry::new();
    let track_handle = store_track(&mut registry, video_track());
    let mut setup =
        FfiVideoStream::setup(&mut registry, track_handle, VideoStreamType::Native).unwrap();

    let (_, delivered) = setup.producer.on_frame(&mut registry, &mut sink, frame(1));
    assert!(!delivered);
    // The producer proceeds to its own termination sequence regardless.
    setup.producer.request_stop();
    let delivered = setup.producer.finish(&mut sink);
    assert!(!delivered);
}

#[test]
fn emit_reports_delivery_failure_when_receiver_is_gone() {
    let (tx, rx) = tokio::sync::mpsc::unbounded_channel::<StreamEvent>();
    drop(rx);
    let mut sink = EventSink::new(tx);
    let r = sink.emit(StreamEvent { stream_handle: 1, payload: EventPayload::EndOfStream });
    assert!(matches!(r, Err(FfiError::DeliveryFailure)));
}

#[test]
fn close_signal_after_producer_end_is_silent() {
    let mut registry = HandleRegistry::new();
    let track_handle = store_track(&mut registry, video_track());
    let setup =
        FfiVideoStream::setup(&mut registry, track_handle, VideoStreamType::Native).unwrap();
    // The run loop terminated and dropped its receiving half.
    drop(setup.close_rx);
    // Releasing the handle still succeeds: the late signal fails silently.
    assert!(registry.release(setup.handle).is_ok());
}
