use stream_bridge::e2ee::{
    CryptorAttachment, E2eeManager, E2eeOptions, EncryptionState, EncryptionType, KeyProvider,
    LocalParticipant, LocalTrackPublication, RemoteParticipant, RemoteTrackPublication,
    StateChanged,
};
use stream_bridge::ids::{ParticipantIdentity, TrackSid};
use stream_bridge::track::{
    LocalAudioTrack, LocalTrack, RemoteAudioTrack, RemoteTrack, RtcAudioSource, RtcAudioTrack,
    RtpReceiver, RtpSender, RtpTransceiver, NativeAudioSource,
};

fn options() -> Option<E2eeOptions> {
    Some(E2eeOptions {
        encryption_type: EncryptionType::Gcm,
        key_provider: KeyProvider { handle: 77 },
    })
}

fn remote_track(receiver_id: u64) -> RemoteTrack {
    RemoteTrack::Audio(RemoteAudioTrack {
        sid: TrackSid(3),
        rtc_track: RtcAudioTrack { id: 1, enabled: true },
        transceiver: Some(RtpTransceiver {
            sender: RtpSender { id: 100 },
            receiver: RtpReceiver { id: receiver_id },
        }),
        muted: false,
    })
}

fn publication(sid: u64) -> RemoteTrackPublication {
    RemoteTrackPublication { sid: TrackSid(sid), encryption_type: EncryptionType::Gcm }
}

fn participant(id: u64) -> RemoteParticipant {
    RemoteParticipant { identity: ParticipantIdentity(id) }
}

#[test]
fn unconfigured_manager_creates_no_binding_and_is_disabled() {
    // Scenario: configure with no options, then a lifecycle notification.
    let mut manager = E2eeManager::new(None);
    assert!(!manager.initialized());
    assert!(!manager.enabled());
    manager.on_track_subscribed(remote_track(1), publication(3), participant(1));
    assert!(manager.frame_cryptors().is_empty());
    assert!(!manager.enabled());
}

#[test]
fn configured_manager_is_enabled_by_default() {
    let manager = E2eeManager::new(options());
    assert!(manager.initialized());
    assert!(manager.enabled());
    assert_eq!(manager.encryption_type(), EncryptionType::Gcm);
    assert_eq!(manager.key_provider(), Some(KeyProvider { handle: 77 }));
}

#[test]
fn unconfigured_getters_degrade() {
    let manager = E2eeManager::new(None);
    assert_eq!(manager.encryption_type(), EncryptionType::NoEncryption);
    assert_eq!(manager.key_provider(), None);
}

#[test]
fn subscribe_creates_one_binding_with_current_flag() {
    let mut manager = E2eeManager::new(options());
    manager.on_track_subscribed(remote_track(8), publication(3), participant(1));
    let bindings = manager.frame_cryptors();
    assert_eq!(bindings.len(), 1);
    let b = bindings[0];
    assert_eq!(b.identity, ParticipantIdentity(1));
    assert_eq!(b.sid, TrackSid(3));
    assert!(b.cryptor.enabled);
    assert_eq!(b.cryptor.key_provider_handle, 77);
    assert_eq!(b.cryptor.attachment, CryptorAttachment::Receiver(8));
}

#[test]
fn unencrypted_publication_creates_no_binding() {
    let mut manager = E2eeManager::new(options());
    let publication = RemoteTrackPublication {
        sid: TrackSid(3),
        encryption_type: EncryptionType::NoEncryption,
    };
    manager.on_track_subscribed(remote_track(8), publication, participant(1));
    assert!(manager.frame_cryptors().is_empty());
}

#[test]
fn second_acquisition_with_same_key_wins() {
    // Two notifications with the same (identity, sid) key leave exactly one
    // binding, carrying the second transform.
    let mut manager = E2eeManager::new(options());
    manager.on_track_subscribed(remote_track(8), publication(3), participant(1));
    manager.on_track_subscribed(remote_track(9), publication(3), participant(1));
    let bindings = manager.frame_cryptors();
    assert_eq!(bindings.len(), 1);
    assert_eq!(bindings[0].cryptor.attachment, CryptorAttachment::Receiver(9));
}

#[test]
fn binding_count_equals_distinct_key_count() {
    let mut manager = E2eeManager::new(options());
    manager.on_track_subscribed(remote_track(1), publication(3), participant(1));
    manager.on_track_subscribed(remote_track(2), publication(4), participant(1));
    manager.on_track_subscribed(remote_track(3), publication(3), participant(2));
    manager.on_track_subscribed(remote_track(4), publication(3), participant(1));
    // Keys: (1,3), (1,4), (2,3) - the fourth call reused (1,3).
    assert_eq!(manager.frame_cryptors().len(), 3);
}

#[test]
fn acquire_then_release_returns_count_to_zero_and_second_release_is_noop() {
    let mut manager = E2eeManager::new(options());
    manager.on_track_subscribed(remote_track(8), publication(3), participant(1));
    assert_eq!(manager.frame_cryptors().len(), 1);
    manager.on_track_unsubscribed(remote_track(8), publication(3), participant(1));
    assert_eq!(manager.frame_cryptors().len(), 0);
    // A second release is a no-op, not an error.
    manager.on_track_unsubscribed(remote_track(8), publication(3), participant(1));
    assert_eq!(manager.frame_cryptors().len(), 0);
}

#[test]
fn remove_frame_cryptor_only_drops_the_named_key() {
    let mut manager = E2eeManager::new(options());
    manager.on_track_subscribed(remote_track(1), publication(3), participant(1));
    manager.on_track_subscribed(remote_track(2), publication(4), participant(1));
    manager.remove_frame_cryptor(ParticipantIdentity(1), TrackSid(3));
    let bindings = manager.frame_cryptors();
    assert_eq!(bindings.len(), 1);
    assert_eq!(bindings[0].sid, TrackSid(4));
}

#[test]
fn set_enabled_with_unchanged_value_propagates_nothing() {
    // The manager starts with the flag set; a repeated set_enabled(true)
    // leaves every binding untouched, twice.
    let mut manager = E2eeManager::new(options());
    manager.on_track_subscribed(remote_track(8), publication(3), participant(1));
    let before = manager.frame_cryptors();
    manager.set_enabled(true);
    assert_eq!(manager.frame_cryptors(), before);
    manager.set_enabled(true);
    assert_eq!(manager.frame_cryptors(), before);
}

#[test]
fn set_enabled_with_changed_value_applies_to_every_binding() {
    let mut manager = E2eeManager::new(options());
    manager.on_track_subscribed(remote_track(1), publication(3), participant(1));
    manager.on_track_subscribed(remote_track(2), publication(4), participant(2));
    manager.set_enabled(false);
    for b in manager.frame_cryptors() {
        assert!(!b.cryptor.enabled);
    }
}

#[test]
fn cleanup_clears_every_binding() {
    let mut manager = E2eeManager::new(options());
    manager.on_track_subscribed(remote_track(1), publication(3), participant(1));
    manager.on_track_subscribed(remote_track(2), publication(4), participant(2));
    manager.cleanup();
    assert!(manager.frame_cryptors().is_empty());
    // The configuration survives a cleanup.
    assert!(manager.initialized());
}

#[test]
fn local_publication_binds_the_sender() {
    let mut manager = E2eeManager::new(options());
    let mut track = LocalAudioTrack::create_audio_track(
        "microphone",
        RtcAudioSource::Native(NativeAudioSource { sample_rate: 48000, num_channels: 1 }),
    );
    track.set_transceiver(Some(RtpTransceiver {
        sender: RtpSender { id: 55 },
        receiver: RtpReceiver { id: 56 },
    }));
    let publication =
        LocalTrackPublication { sid: TrackSid(12), encryption_type: EncryptionType::Gcm };
    let participant = LocalParticipant { identity: ParticipantIdentity(4) };
    manager.on_local_track_published(LocalTrack::Audio(track), publication, participant);
    let bindings = manager.frame_cryptors();
    assert_eq!(bindings.len(), 1);
    assert_eq!(bindings[0].cryptor.attachment, CryptorAttachment::Sender(55));
    manager.on_local_track_unpublished(publication, participant);
    assert!(manager.frame_cryptors().is_empty());
}

#[test]
fn state_changes_are_forwarded_to_the_registered_observer() {
    let mut manager = E2eeManager::new(options());
    let (tx, mut rx) = tokio::sync::mpsc::unbounded_channel::<StateChanged>();
    // Without an observer nothing is forwarded.
    assert!(!manager.on_cryptor_state_changed(ParticipantIdentity(1), EncryptionState::New));
    manager.on_state_changed(tx);
    assert!(manager.on_cryptor_state_changed(ParticipantIdentity(1), EncryptionState::Active));
    let note = rx.try_recv().unwrap();
    assert_eq!(note.identity, ParticipantIdentity(1));
    assert_eq!(note.state, EncryptionState::Active);
    // A later registration replaces the former.
    let (tx2, mut rx2) = tokio::sync::mpsc::unbounded_channel::<StateChanged>();
    manager.on_state_changed(tx2);
    assert!(manager.on_cryptor_state_changed(ParticipantIdentity(2), EncryptionState::MissingKey));
    assert!(rx.try_recv().is_err());
    assert_eq!(rx2.try_recv().unwrap().identity, ParticipantIdentity(2));
}
