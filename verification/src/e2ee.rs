//! Per-(participant, track) secure channel manager: tracks one frame
//! transform instance per key, reacts to publish / subscribe lifecycle
//! notifications, propagates the global enabled flag, and forwards
//! per-transform state changes to a single registered observer.

use vstd::prelude::*;
use vstd::seq_lib::*;

use crate::ids::{ParticipantIdentity, TrackSid};
use crate::track::{LocalTrack, RemoteTrack, RtpReceiver, RtpSender};

verus! {

/// Encryption scheme requested for a published track. `NoEncryption` means
/// the track takes no transform at all.
#[derive(Clone, Copy, Debug, PartialEq, Eq, Structural)]
pub enum EncryptionType {
    NoEncryption,
    Gcm,
    Custom,
}

/// Reported state of one transform instance.
#[derive(Clone, Copy, Debug, PartialEq, Eq, Structural)]
pub enum EncryptionState {
    New,
    Active,
    EncryptionFailed,
    DecryptionFailed,
    MissingKey,
    KeyRatcheted,
    InternalError,
}

#[derive(Clone, Copy, Debug, PartialEq, Eq, Structural)]
pub enum EncryptionAlgorithm {
    AesGcm,
    AesCbc,
}

/// Key material provider, referenced by its opaque native handle.
#[derive(Clone, Copy, Debug, PartialEq, Eq, Structural)]
pub struct KeyProvider {
    pub handle: u64,
}

/// Manager-wide configuration; absent configuration deactivates the whole
/// subsystem.
#[derive(Clone, Copy, Debug, PartialEq, Eq, Structural)]
pub struct E2eeOptions {
    pub encryption_type: EncryptionType,
    pub key_provider: KeyProvider,
}

/// What a transform instance is attached to: the RTP sender of a published
/// track or the RTP receiver of a subscribed one.
#[derive(Clone, Copy, Debug, PartialEq, Eq, Structural)]
pub enum CryptorAttachment {
    Sender(u64),
    Receiver(u64),
}

/// Model of one frame transform instance.
#[derive(Clone, Copy, Debug, PartialEq, Eq, Structural)]
pub struct FrameCryptor {
    pub participant_identity: ParticipantIdentity,
    pub algorithm: EncryptionAlgorithm,
    pub key_provider_handle: u64,
    pub enabled: bool,
    pub attachment: CryptorAttachment,
}

/// One binding: the transform instance keyed by (identity, track sid).
#[derive(Clone, Copy, Debug, PartialEq, Eq, Structural)]
pub struct CryptoBinding {
    pub identity: ParticipantIdentity,
    pub sid: TrackSid,
    pub cryptor: FrameCryptor,
}

/// State-change notification forwarded to the registered observer, tagged
/// with the originating identity.
#[derive(Clone, Copy, Debug, PartialEq, Eq, Structural)]
pub struct StateChanged {
    pub identity: ParticipantIdentity,
    pub state: EncryptionState,
}

/// A subscribed track's publication info, as far as this manager reads it.
#[derive(Clone, Copy, Debug, PartialEq, Eq, Structural)]
pub struct RemoteTrackPublication {
    pub sid: TrackSid,
    pub encryption_type: EncryptionType,
}

#[derive(Clone, Copy, Debug, PartialEq, Eq, Structural)]
pub struct RemoteParticipant {
    pub identity: ParticipantIdentity,
}

/// A locally published track's publication info.
#[derive(Clone, Copy, Debug, PartialEq, Eq, Structural)]
pub struct LocalTrackPublication {
    pub sid: TrackSid,
    pub encryption_type: EncryptionType,
}

#[derive(Clone, Copy, Debug, PartialEq, Eq, Structural)]
pub struct LocalParticipant {
    pub identity: ParticipantIdentity,
}

pub open spec fn key_of(b: CryptoBinding) -> (ParticipantIdentity, TrackSid) {
    (b.identity, b.sid)
}

pub open spec fn has_key(s: Seq<CryptoBinding>, k: (ParticipantIdentity, TrackSid)) -> bool {
    exists|i: int| 0 <= i < s.len() && key_of(#[trigger] s[i]) == k
}

/// The unique index holding key `k` (meaningful when `has_key` and the keys
/// are pairwise distinct).
pub open spec fn index_of_key(s: Seq<CryptoBinding>, k: (ParticipantIdentity, TrackSid)) -> int {
    choose|i: int| 0 <= i < s.len() && key_of(#[trigger] s[i]) == k
}

pub open spec fn distinct_keys(s: Seq<CryptoBinding>) -> bool {
    forall|i: int, j: int|
        0 <= i < j < s.len() ==> key_of(#[trigger] s[i]) != key_of(#[trigger] s[j])
}

/// Removes the binding with key `k`, when present.
pub open spec fn remove_key(s: Seq<CryptoBinding>, k: (ParticipantIdentity, TrackSid)) -> Seq<
    CryptoBinding,
> {
    if has_key(s, k) {
        s.remove(index_of_key(s, k))
    } else {
        s
    }
}

/// Last-writer-wins insertion: any prior binding for the same key is
/// silently replaced.
pub open spec fn upsert(s: Seq<CryptoBinding>, b: CryptoBinding) -> Seq<CryptoBinding> {
    remove_key(s, key_of(b)).push(b)
}

pub open spec fn with_enabled(b: CryptoBinding, enabled: bool) -> CryptoBinding {
    CryptoBinding { cryptor: FrameCryptor { enabled, ..b.cryptor }, ..b }
}

/// Applying the flag to every binding.
pub open spec fn propagate(s: Seq<CryptoBinding>, enabled: bool) -> Seq<CryptoBinding> {
    s.map_values(|b: CryptoBinding| with_enabled(b, enabled))
}

/// Effect of `set_enabled` on the bindings: a no-op on an unchanged value,
/// otherwise the flag is applied to every binding.
pub open spec fn set_enabled_spec(flag: bool, s: Seq<CryptoBinding>, enabled: bool) -> Seq<
    CryptoBinding,
> {
    if enabled == flag {
        s
    } else {
        propagate(s, enabled)
    }
}

/// The secure channel manager. The stored global flag is fixed at
/// construction (enabled exactly when configuration is present);
/// `set_enabled` propagates a differing flag to the bindings without
/// rewriting the stored one.
pub struct E2eeManager {
    options: Option<E2eeOptions>,
    enabled: bool,
    frame_cryptors: Vec<CryptoBinding>,
    state_observer: Option<tokio::sync::mpsc::UnboundedSender<StateChanged>>,
    forwarded: Ghost<Seq<StateChanged>>,
}

impl E2eeManager {
    pub closed spec fn opts(self) -> Option<E2eeOptions> {
        self.options
    }

    /// The stored global flag.
    pub closed spec fn flag(self) -> bool {
        self.enabled
    }

    /// The live bindings, in insertion order.
    pub closed spec fn bindings(self) -> Seq<CryptoBinding> {
        self.frame_cryptors@
    }

    pub closed spec fn has_observer(self) -> bool {
        self.state_observer is Some
    }

    /// The state-change notifications handed to the registered observer,
    /// in forwarding order.
    pub closed spec fn forwarded(self) -> Seq<StateChanged> {
        self.forwarded@
    }

    /// At most one binding per (identity, track sid) key: the number of
    /// live transform instances always equals the number of distinct keys.
    pub open spec fn wf(self) -> bool {
        distinct_keys(self.bindings())
    }

    pub open spec fn initialized_spec(self) -> bool {
        self.opts() is Some
    }

    /// Whether a lifecycle notification with the given encryption type
    /// creates a binding.
    pub open spec fn binds(self, encryption_type: EncryptionType) -> bool {
        self.initialized_spec() && encryption_type != EncryptionType::NoEncryption
    }

    pub fn new(options: Option<E2eeOptions>) -> (m: E2eeManager)
        ensures
            m.wf(),
            m.opts() == options,
            m.flag() == (options is Some),
            m.bindings() == Seq::<CryptoBinding>::empty(),
            !m.has_observer(),
            m.forwarded() == Seq::<StateChanged>::empty(),
    {
        let enabled = options.is_some();
        E2eeManager {
            options,
            enabled,
            frame_cryptors: Vec::new(),
            state_observer: None,
            forwarded: Ghost(Seq::empty()),
        }
    }

    /// Disables and drops every binding; used on teardown of the owning
    /// session.
    pub fn cleanup(&mut self)
        ensures
            final(self).wf(),
            final(self).bindings() == Seq::<CryptoBinding>::empty(),
            final(self).opts() == old(self).opts(),
            final(self).flag() == old(self).flag(),
            final(self).has_observer() == old(self).has_observer(),
            final(self).forwarded() == old(self).forwarded(),
    {
        self.frame_cryptors.clear();
    }

    /// Registers the single state-change observer; a later registration
    /// silently replaces the former.
    pub fn on_state_changed(&mut self, observer: tokio::sync::mpsc::UnboundedSender<StateChanged>)
        ensures
            final(self).wf() == old(self).wf(),
            final(self).has_observer(),
            final(self).opts() == old(self).opts(),
            final(self).flag() == old(self).flag(),
            final(self).bindings() == old(self).bindings(),
            final(self).forwarded() == old(self).forwarded(),
    {
        self.state_observer = Some(observer);
    }

    /// Forwards one transform state change to the registered observer,
    /// tagged with the originating identity. The notification always enters
    /// the forwarding log when an observer is registered; whether delivery
    /// succeeds depends on the observer's receiving side, so only the
    /// attempt is reported.
    pub fn on_cryptor_state_changed(
        &mut self,
        identity: ParticipantIdentity,
        state: EncryptionState,
    ) -> (delivered: bool)
        ensures
            final(self).opts() == old(self).opts(),
            final(self).flag() == old(self).flag(),
            final(self).bindings() == old(self).bindings(),
            final(self).has_observer() == old(self).has_observer(),
            old(self).has_observer() ==> final(self).forwarded() == old(self).forwarded().push(
                StateChanged { identity, state },
            ),
            !old(self).has_observer() ==> final(self).forwarded() == old(self).forwarded()
                && !delivered,
    {
        match &self.state_observer {
            Some(tx) => {
                proof {
                    self.forwarded@ = self.forwarded@.push(StateChanged { identity, state });
                }
                crate::channel::send_unbounded(tx, StateChanged { identity, state })
            },
            None => false,
        }
    }

    pub fn initialized(&self) -> (r: bool)
        ensures
            r == self.initialized_spec(),
    {
        self.options.is_some()
    }

    pub fn enabled(&self) -> (r: bool)
        ensures
            r == (self.flag() && self.initialized_spec()),
    {
        self.enabled && self.options.is_some()
    }

    pub fn encryption_type(&self) -> (r: EncryptionType)
        ensures
            r == match self.opts() {
                Some(o) => o.encryption_type,
                None => EncryptionType::NoEncryption,
            },
    {
        match &self.options {
            Some(o) => o.encryption_type,
            None => EncryptionType::NoEncryption,
        }
    }

    pub fn key_provider(&self) -> (r: Option<KeyProvider>)
        ensures
            r == match self.opts() {
                Some(o) => Some(o.key_provider),
                None => None::<KeyProvider>,
            },
    {
        match &self.options {
            Some(o) => Some(o.key_provider),
            None => None,
        }
    }

    /// A copy of the live bindings.
    pub fn frame_cryptors(&self) -> (r: Vec<CryptoBinding>)
        ensures
            r@ == self.bindings(),
    {
        let mut out: Vec<CryptoBinding> = Vec::new();
        let n = self.frame_cryptors.len();
        let mut i: usize = 0;
        while i < n
            invariant
                i <= n,
                n == self.frame_cryptors.len(),
                out@ =~= self.frame_cryptors@.subrange(0, i as int),
            decreases n - i,
        {
            out.push(self.frame_cryptors[i]);
            proof {
                assert(out@ =~= self.frame_cryptors@.subrange(0, i + 1));
            }
            i = i + 1;
        }
        proof {
            assert(out@ =~= self.frame_cryptors@);
        }
        out
    }

    /// Applies a changed flag to every binding; a no-op when the value
    /// equals the stored flag. The stored flag itself is not rewritten.
    pub fn set_enabled(&mut self, enabled: bool)
        requires
            old(self).wf(),
        ensures
            final(self).wf(),
            final(self).opts() == old(self).opts(),
            final(self).flag() == old(self).flag(),
            final(self).has_observer() == old(self).has_observer(),
            final(self).forwarded() == old(self).forwarded(),
            final(self).bindings() =~= set_enabled_spec(old(self).flag(), old(self).bindings(), enabled),
    {
        if self.enabled == enabled {
            return ;
        }
        let n = self.frame_cryptors.len();
        let mut updated: Vec<CryptoBinding> = Vec::new();
        let mut i: usize = 0;
        while i < n
            invariant
                i <= n,
                n == self.frame_cryptors.len(),
                updated@.len() == i,
                forall|j: int|
                    0 <= j < i ==> updated@[j] == with_enabled(self.frame_cryptors@[j], enabled),
            decreases n - i,
        {
            let b = self.frame_cryptors[i];
            updated.push(
                CryptoBinding {
                    identity: b.identity,
                    sid: b.sid,
                    cryptor: FrameCryptor { enabled, ..b.cryptor },
                },
            );
            i = i + 1;
        }
        self.frame_cryptors = updated;
        proof {
            assert(self.bindings() =~= propagate(old(self).bindings(), enabled));
            lemma_propagate_keeps_distinct(old(self).bindings(), enabled);
        }
    }

    /// The index of the binding with the given key, when one is present.
    fn find_index(&self, identity: ParticipantIdentity, sid: TrackSid) -> (r: Option<usize>)
        ensures
            match r {
                Some(i) => 0 <= i < self.bindings().len() && key_of(self.bindings()[i as int])
                    == (identity, sid),
                None => !has_key(self.bindings(), (identity, sid)),
            },
    {
        let n = self.frame_cryptors.len();
        let mut i: usize = 0;
        while i < n
            invariant
                i <= n,
                n == self.frame_cryptors.len(),
                forall|j: int|
                    0 <= j < i ==> key_of(#[trigger] self.frame_cryptors@[j]) != (identity, sid),
            decreases n - i,
        {
            let b = self.frame_cryptors[i];
            if b.identity == identity && b.sid == sid {
                return Some(i);
            }
            i = i + 1;
        }
        None
    }

    /// Inserts (last writer wins) the given binding.
    fn insert_binding(&mut self, binding: CryptoBinding)
        requires
            old(self).wf(),
        ensures
            final(self).wf(),
            final(self).opts() == old(self).opts(),
            final(self).flag() == old(self).flag(),
            final(self).has_observer() == old(self).has_observer(),
            final(self).forwarded() == old(self).forwarded(),
            final(self).bindings() =~= upsert(old(self).bindings(), binding),
    {
        let k_id = binding.identity;
        let k_sid = binding.sid;
        match self.find_index(k_id, k_sid) {
            Some(i) => {
                proof {
                    lemma_index_of_key_unique(
                        self.bindings(),
                        (binding.identity, binding.sid),
                        i as int,
                    );
                }
                self.frame_cryptors.remove(i);
            },
            None => {},
        }
        self.frame_cryptors.push(binding);
        proof {
            lemma_remove_key_keeps_distinct(old(self).bindings(), (binding.identity, binding.sid));
            lemma_push_fresh_keeps_distinct(
                remove_key(old(self).bindings(), (binding.identity, binding.sid)),
                binding,
            );
        }
    }

    /// Builds the transform instance for a locally published track's RTP
    /// sender, with the current flag applied.
    fn setup_rtp_sender(&self, participant_identity: ParticipantIdentity, sender: RtpSender) -> (c:
        FrameCryptor)
        requires
            self.opts() is Some,
        ensures
            c == (FrameCryptor {
                participant_identity,
                algorithm: EncryptionAlgorithm::AesGcm,
                key_provider_handle: self.opts().unwrap().key_provider.handle,
                enabled: self.flag(),
                attachment: CryptorAttachment::Sender(sender.id),
            }),
    {
        let options = self.options.as_ref().unwrap();
        FrameCryptor {
            participant_identity,
            algorithm: EncryptionAlgorithm::AesGcm,
            key_provider_handle: options.key_provider.handle,
            enabled: self.enabled,
            attachment: CryptorAttachment::Sender(sender.id),
        }
    }

    /// Builds the transform instance for a subscribed track's RTP receiver,
    /// with the current flag applied.
    fn setup_rtp_receiver(
        &self,
        participant_identity: ParticipantIdentity,
        receiver: RtpReceiver,
    ) -> (c: FrameCryptor)
        requires
            self.opts() is Some,
        ensures
            c == (FrameCryptor {
                participant_identity,
                algorithm: EncryptionAlgorithm::AesGcm,
                key_provider_handle: self.opts().unwrap().key_provider.handle,
                enabled: self.flag(),
                attachment: CryptorAttachment::Receiver(receiver.id),
            }),
    {
        let options = self.options.as_ref().unwrap();
        FrameCryptor {
            participant_identity,
            algorithm: EncryptionAlgorithm::AesGcm,
            key_provider_handle: options.key_provider.handle,
            enabled: self.enabled,
            attachment: CryptorAttachment::Receiver(receiver.id),
        }
    }

    /// A remote track with an encrypted publication was subscribed:
    /// constructs the transform bound to the track's RTP receiver, applies
    /// the current flag, and stores the binding under (identity, sid),
    /// silently replacing any prior one. A no-op when the manager is not
    /// initialized or the publication is unencrypted.
    pub fn on_track_subscribed(
        &mut self,
        track: RemoteTrack,
        publication: RemoteTrackPublication,
        participant: RemoteParticipant,
    )
        requires
            old(self).wf(),
            old(self).binds(publication.encryption_type) ==> track.transceiver_spec() is Some,
        ensures
            final(self).wf(),
            final(self).opts() == old(self).opts(),
            final(self).flag() == old(self).flag(),
            final(self).has_observer() == old(self).has_observer(),
            final(self).forwarded() == old(self).forwarded(),
            !old(self).binds(publication.encryption_type) ==> final(self).bindings() == old(
                self,
            ).bindings(),
            old(self).binds(publication.encryption_type) ==> final(self).bindings() =~= upsert(
                old(self).bindings(),
                CryptoBinding {
                    identity: participant.identity,
                    sid: publication.sid,
                    cryptor: FrameCryptor {
                        participant_identity: participant.identity,
                        algorithm: EncryptionAlgorithm::AesGcm,
                        key_provider_handle: old(self).opts().unwrap().key_provider.handle,
                        enabled: old(self).flag(),
                        attachment: CryptorAttachment::Receiver(
                            track.transceiver_spec().unwrap().receiver.id,
                        ),
                    },
                },
            ),
    {
        if self.options.is_none() {
            return ;
        }
        if publication.encryption_type == EncryptionType::NoEncryption {
            return ;
        }
        let transceiver = match track.transceiver() {
            Some(t) => t,
            None => {
                proof {
                    assert(false);
                }
                return ;
            },
        };
        let cryptor = self.setup_rtp_receiver(participant.identity, transceiver.receiver);
        self.insert_binding(
            CryptoBinding { identity: participant.identity, sid: publication.sid, cryptor },
        );
    }

    /// A local track with an encrypted publication was published:
    /// constructs the transform bound to the track's RTP sender, applies
    /// the current flag, and stores the binding under (identity, sid),
    /// silently replacing any prior one. A no-op when the manager is not
    /// initialized or the publication is unencrypted.
    pub fn on_local_track_published(
        &mut self,
        track: LocalTrack,
        publication: LocalTrackPublication,
        participant: LocalParticipant,
    )
        requires
            old(self).wf(),
            old(self).binds(publication.encryption_type) ==> track.transceiver_spec() is Some,
        ensures
            final(self).wf(),
            final(self).opts() == old(self).opts(),
            final(self).flag() == old(self).flag(),
            final(self).has_observer() == old(self).has_observer(),
            final(self).forwarded() == old(self).forwarded(),
            !old(self).binds(publication.encryption_type) ==> final(self).bindings() == old(
                self,
            ).bindings(),
            old(self).binds(publication.encryption_type) ==> final(self).bindings() =~= upsert(
                old(self).bindings(),
                CryptoBinding {
                    identity: participant.identity,
                    sid: publication.sid,
                    cryptor: FrameCryptor {
                        participant_identity: participant.identity,
                        algorithm: EncryptionAlgorithm::AesGcm,
                        key_provider_handle: old(self).opts().unwrap().key_provider.handle,
                        enabled: old(self).flag(),
                        attachment: CryptorAttachment::Sender(
                            track.transceiver_spec().unwrap().sender.id,
                        ),
                    },
                },
            ),
    {
        if self.options.is_none() {
            return ;
        }
        if publication.encryption_type == EncryptionType::NoEncryption {
            return ;
        }
        let transceiver = match track.transceiver() {
            Some(t) => t,
            None => {
                proof {
                    assert(false);
                }
                return ;
            },
        };
        let cryptor = self.setup_rtp_sender(participant.identity, transceiver.sender);
        self.insert_binding(
            CryptoBinding { identity: participant.identity, sid: publication.sid, cryptor },
        );
    }

    /// A local track was unpublished: drops its binding, if any.
    pub fn on_local_track_unpublished(
        &mut self,
        publication: LocalTrackPublication,
        participant: LocalParticipant,
    )
        requires
            old(self).wf(),
        ensures
            final(self).wf(),
            final(self).opts() == old(self).opts(),
            final(self).flag() == old(self).flag(),
            final(self).has_observer() == old(self).has_observer(),
            final(self).forwarded() == old(self).forwarded(),
            final(self).bindings() =~= remove_key(
                old(self).bindings(),
                (participant.identity, publication.sid),
            ),
            !has_key(final(self).bindings(), (participant.identity, publication.sid)),
    {
        self.remove_frame_cryptor(participant.identity, publication.sid);
    }

    /// A remote track was unsubscribed: drops its binding, if any.
    pub fn on_track_unsubscribed(
        &mut self,
        _track: RemoteTrack,
        publication: RemoteTrackPublication,
        participant: RemoteParticipant,
    )
        requires
            old(self).wf(),
        ensures
            final(self).wf(),
            final(self).opts() == old(self).opts(),
            final(self).flag() == old(self).flag(),
            final(self).has_observer() == old(self).has_observer(),
            final(self).forwarded() == old(self).forwarded(),
            final(self).bindings() =~= remove_key(
                old(self).bindings(),
                (participant.identity, publication.sid),
            ),
            !has_key(final(self).bindings(), (participant.identity, publication.sid)),
    {
        self.remove_frame_cryptor(participant.identity, publication.sid);
    }

    /// Disables and removes the binding for the given key; a no-op when no
    /// such binding exists (a second release is never an error).
    pub fn remove_frame_cryptor(&mut self, participant_identity: ParticipantIdentity, track_sid:
        TrackSid)
        requires
            old(self).wf(),
        ensures
            final(self).wf(),
            final(self).opts() == old(self).opts(),
            final(self).flag() == old(self).flag(),
            final(self).has_observer() == old(self).has_observer(),
            final(self).forwarded() == old(self).forwarded(),
            final(self).bindings() =~= remove_key(
                old(self).bindings(),
                (participant_identity, track_sid),
            ),
            !has_key(final(self).bindings(), (participant_identity, track_sid)),
    {
        match self.find_index(participant_identity, track_sid) {
            Some(i) => {
                proof {
                    lemma_index_of_key_unique(
                        self.bindings(),
                        (participant_identity, track_sid),
                        i as int,
                    );
                }
                self.frame_cryptors.remove(i);
                proof {
                    lemma_remove_key_keeps_distinct(
                        old(self).bindings(),
                        (participant_identity, track_sid),
                    );
                    lemma_remove_key_removes(
                        old(self).bindings(),
                        (participant_identity, track_sid),
                    );
                }
            },
            None => {},
        }
    }
}

/// With pairwise-distinct keys, any index holding key `k` is the index
/// `index_of_key` denotes.
proof fn lemma_index_of_key_unique(
    s: Seq<CryptoBinding>,
    k: (ParticipantIdentity, TrackSid),
    i: int,
)
    requires
        distinct_keys(s),
        0 <= i < s.len(),
        key_of(s[i]) == k,
    ensures
        has_key(s, k),
        index_of_key(s, k) == i,
{
    assert(has_key(s, k));
    let j = index_of_key(s, k);
    assert(0 <= j < s.len() && key_of(s[j]) == k);
    if i < j {
        assert(key_of(s[i]) != key_of(s[j]));
    } else if j < i {
        assert(key_of(s[j]) != key_of(s[i]));
    }
}

/// Removing a key keeps the remaining keys pairwise distinct.
proof fn lemma_remove_key_keeps_distinct(s: Seq<CryptoBinding>, k: (ParticipantIdentity, TrackSid))
    requires
        distinct_keys(s),
    ensures
        distinct_keys(remove_key(s, k)),
{
    if has_key(s, k) {
        let idx = index_of_key(s, k);
        let r = s.remove(idx);
        assert forall|i: int, j: int| 0 <= i < j < r.len() implies key_of(#[trigger] r[i])
            != key_of(#[trigger] r[j]) by {
            let i0 = if i < idx {
                i
            } else {
                i + 1
            };
            let j0 = if j < idx {
                j
            } else {
                j + 1
            };
            assert(r[i] == s[i0]);
            assert(r[j] == s[j0]);
        }
    }
}

/// After removing key `k`, no binding with key `k` remains.
proof fn lemma_remove_key_removes(s: Seq<CryptoBinding>, k: (ParticipantIdentity, TrackSid))
    requires
        distinct_keys(s),
    ensures
        !has_key(remove_key(s, k), k),
{
    if has_key(s, k) {
        let idx = index_of_key(s, k);
        assert(0 <= idx < s.len() && key_of(s[idx]) == k);
        let r = s.remove(idx);
        assert forall|i: int| 0 <= i < r.len() implies key_of(#[trigger] r[i]) != k by {
            let i0 = if i < idx {
                i
            } else {
                i + 1
            };
            assert(r[i] == s[i0]);
            if i0 < idx {
                assert(key_of(s[i0]) != key_of(s[idx]));
            } else {
                assert(key_of(s[idx]) != key_of(s[i0]));
            }
        }
    } else {
        assert forall|i: int| 0 <= i < remove_key(s, k).len() implies key_of(
            #[trigger] remove_key(s, k)[i],
        ) != k by {
            assert(!has_key(s, k));
            assert(remove_key(s, k) == s);
        }
    }
}

/// Pushing a binding whose key is absent keeps the keys pairwise distinct.
proof fn lemma_push_fresh_keeps_distinct(s: Seq<CryptoBinding>, b: CryptoBinding)
    requires
        distinct_keys(s),
        !has_key(s, key_of(b)),
    ensures
        distinct_keys(s.push(b)),
{
    let r = s.push(b);
    assert forall|i: int, j: int| 0 <= i < j < r.len() implies key_of(#[trigger] r[i]) != key_of(
        #[trigger] r[j],
    ) by {
        if j < s.len() {
            assert(r[i] == s[i] && r[j] == s[j]);
        } else {
            assert(r[j] == b);
            assert(r[i] == s[i]);
            assert(key_of(s[i]) != key_of(b));
        }
    }
}

/// Propagating a flag touches no key.
proof fn lemma_propagate_keeps_distinct(s: Seq<CryptoBinding>, enabled: bool)
    requires
        distinct_keys(s),
    ensures
        distinct_keys(propagate(s, enabled)),
{
    let r = propagate(s, enabled);
    assert forall|i: int, j: int| 0 <= i < j < r.len() implies key_of(#[trigger] r[i]) != key_of(
        #[trigger] r[j],
    ) by {
        assert(r[i] == with_enabled(s[i], enabled));
        assert(r[j] == with_enabled(s[j], enabled));
        assert(key_of(s[i]) != key_of(s[j]));
    }
}

/// Law: of two insertions with the same (identity, sid) key, the last
/// writer wins. Exactly one binding with the key remains, it carries the
/// second transform, and the second insertion added no binding.
pub proof fn lemma_last_writer_wins(s: Seq<CryptoBinding>, b1: CryptoBinding, b2: CryptoBinding)
    requires
        distinct_keys(s),
        key_of(b1) == key_of(b2),
    ensures
        distinct_keys(upsert(upsert(s, b1), b2)),
        has_key(upsert(upsert(s, b1), b2), key_of(b2)),
        upsert(upsert(s, b1), b2)[index_of_key(upsert(upsert(s, b1), b2), key_of(b2))] == b2,
        upsert(upsert(s, b1), b2).len() == upsert(s, b1).len(),
{
    lemma_remove_key_keeps_distinct(s, key_of(b1));
    lemma_remove_key_removes(s, key_of(b1));
    lemma_push_fresh_keeps_distinct(remove_key(s, key_of(b1)), b1);
    let s1 = upsert(s, b1);
    assert(key_of(s1[s1.len() - 1]) == key_of(b1));
    assert(has_key(s1, key_of(b2)));
    lemma_remove_key_keeps_distinct(s1, key_of(b2));
    lemma_remove_key_removes(s1, key_of(b2));
    lemma_push_fresh_keeps_distinct(remove_key(s1, key_of(b2)), b2);
    let s2 = upsert(s1, b2);
    assert(key_of(s2[s2.len() - 1]) == key_of(b2));
    lemma_index_of_key_unique(s2, key_of(b2), s2.len() - 1);
}

/// Law: with pairwise-distinct keys, the number of live transform
/// instances equals the number of distinct keys.
pub proof fn lemma_binding_count_is_key_count(s: Seq<CryptoBinding>)
    requires
        distinct_keys(s),
    ensures
        s.map_values(|b: CryptoBinding| key_of(b)).to_set().len() == s.len(),
{
    let keys = s.map_values(|b: CryptoBinding| key_of(b));
    assert forall|i: int, j: int| 0 <= i < keys.len() && 0 <= j < keys.len() && i != j
        implies keys[i] != keys[j] by {
        if i < j {
            assert(key_of(s[i]) != key_of(s[j]));
        } else {
            assert(key_of(s[j]) != key_of(s[i]));
        }
    }
    assert(keys.no_duplicates());
    keys.unique_seq_to_set();
}

/// Law: propagating the same flag twice is the same as propagating it
/// once; in particular a repeated `set_enabled` with an unchanged value
/// performs no further change to any binding.
pub proof fn lemma_set_enabled_idempotent(flag: bool, s: Seq<CryptoBinding>, enabled: bool)
    ensures
        set_enabled_spec(flag, set_enabled_spec(flag, s, enabled), enabled) =~= set_enabled_spec(
            flag,
            s,
            enabled,
        ),
{
    if enabled != flag {
        let once = propagate(s, enabled);
        let twice = propagate(once, enabled);
        assert forall|i: int| 0 <= i < twice.len() implies twice[i] == once[i] by {
            assert(once[i] == with_enabled(s[i], enabled));
            assert(twice[i] == with_enabled(once[i], enabled));
        }
        assert(twice =~= once);
    }
}

} // verus!
