//! Opaque identifiers for participants and tracks. Both are plain numeric
//! identifiers so that equality of keys is a structural fact.

use vstd::prelude::*;

verus! {

/// Identity of a participant, unique within a session.
#[derive(Clone, Copy, Debug, PartialEq, Eq, Structural)]
pub struct ParticipantIdentity(pub u64);

/// Identifier of a track (the resource a stream or a secure channel is bound
/// to). The value 0 stands for a track whose server-side id is not yet known.
#[derive(Clone, Copy, Debug, PartialEq, Eq, Structural)]
pub struct TrackSid(pub u64);

} // verus!
