//! Process-wide handle registry: a map from opaque numeric handles to owned
//! resources. Handles are issued monotonically and never reused, so a stale
//! handle can never alias a newer resource.

use vstd::prelude::*;

use std::collections::HashMap;

use crate::errors::FfiError;
use crate::track::Track;
use crate::video_stream::{FfiVideoStream, FrameBuffer};

verus! {

broadcast use vstd::std_specs::hash::group_hash_axioms;

/// A resource owned by the registry, tagged by kind.
pub enum Resource {
    Track(Track),
    VideoStream(FfiVideoStream),
    Buffer(FrameBuffer),
}

#[derive(Clone, Copy, Debug, PartialEq, Eq, Structural)]
pub enum ResourceKind {
    Track,
    VideoStream,
    Buffer,
}

impl Resource {
    pub open spec fn kind(self) -> ResourceKind {
        match self {
            Resource::Track(_) => ResourceKind::Track,
            Resource::VideoStream(_) => ResourceKind::VideoStream,
            Resource::Buffer(_) => ResourceKind::Buffer,
        }
    }

    pub fn kind_of(&self) -> (k: ResourceKind)
        ensures
            k == self.kind(),
    {
        match self {
            Resource::Track(_) => ResourceKind::Track,
            Resource::VideoStream(_) => ResourceKind::VideoStream,
            Resource::Buffer(_) => ResourceKind::Buffer,
        }
    }
}

/// What `retrieve` returns on a given registry content: the resource when
/// the handle is live and of the requested kind, the precise error
/// otherwise.
pub open spec fn retrieve_spec(m: Map<u64, Resource>, handle: u64, kind: ResourceKind) -> Result<
    Resource,
    FfiError,
> {
    if !m.contains_key(handle) {
        Err(FfiError::InvalidHandle)
    } else if m[handle].kind() != kind {
        Err(FfiError::TypeMismatch)
    } else {
        Ok(m[handle])
    }
}

/// Effect of one successful allocation: the returned handle is the next
/// counter value, never issued before, and the stored contents are
/// untouched.
pub open spec fn allocate_post(pre: HandleRegistry, post: HandleRegistry, h: u64) -> bool {
    &&& h == pre.next()
    &&& !pre.issued(h)
    &&& post.issued(h)
    &&& post.next() == pre.next() + 1
    &&& post.as_map() == pre.as_map()
}

pub struct HandleRegistry {
    next_handle: u64,
    entries: HashMap<u64, Resource>,
    signals: Ghost<Seq<u64>>,
}

impl HandleRegistry {
    /// The stored contents, as a map from handle to resource.
    pub closed spec fn as_map(self) -> Map<u64, Resource> {
        self.entries@
    }

    /// The next handle the registry will issue.
    pub closed spec fn next(self) -> u64 {
        self.next_handle
    }

    /// The handles whose stream resources had their close signal fired on
    /// release, in firing order.
    pub closed spec fn signals(self) -> Seq<u64> {
        self.signals@
    }

    /// Whether `h` was issued at some earlier allocation: handles are
    /// issued consecutively starting at 1.
    pub open spec fn issued(self, h: u64) -> bool {
        1 <= h < self.next()
    }

    pub open spec fn wf(self) -> bool {
        &&& 1 <= self.next()
        &&& forall|k: u64| #[trigger] self.as_map().contains_key(k) ==> self.issued(k)
    }

    /// Whether another handle can still be issued without exhausting the
    /// 64-bit handle space.
    pub open spec fn can_allocate(self) -> bool {
        self.next() < u64::MAX
    }

    /// Everything a registry operation may do to the issuing state: the
    /// counter never moves backwards, so issued handles stay issued.
    pub open spec fn evolves_to(self, later: HandleRegistry) -> bool {
        self.next() <= later.next()
    }

    /// Whether another handle can still be issued.
    pub fn can_issue(&self) -> (r: bool)
        ensures
            r == self.can_allocate(),
    {
        self.next_handle < u64::MAX
    }

    pub fn new() -> (r: HandleRegistry)
        ensures
            r.wf(),
            r.as_map() == Map::<u64, Resource>::empty(),
            r.next() == 1,
            r.signals() == Seq::<u64>::empty(),
    {
        HandleRegistry { next_handle: 1, entries: HashMap::new(), signals: Ghost(Seq::empty()) }
    }

    /// Issues a fresh handle: never returned before, and never to be
    /// returned again for the life of the registry.
    pub fn allocate(&mut self) -> (h: u64)
        requires
            old(self).wf(),
            old(self).can_allocate(),
        ensures
            final(self).wf(),
            old(self).evolves_to(*final(self)),
            allocate_post(*old(self), *final(self), h),
            final(self).signals() == old(self).signals(),
    {
        let h = self.next_handle;
        self.next_handle = self.next_handle + 1;
        proof {
            assert forall|k: u64| #[trigger] self.as_map().contains_key(k) implies self.issued(
                k,
            ) by {
                assert(old(self).as_map().contains_key(k));
            }
        }
        h
    }

    /// Inserts a resource under a previously issued handle. Fails with
    /// `DuplicateHandle` when the handle is occupied, and with
    /// `InvalidHandle` when the handle was never issued; the contents are
    /// untouched on failure.
    pub fn store(&mut self, handle: u64, resource: Resource) -> (r: Result<(), FfiError>)
        requires
            old(self).wf(),
        ensures
            final(self).wf(),
            old(self).evolves_to(*final(self)),
            final(self).next() == old(self).next(),
            final(self).signals() == old(self).signals(),
            match r {
                Ok(()) => {
                    &&& old(self).issued(handle)
                    &&& !old(self).as_map().contains_key(handle)
                    &&& final(self).as_map() == old(self).as_map().insert(handle, resource)
                },
                Err(e) => {
                    &&& final(self).as_map() == old(self).as_map()
                    &&& (e == FfiError::InvalidHandle || e == FfiError::DuplicateHandle)
                    &&& e == FfiError::InvalidHandle <==> !old(self).issued(handle)
                    &&& e == FfiError::DuplicateHandle <==> (old(self).issued(handle) && old(
                        self,
                    ).as_map().contains_key(handle))
                },
            },
    {
        if handle == 0 || handle >= self.next_handle {
            Err(FfiError::InvalidHandle)
        } else if self.entries.contains_key(&handle) {
            Err(FfiError::DuplicateHandle)
        } else {
            self.entries.insert(handle, resource);
            proof {
                assert forall|k: u64| #[trigger] self.as_map().contains_key(k) implies self.issued(
                    k,
                ) by {
                    if k != handle {
                        assert(old(self).as_map().contains_key(k));
                    }
                }
            }
            Ok(())
        }
    }

    /// Typed retrieval: `InvalidHandle` when absent, `TypeMismatch` when the
    /// stored resource is of another kind.
    pub fn retrieve(&self, handle: u64, kind: ResourceKind) -> (r: Result<&Resource, FfiError>)
        ensures
            match r {
                Ok(res) => retrieve_spec(self.as_map(), handle, kind) == Ok::<Resource, FfiError>(
                    *res,
                ),
                Err(e) => retrieve_spec(self.as_map(), handle, kind) == Err::<Resource, FfiError>(
                    e,
                ),
            },
    {
        match self.entries.get(&handle) {
            None => Err(FfiError::InvalidHandle),
            Some(res) => {
                if res.kind_of() == kind {
                    Ok(res)
                } else {
                    Err(FfiError::TypeMismatch)
                }
            },
        }
    }

    /// Removes and drops the resource stored under `handle`. Dropping a
    /// stream resource fires its cancellation signal: releasing the handle
    /// is the one sanctioned way to stop a running stream from outside.
    pub fn release(&mut self, handle: u64) -> (r: Result<(), FfiError>)
        requires
            old(self).wf(),
        ensures
            final(self).wf(),
            old(self).evolves_to(*final(self)),
            final(self).next() == old(self).next(),
            match r {
                Ok(()) => {
                    &&& old(self).as_map().contains_key(handle)
                    &&& final(self).as_map() == old(self).as_map().remove(handle)
                    &&& final(self).signals() == if old(self).as_map()[handle] is VideoStream {
                        old(self).signals().push(handle)
                    } else {
                        old(self).signals()
                    }
                },
                Err(e) => {
                    &&& e == FfiError::InvalidHandle
                    &&& !old(self).as_map().contains_key(handle)
                    &&& final(self).as_map() == old(self).as_map()
                    &&& final(self).signals() == old(self).signals()
                },
            },
    {
        match self.entries.remove(&handle) {
            None => {
                proof {
                    assert(self.as_map() =~= old(self).as_map());
                }
                Err(FfiError::InvalidHandle)
            },
            Some(res) => {
                proof {
                    assert(old(self).as_map()[handle] == res);
                    assert forall|k: u64| #[trigger] self.as_map().contains_key(k)
                        implies self.issued(k) by {
                        assert(old(self).as_map().contains_key(k));
                    }
                }
                match res {
                    Resource::VideoStream(stream) => {
                        proof {
                            self.signals@ = self.signals@.push(handle);
                        }
                        stream.signal_close();
                    },
                    _ => {},
                }
                Ok(())
            },
        }
    }
}

/// Law: handles are pairwise distinct over any sequence of allocations.
/// If one allocation returns `h1`, and a later allocation (in any state the
/// first one's result evolves to) returns `h2`, the two handles differ.
pub proof fn lemma_allocated_handles_distinct(
    a: HandleRegistry,
    a1: HandleRegistry,
    h1: u64,
    b: HandleRegistry,
    b1: HandleRegistry,
    h2: u64,
)
    requires
        allocate_post(a, a1, h1),
        a1.evolves_to(b),
        allocate_post(b, b1, h2),
    ensures
        h1 != h2,
{
}

/// Law: a retrieve after a release of the same handle always fails with
/// `InvalidHandle`, whatever kind is asked for.
pub proof fn lemma_retrieve_after_release(m: Map<u64, Resource>, handle: u64, kind: ResourceKind)
    ensures
        retrieve_spec(m.remove(handle), handle, kind) == Err::<Resource, FfiError>(
            FfiError::InvalidHandle,
        ),
{
    assert(!m.remove(handle).contains_key(handle));
}

} // verus!
