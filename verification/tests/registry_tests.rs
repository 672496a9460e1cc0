use stream_bridge::errors::FfiError;
use stream_bridge::registry::{HandleRegistry, Resource, ResourceKind};
use stream_bridge::video_stream::FrameBuffer;

fn buffer(width: u32, height: u32) -> Resource {
    Resource::Buffer(FrameBuffer { width, height })
}

#[test]
fn allocate_returns_pairwise_distinct_handles() {
    let mut registry = HandleRegistry::new();
    let mut handles = Vec::new();
    for _ in 0..100 {
        handles.push(registry.allocate());
    }
    for i in 0..handles.len() {
        for j in 0..handles.len() {
            if i != j {
                assert_ne!(handles[i], handles[j]);
            }
        }
    }
}

#[test]
fn handles_are_not_reused_after_release() {
    let mut registry = HandleRegistry::new();
    let h1 = registry.allocate();
    registry.store(h1, buffer(640, 480)).unwrap();
    registry.release(h1).unwrap();
    let h2 = registry.allocate();
    assert_ne!(h1, h2);
}

#[test]
fn store_then_retrieve_returns_the_resource() {
    let mut registry = HandleRegistry::new();
    let h = registry.allocate();
    registry.store(h, buffer(1280, 720)).unwrap();
    match registry.retrieve(h, ResourceKind::Buffer) {
        Ok(Resource::Buffer(b)) => {
            assert_eq!(b.width, 1280);
            assert_eq!(b.height, 720);
        }
        other => panic!("unexpected retrieval result: {:?}", other.map(|_| ())),
    }
}

#[test]
fn retrieve_of_wrong_kind_is_type_mismatch() {
    let mut registry = HandleRegistry::new();
    let h = registry.allocate();
    registry.store(h, buffer(2, 2)).unwrap();
    let r = registry.retrieve(h, ResourceKind::Track);
    assert!(matches!(r, Err(FfiError::TypeMismatch)));
}

#[test]
fn retrieve_of_absent_handle_is_invalid_handle() {
    let registry = HandleRegistry::new();
    let r = registry.retrieve(7, ResourceKind::Buffer);
    assert!(matches!(r, Err(FfiError::InvalidHandle)));
}

#[test]
fn store_on_occupied_handle_is_duplicate_handle() {
    let mut registry = HandleRegistry::new();
    let h = registry.allocate();
    registry.store(h, buffer(1, 1)).unwrap();
    let r = registry.store(h, buffer(2, 2));
    assert!(matches!(r, Err(FfiError::DuplicateHandle)));
    match registry.retrieve(h, ResourceKind::Buffer) {
        Ok(Resource::Buffer(b)) => assert_eq!(b.width, 1),
        _ => panic!("first resource should still be stored"),
    }
}

#[test]
fn store_under_never_issued_handle_is_invalid_handle() {
    let mut registry = HandleRegistry::new();
    let r = registry.store(42, buffer(1, 1));
    assert!(matches!(r, Err(FfiError::InvalidHandle)));
    let r0 = registry.store(0, buffer(1, 1));
    assert!(matches!(r0, Err(FfiError::InvalidHandle)));
}

#[test]
fn retrieve_after_release_is_invalid_handle() {
    let mut registry = HandleRegistry::new();
    let h = registry.allocate();
    registry.store(h, buffer(320, 240)).unwrap();
    registry.release(h).unwrap();
    let r = registry.retrieve(h, ResourceKind::Buffer);
    assert!(matches!(r, Err(FfiError::InvalidHandle)));
}

#[test]
fn release_of_absent_handle_is_invalid_handle() {
    let mut registry = HandleRegistry::new();
    let r = registry.release(99);
    assert!(matches!(r, Err(FfiError::InvalidHandle)));
}
