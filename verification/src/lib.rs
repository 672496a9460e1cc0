//! Handle registry and streaming bridge: opaque integer handles over owned
//! resources, a producer state machine that emits ordered stream events with a
//! guaranteed terminal end-of-stream, and a per-(participant, track) secure
//! channel manager.

pub mod channel;
pub mod e2ee;
pub mod errors;
pub mod events;
pub mod ids;
pub mod registry;
pub mod track;
pub mod video_stream;
