//! Audio capture and spatial playback core.
//!
//! The crate verifies the logic of a recording pipeline: negotiating a sample
//! encoding with an input device, converting sample buffers between
//! encodings, accounting for every sample accepted by a lock-guarded file
//! sink, and driving a moving sound emitter on a fixed tick schedule.
//! The host audio subsystem and the file system are collaborators that an
//! unverified front end talks to; this library makes every decision on plain
//! values and states what each decision means.

pub mod codec;
pub mod devices;
pub mod encoding;
pub mod session;
pub mod trajectory;
pub mod writer;
