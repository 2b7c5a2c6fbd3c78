//! Continuous capture, synchronization, and durable-delivery pipeline.
//!
//! The library holds the decision logic of a background capture agent:
//! pacing and timestamping of the audio and video streams, interleaving of
//! the two streams into a container in timestamp order, the segment
//! rotation and completeness policy, the naming scheme and retry discipline
//! of the durable pending store, and the cooperative service lifecycle.
//! Everything that touches a device, the filesystem or the network lives
//! outside the library and hands it plain values.
pub mod activity;
pub mod external;
pub mod frame;
pub mod json;
pub mod lifecycle;
pub mod pipeline;
pub mod recorder;
pub mod segment;
pub mod store;
pub mod sweep;
pub mod sync;
pub mod timing;
