//! Live telemetry distribution: a feed parser, a bounded history of recent
//! track points, a coalescing latest-value cell with independent cursors,
//! and the state machines that drive ingestion and subscriber sessions.
//! Beside them stands what the camera snapshots need computed: the packing
//! of captured rows, the image kinds and a cache entry.

pub mod broadcast;
pub mod camera;
pub mod coordinate;
pub mod feed;
pub mod history;
pub mod ingest;
pub mod point;
pub mod session;
