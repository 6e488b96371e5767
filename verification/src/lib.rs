//! A periodic desktop telemetry probe.
//!
//! On a fixed cadence the probe takes a snapshot of every attached display, encodes it as
//! lossless WebP, archives the file under a name that no other frame shares, wraps it into
//! a timestamped event, and hands the events of the cycle to a collection service as one
//! batch.
//!
//! This library holds the decisions of that pipeline, each with its contract: what a frame
//! encodes to and when it cannot be encoded (`frame`), how an archive file is named
//! (`archive`), what an event holds (`event`) and which members it has on the wire (`wire`),
//! how the displays of one cycle are kept apart from each other's failures (`cycle`), where a
//! batch goes and what the answer means (`delivery`), and when the next cycle starts
//! (`scheduler`). Reading the displays, writing files, sending requests and sleeping are left
//! to the caller.
//!
//! Three outside crates work inside the library, behind functions whose contracts are taken
//! on trust from the crates' sources: `image` encodes, `chrono` reads the clock, and
//! `serde_json` holds the JSON object of an event.

pub mod archive;
pub mod clock;
pub mod config;
pub mod cycle;
pub mod decimal;
pub mod delivery;
pub mod error;
pub mod event;
pub mod frame;
pub mod scheduler;
pub mod wire;
