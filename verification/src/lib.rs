//! Sequencing of a geodata ingestion pipeline: download a regional dataset,
//! transform it where the source needs it, index it, validate it.
//!
//! The pipeline is an event-driven state machine. This library holds its
//! decisions: the transition table, the reaction to each state, the turn of
//! the driving loop, and what each data source asks of the outside world. It
//! performs no input or output itself: the caller downloads, runs the
//! indexing tools and publishes, and hands the results back.

pub mod text;
pub mod time;
pub mod error;
pub mod state;
pub mod driver;
pub mod plan;
pub mod bano;
pub mod osm;
pub mod cosmogony;
pub mod ntfs;
pub mod download;
pub mod run;

pub use crate::driver::{Driver, PipelineConfig};
pub use crate::error::Error;
pub use crate::state::{Event, State};
pub use crate::time::{Duration, Timestamp};
