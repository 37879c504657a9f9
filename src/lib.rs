//! A lightweight visual logging facade for geometry applications.
//!
//! Call sites emit visual events (points, lines, labels, messages and
//! surface clears) without knowing which backend, if any, is attached. A host
//! installs one backend into a [`VLoggerCell`]; until then every event is
//! dropped by the no-op backend.
//!
//! Coordinates and sizes are carried as the IEEE-754 bit patterns of `f64`
//! values (`f64::to_bits`): the facade never computes with them, it only hands
//! them on to the backend unchanged.

pub mod metadata;
pub mod visual;
pub mod vlog;
pub mod dispatch;
pub mod registry;
pub mod record;

pub use metadata::{Metadata, MetadataBuilder};
pub use record::{Record, RecordBuilder, RecordView};
pub use visual::{Color, LineStyle, PointStyle, TextAlignment, Visual};
pub use vlog::{NopVLogger, VLog};
pub use registry::{CurrentVLogger, InstallStep, SetVLoggerError, VLoggerCell};
