use vstd::prelude::*;

use crate::metadata::Metadata;
use crate::record::Record;

verus! {

/// The operations a visual logging backend provides.
///
/// Backends may be called from any number of threads at once.
pub trait VLog {
    /// Whether commands with this metadata would be drawn. It must be cheap
    /// and must not change visible state: it runs at every call site, so that
    /// callers can skip building what would be thrown away.
    fn enabled(&self, metadata: &Metadata) -> bool;

    /// Draws, stores or sends one record. Called only for metadata that
    /// `enabled` accepted.
    fn vlog(&self, record: &Record);

    /// Erases everything drawn so far on a surface. Clearing a surface that
    /// holds nothing is allowed and has no effect.
    fn clear(&self, surface: &str);
}

/// The backend in place until one is installed: it enables nothing and
/// ignores every command.
#[derive(Clone, Copy, Debug)]
pub struct NopVLogger;

impl VLog for NopVLogger {
    fn enabled(&self, metadata: &Metadata) -> (r: bool)
        ensures
            !r,
    {
        false
    }

    fn vlog(&self, record: &Record) {
    }

    fn clear(&self, surface: &str) {
    }
}

impl<'b, T: ?Sized + VLog> VLog for &'b T {
    fn enabled(&self, metadata: &Metadata) -> bool {
        (**self).enabled(metadata)
    }

    fn vlog(&self, record: &Record) {
        (**self).vlog(record)
    }

    fn clear(&self, surface: &str) {
        (**self).clear(surface)
    }
}

impl<T: ?Sized + VLog> VLog for Box<T> {
    fn enabled(&self, metadata: &Metadata) -> bool {
        (**self).enabled(metadata)
    }

    fn vlog(&self, record: &Record) {
        (**self).vlog(record)
    }

    fn clear(&self, surface: &str) {
        (**self).clear(surface)
    }
}

impl<T: ?Sized + VLog> VLog for std::sync::Arc<T> {
    fn enabled(&self, metadata: &Metadata) -> bool {
        (**self).enabled(metadata)
    }

    fn vlog(&self, record: &Record) {
        (**self).vlog(record)
    }

    fn clear(&self, surface: &str) {
        (**self).clear(surface)
    }
}

} // verus!
