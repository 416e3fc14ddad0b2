//! The progress and log sink a host application can plug in: the library's
//! callers receive the driver's progress reports and log lines through this
//! interface and render them however they like.

use vstd::prelude::*;

use crate::api_log::LogMessageType;

verus! {

/// A sink for progress reports and log lines. Implemented by the surrounding
/// application; the library states nothing about what an implementation does.
pub trait DisplayCallback {
    /// A long operation begins; progress is not yet quantifiable.
    fn init_progressbar(&self);

    /// One log line, with the driver's message class.
    fn log_message(&self, message_type: LogMessageType, message: &str);

    /// Progress stands at `current_number` of `total_number`.
    fn update_progressbar(&self, current_number: u64, total_number: u64);
}

} // verus!
