//! The call site of logging: a filter by severity in front of the encoder.

use vstd::prelude::*;
use crate::ambient::{current_of, AmbientCarrier};
use crate::encoder::{emitted, encode_at, fallback_line, is_record_line};
use crate::severity::Severity;
use crate::timestamp::Timestamp;

verus! {

/// Logs for one project what is at least as serious as a floor.
#[derive(Debug)]
pub struct Logger {
    pub gcp_project_id: String,
    pub floor: Severity,
}

/// What a call of the logger hands to the sink: nothing for a record under
/// the floor, else the line that the encoder emits.
pub open spec fn logged(
    project_id: Seq<char>,
    floor: Severity,
    slot: crate::ambient::Slot,
    severity: Severity,
    message: Seq<char>,
    at: Timestamp,
) -> Option<Seq<u8>> {
    if severity.passes_spec(floor) {
        Some(emitted(project_id, severity, message, current_of(slot), at))
    } else {
        None
    }
}

impl Logger {
    /// The logger for the project `gcp_project_id` that lets through what is
    /// at least as serious as `floor`.
    pub fn new(gcp_project_id: String, floor: Severity) -> (logger: Logger)
        ensures
            logger.gcp_project_id == gcp_project_id,
            logger.floor == floor,
    {
        Logger { gcp_project_id, floor }
    }

    /// Whether a record of the given severity is let through.
    pub fn enabled(&self, severity: Severity) -> (b: bool)
        ensures
            b == severity.passes_spec(self.floor),
    {
        severity.passes(self.floor)
    }

    /// Logs `message` with the given severity as of the point in time `at`.
    /// Under the floor nothing is done: the carrier is not read and no line
    /// is made. Otherwise the trace identifier is read from the carrier at
    /// once, and the line for the sink comes back.
    pub fn log_at(
        &self,
        carrier: &AmbientCarrier,
        severity: Severity,
        message: &str,
        at: Timestamp,
    ) -> (line: Option<Vec<u8>>)
        ensures
            crate::json::bytes_view(line) == logged(
                self.gcp_project_id@,
                self.floor,
                carrier@,
                severity,
                message@,
                at,
            ),
            line matches Some(l) ==> l@ == fallback_line() || is_record_line(
                l@,
                self.gcp_project_id@,
                severity,
                message@,
                current_of(carrier@),
            ),
    {
        if !self.enabled(severity) {
            return None;
        }
        let ctx = carrier.context();
        Some(encode_at(self.gcp_project_id.as_str(), severity, message, &ctx, at))
    }

    /// Logs `message` with the given severity as of now.
    pub fn log(&self, carrier: &AmbientCarrier, severity: Severity, message: &str) -> (line: Option<
        Vec<u8>,
    >)
        ensures
            line is Some <==> severity.passes_spec(self.floor),
            exists|at: Timestamp|
                crate::json::bytes_view(line) == #[trigger] logged(
                    self.gcp_project_id@,
                    self.floor,
                    carrier@,
                    severity,
                    message@,
                    at,
                ),
            line matches Some(l) ==> l@ == fallback_line() || is_record_line(
                l@,
                self.gcp_project_id@,
                severity,
                message@,
                current_of(carrier@),
            ),
    {
        if !self.enabled(severity) {
            let at = Timestamp { secs: 0, nanos: 0 };
            assert(logged(self.gcp_project_id@, self.floor, carrier@, severity, message@, at)
                is None);
            return None;
        }
        let at = Timestamp::now();
        self.log_at(carrier, severity, message, at)
    }

    /// Logs `message` as an error, as of now.
    pub fn error(&self, carrier: &AmbientCarrier, message: &str) -> (line: Option<Vec<u8>>)
        ensures
            line is Some <==> Severity::Error.passes_spec(self.floor),
            exists|at: Timestamp|
                crate::json::bytes_view(line) == #[trigger] logged(
                    self.gcp_project_id@,
                    self.floor,
                    carrier@,
                    Severity::Error,
                    message@,
                    at,
                ),
            line matches Some(l) ==> l@ == fallback_line() || is_record_line(
                l@,
                self.gcp_project_id@,
                Severity::Error,
                message@,
                current_of(carrier@),
            ),
    {
        self.log(carrier, Severity::Error, message)
    }

    /// Logs `message` as a warning, as of now.
    pub fn warn(&self, carrier: &AmbientCarrier, message: &str) -> (line: Option<Vec<u8>>)
        ensures
            line is Some <==> Severity::Warn.passes_spec(self.floor),
            exists|at: Timestamp|
                crate::json::bytes_view(line) == #[trigger] logged(
                    self.gcp_project_id@,
                    self.floor,
                    carrier@,
                    Severity::Warn,
                    message@,
                    at,
                ),
            line matches Some(l) ==> l@ == fallback_line() || is_record_line(
                l@,
                self.gcp_project_id@,
                Severity::Warn,
                message@,
                current_of(carrier@),
            ),
    {
        self.log(carrier, Severity::Warn, message)
    }

    /// Logs `message` as information, as of now.
    pub fn info(&self, carrier: &AmbientCarrier, message: &str) -> (line: Option<Vec<u8>>)
        ensures
            line is Some <==> Severity::Info.passes_spec(self.floor),
            exists|at: Timestamp|
                crate::json::bytes_view(line) == #[trigger] logged(
                    self.gcp_project_id@,
                    self.floor,
                    carrier@,
                    Severity::Info,
                    message@,
                    at,
                ),
            line matches Some(l) ==> l@ == fallback_line() || is_record_line(
                l@,
                self.gcp_project_id@,
                Severity::Info,
                message@,
                current_of(carrier@),
            ),
    {
        self.log(carrier, Severity::Info, message)
    }

    /// Logs `message` for debugging, as of now.
    pub fn debug(&self, carrier: &AmbientCarrier, message: &str) -> (line: Option<Vec<u8>>)
        ensures
            line is Some <==> Severity::Debug.passes_spec(self.floor),
            exists|at: Timestamp|
                crate::json::bytes_view(line) == #[trigger] logged(
                    self.gcp_project_id@,
                    self.floor,
                    carrier@,
                    Severity::Debug,
                    message@,
                    at,
                ),
            line matches Some(l) ==> l@ == fallback_line() || is_record_line(
                l@,
                self.gcp_project_id@,
                Severity::Debug,
                message@,
                current_of(carrier@),
            ),
    {
        self.log(carrier, Severity::Debug, message)
    }

    /// Logs `message` for tracing the course of the program, as of now.
    pub fn trace(&self, carrier: &AmbientCarrier, message: &str) -> (line: Option<Vec<u8>>)
        ensures
            line is Some <==> Severity::Trace.passes_spec(self.floor),
            exists|at: Timestamp|
                crate::json::bytes_view(line) == #[trigger] logged(
                    self.gcp_project_id@,
                    self.floor,
                    carrier@,
                    Severity::Trace,
                    message@,
                    at,
                ),
            line matches Some(l) ==> l@ == fallback_line() || is_record_line(
                l@,
                self.gcp_project_id@,
                Severity::Trace,
                message@,
                current_of(carrier@),
            ),
    {
        self.log(carrier, Severity::Trace, message)
    }
}

} // verus!
