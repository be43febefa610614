//! Severities of log records, and the floor under which a record is dropped.

use vstd::prelude::*;

verus! {

/// How serious a record is. `Error` is the most serious and the least verbose,
/// `Trace` the least serious and the most verbose.
#[derive(Clone, Copy, Debug, PartialEq, Eq, Structural)]
pub enum Severity {
    Error,
    Warn,
    Info,
    Debug,
    Trace,
}

impl Severity {
    /// The name under which the severity appears in a log line.
    pub open spec fn name_spec(self) -> Seq<char> {
        match self {
            Severity::Error => "error"@,
            Severity::Warn => "warn"@,
            Severity::Info => "info"@,
            Severity::Debug => "debug"@,
            Severity::Trace => "trace"@,
        }
    }

    /// The place of the severity in the order of verbosity, from 1 for
    /// `Error` to 5 for `Trace`.
    pub open spec fn verbosity_spec(self) -> int {
        match self {
            Severity::Error => 1,
            Severity::Warn => 2,
            Severity::Info => 3,
            Severity::Debug => 4,
            Severity::Trace => 5,
        }
    }

    /// Whether a record of this severity passes a filter whose floor is `floor`:
    /// it does if it is at least as serious as the floor.
    pub open spec fn passes_spec(self, floor: Severity) -> bool {
        self.verbosity_spec() <= floor.verbosity_spec()
    }

    /// The lowercase name of the severity, written out in full.
    pub fn name(&self) -> (s: &'static str)
        ensures
            s@ == self.name_spec(),
    {
        match self {
            Severity::Error => "error",
            Severity::Warn => "warn",
            Severity::Info => "info",
            Severity::Debug => "debug",
            Severity::Trace => "trace",
        }
    }

    /// The place of the severity in the order of verbosity.
    pub fn verbosity(&self) -> (v: u8)
        ensures
            v == self.verbosity_spec(),
    {
        match self {
            Severity::Error => 1,
            Severity::Warn => 2,
            Severity::Info => 3,
            Severity::Debug => 4,
            Severity::Trace => 5,
        }
    }

    /// Whether a record of this severity passes a filter whose floor is `floor`.
    pub fn passes(&self, floor: Severity) -> (b: bool)
        ensures
            b == self.passes_spec(floor),
    {
        self.verbosity() <= floor.verbosity()
    }

    /// Every severity name is made of lowercase ASCII letters only, and is not
    /// empty.
    pub proof fn lemma_name_is_lowercase(self)
        ensures
            self.name_spec().len() > 0,
            forall|i: int|
                0 <= i < self.name_spec().len() ==> 'a' <= #[trigger] self.name_spec()[i] <= 'z',
    {
        reveal_strlit("error");
        reveal_strlit("warn");
        reveal_strlit("info");
        reveal_strlit("debug");
        reveal_strlit("trace");
    }
}

} // verus!
