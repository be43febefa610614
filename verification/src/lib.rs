//! Structured log lines for a cloud log backend, each tagged with the trace
//! identifier that is active where the record is emitted.
//!
//! A record is a severity and a message. When it is encoded it receives the
//! current time and, if a trace is active, the name of that trace, and becomes
//! one line of JSON. Which trace is active is kept by a context carrier: either
//! an ambient slot that scopes set and restore ([`ambient`]), or a tree of
//! spans in which the nearest ancestor with a trace identifier decides
//! ([`span`]).

use vstd::prelude::*;

pub mod ambient;
pub mod config;
pub mod context;
pub mod encoder;
pub mod json;
pub mod layer;
pub mod logger;
pub mod reader;
pub mod severity;
pub mod span;
pub mod text;
pub mod timestamp;

verus! {

/// The project identifier under which trace names are formed.
pub fn get_gcp_project_id() -> (id: String)
    ensures
        id@ == "PROJECT_ID_123"@,
{
    "PROJECT_ID_123".to_owned()
}

} // verus!
