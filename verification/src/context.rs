//! The trace that is active at one point of execution.

use vstd::prelude::*;

verus! {

/// The text of an optional identifier.
pub open spec fn id_view(id: Option<String>) -> Option<Seq<char>> {
    match id {
        Some(s) => Some(s@),
        None => None,
    }
}

/// The name of the trace `trace_id` within the project `project_id`.
pub open spec fn trace_name_spec(project_id: Seq<char>, trace_id: Seq<char>) -> Seq<char> {
    "projects/"@ + project_id + "/traces/"@ + trace_id
}

/// The name of the trace `trace_id` within the project `project_id`:
/// `projects/<project_id>/traces/<trace_id>`.
pub fn trace_name(project_id: &str, trace_id: &str) -> (name: String)
    ensures
        name@ == trace_name_spec(project_id@, trace_id@),
{
    let mut name = String::from_str("projects/");
    name.append(project_id);
    name.append("/traces/");
    name.append(trace_id);
    name
}

/// What trace, if any, is active right now: a snapshot taken by one lookup.
#[derive(Clone, Debug)]
pub struct TraceContext {
    pub trace_id: Option<String>,
}

impl View for TraceContext {
    type V = Option<Seq<char>>;

    open spec fn view(&self) -> Option<Seq<char>> {
        id_view(self.trace_id)
    }
}

impl TraceContext {
    /// The context in which no trace is active.
    pub fn none() -> (ctx: TraceContext)
        ensures
            ctx@ is None,
    {
        TraceContext { trace_id: None }
    }

    /// The context in which the trace `trace_id` is active.
    pub fn with_trace_id(trace_id: String) -> (ctx: TraceContext)
        ensures
            ctx@ == Some(trace_id@),
    {
        TraceContext { trace_id: Some(trace_id) }
    }

    /// The context that a lookup of the ambient slot yields. `None` says that
    /// the lookup found no slot at all, `Some(None)` that it found a scope
    /// without a trace identifier: in both cases no trace is active, and
    /// neither is an error.
    pub fn from_lookup(found: Option<Option<String>>) -> (ctx: TraceContext)
        ensures
            ctx@ == (match found {
                Some(id) => id_view(id),
                None => None,
            }),
    {
        match found {
            Some(id) => TraceContext { trace_id: id },
            None => TraceContext { trace_id: None },
        }
    }

    /// Whether a trace is active.
    pub fn is_active(&self) -> (b: bool)
        ensures
            b == (self@ is Some),
    {
        self.trace_id.is_some()
    }

    /// The name of the active trace within the project `project_id`, if a
    /// trace is active.
    pub fn trace_name(&self, project_id: &str) -> (name: Option<String>)
        ensures
            id_view(name) == (match self@ {
                Some(id) => Some(trace_name_spec(project_id@, id)),
                None => None,
            }),
    {
        match &self.trace_id {
            Some(id) => Some(trace_name(project_id, id.as_str())),
            None => None,
        }
    }
}

} // verus!
