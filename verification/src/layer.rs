//! The layer that turns the events of a span tree into log lines.

use vstd::prelude::*;
use crate::context::{id_view, TraceContext};
use crate::encoder::{emitted, encode_at, fallback_line, is_record_line};
use crate::severity::Severity;
use crate::span::{last_value, parents_first, resolve_current, Attribute, SpanId, SpanModel, SpanTree};
use crate::text::str_eq;
use crate::timestamp::Timestamp;

verus! {

/// Collects the message from the fields of an event: the value of the field
/// named `message`, the last one if there are several.
#[derive(Debug)]
pub struct EventVisitor {
    pub message: Option<String>,
}

impl View for EventVisitor {
    type V = Option<Seq<char>>;

    open spec fn view(&self) -> Option<Seq<char>> {
        id_view(self.message)
    }
}

impl Default for EventVisitor {
    fn default() -> (visitor: EventVisitor)
        ensures
            visitor@ is None,
    {
        EventVisitor { message: None }
    }
}

impl EventVisitor {
    /// Takes note of one field: if its name is `message`, its value is the
    /// message from now on.
    pub fn record_debug(&mut self, name: &str, value: &str)
        ensures
            final(self)@ == (if name@ == "message"@ {
                Some(value@)
            } else {
                old(self)@
            }),
    {
        if str_eq(name, "message") {
            self.message = Some(value.to_owned());
        }
    }

    /// Takes note of all fields, in their order.
    pub fn record_all(&mut self, fields: &Vec<Attribute>)
        ensures
            final(self)@ == (match last_value(fields@, "message"@) {
                Some(message) => Some(message),
                None => old(self)@,
            }),
    {
        let mut i: usize = 0;
        assert(fields@.take(0) =~= Seq::<Attribute>::empty());
        while i < fields.len()
            invariant
                i <= fields@.len(),
                self@ == (match last_value(fields@.take(i as int), "message"@) {
                    Some(message) => Some(message),
                    None => old(self)@,
                }),
            decreases fields@.len() - i,
        {
            assert(fields@.take(i + 1).drop_last() =~= fields@.take(i as int));
            assert(fields@.take(i + 1).last() == fields@[i as int]);
            self.record_debug(fields[i].name.as_str(), fields[i].value.as_str());
            i += 1;
        }
        assert(fields@.take(i as int) =~= fields@);
    }
}

/// Something that happened: how serious it is, and its fields.
#[derive(Debug)]
pub struct Event {
    pub severity: Severity,
    pub fields: Vec<Attribute>,
}

/// The message of an event with the given fields: the value of its field
/// `message`, and the empty text if it has none.
pub open spec fn message_of(fields: Seq<Attribute>) -> Seq<char> {
    match last_value(fields, "message"@) {
        Some(message) => message,
        None => Seq::empty(),
    }
}

/// Turns events into log lines for one project.
#[derive(Debug)]
pub struct GcpLayer {
    pub gcp_project_id: String,
}

impl GcpLayer {
    /// The layer for the project `gcp_project_id`.
    pub fn new(gcp_project_id: String) -> (layer: GcpLayer)
        ensures
            layer.gcp_project_id == gcp_project_id,
    {
        GcpLayer { gcp_project_id }
    }

    /// A span begins: it takes its place in the tree under `parent`, and
    /// carries the trace identifier that is among its attributes, if there is
    /// one.
    pub fn on_new_span(
        &self,
        tree: &mut SpanTree,
        parent: Option<SpanId>,
        attrs: &Vec<Attribute>,
    ) -> (span: SpanId)
        ensures
            span.0 == old(tree)@.len(),
            final(tree)@ == old(tree)@.push(
                SpanModel {
                    parent: match parent {
                        Some(p) => if p.0 < old(tree)@.len() {
                            Some(p.0 as int)
                        } else {
                            None
                        },
                        None => None,
                    },
                    trace_id: last_value(attrs@, "trace_id"@),
                    open: true,
                },
            ),
            parents_first(final(tree)@),
    {
        tree.create_span(parent, attrs)
    }

    /// An event happens while `current` is the current span, at the point in
    /// time `at`: its line holds the event's severity and message and the
    /// name of the trace that the current span resolves to.
    pub fn on_event_at(
        &self,
        tree: &SpanTree,
        current: Option<SpanId>,
        event: &Event,
        at: Timestamp,
    ) -> (line: Vec<u8>)
        ensures
            line@ == emitted(
                self.gcp_project_id@,
                event.severity,
                message_of(event.fields@),
                resolve_current(tree@, current),
                at,
            ),
            line@ == fallback_line() || is_record_line(
                line@,
                self.gcp_project_id@,
                event.severity,
                message_of(event.fields@),
                resolve_current(tree@, current),
            ),
    {
        let ctx = TraceContext { trace_id: tree.resolve_current(current) };
        let mut visitor = EventVisitor::default();
        visitor.record_all(&event.fields);
        let message = match visitor.message {
            Some(message) => message,
            None => String::new(),
        };
        encode_at(self.gcp_project_id.as_str(), event.severity, message.as_str(), &ctx, at)
    }

    /// An event happens while `current` is the current span: its line is that
    /// of [`Self::on_event_at`] for the point in time that the clock gives.
    pub fn on_event(&self, tree: &SpanTree, current: Option<SpanId>, event: &Event) -> (line: Vec<
        u8,
    >)
        ensures
            exists|at: Timestamp|
                line@ == #[trigger] emitted(
                    self.gcp_project_id@,
                    event.severity,
                    message_of(event.fields@),
                    resolve_current(tree@, current),
                    at,
                ),
            line@ == fallback_line() || is_record_line(
                line@,
                self.gcp_project_id@,
                event.severity,
                message_of(event.fields@),
                resolve_current(tree@, current),
            ),
    {
        let at = Timestamp::now();
        self.on_event_at(tree, current, event, at)
    }
}

} // verus!
