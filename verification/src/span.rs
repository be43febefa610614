//! The call-tree context carrier: spans form a tree, and the trace
//! identifier of a span is that of the nearest span on the way to the root
//! that has one, the span itself first.
//!
//! The tree is an arena. A span is a place in it and names its parent by
//! place; a parent always stands before its children, so the way to the root
//! is a loop over falling places. Spans are never removed: closing a span
//! ends its use as a current span and leaves what its descendants inherit.

use vstd::prelude::*;
use crate::context::id_view;
use crate::text::str_eq;

verus! {

/// One attribute of a span or field of an event: a name and a value.
#[derive(Clone, Debug)]
pub struct Attribute {
    pub name: String,
    pub value: String,
}

/// The value of the last attribute named `key`, if there is one.
pub open spec fn last_value(attributes: Seq<Attribute>, key: Seq<char>) -> Option<Seq<char>>
    decreases attributes.len(),
{
    if attributes.len() == 0 {
        None
    } else if attributes.last().name@ == key {
        Some(attributes.last().value@)
    } else {
        last_value(attributes.drop_last(), key)
    }
}

/// Collects the trace identifier from the attributes of a span: the value of
/// the attribute named `trace_id`, the last one if there are several.
#[derive(Debug)]
pub struct TraceIdVisitor {
    pub trace_id: Option<String>,
}

impl View for TraceIdVisitor {
    type V = Option<Seq<char>>;

    open spec fn view(&self) -> Option<Seq<char>> {
        id_view(self.trace_id)
    }
}

impl Default for TraceIdVisitor {
    fn default() -> (visitor: TraceIdVisitor)
        ensures
            visitor@ is None,
    {
        TraceIdVisitor { trace_id: None }
    }
}

impl TraceIdVisitor {
    /// Takes note of one attribute: if its name is `trace_id`, its value is
    /// the trace identifier from now on.
    pub fn record_debug(&mut self, name: &str, value: &str)
        ensures
            final(self)@ == (if name@ == "trace_id"@ {
                Some(value@)
            } else {
                old(self)@
            }),
    {
        if str_eq(name, "trace_id") {
            self.trace_id = Some(value.to_owned());
        }
    }

    /// Takes note of all attributes, in their order.
    pub fn record_all(&mut self, attributes: &Vec<Attribute>)
        ensures
            final(self)@ == (match last_value(attributes@, "trace_id"@) {
                Some(id) => Some(id),
                None => old(self)@,
            }),
    {
        let mut i: usize = 0;
        assert(attributes@.take(0) =~= Seq::<Attribute>::empty());
        while i < attributes.len()
            invariant
                i <= attributes@.len(),
                self@ == (match last_value(attributes@.take(i as int), "trace_id"@) {
                    Some(id) => Some(id),
                    None => old(self)@,
                }),
            decreases attributes@.len() - i,
        {
            assert(attributes@.take(i + 1).drop_last() =~= attributes@.take(i as int));
            assert(attributes@.take(i + 1).last() == attributes@[i as int]);
            self.record_debug(attributes[i].name.as_str(), attributes[i].value.as_str());
            i += 1;
        }
        assert(attributes@.take(i as int) =~= attributes@);
    }
}

/// The place of a span in its tree.
#[derive(Clone, Copy, Debug, PartialEq, Eq, Structural)]
pub struct SpanId(pub usize);

/// What a tree knows of one span.
pub struct SpanModel {
    /// The place of the parent, if the span has one.
    pub parent: Option<int>,
    /// The trace identifier among the span's own attributes, if there is one.
    pub trace_id: Option<Seq<char>>,
    /// Whether the span is still open.
    pub open: bool,
}

/// Every parent is a span of the tree and stands before its child.
pub open spec fn parents_first(spans: Seq<SpanModel>) -> bool {
    forall|i: int|
        0 <= i < spans.len() ==> (#[trigger] spans[i].parent matches Some(p) ==> 0 <= p < i)
}

/// The trace identifier of the span at `at`: its own if it has one, else that
/// of its parent, else none. A place outside the tree has none.
pub open spec fn resolve(spans: Seq<SpanModel>, at: int) -> Option<Seq<char>>
    decreases at,
{
    if 0 <= at < spans.len() {
        match spans[at].trace_id {
            Some(id) => Some(id),
            None => match spans[at].parent {
                Some(p) => if 0 <= p < at {
                    resolve(spans, p)
                } else {
                    None
                },
                None => None,
            },
        }
    } else {
        None
    }
}

/// The trace identifier that an event finds when `current` is the current
/// span: that of the span, and none where no span is current.
pub open spec fn resolve_current(spans: Seq<SpanModel>, current: Option<SpanId>) -> Option<
    Seq<char>,
> {
    match current {
        Some(span) => resolve(spans, span.0 as int),
        None => None,
    }
}

struct SpanNode {
    parent: Option<usize>,
    trace_id: Option<String>,
    open: bool,
}

impl SpanNode {
    spec fn model(self) -> SpanModel {
        SpanModel {
            parent: match self.parent {
                Some(p) => Some(p as int),
                None => None,
            },
            trace_id: id_view(self.trace_id),
            open: self.open,
        }
    }
}

/// A tree of spans.
pub struct SpanTree {
    nodes: Vec<SpanNode>,
}

impl View for SpanTree {
    type V = Seq<SpanModel>;

    closed spec fn view(&self) -> Seq<SpanModel> {
        self.nodes@.map_values(|n: SpanNode| n.model())
    }
}

impl SpanTree {
    #[verifier::type_invariant]
    spec fn parents_stand_first(self) -> bool {
        parents_first(self@)
    }

    /// A tree without spans.
    pub fn new() -> (tree: SpanTree)
        ensures
            tree@.len() == 0,
            parents_first(tree@),
    {
        let tree = SpanTree { nodes: Vec::new() };
        assert(tree@ =~= Seq::<SpanModel>::empty());
        tree
    }

    /// The number of spans.
    pub fn len(&self) -> (n: usize)
        ensures
            n == self@.len(),
    {
        self.nodes.len()
    }

    /// Whether `span` is a span of this tree.
    pub fn contains(&self, span: SpanId) -> (b: bool)
        ensures
            b == (span.0 < self@.len()),
    {
        span.0 < self.nodes.len()
    }

    /// Creates a span with the given attributes, as a child of `parent` if
    /// that is a span of this tree and as a root otherwise. Its own trace
    /// identifier is the value of its attribute `trace_id`, if it has one.
    /// The spans that were there stay as they are.
    pub fn create_span(&mut self, parent: Option<SpanId>, attributes: &Vec<Attribute>) -> (span:
        SpanId)
        ensures
            span.0 == old(self)@.len(),
            final(self)@ == old(self)@.push(
                SpanModel {
                    parent: match parent {
                        Some(p) => if p.0 < old(self)@.len() {
                            Some(p.0 as int)
                        } else {
                            None
                        },
                        None => None,
                    },
                    trace_id: last_value(attributes@, "trace_id"@),
                    open: true,
                },
            ),
            parents_first(final(self)@),
    {
        proof {
            use_type_invariant(&*self);
        }
        let mut visitor = TraceIdVisitor::default();
        visitor.record_all(attributes);
        let parent_place: Option<usize> = match parent {
            Some(p) => if p.0 < self.nodes.len() {
                Some(p.0)
            } else {
                None
            },
            None => None,
        };
        let at = self.nodes.len();
        let node = SpanNode { parent: parent_place, trace_id: visitor.trace_id, open: true };
        let ghost before = self.nodes@;
        // The nodes leave the tree while they change, so that the tree is
        // whole whenever it is looked at.
        let mut nodes: Vec<SpanNode> = Vec::new();
        std::mem::swap(&mut self.nodes, &mut nodes);
        nodes.push(node);
        proof {
            assert(nodes@.map_values(|n: SpanNode| n.model()) =~= old(self)@.push(node.model()));
        }
        self.nodes = nodes;
        proof {
            assert(self.nodes@ == before.push(node));
            assert(self@ =~= old(self)@.push(node.model()));
            assert forall|i: int| 0 <= i < self@.len() implies (#[trigger] self@[i].parent matches Some(
                p,
            ) ==> 0 <= p < i) by {
                if i < before.len() {
                    assert(self@[i] == old(self)@[i]);
                }
            }
        }
        SpanId(at)
    }

    /// Creates a span with the given attributes as a child of the span that is
    /// current for `cursor` at this moment, or as a root if none is. What is
    /// current later makes no difference to the span.
    pub fn create_span_in(&mut self, cursor: &SpanCursor, attributes: &Vec<Attribute>) -> (span:
        SpanId)
        ensures
            span.0 == old(self)@.len(),
            final(self)@ == old(self)@.push(
                SpanModel {
                    parent: match cursor@ {
                        Some(p) => if p.0 < old(self)@.len() {
                            Some(p.0 as int)
                        } else {
                            None
                        },
                        None => None,
                    },
                    trace_id: last_value(attributes@, "trace_id"@),
                    open: true,
                },
            ),
            parents_first(final(self)@),
    {
        self.create_span(cursor.current_span(), attributes)
    }

    /// The parent of `span`, if it has one.
    pub fn parent(&self, span: SpanId) -> (parent: Option<SpanId>)
        ensures
            match parent {
                Some(p) => span.0 < self@.len() && self@[span.0 as int].parent == Some(p.0 as int),
                None => span.0 >= self@.len() || self@[span.0 as int].parent is None,
            },
    {
        if span.0 < self.nodes.len() {
            match self.nodes[span.0].parent {
                Some(p) => Some(SpanId(p)),
                None => None,
            }
        } else {
            None
        }
    }

    /// Whether `span` is a span of this tree that has not been closed.
    pub fn is_open(&self, span: SpanId) -> (b: bool)
        ensures
            b == (span.0 < self@.len() && self@[span.0 as int].open),
    {
        span.0 < self.nodes.len() && self.nodes[span.0].open
    }

    /// Closes `span`: no event will name it as its current span any more.
    /// Nothing else changes: the span keeps its place, its parent and its
    /// trace identifier, so that its descendants resolve as before.
    pub fn close(&mut self, span: SpanId)
        ensures
            final(self)@.len() == old(self)@.len(),
            forall|i: int|
                0 <= i < old(self)@.len() ==> {
                    &&& (#[trigger] final(self)@[i]).parent == old(self)@[i].parent
                    &&& final(self)@[i].trace_id == old(self)@[i].trace_id
                    &&& final(self)@[i].open == (old(self)@[i].open && i != span.0)
                },
            parents_first(final(self)@),
    {
        proof {
            use_type_invariant(&*self);
        }
        if span.0 < self.nodes.len() {
            let ghost before = self.nodes@;
            let parent = self.nodes[span.0].parent;
            let trace_id = self.nodes[span.0].trace_id.clone();
            let mut nodes: Vec<SpanNode> = Vec::new();
            std::mem::swap(&mut self.nodes, &mut nodes);
            nodes.set(span.0, SpanNode { parent, trace_id, open: false });
            proof {
                let after = nodes@.map_values(|n: SpanNode| n.model());
                assert forall|i: int| 0 <= i < after.len() implies (#[trigger] after[i].parent matches Some(
                    p,
                ) ==> 0 <= p < i) by {
                    assert(old(self)@[i].parent == after[i].parent);
                }
            }
            self.nodes = nodes;
            proof {
                assert forall|i: int| 0 <= i < before.len() implies {
                    &&& (#[trigger] self@[i]).parent == old(self)@[i].parent
                    &&& self@[i].trace_id == old(self)@[i].trace_id
                    &&& self@[i].open == (old(self)@[i].open && i != span.0)
                } by {
                    if i != span.0 {
                        assert(self.nodes@[i] == before[i]);
                    }
                }
            }
        }
        proof {
            use_type_invariant(&*self);
        }
    }

    /// The trace identifier that `span` has of its own, if any.
    pub fn own_trace_id(&self, span: SpanId) -> (id: Option<String>)
        ensures
            id_view(id) == (if span.0 < self@.len() {
                self@[span.0 as int].trace_id
            } else {
                None
            }),
    {
        if span.0 < self.nodes.len() {
            self.nodes[span.0].trace_id.clone()
        } else {
            None
        }
    }

    /// The trace identifier of `span`: the first one found on the way from
    /// the span to the root, the span itself included.
    pub fn resolve_trace_id(&self, span: SpanId) -> (id: Option<String>)
        ensures
            id_view(id) == resolve(self@, span.0 as int),
    {
        proof {
            use_type_invariant(self);
        }
        if span.0 >= self.nodes.len() {
            return None;
        }
        let mut at: usize = span.0;
        loop
            invariant
                at < self@.len(),
                parents_first(self@),
                resolve(self@, at as int) == resolve(self@, span.0 as int),
            decreases at,
        {
            let node = &self.nodes[at];
            assert(self@[at as int] == node.model());
            match &node.trace_id {
                Some(id) => {
                    return Some(id.clone());
                },
                None => match node.parent {
                    Some(p) => {
                        at = p;
                    },
                    None => {
                        return None;
                    },
                },
            }
        }
    }

    /// The trace identifier that an event finds when `current` is the current
    /// span.
    pub fn resolve_current(&self, current: Option<SpanId>) -> (id: Option<String>)
        ensures
            id_view(id) == resolve_current(self@, current),
    {
        match current {
            Some(span) => self.resolve_trace_id(span),
            None => None,
        }
    }
}

/// Which span is current for one logical task.
pub struct SpanCursor {
    current: Option<SpanId>,
}

/// What was current when a span was attached, to be made current again when
/// it is detached.
pub struct SpanGuard {
    previous: Option<SpanId>,
}

impl View for SpanCursor {
    type V = Option<SpanId>;

    closed spec fn view(&self) -> Option<SpanId> {
        self.current
    }
}

impl View for SpanGuard {
    type V = Option<SpanId>;

    closed spec fn view(&self) -> Option<SpanId> {
        self.previous
    }
}

impl SpanCursor {
    /// The cursor of a task for which no span is current.
    pub fn new() -> (cursor: SpanCursor)
        ensures
            cursor@ is None,
    {
        SpanCursor { current: None }
    }

    /// The current span, if there is one.
    pub fn current_span(&self) -> (span: Option<SpanId>)
        ensures
            span == self@,
    {
        self.current
    }

    /// Makes `span` the current span; the guard holds what was current.
    pub fn attach_current(&mut self, span: SpanId) -> (guard: SpanGuard)
        ensures
            final(self)@ == Some(span),
            guard@ == old(self)@,
    {
        let previous = self.current;
        self.current = Some(span);
        SpanGuard { previous }
    }

    /// Ends the attachment that `guard` came from: what was current then is
    /// current again.
    pub fn detach(&mut self, guard: SpanGuard)
        ensures
            final(self)@ == guard@,
    {
        self.current = guard.previous;
    }
}

/// A span with a trace identifier of its own resolves to it, whatever its
/// ancestors carry.
pub proof fn lemma_own_trace_id_wins(spans: Seq<SpanModel>, at: int)
    requires
        0 <= at < spans.len(),
        spans[at].trace_id is Some,
    ensures
        resolve(spans, at) == spans[at].trace_id,
{
}

/// A span without a trace identifier of its own resolves to what its parent
/// resolves to, and to none if it is a root.
pub proof fn lemma_inherits_from_parent(spans: Seq<SpanModel>, at: int)
    requires
        parents_first(spans),
        0 <= at < spans.len(),
        spans[at].trace_id is None,
    ensures
        resolve(spans, at) == (match spans[at].parent {
            Some(p) => resolve(spans, p),
            None => None,
        }),
{
}

/// Resolution looks only at the span and its ancestors: two trees that agree
/// on parents and trace identifiers up to a place agree on what the span
/// there resolves to. So neither a span that is created later nor a span
/// that is closed changes what a span resolves to.
pub proof fn lemma_resolve_depends_on_ancestors(a: Seq<SpanModel>, b: Seq<SpanModel>, at: int)
    requires
        0 <= at < a.len(),
        at < b.len(),
        forall|i: int|
            0 <= i <= at ==> (#[trigger] a[i]).parent == b[i].parent && a[i].trace_id
                == b[i].trace_id,
    ensures
        resolve(a, at) == resolve(b, at),
    decreases at,
{
    if a[at].trace_id is None {
        match a[at].parent {
            Some(p) => {
                if 0 <= p < at {
                    lemma_resolve_depends_on_ancestors(a, b, p);
                }
            },
            None => {},
        }
    }
}

/// Creating a span fixes the shape of the tree: every span that was there
/// resolves as before.
pub proof fn lemma_create_keeps_resolution(spans: Seq<SpanModel>, created: SpanModel, at: int)
    requires
        0 <= at < spans.len(),
    ensures
        resolve(spans.push(created), at) == resolve(spans, at),
{
    lemma_resolve_depends_on_ancestors(spans.push(created), spans, at);
}

/// A child without a trace identifier of its own, created under a span that
/// resolves to `id`, resolves to `id`; a child with a trace identifier of its
/// own resolves to its own.
pub proof fn lemma_child_resolution(spans: Seq<SpanModel>, parent: int, child: SpanModel)
    requires
        0 <= parent < spans.len(),
        child.parent == Some(parent),
    ensures
        resolve(spans.push(child), spans.len() as int) == (match child.trace_id {
            Some(id) => Some(id),
            None => resolve(spans, parent),
        }),
{
    if child.trace_id is None {
        lemma_create_keeps_resolution(spans, child, parent);
    }
}

} // verus!
