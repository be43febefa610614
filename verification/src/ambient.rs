//! The ambient context carrier: a slot that belongs to one logical task and
//! holds the trace identifier of the scope that the task is in.
//!
//! A scope puts its identifier into the slot and keeps what the slot held
//! before; when the scope ends, what it kept goes back into the slot. Every
//! task has a carrier of its own, so that no task can see or change the slot
//! of another, whatever worker runs them and in whatever order.

use vstd::prelude::*;
use crate::context::{id_view, TraceContext};

verus! {

/// What a slot holds: `None` outside every scope, `Some(None)` in a scope
/// without a trace identifier, `Some(Some(id))` in a scope with one.
pub type Slot = Option<Option<Seq<char>>>;

/// The trace identifier that a lookup finds in a slot.
pub open spec fn current_of(slot: Slot) -> Option<Seq<char>> {
    match slot {
        Some(id) => id,
        None => None,
    }
}

/// What a slot of strings holds.
pub open spec fn slot_view(slot: Option<Option<String>>) -> Slot {
    match slot {
        Some(id) => Some(id_view(id)),
        None => None,
    }
}

/// The slot of one logical task.
pub struct AmbientCarrier {
    slot: Option<Option<String>>,
}

/// What a scope kept when it was entered, to be put back when it ends.
pub struct ScopeGuard {
    saved: Option<Option<String>>,
}

impl View for AmbientCarrier {
    type V = Slot;

    closed spec fn view(&self) -> Slot {
        slot_view(self.slot)
    }
}

impl View for ScopeGuard {
    type V = Slot;

    closed spec fn view(&self) -> Slot {
        slot_view(self.saved)
    }
}

impl AmbientCarrier {
    /// The carrier of a task that is in no scope.
    pub fn new() -> (carrier: AmbientCarrier)
        ensures
            carrier@ is None,
    {
        AmbientCarrier { slot: None }
    }

    /// Whether the task is in a scope.
    pub fn in_scope(&self) -> (b: bool)
        ensures
            b == (self@ is Some),
    {
        self.slot.is_some()
    }

    /// The trace identifier that is active, if any. Outside every scope there
    /// is none, and that is no error.
    pub fn current(&self) -> (id: Option<String>)
        ensures
            id_view(id) == current_of(self@),
    {
        match &self.slot {
            Some(Some(id)) => Some(id.clone()),
            _ => None,
        }
    }

    /// The trace context at this point.
    pub fn context(&self) -> (ctx: TraceContext)
        ensures
            ctx@ == current_of(self@),
    {
        TraceContext { trace_id: self.current() }
    }

    /// Enters a scope: the slot now holds `trace_id`, and the guard holds what
    /// the slot held before.
    pub fn enter(&mut self, trace_id: Option<String>) -> (guard: ScopeGuard)
        ensures
            final(self)@ == Some(id_view(trace_id)),
            guard@ == old(self)@,
    {
        let mut saved = Some(trace_id);
        std::mem::swap(&mut self.slot, &mut saved);
        ScopeGuard { saved }
    }

    /// Ends the scope that `guard` came from: the slot holds again what it
    /// held when that scope was entered, whatever it holds now. Guards are to
    /// be handed back innermost first; [`Self::enter_scope`] and
    /// [`TaskScopes`] see to that order themselves.
    pub fn exit(&mut self, guard: ScopeGuard)
        ensures
            final(self)@ == guard@,
    {
        self.slot = guard.saved;
    }

    /// Ends every scope at once, as when the task is cancelled: the slot
    /// holds nothing.
    pub fn cancel(&mut self)
        ensures
            final(self)@ is None,
    {
        self.slot = None;
    }

    /// Runs `body` in a scope with `trace_id`. While `body` runs the slot
    /// holds `trace_id`; afterwards the slot holds what it held before,
    /// whatever `body` did to it. The result is that of `body`.
    pub fn enter_scope<R, F: FnOnce(&mut AmbientCarrier) -> R>(
        &mut self,
        trace_id: Option<String>,
        body: F,
    ) -> (result: R)
        requires
            forall|inner: &mut AmbientCarrier|
                (*inner)@ == Some(id_view(trace_id)) ==> body.requires((inner,)),
        ensures
            final(self)@ == old(self)@,
            exists|inner: &mut AmbientCarrier|
                (*inner)@ == Some(id_view(trace_id)) && body.ensures((inner,), result),
    {
        let guard = self.enter(trace_id);
        let result = body(self);
        self.exit(guard);
        result
    }
}

/// One step of a task: it enters a scope, leaves the innermost scope that is
/// open, or is cancelled.
pub enum ScopeOp {
    Enter(Option<Seq<char>>),
    Exit,
    Cancel,
}

/// A task as the steps see it: its slot, and what the guards of its open
/// scopes hold, the innermost last.
pub struct TaskState {
    pub slot: Slot,
    pub saved: Seq<Slot>,
}

impl TaskState {
    /// A task that has taken no step.
    pub open spec fn fresh() -> TaskState {
        TaskState { slot: None, saved: Seq::empty() }
    }

    /// The trace identifier that a lookup by the task finds.
    pub open spec fn current(self) -> Option<Seq<char>> {
        current_of(self.slot)
    }

    /// The task after one step. `Enter` does what [`AmbientCarrier::enter`]
    /// does and keeps the guard; `Exit` hands the innermost guard to
    /// [`AmbientCarrier::exit`] and does nothing where no scope is open;
    /// `Cancel` does what [`AmbientCarrier::cancel`] does and drops the
    /// guards. [`TaskScopes`] takes these steps.
    pub open spec fn step(self, op: ScopeOp) -> TaskState {
        match op {
            ScopeOp::Enter(id) => TaskState { slot: Some(id), saved: self.saved.push(self.slot) },
            ScopeOp::Exit => if self.saved.len() > 0 {
                TaskState { slot: self.saved.last(), saved: self.saved.drop_last() }
            } else {
                self
            },
            ScopeOp::Cancel => TaskState::fresh(),
        }
    }

    /// The task after a sequence of steps.
    pub open spec fn run(self, ops: Seq<ScopeOp>) -> TaskState
        decreases ops.len(),
    {
        if ops.len() == 0 {
            self
        } else {
            self.run(ops.drop_last()).step(ops.last())
        }
    }
}

/// The scopes of one logical task, kept in one place: the task's carrier and
/// the guards of the scopes that are open, the innermost last. It is for code
/// that cannot run a scope as one call, and leaves scopes in the reverse order
/// of entering them.
pub struct TaskScopes {
    carrier: AmbientCarrier,
    guards: Vec<ScopeGuard>,
}

impl View for TaskScopes {
    type V = TaskState;

    closed spec fn view(&self) -> TaskState {
        TaskState { slot: self.carrier@, saved: self.guards@.map_values(|g: ScopeGuard| g@) }
    }
}

impl TaskScopes {
    /// The scopes of a task that has taken no step.
    pub fn new() -> (task: TaskScopes)
        ensures
            task@ == TaskState::fresh(),
    {
        let task = TaskScopes { carrier: AmbientCarrier::new(), guards: Vec::new() };
        assert(task@.saved =~= Seq::<Slot>::empty());
        task
    }

    /// The carrier of the task, for lookups.
    pub fn carrier(&self) -> (carrier: &AmbientCarrier)
        ensures
            carrier@ == self@.slot,
    {
        &self.carrier
    }

    /// The trace identifier that is active, if any.
    pub fn current(&self) -> (id: Option<String>)
        ensures
            id_view(id) == self@.current(),
    {
        self.carrier.current()
    }

    /// The number of scopes that are open.
    pub fn depth(&self) -> (n: usize)
        ensures
            n == self@.saved.len(),
    {
        self.guards.len()
    }

    /// Enters a scope with `trace_id`.
    pub fn enter(&mut self, trace_id: Option<String>)
        ensures
            final(self)@ == old(self)@.step(ScopeOp::Enter(id_view(trace_id))),
    {
        let guard = self.carrier.enter(trace_id);
        self.guards.push(guard);
        assert(self@.saved =~= old(self)@.saved.push(old(self)@.slot));
    }

    /// Leaves the innermost scope that is open; does nothing if none is.
    pub fn exit(&mut self)
        ensures
            final(self)@ == old(self)@.step(ScopeOp::Exit),
    {
        match self.guards.pop() {
            Some(guard) => {
                self.carrier.exit(guard);
                assert(self@.saved =~= old(self)@.saved.drop_last());
            },
            None => {
                assert(self@.saved =~= old(self)@.saved);
            },
        }
    }

    /// Ends every scope at once, as when the task is cancelled.
    pub fn cancel(&mut self)
        ensures
            final(self)@ == old(self)@.step(ScopeOp::Cancel),
    {
        self.carrier.cancel();
        self.guards.clear();
        assert(self@.saved =~= Seq::<Slot>::empty());
    }
}

/// The tasks of a system, by number. A number that is not in the map is a
/// task that has taken no step.
pub type Tasks = Map<nat, TaskState>;

/// The state of task `task`.
pub open spec fn state_of(tasks: Tasks, task: nat) -> TaskState {
    if tasks.dom().contains(task) {
        tasks[task]
    } else {
        TaskState::fresh()
    }
}

/// The system after task `step.0` has taken the step `step.1`.
pub open spec fn system_step(tasks: Tasks, step: (nat, ScopeOp)) -> Tasks {
    tasks.insert(step.0, state_of(tasks, step.0).step(step.1))
}

/// The system after a sequence of steps of its tasks, in the order in which
/// they were scheduled.
pub open spec fn system_run(tasks: Tasks, schedule: Seq<(nat, ScopeOp)>) -> Tasks
    decreases schedule.len(),
{
    if schedule.len() == 0 {
        tasks
    } else {
        system_step(system_run(tasks, schedule.drop_last()), schedule.last())
    }
}

/// The steps of task `task` in a schedule, in their order.
pub open spec fn own_steps(schedule: Seq<(nat, ScopeOp)>, task: nat) -> Seq<ScopeOp>
    decreases schedule.len(),
{
    if schedule.len() == 0 {
        Seq::empty()
    } else if schedule.last().0 == task {
        own_steps(schedule.drop_last(), task).push(schedule.last().1)
    } else {
        own_steps(schedule.drop_last(), task)
    }
}

/// Nested scopes restore the outer value. In a scope `a`, a nested scope `b`
/// makes `b` the active identifier; when the nested scope ends, `a` is active
/// again and the task is as it was before the nested scope; when the outer
/// scope ends too, the task is as it was before both. For a task that was in
/// no scope, no identifier is active then.
pub proof fn lemma_nested_scopes_restore(
    before: TaskState,
    a: Option<Seq<char>>,
    b: Option<Seq<char>>,
)
    ensures
        before.step(ScopeOp::Enter(a)).current() == a,
        before.step(ScopeOp::Enter(a)).step(ScopeOp::Enter(b)).current() == b,
        before.step(ScopeOp::Enter(a)).step(ScopeOp::Enter(b)).step(ScopeOp::Exit) == before.step(
            ScopeOp::Enter(a),
        ),
        before.step(ScopeOp::Enter(a)).step(ScopeOp::Enter(b)).step(ScopeOp::Exit).step(
            ScopeOp::Exit,
        ) == before,
        before.slot is None ==> before.step(ScopeOp::Enter(a)).step(ScopeOp::Enter(b)).step(
            ScopeOp::Exit,
        ).step(ScopeOp::Exit).current() is None,
{
    let in_a = before.step(ScopeOp::Enter(a));
    let in_b = in_a.step(ScopeOp::Enter(b));
    assert(in_a.saved.drop_last() =~= before.saved);
    assert(in_b.saved.drop_last() =~= in_a.saved);
    assert(in_b.step(ScopeOp::Exit) == in_a);
    assert(in_a.step(ScopeOp::Exit) == before);
}

/// The number of scopes that a sequence of steps leaves open: its enters
/// less its exits.
pub open spec fn depth_of(ops: Seq<ScopeOp>) -> int
    decreases ops.len(),
{
    if ops.len() == 0 {
        0
    } else {
        depth_of(ops.drop_last()) + (match ops.last() {
            ScopeOp::Enter(_) => 1int,
            ScopeOp::Exit => -1int,
            ScopeOp::Cancel => 0int,
        })
    }
}

/// Whether the steps keep to the scopes that they enter themselves: at no
/// point have they left more scopes than they have entered, and none of them
/// is a cancellation.
pub open spec fn is_nested(ops: Seq<ScopeOp>) -> bool
    decreases ops.len(),
{
    ops.len() == 0 || (is_nested(ops.drop_last()) && !(ops.last() is Cancel) && depth_of(ops)
        >= 0)
}

/// Whether the steps are balanced: they keep to their own scopes and leave
/// every scope that they enter.
pub open spec fn is_balanced(ops: Seq<ScopeOp>) -> bool {
    is_nested(ops) && depth_of(ops) == 0
}

/// Steps one after the other are the first steps and then the others.
pub proof fn lemma_run_in_two_parts(state: TaskState, first: Seq<ScopeOp>, then: Seq<ScopeOp>)
    ensures
        state.run(first + then) == state.run(first).run(then),
    decreases then.len(),
{
    if then.len() == 0 {
        assert(first + then =~= first);
    } else {
        lemma_run_in_two_parts(state, first, then.drop_last());
        assert((first + then).drop_last() =~= first + then.drop_last());
        assert((first + then).last() == then.last());
    }
}

/// Steps that keep to their own scopes leave alone what was there before
/// them: the guards of the scopes that were open stay, and above them lies
/// what the slot held; once the steps have left all their scopes, the task is
/// as it was.
pub proof fn lemma_nested_steps_keep_the_outer(state: TaskState, ops: Seq<ScopeOp>)
    requires
        is_nested(ops),
    ensures
        depth_of(ops) == 0 ==> state.run(ops) == state,
        depth_of(ops) > 0 ==> {
            &&& state.run(ops).saved.len() == state.saved.len() + depth_of(ops)
            &&& state.run(ops).saved.take(state.saved.len() as int) == state.saved
            &&& state.run(ops).saved[state.saved.len() as int] == state.slot
        },
    decreases ops.len(),
{
    if ops.len() > 0 {
        let earlier = ops.drop_last();
        let n = state.saved.len() as int;
        lemma_nested_steps_keep_the_outer(state, earlier);
        let mid = state.run(earlier);
        let after = state.run(ops);
        assert(after == mid.step(ops.last()));
        assert(depth_of(earlier) >= 0) by {
            reveal_with_fuel(is_nested, 2);
        }
        match ops.last() {
            ScopeOp::Enter(id) => {
                assert(after.saved == mid.saved.push(mid.slot));
                if depth_of(earlier) == 0 {
                    assert(after.saved.take(n) =~= state.saved);
                } else {
                    assert(mid.saved.take(n) == state.saved);
                    assert(after.saved.take(n) =~= mid.saved.take(n));
                    assert(after.saved[n] == mid.saved[n]);
                }
            },
            ScopeOp::Exit => {
                assert(depth_of(earlier) == depth_of(ops) + 1);
                assert(mid.saved.len() == n + depth_of(earlier));
                assert(after.saved == mid.saved.drop_last());
                assert(after.slot == mid.saved.last());
                if depth_of(ops) == 0 {
                    assert(mid.saved.drop_last() =~= mid.saved.take(n));
                    assert(after == state);
                } else {
                    assert(after.saved.take(n) =~= mid.saved.take(n));
                    assert(after.saved[n] == mid.saved[n]);
                }
            },
            ScopeOp::Cancel => {},
        }
    }
}

/// A scope that ends leaves the task as it was when the scope was entered,
/// whatever scopes were entered and left in between; and while the scope is
/// open and the scopes in between are left, its identifier is the active one.
pub proof fn lemma_balanced_steps_restore(
    before: TaskState,
    id: Option<Seq<char>>,
    between: Seq<ScopeOp>,
)
    requires
        is_balanced(between),
    ensures
        before.step(ScopeOp::Enter(id)).run(between) == before.step(ScopeOp::Enter(id)),
        before.step(ScopeOp::Enter(id)).run(between).current() == id,
        before.step(ScopeOp::Enter(id)).run(between).step(ScopeOp::Exit) == before,
{
    lemma_nested_steps_keep_the_outer(before.step(ScopeOp::Enter(id)), between);
    assert(before.step(ScopeOp::Enter(id)).saved.drop_last() =~= before.saved);
}

/// Tasks do not observe each other. After any schedule, the state of a task
/// is what its own steps alone make of its state before: the steps of other
/// tasks, and where they fall in the schedule, make no difference.
pub proof fn lemma_tasks_are_isolated(tasks: Tasks, schedule: Seq<(nat, ScopeOp)>, task: nat)
    ensures
        state_of(system_run(tasks, schedule), task) == state_of(tasks, task).run(
            own_steps(schedule, task),
        ),
    decreases schedule.len(),
{
    if schedule.len() > 0 {
        let earlier = schedule.drop_last();
        lemma_tasks_are_isolated(tasks, earlier, task);
        if schedule.last().0 == task {
            let own = own_steps(schedule, task);
            assert(own.drop_last() =~= own_steps(earlier, task));
            assert(own.last() == schedule.last().1);
        }
    }
}

/// A task sees only the identifiers of its own scopes. Take any schedule in
/// which the last scope that task `a` entered and has not left is one with
/// `id_a`, and the same for task `b` with `id_b`: then `a` finds `id_a` and
/// `b` finds `id_b`, whatever each of them did before, and however the steps
/// of the two and of all other tasks are interleaved.
pub proof fn lemma_two_tasks_keep_their_own(
    tasks: Tasks,
    schedule: Seq<(nat, ScopeOp)>,
    a: nat,
    before_a: Seq<ScopeOp>,
    id_a: Option<Seq<char>>,
    within_a: Seq<ScopeOp>,
    b: nat,
    before_b: Seq<ScopeOp>,
    id_b: Option<Seq<char>>,
    within_b: Seq<ScopeOp>,
)
    requires
        own_steps(schedule, a) == before_a.push(ScopeOp::Enter(id_a)) + within_a,
        is_balanced(within_a),
        own_steps(schedule, b) == before_b.push(ScopeOp::Enter(id_b)) + within_b,
        is_balanced(within_b),
    ensures
        state_of(system_run(tasks, schedule), a).current() == id_a,
        state_of(system_run(tasks, schedule), b).current() == id_b,
{
    lemma_tasks_are_isolated(tasks, schedule, a);
    lemma_tasks_are_isolated(tasks, schedule, b);
    lemma_in_scope_after(state_of(tasks, a), before_a, id_a, within_a);
    lemma_in_scope_after(state_of(tasks, b), before_b, id_b, within_b);
}

/// After whatever steps, an enter and balanced steps, the identifier of that
/// enter is the active one.
pub proof fn lemma_in_scope_after(
    state: TaskState,
    before: Seq<ScopeOp>,
    id: Option<Seq<char>>,
    within: Seq<ScopeOp>,
)
    requires
        is_balanced(within),
    ensures
        state.run(before.push(ScopeOp::Enter(id)) + within).current() == id,
{
    let entered = before.push(ScopeOp::Enter(id));
    lemma_run_in_two_parts(state, entered, within);
    assert(entered.drop_last() =~= before);
    assert(state.run(entered) == state.run(before).step(ScopeOp::Enter(id)));
    lemma_balanced_steps_restore(state.run(before), id, within);
}

/// Cancelling a task leaks nothing. Once a task is cancelled, in whatever
/// scope it was, no identifier is active for it; every other task is as it
/// was; and a task that is scheduled afterwards and has entered no scope of
/// its own finds no identifier, whatever number it has.
pub proof fn lemma_cancel_leaks_nothing(
    tasks: Tasks,
    cancelled: nat,
    later: Seq<(nat, ScopeOp)>,
    next: nat,
)
    requires
        state_of(tasks, next).slot is None || next == cancelled,
        own_steps(later, next).len() == 0,
    ensures
        state_of(system_step(tasks, (cancelled, ScopeOp::Cancel)), cancelled)
            == TaskState::fresh(),
        forall|other: nat|
            other != cancelled ==> state_of(
                system_step(tasks, (cancelled, ScopeOp::Cancel)),
                other,
            ) == state_of(tasks, other),
        state_of(
            system_run(system_step(tasks, (cancelled, ScopeOp::Cancel)), later),
            next,
        ).current() is None,
{
    let after = system_step(tasks, (cancelled, ScopeOp::Cancel));
    lemma_tasks_are_isolated(after, later, next);
}

} // verus!
