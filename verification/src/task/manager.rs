//! The round-robin task manager.
//!
//! The manager only decides: which task runs next and what state every task
//! is in. Saving and restoring registers (the context switch itself) is done
//! by the caller, which receives a [`TaskSwitch`] naming the two tasks.
use vstd::prelude::*;

use super::context::{saved_regs_zero, TaskContext};
use super::{TaskControlBlock, TaskStatus};
use crate::config::MAX_APP_NUM;

verus! {

/// What the caller must do after a scheduling decision: save the registers
/// into task `current`'s context and resume task `next`.
#[derive(Copy, Clone, PartialEq, Eq, Structural, Debug)]
pub struct TaskSwitch {
    pub current: usize,
    pub next: usize,
}

/// The switch a scheduling decision asks for: from task `current` to the
/// chosen task `next`.
pub open spec fn switch_to(current: nat, next: Option<nat>) -> TaskSwitch {
    TaskSwitch { current: current as usize, next: next.unwrap() as usize }
}

/// The abstract state of a [`TaskManager`]: how many applications there are,
/// the state of every task slot, and which task is the current one.
pub struct TaskManagerView {
    pub num_app: nat,
    pub statuses: Seq<TaskStatus>,
    pub current: nat,
}

/// Distance going forward from slot `from` to slot `to` around a ring of `n`
/// slots; for two slots of the ring it lies in `1..=n`, and it is `n` for `to == from`.
pub open spec fn ring_distance(from: int, to: int, n: int) -> int {
    if to > from {
        to - from
    } else {
        to + n - from
    }
}

impl TaskManagerView {
    /// Shape of a manager state: `MAX_APP_NUM` slots, at most that many
    /// applications, and a current task among the applications (if there is any).
    pub open spec fn wf(self) -> bool {
        &&& self.statuses.len() == MAX_APP_NUM
        &&& self.num_app <= MAX_APP_NUM
        &&& self.current < MAX_APP_NUM
        &&& (self.num_app == 0 || self.current < self.num_app)
    }

    /// Application `i` is ready to run.
    pub open spec fn is_suspended(self, i: int) -> bool {
        0 <= i < self.num_app && self.statuses[i] == TaskStatus::Suspended
    }

    /// Application `id` is suspended, and no suspended application comes
    /// before it going forward from the current task.
    pub open spec fn is_next_suspended(self, id: int) -> bool {
        &&& self.is_suspended(id)
        &&& forall|j: int|
            #[trigger] self.is_suspended(j) ==> ring_distance(self.current as int, id, self.num_app as int)
                <= ring_distance(self.current as int, j, self.num_app as int)
    }

    /// The task that runs next: the first suspended application after the
    /// current one in round-robin order (the current one itself last), or
    /// `None` when no application is suspended.
    pub open spec fn next_task(self) -> Option<nat> {
        if exists|id: int| self.is_next_suspended(id) {
            Some((choose|id: int| self.is_next_suspended(id)) as nat)
        } else {
            None
        }
    }

    /// The state with slot `i` set to `s`.
    pub open spec fn with_status(self, i: int, s: TaskStatus) -> TaskManagerView {
        TaskManagerView { statuses: self.statuses.update(i, s), ..self }
    }

    /// The state after a run-next decision: the chosen task runs and becomes
    /// the current one; without a chosen task nothing changes.
    pub open spec fn run_next(self) -> TaskManagerView {
        match self.next_task() {
            Some(next) => TaskManagerView {
                statuses: self.statuses.update(next as int, TaskStatus::Running),
                current: next,
                ..self
            },
            None => self,
        }
    }

    /// The state after the current task yields the processor.
    pub open spec fn suspend_and_run_next(self) -> TaskManagerView {
        self.with_status(self.current as int, TaskStatus::Suspended).run_next()
    }

    /// The state after the current task exits.
    pub open spec fn exit_and_run_next(self) -> TaskManagerView {
        self.with_status(self.current as int, TaskStatus::Exited).run_next()
    }

    /// The life-cycle invariant of a running system: exactly the application
    /// slots are initialised, and a running task can only be the current one.
    pub open spec fn lifecycle_ok(self) -> bool {
        &&& self.wf()
        &&& forall|i: int|
            0 <= i < MAX_APP_NUM ==> (i < self.num_app <==> #[trigger] self.statuses[i]
                != TaskStatus::UnInit)
        &&& forall|i: int|
            0 <= i < MAX_APP_NUM && #[trigger] self.statuses[i] == TaskStatus::Running ==> i
                == self.current
    }
}

/// Two slots of the ring at the same distance from `from` are the same slot.
proof fn lemma_ring_distance_injective(from: int, a: int, b: int, n: int)
    requires
        0 <= from < n,
        0 <= a < n,
        0 <= b < n,
        ring_distance(from, a, n) == ring_distance(from, b, n),
    ensures
        a == b,
{
}

/// The nearest suspended application is unique.
proof fn lemma_next_suspended_unique(v: TaskManagerView, a: int, b: int)
    requires
        v.wf(),
        v.is_next_suspended(a),
        v.is_next_suspended(b),
    ensures
        a == b,
{
    assert(v.is_suspended(a) && v.is_suspended(b));
    lemma_ring_distance_injective(v.current as int, a, b, v.num_app as int);
}

/// The nearest suspended application is the task chosen next.
pub proof fn lemma_next_task_is(v: TaskManagerView, id: int)
    requires
        v.wf(),
        v.is_next_suspended(id),
    ensures
        v.next_task() == Some(id as nat),
{
    let c = choose|x: int| v.is_next_suspended(x);
    lemma_next_suspended_unique(v, c, id);
}

/// If some suspended application lies within distance `d` of the current
/// task, a nearest suspended application exists.
proof fn lemma_nearest_exists(v: TaskManagerView, d: int)
    requires
        v.wf(),
        exists|j: int|
            #[trigger] v.is_suspended(j) && ring_distance(v.current as int, j, v.num_app as int) <= d,
    ensures
        exists|id: int| v.is_next_suspended(id),
    decreases d,
{
    let cur = v.current as int;
    let n = v.num_app as int;
    if exists|j: int| #[trigger] v.is_suspended(j) && ring_distance(cur, j, n) <= d - 1 {
        lemma_nearest_exists(v, d - 1);
    } else {
        let j = choose|j: int| #[trigger] v.is_suspended(j) && ring_distance(cur, j, n) <= d;
        assert(v.is_next_suspended(j));
    }
}

/// Law: the manager reports that all applications have completed exactly
/// when no application is ready to run.
pub proof fn lemma_next_task_none_iff_none_suspended(v: TaskManagerView)
    requires
        v.wf(),
    ensures
        v.next_task() is None <==> forall|i: int| 0 <= i < v.num_app ==> v.statuses[i]
            != TaskStatus::Suspended,
{
    if exists|i: int| 0 <= i < v.num_app && v.statuses[i] == TaskStatus::Suspended {
        let i = choose|i: int| 0 <= i < v.num_app && v.statuses[i] == TaskStatus::Suspended;
        assert(v.is_suspended(i));
        lemma_nearest_exists(v, v.num_app as int);
    } else {
        assert forall|id: int| !v.is_next_suspended(id) by {}
    }
}

/// Law: the task chosen to run next is a suspended application, and no
/// suspended application lies between the current task and it in
/// round-robin order; in particular an exited task is never chosen.
pub proof fn lemma_next_task_is_nearest_ready(v: TaskManagerView)
    requires
        v.wf(),
    ensures
        v.next_task() matches Some(id) ==> {
            &&& v.is_next_suspended(id as int)
            &&& v.statuses[id as int] == TaskStatus::Suspended
            &&& id < v.num_app
        },
{
}

/// Law: when the running task yields, the system keeps its life-cycle
/// invariant, some task is always chosen (yielding never ends the system),
/// the chosen task is running and current, and exited tasks stay exited.
pub proof fn lemma_yield_keeps_lifecycle(v: TaskManagerView)
    requires
        v.lifecycle_ok(),
        v.statuses[v.current as int] == TaskStatus::Running,
    ensures
        v.with_status(v.current as int, TaskStatus::Suspended).next_task() is Some,
        v.suspend_and_run_next().lifecycle_ok(),
        v.suspend_and_run_next().statuses[v.suspend_and_run_next().current as int]
            == TaskStatus::Running,
        forall|i: int|
            0 <= i < MAX_APP_NUM && v.statuses[i] == TaskStatus::Exited
                ==> #[trigger] v.suspend_and_run_next().statuses[i] == TaskStatus::Exited,
{
    let u = v.with_status(v.current as int, TaskStatus::Suspended);
    assert(u.wf());
    assert(u.is_suspended(v.current as int));
    lemma_nearest_exists(u, v.num_app as int);
    let next = u.next_task()->0;
    assert(u.is_next_suspended(next as int));
    let w = u.run_next();
    assert(w.statuses[next as int] == TaskStatus::Running);
    assert forall|i: int|
        0 <= i < MAX_APP_NUM && #[trigger] w.statuses[i] == TaskStatus::Running implies i
            == w.current by {
        if i != next {
            assert(u.statuses[i] == TaskStatus::Running);
            assert(i == v.current);
        }
    }
}

/// Law: when the running task exits, the system keeps its life-cycle
/// invariant and the task stays exited; exited tasks stay exited; either
/// another task runs as the current one, or, when no task is ready, no task
/// runs any more.
pub proof fn lemma_exit_keeps_lifecycle(v: TaskManagerView)
    requires
        v.lifecycle_ok(),
        v.statuses[v.current as int] == TaskStatus::Running,
    ensures
        v.exit_and_run_next().lifecycle_ok(),
        v.exit_and_run_next().statuses[v.current as int] == TaskStatus::Exited,
        forall|i: int|
            0 <= i < MAX_APP_NUM && v.statuses[i] == TaskStatus::Exited
                ==> #[trigger] v.exit_and_run_next().statuses[i] == TaskStatus::Exited,
        v.with_status(v.current as int, TaskStatus::Exited).next_task() is Some ==> {
            &&& v.exit_and_run_next().current != v.current
            &&& v.exit_and_run_next().statuses[v.exit_and_run_next().current as int]
                == TaskStatus::Running
        },
        v.with_status(v.current as int, TaskStatus::Exited).next_task() is None ==> forall|i: int|
            0 <= i < MAX_APP_NUM ==> #[trigger] v.exit_and_run_next().statuses[i]
                != TaskStatus::Running,
{
    let u = v.with_status(v.current as int, TaskStatus::Exited);
    assert(u.wf());
    let w = u.run_next();
    match u.next_task() {
        Some(next) => {
            assert(u.is_next_suspended(next as int));
            assert(w.statuses[next as int] == TaskStatus::Running);
            assert forall|i: int|
                0 <= i < MAX_APP_NUM && #[trigger] w.statuses[i] == TaskStatus::Running implies i
                    == w.current by {
                if i != next {
                    assert(u.statuses[i] == TaskStatus::Running);
                    assert(i == v.current);
                }
            }
        },
        None => {
            assert forall|i: int| 0 <= i < MAX_APP_NUM implies #[trigger] w.statuses[i]
                != TaskStatus::Running by {
                if i != v.current {
                    assert(u.statuses[i] == v.statuses[i]);
                }
            }
        },
    }
}

/// Law: starting the first task from the initial state (applications
/// present, task 0 current, nothing running) keeps the life-cycle invariant,
/// with task 0 running.
pub proof fn lemma_first_run_keeps_lifecycle(v: TaskManagerView)
    requires
        v.lifecycle_ok(),
        v.num_app > 0,
        v.current == 0,
        forall|i: int| 0 <= i < MAX_APP_NUM ==> #[trigger] v.statuses[i] != TaskStatus::Running,
    ensures
        v.with_status(0, TaskStatus::Running).lifecycle_ok(),
        v.with_status(0, TaskStatus::Running).statuses[0] == TaskStatus::Running,
{
    let w = v.with_status(0, TaskStatus::Running);
    assert forall|i: int|
        0 <= i < MAX_APP_NUM && #[trigger] w.statuses[i] == TaskStatus::Running implies i
            == w.current by {
        if i != 0 {
            assert(v.statuses[i] == TaskStatus::Running);
        }
    }
}

/// Law (round robin): a task that yields is chosen again only when no other
/// application is ready to run.
pub proof fn lemma_yield_prefers_others(v: TaskManagerView, j: int)
    requires
        v.lifecycle_ok(),
        v.statuses[v.current as int] == TaskStatus::Running,
        j != v.current,
        v.is_suspended(j),
    ensures
        v.suspend_and_run_next().current != v.current,
{
    let u = v.with_status(v.current as int, TaskStatus::Suspended);
    assert(u.is_suspended(v.current as int));
    assert(u.is_suspended(j));
    lemma_nearest_exists(u, v.num_app as int);
    let next = u.next_task()->0;
    assert(u.is_next_suspended(next as int));
    assert(ring_distance(v.current as int, j, v.num_app as int) < v.num_app);
}

/// The state after `k` yields in a row, each by the task current at that time.
pub open spec fn after_yields(v: TaskManagerView, k: nat) -> TaskManagerView
    decreases k,
{
    if k == 0 {
        v
    } else {
        after_yields(v.suspend_and_run_next(), (k - 1) as nat)
    }
}

/// Law (progress): when the running task yields, a ready task `j` either
/// runs next or stays ready and comes closer to the current task in
/// round-robin order.
pub proof fn lemma_yield_progress(v: TaskManagerView, j: int)
    requires
        v.lifecycle_ok(),
        v.statuses[v.current as int] == TaskStatus::Running,
        v.is_suspended(j),
    ensures
        v.suspend_and_run_next().current == j || {
            &&& v.suspend_and_run_next().is_suspended(j)
            &&& ring_distance(v.suspend_and_run_next().current as int, j, v.num_app as int)
                < ring_distance(v.current as int, j, v.num_app as int)
        },
{
    let u = v.with_status(v.current as int, TaskStatus::Suspended);
    let n = v.num_app as int;
    let cur = v.current as int;
    assert(u.is_suspended(v.current as int));
    assert(j != cur);
    assert(u.is_suspended(j));
    lemma_nearest_exists(u, n);
    let next = u.next_task()->0;
    assert(u.is_next_suspended(next as int));
    if next != j {
        assert(ring_distance(cur, next as int, n) <= ring_distance(cur, j, n));
        if ring_distance(cur, next as int, n) == ring_distance(cur, j, n) {
            lemma_ring_distance_injective(cur, next as int, j, n);
        }
        assert(v.suspend_and_run_next().statuses[j] == TaskStatus::Suspended);
    }
}

/// Law (no starvation): while tasks only yield, a ready task runs after at
/// most as many yields as its round-robin distance from the current task.
pub proof fn lemma_yield_reaches(v: TaskManagerView, j: int) -> (k: nat)
    requires
        v.lifecycle_ok(),
        v.statuses[v.current as int] == TaskStatus::Running,
        v.is_suspended(j),
    ensures
        1 <= k <= ring_distance(v.current as int, j, v.num_app as int),
        after_yields(v, k).current == j,
    decreases ring_distance(v.current as int, j, v.num_app as int),
{
    let w = v.suspend_and_run_next();
    lemma_yield_keeps_lifecycle(v);
    lemma_yield_progress(v, j);
    assert(after_yields(v, 1) == after_yields(w, 0));
    if w.current == j {
        1
    } else {
        let k2 = lemma_yield_reaches(w, j);
        assert(after_yields(v, k2 + 1) == after_yields(w, k2));
        k2 + 1
    }
}

/// Law: the switch a scheduling decision asks for leaves the task that was
/// current and resumes exactly the task the decision makes current and
/// running, which is the nearest suspended application in round-robin order.
pub proof fn lemma_switch_resumes_chosen_task(v: TaskManagerView)
    requires
        v.wf(),
        v.next_task() is Some,
    ensures
        switch_to(v.current, v.next_task()).current == v.current,
        switch_to(v.current, v.next_task()).next == v.run_next().current,
        v.is_next_suspended(switch_to(v.current, v.next_task()).next as int),
        v.run_next().statuses[switch_to(v.current, v.next_task()).next as int]
            == TaskStatus::Running,
{
    let next = v.next_task()->0;
    assert(v.is_next_suspended(next as int));
}

/// While tasks only yield, the life-cycle invariant holds after any number of
/// yields, and the current task is the running one.
pub proof fn lemma_after_yields_keeps_lifecycle(v: TaskManagerView, k: nat)
    requires
        v.lifecycle_ok(),
        v.statuses[v.current as int] == TaskStatus::Running,
    ensures
        after_yields(v, k).lifecycle_ok(),
        after_yields(v, k).statuses[after_yields(v, k).current as int] == TaskStatus::Running,
    decreases k,
{
    if k > 0 {
        lemma_yield_keeps_lifecycle(v);
        lemma_after_yields_keeps_lifecycle(v.suspend_and_run_next(), (k - 1) as nat);
    }
}

/// Law: a task that yields runs again. While tasks only yield, after at most
/// as many yields as there are applications the yielding task is the current
/// one once more, and it is running.
pub proof fn lemma_yield_returns(v: TaskManagerView) -> (k: nat)
    requires
        v.lifecycle_ok(),
        v.statuses[v.current as int] == TaskStatus::Running,
    ensures
        1 <= k <= v.num_app,
        after_yields(v, k).current == v.current,
        after_yields(v, k).statuses[v.current as int] == TaskStatus::Running,
{
    let c = v.current as int;
    let n = v.num_app as int;
    let w = v.suspend_and_run_next();
    lemma_yield_keeps_lifecycle(v);
    assert(c < n);
    assert(after_yields(v, 1) == after_yields(w, 0));
    let k: nat = if w.current == c {
        1
    } else {
        assert(w.statuses[c] == TaskStatus::Suspended);
        assert(w.is_suspended(c));
        let k2 = lemma_yield_reaches(w, c);
        assert(ring_distance(w.current as int, c, n) < n);
        assert(after_yields(v, k2 + 1) == after_yields(w, k2));
        k2 + 1
    };
    lemma_after_yields_keeps_lifecycle(v, k);
    k
}

/// The concrete task manager.
pub struct TaskManager {
    num_app: usize,
    tasks: Vec<TaskControlBlock>,
    current_task: usize,
}

impl View for TaskManager {
    type V = TaskManagerView;

    closed spec fn view(&self) -> TaskManagerView {
        TaskManagerView {
            num_app: self.num_app as nat,
            statuses: self.tasks@.map_values(|t: TaskControlBlock| t.task_status),
            current: self.current_task as nat,
        }
    }
}

impl TaskManager {
    /// Well-formedness: the abstract state is well formed and every slot holds a task.
    pub closed spec fn wf(&self) -> bool {
        &&& self@.wf()
        &&& self.tasks@.len() == MAX_APP_NUM
    }

    /// A well-formed manager has a well-formed abstract state.
    pub proof fn lemma_wf_view(&self)
        requires
            self.wf(),
        ensures
            self@.wf(),
    {
    }

    /// The saved kernel context of every slot.
    pub closed spec fn contexts(&self) -> Seq<TaskContext> {
        self.tasks@.map_values(|t: TaskControlBlock| t.task_cx)
    }

    /// A manager for the applications whose first contexts are
    /// `app_contexts`: application `i` is suspended with context
    /// `app_contexts[i]`; the remaining slots are uninitialised with zeroed
    /// contexts; task 0 is the current one.
    pub fn new(app_contexts: &Vec<TaskContext>) -> (m: Self)
        requires
            app_contexts.len() <= MAX_APP_NUM,
        ensures
            m.wf(),
            m@.num_app == app_contexts.len(),
            m@.current == 0,
            forall|i: int|
                0 <= i < MAX_APP_NUM ==> #[trigger] m@.statuses[i] == (if i < app_contexts.len() {
                    TaskStatus::Suspended
                } else {
                    TaskStatus::UnInit
                }),
            forall|i: int| 0 <= i < app_contexts.len() ==> #[trigger] m.contexts()[i] == app_contexts@[i],
            forall|i: int|
                app_contexts.len() <= i < MAX_APP_NUM ==> #[trigger] m.contexts()[i].ra == 0
                    && m.contexts()[i].sp == 0 && saved_regs_zero(m.contexts()[i]),
            m@.lifecycle_ok(),
    {
        let num_app = app_contexts.len();
        let mut tasks: Vec<TaskControlBlock> = Vec::new();
        let mut i: usize = 0;
        while i < MAX_APP_NUM
            invariant
                num_app == app_contexts.len(),
                num_app <= MAX_APP_NUM,
                i <= MAX_APP_NUM,
                tasks@.len() == i,
                forall|j: int|
                    0 <= j < i ==> #[trigger] tasks@[j].task_status == (if j < num_app {
                        TaskStatus::Suspended
                    } else {
                        TaskStatus::UnInit
                    }),
                forall|j: int| 0 <= j < i && j < num_app ==> #[trigger] tasks@[j].task_cx == app_contexts@[j],
                forall|j: int| 0 <= j < i && num_app <= j ==> #[trigger] tasks@[j].task_cx.ra == 0,
                forall|j: int| 0 <= j < i && num_app <= j ==> #[trigger] tasks@[j].task_cx.sp == 0,
                forall|j: int| 0 <= j < i && num_app <= j ==> saved_regs_zero(#[trigger] tasks@[j].task_cx),
            decreases MAX_APP_NUM - i,
        {
            if i < num_app {
                tasks.push(
                    TaskControlBlock { task_status: TaskStatus::Suspended, task_cx: app_contexts[i] },
                );
            } else {
                let z = TaskContext::zero_init();
                tasks.push(TaskControlBlock { task_status: TaskStatus::UnInit, task_cx: z });
                assert(tasks@[i as int].task_cx == z);
            }
            i = i + 1;
        }
        TaskManager { num_app, tasks, current_task: 0 }
    }

    /// Number of applications.
    pub fn num_app(&self) -> (n: usize)
        ensures
            n == self@.num_app,
    {
        self.num_app
    }

    /// The current task.
    pub fn current_task(&self) -> (c: usize)
        ensures
            c == self@.current,
    {
        self.current_task
    }

    /// The state of slot `i`.
    pub fn task_status(&self, i: usize) -> (s: TaskStatus)
        requires
            self.wf(),
            i < MAX_APP_NUM,
        ensures
            s == self@.statuses[i as int],
    {
        self.tasks[i].task_status
    }

    /// The saved context of slot `i`.
    pub fn task_cx(&self, i: usize) -> (cx: TaskContext)
        requires
            self.wf(),
            i < MAX_APP_NUM,
        ensures
            cx == self.contexts()[i as int],
    {
        self.tasks[i].task_cx
    }

    /// Stores `cx` as the saved context of slot `i`; nothing else changes.
    pub fn set_task_cx(&mut self, i: usize, cx: TaskContext)
        requires
            old(self).wf(),
            i < MAX_APP_NUM,
        ensures
            final(self).wf(),
            final(self)@ == old(self)@,
            final(self).contexts() == old(self).contexts().update(i as int, cx),
    {
        let status = self.tasks[i].task_status;
        self.tasks.set(i, TaskControlBlock { task_status: status, task_cx: cx });
        proof {
            assert(self@.statuses =~= old(self)@.statuses);
            assert(self.contexts() =~= old(self).contexts().update(i as int, cx));
        }
    }

    /// Sets the state of slot `i`, keeping its context.
    fn set_status(&mut self, i: usize, s: TaskStatus)
        requires
            old(self).wf(),
            i < MAX_APP_NUM,
        ensures
            final(self).wf(),
            final(self)@ == old(self)@.with_status(i as int, s),
            final(self).contexts() == old(self).contexts(),
    {
        let cx = self.tasks[i].task_cx;
        self.tasks.set(i, TaskControlBlock { task_status: s, task_cx: cx });
        proof {
            assert(self@.statuses =~= old(self)@.statuses.update(i as int, s));
            assert(self.contexts() =~= old(self).contexts());
        }
    }

    /// Marks the current task suspended.
    pub fn mark_current_suspended(&mut self)
        requires
            old(self).wf(),
        ensures
            final(self).wf(),
            final(self)@ == old(self)@.with_status(old(self)@.current as int, TaskStatus::Suspended),
            final(self).contexts() == old(self).contexts(),
    {
        let current = self.current_task;
        self.set_status(current, TaskStatus::Suspended);
    }

    /// Marks the current task exited.
    pub fn mark_current_exited(&mut self)
        requires
            old(self).wf(),
        ensures
            final(self).wf(),
            final(self)@ == old(self)@.with_status(old(self)@.current as int, TaskStatus::Exited),
            final(self).contexts() == old(self).contexts(),
    {
        let current = self.current_task;
        self.set_status(current, TaskStatus::Exited);
    }

    /// Looks for the task to run next: going forward from the task after the
    /// current one, around the ring of applications and back to the current
    /// one, the first suspended application.
    pub fn find_next_task(&self) -> (r: Option<usize>)
        requires
            self.wf(),
        ensures
            r == (match self@.next_task() {
                Some(id) => Some(id as usize),
                None => None,
            }),
            r matches Some(id) ==> self@.is_next_suspended(id as int),
            r is None <==> forall|i: int| 0 <= i < self@.num_app ==> self@.statuses[i]
                != TaskStatus::Suspended,
    {
        proof {
            lemma_next_task_none_iff_none_suspended(self@);
        }
        let n = self.num_app;
        let cur = self.current_task;
        let ghost v = self@;
        let mut k: usize = 1;
        while k <= n
            invariant
                v == self@,
                v.wf(),
                self.wf(),
                n == v.num_app,
                cur == v.current,
                1 <= k <= n + 1,
                forall|j: int|
                    #[trigger] v.is_suspended(j) ==> ring_distance(cur as int, j, n as int) >= k,
            decreases n + 1 - k,
        {
            let id = if cur + k < n {
                cur + k
            } else {
                cur + k - n
            };
            assert(ring_distance(cur as int, id as int, n as int) == k);
            if self.tasks[id].task_status == TaskStatus::Suspended {
                proof {
                    assert(v.is_suspended(id as int));
                    assert(v.is_next_suspended(id as int));
                    let c = choose|x: int| v.is_next_suspended(x);
                    lemma_next_suspended_unique(v, c, id as int);
                }
                return Some(id);
            }
            proof {
                assert forall|j: int| #[trigger] v.is_suspended(j) implies ring_distance(
                    cur as int,
                    j,
                    n as int,
                ) >= k + 1 by {
                    if ring_distance(cur as int, j, n as int) == k {
                        lemma_ring_distance_injective(cur as int, j, id as int, n as int);
                    }
                }
            }
            k = k + 1;
        }
        proof {
            assert forall|j: int| !v.is_suspended(j) by {
                if v.is_suspended(j) {
                    assert(ring_distance(cur as int, j, n as int) <= n);
                }
            }
        }
        None
    }

    /// Whether some application would be ready to run after the current task
    /// is given state `s` (suspended when it yields, exited when it exits).
    pub fn has_next_after_current(&self, s: TaskStatus) -> (r: bool)
        requires
            self.wf(),
        ensures
            r == self@.with_status(self@.current as int, s).next_task() is Some,
    {
        let ghost u = self@.with_status(self@.current as int, s);
        proof {
            lemma_next_task_none_iff_none_suspended(u);
        }
        let mut i: usize = 0;
        while i < self.num_app
            invariant
                self.wf(),
                u == self@.with_status(self@.current as int, s),
                u.wf(),
                i <= self.num_app,
                forall|k: int| 0 <= k < i ==> u.statuses[k] != TaskStatus::Suspended,
            decreases self.num_app - i,
        {
            let status = if i == self.current_task {
                s
            } else {
                self.tasks[i].task_status
            };
            if status == TaskStatus::Suspended {
                assert(u.statuses[i as int] == TaskStatus::Suspended);
                assert(!(forall|k: int| 0 <= k < u.num_app ==> u.statuses[k] != TaskStatus::Suspended));
                proof {
                    lemma_next_task_none_iff_none_suspended(u);
                }
                return true;
            }
            i = i + 1;
        }
        false
    }

    /// Decides the next task: the chosen task becomes running and current,
    /// and the caller must switch from the previous current task to it. Some
    /// application must be ready to run (otherwise every application has
    /// completed and there is nothing to decide).
    pub fn run_next_task(&mut self) -> (r: TaskSwitch)
        requires
            old(self).wf(),
            old(self)@.next_task() is Some,
        ensures
            final(self).wf(),
            final(self)@ == old(self)@.run_next(),
            final(self).contexts() == old(self).contexts(),
            r == switch_to(old(self)@.current, old(self)@.next_task()),
            r.current == old(self)@.current,
            r.next == final(self)@.current,
            old(self)@.is_next_suspended(r.next as int),
            final(self)@.statuses[r.next as int] == TaskStatus::Running,
    {
        let next = self.find_next_task().unwrap();
        let current = self.current_task;
        self.set_status(next, TaskStatus::Running);
        self.current_task = next;
        proof {
            assert(self@.statuses =~= old(self)@.run_next().statuses);
        }
        TaskSwitch { current, next }
    }

    /// Starts the first task: task 0 becomes running; the caller switches to
    /// it and returns the id it switches to.
    pub fn run_first_task(&mut self) -> (first: usize)
        requires
            old(self).wf(),
        ensures
            final(self).wf(),
            first == 0,
            final(self)@ == old(self)@.with_status(0, TaskStatus::Running),
            final(self).contexts() == old(self).contexts(),
    {
        self.set_status(0, TaskStatus::Running);
        0
    }
}

} // verus!
