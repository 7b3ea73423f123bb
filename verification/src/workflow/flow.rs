use vstd::prelude::*;

use crate::error::WorkflowError;
use crate::json::{keys_unique, lemma_merge_then_lookup, obj_lookup, obj_merge, update_serde_map_with, Json, JsonV};
use crate::workflow::tasklist::{
    can_add, count_status, has_task, refused_with, lemma_task_index_range, ready_ids, retried, sv, task_ids, task_index,
    Task, TaskList, TaskStatus, contains_str, unique_ids, first_exhausted, same_task, is_ready,
};

verus! {

/// A lower-case hexadecimal digit.
pub open spec fn lower_hex_digit(c: char) -> bool {
    ('0' <= c <= '9') || ('a' <= c <= 'f')
}

/// The hyphenated text of a version 7 UUID: 36 characters, hyphens at 8, 13,
/// 18 and 23, lower-case hexadecimal digits elsewhere, the version digit `7`
/// at 14 and one of `8`, `9`, `a`, `b` (the RFC 4122 variant) at 19.
pub open spec fn uuid_v7_text(s: Seq<char>) -> bool {
    &&& s.len() == 36
    &&& forall|i: int|
        0 <= i < 36 ==> if i == 8 || i == 13 || i == 18 || i == 23 {
            s[i] == '-'
        } else {
            lower_hex_digit(#[trigger] s[i])
        }
    &&& s[14] == '7'
    &&& (s[19] == '8' || s[19] == '9' || s[19] == 'a' || s[19] == 'b')
}

/// A new identifier from `uuid::Uuid::now_v7`, in its hyphenated text form.
///
/// Trusted: the contract claims that the text is the hyphenated lower-case form
/// of a version 7 UUID of the RFC 4122 variant, as the crate writes it; which
/// identifier it is depends on the clock and on chance, and nothing is claimed
/// of that.
#[verifier::external_body]
pub fn create_uuid7() -> (r: String)
    ensures
        uuid_v7_text(r@),
{
    uuid::Uuid::now_v7().to_string()
}

/// Whether the step list holds `x` in one of its first `n` steps.
pub open spec fn in_steps(steps: Seq<Seq<Seq<char>>>, n: int, x: Seq<char>) -> bool {
    exists|j: int| 0 <= j < n && j < steps.len() && #[trigger] steps[j].contains(x)
}

/// Every dependency of `t` lies in one of the first `n` steps.
pub open spec fn deps_within(steps: Seq<Seq<Seq<char>>>, n: int, t: Task) -> bool {
    forall|k: int| 0 <= k < t.deps().len() ==> in_steps(steps, n, #[trigger] t.deps()[k])
}

/// `steps` is the plan of parallel steps for the tasks: each step holds the
/// tasks whose dependencies all lie in earlier steps and that could not run
/// earlier; a task that is in no step depends on a task that is in none.
pub open spec fn is_execution_plan(tasks: Seq<Task>, steps: Seq<Seq<Seq<char>>>) -> bool {
    let n = steps.len() as int;
    &&& forall|j: int| 0 <= j < n ==> (#[trigger] steps[j]).len() > 0 && steps[j].no_duplicates()
    &&& forall|j1: int, j2: int, x: Seq<char>|
        0 <= j1 < j2 < n && #[trigger] steps[j1].contains(x) ==> !#[trigger] steps[j2].contains(x)
    &&& forall|j: int, x: Seq<char>|
        0 <= j < n && #[trigger] steps[j].contains(x) ==> {
            let i = task_index(tasks, x);
            &&& has_task(tasks, x)
            &&& deps_within(steps, j, tasks[i])
            &&& j > 0 ==> !deps_within(steps, j - 1, tasks[i])
        }
    &&& forall|i: int|
        0 <= i < tasks.len() && !in_steps(steps, n, #[trigger] tasks[i].id@) ==> !deps_within(
            steps,
            n,
            tasks[i],
        )
}

/// The parameter context of a task: the structured outputs of its
/// dependencies that are JSON objects, merged into one object in the order of
/// the dependencies.
pub open spec fn parameter_context(tasks: Seq<Task>, deps: Seq<Seq<char>>, n: int) -> Seq<
    (Seq<char>, JsonV),
>
    decreases n,
{
    if n <= 0 {
        Seq::empty()
    } else {
        let prev = parameter_context(tasks, deps, n - 1);
        let i = task_index(tasks, deps[n - 1]);
        if i != -1 && tasks[i].result is Some && tasks[i].result->0.view() is Object {
            obj_merge(prev, tasks[i].result->0.view()->Object_0)
        } else {
            prev
        }
    }
}

/// What the dependency `d` sets under `key`: its structured output, when the
/// task exists and its output is a JSON object, read at `key`.
pub open spec fn dependency_sets(tasks: Seq<Task>, d: Seq<char>, key: Seq<char>) -> Option<JsonV> {
    let i = task_index(tasks, d);
    if i != -1 && tasks[i].result is Some && tasks[i].result->0.view() is Object {
        obj_lookup(tasks[i].result->0.view()->Object_0, key)
    } else {
        None
    }
}

/// The structured outputs of the tasks that are JSON objects have no repeated key.
pub open spec fn outputs_keys_unique(tasks: Seq<Task>) -> bool {
    forall|i: int|
        0 <= i < tasks.len() && (#[trigger] tasks[i]).result is Some && tasks[i].result->0.view() is Object
            ==> keys_unique(tasks[i].result->0.view()->Object_0)
}

/// The parameter context holds every key that a dependency's object output
/// sets, with the value of the last dependency in the list that sets it, and
/// no key that no dependency sets.
pub proof fn lemma_context_merges_dependency_outputs(tasks: Seq<Task>, deps: Seq<Seq<char>>, n: int, key: Seq<char>)
    requires
        0 <= n <= deps.len(),
        outputs_keys_unique(tasks),
    ensures
        forall|j: int|
            0 <= j < n && #[trigger] dependency_sets(tasks, deps[j], key) is Some && (forall|k: int|
                j < k < n ==> dependency_sets(tasks, deps[k], key) is None) ==> obj_lookup(
                parameter_context(tasks, deps, n),
                key,
            ) == dependency_sets(tasks, deps[j], key),
        (forall|j: int| 0 <= j < n ==> dependency_sets(tasks, deps[j], key) is None) ==> obj_lookup(
            parameter_context(tasks, deps, n),
            key,
        ) is None,
    decreases n,
{
    if n > 0 {
        lemma_context_merges_dependency_outputs(tasks, deps, n - 1, key);
        let prev = parameter_context(tasks, deps, n - 1);
        let i = task_index(tasks, deps[n - 1]);
        lemma_task_index_range(tasks, deps[n - 1]);
        if i != -1 && tasks[i].result is Some && tasks[i].result->0.view() is Object {
            let e = tasks[i].result->0.view()->Object_0;
            assert(keys_unique(e));
            lemma_merge_then_lookup(prev, e, key);
        }
        assert forall|j: int|
            0 <= j < n && #[trigger] dependency_sets(tasks, deps[j], key) is Some && (forall|k: int|
                j < k < n ==> dependency_sets(tasks, deps[k], key) is None) implies obj_lookup(
            parameter_context(tasks, deps, n),
            key,
        ) == dependency_sets(tasks, deps[j], key) by {
            if j < n - 1 {
                assert(dependency_sets(tasks, deps[n - 1], key) is None);
            }
        }
        if forall|j: int| 0 <= j < n ==> dependency_sets(tasks, deps[j], key) is None {
            assert(dependency_sets(tasks, deps[n - 1], key) is None);
        }
    }
}

/// The steps of a plan, as character sequences.
pub open spec fn plan_view(p: Seq<Vec<String>>) -> Seq<Seq<Seq<char>>> {
    p.map_values(|v: Vec<String>| sv(v@))
}

/// What holds of the steps of a plan while it is being built.
pub open spec fn plan_partial(tasks: Seq<Task>, steps: Seq<Seq<Seq<char>>>) -> bool {
    let n = steps.len() as int;
    &&& forall|j: int| 0 <= j < n ==> (#[trigger] steps[j]).len() > 0 && steps[j].no_duplicates()
    &&& forall|j1: int, j2: int, x: Seq<char>|
        0 <= j1 < j2 < n && #[trigger] steps[j1].contains(x) ==> !#[trigger] steps[j2].contains(x)
    &&& forall|j: int, x: Seq<char>|
        0 <= j < n && #[trigger] steps[j].contains(x) ==> {
            let i = task_index(tasks, x);
            &&& has_task(tasks, x)
            &&& deps_within(steps, j, tasks[i])
            &&& j > 0 ==> !deps_within(steps, j - 1, tasks[i])
        }
}

/// The number of `true` entries.
pub open spec fn count_true(s: Seq<bool>) -> nat
    decreases s.len(),
{
    if s.len() == 0 {
        0
    } else {
        count_true(s.drop_last()) + if s.last() {
            1nat
        } else {
            0nat
        }
    }
}

proof fn lemma_count_true_all_false(s: Seq<bool>)
    requires
        forall|j: int| 0 <= j < s.len() ==> !s[j],
    ensures
        count_true(s) == 0,
    decreases s.len(),
{
    if s.len() > 0 {
        lemma_count_true_all_false(s.drop_last());
    }
}

proof fn lemma_count_true_le(s: Seq<bool>)
    ensures
        count_true(s) <= s.len(),
    decreases s.len(),
{
    if s.len() > 0 {
        lemma_count_true_le(s.drop_last());
    }
}

proof fn lemma_count_true_set(s: Seq<bool>, i: int)
    requires
        0 <= i < s.len(),
        !s[i],
    ensures
        count_true(s.update(i, true)) == count_true(s) + 1,
    decreases s.len(),
{
    let t = s.update(i, true);
    if i == s.len() - 1 {
        assert(t.drop_last() =~= s.drop_last());
    } else {
        assert(t.drop_last() =~= s.drop_last().update(i, true));
        lemma_count_true_set(s.drop_last(), i);
    }
}

/// The steps before the last one are unchanged by adding a step.
proof fn lemma_in_steps_push(s: Seq<Seq<Seq<char>>>, z: Seq<Seq<char>>, j: int, x: Seq<char>)
    requires
        0 <= j <= s.len(),
    ensures
        in_steps(s.push(z), j, x) == in_steps(s, j, x),
{
    let s2 = s.push(z);
    if in_steps(s2, j, x) {
        let k = choose|k: int| 0 <= k < j && k < s2.len() && #[trigger] s2[k].contains(x);
        assert(s[k] == s2[k]);
    }
    if in_steps(s, j, x) {
        let k = choose|k: int| 0 <= k < j && k < s.len() && #[trigger] s[k].contains(x);
        assert(s[k] == s2[k]);
    }
}

/// Adding a step keeps `deps_within` for the earlier steps.
proof fn lemma_deps_within_push(s: Seq<Seq<Seq<char>>>, z: Seq<Seq<char>>, j: int, t: Task)
    requires
        0 <= j <= s.len(),
    ensures
        deps_within(s.push(z), j, t) == deps_within(s, j, t),
{
    assert forall|k: int| 0 <= k < t.deps().len() implies in_steps(s.push(z), j, #[trigger] t.deps()[k])
        == in_steps(s, j, t.deps()[k]) by {
        lemma_in_steps_push(s, z, j, t.deps()[k]);
    }
}

/// Whether every string of `deps` is among `done`.
fn deps_in(deps: &Vec<String>, done: &Vec<String>) -> (b: bool)
    ensures
        b == forall|k: int| 0 <= k < deps@.len() ==> sv(done@).contains(#[trigger] deps@[k]@),
{
    let mut k: usize = 0;
    while k < deps.len()
        invariant
            k <= deps@.len(),
            forall|kk: int| 0 <= kk < k ==> sv(done@).contains(#[trigger] deps@[kk]@),
        decreases deps@.len() - k,
    {
        if !contains_str(done, &deps[k]) {
            return false;
        }
        k = k + 1;
    }
    true
}

/// Under distinct ids, the task at `i` is the one that `task_index` finds for its id.
proof fn lemma_unique_index(tasks: Seq<Task>, i: int)
    requires
        unique_ids(tasks),
        0 <= i < tasks.len(),
    ensures
        task_index(tasks, tasks[i].id@) == i,
{
    lemma_task_index_range(tasks, tasks[i].id@);
    let j = task_index(tasks, tasks[i].id@);
    if j != i {
        if j < i {
            assert(tasks[j].id@ != tasks[i].id@);
        } else {
            assert(tasks[i].id@ != tasks[j].id@);
        }
    }
}

/// One round of the plan: the ready tasks become the next step.
proof fn lemma_round(
    ts: Seq<Task>,
    steps: Seq<Seq<Seq<char>>>,
    step: Seq<Seq<char>>,
    old_placed: Seq<bool>,
    placed: Seq<bool>,
    ready: Seq<usize>,
    old_exec: Seq<Seq<char>>,
    exec: Seq<Seq<char>>,
)
    requires
        unique_ids(ts),
        ready.len() > 0,
        ready.len() == step.len(),
        old_placed.len() == ts.len(),
        placed.len() == ts.len(),
        plan_partial(ts, steps),
        forall|j: int|
            0 <= j < ts.len() ==> (#[trigger] old_placed[j] <==> in_steps(steps, steps.len() as int, ts[j].id@)),
        forall|x: Seq<char>| #[trigger] old_exec.contains(x) <==> in_steps(steps, steps.len() as int, x),
        forall|j: int|
            0 <= j < ts.len() && !(#[trigger] old_placed[j]) && steps.len() > 0 ==> !deps_within(
                steps,
                steps.len() - 1,
                ts[j],
            ),
        forall|r: int|
            0 <= r < ready.len() ==> {
                &&& (#[trigger] ready[r]) < ts.len()
                &&& !old_placed[ready[r] as int]
                &&& deps_within(steps, steps.len() as int, ts[ready[r] as int])
                &&& step[r] == ts[ready[r] as int].id@
            },
        forall|r1: int, r2: int| 0 <= r1 < r2 < ready.len() ==> (#[trigger] ready[r1]) < (#[trigger] ready[r2]),
        forall|j: int|
            0 <= j < ts.len() && !old_placed[j] && deps_within(steps, steps.len() as int, ts[j])
                ==> exists|r: int| 0 <= r < ready.len() && #[trigger] ready[r] == j,
        forall|j: int|
            0 <= j < ts.len() ==> (#[trigger] placed[j] <==> (old_placed[j] || exists|q: int|
                0 <= q < ready.len() && ready[q] == j)),
        forall|x: Seq<char>|
            #[trigger] exec.contains(x) <==> (old_exec.contains(x) || exists|q: int|
                0 <= q < ready.len() && #[trigger] step[q] == x),
    ensures
        ({
            let s2 = steps.push(step);
            &&& plan_partial(ts, s2)
            &&& forall|j: int|
                0 <= j < ts.len() ==> (#[trigger] placed[j] <==> in_steps(s2, s2.len() as int, ts[j].id@))
            &&& forall|x: Seq<char>| #[trigger] exec.contains(x) <==> in_steps(s2, s2.len() as int, x)
            &&& forall|j: int|
                0 <= j < ts.len() && !(#[trigger] placed[j]) ==> !deps_within(s2, s2.len() - 1, ts[j])
        }),
{
    let m = steps.len() as int;
    let s2 = steps.push(step);
    assert(s2[m] == step);
    assert forall|x: Seq<char>| in_steps(s2, m + 1, x) <==> (in_steps(steps, m, x) || step.contains(x)) by {
        lemma_in_steps_push(steps, step, m, x);
        if in_steps(s2, m + 1, x) && !step.contains(x) {
            let k = choose|k: int| 0 <= k < m + 1 && k < s2.len() && #[trigger] s2[k].contains(x);
            assert(k < m);
            assert(in_steps(s2, m, x));
        }
        if in_steps(steps, m, x) {
            assert(in_steps(s2, m, x));
            let k = choose|k: int| 0 <= k < m && k < s2.len() && #[trigger] s2[k].contains(x);
            assert(in_steps(s2, m + 1, x));
        }
        if step.contains(x) {
            assert(s2[m].contains(x));
        }
    }
    // a step element is the id of exactly the ready task at the same position
    assert forall|x: Seq<char>| #[trigger] step.contains(x) implies exists|q: int|
        0 <= q < ready.len() && step[q] == x by {
        let q = choose|q: int| 0 <= q < step.len() && step[q] == x;
    }
    assert forall|j: int| 0 <= j < ts.len() implies (#[trigger] placed[j] <==> in_steps(
        s2,
        m + 1,
        ts[j].id@,
    )) by {
        if step.contains(ts[j].id@) {
            let q = choose|q: int| 0 <= q < step.len() && step[q] == ts[j].id@;
            let rj = ready[q] as int;
            assert(ts[rj].id@ == ts[j].id@);
            if rj != j {
                if rj < j {
                    assert(ts[rj].id@ != ts[j].id@);
                } else {
                    assert(ts[j].id@ != ts[rj].id@);
                }
            }
        }
        if exists|q: int| 0 <= q < ready.len() && ready[q] == j {
            let q = choose|q: int| 0 <= q < ready.len() && ready[q] == j;
            assert(step[q] == ts[j].id@);
            assert(step.contains(ts[j].id@));
        }
    }
    assert forall|x: Seq<char>| #[trigger] exec.contains(x) <==> in_steps(s2, m + 1, x) by {
        if exists|q: int| 0 <= q < ready.len() && #[trigger] step[q] == x {
            let q = choose|q: int| 0 <= q < ready.len() && #[trigger] step[q] == x;
            assert(step.contains(x));
        }
        if step.contains(x) {
            let q = choose|q: int| 0 <= q < step.len() && step[q] == x;
            assert(0 <= q < ready.len() && step[q] == x);
        }
        assert(in_steps(s2, m + 1, x) <==> (in_steps(steps, m, x) || step.contains(x)));
    }
    // unplaced tasks were not ready this round
    assert forall|j: int| 0 <= j < ts.len() && !(#[trigger] placed[j]) implies !deps_within(
        s2,
        m,
        ts[j],
    ) by {
        lemma_deps_within_push(steps, step, m, ts[j]);
        assert(!old_placed[j]);
        if deps_within(steps, m, ts[j]) {
            let r = choose|r: int| 0 <= r < ready.len() && #[trigger] ready[r] == j;
        }
    }
    // the new step
    assert(step.no_duplicates()) by {
        assert forall|a: int, b: int| 0 <= a < step.len() && 0 <= b < step.len() && a != b implies step[a]
            != step[b] by {
            let ia = ready[a] as int;
            let ib = ready[b] as int;
            if a < b {
                assert(ia < ib);
                assert(ts[ia].id@ != ts[ib].id@);
            } else {
                assert(ib < ia);
                assert(ts[ib].id@ != ts[ia].id@);
            }
        }
    }
    assert forall|j1: int, j2: int, x: Seq<char>|
        0 <= j1 < j2 < m + 1 && #[trigger] s2[j1].contains(x) implies !#[trigger] s2[j2].contains(x) by {
        if j2 == m {
            assert(s2[j1] == steps[j1]);
            assert(in_steps(steps, m, x));
            if step.contains(x) {
                let q = choose|q: int| 0 <= q < step.len() && step[q] == x;
                let rj = ready[q] as int;
                assert(!old_placed[rj]);
                assert(in_steps(steps, m, ts[rj].id@));
            }
        } else {
            assert(s2[j1] == steps[j1] && s2[j2] == steps[j2]);
        }
    }
    assert forall|j: int, x: Seq<char>| 0 <= j < m + 1 && #[trigger] s2[j].contains(x) implies {
        let i = task_index(ts, x);
        &&& has_task(ts, x)
        &&& deps_within(s2, j, ts[i])
        &&& j > 0 ==> !deps_within(s2, j - 1, ts[i])
    } by {
        if j == m {
            let q = choose|q: int| 0 <= q < step.len() && step[q] == x;
            let rj = ready[q] as int;
            lemma_unique_index(ts, rj);
            assert(has_task(ts, ts[rj].id@));
            lemma_deps_within_push(steps, step, m, ts[rj]);
            if m > 0 {
                lemma_deps_within_push(steps, step, m - 1, ts[rj]);
            }
        } else {
            assert(s2[j] == steps[j]);
            let i = task_index(ts, x);
            lemma_deps_within_push(steps, step, j, ts[i]);
            if j > 0 {
                lemma_deps_within_push(steps, step, j - 1, ts[i]);
            }
        }
    }
    assert forall|j: int| 0 <= j < m + 1 implies (#[trigger] s2[j]).len() > 0 && s2[j].no_duplicates() by {
        if j < m {
            assert(s2[j] == steps[j]);
        }
    }
}

/// The tasks after every failed task is put back to pending.
pub open spec fn all_retried(o: Seq<Task>) -> Seq<Task> {
    Seq::new(o.len(), |i: int| if o[i].status == TaskStatus::Failed { retried(o[i]) } else { o[i] })
}

/// The tasks after those whose ids are listed are marked running.
pub open spec fn mark_running(o: Seq<Task>, ids: Seq<Seq<char>>) -> Seq<Task> {
    Seq::new(
        o.len(),
        |i: int|
            if ids.contains(o[i].id@) {
                Task { status: TaskStatus::Running, ..o[i] }
            } else {
                o[i]
            },
    )
}

/// Every ready id is the id of a task.
proof fn lemma_ready_are_tasks(tasks: Seq<Task>, n: int)
    requires
        0 <= n <= tasks.len(),
    ensures
        forall|x: Seq<char>| #[trigger] ready_ids(tasks, n).contains(x) ==> has_task(tasks, x),
    decreases n,
{
    if n > 0 {
        lemma_ready_are_tasks(tasks, n - 1);
        crate::workflow::tasklist::lemma_push_contains(ready_ids(tasks, n - 1), tasks[n - 1].id@);
        assert(tasks[n - 1].id@ == tasks[n - 1].id@);
    }
}

/// Marking the task that carries the next listed id.
proof fn lemma_mark_one(
    t1: Seq<Task>,
    rv: Seq<Seq<char>>,
    r: int,
    before: Seq<Task>,
    after: Seq<Task>,
    j: int,
)
    requires
        unique_ids(t1),
        0 <= r < rv.len(),
        before == mark_running(t1, rv.take(r)),
        0 <= j < before.len(),
        before[j].id@ == rv[r],
        after == before.update(j, Task { status: TaskStatus::Running, ..before[j] }),
    ensures
        after == mark_running(t1, rv.take(r + 1)),
        unique_ids(after),
{
    let a = rv.take(r);
    let b = rv.take(r + 1);
    assert(b =~= a.push(rv[r]));
    crate::workflow::tasklist::lemma_push_contains(a, rv[r]);
    assert forall|i: int| 0 <= i < t1.len() implies after[i] == mark_running(t1, b)[i] by {
        assert(before[i].id@ == t1[i].id@);
        if i == j {
            assert(t1[i].id@ == rv[r]);
        } else {
            if t1[i].id@ == rv[r] {
                assert(t1[j].id@ == rv[r]);
                if i < j {
                    assert(t1[i].id@ != t1[j].id@);
                } else {
                    assert(t1[j].id@ != t1[i].id@);
                }
            }
        }
    }
    assert(after =~= mark_running(t1, b));
    assert forall|x: int, y: int| 0 <= x < y < after.len() implies after[x].id@ != after[y].id@ by {
        assert(after[x].id@ == t1[x].id@);
        assert(after[y].id@ == t1[y].id@);
    }
}

/// What a workflow does next.
pub enum WorkflowStep {
    /// Every task has completed or failed.
    Complete,
    /// These tasks were marked running and should be run now.
    Execute(Vec<String>),
    /// Tasks are pending but none can run: a dependency cycle or a missing
    /// dependency holds them.
    Stalled,
    /// No task can run now and none is pending.
    Idle,
    /// A failed task ran out of retries.
    Failed(WorkflowError),
}

/// A named set of tasks that run in dependency order.
pub struct Workflow {
    pub id: String,
    pub name: String,
    pub task_list: TaskList,
    pub global_context: Option<Json>,
}

impl Workflow {
    /// The workflow's task list is well formed.
    pub open spec fn wf(&self) -> bool {
        self.task_list.wf()
    }

    /// A new workflow with a fresh identifier and no tasks.
    pub fn new(name: &str) -> (w: Workflow)
        ensures
            w.wf(),
            w.name@ == name@,
            uuid_v7_text(w.id@),
            w.task_list.tasks@.len() == 0,
            w.task_list.execution_order@.len() == 0,
            w.global_context is None,
    {
        Workflow {
            id: create_uuid7(),
            name: name.to_owned(),
            task_list: TaskList::new(),
            global_context: None,
        }
    }

    /// Whether every task has completed or failed.
    pub fn is_complete(&self) -> (b: bool)
        ensures
            b == forall|i: int|
                0 <= i < self.task_list.tasks@.len() ==> (#[trigger] self.task_list.tasks@[i]).status
                    == TaskStatus::Completed || self.task_list.tasks@[i].status
                    == TaskStatus::Failed,
    {
        self.task_list.is_complete()
    }

    /// The number of tasks still pending.
    pub fn pending_count(&self) -> (n: usize)
        ensures
            n == count_status(
                self.task_list.tasks@,
                self.task_list.tasks@.len() as int,
                TaskStatus::Pending,
            ),
    {
        self.task_list.pending_count()
    }

    /// Adds a task; fails when its identifier is taken or a dependency is unknown.
    pub fn add_task(&mut self, task: Task) -> (r: Result<(), WorkflowError>)
        requires
            old(self).wf(),
        ensures
            final(self).wf(),
            final(self).id == old(self).id,
            final(self).name == old(self).name,
            can_add(old(self).task_list.tasks@, task) ==> r is Ok && final(self).task_list.tasks@ == old(
                self,
            ).task_list.tasks@.push(task),
            !can_add(old(self).task_list.tasks@, task) ==> (r matches Err(e) && refused_with(
                old(self).task_list.tasks@,
                task,
                e,
            )) && final(self).task_list == old(self).task_list,
    {
        self.task_list.add_task(task)
    }

    /// A fresh run of this workflow: a new identifier, copies of the tasks, and
    /// the given global context.
    pub fn get_new_workflow(&self, global_context: Option<Json>) -> (r: Result<Workflow, WorkflowError>)
        requires
            self.wf(),
        ensures
            r matches Ok(w) && w.wf() && uuid_v7_text(w.id@) && w.name@ == self.name@
                && w.task_list.tasks@.len() == self.task_list.tasks@.len() && (forall|i: int|
                0 <= i < self.task_list.tasks@.len() ==> same_task(
                    #[trigger] w.task_list.tasks@[i],
                    self.task_list.tasks@[i],
                )) && w.global_context == global_context,
    {
        let id = create_uuid7();
        let task_list = self.task_list.deep_clone()?;
        Ok(Workflow { id, name: self.name.clone(), task_list, global_context })
    }

    /// Marks a task completed with the structured output of its response.
    pub fn complete_task(&mut self, task_id: &str, result: Option<Json>)
        requires
            old(self).wf(),
        ensures
            final(self).wf(),
            final(self).id == old(self).id,
            final(self).task_list.tasks@ == (if has_task(old(self).task_list.tasks@, task_id@) {
                old(self).task_list.tasks@.update(
                    task_index(old(self).task_list.tasks@, task_id@),
                    Task {
                        status: TaskStatus::Completed,
                        result,
                        ..old(self).task_list.tasks@[task_index(old(self).task_list.tasks@, task_id@)]
                    },
                )
            } else {
                old(self).task_list.tasks@
            }),
    {
        self.task_list.update_task_status(task_id, TaskStatus::Completed, result);
    }

    /// Marks a task failed; its result is cleared.
    pub fn fail_task(&mut self, task_id: &str)
        requires
            old(self).wf(),
        ensures
            final(self).wf(),
            final(self).id == old(self).id,
            final(self).task_list.tasks@ == (if has_task(old(self).task_list.tasks@, task_id@) {
                old(self).task_list.tasks@.update(
                    task_index(old(self).task_list.tasks@, task_id@),
                    Task {
                        status: TaskStatus::Failed,
                        result: None,
                        ..old(self).task_list.tasks@[task_index(old(self).task_list.tasks@, task_id@)]
                    },
                )
            } else {
                old(self).task_list.tasks@
            }),
    {
        self.task_list.update_task_status(task_id, TaskStatus::Failed, None);
    }

    /// The parameter context for a task with the given dependencies: the
    /// structured outputs of those dependencies that are JSON objects, merged.
    pub fn build_parameter_context(&self, deps: &Vec<String>) -> (ctx: Json)
        ensures
            ctx.view() == JsonV::Object(parameter_context(self.task_list.tasks@, sv(deps@), deps@.len() as int)),
    {
        let mut ctx = Json::Object(Vec::new());
        proof {
            assert(ctx.view()->Object_0 =~= Seq::<(Seq<char>, JsonV)>::empty());
        }
        let mut k: usize = 0;
        while k < deps.len()
            invariant
                k <= deps@.len(),
                ctx.view() == JsonV::Object(parameter_context(self.task_list.tasks@, sv(deps@), k as int)),
            decreases deps@.len() - k,
        {
            let ghost d = sv(deps@)[k as int];
            assert(d == deps@[k as int]@);
            match self.task_list.find(deps[k].as_str()) {
                Some(j) => {
                    proof {
                        lemma_task_index_range(self.task_list.tasks@, d);
                    }
                    match &self.task_list.tasks[j].result {
                        Some(res) => {
                            if res.is_object() {
                                let _ = update_serde_map_with(&mut ctx, res);
                            }
                        },
                        None => {},
                    }
                },
                None => {},
            }
            k = k + 1;
        }
        ctx
    }

    /// Decides what the workflow does next.
    ///
    /// When every task has completed or failed the workflow is complete.
    /// Otherwise failed tasks are put back to pending (a task out of retries
    /// ends the run), and the tasks that can then run are marked running and
    /// returned. When none can run, the workflow is stalled if tasks are still
    /// pending, and idle if not.
    pub fn next_step(&mut self) -> (step: WorkflowStep)
        requires
            old(self).wf(),
            forall|i: int|
                0 <= i < old(self).task_list.tasks@.len() && (#[trigger] old(self).task_list.tasks@[i]).status
                    == TaskStatus::Failed ==> old(self).task_list.tasks@[i].retry_count < u32::MAX,
        ensures
            final(self).wf(),
            final(self).id == old(self).id,
            final(self).name == old(self).name,
            ({
                let o = old(self).task_list.tasks@;
                let t1 = all_retried(o);
                let k = first_exhausted(o);
                let ready = ready_ids(t1, t1.len() as int);
                if forall|i: int|
                    0 <= i < o.len() ==> (#[trigger] o[i]).status == TaskStatus::Completed
                        || o[i].status == TaskStatus::Failed {
                    step is Complete && final(self).task_list == old(self).task_list
                } else if k != -1 {
                    step matches WorkflowStep::Failed(WorkflowError::MaxRetriesExceeded(id)) && id@
                        == o[k].id@
                } else if ready.len() == 0 {
                    &&& final(self).task_list.tasks@ == t1
                    &&& if count_status(t1, t1.len() as int, TaskStatus::Pending) > 0 {
                        step is Stalled
                    } else {
                        step is Idle
                    }
                } else {
                    &&& step matches WorkflowStep::Execute(ids) && sv(ids@) == ready
                    &&& final(self).task_list.tasks@ == mark_running(t1, ready)
                }
            }),
    {
        if self.task_list.is_complete() {
            return WorkflowStep::Complete;
        }
        let ghost o = self.task_list.tasks@;
        match self.task_list.reset_failed_tasks() {
            Ok(()) => {},
            Err(e) => {
                return WorkflowStep::Failed(e);
            },
        }
        proof {
            assert(self.task_list.tasks@ =~= all_retried(o));
        }
        let ids = self.task_list.get_ready_tasks();
        if ids.len() == 0 {
            if self.task_list.pending_count() > 0 {
                return WorkflowStep::Stalled;
            }
            return WorkflowStep::Idle;
        }
        let ghost t1 = self.task_list.tasks@;
        let ghost rv = sv(ids@);
        proof {
            lemma_ready_are_tasks(t1, t1.len() as int);
        }
        let mut r: usize = 0;
        while r < ids.len()
            invariant
                r <= ids@.len(),
                rv == sv(ids@),
                rv == ready_ids(t1, t1.len() as int),
                forall|x: Seq<char>| #[trigger] rv.contains(x) ==> has_task(t1, x),
                unique_ids(t1),
                self.wf(),
                self.id == old(self).id,
                self.name == old(self).name,
                self.task_list.tasks@ == mark_running(t1, rv.take(r as int)),
            decreases ids@.len() - r,
        {
            let ghost before = self.task_list.tasks@;
            let ghost x = rv[r as int];
            assert(x == ids@[r as int]@);
            assert(rv.contains(x));
            match self.task_list.find(ids[r].as_str()) {
                Some(j) => {
                    proof {
                        lemma_task_index_range(self.task_list.tasks@, x);
                    }
                    self.task_list.tasks[j].status = TaskStatus::Running;
                    proof {
                        lemma_mark_one(t1, rv, r as int, before, self.task_list.tasks@, j as int);
                    }
                },
                None => {
                    proof {
                        assert(has_task(t1, x));
                        let i = choose|i: int| 0 <= i < t1.len() && #[trigger] t1[i].id@ == x;
                        assert(before[i].id@ == t1[i].id@);
                        assert(has_task(before, x));
                    }
                },
            }
            r = r + 1;
        }
        proof {
            assert(rv.take(ids@.len() as int) =~= rv);
        }
        WorkflowStep::Execute(ids)
    }

    /// The ids of the tasks, in list order.
    pub fn task_names(&self) -> (r: Vec<String>)
        ensures
            sv(r@) == task_ids(self.task_list.tasks@),
    {
        let mut r: Vec<String> = Vec::new();
        let mut i: usize = 0;
        while i < self.task_list.tasks.len()
            invariant
                i <= self.task_list.tasks@.len(),
                sv(r@) == task_ids(self.task_list.tasks@).take(i as int),
            decreases self.task_list.tasks@.len() - i,
        {
            let ghost before = sv(r@);
            r.push(self.task_list.tasks[i].id.clone());
            proof {
                let ids = task_ids(self.task_list.tasks@);
                assert(sv(r@) =~= before.push(self.task_list.tasks@[i as int].id@));
                assert(ids[i as int] == self.task_list.tasks@[i as int].id@);
                assert(ids.take(i + 1) =~= ids.take(i as int).push(ids[i as int]));
            }
            i = i + 1;
        }
        proof {
            assert(task_ids(self.task_list.tasks@).take(i as int) =~= task_ids(self.task_list.tasks@));
        }
        r
    }

    /// The steps in which the tasks can run: each step holds the tasks whose
    /// dependencies all ran in earlier steps. Tasks held by a dependency cycle
    /// or by a missing dependency are in no step.
    pub fn execution_plan(&self) -> (plan: Vec<Vec<String>>)
        requires
            self.wf(),
        ensures
            is_execution_plan(self.task_list.tasks@, plan_view(plan@)),
    {
        let ts = &self.task_list.tasks;
        let n = ts.len();
        let mut placed: Vec<bool> = Vec::new();
        let mut i: usize = 0;
        while i < n
            invariant
                i <= n,
                n == ts@.len(),
                placed@.len() == i,
                forall|j: int| 0 <= j < i ==> !(#[trigger] placed@[j]),
            decreases n - i,
        {
            placed.push(false);
            i = i + 1;
        }
        proof {
            lemma_count_true_all_false(placed@);
        }
        let mut num_placed: usize = 0;
        let mut executed: Vec<String> = Vec::new();
        let mut plan: Vec<Vec<String>> = Vec::new();
        loop
            invariant_except_break
                n == ts@.len(),
                unique_ids(ts@),
                placed@.len() == n,
                num_placed == count_true(placed@),
                num_placed <= n,
                forall|j: int|
                    0 <= j < n ==> (#[trigger] placed@[j] <==> in_steps(
                        plan_view(plan@),
                        plan@.len() as int,
                        ts@[j].id@,
                    )),
                forall|x: Seq<char>|
                    #[trigger] sv(executed@).contains(x) <==> in_steps(
                        plan_view(plan@),
                        plan@.len() as int,
                        x,
                    ),
                plan_partial(ts@, plan_view(plan@)),
                forall|j: int|
                    0 <= j < n && !(#[trigger] placed@[j]) && plan@.len() > 0 ==> !deps_within(
                        plan_view(plan@),
                        plan@.len() - 1,
                        ts@[j],
                    ),
            ensures
                is_execution_plan(ts@, plan_view(plan@)),
            decreases n - num_placed,
        {
            let ghost steps = plan_view(plan@);
            let ghost m = plan@.len() as int;
            let mut ready: Vec<usize> = Vec::new();
            let mut step: Vec<String> = Vec::new();
            let mut i: usize = 0;
            while i < n
                invariant
                    i <= n,
                    n == ts@.len(),
                    placed@.len() == n,
                    steps == plan_view(plan@),
                    m == plan@.len(),
                    forall|x: Seq<char>|
                        #[trigger] sv(executed@).contains(x) <==> in_steps(steps, m, x),
                    ready@.len() == step@.len(),
                    forall|r: int|
                        0 <= r < ready@.len() ==> {
                            &&& (#[trigger] ready@[r]) < i
                            &&& !placed@[ready@[r] as int]
                            &&& deps_within(steps, m, ts@[ready@[r] as int])
                            &&& step@[r]@ == ts@[ready@[r] as int].id@
                        },
                    forall|r1: int, r2: int|
                        0 <= r1 < r2 < ready@.len() ==> (#[trigger] ready@[r1]) < (#[trigger] ready@[r2]),
                    forall|j: int|
                        0 <= j < i && !placed@[j] && deps_within(steps, m, ts@[j]) ==> exists|r: int|
                            0 <= r < ready@.len() && #[trigger] ready@[r] == j,
                decreases n - i,
            {
                if !placed[i] {
                    let ok = deps_in(&ts[i].dependencies, &executed);
                    if ok {
                        proof {
                            assert forall|k: int| 0 <= k < ts@[i as int].deps().len() implies in_steps(
                                steps,
                                m,
                                #[trigger] ts@[i as int].deps()[k],
                            ) by {
                                assert(sv(executed@).contains(ts@[i as int].deps()[k]));
                            }
                        }
                        let ghost rd0 = ready@;
                        ready.push(i);
                        step.push(ts[i].id.clone());
                        proof {
                            assert(ready@[ready@.len() - 1] == i);
                            assert forall|j: int|
                                0 <= j < i + 1 && !placed@[j] && deps_within(steps, m, ts@[j]) implies exists|r: int|
                                0 <= r < ready@.len() && #[trigger] ready@[r] == j by {
                                if j < i {
                                    let r0 = choose|r: int| 0 <= r < rd0.len() && #[trigger] rd0[r] == j;
                                    assert(ready@[r0] == j);
                                } else {
                                    assert(ready@[ready@.len() - 1] == j);
                                }
                            }
                        }
                    } else {
                        proof {
                            if deps_within(steps, m, ts@[i as int]) {
                                assert forall|k: int|
                                    0 <= k < ts@[i as int].dependencies@.len() implies sv(
                                    executed@,
                                ).contains(#[trigger] ts@[i as int].dependencies@[k]@) by {
                                    assert(ts@[i as int].deps()[k] == ts@[i as int].dependencies@[k]@);
                                }
                            }
                        }
                    }
                }
                i = i + 1;
            }
            if ready.len() == 0 {
                proof {
                    assert forall|j: int|
                        0 <= j < n && !in_steps(steps, m, #[trigger] ts@[j].id@) implies !deps_within(
                        steps,
                        m,
                        ts@[j],
                    ) by {
                        assert(!placed@[j]);
                    }
                }
                break;
            }
            let ghost old_placed = placed@;
            let ghost old_exec = sv(executed@);
            let ghost np0 = num_placed;
            let mut r: usize = 0;
            while r < ready.len()
                invariant
                    r <= ready@.len(),
                    ready@.len() == step@.len(),
                    placed@.len() == n,
                    n == ts@.len(),
                    unique_ids(ts@),
                    num_placed == count_true(placed@),
                    num_placed <= n,
                    num_placed == np0 + r,
                    forall|q: int| 0 <= q < ready@.len() ==> (#[trigger] ready@[q]) < n,
                    forall|q1: int, q2: int|
                        0 <= q1 < q2 < ready@.len() ==> (#[trigger] ready@[q1]) < (#[trigger] ready@[q2]),
                    forall|q: int| 0 <= q < ready@.len() ==> !old_placed[#[trigger] ready@[q] as int],
                    forall|q: int| 0 <= q < ready@.len() ==> step@[q]@ == ts@[#[trigger] ready@[q] as int].id@,
                    forall|j: int|
                        0 <= j < n ==> (#[trigger] placed@[j] <==> (old_placed[j] || exists|q: int|
                            0 <= q < r && ready@[q] == j)),
                    forall|x: Seq<char>|
                        #[trigger] sv(executed@).contains(x) <==> (old_exec.contains(x) || exists|q: int|
                            0 <= q < r && #[trigger] sv(step@)[q] == x),
                decreases ready@.len() - r,
            {
                let idx = ready[r];
                proof {
                    lemma_count_true_set(placed@, idx as int);
                    lemma_count_true_le(placed@.update(idx as int, true));
                    assert(!placed@[idx as int]) by {
                        if placed@[idx as int] {
                            let q = choose|q: int| 0 <= q < r && ready@[q] == idx;
                        }
                    }
                }
                placed.set(idx, true);
                let ghost before = sv(executed@);
                executed.push(step[r].clone());
                proof {
                    let z = sv(step@)[r as int];
                    assert(sv(executed@) =~= before.push(z));
                    crate::workflow::tasklist::lemma_push_contains(before, z);
                    assert forall|x: Seq<char>|
                        #[trigger] sv(executed@).contains(x) <==> (old_exec.contains(x) || exists|q: int|
                            0 <= q < r + 1 && #[trigger] sv(step@)[q] == x) by {
                        if sv(executed@).contains(x) {
                            if x != z {
                                assert(before.contains(x));
                            } else {
                                assert(sv(step@)[r as int] == x);
                            }
                        }
                        if exists|q: int| 0 <= q < r + 1 && #[trigger] sv(step@)[q] == x {
                            let q = choose|q: int| 0 <= q < r + 1 && #[trigger] sv(step@)[q] == x;
                            if q < r {
                                assert(before.contains(x));
                            } else {
                                assert(x == z);
                            }
                        }
                    }
                }
                num_placed = num_placed + 1;
                r = r + 1;
            }
            let ghost old_steps = steps;
            let ghost new_step = sv(step@);
            plan.push(step);
            proof {
                assert(plan_view(plan@) =~= old_steps.push(new_step));
                lemma_round(ts@, old_steps, new_step, old_placed, placed@, ready@, old_exec, sv(executed@));
            }
        }
        plan
    }

    /// Adds the tasks in order; stops at the first that cannot be added, with
    /// its error, and the tasks before it stay added.
    pub fn add_tasks(&mut self, tasks: Vec<Task>) -> (r: Result<(), WorkflowError>)
        requires
            old(self).wf(),
        ensures
            final(self).wf(),
            final(self).id == old(self).id,
            final(self).name == old(self).name,
            r is Ok ==> final(self).task_list.tasks@ == old(self).task_list.tasks@ + tasks@,
            r matches Err(e) ==> (exists|k: int|
                0 <= k < tasks@.len() && final(self).task_list.tasks@ == old(self).task_list.tasks@ + tasks@.take(k)
                    && #[trigger] refused_with(final(self).task_list.tasks@, tasks@[k], e)),
    {
        let ghost all = tasks@;
        let mut rest = tasks;
        let ghost mut k: int = 0;
        while rest.len() > 0
            invariant
                self.wf(),
                0 <= k <= all.len(),
                rest@ == all.skip(k),
                all == tasks@,
                self.task_list.tasks@ == old(self).task_list.tasks@ + all.take(k),
                self.id == old(self).id,
                self.name == old(self).name,
            decreases rest@.len(),
        {
            let t = rest.remove(0);
            let ghost tv = t;
            match self.add_task(t) {
                Ok(()) => {},
                Err(e) => {
                    proof {
                        assert(tv == all[k]);
                        assert(0 <= k < all.len());
                        assert(self.task_list.tasks@ == old(self).task_list.tasks@ + all.take(k));
                        assert(refused_with(self.task_list.tasks@, all[k], e));
                    }
                    return Err(e);
                },
            }
            proof {
                assert(tv == all[k]);
                assert(all.take(k + 1) =~= all.take(k).push(tv));
                assert(self.task_list.tasks@ =~= old(self).task_list.tasks@ + all.take(k + 1));
                assert(rest@ =~= all.skip(k + 1));
                k = k + 1;
            }
        }
        proof {
            assert(all.take(k) =~= all);
        }
        Ok(())
    }
}

} // verus!
