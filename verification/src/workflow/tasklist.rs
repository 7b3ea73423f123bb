use vstd::prelude::*;

use crate::error::WorkflowError;
use crate::json::{Json, JsonV};

verus! {

/// The state of a task in a workflow.
#[derive(Debug, Clone, Copy, PartialEq, Eq, Structural)]
pub enum TaskStatus {
    Pending,
    Running,
    Completed,
    Failed,
}

/// A unit of work in a workflow: it runs once every task that it depends on
/// has completed.
pub struct Task {
    pub id: String,
    pub agent_id: String,
    pub dependencies: Vec<String>,
    pub status: TaskStatus,
    pub max_retries: u32,
    pub retry_count: u32,
    /// The structured output of the agent's response, once the task has run.
    pub result: Option<Json>,
}

/// The views of a sequence of strings.
pub open spec fn sv(s: Seq<String>) -> Seq<Seq<char>> {
    s.map_values(|x: String| x@)
}

/// The number of retries that a task starts with when none is given.
pub const DEFAULT_MAX_RETRIES: u32 = 3;

impl Task {
    /// The dependencies of the task, as character sequences.
    pub open spec fn deps(&self) -> Seq<Seq<char>> {
        sv(self.dependencies@)
    }

    /// A new pending task that has not run yet.
    pub fn new(agent_id: &str, id: &str, dependencies: Option<Vec<String>>, max_retries: Option<u32>) -> (t: Task)
        ensures
            t.id@ == id@,
            t.agent_id@ == agent_id@,
            t.dependencies@ == (match dependencies {
                Some(d) => d@,
                None => Seq::<String>::empty(),
            }),
            t.status == TaskStatus::Pending,
            t.max_retries == (match max_retries {
                Some(m) => m,
                None => DEFAULT_MAX_RETRIES,
            }),
            t.retry_count == 0,
            t.result is None,
    {
        Task {
            id: id.to_owned(),
            agent_id: agent_id.to_owned(),
            dependencies: match dependencies {
                Some(d) => d,
                None => Vec::new(),
            },
            status: TaskStatus::Pending,
            max_retries: match max_retries {
                Some(m) => m,
                None => DEFAULT_MAX_RETRIES,
            },
            retry_count: 0,
            result: None,
        }
    }

    /// A copy of the task with the same values.
    pub fn cloned(&self) -> (t: Task)
        ensures
            same_task(t, *self),
    {
        let mut deps: Vec<String> = Vec::new();
        let mut k: usize = 0;
        while k < self.dependencies.len()
            invariant
                k <= self.dependencies@.len(),
                sv(deps@) == self.deps().take(k as int),
            decreases self.dependencies@.len() - k,
        {
            let ghost before = sv(deps@);
            deps.push(self.dependencies[k].clone());
            proof {
                assert(sv(deps@) =~= before.push(self.deps()[k as int]));
                assert(self.deps().take(k + 1) =~= self.deps().take(k as int).push(self.deps()[k as int]));
            }
            k = k + 1;
        }
        proof {
            assert(self.deps().take(k as int) =~= self.deps());
        }
        Task {
            id: self.id.clone(),
            agent_id: self.agent_id.clone(),
            dependencies: deps,
            status: self.status,
            max_retries: self.max_retries,
            retry_count: self.retry_count,
            result: match &self.result {
                Some(r) => Some(r.cloned()),
                None => None,
            },
        }
    }

    /// Sets the status of the task.
    pub fn set_status(&mut self, status: TaskStatus)
        ensures
            *final(self) == (Task { status, ..*old(self) }),
    {
        self.status = status;
    }

    /// Sets the result of the task.
    pub fn set_result(&mut self, result: Json)
        ensures
            *final(self) == (Task { result: Some(result), ..*old(self) }),
    {
        self.result = Some(result);
    }

    /// Counts one more retry of the task.
    pub fn increment_retry(&mut self)
        requires
            old(self).retry_count < u32::MAX,
        ensures
            *final(self) == (Task { retry_count: (old(self).retry_count + 1) as u32, ..*old(self) }),
    {
        self.retry_count = self.retry_count + 1;
    }
}

/// Two tasks hold the same values.
pub open spec fn same_task(a: Task, b: Task) -> bool {
    &&& a.id@ == b.id@
    &&& a.agent_id@ == b.agent_id@
    &&& a.deps() == b.deps()
    &&& a.status == b.status
    &&& a.max_retries == b.max_retries
    &&& a.retry_count == b.retry_count
    &&& a.result is Some == b.result is Some
    &&& a.result is Some ==> a.result->0.view() == b.result->0.view()
}

/// The ids of a sequence of tasks.
pub open spec fn task_ids(tasks: Seq<Task>) -> Seq<Seq<char>> {
    tasks.map_values(|t: Task| t.id@)
}

/// Whether some task has the id.
pub open spec fn has_task(tasks: Seq<Task>, id: Seq<char>) -> bool {
    exists|i: int| 0 <= i < tasks.len() && #[trigger] tasks[i].id@ == id
}

/// The index of the first task with the id, or -1.
pub open spec fn task_index(tasks: Seq<Task>, id: Seq<char>) -> int
    decreases tasks.len(),
{
    if tasks.len() == 0 {
        -1
    } else if tasks[0].id@ == id {
        0
    } else {
        let r = task_index(tasks.drop_first(), id);
        if r == -1 {
            -1
        } else {
            r + 1
        }
    }
}

/// The dependencies of the task with the id, or none when no task has it.
pub open spec fn deps_of(tasks: Seq<Task>, id: Seq<char>) -> Seq<Seq<char>> {
    let i = task_index(tasks, id);
    if i == -1 {
        Seq::empty()
    } else {
        tasks[i].deps()
    }
}

/// `a` depends on `b`: `a` is a task and `b` is among its dependencies.
pub open spec fn edge(tasks: Seq<Task>, a: Seq<char>, b: Seq<char>) -> bool {
    has_task(tasks, a) && deps_of(tasks, a).contains(b)
}

/// `p` is a chain of dependencies: each element depends on the next.
pub open spec fn is_path(tasks: Seq<Task>, p: Seq<Seq<char>>) -> bool {
    &&& p.len() >= 1
    &&& forall|i: int| 0 <= i < p.len() - 1 ==> #[trigger] edge(tasks, p[i], p[i + 1])
}

/// `a` reaches `b` through a chain of dependencies (every node reaches itself).
pub open spec fn reaches(tasks: Seq<Task>, a: Seq<char>, b: Seq<char>) -> bool {
    exists|p: Seq<Seq<char>>| #[trigger] is_path(tasks, p) && p[0] == a && p.last() == b
}

/// A node of the dependency graph: a task, or the target of a dependency.
pub open spec fn is_node(tasks: Seq<Task>, x: Seq<char>) -> bool {
    has_task(tasks, x) || exists|a: Seq<char>| #[trigger] edge(tasks, a, x)
}

/// `order` lists every node of the dependency graph once, and each dependency
/// comes before the task that depends on it unless the two lie on a cycle.
pub open spec fn is_execution_order(tasks: Seq<Task>, order: Seq<Seq<char>>) -> bool {
    &&& order.no_duplicates()
    &&& forall|x: Seq<char>| #[trigger] order.contains(x) <==> is_node(tasks, x)
    &&& forall|a: Seq<char>, b: Seq<char>|
        #[trigger] edge(tasks, a, b) ==> order.index_of(b) < order.index_of(a) || reaches(tasks, b, a)
}

/// No two tasks share an id.
pub open spec fn unique_ids(tasks: Seq<Task>) -> bool {
    forall|i: int, j: int| 0 <= i < j < tasks.len() ==> tasks[i].id@ != tasks[j].id@
}

/// A task can be added to `tasks`: its identifier is new and each of its
/// dependencies is among them.
pub open spec fn can_add(tasks: Seq<Task>, task: Task) -> bool {
    !has_task(tasks, task.id@) && first_missing(task.deps(), tasks) == -1
}

/// `e` is the error with which adding `task` to `tasks` is refused: its
/// identifier is taken, or else its first dependency that is not among them.
pub open spec fn refused_with(tasks: Seq<Task>, task: Task, e: WorkflowError) -> bool {
    if has_task(tasks, task.id@) {
        e matches WorkflowError::TaskAlreadyExists(id) && id@ == task.id@
    } else if first_missing(task.deps(), tasks) != -1 {
        e matches WorkflowError::DependencyNotFound(d) && d@ == task.deps()[first_missing(task.deps(), tasks)]
    } else {
        false
    }
}

/// The index of the first dependency that names no task, or -1.
pub open spec fn first_missing(deps: Seq<Seq<char>>, tasks: Seq<Task>) -> int
    decreases deps.len(),
{
    if deps.len() == 0 {
        -1
    } else if !has_task(tasks, deps[0]) {
        0
    } else {
        let r = first_missing(deps.drop_first(), tasks);
        if r == -1 {
            -1
        } else {
            r + 1
        }
    }
}

/// A task can run: it is pending and every dependency names a completed task.
pub open spec fn is_ready(tasks: Seq<Task>, t: Task) -> bool {
    &&& t.status == TaskStatus::Pending
    &&& forall|k: int|
        0 <= k < t.deps().len() ==> {
            let i = task_index(tasks, #[trigger] t.deps()[k]);
            i != -1 && tasks[i].status == TaskStatus::Completed
        }
}

/// The ids of the ready tasks among the first `n`, in list order.
pub open spec fn ready_ids(tasks: Seq<Task>, n: int) -> Seq<Seq<char>>
    decreases n,
{
    if n <= 0 {
        Seq::empty()
    } else if is_ready(tasks, tasks[n - 1]) {
        ready_ids(tasks, n - 1).push(tasks[n - 1].id@)
    } else {
        ready_ids(tasks, n - 1)
    }
}

/// The number of tasks among the first `n` that have the status.
pub open spec fn count_status(tasks: Seq<Task>, n: int, status: TaskStatus) -> nat
    decreases n,
{
    if n <= 0 {
        0
    } else {
        count_status(tasks, n - 1, status) + if tasks[n - 1].status == status {
            1nat
        } else {
            0nat
        }
    }
}

/// A task that has failed and will be tried again, with one more retry counted.
pub open spec fn retried(t: Task) -> Task {
    Task { status: TaskStatus::Pending, retry_count: (t.retry_count + 1) as u32, ..t }
}

/// A failed task whose next retry goes past its limit.
pub open spec fn exhausted(t: Task) -> bool {
    t.status == TaskStatus::Failed && t.retry_count + 1 > t.max_retries
}

/// The index of the first exhausted task, or -1.
pub open spec fn first_exhausted(tasks: Seq<Task>) -> int
    decreases tasks.len(),
{
    if tasks.len() == 0 {
        -1
    } else if exhausted(tasks[0]) {
        0
    } else {
        let r = first_exhausted(tasks.drop_first());
        if r == -1 {
            -1
        } else {
            r + 1
        }
    }
}

/// The number of tasks whose id is on neither list: a measure of the work
/// that a depth-first walk still has before it.
pub open spec fn unseen(tasks: Seq<Task>, stack: Seq<Seq<char>>, done: Seq<Seq<char>>) -> nat
    decreases tasks.len(),
{
    if tasks.len() == 0 {
        0
    } else {
        unseen(tasks.drop_last(), stack, done) + if stack.contains(tasks.last().id@)
            || done.contains(tasks.last().id@) {
            0nat
        } else {
            1nat
        }
    }
}

/// The tasks of a workflow, and the order in which their dependencies allow
/// them to run.
pub struct TaskList {
    pub tasks: Vec<Task>,
    pub execution_order: Vec<String>,
}

impl TaskList {
    /// No two tasks share an id.
    pub open spec fn wf(&self) -> bool {
        unique_ids(self.tasks@)
    }

    /// An empty task list.
    pub fn new() -> (r: TaskList)
        ensures
            r.tasks@.len() == 0,
            r.execution_order@.len() == 0,
            r.wf(),
    {
        TaskList { tasks: Vec::new(), execution_order: Vec::new() }
    }

    /// The number of tasks.
    pub fn len(&self) -> (n: usize)
        ensures
            n == self.tasks@.len(),
    {
        self.tasks.len()
    }

    /// Whether there are no tasks.
    pub fn is_empty(&self) -> (b: bool)
        ensures
            b == (self.tasks@.len() == 0),
    {
        self.tasks.len() == 0
    }

    /// Whether every task has completed or failed.
    pub fn is_complete(&self) -> (b: bool)
        ensures
            b == forall|i: int|
                0 <= i < self.tasks@.len() ==> (#[trigger] self.tasks@[i]).status == TaskStatus::Completed
                    || self.tasks@[i].status == TaskStatus::Failed,
    {
        let mut i: usize = 0;
        while i < self.tasks.len()
            invariant
                i <= self.tasks@.len(),
                forall|j: int|
                    0 <= j < i ==> (#[trigger] self.tasks@[j]).status == TaskStatus::Completed
                        || self.tasks@[j].status == TaskStatus::Failed,
            decreases self.tasks@.len() - i,
        {
            let s = self.tasks[i].status;
            if !(s == TaskStatus::Completed || s == TaskStatus::Failed) {
                return false;
            }
            i = i + 1;
        }
        true
    }

    /// The number of pending tasks.
    pub fn pending_count(&self) -> (n: usize)
        ensures
            n == count_status(self.tasks@, self.tasks@.len() as int, TaskStatus::Pending),
    {
        let mut n: usize = 0;
        let mut i: usize = 0;
        while i < self.tasks.len()
            invariant
                i <= self.tasks@.len(),
                n == count_status(self.tasks@, i as int, TaskStatus::Pending),
                n <= i,
            decreases self.tasks@.len() - i,
        {
            if self.tasks[i].status == TaskStatus::Pending {
                n = n + 1;
            }
            i = i + 1;
        }
        n
    }

    /// The index of the task with the id, if there is one.
    pub fn find(&self, id: &str) -> (r: Option<usize>)
        ensures
            match r {
                Some(i) => i == task_index(self.tasks@, id@),
                None => task_index(self.tasks@, id@) == -1,
            },
            r is Some == has_task(self.tasks@, id@),
    {
        let key = id.to_owned();
        let mut i: usize = 0;
        while i < self.tasks.len()
            invariant
                i <= self.tasks@.len(),
                key@ == id@,
                forall|j: int| 0 <= j < i ==> self.tasks@[j].id@ != id@,
            decreases self.tasks@.len() - i,
        {
            if self.tasks[i].id == key {
                proof {
                    lemma_task_index_found(self.tasks@, id@, i as int);
                }
                return Some(i);
            }
            i = i + 1;
        }
        proof {
            lemma_task_index_absent(self.tasks@, id@);
        }
        None
    }

    /// The task with the id, if there is one.
    pub fn get_task(&self, task_id: &str) -> (r: Option<&Task>)
        ensures
            match r {
                Some(t) => {
                    let i = task_index(self.tasks@, task_id@);
                    0 <= i < self.tasks@.len() && *t == self.tasks@[i]
                },
                None => !has_task(self.tasks@, task_id@),
            },
    {
        match self.find(task_id) {
            Some(i) => {
                proof {
                    lemma_task_index_range(self.tasks@, task_id@);
                }
                Some(&self.tasks[i])
            },
            None => None,
        }
    }

    /// Removes the task with the id; the execution order is left as it was.
    pub fn remove_task(&mut self, task_id: &str)
        requires
            old(self).wf(),
        ensures
            final(self).wf(),
            final(self).execution_order == old(self).execution_order,
            final(self).tasks@ == (if has_task(old(self).tasks@, task_id@) {
                old(self).tasks@.remove(task_index(old(self).tasks@, task_id@))
            } else {
                old(self).tasks@
            }),
    {
        match self.find(task_id) {
            Some(i) => {
                proof {
                    lemma_task_index_range(self.tasks@, task_id@);
                }
                let _ = self.tasks.remove(i);
                proof {
                    let o = old(self).tasks@;
                    let n = self.tasks@;
                    assert forall|a: int, b: int| 0 <= a < b < n.len() implies n[a].id@ != n[b].id@ by {
                        let a0 = if a < i { a } else { a + 1 };
                        let b0 = if b < i { b } else { b + 1 };
                        assert(n[a] == o[a0]);
                        assert(n[b] == o[b0]);
                    }
                }
            },
            None => {},
        }
    }

    /// Sets the status and the result of the task with the id; nothing changes
    /// when no task has it.
    pub fn update_task_status(&mut self, task_id: &str, status: TaskStatus, result: Option<Json>)
        requires
            old(self).wf(),
        ensures
            final(self).wf(),
            final(self).execution_order == old(self).execution_order,
            final(self).tasks@ == (if has_task(old(self).tasks@, task_id@) {
                old(self).tasks@.update(
                    task_index(old(self).tasks@, task_id@),
                    Task { status, result, ..old(self).tasks@[task_index(old(self).tasks@, task_id@)] },
                )
            } else {
                old(self).tasks@
            }),
    {
        match self.find(task_id) {
            Some(i) => {
                proof {
                    lemma_task_index_range(self.tasks@, task_id@);
                }
                self.tasks[i].status = status;
                self.tasks[i].result = result;
                proof {
                    let o = old(self).tasks@;
                    let n = self.tasks@;
                    assert(n =~= o.update(i as int, Task { status, result, ..o[i as int] }));
                    assert forall|a: int, b: int| 0 <= a < b < n.len() implies n[a].id@ != n[b].id@ by {
                        assert(n[a].id == o[a].id);
                        assert(n[b].id == o[b].id);
                    }
                }
            },
            None => {},
        }
    }

    /// The ids of the tasks that can run now, in list order: pending tasks whose
    /// every dependency names a completed task.
    pub fn get_ready_tasks(&self) -> (r: Vec<String>)
        ensures
            sv(r@) == ready_ids(self.tasks@, self.tasks@.len() as int),
    {
        let mut r: Vec<String> = Vec::new();
        let mut i: usize = 0;
        while i < self.tasks.len()
            invariant
                i <= self.tasks@.len(),
                sv(r@) == ready_ids(self.tasks@, i as int),
            decreases self.tasks@.len() - i,
        {
            let ready = self.task_is_ready(i);
            if ready {
                let ghost before = sv(r@);
                r.push(self.tasks[i].id.clone());
                proof {
                    assert(sv(r@) =~= before.push(self.tasks@[i as int].id@));
                }
            }
            i = i + 1;
        }
        r
    }

    /// Whether the task at `i` can run now.
    fn task_is_ready(&self, i: usize) -> (b: bool)
        requires
            i < self.tasks@.len(),
        ensures
            b == is_ready(self.tasks@, self.tasks@[i as int]),
    {
        let t = &self.tasks[i];
        if t.status != TaskStatus::Pending {
            return false;
        }
        let mut k: usize = 0;
        while k < t.dependencies.len()
            invariant
                k <= t.dependencies@.len(),
                *t == self.tasks@[i as int],
                t.status == TaskStatus::Pending,
                forall|kk: int|
                    0 <= kk < k ==> {
                        let j = task_index(self.tasks@, #[trigger] t.deps()[kk]);
                        j != -1 && self.tasks@[j].status == TaskStatus::Completed
                    },
            decreases t.dependencies@.len() - k,
        {
            let ghost d = t.deps()[k as int];
            assert(d == t.dependencies@[k as int]@);
            match self.find(t.dependencies[k].as_str()) {
                Some(j) => {
                    proof {
                        lemma_task_index_range(self.tasks@, d);
                    }
                    if self.tasks[j].status != TaskStatus::Completed {
                        return false;
                    }
                },
                None => {
                    return false;
                },
            }
            k = k + 1;
        }
        true
    }

    /// Puts every failed task back to pending and counts the retry.
    ///
    /// Tasks are taken in list order; at the first failed task whose retries
    /// then exceed its limit the walk stops with `MaxRetriesExceeded`, and the
    /// tasks after it are left as they were.
    pub fn reset_failed_tasks(&mut self) -> (r: Result<(), WorkflowError>)
        requires
            old(self).wf(),
            forall|i: int|
                0 <= i < old(self).tasks@.len() && (#[trigger] old(self).tasks@[i]).status
                    == TaskStatus::Failed ==> old(self).tasks@[i].retry_count < u32::MAX,
        ensures
            final(self).wf(),
            final(self).execution_order == old(self).execution_order,
            final(self).tasks@.len() == old(self).tasks@.len(),
            ({
                let o = old(self).tasks@;
                let k = first_exhausted(o);
                &&& forall|i: int|
                    0 <= i < o.len() ==> #[trigger] final(self).tasks@[i] == if (k == -1 || i <= k)
                        && o[i].status == TaskStatus::Failed {
                        retried(o[i])
                    } else {
                        o[i]
                    }
                &&& match r {
                    Ok(()) => k == -1,
                    Err(e) => k != -1 && (e matches WorkflowError::MaxRetriesExceeded(id) && id@
                        == o[k].id@),
                }
            }),
    {
        let ghost o = self.tasks@;
        let mut i: usize = 0;
        while i < self.tasks.len()
            invariant
                i <= o.len(),
                self.tasks@.len() == o.len(),
                self.execution_order == old(self).execution_order,
                o == old(self).tasks@,
                unique_ids(o),
                forall|j: int|
                    0 <= j < o.len() && (#[trigger] o[j]).status == TaskStatus::Failed
                        ==> o[j].retry_count < u32::MAX,
                forall|j: int| 0 <= j < i ==> !exhausted(#[trigger] o[j]),
                forall|j: int|
                    0 <= j < o.len() ==> #[trigger] self.tasks@[j] == if j < i && o[j].status
                        == TaskStatus::Failed {
                        retried(o[j])
                    } else {
                        o[j]
                    },
            decreases o.len() - i,
        {
            if self.tasks[i].status == TaskStatus::Failed {
                self.tasks[i].status = TaskStatus::Pending;
                self.tasks[i].retry_count = self.tasks[i].retry_count + 1;
                if self.tasks[i].retry_count > self.tasks[i].max_retries {
                    proof {
                        lemma_first_exhausted_found(o, i as int);
                        self.lemma_ids_preserved(o);
                    }
                    return Err(WorkflowError::MaxRetriesExceeded(self.tasks[i].id.clone()));
                }
            }
            i = i + 1;
        }
        proof {
            lemma_first_exhausted_absent(o);
            self.lemma_ids_preserved(o);
        }
        Ok(())
    }

    proof fn lemma_ids_preserved(&self, o: Seq<Task>)
        requires
            unique_ids(o),
            self.tasks@.len() == o.len(),
            forall|j: int| 0 <= j < o.len() ==> (#[trigger] self.tasks@[j]).id == o[j].id,
        ensures
            self.wf(),
    {
        assert forall|a: int, b: int| 0 <= a < b < o.len() implies self.tasks@[a].id@
            != self.tasks@[b].id@ by {
            assert(self.tasks@[a].id == o[a].id);
            assert(self.tasks@[b].id == o[b].id);
        }
    }

    /// Adds a task whose dependencies are all tasks of the list, then rebuilds
    /// the execution order.
    ///
    /// Fails with `TaskAlreadyExists` when a task has the same id, and with
    /// `DependencyNotFound` for the first dependency that names no task; the
    /// list is then left as it was.
    pub fn add_task(&mut self, task: Task) -> (r: Result<(), WorkflowError>)
        requires
            old(self).wf(),
        ensures
            final(self).wf(),
            ({
                let o = old(self).tasks@;
                let k = first_missing(task.deps(), o);
                if has_task(o, task.id@) {
                    &&& r matches Err(WorkflowError::TaskAlreadyExists(id)) && id@ == task.id@
                    &&& *final(self) == *old(self)
                } else if k != -1 {
                    &&& r matches Err(WorkflowError::DependencyNotFound(d)) && d@ == task.deps()[k]
                    &&& *final(self) == *old(self)
                } else {
                    &&& r is Ok
                    &&& final(self).tasks@ == o.push(task)
                    &&& is_execution_order(final(self).tasks@, sv(final(self).execution_order@))
                }
            }),
    {
        if let Some(_) = self.find(task.id.as_str()) {
            return Err(WorkflowError::TaskAlreadyExists(task.id.clone()));
        }
        let mut k: usize = 0;
        while k < task.dependencies.len()
            invariant
                k <= task.dependencies@.len(),
                !has_task(self.tasks@, task.id@),
                *self == *old(self),
                self.wf(),
                forall|kk: int| 0 <= kk < k ==> has_task(self.tasks@, #[trigger] task.deps()[kk]),
            decreases task.dependencies@.len() - k,
        {
            let ghost d = task.deps()[k as int];
            assert(d == task.dependencies@[k as int]@);
            if self.find(task.dependencies[k].as_str()).is_none() {
                proof {
                    lemma_first_missing_found(task.deps(), self.tasks@, k as int);
                }
                return Err(WorkflowError::DependencyNotFound(task.dependencies[k].clone()));
            }
            if task.dependencies[k] == task.id {
                return Err(WorkflowError::TaskDependsOnItself(task.id.clone()));
            }
            k = k + 1;
        }
        proof {
            lemma_first_missing_absent(task.deps(), self.tasks@);
        }
        let ghost o = self.tasks@;
        let ghost tid = task.id@;
        self.tasks.push(task);
        proof {
            let n = self.tasks@;
            assert forall|a: int, b: int| 0 <= a < b < n.len() implies n[a].id@ != n[b].id@ by {
                if b == n.len() - 1 {
                    assert(n[a] == o[a]);
                    assert(o[a].id@ == task_ids(o)[a]);
                }
            }
        }
        self.rebuild_execution_order();
        Ok(())
    }

    /// Recomputes the execution order by a depth-first walk from every task.
    fn rebuild_execution_order(&mut self)
        requires
            old(self).wf(),
        ensures
            final(self).tasks == old(self).tasks,
            is_execution_order(final(self).tasks@, sv(final(self).execution_order@)),
    {
        let mut order: Vec<String> = Vec::new();
        let mut stack: Vec<String> = Vec::new();
        let mut i: usize = 0;
        while i < self.tasks.len()
            invariant
                i <= self.tasks@.len(),
                stack@.len() == 0,
                self.walk_inv(sv(stack@), sv(order@)),
                forall|j: int| 0 <= j < i ==> sv(order@).contains(#[trigger] self.tasks@[j].id@),
            decreases self.tasks@.len() - i,
        {
            let root = self.tasks[i].id.clone();
            if !contains_str(&order, &root) {
                proof {
                    lemma_has_task_at(self.tasks@, i as int);
                }
                self.visit(&root, &mut stack, &mut order);
            }
            i = i + 1;
        }
        proof {
            self.lemma_walk_done(sv(order@));
        }
        self.execution_order = order;
    }

    /// A copy of the list whose tasks hold the same values.
    pub fn deep_clone(&self) -> (r: Result<TaskList, WorkflowError>)
        requires
            self.wf(),
        ensures
            r matches Ok(c) && c.wf() && c.tasks@.len() == self.tasks@.len() && (forall|i: int|
                0 <= i < self.tasks@.len() ==> same_task(#[trigger] c.tasks@[i], self.tasks@[i]))
                && sv(c.execution_order@) == sv(self.execution_order@),
    {
        let mut tasks: Vec<Task> = Vec::new();
        let mut i: usize = 0;
        while i < self.tasks.len()
            invariant
                i <= self.tasks@.len(),
                tasks@.len() == i,
                forall|j: int| 0 <= j < i ==> same_task(#[trigger] tasks@[j], self.tasks@[j]),
            decreases self.tasks@.len() - i,
        {
            tasks.push(self.tasks[i].cloned());
            i = i + 1;
        }
        let mut order: Vec<String> = Vec::new();
        let mut k: usize = 0;
        while k < self.execution_order.len()
            invariant
                k <= self.execution_order@.len(),
                sv(order@) == sv(self.execution_order@).take(k as int),
            decreases self.execution_order@.len() - k,
        {
            let ghost before = sv(order@);
            order.push(self.execution_order[k].clone());
            proof {
                let e = sv(self.execution_order@);
                assert(sv(order@) =~= before.push(e[k as int]));
                assert(e.take(k + 1) =~= e.take(k as int).push(e[k as int]));
            }
            k = k + 1;
        }
        proof {
            assert(sv(self.execution_order@).take(k as int) =~= sv(self.execution_order@));
            assert forall|a: int, b: int| 0 <= a < b < tasks@.len() implies tasks@[a].id@
                != tasks@[b].id@ by {
                assert(same_task(tasks@[a], self.tasks@[a]));
                assert(same_task(tasks@[b], self.tasks@[b]));
            }
        }
        Ok(TaskList { tasks, execution_order: order })
    }

    /// What holds of the walk's stack and of the nodes it has finished.
    pub open spec fn walk_inv(&self, stack: Seq<Seq<char>>, done: Seq<Seq<char>>) -> bool {
        let ts = self.tasks@;
        &&& done.no_duplicates()
        &&& stack.no_duplicates()
        &&& forall|x: Seq<char>| #[trigger] stack.contains(x) ==> !done.contains(x)
        &&& forall|x: Seq<char>| #[trigger] done.contains(x) ==> is_node(ts, x)
        &&& forall|x: Seq<char>| #[trigger] stack.contains(x) ==> is_node(ts, x)
        &&& forall|i: int| 0 <= i < stack.len() - 1 ==> #[trigger] edge(ts, stack[i], stack[i + 1])
        &&& forall|a: Seq<char>, b: Seq<char>|
            #[trigger] edge(ts, a, b) && done.contains(a) ==> done.contains(b) || stack.contains(b)
        &&& forall|a: Seq<char>, b: Seq<char>|
            #[trigger] edge(ts, a, b) && done.contains(a) && stack.contains(b) ==> reaches(ts, b, a)
        &&& forall|a: Seq<char>, b: Seq<char>|
            #[trigger] edge(ts, a, b) && done.contains(a) && done.contains(b) ==> done.index_of(b)
                < done.index_of(a) || reaches(ts, b, a)
    }

    /// Walks from `node` through its dependencies, finishing every node that
    /// it reaches and that is not already on the stack or finished.
    fn visit(&self, node: &String, stack: &mut Vec<String>, order: &mut Vec<String>)
        requires
            self.walk_inv(sv(old(stack)@), sv(old(order)@)),
            is_node(self.tasks@, node@),
            old(stack)@.len() > 0 ==> edge(self.tasks@, sv(old(stack)@).last(), node@),
        ensures
            final(stack)@ == old(stack)@,
            self.walk_inv(sv(final(stack)@), sv(final(order)@)),
            sv(old(order)@).is_prefix_of(sv(final(order)@)),
            sv(final(order)@).contains(node@) || sv(old(stack)@).contains(node@),
        decreases unseen(self.tasks@, sv(old(stack)@), sv(old(order)@)),
    {
        if contains_str(stack, node) || contains_str(order, node) {
            return ;
        }
        let ghost st0 = sv(stack@);
        let ghost od0 = sv(order@);
        let ghost raw0 = stack@;
        stack.push(node.clone());
        let ghost raw1 = stack@;
        proof {
            assert(sv(stack@) =~= st0.push(node@));
            self.lemma_push_stack(st0, od0, node@);
        }
        match self.find(node.as_str()) {
            Some(j) => {
                proof {
                    lemma_task_index_range(self.tasks@, node@);
                    lemma_unseen_push(self.tasks@, st0, od0, node@);
                }
                let deps = &self.tasks[j].dependencies;
                let mut k: usize = 0;
                while k < deps.len()
                    invariant
                        k <= deps@.len(),
                        *deps == self.tasks@[j as int].dependencies,
                        j as int == task_index(self.tasks@, node@),
                        has_task(self.tasks@, node@),
                        sv(stack@) == st0.push(node@),
                        stack@ == raw1,
                        raw1 == raw0.push(raw1.last()),
                        raw0 == old(stack)@,
                        st0 == sv(old(stack)@),
                        od0 == sv(old(order)@),
                        self.walk_inv(sv(stack@), sv(order@)),
                        od0.is_prefix_of(sv(order@)),
                        unseen(self.tasks@, sv(stack@), sv(order@)) < unseen(self.tasks@, st0, od0),
                        !od0.contains(node@),
                        !st0.contains(node@),
                        forall|kk: int|
                            0 <= kk < k ==> sv(order@).contains(#[trigger] sv(deps@)[kk]) || sv(
                                stack@,
                            ).contains(sv(deps@)[kk]),
                    decreases deps@.len() - k,
                {
                    let ghost d = sv(deps@)[k as int];
                    proof {
                        assert(deps_of(self.tasks@, node@) == sv(deps@));
                        assert(sv(deps@).contains(d));
                        assert(edge(self.tasks@, node@, d));
                        assert(is_node(self.tasks@, d));
                        assert(sv(stack@).last() == node@);
                    }
                    let ghost od1 = sv(order@);
                    self.visit(&deps[k], stack, order);
                    proof {
                        lemma_prefix_trans(od0, od1, sv(order@));
                        lemma_unseen_mono(self.tasks@, sv(stack@), od1, sv(order@));
                        assert forall|kk: int|
                            0 <= kk < k + 1 implies sv(order@).contains(#[trigger] sv(deps@)[kk])
                            || sv(stack@).contains(sv(deps@)[kk]) by {
                            if kk < k {
                                if od1.contains(sv(deps@)[kk]) {
                                    lemma_prefix_contains(od1, sv(order@), sv(deps@)[kk]);
                                }
                            }
                        }
                    }
                    k = k + 1;
                }
                proof {
                    assert(deps_of(self.tasks@, node@) == sv(deps@));
                }
            },
            None => {
                proof {
                    assert(deps_of(self.tasks@, node@) =~= Seq::<Seq<char>>::empty());
                }
            },
        }
        let ghost od2 = sv(order@);
        let ghost prev = stack@;
        assert(sv(prev) == st0.push(node@));
        assert(prev == raw1);
        let top = stack.pop().unwrap();
        proof {
            assert(stack@ == prev.drop_last());
            assert(prev.last() == top);
            assert(sv(prev)[prev.len() - 1] == node@);
            assert(top@ == node@);
            assert forall|i: int| 0 <= i < st0.len() implies sv(stack@)[i] == st0[i] by {
                assert(sv(prev)[i] == st0.push(node@)[i]);
            }
            assert(sv(stack@) =~= st0);
            assert(stack@ =~= raw0);
            lemma_push_contains(st0, node@);
        }
        order.push(top);
        proof {
            assert(sv(order@) =~= od2.push(node@));
            lemma_push_contains(od2, node@);
            self.lemma_finish(st0, od2, node@);
            lemma_prefix_push(od0, od2, node@);
        }
    }

    proof fn lemma_push_stack(&self, st: Seq<Seq<char>>, od: Seq<Seq<char>>, node: Seq<char>)
        requires
            self.walk_inv(st, od),
            is_node(self.tasks@, node),
            st.len() > 0 ==> edge(self.tasks@, st.last(), node),
            !st.contains(node),
            !od.contains(node),
        ensures
            self.walk_inv(st.push(node), od),
    {
        let ts = self.tasks@;
        let s2 = st.push(node);
        lemma_push_contains(st, node);
        assert forall|x: Seq<char>| #[trigger] s2.contains(x) implies !od.contains(x) && is_node(ts, x) by {
            if x != node {
                assert(st.contains(x));
            }
        }
        assert forall|i: int| 0 <= i < s2.len() - 1 implies #[trigger] edge(ts, s2[i], s2[i + 1]) by {
            if i == s2.len() - 2 {
                assert(s2[i] == st.last());
            } else {
                assert(s2[i] == st[i] && s2[i + 1] == st[i + 1]);
            }
        }
        assert forall|a: Seq<char>, b: Seq<char>|
            #[trigger] edge(ts, a, b) && od.contains(a) implies od.contains(b) || s2.contains(b) by {
            if st.contains(b) {
                assert(s2.contains(b));
            }
        }
        assert forall|a: Seq<char>, b: Seq<char>|
            #[trigger] edge(ts, a, b) && od.contains(a) && s2.contains(b) implies reaches(ts, b, a) by {
            if b != node {
                assert(st.contains(b));
            } else {
                assert(od.contains(b) || st.contains(b));
            }
        }
        assert(s2.no_duplicates()) by {
            assert forall|i: int, j: int| 0 <= i < s2.len() && 0 <= j < s2.len() && i != j implies s2[i]
                != s2[j] by {
                if i < st.len() && j < st.len() {
                } else if i < st.len() {
                    assert(st.contains(s2[i]));
                } else if j < st.len() {
                    assert(st.contains(s2[j]));
                }
            }
        }
    }

    proof fn lemma_finish(&self, st: Seq<Seq<char>>, od: Seq<Seq<char>>, node: Seq<char>)
        requires
            self.walk_inv(st.push(node), od),
            !st.contains(node),
            !od.contains(node),
            is_node(self.tasks@, node),
            st.len() > 0 ==> edge(self.tasks@, st.last(), node),
            forall|b: Seq<char>|
                #[trigger] deps_of(self.tasks@, node).contains(b) ==> od.contains(b) || st.push(
                    node,
                ).contains(b),
        ensures
            self.walk_inv(st, od.push(node)),
    {
        let ts = self.tasks@;
        let s2 = st.push(node);
        let o2 = od.push(node);
        lemma_push_contains(st, node);
        lemma_push_contains(od, node);
        assert(st.no_duplicates()) by {
            assert forall|i: int, j: int| 0 <= i < st.len() && 0 <= j < st.len() && i != j implies st[i]
                != st[j] by {
                assert(s2[i] == st[i] && s2[j] == st[j]);
            }
        }
        assert forall|x: Seq<char>| #[trigger] o2.contains(x) implies is_node(ts, x) by {
            if x != node {
                assert(od.contains(x));
            }
        }
        assert forall|x: Seq<char>| #[trigger] st.contains(x) implies is_node(ts, x) by {
            assert(s2.contains(x));
        }
        assert(o2.no_duplicates()) by {
            assert forall|i: int, j: int| 0 <= i < o2.len() && 0 <= j < o2.len() && i != j implies o2[i]
                != o2[j] by {
                if i < od.len() && j < od.len() {
                } else if i < od.len() {
                    assert(od.contains(o2[i]));
                } else if j < od.len() {
                    assert(od.contains(o2[j]));
                }
            }
        }
        assert forall|x: Seq<char>| #[trigger] st.contains(x) implies !o2.contains(x) by {
            assert(s2.contains(x));
            if x == node {
            }
        }
        assert forall|i: int| 0 <= i < st.len() - 1 implies #[trigger] edge(ts, st[i], st[i + 1]) by {
            assert(s2[i] == st[i] && s2[i + 1] == st[i + 1]);
        }
        assert forall|a: Seq<char>, b: Seq<char>|
            #[trigger] edge(ts, a, b) && o2.contains(a) implies o2.contains(b) || st.contains(b) by {
            if a == node {
                assert(deps_of(ts, node).contains(b));
            } else {
                assert(od.contains(a));
            }
        }
        assert forall|a: Seq<char>, b: Seq<char>|
            #[trigger] edge(ts, a, b) && o2.contains(a) && st.contains(b) implies reaches(ts, b, a) by {
            let i = choose|i: int| 0 <= i < st.len() && st[i] == b;
            assert(s2[i] == b);
            if a == node {
                self.lemma_chain_reaches(s2, i, st.len() as int);
                assert(s2[st.len() as int] == node);
            } else {
                assert(od.contains(a));
                assert(s2.contains(b));
            }
        }
        assert forall|a: Seq<char>, b: Seq<char>|
            #[trigger] edge(ts, a, b) && o2.contains(a) && o2.contains(b) implies o2.index_of(b)
            < o2.index_of(a) || reaches(ts, b, a) by {
            if a == node && b == node {
                let p = seq![node];
                assert(is_path(ts, p));
            } else if a == node {
                assert(deps_of(ts, node).contains(b));
                if !od.contains(b) {
                    assert(s2.contains(b));
                    assert(st.contains(b));
                    assert(!od.contains(b));
                    assert(o2.contains(b));
                    assert(false);
                }
                lemma_index_of_push(od, node, b);
                lemma_index_of_push_last(od, node);
            } else if b == node {
                assert(od.contains(a));
                assert(s2.contains(node)) by {
                    assert(s2[st.len() as int] == node);
                }
            } else {
                lemma_index_of_push(od, node, a);
                lemma_index_of_push(od, node, b);
            }
        }
    }

    /// Along the stack, each element reaches every element above it.
    proof fn lemma_chain_reaches(&self, s: Seq<Seq<char>>, i: int, j: int)
        requires
            0 <= i <= j < s.len(),
            forall|k: int| 0 <= k < s.len() - 1 ==> #[trigger] edge(self.tasks@, s[k], s[k + 1]),
        ensures
            reaches(self.tasks@, s[i], s[j]),
    {
        let p = s.subrange(i, j + 1);
        assert forall|k: int| 0 <= k < p.len() - 1 implies #[trigger] edge(self.tasks@, p[k], p[k + 1]) by {
            assert(p[k] == s[i + k] && p[k + 1] == s[i + k + 1]);
        }
        assert(is_path(self.tasks@, p));
        assert(p[0] == s[i] && p.last() == s[j]);
    }

    proof fn lemma_walk_done(&self, od: Seq<Seq<char>>)
        requires
            self.walk_inv(Seq::empty(), od),
            forall|j: int| 0 <= j < self.tasks@.len() ==> od.contains(#[trigger] self.tasks@[j].id@),
        ensures
            is_execution_order(self.tasks@, od),
    {
        let ts = self.tasks@;
        assert forall|x: Seq<char>| is_node(ts, x) implies #[trigger] od.contains(x) by {
            if has_task(ts, x) {
                let j = choose|j: int| 0 <= j < ts.len() && #[trigger] ts[j].id@ == x;
                assert(od.contains(ts[j].id@));
            } else {
                let a = choose|a: Seq<char>| #[trigger] edge(ts, a, x);
                let j = choose|j: int| 0 <= j < ts.len() && #[trigger] ts[j].id@ == a;
                assert(od.contains(ts[j].id@));
                assert(!Seq::<Seq<char>>::empty().contains(x));
            }
        }
    }
}

/// Whether `v` holds a string equal to `x`.
pub fn contains_str(v: &Vec<String>, x: &String) -> (b: bool)
    ensures
        b == sv(v@).contains(x@),
{
    let mut i: usize = 0;
    while i < v.len()
        invariant
            i <= v@.len(),
            forall|j: int| 0 <= j < i ==> v@[j]@ != x@,
        decreases v@.len() - i,
    {
        if v[i] == *x {
            proof {
                assert(sv(v@)[i as int] == x@);
            }
            return true;
        }
        i = i + 1;
    }
    proof {
        if sv(v@).contains(x@) {
            let j = sv(v@).index_of(x@);
            assert(v@[j]@ == x@);
        }
    }
    false
}

/// What pushing an element does to membership.
pub proof fn lemma_push_contains(s: Seq<Seq<char>>, x: Seq<char>)
    ensures
        s.push(x).contains(x),
        forall|y: Seq<char>| #[trigger] s.contains(y) ==> s.push(x).contains(y),
        forall|y: Seq<char>| #[trigger] s.push(x).contains(y) ==> s.contains(y) || y == x,
{
    let b = s.push(x);
    assert(b[s.len() as int] == x);
    assert forall|y: Seq<char>| #[trigger] s.contains(y) implies b.contains(y) by {
        let i = choose|i: int| 0 <= i < s.len() && s[i] == y;
        assert(b[i] == y);
    }
    assert forall|y: Seq<char>| #[trigger] b.contains(y) implies s.contains(y) || y == x by {
        let i = choose|i: int| 0 <= i < b.len() && b[i] == y;
        if i < s.len() {
            assert(s[i] == y);
        }
    }
}

/// A workflow hands out a task to run only when every task it depends on has
/// completed: each id among the ready ids is that of a pending task, in the
/// list, whose dependencies all name completed tasks.
pub proof fn lemma_ready_means_dependencies_completed(tasks: Seq<Task>, n: int, id: Seq<char>)
    requires
        0 <= n <= tasks.len(),
        ready_ids(tasks, n).contains(id),
    ensures
        exists|i: int| 0 <= i < n && (#[trigger] tasks[i]).id@ == id && is_ready(tasks, tasks[i]),
    decreases n,
{
    if n > 0 {
        let prev = ready_ids(tasks, n - 1);
        if is_ready(tasks, tasks[n - 1]) {
            lemma_push_contains(prev, tasks[n - 1].id@);
            if id != tasks[n - 1].id@ {
                lemma_ready_means_dependencies_completed(tasks, n - 1, id);
            } else {
                assert(tasks[n - 1].id@ == id);
            }
        } else {
            lemma_ready_means_dependencies_completed(tasks, n - 1, id);
        }
    }
}

/// Lists with the same ids, in order, find an id at the same index.
proof fn lemma_task_index_same_ids(a: Seq<Task>, b: Seq<Task>, id: Seq<char>)
    requires
        a.len() == b.len(),
        forall|i: int| 0 <= i < a.len() ==> #[trigger] a[i].id@ == b[i].id@,
    ensures
        task_index(a, id) == task_index(b, id),
    decreases a.len(),
{
    if a.len() > 0 {
        let ra = a.drop_first();
        let rb = b.drop_first();
        assert forall|i: int| 0 <= i < ra.len() implies #[trigger] ra[i].id@ == rb[i].id@ by {
            assert(ra[i] == a[i + 1]);
            assert(rb[i] == b[i + 1]);
        }
        assert(a[0].id@ == b[0].id@);
        lemma_task_index_same_ids(ra, rb, id);
    }
}

/// Reading a task after its status is set gives the status and the result
/// that were set; every other task reads as it did before.
pub proof fn lemma_update_then_read(
    tasks: Seq<Task>,
    id: Seq<char>,
    status: TaskStatus,
    result: Option<Json>,
    other: Seq<char>,
)
    requires
        has_task(tasks, id),
    ensures
        ({
            let i = task_index(tasks, id);
            let after = tasks.update(i, Task { status, result, ..tasks[i] });
            &&& task_index(after, id) == i
            &&& after[i].status == status && after[i].result == result && after[i].id == tasks[i].id
            &&& other != id ==> task_index(after, other) == task_index(tasks, other) && (task_index(tasks, other)
                != -1 ==> after[task_index(tasks, other)] == tasks[task_index(tasks, other)])
        }),
{
    lemma_task_index_range(tasks, id);
    lemma_task_index_range(tasks, other);
    let i = task_index(tasks, id);
    let after = tasks.update(i, Task { status, result, ..tasks[i] });
    assert forall|k: int| 0 <= k < after.len() implies #[trigger] after[k].id@ == tasks[k].id@ by {
        if k != i {
            assert(after[k] == tasks[k]);
        }
    }
    lemma_task_index_same_ids(after, tasks, id);
    lemma_task_index_same_ids(after, tasks, other);
}

proof fn lemma_has_task_at(tasks: Seq<Task>, i: int)
    requires
        0 <= i < tasks.len(),
    ensures
        has_task(tasks, tasks[i].id@),
        is_node(tasks, tasks[i].id@),
{
}

proof fn lemma_task_index_found(tasks: Seq<Task>, id: Seq<char>, i: int)
    requires
        0 <= i < tasks.len(),
        tasks[i].id@ == id,
        forall|j: int| 0 <= j < i ==> tasks[j].id@ != id,
    ensures
        task_index(tasks, id) == i,
    decreases i,
{
    if i > 0 {
        let rest = tasks.drop_first();
        assert forall|j: int| 0 <= j < i - 1 implies rest[j].id@ != id by {
            assert(rest[j] == tasks[j + 1]);
        }
        lemma_task_index_found(rest, id, i - 1);
    }
}

proof fn lemma_task_index_absent(tasks: Seq<Task>, id: Seq<char>)
    requires
        forall|j: int| 0 <= j < tasks.len() ==> tasks[j].id@ != id,
    ensures
        task_index(tasks, id) == -1,
    decreases tasks.len(),
{
    if tasks.len() > 0 {
        let rest = tasks.drop_first();
        assert forall|j: int| 0 <= j < rest.len() implies rest[j].id@ != id by {
            assert(rest[j] == tasks[j + 1]);
        }
        lemma_task_index_absent(rest, id);
    }
}

/// The index of a task with the id is in range and holds the id, and it is
/// found exactly when some task has the id.
pub proof fn lemma_task_index_range(tasks: Seq<Task>, id: Seq<char>)
    ensures
        -1 <= task_index(tasks, id) < tasks.len(),
        task_index(tasks, id) != -1 ==> tasks[task_index(tasks, id)].id@ == id,
        (task_index(tasks, id) != -1) == has_task(tasks, id),
    decreases tasks.len(),
{
    if tasks.len() > 0 {
        let rest = tasks.drop_first();
        lemma_task_index_range(rest, id);
        if tasks[0].id@ != id {
            if has_task(tasks, id) {
                let j = choose|j: int| 0 <= j < tasks.len() && #[trigger] tasks[j].id@ == id;
                assert(rest[j - 1] == tasks[j]);
            }
            if has_task(rest, id) {
                let j = choose|j: int| 0 <= j < rest.len() && #[trigger] rest[j].id@ == id;
                assert(rest[j] == tasks[j + 1]);
            }
        }
    }
}

proof fn lemma_first_missing_found(deps: Seq<Seq<char>>, tasks: Seq<Task>, k: int)
    requires
        0 <= k < deps.len(),
        !has_task(tasks, deps[k]),
        forall|kk: int| 0 <= kk < k ==> has_task(tasks, #[trigger] deps[kk]),
    ensures
        first_missing(deps, tasks) == k,
    decreases k,
{
    if k > 0 {
        let rest = deps.drop_first();
        assert(has_task(tasks, deps[0]));
        assert forall|kk: int| 0 <= kk < k - 1 implies has_task(tasks, #[trigger] rest[kk]) by {
            assert(rest[kk] == deps[kk + 1]);
        }
        lemma_first_missing_found(rest, tasks, k - 1);
    }
}

proof fn lemma_first_missing_absent(deps: Seq<Seq<char>>, tasks: Seq<Task>)
    requires
        forall|kk: int| 0 <= kk < deps.len() ==> has_task(tasks, #[trigger] deps[kk]),
    ensures
        first_missing(deps, tasks) == -1,
    decreases deps.len(),
{
    if deps.len() > 0 {
        let rest = deps.drop_first();
        assert(has_task(tasks, deps[0]));
        assert forall|kk: int| 0 <= kk < rest.len() implies has_task(tasks, #[trigger] rest[kk]) by {
            assert(rest[kk] == deps[kk + 1]);
        }
        lemma_first_missing_absent(rest, tasks);
    }
}

proof fn lemma_first_exhausted_found(tasks: Seq<Task>, k: int)
    requires
        0 <= k < tasks.len(),
        exhausted(tasks[k]),
        forall|j: int| 0 <= j < k ==> !exhausted(#[trigger] tasks[j]),
    ensures
        first_exhausted(tasks) == k,
    decreases k,
{
    if k > 0 {
        let rest = tasks.drop_first();
        assert(!exhausted(tasks[0]));
        assert forall|j: int| 0 <= j < k - 1 implies !exhausted(#[trigger] rest[j]) by {
            assert(rest[j] == tasks[j + 1]);
        }
        lemma_first_exhausted_found(rest, k - 1);
    }
}

proof fn lemma_first_exhausted_absent(tasks: Seq<Task>)
    requires
        forall|j: int| 0 <= j < tasks.len() ==> !exhausted(#[trigger] tasks[j]),
    ensures
        first_exhausted(tasks) == -1,
    decreases tasks.len(),
{
    if tasks.len() > 0 {
        let rest = tasks.drop_first();
        assert(!exhausted(tasks[0]));
        assert forall|j: int| 0 <= j < rest.len() implies !exhausted(#[trigger] rest[j]) by {
            assert(rest[j] == tasks[j + 1]);
        }
        lemma_first_exhausted_absent(rest);
    }
}

proof fn lemma_unseen_push(tasks: Seq<Task>, st: Seq<Seq<char>>, od: Seq<Seq<char>>, x: Seq<char>)
    requires
        has_task(tasks, x),
        !st.contains(x),
        !od.contains(x),
    ensures
        unseen(tasks, st.push(x), od) < unseen(tasks, st, od),
    decreases tasks.len(),
{
    let s2 = st.push(x);
    lemma_push_contains(st, x);
    let rest = tasks.drop_last();
    if tasks.last().id@ == x {
        lemma_unseen_mono_stack(rest, st, s2, od);
    } else {
        let j = choose|j: int| 0 <= j < tasks.len() && #[trigger] tasks[j].id@ == x;
        assert(rest[j] == tasks[j]);
        lemma_unseen_push(rest, st, od, x);
    }
}

proof fn lemma_unseen_mono_stack(tasks: Seq<Task>, st: Seq<Seq<char>>, st2: Seq<Seq<char>>, od: Seq<Seq<char>>)
    requires
        forall|x: Seq<char>| #[trigger] st.contains(x) ==> st2.contains(x),
    ensures
        unseen(tasks, st2, od) <= unseen(tasks, st, od),
    decreases tasks.len(),
{
    if tasks.len() > 0 {
        lemma_unseen_mono_stack(tasks.drop_last(), st, st2, od);
    }
}

proof fn lemma_unseen_mono(tasks: Seq<Task>, st: Seq<Seq<char>>, od: Seq<Seq<char>>, od2: Seq<Seq<char>>)
    requires
        od.is_prefix_of(od2),
    ensures
        unseen(tasks, st, od2) <= unseen(tasks, st, od),
    decreases tasks.len(),
{
    if tasks.len() > 0 {
        lemma_unseen_mono(tasks.drop_last(), st, od, od2);
        if od.contains(tasks.last().id@) {
            lemma_prefix_contains(od, od2, tasks.last().id@);
        }
    }
}

proof fn lemma_prefix_contains(a: Seq<Seq<char>>, b: Seq<Seq<char>>, x: Seq<char>)
    requires
        a.is_prefix_of(b),
        a.contains(x),
    ensures
        b.contains(x),
{
    let i = a.index_of(x);
    assert(b[i] == a[i]);
}

proof fn lemma_prefix_trans(a: Seq<Seq<char>>, b: Seq<Seq<char>>, c: Seq<Seq<char>>)
    requires
        a.is_prefix_of(b),
        b.is_prefix_of(c),
    ensures
        a.is_prefix_of(c),
{
    assert forall|i: int| 0 <= i < a.len() implies a[i] == c[i] by {
        assert(a[i] == b[i]);
    }
}

proof fn lemma_prefix_push(a: Seq<Seq<char>>, b: Seq<Seq<char>>, x: Seq<char>)
    requires
        a.is_prefix_of(b),
    ensures
        a.is_prefix_of(b.push(x)),
{
    assert forall|i: int| 0 <= i < a.len() implies a[i] == b.push(x)[i] by {
        assert(a[i] == b[i]);
    }
}

proof fn lemma_index_of_push(a: Seq<Seq<char>>, x: Seq<char>, y: Seq<char>)
    requires
        a.no_duplicates(),
        a.contains(y),
        !a.contains(x),
    ensures
        a.push(x).index_of(y) == a.index_of(y),
        0 <= a.index_of(y) < a.len(),
{
    let b = a.push(x);
    lemma_push_contains(a, x);
    let i = a.index_of(y);
    let k = b.index_of(y);
    assert(a[i] == y);
    assert(b[k] == y);
    if k == a.len() {
        assert(y == x);
    } else {
        assert(a[k] == y);
    }
}

proof fn lemma_index_of_push_last(a: Seq<Seq<char>>, x: Seq<char>)
    requires
        !a.contains(x),
    ensures
        a.push(x).index_of(x) == a.len(),
{
    let b = a.push(x);
    lemma_push_contains(a, x);
    let k = b.index_of(x);
    assert(b[k] == x);
    if k < a.len() {
        assert(a[k] == x);
    }
}


/// When no dependency is missing, each is a task.
proof fn lemma_first_missing_props(deps: Seq<Seq<char>>, tasks: Seq<Task>)
    ensures
        first_missing(deps, tasks) >= -1,
        first_missing(deps, tasks) == -1 ==> forall|k: int| 0 <= k < deps.len() ==> has_task(tasks, #[trigger] deps[k]),
    decreases deps.len(),
{
    if deps.len() > 0 {
        let rest = deps.drop_first();
        lemma_first_missing_props(rest, tasks);
        if first_missing(deps, tasks) == -1 {
            assert(has_task(tasks, deps[0]));
            assert(first_missing(rest, tasks) == -1);
            assert forall|k: int| 0 <= k < deps.len() implies has_task(tasks, #[trigger] deps[k]) by {
                if k > 0 {
                    assert(deps[k] == rest[k - 1]);
                }
            }
        }
    }
}

/// Every dependency of every task is itself a task of the list.
pub open spec fn closed_deps(tasks: Seq<Task>) -> bool {
    forall|i: int, k: int|
        0 <= i < tasks.len() && 0 <= k < tasks[i].deps().len() ==> has_task(tasks, #[trigger] tasks[i].deps()[k])
}

/// No task reaches, through its dependencies, a task that depends on it.
pub open spec fn acyclic(tasks: Seq<Task>) -> bool {
    forall|a: Seq<char>, b: Seq<char>| #[trigger] edge(tasks, a, b) ==> !reaches(tasks, b, a)
}

/// In an execution order of a list without cycles, every dependency comes
/// before each task that depends on it.
pub proof fn lemma_order_respects_dependencies(tasks: Seq<Task>, order: Seq<Seq<char>>, a: Seq<char>, b: Seq<char>)
    requires
        is_execution_order(tasks, order),
        acyclic(tasks),
        edge(tasks, a, b),
    ensures
        order.contains(a) && order.contains(b),
        order.index_of(b) < order.index_of(a),
{
    assert(is_node(tasks, a));
    assert(is_node(tasks, b));
}

/// The index of an id after a task is added at the end.
proof fn lemma_task_index_push(o: Seq<Task>, t: Task, x: Seq<char>)
    ensures
        x != t.id@ ==> task_index(o.push(t), x) == task_index(o, x),
        x == t.id@ && !has_task(o, x) ==> task_index(o.push(t), x) == o.len(),
    decreases o.len(),
{
    let n = o.push(t);
    if o.len() == 0 {
        assert(n[0] == t);
        assert(n.drop_first() =~= Seq::<Task>::empty());
        assert(task_index(n.drop_first(), x) == -1);
    } else {
        assert(n[0] == o[0]);
        assert(n.drop_first() =~= o.drop_first().push(t));
        lemma_task_index_push(o.drop_first(), t, x);
        if x == t.id@ && !has_task(o, x) {
            assert(o[0].id@ != x);
            assert forall|j: int| 0 <= j < o.drop_first().len() implies #[trigger] o.drop_first()[j].id@ != x by {
                assert(o.drop_first()[j] == o[j + 1]);
            }
        }
    }
}

/// Adding a new task whose dependencies are all tasks changes no dependency
/// of the tasks already there.
proof fn lemma_edges_after_push(o: Seq<Task>, t: Task, x: Seq<char>, y: Seq<char>)
    requires
        !has_task(o, t.id@),
        closed_deps(o),
        forall|k: int| 0 <= k < t.deps().len() ==> has_task(o, #[trigger] t.deps()[k]),
    ensures
        x != t.id@ ==> (edge(o.push(t), x, y) <==> edge(o, x, y)),
        !edge(o.push(t), x, t.id@),
{
    let n = o.push(t);
    lemma_task_index_push(o, t, x);
    lemma_task_index_range(o, x);
    lemma_task_index_range(n, x);
    if x != t.id@ {
        if has_task(o, x) {
            let i = task_index(o, x);
            assert(n[i] == o[i]);
            assert(has_task(n, x));
        } else {
            assert forall|j: int| 0 <= j < n.len() implies #[trigger] n[j].id@ != x by {
                if j < o.len() {
                    assert(n[j] == o[j]);
                }
            }
        }
        if edge(o, x, t.id@) {
            let i = task_index(o, x);
            let k = choose|k: int| 0 <= k < o[i].deps().len() && o[i].deps()[k] == t.id@;
            assert(has_task(o, o[i].deps()[k]));
        }
    } else {
        if has_task(o, t.id@) {
        } else {
            assert(n[o.len() as int] == t);
            if t.deps().contains(t.id@) {
                let k = choose|k: int| 0 <= k < t.deps().len() && t.deps()[k] == t.id@;
                assert(has_task(o, t.deps()[k]));
            }
        }
    }
}

/// An empty list has no missing dependency and no cycle.
pub proof fn lemma_empty_acyclic()
    ensures
        closed_deps(Seq::<Task>::empty()),
        acyclic(Seq::<Task>::empty()),
{
}

/// Adding a task that `add_task` accepts to a list whose dependencies are all
/// tasks and that has no cycle keeps both properties.
pub proof fn lemma_add_keeps_acyclic(o: Seq<Task>, t: Task)
    requires
        closed_deps(o),
        acyclic(o),
        can_add(o, t),
    ensures
        closed_deps(o.push(t)),
        acyclic(o.push(t)),
{
    let n = o.push(t);
    lemma_first_missing_props(t.deps(), o);
    assert forall|k: int| 0 <= k < t.deps().len() implies has_task(o, #[trigger] t.deps()[k]) by {
        lemma_first_missing_props(t.deps(), o);
    }
    assert forall|y: Seq<char>| has_task(o, y) implies has_task(n, y) by {
        let i = choose|i: int| 0 <= i < o.len() && #[trigger] o[i].id@ == y;
        assert(n[i] == o[i]);
    }
    assert forall|i: int, k: int| 0 <= i < n.len() && 0 <= k < n[i].deps().len() implies has_task(
        n,
        #[trigger] n[i].deps()[k],
    ) by {
        if i < o.len() {
            assert(n[i] == o[i]);
        } else {
            assert(n[i] == t);
        }
    }
    assert forall|a: Seq<char>, b: Seq<char>| #[trigger] edge(n, a, b) implies !reaches(n, b, a) by {
        lemma_edges_after_push(o, t, a, b);
        lemma_edges_after_push(o, t, b, b);
        if reaches(n, b, a) {
            let p = choose|p: Seq<Seq<char>>| #[trigger] is_path(n, p) && p[0] == b && p.last() == a;
            assert forall|j: int| 0 < j < p.len() implies #[trigger] p[j] != t.id@ by {
                let i = j - 1;
                assert(edge(n, p[i], p[i + 1]));
                assert(p[i + 1] == p[j]);
                lemma_edges_after_push(o, t, p[i], p[j]);
            }
            if a == t.id@ {
                if p.len() == 1 {
                    lemma_edges_after_push(o, t, a, a);
                } else {
                    assert(p[p.len() - 1] != t.id@);
                }
            }
            assert(a != t.id@);
            assert(b != t.id@);
            assert forall|j: int| 0 <= j < p.len() - 1 implies #[trigger] edge(o, p[j], p[j + 1]) by {
                assert(edge(n, p[j], p[j + 1]));
                if j > 0 {
                    assert(p[j] != t.id@);
                }
                lemma_edges_after_push(o, t, p[j], p[j + 1]);
            }
            assert(is_path(o, p));
            assert(edge(o, a, b));
        }
    }
}

} // verus!
