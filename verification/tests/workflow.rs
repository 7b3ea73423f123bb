use potatohead::error::WorkflowError;
use potatohead::workflow::flow::{Workflow, WorkflowStep};
use potatohead::workflow::tasklist::{Task, TaskList, TaskStatus};

#[test]
fn test_workflow_creation() {
    let workflow = Workflow::new("Test Workflow");
    assert_eq!(workflow.name, "Test Workflow");
    assert_eq!(workflow.id.len(), 36);
}

#[test]
fn flow_test_task_list_add_and_get() {
    let mut task_list = TaskList::new();
    let task = Task::new("task1", "task1", None, None);
    let id = task.id.clone();
    task_list.add_task(task.cloned()).unwrap();
    assert_eq!(task_list.get_task(&id).unwrap().id, id);
    task_list.reset_failed_tasks().unwrap();
}

#[test]
fn workflow_ids_differ() {
    let a = Workflow::new("a");
    let b = Workflow::new("b");
    assert_ne!(a.id, b.id);
    assert_eq!(&a.id[14..15], "7");
}

#[test]
fn task_with_missing_dependency_is_refused() {
    let mut list = TaskList::new();
    let t = Task::new("agent", "b", Some(vec!["a".to_string()]), None);
    assert_eq!(list.add_task(t), Err(WorkflowError::DependencyNotFound("a".to_string())));
    assert!(list.is_empty());
}

#[test]
fn duplicate_task_is_refused() {
    let mut list = TaskList::new();
    list.add_task(Task::new("agent", "a", None, None)).unwrap();
    assert_eq!(list.add_task(Task::new("agent", "a", None, None)), Err(WorkflowError::TaskAlreadyExists("a".to_string())));
    assert_eq!(list.len(), 1);
}

#[test]
fn execution_plan_respects_dependencies() {
    let mut wf = Workflow::new("plan");
    wf.add_task(Task::new("agent", "a", None, None)).unwrap();
    wf.add_task(Task::new("agent", "b", Some(vec!["a".to_string()]), None)).unwrap();
    wf.add_task(Task::new("agent", "c", Some(vec!["a".to_string()]), None)).unwrap();
    wf.add_task(Task::new("agent", "d", Some(vec!["b".to_string(), "c".to_string()]), None)).unwrap();
    let plan = wf.execution_plan();
    assert_eq!(plan.len(), 3);
    assert_eq!(plan[0], vec!["a".to_string()]);
    let mut second = plan[1].clone();
    second.sort();
    assert_eq!(second, vec!["b".to_string(), "c".to_string()]);
    assert_eq!(plan[2], vec!["d".to_string()]);
}

#[test]
fn next_step_runs_ready_tasks_then_completes() {
    let mut wf = Workflow::new("steps");
    wf.add_task(Task::new("agent", "a", None, None)).unwrap();
    wf.add_task(Task::new("agent", "b", Some(vec!["a".to_string()]), None)).unwrap();
    match wf.next_step() {
        WorkflowStep::Execute(ids) => assert_eq!(ids, vec!["a".to_string()]),
        _ => panic!("expected task a to run"),
    }
    wf.complete_task("a", None);
    match wf.next_step() {
        WorkflowStep::Execute(ids) => assert_eq!(ids, vec!["b".to_string()]),
        _ => panic!("expected task b to run"),
    }
    wf.complete_task("b", None);
    assert!(wf.is_complete());
    assert!(matches!(wf.next_step(), WorkflowStep::Complete));
}

#[test]
fn failed_task_is_retried_until_exhausted() {
    let mut wf = Workflow::new("retry");
    wf.add_task(Task::new("agent", "a", None, Some(1))).unwrap();
    wf.add_task(Task::new("agent", "b", None, None)).unwrap();
    match wf.next_step() {
        WorkflowStep::Execute(ids) => assert_eq!(ids, vec!["a".to_string(), "b".to_string()]),
        _ => panic!("expected both tasks to run"),
    }
    wf.fail_task("a");
    match wf.next_step() {
        WorkflowStep::Execute(ids) => assert_eq!(ids, vec!["a".to_string()]),
        _ => panic!("expected task a to run again"),
    }
    wf.fail_task("a");
    match wf.next_step() {
        WorkflowStep::Failed(WorkflowError::MaxRetriesExceeded(id)) => assert_eq!(id, "a"),
        _ => panic!("expected the workflow to stop on the failed task"),
    }
}

#[test]
fn task_status_starts_pending() {
    let t = Task::new("agent", "x", None, None);
    assert_eq!(t.status, TaskStatus::Pending);
    assert_eq!(t.max_retries, 3);
    assert_eq!(t.retry_count, 0);
}

#[test]
fn add_tasks_keeps_the_tasks_before_the_refused_one() {
    let mut wf = Workflow::new("batch");
    let tasks = vec![
        Task::new("agent", "a", None, None),
        Task::new("agent", "b", Some(vec!["a".to_string()]), None),
        Task::new("agent", "c", Some(vec!["z".to_string()]), None),
        Task::new("agent", "d", None, None),
    ];
    assert_eq!(wf.add_tasks(tasks), Err(WorkflowError::DependencyNotFound("z".to_string())));
    assert_eq!(wf.task_list.len(), 2);
}
