use repo_health::messages::BackgroundMessage;
use repo_health::models::{
    Repository, RepositoryStatus, WorkflowHealth, WorkflowRun, WorkflowStatus, SECONDS_PER_DAY,
};
use repo_health::pipeline::{enhance_repository, plan_cycle_messages, EnhancementDetail};

fn repo(name: &str) -> Repository {
    Repository::new(name.to_string(), "me".to_string())
}

fn run(id: u64, status: WorkflowStatus) -> WorkflowRun {
    WorkflowRun {
        id,
        name: "CI".to_string(),
        status,
        created_at: 0,
        updated_at: 0,
        duration: None,
        conclusion: None,
        html_url: String::new(),
    }
}

#[test]
fn test_plan_emits_protocol_order() {
    let plan = plan_cycle_messages(vec![repo("a"), repo("b")]);
    assert_eq!(plan.len(), 5);
    assert!(matches!(plan[0], BackgroundMessage::FetchStarted { total: 2 }));
    match &plan[1] {
        BackgroundMessage::RepositoryFetched { repository, current, total } => {
            assert_eq!(repository.name, "a");
            assert_eq!((*current, *total), (1, 2));
        }
        _ => panic!("expected the first item message"),
    }
    match &plan[2] {
        BackgroundMessage::RepositoryFetched { repository, current, total } => {
            assert_eq!(repository.name, "b");
            assert_eq!((*current, *total), (2, 2));
        }
        _ => panic!("expected the second item message"),
    }
    match &plan[3] {
        BackgroundMessage::FetchCompleted { repositories } => {
            assert_eq!(repositories.len(), 2);
            assert_eq!(repositories[0].name, "a");
            assert_eq!(repositories[1].name, "b");
        }
        _ => panic!("expected the completion message"),
    }
    assert!(matches!(plan[4], BackgroundMessage::EnhancementStarted { total: 2 }));
}

#[test]
fn test_plan_for_empty_listing() {
    let plan = plan_cycle_messages(Vec::new());
    assert_eq!(plan.len(), 3);
    assert!(matches!(plan[0], BackgroundMessage::FetchStarted { total: 0 }));
    assert!(matches!(plan[1], BackgroundMessage::FetchCompleted { .. }));
    assert!(matches!(plan[2], BackgroundMessage::EnhancementStarted { total: 0 }));
}

#[test]
fn test_enhancement_fills_detail() {
    let mut r = repo("tool");
    let now = 100 * SECONDS_PER_DAY;
    let detail = EnhancementDetail {
        pull_requests: Some(Vec::new()),
        latest_commit: Some(now - 3 * SECONDS_PER_DAY),
        workflows: Some(vec![run(1, WorkflowStatus::Success), run(2, WorkflowStatus::Failed)]),
    };
    enhance_repository(&mut r, detail, now);
    assert_eq!(r.latest_commit_at, Some(now - 3 * SECONDS_PER_DAY));
    assert_eq!(r.status, RepositoryStatus::Active);
    assert_eq!(r.workflow_health, WorkflowHealth::Fair);
    assert_eq!(r.recent_workflows.len(), 2);
    assert_eq!(r.latest_workflow.as_ref().map(|w| w.id), Some(1));
}

#[test]
fn test_enhancement_soft_failure_keeps_basics() {
    // Every part of the detail fetch failed: the repository keeps its
    // basic values, and only the derived status is recomputed.
    let mut r = repo("tool");
    r.stars = 4;
    let detail = EnhancementDetail { pull_requests: None, latest_commit: None, workflows: None };
    enhance_repository(&mut r, detail, 1000);
    assert_eq!(r.stars, 4);
    assert_eq!(r.status, RepositoryStatus::Unknown);
    assert_eq!(r.workflow_health, WorkflowHealth::Unknown);
    assert!(r.recent_workflows.is_empty());
    assert!(r.latest_workflow.is_none());
}

#[test]
fn test_enhancement_with_empty_runs_is_excellent() {
    let mut r = repo("tool");
    let detail = EnhancementDetail {
        pull_requests: None,
        latest_commit: None,
        workflows: Some(Vec::new()),
    };
    enhance_repository(&mut r, detail, 0);
    assert_eq!(r.workflow_health, WorkflowHealth::Excellent);
    assert!(r.latest_workflow.is_none());
}
