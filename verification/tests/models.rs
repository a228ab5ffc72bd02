use repo_health::models::{
    PullRequest, PullRequestState, Repository, RepositoryConfig, RepositoryStatus, WorkflowHealth,
    WorkflowRun, WorkflowStatus, SECONDS_PER_DAY,
};

fn run(id: u64, status: WorkflowStatus) -> WorkflowRun {
    WorkflowRun {
        id,
        name: "CI".to_string(),
        status,
        created_at: 0,
        updated_at: 0,
        duration: Some(60),
        conclusion: Some("done".to_string()),
        html_url: "http://example.com".to_string(),
    }
}

fn pull_request(number: u32) -> PullRequest {
    PullRequest {
        number,
        title: "change".to_string(),
        state: PullRequestState::Open,
        created_at: 0,
        updated_at: 0,
        author: "someone".to_string(),
        html_url: "http://example.com/pr".to_string(),
        draft: false,
        approvals: 0,
        changes_requested: 0,
    }
}

#[test]
fn test_repository_status() {
    assert_eq!(RepositoryStatus::Hot.emoji(), "🔥");
    assert_eq!(RepositoryStatus::Active.emoji(), "⚡");
    assert_eq!(RepositoryStatus::Dormant.emoji(), "💤");
}

#[test]
fn test_workflow_status() {
    assert_eq!(WorkflowStatus::Success.description(), "Passed");
    assert_eq!(WorkflowStatus::Failed.description(), "Failed");
    assert_eq!(WorkflowStatus::InProgress.description(), "Running");
}

#[test]
fn test_repository_creation() {
    let repo = Repository::new("test-repo".to_string(), "test-org".to_string());
    assert_eq!(repo.full_name(), "test-org/test-repo");
    assert_eq!(repo.status, RepositoryStatus::Unknown);
    assert!(repo.open_pull_requests.is_empty());
}

#[test]
fn test_repository_config() {
    let config = RepositoryConfig::new("test".to_string(), "org".to_string());
    assert!(config.enabled);
    assert_eq!(config.display_name(), "test");

    let mut config_with_display = config.clone();
    config_with_display.display_name = Some("Custom Name".to_string());
    assert_eq!(config_with_display.display_name(), "Custom Name");
}

#[test]
fn test_workflow_health() {
    let run1 = WorkflowRun {
        id: 1,
        name: "CI".to_string(),
        status: WorkflowStatus::Success,
        created_at: 0,
        updated_at: 0,
        duration: Some(60),
        conclusion: Some("success".to_string()),
        html_url: "http://example.com".to_string(),
    };

    let run2 = WorkflowRun {
        id: 2,
        name: "CD".to_string(),
        status: WorkflowStatus::Failed,
        created_at: 0,
        updated_at: 0,
        duration: Some(120),
        conclusion: Some("failure".to_string()),
        html_url: "http://example.com".to_string(),
    };

    assert_eq!(WorkflowHealth::from_workflow_runs(&[run1.clone()]), WorkflowHealth::Excellent);
    assert_eq!(WorkflowHealth::from_workflow_runs(&[run1, run2]), WorkflowHealth::Fair);
}

#[test]
fn test_workflow_health_boundaries() {
    // No runs at all: absence of signal is not failure.
    assert_eq!(WorkflowHealth::from_workflow_runs(&[]), WorkflowHealth::Excellent);
    // One failed run: all runs failing.
    assert_eq!(
        WorkflowHealth::from_workflow_runs(&[run(1, WorkflowStatus::Failed)]),
        WorkflowHealth::Critical
    );
    // Three successes out of four is 0.75: below the 0.8 cutoff, so Fair.
    assert_eq!(
        WorkflowHealth::from_workflow_runs(&[
            run(1, WorkflowStatus::Success),
            run(2, WorkflowStatus::Success),
            run(3, WorkflowStatus::Success),
            run(4, WorkflowStatus::Failed),
        ]),
        WorkflowHealth::Fair
    );
    // Four successes out of five is exactly 0.8: Good.
    assert_eq!(
        WorkflowHealth::from_workflow_runs(&[
            run(1, WorkflowStatus::Success),
            run(2, WorkflowStatus::Success),
            run(3, WorkflowStatus::Success),
            run(4, WorkflowStatus::Success),
            run(5, WorkflowStatus::Failed),
        ]),
        WorkflowHealth::Good
    );
    // One success out of five is 0.2: Poor.
    assert_eq!(
        WorkflowHealth::from_workflow_runs(&[
            run(1, WorkflowStatus::Success),
            run(2, WorkflowStatus::Failed),
            run(3, WorkflowStatus::Failed),
            run(4, WorkflowStatus::Failed),
            run(5, WorkflowStatus::Failed),
        ]),
        WorkflowHealth::Poor
    );
}

#[test]
fn test_activity_status_boundaries() {
    let now = 400 * SECONDS_PER_DAY;
    let age = |days: u64| Some(now - days * SECONDS_PER_DAY);
    assert_eq!(RepositoryStatus::from_last_commit(age(0), now), RepositoryStatus::Hot);
    assert_eq!(RepositoryStatus::from_last_commit(age(1), now), RepositoryStatus::Active);
    assert_eq!(RepositoryStatus::from_last_commit(age(7), now), RepositoryStatus::Active);
    assert_eq!(RepositoryStatus::from_last_commit(age(8), now), RepositoryStatus::Moderate);
    assert_eq!(RepositoryStatus::from_last_commit(age(30), now), RepositoryStatus::Moderate);
    assert_eq!(RepositoryStatus::from_last_commit(age(31), now), RepositoryStatus::Quiet);
    assert_eq!(RepositoryStatus::from_last_commit(age(90), now), RepositoryStatus::Quiet);
    assert_eq!(RepositoryStatus::from_last_commit(age(91), now), RepositoryStatus::Stale);
    assert_eq!(RepositoryStatus::from_last_commit(age(180), now), RepositoryStatus::Stale);
    assert_eq!(RepositoryStatus::from_last_commit(age(181), now), RepositoryStatus::Dormant);
    assert_eq!(RepositoryStatus::from_last_commit(None, now), RepositoryStatus::Unknown);
    // A commit from the future cannot be classified.
    assert_eq!(RepositoryStatus::from_last_commit(Some(now + 1), now), RepositoryStatus::Unknown);
}

#[test]
fn test_status_summary_and_needs_attention() {
    let mut repo = Repository::new("tool".to_string(), "someone".to_string());
    assert_eq!(repo.status_summary(), "Status unknown | No workflows | 0 open PRs");
    assert!(!repo.needs_attention());

    repo.status = RepositoryStatus::Active;
    repo.latest_workflow = Some(run(9, WorkflowStatus::Success));
    repo.open_pull_requests = vec![pull_request(12), pull_request(34)];
    assert_eq!(repo.status_summary(), "Active (this week) | Passed | 2 open PRs");
    assert!(repo.needs_attention());

    repo.open_pull_requests = Vec::new();
    repo.status = RepositoryStatus::Dormant;
    assert!(repo.needs_attention());
}

#[test]
fn test_workflow_run_recency() {
    let mut r = run(1, WorkflowStatus::Success);
    r.created_at = 1000;
    assert!(r.is_recent(1000 + SECONDS_PER_DAY - 1));
    assert!(!r.is_recent(1000 + SECONDS_PER_DAY));
    // A run created in the future does not count as recent.
    assert!(!r.is_recent(999));
    assert_eq!(r.time_description(), "recently");
}

#[test]
fn test_descriptions_and_emoji() {
    assert_eq!(RepositoryStatus::Hot.description(), "Very active (today)");
    assert_eq!(RepositoryStatus::Stale.description(), "Stale (last 6 months)");
    assert_eq!(WorkflowHealth::Excellent.description(), "All workflows passing");
    assert_eq!(WorkflowHealth::Critical.description(), "All workflows failing");
    assert_eq!(WorkflowHealth::Good.emoji(), "🟢");
    assert_eq!(PullRequestState::Open.emoji(), "🟢");
    assert_eq!(PullRequestState::Merged.emoji(), "🟣");
    assert_eq!(WorkflowStatus::Cancelled.emoji(), "🚫");
}

#[test]
fn test_app_config_default() {
    let config = repo_health::models::AppConfig::default();
    assert!(config.repositories.is_empty());
    assert!(config.github_token.is_none());
    assert_eq!(config.refresh_interval, 300);
    assert_eq!(config.max_repositories, 50);
}
