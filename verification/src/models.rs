//! Value types for repositories and their derived health signals.
//!
//! Timestamps are plain seconds since the Unix epoch; "now" is always an
//! explicit argument, so every derivation here is a total function of its
//! inputs.

use crate::text::{decimal_seq, usize_to_string};
use vstd::prelude::*;

verus! {

/// Seconds in one day, used to turn commit-age seconds into whole days.
pub const SECONDS_PER_DAY: u64 = 86400;

/// Activity level of a repository, derived from the age of its latest commit.
#[derive(Debug, Clone, Copy, PartialEq, Eq, Structural)]
pub enum RepositoryStatus {
    /// Committed today
    Hot,
    /// Committed within the last week
    Active,
    /// Committed within the last month
    Moderate,
    /// Committed within the last 3 months
    Quiet,
    /// Committed within the last 6 months
    Stale,
    /// No commits in over 6 months
    Dormant,
    /// Status is unknown or being fetched
    Unknown,
}

/// The activity status that a commit age of `days` whole days maps to.
pub open spec fn status_of_age_days(days: u64) -> RepositoryStatus {
    if days == 0 {
        RepositoryStatus::Hot
    } else if days <= 7 {
        RepositoryStatus::Active
    } else if days <= 30 {
        RepositoryStatus::Moderate
    } else if days <= 90 {
        RepositoryStatus::Quiet
    } else if days <= 180 {
        RepositoryStatus::Stale
    } else {
        RepositoryStatus::Dormant
    }
}

/// The status derived from an optional latest-commit timestamp and the
/// current time, both in seconds: unknown when there is no commit or the
/// commit lies in the future, otherwise determined by the age in whole days.
pub open spec fn status_of_last_commit(last_commit: Option<u64>, now: u64) -> RepositoryStatus {
    match last_commit {
        Option::Some(t) => if t <= now {
            status_of_age_days(((now - t) as u64) / SECONDS_PER_DAY)
        } else {
            RepositoryStatus::Unknown
        },
        Option::None => RepositoryStatus::Unknown,
    }
}

impl RepositoryStatus {
    /// Human-readable description of the status.
    pub fn description(&self) -> (r: &'static str)
        ensures
            r@ == self.description_spec(),
    {
        match self {
            RepositoryStatus::Hot => "Very active (today)",
            RepositoryStatus::Active => "Active (this week)",
            RepositoryStatus::Moderate => "Moderate activity (this month)",
            RepositoryStatus::Quiet => "Quiet (last 3 months)",
            RepositoryStatus::Stale => "Stale (last 6 months)",
            RepositoryStatus::Dormant => "Dormant (6+ months)",
            RepositoryStatus::Unknown => "Status unknown",
        }
    }

    /// The characters of `description`.
    pub open spec fn description_spec(&self) -> Seq<char> {
        match self {
            RepositoryStatus::Hot => "Very active (today)"@,
            RepositoryStatus::Active => "Active (this week)"@,
            RepositoryStatus::Moderate => "Moderate activity (this month)"@,
            RepositoryStatus::Quiet => "Quiet (last 3 months)"@,
            RepositoryStatus::Stale => "Stale (last 6 months)"@,
            RepositoryStatus::Dormant => "Dormant (6+ months)"@,
            RepositoryStatus::Unknown => "Status unknown"@,
        }
    }

    /// Emoji marker for the status.
    pub fn emoji(&self) -> (r: &'static str)
        ensures
            r@ == self.emoji_spec(),
    {
        match self {
            RepositoryStatus::Hot => "🔥",
            RepositoryStatus::Active => "⚡",
            RepositoryStatus::Moderate => "✅",
            RepositoryStatus::Quiet => "⚠️",
            RepositoryStatus::Stale => "🟡",
            RepositoryStatus::Dormant => "💤",
            RepositoryStatus::Unknown => "❓",
        }
    }

    /// The characters of `emoji`.
    pub open spec fn emoji_spec(&self) -> Seq<char> {
        match self {
            RepositoryStatus::Hot => "🔥"@,
            RepositoryStatus::Active => "⚡"@,
            RepositoryStatus::Moderate => "✅"@,
            RepositoryStatus::Quiet => "⚠️"@,
            RepositoryStatus::Stale => "🟡"@,
            RepositoryStatus::Dormant => "💤"@,
            RepositoryStatus::Unknown => "❓"@,
        }
    }

    /// Status from the latest commit time: `None`, or a commit in the
    /// future, means the status cannot be determined; otherwise the age in
    /// whole days decides, with day 0 hot, days 1-7 active, 8-30 moderate,
    /// 31-90 quiet, 91-180 stale, and anything older dormant.
    pub fn from_last_commit(last_commit: Option<u64>, now: u64) -> (r: Self)
        ensures
            r == status_of_last_commit(last_commit, now),
    {
        match last_commit {
            Option::Some(commit_time) => {
                if commit_time <= now {
                    let days: u64 = (now - commit_time) / SECONDS_PER_DAY;
                    if days == 0 {
                        RepositoryStatus::Hot
                    } else if days <= 7 {
                        RepositoryStatus::Active
                    } else if days <= 30 {
                        RepositoryStatus::Moderate
                    } else if days <= 90 {
                        RepositoryStatus::Quiet
                    } else if days <= 180 {
                        RepositoryStatus::Stale
                    } else {
                        RepositoryStatus::Dormant
                    }
                } else {
                    RepositoryStatus::Unknown
                }
            },
            Option::None => RepositoryStatus::Unknown,
        }
    }
}

/// Status of one CI workflow run.
#[derive(Debug, Clone, Copy, PartialEq, Eq, Structural)]
pub enum WorkflowStatus {
    /// Workflow completed successfully
    Success,
    /// Workflow failed
    Failed,
    /// Workflow is currently running
    InProgress,
    /// Workflow was cancelled
    Cancelled,
    /// Unknown or pending status
    Unknown,
}

impl WorkflowStatus {
    /// Human-readable description of the run status.
    pub fn description(&self) -> (r: &'static str)
        ensures
            r@ == self.description_spec(),
    {
        match self {
            WorkflowStatus::Success => "Passed",
            WorkflowStatus::Failed => "Failed",
            WorkflowStatus::InProgress => "Running",
            WorkflowStatus::Cancelled => "Cancelled",
            WorkflowStatus::Unknown => "Unknown",
        }
    }

    /// The characters of `description`.
    pub open spec fn description_spec(&self) -> Seq<char> {
        match self {
            WorkflowStatus::Success => "Passed"@,
            WorkflowStatus::Failed => "Failed"@,
            WorkflowStatus::InProgress => "Running"@,
            WorkflowStatus::Cancelled => "Cancelled"@,
            WorkflowStatus::Unknown => "Unknown"@,
        }
    }

    /// Emoji marker for the run status.
    pub fn emoji(&self) -> (r: &'static str)
        ensures
            r@ == self.emoji_spec(),
    {
        match self {
            WorkflowStatus::Success => "✅",
            WorkflowStatus::Failed => "❌",
            WorkflowStatus::InProgress => "⏳",
            WorkflowStatus::Cancelled => "🚫",
            WorkflowStatus::Unknown => "❓",
        }
    }

    /// The characters of `emoji`.
    pub open spec fn emoji_spec(&self) -> Seq<char> {
        match self {
            WorkflowStatus::Success => "✅"@,
            WorkflowStatus::Failed => "❌"@,
            WorkflowStatus::InProgress => "⏳"@,
            WorkflowStatus::Cancelled => "🚫"@,
            WorkflowStatus::Unknown => "❓"@,
        }
    }
}

/// One CI workflow run. Times are seconds since the Unix epoch, the
/// duration is in seconds.
#[derive(Debug)]
pub struct WorkflowRun {
    /// Unique identifier for the workflow run
    pub id: u64,
    /// Name of the workflow
    pub name: String,
    /// Current status of the workflow
    pub status: WorkflowStatus,
    /// When the workflow was created
    pub created_at: u64,
    /// When the workflow was last updated
    pub updated_at: u64,
    /// Duration of the workflow in seconds, if completed
    pub duration: Option<u64>,
    /// Conclusion of the workflow, if completed
    pub conclusion: Option<String>,
    /// URL to view the workflow in a browser
    pub html_url: String,
}

impl Clone for WorkflowRun {
    /// Cloning a run keeps it equal to the original.
    fn clone(&self) -> (res: Self)
        ensures
            res == *self,
    {
        WorkflowRun {
            id: self.id,
            name: self.name.clone(),
            status: self.status,
            created_at: self.created_at,
            updated_at: self.updated_at,
            duration: self.duration,
            conclusion: match &self.conclusion {
                Option::Some(c) => Option::Some(c.clone()),
                Option::None => Option::None,
            },
            html_url: self.html_url.clone(),
        }
    }
}

impl WorkflowRun {
    /// Human-readable time description for when this run occurred.
    pub fn time_description(&self) -> (r: String)
        ensures
            r@ == "recently"@,
    {
        String::from_str("recently")
    }

    /// Whether this run was created within the last day: a run with a
    /// creation time in the future does not count as recent.
    pub fn is_recent(&self, now: u64) -> (r: bool)
        ensures
            r == (self.created_at <= now && now - self.created_at < SECONDS_PER_DAY),
    {
        self.created_at <= now && now - self.created_at < SECONDS_PER_DAY
    }
}

/// Lifecycle state of a pull request.
#[derive(Debug, Clone, Copy, PartialEq, Eq, Structural)]
pub enum PullRequestState {
    Open,
    Closed,
    Merged,
}

impl PullRequestState {
    /// Emoji marker for the state.
    pub fn emoji(&self) -> (r: &'static str)
        ensures
            r@ == self.emoji_spec(),
    {
        match self {
            PullRequestState::Open => "🟢",
            PullRequestState::Closed => "🔴",
            PullRequestState::Merged => "🟣",
        }
    }

    /// The characters of `emoji`.
    pub open spec fn emoji_spec(&self) -> Seq<char> {
        match self {
            PullRequestState::Open => "🟢"@,
            PullRequestState::Closed => "🔴"@,
            PullRequestState::Merged => "🟣"@,
        }
    }
}

/// One open review request attached to a repository snapshot. Immutable
/// once attached; superseded wholesale on re-enrichment.
#[derive(Debug)]
pub struct PullRequest {
    /// Number of the pull request
    pub number: u32,
    /// Title of the pull request
    pub title: String,
    /// Current lifecycle state
    pub state: PullRequestState,
    /// When the request was created, seconds since the epoch
    pub created_at: u64,
    /// When the request was last updated, seconds since the epoch
    pub updated_at: u64,
    /// Author of the pull request
    pub author: String,
    /// URL to view the request in a browser
    pub html_url: String,
    /// Whether the request is a draft
    pub draft: bool,
    /// Number of review approvals
    pub approvals: u32,
    /// Number of requested changes
    pub changes_requested: u32,
}

impl Clone for PullRequest {
    /// Cloning a pull request keeps it equal to the original.
    fn clone(&self) -> (res: Self)
        ensures
            res == *self,
    {
        PullRequest {
            number: self.number,
            title: self.title.clone(),
            state: self.state,
            created_at: self.created_at,
            updated_at: self.updated_at,
            author: self.author.clone(),
            html_url: self.html_url.clone(),
            draft: self.draft,
            approvals: self.approvals,
            changes_requested: self.changes_requested,
        }
    }
}

/// Overall CI health of a repository, derived from the success ratio of
/// its recent workflow runs.
#[derive(Debug, Clone, Copy, PartialEq, Eq, Structural)]
pub enum WorkflowHealth {
    /// All workflows passing, or no workflows at all
    Excellent,
    /// At least 80% of workflows passing
    Good,
    /// At least half of the workflows passing
    Fair,
    /// Fewer than half passing, but not all failing
    Poor,
    /// All workflows failing
    Critical,
    /// No workflow data available
    Unknown,
}

/// Number of successful runs in a sequence of workflow runs.
pub open spec fn count_successes(runs: Seq<WorkflowRun>) -> nat
    decreases runs.len(),
{
    if runs.len() == 0 {
        0
    } else {
        count_successes(runs.drop_last()) + if runs.last().status == WorkflowStatus::Success {
            1nat
        } else {
            0nat
        }
    }
}

/// Health class of `successful` passing runs out of `total`: no runs at
/// all is excellent (absence of signal is not failure); otherwise the
/// success ratio decides, with cutoffs at 1, 4/5 and 1/2, any success at
/// all still poor, and none critical.
pub open spec fn health_of_counts(successful: nat, total: nat) -> WorkflowHealth {
    if total == 0 {
        WorkflowHealth::Excellent
    } else if successful >= total {
        WorkflowHealth::Excellent
    } else if 5 * successful >= 4 * total {
        WorkflowHealth::Good
    } else if 2 * successful >= total {
        WorkflowHealth::Fair
    } else if successful > 0 {
        WorkflowHealth::Poor
    } else {
        WorkflowHealth::Critical
    }
}

/// Health derived from a sequence of runs.
pub open spec fn workflow_health_of(runs: Seq<WorkflowRun>) -> WorkflowHealth {
    health_of_counts(count_successes(runs), runs.len())
}

impl WorkflowHealth {
    /// Human-readable description of the health class.
    pub fn description(&self) -> (r: &'static str)
        ensures
            r@ == self.description_spec(),
    {
        match self {
            WorkflowHealth::Excellent => "All workflows passing",
            WorkflowHealth::Good => "Most workflows passing",
            WorkflowHealth::Fair => "Some workflows failing",
            WorkflowHealth::Poor => "Many workflows failing",
            WorkflowHealth::Critical => "All workflows failing",
            WorkflowHealth::Unknown => "No workflow data",
        }
    }

    /// The characters of `description`.
    pub open spec fn description_spec(&self) -> Seq<char> {
        match self {
            WorkflowHealth::Excellent => "All workflows passing"@,
            WorkflowHealth::Good => "Most workflows passing"@,
            WorkflowHealth::Fair => "Some workflows failing"@,
            WorkflowHealth::Poor => "Many workflows failing"@,
            WorkflowHealth::Critical => "All workflows failing"@,
            WorkflowHealth::Unknown => "No workflow data"@,
        }
    }

    /// Emoji marker for the health class.
    pub fn emoji(&self) -> (r: &'static str)
        ensures
            r@ == self.emoji_spec(),
    {
        match self {
            WorkflowHealth::Excellent => "✅",
            WorkflowHealth::Good => "🟢",
            WorkflowHealth::Fair => "🟡",
            WorkflowHealth::Poor => "🟠",
            WorkflowHealth::Critical => "🔴",
            WorkflowHealth::Unknown => "❓",
        }
    }

    /// The characters of `emoji`.
    pub open spec fn emoji_spec(&self) -> Seq<char> {
        match self {
            WorkflowHealth::Excellent => "✅"@,
            WorkflowHealth::Good => "🟢"@,
            WorkflowHealth::Fair => "🟡"@,
            WorkflowHealth::Poor => "🟠"@,
            WorkflowHealth::Critical => "🔴"@,
            WorkflowHealth::Unknown => "❓"@,
        }
    }

    /// Workflow health from a list of recent workflow runs.
    pub fn from_workflow_runs(workflows: &[WorkflowRun]) -> (r: Self)
        ensures
            r == workflow_health_of(workflows@),
    {
        let total = workflows.len();
        if total == 0 {
            return WorkflowHealth::Excellent;
        }
        let mut successful: usize = 0;
        let mut i: usize = 0;
        while i < total
            invariant
                total == workflows@.len(),
                0 <= i <= total,
                successful == count_successes(workflows@.take(i as int)),
                successful <= i,
            decreases total - i,
        {
            proof {
                assert(workflows@.take(i + 1).drop_last() =~= workflows@.take(i as int));
                assert(workflows@.take(i + 1).last() == workflows@[i as int]);
            }
            if workflows[i].status == WorkflowStatus::Success {
                successful = successful + 1;
            }
            i = i + 1;
        }
        proof {
            assert(workflows@.take(total as int) =~= workflows@);
        }
        if successful >= total {
            WorkflowHealth::Excellent
        } else if 5 * (successful as u128) >= 4 * (total as u128) {
            WorkflowHealth::Good
        } else if 2 * (successful as u128) >= total as u128 {
            WorkflowHealth::Fair
        } else if successful > 0 {
            WorkflowHealth::Poor
        } else {
            WorkflowHealth::Critical
        }
    }
}

/// The value of an optional string, character by character.
pub open spec fn view_opt_string(o: Option<String>) -> Option<Seq<char>> {
    match o {
        Option::Some(s) => Option::Some(s@),
        Option::None => Option::None,
    }
}

/// Mathematical value of a [`Repository`]: strings as character
/// sequences, lists as sequences.
#[verifier::ext_equal]
pub ghost struct RepositoryView {
    pub name: Seq<char>,
    pub owner: Seq<char>,
    pub status: RepositoryStatus,
    pub workflow_health: WorkflowHealth,
    pub latest_workflow: Option<WorkflowRun>,
    pub recent_workflows: Seq<WorkflowRun>,
    pub open_pull_requests: Seq<PullRequest>,
    pub last_updated: u64,
    pub html_url: Seq<char>,
    pub description: Option<Seq<char>>,
    pub language: Option<Seq<char>>,
    pub stars: u32,
    pub latest_commit_at: Option<u64>,
}

/// A complete repository with its health data, identified by owner and
/// name. Mutated only by replacement: enrichment replaces the whole value.
#[derive(Debug)]
pub struct Repository {
    /// Repository name
    pub name: String,
    /// Repository owner or organization
    pub owner: String,
    /// Health status based on commit activity
    pub status: RepositoryStatus,
    /// Workflow health based on recent runs
    pub workflow_health: WorkflowHealth,
    /// Most recent workflow run
    pub latest_workflow: Option<WorkflowRun>,
    /// Recent workflow runs for the health calculation
    pub recent_workflows: Vec<WorkflowRun>,
    /// Open pull requests
    pub open_pull_requests: Vec<PullRequest>,
    /// When this data was last fetched, seconds since the epoch
    pub last_updated: u64,
    /// URL of the repository in a browser
    pub html_url: String,
    /// Repository description
    pub description: Option<String>,
    /// Primary programming language
    pub language: Option<String>,
    /// Number of stars
    pub stars: u32,
    /// Latest commit timestamp, seconds since the epoch
    pub latest_commit_at: Option<u64>,
}

impl View for Repository {
    type V = RepositoryView;

    open spec fn view(&self) -> RepositoryView {
        RepositoryView {
            name: self.name@,
            owner: self.owner@,
            status: self.status,
            workflow_health: self.workflow_health,
            latest_workflow: self.latest_workflow,
            recent_workflows: self.recent_workflows@,
            open_pull_requests: self.open_pull_requests@,
            last_updated: self.last_updated,
            html_url: self.html_url@,
            description: view_opt_string(self.description),
            language: view_opt_string(self.language),
            stars: self.stars,
            latest_commit_at: self.latest_commit_at,
        }
    }
}

impl DeepView for Repository {
    type V = RepositoryView;

    open spec fn deep_view(&self) -> RepositoryView {
        self.view()
    }
}

impl Clone for Repository {
    /// Cloning a repository keeps its mathematical value.
    fn clone(&self) -> (res: Self)
        ensures
            res@ == self@,
    {
        let recent_workflows = self.recent_workflows.clone();
        let open_pull_requests = self.open_pull_requests.clone();
        proof {
            assert(recent_workflows@ =~= self.recent_workflows@);
            assert(open_pull_requests@ =~= self.open_pull_requests@);
        }
        let res = Repository {
            name: self.name.clone(),
            owner: self.owner.clone(),
            status: self.status,
            workflow_health: self.workflow_health,
            latest_workflow: match &self.latest_workflow {
                Option::Some(w) => Option::Some(w.clone()),
                Option::None => Option::None,
            },
            recent_workflows,
            open_pull_requests,
            last_updated: self.last_updated,
            html_url: self.html_url.clone(),
            description: match &self.description {
                Option::Some(d) => Option::Some(d.clone()),
                Option::None => Option::None,
            },
            language: match &self.language {
                Option::Some(l) => Option::Some(l.clone()),
                Option::None => Option::None,
            },
            stars: self.stars,
            latest_commit_at: self.latest_commit_at,
        };
        proof {
            assert(res@ =~= self@);
        }
        res
    }
}

impl Repository {
    /// The value a fresh repository carries before anything beyond its
    /// identity is known.
    pub open spec fn fresh_spec(name: Seq<char>, owner: Seq<char>) -> RepositoryView {
        RepositoryView {
            name: name,
            owner: owner,
            status: RepositoryStatus::Unknown,
            workflow_health: WorkflowHealth::Unknown,
            latest_workflow: Option::None,
            recent_workflows: Seq::empty(),
            open_pull_requests: Seq::empty(),
            last_updated: 0,
            html_url: Seq::empty(),
            description: Option::None,
            language: Option::None,
            stars: 0,
            latest_commit_at: Option::None,
        }
    }

    /// A new repository carrying only its identity: statuses unknown, no
    /// runs, no pull requests, and a last-fetched time of zero meaning
    /// "never fetched".
    pub fn new(name: String, owner: String) -> (r: Self)
        ensures
            r@ == Self::fresh_spec(name@, owner@),
    {
        let r = Repository {
            name,
            owner,
            status: RepositoryStatus::Unknown,
            workflow_health: WorkflowHealth::Unknown,
            latest_workflow: Option::None,
            recent_workflows: Vec::new(),
            open_pull_requests: Vec::new(),
            last_updated: 0,
            html_url: String::new(),
            description: Option::None,
            language: Option::None,
            stars: 0,
            latest_commit_at: Option::None,
        };
        proof {
            assert(r@ =~= Self::fresh_spec(r.name@, r.owner@));
        }
        r
    }

    /// The characters of `full_name`.
    pub open spec fn full_name_spec(&self) -> Seq<char> {
        self.owner@ + "/"@ + self.name@
    }

    /// The full repository name, `owner/name`.
    pub fn full_name(&self) -> (r: String)
        ensures
            r@ == self.full_name_spec(),
    {
        let mut r = self.owner.clone();
        r.append("/");
        r.append(self.name.as_str());
        r
    }

    /// The characters of `status_summary`.
    pub open spec fn status_summary_spec(&self) -> Seq<char> {
        self.status.description_spec() + " | "@ + (match self.latest_workflow {
            Option::Some(w) => w.status.description_spec(),
            Option::None => "No workflows"@,
        }) + " | "@ + decimal_seq(self.open_pull_requests@.len()) + " open PRs"@
    }

    /// One-line summary of the repository's state: activity status, the
    /// latest workflow's status (or a note that there is none), and the
    /// number of open pull requests.
    pub fn status_summary(&self) -> (r: String)
        ensures
            r@ == self.status_summary_spec(),
    {
        let mut r = String::from_str(self.status.description());
        r.append(" | ");
        match &self.latest_workflow {
            Option::Some(w) => r.append(w.status.description()),
            Option::None => r.append("No workflows"),
        }
        r.append(" | ");
        let count = usize_to_string(self.open_pull_requests.len());
        r.append(count.as_str());
        r.append(" open PRs");
        r
    }

    /// Whether the repository needs attention: stale or dormant activity,
    /// or any open pull request.
    pub fn needs_attention(&self) -> (r: bool)
        ensures
            r == (self.status == RepositoryStatus::Stale || self.status == RepositoryStatus::Dormant
                || self.open_pull_requests@.len() > 0),
    {
        self.status == RepositoryStatus::Stale || self.status == RepositoryStatus::Dormant
            || self.open_pull_requests.len() > 0
    }
}

/// A copy of a repository list with the same mathematical value.
pub fn clone_repository_list(repositories: &Vec<Repository>) -> (r: Vec<Repository>)
    ensures
        r.deep_view() == repositories.deep_view(),
{
    let r = repositories.clone();
    proof {
        assert forall|i: int| 0 <= i < repositories@.len() implies r.deep_view()[i] == repositories.deep_view()[i] by {
            assert(vstd::pervasive::cloned::<Repository>(repositories[i], r[i]));
        }
        assert(r.deep_view() =~= repositories.deep_view());
    }
    r
}

/// Configuration for one repository to monitor.
#[derive(Debug)]
pub struct RepositoryConfig {
    /// Repository name
    pub name: String,
    /// Repository owner or organization
    pub owner: String,
    /// Whether to monitor this repository
    pub enabled: bool,
    /// Custom display name, when set
    pub display_name: Option<String>,
}

impl Clone for RepositoryConfig {
    /// Cloning a configuration keeps it equal to the original.
    fn clone(&self) -> (res: Self)
        ensures
            res == *self,
    {
        RepositoryConfig {
            name: self.name.clone(),
            owner: self.owner.clone(),
            enabled: self.enabled,
            display_name: match &self.display_name {
                Option::Some(d) => Option::Some(d.clone()),
                Option::None => Option::None,
            },
        }
    }
}

impl RepositoryConfig {
    /// A new configuration: enabled, with no custom display name.
    pub fn new(name: String, owner: String) -> (r: Self)
        ensures
            r.name == name,
            r.owner == owner,
            r.enabled,
            r.display_name is None,
    {
        RepositoryConfig { name, owner, enabled: true, display_name: Option::None }
    }

    /// The display name: the custom name when one is set, otherwise the
    /// repository name.
    pub fn display_name(&self) -> (r: &str)
        ensures
            r@ == match self.display_name {
                Option::Some(d) => d@,
                Option::None => self.name@,
            },
    {
        match &self.display_name {
            Option::Some(d) => d.as_str(),
            Option::None => self.name.as_str(),
        }
    }
}

/// Application configuration.
#[derive(Debug, Clone)]
pub struct AppConfig {
    /// Repositories to monitor
    pub repositories: Vec<RepositoryConfig>,
    /// Personal access token for the data provider
    pub github_token: Option<String>,
    /// Auto-refresh interval in seconds
    pub refresh_interval: u64,
    /// Maximum number of repositories to display
    pub max_repositories: usize,
}

impl Default for AppConfig {
    /// The default configuration: nothing to monitor, no token, a refresh
    /// interval of five minutes, and at most 50 repositories shown.
    fn default() -> (r: Self)
        ensures
            r.repositories@ == Seq::<RepositoryConfig>::empty(),
            r.github_token is None,
            r.refresh_interval == 300,
            r.max_repositories == 50,
    {
        AppConfig {
            repositories: Vec::new(),
            github_token: Option::None,
            refresh_interval: 300,
            max_repositories: 50,
        }
    }
}

} // verus!
