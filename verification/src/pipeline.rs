//! The fetch/enhance pipeline's pure side: the exact sequence of messages
//! a cycle emits for a fetched listing, and the enrichment of one
//! repository from the detail values a provider call returned. The
//! surrounding program performs the network calls and the sends, in the
//! order planned here.

use crate::messages::{BackgroundMessage, MessageView};
use crate::models::{
    clone_repository_list, PullRequest, Repository, RepositoryStatus, RepositoryView,
    WorkflowHealth, WorkflowRun, status_of_last_commit, workflow_health_of,
};
use vstd::prelude::*;

verus! {

/// The phase 1 item messages for a fetched listing: one per repository,
/// in listing order, with one-based progress counters.
pub open spec fn item_messages(rs: Seq<RepositoryView>, total: usize) -> Seq<MessageView> {
    Seq::new(rs.len(), |i: int| MessageView::RepositoryFetched {
        repository: rs[i],
        current: (i + 1) as usize,
        total: total,
    })
}

/// Everything a cycle emits up to the start of enhancement, for a listing
/// `rs`: the start with the total count, one item message per repository
/// in listing order, the completed basic list, and the enhancement start.
pub open spec fn plan_cycle_spec(rs: Seq<RepositoryView>) -> Seq<MessageView> {
    let total = rs.len() as usize;
    seq![MessageView::FetchStarted { total }] + item_messages(rs, total) + seq![
        MessageView::FetchCompleted { repositories: rs },
        MessageView::EnhancementStarted { total },
    ]
}

/// The messages of phase 1 for a successfully fetched listing, in
/// emission order.
pub fn plan_cycle_messages(repositories: Vec<Repository>) -> (r: Vec<BackgroundMessage>)
    ensures
        r.deep_view() == plan_cycle_spec(repositories.deep_view()),
{
    let ghost rsv = repositories.deep_view();
    let total = repositories.len();
    let mut messages: Vec<BackgroundMessage> = Vec::new();
    messages.push(BackgroundMessage::FetchStarted { total });
    let mut items = clone_repository_list(&repositories);
    let mut k: usize = 0;
    proof {
        assert(items.deep_view() =~= rsv.skip(0));
        assert(messages.deep_view() =~= seq![MessageView::FetchStarted { total }] + item_messages(
            rsv.take(0),
            total,
        ));
    }
    while k < total
        invariant
            rsv == repositories.deep_view(),
            total == repositories@.len(),
            0 <= k <= total,
            items.deep_view() == rsv.skip(k as int),
            messages.deep_view() == seq![MessageView::FetchStarted { total }] + item_messages(
                rsv.take(k as int),
                total,
            ),
        decreases total - k,
    {
        let ghost iv = items.deep_view();
        proof {
            assert(iv.len() == items@.len());
            assert(rsv.skip(k as int).len() == rsv.len() - k);
        }
        let item = items.remove(0);
        proof {
            assert(item.deep_view() == iv[0]);
            assert(iv[0] == rsv[k as int]);
            assert forall|j: int| 0 <= j < items@.len() implies items.deep_view()[j] == iv.drop_first()[j] by {
                assert(items.deep_view()[j] == items@[j].deep_view());
            }
            assert(items.deep_view() =~= iv.drop_first());
            assert(iv.drop_first() =~= rsv.skip(k + 1));
        }
        let ghost mv = messages.deep_view();
        messages.push(BackgroundMessage::RepositoryFetched { repository: item, current: k + 1, total });
        proof {
            assert(messages.deep_view() =~= mv.push(MessageView::RepositoryFetched {
                repository: rsv[k as int],
                current: (k + 1) as usize,
                total: total,
            }));
            assert(item_messages(rsv.take(k + 1), total) =~= item_messages(rsv.take(k as int), total).push(
                MessageView::RepositoryFetched {
                    repository: rsv[k as int],
                    current: (k + 1) as usize,
                    total: total,
                },
            ));
            assert(messages.deep_view() =~= seq![MessageView::FetchStarted { total }] + item_messages(
                rsv.take(k + 1),
                total,
            ));
        }
        k = k + 1;
    }
    let ghost mv = messages.deep_view();
    messages.push(BackgroundMessage::FetchCompleted { repositories });
    messages.push(BackgroundMessage::EnhancementStarted { total });
    proof {
        assert(rsv.take(total as int) =~= rsv);
        assert(messages.deep_view() =~= plan_cycle_spec(rsv));
    }
    messages
}

/// Mathematical value of an [`EnhancementDetail`].
#[verifier::ext_equal]
pub ghost struct EnhancementDetailView {
    pub pull_requests: Option<Seq<PullRequest>>,
    pub latest_commit: Option<u64>,
    pub workflows: Option<Seq<WorkflowRun>>,
}

/// What one per-repository enrichment call produced. Each field is `None`
/// when that part could not be fetched; the repository then keeps its
/// previous value — a soft failure, never fatal to the cycle.
#[derive(Debug)]
pub struct EnhancementDetail {
    /// Open pull requests, when they could be fetched
    pub pull_requests: Option<Vec<PullRequest>>,
    /// Latest commit time in seconds since the epoch, when one was found
    pub latest_commit: Option<u64>,
    /// Recent workflow runs, when they could be fetched
    pub workflows: Option<Vec<WorkflowRun>>,
}

impl DeepView for EnhancementDetail {
    type V = EnhancementDetailView;

    open spec fn deep_view(&self) -> EnhancementDetailView {
        EnhancementDetailView {
            pull_requests: match &self.pull_requests {
                Option::Some(p) => Option::Some(p@),
                Option::None => Option::None,
            },
            latest_commit: self.latest_commit,
            workflows: match &self.workflows {
                Option::Some(w) => Option::Some(w@),
                Option::None => Option::None,
            },
        }
    }
}

/// The repository after enrichment: fetched parts replace their fields
/// wholesale, missing parts keep the old values, the workflow health and
/// the latest run are derived from the new run list, and the activity
/// status is derived from the latest commit at time `now`.
pub open spec fn enhanced_spec(r: RepositoryView, d: EnhancementDetailView, now: u64) -> RepositoryView {
    let commit = match d.latest_commit {
        Option::Some(t) => Option::Some(t),
        Option::None => r.latest_commit_at,
    };
    RepositoryView {
        open_pull_requests: match d.pull_requests {
            Option::Some(p) => p,
            Option::None => r.open_pull_requests,
        },
        latest_commit_at: commit,
        recent_workflows: match d.workflows {
            Option::Some(w) => w,
            Option::None => r.recent_workflows,
        },
        workflow_health: match d.workflows {
            Option::Some(w) => workflow_health_of(w),
            Option::None => r.workflow_health,
        },
        latest_workflow: match d.workflows {
            Option::Some(w) => if w.len() > 0 {
                Option::Some(w[0])
            } else {
                Option::None
            },
            Option::None => r.latest_workflow,
        },
        status: status_of_last_commit(commit, now),
        ..r
    }
}

/// Enrich one repository in place from the detail a provider call
/// returned, at time `now`.
pub fn enhance_repository(repository: &mut Repository, detail: EnhancementDetail, now: u64)
    ensures
        final(repository).deep_view() == enhanced_spec(old(repository).deep_view(), detail.deep_view(), now),
{
    let ghost pre = repository.deep_view();
    let ghost dv = detail.deep_view();
    match detail.pull_requests {
        Option::Some(pull_requests) => {
            repository.open_pull_requests = pull_requests;
        },
        Option::None => {},
    }
    match detail.latest_commit {
        Option::Some(t) => {
            repository.latest_commit_at = Option::Some(t);
        },
        Option::None => {},
    }
    match detail.workflows {
        Option::Some(workflows) => {
            repository.workflow_health = WorkflowHealth::from_workflow_runs(workflows.as_slice());
            repository.latest_workflow = first_run(&workflows);
            repository.recent_workflows = workflows;
        },
        Option::None => {},
    }
    repository.status = RepositoryStatus::from_last_commit(repository.latest_commit_at, now);
    proof {
        assert(repository.deep_view() =~= enhanced_spec(pre, dv, now));
    }
}

/// The first workflow run of a list, cloned.
fn first_run(workflows: &Vec<WorkflowRun>) -> (r: Option<WorkflowRun>)
    ensures
        r == if workflows@.len() > 0 {
            Option::Some(workflows@[0])
        } else {
            Option::<WorkflowRun>::None
        },
{
    if workflows.len() > 0 {
        let first = &workflows[0];
        Option::Some(first.clone())
    } else {
        Option::None
    }
}

} // verus!
