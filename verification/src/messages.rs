//! The message protocol: events flowing from background fetch cycles to
//! the state owner. Events of one cycle are emitted in a fixed order
//! (started, one per item, completed — or an error), and the state owner
//! applies them one at a time.

use crate::models::{Repository, RepositoryView};
use vstd::prelude::*;

verus! {

/// Mathematical value of a [`BackgroundMessage`].
#[verifier::ext_equal]
pub ghost enum MessageView {
    FetchStarted { total: usize },
    RepositoryFetched { repository: RepositoryView, current: usize, total: usize },
    FetchCompleted { repositories: Seq<RepositoryView> },
    FetchError { error: Seq<char> },
    EnhancementStarted { total: usize },
    RepositoryEnhanced { repository: RepositoryView, current: usize, total: usize },
    EnhancementCompleted { repositories: Seq<RepositoryView> },
    OrganizationsFetchStarted,
    OrganizationsFetched { organizations: Seq<Seq<char>> },
}

/// An event sent from a background fetch cycle to the state owner.
#[derive(Debug)]
pub enum BackgroundMessage {
    /// Phase 1 begins; the total repository count is known.
    FetchStarted { total: usize },
    /// One basic-info repository is available; append semantics.
    RepositoryFetched { repository: Repository, current: usize, total: usize },
    /// The full basic list is available; writes the cache for the current
    /// mode and moves to the next phase.
    FetchCompleted { repositories: Vec<Repository> },
    /// Phase 1 or 2 failed fatally for this cycle.
    FetchError { error: String },
    /// Phase 2 begins.
    EnhancementStarted { total: usize },
    /// One repository's enriched value is available; replace-by-name
    /// semantics.
    RepositoryEnhanced { repository: Repository, current: usize, total: usize },
    /// The final enriched list; overwrites the cache entry.
    EnhancementCompleted { repositories: Vec<Repository> },
    /// The organization list is being fetched.
    OrganizationsFetchStarted,
    /// The organization list arrived.
    OrganizationsFetched { organizations: Vec<String> },
}

impl DeepView for BackgroundMessage {
    type V = MessageView;

    open spec fn deep_view(&self) -> MessageView {
        match self {
            BackgroundMessage::FetchStarted { total } => MessageView::FetchStarted { total: *total },
            BackgroundMessage::RepositoryFetched { repository, current, total } => MessageView::RepositoryFetched {
                repository: repository.deep_view(),
                current: *current,
                total: *total,
            },
            BackgroundMessage::FetchCompleted { repositories } => MessageView::FetchCompleted {
                repositories: repositories.deep_view(),
            },
            BackgroundMessage::FetchError { error } => MessageView::FetchError { error: error@ },
            BackgroundMessage::EnhancementStarted { total } => MessageView::EnhancementStarted { total: *total },
            BackgroundMessage::RepositoryEnhanced { repository, current, total } => MessageView::RepositoryEnhanced {
                repository: repository.deep_view(),
                current: *current,
                total: *total,
            },
            BackgroundMessage::EnhancementCompleted { repositories } => MessageView::EnhancementCompleted {
                repositories: repositories.deep_view(),
            },
            BackgroundMessage::OrganizationsFetchStarted => MessageView::OrganizationsFetchStarted,
            BackgroundMessage::OrganizationsFetched { organizations } => MessageView::OrganizationsFetched {
                organizations: organizations.deep_view(),
            },
        }
    }
}

} // verus!
