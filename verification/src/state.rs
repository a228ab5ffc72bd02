//! The application state and its event application: the single owner of
//! the repository list, load phase, per-mode cache, organization list and
//! selection cursor. Background cycles communicate with it only through
//! [`BackgroundMessage`] values; applying one is a pure, total function of
//! the state, the message, and the current time.
//!
//! Operations that in the running program start background work return a
//! [`FetchAction`] telling the caller what to start; the state itself
//! never performs I/O.

use crate::cache::{RepositoryViewMode, ViewModeCache};
use crate::messages::{BackgroundMessage, MessageView};
use crate::models::{clone_repository_list, Repository, RepositoryView};
use crate::text::{decimal_seq, usize_to_string};
use vstd::prelude::*;

verus! {

/// The screens of the application.
#[derive(Debug, Default, Clone, Copy, PartialEq, Eq, Structural)]
pub enum AppView {
    #[default]
    Dashboard,
}

/// Where the loading of the current view mode stands. Progress pairs are
/// (completed count, total count).
#[derive(Debug)]
pub enum LoadPhase {
    /// Nothing has been asked for yet
    Idle,
    /// Phase 1 is running
    FetchingBasic(usize, usize),
    /// The basic list is in, enrichment has not started
    BasicLoaded,
    /// Phase 2 is running
    Enhancing(usize, usize),
    /// The cycle finished successfully
    Complete,
    /// The cycle failed with this message
    Failed(String),
}

/// Mathematical value of a [`LoadPhase`].
#[verifier::ext_equal]
pub ghost enum LoadPhaseView {
    Idle,
    FetchingBasic(usize, usize),
    BasicLoaded,
    Enhancing(usize, usize),
    Complete,
    Failed(Seq<char>),
}

impl DeepView for LoadPhase {
    type V = LoadPhaseView;

    open spec fn deep_view(&self) -> LoadPhaseView {
        match self {
            LoadPhase::Idle => LoadPhaseView::Idle,
            LoadPhase::FetchingBasic(current, total) => LoadPhaseView::FetchingBasic(*current, *total),
            LoadPhase::BasicLoaded => LoadPhaseView::BasicLoaded,
            LoadPhase::Enhancing(current, total) => LoadPhaseView::Enhancing(*current, *total),
            LoadPhase::Complete => LoadPhaseView::Complete,
            LoadPhase::Failed(message) => LoadPhaseView::Failed(message@),
        }
    }
}

/// What the caller must start after a state operation: nothing, a fetch
/// cycle for a mode, or an organizations fetch.
#[derive(Debug)]
pub enum FetchAction {
    /// No background work is needed
    Nothing,
    /// Start a fetch cycle scoped to this mode
    StartFetch(RepositoryViewMode),
    /// Start fetching the organization list
    FetchOrganizations,
}

/// Mathematical value of the whole application state.
#[verifier::ext_equal]
pub ghost struct AppStateView {
    pub should_quit: bool,
    pub current_view: AppView,
    pub title: Seq<char>,
    pub last_refresh: Option<u64>,
    pub client_available: bool,
    pub repositories: Seq<RepositoryView>,
    /// Cache identity of the current mode: `None` is personal
    pub repo_view_mode: Option<Seq<char>>,
    pub user_organizations: Seq<Seq<char>>,
    pub current_org_index: usize,
    pub cache: Map<Option<Seq<char>>, Seq<RepositoryView>>,
    pub load_phase: LoadPhaseView,
    pub is_fetching_organizations: bool,
    pub error_message: Option<Seq<char>>,
    pub selected_repository: usize,
    pub scroll_offset: usize,
}

/// Selection-cursor validity: the selected index stays inside the list
/// whenever the list is non-empty, and rests at zero when it is empty.
pub open spec fn cursor_ok(s: AppStateView) -> bool {
    &&& (s.repositories.len() == 0 ==> s.selected_repository == 0)
    &&& (s.repositories.len() > 0 ==> (s.selected_repository as int) < s.repositories.len())
}

/// A selected index pulled back into a list of length `len`.
pub open spec fn clamp_selected(len: nat, selected: usize) -> usize {
    if len == 0 {
        0
    } else if (selected as nat) < len {
        selected
    } else {
        (len - 1) as usize
    }
}

/// Whether some repository in `rs` carries the name `name`.
pub open spec fn has_name(rs: Seq<RepositoryView>, name: Seq<char>) -> bool {
    exists|i: int| 0 <= i < rs.len() && #[trigger] rs[i].name == name
}

/// Whether `i` is the first position of `rs` carrying `name`.
pub open spec fn is_first_name_index(rs: Seq<RepositoryView>, name: Seq<char>, i: int) -> bool {
    &&& 0 <= i < rs.len()
    &&& rs[i].name == name
    &&& forall|j: int| 0 <= j < i ==> #[trigger] rs[j].name != name
}

/// The first position of `rs` carrying `name`.
pub open spec fn first_name_index(rs: Seq<RepositoryView>, name: Seq<char>) -> int {
    choose|i: int| is_first_name_index(rs, name, i)
}

/// Replace-by-name: the first entry named like `r` is replaced by `r`;
/// when no entry carries that name the list is unchanged.
pub open spec fn replace_by_name(rs: Seq<RepositoryView>, r: RepositoryView) -> Seq<RepositoryView> {
    if has_name(rs, r.name) {
        rs.update(first_name_index(rs, r.name), r)
    } else {
        rs
    }
}

/// The new state after applying one message at time `now`, exactly as
/// the event protocol prescribes: phase 1 events build the list and move
/// the phase forward, completion events install the list and write the
/// cache entry of the current mode, an error records its message, and the
/// organization events only touch the organization side channel.
pub open spec fn spec_apply(s: AppStateView, m: MessageView, now: u64) -> AppStateView {
    match m {
        MessageView::FetchStarted { total } => AppStateView {
            load_phase: LoadPhaseView::FetchingBasic(0, total),
            repositories: Seq::empty(),
            error_message: Option::None,
            selected_repository: 0,
            scroll_offset: 0,
            ..s
        },
        MessageView::RepositoryFetched { repository, current, total } => AppStateView {
            repositories: s.repositories.push(repository),
            load_phase: LoadPhaseView::FetchingBasic(current, total),
            ..s
        },
        MessageView::FetchCompleted { repositories } => AppStateView {
            repositories: repositories,
            cache: s.cache.insert(s.repo_view_mode, repositories),
            load_phase: LoadPhaseView::BasicLoaded,
            last_refresh: Option::Some(now),
            selected_repository: clamp_selected(repositories.len(), s.selected_repository),
            ..s
        },
        MessageView::FetchError { error } => AppStateView {
            load_phase: LoadPhaseView::Failed(error),
            error_message: Option::Some(error),
            ..s
        },
        MessageView::EnhancementStarted { total } => AppStateView {
            load_phase: LoadPhaseView::Enhancing(0, total),
            ..s
        },
        MessageView::RepositoryEnhanced { repository, current, total } => AppStateView {
            repositories: replace_by_name(s.repositories, repository),
            load_phase: LoadPhaseView::Enhancing(current, total),
            ..s
        },
        MessageView::EnhancementCompleted { repositories } => AppStateView {
            repositories: repositories,
            cache: s.cache.insert(s.repo_view_mode, repositories),
            load_phase: LoadPhaseView::Complete,
            last_refresh: Option::Some(now),
            selected_repository: clamp_selected(repositories.len(), s.selected_repository),
            ..s
        },
        MessageView::OrganizationsFetchStarted => AppStateView {
            is_fetching_organizations: true,
            ..s
        },
        MessageView::OrganizationsFetched { organizations } => AppStateView {
            user_organizations: organizations,
            is_fetching_organizations: false,
            error_message: Option::None,
            ..s
        },
    }
}

/// The state after applying a whole sequence of messages in order.
pub open spec fn spec_apply_all(s: AppStateView, ms: Seq<MessageView>, now: u64) -> AppStateView
    decreases ms.len(),
{
    if ms.len() == 0 {
        s
    } else {
        spec_apply_all(spec_apply(s, ms[0], now), ms.drop_first(), now)
    }
}

/// Application state: owns the repository list, loading state, cursor,
/// cache and mode. Mutated only by the owner thread, one message or one
/// command at a time.
#[derive(Debug)]
pub struct App {
    /// Whether the application should quit
    pub should_quit: bool,
    /// Current screen
    pub current_view: AppView,
    /// Application title displayed in the frame
    pub title: String,
    /// When data was last refreshed, seconds since the epoch
    pub last_refresh: Option<u64>,
    /// Whether a data-provider handle exists in the surrounding program
    pub client_available: bool,
    /// The repository list being displayed
    pub repositories: Vec<Repository>,
    /// Current repository view mode
    pub repo_view_mode: RepositoryViewMode,
    /// Organizations the user belongs to
    pub user_organizations: Vec<String>,
    /// Position in the mode cycle: 0 is personal, `i >= 1` is organization `i - 1`
    pub current_org_index: usize,
    /// Cached lists per view mode
    pub cache: ViewModeCache,
    /// Where loading of the current mode stands
    pub load_phase: LoadPhase,
    /// Whether the organization list is being fetched
    pub is_fetching_organizations: bool,
    /// Standing error message, if any
    pub error_message: Option<String>,
    /// Selected index into the repository list
    pub selected_repository: usize,
    /// First visible index of the repository list
    pub scroll_offset: usize,
}

impl DeepView for App {
    type V = AppStateView;

    open spec fn deep_view(&self) -> AppStateView {
        AppStateView {
            should_quit: self.should_quit,
            current_view: self.current_view,
            title: self.title@,
            last_refresh: self.last_refresh,
            client_available: self.client_available,
            repositories: self.repositories.deep_view(),
            repo_view_mode: self.repo_view_mode.key(),
            user_organizations: self.user_organizations.deep_view(),
            current_org_index: self.current_org_index,
            cache: self.cache.entries(),
            load_phase: self.load_phase.deep_view(),
            is_fetching_organizations: self.is_fetching_organizations,
            error_message: crate::models::view_opt_string(self.error_message),
            selected_repository: self.selected_repository,
            scroll_offset: self.scroll_offset,
        }
    }
}

impl App {
    /// Validity: a well-formed cache and a cursor inside the list.
    pub open spec fn wf(&self) -> bool {
        &&& self.cache.wf()
        &&& cursor_ok(self.deep_view())
    }

    /// The state a fresh application starts in.
    pub open spec fn initial_spec() -> AppStateView {
        AppStateView {
            should_quit: false,
            current_view: AppView::Dashboard,
            title: "❤️ Repo Health Dashboard ❤️"@,
            last_refresh: Option::None,
            client_available: false,
            repositories: Seq::empty(),
            repo_view_mode: Option::None,
            user_organizations: Seq::empty(),
            current_org_index: 0,
            cache: Map::empty(),
            load_phase: LoadPhaseView::Idle,
            is_fetching_organizations: false,
            error_message: Option::None,
            selected_repository: 0,
            scroll_offset: 0,
        }
    }

    /// A fresh application: personal mode, idle, nothing loaded, no
    /// provider handle yet.
    pub fn new() -> (r: Self)
        ensures
            r.wf(),
            r.deep_view() == Self::initial_spec(),
    {
        let r = App {
            should_quit: false,
            current_view: AppView::Dashboard,
            title: String::from_str("❤️ Repo Health Dashboard ❤️"),
            last_refresh: Option::None,
            client_available: false,
            repositories: Vec::new(),
            repo_view_mode: RepositoryViewMode::Personal,
            user_organizations: Vec::new(),
            current_org_index: 0,
            cache: ViewModeCache::new(),
            load_phase: LoadPhase::Idle,
            is_fetching_organizations: false,
            error_message: Option::None,
            selected_repository: 0,
            scroll_offset: 0,
        };
        proof {
            assert(r.cache.entries() =~= Map::<Option<Seq<char>>, Seq<RepositoryView>>::empty());
            assert(r.repositories.deep_view() =~= Seq::<RepositoryView>::empty());
            assert(r.user_organizations.deep_view() =~= Seq::<Seq<char>>::empty());
            assert(r.deep_view() =~= Self::initial_spec());
        }
        r
    }

    /// Apply one background message to the state; the pure transition of
    /// the message protocol, at time `now`.
    pub fn apply_message(&mut self, message: BackgroundMessage, now: u64)
        requires
            old(self).wf(),
        ensures
            final(self).wf(),
            final(self).deep_view() == spec_apply(old(self).deep_view(), message.deep_view(), now),
    {
        let ghost pre = self.deep_view();
        let ghost mv = message.deep_view();
        match message {
            BackgroundMessage::FetchStarted { total } => {
                self.load_phase = LoadPhase::FetchingBasic(0, total);
                self.repositories = Vec::new();
                self.error_message = Option::None;
                self.selected_repository = 0;
                self.scroll_offset = 0;
                proof {
                    assert(self.repositories.deep_view() =~= Seq::<RepositoryView>::empty());
                    assert(self.deep_view() =~= spec_apply(pre, mv, now));
                }
            },
            BackgroundMessage::RepositoryFetched { repository, current, total } => {
                let ghost rv = repository.deep_view();
                self.repositories.push(repository);
                self.load_phase = LoadPhase::FetchingBasic(current, total);
                proof {
                    assert(self.repositories.deep_view() =~= pre.repositories.push(rv));
                    assert(self.deep_view() =~= spec_apply(pre, mv, now));
                }
            },
            BackgroundMessage::FetchCompleted { repositories } => {
                let cached = clone_repository_list(&repositories);
                self.cache.insert(&self.repo_view_mode, cached);
                self.repositories = repositories;
                self.load_phase = LoadPhase::BasicLoaded;
                self.last_refresh = Option::Some(now);
                self.heal_selected();
                proof {
                    assert(self.deep_view() =~= spec_apply(pre, mv, now));
                }
            },
            BackgroundMessage::FetchError { error } => {
                let message_copy = error.clone();
                self.load_phase = LoadPhase::Failed(error);
                self.error_message = Option::Some(message_copy);
                proof {
                    assert(self.deep_view() =~= spec_apply(pre, mv, now));
                }
            },
            BackgroundMessage::EnhancementStarted { total } => {
                self.load_phase = LoadPhase::Enhancing(0, total);
                proof {
                    assert(self.deep_view() =~= spec_apply(pre, mv, now));
                }
            },
            BackgroundMessage::RepositoryEnhanced { repository, current, total } => {
                let ghost rv = repository.deep_view();
                self.replace_repository(repository);
                self.load_phase = LoadPhase::Enhancing(current, total);
                proof {
                    assert(self.deep_view() =~= spec_apply(pre, mv, now));
                }
            },
            BackgroundMessage::EnhancementCompleted { repositories } => {
                let cached = clone_repository_list(&repositories);
                self.cache.insert(&self.repo_view_mode, cached);
                self.repositories = repositories;
                self.load_phase = LoadPhase::Complete;
                self.last_refresh = Option::Some(now);
                self.heal_selected();
                proof {
                    assert(self.deep_view() =~= spec_apply(pre, mv, now));
                }
            },
            BackgroundMessage::OrganizationsFetchStarted => {
                self.is_fetching_organizations = true;
                proof {
                    assert(self.deep_view() =~= spec_apply(pre, mv, now));
                }
            },
            BackgroundMessage::OrganizationsFetched { organizations } => {
                self.user_organizations = organizations;
                self.is_fetching_organizations = false;
                self.error_message = Option::None;
                proof {
                    assert(self.deep_view() =~= spec_apply(pre, mv, now));
                }
            },
        }
    }

    /// Pull the selected index back inside the list after the list was
    /// replaced.
    fn heal_selected(&mut self)
        ensures
            *final(self) == (App {
                selected_repository: clamp_selected(old(self).repositories.deep_view().len(), old(self).selected_repository),
                ..*old(self)
            }),
            cursor_ok(final(self).deep_view()),
    {
        let len = self.repositories.len();
        if len == 0 {
            self.selected_repository = 0;
        } else if self.selected_repository >= len {
            self.selected_repository = len - 1;
        }
    }

    /// Replace the first repository named like `repository` by it; with no
    /// such entry the list is unchanged.
    fn replace_repository(&mut self, repository: Repository)
        requires
            cursor_ok(old(self).deep_view()),
        ensures
            *final(self) == (App {
                repositories: final(self).repositories,
                ..*old(self)
            }),
            final(self).repositories.deep_view() == replace_by_name(
                old(self).repositories.deep_view(),
                repository.deep_view(),
            ),
            cursor_ok(final(self).deep_view()),
    {
        let ghost rs = self.repositories.deep_view();
        let ghost rv = repository.deep_view();
        let found = find_first_name(&self.repositories, &repository);
        match found {
            Option::Some(i) => {
                let ghost evec = self.repositories@;
                proof {
                    let f = first_name_index(rs, rv.name);
                    assert(is_first_name_index(rs, rv.name, f));
                    if f < i as int {
                        assert(rs[f].name != rv.name);
                    } else if (i as int) < f {
                        assert(rs[i as int].name != rv.name);
                    }
                }
                self.repositories[i] = repository;
                proof {
                    let cur = self.repositories;
                    assert(cur@ == evec.update(i as int, repository));
                    assert forall|j: int| 0 <= j < cur@.len() implies cur.deep_view()[j] == rs.update(
                        i as int,
                        rv,
                    )[j] by {
                        assert(cur.deep_view()[j] == cur@[j].deep_view());
                        if j != i as int {
                            assert(cur@[j] == evec[j]);
                            assert(rs[j] == evec[j].deep_view());
                        }
                    }
                    assert(cur.deep_view() =~= rs.update(i as int, rv));
                    assert(replace_by_name(rs, rv) == rs.update(i as int, rv));
                }
            },
            Option::None => {},
        }
    }

    /// The display title.
    pub fn get_title(&self) -> (r: &str)
        ensures
            r@ == self.title@,
    {
        self.title.as_str()
    }

    /// Whether the application should quit.
    pub fn should_quit(&self) -> (r: bool)
        ensures
            r == self.should_quit,
    {
        self.should_quit
    }

    /// The repository list being displayed.
    pub fn get_repositories(&self) -> (r: &Vec<Repository>)
        ensures
            r == &self.repositories,
    {
        &self.repositories
    }

    /// Whether phase 1 of a fetch cycle is running.
    pub fn is_loading(&self) -> (r: bool)
        ensures
            r == (self.load_phase.deep_view() is FetchingBasic),
    {
        matches!(self.load_phase, LoadPhase::FetchingBasic(_, _))
    }

    /// Whether phase 2 of a fetch cycle is running.
    pub fn is_enhancing(&self) -> (r: bool)
        ensures
            r == (self.load_phase.deep_view() is Enhancing),
    {
        matches!(self.load_phase, LoadPhase::Enhancing(_, _))
    }

    /// Whether the organization list is being fetched.
    pub fn is_fetching_organizations(&self) -> (r: bool)
        ensures
            r == self.is_fetching_organizations,
    {
        self.is_fetching_organizations
    }

    /// How many organizations are known.
    pub fn organization_count(&self) -> (r: usize)
        ensures
            r == self.user_organizations@.len(),
    {
        self.user_organizations.len()
    }

    /// Phase 1 progress, when phase 1 is running.
    pub fn loading_progress(&self) -> (r: Option<(usize, usize)>)
        ensures
            r == match self.load_phase.deep_view() {
                LoadPhaseView::FetchingBasic(current, total) => Option::Some((current, total)),
                _ => Option::<(usize, usize)>::None,
            },
    {
        match &self.load_phase {
            LoadPhase::FetchingBasic(current, total) => Option::Some((*current, *total)),
            _ => Option::None,
        }
    }

    /// Phase 2 progress, when phase 2 is running.
    pub fn enhancement_progress(&self) -> (r: Option<(usize, usize)>)
        ensures
            r == match self.load_phase.deep_view() {
                LoadPhaseView::Enhancing(current, total) => Option::Some((current, total)),
                _ => Option::<(usize, usize)>::None,
            },
    {
        match &self.load_phase {
            LoadPhase::Enhancing(current, total) => Option::Some((*current, *total)),
            _ => Option::None,
        }
    }

    /// The standing error message, if any.
    pub fn get_error_message(&self) -> (r: Option<&str>)
        ensures
            match r {
                Option::Some(m) => self.deep_view().error_message == Option::Some(m@),
                Option::None => self.deep_view().error_message is None,
            },
    {
        match &self.error_message {
            Option::Some(m) => Option::Some(m.as_str()),
            Option::None => Option::None,
        }
    }

    /// Forget the standing error message.
    pub fn clear_error(&mut self)
        ensures
            *final(self) == (App { error_message: Option::None, ..*old(self) }),
    {
        self.error_message = Option::None;
    }

    /// How many repositories are loaded.
    pub fn repository_count(&self) -> (r: usize)
        ensures
            r == self.repositories@.len(),
    {
        self.repositories.len()
    }

    /// The selected index into the repository list.
    pub fn selected_repository(&self) -> (r: usize)
        ensures
            r == self.selected_repository,
    {
        self.selected_repository
    }

    /// Move the selection to the next repository, wrapping at the end.
    pub fn select_next_repository(&mut self)
        requires
            old(self).wf(),
        ensures
            final(self).wf(),
            *final(self) == (App {
                selected_repository: next_selected(old(self).repositories@.len() as int, old(self).selected_repository),
                ..*old(self)
            }),
    {
        if self.repositories.len() > 0 {
            self.selected_repository = (self.selected_repository + 1) % self.repositories.len();
        }
    }

    /// Move the selection to the previous repository, wrapping at the
    /// start.
    pub fn select_previous_repository(&mut self)
        requires
            old(self).wf(),
        ensures
            final(self).wf(),
            *final(self) == (App {
                selected_repository: previous_selected(old(self).repositories@.len() as int, old(self).selected_repository),
                ..*old(self)
            }),
    {
        if self.repositories.len() > 0 {
            if self.selected_repository == 0 {
                self.selected_repository = self.repositories.len() - 1;
            } else {
                self.selected_repository = self.selected_repository - 1;
            }
        }
    }

    /// The title together with repository statistics: how many are loaded
    /// and how many have open pull requests.
    pub fn get_title_with_stats(&self) -> (r: String)
        ensures
            r@ == title_with_stats_spec(self.deep_view()),
    {
        let loading = matches!(self.load_phase, LoadPhase::FetchingBasic(_, _));
        if self.repositories.len() == 0 && !loading {
            let mut r = self.title.clone();
            r.append(" — No repositories found");
            r
        } else if loading {
            let mut r = self.title.clone();
            r.append(" — Loading...");
            r
        } else {
            let len = self.repositories.len();
            let mut active: usize = 0;
            let mut i: usize = 0;
            while i < len
                invariant
                    len == self.repositories@.len(),
                    0 <= i <= len,
                    active <= i,
                    active == count_active(self.repositories.deep_view().take(i as int)),
                decreases len - i,
            {
                proof {
                    let rs = self.repositories.deep_view();
                    assert(rs[i as int] == self.repositories@[i as int].deep_view());
                    assert(rs.take(i + 1).drop_last() =~= rs.take(i as int));
                    assert(rs.take(i + 1).last() == rs[i as int]);
                }
                if self.repositories[i].open_pull_requests.len() > 0 {
                    active = active + 1;
                }
                i = i + 1;
            }
            proof {
                assert(self.repositories.deep_view().take(len as int) =~= self.repositories.deep_view());
            }
            let mut r = self.title.clone();
            r.append(" — ");
            let count = usize_to_string(len);
            r.append(count.as_str());
            r.append(" repos (");
            let active_str = usize_to_string(active);
            r.append(active_str.as_str());
            r.append(" active)");
            r
        }
    }

    /// Record phase 1 progress directly.
    pub fn set_loading_progress(&mut self, current: usize, total: usize)
        ensures
            *final(self) == (App { load_phase: LoadPhase::FetchingBasic(current, total), ..*old(self) }),
    {
        self.load_phase = LoadPhase::FetchingBasic(current, total);
    }

    /// Stop tracking phase 1 progress: a running phase 1 falls back to its
    /// zero counters; any other phase is untouched.
    pub fn clear_loading_progress(&mut self)
        ensures
            final(self).load_phase.deep_view() == (match old(self).load_phase.deep_view() {
                LoadPhaseView::FetchingBasic(_, _) => LoadPhaseView::FetchingBasic(0, 0),
                p => p,
            }),
            *final(self) == (App { load_phase: final(self).load_phase, ..*old(self) }),
    {
        if matches!(self.load_phase, LoadPhase::FetchingBasic(_, _)) {
            self.load_phase = LoadPhase::FetchingBasic(0, 0);
        }
    }

    /// How many list rows fit in an area of the given height, one row
    /// being taken by the header.
    pub fn get_visible_item_count(&self, area_height: usize) -> (r: usize)
        ensures
            r == if area_height > 1 { area_height - 1 } else { 0 },
    {
        if area_height > 1 {
            area_height - 1
        } else {
            0
        }
    }

    /// Scroll up one row.
    pub fn scroll_up(&mut self)
        ensures
            *final(self) == (App {
                scroll_offset: if old(self).scroll_offset > 0 { (old(self).scroll_offset - 1) as usize } else { 0 },
                ..*old(self)
            }),
    {
        if self.scroll_offset > 0 {
            self.scroll_offset = self.scroll_offset - 1;
        }
    }

    /// Scroll down one row, no further than where the last repository is
    /// visible.
    pub fn scroll_down(&mut self, visible_items: usize)
        ensures
            *final(self) == (App {
                scroll_offset: scroll_down_result(
                    old(self).repositories@.len() as int,
                    old(self).scroll_offset,
                    visible_items,
                ),
                ..*old(self)
            }),
    {
        let max_scroll = if self.repositories.len() >= visible_items {
            self.repositories.len() - visible_items
        } else {
            0
        };
        if self.scroll_offset < max_scroll {
            self.scroll_offset = self.scroll_offset + 1;
        }
    }

    /// Bring the selected repository into the visible window: scroll up to
    /// it when it lies above, and down just far enough when it lies below.
    pub fn ensure_selected_visible(&mut self, visible_items: usize)
        requires
            visible_items >= 1,
        ensures
            *final(self) == (App {
                scroll_offset: ensure_visible_scroll(
                    old(self).scroll_offset,
                    old(self).selected_repository,
                    visible_items,
                ),
                ..*old(self)
            }),
    {
        if self.selected_repository < self.scroll_offset {
            self.scroll_offset = self.selected_repository;
        } else {
            match self.scroll_offset.checked_add(visible_items) {
                Option::Some(limit) => {
                    if self.selected_repository >= limit {
                        self.scroll_offset = self.selected_repository - visible_items + 1;
                    }
                },
                Option::None => {},
            }
        }
    }

    /// Record whether a data-provider handle exists in the surrounding
    /// program.
    pub fn set_client_available(&mut self, available: bool)
        ensures
            *final(self) == (App { client_available: available, ..*old(self) }),
    {
        self.client_available = available;
    }

    /// Record a standing error message.
    pub fn set_error(&mut self, message: String)
        ensures
            *final(self) == (App { error_message: Option::Some(message), ..*old(self) }),
    {
        self.error_message = Option::Some(message);
    }

    /// Begin a fetch cycle for the current mode, provided a provider
    /// handle exists: the list is cleared, the phase moves to fetching,
    /// and the caller is told to start the cycle. Without a provider
    /// nothing happens.
    pub fn fetch_repositories_for_current_mode(&mut self) -> (r: FetchAction)
        requires
            old(self).wf(),
        ensures
            final(self).wf(),
            old(self).client_available ==> {
                &&& final(self).deep_view() == fetch_initiated(old(self).deep_view())
                &&& (r matches FetchAction::StartFetch(m) && m.key() == old(self).deep_view().repo_view_mode)
            },
            !old(self).client_available ==> {
                &&& final(self).deep_view() == old(self).deep_view()
                &&& r is Nothing
            },
    {
        if !self.client_available {
            return FetchAction::Nothing;
        }
        let ghost pre = self.deep_view();
        self.repositories = Vec::new();
        self.load_phase = LoadPhase::FetchingBasic(0, 0);
        self.error_message = Option::None;
        self.selected_repository = 0;
        self.scroll_offset = 0;
        let mode = self.repo_view_mode.clone();
        proof {
            assert(self.repositories.deep_view() =~= Seq::<RepositoryView>::empty());
            assert(self.deep_view() =~= fetch_initiated(pre));
        }
        FetchAction::StartFetch(mode)
    }

    /// Refresh the current mode: note the time, evict its cache entry
    /// unconditionally, and begin a new fetch cycle when a provider
    /// handle exists. This is the only operation that forces a re-fetch
    /// of a cached mode.
    pub fn refresh(&mut self, now: u64) -> (r: FetchAction)
        requires
            old(self).wf(),
        ensures
            final(self).wf(),
            final(self).deep_view() == refresh_outcome(old(self).deep_view(), now),
            fetch_action_ok(old(self).deep_view(), r),
    {
        let ghost pre = self.deep_view();
        self.last_refresh = Option::Some(now);
        self.cache.remove(&self.repo_view_mode);
        let ghost mid = self.deep_view();
        proof {
            assert(mid =~= (AppStateView {
                last_refresh: Option::Some(now),
                cache: pre.cache.remove(pre.repo_view_mode),
                ..pre
            }));
        }
        self.fetch_repositories_for_current_mode()
    }

    /// Install the current mode's view: a cached list is shown at once
    /// and counts as complete; otherwise a fetch cycle begins, when a
    /// provider handle exists.
    pub fn switch_to_current_view(&mut self) -> (r: FetchAction)
        requires
            old(self).wf(),
        ensures
            final(self).wf(),
            final(self).deep_view() == switch_outcome(old(self).deep_view()),
            old(self).deep_view().cache.contains_key(old(self).deep_view().repo_view_mode) ==> r is Nothing,
            !old(self).deep_view().cache.contains_key(old(self).deep_view().repo_view_mode) ==> fetch_action_ok(
                old(self).deep_view(),
                r,
            ),
    {
        let ghost pre = self.deep_view();
        let cached = match self.cache.lookup(&self.repo_view_mode) {
            Option::Some(list) => Option::Some(clone_repository_list(list)),
            Option::None => Option::None,
        };
        match cached {
            Option::Some(list) => {
                self.repositories = list;
                self.load_phase = LoadPhase::Complete;
                self.heal_selected();
                proof {
                    assert(pre.cache.contains_key(pre.repo_view_mode));
                    assert(self.deep_view() =~= switch_outcome(pre));
                }
                FetchAction::Nothing
            },
            Option::None => {
                proof {
                    assert(!pre.cache.contains_key(pre.repo_view_mode));
                }
                self.fetch_repositories_for_current_mode()
            },
        }
    }

    /// Cycle to the next view mode: personal, then each organization in
    /// turn, then personal again. With no organizations known yet this
    /// asks for an organizations fetch instead when a provider handle
    /// exists (and the user repeats the request once they arrive), and
    /// otherwise does nothing. Moving to a mode installs its cached list
    /// or begins a fetch, and resets the cursor.
    pub fn cycle_view_mode(&mut self) -> (r: FetchAction)
        requires
            old(self).wf(),
        ensures
            final(self).wf(),
            old(self).user_organizations@.len() == 0 ==> {
                &&& final(self).deep_view() == old(self).deep_view()
                &&& (old(self).client_available ==> r is FetchOrganizations)
                &&& (!old(self).client_available ==> r is Nothing)
            },
            old(self).user_organizations@.len() > 0 ==> {
                let mid = cycled_state(old(self).deep_view());
                &&& final(self).deep_view() == (AppStateView {
                    selected_repository: 0,
                    scroll_offset: 0,
                    ..switch_outcome(mid)
                })
                &&& (mid.cache.contains_key(mid.repo_view_mode) ==> r is Nothing)
                &&& (!mid.cache.contains_key(mid.repo_view_mode) ==> fetch_action_ok(mid, r))
            },
    {
        let ghost pre = self.deep_view();
        if self.user_organizations.len() == 0 {
            if self.client_available {
                return FetchAction::FetchOrganizations;
            }
            return FetchAction::Nothing;
        }
        let org_count = self.user_organizations.len();
        let next_index: usize = ((self.current_org_index as u128 + 1) % (org_count as u128 + 1)) as usize;
        self.current_org_index = next_index;
        if next_index == 0 {
            self.repo_view_mode = RepositoryViewMode::Personal;
        } else {
            let orgs = &self.user_organizations;
            let name = orgs[next_index - 1].clone();
            self.repo_view_mode = RepositoryViewMode::Organization(name);
        }
        proof {
            assert(self.deep_view() =~= cycled_state(pre));
        }
        let action = self.switch_to_current_view();
        self.selected_repository = 0;
        self.scroll_offset = 0;
        proof {
            assert(self.deep_view() =~= (AppStateView {
                selected_repository: 0,
                scroll_offset: 0,
                ..switch_outcome(cycled_state(pre))
            }));
        }
        action
    }

    /// Handle one abstract input command. Every command is handled; the
    /// returned action tells the caller what background work to start.
    pub fn handle_key_event(&mut self, command: AppCommand, now: u64) -> (r: (bool, FetchAction))
        requires
            old(self).wf(),
        ensures
            final(self).wf(),
            r.0,
            match command {
                AppCommand::Quit => {
                    &&& *final(self) == (App { should_quit: true, ..*old(self) })
                    &&& r.1 is Nothing
                },
                AppCommand::Refresh => {
                    &&& final(self).deep_view() == refresh_outcome(old(self).deep_view(), now)
                    &&& fetch_action_ok(old(self).deep_view(), r.1)
                },
                AppCommand::CycleMode => {
                    &&& (old(self).user_organizations@.len() == 0 ==> {
                        &&& final(self).deep_view() == old(self).deep_view()
                        &&& (old(self).client_available ==> r.1 is FetchOrganizations)
                        &&& (!old(self).client_available ==> r.1 is Nothing)
                    })
                    &&& (old(self).user_organizations@.len() > 0 ==> {
                        let mid = cycled_state(old(self).deep_view());
                        &&& final(self).deep_view() == (AppStateView {
                            selected_repository: 0,
                            scroll_offset: 0,
                            ..switch_outcome(mid)
                        })
                        &&& (mid.cache.contains_key(mid.repo_view_mode) ==> r.1 is Nothing)
                        &&& (!mid.cache.contains_key(mid.repo_view_mode) ==> fetch_action_ok(mid, r.1))
                    })
                },
                AppCommand::MoveUp => {
                    &&& final(self).deep_view() == nav_outcome(old(self).deep_view(), AppCommand::MoveUp)
                    &&& r.1 is Nothing
                },
                AppCommand::MoveDown => {
                    &&& final(self).deep_view() == nav_outcome(old(self).deep_view(), AppCommand::MoveDown)
                    &&& r.1 is Nothing
                },
                AppCommand::PageUp => {
                    &&& final(self).deep_view() == nav_outcome(old(self).deep_view(), AppCommand::PageUp)
                    &&& r.1 is Nothing
                },
                AppCommand::PageDown => {
                    &&& final(self).deep_view() == nav_outcome(old(self).deep_view(), AppCommand::PageDown)
                    &&& r.1 is Nothing
                },
                AppCommand::Home => {
                    &&& final(self).deep_view() == nav_outcome(old(self).deep_view(), AppCommand::Home)
                    &&& r.1 is Nothing
                },
                AppCommand::End => {
                    &&& final(self).deep_view() == nav_outcome(old(self).deep_view(), AppCommand::End)
                    &&& r.1 is Nothing
                },
            },
    {
        let ghost pre = self.deep_view();
        match command {
            AppCommand::Quit => {
                self.should_quit = true;
                (true, FetchAction::Nothing)
            },
            AppCommand::Refresh => {
                let action = self.refresh(now);
                (true, action)
            },
            AppCommand::CycleMode => {
                let action = self.cycle_view_mode();
                (true, action)
            },
            AppCommand::MoveUp => {
                if self.repositories.len() > 0 && self.selected_repository > 0 {
                    self.selected_repository = self.selected_repository - 1;
                    self.ensure_selected_visible(DEFAULT_VISIBLE_ITEMS);
                }
                proof {
                    assert(self.deep_view() =~= nav_outcome(pre, AppCommand::MoveUp));
                }
                (true, FetchAction::Nothing)
            },
            AppCommand::MoveDown => {
                if self.repositories.len() > 0 && self.selected_repository < self.repositories.len() - 1 {
                    self.selected_repository = self.selected_repository + 1;
                    self.ensure_selected_visible(DEFAULT_VISIBLE_ITEMS);
                }
                proof {
                    assert(self.deep_view() =~= nav_outcome(pre, AppCommand::MoveDown));
                }
                (true, FetchAction::Nothing)
            },
            AppCommand::PageUp => {
                if self.repositories.len() > 0 {
                    if self.selected_repository >= DEFAULT_VISIBLE_ITEMS {
                        self.selected_repository = self.selected_repository - DEFAULT_VISIBLE_ITEMS;
                    } else {
                        self.selected_repository = 0;
                    }
                    self.ensure_selected_visible(DEFAULT_VISIBLE_ITEMS);
                }
                proof {
                    assert(self.deep_view() =~= nav_outcome(pre, AppCommand::PageUp));
                }
                (true, FetchAction::Nothing)
            },
            AppCommand::PageDown => {
                if self.repositories.len() > 0 {
                    if self.repositories.len() >= DEFAULT_VISIBLE_ITEMS
                        && self.selected_repository < self.repositories.len() - DEFAULT_VISIBLE_ITEMS {
                        self.selected_repository = self.selected_repository + DEFAULT_VISIBLE_ITEMS;
                    } else {
                        self.selected_repository = self.repositories.len() - 1;
                    }
                    self.ensure_selected_visible(DEFAULT_VISIBLE_ITEMS);
                }
                proof {
                    assert(self.deep_view() =~= nav_outcome(pre, AppCommand::PageDown));
                }
                (true, FetchAction::Nothing)
            },
            AppCommand::Home => {
                if self.repositories.len() > 0 {
                    self.selected_repository = 0;
                    self.scroll_offset = 0;
                }
                proof {
                    assert(self.deep_view() =~= nav_outcome(pre, AppCommand::Home));
                }
                (true, FetchAction::Nothing)
            },
            AppCommand::End => {
                if self.repositories.len() > 0 {
                    self.selected_repository = self.repositories.len() - 1;
                    self.ensure_selected_visible(DEFAULT_VISIBLE_ITEMS);
                }
                proof {
                    assert(self.deep_view() =~= nav_outcome(pre, AppCommand::End));
                }
                (true, FetchAction::Nothing)
            },
        }
    }

    /// Drain a batch of background messages into the state, applying them
    /// in order at time `now`.
    pub fn process_background_messages(&mut self, messages: Vec<BackgroundMessage>, now: u64)
        requires
            old(self).wf(),
        ensures
            final(self).wf(),
            final(self).deep_view() == spec_apply_all(old(self).deep_view(), messages.deep_view(), now),
    {
        let ghost pre = self.deep_view();
        let ghost all = messages.deep_view();
        let mut queue = messages;
        proof {
            assert(spec_apply_all(pre, all, now) == spec_apply_all(self.deep_view(), queue.deep_view(), now));
        }
        while queue.len() > 0
            invariant
                self.wf(),
                spec_apply_all(pre, all, now) == spec_apply_all(self.deep_view(), queue.deep_view(), now),
            decreases queue.len(),
        {
            let ghost qv = queue.deep_view();
            let message = queue.remove(0);
            proof {
                assert(message.deep_view() == qv[0]);
                assert forall|j: int| 0 <= j < queue@.len() implies queue.deep_view()[j] == qv.drop_first()[j] by {
                    assert(queue.deep_view()[j] == queue@[j].deep_view());
                }
                assert(queue.deep_view() =~= qv.drop_first());
            }
            self.apply_message(message, now);
        }
        proof {
            assert(queue.deep_view() =~= Seq::<MessageView>::empty());
        }
    }
}

/// Abstract input commands, mapped from raw input by the surrounding
/// program; each maps to one state or navigation operation.
#[derive(Debug, Clone, Copy, PartialEq, Eq, Structural)]
pub enum AppCommand {
    Quit,
    Refresh,
    CycleMode,
    MoveUp,
    MoveDown,
    PageUp,
    PageDown,
    Home,
    End,
}

/// How many list rows navigation assumes to be visible.
pub const DEFAULT_VISIBLE_ITEMS: usize = 10;

/// State after a fetch cycle for the current mode was kicked off: list
/// cleared, phase 1 starting, error gone, cursor at the top.
pub open spec fn fetch_initiated(s: AppStateView) -> AppStateView {
    AppStateView {
        repositories: Seq::empty(),
        load_phase: LoadPhaseView::FetchingBasic(0, 0),
        error_message: Option::None,
        selected_repository: 0,
        scroll_offset: 0,
        ..s
    }
}

/// Whether a returned action correctly starts a cycle for the current
/// mode of `s`: a fetch for exactly that mode when a provider handle
/// exists, nothing otherwise.
pub open spec fn fetch_action_ok(s: AppStateView, r: FetchAction) -> bool {
    if s.client_available {
        r matches FetchAction::StartFetch(m) && m.key() == s.repo_view_mode
    } else {
        r is Nothing
    }
}

/// State after `refresh` at time `now`: the time noted, the current
/// mode's cache entry evicted, and, with a provider handle, a new cycle
/// kicked off.
pub open spec fn refresh_outcome(s: AppStateView, now: u64) -> AppStateView {
    let mid = AppStateView { last_refresh: Option::Some(now), cache: s.cache.remove(s.repo_view_mode), ..s };
    if s.client_available {
        fetch_initiated(mid)
    } else {
        mid
    }
}

/// State after installing the current mode's view: its cached list shown
/// as complete, or a new cycle kicked off, or — cacheless and without a
/// provider — nothing.
pub open spec fn switch_outcome(s: AppStateView) -> AppStateView {
    if s.cache.contains_key(s.repo_view_mode) {
        AppStateView {
            repositories: s.cache[s.repo_view_mode],
            load_phase: LoadPhaseView::Complete,
            selected_repository: clamp_selected(s.cache[s.repo_view_mode].len(), s.selected_repository),
            ..s
        }
    } else if s.client_available {
        fetch_initiated(s)
    } else {
        s
    }
}

/// State after stepping the mode cycle once: the next index modulo
/// personal-plus-organizations, and the mode it denotes.
pub open spec fn cycled_state(s: AppStateView) -> AppStateView {
    let next = ((s.current_org_index + 1) % (s.user_organizations.len() as int + 1)) as usize;
    AppStateView {
        current_org_index: next,
        repo_view_mode: if next == 0 {
            Option::None
        } else {
            Option::Some(s.user_organizations[next - 1])
        },
        ..s
    }
}

/// State after one navigation command over a window of
/// [`DEFAULT_VISIBLE_ITEMS`] rows; an empty list leaves everything
/// unchanged.
pub open spec fn nav_outcome(s: AppStateView, command: AppCommand) -> AppStateView {
    let len = s.repositories.len() as int;
    let sel = s.selected_repository as int;
    let window = DEFAULT_VISIBLE_ITEMS as int;
    if len == 0 {
        s
    } else {
        match command {
            AppCommand::MoveUp => if sel > 0 {
                reselected(s, (sel - 1) as usize)
            } else {
                s
            },
            AppCommand::MoveDown => if sel < len - 1 {
                reselected(s, (sel + 1) as usize)
            } else {
                s
            },
            AppCommand::PageUp => if sel >= window {
                reselected(s, (sel - window) as usize)
            } else {
                reselected(s, 0)
            },
            AppCommand::PageDown => if sel + window < len {
                reselected(s, (sel + window) as usize)
            } else {
                reselected(s, (len - 1) as usize)
            },
            AppCommand::Home => AppStateView { selected_repository: 0, scroll_offset: 0, ..s },
            AppCommand::End => reselected(s, (len - 1) as usize),
            _ => s,
        }
    }
}

/// `s` with the selection moved to `sel` and the window scrolled to keep
/// it visible.
pub open spec fn reselected(s: AppStateView, sel: usize) -> AppStateView {
    AppStateView {
        selected_repository: sel,
        scroll_offset: ensure_visible_scroll(s.scroll_offset, sel, DEFAULT_VISIBLE_ITEMS),
        ..s
    }
}

/// The selection after "next": one further, wrapping to the start.
pub open spec fn next_selected(len: int, selected: usize) -> usize {
    if len > 0 {
        ((selected + 1) % len) as usize
    } else {
        selected
    }
}

/// The selection after "previous": one back, wrapping to the end.
pub open spec fn previous_selected(len: int, selected: usize) -> usize {
    if len > 0 {
        if selected == 0 {
            (len - 1) as usize
        } else {
            (selected - 1) as usize
        }
    } else {
        selected
    }
}

/// Repositories with at least one open pull request.
pub open spec fn count_active(rs: Seq<RepositoryView>) -> nat
    decreases rs.len(),
{
    if rs.len() == 0 {
        0
    } else {
        count_active(rs.drop_last()) + if rs.last().open_pull_requests.len() > 0 {
            1nat
        } else {
            0nat
        }
    }
}

/// The characters of `get_title_with_stats`.
pub open spec fn title_with_stats_spec(s: AppStateView) -> Seq<char> {
    if s.repositories.len() == 0 && !(s.load_phase is FetchingBasic) {
        s.title + " — No repositories found"@
    } else if s.load_phase is FetchingBasic {
        s.title + " — Loading..."@
    } else {
        s.title + " — "@ + decimal_seq(s.repositories.len()) + " repos ("@ + decimal_seq(
            count_active(s.repositories),
        ) + " active)"@
    }
}

/// The scroll offset after scrolling down one row: one further, unless
/// the end of the list is already visible.
pub open spec fn scroll_down_result(len: int, scroll: usize, visible: usize) -> usize {
    let max_scroll = if len >= visible as int {
        len - visible as int
    } else {
        0
    };
    if (scroll as int) < max_scroll {
        (scroll + 1) as usize
    } else {
        scroll
    }
}

/// The scroll offset that brings the selected row into a window of
/// `visible` rows: the selected row itself when it lies above the window,
/// the offset that puts it on the last row when it lies below, and the
/// old offset when it is already visible.
pub open spec fn ensure_visible_scroll(scroll: usize, selected: usize, visible: usize) -> usize {
    if selected < scroll {
        selected
    } else if selected as int >= scroll as int + visible as int {
        (selected as int - visible as int + 1) as usize
    } else {
        scroll
    }
}

/// The first position of `list` holding a repository named like
/// `pattern`, if any.
fn find_first_name(list: &Vec<Repository>, pattern: &Repository) -> (r: Option<usize>)
    ensures
        match r {
            Option::Some(i) => is_first_name_index(list.deep_view(), pattern.deep_view().name, i as int),
            Option::None => !has_name(list.deep_view(), pattern.deep_view().name),
        },
{
    let len = list.len();
    let mut i: usize = 0;
    while i < len
        invariant
            len == list@.len(),
            0 <= i <= len,
            forall|j: int| 0 <= j < i ==> #[trigger] list.deep_view()[j].name != pattern.deep_view().name,
        decreases len - i,
    {
        if list[i].name == pattern.name {
            proof {
                assert(list.deep_view()[i as int] == list@[i as int].deep_view());
            }
            return Option::Some(i);
        }
        proof {
            assert(list.deep_view()[i as int] == list@[i as int].deep_view());
        }
        i = i + 1;
    }
    Option::None
}

} // verus!
