use repo_health::cache::RepositoryViewMode;
use repo_health::messages::BackgroundMessage;
use repo_health::models::Repository;
use repo_health::state::{App, AppCommand, AppView, FetchAction, LoadPhase};

fn repo(name: &str, stars: u32) -> Repository {
    let mut r = Repository::new(name.to_string(), "me".to_string());
    r.stars = stars;
    r
}

fn loaded_app(names: &[&str]) -> App {
    let mut app = App::new();
    let list: Vec<Repository> = names.iter().map(|n| repo(n, 0)).collect();
    let total = list.len();
    app.apply_message(BackgroundMessage::FetchStarted { total }, 5);
    app.apply_message(BackgroundMessage::FetchCompleted { repositories: list }, 5);
    app
}

#[test]
fn test_app_creation() {
    let app = App::new();
    assert!(!app.should_quit());
    assert_eq!(app.current_view, AppView::Dashboard);
}

#[test]
fn test_quit_key_handling() {
    let mut app = App::new();

    let (handled, _) = app.handle_key_event(AppCommand::Quit, 0);
    assert!(handled);
    assert!(app.should_quit());
}

#[test]
fn test_refresh_key_handling() {
    let mut app = App::new();

    let (handled, _) = app.handle_key_event(AppCommand::Refresh, 42);
    assert!(handled);
    assert!(app.last_refresh.is_some());
}

#[test]
fn test_end_to_end_cycle() {
    // Empty state in personal mode; one full cycle of messages in
    // emission order, where enrichment replaced A by A'.
    let mut app = App::new();
    app.set_client_available(true);
    assert!(matches!(app.load_phase, LoadPhase::Idle));

    let a = repo("a", 0);
    let b = repo("b", 0);
    let mut a_enhanced = repo("a", 7);
    a_enhanced.latest_commit_at = Some(123);

    app.apply_message(BackgroundMessage::FetchStarted { total: 2 }, 10);
    assert!(app.is_loading());
    assert_eq!(app.loading_progress(), Some((0, 2)));

    app.apply_message(
        BackgroundMessage::RepositoryFetched { repository: a.clone(), current: 1, total: 2 },
        10,
    );
    assert_eq!(app.repository_count(), 1);
    assert_eq!(app.loading_progress(), Some((1, 2)));

    app.apply_message(
        BackgroundMessage::RepositoryFetched { repository: b.clone(), current: 2, total: 2 },
        10,
    );
    assert_eq!(app.repository_count(), 2);

    app.apply_message(
        BackgroundMessage::FetchCompleted { repositories: vec![a.clone(), b.clone()] },
        11,
    );
    assert!(matches!(app.load_phase, LoadPhase::BasicLoaded));
    assert!(!app.is_loading());
    assert_eq!(app.last_refresh, Some(11));

    app.apply_message(BackgroundMessage::EnhancementStarted { total: 2 }, 12);
    assert!(app.is_enhancing());
    assert_eq!(app.enhancement_progress(), Some((0, 2)));

    app.apply_message(
        BackgroundMessage::RepositoryEnhanced { repository: a_enhanced.clone(), current: 1, total: 2 },
        12,
    );
    assert_eq!(app.repository_count(), 2);
    assert_eq!(app.repositories[0].stars, 7);

    app.apply_message(
        BackgroundMessage::EnhancementCompleted {
            repositories: vec![a_enhanced.clone(), b.clone()],
        },
        13,
    );

    // Final list is [A', B], the phase is complete, and the personal
    // cache entry equals the final list.
    assert!(matches!(app.load_phase, LoadPhase::Complete));
    assert_eq!(app.repository_count(), 2);
    assert_eq!(app.repositories[0].name, "a");
    assert_eq!(app.repositories[0].stars, 7);
    assert_eq!(app.repositories[0].latest_commit_at, Some(123));
    assert_eq!(app.repositories[1].name, "b");
    let cached = app.cache.lookup(&RepositoryViewMode::Personal).expect("personal cache entry");
    assert_eq!(cached.len(), 2);
    assert_eq!(cached[0].name, "a");
    assert_eq!(cached[0].stars, 7);
    assert_eq!(cached[1].name, "b");
}

#[test]
fn test_process_background_messages_in_order() {
    let mut app = App::new();
    let batch = vec![
        BackgroundMessage::FetchStarted { total: 1 },
        BackgroundMessage::RepositoryFetched { repository: repo("only", 1), current: 1, total: 1 },
        BackgroundMessage::FetchCompleted { repositories: vec![repo("only", 1)] },
    ];
    app.process_background_messages(batch, 99);
    assert_eq!(app.repository_count(), 1);
    assert!(matches!(app.load_phase, LoadPhase::BasicLoaded));
    assert_eq!(app.last_refresh, Some(99));
}

#[test]
fn test_enhanced_replaces_entry_by_name() {
    let mut app = loaded_app(&["x", "y", "z"]);
    let replacement = repo("y", 42);
    app.apply_message(
        BackgroundMessage::RepositoryEnhanced { repository: replacement, current: 1, total: 3 },
        0,
    );
    // Same length, the named entry replaced, the others untouched.
    assert_eq!(app.repository_count(), 3);
    assert_eq!(app.repositories[0].name, "x");
    assert_eq!(app.repositories[0].stars, 0);
    assert_eq!(app.repositories[1].name, "y");
    assert_eq!(app.repositories[1].stars, 42);
    assert_eq!(app.repositories[2].name, "z");
}

#[test]
fn test_enhanced_absent_name_ignored() {
    let mut app = loaded_app(&["x", "y"]);
    let stray = repo("not-there", 9);
    app.apply_message(
        BackgroundMessage::RepositoryEnhanced { repository: stray, current: 1, total: 2 },
        0,
    );
    assert_eq!(app.repository_count(), 2);
    assert_eq!(app.repositories[0].name, "x");
    assert_eq!(app.repositories[1].name, "y");
    assert_eq!(app.repositories[0].stars, 0);
    assert_eq!(app.repositories[1].stars, 0);
}

#[test]
fn test_fetch_error_surfaces_message() {
    let mut app = loaded_app(&["x"]);
    app.apply_message(BackgroundMessage::FetchError { error: "listing failed".to_string() }, 0);
    assert!(matches!(app.load_phase, LoadPhase::Failed(_)));
    assert_eq!(app.get_error_message(), Some("listing failed"));
    // The list the user already sees is kept.
    assert_eq!(app.repository_count(), 1);
    app.clear_error();
    assert_eq!(app.get_error_message(), None);
}

#[test]
fn test_switch_with_cache_hit_is_synchronous() {
    // The mode has a cache entry: switching installs it at once, the
    // phase becomes complete, and no fetch is requested.
    let mut app = App::new();
    app.set_client_available(true);
    app.cache.insert(&RepositoryViewMode::Personal, vec![repo("cached", 3)]);
    let action = app.switch_to_current_view();
    assert!(matches!(action, FetchAction::Nothing));
    assert!(matches!(app.load_phase, LoadPhase::Complete));
    assert_eq!(app.repository_count(), 1);
    assert_eq!(app.repositories[0].name, "cached");
}

#[test]
fn test_switch_without_cache_starts_fetch() {
    let mut app = App::new();
    app.set_client_available(true);
    let action = app.switch_to_current_view();
    assert!(matches!(action, FetchAction::StartFetch(RepositoryViewMode::Personal)));
    assert!(matches!(app.load_phase, LoadPhase::FetchingBasic(0, 0)));
    assert_eq!(app.repository_count(), 0);
}

#[test]
fn test_refresh_evicts_cache_until_completion() {
    let mut app = App::new();
    app.set_client_available(true);
    app.cache.insert(&RepositoryViewMode::Personal, vec![repo("old", 1)]);
    assert!(app.cache.lookup(&RepositoryViewMode::Personal).is_some());

    let action = app.refresh(50);
    assert!(matches!(action, FetchAction::StartFetch(RepositoryViewMode::Personal)));
    // The entry is gone, and stays gone through the next cycle's
    // non-completion events.
    assert!(app.cache.lookup(&RepositoryViewMode::Personal).is_none());
    app.apply_message(BackgroundMessage::FetchStarted { total: 1 }, 51);
    assert!(app.cache.lookup(&RepositoryViewMode::Personal).is_none());
    app.apply_message(
        BackgroundMessage::RepositoryFetched { repository: repo("new", 2), current: 1, total: 1 },
        51,
    );
    assert!(app.cache.lookup(&RepositoryViewMode::Personal).is_none());
    // Only the completion writes it back.
    app.apply_message(BackgroundMessage::FetchCompleted { repositories: vec![repo("new", 2)] }, 52);
    let cached = app.cache.lookup(&RepositoryViewMode::Personal).expect("rewritten entry");
    assert_eq!(cached[0].name, "new");
}

#[test]
fn test_refresh_without_client_only_evicts() {
    let mut app = App::new();
    app.cache.insert(&RepositoryViewMode::Personal, vec![repo("old", 1)]);
    let action = app.refresh(7);
    assert!(matches!(action, FetchAction::Nothing));
    assert!(app.cache.lookup(&RepositoryViewMode::Personal).is_none());
    assert_eq!(app.last_refresh, Some(7));
}

#[test]
fn test_cycle_with_no_organizations_requests_fetch() {
    let mut app = App::new();
    app.set_client_available(true);
    let action = app.cycle_view_mode();
    assert!(matches!(action, FetchAction::FetchOrganizations));
    assert!(matches!(app.repo_view_mode, RepositoryViewMode::Personal));

    // Without a provider handle there is nothing to do.
    let mut offline = App::new();
    let action = offline.cycle_view_mode();
    assert!(matches!(action, FetchAction::Nothing));
}

#[test]
fn test_cycle_walks_personal_and_organizations() {
    let mut app = App::new();
    app.set_client_available(true);
    app.apply_message(
        BackgroundMessage::OrganizationsFetched {
            organizations: vec!["alpha".to_string(), "beta".to_string()],
        },
        0,
    );
    assert_eq!(app.organization_count(), 2);

    let action = app.cycle_view_mode();
    match &app.repo_view_mode {
        RepositoryViewMode::Organization(name) => assert_eq!(name, "alpha"),
        RepositoryViewMode::Personal => panic!("expected an organization mode"),
    }
    assert!(matches!(action, FetchAction::StartFetch(_)));
    assert_eq!(app.selected_repository(), 0);

    app.cycle_view_mode();
    match &app.repo_view_mode {
        RepositoryViewMode::Organization(name) => assert_eq!(name, "beta"),
        RepositoryViewMode::Personal => panic!("expected an organization mode"),
    }

    app.cycle_view_mode();
    assert!(matches!(app.repo_view_mode, RepositoryViewMode::Personal));
}

#[test]
fn test_cycle_uses_cached_organization_list() {
    let mut app = App::new();
    app.set_client_available(true);
    app.apply_message(
        BackgroundMessage::OrganizationsFetched { organizations: vec!["alpha".to_string()] },
        0,
    );
    app.cache.insert(
        &RepositoryViewMode::Organization("alpha".to_string()),
        vec![repo("org-repo", 5)],
    );
    let action = app.cycle_view_mode();
    assert!(matches!(action, FetchAction::Nothing));
    assert!(matches!(app.load_phase, LoadPhase::Complete));
    assert_eq!(app.repositories[0].name, "org-repo");
}

#[test]
fn test_navigation_moves_and_heals_scroll() {
    let names: Vec<String> = (0..25).map(|i| format!("r{}", i)).collect();
    let name_refs: Vec<&str> = names.iter().map(|s| s.as_str()).collect();
    let mut app = loaded_app(&name_refs);
    assert_eq!(app.selected_repository(), 0);

    app.handle_key_event(AppCommand::MoveUp, 0);
    assert_eq!(app.selected_repository(), 0);

    app.handle_key_event(AppCommand::MoveDown, 0);
    assert_eq!(app.selected_repository(), 1);
    assert_eq!(app.scroll_offset, 0);

    app.handle_key_event(AppCommand::End, 0);
    assert_eq!(app.selected_repository(), 24);
    // 24 is brought onto the last row of a 10-row window.
    assert_eq!(app.scroll_offset, 15);

    app.handle_key_event(AppCommand::PageUp, 0);
    assert_eq!(app.selected_repository(), 14);
    assert_eq!(app.scroll_offset, 14);

    app.handle_key_event(AppCommand::PageUp, 0);
    assert_eq!(app.selected_repository(), 4);
    assert_eq!(app.scroll_offset, 4);

    app.handle_key_event(AppCommand::PageDown, 0);
    assert_eq!(app.selected_repository(), 14);

    app.handle_key_event(AppCommand::PageDown, 0);
    assert_eq!(app.selected_repository(), 24);

    app.handle_key_event(AppCommand::Home, 0);
    assert_eq!(app.selected_repository(), 0);
    assert_eq!(app.scroll_offset, 0);
}

#[test]
fn test_ensure_visible_is_idempotent() {
    let mut app = loaded_app(&["a", "b", "c", "d", "e"]);
    app.selected_repository = 4;
    app.scroll_offset = 0;
    app.ensure_selected_visible(2);
    let once = (app.selected_repository, app.scroll_offset);
    app.ensure_selected_visible(2);
    let twice = (app.selected_repository, app.scroll_offset);
    assert_eq!(once, twice);
    assert_eq!(once, (4, 3));

    // Selected above the window.
    app.selected_repository = 1;
    app.ensure_selected_visible(2);
    assert_eq!(app.scroll_offset, 1);
    app.ensure_selected_visible(2);
    assert_eq!(app.scroll_offset, 1);
}

#[test]
fn test_wrapping_selection() {
    let mut app = loaded_app(&["a", "b", "c"]);
    app.select_next_repository();
    assert_eq!(app.selected_repository(), 1);
    app.select_next_repository();
    app.select_next_repository();
    assert_eq!(app.selected_repository(), 0);
    app.select_previous_repository();
    assert_eq!(app.selected_repository(), 2);
}

#[test]
fn test_scrolling_bounds() {
    let mut app = loaded_app(&["a", "b", "c", "d"]);
    app.scroll_up();
    assert_eq!(app.scroll_offset, 0);
    app.scroll_down(2);
    assert_eq!(app.scroll_offset, 1);
    app.scroll_down(2);
    assert_eq!(app.scroll_offset, 2);
    // The last repository is visible: no further.
    app.scroll_down(2);
    assert_eq!(app.scroll_offset, 2);
    app.scroll_up();
    assert_eq!(app.scroll_offset, 1);
}

#[test]
fn test_title_and_stats() {
    let mut app = App::new();
    assert_eq!(app.get_title(), "❤️ Repo Health Dashboard ❤️");
    assert_eq!(
        app.get_title_with_stats(),
        "❤️ Repo Health Dashboard ❤️ — No repositories found"
    );

    app.apply_message(BackgroundMessage::FetchStarted { total: 2 }, 0);
    assert_eq!(app.get_title_with_stats(), "❤️ Repo Health Dashboard ❤️ — Loading...");

    let mut with_pr = repo("a", 0);
    with_pr.open_pull_requests = vec![repo_health::models::PullRequest {
        number: 1,
        title: "t".to_string(),
        state: repo_health::models::PullRequestState::Open,
        created_at: 0,
        updated_at: 0,
        author: "x".to_string(),
        html_url: String::new(),
        draft: false,
        approvals: 0,
        changes_requested: 0,
    }];
    app.apply_message(
        BackgroundMessage::FetchCompleted { repositories: vec![with_pr, repo("b", 0)] },
        0,
    );
    assert_eq!(
        app.get_title_with_stats(),
        "❤️ Repo Health Dashboard ❤️ — 2 repos (1 active)"
    );
}

#[test]
fn test_progress_setters() {
    let mut app = App::new();
    app.set_loading_progress(3, 9);
    assert!(app.is_loading());
    assert_eq!(app.loading_progress(), Some((3, 9)));
    app.clear_loading_progress();
    assert_eq!(app.loading_progress(), Some((0, 0)));
    assert_eq!(app.get_visible_item_count(12), 11);
    assert_eq!(app.get_visible_item_count(1), 0);
}

#[test]
fn test_selection_healed_when_list_shrinks() {
    let mut app = loaded_app(&["a", "b", "c", "d", "e"]);
    app.handle_key_event(AppCommand::End, 0);
    assert_eq!(app.selected_repository(), 4);
    // A new, shorter list arrives: the cursor is pulled back inside.
    app.apply_message(BackgroundMessage::FetchCompleted { repositories: vec![repo("solo", 0)] }, 1);
    assert_eq!(app.selected_repository(), 0);
    // And an empty one rests the cursor at zero.
    app.apply_message(BackgroundMessage::FetchCompleted { repositories: Vec::new() }, 2);
    assert_eq!(app.selected_repository(), 0);
}

#[test]
fn test_organizations_side_channel() {
    let mut app = App::new();
    app.apply_message(BackgroundMessage::OrganizationsFetchStarted, 0);
    assert!(app.is_fetching_organizations());
    app.apply_message(
        BackgroundMessage::OrganizationsFetched { organizations: vec!["one".to_string()] },
        0,
    );
    assert!(!app.is_fetching_organizations());
    assert_eq!(app.organization_count(), 1);
    // The load phase is untouched by the side channel.
    assert!(matches!(app.load_phase, LoadPhase::Idle));
}
