use repo_health::cache::{RepositoryViewMode, ViewModeCache};
use repo_health::models::Repository;

fn repo(name: &str) -> Repository {
    Repository::new(name.to_string(), "me".to_string())
}

fn org(name: &str) -> RepositoryViewMode {
    RepositoryViewMode::Organization(name.to_string())
}

#[test]
fn test_cache_keys_modes_independently() {
    let mut cache = ViewModeCache::new();
    assert!(cache.lookup(&RepositoryViewMode::Personal).is_none());
    assert!(cache.lookup(&org("alpha")).is_none());

    cache.insert(&RepositoryViewMode::Personal, vec![repo("mine")]);
    cache.insert(&org("alpha"), vec![repo("a1"), repo("a2")]);
    cache.insert(&org("beta"), vec![repo("b1")]);

    assert_eq!(cache.lookup(&RepositoryViewMode::Personal).unwrap()[0].name, "mine");
    assert_eq!(cache.lookup(&org("alpha")).unwrap().len(), 2);
    assert_eq!(cache.lookup(&org("beta")).unwrap()[0].name, "b1");
}

#[test]
fn test_cache_insert_overwrites() {
    let mut cache = ViewModeCache::new();
    cache.insert(&org("alpha"), vec![repo("old")]);
    cache.insert(&org("alpha"), vec![repo("new"), repo("newer")]);
    let entry = cache.lookup(&org("alpha")).unwrap();
    assert_eq!(entry.len(), 2);
    assert_eq!(entry[0].name, "new");
}

#[test]
fn test_cache_remove_is_per_mode() {
    let mut cache = ViewModeCache::new();
    cache.insert(&RepositoryViewMode::Personal, vec![repo("mine")]);
    cache.insert(&org("alpha"), vec![repo("a1")]);
    cache.remove(&org("alpha"));
    assert!(cache.lookup(&org("alpha")).is_none());
    assert!(cache.lookup(&RepositoryViewMode::Personal).is_some());
    cache.remove(&RepositoryViewMode::Personal);
    assert!(cache.lookup(&RepositoryViewMode::Personal).is_none());
    // Removing an absent entry is harmless.
    cache.remove(&org("alpha"));
    assert!(cache.lookup(&org("alpha")).is_none());
}

#[test]
fn test_mode_display_name() {
    assert_eq!(RepositoryViewMode::Personal.display_name(), "Personal");
    assert_eq!(org("acme").display_name(), "Org: acme");
}
