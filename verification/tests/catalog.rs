use wine_cask::app::{AppState, UpdaterState};
use wine_cask::cache::{CacheProbe, CatalogAction, CatalogEvent, CatalogLookup, FRESHNESS_WINDOW_SECS};
use wine_cask::flavors::{CompatibilityToolFlavor, Flavor};
use wine_cask::github_util::{
    clone_releases, GitHubUtilError, PageBody, PageOutcome, PagerStep, Release, ReleasePager,
    Response,
};

fn release(tag: &str) -> Release {
    Release {
        url: format!("https://api.example/releases/{}", tag),
        id: 1,
        draft: false,
        prerelease: false,
        name: format!("Release {}", tag),
        tag_name: tag.to_string(),
        assets: Vec::new(),
        created_at: String::new(),
        published_at: String::new(),
        tarball_url: String::new(),
        body: String::new(),
    }
}

fn releases(tags: &[&str]) -> Vec<Release> {
    tags.iter().map(|tag| release(tag)).collect()
}

fn tags(list: &[Release]) -> Vec<String> {
    list.iter().map(|release| release.tag_name.clone()).collect()
}

fn found(age_secs: u64) -> CacheProbe {
    CacheProbe::Found { modified: 1_700_000_000, age_secs: Some(age_secs) }
}

fn failed() -> CatalogEvent {
    CatalogEvent::Fetched {
        result: Err(GitHubUtilError::RequestError("connection refused".to_string())),
        now: 1_700_100_000,
    }
}

fn body(text: &str, list: Option<Vec<Release>>, refusal: Option<&str>) -> PageOutcome {
    PageOutcome::Body(PageBody {
        text: text.to_string(),
        releases: list,
        refusal: refusal.map(|message| Response { message: message.to_string() }),
    })
}

#[test]
fn the_freshness_window_is_twenty_three_and_a_half_hours() {
    assert_eq!(FRESHNESS_WINDOW_SECS, 84_600);
    assert_eq!(FRESHNESS_WINDOW_SECS, 23 * 3600 + 30 * 60);
}

#[test]
fn a_fresh_cache_is_served_without_fetching() {
    for age in [0, 1, 84_599] {
        let mut state = AppState::new();
        let (lookup, action) = CatalogLookup::begin(false, found(age), &mut state);
        assert!(matches!(action, CatalogAction::ReadCache));
        assert_eq!(state.updater_last_check, Some(1_700_000_000));
        let (_, action) =
            lookup.advance(CatalogEvent::CacheRead(Some(releases(&["a", "b"]))), &mut state);
        match action {
            CatalogAction::Finish(Some(list)) => assert_eq!(tags(&list), vec!["a", "b"]),
            other => panic!("unexpected {:?}", other),
        }
        assert_eq!(state.updater_last_check, Some(1_700_000_000));
    }
}

#[test]
fn an_old_cache_is_refetched() {
    for age in [84_600, 84_601, 1_000_000, u64::MAX] {
        let mut state = AppState::new();
        state.updater_last_check = Some(9);
        let (_, action) = CatalogLookup::begin(false, found(age), &mut state);
        assert!(matches!(action, CatalogAction::Fetch));
        assert_eq!(state.updater_last_check, Some(9));
    }
}

#[test]
fn a_missing_cache_is_fetched() {
    let mut state = AppState::new();
    let (_, action) = CatalogLookup::begin(false, CacheProbe::Missing, &mut state);
    assert!(matches!(action, CatalogAction::Fetch));
    assert_eq!(state.updater_last_check, None);
}

#[test]
fn a_forced_lookup_always_fetches() {
    for probe in [
        CacheProbe::Missing,
        CacheProbe::Unreadable,
        found(0),
        found(1_000_000),
        CacheProbe::Found { modified: 5, age_secs: None },
    ] {
        let mut state = AppState::new();
        let (_, action) = CatalogLookup::begin(true, probe, &mut state);
        assert!(matches!(action, CatalogAction::Fetch));
        assert_eq!(state.updater_last_check, None);
    }
}

#[test]
fn a_cache_of_unknown_age_is_refetched() {
    for probe in [CacheProbe::Unreadable, CacheProbe::Found { modified: 5, age_secs: None }] {
        let mut state = AppState::new();
        state.updater_last_check = Some(9);
        let (lookup, action) = CatalogLookup::begin(false, probe, &mut state);
        assert!(matches!(action, CatalogAction::Fetch));
        assert_eq!(state.updater_last_check, Some(9));
        let (_, action) = lookup
            .advance(CatalogEvent::Fetched { result: Ok(releases(&["n"])), now: 77 }, &mut state);
        match action {
            CatalogAction::Persist(list) => assert_eq!(tags(&list), vec!["n"]),
            other => panic!("unexpected {:?}", other),
        }
        assert_eq!(state.updater_last_check, Some(77));
    }
}

#[test]
fn an_empty_fresh_cache_counts_as_damaged() {
    let mut state = AppState::new();
    let (lookup, _) = CatalogLookup::begin(false, found(10), &mut state);
    let (lookup, action) = lookup.advance(CatalogEvent::CacheRead(Some(Vec::new())), &mut state);
    assert!(matches!(action, CatalogAction::Fetch));
    let (lookup, action) = lookup.advance(
        CatalogEvent::Fetched { result: Ok(releases(&["a"])), now: 1_700_100_000 },
        &mut state,
    );
    match action {
        CatalogAction::Persist(list) => assert_eq!(tags(&list), vec!["a"]),
        other => panic!("unexpected {:?}", other),
    }
    assert_eq!(state.updater_last_check, Some(1_700_100_000));
    let (_, action) = lookup.advance(CatalogEvent::Persisted(true), &mut state);
    match action {
        CatalogAction::Finish(Some(list)) => assert_eq!(tags(&list), vec!["a"]),
        other => panic!("unexpected {:?}", other),
    }
}

#[test]
fn an_unreadable_fresh_cache_is_refetched() {
    let mut state = AppState::new();
    let (lookup, action) = CatalogLookup::begin(false, found(10), &mut state);
    assert!(matches!(action, CatalogAction::ReadCache));
    let (lookup, action) = lookup.advance(CatalogEvent::CacheRead(None), &mut state);
    assert!(matches!(action, CatalogAction::Fetch));
    let (lookup, action) = lookup.advance(
        CatalogEvent::Fetched { result: Ok(releases(&["n1", "n2"])), now: 1_700_100_000 },
        &mut state,
    );
    match action {
        CatalogAction::Persist(list) => assert_eq!(tags(&list), vec!["n1", "n2"]),
        other => panic!("unexpected {:?}", other),
    }
    let (_, action) = lookup.advance(CatalogEvent::Persisted(true), &mut state);
    match action {
        CatalogAction::Finish(Some(list)) => assert_eq!(tags(&list), vec!["n1", "n2"]),
        other => panic!("unexpected {:?}", other),
    }
    assert_eq!(state.updater_last_check, Some(1_700_100_000));
}

#[test]
fn an_unreadable_fresh_cache_is_read_again_when_the_fetch_fails() {
    let mut state = AppState::new();
    let (lookup, _) = CatalogLookup::begin(false, found(10), &mut state);
    let (lookup, _) = lookup.advance(CatalogEvent::CacheRead(None), &mut state);
    let (lookup, action) = lookup.advance(failed(), &mut state);
    assert!(matches!(action, CatalogAction::ReadCache));
    let (_, action) = lookup.advance(CatalogEvent::CacheRead(None), &mut state);
    assert!(matches!(action, CatalogAction::Finish(None)));
}

#[test]
fn a_failed_fetch_falls_back_to_the_cache() {
    let mut state = AppState::new();
    state.updater_last_check = Some(9);
    let (lookup, action) = CatalogLookup::begin(false, found(500_000), &mut state);
    assert!(matches!(action, CatalogAction::Fetch));
    let (lookup, action) = lookup.advance(failed(), &mut state);
    assert!(matches!(action, CatalogAction::ReadCache));
    assert_eq!(state.updater_last_check, Some(1_700_000_000));
    let (_, action) = lookup.advance(CatalogEvent::CacheRead(Some(releases(&["old"]))), &mut state);
    match action {
        CatalogAction::Finish(Some(list)) => assert_eq!(tags(&list), vec!["old"]),
        other => panic!("unexpected {:?}", other),
    }
    assert_eq!(state.updater_last_check, Some(1_700_000_000));
}

#[test]
fn a_stale_cache_is_served_even_when_empty() {
    let mut state = AppState::new();
    let (lookup, _) = CatalogLookup::begin(true, found(5), &mut state);
    let (lookup, _) = lookup.advance(failed(), &mut state);
    let (_, action) = lookup.advance(CatalogEvent::CacheRead(Some(Vec::new())), &mut state);
    match action {
        CatalogAction::Finish(Some(list)) => assert!(list.is_empty()),
        other => panic!("unexpected {:?}", other),
    }
}

#[test]
fn a_failed_fetch_without_a_cache_gives_nothing() {
    for renew in [true, false] {
        let mut state = AppState::new();
        state.updater_last_check = Some(9);
        let (lookup, action) = CatalogLookup::begin(renew, CacheProbe::Missing, &mut state);
        assert!(matches!(action, CatalogAction::Fetch));
        let (_, action) = lookup.advance(failed(), &mut state);
        assert!(matches!(action, CatalogAction::Finish(None)));
        assert_eq!(state.updater_last_check, Some(9));
    }
}

#[test]
fn a_failed_fetch_falls_back_to_a_cache_of_unknown_age() {
    let mut state = AppState::new();
    state.updater_last_check = Some(9);
    let (lookup, _) = CatalogLookup::begin(false, CacheProbe::Unreadable, &mut state);
    let (lookup, action) = lookup.advance(failed(), &mut state);
    assert!(matches!(action, CatalogAction::ReadCache));
    assert_eq!(state.updater_last_check, Some(9));
    let (_, action) = lookup.advance(CatalogEvent::CacheRead(Some(releases(&["old"]))), &mut state);
    match action {
        CatalogAction::Finish(Some(list)) => assert_eq!(tags(&list), vec!["old"]),
        other => panic!("unexpected {:?}", other),
    }
    assert_eq!(state.updater_last_check, Some(9));

    let mut state = AppState::new();
    let probe = CacheProbe::Found { modified: 5, age_secs: None };
    let (lookup, _) = CatalogLookup::begin(false, probe, &mut state);
    let (lookup, action) = lookup.advance(failed(), &mut state);
    assert!(matches!(action, CatalogAction::ReadCache));
    assert_eq!(state.updater_last_check, Some(5));
    let (_, action) = lookup.advance(CatalogEvent::CacheRead(None), &mut state);
    assert!(matches!(action, CatalogAction::Finish(None)));
}

#[test]
fn an_empty_answer_gives_nothing_and_is_not_cached() {
    let mut state = AppState::new();
    let (lookup, _) = CatalogLookup::begin(true, found(5), &mut state);
    let (_, action) =
        lookup.advance(CatalogEvent::Fetched { result: Ok(Vec::new()), now: 77 }, &mut state);
    assert!(matches!(action, CatalogAction::Finish(None)));
    assert_eq!(state.updater_last_check, None);
}

#[test]
fn a_catalog_that_cannot_be_cached_is_not_served() {
    let mut state = AppState::new();
    let (lookup, _) = CatalogLookup::begin(true, CacheProbe::Missing, &mut state);
    let (lookup, _) = lookup
        .advance(CatalogEvent::Fetched { result: Ok(releases(&["a"])), now: 77 }, &mut state);
    assert_eq!(state.updater_last_check, Some(77));
    let (_, action) = lookup.advance(CatalogEvent::Persisted(false), &mut state);
    assert!(matches!(action, CatalogAction::Finish(None)));
}

#[test]
fn a_report_out_of_turn_ends_the_lookup() {
    let mut state = AppState::new();
    let (lookup, _) = CatalogLookup::begin(true, found(5), &mut state);
    let (lookup, action) = lookup.advance(CatalogEvent::Persisted(true), &mut state);
    assert!(matches!(action, CatalogAction::Finish(None)));
    let (_, action) =
        lookup.advance(CatalogEvent::CacheRead(Some(releases(&["a"]))), &mut state);
    assert!(matches!(action, CatalogAction::Finish(None)));
}

#[test]
fn the_updater_state_brackets_a_refresh() {
    let mut state = AppState::new();
    state.begin_flavor_check();
    assert_eq!(state.updater_state, UpdaterState::Checking);
    assert!(state.flavors.is_empty());
    state.finish_flavor_check(vec![
        Flavor::from_lookup(CompatibilityToolFlavor::ProtonGE, Some(releases(&["a"]))),
        Flavor::from_lookup(CompatibilityToolFlavor::Boxtron, None),
    ]);
    assert_eq!(state.updater_state, UpdaterState::Idle);
    assert_eq!(state.flavors.len(), 2);
    assert_eq!(tags(&state.flavors[0].releases), vec!["a"]);
    assert!(state.flavors[1].releases.is_empty());
    assert!(state.available_flavors.is_empty());
}

#[test]
fn pages_are_asked_for_in_turn() {
    let pager = ReleasePager::new("GloriousEggroll", "proton-ge-custom");
    assert_eq!(
        pager.page_url(),
        "https://api.github.com/repos/GloriousEggroll/proton-ge-custom/releases?per_page=100&page=1"
    );
    let pager = match pager.advance(body("[...]", Some(releases(&["a", "b"])), None)) {
        PagerStep::Fetch(pager) => pager,
        other => panic!("unexpected {:?}", other),
    };
    assert_eq!(
        pager.page_url(),
        "https://api.github.com/repos/GloriousEggroll/proton-ge-custom/releases?per_page=100&page=2"
    );
    let pager = match pager.advance(body("[...]", Some(releases(&["c"])), None)) {
        PagerStep::Fetch(pager) => pager,
        other => panic!("unexpected {:?}", other),
    };
    assert!(pager.page_url().ends_with("&page=3"));
    match pager.advance(body("[]", Some(Vec::new()), Some("ignored"))) {
        PagerStep::Done(all) => assert_eq!(tags(&all), vec!["a", "b", "c"]),
        other => panic!("unexpected {:?}", other),
    }
}

#[test]
fn an_empty_first_page_ends_the_listing() {
    match ReleasePager::new("o", "r").advance(body("[]", Some(Vec::new()), None)) {
        PagerStep::Done(all) => assert!(all.is_empty()),
        other => panic!("unexpected {:?}", other),
    }
}

#[test]
fn listing_failures() {
    let pager = || match ReleasePager::new("o", "r").advance(body("", Some(releases(&["a"])), None))
    {
        PagerStep::Fetch(pager) => pager,
        other => panic!("unexpected {:?}", other),
    };
    match pager().advance(body("{\"message\":\"slow down\"}", None, Some("slow down"))) {
        PagerStep::Failed(GitHubUtilError::RateLimitError(message)) => {
            assert_eq!(message, "slow down")
        }
        other => panic!("unexpected {:?}", other),
    }
    match pager().advance(body("<html>", None, None)) {
        PagerStep::Failed(GitHubUtilError::JsonParsingError(text)) => assert_eq!(text, "<html>"),
        other => panic!("unexpected {:?}", other),
    }
    match pager().advance(PageOutcome::Refused("404 Not Found".to_string())) {
        PagerStep::Failed(GitHubUtilError::RequestError(text)) => {
            assert_eq!(text, "Failed to fetch releases: 404 Not Found")
        }
        other => panic!("unexpected {:?}", other),
    }
    match pager().advance(PageOutcome::Transport("dns error".to_string())) {
        PagerStep::Failed(GitHubUtilError::RequestError(text)) => assert_eq!(text, "dns error"),
        other => panic!("unexpected {:?}", other),
    }
}

#[test]
fn catalog_error_messages() {
    assert_eq!(
        GitHubUtilError::RequestError("timeout".to_string()).message(),
        "Request Error: timeout"
    );
    assert_eq!(
        GitHubUtilError::JsonParsingError("<html>".to_string()).message(),
        "Failed to parse Json: <html>"
    );
    assert_eq!(
        GitHubUtilError::RateLimitError("slow down".to_string()).message(),
        "Failed to parse Json: slow down"
    );
    assert_eq!(GitHubUtilError::from_transport("dns".to_string()).message(), "Request Error: dns");
}

#[test]
fn copies_are_deep() {
    let mut first = releases(&["a", "b"]);
    let copy = clone_releases(&first);
    first[0].tag_name.push_str("-changed");
    assert_eq!(tags(&copy), vec!["a", "b"]);
    assert_eq!(format!("{:?}", copy[1]), format!("{:?}", first[1]));
}
