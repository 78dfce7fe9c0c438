use std::collections::HashMap;
use wine_cask::app::AppState;
use wine_cask::flavors::{
    CompatibilityToolFlavor, Flavor, SteamClientCompatToolInfo, SteamCompatibilityTool,
};
use wine_cask::github_util::Release;
use wine_cask::reconcile::{
    classify, find_release, get_used_by_games, not_installed_part, registry_knows,
    release_is_installed,
};
use wine_cask::steam_util::{CompatibilityTool, SteamApp};

fn release(tag: &str) -> Release {
    Release {
        url: format!("https://api.example/releases/{}", tag),
        id: 1,
        draft: false,
        prerelease: false,
        name: format!("Release {}", tag),
        tag_name: tag.to_string(),
        assets: Vec::new(),
        created_at: String::new(),
        published_at: String::new(),
        tarball_url: String::new(),
        body: String::new(),
    }
}

fn catalog(flavor: CompatibilityToolFlavor, tags: &[&str]) -> Flavor {
    Flavor { flavor, releases: tags.iter().map(|tag| release(tag)).collect() }
}

fn scanned(directory: &str, internal: &str, display: &str) -> CompatibilityTool {
    CompatibilityTool {
        path: format!("/tools/{}", directory),
        directory_name: directory.to_string(),
        internal_name: internal.to_string(),
        display_name: display.to_string(),
        from_os_list: "windows".to_string(),
        to_os_list: "linux".to_string(),
    }
}

fn tool(internal: &str, display: &str) -> SteamCompatibilityTool {
    SteamCompatibilityTool {
        path: format!("/tools/{}", internal),
        display_name: display.to_string(),
        internal_name: internal.to_string(),
        used_by_games: Vec::new(),
        requires_restart: false,
        flavor: CompatibilityToolFlavor::Unknown,
        github_release: None,
    }
}

fn registry(names: &[&str]) -> Vec<SteamClientCompatToolInfo> {
    names
        .iter()
        .map(|name| SteamClientCompatToolInfo {
            str_tool_name: name.to_string(),
            str_display_name: format!("{} (display)", name),
        })
        .collect()
}

fn games() -> Vec<SteamApp> {
    vec![
        SteamApp { app_id: 1145360, name: "Hades".to_string() },
        SteamApp { app_id: 730, name: "Counter-Strike: Global Offensive".to_string() },
        SteamApp { app_id: 620, name: "Portal 2".to_string() },
    ]
}

fn mapping() -> HashMap<u64, String> {
    let mut mapping = HashMap::new();
    mapping.insert(730, "GE-Proton8-3".to_string());
    mapping.insert(1145360, "Boxtron 0.5.4".to_string());
    mapping.insert(620, "GE-Proton8-3".to_string());
    mapping.insert(999, "GE-Proton8-3".to_string());
    mapping
}

fn tags(flavor: &Flavor) -> Vec<String> {
    flavor.releases.iter().map(|release| release.tag_name.clone()).collect()
}

fn summary(state: &AppState) -> Vec<(String, bool, CompatibilityToolFlavor, Option<String>, Vec<String>)> {
    state
        .installed_compatibility_tools
        .iter()
        .map(|tool| {
            (
                tool.internal_name.clone(),
                tool.requires_restart,
                tool.flavor,
                tool.github_release.as_ref().map(|release| release.tag_name.clone()),
                tool.used_by_games.clone(),
            )
        })
        .collect()
}

fn state_with_catalogs() -> AppState {
    let mut state = AppState::new();
    state.flavors = vec![
        catalog(CompatibilityToolFlavor::ProtonGE, &["GE-Proton8-4", "GE-Proton8-3", "GE-Proton8-2"]),
        catalog(CompatibilityToolFlavor::Luxtorpeda, &["v70", "v69"]),
        catalog(CompatibilityToolFlavor::Boxtron, &["0.5.4"]),
    ];
    state.available_compat_tools = Some(registry(&["GE-Proton8-3", "proton_8"]));
    state
}

fn scan() -> Vec<CompatibilityTool> {
    vec![
        scanned("GE-Proton8-3", "GE-Proton8-3", "GE-Proton8-3"),
        scanned("Boxtron0.5.4", "Boxtron0.5.4", "Boxtron 0.5.4"),
        scanned("custom", "my-own-tool", "My Own Tool"),
        scanned("lux", "something", "Luxtorpeda v69"),
    ]
}

#[test]
fn games_that_use_a_tool() {
    let used = get_used_by_games(
        &mapping(),
        &games(),
        &"GE-Proton8-3".to_string(),
        &"ge-internal".to_string(),
    );
    assert_eq!(used, vec!["Counter-Strike: Global Offensive", "Portal 2"]);
    let by_internal = get_used_by_games(
        &mapping(),
        &games(),
        &"Some display".to_string(),
        &"Boxtron 0.5.4".to_string(),
    );
    assert_eq!(by_internal, vec!["Hades"]);
    let unused =
        get_used_by_games(&mapping(), &games(), &"nothing".to_string(), &"nothing".to_string());
    assert!(unused.is_empty());
    let no_games =
        get_used_by_games(&mapping(), &Vec::new(), &"GE-Proton8-3".to_string(), &"x".to_string());
    assert!(no_games.is_empty());
    let no_mapping =
        get_used_by_games(&HashMap::new(), &games(), &"GE-Proton8-3".to_string(), &"x".to_string());
    assert!(no_mapping.is_empty());
}

#[test]
fn the_registry_is_searched_by_internal_name() {
    let known = Some(registry(&["a", "b"]));
    assert!(registry_knows(&known, &"a".to_string()));
    assert!(registry_knows(&known, &"b".to_string()));
    assert!(!registry_knows(&known, &"c".to_string()));
    assert!(!registry_knows(&known, &"a (display)".to_string()));
    assert!(!registry_knows(&Some(Vec::new()), &"a".to_string()));
    assert!(!registry_knows(&None, &"a".to_string()));
}

#[test]
fn the_first_matching_release_is_found() {
    let mut boxtron = catalog(CompatibilityToolFlavor::Boxtron, &["0.5.3", "0.5.4", "0.5.4"]);
    boxtron.releases[2].id = 99;
    assert_eq!(
        find_release(&boxtron, &"Boxtron0.5.4".to_string(), &"whatever".to_string()),
        Some(1)
    );
    assert_eq!(
        find_release(&boxtron, &"whatever".to_string(), &"Boxtron 0.5.3".to_string()),
        Some(0)
    );
    assert_eq!(find_release(&boxtron, &"0.5.4".to_string(), &"0.5.4".to_string()), None);
    let proton = catalog(CompatibilityToolFlavor::ProtonGE, &["GE-Proton8-3"]);
    assert_eq!(
        find_release(&proton, &"GE-Proton8-3".to_string(), &"x".to_string()),
        Some(0)
    );
    assert_eq!(find_release(&proton, &"x".to_string(), &"y".to_string()), None);
}

#[test]
fn a_later_catalog_overrides_an_earlier_match() {
    let catalogs = vec![
        catalog(CompatibilityToolFlavor::ProtonGE, &["Boxtron0.5.4"]),
        catalog(CompatibilityToolFlavor::Luxtorpeda, &["v1"]),
        catalog(CompatibilityToolFlavor::Boxtron, &["0.5.4"]),
    ];
    let classified = classify(tool("Boxtron0.5.4", "Boxtron 0.5.4"), &catalogs);
    assert_eq!(classified.flavor, CompatibilityToolFlavor::Boxtron);
    assert_eq!(classified.github_release.unwrap().tag_name, "0.5.4");
    let only_first = classify(tool("Boxtron0.5.4", "x"), &catalogs[..1].to_vec());
    assert_eq!(only_first.flavor, CompatibilityToolFlavor::ProtonGE);
    let unmatched = classify(tool("nothing", "nothing"), &catalogs);
    assert_eq!(unmatched.flavor, CompatibilityToolFlavor::Unknown);
    assert!(unmatched.github_release.is_none());
}

#[test]
fn the_catalog_is_split_by_what_is_installed() {
    let tools = vec![tool("GE-Proton8-3", "GE-Proton8-3"), tool("x", "Luxtorpeda v69")];
    assert!(release_is_installed(
        CompatibilityToolFlavor::ProtonGE,
        &"GE-Proton8-3".to_string(),
        &tools
    ));
    assert!(!release_is_installed(
        CompatibilityToolFlavor::ProtonGE,
        &"GE-Proton8-4".to_string(),
        &tools
    ));
    assert!(release_is_installed(CompatibilityToolFlavor::Luxtorpeda, &"v69".to_string(), &tools));
    assert!(!release_is_installed(CompatibilityToolFlavor::Boxtron, &"v69".to_string(), &tools));
    let part = not_installed_part(
        &catalog(CompatibilityToolFlavor::ProtonGE, &["GE-Proton8-4", "GE-Proton8-3", "GE-Proton8-2"]),
        &tools,
    );
    assert_eq!(part.flavor, CompatibilityToolFlavor::ProtonGE);
    assert_eq!(tags(&part), vec!["GE-Proton8-4", "GE-Proton8-2"]);
}

#[test]
fn reconciliation_rebuilds_the_installed_tools() {
    let mut state = state_with_catalogs();
    state.installed_compatibility_tools = vec![tool("gone", "Gone")];
    state.updater_last_check = Some(5);
    state.sync_backend_with_installed_compat_tools(&scan(), &mapping(), &games());
    assert_eq!(
        summary(&state),
        vec![
            (
                "GE-Proton8-3".to_string(),
                false,
                CompatibilityToolFlavor::ProtonGE,
                Some("GE-Proton8-3".to_string()),
                vec!["Counter-Strike: Global Offensive".to_string(), "Portal 2".to_string()],
            ),
            (
                "Boxtron0.5.4".to_string(),
                true,
                CompatibilityToolFlavor::Boxtron,
                Some("0.5.4".to_string()),
                vec!["Hades".to_string()],
            ),
            ("my-own-tool".to_string(), true, CompatibilityToolFlavor::Unknown, None, vec![]),
            (
                "something".to_string(),
                true,
                CompatibilityToolFlavor::Luxtorpeda,
                Some("v69".to_string()),
                vec![],
            ),
        ]
    );
    assert_eq!(state.installed_compatibility_tools[0].path, "/tools/GE-Proton8-3");
    assert_eq!(state.installed_compatibility_tools[3].display_name, "Luxtorpeda v69");
    assert_eq!(state.available_flavors.len(), 3);
    assert_eq!(state.available_flavors[0].flavor, CompatibilityToolFlavor::ProtonGE);
    assert_eq!(tags(&state.available_flavors[0]), vec!["GE-Proton8-4", "GE-Proton8-2"]);
    assert_eq!(state.available_flavors[1].flavor, CompatibilityToolFlavor::Luxtorpeda);
    assert_eq!(tags(&state.available_flavors[1]), vec!["v70"]);
    assert_eq!(state.available_flavors[2].flavor, CompatibilityToolFlavor::Boxtron);
    assert!(state.available_flavors[2].releases.is_empty());
    assert_eq!(state.flavors.len(), 3);
    assert_eq!(tags(&state.flavors[0]), vec!["GE-Proton8-4", "GE-Proton8-3", "GE-Proton8-2"]);
    assert_eq!(state.updater_last_check, Some(5));
    assert!(state.task_queue.is_empty());
    assert!(state.in_progress.is_none());
}

#[test]
fn reconciling_twice_changes_nothing() {
    let mut state = state_with_catalogs();
    state.sync_backend_with_installed_compat_tools(&scan(), &mapping(), &games());
    let once = format!("{:?}", state);
    state.sync_backend_with_installed_compat_tools(&scan(), &mapping(), &games());
    let twice = format!("{:?}", state);
    assert_eq!(once, twice);
}

#[test]
fn without_a_registry_every_tool_needs_a_restart() {
    let mut state = state_with_catalogs();
    state.available_compat_tools = None;
    state.sync_backend_with_installed_compat_tools(&scan(), &mapping(), &games());
    assert!(state.installed_compatibility_tools.iter().all(|tool| tool.requires_restart));
}

#[test]
fn a_vanished_tool_leaves_the_list() {
    let mut state = state_with_catalogs();
    state.sync_backend_with_installed_compat_tools(&scan(), &mapping(), &games());
    assert_eq!(state.installed_compatibility_tools.len(), 4);
    state.sync_backend_with_installed_compat_tools(&scan()[1..].to_vec(), &mapping(), &games());
    assert_eq!(state.installed_compatibility_tools.len(), 3);
    assert_eq!(state.installed_compatibility_tools[0].internal_name, "Boxtron0.5.4");
    assert_eq!(
        tags(&state.available_flavors[0]),
        vec!["GE-Proton8-4", "GE-Proton8-3", "GE-Proton8-2"]
    );
}

#[test]
fn a_reported_registry_is_stored_before_reconciling() {
    let mut state = state_with_catalogs();
    state.process_frontend_compat_tools_update(
        registry(&["my-own-tool"]),
        &scan(),
        &mapping(),
        &games(),
    );
    assert_eq!(state.available_compat_tools.as_ref().unwrap().len(), 1);
    let flags: Vec<bool> =
        state.installed_compatibility_tools.iter().map(|tool| tool.requires_restart).collect();
    assert_eq!(flags, vec![true, true, false, true]);
}

#[test]
fn usage_is_looked_up_anew() {
    let mut state = state_with_catalogs();
    state.sync_backend_with_installed_compat_tools(&scan(), &HashMap::new(), &games());
    assert!(state.installed_compatibility_tools.iter().all(|tool| tool.used_by_games.is_empty()));
    let before = summary(&state);
    state.update_used_by_games(&mapping(), &games());
    let after = summary(&state);
    assert_eq!(after[0].4, vec!["Counter-Strike: Global Offensive", "Portal 2"]);
    assert_eq!(after[1].4, vec!["Hades"]);
    assert!(after[2].4.is_empty());
    for (old, new) in before.iter().zip(after.iter()) {
        assert_eq!((&old.0, old.1, old.2, &old.3), (&new.0, new.1, new.2, &new.3));
    }
}

#[test]
fn listing_knows_nothing_but_names_and_usage() {
    let listed = AppState::list_compatibility_tools(&scan(), &mapping(), &games());
    assert_eq!(listed.len(), 4);
    for tool in &listed {
        assert!(!tool.requires_restart);
        assert_eq!(tool.flavor, CompatibilityToolFlavor::Unknown);
        assert!(tool.github_release.is_none());
    }
    assert_eq!(listed[1].path, "/tools/Boxtron0.5.4");
    assert_eq!(listed[1].internal_name, "Boxtron0.5.4");
    assert_eq!(listed[1].display_name, "Boxtron 0.5.4");
    assert_eq!(listed[1].used_by_games, vec!["Hades"]);
}
