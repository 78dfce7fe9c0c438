use std::collections::HashMap;
use wine_cask::app::AppState;
use wine_cask::flavors::{CompatibilityToolFlavor, SteamCompatibilityTool};
use wine_cask::steam_util::CompatibilityTool;
use wine_cask::uninstall::{find_uninstall_target, is_same_tool, UninstallError};

fn tool(path: &str, internal: &str, display: &str) -> SteamCompatibilityTool {
    SteamCompatibilityTool {
        path: path.to_string(),
        display_name: display.to_string(),
        internal_name: internal.to_string(),
        used_by_games: Vec::new(),
        requires_restart: false,
        flavor: CompatibilityToolFlavor::Unknown,
        github_release: None,
    }
}

fn installed() -> Vec<SteamCompatibilityTool> {
    vec![
        tool("/tools/a", "a", "Tool A"),
        tool("/tools/b", "b", "Tool B"),
        tool("/tools/dup", "dup", "Twice"),
        tool("/tools/dup", "dup", "Twice"),
    ]
}

fn scanned(name: &str) -> CompatibilityTool {
    CompatibilityTool {
        path: format!("/tools/{}", name),
        directory_name: name.to_string(),
        internal_name: name.to_string(),
        display_name: format!("Tool {}", name.to_uppercase()),
        from_os_list: "windows".to_string(),
        to_os_list: "linux".to_string(),
    }
}

#[test]
fn a_known_tool_gives_its_directory() {
    let mut request = tool("/tools/b", "b", "Tool B");
    request.requires_restart = true;
    request.used_by_games = vec!["Hades".to_string()];
    request.flavor = CompatibilityToolFlavor::Boxtron;
    assert!(is_same_tool(&installed()[1], &request));
    match find_uninstall_target(&installed(), &request) {
        Ok(path) => assert_eq!(path, "/tools/b"),
        Err(error) => panic!("refused: {:?}", error),
    }
}

#[test]
fn an_unknown_triple_is_rejected() {
    let requests = vec![
        tool("/etc", "a", "Tool A"),
        tool("/tools/a", "b", "Tool A"),
        tool("/tools/a", "a", "Tool B"),
        tool("/tools/zzz", "zzz", "Tool ZZZ"),
    ];
    for request in requests {
        let mut state = AppState::new();
        state.installed_compatibility_tools = installed();
        let before = format!("{:?}", state);
        match state.uninstall_compatibility_tool(&request) {
            Err(UninstallError::NotFound(name)) => {
                assert_eq!(name, request.display_name);
                assert_eq!(
                    UninstallError::NotFound(name).notice(),
                    format!("Compatibility tool not found: {}", request.display_name)
                );
            }
            other => panic!("unexpected {:?}", other),
        }
        assert_eq!(format!("{:?}", state), before);
    }
    assert!(matches!(
        find_uninstall_target(&Vec::new(), &tool("/tools/a", "a", "Tool A")),
        Err(UninstallError::NotFound(_))
    ));
}

#[test]
fn an_ambiguous_triple_is_rejected() {
    match find_uninstall_target(&installed(), &tool("/tools/dup", "dup", "Twice")) {
        Err(UninstallError::Ambiguous(count)) => {
            assert_eq!(count, 2);
            assert_eq!(
                UninstallError::Ambiguous(count).notice(),
                "Invalid number of matching tools found: 2"
            );
        }
        other => panic!("unexpected {:?}", other),
    }
}

#[test]
fn a_failed_removal_leaves_the_state_alone() {
    let mut state = AppState::new();
    state.installed_compatibility_tools = installed();
    let before = format!("{:?}", state);
    let notice = state.finish_uninstall(
        Err("Permission denied (os error 13)".to_string()),
        &vec![scanned("a")],
        &HashMap::new(),
        &Vec::new(),
    );
    assert_eq!(
        notice.as_deref(),
        Some("Error during uninstallation: Permission denied (os error 13)")
    );
    assert_eq!(format!("{:?}", state), before);
}

#[test]
fn a_removal_is_followed_by_reconciliation() {
    let mut state = AppState::new();
    state.installed_compatibility_tools = installed();
    let notice = state.finish_uninstall(Ok(()), &vec![scanned("a")], &HashMap::new(), &Vec::new());
    assert!(notice.is_none());
    assert_eq!(state.installed_compatibility_tools.len(), 1);
    assert_eq!(state.installed_compatibility_tools[0].path, "/tools/a");
    assert!(state.installed_compatibility_tools[0].requires_restart);
}
