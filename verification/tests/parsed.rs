use wine_cask::steam_util::{
    DescriptorFile, LibraryScan, ManifestFile, ParsedDescriptor, ParsedLibrary, ParsedManifest,
    SteamUtil, SteamUtilError,
};
use wine_cask::vdf::{VdfEntry, VdfValue};

fn text(value: &str) -> VdfValue {
    VdfValue::Str(value.to_string())
}

fn block(entries: Vec<(&str, VdfValue)>) -> VdfValue {
    VdfValue::Obj(
        entries
            .into_iter()
            .map(|(key, value)| VdfEntry { key: key.to_string(), values: vec![value] })
            .collect(),
    )
}

fn descriptor(internal: &str, display: &str) -> VdfValue {
    block(vec![(
        "compat_tools",
        block(vec![(
            internal,
            block(vec![
                ("display_name", text(display)),
                ("from_oslist", text("windows")),
                ("install_path", text(".")),
                ("to_oslist", text("linux")),
            ]),
        )]),
    )])
}

fn manifest(app_id: &str, name: &str) -> VdfValue {
    block(vec![("appid", text(app_id)), ("name", text(name))])
}

fn parsed_descriptor(parsed: Option<Result<VdfValue, String>>, directory: &str) -> ParsedDescriptor {
    ParsedDescriptor {
        parsed,
        path: Some(format!("/tools/{}", directory)),
        directory_name: Some(directory.to_string()),
    }
}

fn parsed_manifest(name: &str, parsed: Option<Result<VdfValue, String>>) -> ParsedManifest {
    ParsedManifest { name: name.to_string(), parsed }
}

#[test]
fn a_tool_is_read_from_a_tree() {
    let tool = SteamUtil::compatibility_tool_from_parsed(
        &Ok(descriptor("GE-Proton8-3", "GE Proton 8.3")),
        Some("/tools/GE-Proton8-3".to_string()),
        Some("GE-Proton8-3".to_string()),
    )
    .unwrap();
    assert_eq!(tool.path, "/tools/GE-Proton8-3");
    assert_eq!(tool.directory_name, "GE-Proton8-3");
    assert_eq!(tool.internal_name, "GE-Proton8-3");
    assert_eq!(tool.display_name, "GE Proton 8.3");
    assert_eq!(tool.from_os_list, "windows");
    assert_eq!(tool.to_os_list, "linux");
}

#[test]
fn the_parsers_words_become_a_parsing_error() {
    match SteamUtil::compatibility_tool_from_parsed(
        &Err("line 3: expected a value".to_string()),
        Some("/tools/x".to_string()),
        Some("x".to_string()),
    ) {
        Err(SteamUtilError::VdfParsingError(why)) => assert_eq!(why, "line 3: expected a value"),
        other => panic!("unexpected {:?}", other),
    }
    match SteamUtil::steam_app_from_parsed(&Err("no document".to_string())) {
        Err(SteamUtilError::VdfParsingError(why)) => assert_eq!(why, "no document"),
        other => panic!("unexpected {:?}", other),
    }
    match SteamUtil::library_folders_from_parsed(true, &Some(Err("no document".to_string()))) {
        Err(SteamUtilError::VdfParsingError(why)) => assert_eq!(why, "no document"),
        other => panic!("unexpected {:?}", other),
    }
    match SteamUtil::compatibility_tools_mappings_from_parsed(
        &Some(Err("no document".to_string())),
        "/steam/config/config.vdf",
    ) {
        Err(SteamUtilError::VdfParsingError(why)) => assert_eq!(why, "/steam/config/config.vdf"),
        other => panic!("unexpected {:?}", other),
    }
}

#[test]
fn tools_are_listed_from_what_the_parser_made_of_each_file() {
    let files = vec![
        parsed_descriptor(None, "a"),
        parsed_descriptor(Some(Ok(descriptor("b-internal", "B"))), "b"),
        parsed_descriptor(Some(Err("broken".to_string())), "c"),
        parsed_descriptor(Some(Ok(text("no block"))), "d"),
        ParsedDescriptor {
            parsed: Some(Ok(descriptor("e-internal", "E"))),
            path: None,
            directory_name: None,
        },
        parsed_descriptor(Some(Ok(descriptor("f-internal", "F"))), "f"),
    ];
    let tools = SteamUtil::compatibility_tools_from_parsed(&files);
    let names: Vec<&str> = tools.iter().map(|tool| tool.internal_name.as_str()).collect();
    assert_eq!(names, vec!["b-internal", "f-internal"]);
    assert_eq!(tools[0].path, "/tools/b");
    assert_eq!(tools[1].directory_name, "f");
    assert!(SteamUtil::compatibility_tools_from_parsed(&Vec::new()).is_empty());
}

#[test]
fn every_descriptor_with_a_text_is_parsed() {
    let files = vec![
        DescriptorFile {
            text: Some("\"root\" { \"compat_tools\" { } }".to_string()),
            path: Some("/t/a".to_string()),
            directory_name: Some("a".to_string()),
        },
        DescriptorFile { text: None, path: Some("/t/b".to_string()), directory_name: None },
        DescriptorFile { text: Some("{".to_string()), path: None, directory_name: None },
    ];
    let parsed = SteamUtil::parse_descriptors(&files);
    assert_eq!(parsed.len(), 3);
    assert!(matches!(parsed[0].parsed, Some(Ok(_))));
    assert_eq!(parsed[0].path.as_deref(), Some("/t/a"));
    assert_eq!(parsed[0].directory_name.as_deref(), Some("a"));
    assert!(parsed[1].parsed.is_none());
    assert_eq!(parsed[1].path.as_deref(), Some("/t/b"));
    assert!(parsed[1].directory_name.is_none());
    assert!(matches!(parsed[2].parsed, Some(Err(_))));
    assert!(parsed[2].path.is_none());
}

#[test]
fn the_tool_mapping_is_read_from_a_tree() {
    let entry = |name: &str| block(vec![("config", text("")), ("name", text(name))]);
    let config = block(vec![(
        "Software",
        block(vec![(
            "Valve",
            block(vec![(
                "Steam",
                block(vec![(
                    "CompatToolMapping",
                    block(vec![
                        ("1145360", entry("Tool-2")),
                        ("620", entry("")),
                        ("730", entry("Tool-1")),
                    ]),
                )]),
            )]),
        )]),
    )]);
    let mapping =
        SteamUtil::compatibility_tools_mappings_from_parsed(&Some(Ok(config)), "config.vdf").unwrap();
    assert_eq!(mapping.len(), 2);
    assert_eq!(mapping[&730], "Tool-1");
    assert_eq!(mapping[&1145360], "Tool-2");
    assert!(matches!(
        SteamUtil::compatibility_tools_mappings_from_parsed(&None, "config.vdf"),
        Err(SteamUtilError::SteamConfigVdfNotFound)
    ));
    match SteamUtil::compatibility_tools_mappings_from_parsed(&Some(Ok(text("x"))), "config.vdf") {
        Err(error) => assert_eq!(error.message(), "Missing VDF entry: Software object not found"),
        Ok(mapping) => panic!("read {:?}", mapping),
    }
}

#[test]
fn library_folders_are_read_from_a_tree() {
    let folder = |path: &str| block(vec![("label", text("")), ("path", text(path))]);
    let list = block(vec![("0", folder("/a")), ("1", folder("")), ("2", folder("/b"))]);
    assert_eq!(
        SteamUtil::library_folders_from_parsed(true, &Some(Ok(list))).unwrap(),
        vec!["/a", "/b"]
    );
    let list = block(vec![("0", folder("/a"))]);
    assert!(matches!(
        SteamUtil::library_folders_from_parsed(false, &Some(Ok(list))),
        Err(SteamUtilError::SteamAppsDirectoryNotFound)
    ));
    assert!(matches!(
        SteamUtil::library_folders_from_parsed(false, &None),
        Err(SteamUtilError::SteamAppsDirectoryNotFound)
    ));
    assert!(matches!(
        SteamUtil::library_folders_from_parsed(true, &None),
        Err(SteamUtilError::LibraryFoldersVdfNotFound)
    ));
    match SteamUtil::library_folders_from_parsed(true, &Some(Ok(text("x")))) {
        Err(error) => assert_eq!(error.message(), "Failed to parse VDF file: Invalid VDF structure"),
        Ok(folders) => panic!("read {:?}", folders),
    }
}

#[test]
fn a_game_is_read_from_a_tree() {
    let app = SteamUtil::steam_app_from_parsed(&Ok(manifest("1145360", "Hades"))).unwrap();
    assert_eq!(app.app_id, 1145360);
    assert_eq!(app.name, "Hades");
    match SteamUtil::steam_app_from_parsed(&Ok(manifest("x", "Hades"))) {
        Err(error) => assert_eq!(error.message(), "Missing VDF entry: appid"),
        Ok(app) => panic!("read {:?}", app),
    }
    match SteamUtil::steam_app_from_parsed(&Ok(block(vec![("appid", text("7"))]))) {
        Err(error) => assert_eq!(error.message(), "Missing VDF entry: name"),
        Ok(app) => panic!("read {:?}", app),
    }
}

#[test]
fn games_are_listed_from_what_the_parser_made_of_each_manifest() {
    let files = vec![
        parsed_manifest("notes.txt", Some(Ok(manifest("1", "One")))),
        parsed_manifest("appmanifest_2.acf", None),
        parsed_manifest("appmanifest_3.acf", Some(Err("broken".to_string()))),
        parsed_manifest("appmanifest_4.acf", Some(Ok(manifest("4", "Four")))),
        parsed_manifest("appmanifest_5.acf", Some(Ok(manifest("five", "Five")))),
        parsed_manifest("appmanifest_6.acf", Some(Ok(manifest("6", "Six")))),
    ];
    let names: Vec<String> =
        SteamUtil::installed_games_in(&files).into_iter().map(|app| app.name).collect();
    assert_eq!(names, vec!["Four", "Six"]);
    assert!(SteamUtil::installed_games_in(&Vec::new()).is_empty());
}

#[test]
fn games_are_listed_folder_by_folder() {
    let file = |id: &str, name: &str| {
        parsed_manifest(&format!("appmanifest_{}.acf", id), Some(Ok(manifest(id, name))))
    };
    let scans = vec![
        ParsedLibrary { found: true, files: vec![file("1", "One")] },
        ParsedLibrary { found: false, files: vec![file("2", "Two")] },
        ParsedLibrary { found: true, files: Vec::new() },
        ParsedLibrary { found: true, files: vec![file("3", "Three"), file("4", "Four")] },
    ];
    let names: Vec<String> =
        SteamUtil::installed_games_from_parsed(&scans).into_iter().map(|app| app.name).collect();
    assert_eq!(names, vec!["One", "Three", "Four"]);
    assert!(SteamUtil::installed_games_from_parsed(&Vec::new()).is_empty());
}

#[test]
fn only_manifests_with_a_text_are_parsed() {
    let files = vec![
        ManifestFile { name: "notes.txt".to_string(), text: Some("\"a\" \"b\"".to_string()) },
        ManifestFile { name: "appmanifest_2.acf".to_string(), text: None },
        ManifestFile { name: "appmanifest_3.acf".to_string(), text: Some("{".to_string()) },
        ManifestFile { name: "appmanifest_4.acf".to_string(), text: Some("\"a\" \"b\"".to_string()) },
    ];
    let parsed = SteamUtil::parse_manifests(&files);
    assert_eq!(parsed.len(), 4);
    let names: Vec<&str> = parsed.iter().map(|file| file.name.as_str()).collect();
    assert_eq!(names, vec!["notes.txt", "appmanifest_2.acf", "appmanifest_3.acf", "appmanifest_4.acf"]);
    assert!(parsed[0].parsed.is_none());
    assert!(parsed[1].parsed.is_none());
    assert!(matches!(parsed[2].parsed, Some(Err(_))));
    assert!(matches!(parsed[3].parsed, Some(Ok(_))));
    let libraries = SteamUtil::parse_libraries(&vec![
        LibraryScan { found: false, files: Vec::new() },
        LibraryScan { found: true, files },
    ]);
    assert_eq!(libraries.len(), 2);
    assert!(!libraries[0].found);
    assert!(libraries[0].files.is_empty());
    assert!(libraries[1].found);
    assert_eq!(libraries[1].files.len(), 4);
}
