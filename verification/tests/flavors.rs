use wine_cask::flavors::{cache_file_name_of, CompatibilityToolFlavor, Flavor};
use wine_cask::github_util::Release;

fn release(tag: &str) -> Release {
    Release {
        url: format!("https://api.example/releases/{}", tag),
        id: 1,
        draft: false,
        prerelease: false,
        name: tag.to_string(),
        tag_name: tag.to_string(),
        assets: Vec::new(),
        created_at: String::new(),
        published_at: String::new(),
        tarball_url: String::new(),
        body: String::new(),
    }
}

fn matches(flavor: CompatibilityToolFlavor, internal: &str, display: &str, tag: &str) -> bool {
    flavor.matches(&internal.to_string(), &display.to_string(), &tag.to_string())
}

#[test]
fn flavor_names() {
    assert_eq!(CompatibilityToolFlavor::Unknown.name(), "Unknown");
    assert_eq!(CompatibilityToolFlavor::ProtonGE.name(), "ProtonGE");
    assert_eq!(CompatibilityToolFlavor::SteamTinkerLaunch.name(), "SteamTinkerLaunch");
    assert_eq!(CompatibilityToolFlavor::Luxtorpeda.name(), "Luxtorpeda");
    assert_eq!(CompatibilityToolFlavor::Boxtron.name(), "Boxtron");
    assert!(CompatibilityToolFlavor::ProtonGE.is_primary());
    assert!(!CompatibilityToolFlavor::Boxtron.is_primary());
    assert!(!CompatibilityToolFlavor::Unknown.is_primary());
}

#[test]
fn flavor_sources() {
    assert_eq!(
        CompatibilityToolFlavor::ProtonGE.source(),
        Some(("GloriousEggroll", "proton-ge-custom"))
    );
    assert_eq!(
        CompatibilityToolFlavor::SteamTinkerLaunch.source(),
        Some(("sonic2kk", "steamtinkerlaunch"))
    );
    assert_eq!(CompatibilityToolFlavor::Luxtorpeda.source(), Some(("luxtorpeda-dev", "luxtorpeda")));
    assert_eq!(CompatibilityToolFlavor::Boxtron.source(), Some(("dreamer", "boxtron")));
    assert_eq!(CompatibilityToolFlavor::Unknown.source(), None);
    assert_eq!(
        CompatibilityToolFlavor::catalogued(),
        vec![
            CompatibilityToolFlavor::ProtonGE,
            CompatibilityToolFlavor::Luxtorpeda,
            CompatibilityToolFlavor::Boxtron
        ]
    );
}

#[test]
fn cache_file_is_named_after_the_source() {
    assert_eq!(
        cache_file_name_of("GloriousEggroll", "proton-ge-custom"),
        "github_releases_GloriousEggroll_proton-ge-custom_cache.json"
    );
    assert_eq!(cache_file_name_of("dreamer", "boxtron"), "github_releases_dreamer_boxtron_cache.json");
}

#[test]
fn canonical_names_differ_by_one_space() {
    let flavor = CompatibilityToolFlavor::Luxtorpeda;
    assert_eq!(flavor.internal_name_for("v1.2"), "Luxtorpedav1.2");
    assert_eq!(flavor.display_name_for("v1.2"), "Luxtorpeda v1.2");
    assert_eq!(CompatibilityToolFlavor::Boxtron.internal_name_for("0.5.4"), "Boxtron0.5.4");
    assert_eq!(CompatibilityToolFlavor::Boxtron.display_name_for("0.5.4"), "Boxtron 0.5.4");
}

#[test]
fn secondary_flavor_matches_by_canonical_names() {
    let flavor = CompatibilityToolFlavor::Boxtron;
    assert!(matches(flavor, "Boxtronv1.2", "anything", "v1.2"));
    assert!(matches(flavor, "anything", "Boxtron v1.2", "v1.2"));
    assert!(matches(flavor, "Boxtronv1.2", "Boxtron v1.2", "v1.2"));
}

#[test]
fn secondary_flavor_rejects_other_spellings() {
    let flavor = CompatibilityToolFlavor::Boxtron;
    assert!(!matches(flavor, "Boxtron v1.2", "Boxtronv1.2", "v1.2"));
    assert!(!matches(flavor, "v1.2", "v1.2", "v1.2"));
    assert!(!matches(flavor, "boxtronv1.2", "boxtron v1.2", "v1.2"));
    assert!(!matches(flavor, "Boxtron-v1.2", "Boxtron  v1.2", "v1.2"));
    assert!(!matches(flavor, "Boxtronv1.2 ", "Boxtron v1.2 ", "v1.2"));
    assert!(!matches(flavor, "Luxtorpedav1.2", "Luxtorpeda v1.2", "v1.2"));
    assert!(!matches(flavor, "Boxtronv1.3", "Boxtron v1.3", "v1.2"));
    assert!(!matches(flavor, "", "", "v1.2"));
}

#[test]
fn primary_flavor_matches_the_tag_itself() {
    let flavor = CompatibilityToolFlavor::ProtonGE;
    assert!(matches(flavor, "GE-Proton8-3", "whatever", "GE-Proton8-3"));
    assert!(matches(flavor, "whatever", "GE-Proton8-3", "GE-Proton8-3"));
    assert!(!matches(flavor, "ProtonGEGE-Proton8-3", "ProtonGE GE-Proton8-3", "GE-Proton8-3"));
    assert!(!matches(flavor, "GE-Proton8-4", "GE-Proton8-4", "GE-Proton8-3"));
}

#[test]
fn an_empty_lookup_gives_an_empty_catalog() {
    let empty = Flavor::from_lookup(CompatibilityToolFlavor::Boxtron, None);
    assert_eq!(empty.flavor, CompatibilityToolFlavor::Boxtron);
    assert!(empty.releases.is_empty());
    let found = Flavor::from_lookup(
        CompatibilityToolFlavor::ProtonGE,
        Some(vec![release("a"), release("b")]),
    );
    assert_eq!(found.flavor, CompatibilityToolFlavor::ProtonGE);
    assert_eq!(found.releases.len(), 2);
    assert_eq!(found.releases[0].tag_name, "a");
    assert_eq!(found.releases[1].tag_name, "b");
}
