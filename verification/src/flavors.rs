//! The families of compatibility tools, where each one publishes its releases,
//! and the naming convention that links an installed tool to a release.

use vstd::prelude::*;
use vstd::string::StringExecFns;
use crate::github_util::{clone_releases, Release, ReleaseModel};

verus! {

/// A family of compatibility tools.
///
/// `ProtonGE` is the primary flavor: its archives unpack under the name of the
/// release tag and are installed as they come. Every other known flavor is
/// secondary: its tools are renamed on installation.
#[derive(Clone, Copy, Debug, PartialEq, Eq, Structural)]
pub enum CompatibilityToolFlavor {
    Unknown,
    ProtonGE,
    SteamTinkerLaunch,
    Luxtorpeda,
    Boxtron,
}

/// The name a flavor is written with.
pub open spec fn flavor_name(flavor: CompatibilityToolFlavor) -> Seq<char> {
    match flavor {
        CompatibilityToolFlavor::Unknown => "Unknown"@,
        CompatibilityToolFlavor::ProtonGE => "ProtonGE"@,
        CompatibilityToolFlavor::SteamTinkerLaunch => "SteamTinkerLaunch"@,
        CompatibilityToolFlavor::Luxtorpeda => "Luxtorpeda"@,
        CompatibilityToolFlavor::Boxtron => "Boxtron"@,
    }
}

/// The internal name a secondary flavor's tool is installed under: the
/// flavor's name directly followed by the release tag.
pub open spec fn canonical_internal_name(flavor: CompatibilityToolFlavor, tag: Seq<char>) -> Seq<
    char,
> {
    flavor_name(flavor) + tag
}

/// The display name a secondary flavor's tool is installed under: the
/// flavor's name, one space, the release tag.
pub open spec fn canonical_display_name(flavor: CompatibilityToolFlavor, tag: Seq<char>) -> Seq<
    char,
> {
    flavor_name(flavor) + " "@ + tag
}

/// Whether a tool with these two names is the installed form of the release
/// tagged `tag` of `flavor`.
///
/// For the primary flavor either name equals the tag. For any other flavor the
/// display name is the canonical display name or the internal name is the
/// canonical internal name.
pub open spec fn names_match_tag(
    flavor: CompatibilityToolFlavor,
    internal_name: Seq<char>,
    display_name: Seq<char>,
    tag: Seq<char>,
) -> bool {
    if flavor == CompatibilityToolFlavor::ProtonGE {
        internal_name == tag || display_name == tag
    } else {
        display_name == canonical_display_name(flavor, tag) || internal_name
            == canonical_internal_name(flavor, tag)
    }
}

/// The repository that publishes a flavor's releases: its owner and its name.
pub open spec fn flavor_source(flavor: CompatibilityToolFlavor) -> Option<(Seq<char>, Seq<char>)> {
    match flavor {
        CompatibilityToolFlavor::Unknown => None,
        CompatibilityToolFlavor::ProtonGE => Some(("GloriousEggroll"@, "proton-ge-custom"@)),
        CompatibilityToolFlavor::SteamTinkerLaunch => Some(("sonic2kk"@, "steamtinkerlaunch"@)),
        CompatibilityToolFlavor::Luxtorpeda => Some(("luxtorpeda-dev"@, "luxtorpeda"@)),
        CompatibilityToolFlavor::Boxtron => Some(("dreamer"@, "boxtron"@)),
    }
}

/// The flavors whose catalogs are kept, in the order they are listed.
pub open spec fn catalog_flavors() -> Seq<CompatibilityToolFlavor> {
    seq![
        CompatibilityToolFlavor::ProtonGE,
        CompatibilityToolFlavor::Luxtorpeda,
        CompatibilityToolFlavor::Boxtron,
    ]
}

/// The name of the file that caches the release list of `owner/repository`.
pub open spec fn cache_file_name(owner: Seq<char>, repository: Seq<char>) -> Seq<char> {
    "github_releases_"@ + owner + "_"@ + repository + "_cache.json"@
}

impl CompatibilityToolFlavor {
    /// The name this flavor is written with.
    pub fn name(&self) -> (out: &'static str)
        ensures
            out@ == flavor_name(*self),
    {
        match self {
            CompatibilityToolFlavor::Unknown => "Unknown",
            CompatibilityToolFlavor::ProtonGE => "ProtonGE",
            CompatibilityToolFlavor::SteamTinkerLaunch => "SteamTinkerLaunch",
            CompatibilityToolFlavor::Luxtorpeda => "Luxtorpeda",
            CompatibilityToolFlavor::Boxtron => "Boxtron",
        }
    }

    /// Whether this is the primary flavor.
    pub fn is_primary(&self) -> (out: bool)
        ensures
            out == (*self == CompatibilityToolFlavor::ProtonGE),
    {
        matches!(self, CompatibilityToolFlavor::ProtonGE)
    }

    /// The owner and the name of the repository that publishes this flavor.
    pub fn source(&self) -> (out: Option<(&'static str, &'static str)>)
        ensures
            match out {
                Some((owner, repository)) => flavor_source(*self) == Some(
                    (owner@, repository@),
                ),
                None => flavor_source(*self) is None,
            },
    {
        match self {
            CompatibilityToolFlavor::Unknown => None,
            CompatibilityToolFlavor::ProtonGE => Some(("GloriousEggroll", "proton-ge-custom")),
            CompatibilityToolFlavor::SteamTinkerLaunch => Some(("sonic2kk", "steamtinkerlaunch")),
            CompatibilityToolFlavor::Luxtorpeda => Some(("luxtorpeda-dev", "luxtorpeda")),
            CompatibilityToolFlavor::Boxtron => Some(("dreamer", "boxtron")),
        }
    }

    /// The flavors whose catalogs are kept, in the order they are listed.
    pub fn catalogued() -> (out: Vec<CompatibilityToolFlavor>)
        ensures
            out@ == catalog_flavors(),
    {
        let mut out: Vec<CompatibilityToolFlavor> = Vec::new();
        out.push(CompatibilityToolFlavor::ProtonGE);
        out.push(CompatibilityToolFlavor::Luxtorpeda);
        out.push(CompatibilityToolFlavor::Boxtron);
        out
    }

    /// The internal name under which a tool of this flavor and `tag` is
    /// installed.
    pub fn internal_name_for(&self, tag: &str) -> (out: String)
        ensures
            out@ == canonical_internal_name(*self, tag@),
    {
        String::from_str(self.name()).concat(tag)
    }

    /// The display name under which a tool of this flavor and `tag` is
    /// installed.
    pub fn display_name_for(&self, tag: &str) -> (out: String)
        ensures
            out@ == canonical_display_name(*self, tag@),
    {
        String::from_str(self.name()).concat(" ").concat(tag)
    }

    /// Whether a tool with these two names is the installed form of the
    /// release tagged `tag` of this flavor.
    pub fn matches(&self, internal_name: &String, display_name: &String, tag: &String) -> (out:
        bool)
        ensures
            out == names_match_tag(*self, internal_name@, display_name@, tag@),
    {
        if self.is_primary() {
            *internal_name == *tag || *display_name == *tag
        } else {
            let display = self.display_name_for(tag.as_str());
            if *display_name == display {
                true
            } else {
                let internal = self.internal_name_for(tag.as_str());
                *internal_name == internal
            }
        }
    }
}

/// The name of the file that caches the release list of `owner/repository`.
pub fn cache_file_name_of(owner: &str, repository: &str) -> (out: String)
    ensures
        out@ == cache_file_name(owner@, repository@),
{
    String::from_str("github_releases_").concat(owner).concat("_").concat(repository).concat(
        "_cache.json",
    )
}

/// A flavor together with a list of its releases.
#[derive(Debug)]
pub struct Flavor {
    pub flavor: CompatibilityToolFlavor,
    pub releases: Vec<Release>,
}

/// What a [`Flavor`] holds, as mathematical values.
pub struct FlavorModel {
    pub flavor: CompatibilityToolFlavor,
    pub releases: Seq<ReleaseModel>,
}

impl View for Flavor {
    type V = FlavorModel;

    open spec fn view(&self) -> FlavorModel {
        FlavorModel { flavor: self.flavor, releases: self.releases.deep_view() }
    }
}

impl DeepView for Flavor {
    type V = FlavorModel;

    open spec fn deep_view(&self) -> FlavorModel {
        self@
    }
}

impl Clone for Flavor {
    fn clone(&self) -> (out: Self)
        ensures
            out@ == self@,
    {
        Flavor { flavor: self.flavor, releases: clone_releases(&self.releases) }
    }
}

impl Flavor {
    /// The catalog entry of `flavor` after a lookup: the releases found, or
    /// none where the lookup came back empty-handed.
    pub fn from_lookup(flavor: CompatibilityToolFlavor, found: Option<Vec<Release>>) -> (out: Self)
        ensures
            out@ == (FlavorModel {
                flavor,
                releases: match found {
                    Some(releases) => releases.deep_view(),
                    None => Seq::empty(),
                },
            }),
    {
        match found {
            Some(releases) => Flavor { flavor, releases },
            None => {
                let releases: Vec<Release> = Vec::new();
                assert(releases.deep_view() =~= Seq::empty());
                Flavor { flavor, releases }
            },
        }
    }
}

/// A copy of every entry of `flavors`, in order.
pub fn clone_flavors(flavors: &Vec<Flavor>) -> (out: Vec<Flavor>)
    ensures
        out.deep_view() == flavors.deep_view(),
{
    let mut out: Vec<Flavor> = Vec::new();
    let mut i: usize = 0;
    while i < flavors.len()
        invariant
            i <= flavors.len(),
            out.len() == i,
            forall|j: int| 0 <= j < i ==> out[j]@ == flavors[j]@,
        decreases flavors.len() - i,
    {
        out.push(flavors[i].clone());
        i += 1;
    }
    out
}

/// A copy of every text of `texts`, in order.
pub fn clone_texts(texts: &Vec<String>) -> (out: Vec<String>)
    ensures
        out.deep_view() == texts.deep_view(),
{
    let mut out: Vec<String> = Vec::new();
    let mut i: usize = 0;
    while i < texts.len()
        invariant
            i <= texts.len(),
            out.len() == i,
            forall|j: int| 0 <= j < i ==> out[j]@ == texts[j]@,
        decreases texts.len() - i,
    {
        out.push(texts[i].clone());
        i += 1;
    }
    out
}

/// A compatibility tool found in the install directory.
#[derive(Debug)]
pub struct SteamCompatibilityTool {
    /// The tool's directory.
    pub path: String,
    pub display_name: String,
    pub internal_name: String,
    /// The names of the installed games that are set to run with this tool.
    pub used_by_games: Vec<String>,
    /// Whether the host has yet to be restarted before it sees this tool.
    pub requires_restart: bool,
    /// The flavor whose catalog holds this tool, `Unknown` where none does.
    pub flavor: CompatibilityToolFlavor,
    /// The catalog entry this tool was installed from, where one matches.
    pub github_release: Option<Release>,
}

/// What a [`SteamCompatibilityTool`] holds, as mathematical values.
pub struct ToolModel {
    pub path: Seq<char>,
    pub display_name: Seq<char>,
    pub internal_name: Seq<char>,
    pub used_by_games: Seq<Seq<char>>,
    pub requires_restart: bool,
    pub flavor: CompatibilityToolFlavor,
    pub github_release: Option<ReleaseModel>,
}

impl View for SteamCompatibilityTool {
    type V = ToolModel;

    open spec fn view(&self) -> ToolModel {
        ToolModel {
            path: self.path@,
            display_name: self.display_name@,
            internal_name: self.internal_name@,
            used_by_games: self.used_by_games.deep_view(),
            requires_restart: self.requires_restart,
            flavor: self.flavor,
            github_release: self.github_release.deep_view(),
        }
    }
}

impl DeepView for SteamCompatibilityTool {
    type V = ToolModel;

    open spec fn deep_view(&self) -> ToolModel {
        self@
    }
}

impl Clone for SteamCompatibilityTool {
    fn clone(&self) -> (out: Self)
        ensures
            out@ == self@,
    {
        SteamCompatibilityTool {
            path: self.path.clone(),
            display_name: self.display_name.clone(),
            internal_name: self.internal_name.clone(),
            used_by_games: clone_texts(&self.used_by_games),
            requires_restart: self.requires_restart,
            flavor: self.flavor,
            github_release: match &self.github_release {
                Some(release) => Some(release.clone()),
                None => None,
            },
        }
    }
}

/// A copy of every tool of `tools`, in order.
pub fn clone_tools(tools: &Vec<SteamCompatibilityTool>) -> (out: Vec<SteamCompatibilityTool>)
    ensures
        out.deep_view() == tools.deep_view(),
{
    let mut out: Vec<SteamCompatibilityTool> = Vec::new();
    let mut i: usize = 0;
    while i < tools.len()
        invariant
            i <= tools.len(),
            out.len() == i,
            forall|j: int| 0 <= j < i ==> out[j]@ == tools[j]@,
        decreases tools.len() - i,
    {
        out.push(tools[i].clone());
        i += 1;
    }
    out
}

/// One entry of the host's own registry of compatibility tools.
#[derive(Debug)]
pub struct SteamClientCompatToolInfo {
    /// The internal name the host knows the tool by.
    pub str_tool_name: String,
    pub str_display_name: String,
}

/// What a [`SteamClientCompatToolInfo`] holds, as mathematical values.
pub struct CompatToolInfoModel {
    pub str_tool_name: Seq<char>,
    pub str_display_name: Seq<char>,
}

impl View for SteamClientCompatToolInfo {
    type V = CompatToolInfoModel;

    open spec fn view(&self) -> CompatToolInfoModel {
        CompatToolInfoModel {
            str_tool_name: self.str_tool_name@,
            str_display_name: self.str_display_name@,
        }
    }
}

impl DeepView for SteamClientCompatToolInfo {
    type V = CompatToolInfoModel;

    open spec fn deep_view(&self) -> CompatToolInfoModel {
        self@
    }
}

impl Clone for SteamClientCompatToolInfo {
    fn clone(&self) -> (out: Self)
        ensures
            out@ == self@,
    {
        SteamClientCompatToolInfo {
            str_tool_name: self.str_tool_name.clone(),
            str_display_name: self.str_display_name.clone(),
        }
    }
}

/// A copy of every entry of `registry`, in order.
pub fn clone_registry(registry: &Vec<SteamClientCompatToolInfo>) -> (out: Vec<
    SteamClientCompatToolInfo,
>)
    ensures
        out.deep_view() == registry.deep_view(),
{
    let mut out: Vec<SteamClientCompatToolInfo> = Vec::new();
    let mut i: usize = 0;
    while i < registry.len()
        invariant
            i <= registry.len(),
            out.len() == i,
            forall|j: int| 0 <= j < i ==> out[j]@ == registry[j]@,
        decreases registry.len() - i,
    {
        out.push(registry[i].clone());
        i += 1;
    }
    out
}

/// A tool of a secondary flavor matches a tag exactly when it carries one of
/// the two canonical names: the flavor's name directly followed by the tag as
/// its internal name, or the flavor's name, a space and the tag as its
/// display name. No other spelling of either name matches.
pub proof fn lemma_secondary_flavor_matching(
    flavor: CompatibilityToolFlavor,
    internal_name: Seq<char>,
    display_name: Seq<char>,
    tag: Seq<char>,
)
    requires
        flavor != CompatibilityToolFlavor::ProtonGE,
    ensures
        names_match_tag(flavor, internal_name, display_name, tag) <==> (internal_name
            == flavor_name(flavor) + tag || display_name == flavor_name(flavor) + seq![' '] + tag),
        names_match_tag(flavor, flavor_name(flavor) + tag, display_name, tag),
        names_match_tag(flavor, internal_name, flavor_name(flavor) + seq![' '] + tag, tag),
        internal_name != flavor_name(flavor) + tag && display_name != flavor_name(flavor) + seq![
            ' ',
        ] + tag ==> !names_match_tag(flavor, internal_name, display_name, tag),
{
    reveal_strlit(" ");
    assert(" "@ =~= seq![' ']);
}

/// A tool matches a tag of the primary flavor exactly when one of its two
/// names is the tag itself.
pub proof fn lemma_primary_flavor_matching(
    internal_name: Seq<char>,
    display_name: Seq<char>,
    tag: Seq<char>,
)
    ensures
        names_match_tag(CompatibilityToolFlavor::ProtonGE, internal_name, display_name, tag) <==> (
        internal_name == tag || display_name == tag),
{
}

} // verus!
