//! Reconciliation: the installed tools as the install directory shows them,
//! checked against the host's registry, matched against the catalogs, and the
//! catalogs split into what is installed and what is not.

use std::collections::HashMap;
use vstd::prelude::*;
use crate::app::{AppState, AppStateModel};
use crate::flavors::{
    names_match_tag,
    CompatToolInfoModel,
    CompatibilityToolFlavor,
    Flavor,
    FlavorModel,
    SteamClientCompatToolInfo,
    SteamCompatibilityTool,
    ToolModel,
};
use crate::github_util::{Release, ReleaseModel};
use crate::search::{
    first_index,
    lemma_filter_step,
    lemma_first_index_found,
    lemma_first_index_none,
    lemma_map_step,
};
use crate::steam_util::{
    usage_mapping,
    CompatibilityTool,
    CompatibilityToolModel,
    SteamApp,
    SteamAppModel,
};

verus! {

broadcast use vstd::std_specs::hash::group_hash_axioms;

/// Whether `game` is set to run with the tool of these two names.
pub open spec fn game_uses_tool(
    mapping: Map<u64, Seq<char>>,
    game: SteamAppModel,
    display_name: Seq<char>,
    internal_name: Seq<char>,
) -> bool {
    mapping.contains_key(game.app_id) && (mapping[game.app_id] == display_name
        || mapping[game.app_id] == internal_name)
}

/// [`game_uses_tool`] as a predicate on games.
pub open spec fn user_pred(
    mapping: Map<u64, Seq<char>>,
    display_name: Seq<char>,
    internal_name: Seq<char>,
) -> spec_fn(SteamAppModel) -> bool {
    |game: SteamAppModel| game_uses_tool(mapping, game, display_name, internal_name)
}

/// The name of a game.
pub open spec fn game_name() -> spec_fn(SteamAppModel) -> Seq<char> {
    |game: SteamAppModel| game.name
}

/// The names of the installed games that are set to run with the tool of
/// these two names, in the order of `games`.
pub open spec fn used_by_games(
    mapping: Map<u64, Seq<char>>,
    games: Seq<SteamAppModel>,
    display_name: Seq<char>,
    internal_name: Seq<char>,
) -> Seq<Seq<char>> {
    games.filter(user_pred(mapping, display_name, internal_name)).map_values(game_name())
}

/// The names of the games that run with the tool of these two names.
pub fn get_used_by_games(
    mapping: &HashMap<u64, String>,
    games: &Vec<SteamApp>,
    display_name: &String,
    internal_name: &String,
) -> (out: Vec<String>)
    ensures
        out.deep_view() == used_by_games(
            usage_mapping(mapping@),
            games.deep_view(),
            display_name@,
            internal_name@,
        ),
{
    let ghost models = games.deep_view();
    let ghost pred = user_pred(usage_mapping(mapping@), display_name@, internal_name@);
    let mut out: Vec<String> = Vec::new();
    let mut i: usize = 0;
    assert(models.take(0).filter(pred) =~= Seq::empty()) by {
        reveal(Seq::filter);
    }
    while i < games.len()
        invariant
            i <= games.len(),
            models == games.deep_view(),
            pred == user_pred(usage_mapping(mapping@), display_name@, internal_name@),
            out.deep_view() == models.take(i as int).filter(pred).map_values(game_name()),
        decreases games.len() - i,
    {
        let game = &games[i];
        let ghost before = out.deep_view();
        proof {
            lemma_filter_step(models, pred, i as int);
        }
        let uses = match mapping.get(&game.app_id) {
            Some(tool) => *tool == *display_name || *tool == *internal_name,
            None => false,
        };
        if uses {
            out.push(game.name.clone());
            assert(models.take(i as int).filter(pred).push(models[i as int]).map_values(
                game_name(),
            ) =~= before.push(game@.name));
        }
        i += 1;
    }
    assert(models.take(i as int) =~= models);
    out
}

/// The installed tool that a scan record stands for, before anything else is
/// known of it: no flavor, no release, no restart needed.
pub open spec fn listed_tool(
    found: CompatibilityToolModel,
    mapping: Map<u64, Seq<char>>,
    games: Seq<SteamAppModel>,
) -> ToolModel {
    ToolModel {
        path: found.path,
        display_name: found.display_name,
        internal_name: found.internal_name,
        used_by_games: used_by_games(mapping, games, found.display_name, found.internal_name),
        requires_restart: false,
        flavor: CompatibilityToolFlavor::Unknown,
        github_release: None,
    }
}

/// [`listed_tool`] as a function of the scan record.
pub open spec fn list_with(mapping: Map<u64, Seq<char>>, games: Seq<SteamAppModel>) -> spec_fn(
    CompatibilityToolModel,
) -> ToolModel {
    |found: CompatibilityToolModel| listed_tool(found, mapping, games)
}

/// The installed tools that the scan records stand for, in scan order.
pub open spec fn listed_tools(
    scanned: Seq<CompatibilityToolModel>,
    mapping: Map<u64, Seq<char>>,
    games: Seq<SteamAppModel>,
) -> Seq<ToolModel> {
    scanned.map_values(list_with(mapping, games))
}

/// Whether the host's registry knows a tool of this internal name. A registry
/// that was never reported knows none.
pub open spec fn is_registered(
    registry: Option<Seq<CompatToolInfoModel>>,
    internal_name: Seq<char>,
) -> bool {
    match registry {
        Some(entries) => exists|i: int|
            0 <= i < entries.len() && (#[trigger] entries[i]).str_tool_name == internal_name,
        None => false,
    }
}

/// `tool` with its restart flag set by the registry: a tool that the host
/// does not know yet needs a restart.
pub open spec fn flagged_tool(tool: ToolModel, registry: Option<Seq<CompatToolInfoModel>>) -> ToolModel {
    ToolModel { requires_restart: !is_registered(registry, tool.internal_name), ..tool }
}

/// [`flagged_tool`] as a function of the tool.
pub open spec fn flag_with(registry: Option<Seq<CompatToolInfoModel>>) -> spec_fn(
    ToolModel,
) -> ToolModel {
    |tool: ToolModel| flagged_tool(tool, registry)
}

/// Whether a release is the one that a tool of these names was installed
/// from, as a predicate on the releases of `flavor`.
pub open spec fn release_pred(
    flavor: CompatibilityToolFlavor,
    internal_name: Seq<char>,
    display_name: Seq<char>,
) -> spec_fn(ReleaseModel) -> bool {
    |release: ReleaseModel| names_match_tag(flavor, internal_name, display_name, release.tag_name)
}

/// `tool` after looking it up in one catalog: where a release matches its
/// names, the tool belongs to that flavor and to the first such release.
pub open spec fn classified_by(tool: ToolModel, catalog: FlavorModel) -> ToolModel {
    match first_index(
        catalog.releases,
        release_pred(catalog.flavor, tool.internal_name, tool.display_name),
    ) {
        Some(i) => ToolModel {
            flavor: catalog.flavor,
            github_release: Some(catalog.releases[i]),
            ..tool
        },
        None => tool,
    }
}

/// `tool` after looking it up in every catalog in turn. Where several
/// catalogs hold a match, the last one decides.
pub open spec fn classified(tool: ToolModel, catalogs: Seq<FlavorModel>) -> ToolModel
    decreases catalogs.len(),
{
    if catalogs.len() == 0 {
        tool
    } else {
        classified_by(classified(tool, catalogs.drop_last()), catalogs.last())
    }
}

/// [`classified`] as a function of the tool.
pub open spec fn classify_with(catalogs: Seq<FlavorModel>) -> spec_fn(ToolModel) -> ToolModel {
    |tool: ToolModel| classified(tool, catalogs)
}

/// Whether some tool of `tools` is the installed form of the release `tag` of
/// `flavor`.
pub open spec fn is_installed(
    flavor: CompatibilityToolFlavor,
    tag: Seq<char>,
    tools: Seq<ToolModel>,
) -> bool {
    exists|i: int|
        0 <= i < tools.len() && names_match_tag(
            flavor,
            (#[trigger] tools[i]).internal_name,
            tools[i].display_name,
            tag,
        )
}

/// The releases of `flavor` that no tool of `tools` is installed from, as a
/// predicate.
pub open spec fn missing_pred(flavor: CompatibilityToolFlavor, tools: Seq<ToolModel>) -> spec_fn(
    ReleaseModel,
) -> bool {
    |release: ReleaseModel| !is_installed(flavor, release.tag_name, tools)
}

/// The part of a catalog that is not installed.
pub open spec fn not_installed(catalog: FlavorModel, tools: Seq<ToolModel>) -> FlavorModel {
    FlavorModel {
        flavor: catalog.flavor,
        releases: catalog.releases.filter(missing_pred(catalog.flavor, tools)),
    }
}

/// [`not_installed`] as a function of the catalog.
pub open spec fn not_installed_among(tools: Seq<ToolModel>) -> spec_fn(FlavorModel) -> FlavorModel {
    |catalog: FlavorModel| not_installed(catalog, tools)
}

/// `state` with every installed tool matched against the catalogs, and the
/// not-installed part of every catalog worked out anew.
pub open spec fn with_catalog_matches(state: AppStateModel) -> AppStateModel {
    let tools = state.installed_compatibility_tools.map_values(classify_with(state.flavors));
    AppStateModel {
        installed_compatibility_tools: tools,
        available_flavors: state.flavors.map_values(not_installed_among(tools)),
        ..state
    }
}

/// `state` reconciled with a scan of the install directory.
///
/// The installed tools are the scanned ones and no others. Each is flagged
/// for restart unless the host's registry knows it, and matched against the
/// catalogs. The not-installed part of every catalog is worked out anew.
/// Nothing else changes.
pub open spec fn reconciled(
    state: AppStateModel,
    scanned: Seq<CompatibilityToolModel>,
    mapping: Map<u64, Seq<char>>,
    games: Seq<SteamAppModel>,
) -> AppStateModel {
    with_catalog_matches(
        AppStateModel {
            installed_compatibility_tools: listed_tools(scanned, mapping, games).map_values(
                flag_with(state.available_compat_tools),
            ),
            ..state
        },
    )
}

/// `tool` with the games that use it looked up anew.
pub open spec fn tool_with_usage(
    tool: ToolModel,
    mapping: Map<u64, Seq<char>>,
    games: Seq<SteamAppModel>,
) -> ToolModel {
    ToolModel {
        used_by_games: used_by_games(mapping, games, tool.display_name, tool.internal_name),
        ..tool
    }
}

/// [`tool_with_usage`] as a function of the tool.
pub open spec fn usage_with(mapping: Map<u64, Seq<char>>, games: Seq<SteamAppModel>) -> spec_fn(
    ToolModel,
) -> ToolModel {
    |tool: ToolModel| tool_with_usage(tool, mapping, games)
}

/// `state` with the games that use each installed tool looked up anew.
pub open spec fn with_usage(
    state: AppStateModel,
    mapping: Map<u64, Seq<char>>,
    games: Seq<SteamAppModel>,
) -> AppStateModel {
    AppStateModel {
        installed_compatibility_tools: state.installed_compatibility_tools.map_values(
            usage_with(mapping, games),
        ),
        ..state
    }
}

/// An entry of the registry with the name sought shows that the registry
/// knows the name.
proof fn lemma_registered_witness(models: Seq<CompatToolInfoModel>, name: Seq<char>, k: int)
    requires
        0 <= k < models.len(),
        models[k].str_tool_name == name,
    ensures
        is_registered(Some(models), name),
{
    let registry = Some(models);
    assert(registry->0[k].str_tool_name == name);
}

/// Whether the host's registry knows a tool of this internal name.
pub fn registry_knows(registry: &Option<Vec<SteamClientCompatToolInfo>>, internal_name: &String) -> (out:
    bool)
    ensures
        out == is_registered(registry.deep_view(), internal_name@),
{
    match registry {
        Some(entries) => {
            let ghost models = entries.deep_view();
            let mut i: usize = 0;
            while i < entries.len()
                invariant
                    i <= entries.len(),
                    models == entries.deep_view(),
                    registry.deep_view() == Some(models),
                    forall|j: int|
                        0 <= j < i ==> (#[trigger] models[j]).str_tool_name != internal_name@,
                decreases entries.len() - i,
            {
                if entries[i].str_tool_name == *internal_name {
                    proof {
                        lemma_registered_witness(models, internal_name@, i as int);
                    }
                    return true;
                }
                i += 1;
            }
            false
        },
        None => false,
    }
}

/// The position of the first release of `catalog` that a tool of these names
/// was installed from.
pub fn find_release(catalog: &Flavor, internal_name: &String, display_name: &String) -> (out:
    Option<usize>)
    ensures
        match out {
            Some(i) => first_index(
                catalog@.releases,
                release_pred(catalog@.flavor, internal_name@, display_name@),
            ) == Some(i as int) && i < catalog.releases.len(),
            None => first_index(
                catalog@.releases,
                release_pred(catalog@.flavor, internal_name@, display_name@),
            ) is None,
        },
{
    let ghost models = catalog.releases.deep_view();
    let ghost pred = release_pred(catalog.flavor, internal_name@, display_name@);
    let mut i: usize = 0;
    while i < catalog.releases.len()
        invariant
            i <= catalog.releases.len(),
            models == catalog.releases.deep_view(),
            pred == release_pred(catalog.flavor, internal_name@, display_name@),
            forall|j: int| 0 <= j < i ==> !pred(#[trigger] models[j]),
        decreases catalog.releases.len() - i,
    {
        if catalog.flavor.matches(internal_name, display_name, &catalog.releases[i].tag_name) {
            proof {
                lemma_first_index_found(models, pred, i as int);
            }
            return Some(i);
        }
        i += 1;
    }
    proof {
        lemma_first_index_none(models, pred);
    }
    None
}

/// Looks `tool` up in every catalog in turn.
pub fn classify(tool: SteamCompatibilityTool, catalogs: &Vec<Flavor>) -> (out:
    SteamCompatibilityTool)
    ensures
        out@ == classified(tool@, catalogs.deep_view()),
{
    let ghost models = catalogs.deep_view();
    let ghost start = tool@;
    let mut tool = tool;
    let mut k: usize = 0;
    while k < catalogs.len()
        invariant
            k <= catalogs.len(),
            models == catalogs.deep_view(),
            tool@ == classified(start, models.take(k as int)),
        decreases catalogs.len() - k,
    {
        let catalog = &catalogs[k];
        proof {
            assert(models.take(k + 1).drop_last() =~= models.take(k as int));
        }
        match find_release(catalog, &tool.internal_name, &tool.display_name) {
            Some(i) => {
                tool.flavor = catalog.flavor;
                tool.github_release = Some(catalog.releases[i].clone());
            },
            None => {},
        }
        k += 1;
    }
    assert(models.take(k as int) =~= models);
    tool
}

/// Whether some tool of `tools` is the installed form of the release `tag` of
/// `flavor`.
pub fn release_is_installed(
    flavor: CompatibilityToolFlavor,
    tag: &String,
    tools: &Vec<SteamCompatibilityTool>,
) -> (out: bool)
    ensures
        out == is_installed(flavor, tag@, tools.deep_view()),
{
    let ghost models = tools.deep_view();
    let mut i: usize = 0;
    while i < tools.len()
        invariant
            i <= tools.len(),
            models == tools.deep_view(),
            forall|j: int|
                0 <= j < i ==> !names_match_tag(
                    flavor,
                    (#[trigger] models[j]).internal_name,
                    models[j].display_name,
                    tag@,
                ),
        decreases tools.len() - i,
    {
        assert(models[i as int] == tools[i as int]@);
        if flavor.matches(&tools[i].internal_name, &tools[i].display_name, tag) {
            return true;
        }
        i += 1;
    }
    false
}

/// The part of `catalog` that no tool of `tools` is installed from.
pub fn not_installed_part(catalog: &Flavor, tools: &Vec<SteamCompatibilityTool>) -> (out: Flavor)
    ensures
        out@ == not_installed(catalog@, tools.deep_view()),
{
    let ghost models = catalog.releases.deep_view();
    let ghost pred = missing_pred(catalog.flavor, tools.deep_view());
    let mut releases: Vec<Release> = Vec::new();
    let mut i: usize = 0;
    assert(releases.deep_view() =~= models.take(0).filter(pred)) by {
        reveal(Seq::filter);
    }
    while i < catalog.releases.len()
        invariant
            i <= catalog.releases.len(),
            models == catalog.releases.deep_view(),
            pred == missing_pred(catalog.flavor, tools.deep_view()),
            releases.deep_view() == models.take(i as int).filter(pred),
        decreases catalog.releases.len() - i,
    {
        let release = &catalog.releases[i];
        proof {
            lemma_filter_step(models, pred, i as int);
        }
        let installed = release_is_installed(catalog.flavor, &release.tag_name, tools);
        if !installed {
            releases.push(release.clone());
        }
        i += 1;
    }
    assert(models.take(i as int) =~= models);
    Flavor { flavor: catalog.flavor, releases }
}

impl AppState {
    /// The installed tools that the scan records stand for, with the games
    /// that use each, and nothing else known of them yet.
    pub fn list_compatibility_tools(
        scanned: &Vec<CompatibilityTool>,
        mapping: &HashMap<u64, String>,
        games: &Vec<SteamApp>,
    ) -> (out: Vec<SteamCompatibilityTool>)
        ensures
            out.deep_view() == listed_tools(
                scanned.deep_view(),
                usage_mapping(mapping@),
                games.deep_view(),
            ),
    {
        let ghost models = scanned.deep_view();
        let ghost f = list_with(usage_mapping(mapping@), games.deep_view());
        let mut out: Vec<SteamCompatibilityTool> = Vec::new();
        let mut i: usize = 0;
        while i < scanned.len()
            invariant
                i <= scanned.len(),
                models == scanned.deep_view(),
                f == list_with(usage_mapping(mapping@), games.deep_view()),
                out.deep_view() == models.take(i as int).map_values(f),
            decreases scanned.len() - i,
        {
            let found = &scanned[i];
            proof {
                lemma_map_step(models, f, i as int);
            }
            let tool = SteamCompatibilityTool {
                path: found.path.clone(),
                display_name: found.display_name.clone(),
                internal_name: found.internal_name.clone(),
                used_by_games: get_used_by_games(
                    mapping,
                    games,
                    &found.display_name,
                    &found.internal_name,
                ),
                requires_restart: false,
                flavor: CompatibilityToolFlavor::Unknown,
                github_release: None,
            };
            out.push(tool);
            i += 1;
        }
        out
    }

    /// Matches every installed tool against the catalogs and works out the
    /// not-installed part of every catalog anew.
    pub fn update_compatibility_tools_and_available_flavors(&mut self)
        ensures
            final(self)@ == with_catalog_matches(old(self)@),
    {
        let ghost before = self.installed_compatibility_tools.deep_view();
        let ghost catalogs = self.flavors.deep_view();
        let ghost f = classify_with(catalogs);
        let mut tools: Vec<SteamCompatibilityTool> = Vec::new();
        let mut i: usize = 0;
        while i < self.installed_compatibility_tools.len()
            invariant
                i <= self.installed_compatibility_tools.len(),
                *self == *old(self),
                before == self.installed_compatibility_tools.deep_view(),
                catalogs == self.flavors.deep_view(),
                f == classify_with(catalogs),
                tools.deep_view() == before.take(i as int).map_values(f),
            decreases self.installed_compatibility_tools.len() - i,
        {
            proof {
                lemma_map_step(before, f, i as int);
            }
            let tool = classify(self.installed_compatibility_tools[i].clone(), &self.flavors);
            tools.push(tool);
            i += 1;
        }
        assert(before.take(i as int) =~= before);
        let ghost g = not_installed_among(tools.deep_view());
        let mut available: Vec<Flavor> = Vec::new();
        let mut k: usize = 0;
        while k < self.flavors.len()
            invariant
                k <= self.flavors.len(),
                *self == *old(self),
                catalogs == self.flavors.deep_view(),
                g == not_installed_among(tools.deep_view()),
                available.deep_view() == catalogs.take(k as int).map_values(g),
            decreases self.flavors.len() - k,
        {
            proof {
                lemma_map_step(catalogs, g, k as int);
            }
            let part = not_installed_part(&self.flavors[k], &tools);
            available.push(part);
            k += 1;
        }
        assert(catalogs.take(k as int) =~= catalogs);
        self.installed_compatibility_tools = tools;
        self.available_flavors = available;
    }

    /// Reconciles the state with a scan of the install directory.
    ///
    /// `scanned` holds every package found there, `mapping` the tool that
    /// each game is set to run with, and `games` the installed games.
    pub fn sync_backend_with_installed_compat_tools(
        &mut self,
        scanned: &Vec<CompatibilityTool>,
        mapping: &HashMap<u64, String>,
        games: &Vec<SteamApp>,
    )
        ensures
            final(self)@ == reconciled(
                old(self)@,
                scanned.deep_view(),
                usage_mapping(mapping@),
                games.deep_view(),
            ),
    {
        let listed = Self::list_compatibility_tools(scanned, mapping, games);
        let ghost before = listed.deep_view();
        let ghost f = flag_with(self.available_compat_tools.deep_view());
        let mut tools: Vec<SteamCompatibilityTool> = Vec::new();
        let mut i: usize = 0;
        while i < listed.len()
            invariant
                i <= listed.len(),
                *self == *old(self),
                before == listed.deep_view(),
                f == flag_with(self.available_compat_tools.deep_view()),
                tools.deep_view() == before.take(i as int).map_values(f),
            decreases listed.len() - i,
        {
            proof {
                lemma_map_step(before, f, i as int);
            }
            let mut tool = listed[i].clone();
            tool.requires_restart = !registry_knows(
                &self.available_compat_tools,
                &tool.internal_name,
            );
            tools.push(tool);
            i += 1;
        }
        assert(before.take(i as int) =~= before);
        self.installed_compatibility_tools = tools;
        self.update_compatibility_tools_and_available_flavors();
    }

    /// Takes in the host's registry as a session reports it, and reconciles
    /// the state with a scan of the install directory.
    pub fn process_frontend_compat_tools_update(
        &mut self,
        available_compat_tools: Vec<SteamClientCompatToolInfo>,
        scanned: &Vec<CompatibilityTool>,
        mapping: &HashMap<u64, String>,
        games: &Vec<SteamApp>,
    )
        ensures
            final(self)@ == reconciled(
                AppStateModel {
                    available_compat_tools: Some(available_compat_tools.deep_view()),
                    ..old(self)@
                },
                scanned.deep_view(),
                usage_mapping(mapping@),
                games.deep_view(),
            ),
    {
        self.available_compat_tools = Some(available_compat_tools);
        self.sync_backend_with_installed_compat_tools(scanned, mapping, games);
    }

    /// Looks up anew which games use each installed tool.
    pub fn update_used_by_games(&mut self, mapping: &HashMap<u64, String>, games: &Vec<SteamApp>)
        ensures
            final(self)@ == with_usage(old(self)@, usage_mapping(mapping@), games.deep_view()),
    {
        let ghost before = self.installed_compatibility_tools.deep_view();
        let ghost f = usage_with(usage_mapping(mapping@), games.deep_view());
        let mut tools: Vec<SteamCompatibilityTool> = Vec::new();
        let mut i: usize = 0;
        while i < self.installed_compatibility_tools.len()
            invariant
                i <= self.installed_compatibility_tools.len(),
                *self == *old(self),
                before == self.installed_compatibility_tools.deep_view(),
                f == usage_with(usage_mapping(mapping@), games.deep_view()),
                tools.deep_view() == before.take(i as int).map_values(f),
            decreases self.installed_compatibility_tools.len() - i,
        {
            proof {
                lemma_map_step(before, f, i as int);
            }
            let mut tool = self.installed_compatibility_tools[i].clone();
            tool.used_by_games = get_used_by_games(
                mapping,
                games,
                &tool.display_name,
                &tool.internal_name,
            );
            tools.push(tool);
            i += 1;
        }
        assert(before.take(i as int) =~= before);
        self.installed_compatibility_tools = tools;
    }
}

/// Reconciling twice against the same scan gives the same state as
/// reconciling once.
pub proof fn lemma_reconcile_idempotent(
    state: AppStateModel,
    scanned: Seq<CompatibilityToolModel>,
    mapping: Map<u64, Seq<char>>,
    games: Seq<SteamAppModel>,
)
    ensures
        reconciled(reconciled(state, scanned, mapping, games), scanned, mapping, games)
            == reconciled(state, scanned, mapping, games),
{
}

/// Reconciliation touches the installed tools and the not-installed parts of
/// the catalogs, and nothing else: the queue, the job in flight, the
/// catalogs, the registry and the updater are as they were.
pub proof fn lemma_reconcile_frame(
    state: AppStateModel,
    scanned: Seq<CompatibilityToolModel>,
    mapping: Map<u64, Seq<char>>,
    games: Seq<SteamAppModel>,
)
    ensures
        reconciled(state, scanned, mapping, games) == (AppStateModel {
            installed_compatibility_tools: reconciled(
                state,
                scanned,
                mapping,
                games,
            ).installed_compatibility_tools,
            available_flavors: reconciled(state, scanned, mapping, games).available_flavors,
            ..state
        }),
        reconciled(state, scanned, mapping, games).installed_compatibility_tools.len()
            == scanned.len(),
        reconciled(state, scanned, mapping, games).available_flavors.len() == state.flavors.len(),
{
}

/// Looking a tool up in the catalogs touches its flavor and its release and
/// nothing else.
pub proof fn lemma_classified_keeps_identity(tool: ToolModel, catalogs: Seq<FlavorModel>)
    ensures
        classified(tool, catalogs) == (ToolModel {
            flavor: classified(tool, catalogs).flavor,
            github_release: classified(tool, catalogs).github_release,
            ..tool
        }),
    decreases catalogs.len(),
{
    if catalogs.len() > 0 {
        lemma_classified_keeps_identity(tool, catalogs.drop_last());
    }
}

/// Whether some catalog holds a release that a tool of these names was
/// installed from.
pub open spec fn is_catalogued(tool: ToolModel, catalogs: Seq<FlavorModel>) -> bool {
    exists|k: int|
        0 <= k < catalogs.len() && first_index(
            (#[trigger] catalogs[k]).releases,
            release_pred(catalogs[k].flavor, tool.internal_name, tool.display_name),
        ) is Some
}

/// What a lookup finds depends on the tool's names alone: two tools that
/// differ in flavor and release at most come out the same where a catalog
/// matches, and a tool that no catalog matches comes out as it went in.
proof fn lemma_classified_by_names(a: ToolModel, b: ToolModel, catalogs: Seq<FlavorModel>)
    requires
        a == (ToolModel { flavor: a.flavor, github_release: a.github_release, ..b }),
    ensures
        is_catalogued(a, catalogs) ==> classified(a, catalogs) == classified(b, catalogs),
        !is_catalogued(a, catalogs) ==> classified(a, catalogs) == a,
    decreases catalogs.len(),
{
    if catalogs.len() > 0 {
        let rest = catalogs.drop_last();
        let last = catalogs.last();
        lemma_classified_by_names(a, b, rest);
        lemma_classified_keeps_identity(a, rest);
        lemma_classified_keeps_identity(b, rest);
        let found = first_index(
            last.releases,
            release_pred(last.flavor, a.internal_name, a.display_name),
        );
        if found is None && is_catalogued(a, catalogs) {
            let k = choose|k: int|
                0 <= k < catalogs.len() && first_index(
                    (#[trigger] catalogs[k]).releases,
                    release_pred(catalogs[k].flavor, a.internal_name, a.display_name),
                ) is Some;
            assert(rest[k] == catalogs[k]);
        }
    }
}

/// Looking a tool up a second time changes nothing.
pub proof fn lemma_classified_idempotent(tool: ToolModel, catalogs: Seq<FlavorModel>)
    ensures
        classified(classified(tool, catalogs), catalogs) == classified(tool, catalogs),
{
    let once = classified(tool, catalogs);
    lemma_classified_keeps_identity(tool, catalogs);
    lemma_classified_by_names(once, tool, catalogs);
}

/// Matching the installed tools against the catalogs a second time changes
/// nothing: what the first pass derived is what the second derives.
pub proof fn lemma_catalog_matching_idempotent(state: AppStateModel)
    ensures
        with_catalog_matches(with_catalog_matches(state)) == with_catalog_matches(state),
{
    let once = with_catalog_matches(state);
    let twice = with_catalog_matches(once);
    assert forall|i: int| 0 <= i < once.installed_compatibility_tools.len() implies
        twice.installed_compatibility_tools[i] == once.installed_compatibility_tools[i] by {
        lemma_classified_idempotent(state.installed_compatibility_tools[i], state.flavors);
    }
    assert(twice.installed_compatibility_tools =~= once.installed_compatibility_tools);
}

/// Every release of a catalog is either installed or listed as not
/// installed, never both: the not-installed part holds exactly the releases
/// that no installed tool matches, in catalog order.
pub proof fn lemma_catalog_is_partitioned(catalog: FlavorModel, tools: Seq<ToolModel>, i: int)
    requires
        0 <= i < catalog.releases.len(),
    ensures
        not_installed(catalog, tools).releases.contains(catalog.releases[i]) <== !is_installed(
            catalog.flavor,
            catalog.releases[i].tag_name,
            tools,
        ),
        forall|j: int|
            0 <= j < not_installed(catalog, tools).releases.len() ==> !is_installed(
                catalog.flavor,
                (#[trigger] not_installed(catalog, tools).releases[j]).tag_name,
                tools,
            ) && catalog.releases.contains(not_installed(catalog, tools).releases[j]),
{
    let pred = missing_pred(catalog.flavor, tools);
    let kept = catalog.releases.filter(pred);
    if pred(catalog.releases[i]) {
        catalog.releases.lemma_filter_contains(pred, i);
    }
    assert forall|j: int| 0 <= j < kept.len() implies pred(#[trigger] kept[j])
        && catalog.releases.contains(kept[j]) by {
        catalog.releases.lemma_filter_pred(pred, j);
        catalog.releases.lemma_filter_contains_rev(pred, kept[j]);
    }
}

} // verus!
