//! Uninstalling a tool: the request, and the check that it names exactly one
//! tool that is known to be installed.

use std::collections::HashMap;
use vstd::prelude::*;
use vstd::string::StringExecFns;
use crate::app::{AppState, AppStateModel};
use crate::flavors::{CompatibilityToolFlavor, SteamCompatibilityTool, ToolModel};
use crate::reconcile::reconciled;
use crate::search::lemma_filter_step;
use crate::steam_util::{
    usage_mapping,
    CompatibilityTool,
    CompatibilityToolModel,
    SteamApp,
    SteamAppModel,
};
use crate::text::{decimal, to_decimal};

verus! {

/// A request to remove one installed tool.
#[derive(Debug)]
pub struct Uninstall {
    pub flavor: CompatibilityToolFlavor,
    pub steam_compatibility_tool: SteamCompatibilityTool,
}

/// What an [`Uninstall`] holds, as mathematical values.
pub struct UninstallModel {
    pub flavor: CompatibilityToolFlavor,
    pub steam_compatibility_tool: ToolModel,
}

impl View for Uninstall {
    type V = UninstallModel;

    open spec fn view(&self) -> UninstallModel {
        UninstallModel {
            flavor: self.flavor,
            steam_compatibility_tool: self.steam_compatibility_tool@,
        }
    }
}

impl DeepView for Uninstall {
    type V = UninstallModel;

    open spec fn deep_view(&self) -> UninstallModel {
        self@
    }
}

impl Clone for Uninstall {
    fn clone(&self) -> (out: Self)
        ensures
            out@ == self@,
    {
        Uninstall {
            flavor: self.flavor,
            steam_compatibility_tool: self.steam_compatibility_tool.clone(),
        }
    }
}

/// Why a tool was not uninstalled.
#[derive(Debug)]
pub enum UninstallError {
    /// No installed tool has the requested path and names; the text is the
    /// requested display name.
    NotFound(String),
    /// More than one installed tool has the requested path and names; the
    /// number says how many.
    Ambiguous(usize),
    /// The tool's directory could not be deleted; the text says why.
    Removal(String),
}

/// What an [`UninstallError`] holds, as mathematical values.
pub enum UninstallErrorModel {
    NotFound(Seq<char>),
    Ambiguous(nat),
    Removal(Seq<char>),
}

impl View for UninstallError {
    type V = UninstallErrorModel;

    open spec fn view(&self) -> UninstallErrorModel {
        match self {
            UninstallError::NotFound(name) => UninstallErrorModel::NotFound(name@),
            UninstallError::Ambiguous(n) => UninstallErrorModel::Ambiguous(*n as nat),
            UninstallError::Removal(why) => UninstallErrorModel::Removal(why@),
        }
    }
}

/// The notice shown for a refused or failed uninstall.
pub open spec fn uninstall_notice(error: UninstallErrorModel) -> Seq<char> {
    match error {
        UninstallErrorModel::NotFound(name) => "Compatibility tool not found: "@ + name,
        UninstallErrorModel::Ambiguous(n) => "Invalid number of matching tools found: "@
            + decimal(n),
        UninstallErrorModel::Removal(why) => "Error during uninstallation: "@ + why,
    }
}

impl UninstallError {
    /// The notice shown for this error.
    pub fn notice(&self) -> (out: String)
        ensures
            out@ == uninstall_notice(self@),
    {
        match self {
            UninstallError::NotFound(name) => String::from_str(
                "Compatibility tool not found: ",
            ).concat(name.as_str()),
            UninstallError::Ambiguous(n) => String::from_str(
                "Invalid number of matching tools found: ",
            ).concat(to_decimal(*n as u128).as_str()),
            UninstallError::Removal(why) => String::from_str(
                "Error during uninstallation: ",
            ).concat(why.as_str()),
        }
    }
}

/// Whether `tool` is the tool that `requested` names: same path, same
/// internal name and same display name.
pub open spec fn same_tool(tool: ToolModel, requested: ToolModel) -> bool {
    tool.path == requested.path && tool.internal_name == requested.internal_name
        && tool.display_name == requested.display_name
}

/// [`same_tool`] with `requested` as a predicate.
pub open spec fn same_tool_pred(requested: ToolModel) -> spec_fn(ToolModel) -> bool {
    |tool: ToolModel| same_tool(tool, requested)
}

/// The directory to delete in order to uninstall `requested`, given the tools
/// known to be installed.
///
/// Exactly one installed tool must have the requested path and names. With
/// none the request is refused as not found, with several as ambiguous.
pub open spec fn uninstall_target(installed: Seq<ToolModel>, requested: ToolModel) -> Result<
    Seq<char>,
    UninstallErrorModel,
> {
    let matching = installed.filter(same_tool_pred(requested));
    if matching.len() == 0 {
        Err(UninstallErrorModel::NotFound(requested.display_name))
    } else if matching.len() != 1 {
        Err(UninstallErrorModel::Ambiguous(matching.len()))
    } else {
        Ok(matching[0].path)
    }
}

/// Whether `tool` is the tool that `requested` names.
pub fn is_same_tool(tool: &SteamCompatibilityTool, requested: &SteamCompatibilityTool) -> (out:
    bool)
    ensures
        out == same_tool(tool@, requested@),
{
    tool.path == requested.path && tool.internal_name == requested.internal_name
        && tool.display_name == requested.display_name
}

/// Checks an uninstall request against the installed tools and gives the
/// directory to delete.
pub fn find_uninstall_target(
    installed: &Vec<SteamCompatibilityTool>,
    requested: &SteamCompatibilityTool,
) -> (out: Result<String, UninstallError>)
    ensures
        match out {
            Ok(path) => uninstall_target(installed.deep_view(), requested@) == Ok::<
                Seq<char>,
                UninstallErrorModel,
            >(path@),
            Err(error) => uninstall_target(installed.deep_view(), requested@) == Err::<
                Seq<char>,
                UninstallErrorModel,
            >(error@),
        },
{
    let ghost models = installed.deep_view();
    let ghost pred = same_tool_pred(requested@);
    let mut found: usize = 0;
    let mut first: usize = 0;
    let mut i: usize = 0;
    assert(models.take(0).filter(pred) =~= Seq::empty()) by {
        reveal(Seq::filter);
    }
    while i < installed.len()
        invariant
            i <= installed.len(),
            models == installed.deep_view(),
            pred == same_tool_pred(requested@),
            found == models.take(i as int).filter(pred).len(),
            found <= i,
            found > 0 ==> first < i && models.take(i as int).filter(pred)[0] == models[first as int],
        decreases installed.len() - i,
    {
        proof {
            lemma_filter_step(models, pred, i as int);
        }
        if is_same_tool(&installed[i], requested) {
            if found == 0 {
                first = i;
            }
            found += 1;
        }
        i += 1;
    }
    assert(models.take(i as int) =~= models);
    if found == 0 {
        Err(UninstallError::NotFound(requested.display_name.clone()))
    } else if found != 1 {
        Err(UninstallError::Ambiguous(found))
    } else {
        Ok(installed[first].path.clone())
    }
}

/// A request that names no installed tool is always refused, and the refusal
/// names no directory.
pub proof fn lemma_unknown_tool_is_refused(installed: Seq<ToolModel>, requested: ToolModel)
    requires
        forall|i: int| 0 <= i < installed.len() ==> !same_tool(#[trigger] installed[i], requested),
    ensures
        uninstall_target(installed, requested) == Err::<Seq<char>, UninstallErrorModel>(
            UninstallErrorModel::NotFound(requested.display_name),
        ),
{
    let pred = same_tool_pred(requested);
    let matching = installed.filter(pred);
    if matching.len() > 0 {
        installed.lemma_filter_pred(pred, 0);
        installed.lemma_filter_contains_rev(pred, matching[0]);
    }
}

/// A granted uninstall deletes the directory of the one installed tool that
/// the request names, which is the directory that the request itself gives.
pub proof fn lemma_uninstall_deletes_requested_path(
    installed: Seq<ToolModel>,
    requested: ToolModel,
)
    requires
        uninstall_target(installed, requested) is Ok,
    ensures
        uninstall_target(installed, requested) == Ok::<Seq<char>, UninstallErrorModel>(
            requested.path,
        ),
{
    let pred = same_tool_pred(requested);
    installed.lemma_filter_pred(pred, 0);
}

/// What a finished removal does to `state`: after a removal that worked the
/// state is reconciled with a fresh scan of the install directory, after one
/// that failed it stays as it is.
pub open spec fn after_removal(
    state: AppStateModel,
    removal: Result<(), Seq<char>>,
    scanned: Seq<CompatibilityToolModel>,
    mapping: Map<u64, Seq<char>>,
    games: Seq<SteamAppModel>,
) -> AppStateModel {
    match removal {
        Ok(_) => reconciled(state, scanned, mapping, games),
        Err(_) => state,
    }
}

/// The notice shown after a removal, if there is one to show.
pub open spec fn removal_notice(removal: Result<(), Seq<char>>) -> Option<Seq<char>> {
    match removal {
        Ok(_) => None,
        Err(why) => Some(uninstall_notice(UninstallErrorModel::Removal(why))),
    }
}

impl AppState {
    /// Checks a request to uninstall `steam_compatibility_tool` and gives the
    /// directory to delete. Nothing is changed.
    pub fn uninstall_compatibility_tool(&self, steam_compatibility_tool: &SteamCompatibilityTool) -> (out:
        Result<String, UninstallError>)
        ensures
            match out {
                Ok(path) => uninstall_target(
                    self@.installed_compatibility_tools,
                    steam_compatibility_tool@,
                ) == Ok::<Seq<char>, UninstallErrorModel>(path@),
                Err(error) => uninstall_target(
                    self@.installed_compatibility_tools,
                    steam_compatibility_tool@,
                ) == Err::<Seq<char>, UninstallErrorModel>(error@),
            },
    {
        find_uninstall_target(&self.installed_compatibility_tools, steam_compatibility_tool)
    }

    /// Takes in how deleting the tool's directory went, with the failure in
    /// words where it failed, and gives the notice to show, if any.
    pub fn finish_uninstall(
        &mut self,
        removal: Result<(), String>,
        scanned: &Vec<CompatibilityTool>,
        mapping: &HashMap<u64, String>,
        games: &Vec<SteamApp>,
    ) -> (out: Option<String>)
        ensures
            final(self)@ == after_removal(
                old(self)@,
                match removal {
                    Ok(_) => Ok(()),
                    Err(why) => Err(why@),
                },
                scanned.deep_view(),
                usage_mapping(mapping@),
                games.deep_view(),
            ),
            out.deep_view() == removal_notice(
                match removal {
                    Ok(_) => Ok(()),
                    Err(why) => Err(why@),
                },
            ),
    {
        match removal {
            Ok(_) => {
                self.sync_backend_with_installed_compat_tools(scanned, mapping, games);
                None
            },
            Err(why) => Some(UninstallError::Removal(why).notice()),
        }
    }
}

} // verus!
