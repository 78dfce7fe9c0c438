//! The host platform's directories and configuration, as far as the tools and
//! the games that use them are concerned.

use std::collections::HashMap;
use vstd::prelude::*;
use vstd::string::StringExecFns;
use crate::search::{first_index, lemma_first_index_found, lemma_first_index_none};
use crate::text::{join_path, joined_path, parse_u64, parsed_u64};
use crate::vdf::{
    child_block,
    child_text,
    field_values,
    get_child_block,
    get_values,
    first_block,
    get_child_text,
    get_first_block,
    get_leading_block,
    leading_block,
    lemma_entry_view,
    node_block,
    outcome_model,
    parse_vdf,
    reading_model,
    VdfEntry,
    VdfField,
    VdfNode,
    VdfValue,
};

verus! {

/// What can go wrong while reading the host platform's files.
#[derive(Debug)]
pub enum SteamUtilError {
    /// The home directory could not be found.
    HomeDirectoryNotFound,
    /// The host's install root could not be found.
    SteamDirectoryNotFound,
    /// The compatibility tools directory could not be created.
    CompatibilityToolsDirectoryCreationFailed,
    /// The applications directory could not be found.
    SteamAppsDirectoryNotFound,
    /// The list of library folders could not be found.
    LibraryFoldersVdfNotFound,
    /// The host's configuration file could not be found.
    SteamConfigVdfNotFound,
    /// A file is no key-value document; the text says more.
    VdfParsingError(String),
    /// A key-value document lacks an entry; the text says which.
    VdfMissingEntry(String),
}

/// What a [`SteamUtilError`] holds, as mathematical values.
pub enum SteamUtilErrorModel {
    HomeDirectoryNotFound,
    SteamDirectoryNotFound,
    CompatibilityToolsDirectoryCreationFailed,
    SteamAppsDirectoryNotFound,
    LibraryFoldersVdfNotFound,
    SteamConfigVdfNotFound,
    VdfParsingError(Seq<char>),
    VdfMissingEntry(Seq<char>),
}

impl View for SteamUtilError {
    type V = SteamUtilErrorModel;

    open spec fn view(&self) -> SteamUtilErrorModel {
        match self {
            SteamUtilError::HomeDirectoryNotFound => SteamUtilErrorModel::HomeDirectoryNotFound,
            SteamUtilError::SteamDirectoryNotFound => SteamUtilErrorModel::SteamDirectoryNotFound,
            SteamUtilError::CompatibilityToolsDirectoryCreationFailed => {
                SteamUtilErrorModel::CompatibilityToolsDirectoryCreationFailed
            },
            SteamUtilError::SteamAppsDirectoryNotFound => {
                SteamUtilErrorModel::SteamAppsDirectoryNotFound
            },
            SteamUtilError::LibraryFoldersVdfNotFound => {
                SteamUtilErrorModel::LibraryFoldersVdfNotFound
            },
            SteamUtilError::SteamConfigVdfNotFound => SteamUtilErrorModel::SteamConfigVdfNotFound,
            SteamUtilError::VdfParsingError(s) => SteamUtilErrorModel::VdfParsingError(s@),
            SteamUtilError::VdfMissingEntry(s) => SteamUtilErrorModel::VdfMissingEntry(s@),
        }
    }
}

/// The line shown for an error.
pub open spec fn steam_error_message(error: SteamUtilErrorModel) -> Seq<char> {
    match error {
        SteamUtilErrorModel::HomeDirectoryNotFound => "Home directory not found"@,
        SteamUtilErrorModel::SteamDirectoryNotFound => "Steam directory not found"@,
        SteamUtilErrorModel::CompatibilityToolsDirectoryCreationFailed => {
            "Steam compatibility tools directory could not be created!"@
        },
        SteamUtilErrorModel::SteamAppsDirectoryNotFound => "Steam apps directory not found"@,
        SteamUtilErrorModel::LibraryFoldersVdfNotFound => {
            "Steam library folders VDF file not found"@
        },
        SteamUtilErrorModel::SteamConfigVdfNotFound => "Steam config file not found"@,
        SteamUtilErrorModel::VdfParsingError(s) => "Failed to parse VDF file: "@ + s,
        SteamUtilErrorModel::VdfMissingEntry(s) => "Missing VDF entry: "@ + s,
    }
}

impl SteamUtilError {
    /// The line shown for this error.
    pub fn message(&self) -> (out: String)
        ensures
            out@ == steam_error_message(self@),
    {
        match self {
            SteamUtilError::HomeDirectoryNotFound => String::from_str("Home directory not found"),
            SteamUtilError::SteamDirectoryNotFound => String::from_str(
                "Steam directory not found",
            ),
            SteamUtilError::CompatibilityToolsDirectoryCreationFailed => String::from_str(
                "Steam compatibility tools directory could not be created!",
            ),
            SteamUtilError::SteamAppsDirectoryNotFound => String::from_str(
                "Steam apps directory not found",
            ),
            SteamUtilError::LibraryFoldersVdfNotFound => String::from_str(
                "Steam library folders VDF file not found",
            ),
            SteamUtilError::SteamConfigVdfNotFound => String::from_str(
                "Steam config file not found",
            ),
            SteamUtilError::VdfParsingError(s) => String::from_str(
                "Failed to parse VDF file: ",
            ).concat(s.as_str()),
            SteamUtilError::VdfMissingEntry(s) => String::from_str("Missing VDF entry: ").concat(
                s.as_str(),
            ),
        }
    }
}

impl Clone for SteamUtilError {
    fn clone(&self) -> (out: Self)
        ensures
            out@ == self@,
    {
        match self {
            SteamUtilError::HomeDirectoryNotFound => SteamUtilError::HomeDirectoryNotFound,
            SteamUtilError::SteamDirectoryNotFound => SteamUtilError::SteamDirectoryNotFound,
            SteamUtilError::CompatibilityToolsDirectoryCreationFailed => {
                SteamUtilError::CompatibilityToolsDirectoryCreationFailed
            },
            SteamUtilError::SteamAppsDirectoryNotFound => {
                SteamUtilError::SteamAppsDirectoryNotFound
            },
            SteamUtilError::LibraryFoldersVdfNotFound => SteamUtilError::LibraryFoldersVdfNotFound,
            SteamUtilError::SteamConfigVdfNotFound => SteamUtilError::SteamConfigVdfNotFound,
            SteamUtilError::VdfParsingError(s) => SteamUtilError::VdfParsingError(s.clone()),
            SteamUtilError::VdfMissingEntry(s) => SteamUtilError::VdfMissingEntry(s.clone()),
        }
    }
}

/// A compatibility tool as its descriptor file describes it.
#[derive(Debug)]
pub struct CompatibilityTool {
    /// The tool's directory.
    pub path: String,
    /// The last component of `path`.
    pub directory_name: String,
    pub internal_name: String,
    pub display_name: String,
    pub from_os_list: String,
    pub to_os_list: String,
}

/// What a [`CompatibilityTool`] holds, as mathematical values.
pub struct CompatibilityToolModel {
    pub path: Seq<char>,
    pub directory_name: Seq<char>,
    pub internal_name: Seq<char>,
    pub display_name: Seq<char>,
    pub from_os_list: Seq<char>,
    pub to_os_list: Seq<char>,
}

impl View for CompatibilityTool {
    type V = CompatibilityToolModel;

    open spec fn view(&self) -> CompatibilityToolModel {
        CompatibilityToolModel {
            path: self.path@,
            directory_name: self.directory_name@,
            internal_name: self.internal_name@,
            display_name: self.display_name@,
            from_os_list: self.from_os_list@,
            to_os_list: self.to_os_list@,
        }
    }
}

impl DeepView for CompatibilityTool {
    type V = CompatibilityToolModel;

    open spec fn deep_view(&self) -> CompatibilityToolModel {
        self@
    }
}

impl Clone for CompatibilityTool {
    fn clone(&self) -> (out: Self)
        ensures
            out@ == self@,
    {
        CompatibilityTool {
            path: self.path.clone(),
            directory_name: self.directory_name.clone(),
            internal_name: self.internal_name.clone(),
            display_name: self.display_name.clone(),
            from_os_list: self.from_os_list.clone(),
            to_os_list: self.to_os_list.clone(),
        }
    }
}

/// An installed game.
#[derive(Debug)]
pub struct SteamApp {
    pub app_id: u64,
    pub name: String,
}

/// What a [`SteamApp`] holds, as mathematical values.
pub struct SteamAppModel {
    pub app_id: u64,
    pub name: Seq<char>,
}

impl View for SteamApp {
    type V = SteamAppModel;

    open spec fn view(&self) -> SteamAppModel {
        SteamAppModel { app_id: self.app_id, name: self.name@ }
    }
}

impl DeepView for SteamApp {
    type V = SteamAppModel;

    open spec fn deep_view(&self) -> SteamAppModel {
        self@
    }
}

/// Where the host platform is installed.
#[derive(Debug)]
pub struct SteamUtil {
    steam_path: String,
}

impl View for SteamUtil {
    type V = Seq<char>;

    closed spec fn view(&self) -> Seq<char> {
        self.steam_path@
    }
}

/// The places under a home directory where the host's install root may be,
/// in the order in which they are tried.
pub open spec fn steam_root_candidates() -> Seq<Seq<char>> {
    seq![
        ".local/share/Steam"@,
        ".steam/root"@,
        ".steam/steam"@,
        ".steam/debian-installation"@,
        ".var/app/com.valvesoftware.Steam/data/Steam"@,
    ]
}

/// What was found at one candidate for the install root.
#[derive(Clone, Copy, Debug, PartialEq, Eq, Structural)]
pub struct RootProbe {
    /// Whether the host's configuration file is there.
    pub has_config: bool,
    /// Whether the list of library folders is there beside it.
    pub has_library_folders: bool,
}

/// Whether a candidate holds both files that mark an install root.
pub open spec fn is_root(probe: RootProbe) -> bool {
    probe.has_config && probe.has_library_folders
}

/// [`is_root`] as a predicate.
pub open spec fn root_pred() -> spec_fn(RootProbe) -> bool {
    |probe: RootProbe| is_root(probe)
}

/// The probes that count: one for each candidate, in order.
pub open spec fn counted_probes(probes: Seq<RootProbe>) -> Seq<RootProbe> {
    if probes.len() > steam_root_candidates().len() {
        probes.take(steam_root_candidates().len() as int)
    } else {
        probes
    }
}

/// The home directory to look under: the one given, else the user's profile
/// directory, else the user's home directory.
pub open spec fn chosen_home(
    given: Option<Seq<char>>,
    user_profile: Option<Seq<char>>,
    home: Option<Seq<char>>,
) -> Option<Seq<char>> {
    if given is Some {
        given
    } else if user_profile is Some {
        user_profile
    } else {
        home
    }
}

/// The host's install root under `home`: the first candidate whose probe
/// shows both marker files.
pub open spec fn found_root(home: Option<Seq<char>>, probes: Seq<RootProbe>) -> Result<
    Seq<char>,
    SteamUtilErrorModel,
> {
    match home {
        None => Err(SteamUtilErrorModel::HomeDirectoryNotFound),
        Some(home) => match first_index(counted_probes(probes), root_pred()) {
            Some(i) => Ok(joined_path(home, steam_root_candidates()[i])),
            None => Err(SteamUtilErrorModel::SteamDirectoryNotFound),
        },
    }
}

/// The name of the directory, under the install root, that holds the
/// compatibility tools.
pub open spec fn compatibility_tools_directory_name() -> Seq<char> {
    "compatibilitytools.d"@
}

impl SteamUtil {
    /// A handle on the host platform installed at `steam_home`.
    pub fn new(steam_home: String) -> (out: Self)
        ensures
            out@ == steam_home@,
    {
        Self { steam_path: steam_home }
    }

    /// The install root.
    pub fn steam_path(&self) -> (out: &String)
        ensures
            out@ == self@,
    {
        &self.steam_path
    }

    /// The places under a home directory where the install root may be, in
    /// the order in which they are tried.
    pub fn possible_steam_roots() -> (out: Vec<&'static str>)
        ensures
            out.deep_view() == steam_root_candidates(),
    {
        let mut out: Vec<&'static str> = Vec::new();
        out.push(".local/share/Steam");
        out.push(".steam/root");
        out.push(".steam/steam");
        out.push(".steam/debian-installation");
        out.push(".var/app/com.valvesoftware.Steam/data/Steam");
        out
    }

    /// The home directory to look under.
    pub fn user_home(given: Option<String>, user_profile: Option<String>, home: Option<String>) -> (out:
        Option<String>)
        ensures
            out.deep_view() == chosen_home(
                given.deep_view(),
                user_profile.deep_view(),
                home.deep_view(),
            ),
    {
        if given.is_some() {
            given
        } else if user_profile.is_some() {
            user_profile
        } else {
            home
        }
    }

    /// Finds the install root under `user_home_directory`. `probes` says, for
    /// each candidate in turn, which of the two marker files are there.
    pub fn find_steam_directory(user_home_directory: Option<String>, probes: &Vec<RootProbe>) -> (out:
        Result<String, SteamUtilError>)
        ensures
            match out {
                Ok(path) => found_root(user_home_directory.deep_view(), probes@) == Ok::<
                    Seq<char>,
                    SteamUtilErrorModel,
                >(path@),
                Err(error) => found_root(user_home_directory.deep_view(), probes@) == Err::<
                    Seq<char>,
                    SteamUtilErrorModel,
                >(error@),
            },
    {
        let home = match user_home_directory {
            Some(home) => home,
            None => {
                return Err(SteamUtilError::HomeDirectoryNotFound);
            },
        };
        let roots = Self::possible_steam_roots();
        let ghost counted = counted_probes(probes@);
        let mut i: usize = 0;
        while i < roots.len() && i < probes.len()
            invariant
                i <= roots.len(),
                i <= probes.len(),
                roots.deep_view() == steam_root_candidates(),
                counted == counted_probes(probes@),
                user_home_directory.deep_view() == Some(home@),
                forall|j: int| 0 <= j < i ==> !root_pred()(#[trigger] counted[j]),
            decreases roots.len() - i,
        {
            if probes[i].has_config && probes[i].has_library_folders {
                proof {
                    lemma_first_index_found(counted, root_pred(), i as int);
                }
                return Ok(join_path(home.as_str(), roots[i]));
            }
            i += 1;
        }
        proof {
            lemma_first_index_none(counted, root_pred());
        }
        Err(SteamUtilError::SteamDirectoryNotFound)
    }

    /// Finds the host platform under `home`.
    pub fn find(home: Option<String>, probes: &Vec<RootProbe>) -> (out: Result<Self, SteamUtilError>)
        ensures
            match out {
                Ok(found) => found_root(home.deep_view(), probes@) == Ok::<
                    Seq<char>,
                    SteamUtilErrorModel,
                >(found@),
                Err(error) => found_root(home.deep_view(), probes@) == Err::<
                    Seq<char>,
                    SteamUtilErrorModel,
                >(error@),
            },
    {
        match Self::find_steam_directory(home, probes) {
            Ok(steam_home) => Ok(Self { steam_path: steam_home }),
            Err(err) => Err(err),
        }
    }

    /// The directory that holds the compatibility tools.
    pub fn get_steam_compatibility_tools_directory(&self) -> (out: String)
        ensures
            out@ == joined_path(self@, compatibility_tools_directory_name()),
    {
        join_path(self.steam_path.as_str(), "compatibilitytools.d")
    }
}

/// The error for a document that is not built as expected.
pub open spec fn invalid_structure() -> SteamUtilErrorModel {
    SteamUtilErrorModel::VdfParsingError("Invalid VDF structure"@)
}

/// The tool that a descriptor document describes.
///
/// `root` is the value under the document's root key. Its first entry holds
/// the block of tools, whose first entry is the tool: the key is the internal
/// name, the value a block that gives the display name and the two operating
/// system lists. `path` is the tool's directory and `directory_name` the last
/// component of it, each where it could be told.
pub open spec fn compatibility_tool_in(
    root: VdfNode,
    path: Option<Seq<char>>,
    directory_name: Option<Seq<char>>,
) -> Result<CompatibilityToolModel, SteamUtilErrorModel> {
    let tools = match node_block(root) {
        Some(top) => leading_block(top),
        None => None,
    };
    if tools is None {
        Err(invalid_structure())
    } else if path is None {
        Err(SteamUtilErrorModel::VdfMissingEntry("Parent directory not found"@))
    } else if directory_name is None {
        Err(SteamUtilErrorModel::VdfMissingEntry("Directory name not found"@))
    } else if tools->0.len() == 0 {
        Err(SteamUtilErrorModel::VdfMissingEntry("Internal name not found"@))
    } else {
        let tool = tools->0[0];
        match first_block(tool.values) {
            None => Err(SteamUtilErrorModel::VdfMissingEntry("Internal value not found"@)),
            Some(fields) => if child_text(fields, "display_name"@) is None {
                Err(SteamUtilErrorModel::VdfMissingEntry("Display name not found"@))
            } else if child_text(fields, "from_oslist"@) is None {
                Err(SteamUtilErrorModel::VdfMissingEntry("From OS list not found"@))
            } else if child_text(fields, "to_oslist"@) is None {
                Err(SteamUtilErrorModel::VdfMissingEntry("To OS list not found"@))
            } else {
                Ok(
                    CompatibilityToolModel {
                        path: path->0,
                        directory_name: directory_name->0,
                        internal_name: tool.key,
                        display_name: child_text(fields, "display_name"@)->0,
                        from_os_list: child_text(fields, "from_oslist"@)->0,
                        to_os_list: child_text(fields, "to_oslist"@)->0,
                    },
                )
            },
        }
    }
}

/// The tool that a descriptor file describes, given what reading the file
/// came to: the tool in the tree, or the parser's words as a parsing error.
pub open spec fn compatibility_tool_from(
    parsed: Result<VdfNode, Seq<char>>,
    path: Option<Seq<char>>,
    directory_name: Option<Seq<char>>,
) -> Result<CompatibilityToolModel, SteamUtilErrorModel> {
    match parsed {
        Ok(root) => compatibility_tool_in(root, path, directory_name),
        Err(why) => Err(SteamUtilErrorModel::VdfParsingError(why)),
    }
}

/// A descriptor file found in the install directory.
#[derive(Debug)]
pub struct DescriptorFile {
    /// What the file holds, where it could be read.
    pub text: Option<String>,
    /// The directory the file lies in, where it has one.
    pub path: Option<String>,
    /// The last component of that directory, where it has one.
    pub directory_name: Option<String>,
}

/// What a [`DescriptorFile`] holds, as mathematical values.
pub struct DescriptorFileModel {
    pub text: Option<Seq<char>>,
    pub path: Option<Seq<char>>,
    pub directory_name: Option<Seq<char>>,
}

impl View for DescriptorFile {
    type V = DescriptorFileModel;

    open spec fn view(&self) -> DescriptorFileModel {
        DescriptorFileModel {
            text: self.text.deep_view(),
            path: self.path.deep_view(),
            directory_name: self.directory_name.deep_view(),
        }
    }
}

impl DeepView for DescriptorFile {
    type V = DescriptorFileModel;

    open spec fn deep_view(&self) -> DescriptorFileModel {
        self@
    }
}

/// A descriptor file after the parser has been through it.
#[derive(Debug)]
pub struct ParsedDescriptor {
    /// What reading the file's text came to; nothing where there was no text.
    pub parsed: Option<Result<VdfValue, String>>,
    /// The directory the file lies in, where it has one.
    pub path: Option<String>,
    /// The last component of that directory, where it has one.
    pub directory_name: Option<String>,
}

/// What a [`ParsedDescriptor`] holds, as mathematical values.
pub struct ParsedDescriptorModel {
    pub parsed: Option<Result<VdfNode, Seq<char>>>,
    pub path: Option<Seq<char>>,
    pub directory_name: Option<Seq<char>>,
}

impl View for ParsedDescriptor {
    type V = ParsedDescriptorModel;

    open spec fn view(&self) -> ParsedDescriptorModel {
        ParsedDescriptorModel {
            parsed: reading_model(self.parsed),
            path: self.path.deep_view(),
            directory_name: self.directory_name.deep_view(),
        }
    }
}

impl DeepView for ParsedDescriptor {
    type V = ParsedDescriptorModel;

    open spec fn deep_view(&self) -> ParsedDescriptorModel {
        self@
    }
}

/// Whether `parsed` is what reading one descriptor file may come to: the
/// same place, and an outcome exactly where the file had a text.
pub open spec fn is_descriptor_reading(
    parsed: ParsedDescriptorModel,
    file: DescriptorFileModel,
) -> bool {
    &&& parsed.path == file.path
    &&& parsed.directory_name == file.directory_name
    &&& parsed.parsed is Some <==> file.text is Some
}

/// Whether `parsed` is what reading `files` may come to, file by file.
pub open spec fn are_descriptor_readings(
    parsed: Seq<ParsedDescriptorModel>,
    files: Seq<DescriptorFileModel>,
) -> bool {
    &&& parsed.len() == files.len()
    &&& forall|i: int|
        0 <= i < files.len() ==> is_descriptor_reading(#[trigger] parsed[i], files[i])
}

/// The tool that a descriptor file describes, where it describes one.
pub open spec fn described_tool(file: ParsedDescriptorModel) -> Option<CompatibilityToolModel> {
    match file.parsed {
        Some(parsed) => match compatibility_tool_from(parsed, file.path, file.directory_name) {
            Ok(tool) => Some(tool),
            Err(_) => None,
        },
        None => None,
    }
}

/// The tools that the descriptor files describe, in the order of the files.
/// A file that describes none is passed over.
pub open spec fn described_tools(files: Seq<ParsedDescriptorModel>) -> Seq<CompatibilityToolModel>
    decreases files.len(),
{
    if files.len() == 0 {
        Seq::empty()
    } else {
        match described_tool(files.last()) {
            Some(tool) => described_tools(files.drop_last()).push(tool),
            None => described_tools(files.drop_last()),
        }
    }
}

/// What reading a tool gave, as a mathematical value.
pub open spec fn tool_result(out: Result<CompatibilityTool, SteamUtilError>) -> Result<
    CompatibilityToolModel,
    SteamUtilErrorModel,
> {
    match out {
        Ok(tool) => Ok(tool@),
        Err(error) => Err(error@),
    }
}

/// What reading a tool mapping gave, as a mathematical value.
pub open spec fn mappings_result(out: Result<HashMap<u64, String>, SteamUtilError>) -> Result<
    Map<u64, Seq<char>>,
    SteamUtilErrorModel,
> {
    match out {
        Ok(mapping) => Ok(usage_mapping(mapping@)),
        Err(error) => Err(error@),
    }
}

/// What reading the library folders gave, as a mathematical value.
pub open spec fn folders_result(out: Result<Vec<String>, SteamUtilError>) -> Result<
    Seq<Seq<char>>,
    SteamUtilErrorModel,
> {
    match out {
        Ok(folders) => Ok(folders.deep_view()),
        Err(error) => Err(error@),
    }
}

/// What reading a game gave, as a mathematical value.
pub open spec fn app_result(out: Result<SteamApp, SteamUtilError>) -> Result<
    SteamAppModel,
    SteamUtilErrorModel,
> {
    match out {
        Ok(app) => Ok(app@),
        Err(error) => Err(error@),
    }
}

fn missing_entry(what: &str) -> (out: SteamUtilError)
    ensures
        out@ == SteamUtilErrorModel::VdfMissingEntry(what@),
{
    SteamUtilError::VdfMissingEntry(String::from_str(what))
}

fn clone_optional_text(text: &Option<String>) -> (out: Option<String>)
    ensures
        out.deep_view() == text.deep_view(),
{
    match text {
        Some(text) => Some(text.clone()),
        None => None,
    }
}

impl SteamUtil {
    /// Reads the tool that a parsed descriptor document describes.
    pub fn read_compatibility_tool(
        root: &VdfValue,
        path: Option<String>,
        directory_name: Option<String>,
    ) -> (out: Result<CompatibilityTool, SteamUtilError>)
        ensures
            match out {
                Ok(tool) => compatibility_tool_in(
                    root@,
                    path.deep_view(),
                    directory_name.deep_view(),
                ) == Ok::<CompatibilityToolModel, SteamUtilErrorModel>(tool@),
                Err(error) => compatibility_tool_in(
                    root@,
                    path.deep_view(),
                    directory_name.deep_view(),
                ) == Err::<CompatibilityToolModel, SteamUtilErrorModel>(error@),
            },
    {
        let tools = match root.get_obj() {
            Some(top) => get_leading_block(top),
            None => None,
        };
        let tools = match tools {
            Some(tools) => tools,
            None => {
                return Err(
                    SteamUtilError::VdfParsingError(String::from_str("Invalid VDF structure")),
                );
            },
        };
        let path = match path {
            Some(path) => path,
            None => {
                return Err(missing_entry("Parent directory not found"));
            },
        };
        let directory_name = match directory_name {
            Some(name) => name,
            None => {
                return Err(missing_entry("Directory name not found"));
            },
        };
        if tools.len() == 0 {
            return Err(missing_entry("Internal name not found"));
        }
        let tool = &tools[0];
        proof {
            lemma_entry_view(tool);
        }
        let fields = match get_first_block(&tool.values) {
            Some(fields) => fields,
            None => {
                return Err(missing_entry("Internal value not found"));
            },
        };
        let display_name = match get_child_text(fields, "display_name") {
            Some(text) => text.clone(),
            None => {
                return Err(missing_entry("Display name not found"));
            },
        };
        let from_os_list = match get_child_text(fields, "from_oslist") {
            Some(text) => text.clone(),
            None => {
                return Err(missing_entry("From OS list not found"));
            },
        };
        let to_os_list = match get_child_text(fields, "to_oslist") {
            Some(text) => text.clone(),
            None => {
                return Err(missing_entry("To OS list not found"));
            },
        };
        Ok(
            CompatibilityTool {
                path,
                directory_name,
                internal_name: tool.key.clone(),
                display_name,
                from_os_list,
                to_os_list,
            },
        )
    }

    /// Settles what a descriptor file describes, once the parser has been
    /// through its text. `path` is the directory the file lies in,
    /// `directory_name` its last component.
    pub fn compatibility_tool_from_parsed(
        parsed: &Result<VdfValue, String>,
        path: Option<String>,
        directory_name: Option<String>,
    ) -> (out: Result<CompatibilityTool, SteamUtilError>)
        ensures
            match out {
                Ok(tool) => compatibility_tool_from(
                    outcome_model(*parsed),
                    path.deep_view(),
                    directory_name.deep_view(),
                ) == Ok::<CompatibilityToolModel, SteamUtilErrorModel>(tool@),
                Err(error) => compatibility_tool_from(
                    outcome_model(*parsed),
                    path.deep_view(),
                    directory_name.deep_view(),
                ) == Err::<CompatibilityToolModel, SteamUtilErrorModel>(error@),
            },
    {
        match parsed {
            Ok(root) => Self::read_compatibility_tool(root, path, directory_name),
            Err(why) => Err(SteamUtilError::VdfParsingError(why.clone())),
        }
    }

    /// Reads the tool that the text of a descriptor file describes. `path` is
    /// the directory the file lies in, `directory_name` its last component.
    ///
    /// The result is what [`Self::compatibility_tool_from_parsed`] makes of
    /// the parser's outcome, whatever that outcome is.
    pub fn read_compatibility_tool_from_vdf_path(
        text: &str,
        path: Option<String>,
        directory_name: Option<String>,
    ) -> (out: Result<CompatibilityTool, SteamUtilError>)
        ensures
            exists|parsed: Result<VdfNode, Seq<char>>|
                tool_result(out) == #[trigger] compatibility_tool_from(
                    parsed,
                    path.deep_view(),
                    directory_name.deep_view(),
                ),
    {
        let ghost place = path.deep_view();
        let ghost name = directory_name.deep_view();
        let parsed = parse_vdf(text);
        let out = Self::compatibility_tool_from_parsed(&parsed, path, directory_name);
        assert(tool_result(out) == compatibility_tool_from(outcome_model(parsed), place, name));
        out
    }

    /// Runs the parser over the text of every descriptor file.
    pub fn parse_descriptors(files: &Vec<DescriptorFile>) -> (out: Vec<ParsedDescriptor>)
        ensures
            are_descriptor_readings(out.deep_view(), files.deep_view()),
    {
        let mut out: Vec<ParsedDescriptor> = Vec::new();
        let mut i: usize = 0;
        while i < files.len()
            invariant
                i <= files.len(),
                out.len() == i,
                forall|j: int|
                    0 <= j < i ==> is_descriptor_reading(
                        #[trigger] out.deep_view()[j],
                        files.deep_view()[j],
                    ),
            decreases files.len() - i,
        {
            let file = &files[i];
            let ghost before = out.deep_view();
            let parsed = ParsedDescriptor {
                parsed: match &file.text {
                    Some(text) => Some(parse_vdf(text.as_str())),
                    None => None,
                },
                path: clone_optional_text(&file.path),
                directory_name: clone_optional_text(&file.directory_name),
            };
            assert(is_descriptor_reading(parsed@, file@));
            out.push(parsed);
            assert(out.deep_view() =~= before.push(parsed@));
            i += 1;
        }
        out
    }

    /// The tools that the descriptor files describe, once the parser has
    /// been through them.
    pub fn compatibility_tools_from_parsed(files: &Vec<ParsedDescriptor>) -> (out: Vec<
        CompatibilityTool,
    >)
        ensures
            out.deep_view() == described_tools(files.deep_view()),
    {
        let ghost models = files.deep_view();
        let mut out: Vec<CompatibilityTool> = Vec::new();
        let mut i: usize = 0;
        while i < files.len()
            invariant
                i <= files.len(),
                models == files.deep_view(),
                out.deep_view() == described_tools(models.take(i as int)),
            decreases files.len() - i,
        {
            let file = &files[i];
            proof {
                assert(models.take(i + 1).drop_last() =~= models.take(i as int));
            }
            match &file.parsed {
                Some(parsed) => {
                    match Self::compatibility_tool_from_parsed(
                        parsed,
                        clone_optional_text(&file.path),
                        clone_optional_text(&file.directory_name),
                    ) {
                        Ok(tool) => {
                            out.push(tool);
                        },
                        Err(_) => {},
                    }
                },
                None => {},
            }
            i += 1;
        }
        assert(models.take(i as int) =~= models);
        out
    }

    /// The tools that the descriptor files of the install directory describe.
    ///
    /// The result is what [`Self::compatibility_tools_from_parsed`] makes of
    /// the parser's outcomes, one for each file that has a text, whatever
    /// those outcomes are.
    pub fn list_compatibility_tools(files: &Vec<DescriptorFile>) -> (out: Vec<CompatibilityTool>)
        ensures
            exists|parsed: Seq<ParsedDescriptorModel>|
                are_descriptor_readings(parsed, files.deep_view()) && out.deep_view()
                    == #[trigger] described_tools(parsed),
    {
        let parsed = Self::parse_descriptors(files);
        Self::compatibility_tools_from_parsed(&parsed)
    }
}

/// Which tool each game is set to run with, by the game's id.
pub open spec fn usage_mapping(mapping: Map<u64, String>) -> Map<u64, Seq<char>> {
    Map::new(|id: u64| mapping.contains_key(id), |id: u64| mapping[id]@)
}

/// The game and the tool that one entry of the tool mapping names.
pub open spec fn mapping_entry(field: VdfField) -> Result<(u64, Seq<char>), SteamUtilErrorModel> {
    match parsed_u64(field.key) {
        None => Err(SteamUtilErrorModel::VdfMissingEntry("Error parsing key to u64"@)),
        Some(id) => match first_block(field.values) {
            None => Err(SteamUtilErrorModel::VdfMissingEntry("Key object not found"@)),
            Some(fields) => match child_text(fields, "name"@) {
                None => Err(
                    SteamUtilErrorModel::VdfMissingEntry("Compat tool name not found or invalid"@),
                ),
                Some(name) => Ok((id, name)),
            },
        },
    }
}

/// The tool mapping that the entries give, read in order. An entry that
/// names no tool is passed over, a later entry for a game replaces an earlier
/// one, and the first entry that cannot be read fails the whole.
pub open spec fn mappings_of(fields: Seq<VdfField>) -> Result<
    Map<u64, Seq<char>>,
    SteamUtilErrorModel,
>
    decreases fields.len(),
{
    if fields.len() == 0 {
        Ok(Map::empty())
    } else {
        match mappings_of(fields.drop_last()) {
            Err(error) => Err(error),
            Ok(mapping) => match mapping_entry(fields.last()) {
                Err(error) => Err(error),
                Ok((id, name)) => if name.len() == 0 {
                    Ok(mapping)
                } else {
                    Ok(mapping.insert(id, name))
                },
            },
        }
    }
}

/// The block of the host's configuration that maps games to tools: it is
/// reached through the keys `Software`, `Valve` or else `valve`, `Steam`
/// and `CompatToolMapping`.
pub open spec fn tool_mapping_block(root: VdfNode) -> Result<Seq<VdfField>, SteamUtilErrorModel> {
    let software = match node_block(root) {
        Some(top) => child_block(top, "Software"@),
        None => None,
    };
    if software is None {
        Err(SteamUtilErrorModel::VdfMissingEntry("Software object not found"@))
    } else {
        let valve = if field_values(software->0, "Valve"@) is Some {
            child_block(software->0, "Valve"@)
        } else {
            child_block(software->0, "valve"@)
        };
        if valve is None {
            Err(SteamUtilErrorModel::VdfMissingEntry("Valve object not found"@))
        } else if child_block(valve->0, "Steam"@) is None {
            Err(SteamUtilErrorModel::VdfMissingEntry("Steam object not found"@))
        } else if child_block(child_block(valve->0, "Steam"@)->0, "CompatToolMapping"@) is None {
            Err(SteamUtilErrorModel::VdfMissingEntry("CompatToolMapping object not found"@))
        } else {
            Ok(child_block(child_block(valve->0, "Steam"@)->0, "CompatToolMapping"@)->0)
        }
    }
}

/// The tool mapping that the host's configuration holds.
pub open spec fn tool_mappings_in(root: VdfNode) -> Result<
    Map<u64, Seq<char>>,
    SteamUtilErrorModel,
> {
    match tool_mapping_block(root) {
        Ok(fields) => mappings_of(fields),
        Err(error) => Err(error),
    }
}

/// The tool mapping that the host's configuration file holds. `parsed` is
/// what reading the file's text came to, or nothing where the file is not
/// there or cannot be read; `config_path` names the file.
pub open spec fn tool_mappings_from(
    parsed: Option<Result<VdfNode, Seq<char>>>,
    config_path: Seq<char>,
) -> Result<Map<u64, Seq<char>>, SteamUtilErrorModel> {
    match parsed {
        None => Err(SteamUtilErrorModel::SteamConfigVdfNotFound),
        Some(Err(_)) => Err(SteamUtilErrorModel::VdfParsingError(config_path)),
        Some(Ok(root)) => tool_mappings_in(root),
    }
}

/// The library folder that one entry of the folder list names.
pub open spec fn folder_entry(field: VdfField) -> Result<Seq<char>, SteamUtilErrorModel> {
    match first_block(field.values) {
        None => Err(SteamUtilErrorModel::VdfMissingEntry("Fail to retrieve entry object"@)),
        Some(fields) => match child_text(fields, "path"@) {
            None => Err(SteamUtilErrorModel::VdfMissingEntry("Fail to retrieve path"@)),
            Some(path) => Ok(path),
        },
    }
}

/// The library folders that the entries name, in order. An entry with an
/// empty path is passed over, and the first entry that cannot be read fails
/// the whole.
pub open spec fn folders_of(fields: Seq<VdfField>) -> Result<Seq<Seq<char>>, SteamUtilErrorModel>
    decreases fields.len(),
{
    if fields.len() == 0 {
        Ok(Seq::empty())
    } else {
        match folders_of(fields.drop_last()) {
            Err(error) => Err(error),
            Ok(folders) => match folder_entry(fields.last()) {
                Err(error) => Err(error),
                Ok(path) => if path.len() == 0 {
                    Ok(folders)
                } else {
                    Ok(folders.push(path))
                },
            },
        }
    }
}

/// The library folders that the folder list holds. `steam_apps_found` says
/// whether the applications directory is there, and `parsed` is what reading
/// the text of the list came to, or nothing where the file is not there or
/// cannot be read.
pub open spec fn library_folders_from(
    steam_apps_found: bool,
    parsed: Option<Result<VdfNode, Seq<char>>>,
) -> Result<Seq<Seq<char>>, SteamUtilErrorModel> {
    if !steam_apps_found {
        Err(SteamUtilErrorModel::SteamAppsDirectoryNotFound)
    } else {
        match parsed {
            None => Err(SteamUtilErrorModel::LibraryFoldersVdfNotFound),
            Some(Err(why)) => Err(SteamUtilErrorModel::VdfParsingError(why)),
            Some(Ok(root)) => match node_block(root) {
                None => Err(invalid_structure()),
                Some(fields) => folders_of(fields),
            },
        }
    }
}

/// The game that a parsed application manifest describes.
pub open spec fn steam_app_in(root: VdfNode) -> Result<SteamAppModel, SteamUtilErrorModel> {
    let app_id = match node_block(root) {
        Some(fields) => match child_text(fields, "appid"@) {
            Some(text) => parsed_u64(text),
            None => None,
        },
        None => None,
    };
    let name = match node_block(root) {
        Some(fields) => child_text(fields, "name"@),
        None => None,
    };
    if app_id is None {
        Err(SteamUtilErrorModel::VdfMissingEntry("appid"@))
    } else if name is None {
        Err(SteamUtilErrorModel::VdfMissingEntry("name"@))
    } else {
        Ok(SteamAppModel { app_id: app_id->0, name: name->0 })
    }
}

/// The game that an application manifest describes, given what reading the
/// manifest came to.
pub open spec fn steam_app_from(parsed: Result<VdfNode, Seq<char>>) -> Result<
    SteamAppModel,
    SteamUtilErrorModel,
> {
    match parsed {
        Ok(root) => steam_app_in(root),
        Err(why) => Err(SteamUtilErrorModel::VdfParsingError(why)),
    }
}

/// Whether a file of this name is an application manifest: the name ends in
/// `.acf` and has something before that.
pub open spec fn is_manifest_name(name: Seq<char>) -> bool {
    name.len() > 4 && name.subrange(name.len() - 4, name.len() as int) == ".acf"@
}

/// A file found in a library folder's applications directory.
#[derive(Debug)]
pub struct ManifestFile {
    /// The file's name.
    pub name: String,
    /// What the file holds, where it could be read.
    pub text: Option<String>,
}

/// What a [`ManifestFile`] holds, as mathematical values.
pub struct ManifestFileModel {
    pub name: Seq<char>,
    pub text: Option<Seq<char>>,
}

impl View for ManifestFile {
    type V = ManifestFileModel;

    open spec fn view(&self) -> ManifestFileModel {
        ManifestFileModel { name: self.name@, text: self.text.deep_view() }
    }
}

impl DeepView for ManifestFile {
    type V = ManifestFileModel;

    open spec fn deep_view(&self) -> ManifestFileModel {
        self@
    }
}

/// A file of an applications directory after the parser has been through
/// it.
#[derive(Debug)]
pub struct ParsedManifest {
    /// The file's name.
    pub name: String,
    /// What reading the file's text came to; nothing where the file is no
    /// manifest or had no text.
    pub parsed: Option<Result<VdfValue, String>>,
}

/// What a [`ParsedManifest`] holds, as mathematical values.
pub struct ParsedManifestModel {
    pub name: Seq<char>,
    pub parsed: Option<Result<VdfNode, Seq<char>>>,
}

impl View for ParsedManifest {
    type V = ParsedManifestModel;

    open spec fn view(&self) -> ParsedManifestModel {
        ParsedManifestModel { name: self.name@, parsed: reading_model(self.parsed) }
    }
}

impl DeepView for ParsedManifest {
    type V = ParsedManifestModel;

    open spec fn deep_view(&self) -> ParsedManifestModel {
        self@
    }
}

/// Whether `parsed` is what reading one file may come to: the same name,
/// and an outcome exactly where the file is a manifest and had a text.
pub open spec fn is_manifest_reading(parsed: ParsedManifestModel, file: ManifestFileModel) -> bool {
    &&& parsed.name == file.name
    &&& parsed.parsed is Some <==> file.text is Some && is_manifest_name(file.name)
}

/// Whether `parsed` is what reading `files` may come to, file by file.
pub open spec fn are_manifest_readings(
    parsed: Seq<ParsedManifestModel>,
    files: Seq<ManifestFileModel>,
) -> bool {
    &&& parsed.len() == files.len()
    &&& forall|i: int| 0 <= i < files.len() ==> is_manifest_reading(#[trigger] parsed[i], files[i])
}

/// The game that a file describes, where it is a manifest that describes one.
pub open spec fn described_app(file: ParsedManifestModel) -> Option<SteamAppModel> {
    if !is_manifest_name(file.name) {
        None
    } else {
        match file.parsed {
            Some(parsed) => match steam_app_from(parsed) {
                Ok(app) => Some(app),
                Err(_) => None,
            },
            None => None,
        }
    }
}

/// The games that the files describe, in the order of the files. A file that
/// describes none is passed over.
pub open spec fn described_apps(files: Seq<ParsedManifestModel>) -> Seq<SteamAppModel>
    decreases files.len(),
{
    if files.len() == 0 {
        Seq::empty()
    } else {
        match described_app(files.last()) {
            Some(app) => described_apps(files.drop_last()).push(app),
            None => described_apps(files.drop_last()),
        }
    }
}

/// What was found of one library folder.
#[derive(Debug)]
pub struct LibraryScan {
    /// Whether the folder's applications directory is there.
    pub found: bool,
    /// The files in that directory.
    pub files: Vec<ManifestFile>,
}

/// What a [`LibraryScan`] holds, as mathematical values.
pub struct LibraryScanModel {
    pub found: bool,
    pub files: Seq<ManifestFileModel>,
}

impl View for LibraryScan {
    type V = LibraryScanModel;

    open spec fn view(&self) -> LibraryScanModel {
        LibraryScanModel { found: self.found, files: self.files.deep_view() }
    }
}

impl DeepView for LibraryScan {
    type V = LibraryScanModel;

    open spec fn deep_view(&self) -> LibraryScanModel {
        self@
    }
}

/// One library folder after the parser has been through its files.
#[derive(Debug)]
pub struct ParsedLibrary {
    /// Whether the folder's applications directory is there.
    pub found: bool,
    /// The files in that directory.
    pub files: Vec<ParsedManifest>,
}

/// What a [`ParsedLibrary`] holds, as mathematical values.
pub struct ParsedLibraryModel {
    pub found: bool,
    pub files: Seq<ParsedManifestModel>,
}

impl View for ParsedLibrary {
    type V = ParsedLibraryModel;

    open spec fn view(&self) -> ParsedLibraryModel {
        ParsedLibraryModel { found: self.found, files: self.files.deep_view() }
    }
}

impl DeepView for ParsedLibrary {
    type V = ParsedLibraryModel;

    open spec fn deep_view(&self) -> ParsedLibraryModel {
        self@
    }
}

/// Whether `parsed` is what reading the files of one library folder may
/// come to.
pub open spec fn is_library_reading(parsed: ParsedLibraryModel, scan: LibraryScanModel) -> bool {
    parsed.found == scan.found && are_manifest_readings(parsed.files, scan.files)
}

/// Whether `parsed` is what reading the files of the library folders may
/// come to, folder by folder.
pub open spec fn are_library_readings(
    parsed: Seq<ParsedLibraryModel>,
    scans: Seq<LibraryScanModel>,
) -> bool {
    &&& parsed.len() == scans.len()
    &&& forall|i: int| 0 <= i < scans.len() ==> is_library_reading(#[trigger] parsed[i], scans[i])
}

/// The games installed in the library folders, folder by folder. A folder
/// whose applications directory is not there holds none.
pub open spec fn installed_games(scans: Seq<ParsedLibraryModel>) -> Seq<SteamAppModel>
    decreases scans.len(),
{
    if scans.len() == 0 {
        Seq::empty()
    } else if scans.last().found {
        installed_games(scans.drop_last()) + described_apps(scans.last().files)
    } else {
        installed_games(scans.drop_last())
    }
}

/// Whether a file of this name is an application manifest.
pub fn is_app_manifest(name: &str) -> (out: bool)
    ensures
        out == is_manifest_name(name@),
{
    let n = name.unicode_len();
    if n <= 4 {
        return false;
    }
    proof {
        reveal_strlit(".acf");
        let tail = name@.subrange(n - 4, n as int);
        assert(tail[1] == name@[n - 3]);
        assert(tail[2] == name@[n - 2]);
        assert(tail[3] == name@[n - 1]);
        if tail == ".acf"@ {
            assert(".acf"@[0] == '.');
        }
        if name@[n - 4] == '.' && name@[n - 3] == 'a' && name@[n - 2] == 'c' && name@[n - 1]
            == 'f' {
            assert(tail =~= ".acf"@);
        }
    }
    name.get_char(n - 4) == '.' && name.get_char(n - 3) == 'a' && name.get_char(n - 2) == 'c'
        && name.get_char(n - 1) == 'f'
}

impl SteamUtil {
    /// Reads the tool mapping from the block of the host's configuration
    /// that holds it.
    pub fn read_tool_mappings(fields: &Vec<VdfEntry>) -> (out: Result<
        HashMap<u64, String>,
        SteamUtilError,
    >)
        ensures
            match out {
                Ok(mapping) => mappings_of(fields.deep_view()) == Ok::<
                    Map<u64, Seq<char>>,
                    SteamUtilErrorModel,
                >(usage_mapping(mapping@)),
                Err(error) => mappings_of(fields.deep_view()) == Err::<
                    Map<u64, Seq<char>>,
                    SteamUtilErrorModel,
                >(error@),
            },
    {
        broadcast use vstd::std_specs::hash::group_hash_axioms;

        let ghost models = fields.deep_view();
        let mut mapping: HashMap<u64, String> = HashMap::new();
        let mut i: usize = 0;
        assert(usage_mapping(mapping@) =~= Map::empty());
        while i < fields.len()
            invariant
                i <= fields.len(),
                models == fields.deep_view(),
                mappings_of(models.take(i as int)) == Ok::<
                    Map<u64, Seq<char>>,
                    SteamUtilErrorModel,
                >(usage_mapping(mapping@)),
            decreases fields.len() - i,
        {
            let field = &fields[i];
            let ghost before = usage_mapping(mapping@);
            proof {
                lemma_entry_view(field);
                assert(models.take(i + 1).drop_last() =~= models.take(i as int));
                lemma_mappings_fail_early(models, i as int + 1);
            }
            let id = match parse_u64(field.key.as_str()) {
                Some(id) => id,
                None => {
                    return Err(missing_entry("Error parsing key to u64"));
                },
            };
            let block = match get_first_block(&field.values) {
                Some(block) => block,
                None => {
                    return Err(missing_entry("Key object not found"));
                },
            };
            let name = match get_child_text(block, "name") {
                Some(name) => name.clone(),
                None => {
                    return Err(missing_entry("Compat tool name not found or invalid"));
                },
            };
            if name.as_str().unicode_len() > 0 {
                mapping.insert(id, name);
                assert(usage_mapping(mapping@) =~= before.insert(id, name@));
            }
            i += 1;
        }
        assert(models.take(i as int) =~= models);
        Ok(mapping)
    }

    /// Reads the tool mapping from the parsed configuration of the host.
    pub fn read_compatibility_tools_mappings(root: &VdfValue) -> (out: Result<
        HashMap<u64, String>,
        SteamUtilError,
    >)
        ensures
            match out {
                Ok(mapping) => tool_mappings_in(root@) == Ok::<
                    Map<u64, Seq<char>>,
                    SteamUtilErrorModel,
                >(usage_mapping(mapping@)),
                Err(error) => tool_mappings_in(root@) == Err::<
                    Map<u64, Seq<char>>,
                    SteamUtilErrorModel,
                >(error@),
            },
    {
        let software = match root.get_obj() {
            Some(top) => get_child_block(top, "Software"),
            None => None,
        };
        let software = match software {
            Some(software) => software,
            None => {
                return Err(missing_entry("Software object not found"));
            },
        };
        let valve = if get_values(software, "Valve").is_some() {
            get_child_block(software, "Valve")
        } else {
            get_child_block(software, "valve")
        };
        let valve = match valve {
            Some(valve) => valve,
            None => {
                return Err(missing_entry("Valve object not found"));
            },
        };
        let steam = match get_child_block(valve, "Steam") {
            Some(steam) => steam,
            None => {
                return Err(missing_entry("Steam object not found"));
            },
        };
        let fields = match get_child_block(steam, "CompatToolMapping") {
            Some(fields) => fields,
            None => {
                return Err(missing_entry("CompatToolMapping object not found"));
            },
        };
        Self::read_tool_mappings(fields)
    }

    /// Settles the tool mapping once the parser has been through the host's
    /// configuration file. `parsed` is what reading the file's text came to,
    /// or nothing where the file is not there or cannot be read;
    /// `config_path` names the file.
    pub fn compatibility_tools_mappings_from_parsed(
        parsed: &Option<Result<VdfValue, String>>,
        config_path: &str,
    ) -> (out: Result<HashMap<u64, String>, SteamUtilError>)
        ensures
            mappings_result(out) == tool_mappings_from(reading_model(*parsed), config_path@),
    {
        match parsed {
            None => Err(SteamUtilError::SteamConfigVdfNotFound),
            Some(Err(_)) => Err(SteamUtilError::VdfParsingError(String::from_str(config_path))),
            Some(Ok(root)) => Self::read_compatibility_tools_mappings(root),
        }
    }

    /// Reads the tool mapping from the host's configuration file. `config`
    /// is the file's text, or nothing where the file is not there or cannot
    /// be read; `config_path` names the file.
    ///
    /// The result is what [`Self::compatibility_tools_mappings_from_parsed`]
    /// makes of the parser's outcome, whatever that outcome is.
    pub fn get_compatibility_tools_mappings(config: Option<&str>, config_path: &str) -> (out:
        Result<HashMap<u64, String>, SteamUtilError>)
        ensures
            exists|parsed: Option<Result<VdfNode, Seq<char>>>|
                (parsed is Some <==> config is Some) && mappings_result(out)
                    == #[trigger] tool_mappings_from(parsed, config_path@),
    {
        let parsed = match config {
            Some(text) => Some(parse_vdf(text)),
            None => None,
        };
        let out = Self::compatibility_tools_mappings_from_parsed(&parsed, config_path);
        assert(mappings_result(out) == tool_mappings_from(reading_model(parsed), config_path@));
        out
    }

    /// Reads the library folders from the entries of the folder list.
    pub fn read_library_folders(fields: &Vec<VdfEntry>) -> (out: Result<Vec<String>, SteamUtilError>)
        ensures
            match out {
                Ok(folders) => folders_of(fields.deep_view()) == Ok::<
                    Seq<Seq<char>>,
                    SteamUtilErrorModel,
                >(folders.deep_view()),
                Err(error) => folders_of(fields.deep_view()) == Err::<
                    Seq<Seq<char>>,
                    SteamUtilErrorModel,
                >(error@),
            },
    {
        let ghost models = fields.deep_view();
        let mut folders: Vec<String> = Vec::new();
        let mut i: usize = 0;
        assert(folders.deep_view() =~= Seq::empty());
        while i < fields.len()
            invariant
                i <= fields.len(),
                models == fields.deep_view(),
                folders_of(models.take(i as int)) == Ok::<Seq<Seq<char>>, SteamUtilErrorModel>(
                    folders.deep_view(),
                ),
            decreases fields.len() - i,
        {
            let field = &fields[i];
            let ghost before = folders.deep_view();
            proof {
                lemma_entry_view(field);
                assert(models.take(i + 1).drop_last() =~= models.take(i as int));
                lemma_folders_fail_early(models, i as int + 1);
            }
            let block = match get_first_block(&field.values) {
                Some(block) => block,
                None => {
                    return Err(missing_entry("Fail to retrieve entry object"));
                },
            };
            let path = match get_child_text(block, "path") {
                Some(path) => path.clone(),
                None => {
                    return Err(missing_entry("Fail to retrieve path"));
                },
            };
            if path.as_str().unicode_len() > 0 {
                folders.push(path);
                assert(folders.deep_view() =~= before.push(path@));
            }
            i += 1;
        }
        assert(models.take(i as int) =~= models);
        Ok(folders)
    }

    /// Settles the library folders once the parser has been through the
    /// folder list. `steam_apps_found` says whether the applications
    /// directory is there, and `parsed` is what reading the text of the list
    /// came to, or nothing where the file is not there or cannot be read.
    pub fn library_folders_from_parsed(
        steam_apps_found: bool,
        parsed: &Option<Result<VdfValue, String>>,
    ) -> (out: Result<Vec<String>, SteamUtilError>)
        ensures
            folders_result(out) == library_folders_from(steam_apps_found, reading_model(*parsed)),
    {
        if !steam_apps_found {
            return Err(SteamUtilError::SteamAppsDirectoryNotFound);
        }
        match parsed {
            None => Err(SteamUtilError::LibraryFoldersVdfNotFound),
            Some(Err(why)) => Err(SteamUtilError::VdfParsingError(why.clone())),
            Some(Ok(root)) => match root.get_obj() {
                Some(fields) => Self::read_library_folders(fields),
                None => Err(
                    SteamUtilError::VdfParsingError(String::from_str("Invalid VDF structure")),
                ),
            },
        }
    }

    /// Lists the library folders. `steam_apps_found` says whether the
    /// applications directory is there, and `folder_list` is the text of the
    /// folder list, or nothing where the file is not there or cannot be read.
    ///
    /// The result is what [`Self::library_folders_from_parsed`] makes of the
    /// parser's outcome, whatever that outcome is.
    pub fn list_library_folders(steam_apps_found: bool, folder_list: Option<&str>) -> (out: Result<
        Vec<String>,
        SteamUtilError,
    >)
        ensures
            exists|parsed: Option<Result<VdfNode, Seq<char>>>|
                (parsed is Some <==> folder_list is Some) && folders_result(out)
                    == #[trigger] library_folders_from(steam_apps_found, parsed),
    {
        let parsed = match folder_list {
            Some(text) => Some(parse_vdf(text)),
            None => None,
        };
        let out = Self::library_folders_from_parsed(steam_apps_found, &parsed);
        assert(folders_result(out) == library_folders_from(
            steam_apps_found,
            reading_model(parsed),
        ));
        out
    }

    /// Reads the game that a parsed application manifest describes.
    pub fn read_steam_app(root: &VdfValue) -> (out: Result<SteamApp, SteamUtilError>)
        ensures
            match out {
                Ok(app) => steam_app_in(root@) == Ok::<SteamAppModel, SteamUtilErrorModel>(app@),
                Err(error) => steam_app_in(root@) == Err::<SteamAppModel, SteamUtilErrorModel>(
                    error@,
                ),
            },
    {
        let fields = root.get_obj();
        let app_id = match fields {
            Some(fields) => match get_child_text(fields, "appid") {
                Some(text) => parse_u64(text.as_str()),
                None => None,
            },
            None => None,
        };
        let app_id = match app_id {
            Some(app_id) => app_id,
            None => {
                return Err(missing_entry("appid"));
            },
        };
        let name = match fields {
            Some(fields) => get_child_text(fields, "name"),
            None => None,
        };
        match name {
            Some(name) => Ok(SteamApp { app_id, name: name.clone() }),
            None => Err(missing_entry("name")),
        }
    }

    /// Settles which game an application manifest describes, once the parser
    /// has been through its text.
    pub fn steam_app_from_parsed(parsed: &Result<VdfValue, String>) -> (out: Result<
        SteamApp,
        SteamUtilError,
    >)
        ensures
            app_result(out) == steam_app_from(outcome_model(*parsed)),
    {
        match parsed {
            Ok(root) => Self::read_steam_app(root),
            Err(why) => Err(SteamUtilError::VdfParsingError(why.clone())),
        }
    }

    /// Reads the game that the text of an application manifest describes.
    ///
    /// The result is what [`Self::steam_app_from_parsed`] makes of the
    /// parser's outcome, whatever that outcome is.
    pub fn read_app_manifest_to_steam_app(text: &str) -> (out: Result<SteamApp, SteamUtilError>)
        ensures
            exists|parsed: Result<VdfNode, Seq<char>>|
                app_result(out) == #[trigger] steam_app_from(parsed),
    {
        let parsed = parse_vdf(text);
        let out = Self::steam_app_from_parsed(&parsed);
        assert(app_result(out) == steam_app_from(outcome_model(parsed)));
        out
    }

    /// Runs the parser over the text of every file that is a manifest.
    pub fn parse_manifests(files: &Vec<ManifestFile>) -> (out: Vec<ParsedManifest>)
        ensures
            are_manifest_readings(out.deep_view(), files.deep_view()),
    {
        let mut out: Vec<ParsedManifest> = Vec::new();
        let mut i: usize = 0;
        while i < files.len()
            invariant
                i <= files.len(),
                out.len() == i,
                forall|j: int|
                    0 <= j < i ==> is_manifest_reading(
                        #[trigger] out.deep_view()[j],
                        files.deep_view()[j],
                    ),
            decreases files.len() - i,
        {
            let file = &files[i];
            let ghost before = out.deep_view();
            let is_manifest = is_app_manifest(file.name.as_str());
            let parsed = ParsedManifest {
                name: file.name.clone(),
                parsed: match &file.text {
                    Some(text) => if is_manifest {
                        Some(parse_vdf(text.as_str()))
                    } else {
                        None
                    },
                    None => None,
                },
            };
            assert(is_manifest_reading(parsed@, file@));
            out.push(parsed);
            assert(out.deep_view() =~= before.push(parsed@));
            i += 1;
        }
        out
    }

    /// The games that the files of one applications directory describe, once
    /// the parser has been through them.
    pub fn installed_games_in(files: &Vec<ParsedManifest>) -> (out: Vec<SteamApp>)
        ensures
            out.deep_view() == described_apps(files.deep_view()),
    {
        let ghost models = files.deep_view();
        let mut out: Vec<SteamApp> = Vec::new();
        let mut i: usize = 0;
        while i < files.len()
            invariant
                i <= files.len(),
                models == files.deep_view(),
                out.deep_view() == described_apps(models.take(i as int)),
            decreases files.len() - i,
        {
            let file = &files[i];
            proof {
                assert(models.take(i + 1).drop_last() =~= models.take(i as int));
            }
            if is_app_manifest(file.name.as_str()) {
                match &file.parsed {
                    Some(parsed) => {
                        match Self::steam_app_from_parsed(parsed) {
                            Ok(app) => {
                                out.push(app);
                            },
                            Err(_) => {},
                        }
                    },
                    None => {},
                }
            }
            i += 1;
        }
        assert(models.take(i as int) =~= models);
        out
    }

    /// The games that the files of one applications directory describe.
    ///
    /// The result is what [`Self::installed_games_in`] makes of the parser's
    /// outcomes, one for each manifest that has a text, whatever those
    /// outcomes are.
    pub fn find_installed_games(files: &Vec<ManifestFile>) -> (out: Vec<SteamApp>)
        ensures
            exists|parsed: Seq<ParsedManifestModel>|
                are_manifest_readings(parsed, files.deep_view()) && out.deep_view()
                    == #[trigger] described_apps(parsed),
    {
        let parsed = Self::parse_manifests(files);
        Self::installed_games_in(&parsed)
    }

    /// Runs the parser over the manifests of every library folder.
    pub fn parse_libraries(scans: &Vec<LibraryScan>) -> (out: Vec<ParsedLibrary>)
        ensures
            are_library_readings(out.deep_view(), scans.deep_view()),
    {
        let mut out: Vec<ParsedLibrary> = Vec::new();
        let mut i: usize = 0;
        while i < scans.len()
            invariant
                i <= scans.len(),
                out.len() == i,
                forall|j: int|
                    0 <= j < i ==> is_library_reading(
                        #[trigger] out.deep_view()[j],
                        scans.deep_view()[j],
                    ),
            decreases scans.len() - i,
        {
            let scan = &scans[i];
            let ghost before = out.deep_view();
            let parsed = ParsedLibrary {
                found: scan.found,
                files: Self::parse_manifests(&scan.files),
            };
            assert(is_library_reading(parsed@, scan@));
            out.push(parsed);
            assert(out.deep_view() =~= before.push(parsed@));
            i += 1;
        }
        out
    }

    /// The games installed across the library folders, once the parser has
    /// been through their manifests.
    pub fn installed_games_from_parsed(scans: &Vec<ParsedLibrary>) -> (out: Vec<SteamApp>)
        ensures
            out.deep_view() == installed_games(scans.deep_view()),
    {
        let ghost models = scans.deep_view();
        let mut apps: Vec<SteamApp> = Vec::new();
        let mut i: usize = 0;
        while i < scans.len()
            invariant
                i <= scans.len(),
                models == scans.deep_view(),
                apps.deep_view() == installed_games(models.take(i as int)),
            decreases scans.len() - i,
        {
            let scan = &scans[i];
            proof {
                assert(models.take(i + 1).drop_last() =~= models.take(i as int));
            }
            if scan.found {
                let mut found = Self::installed_games_in(&scan.files);
                apps.append(&mut found);
            }
            i += 1;
        }
        assert(models.take(i as int) =~= models);
        apps
    }

    /// The games installed across the library folders.
    ///
    /// The result is what [`Self::installed_games_from_parsed`] makes of the
    /// parser's outcomes, one for each manifest that has a text, whatever
    /// those outcomes are.
    pub fn list_installed_games(scans: &Vec<LibraryScan>) -> (out: Vec<SteamApp>)
        ensures
            exists|parsed: Seq<ParsedLibraryModel>|
                are_library_readings(parsed, scans.deep_view()) && out.deep_view()
                    == #[trigger] installed_games(parsed),
    {
        let parsed = Self::parse_libraries(scans);
        Self::installed_games_from_parsed(&parsed)
    }
}

/// Once a part of the entries fails to read, the whole fails in the same
/// way.
proof fn lemma_mappings_fail_early(fields: Seq<VdfField>, k: int)
    requires
        0 <= k <= fields.len(),
    ensures
        mappings_of(fields.take(k)) is Err ==> mappings_of(fields) == mappings_of(fields.take(k)),
    decreases fields.len(),
{
    if k == fields.len() {
        assert(fields.take(k) =~= fields);
    } else {
        assert(fields.drop_last().take(k) =~= fields.take(k));
        lemma_mappings_fail_early(fields.drop_last(), k);
    }
}

/// Once a part of the entries fails to read, the whole fails in the same
/// way.
proof fn lemma_folders_fail_early(fields: Seq<VdfField>, k: int)
    requires
        0 <= k <= fields.len(),
    ensures
        folders_of(fields.take(k)) is Err ==> folders_of(fields) == folders_of(fields.take(k)),
    decreases fields.len(),
{
    if k == fields.len() {
        assert(fields.take(k) =~= fields);
    } else {
        assert(fields.drop_last().take(k) =~= fields.take(k));
        lemma_folders_fail_early(fields.drop_last(), k);
    }
}

} // verus!
