//! The install pipeline's own records and rules: which asset of a release is
//! installable, how far a download has come, and which unpacked directory is
//! the package and under what name it goes live.

use vstd::prelude::*;
use vstd::string::StringExecFns;
use crate::flavors::{
    canonical_display_name,
    canonical_internal_name,
    CompatibilityToolFlavor,
};
use crate::github_util::{Asset, AssetModel, Release, ReleaseModel};
use crate::search::{
    first_index,
    lemma_filter_step,
    lemma_first_index_found,
    lemma_first_index_none,
};

verus! {

/// A request to install one release of one flavor.
#[derive(Debug)]
pub struct Install {
    pub flavor: CompatibilityToolFlavor,
    pub release: Release,
}

/// What an [`Install`] holds, as mathematical values.
pub struct InstallModel {
    pub flavor: CompatibilityToolFlavor,
    pub release: ReleaseModel,
}

impl View for Install {
    type V = InstallModel;

    open spec fn view(&self) -> InstallModel {
        InstallModel { flavor: self.flavor, release: self.release@ }
    }
}

impl DeepView for Install {
    type V = InstallModel;

    open spec fn deep_view(&self) -> InstallModel {
        self@
    }
}

impl Clone for Install {
    fn clone(&self) -> (out: Self)
        ensures
            out@ == self@,
    {
        Install { flavor: self.flavor, release: self.release.clone() }
    }
}

/// Where an install job stands.
#[derive(Clone, Copy, Debug, PartialEq, Eq, Structural)]
pub enum QueueCompatibilityToolState {
    Extracting,
    Downloading,
    Waiting,
    Cancelling,
}

/// How an archive is compressed.
#[derive(Clone, Copy, Debug, PartialEq, Eq, Structural)]
pub enum CompressionType {
    Gzip,
    Xz,
    Unknown,
}

/// The one install job in flight.
#[derive(Debug)]
pub struct QueueCompatibilityTool {
    pub flavor: CompatibilityToolFlavor,
    /// The tag of the release being installed.
    pub name: String,
    /// Where the archive is downloaded from.
    pub url: String,
    pub state: QueueCompatibilityToolState,
    pub compress_type: CompressionType,
    /// Percent of the download received so far, 0 to 100.
    pub progress: u8,
}

/// What a [`QueueCompatibilityTool`] holds, as mathematical values.
pub struct JobModel {
    pub flavor: CompatibilityToolFlavor,
    pub name: Seq<char>,
    pub url: Seq<char>,
    pub state: QueueCompatibilityToolState,
    pub compress_type: CompressionType,
    pub progress: u8,
}

impl View for QueueCompatibilityTool {
    type V = JobModel;

    open spec fn view(&self) -> JobModel {
        JobModel {
            flavor: self.flavor,
            name: self.name@,
            url: self.url@,
            state: self.state,
            compress_type: self.compress_type,
            progress: self.progress,
        }
    }
}

impl DeepView for QueueCompatibilityTool {
    type V = JobModel;

    open spec fn deep_view(&self) -> JobModel {
        self@
    }
}

impl Clone for QueueCompatibilityTool {
    fn clone(&self) -> (out: Self)
        ensures
            out@ == self@,
    {
        QueueCompatibilityTool {
            flavor: self.flavor,
            name: self.name.clone(),
            url: self.url.clone(),
            state: self.state,
            compress_type: self.compress_type,
            progress: self.progress,
        }
    }
}

/// The compression that a content type stands for.
pub open spec fn compression_of(content_type: Seq<char>) -> CompressionType {
    if content_type == "application/gzip"@ {
        CompressionType::Gzip
    } else if content_type == "application/x-xz"@ {
        CompressionType::Xz
    } else {
        CompressionType::Unknown
    }
}

/// Whether an asset is an archive in one of the two supported compressions.
pub open spec fn is_archive(asset: AssetModel) -> bool {
    compression_of(asset.content_type) != CompressionType::Unknown
}

/// [`is_archive`] as a predicate.
pub open spec fn archive_pred() -> spec_fn(AssetModel) -> bool {
    |asset: AssetModel| is_archive(asset)
}

/// The job that installs `install`: it downloads the first asset of the
/// release that is a supported archive, and waits to be started. A release
/// without such an asset has no job.
pub open spec fn selected_job(install: InstallModel) -> Option<JobModel> {
    match first_index(install.release.assets, archive_pred()) {
        Some(i) => Some(
            JobModel {
                flavor: install.flavor,
                name: install.release.tag_name,
                url: install.release.assets[i].browser_download_url,
                state: QueueCompatibilityToolState::Waiting,
                compress_type: compression_of(install.release.assets[i].content_type),
                progress: 0,
            },
        ),
        None => None,
    }
}

/// The compression of `asset`, going by its content type.
pub fn compression_type_of(asset: &Asset) -> (out: CompressionType)
    ensures
        out == compression_of(asset@.content_type),
{
    let gzip = String::from_str("application/gzip");
    let xz = String::from_str("application/x-xz");
    if asset.content_type == gzip {
        CompressionType::Gzip
    } else if asset.content_type == xz {
        CompressionType::Xz
    } else {
        CompressionType::Unknown
    }
}

/// Picks the asset to install `install_request` from and describes the job.
pub fn look_for_compressed_archive(install_request: &Install) -> (out: Option<
    QueueCompatibilityTool,
>)
    ensures
        out.deep_view() == selected_job(install_request@),
{
    let assets = &install_request.release.assets;
    let ghost models = assets.deep_view();
    let mut i: usize = 0;
    while i < assets.len()
        invariant
            i <= assets.len(),
            models == assets.deep_view(),
            models == install_request@.release.assets,
            forall|j: int| 0 <= j < i ==> !archive_pred()(#[trigger] models[j]),
        decreases assets.len() - i,
    {
        let kind = compression_type_of(&assets[i]);
        if kind != CompressionType::Unknown {
            proof {
                lemma_first_index_found(models, archive_pred(), i as int);
            }
            let job = QueueCompatibilityTool {
                flavor: install_request.flavor,
                name: install_request.release.tag_name.clone(),
                url: assets[i].browser_download_url.clone(),
                state: QueueCompatibilityToolState::Waiting,
                compress_type: kind,
                progress: 0,
            };
            return Some(job);
        }
        i += 1;
    }
    proof {
        lemma_first_index_none(models, archive_pred());
    }
    None
}

/// The percentage of a download of `total` bytes that `downloaded` bytes are,
/// rounded down and held to 100.
///
/// Where the length is not known (`total` is 0) nothing was received counts
/// as 0 and anything received as 100.
pub open spec fn progress_of(downloaded: nat, total: nat) -> nat {
    if total == 0 {
        if downloaded == 0 {
            0
        } else {
            100
        }
    } else if downloaded * 100 / total > 100 {
        100
    } else {
        downloaded * 100 / total
    }
}

/// The percentage of a download of `total` bytes that `downloaded` bytes are.
pub fn progress_percent(downloaded: u64, total: u64) -> (out: u8)
    ensures
        out == progress_of(downloaded as nat, total as nat),
        out <= 100,
{
    if total == 0 {
        if downloaded == 0 {
            0
        } else {
            100
        }
    } else {
        let scaled: u128 = (downloaded as u128) * 100;
        let percent: u128 = scaled / (total as u128);
        if percent > 100 {
            100
        } else {
            percent as u8
        }
    }
}

/// A download is complete exactly when its percentage is 100, as long as the
/// length is known and no more than it has arrived.
pub proof fn lemma_progress_bounds(downloaded: nat, total: nat)
    requires
        0 < total,
        downloaded <= total,
    ensures
        progress_of(downloaded, total) <= 100,
        progress_of(downloaded, total) == 100 <==> downloaded == total,
        progress_of(0, total) == 0,
{
    assert(downloaded * 100 / total <= 100) by (nonlinear_arith)
        requires
            0 < total,
            downloaded <= total,
    ;
    assert(downloaded * 100 / total == 100 <==> downloaded == total) by (nonlinear_arith)
        requires
            0 < total,
            downloaded <= total,
    ;
    assert(0nat * 100 / total == 0) by (nonlinear_arith)
        requires
            0 < total,
    ;
}

/// Progress never goes back while bytes arrive.
pub proof fn lemma_progress_monotonic(before: nat, after: nat, total: nat)
    requires
        before <= after,
    ensures
        progress_of(before, total) <= progress_of(after, total),
{
    if total > 0 {
        assert(before * 100 / total <= after * 100 / total) by (nonlinear_arith)
            requires
                0 < total,
                before <= after,
        ;
    }
}

/// The bytes of one download as they arrive, and the length announced for it.
#[derive(Debug)]
pub struct Download {
    bytes: Vec<u8>,
    total: u64,
}

/// What a [`Download`] holds, as mathematical values.
pub struct DownloadModel {
    pub bytes: Seq<u8>,
    pub total: u64,
}

impl View for Download {
    type V = DownloadModel;

    closed spec fn view(&self) -> DownloadModel {
        DownloadModel { bytes: self.bytes@, total: self.total }
    }
}

impl Download {
    /// A download of which nothing has arrived. `total` is the announced
    /// length, 0 where none was announced.
    pub fn new(total: u64) -> (out: Self)
        ensures
            out@ == (DownloadModel { bytes: Seq::empty(), total }),
    {
        Download { bytes: Vec::new(), total }
    }

    /// Takes in the next chunk.
    pub fn receive(&mut self, chunk: &[u8])
        ensures
            final(self)@ == (DownloadModel {
                bytes: old(self)@.bytes + chunk@,
                total: old(self)@.total,
            }),
    {
        let ghost before = self.bytes@;
        self.bytes.extend_from_slice(chunk);
        proof {
            assert forall|i: int| 0 <= i < self.bytes@.len() implies self.bytes@[i] == (before
                + chunk@)[i] by {
                if i >= before.len() {
                    assert(vstd::pervasive::cloned::<u8>(
                        chunk@[i - before.len()],
                        self.bytes@[i],
                    ));
                }
            }
            assert(self.bytes@ =~= before + chunk@);
        }
    }

    /// The percentage received so far.
    pub fn progress(&self) -> (out: u8)
        ensures
            out == progress_of(self@.bytes.len(), self@.total as nat),
            out <= 100,
    {
        progress_percent(self.bytes.len() as u64, self.total)
    }

    /// The bytes received, in order.
    pub fn into_bytes(self) -> (out: Vec<u8>)
        ensures
            out@ == self@.bytes,
    {
        self.bytes
    }
}

/// The text of the descriptor file of a tool with these two names.
pub open spec fn descriptor_text(internal_name: Seq<char>, display_name: Seq<char>) -> Seq<char> {
    "\"compatibilitytools\"\n            {\n              \"compat_tools\"\n              {\n                \""@
        + internal_name
        + "\"\n                {\n                  \"install_path\" \".\"\n                  \"display_name\" \""@
        + display_name
        + "\"\n                  \"from_oslist\"  \"windows\"\n                  \"to_oslist\"    \"linux\"\n                }\n              }\n            }\n"@
}

/// Writes the descriptor file of a tool: the root block, the block of all
/// tools, and in it one block under the tool's internal name that gives the
/// install path, the display name and the two operating system lists.
pub fn generate_compatibility_tool_vdf(internal_name: &str, display_name: &str) -> (out: String)
    ensures
        out@ == descriptor_text(internal_name@, display_name@),
{
    String::from_str(
        "\"compatibilitytools\"\n            {\n              \"compat_tools\"\n              {\n                \"",
    ).concat(internal_name).concat(
        "\"\n                {\n                  \"install_path\" \".\"\n                  \"display_name\" \"",
    ).concat(display_name).concat(
        "\"\n                  \"from_oslist\"  \"windows\"\n                  \"to_oslist\"    \"linux\"\n                }\n              }\n            }\n",
    )
}

/// Why an install job was given up.
#[derive(Debug)]
pub enum InstallFailure {
    /// The download broke off.
    Download,
    /// No staging directory could be made.
    Staging,
    /// The archive could not be unpacked; the text says why.
    Extraction(String),
    /// The archive did not unpack to exactly one package directory; the
    /// number says how many it held.
    Layout(usize),
    /// The package could not be put in place; the text says why.
    Relocation(String),
}

/// What an [`InstallFailure`] holds, as mathematical values.
pub enum InstallFailureModel {
    Download,
    Staging,
    Extraction(Seq<char>),
    Layout(nat),
    Relocation(Seq<char>),
}

impl View for InstallFailure {
    type V = InstallFailureModel;

    open spec fn view(&self) -> InstallFailureModel {
        match self {
            InstallFailure::Download => InstallFailureModel::Download,
            InstallFailure::Staging => InstallFailureModel::Staging,
            InstallFailure::Extraction(why) => InstallFailureModel::Extraction(why@),
            InstallFailure::Layout(n) => InstallFailureModel::Layout(*n as nat),
            InstallFailure::Relocation(why) => InstallFailureModel::Relocation(why@),
        }
    }
}

/// The notice shown for a failed install.
pub open spec fn failure_notice(failure: InstallFailureModel) -> Seq<char> {
    match failure {
        InstallFailureModel::Download => "Connection Error: Download in progress failed!"@,
        InstallFailureModel::Staging => "Failed to prepare temp directory"@,
        InstallFailureModel::Extraction(why) => "Failed to extract archive: "@ + why,
        InstallFailureModel::Layout(_) => "Failed to find extracted directory"@,
        InstallFailureModel::Relocation(why) => "Failed to copy directory: "@ + why,
    }
}

impl InstallFailure {
    /// The notice shown for this failure.
    pub fn notice(&self) -> (out: String)
        ensures
            out@ == failure_notice(self@),
    {
        match self {
            InstallFailure::Download => String::from_str(
                "Connection Error: Download in progress failed!",
            ),
            InstallFailure::Staging => String::from_str("Failed to prepare temp directory"),
            InstallFailure::Extraction(why) => String::from_str(
                "Failed to extract archive: ",
            ).concat(why.as_str()),
            InstallFailure::Layout(_) => String::from_str("Failed to find extracted directory"),
            InstallFailure::Relocation(why) => String::from_str(
                "Failed to copy directory: ",
            ).concat(why.as_str()),
        }
    }
}

/// One immediate child of the staging directory.
#[derive(Debug)]
pub struct StagedEntry {
    /// The child's file name.
    pub name: String,
    /// Whether it is a directory.
    pub is_dir: bool,
    /// Whether it holds a descriptor file.
    pub has_descriptor: bool,
}

/// What a [`StagedEntry`] holds, as mathematical values.
pub struct StagedEntryModel {
    pub name: Seq<char>,
    pub is_dir: bool,
    pub has_descriptor: bool,
}

impl View for StagedEntry {
    type V = StagedEntryModel;

    open spec fn view(&self) -> StagedEntryModel {
        StagedEntryModel {
            name: self.name@,
            is_dir: self.is_dir,
            has_descriptor: self.has_descriptor,
        }
    }
}

impl DeepView for StagedEntry {
    type V = StagedEntryModel;

    open spec fn deep_view(&self) -> StagedEntryModel {
        self@
    }
}

/// Whether a staged entry is a package: a directory with a descriptor file.
pub open spec fn is_package(entry: StagedEntryModel) -> bool {
    entry.is_dir && entry.has_descriptor
}

/// [`is_package`] as a predicate.
pub open spec fn package_pred() -> spec_fn(StagedEntryModel) -> bool {
    |entry: StagedEntryModel| is_package(entry)
}

/// Whether tools of `flavor` are renamed on installation.
pub open spec fn is_renamed(flavor: CompatibilityToolFlavor) -> bool {
    flavor == CompatibilityToolFlavor::SteamTinkerLaunch || flavor
        == CompatibilityToolFlavor::Luxtorpeda || flavor == CompatibilityToolFlavor::Boxtron
}

/// How the unpacked package goes live.
#[derive(Debug)]
pub struct Relocation {
    /// The name of the package directory inside the staging directory.
    pub source: String,
    /// The name the directory gets before it is copied to the install
    /// directory.
    pub target: String,
    /// The new text of the package's descriptor file, where it is rewritten.
    pub descriptor: Option<String>,
}

/// What a [`Relocation`] holds, as mathematical values.
pub struct RelocationModel {
    pub source: Seq<char>,
    pub target: Seq<char>,
    pub descriptor: Option<Seq<char>>,
}

impl View for Relocation {
    type V = RelocationModel;

    open spec fn view(&self) -> RelocationModel {
        RelocationModel {
            source: self.source@,
            target: self.target@,
            descriptor: self.descriptor.deep_view(),
        }
    }
}

/// How the package among `entries` goes live as the release `tag` of `flavor`.
///
/// The staging directory must hold exactly one package. A package of the
/// primary flavor keeps its name and its descriptor. A package of a secondary
/// flavor gets the canonical internal name as its directory name, and a
/// descriptor that gives it the canonical internal and display names.
pub open spec fn relocation_plan(
    flavor: CompatibilityToolFlavor,
    tag: Seq<char>,
    entries: Seq<StagedEntryModel>,
) -> Result<RelocationModel, InstallFailureModel> {
    let packages = entries.filter(package_pred());
    if packages.len() != 1 {
        Err(InstallFailureModel::Layout(packages.len()))
    } else if is_renamed(flavor) {
        Ok(
            RelocationModel {
                source: packages[0].name,
                target: canonical_internal_name(flavor, tag),
                descriptor: Some(
                    descriptor_text(
                        canonical_internal_name(flavor, tag),
                        canonical_display_name(flavor, tag),
                    ),
                ),
            },
        )
    } else {
        Ok(RelocationModel { source: packages[0].name, target: packages[0].name, descriptor: None })
    }
}

/// Finds the one package among the staged entries and says how it goes live.
pub fn plan_relocation(flavor: CompatibilityToolFlavor, tag: &str, entries: &Vec<StagedEntry>) -> (out:
    Result<Relocation, InstallFailure>)
    ensures
        match out {
            Ok(plan) => relocation_plan(flavor, tag@, entries.deep_view()) == Ok::<
                RelocationModel,
                InstallFailureModel,
            >(plan@),
            Err(failure) => relocation_plan(flavor, tag@, entries.deep_view()) == Err::<
                RelocationModel,
                InstallFailureModel,
            >(failure@),
        },
{
    let ghost models = entries.deep_view();
    let mut found: usize = 0;
    let mut first: usize = 0;
    let mut i: usize = 0;
    assert(models.take(0).filter(package_pred()) =~= Seq::empty()) by {
        reveal(Seq::filter);
    }
    while i < entries.len()
        invariant
            i <= entries.len(),
            models == entries.deep_view(),
            found == models.take(i as int).filter(package_pred()).len(),
            found <= i,
            found > 0 ==> first < i && models.take(i as int).filter(package_pred())[0]
                == models[first as int],
        decreases entries.len() - i,
    {
        proof {
            lemma_filter_step(models, package_pred(), i as int);
        }
        if entries[i].is_dir && entries[i].has_descriptor {
            if found == 0 {
                first = i;
            }
            found += 1;
        }
        i += 1;
    }
    assert(models.take(i as int) =~= models);
    if found != 1 {
        return Err(InstallFailure::Layout(found));
    }
    let source = entries[first].name.clone();
    match flavor {
        CompatibilityToolFlavor::SteamTinkerLaunch
        | CompatibilityToolFlavor::Luxtorpeda
        | CompatibilityToolFlavor::Boxtron => {
            let internal = flavor.internal_name_for(tag);
            let display = flavor.display_name_for(tag);
            let descriptor = generate_compatibility_tool_vdf(internal.as_str(), display.as_str());
            Ok(Relocation { source, target: internal, descriptor: Some(descriptor) })
        },
        _ => {
            let target = source.clone();
            Ok(Relocation { source, target, descriptor: None })
        },
    }
}

} // verus!
