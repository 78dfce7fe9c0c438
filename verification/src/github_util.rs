//! The remote release catalog: its records, its errors, and the page-by-page
//! listing of every release of one repository.

use vstd::prelude::*;
use vstd::string::StringExecFns;
use crate::text::{decimal, to_decimal};

verus! {

/// One downloadable file attached to a release.
#[derive(Debug)]
pub struct Asset {
    pub url: String,
    pub id: u64,
    pub name: String,
    pub content_type: String,
    pub state: String,
    pub size: u64,
    pub download_count: u64,
    pub created_at: String,
    pub updated_at: String,
    pub browser_download_url: String,
}

/// What an [`Asset`] holds, as mathematical values.
pub struct AssetModel {
    pub url: Seq<char>,
    pub id: u64,
    pub name: Seq<char>,
    pub content_type: Seq<char>,
    pub state: Seq<char>,
    pub size: u64,
    pub download_count: u64,
    pub created_at: Seq<char>,
    pub updated_at: Seq<char>,
    pub browser_download_url: Seq<char>,
}

impl View for Asset {
    type V = AssetModel;

    open spec fn view(&self) -> AssetModel {
        AssetModel {
            url: self.url@,
            id: self.id,
            name: self.name@,
            content_type: self.content_type@,
            state: self.state@,
            size: self.size,
            download_count: self.download_count,
            created_at: self.created_at@,
            updated_at: self.updated_at@,
            browser_download_url: self.browser_download_url@,
        }
    }
}

impl DeepView for Asset {
    type V = AssetModel;

    open spec fn deep_view(&self) -> AssetModel {
        self@
    }
}

impl Clone for Asset {
    fn clone(&self) -> (out: Self)
        ensures
            out@ == self@,
    {
        Asset {
            url: self.url.clone(),
            id: self.id,
            name: self.name.clone(),
            content_type: self.content_type.clone(),
            state: self.state.clone(),
            size: self.size,
            download_count: self.download_count,
            created_at: self.created_at.clone(),
            updated_at: self.updated_at.clone(),
            browser_download_url: self.browser_download_url.clone(),
        }
    }
}

/// One published release of a repository, as the remote catalog reports it.
#[derive(Debug)]
pub struct Release {
    pub url: String,
    pub id: u64,
    pub draft: bool,
    pub prerelease: bool,
    pub name: String,
    pub tag_name: String,
    pub assets: Vec<Asset>,
    pub created_at: String,
    pub published_at: String,
    pub tarball_url: String,
    pub body: String,
}

/// What a [`Release`] holds, as mathematical values.
pub struct ReleaseModel {
    pub url: Seq<char>,
    pub id: u64,
    pub draft: bool,
    pub prerelease: bool,
    pub name: Seq<char>,
    pub tag_name: Seq<char>,
    pub assets: Seq<AssetModel>,
    pub created_at: Seq<char>,
    pub published_at: Seq<char>,
    pub tarball_url: Seq<char>,
    pub body: Seq<char>,
}

impl View for Release {
    type V = ReleaseModel;

    open spec fn view(&self) -> ReleaseModel {
        ReleaseModel {
            url: self.url@,
            id: self.id,
            draft: self.draft,
            prerelease: self.prerelease,
            name: self.name@,
            tag_name: self.tag_name@,
            assets: self.assets.deep_view(),
            created_at: self.created_at@,
            published_at: self.published_at@,
            tarball_url: self.tarball_url@,
            body: self.body@,
        }
    }
}

impl DeepView for Release {
    type V = ReleaseModel;

    open spec fn deep_view(&self) -> ReleaseModel {
        self@
    }
}

/// A copy of every asset of `assets`, in order.
pub fn clone_assets(assets: &Vec<Asset>) -> (out: Vec<Asset>)
    ensures
        out.deep_view() == assets.deep_view(),
{
    let mut out: Vec<Asset> = Vec::new();
    let mut i: usize = 0;
    while i < assets.len()
        invariant
            i <= assets.len(),
            out.len() == i,
            forall|j: int| 0 <= j < i ==> out[j]@ == assets[j]@,
        decreases assets.len() - i,
    {
        out.push(assets[i].clone());
        i += 1;
    }
    out
}

impl Clone for Release {
    fn clone(&self) -> (out: Self)
        ensures
            out@ == self@,
    {
        Release {
            url: self.url.clone(),
            id: self.id,
            draft: self.draft,
            prerelease: self.prerelease,
            name: self.name.clone(),
            tag_name: self.tag_name.clone(),
            assets: clone_assets(&self.assets),
            created_at: self.created_at.clone(),
            published_at: self.published_at.clone(),
            tarball_url: self.tarball_url.clone(),
            body: self.body.clone(),
        }
    }
}

/// A copy of every release of `releases`, in order.
pub fn clone_releases(releases: &Vec<Release>) -> (out: Vec<Release>)
    ensures
        out.deep_view() == releases.deep_view(),
{
    let mut out: Vec<Release> = Vec::new();
    let mut i: usize = 0;
    while i < releases.len()
        invariant
            i <= releases.len(),
            out.len() == i,
            forall|j: int| 0 <= j < i ==> out[j]@ == releases[j]@,
        decreases releases.len() - i,
    {
        out.push(releases[i].clone());
        i += 1;
    }
    out
}

/// The body the remote API sends in place of a release list when it declines
/// to answer, most often because the caller is rate limited.
#[derive(Debug)]
pub struct Response {
    pub message: String,
}

impl View for Response {
    type V = Seq<char>;

    open spec fn view(&self) -> Seq<char> {
        self.message@
    }
}

impl Clone for Response {
    fn clone(&self) -> (out: Self)
        ensures
            out@ == self@,
    {
        Response { message: self.message.clone() }
    }
}

/// Why listing a repository's releases failed.
#[derive(Debug)]
pub enum GitHubUtilError {
    /// The request could not be made, or was answered with a failure status.
    RequestError(String),
    /// The answer was neither a release list nor a refusal message.
    JsonParsingError(String),
    /// The remote API declined to answer and said why.
    RateLimitError(String),
}

/// What a [`GitHubUtilError`] holds, as mathematical values.
pub enum GitHubUtilErrorModel {
    RequestError(Seq<char>),
    JsonParsingError(Seq<char>),
    RateLimitError(Seq<char>),
}

impl View for GitHubUtilError {
    type V = GitHubUtilErrorModel;

    open spec fn view(&self) -> GitHubUtilErrorModel {
        match self {
            GitHubUtilError::RequestError(s) => GitHubUtilErrorModel::RequestError(s@),
            GitHubUtilError::JsonParsingError(s) => GitHubUtilErrorModel::JsonParsingError(s@),
            GitHubUtilError::RateLimitError(s) => GitHubUtilErrorModel::RateLimitError(s@),
        }
    }
}

/// The text that [`GitHubUtilError::message`] gives for an error.
pub open spec fn error_message(e: GitHubUtilErrorModel) -> Seq<char> {
    match e {
        GitHubUtilErrorModel::RequestError(s) => "Request Error: "@ + s,
        GitHubUtilErrorModel::JsonParsingError(s) => "Failed to parse Json: "@ + s,
        GitHubUtilErrorModel::RateLimitError(s) => "Failed to parse Json: "@ + s,
    }
}

impl GitHubUtilError {
    /// The error a failed transport reports, carrying the transport's own
    /// description of what went wrong.
    pub fn from_transport(description: String) -> (out: Self)
        ensures
            out@ == GitHubUtilErrorModel::RequestError(description@),
    {
        GitHubUtilError::RequestError(description)
    }

    /// The line shown for this error.
    pub fn message(&self) -> (out: String)
        ensures
            out@ == error_message(self@),
    {
        match self {
            GitHubUtilError::RequestError(s) => String::from_str("Request Error: ").concat(
                s.as_str(),
            ),
            GitHubUtilError::JsonParsingError(s) => String::from_str(
                "Failed to parse Json: ",
            ).concat(s.as_str()),
            GitHubUtilError::RateLimitError(s) => String::from_str(
                "Failed to parse Json: ",
            ).concat(s.as_str()),
        }
    }
}

/// The address of page `page` of the release listing of `owner/repository`.
pub open spec fn releases_page_url(owner: Seq<char>, repository: Seq<char>, page: nat) -> Seq<
    char,
> {
    "https://api.github.com/repos/"@ + owner + "/"@ + repository
        + "/releases?per_page=100&page="@ + decimal(page)
}

/// What came back for one page of the listing.
#[derive(Debug)]
pub enum PageOutcome {
    /// The request itself failed; the text describes the failure.
    Transport(String),
    /// The server answered with a failure status; the text is that status.
    Refused(String),
    /// The server answered with success and this body.
    Body(PageBody),
}

/// A successful answer's body, together with the two readings of it.
#[derive(Debug)]
pub struct PageBody {
    /// The body as received.
    pub text: String,
    /// The body read as a list of releases, where it is one.
    pub releases: Option<Vec<Release>>,
    /// The body read as a refusal message, where it is one.
    pub refusal: Option<Response>,
}

/// What a [`PageOutcome`] holds, as mathematical values.
pub enum PageOutcomeModel {
    Transport(Seq<char>),
    Refused(Seq<char>),
    Body { text: Seq<char>, releases: Option<Seq<ReleaseModel>>, refusal: Option<Seq<char>> },
}

impl View for PageOutcome {
    type V = PageOutcomeModel;

    open spec fn view(&self) -> PageOutcomeModel {
        match self {
            PageOutcome::Transport(s) => PageOutcomeModel::Transport(s@),
            PageOutcome::Refused(s) => PageOutcomeModel::Refused(s@),
            PageOutcome::Body(b) => PageOutcomeModel::Body {
                text: b.text@,
                releases: b.releases.deep_view(),
                refusal: match b.refusal {
                    Some(r) => Some(r@),
                    None => None,
                },
            },
        }
    }
}

/// What the caller of a listing does next.
#[derive(Debug)]
pub enum PagerStep {
    /// Ask for the next page and report back through this pager.
    Fetch(ReleasePager),
    /// The listing is complete: these are all the releases, first page first.
    Done(Vec<Release>),
    /// The listing failed.
    Failed(GitHubUtilError),
}

/// A [`PagerStep`] as mathematical values.
pub enum PagerStepModel {
    Fetch(PagerModel),
    Done(Seq<ReleaseModel>),
    Failed(GitHubUtilErrorModel),
}

/// A [`ReleasePager`] as mathematical values.
pub struct PagerModel {
    pub owner: Seq<char>,
    pub repository: Seq<char>,
    /// Pages received so far, all of them non-empty.
    pub pages_done: nat,
    /// The releases of those pages, in order.
    pub releases: Seq<ReleaseModel>,
}

/// The step that follows `outcome` for a listing in state `pager`.
///
/// A page with no release ends the listing. A body that is no release list is
/// a rate limit refusal where it reads as one, else a parse failure that
/// carries the body. A failure status is reported with that status.
pub open spec fn pager_step(pager: PagerModel, outcome: PageOutcomeModel) -> PagerStepModel {
    match outcome {
        PageOutcomeModel::Transport(why) => PagerStepModel::Failed(
            GitHubUtilErrorModel::RequestError(why),
        ),
        PageOutcomeModel::Refused(status) => PagerStepModel::Failed(
            GitHubUtilErrorModel::RequestError("Failed to fetch releases: "@ + status),
        ),
        PageOutcomeModel::Body { text, releases, refusal } => match releases {
            Some(page) => if page.len() == 0 {
                PagerStepModel::Done(pager.releases)
            } else {
                PagerStepModel::Fetch(
                    PagerModel {
                        pages_done: pager.pages_done + 1,
                        releases: pager.releases + page,
                        ..pager
                    },
                )
            },
            None => match refusal {
                Some(message) => PagerStepModel::Failed(
                    GitHubUtilErrorModel::RateLimitError(message),
                ),
                None => PagerStepModel::Failed(GitHubUtilErrorModel::JsonParsingError(text)),
            },
        },
    }
}

impl View for PagerStep {
    type V = PagerStepModel;

    open spec fn view(&self) -> PagerStepModel {
        match self {
            PagerStep::Fetch(p) => PagerStepModel::Fetch(p@),
            PagerStep::Done(r) => PagerStepModel::Done(r.deep_view()),
            PagerStep::Failed(e) => PagerStepModel::Failed(e@),
        }
    }
}

/// The progress of one listing of all releases of a repository.
///
/// The listing asks for page after page, starting at page 1, until a page
/// comes back empty.
#[derive(Debug)]
pub struct ReleasePager {
    owner: String,
    repository: String,
    pages_done: usize,
    releases: Vec<Release>,
}

impl View for ReleasePager {
    type V = PagerModel;

    closed spec fn view(&self) -> PagerModel {
        PagerModel {
            owner: self.owner@,
            repository: self.repository@,
            pages_done: self.pages_done as nat,
            releases: self.releases.deep_view(),
        }
    }
}

impl ReleasePager {
    #[verifier::type_invariant]
    spec fn counted(&self) -> bool {
        self.pages_done <= self.releases.len()
    }

    /// A listing of `owner/repository` of which no page was asked for yet.
    pub fn new(owner: &str, repository: &str) -> (out: Self)
        ensures
            out@ == (PagerModel {
                owner: owner@,
                repository: repository@,
                pages_done: 0,
                releases: Seq::empty(),
            }),
    {
        let out = ReleasePager {
            owner: String::from_str(owner),
            repository: String::from_str(repository),
            pages_done: 0,
            releases: Vec::new(),
        };
        assert(out.releases.deep_view() =~= Seq::empty());
        out
    }

    /// The address of the page to ask for next.
    pub fn page_url(&self) -> (out: String)
        ensures
            out@ == releases_page_url(self@.owner, self@.repository, self@.pages_done + 1),
    {
        let page = to_decimal(self.pages_done as u128 + 1);
        String::from_str("https://api.github.com/repos/").concat(self.owner.as_str()).concat(
            "/",
        ).concat(self.repository.as_str()).concat("/releases?per_page=100&page=").concat(
            page.as_str(),
        )
    }

    /// Takes in what came back for the page last asked for.
    pub fn advance(self, outcome: PageOutcome) -> (out: PagerStep)
        ensures
            out@ == pager_step(self@, outcome@),
    {
        proof {
            use_type_invariant(&self);
        }
        match outcome {
            PageOutcome::Transport(why) => PagerStep::Failed(GitHubUtilError::RequestError(why)),
            PageOutcome::Refused(status) => PagerStep::Failed(
                GitHubUtilError::RequestError(
                    String::from_str("Failed to fetch releases: ").concat(status.as_str()),
                ),
            ),
            PageOutcome::Body(body) => {
                let PageBody { text, releases, refusal } = body;
                match releases {
                    Some(mut page) => {
                        if page.len() == 0 {
                            PagerStep::Done(self.releases)
                        } else {
                            let ReleasePager { owner, repository, pages_done, releases } = self;
                            let mut all = releases;
                            let ghost before = all.deep_view();
                            let ghost added = page.deep_view();
                            all.append(&mut page);
                            assert(all.deep_view() =~= before + added);
                            assert(pages_done < all.len());
                            PagerStep::Fetch(
                                ReleasePager {
                                    owner,
                                    repository,
                                    pages_done: pages_done + 1,
                                    releases: all,
                                },
                            )
                        }
                    },
                    None => match refusal {
                        Some(r) => PagerStep::Failed(GitHubUtilError::RateLimitError(r.message)),
                        None => PagerStep::Failed(GitHubUtilError::JsonParsingError(text)),
                    },
                }
            },
        }
    }
}

} // verus!
