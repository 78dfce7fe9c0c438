//! The shared state of the service, the task queue in it, and the messages
//! that sessions exchange with it.

use std::collections::VecDeque;
use vstd::prelude::*;
use vstd::string::StringExecFns;
use crate::flavors::{
    clone_flavors,
    clone_registry,
    clone_tools,
    CompatToolInfoModel,
    Flavor,
    FlavorModel,
    SteamClientCompatToolInfo,
    SteamCompatibilityTool,
    ToolModel,
};
use crate::install::{
    Install,
    InstallModel,
    JobModel,
    QueueCompatibilityTool,
    QueueCompatibilityToolState,
};
use crate::search::{first_index, lemma_first_index_found, lemma_first_index_none};
use crate::uninstall::{Uninstall, UninstallModel};

verus! {

/// Whether the release catalogs are being refreshed.
#[derive(Clone, Copy, Debug, PartialEq, Eq, Structural)]
pub enum UpdaterState {
    Idle,
    Checking,
}

/// What a message is about.
#[derive(Clone, Copy, Debug, PartialEq, Eq, Structural)]
pub enum RequestType {
    RequestState,
    UpdateState,
    Notification,
    Task,
}

/// What a task asks for.
#[derive(Clone, Copy, Debug, PartialEq, Eq, Structural)]
pub enum TaskType {
    CheckForFlavorUpdates,
    InstallCompatibilityTool,
    CancelCompatibilityToolInstall,
    UninstallCompatibilityTool,
}

/// One unit of work that a session asks for.
///
/// An install and a cancellation carry the install request they are about,
/// an uninstall carries the tool to remove.
#[derive(Debug)]
pub struct Task {
    pub task_type: TaskType,
    pub install: Option<Install>,
    pub uninstall: Option<Uninstall>,
}

/// What a [`Task`] holds, as mathematical values.
pub struct TaskModel {
    pub task_type: TaskType,
    pub install: Option<InstallModel>,
    pub uninstall: Option<UninstallModel>,
}

impl View for Task {
    type V = TaskModel;

    open spec fn view(&self) -> TaskModel {
        TaskModel {
            task_type: self.task_type,
            install: self.install.deep_view(),
            uninstall: self.uninstall.deep_view(),
        }
    }
}

impl DeepView for Task {
    type V = TaskModel;

    open spec fn deep_view(&self) -> TaskModel {
        self@
    }
}

impl Clone for Task {
    fn clone(&self) -> (out: Self)
        ensures
            out@ == self@,
    {
        Task {
            task_type: self.task_type,
            install: match &self.install {
                Some(install) => Some(install.clone()),
                None => None,
            },
            uninstall: match &self.uninstall {
                Some(uninstall) => Some(uninstall.clone()),
                None => None,
            },
        }
    }
}

/// Whether a task carries what its type needs.
pub open spec fn task_is_complete(task: TaskModel) -> bool {
    match task.task_type {
        TaskType::CheckForFlavorUpdates => true,
        TaskType::InstallCompatibilityTool => task.install is Some,
        TaskType::CancelCompatibilityToolInstall => task.install is Some,
        TaskType::UninstallCompatibilityTool => task.uninstall is Some,
    }
}

impl Task {
    /// Whether everything that the type needs is there.
    pub fn is_complete(&self) -> (out: bool)
        ensures
            out == task_is_complete(self@),
    {
        match self.task_type {
            TaskType::CheckForFlavorUpdates => true,
            TaskType::InstallCompatibilityTool => self.install.is_some(),
            TaskType::CancelCompatibilityToolInstall => self.install.is_some(),
            TaskType::UninstallCompatibilityTool => self.uninstall.is_some(),
        }
    }
}

/// The single source of truth of the service.
#[derive(Debug)]
pub struct AppState {
    /// For each flavor, the releases of its catalog that are not installed.
    pub available_flavors: Vec<Flavor>,
    /// The tools found in the install directory.
    pub installed_compatibility_tools: Vec<SteamCompatibilityTool>,
    /// The install job in flight, if there is one.
    pub in_progress: Option<QueueCompatibilityTool>,
    /// The work that waits, oldest first.
    pub task_queue: VecDeque<Task>,
    pub updater_state: UpdaterState,
    /// When the catalogs were last checked, in seconds since the epoch.
    pub updater_last_check: Option<u64>,
    /// The host's own registry of tools, as a session last reported it.
    pub available_compat_tools: Option<Vec<SteamClientCompatToolInfo>>,
    /// For each flavor, its whole catalog.
    pub flavors: Vec<Flavor>,
}

/// What an [`AppState`] holds, as mathematical values.
pub struct AppStateModel {
    pub available_flavors: Seq<FlavorModel>,
    pub installed_compatibility_tools: Seq<ToolModel>,
    pub in_progress: Option<JobModel>,
    pub task_queue: Seq<TaskModel>,
    pub updater_state: UpdaterState,
    pub updater_last_check: Option<u64>,
    pub available_compat_tools: Option<Seq<CompatToolInfoModel>>,
    pub flavors: Seq<FlavorModel>,
}

impl View for AppState {
    type V = AppStateModel;

    open spec fn view(&self) -> AppStateModel {
        AppStateModel {
            available_flavors: self.available_flavors.deep_view(),
            installed_compatibility_tools: self.installed_compatibility_tools.deep_view(),
            in_progress: self.in_progress.deep_view(),
            task_queue: self.task_queue.deep_view(),
            updater_state: self.updater_state,
            updater_last_check: self.updater_last_check,
            available_compat_tools: self.available_compat_tools.deep_view(),
            flavors: self.flavors.deep_view(),
        }
    }
}

impl DeepView for AppState {
    type V = AppStateModel;

    open spec fn deep_view(&self) -> AppStateModel {
        self@
    }
}

/// The state of a service that has just started: nothing installed, nothing
/// queued, nothing known.
pub open spec fn initial_state() -> AppStateModel {
    AppStateModel {
        available_flavors: Seq::empty(),
        installed_compatibility_tools: Seq::empty(),
        in_progress: None,
        task_queue: Seq::empty(),
        updater_state: UpdaterState::Idle,
        updater_last_check: None,
        available_compat_tools: None,
        flavors: Seq::empty(),
    }
}

/// A copy of every task of `queue`, in order.
pub fn clone_queue(queue: &VecDeque<Task>) -> (out: VecDeque<Task>)
    ensures
        out.deep_view() == queue.deep_view(),
{
    let mut out: VecDeque<Task> = VecDeque::new();
    let mut i: usize = 0;
    while i < queue.len()
        invariant
            i <= queue.len(),
            out.len() == i,
            forall|j: int| 0 <= j < i ==> out@[j]@ == queue@[j]@,
        decreases queue.len() - i,
    {
        out.push_back(queue[i].clone());
        i += 1;
    }
    out
}

impl Clone for AppState {
    fn clone(&self) -> (out: Self)
        ensures
            out@ == self@,
    {
        AppState {
            available_flavors: clone_flavors(&self.available_flavors),
            installed_compatibility_tools: clone_tools(&self.installed_compatibility_tools),
            in_progress: match &self.in_progress {
                Some(job) => Some(job.clone()),
                None => None,
            },
            task_queue: clone_queue(&self.task_queue),
            updater_state: self.updater_state,
            updater_last_check: self.updater_last_check,
            available_compat_tools: match &self.available_compat_tools {
                Some(registry) => Some(clone_registry(registry)),
                None => None,
            },
            flavors: clone_flavors(&self.flavors),
        }
    }
}

/// A message between a session and the service.
#[derive(Debug)]
pub struct Request {
    pub request_type: RequestType,
    pub task: Option<Task>,
    pub notification: Option<String>,
    pub available_compat_tools: Option<Vec<SteamClientCompatToolInfo>>,
    pub app_state: Option<AppState>,
}

/// What a [`Request`] holds, as mathematical values.
pub struct RequestModel {
    pub request_type: RequestType,
    pub task: Option<TaskModel>,
    pub notification: Option<Seq<char>>,
    pub available_compat_tools: Option<Seq<CompatToolInfoModel>>,
    pub app_state: Option<AppStateModel>,
}

impl View for Request {
    type V = RequestModel;

    open spec fn view(&self) -> RequestModel {
        RequestModel {
            request_type: self.request_type,
            task: self.task.deep_view(),
            notification: self.notification.deep_view(),
            available_compat_tools: self.available_compat_tools.deep_view(),
            app_state: self.app_state.deep_view(),
        }
    }
}

impl Request {
    /// The message that tells every session the current state.
    pub fn state_update(state: &AppState) -> (out: Self)
        ensures
            out@ == (RequestModel {
                request_type: RequestType::UpdateState,
                task: None,
                notification: None,
                available_compat_tools: None,
                app_state: Some(state@),
            }),
    {
        Request {
            request_type: RequestType::UpdateState,
            task: None,
            notification: None,
            available_compat_tools: None,
            app_state: Some(state.clone()),
        }
    }

    /// The message that shows `message` to the user.
    pub fn notification(message: &str) -> (out: Self)
        ensures
            out@ == (RequestModel {
                request_type: RequestType::Notification,
                task: None,
                notification: Some(message@),
                available_compat_tools: None,
                app_state: None,
            }),
    {
        Request {
            request_type: RequestType::Notification,
            task: None,
            notification: Some(String::from_str(message)),
            available_compat_tools: None,
            app_state: None,
        }
    }
}

/// `state` with `task` added at the back of its queue.
pub open spec fn with_task(state: AppStateModel, task: TaskModel) -> AppStateModel {
    AppStateModel { task_queue: state.task_queue.push(task), ..state }
}

/// How a cancellation ended.
#[derive(Clone, Copy, Debug, PartialEq, Eq, Structural)]
pub enum CancelOutcome {
    /// The install was still waiting and has been taken off the queue.
    Removed,
    /// The install in flight has been told to stop.
    Cancelling,
    /// There was nothing to cancel.
    NotFound,
}

/// Whether a queued task is the pending install that `target` is about: an
/// install of the release with the same address.
pub open spec fn is_cancelled_by(queued: TaskModel, target: TaskModel) -> bool {
    &&& queued.task_type == TaskType::InstallCompatibilityTool
    &&& queued.install is Some
    &&& target.install is Some
    &&& queued.install->0.release.url == target.install->0.release.url
}

/// [`is_cancelled_by`] with `target` as a predicate.
pub open spec fn cancelled_by(target: TaskModel) -> spec_fn(TaskModel) -> bool {
    |queued: TaskModel| is_cancelled_by(queued, target)
}

/// What a cancellation of `target` does to `state`.
///
/// The first pending install of the same release leaves the queue. Where none
/// is pending, the job in flight is marked as cancelling. Where nothing is in
/// flight either, nothing changes.
pub open spec fn cancel_step(state: AppStateModel, target: TaskModel) -> (
    AppStateModel,
    CancelOutcome,
) {
    match first_index(state.task_queue, cancelled_by(target)) {
        Some(i) => (
            AppStateModel { task_queue: state.task_queue.remove(i), ..state },
            CancelOutcome::Removed,
        ),
        None => match state.in_progress {
            Some(job) => (
                AppStateModel {
                    in_progress: Some(
                        JobModel { state: QueueCompatibilityToolState::Cancelling, ..job },
                    ),
                    ..state
                },
                CancelOutcome::Cancelling,
            ),
            None => (state, CancelOutcome::NotFound),
        },
    }
}

/// The notice shown after a cancellation.
pub open spec fn cancel_notice(outcome: CancelOutcome) -> Seq<char> {
    match outcome {
        CancelOutcome::Removed => "Cancelled: Compatibility tool installation removed from queue"@,
        CancelOutcome::Cancelling => "Cancelling: Compatibility tool installation in progress"@,
        CancelOutcome::NotFound => "Not Found: Compatibility tool not found in queue"@,
    }
}

impl CancelOutcome {
    /// The notice shown after this cancellation.
    pub fn notice(&self) -> (out: String)
        ensures
            out@ == cancel_notice(*self),
    {
        match self {
            CancelOutcome::Removed => String::from_str(
                "Cancelled: Compatibility tool installation removed from queue",
            ),
            CancelOutcome::Cancelling => String::from_str(
                "Cancelling: Compatibility tool installation in progress",
            ),
            CancelOutcome::NotFound => String::from_str(
                "Not Found: Compatibility tool not found in queue",
            ),
        }
    }
}

/// Whether `queued` is the pending install that `target` is about.
pub fn task_is_cancelled_by(queued: &Task, target: &Task) -> (out: bool)
    ensures
        out == is_cancelled_by(queued@, target@),
{
    if queued.task_type != TaskType::InstallCompatibilityTool {
        return false;
    }
    match (&queued.install, &target.install) {
        (Some(pending), Some(wanted)) => pending.release.url == wanted.release.url,
        _ => false,
    }
}

impl AppState {
    /// The state of a service that has just started.
    pub fn new() -> (out: Self)
        ensures
            out@ == initial_state(),
    {
        let out = AppState {
            available_flavors: Vec::new(),
            installed_compatibility_tools: Vec::new(),
            in_progress: None,
            task_queue: VecDeque::new(),
            updater_state: UpdaterState::Idle,
            updater_last_check: None,
            available_compat_tools: None,
            flavors: Vec::new(),
        };
        assert(out.installed_compatibility_tools.deep_view() =~= Seq::empty());
        assert(out.task_queue.deep_view() =~= Seq::empty());
        assert(out.flavors.deep_view() =~= Seq::empty());
        out
    }

    /// Puts `task` at the back of the queue.
    pub fn add_to_task_queue(&mut self, task: Task)
        ensures
            final(self)@ == with_task(old(self)@, task@),
    {
        let ghost before = self.task_queue.deep_view();
        self.task_queue.push_back(task);
        assert(self.task_queue.deep_view() =~= before.push(task@));
    }

    /// Takes the oldest task off the queue.
    pub fn task_queue_pop_front(&mut self) -> (out: Option<Task>)
        ensures
            old(self)@.task_queue.len() == 0 ==> out is None && final(self)@ == old(self)@,
            old(self)@.task_queue.len() > 0 ==> out.deep_view() == Some(old(self)@.task_queue[0])
                && final(self)@ == (AppStateModel {
                task_queue: old(self)@.task_queue.skip(1),
                ..old(self)@
            }),
    {
        let ghost before = self.task_queue.deep_view();
        let out = self.task_queue.pop_front();
        proof {
            if before.len() > 0 {
                assert(self.task_queue.deep_view() =~= before.skip(1));
            }
        }
        out
    }

    /// Cancels the install that `task` is about: takes it off the queue where
    /// it still waits, else tells the job in flight to stop.
    pub fn remove_or_cancel_from_task_queue(&mut self, task: &Task) -> (out: CancelOutcome)
        ensures
            (final(self)@, out) == cancel_step(old(self)@, task@),
    {
        let ghost queue = self.task_queue.deep_view();
        let ghost pred = cancelled_by(task@);
        let mut i: usize = 0;
        while i < self.task_queue.len()
            invariant
                i <= self.task_queue.len(),
                *self == *old(self),
                queue == self.task_queue.deep_view(),
                pred == cancelled_by(task@),
                forall|j: int| 0 <= j < i ==> !pred(#[trigger] queue[j]),
            decreases self.task_queue.len() - i,
        {
            if task_is_cancelled_by(&self.task_queue[i], task) {
                proof {
                    lemma_first_index_found(queue, pred, i as int);
                }
                let _ = self.task_queue.remove(i);
                assert(self.task_queue.deep_view() =~= queue.remove(i as int));
                return CancelOutcome::Removed;
            }
            i += 1;
        }
        proof {
            lemma_first_index_none(queue, pred);
        }
        match &mut self.in_progress {
            Some(job) => {
                job.state = QueueCompatibilityToolState::Cancelling;
                CancelOutcome::Cancelling
            },
            None => CancelOutcome::NotFound,
        }
    }
}

} // verus!
