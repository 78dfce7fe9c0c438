//! The supervisor that hands out the queued work one piece at a time, and the
//! steps that take the one install job from download to completion.

use std::collections::HashMap;
use vstd::prelude::*;
use vstd::string::StringExecFns;
use crate::app::{
    cancel_step,
    cancelled_by,
    with_task,
    AppState,
    AppStateModel,
    CancelOutcome,
    TaskModel,
    TaskType,
};
use crate::flavors::{SteamCompatibilityTool, ToolModel};
use crate::install::{
    failure_notice,
    look_for_compressed_archive,
    progress_of,
    selected_job,
    Download,
    DownloadModel,
    Install,
    InstallFailure,
    InstallModel,
    JobModel,
    QueueCompatibilityToolState,
};
use crate::reconcile::reconciled;
use crate::search::first_index;
use crate::steam_util::{
    usage_mapping,
    CompatibilityTool,
    SteamApp,
};

verus! {

/// What the driver of the service does next.
#[derive(Debug)]
pub enum SupervisorAction {
    /// Refresh every catalog from its source, whatever the cache holds, then
    /// reconcile.
    RefreshCatalog,
    /// An install job is in flight. Nothing was taken off the queue.
    Busy,
    /// The queue is empty: pause briefly before asking again.
    Sleep,
    /// Install this request. Its job is in flight now: download its archive.
    Download(Install),
    /// Remove this tool.
    Uninstall(SteamCompatibilityTool),
    /// The task taken off the queue asks for nothing that can be done.
    Skip,
}

/// A [`SupervisorAction`] as mathematical values.
pub enum SupervisorActionModel {
    RefreshCatalog,
    Busy,
    Sleep,
    Download(InstallModel),
    Uninstall(ToolModel),
    Skip,
}

impl View for SupervisorAction {
    type V = SupervisorActionModel;

    open spec fn view(&self) -> SupervisorActionModel {
        match self {
            SupervisorAction::RefreshCatalog => SupervisorActionModel::RefreshCatalog,
            SupervisorAction::Busy => SupervisorActionModel::Busy,
            SupervisorAction::Sleep => SupervisorActionModel::Sleep,
            SupervisorAction::Download(install) => SupervisorActionModel::Download(install@),
            SupervisorAction::Uninstall(tool) => SupervisorActionModel::Uninstall(tool@),
            SupervisorAction::Skip => SupervisorActionModel::Skip,
        }
    }
}

/// `job` as it starts to download.
pub open spec fn started(job: JobModel) -> JobModel {
    JobModel { state: QueueCompatibilityToolState::Downloading, progress: 0, ..job }
}

/// What handing out `task` does to a state from whose queue it was taken.
pub open spec fn dispatch(rest: AppStateModel, task: TaskModel) -> (
    AppStateModel,
    SupervisorActionModel,
) {
    match task.task_type {
        TaskType::InstallCompatibilityTool => match task.install {
            Some(install) => match selected_job(install) {
                Some(job) => (
                    AppStateModel { in_progress: Some(started(job)), ..rest },
                    SupervisorActionModel::Download(install),
                ),
                None => (rest, SupervisorActionModel::Skip),
            },
            None => (rest, SupervisorActionModel::Skip),
        },
        TaskType::UninstallCompatibilityTool => match task.uninstall {
            Some(uninstall) => (
                rest,
                SupervisorActionModel::Uninstall(uninstall.steam_compatibility_tool),
            ),
            None => (rest, SupervisorActionModel::Skip),
        },
        TaskType::CheckForFlavorUpdates => (rest, SupervisorActionModel::RefreshCatalog),
        TaskType::CancelCompatibilityToolInstall => (rest, SupervisorActionModel::Skip),
    }
}

/// One step of the supervisor on `state`.
///
/// While an install job is in flight nothing is handed out. Else the oldest
/// task leaves the queue. An install whose release has an installable asset
/// becomes the job in flight; one without is dropped, and no job is made.
pub open spec fn supervisor_step(state: AppStateModel) -> (AppStateModel, SupervisorActionModel) {
    if state.in_progress is Some {
        (state, SupervisorActionModel::Busy)
    } else if state.task_queue.len() == 0 {
        (state, SupervisorActionModel::Sleep)
    } else {
        dispatch(
            AppStateModel { task_queue: state.task_queue.skip(1), ..state },
            state.task_queue[0],
        )
    }
}

/// The driver's own memory: whether the service has made its first step.
#[derive(Debug)]
pub struct Supervisor {
    started: bool,
}

impl View for Supervisor {
    type V = bool;

    closed spec fn view(&self) -> bool {
        self.started
    }
}

/// One step of a supervisor that has (`started`) or has not yet made its
/// first step: the first step of all refreshes the catalogs, every later one
/// is a [`supervisor_step`].
pub open spec fn supervisor_next(started: bool, state: AppStateModel) -> (
    AppStateModel,
    SupervisorActionModel,
) {
    if started {
        supervisor_step(state)
    } else {
        (state, SupervisorActionModel::RefreshCatalog)
    }
}

impl Supervisor {
    /// The supervisor of a service that has just started.
    pub fn new() -> (out: Self)
        ensures
            !out@,
    {
        Supervisor { started: false }
    }

    /// Says what to do next, and takes it off the queue.
    pub fn next_action(&mut self, state: &mut AppState) -> (out: SupervisorAction)
        ensures
            final(self)@,
            (final(state)@, out@) == supervisor_next(old(self)@, old(state)@),
    {
        if !self.started {
            self.started = true;
            return SupervisorAction::RefreshCatalog;
        }
        state.next_task()
    }
}

impl AppState {
    /// One step of the supervisor: hands out the oldest task, unless an
    /// install job is in flight.
    pub fn next_task(&mut self) -> (out: SupervisorAction)
        ensures
            (final(self)@, out@) == supervisor_step(old(self)@),
    {
        if self.in_progress.is_some() {
            return SupervisorAction::Busy;
        }
        let task = match self.task_queue_pop_front() {
            Some(task) => task,
            None => {
                return SupervisorAction::Sleep;
            },
        };
        match task.task_type {
            TaskType::InstallCompatibilityTool => match task.install {
                Some(install) => match look_for_compressed_archive(&install) {
                    Some(job) => {
                        let mut job = job;
                        job.state = QueueCompatibilityToolState::Downloading;
                        job.progress = 0;
                        self.in_progress = Some(job);
                        SupervisorAction::Download(install)
                    },
                    None => SupervisorAction::Skip,
                },
                None => SupervisorAction::Skip,
            },
            TaskType::UninstallCompatibilityTool => match task.uninstall {
                Some(uninstall) => SupervisorAction::Uninstall(uninstall.steam_compatibility_tool),
                None => SupervisorAction::Skip,
            },
            TaskType::CheckForFlavorUpdates => SupervisorAction::RefreshCatalog,
            TaskType::CancelCompatibilityToolInstall => SupervisorAction::Skip,
        }
    }
}

/// How taking in one chunk of a download ended.
#[derive(Clone, Copy, Debug, PartialEq, Eq, Structural)]
pub enum ChunkOutcome {
    /// The job was cancelled and is gone. Stop: there is nothing to clean up
    /// and nothing to tell the user.
    Cancelled,
    /// The download broke off and the job is gone. Stop and tell the user.
    Failed,
    /// The chunk was taken in and the percentage changed: tell the sessions.
    Advanced,
    /// The chunk was taken in and the percentage is as before.
    Received,
}

/// `state` without a job in flight.
pub open spec fn job_cleared(state: AppStateModel) -> AppStateModel {
    AppStateModel { in_progress: None, ..state }
}

/// What one chunk of the download does. `chunk` is the chunk received, or
/// nothing where reading it failed.
///
/// Cancellation is looked at first: a job that was told to stop is removed
/// and the chunk is dropped. A failed read removes the job as well. Else the
/// chunk is added to the download, and the job's percentage follows.
pub open spec fn chunk_step(state: AppStateModel, download: DownloadModel, chunk: Option<Seq<u8>>) -> (
    AppStateModel,
    DownloadModel,
    ChunkOutcome,
) {
    match state.in_progress {
        None => (state, download, ChunkOutcome::Cancelled),
        Some(job) => if job.state == QueueCompatibilityToolState::Cancelling {
            (job_cleared(state), download, ChunkOutcome::Cancelled)
        } else {
            match chunk {
                None => (job_cleared(state), download, ChunkOutcome::Failed),
                Some(bytes) => {
                    let received = DownloadModel { bytes: download.bytes + bytes, ..download };
                    let percent = progress_of(received.bytes.len(), received.total as nat) as u8;
                    if percent != job.progress {
                        (
                            AppStateModel {
                                in_progress: Some(JobModel { progress: percent, ..job }),
                                ..state
                            },
                            received,
                            ChunkOutcome::Advanced,
                        )
                    } else {
                        (state, received, ChunkOutcome::Received)
                    }
                },
            }
        },
    }
}

/// `state` as the job in flight starts to unpack its archive.
pub open spec fn extracting(state: AppStateModel) -> AppStateModel {
    match state.in_progress {
        Some(job) => AppStateModel {
            in_progress: Some(
                JobModel { state: QueueCompatibilityToolState::Extracting, progress: 0, ..job },
            ),
            ..state
        },
        None => state,
    }
}

/// The notice shown when the install of `install` is complete.
pub open spec fn completion_notice(install: InstallModel) -> Seq<char> {
    "Installation Completed: "@ + install.release.name
}

impl AppState {
    /// Takes in one chunk of the download of the job in flight, or the news
    /// that reading it failed.
    pub fn receive_chunk(&mut self, download: &mut Download, chunk: Option<&[u8]>) -> (out:
        ChunkOutcome)
        ensures
            (final(self)@, final(download)@, out) == chunk_step(
                old(self)@,
                old(download)@,
                match chunk {
                    Some(bytes) => Some(bytes@),
                    None => None,
                },
            ),
    {
        let cancelling = match &self.in_progress {
            None => {
                return ChunkOutcome::Cancelled;
            },
            Some(job) => job.state == QueueCompatibilityToolState::Cancelling,
        };
        if cancelling {
            self.in_progress = None;
            return ChunkOutcome::Cancelled;
        }
        match chunk {
            None => {
                self.in_progress = None;
                ChunkOutcome::Failed
            },
            Some(bytes) => {
                download.receive(bytes);
                let percent = download.progress();
                match &mut self.in_progress {
                    Some(job) => {
                        if job.progress != percent {
                            job.progress = percent;
                            ChunkOutcome::Advanced
                        } else {
                            ChunkOutcome::Received
                        }
                    },
                    None => ChunkOutcome::Received,
                }
            },
        }
    }

    /// Marks the job in flight as unpacking its archive. From here on the job
    /// cannot be cancelled. Says whether there is a job.
    pub fn begin_extraction(&mut self) -> (out: bool)
        ensures
            final(self)@ == extracting(old(self)@),
            out == old(self)@.in_progress is Some,
    {
        match &mut self.in_progress {
            Some(job) => {
                job.state = QueueCompatibilityToolState::Extracting;
                job.progress = 0;
                true
            },
            None => false,
        }
    }

    /// Ends the job in flight after its package went live: reconciles the
    /// state with a fresh scan of the install directory, removes the job and
    /// gives the notice to show.
    pub fn complete_install(
        &mut self,
        install: &Install,
        scanned: &Vec<CompatibilityTool>,
        mapping: &HashMap<u64, String>,
        games: &Vec<SteamApp>,
    ) -> (out: String)
        ensures
            final(self)@ == job_cleared(
                reconciled(
                    old(self)@,
                    scanned.deep_view(),
                    usage_mapping(mapping@),
                    games.deep_view(),
                ),
            ),
            out@ == completion_notice(install@),
    {
        self.sync_backend_with_installed_compat_tools(scanned, mapping, games);
        self.in_progress = None;
        String::from_str("Installation Completed: ").concat(install.release.name.as_str())
    }

    /// Ends the job in flight after it failed: removes the job, leaves
    /// everything else as it is, and gives the notice to show.
    pub fn abort_install(&mut self, failure: &InstallFailure) -> (out: String)
        ensures
            final(self)@ == job_cleared(old(self)@),
            out@ == failure_notice(failure@),
    {
        self.in_progress = None;
        failure.notice()
    }
}

/// While a job is in flight the supervisor hands out nothing: the queue and
/// the job stay as they are.
pub proof fn lemma_busy_supervisor_waits(state: AppStateModel)
    requires
        state.in_progress is Some,
    ensures
        supervisor_step(state) == (state, SupervisorActionModel::Busy),
{
}

/// A job is only ever started from an idle state, by the one task that leaves
/// the queue in that step, and no step adds to the queue or reorders it.
pub proof fn lemma_supervisor_starts_one_job(state: AppStateModel)
    ensures
        supervisor_step(state).1 is Download ==> {
            &&& state.in_progress is None
            &&& state.task_queue.len() > 0
            &&& state.task_queue[0].install == Some(supervisor_step(state).1->Download_0)
            &&& supervisor_step(state).0.in_progress == Some(
                started(selected_job(supervisor_step(state).1->Download_0)->0),
            )
            &&& supervisor_step(state).0.task_queue == state.task_queue.skip(1)
        },
        !(supervisor_step(state).1 is Download) ==> supervisor_step(state).0.in_progress
            == state.in_progress,
        supervisor_step(state).0.task_queue == state.task_queue || supervisor_step(
            state,
        ).0.task_queue == state.task_queue.skip(1),
        supervisor_step(state).0.installed_compatibility_tools
            == state.installed_compatibility_tools,
{
}

/// Whether a task is an install whose release has an installable asset.
pub open spec fn is_installable(task: TaskModel) -> bool {
    &&& task.task_type == TaskType::InstallCompatibilityTool
    &&& task.install is Some
    &&& selected_job(task.install->0) is Some
}

/// The state after `rounds` tasks were handed out, and each job that one of
/// them started ran to its end before the next task was asked for.
pub open spec fn after_installs(state: AppStateModel, rounds: nat) -> AppStateModel
    decreases rounds,
{
    if rounds == 0 {
        state
    } else {
        job_cleared(supervisor_step(after_installs(state, (rounds - 1) as nat)).0)
    }
}

/// Installs run one at a time, first in, first out. From an idle state every
/// step of the supervisor takes exactly the oldest waiting task off the queue
/// and leaves the others waiting in order. Where that task is an install
/// with an installable asset, it is the one job in flight, and nothing more
/// is handed out while it runs. Where it is not, no job is made. Once each
/// task has been handed out the queue is empty and no job is left.
pub proof fn lemma_installs_are_serialized(state: AppStateModel, round: nat)
    requires
        state.in_progress is None,
        round <= state.task_queue.len(),
    ensures
        after_installs(state, round).in_progress is None,
        after_installs(state, round).task_queue == state.task_queue.skip(round as int),
        round < state.task_queue.len() ==> {
            let task = state.task_queue[round as int];
            let running = supervisor_step(after_installs(state, round)).0;
            let action = supervisor_step(after_installs(state, round)).1;
            &&& running.task_queue == state.task_queue.skip(round as int + 1)
            &&& is_installable(task) ==> {
                &&& action == SupervisorActionModel::Download(task.install->0)
                &&& running.in_progress == Some(started(selected_job(task.install->0)->0))
                &&& supervisor_step(running) == (running, SupervisorActionModel::Busy)
            }
            &&& !is_installable(task) ==> {
                &&& !(action is Download)
                &&& running.in_progress is None
            }
        },
    decreases round,
{
    if round > 0 {
        lemma_installs_are_serialized(state, (round - 1) as nat);
        let before = after_installs(state, (round - 1) as nat);
        assert(before.task_queue[0] == state.task_queue[round - 1]);
        assert(before.task_queue.skip(1) =~= state.task_queue.skip(round as int));
    }
    if round < state.task_queue.len() {
        let now = after_installs(state, round);
        assert(now.task_queue[0] == state.task_queue[round as int]);
        assert(now.task_queue.skip(1) =~= state.task_queue.skip(round as int + 1));
    }
}

/// No step of a download starts a job or touches the installed tools: the
/// job in flight changes its percentage or goes.
pub proof fn lemma_chunk_keeps_tools(state: AppStateModel, download: DownloadModel, chunk: Option<
    Seq<u8>,
>)
    ensures
        chunk_step(state, download, chunk).0.installed_compatibility_tools
            == state.installed_compatibility_tools,
        chunk_step(state, download, chunk).0.task_queue == state.task_queue,
        state.in_progress is None ==> chunk_step(state, download, chunk).0.in_progress is None,
{
}

/// A job that was told to stop is gone at the next chunk: the chunk is
/// dropped, the download ends as cancelled, and the installed tools are as
/// they were before the cancellation.
pub proof fn lemma_cancel_stops_download(
    state: AppStateModel,
    target: TaskModel,
    download: DownloadModel,
    chunk: Option<Seq<u8>>,
)
    requires
        state.in_progress is Some,
        first_index(state.task_queue, cancelled_by(target)) is None,
    ensures
        cancel_step(state, target).1 == CancelOutcome::Cancelling,
        chunk_step(cancel_step(state, target).0, download, chunk) == (
            job_cleared(state),
            download,
            ChunkOutcome::Cancelled,
        ),
        job_cleared(state).installed_compatibility_tools == state.installed_compatibility_tools,
{
}

/// Whether the job in flight, if there is one, shows a percentage.
pub open spec fn progress_in_range(state: AppStateModel) -> bool {
    state.in_progress is Some ==> state.in_progress->0.progress <= 100
}

/// The percentage of the job in flight stays between 0 and 100 through every
/// step of the pipeline, and a job starts and unpacks at 0.
pub proof fn lemma_progress_stays_in_range(
    state: AppStateModel,
    download: DownloadModel,
    chunk: Option<Seq<u8>>,
)
    requires
        progress_in_range(state),
    ensures
        progress_in_range(supervisor_step(state).0),
        progress_in_range(chunk_step(state, download, chunk).0),
        progress_in_range(extracting(state)),
        progress_in_range(job_cleared(state)),
        supervisor_step(state).1 is Download ==> supervisor_step(state).0.in_progress->0.progress
            == 0,
        extracting(state).in_progress is Some ==> extracting(state).in_progress->0.progress == 0,
{
}

/// No step of the supervisor or of the pipeline other than a completed
/// install touches the installed tools or the catalogs.
pub proof fn lemma_only_reconciliation_changes_tools(
    state: AppStateModel,
    download: DownloadModel,
    chunk: Option<Seq<u8>>,
    target: TaskModel,
)
    ensures
        supervisor_step(state).0.installed_compatibility_tools
            == state.installed_compatibility_tools,
        chunk_step(state, download, chunk).0.installed_compatibility_tools
            == state.installed_compatibility_tools,
        extracting(state).installed_compatibility_tools == state.installed_compatibility_tools,
        job_cleared(state).installed_compatibility_tools == state.installed_compatibility_tools,
        cancel_step(state, target).0.installed_compatibility_tools
            == state.installed_compatibility_tools,
        supervisor_step(state).0.available_flavors == state.available_flavors,
        chunk_step(state, download, chunk).0.available_flavors == state.available_flavors,
        extracting(state).available_flavors == state.available_flavors,
        job_cleared(state).available_flavors == state.available_flavors,
        cancel_step(state, target).0.available_flavors == state.available_flavors,
{
}

/// The queue is worked first in, first out: a task that is added waits
/// behind every task that was there before it, and is the next to be handed
/// out exactly when none was.
pub proof fn lemma_queue_is_first_in_first_out(state: AppStateModel, task: TaskModel)
    requires
        state.in_progress is None,
    ensures
        state.task_queue.len() == 0 ==> supervisor_step(with_task(state, task)) == dispatch(
            state,
            task,
        ),
        state.task_queue.len() > 0 ==> supervisor_step(with_task(state, task)) == dispatch(
            AppStateModel { task_queue: state.task_queue.skip(1).push(task), ..state },
            state.task_queue[0],
        ),
{
    let queue = state.task_queue.push(task);
    if state.task_queue.len() == 0 {
        assert(queue.skip(1) =~= state.task_queue);
    } else {
        assert(queue.skip(1) =~= state.task_queue.skip(1).push(task));
    }
}

} // verus!
