//! What the service does with a message from a session.

use vstd::prelude::*;
use vstd::string::StringExecFns;
use crate::app::{
    cancel_notice,
    cancel_step,
    task_is_complete,
    with_task,
    AppState,
    AppStateModel,
    CancelOutcome,
    Request,
    RequestModel,
    RequestType,
    TaskType,
};

verus! {

/// What the caller does after a message was taken in.
#[derive(Debug)]
pub enum SessionAction {
    /// Nothing.
    Ignore,
    /// Scan the install directory, reconcile the state with what is found,
    /// and send every session the state.
    Rescan,
    /// Send every session the state.
    Broadcast,
    /// Show every session this notice.
    Notify(String),
    /// Send every session the state, then show this notice.
    BroadcastAndNotify(String),
}

/// A [`SessionAction`] as mathematical values.
pub enum SessionActionModel {
    Ignore,
    Rescan,
    Broadcast,
    Notify(Seq<char>),
    BroadcastAndNotify(Seq<char>),
}

impl View for SessionAction {
    type V = SessionActionModel;

    open spec fn view(&self) -> SessionActionModel {
        match self {
            SessionAction::Ignore => SessionActionModel::Ignore,
            SessionAction::Rescan => SessionActionModel::Rescan,
            SessionAction::Broadcast => SessionActionModel::Broadcast,
            SessionAction::Notify(text) => SessionActionModel::Notify(text@),
            SessionAction::BroadcastAndNotify(text) => SessionActionModel::BroadcastAndNotify(
                text@,
            ),
        }
    }
}

/// The notice shown for a task message that carries no task, or a task that
/// lacks what its type needs.
pub open spec fn malformed_task_notice() -> Seq<char> {
    "Error: Something went wrong with the task request"@
}

/// What a message from a session does to `state`, and what follows.
///
/// A request for the state stores the host's registry where the message
/// carries one, and asks for a rescan. A task is put on the queue, except a
/// cancellation, which is applied at once. A malformed task changes nothing
/// and is answered with a notice. Any other message is ignored.
pub open spec fn session_step(state: AppStateModel, request: RequestModel) -> (
    AppStateModel,
    SessionActionModel,
) {
    match request.request_type {
        RequestType::RequestState => match request.available_compat_tools {
            Some(registry) => (
                AppStateModel { available_compat_tools: Some(registry), ..state },
                SessionActionModel::Rescan,
            ),
            None => (state, SessionActionModel::Rescan),
        },
        RequestType::Task => match request.task {
            Some(task) => if !task_is_complete(task) {
                (state, SessionActionModel::Notify(malformed_task_notice()))
            } else if task.task_type == TaskType::CancelCompatibilityToolInstall {
                let (after, outcome) = cancel_step(state, task);
                if outcome == CancelOutcome::NotFound {
                    (after, SessionActionModel::Notify(cancel_notice(outcome)))
                } else {
                    (after, SessionActionModel::BroadcastAndNotify(cancel_notice(outcome)))
                }
            } else {
                (with_task(state, task), SessionActionModel::Broadcast)
            },
            None => (state, SessionActionModel::Notify(malformed_task_notice())),
        },
        RequestType::UpdateState => (state, SessionActionModel::Ignore),
        RequestType::Notification => (state, SessionActionModel::Ignore),
    }
}

impl AppState {
    /// Takes in a message from a session.
    pub fn handle_request(&mut self, request: Request) -> (out: SessionAction)
        ensures
            (final(self)@, out@) == session_step(old(self)@, request@),
    {
        let Request { request_type, task, notification: _, available_compat_tools, app_state: _ } =
            request;
        match request_type {
            RequestType::RequestState => {
                match available_compat_tools {
                    Some(registry) => {
                        self.available_compat_tools = Some(registry);
                    },
                    None => {},
                }
                SessionAction::Rescan
            },
            RequestType::Task => match task {
                Some(task) => {
                    if !task.is_complete() {
                        SessionAction::Notify(
                            String::from_str("Error: Something went wrong with the task request"),
                        )
                    } else if task.task_type == TaskType::CancelCompatibilityToolInstall {
                        let outcome = self.remove_or_cancel_from_task_queue(&task);
                        if outcome == CancelOutcome::NotFound {
                            SessionAction::Notify(outcome.notice())
                        } else {
                            SessionAction::BroadcastAndNotify(outcome.notice())
                        }
                    } else {
                        self.add_to_task_queue(task);
                        SessionAction::Broadcast
                    }
                },
                None => SessionAction::Notify(
                    String::from_str("Error: Something went wrong with the task request"),
                ),
            },
            RequestType::UpdateState => SessionAction::Ignore,
            RequestType::Notification => SessionAction::Ignore,
        }
    }
}

/// A cancellation never enters the queue, and no message starts or ends an
/// install job: the job in flight is at most told to stop.
pub proof fn lemma_session_never_starts_job(state: AppStateModel, request: RequestModel)
    ensures
        session_step(state, request).0.in_progress is Some <==> state.in_progress is Some,
        session_step(state, request).0.installed_compatibility_tools
            == state.installed_compatibility_tools,
        request.request_type == RequestType::Task && request.task is Some
            && request.task->0.task_type == TaskType::CancelCompatibilityToolInstall
            ==> session_step(state, request).0.task_queue.len() <= state.task_queue.len(),
{
    if request.request_type == RequestType::Task && request.task is Some {
        let task = request.task->0;
        if task_is_complete(task) && task.task_type == TaskType::CancelCompatibilityToolInstall {
            crate::search::lemma_first_index_is_first(
                state.task_queue,
                crate::app::cancelled_by(task),
            );
        }
    }
}

} // verus!
