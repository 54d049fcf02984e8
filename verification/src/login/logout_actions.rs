//! What passes between the logout state machine and the world around it.
//!
//! The state machine does no work itself. After each step it hands its driver
//! a list of [`LogoutEffect`]s: notifications for the listeners, and requests
//! for work on the session. The driver carries them out in order and gives
//! the machine the [`LogoutResponse`] to the request it is waiting for.

use vstd::prelude::*;

verus! {

/// The two flags that the rest of the application reads to know whether it
/// may use the session.
#[derive(Clone, Copy, Debug, PartialEq, Eq, Structural)]
pub struct SessionFlags {
    /// A logout is running, or has failed after invalidating the session.
    pub logout_in_progress: bool,
    /// The session has been invalidated.
    pub point_of_no_return: bool,
}

impl SessionFlags {
    /// The flags of a session that no logout has touched.
    pub fn new() -> (flags: Self)
        ensures
            flags == (SessionFlags { logout_in_progress: false, point_of_no_return: false }),
    {
        SessionFlags { logout_in_progress: false, point_of_no_return: false }
    }

    /// Whether a new logout may be started: only one may run at a time.
    pub fn may_start_logout(&self) -> (allowed: bool)
        ensures
            allowed == !self.logout_in_progress,
    {
        !self.logout_in_progress
    }
}

/// A component without which the application cannot go on.
#[derive(Clone, Copy, Debug, PartialEq, Eq, Structural)]
pub enum MissingComponentType {
    ClientMissing,
    SyncServiceMissing,
}

/// A notification for the listeners of a logout.
#[derive(Debug)]
pub enum LogoutAction {
    /// The logout has entered a new state.
    ProgressUpdate { message: String, percentage: u8 },
    /// The logout is done.
    LogoutSuccess,
    /// The logout has failed; the text says how.
    LogoutFailure(String),
    /// The logout has failed because a component is missing, and the
    /// application has to be restarted.
    ApplicationRequiresRestart { missing_component: MissingComponentType },
}

/// The mathematical value of a [`LogoutAction`].
pub enum LogoutActionView {
    ProgressUpdate { message: Seq<char>, percentage: u8 },
    LogoutSuccess,
    LogoutFailure(Seq<char>),
    ApplicationRequiresRestart { missing_component: MissingComponentType },
}

impl View for LogoutAction {
    type V = LogoutActionView;

    open spec fn view(&self) -> LogoutActionView {
        match self {
            LogoutAction::ProgressUpdate { message, percentage } => LogoutActionView::ProgressUpdate {
                message: message@,
                percentage: *percentage,
            },
            LogoutAction::LogoutSuccess => LogoutActionView::LogoutSuccess,
            LogoutAction::LogoutFailure(text) => LogoutActionView::LogoutFailure(text@),
            LogoutAction::ApplicationRequiresRestart { missing_component } =>
                LogoutActionView::ApplicationRequiresRestart {
                    missing_component: *missing_component,
                },
        }
    }
}

impl LogoutActionView {
    /// A terminal notification tells the listeners how the logout ended.
    pub open spec fn is_terminal(self) -> bool {
        !(self is ProgressUpdate)
    }
}

impl Clone for LogoutAction {
    fn clone(&self) -> (copy: Self)
        ensures
            copy@ == self@,
    {
        match self {
            LogoutAction::ProgressUpdate { message, percentage } => LogoutAction::ProgressUpdate {
                message: message.clone(),
                percentage: *percentage,
            },
            LogoutAction::LogoutSuccess => LogoutAction::LogoutSuccess,
            LogoutAction::LogoutFailure(text) => LogoutAction::LogoutFailure(text.clone()),
            LogoutAction::ApplicationRequiresRestart { missing_component } =>
                LogoutAction::ApplicationRequiresRestart { missing_component: *missing_component },
        }
    }
}

impl PartialEq for LogoutAction {
    fn eq(&self, other: &Self) -> (same: bool) {
        match (self, other) {
            (
                LogoutAction::ProgressUpdate { message: m1, percentage: p1 },
                LogoutAction::ProgressUpdate { message: m2, percentage: p2 },
            ) => *m1 == *m2 && *p1 == *p2,
            (LogoutAction::LogoutSuccess, LogoutAction::LogoutSuccess) => true,
            (LogoutAction::LogoutFailure(a), LogoutAction::LogoutFailure(b)) => *a == *b,
            (
                LogoutAction::ApplicationRequiresRestart { missing_component: a },
                LogoutAction::ApplicationRequiresRestart { missing_component: b },
            ) => *a == *b,
            _ => false,
        }
    }
}

impl vstd::std_specs::cmp::PartialEqSpecImpl for LogoutAction {
    open spec fn obeys_eq_spec() -> bool {
        true
    }

    open spec fn eq_spec(&self, other: &Self) -> bool {
        self@ == other@
    }
}

/// Work on the session that the driver does for the state machine.
///
/// The driver answers every request but `RestartSyncService` with the
/// [`LogoutResponse`] of the same kind.
#[derive(Clone, Copy, Debug, PartialEq, Eq, Structural)]
pub enum LogoutRequest {
    /// Look whether there is a client, a sync service and an access token.
    CheckPrerequisites,
    /// Stop the sync service.
    StopSyncService,
    /// Ask the server to invalidate the session, and wait for its answer no
    /// longer than `timeout` milliseconds.
    ServerLogout { timeout: u64 },
    /// Forget which account was used last. A failure is logged, no more.
    DeleteLastUsedAccount,
    /// Start the sync service again, to restore the state before the logout.
    RestartSyncService,
    /// Ask the interface to close all tabs, and wait for its acknowledgement
    /// no longer than `timeout` milliseconds.
    CloseAllTabs { timeout: u64 },
    /// Drop the shared handles of the session, ask the application to clean
    /// its state, and wait for its acknowledgement no longer than `timeout`
    /// milliseconds.
    CleanAppState { timeout: u64 },
    /// Stop the background workers of the session.
    ShutdownBackgroundTasks,
    /// Bring the asynchronous runtime up again.
    RestartRuntime,
}

impl LogoutRequest {
    /// Whether the state machine waits for the outcome of this request.
    pub open spec fn awaits_response(self) -> bool {
        !(self is RestartSyncService)
    }
}

/// One thing for the driver to do.
#[derive(Debug)]
pub enum LogoutEffect {
    /// Tell the listeners.
    Notify(LogoutAction),
    /// Do this work.
    Perform(LogoutRequest),
}

/// The mathematical value of a [`LogoutEffect`].
pub enum LogoutEffectView {
    Notify(LogoutActionView),
    Perform(LogoutRequest),
}

impl View for LogoutEffect {
    type V = LogoutEffectView;

    open spec fn view(&self) -> LogoutEffectView {
        match self {
            LogoutEffect::Notify(action) => LogoutEffectView::Notify(action@),
            LogoutEffect::Perform(request) => LogoutEffectView::Perform(*request),
        }
    }
}

impl Clone for LogoutEffect {
    fn clone(&self) -> (copy: Self)
        ensures
            copy@ == self@,
    {
        match self {
            LogoutEffect::Notify(action) => LogoutEffect::Notify(action.clone()),
            LogoutEffect::Perform(request) => LogoutEffect::Perform(*request),
        }
    }
}

impl PartialEq for LogoutEffect {
    fn eq(&self, other: &Self) -> (same: bool) {
        match (self, other) {
            (LogoutEffect::Notify(a), LogoutEffect::Notify(b)) => *a == *b,
            (LogoutEffect::Perform(a), LogoutEffect::Perform(b)) => *a == *b,
            _ => false,
        }
    }
}

impl vstd::std_specs::cmp::PartialEqSpecImpl for LogoutEffect {
    open spec fn obeys_eq_spec() -> bool {
        true
    }

    open spec fn eq_spec(&self, other: &Self) -> bool {
        self@ == other@
    }
}

/// The values of a list of effects, in the same order.
pub open spec fn effects_view(effects: Seq<LogoutEffect>) -> Seq<LogoutEffectView> {
    Seq::new(effects.len(), |i: int| effects[i]@)
}

/// How the server answered the sign-out request.
#[derive(Debug)]
pub enum ServerLogoutOutcome {
    /// The server has invalidated the session.
    Success,
    /// The server refused; the text is its reason.
    Rejected(String),
    /// The server did not answer in time.
    TimedOut,
    /// There was no client to send the request with.
    ClientMissing,
}

/// The mathematical value of a [`ServerLogoutOutcome`].
pub enum ServerLogoutOutcomeView {
    Success,
    Rejected(Seq<char>),
    TimedOut,
    ClientMissing,
}

impl View for ServerLogoutOutcome {
    type V = ServerLogoutOutcomeView;

    open spec fn view(&self) -> ServerLogoutOutcomeView {
        match self {
            ServerLogoutOutcome::Success => ServerLogoutOutcomeView::Success,
            ServerLogoutOutcome::Rejected(reason) => ServerLogoutOutcomeView::Rejected(reason@),
            ServerLogoutOutcome::TimedOut => ServerLogoutOutcomeView::TimedOut,
            ServerLogoutOutcome::ClientMissing => ServerLogoutOutcomeView::ClientMissing,
        }
    }
}

impl Clone for ServerLogoutOutcome {
    fn clone(&self) -> (copy: Self)
        ensures
            copy@ == self@,
    {
        match self {
            ServerLogoutOutcome::Success => ServerLogoutOutcome::Success,
            ServerLogoutOutcome::Rejected(reason) => ServerLogoutOutcome::Rejected(reason.clone()),
            ServerLogoutOutcome::TimedOut => ServerLogoutOutcome::TimedOut,
            ServerLogoutOutcome::ClientMissing => ServerLogoutOutcome::ClientMissing,
        }
    }
}

/// How a request that is acknowledged over a one-shot channel ended.
#[derive(Debug)]
pub enum AckOutcome {
    /// The acknowledgement arrived in time.
    Acknowledged,
    /// The other side dropped the channel without acknowledging; the text
    /// is the channel's error.
    ChannelClosed(String),
    /// No acknowledgement arrived in time.
    TimedOut,
}

/// The mathematical value of an [`AckOutcome`].
pub enum AckOutcomeView {
    Acknowledged,
    ChannelClosed(Seq<char>),
    TimedOut,
}

impl View for AckOutcome {
    type V = AckOutcomeView;

    open spec fn view(&self) -> AckOutcomeView {
        match self {
            AckOutcome::Acknowledged => AckOutcomeView::Acknowledged,
            AckOutcome::ChannelClosed(reason) => AckOutcomeView::ChannelClosed(reason@),
            AckOutcome::TimedOut => AckOutcomeView::TimedOut,
        }
    }
}

impl Clone for AckOutcome {
    fn clone(&self) -> (copy: Self)
        ensures
            copy@ == self@,
    {
        match self {
            AckOutcome::Acknowledged => AckOutcome::Acknowledged,
            AckOutcome::ChannelClosed(reason) => AckOutcome::ChannelClosed(reason.clone()),
            AckOutcome::TimedOut => AckOutcome::TimedOut,
        }
    }
}

/// How the restart of the runtime ended.
#[derive(Debug)]
pub enum RestartOutcome {
    Restarted,
    /// The runtime could not be started; the text says why.
    Failed(String),
}

/// The mathematical value of a [`RestartOutcome`].
pub enum RestartOutcomeView {
    Restarted,
    Failed(Seq<char>),
}

impl View for RestartOutcome {
    type V = RestartOutcomeView;

    open spec fn view(&self) -> RestartOutcomeView {
        match self {
            RestartOutcome::Restarted => RestartOutcomeView::Restarted,
            RestartOutcome::Failed(reason) => RestartOutcomeView::Failed(reason@),
        }
    }
}

impl Clone for RestartOutcome {
    fn clone(&self) -> (copy: Self)
        ensures
            copy@ == self@,
    {
        match self {
            RestartOutcome::Restarted => RestartOutcome::Restarted,
            RestartOutcome::Failed(reason) => RestartOutcome::Failed(reason.clone()),
        }
    }
}

/// The outcome of a request, handed to the state machine by its driver.
#[derive(Debug)]
pub enum LogoutResponse {
    /// Answers `CheckPrerequisites`.
    Prerequisites { client_exists: bool, sync_service_exists: bool, has_access_token: bool },
    /// Answers `StopSyncService`: whether there was a sync service to stop.
    SyncServiceStopped { found: bool },
    /// Answers `ServerLogout`.
    ServerLogout(ServerLogoutOutcome),
    /// Answers `DeleteLastUsedAccount`.
    LastUsedAccountDeleted { deleted: bool },
    /// Answers `CloseAllTabs`.
    TabsClosed(AckOutcome),
    /// Answers `CleanAppState`.
    AppStateCleaned(AckOutcome),
    /// Answers `ShutdownBackgroundTasks`.
    BackgroundTasksShutDown,
    /// Answers `RestartRuntime`.
    RuntimeRestarted(RestartOutcome),
}

/// The mathematical value of a [`LogoutResponse`].
pub enum LogoutResponseView {
    Prerequisites { client_exists: bool, sync_service_exists: bool, has_access_token: bool },
    SyncServiceStopped { found: bool },
    ServerLogout(ServerLogoutOutcomeView),
    LastUsedAccountDeleted { deleted: bool },
    TabsClosed(AckOutcomeView),
    AppStateCleaned(AckOutcomeView),
    BackgroundTasksShutDown,
    RuntimeRestarted(RestartOutcomeView),
}

impl View for LogoutResponse {
    type V = LogoutResponseView;

    open spec fn view(&self) -> LogoutResponseView {
        match self {
            LogoutResponse::Prerequisites { client_exists, sync_service_exists, has_access_token } =>
                LogoutResponseView::Prerequisites {
                    client_exists: *client_exists,
                    sync_service_exists: *sync_service_exists,
                    has_access_token: *has_access_token,
                },
            LogoutResponse::SyncServiceStopped { found } => LogoutResponseView::SyncServiceStopped {
                found: *found,
            },
            LogoutResponse::ServerLogout(outcome) => LogoutResponseView::ServerLogout(outcome@),
            LogoutResponse::LastUsedAccountDeleted { deleted } =>
                LogoutResponseView::LastUsedAccountDeleted { deleted: *deleted },
            LogoutResponse::TabsClosed(outcome) => LogoutResponseView::TabsClosed(outcome@),
            LogoutResponse::AppStateCleaned(outcome) => LogoutResponseView::AppStateCleaned(
                outcome@,
            ),
            LogoutResponse::BackgroundTasksShutDown => LogoutResponseView::BackgroundTasksShutDown,
            LogoutResponse::RuntimeRestarted(outcome) => LogoutResponseView::RuntimeRestarted(
                outcome@,
            ),
        }
    }
}

} // verus!
