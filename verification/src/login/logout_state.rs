//! The states a logout passes through, and the progress record that external
//! listeners read.

use crate::login::logout_errors::{LogoutError, LogoutErrorView};
use vstd::prelude::*;

verus! {

/// Where a logout stands.
///
/// A logout moves through the states in the order in which they are written
/// here, from `Idle` to `Completed`, skipping `ClosingTabs` where there are no
/// tabs to close. From every state before `Completed` it can instead end in
/// `Failed`.
#[derive(Debug)]
pub enum LogoutState {
    /// Nothing has happened yet.
    Idle,
    /// Checking that there is a session to log out of.
    PreChecking,
    /// Stopping the sync service.
    StoppingSyncService,
    /// Asking the server to invalidate the session.
    LoggingOutFromServer,
    /// The session is invalidated: from here on there is no way back.
    PointOfNoReturn,
    /// Closing the open tabs (desktop layouts only).
    ClosingTabs,
    /// Clearing what the application holds in memory for the session.
    CleaningAppState,
    /// Stopping the background workers of the session.
    ShuttingDownTasks,
    /// Bringing the asynchronous runtime up again for the next login.
    RestartingRuntime,
    /// The logout is done.
    Completed,
    /// The logout ended with an error.
    Failed(LogoutError),
}

/// The mathematical value of a [`LogoutState`].
pub enum LogoutStateView {
    Idle,
    PreChecking,
    StoppingSyncService,
    LoggingOutFromServer,
    PointOfNoReturn,
    ClosingTabs,
    CleaningAppState,
    ShuttingDownTasks,
    RestartingRuntime,
    Completed,
    Failed(LogoutErrorView),
}

impl View for LogoutState {
    type V = LogoutStateView;

    open spec fn view(&self) -> LogoutStateView {
        match self {
            LogoutState::Idle => LogoutStateView::Idle,
            LogoutState::PreChecking => LogoutStateView::PreChecking,
            LogoutState::StoppingSyncService => LogoutStateView::StoppingSyncService,
            LogoutState::LoggingOutFromServer => LogoutStateView::LoggingOutFromServer,
            LogoutState::PointOfNoReturn => LogoutStateView::PointOfNoReturn,
            LogoutState::ClosingTabs => LogoutStateView::ClosingTabs,
            LogoutState::CleaningAppState => LogoutStateView::CleaningAppState,
            LogoutState::ShuttingDownTasks => LogoutStateView::ShuttingDownTasks,
            LogoutState::RestartingRuntime => LogoutStateView::RestartingRuntime,
            LogoutState::Completed => LogoutStateView::Completed,
            LogoutState::Failed(e) => LogoutStateView::Failed(e@),
        }
    }
}

impl LogoutStateView {
    /// A terminal state is one that a logout never leaves.
    pub open spec fn is_terminal(self) -> bool {
        self is Completed || self is Failed
    }

    /// The percentage reported to listeners on entering this state.
    pub open spec fn percentage(self) -> u8 {
        match self {
            LogoutStateView::Idle => 0,
            LogoutStateView::PreChecking => 10,
            LogoutStateView::StoppingSyncService => 20,
            LogoutStateView::LoggingOutFromServer => 30,
            LogoutStateView::PointOfNoReturn => 50,
            LogoutStateView::ClosingTabs => 60,
            LogoutStateView::CleaningAppState => 70,
            LogoutStateView::ShuttingDownTasks => 80,
            LogoutStateView::RestartingRuntime => 90,
            LogoutStateView::Completed => 100,
            LogoutStateView::Failed(_) => 0,
        }
    }

    /// The place of this state in the order of progression. `Failed` comes
    /// last: nothing follows it.
    pub open spec fn position(self) -> nat {
        match self {
            LogoutStateView::Idle => 0,
            LogoutStateView::PreChecking => 1,
            LogoutStateView::StoppingSyncService => 2,
            LogoutStateView::LoggingOutFromServer => 3,
            LogoutStateView::PointOfNoReturn => 4,
            LogoutStateView::ClosingTabs => 5,
            LogoutStateView::CleaningAppState => 6,
            LogoutStateView::ShuttingDownTasks => 7,
            LogoutStateView::RestartingRuntime => 8,
            LogoutStateView::Completed => 9,
            LogoutStateView::Failed(_) => 10,
        }
    }
}

impl Clone for LogoutState {
    fn clone(&self) -> (copy: Self)
        ensures
            copy@ == self@,
    {
        match self {
            LogoutState::Idle => LogoutState::Idle,
            LogoutState::PreChecking => LogoutState::PreChecking,
            LogoutState::StoppingSyncService => LogoutState::StoppingSyncService,
            LogoutState::LoggingOutFromServer => LogoutState::LoggingOutFromServer,
            LogoutState::PointOfNoReturn => LogoutState::PointOfNoReturn,
            LogoutState::ClosingTabs => LogoutState::ClosingTabs,
            LogoutState::CleaningAppState => LogoutState::CleaningAppState,
            LogoutState::ShuttingDownTasks => LogoutState::ShuttingDownTasks,
            LogoutState::RestartingRuntime => LogoutState::RestartingRuntime,
            LogoutState::Completed => LogoutState::Completed,
            LogoutState::Failed(e) => LogoutState::Failed(e.clone()),
        }
    }
}

impl PartialEq for LogoutState {
    fn eq(&self, other: &Self) -> (same: bool) {
        match (self, other) {
            (LogoutState::Idle, LogoutState::Idle) => true,
            (LogoutState::PreChecking, LogoutState::PreChecking) => true,
            (LogoutState::StoppingSyncService, LogoutState::StoppingSyncService) => true,
            (LogoutState::LoggingOutFromServer, LogoutState::LoggingOutFromServer) => true,
            (LogoutState::PointOfNoReturn, LogoutState::PointOfNoReturn) => true,
            (LogoutState::ClosingTabs, LogoutState::ClosingTabs) => true,
            (LogoutState::CleaningAppState, LogoutState::CleaningAppState) => true,
            (LogoutState::ShuttingDownTasks, LogoutState::ShuttingDownTasks) => true,
            (LogoutState::RestartingRuntime, LogoutState::RestartingRuntime) => true,
            (LogoutState::Completed, LogoutState::Completed) => true,
            (LogoutState::Failed(a), LogoutState::Failed(b)) => *a == *b,
            _ => false,
        }
    }
}

impl vstd::std_specs::cmp::PartialEqSpecImpl for LogoutState {
    open spec fn obeys_eq_spec() -> bool {
        true
    }

    open spec fn eq_spec(&self, other: &Self) -> bool {
        self@ == other@
    }
}

impl LogoutState {
    /// Whether a logout in this state has ended.
    pub fn is_terminal(&self) -> (terminal: bool)
        ensures
            terminal == self@.is_terminal(),
    {
        match self {
            LogoutState::Completed => true,
            LogoutState::Failed(_) => true,
            _ => false,
        }
    }

    /// The percentage reported to listeners on entering this state.
    pub fn percentage(&self) -> (percentage: u8)
        ensures
            percentage == self@.percentage(),
            percentage <= 100,
    {
        match self {
            LogoutState::Idle => 0,
            LogoutState::PreChecking => 10,
            LogoutState::StoppingSyncService => 20,
            LogoutState::LoggingOutFromServer => 30,
            LogoutState::PointOfNoReturn => 50,
            LogoutState::ClosingTabs => 60,
            LogoutState::CleaningAppState => 70,
            LogoutState::ShuttingDownTasks => 80,
            LogoutState::RestartingRuntime => 90,
            LogoutState::Completed => 100,
            LogoutState::Failed(_) => 0,
        }
    }

    /// The place of this state in the order of progression.
    pub fn position(&self) -> (position: u8)
        ensures
            position == self@.position(),
    {
        match self {
            LogoutState::Idle => 0,
            LogoutState::PreChecking => 1,
            LogoutState::StoppingSyncService => 2,
            LogoutState::LoggingOutFromServer => 3,
            LogoutState::PointOfNoReturn => 4,
            LogoutState::ClosingTabs => 5,
            LogoutState::CleaningAppState => 6,
            LogoutState::ShuttingDownTasks => 7,
            LogoutState::RestartingRuntime => 8,
            LogoutState::Completed => 9,
            LogoutState::Failed(_) => 10,
        }
    }
}

/// What listeners read about a running logout. Times are in milliseconds on
/// the caller's clock.
#[derive(Debug)]
pub struct LogoutProgress {
    pub state: LogoutState,
    pub message: String,
    pub percentage: u8,
    /// When the logout was created.
    pub started_at: u64,
    /// When the current state was entered.
    pub step_started_at: u64,
}

/// The mathematical value of a [`LogoutProgress`].
pub struct LogoutProgressView {
    pub state: LogoutStateView,
    pub message: Seq<char>,
    pub percentage: u8,
    pub started_at: u64,
    pub step_started_at: u64,
}

impl View for LogoutProgress {
    type V = LogoutProgressView;

    open spec fn view(&self) -> LogoutProgressView {
        LogoutProgressView {
            state: self.state@,
            message: self.message@,
            percentage: self.percentage,
            started_at: self.started_at,
            step_started_at: self.step_started_at,
        }
    }
}

impl LogoutProgressView {
    /// The record after a step to `state` at time `now`: everything is
    /// replaced but the time at which the logout was created.
    pub open spec fn updated(
        self,
        state: LogoutStateView,
        message: Seq<char>,
        percentage: u8,
        now: u64,
    ) -> LogoutProgressView {
        LogoutProgressView {
            state,
            message,
            percentage,
            started_at: self.started_at,
            step_started_at: now,
        }
    }
}

impl Clone for LogoutProgress {
    fn clone(&self) -> (copy: Self)
        ensures
            copy@ == self@,
    {
        LogoutProgress {
            state: self.state.clone(),
            message: self.message.clone(),
            percentage: self.percentage,
            started_at: self.started_at,
            step_started_at: self.step_started_at,
        }
    }
}

impl LogoutProgress {
    /// A record for a logout that is created at time `now`.
    pub fn new(state: LogoutState, message: String, percentage: u8, now: u64) -> (progress: Self)
        ensures
            progress@ == (LogoutProgressView {
                state: state@,
                message: message@,
                percentage,
                started_at: now,
                step_started_at: now,
            }),
    {
        LogoutProgress { state, message, percentage, started_at: now, step_started_at: now }
    }

    /// Records a step to `state` at time `now`.
    pub fn update(&mut self, state: LogoutState, message: String, percentage: u8, now: u64)
        ensures
            final(self)@ == old(self)@.updated(state@, message@, percentage, now),
    {
        self.state = state;
        self.message = message;
        self.percentage = percentage;
        self.step_started_at = now;
    }
}

/// What a logout is run with. Timeouts are in milliseconds.
#[derive(Clone, Copy, Debug, PartialEq, Eq, Structural)]
pub struct LogoutConfig {
    /// How long to wait for the tabs to close.
    pub tab_close_timeout: u64,
    /// How long to wait for the application to clean its state.
    pub app_state_cleanup_timeout: u64,
    /// How long to wait for the server to answer the sign-out request.
    pub server_logout_timeout: u64,
    /// Whether the user may cancel before the session is invalidated.
    pub allow_cancellation: bool,
    /// Whether there are tabs to close.
    pub is_desktop: bool,
}

impl LogoutConfig {
    /// The configuration of a desktop logout with the usual timeouts: ten
    /// seconds for the tabs, five for the application state and sixty for
    /// the server.
    pub open spec fn standard() -> LogoutConfig {
        LogoutConfig {
            tab_close_timeout: 10_000,
            app_state_cleanup_timeout: 5_000,
            server_logout_timeout: 60_000,
            allow_cancellation: true,
            is_desktop: true,
        }
    }
}

impl Default for LogoutConfig {
    fn default() -> (config: Self)
        ensures
            config == LogoutConfig::standard(),
    {
        LogoutConfig {
            tab_close_timeout: 10_000,
            app_state_cleanup_timeout: 5_000,
            server_logout_timeout: 60_000,
            allow_cancellation: true,
            is_desktop: true,
        }
    }
}

/// Measurements of one logout. Durations are in milliseconds.
#[derive(Debug)]
pub struct LogoutTelemetry {
    pub total_duration: u64,
    pub step_durations: Vec<(String, u64)>,
    pub final_state: LogoutState,
    pub error_count: u32,
}

} // verus!
