//! The logout state machine.
//!
//! A logout is a fixed sequence of steps with a point of no return in the
//! middle: once the server has invalidated the session, every remaining step
//! is attempted and every failure is final. Before that point a failure
//! leaves the session usable, and the user may cancel.
//!
//! The machine decides; it does not act. Its driver calls [`start`], carries
//! out the effects it gets back, and calls [`advance`] with the outcome of
//! the request among them, until the machine reaches a terminal state.
//!
//! [`start`]: LogoutStateMachine::start
//! [`advance`]: LogoutStateMachine::advance

use crate::login::logout_actions::{
    effects_view,
    AckOutcome,
    LogoutAction,
    LogoutActionView,
    LogoutEffect,
    LogoutEffectView,
    LogoutRequest,
    LogoutResponse,
    MissingComponentType,
    RestartOutcome,
    ServerLogoutOutcome,
    SessionFlags,
};
use crate::login::logout_errors::{
    LogoutError,
    LogoutErrorView,
    RecoverableError,
    UnrecoverableError,
};
use crate::login::logout_model::{
    clean_app_state_result,
    close_tabs_result,
    commits,
    failure_notification,
    flags_after_failure,
    prechecks_result,
    progress_update,
    restart_runtime_result,
    server_logout_result,
    stop_sync_result,
    MachineView,
    StepView,
};
use crate::login::logout_state::{
    LogoutConfig,
    LogoutProgress,
    LogoutState,
    LogoutTelemetry,
};
use crate::shared::text::contains;
use vstd::prelude::*;
use vstd::string::*;

verus! {

/// The value of a result whose error is a logout error.
pub open spec fn error_result_view(result: Result<(), LogoutError>) -> Result<(), LogoutErrorView> {
    match result {
        Ok(_) => Ok(()),
        Err(error) => Err(error@),
    }
}

/// The value of a result whose error is a text.
pub open spec fn text_result_view(result: Result<(), String>) -> Result<(), Seq<char>> {
    match result {
        Ok(_) => Ok(()),
        Err(reason) => Err(reason@),
    }
}

/// The state machine of one logout attempt.
pub struct LogoutStateMachine {
    current_state: LogoutState,
    progress: LogoutProgress,
    config: LogoutConfig,
    point_of_no_return: bool,
    cancellation_requested: bool,
}

impl View for LogoutStateMachine {
    type V = MachineView;

    closed spec fn view(&self) -> MachineView {
        MachineView {
            state: self.current_state@,
            progress: self.progress@,
            config: self.config,
            point_of_no_return: self.point_of_no_return,
            cancellation_requested: self.cancellation_requested,
        }
    }
}

impl LogoutStateMachine {
    /// A machine for a logout that is created at time `now`.
    pub fn new(config: LogoutConfig, now: u64) -> (machine: Self)
        ensures
            machine@ == MachineView::initial(config, now),
    {
        let initial_progress = LogoutProgress::new(
            LogoutState::Idle,
            String::from_str("Ready to logout"),
            0,
            now,
        );
        LogoutStateMachine {
            current_state: LogoutState::Idle,
            progress: initial_progress,
            config,
            point_of_no_return: false,
            cancellation_requested: false,
        }
    }

    /// The state the logout is in.
    pub fn current_state(&self) -> (state: LogoutState)
        ensures
            state@ == self@.state,
    {
        self.current_state.clone()
    }

    /// The progress record of the logout.
    pub fn progress(&self) -> (progress: LogoutProgress)
        ensures
            progress@ == self@.progress,
    {
        self.progress.clone()
    }

    /// The configuration the logout runs with.
    pub fn config(&self) -> (config: LogoutConfig)
        ensures
            config == self@.config,
    {
        self.config
    }

    /// Asks the machine to cancel the logout. The request is recorded only
    /// where the configuration allows cancellation and the session is not
    /// yet invalidated; otherwise nothing changes.
    pub fn request_cancellation(&mut self)
        ensures
            final(self)@ == old(self)@.request_cancellation(),
    {
        if self.config.allow_cancellation && !self.point_of_no_return {
            self.cancellation_requested = true;
        }
    }

    /// Whether a request to cancel has been recorded.
    pub fn is_cancelled(&self) -> (cancelled: bool)
        ensures
            cancelled == self@.cancellation_requested,
    {
        self.cancellation_requested
    }

    /// Whether the session has been invalidated.
    pub fn point_of_no_return_reached(&self) -> (reached: bool)
        ensures
            reached == self@.point_of_no_return,
    {
        self.point_of_no_return
    }

    /// Enters `state` and returns the notification of it.
    fn move_to(&mut self, state: LogoutState, message: String, now: u64) -> (update: LogoutAction)
        ensures
            final(self)@ == old(self)@.moved_to(state@, message@, now),
            LogoutEffectView::Notify(update@) == progress_update(message@, state@.percentage()),
    {
        let percentage = state.percentage();
        let update = LogoutAction::ProgressUpdate { message: message.clone(), percentage };
        self.current_state = state.clone();
        self.progress.update(state, message, percentage, now);
        update
    }

    /// Takes a step towards `new_state`. Where a cancellation is pending and
    /// `new_state` is neither the point of no return nor a failure, the
    /// machine enters `Failed(Cancelled)` instead and the error is returned.
    /// Otherwise the machine enters `new_state` and the notification of it
    /// is returned.
    fn transition_to(&mut self, new_state: LogoutState, message: String, now: u64) -> (result:
        Result<LogoutAction, LogoutError>)
        ensures
            final(self)@ == old(self)@.transition_to(new_state@, message@, now),
            old(self)@.cancels(new_state@) <==> result is Err,
            result matches Err(error) ==> error@ == LogoutErrorView::cancelled(),
            result matches Ok(update) ==> LogoutEffectView::Notify(update@) == progress_update(
                message@,
                new_state@.percentage(),
            ),
    {
        let exempt = match &new_state {
            LogoutState::PointOfNoReturn => true,
            LogoutState::Failed(_) => true,
            _ => false,
        };
        if self.cancellation_requested && !self.point_of_no_return && !exempt {
            let error = LogoutError::Recoverable(RecoverableError::Cancelled);
            let _ = self.move_to(
                LogoutState::Failed(error.clone()),
                String::from_str("Logout cancelled by user"),
                now,
            );
            Err(error)
        } else {
            Ok(self.move_to(new_state, message, now))
        }
    }

    /// The pre-checks: there must be a client, a sync service and an access
    /// token. They are looked at in this order, and the first that is
    /// missing gives the error.
    pub fn perform_prechecks(
        client_exists: bool,
        sync_service_exists: bool,
        has_access_token: bool,
    ) -> (result: Result<(), LogoutError>)
        ensures
            error_result_view(result) == prechecks_result(
                client_exists,
                sync_service_exists,
                has_access_token,
            ),
    {
        if !client_exists {
            return Err(LogoutError::Unrecoverable(UnrecoverableError::ClientMissing));
        }
        if !sync_service_exists {
            return Err(LogoutError::Unrecoverable(UnrecoverableError::SyncServiceMissing));
        }
        if !has_access_token {
            return Err(LogoutError::Recoverable(RecoverableError::NoAccessToken));
        }
        Ok(())
    }

    /// The result of stopping the sync service, given whether there was one
    /// to stop.
    pub fn stop_sync_service(found: bool) -> (result: Result<(), LogoutError>)
        ensures
            error_result_view(result) == stop_sync_result(found),
    {
        if found {
            Ok(())
        } else {
            Err(LogoutError::Unrecoverable(UnrecoverableError::SyncServiceMissing))
        }
    }

    /// The result of the server logout, given the server's answer.
    pub fn perform_server_logout(outcome: ServerLogoutOutcome) -> (result: Result<(), LogoutError>)
        ensures
            error_result_view(result) == server_logout_result(outcome@),
    {
        match outcome {
            ServerLogoutOutcome::Success => Ok(()),
            ServerLogoutOutcome::Rejected(reason) => Err(
                LogoutError::Recoverable(RecoverableError::ServerLogoutFailed(reason)),
            ),
            ServerLogoutOutcome::TimedOut => Err(
                LogoutError::Recoverable(
                    RecoverableError::Timeout(String::from_str("Server logout timed out")),
                ),
            ),
            ServerLogoutOutcome::ClientMissing => Err(
                LogoutError::Unrecoverable(UnrecoverableError::ClientMissing),
            ),
        }
    }

    /// Whether a result of the server logout invalidates the session: a
    /// success does, and so does a refusal whose reason holds
    /// `M_UNKNOWN_TOKEN`.
    pub fn invalidates_session(result: &Result<(), LogoutError>) -> (invalidated: bool)
        ensures
            invalidated == commits(error_result_view(*result)),
    {
        match result {
            Ok(_) => true,
            Err(LogoutError::Recoverable(RecoverableError::ServerLogoutFailed(reason))) => contains(
                reason.as_str(),
                "M_UNKNOWN_TOKEN",
            ),
            Err(_) => false,
        }
    }

    /// The result of closing the tabs, given how the wait for the
    /// acknowledgement ended.
    pub fn close_all_tabs(outcome: AckOutcome) -> (result: Result<(), String>)
        ensures
            text_result_view(result) == close_tabs_result(outcome@),
    {
        match outcome {
            AckOutcome::Acknowledged => Ok(()),
            AckOutcome::ChannelClosed(reason) => Err(
                String::from_str("Failed to close all tabs: ").concat(reason.as_str()),
            ),
            AckOutcome::TimedOut => Err(String::from_str("Timed out waiting for tabs to close")),
        }
    }

    /// The result of cleaning the application state, given how the wait for
    /// the acknowledgement ended.
    pub fn clean_app_state(outcome: AckOutcome) -> (result: Result<(), String>)
        ensures
            text_result_view(result) == clean_app_state_result(outcome@),
    {
        match outcome {
            AckOutcome::Acknowledged => Ok(()),
            AckOutcome::ChannelClosed(reason) => Err(
                String::from_str("Failed to clean app state: ").concat(reason.as_str()),
            ),
            AckOutcome::TimedOut => Err(
                String::from_str("Timed out waiting for app state cleanup"),
            ),
        }
    }

    /// The result of restarting the runtime.
    pub fn restart_runtime(outcome: RestartOutcome) -> (result: Result<(), String>)
        ensures
            text_result_view(result) == restart_runtime_result(outcome@),
    {
        match outcome {
            RestartOutcome::Restarted => Ok(()),
            RestartOutcome::Failed(reason) => Err(
                String::from_str("Failed to restart runtime: ").concat(reason.as_str()),
            ),
        }
    }

    /// What follows a failure. The logout is no longer in progress, unless
    /// the session has been invalidated: a logout that failed after that
    /// point must not be started over. The notification for the listeners
    /// is returned; a cancellation has none.
    pub fn handle_error(flags: &mut SessionFlags, error: &LogoutError) -> (notification: Option<
        LogoutAction,
    >)
        ensures
            *final(flags) == flags_after_failure(*old(flags)),
            match notification {
                Some(action) => failure_notification(error@) == Some(action@),
                None => failure_notification(error@) is None,
            },
    {
        if !flags.point_of_no_return {
            flags.logout_in_progress = false;
        }
        match error {
            LogoutError::Unrecoverable(UnrecoverableError::ClientMissing) => Some(
                LogoutAction::ApplicationRequiresRestart {
                    missing_component: MissingComponentType::ClientMissing,
                },
            ),
            LogoutError::Unrecoverable(UnrecoverableError::SyncServiceMissing) => Some(
                LogoutAction::ApplicationRequiresRestart {
                    missing_component: MissingComponentType::SyncServiceMissing,
                },
            ),
            LogoutError::Recoverable(RecoverableError::Cancelled) => None,
            _ => Some(LogoutAction::LogoutFailure(error.message())),
        }
    }

    /// The machine, the flags and the effects of a step, taken together.
    pub open spec fn step_view(&self, flags: SessionFlags, effects: Vec<LogoutEffect>) -> StepView {
        StepView { machine: self@, flags, effects: effects_view(effects@) }
    }

    /// Steps to `target` and asks for `request`, or ends the logout where
    /// the step is cancelled.
    fn proceed(
        &mut self,
        flags: &mut SessionFlags,
        target: LogoutState,
        message: String,
        request: LogoutRequest,
        now: u64,
    ) -> (effects: Vec<LogoutEffect>)
        ensures
            final(self).step_view(*final(flags), effects) == old(self)@.proceed(
                *old(flags),
                target@,
                message@,
                request,
                now,
            ),
    {
        let mut effects: Vec<LogoutEffect> = Vec::new();
        match self.transition_to(target, message, now) {
            Ok(update) => {
                effects.push(LogoutEffect::Notify(update));
                effects.push(LogoutEffect::Perform(request));
                assert(effects_view(effects@) =~= seq![
                    progress_update(message@, target@.percentage()),
                    LogoutEffectView::Perform(request),
                ]);
            },
            Err(error) => {
                let _ = Self::handle_error(flags, &error);
                assert(effects_view(effects@) =~= Seq::empty());
            },
        }
        effects
    }

    /// Ends the logout in `Failed(error)`.
    fn fail(&mut self, flags: &mut SessionFlags, error: LogoutError, message: String, now: u64) -> (effects:
        Vec<LogoutEffect>)
        ensures
            final(self).step_view(*final(flags), effects) == old(self)@.fail(
                *old(flags),
                error@,
                message@,
                now,
            ),
    {
        let mut effects: Vec<LogoutEffect> = Vec::new();
        let update = self.move_to(LogoutState::Failed(error.clone()), message, now);
        effects.push(LogoutEffect::Notify(update));
        match Self::handle_error(flags, &error) {
            Some(notification) => {
                effects.push(LogoutEffect::Notify(notification));
                assert(effects_view(effects@) =~= seq![
                    progress_update(message@, 0),
                    LogoutEffectView::Notify(notification@),
                ]);
            },
            None => {
                assert(effects_view(effects@) =~= seq![progress_update(message@, 0)]);
            },
        }
        effects
    }

    /// Records that the session is invalidated and steps to the point of no
    /// return.
    fn commit(&mut self, flags: &mut SessionFlags, message: String, now: u64) -> (effects: Vec<
        LogoutEffect,
    >)
        ensures
            final(self).step_view(*final(flags), effects) == old(self)@.commit(
                *old(flags),
                message@,
                now,
            ),
    {
        self.point_of_no_return = true;
        flags.point_of_no_return = true;
        let mut effects: Vec<LogoutEffect> = Vec::new();
        let update = self.move_to(LogoutState::PointOfNoReturn, message, now);
        effects.push(LogoutEffect::Notify(update));
        effects.push(LogoutEffect::Perform(LogoutRequest::DeleteLastUsedAccount));
        assert(effects_view(effects@) =~= seq![
            progress_update(message@, 50),
            LogoutEffectView::Perform(LogoutRequest::DeleteLastUsedAccount),
        ]);
        effects
    }

    /// Ends the logout in `Completed`.
    fn complete(&mut self, flags: &mut SessionFlags, now: u64) -> (effects: Vec<LogoutEffect>)
        ensures
            final(self).step_view(*final(flags), effects) == old(self)@.complete(*old(flags), now),
    {
        let mut effects: Vec<LogoutEffect> = Vec::new();
        let message = String::from_str("Logout completed successfully");
        match self.transition_to(LogoutState::Completed, message, now) {
            Ok(update) => {
                flags.logout_in_progress = false;
                effects.push(LogoutEffect::Notify(update));
                effects.push(LogoutEffect::Notify(LogoutAction::LogoutSuccess));
                assert(effects_view(effects@) =~= seq![
                    progress_update("Logout completed successfully"@, 100),
                    LogoutEffectView::Notify(LogoutActionView::LogoutSuccess),
                ]);
            },
            Err(error) => {
                let _ = Self::handle_error(flags, &error);
                assert(effects_view(effects@) =~= Seq::empty());
            },
        }
        effects
    }

    /// Steps to the cleaning of the application state.
    fn proceed_to_cleaning(&mut self, flags: &mut SessionFlags, now: u64) -> (effects: Vec<
        LogoutEffect,
    >)
        ensures
            final(self).step_view(*final(flags), effects) == old(self)@.proceed_to_cleaning(
                *old(flags),
                now,
            ),
    {
        let timeout = self.config.app_state_cleanup_timeout;
        self.proceed(
            flags,
            LogoutState::CleaningAppState,
            String::from_str("Cleaning up application state..."),
            LogoutRequest::CleanAppState { timeout },
            now,
        )
    }

    /// Starts the logout: marks it as in progress, clears the flag of the
    /// point of no return, and asks for the pre-checks. Returns the effects
    /// for the driver to carry out, or `None`, with nothing changed, where
    /// the machine has been started before.
    pub fn start(&mut self, flags: &mut SessionFlags, now: u64) -> (effects: Option<
        Vec<LogoutEffect>,
    >)
        ensures
            match effects {
                Some(effects) => old(self)@.start(*old(flags), now) == Some(
                    final(self).step_view(*final(flags), effects),
                ),
                None => old(self)@.start(*old(flags), now) is None && final(self)@ == old(self)@
                    && *final(flags) == *old(flags),
            },
    {
        match &self.current_state {
            LogoutState::Idle => {
                flags.logout_in_progress = true;
                flags.point_of_no_return = false;
                Some(
                    self.proceed(
                        flags,
                        LogoutState::PreChecking,
                        String::from_str("Checking prerequisites..."),
                        LogoutRequest::CheckPrerequisites,
                        now,
                    ),
                )
            },
            _ => None,
        }
    }

    /// Starts the logout unless another one is in progress: only one logout
    /// may run at a time, and one that failed after the session was
    /// invalidated must not be started over. Where the flags say that a
    /// logout is in progress, nothing changes and `None` is returned;
    /// otherwise this is [`start`](Self::start).
    pub fn try_start(&mut self, flags: &mut SessionFlags, now: u64) -> (effects: Option<
        Vec<LogoutEffect>,
    >)
        ensures
            match effects {
                Some(effects) => !old(flags).logout_in_progress && old(self)@.start(
                    *old(flags),
                    now,
                ) == Some(final(self).step_view(*final(flags), effects)),
                None => (old(flags).logout_in_progress || old(self)@.start(*old(flags), now) is None)
                    && final(self)@ == old(self)@ && *final(flags) == *old(flags),
            },
    {
        if flags.may_start_logout() {
            self.start(flags, now)
        } else {
            None
        }
    }

    /// Takes the step that follows the outcome of the work the machine asked
    /// for. Returns the effects for the driver to carry out, or `None`, with
    /// nothing changed, where `response` is not the outcome of that work.
    pub fn advance(&mut self, flags: &mut SessionFlags, response: LogoutResponse, now: u64) -> (effects:
        Option<Vec<LogoutEffect>>)
        ensures
            match effects {
                Some(effects) => old(self)@.advance(*old(flags), response@, now) == Some(
                    final(self).step_view(*final(flags), effects),
                ),
                None => old(self)@.advance(*old(flags), response@, now) is None && final(self)@
                    == old(self)@ && *final(flags) == *old(flags),
            },
    {
        match (&self.current_state, response) {
            (
                LogoutState::PreChecking,
                LogoutResponse::Prerequisites { client_exists, sync_service_exists, has_access_token },
            ) => {
                match Self::perform_prechecks(client_exists, sync_service_exists, has_access_token) {
                    Err(error) => {
                        let text = error.message();
                        let message = String::from_str("Precheck failed: ").concat(text.as_str());
                        Some(self.fail(flags, error, message, now))
                    },
                    Ok(_) => Some(
                        self.proceed(
                            flags,
                            LogoutState::StoppingSyncService,
                            String::from_str("Stopping sync service..."),
                            LogoutRequest::StopSyncService,
                            now,
                        ),
                    ),
                }
            },
            (LogoutState::StoppingSyncService, LogoutResponse::SyncServiceStopped { found }) => {
                match Self::stop_sync_service(found) {
                    Err(error) => {
                        let text = error.message();
                        let message = String::from_str("Failed to stop sync service: ").concat(
                            text.as_str(),
                        );
                        Some(self.fail(flags, error, message, now))
                    },
                    Ok(_) => {
                        let timeout = self.config.server_logout_timeout;
                        Some(
                            self.proceed(
                                flags,
                                LogoutState::LoggingOutFromServer,
                                String::from_str("Logging out from server..."),
                                LogoutRequest::ServerLogout { timeout },
                                now,
                            ),
                        )
                    },
                }
            },
            (LogoutState::LoggingOutFromServer, LogoutResponse::ServerLogout(outcome)) => {
                let result = Self::perform_server_logout(outcome);
                let invalidated = Self::invalidates_session(&result);
                match result {
                    Ok(_) => Some(
                        self.commit(flags, String::from_str("Point of no return reached"), now),
                    ),
                    Err(error) => {
                        if invalidated {
                            Some(
                                self.commit(
                                    flags,
                                    String::from_str("Token already invalidated"),
                                    now,
                                ),
                            )
                        } else {
                            let text = error.message();
                            let message = String::from_str("Server logout failed: ").concat(
                                text.as_str(),
                            );
                            let mut effects: Vec<LogoutEffect> = Vec::new();
                            effects.push(LogoutEffect::Perform(LogoutRequest::RestartSyncService));
                            let mut failed = self.fail(flags, error, message, now);
                            let ghost rollback = effects@;
                            let ghost failure = failed@;
                            effects.append(&mut failed);
                            assert(effects_view(effects@) =~= seq![
                                LogoutEffectView::Perform(LogoutRequest::RestartSyncService),
                            ] + effects_view(failure));
                            Some(effects)
                        }
                    },
                }
            },
            (LogoutState::PointOfNoReturn, LogoutResponse::LastUsedAccountDeleted { deleted }) => {
                if self.config.is_desktop {
                    let timeout = self.config.tab_close_timeout;
                    Some(
                        self.proceed(
                            flags,
                            LogoutState::ClosingTabs,
                            String::from_str("Closing all tabs..."),
                            LogoutRequest::CloseAllTabs { timeout },
                            now,
                        ),
                    )
                } else {
                    Some(self.proceed_to_cleaning(flags, now))
                }
            },
            (LogoutState::ClosingTabs, LogoutResponse::TabsClosed(outcome)) => {
                match Self::close_all_tabs(outcome) {
                    Err(reason) => {
                        let error = LogoutError::Unrecoverable(
                            UnrecoverableError::PostPointOfNoReturnFailure(reason),
                        );
                        Some(
                            self.fail(flags, error, String::from_str("Failed to close tabs"), now),
                        )
                    },
                    Ok(_) => Some(self.proceed_to_cleaning(flags, now)),
                }
            },
            (LogoutState::CleaningAppState, LogoutResponse::AppStateCleaned(outcome)) => {
                match Self::clean_app_state(outcome) {
                    Err(reason) => {
                        let error = LogoutError::Unrecoverable(
                            UnrecoverableError::PostPointOfNoReturnFailure(reason),
                        );
                        Some(
                            self.fail(
                                flags,
                                error,
                                String::from_str("Failed to clean app state"),
                                now,
                            ),
                        )
                    },
                    Ok(_) => Some(
                        self.proceed(
                            flags,
                            LogoutState::ShuttingDownTasks,
                            String::from_str("Shutting down background tasks..."),
                            LogoutRequest::ShutdownBackgroundTasks,
                            now,
                        ),
                    ),
                }
            },
            (LogoutState::ShuttingDownTasks, LogoutResponse::BackgroundTasksShutDown) => Some(
                self.proceed(
                    flags,
                    LogoutState::RestartingRuntime,
                    String::from_str("Restarting Matrix runtime..."),
                    LogoutRequest::RestartRuntime,
                    now,
                ),
            ),
            (LogoutState::RestartingRuntime, LogoutResponse::RuntimeRestarted(outcome)) => {
                match Self::restart_runtime(outcome) {
                    Err(reason) => {
                        let message = String::from_str("Failed to restart runtime: ").concat(
                            reason.as_str(),
                        );
                        Some(
                            self.fail(
                                flags,
                                LogoutError::Unrecoverable(UnrecoverableError::RuntimeRestartFailed),
                                message,
                                now,
                            ),
                        )
                    },
                    Ok(_) => Some(self.complete(flags, now)),
                }
            },
            _ => None,
        }
    }

    /// The measurements of the logout at time `now`. The total duration is
    /// the time since the logout was created, and zero where `now` lies
    /// before that. No step durations and no errors are recorded.
    pub fn get_telemetry(&self, now: u64) -> (telemetry: LogoutTelemetry)
        ensures
            telemetry.total_duration == if now >= self@.progress.started_at {
                now - self@.progress.started_at
            } else {
                0
            },
            telemetry.step_durations@.len() == 0,
            telemetry.final_state@ == self@.state,
            telemetry.error_count == 0,
    {
        let total_duration = if now >= self.progress.started_at {
            now - self.progress.started_at
        } else {
            0
        };
        LogoutTelemetry {
            total_duration,
            step_durations: Vec::new(),
            final_state: self.current_state.clone(),
            error_count: 0,
        }
    }
}

} // verus!
