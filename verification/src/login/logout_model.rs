//! The logout state machine as mathematics: what each step does to the
//! machine, to the session flags and to the world, as functions on values.
//!
//! The executable machine is proved to compute exactly these functions, and
//! the laws of the logout are proved of them.

use crate::login::logout_actions::{
    AckOutcomeView,
    LogoutActionView,
    LogoutEffectView,
    LogoutRequest,
    LogoutResponseView,
    MissingComponentType,
    RestartOutcomeView,
    ServerLogoutOutcomeView,
    SessionFlags,
};
use crate::login::logout_errors::{LogoutErrorView, RecoverableErrorView, UnrecoverableErrorView};
use crate::login::logout_state::{LogoutConfig, LogoutProgressView, LogoutStateView};
use crate::shared::text::occurs_in;
use vstd::prelude::*;

verus! {

/// The mathematical value of a logout state machine.
pub struct MachineView {
    pub state: LogoutStateView,
    pub progress: LogoutProgressView,
    pub config: LogoutConfig,
    /// The commit flag: the session has been invalidated.
    pub point_of_no_return: bool,
    pub cancellation_requested: bool,
}

/// The result of one step: the machine and the flags after it, and what the
/// driver has to do, in order.
pub struct StepView {
    pub machine: MachineView,
    pub flags: SessionFlags,
    pub effects: Seq<LogoutEffectView>,
}

/// The notification that goes with a progress record.
pub open spec fn progress_update(message: Seq<char>, percentage: u8) -> LogoutEffectView {
    LogoutEffectView::Notify(LogoutActionView::ProgressUpdate { message, percentage })
}

/// Whether the server's reason for refusing a sign-out says that it does not
/// know the token: the session is then invalid already.
pub open spec fn token_already_invalid(reason: Seq<char>) -> bool {
    occurs_in("M_UNKNOWN_TOKEN"@, reason)
}

/// The pre-checks: a client, then a sync service, then an access token. The
/// first that is missing decides.
pub open spec fn prechecks_result(
    client_exists: bool,
    sync_service_exists: bool,
    has_access_token: bool,
) -> Result<(), LogoutErrorView> {
    if !client_exists {
        Err(LogoutErrorView::Unrecoverable(UnrecoverableErrorView::ClientMissing))
    } else if !sync_service_exists {
        Err(LogoutErrorView::Unrecoverable(UnrecoverableErrorView::SyncServiceMissing))
    } else if !has_access_token {
        Err(LogoutErrorView::Recoverable(RecoverableErrorView::NoAccessToken))
    } else {
        Ok(())
    }
}

/// Stopping the sync service fails only where there is none.
pub open spec fn stop_sync_result(found: bool) -> Result<(), LogoutErrorView> {
    if found {
        Ok(())
    } else {
        Err(LogoutErrorView::Unrecoverable(UnrecoverableErrorView::SyncServiceMissing))
    }
}

/// The server's answer as a result.
pub open spec fn server_logout_result(outcome: ServerLogoutOutcomeView) -> Result<
    (),
    LogoutErrorView,
> {
    match outcome {
        ServerLogoutOutcomeView::Success => Ok(()),
        ServerLogoutOutcomeView::Rejected(reason) => Err(
            LogoutErrorView::Recoverable(RecoverableErrorView::ServerLogoutFailed(reason)),
        ),
        ServerLogoutOutcomeView::TimedOut => Err(
            LogoutErrorView::Recoverable(RecoverableErrorView::Timeout("Server logout timed out"@)),
        ),
        ServerLogoutOutcomeView::ClientMissing => Err(
            LogoutErrorView::Unrecoverable(UnrecoverableErrorView::ClientMissing),
        ),
    }
}

/// Whether a result of the server logout invalidates the session: a success
/// does, and so does a refusal that says the token is unknown.
pub open spec fn commits(result: Result<(), LogoutErrorView>) -> bool {
    match result {
        Ok(_) => true,
        Err(LogoutErrorView::Recoverable(RecoverableErrorView::ServerLogoutFailed(reason))) =>
            token_already_invalid(reason),
        Err(_) => false,
    }
}

/// The outcome of closing the tabs as a result.
pub open spec fn close_tabs_result(outcome: AckOutcomeView) -> Result<(), Seq<char>> {
    match outcome {
        AckOutcomeView::Acknowledged => Ok(()),
        AckOutcomeView::ChannelClosed(reason) => Err("Failed to close all tabs: "@ + reason),
        AckOutcomeView::TimedOut => Err("Timed out waiting for tabs to close"@),
    }
}

/// The outcome of cleaning the application state as a result.
pub open spec fn clean_app_state_result(outcome: AckOutcomeView) -> Result<(), Seq<char>> {
    match outcome {
        AckOutcomeView::Acknowledged => Ok(()),
        AckOutcomeView::ChannelClosed(reason) => Err("Failed to clean app state: "@ + reason),
        AckOutcomeView::TimedOut => Err("Timed out waiting for app state cleanup"@),
    }
}

/// The outcome of restarting the runtime as a result.
pub open spec fn restart_runtime_result(outcome: RestartOutcomeView) -> Result<(), Seq<char>> {
    match outcome {
        RestartOutcomeView::Restarted => Ok(()),
        RestartOutcomeView::Failed(reason) => Err("Failed to restart runtime: "@ + reason),
    }
}

/// The failure of a step that was taken after the session was invalidated.
pub open spec fn post_commit_failure(reason: Seq<char>) -> LogoutErrorView {
    LogoutErrorView::Unrecoverable(UnrecoverableErrorView::PostPointOfNoReturnFailure(reason))
}

/// The terminal notification for a failure: a missing component asks for a
/// restart of the application, a cancellation is silent, and every other
/// failure is reported with its text.
pub open spec fn failure_notification(error: LogoutErrorView) -> Option<LogoutActionView> {
    match error {
        LogoutErrorView::Unrecoverable(UnrecoverableErrorView::ClientMissing) => Some(
            LogoutActionView::ApplicationRequiresRestart {
                missing_component: MissingComponentType::ClientMissing,
            },
        ),
        LogoutErrorView::Unrecoverable(UnrecoverableErrorView::SyncServiceMissing) => Some(
            LogoutActionView::ApplicationRequiresRestart {
                missing_component: MissingComponentType::SyncServiceMissing,
            },
        ),
        LogoutErrorView::Recoverable(RecoverableErrorView::Cancelled) => None,
        _ => Some(LogoutActionView::LogoutFailure(error.text())),
    }
}

/// The flags after a failure: the logout is no longer in progress, unless the
/// session has been invalidated.
pub open spec fn flags_after_failure(flags: SessionFlags) -> SessionFlags {
    if flags.point_of_no_return {
        flags
    } else {
        SessionFlags { logout_in_progress: false, ..flags }
    }
}

impl MachineView {
    /// The machine of a logout that is created at time `now`.
    pub open spec fn initial(config: LogoutConfig, now: u64) -> MachineView {
        MachineView {
            state: LogoutStateView::Idle,
            progress: LogoutProgressView {
                state: LogoutStateView::Idle,
                message: "Ready to logout"@,
                percentage: 0,
                started_at: now,
                step_started_at: now,
            },
            config,
            point_of_no_return: false,
            cancellation_requested: false,
        }
    }

    /// The machine after the user has asked to cancel. The request counts
    /// only where the configuration allows it and the session is not yet
    /// invalidated.
    pub open spec fn request_cancellation(self) -> MachineView {
        if self.config.allow_cancellation && !self.point_of_no_return {
            MachineView { cancellation_requested: true, ..self }
        } else {
            self
        }
    }

    /// Whether a cancellation is waiting to be honoured. Once the session is
    /// invalidated, a request made earlier no longer counts.
    pub open spec fn cancellation_pending(self) -> bool {
        self.cancellation_requested && !self.point_of_no_return
    }

    /// Whether a step to `target` is turned into a cancellation. The steps to
    /// the point of no return and to a failure are never cancelled.
    pub open spec fn cancels(self, target: LogoutStateView) -> bool {
        self.cancellation_pending() && !(target is PointOfNoReturn) && !(target is Failed)
    }

    /// The machine in `state`, with a progress record to match.
    pub open spec fn moved_to(self, state: LogoutStateView, message: Seq<char>, now: u64) -> MachineView {
        MachineView {
            state,
            progress: self.progress.updated(state, message, state.percentage(), now),
            ..self
        }
    }

    /// The machine after a step towards `target`: in `target`, or cancelled.
    pub open spec fn transition_to(self, target: LogoutStateView, message: Seq<char>, now: u64) -> MachineView {
        if self.cancels(target) {
            self.moved_to(
                LogoutStateView::Failed(LogoutErrorView::cancelled()),
                "Logout cancelled by user"@,
                now,
            )
        } else {
            self.moved_to(target, message, now)
        }
    }

    /// A step to the next state, followed by a request for that state's work.
    /// Where the step is cancelled the logout ends silently.
    pub open spec fn proceed(
        self,
        flags: SessionFlags,
        target: LogoutStateView,
        message: Seq<char>,
        request: LogoutRequest,
        now: u64,
    ) -> StepView {
        if self.cancels(target) {
            StepView {
                machine: self.transition_to(target, message, now),
                flags: flags_after_failure(flags),
                effects: Seq::empty(),
            }
        } else {
            StepView {
                machine: self.transition_to(target, message, now),
                flags,
                effects: seq![
                    progress_update(message, target.percentage()),
                    LogoutEffectView::Perform(request),
                ],
            }
        }
    }

    /// The end of a logout in a failure.
    pub open spec fn fail(
        self,
        flags: SessionFlags,
        error: LogoutErrorView,
        message: Seq<char>,
        now: u64,
    ) -> StepView {
        let update = progress_update(message, 0);
        StepView {
            machine: self.moved_to(LogoutStateView::Failed(error), message, now),
            flags: flags_after_failure(flags),
            effects: match failure_notification(error) {
                Some(notification) => seq![update, LogoutEffectView::Notify(notification)],
                None => seq![update],
            },
        }
    }

    /// The step over the point of no return: both commit flags are set, and
    /// the marker of the last used account is deleted.
    pub open spec fn commit(self, flags: SessionFlags, message: Seq<char>, now: u64) -> StepView {
        let committed = MachineView { point_of_no_return: true, ..self };
        StepView {
            machine: committed.moved_to(LogoutStateView::PointOfNoReturn, message, now),
            flags: SessionFlags { point_of_no_return: true, ..flags },
            effects: seq![
                progress_update(message, 50),
                LogoutEffectView::Perform(LogoutRequest::DeleteLastUsedAccount),
            ],
        }
    }

    /// The end of a logout in success.
    pub open spec fn complete(self, flags: SessionFlags, now: u64) -> StepView {
        let message = "Logout completed successfully"@;
        if self.cancels(LogoutStateView::Completed) {
            StepView {
                machine: self.transition_to(LogoutStateView::Completed, message, now),
                flags: flags_after_failure(flags),
                effects: Seq::empty(),
            }
        } else {
            StepView {
                machine: self.transition_to(LogoutStateView::Completed, message, now),
                flags: SessionFlags { logout_in_progress: false, ..flags },
                effects: seq![
                    progress_update(message, 100),
                    LogoutEffectView::Notify(LogoutActionView::LogoutSuccess),
                ],
            }
        }
    }

    /// The step to the cleaning of the application state.
    pub open spec fn proceed_to_cleaning(self, flags: SessionFlags, now: u64) -> StepView {
        self.proceed(
            flags,
            LogoutStateView::CleaningAppState,
            "Cleaning up application state..."@,
            LogoutRequest::CleanAppState { timeout: self.config.app_state_cleanup_timeout },
            now,
        )
    }

    /// The first step of a logout: the flags are set for a fresh attempt and
    /// the pre-checks are asked for. A machine that has left `Idle` cannot be
    /// started again.
    pub open spec fn start(self, flags: SessionFlags, now: u64) -> Option<StepView> {
        if self.state is Idle {
            Some(
                self.proceed(
                    SessionFlags { logout_in_progress: true, point_of_no_return: false },
                    LogoutStateView::PreChecking,
                    "Checking prerequisites..."@,
                    LogoutRequest::CheckPrerequisites,
                    now,
                ),
            )
        } else {
            None
        }
    }

    /// The step that the machine takes on the outcome of the work it asked
    /// for; `None` where `response` is not the outcome of that work.
    pub open spec fn advance(self, flags: SessionFlags, response: LogoutResponseView, now: u64) -> Option<
        StepView,
    > {
        match (self.state, response) {
            (
                LogoutStateView::PreChecking,
                LogoutResponseView::Prerequisites {
                    client_exists,
                    sync_service_exists,
                    has_access_token,
                },
            ) => Some(
                match prechecks_result(client_exists, sync_service_exists, has_access_token) {
                    Err(error) => self.fail(flags, error, "Precheck failed: "@ + error.text(), now),
                    Ok(_) => self.proceed(
                        flags,
                        LogoutStateView::StoppingSyncService,
                        "Stopping sync service..."@,
                        LogoutRequest::StopSyncService,
                        now,
                    ),
                },
            ),
            (
                LogoutStateView::StoppingSyncService,
                LogoutResponseView::SyncServiceStopped { found },
            ) => Some(
                match stop_sync_result(found) {
                    Err(error) => self.fail(
                        flags,
                        error,
                        "Failed to stop sync service: "@ + error.text(),
                        now,
                    ),
                    Ok(_) => self.proceed(
                        flags,
                        LogoutStateView::LoggingOutFromServer,
                        "Logging out from server..."@,
                        LogoutRequest::ServerLogout { timeout: self.config.server_logout_timeout },
                        now,
                    ),
                },
            ),
            (LogoutStateView::LoggingOutFromServer, LogoutResponseView::ServerLogout(outcome)) => {
                let result = server_logout_result(outcome);
                Some(
                    match result {
                        Ok(_) => self.commit(flags, "Point of no return reached"@, now),
                        Err(error) => if commits(result) {
                            self.commit(flags, "Token already invalidated"@, now)
                        } else {
                            let failed = self.fail(
                                flags,
                                error,
                                "Server logout failed: "@ + error.text(),
                                now,
                            );
                            StepView {
                                effects: seq![
                                    LogoutEffectView::Perform(LogoutRequest::RestartSyncService),
                                ] + failed.effects,
                                ..failed
                            }
                        },
                    },
                )
            },
            (
                LogoutStateView::PointOfNoReturn,
                LogoutResponseView::LastUsedAccountDeleted { deleted },
            ) => Some(
                if self.config.is_desktop {
                    self.proceed(
                        flags,
                        LogoutStateView::ClosingTabs,
                        "Closing all tabs..."@,
                        LogoutRequest::CloseAllTabs { timeout: self.config.tab_close_timeout },
                        now,
                    )
                } else {
                    self.proceed_to_cleaning(flags, now)
                },
            ),
            (LogoutStateView::ClosingTabs, LogoutResponseView::TabsClosed(outcome)) => Some(
                match close_tabs_result(outcome) {
                    Err(reason) => self.fail(
                        flags,
                        post_commit_failure(reason),
                        "Failed to close tabs"@,
                        now,
                    ),
                    Ok(_) => self.proceed_to_cleaning(flags, now),
                },
            ),
            (LogoutStateView::CleaningAppState, LogoutResponseView::AppStateCleaned(outcome)) => Some(
                match clean_app_state_result(outcome) {
                    Err(reason) => self.fail(
                        flags,
                        post_commit_failure(reason),
                        "Failed to clean app state"@,
                        now,
                    ),
                    Ok(_) => self.proceed(
                        flags,
                        LogoutStateView::ShuttingDownTasks,
                        "Shutting down background tasks..."@,
                        LogoutRequest::ShutdownBackgroundTasks,
                        now,
                    ),
                },
            ),
            (LogoutStateView::ShuttingDownTasks, LogoutResponseView::BackgroundTasksShutDown) => Some(
                self.proceed(
                    flags,
                    LogoutStateView::RestartingRuntime,
                    "Restarting Matrix runtime..."@,
                    LogoutRequest::RestartRuntime,
                    now,
                ),
            ),
            (LogoutStateView::RestartingRuntime, LogoutResponseView::RuntimeRestarted(outcome)) => Some(
                match restart_runtime_result(outcome) {
                    Err(reason) => self.fail(
                        flags,
                        LogoutErrorView::Unrecoverable(UnrecoverableErrorView::RuntimeRestartFailed),
                        "Failed to restart runtime: "@ + reason,
                        now,
                    ),
                    Ok(_) => self.complete(flags, now),
                },
            ),
            _ => None,
        }
    }
}

} // verus!
