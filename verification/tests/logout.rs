use robrix_core::login::logout_actions::{
    AckOutcome, LogoutAction, LogoutEffect, LogoutRequest, LogoutResponse, MissingComponentType,
    RestartOutcome, ServerLogoutOutcome, SessionFlags,
};
use robrix_core::login::logout_errors::{LogoutError, RecoverableError, UnrecoverableError};
use robrix_core::login::logout_run::LogoutScript;
use robrix_core::login::logout_state::{LogoutConfig, LogoutProgress, LogoutState};
use robrix_core::login::logout_state_machine::LogoutStateMachine;

fn happy_script() -> LogoutScript {
    LogoutScript {
        client_exists: true,
        sync_service_exists: true,
        has_access_token: true,
        sync_service_found: true,
        server_logout: ServerLogoutOutcome::Success,
        account_marker_deleted: true,
        close_tabs: AckOutcome::Acknowledged,
        clean_app_state: AckOutcome::Acknowledged,
        runtime_restart: RestartOutcome::Restarted,
        cancel_during: None,
    }
}

fn desktop() -> LogoutConfig {
    LogoutConfig::default()
}

fn mobile() -> LogoutConfig {
    LogoutConfig { is_desktop: false, ..LogoutConfig::default() }
}

fn dirty_flags() -> SessionFlags {
    SessionFlags { logout_in_progress: false, point_of_no_return: true }
}

fn run(config: LogoutConfig, script: &LogoutScript) -> (LogoutStateMachine, SessionFlags, Result<(), LogoutError>, Vec<LogoutEffect>) {
    let mut machine = LogoutStateMachine::new(config, 1_000);
    let mut flags = dirty_flags();
    let (result, effects) = machine.execute(&mut flags, script, 2_000);
    (machine, flags, result, effects)
}

fn percentages(effects: &[LogoutEffect]) -> Vec<u8> {
    let mut seen = Vec::new();
    for effect in effects {
        if let LogoutEffect::Notify(LogoutAction::ProgressUpdate { percentage, .. }) = effect {
            seen.push(*percentage);
        }
    }
    seen
}

fn terminal_notifications(effects: &[LogoutEffect]) -> Vec<LogoutAction> {
    let mut seen = Vec::new();
    for effect in effects {
        match effect {
            LogoutEffect::Notify(LogoutAction::ProgressUpdate { .. }) => {}
            LogoutEffect::Notify(action) => seen.push(action.clone()),
            LogoutEffect::Perform(_) => {}
        }
    }
    seen
}

fn requests(effects: &[LogoutEffect]) -> Vec<LogoutRequest> {
    let mut seen = Vec::new();
    for effect in effects {
        if let LogoutEffect::Perform(request) = effect {
            seen.push(*request);
        }
    }
    seen
}

fn update(message: &str, percentage: u8) -> LogoutEffect {
    LogoutEffect::Notify(LogoutAction::ProgressUpdate { message: message.to_string(), percentage })
}

#[test]
fn default_config_has_the_usual_timeouts() {
    let config = LogoutConfig::default();
    assert_eq!(config.tab_close_timeout, 10_000);
    assert_eq!(config.app_state_cleanup_timeout, 5_000);
    assert_eq!(config.server_logout_timeout, 60_000);
    assert!(config.allow_cancellation);
    assert!(config.is_desktop);
}

#[test]
fn new_machine_is_idle() {
    let machine = LogoutStateMachine::new(desktop(), 42);
    assert_eq!(machine.current_state(), LogoutState::Idle);
    assert!(!machine.is_cancelled());
    assert!(!machine.point_of_no_return_reached());
    assert_eq!(machine.config(), desktop());
    let progress = machine.progress();
    assert_eq!(progress.state, LogoutState::Idle);
    assert_eq!(progress.message, "Ready to logout");
    assert_eq!(progress.percentage, 0);
    assert_eq!(progress.started_at, 42);
    assert_eq!(progress.step_started_at, 42);
}

#[test]
fn progress_update_keeps_the_start_time() {
    let mut progress = LogoutProgress::new(LogoutState::Idle, "a".to_string(), 0, 5);
    progress.update(LogoutState::PreChecking, "b".to_string(), 10, 9);
    assert_eq!(progress.state, LogoutState::PreChecking);
    assert_eq!(progress.message, "b");
    assert_eq!(progress.percentage, 10);
    assert_eq!(progress.started_at, 5);
    assert_eq!(progress.step_started_at, 9);
}

#[test]
fn milestones_of_the_states() {
    let states = [
        (LogoutState::Idle, 0u8, 0u8),
        (LogoutState::PreChecking, 10, 1),
        (LogoutState::StoppingSyncService, 20, 2),
        (LogoutState::LoggingOutFromServer, 30, 3),
        (LogoutState::PointOfNoReturn, 50, 4),
        (LogoutState::ClosingTabs, 60, 5),
        (LogoutState::CleaningAppState, 70, 6),
        (LogoutState::ShuttingDownTasks, 80, 7),
        (LogoutState::RestartingRuntime, 90, 8),
        (LogoutState::Completed, 100, 9),
        (LogoutState::Failed(LogoutError::Recoverable(RecoverableError::Cancelled)), 0, 10),
    ];
    for (state, percentage, position) in states {
        assert_eq!(state.percentage(), percentage);
        assert_eq!(state.position(), position);
        assert_eq!(state.is_terminal(), position >= 9);
    }
}

#[test]
fn successful_desktop_logout() {
    let (machine, flags, result, effects) = run(desktop(), &happy_script());
    assert_eq!(result, Ok(()));
    assert_eq!(machine.current_state(), LogoutState::Completed);
    let progress = machine.progress();
    assert_eq!(progress.state, LogoutState::Completed);
    assert_eq!(progress.percentage, 100);
    assert_eq!(progress.message, "Logout completed successfully");
    assert_eq!(progress.started_at, 1_000);
    assert_eq!(progress.step_started_at, 2_000);
    assert!(!flags.logout_in_progress);
    assert!(flags.point_of_no_return);
    assert!(machine.point_of_no_return_reached());
    assert_eq!(
        effects,
        vec![
            update("Checking prerequisites...", 10),
            LogoutEffect::Perform(LogoutRequest::CheckPrerequisites),
            update("Stopping sync service...", 20),
            LogoutEffect::Perform(LogoutRequest::StopSyncService),
            update("Logging out from server...", 30),
            LogoutEffect::Perform(LogoutRequest::ServerLogout { timeout: 60_000 }),
            update("Point of no return reached", 50),
            LogoutEffect::Perform(LogoutRequest::DeleteLastUsedAccount),
            update("Closing all tabs...", 60),
            LogoutEffect::Perform(LogoutRequest::CloseAllTabs { timeout: 10_000 }),
            update("Cleaning up application state...", 70),
            LogoutEffect::Perform(LogoutRequest::CleanAppState { timeout: 5_000 }),
            update("Shutting down background tasks...", 80),
            LogoutEffect::Perform(LogoutRequest::ShutdownBackgroundTasks),
            update("Restarting Matrix runtime...", 90),
            LogoutEffect::Perform(LogoutRequest::RestartRuntime),
            update("Logout completed successfully", 100),
            LogoutEffect::Notify(LogoutAction::LogoutSuccess),
        ]
    );
}

#[test]
fn percentages_of_a_desktop_logout() {
    let (_, _, _, effects) = run(desktop(), &happy_script());
    assert_eq!(percentages(&effects), vec![10, 20, 30, 50, 60, 70, 80, 90, 100]);
}

#[test]
fn percentages_without_tabs_skip_sixty() {
    let (machine, _, result, effects) = run(mobile(), &happy_script());
    assert_eq!(result, Ok(()));
    assert_eq!(machine.current_state(), LogoutState::Completed);
    assert_eq!(percentages(&effects), vec![10, 20, 30, 50, 70, 80, 90, 100]);
    assert!(!requests(&effects).contains(&LogoutRequest::CloseAllTabs { timeout: 10_000 }));
}

#[test]
fn server_failure_restarts_sync_and_is_recoverable() {
    let script = LogoutScript {
        server_logout: ServerLogoutOutcome::Rejected("M_FORBIDDEN: no".to_string()),
        ..happy_script()
    };
    let (machine, flags, result, effects) = run(desktop(), &script);
    let error = LogoutError::Recoverable(RecoverableError::ServerLogoutFailed(
        "M_FORBIDDEN: no".to_string(),
    ));
    assert_eq!(result, Err(error.clone()));
    assert_eq!(machine.current_state(), LogoutState::Failed(error));
    assert!(!flags.point_of_no_return);
    assert!(!flags.logout_in_progress);
    assert!(!machine.point_of_no_return_reached());
    assert_eq!(machine.progress().percentage, 0);
    assert_eq!(
        effects[6..].to_vec(),
        vec![
            LogoutEffect::Perform(LogoutRequest::RestartSyncService),
            update(
                "Server logout failed: Recoverable error: Server logout failed: M_FORBIDDEN: no",
                0
            ),
            LogoutEffect::Notify(LogoutAction::LogoutFailure(
                "Recoverable error: Server logout failed: M_FORBIDDEN: no".to_string()
            )),
        ]
    );
}

#[test]
fn server_timeout_is_a_recoverable_timeout() {
    let script = LogoutScript { server_logout: ServerLogoutOutcome::TimedOut, ..happy_script() };
    let (machine, flags, result, effects) = run(desktop(), &script);
    let error = LogoutError::Recoverable(RecoverableError::Timeout(
        "Server logout timed out".to_string(),
    ));
    assert_eq!(result, Err(error.clone()));
    assert_eq!(machine.current_state(), LogoutState::Failed(error));
    assert!(!flags.point_of_no_return);
    assert!(!flags.logout_in_progress);
    assert!(requests(&effects).contains(&LogoutRequest::RestartSyncService));
    assert_eq!(
        terminal_notifications(&effects),
        vec![LogoutAction::LogoutFailure(
            "Recoverable error: Operation timed out: Server logout timed out".to_string()
        )]
    );
}

#[test]
fn client_lost_before_sign_out() {
    let script =
        LogoutScript { server_logout: ServerLogoutOutcome::ClientMissing, ..happy_script() };
    let (machine, flags, result, effects) = run(desktop(), &script);
    let error = LogoutError::Unrecoverable(UnrecoverableError::ClientMissing);
    assert_eq!(result, Err(error.clone()));
    assert_eq!(machine.current_state(), LogoutState::Failed(error));
    assert!(!flags.logout_in_progress);
    assert_eq!(
        terminal_notifications(&effects),
        vec![LogoutAction::ApplicationRequiresRestart {
            missing_component: MissingComponentType::ClientMissing
        }]
    );
}

#[test]
fn unknown_token_counts_as_signed_out() {
    let script = LogoutScript {
        server_logout: ServerLogoutOutcome::Rejected(
            "[401 / M_UNKNOWN_TOKEN] Invalid access token".to_string(),
        ),
        ..happy_script()
    };
    let (machine, flags, result, effects) = run(desktop(), &script);
    assert_eq!(result, Ok(()));
    assert_eq!(machine.current_state(), LogoutState::Completed);
    assert!(flags.point_of_no_return);
    assert!(!flags.logout_in_progress);
    assert_eq!(effects[6], update("Token already invalidated", 50));
    assert_eq!(effects[7], LogoutEffect::Perform(LogoutRequest::DeleteLastUsedAccount));
    assert_eq!(percentages(&effects), vec![10, 20, 30, 50, 60, 70, 80, 90, 100]);
    assert!(!requests(&effects).contains(&LogoutRequest::RestartSyncService));
}

#[test]
fn unknown_token_is_found_anywhere_in_the_reason() {
    let at_start = Err(LogoutError::Recoverable(RecoverableError::ServerLogoutFailed(
        "M_UNKNOWN_TOKEN".to_string(),
    )));
    let at_end = Err(LogoutError::Recoverable(RecoverableError::ServerLogoutFailed(
        "code: M_UNKNOWN_TOKEN".to_string(),
    )));
    let partial = Err(LogoutError::Recoverable(RecoverableError::ServerLogoutFailed(
        "M_UNKNOWN_TOKE".to_string(),
    )));
    let in_timeout =
        Err(LogoutError::Recoverable(RecoverableError::Timeout("M_UNKNOWN_TOKEN".to_string())));
    assert!(LogoutStateMachine::invalidates_session(&at_start));
    assert!(LogoutStateMachine::invalidates_session(&at_end));
    assert!(!LogoutStateMachine::invalidates_session(&partial));
    assert!(!LogoutStateMachine::invalidates_session(&in_timeout));
    assert!(LogoutStateMachine::invalidates_session(&Ok(())));
}

#[test]
fn cleanup_timeout_after_commit_is_unrecoverable() {
    let script = LogoutScript { clean_app_state: AckOutcome::TimedOut, ..happy_script() };
    let (machine, flags, result, effects) = run(desktop(), &script);
    let error = LogoutError::Unrecoverable(UnrecoverableError::PostPointOfNoReturnFailure(
        "Timed out waiting for app state cleanup".to_string(),
    ));
    assert_eq!(result, Err(error.clone()));
    assert_eq!(machine.current_state(), LogoutState::Failed(error));
    assert!(flags.point_of_no_return);
    assert!(flags.logout_in_progress);
    assert_eq!(machine.progress().message, "Failed to clean app state");
    assert_eq!(machine.progress().percentage, 0);
    assert_eq!(
        terminal_notifications(&effects),
        vec![LogoutAction::LogoutFailure(
            "Unrecoverable error: Failed after point of no return: Timed out waiting for app state cleanup"
                .to_string()
        )]
    );
    assert_eq!(percentages(&effects), vec![10, 20, 30, 50, 60, 70, 0]);
}

#[test]
fn tabs_failure_after_commit_is_unrecoverable() {
    let script = LogoutScript {
        close_tabs: AckOutcome::ChannelClosed("canceled".to_string()),
        ..happy_script()
    };
    let (machine, flags, result, _) = run(desktop(), &script);
    let error = LogoutError::Unrecoverable(UnrecoverableError::PostPointOfNoReturnFailure(
        "Failed to close all tabs: canceled".to_string(),
    ));
    assert_eq!(result, Err(error.clone()));
    assert_eq!(machine.current_state(), LogoutState::Failed(error));
    assert_eq!(machine.progress().message, "Failed to close tabs");
    assert!(flags.point_of_no_return);
    assert!(flags.logout_in_progress);
}

#[test]
fn tabs_are_not_asked_without_desktop() {
    let script = LogoutScript { close_tabs: AckOutcome::TimedOut, ..happy_script() };
    let (machine, _, result, _) = run(mobile(), &script);
    assert_eq!(result, Ok(()));
    assert_eq!(machine.current_state(), LogoutState::Completed);
}

#[test]
fn runtime_restart_failure_is_terminal() {
    let script = LogoutScript {
        runtime_restart: RestartOutcome::Failed("no threads".to_string()),
        ..happy_script()
    };
    let (machine, flags, result, effects) = run(desktop(), &script);
    let error = LogoutError::Unrecoverable(UnrecoverableError::RuntimeRestartFailed);
    assert_eq!(result, Err(error.clone()));
    assert_eq!(machine.current_state(), LogoutState::Failed(error));
    assert!(flags.point_of_no_return);
    assert!(flags.logout_in_progress);
    assert_eq!(
        machine.progress().message,
        "Failed to restart runtime: Failed to restart runtime: no threads"
    );
    assert_eq!(
        terminal_notifications(&effects),
        vec![LogoutAction::LogoutFailure(
            "Unrecoverable error: Failed to restart the runtime".to_string()
        )]
    );
}

#[test]
fn missing_client_fails_before_any_interaction() {
    let script = LogoutScript {
        client_exists: false,
        sync_service_exists: false,
        has_access_token: false,
        ..happy_script()
    };
    let (machine, flags, result, effects) = run(desktop(), &script);
    let error = LogoutError::Unrecoverable(UnrecoverableError::ClientMissing);
    assert_eq!(result, Err(error.clone()));
    assert_eq!(machine.current_state(), LogoutState::Failed(error));
    assert!(!flags.logout_in_progress);
    assert!(!flags.point_of_no_return);
    assert_eq!(requests(&effects), vec![LogoutRequest::CheckPrerequisites]);
    assert_eq!(
        effects,
        vec![
            update("Checking prerequisites...", 10),
            LogoutEffect::Perform(LogoutRequest::CheckPrerequisites),
            update("Precheck failed: Unrecoverable error: Client is missing", 0),
            LogoutEffect::Notify(LogoutAction::ApplicationRequiresRestart {
                missing_component: MissingComponentType::ClientMissing
            }),
        ]
    );
}

#[test]
fn prechecks_report_the_first_missing_thing() {
    assert_eq!(
        LogoutStateMachine::perform_prechecks(false, false, false),
        Err(LogoutError::Unrecoverable(UnrecoverableError::ClientMissing))
    );
    assert_eq!(
        LogoutStateMachine::perform_prechecks(true, false, false),
        Err(LogoutError::Unrecoverable(UnrecoverableError::SyncServiceMissing))
    );
    assert_eq!(
        LogoutStateMachine::perform_prechecks(true, true, false),
        Err(LogoutError::Recoverable(RecoverableError::NoAccessToken))
    );
    assert_eq!(LogoutStateMachine::perform_prechecks(true, true, true), Ok(()));
}

#[test]
fn missing_sync_service_asks_for_restart() {
    let script = LogoutScript { sync_service_exists: false, ..happy_script() };
    let (machine, flags, result, effects) = run(desktop(), &script);
    let error = LogoutError::Unrecoverable(UnrecoverableError::SyncServiceMissing);
    assert_eq!(result, Err(error.clone()));
    assert_eq!(machine.current_state(), LogoutState::Failed(error));
    assert!(!flags.logout_in_progress);
    assert_eq!(
        terminal_notifications(&effects),
        vec![LogoutAction::ApplicationRequiresRestart {
            missing_component: MissingComponentType::SyncServiceMissing
        }]
    );
}

#[test]
fn missing_token_is_recoverable() {
    let script = LogoutScript { has_access_token: false, ..happy_script() };
    let (machine, flags, result, effects) = run(desktop(), &script);
    let error = LogoutError::Recoverable(RecoverableError::NoAccessToken);
    assert_eq!(result, Err(error.clone()));
    assert_eq!(machine.current_state(), LogoutState::Failed(error));
    assert!(!flags.logout_in_progress);
    assert_eq!(
        terminal_notifications(&effects),
        vec![LogoutAction::LogoutFailure(
            "Recoverable error: No access token found".to_string()
        )]
    );
}

#[test]
fn sync_service_gone_when_stopping() {
    let script = LogoutScript { sync_service_found: false, ..happy_script() };
    let (machine, flags, result, effects) = run(desktop(), &script);
    let error = LogoutError::Unrecoverable(UnrecoverableError::SyncServiceMissing);
    assert_eq!(result, Err(error.clone()));
    assert_eq!(machine.current_state(), LogoutState::Failed(error));
    assert!(!flags.logout_in_progress);
    assert_eq!(
        machine.progress().message,
        "Failed to stop sync service: Unrecoverable error: Sync service is missing"
    );
    assert_eq!(percentages(&effects), vec![10, 20, 0]);
}

#[test]
fn cancellation_before_start_ends_silently() {
    let script = LogoutScript { cancel_during: Some(LogoutState::Idle), ..happy_script() };
    let (machine, flags, result, effects) = run(desktop(), &script);
    let error = LogoutError::Recoverable(RecoverableError::Cancelled);
    assert_eq!(result, Err(error.clone()));
    assert_eq!(machine.current_state(), LogoutState::Failed(error.clone()));
    assert_eq!(machine.progress().state, LogoutState::Failed(error));
    assert_eq!(machine.progress().percentage, 0);
    assert_eq!(machine.progress().message, "Logout cancelled by user");
    assert!(machine.is_cancelled());
    assert!(!flags.logout_in_progress);
    assert!(!flags.point_of_no_return);
    assert_eq!(effects, vec![]);
}

#[test]
fn cancellation_during_prechecks() {
    let script = LogoutScript { cancel_during: Some(LogoutState::PreChecking), ..happy_script() };
    let (machine, flags, result, effects) = run(desktop(), &script);
    let error = LogoutError::Recoverable(RecoverableError::Cancelled);
    assert_eq!(result, Err(error.clone()));
    assert_eq!(machine.current_state(), LogoutState::Failed(error));
    assert!(!flags.logout_in_progress);
    assert!(!flags.point_of_no_return);
    assert_eq!(
        effects,
        vec![
            update("Checking prerequisites...", 10),
            LogoutEffect::Perform(LogoutRequest::CheckPrerequisites),
        ]
    );
    assert_eq!(terminal_notifications(&effects), vec![]);
}

#[test]
fn cancellation_while_stopping_sync() {
    let script =
        LogoutScript { cancel_during: Some(LogoutState::StoppingSyncService), ..happy_script() };
    let (machine, flags, result, effects) = run(desktop(), &script);
    let error = LogoutError::Recoverable(RecoverableError::Cancelled);
    assert_eq!(result, Err(error.clone()));
    assert_eq!(machine.current_state(), LogoutState::Failed(error));
    assert!(!flags.logout_in_progress);
    assert_eq!(requests(&effects), vec![
        LogoutRequest::CheckPrerequisites,
        LogoutRequest::StopSyncService
    ]);
    assert_eq!(terminal_notifications(&effects), vec![]);
}

#[test]
fn failure_of_the_step_wins_over_cancellation() {
    let script = LogoutScript {
        cancel_during: Some(LogoutState::PreChecking),
        has_access_token: false,
        ..happy_script()
    };
    let (machine, _, result, _) = run(desktop(), &script);
    let error = LogoutError::Recoverable(RecoverableError::NoAccessToken);
    assert_eq!(result, Err(error.clone()));
    assert_eq!(machine.current_state(), LogoutState::Failed(error));
}

#[test]
fn commit_wins_over_cancellation_during_sign_out() {
    let script =
        LogoutScript { cancel_during: Some(LogoutState::LoggingOutFromServer), ..happy_script() };
    let (machine, flags, result, effects) = run(desktop(), &script);
    assert_eq!(result, Ok(()));
    assert_eq!(machine.current_state(), LogoutState::Completed);
    assert!(machine.is_cancelled());
    assert!(flags.point_of_no_return);
    assert_eq!(percentages(&effects), vec![10, 20, 30, 50, 60, 70, 80, 90, 100]);
}

#[test]
fn cancellation_after_commit_changes_nothing() {
    let (_, plain_flags, plain_result, plain_effects) = run(desktop(), &happy_script());
    for state in [
        LogoutState::PointOfNoReturn,
        LogoutState::ClosingTabs,
        LogoutState::CleaningAppState,
        LogoutState::ShuttingDownTasks,
        LogoutState::RestartingRuntime,
    ] {
        let script = LogoutScript { cancel_during: Some(state), ..happy_script() };
        let (machine, flags, result, effects) = run(desktop(), &script);
        assert_eq!(result, plain_result);
        assert_eq!(effects, plain_effects);
        assert_eq!(flags, plain_flags);
        assert_eq!(machine.current_state(), LogoutState::Completed);
        assert!(!machine.is_cancelled());
    }
}

#[test]
fn cancellation_is_ignored_where_not_allowed() {
    let config = LogoutConfig { allow_cancellation: false, ..LogoutConfig::default() };
    let script = LogoutScript { cancel_during: Some(LogoutState::PreChecking), ..happy_script() };
    let (machine, _, result, _) = run(config, &script);
    assert_eq!(result, Ok(()));
    assert_eq!(machine.current_state(), LogoutState::Completed);
    assert!(!machine.is_cancelled());
}

#[test]
fn request_cancellation_sets_the_flag_before_commit() {
    let mut machine = LogoutStateMachine::new(desktop(), 0);
    assert!(!machine.is_cancelled());
    machine.request_cancellation();
    assert!(machine.is_cancelled());
}

#[test]
fn machine_driven_step_by_step() {
    let mut machine = LogoutStateMachine::new(mobile(), 0);
    let mut flags = SessionFlags::new();
    assert!(flags.may_start_logout());
    let effects = machine.start(&mut flags, 1).unwrap();
    assert_eq!(
        effects,
        vec![
            update("Checking prerequisites...", 10),
            LogoutEffect::Perform(LogoutRequest::CheckPrerequisites)
        ]
    );
    assert!(flags.logout_in_progress);
    assert!(!flags.may_start_logout());
    assert_eq!(machine.current_state(), LogoutState::PreChecking);
    assert_eq!(machine.progress().step_started_at, 1);

    // A second start and an answer of the wrong kind change nothing.
    assert_eq!(machine.start(&mut flags, 2), None);
    assert_eq!(machine.advance(&mut flags, LogoutResponse::BackgroundTasksShutDown, 2), None);
    assert_eq!(machine.current_state(), LogoutState::PreChecking);
    assert_eq!(machine.progress().step_started_at, 1);

    let response = LogoutResponse::Prerequisites {
        client_exists: true,
        sync_service_exists: true,
        has_access_token: true,
    };
    let effects = machine.advance(&mut flags, response, 3).unwrap();
    assert_eq!(effects[1], LogoutEffect::Perform(LogoutRequest::StopSyncService));
    let effects =
        machine.advance(&mut flags, LogoutResponse::SyncServiceStopped { found: true }, 4).unwrap();
    assert_eq!(effects[1], LogoutEffect::Perform(LogoutRequest::ServerLogout { timeout: 60_000 }));
    assert!(!flags.point_of_no_return);
    let effects = machine
        .advance(&mut flags, LogoutResponse::ServerLogout(ServerLogoutOutcome::Success), 5)
        .unwrap();
    assert_eq!(effects[0], update("Point of no return reached", 50));
    assert!(flags.point_of_no_return);
    assert_eq!(machine.current_state(), LogoutState::PointOfNoReturn);

    // After the commit a request to cancel is not recorded.
    machine.request_cancellation();
    assert!(!machine.is_cancelled());

    let effects = machine
        .advance(&mut flags, LogoutResponse::LastUsedAccountDeleted { deleted: false }, 6)
        .unwrap();
    assert_eq!(effects[1], LogoutEffect::Perform(LogoutRequest::CleanAppState { timeout: 5_000 }));
    assert_eq!(machine.current_state(), LogoutState::CleaningAppState);
    let effects = machine
        .advance(&mut flags, LogoutResponse::AppStateCleaned(AckOutcome::Acknowledged), 7)
        .unwrap();
    assert_eq!(effects[1], LogoutEffect::Perform(LogoutRequest::ShutdownBackgroundTasks));
    let effects = machine.advance(&mut flags, LogoutResponse::BackgroundTasksShutDown, 8).unwrap();
    assert_eq!(effects[1], LogoutEffect::Perform(LogoutRequest::RestartRuntime));
    let effects = machine
        .advance(&mut flags, LogoutResponse::RuntimeRestarted(RestartOutcome::Restarted), 9)
        .unwrap();
    assert_eq!(effects[1], LogoutEffect::Notify(LogoutAction::LogoutSuccess));
    assert_eq!(machine.current_state(), LogoutState::Completed);
    assert!(!flags.logout_in_progress);

    // A finished logout takes no further step.
    assert_eq!(machine.advance(&mut flags, LogoutResponse::BackgroundTasksShutDown, 10), None);
    assert_eq!(machine.progress().step_started_at, 9);
}

#[test]
fn handle_error_keeps_in_progress_after_commit() {
    let error = LogoutError::Unrecoverable(UnrecoverableError::RuntimeRestartFailed);
    let mut committed = SessionFlags { logout_in_progress: true, point_of_no_return: true };
    let notification = LogoutStateMachine::handle_error(&mut committed, &error);
    assert!(committed.logout_in_progress);
    assert_eq!(
        notification,
        Some(LogoutAction::LogoutFailure(
            "Unrecoverable error: Failed to restart the runtime".to_string()
        ))
    );
    let mut early = SessionFlags { logout_in_progress: true, point_of_no_return: false };
    let cancelled = LogoutError::Recoverable(RecoverableError::Cancelled);
    assert_eq!(LogoutStateMachine::handle_error(&mut early, &cancelled), None);
    assert!(!early.logout_in_progress);
}

#[test]
fn step_outcomes_as_results() {
    assert_eq!(LogoutStateMachine::stop_sync_service(true), Ok(()));
    assert_eq!(
        LogoutStateMachine::stop_sync_service(false),
        Err(LogoutError::Unrecoverable(UnrecoverableError::SyncServiceMissing))
    );
    assert_eq!(LogoutStateMachine::perform_server_logout(ServerLogoutOutcome::Success), Ok(()));
    assert_eq!(LogoutStateMachine::close_all_tabs(AckOutcome::Acknowledged), Ok(()));
    assert_eq!(
        LogoutStateMachine::close_all_tabs(AckOutcome::TimedOut),
        Err("Timed out waiting for tabs to close".to_string())
    );
    assert_eq!(
        LogoutStateMachine::close_all_tabs(AckOutcome::ChannelClosed("x".to_string())),
        Err("Failed to close all tabs: x".to_string())
    );
    assert_eq!(LogoutStateMachine::clean_app_state(AckOutcome::Acknowledged), Ok(()));
    assert_eq!(
        LogoutStateMachine::clean_app_state(AckOutcome::ChannelClosed("x".to_string())),
        Err("Failed to clean app state: x".to_string())
    );
    assert_eq!(LogoutStateMachine::restart_runtime(RestartOutcome::Restarted), Ok(()));
    assert_eq!(
        LogoutStateMachine::restart_runtime(RestartOutcome::Failed("x".to_string())),
        Err("Failed to restart runtime: x".to_string())
    );
}

#[test]
fn error_messages() {
    assert_eq!(RecoverableError::NoAccessToken.message(), "No access token found");
    assert_eq!(
        RecoverableError::ServerLogoutFailed("x".to_string()).message(),
        "Server logout failed: x"
    );
    assert_eq!(RecoverableError::Timeout("x".to_string()).message(), "Operation timed out: x");
    assert_eq!(RecoverableError::Cancelled.message(), "Operation cancelled by user");
    assert_eq!(UnrecoverableError::ClientMissing.message(), "Client is missing");
    assert_eq!(UnrecoverableError::SyncServiceMissing.message(), "Sync service is missing");
    assert_eq!(
        UnrecoverableError::PostPointOfNoReturnFailure("x".to_string()).message(),
        "Failed after point of no return: x"
    );
    assert_eq!(UnrecoverableError::RuntimeRestartFailed.message(), "Failed to restart the runtime");
    let error = LogoutError::Recoverable(RecoverableError::Cancelled);
    assert!(error.is_recoverable());
    assert_eq!(error.message(), "Recoverable error: Operation cancelled by user");
    let error = LogoutError::Unrecoverable(UnrecoverableError::ClientMissing);
    assert!(!error.is_recoverable());
    assert_eq!(error.message(), "Unrecoverable error: Client is missing");
    assert_ne!(
        LogoutError::Recoverable(RecoverableError::Timeout("a".to_string())),
        LogoutError::Recoverable(RecoverableError::Timeout("b".to_string()))
    );
}

#[test]
fn telemetry_measures_from_creation() {
    let machine = LogoutStateMachine::new(desktop(), 100);
    let telemetry = machine.get_telemetry(350);
    assert_eq!(telemetry.total_duration, 250);
    assert!(telemetry.step_durations.is_empty());
    assert_eq!(telemetry.final_state, LogoutState::Idle);
    assert_eq!(telemetry.error_count, 0);
    assert_eq!(machine.get_telemetry(50).total_duration, 0);
}

#[test]
fn every_script_ends_in_a_terminal_state() {
    let server = [
        ServerLogoutOutcome::Success,
        ServerLogoutOutcome::Rejected("M_UNKNOWN_TOKEN".to_string()),
        ServerLogoutOutcome::Rejected("boom".to_string()),
        ServerLogoutOutcome::TimedOut,
        ServerLogoutOutcome::ClientMissing,
    ];
    let acks = [
        AckOutcome::Acknowledged,
        AckOutcome::ChannelClosed("closed".to_string()),
        AckOutcome::TimedOut,
    ];
    let cancels = [
        None,
        Some(LogoutState::Idle),
        Some(LogoutState::PreChecking),
        Some(LogoutState::StoppingSyncService),
        Some(LogoutState::LoggingOutFromServer),
        Some(LogoutState::CleaningAppState),
    ];
    let mut runs = 0;
    for bits in 0..32u32 {
        for outcome in &server {
            for tabs in &acks {
                for clean in &acks {
                    for cancel in &cancels {
                        let script = LogoutScript {
                            client_exists: bits & 1 == 0,
                            sync_service_exists: bits & 2 == 0,
                            has_access_token: bits & 4 == 0,
                            sync_service_found: bits & 8 == 0,
                            server_logout: outcome.clone(),
                            account_marker_deleted: true,
                            close_tabs: tabs.clone(),
                            clean_app_state: clean.clone(),
                            runtime_restart: if bits & 16 == 0 {
                                RestartOutcome::Restarted
                            } else {
                                RestartOutcome::Failed("x".to_string())
                            },
                            cancel_during: cancel.clone(),
                        };
                        let (machine, flags, result, effects) = run(desktop(), &script);
                        let state = machine.current_state();
                        assert!(state.is_terminal());
                        let notes = terminal_notifications(&effects);
                        match &state {
                            LogoutState::Completed => {
                                assert_eq!(result, Ok(()));
                                assert_eq!(notes, vec![LogoutAction::LogoutSuccess]);
                                assert!(!flags.logout_in_progress);
                                assert!(flags.point_of_no_return);
                            }
                            LogoutState::Failed(error) => {
                                assert_eq!(result, Err(error.clone()));
                                assert!(!notes.contains(&LogoutAction::LogoutSuccess));
                                let cancelled =
                                    *error == LogoutError::Recoverable(RecoverableError::Cancelled);
                                assert_eq!(notes.len(), if cancelled { 0 } else { 1 });
                                if flags.point_of_no_return {
                                    assert!(!error.is_recoverable());
                                    assert!(flags.logout_in_progress);
                                } else {
                                    assert!(!flags.logout_in_progress);
                                }
                            }
                            _ => unreachable!(),
                        }
                        assert_eq!(flags.point_of_no_return, machine.point_of_no_return_reached());
                        runs += 1;
                    }
                }
            }
        }
    }
    assert_eq!(runs, 32 * 5 * 3 * 3 * 6);
}

#[test]
fn second_logout_is_turned_away() {
    let mut flags = SessionFlags::new();
    let mut first = LogoutStateMachine::new(desktop(), 0);
    assert!(first.try_start(&mut flags, 1).is_some());
    assert!(flags.logout_in_progress);

    let mut second = LogoutStateMachine::new(desktop(), 2);
    assert_eq!(second.try_start(&mut flags, 3), None);
    assert_eq!(second.current_state(), LogoutState::Idle);
    assert_eq!(second.progress().step_started_at, 2);
    assert!(flags.logout_in_progress);
    assert!(!flags.point_of_no_return);

    // A logout that failed after the commit keeps later ones away too.
    let script = LogoutScript { clean_app_state: AckOutcome::TimedOut, ..happy_script() };
    let (_, mut flags, _, _) = run(desktop(), &script);
    assert!(flags.logout_in_progress);
    let mut third = LogoutStateMachine::new(desktop(), 4);
    assert_eq!(third.try_start(&mut flags, 5), None);
    assert!(flags.point_of_no_return);

    // One that failed before the commit does not.
    let script = LogoutScript { has_access_token: false, ..happy_script() };
    let (_, mut flags, _, _) = run(desktop(), &script);
    let mut fourth = LogoutStateMachine::new(desktop(), 6);
    assert!(fourth.try_start(&mut flags, 7).is_some());
    assert_eq!(fourth.current_state(), LogoutState::PreChecking);
}

#[test]
fn start_resets_the_flags_of_an_earlier_logout() {
    let mut flags = SessionFlags { logout_in_progress: false, point_of_no_return: true };
    let mut machine = LogoutStateMachine::new(desktop(), 0);
    assert!(machine.start(&mut flags, 1).is_some());
    assert_eq!(flags, SessionFlags { logout_in_progress: true, point_of_no_return: false });
}
