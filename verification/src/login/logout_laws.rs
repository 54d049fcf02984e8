//! What holds of every logout.
//!
//! The laws are stated of whole runs: of the machine started fresh and
//! driven to its end against any script of answers. They rest on one
//! invariant, [`RunView::consistent`], which ties the state of the machine
//! to the session flags and to what the listeners have been told.

use crate::login::logout_actions::{
    LogoutActionView,
    LogoutEffectView,
    LogoutRequest,
    LogoutResponseView,
    SessionFlags,
};
use crate::login::logout_errors::{LogoutErrorView, UnrecoverableErrorView};
use crate::login::logout_model::{
    clean_app_state_result,
    close_tabs_result,
    commits,
    failure_notification,
    post_commit_failure,
    prechecks_result,
    progress_update,
    restart_runtime_result,
    server_logout_result,
    stop_sync_result,
    MachineView,
    StepView,
};
use crate::login::logout_run::{
    lemma_round_moves_forward,
    lemma_run_ends,
    lemma_run_stops_at_end,
    LogoutScriptView,
    RunView,
};
use crate::login::logout_state::{LogoutConfig, LogoutStateView};
use vstd::prelude::*;

verus! {

/// The percentages that the listeners have been told, in order.
pub open spec fn percentages(trace: Seq<LogoutEffectView>) -> Seq<u8>
    decreases trace.len(),
{
    if trace.len() == 0 {
        Seq::empty()
    } else {
        let earlier = percentages(trace.drop_last());
        match trace.last() {
            LogoutEffectView::Notify(LogoutActionView::ProgressUpdate { percentage, .. }) =>
                earlier.push(percentage),
            _ => earlier,
        }
    }
}

/// The terminal notifications that the listeners have been sent, in order.
pub open spec fn terminal_notifications(trace: Seq<LogoutEffectView>) -> Seq<LogoutActionView>
    decreases trace.len(),
{
    if trace.len() == 0 {
        Seq::empty()
    } else {
        let earlier = terminal_notifications(trace.drop_last());
        match trace.last() {
            LogoutEffectView::Notify(action) => if action.is_terminal() {
                earlier.push(action)
            } else {
                earlier
            },
            _ => earlier,
        }
    }
}

/// The percentages of a trace are those of its first part followed by those
/// of its second part.
pub proof fn lemma_percentages_of_concatenation(
    first: Seq<LogoutEffectView>,
    second: Seq<LogoutEffectView>,
)
    ensures
        percentages(first + second) == percentages(first) + percentages(second),
    decreases second.len(),
{
    if second.len() == 0 {
        assert(first + second =~= first);
        assert(percentages(first) + percentages(second) =~= percentages(first));
    } else {
        assert((first + second).drop_last() =~= first + second.drop_last());
        assert((first + second).last() == second.last());
        lemma_percentages_of_concatenation(first, second.drop_last());
        assert(percentages(first + second) =~= percentages(first) + percentages(second));
    }
}

/// The terminal notifications of a trace are those of its first part
/// followed by those of its second part.
pub proof fn lemma_terminal_notifications_of_concatenation(
    first: Seq<LogoutEffectView>,
    second: Seq<LogoutEffectView>,
)
    ensures
        terminal_notifications(first + second) == terminal_notifications(first)
            + terminal_notifications(second),
    decreases second.len(),
{
    if second.len() == 0 {
        assert(first + second =~= first);
        assert(terminal_notifications(first) + terminal_notifications(second)
            =~= terminal_notifications(first));
    } else {
        assert((first + second).drop_last() =~= first + second.drop_last());
        assert((first + second).last() == second.last());
        lemma_terminal_notifications_of_concatenation(first, second.drop_last());
        assert(terminal_notifications(first + second) =~= terminal_notifications(first)
            + terminal_notifications(second));
    }
}

/// The percentages that the listeners have been told when a logout that has
/// not failed is in `state`.
pub open spec fn milestones(state: LogoutStateView, is_desktop: bool) -> Seq<u8> {
    let committed: Seq<u8> = seq![10, 20, 30, 50];
    let cleaning = if is_desktop {
        committed.push(60).push(70)
    } else {
        committed.push(70)
    };
    match state {
        LogoutStateView::Idle => Seq::empty(),
        LogoutStateView::PreChecking => seq![10],
        LogoutStateView::StoppingSyncService => seq![10, 20],
        LogoutStateView::LoggingOutFromServer => seq![10, 20, 30],
        LogoutStateView::PointOfNoReturn => committed,
        LogoutStateView::ClosingTabs => committed.push(60),
        LogoutStateView::CleaningAppState => cleaning,
        LogoutStateView::ShuttingDownTasks => cleaning.push(80),
        LogoutStateView::RestartingRuntime => cleaning.push(80).push(90),
        LogoutStateView::Completed => cleaning.push(80).push(90).push(100),
        LogoutStateView::Failed(_) => Seq::empty(),
    }
}

/// The terminal notifications that the listeners have been sent when a
/// logout is in `state`: none while it runs, the success when it has
/// completed, and the notification of the failure, if it has one, when it
/// has failed.
pub open spec fn notifications_due(state: LogoutStateView) -> Seq<LogoutActionView> {
    match state {
        LogoutStateView::Completed => seq![LogoutActionView::LogoutSuccess],
        LogoutStateView::Failed(error) => match failure_notification(error) {
            Some(notification) => seq![notification],
            None => Seq::empty(),
        },
        _ => Seq::empty(),
    }
}

impl RunView {
    /// What holds of a run at every round.
    ///
    /// The progress record shows the state of the machine. The two commit
    /// flags agree. The session is invalidated exactly from the point of no
    /// return on. The logout is in progress while the machine runs and after
    /// a failure past the point of no return, and at no other time. A
    /// failure past that point is unrecoverable. The listeners have been
    /// told the milestones up to the current state and have been sent the
    /// terminal notification that is due, and no other.
    pub open spec fn consistent(self) -> bool {
        let machine = self.machine;
        let state = machine.state;
        &&& machine.progress.state == state
        &&& machine.progress.percentage == state.percentage()
        &&& terminal_notifications(self.trace) == notifications_due(state)
        &&& state is ClosingTabs ==> machine.config.is_desktop
        &&& match state {
            LogoutStateView::Idle => !machine.point_of_no_return && self.trace == Seq::<
                LogoutEffectView,
            >::empty(),
            LogoutStateView::Completed => {
                &&& machine.point_of_no_return
                &&& self.flags.point_of_no_return
                &&& !self.flags.logout_in_progress
                &&& percentages(self.trace) == milestones(state, machine.config.is_desktop)
            },
            LogoutStateView::Failed(error) => {
                &&& machine.point_of_no_return == self.flags.point_of_no_return
                &&& machine.point_of_no_return ==> error is Unrecoverable
                &&& self.flags.logout_in_progress == machine.point_of_no_return
            },
            _ => {
                &&& machine.point_of_no_return == self.flags.point_of_no_return
                &&& machine.point_of_no_return <==> state.position() >= 4
                &&& self.flags.logout_in_progress
                &&& percentages(self.trace) == milestones(state, machine.config.is_desktop)
            },
        }
    }
}

/// A logout that has not started is consistent, whatever the flags are.
pub proof fn lemma_initial_run_is_consistent(config: LogoutConfig, flags: SessionFlags, now: u64)
    ensures
        RunView::initial(config, flags, now).consistent(),
{
}

/// What a step to the next state tells the listeners: the percentage of
/// that state, or nothing where the step is cancelled.
pub proof fn lemma_told_by_proceed(
    machine: MachineView,
    flags: SessionFlags,
    target: LogoutStateView,
    message: Seq<char>,
    request: LogoutRequest,
    now: u64,
)
    ensures
        ({
            let step = machine.proceed(flags, target, message, request, now);
            &&& terminal_notifications(step.effects) == Seq::<LogoutActionView>::empty()
            &&& percentages(step.effects) == if machine.cancels(target) {
                Seq::<u8>::empty()
            } else {
                seq![target.percentage()]
            }
        }),
{
    reveal_with_fuel(percentages, 3);
    reveal_with_fuel(terminal_notifications, 3);
    let step = machine.proceed(flags, target, message, request, now);
    if !machine.cancels(target) {
        assert(step.effects.drop_last() =~= seq![progress_update(message, target.percentage())]);
        assert(step.effects.drop_last().drop_last() =~= Seq::empty());
        assert(percentages(step.effects) =~= seq![target.percentage()]);
    }
}

/// What a failure tells the listeners: the percentage zero and the
/// notification of the failure, if it has one.
pub proof fn lemma_told_by_fail(
    machine: MachineView,
    flags: SessionFlags,
    error: LogoutErrorView,
    message: Seq<char>,
    now: u64,
)
    ensures
        ({
            let step = machine.fail(flags, error, message, now);
            &&& terminal_notifications(step.effects) == notifications_due(
                LogoutStateView::Failed(error),
            )
            &&& percentages(step.effects) == seq![0u8]
        }),
{
    reveal_with_fuel(percentages, 3);
    reveal_with_fuel(terminal_notifications, 3);
    let step = machine.fail(flags, error, message, now);
    let update = progress_update(message, 0);
    match failure_notification(error) {
        Some(notification) => {
            assert(step.effects.drop_last() =~= seq![update]);
            assert(step.effects.drop_last().drop_last() =~= Seq::empty());
            assert(percentages(step.effects) =~= seq![0u8]);
            assert(terminal_notifications(step.effects) =~= seq![notification]);
        },
        None => {
            assert(step.effects.drop_last() =~= Seq::empty());
            assert(percentages(step.effects) =~= seq![0u8]);
            assert(terminal_notifications(step.effects) =~= Seq::empty());
        },
    }
}

/// What the step over the point of no return tells the listeners.
pub proof fn lemma_told_by_commit(machine: MachineView, flags: SessionFlags, message: Seq<char>, now: u64)
    ensures
        ({
            let step = machine.commit(flags, message, now);
            &&& terminal_notifications(step.effects) == Seq::<LogoutActionView>::empty()
            &&& percentages(step.effects) == seq![50u8]
        }),
{
    reveal_with_fuel(percentages, 3);
    reveal_with_fuel(terminal_notifications, 3);
    let step = machine.commit(flags, message, now);
    assert(step.effects.drop_last() =~= seq![progress_update(message, 50)]);
    assert(step.effects.drop_last().drop_last() =~= Seq::empty());
    assert(percentages(step.effects) =~= seq![50u8]);
}

/// What the last step of a logout that is not cancelled tells the listeners.
pub proof fn lemma_told_by_complete(machine: MachineView, flags: SessionFlags, now: u64)
    requires
        !machine.cancellation_pending(),
    ensures
        ({
            let step = machine.complete(flags, now);
            &&& terminal_notifications(step.effects) == seq![LogoutActionView::LogoutSuccess]
            &&& percentages(step.effects) == seq![100u8]
        }),
{
    reveal_with_fuel(percentages, 3);
    reveal_with_fuel(terminal_notifications, 3);
    let step = machine.complete(flags, now);
    assert(step.effects.drop_last() =~= seq![
        progress_update("Logout completed successfully"@, 100),
    ]);
    assert(step.effects.drop_last().drop_last() =~= Seq::empty());
    assert(percentages(step.effects) =~= seq![100u8]);
    assert(terminal_notifications(step.effects) =~= seq![LogoutActionView::LogoutSuccess]);
}

/// A round keeps a run consistent.
pub proof fn lemma_round_keeps_consistent(run: RunView, script: LogoutScriptView, now: u64)
    requires
        run.consistent(),
    ensures
        run.next(script, now).consistent(),
        run.next(script, now).machine.config == run.machine.config,
{
    let flags = run.flags;
    let machine = if script.cancels_during(run.machine.state) {
        run.machine.request_cancellation()
    } else {
        run.machine
    };
    let config = machine.config;
    let step = match script.response(machine.state) {
        Some(response) => machine.advance(flags, response, now),
        None => machine.start(flags, now),
    };
    let next = run.next(script, now);
    if let Some(step) = step {
        lemma_percentages_of_concatenation(run.trace, step.effects);
        lemma_terminal_notifications_of_concatenation(run.trace, step.effects);
        assert(next.trace == run.trace + step.effects);
        match machine.state {
            LogoutStateView::Idle => {
                lemma_told_by_proceed(
                    machine,
                    SessionFlags { logout_in_progress: true, point_of_no_return: false },
                    LogoutStateView::PreChecking,
                    "Checking prerequisites..."@,
                    LogoutRequest::CheckPrerequisites,
                    now,
                );
                assert(run.trace + step.effects =~= step.effects);
            },
            LogoutStateView::PreChecking => {
                match prechecks_result(
                    script.client_exists,
                    script.sync_service_exists,
                    script.has_access_token,
                ) {
                    Err(error) => {
                        lemma_told_by_fail(
                            machine,
                            flags,
                            error,
                            "Precheck failed: "@ + error.text(),
                            now,
                        );
                    },
                    Ok(_) => {
                        lemma_told_by_proceed(
                            machine,
                            flags,
                            LogoutStateView::StoppingSyncService,
                            "Stopping sync service..."@,
                            LogoutRequest::StopSyncService,
                            now,
                        );
                    },
                }
            },
            LogoutStateView::StoppingSyncService => {
                match stop_sync_result(script.sync_service_found) {
                    Err(error) => {
                        lemma_told_by_fail(
                            machine,
                            flags,
                            error,
                            "Failed to stop sync service: "@ + error.text(),
                            now,
                        );
                    },
                    Ok(_) => {
                        lemma_told_by_proceed(
                            machine,
                            flags,
                            LogoutStateView::LoggingOutFromServer,
                            "Logging out from server..."@,
                            LogoutRequest::ServerLogout { timeout: config.server_logout_timeout },
                            now,
                        );
                    },
                }
            },
            LogoutStateView::LoggingOutFromServer => {
                let result = server_logout_result(script.server_logout);
                match result {
                    Ok(_) => {
                        lemma_told_by_commit(machine, flags, "Point of no return reached"@, now);
                    },
                    Err(error) => {
                        if commits(result) {
                            lemma_told_by_commit(machine, flags, "Token already invalidated"@, now);
                        } else {
                            let message = "Server logout failed: "@ + error.text();
                            let failed = machine.fail(flags, error, message, now);
                            let rollback = seq![
                                LogoutEffectView::Perform(LogoutRequest::RestartSyncService),
                            ];
                            lemma_told_by_fail(machine, flags, error, message, now);
                            lemma_percentages_of_concatenation(rollback, failed.effects);
                            lemma_terminal_notifications_of_concatenation(rollback, failed.effects);
                            reveal_with_fuel(percentages, 2);
                            reveal_with_fuel(terminal_notifications, 2);
                            assert(rollback.drop_last() =~= Seq::empty());
                            assert(percentages(step.effects) =~= seq![0u8]);
                            assert(terminal_notifications(step.effects) =~= notifications_due(
                                LogoutStateView::Failed(error),
                            ));
                        }
                    },
                }
            },
            LogoutStateView::PointOfNoReturn => {
                if config.is_desktop {
                    lemma_told_by_proceed(
                        machine,
                        flags,
                        LogoutStateView::ClosingTabs,
                        "Closing all tabs..."@,
                        LogoutRequest::CloseAllTabs { timeout: config.tab_close_timeout },
                        now,
                    );
                } else {
                    lemma_told_by_proceed(
                        machine,
                        flags,
                        LogoutStateView::CleaningAppState,
                        "Cleaning up application state..."@,
                        LogoutRequest::CleanAppState { timeout: config.app_state_cleanup_timeout },
                        now,
                    );
                }
            },
            LogoutStateView::ClosingTabs => {
                match close_tabs_result(script.close_tabs) {
                    Err(reason) => {
                        lemma_told_by_fail(
                            machine,
                            flags,
                            post_commit_failure(reason),
                            "Failed to close tabs"@,
                            now,
                        );
                    },
                    Ok(_) => {
                        lemma_told_by_proceed(
                            machine,
                            flags,
                            LogoutStateView::CleaningAppState,
                            "Cleaning up application state..."@,
                            LogoutRequest::CleanAppState {
                                timeout: config.app_state_cleanup_timeout,
                            },
                            now,
                        );
                    },
                }
            },
            LogoutStateView::CleaningAppState => {
                match clean_app_state_result(script.clean_app_state) {
                    Err(reason) => {
                        lemma_told_by_fail(
                            machine,
                            flags,
                            post_commit_failure(reason),
                            "Failed to clean app state"@,
                            now,
                        );
                    },
                    Ok(_) => {
                        lemma_told_by_proceed(
                            machine,
                            flags,
                            LogoutStateView::ShuttingDownTasks,
                            "Shutting down background tasks..."@,
                            LogoutRequest::ShutdownBackgroundTasks,
                            now,
                        );
                    },
                }
            },
            LogoutStateView::ShuttingDownTasks => {
                lemma_told_by_proceed(
                    machine,
                    flags,
                    LogoutStateView::RestartingRuntime,
                    "Restarting Matrix runtime..."@,
                    LogoutRequest::RestartRuntime,
                    now,
                );
            },
            LogoutStateView::RestartingRuntime => {
                match restart_runtime_result(script.runtime_restart) {
                    Err(reason) => {
                        lemma_told_by_fail(
                            machine,
                            flags,
                            LogoutErrorView::Unrecoverable(
                                UnrecoverableErrorView::RuntimeRestartFailed,
                            ),
                            "Failed to restart runtime: "@ + reason,
                            now,
                        );
                    },
                    Ok(_) => {
                        lemma_told_by_complete(machine, flags, now);
                    },
                }
            },
            _ => {},
        }
        assert(percentages(next.trace) =~= percentages(run.trace) + percentages(step.effects));
        assert(terminal_notifications(next.trace) =~= terminal_notifications(run.trace)
            + terminal_notifications(step.effects));
        if !(next.machine.state is Failed) {
            assert(percentages(next.trace) =~= milestones(
                next.machine.state,
                next.machine.config.is_desktop,
            ));
        }
        assert(terminal_notifications(next.trace) =~= notifications_due(next.machine.state));
    }
}

/// Rounds keep a run consistent.
pub proof fn lemma_run_keeps_consistent(run: RunView, script: LogoutScriptView, now: u64, rounds: nat)
    requires
        run.consistent(),
    ensures
        run.run(script, now, rounds).consistent(),
        run.run(script, now, rounds).machine.config == run.machine.config,
    decreases rounds,
{
    if rounds == 0 || run.machine.state.is_terminal() {
    } else {
        lemma_round_keeps_consistent(run, script, now);
        lemma_run_keeps_consistent(run.next(script, now), script, now, (rounds - 1) as nat);
    }
}

/// The logout that a fresh machine makes of a script: the run from `Idle`
/// to its end.
pub open spec fn logout(
    config: LogoutConfig,
    flags: SessionFlags,
    script: LogoutScriptView,
    now: u64,
) -> RunView {
    RunView::initial(config, flags, now).finish(script, now)
}

/// Every logout ends, and it ends in `Completed` or in `Failed`; at its end
/// it is consistent.
pub proof fn law_logout_ends_in_terminal_state(
    config: LogoutConfig,
    flags: SessionFlags,
    script: LogoutScriptView,
    now: u64,
)
    ensures
        logout(config, flags, script, now).machine.state is Completed || logout(
            config,
            flags,
            script,
            now,
        ).machine.state is Failed,
        logout(config, flags, script, now).consistent(),
        logout(config, flags, script, now).machine.config == config,
{
    let fresh = RunView::initial(config, flags, now);
    lemma_run_ends(fresh, script, now, 10);
    lemma_initial_run_is_consistent(config, flags, now);
    lemma_run_keeps_consistent(fresh, script, now, 10);
}

/// After a logout that failed before the session was invalidated, no logout
/// is in progress, and the flag of the point of no return is not set.
pub proof fn law_failure_before_commit_clears_in_progress(
    config: LogoutConfig,
    flags: SessionFlags,
    script: LogoutScriptView,
    now: u64,
)
    ensures
        ({
            let end = logout(config, flags, script, now);
            end.machine.state is Failed && !end.machine.point_of_no_return ==> {
                &&& !end.flags.logout_in_progress
                &&& !end.flags.point_of_no_return
            }
        }),
{
    law_logout_ends_in_terminal_state(config, flags, script, now);
}

/// A logout that failed after the session was invalidated has failed with
/// an unrecoverable error, whatever went wrong, and is still in progress.
pub proof fn law_failure_after_commit_is_unrecoverable(
    config: LogoutConfig,
    flags: SessionFlags,
    script: LogoutScriptView,
    now: u64,
)
    ensures
        ({
            let end = logout(config, flags, script, now);
            end.machine.state is Failed && end.machine.point_of_no_return ==> {
                &&& end.machine.state->Failed_0 is Unrecoverable
                &&& end.flags.logout_in_progress
                &&& end.flags.point_of_no_return
            }
        }),
{
    law_logout_ends_in_terminal_state(config, flags, script, now);
}

/// A request to cancel that is made once the session is invalidated leaves
/// the machine as it is.
pub proof fn law_cancellation_after_commit_is_ignored(machine: MachineView)
    requires
        machine.point_of_no_return,
    ensures
        machine.request_cancellation() == machine,
{
}

/// The same script without the user's request to cancel.
pub open spec fn without_cancellation(script: LogoutScriptView) -> LogoutScriptView {
    LogoutScriptView { cancel_during: None, ..script }
}

/// From a consistent run on, a request to cancel that arrives at or after
/// the point of no return does not change how the run goes on.
pub proof fn lemma_late_cancellation_changes_nothing(
    run: RunView,
    script: LogoutScriptView,
    now: u64,
    rounds: nat,
)
    requires
        run.consistent(),
        script.cancel_during matches Some(state) && state.position() >= 4,
    ensures
        run.run(script, now, rounds) == run.run(without_cancellation(script), now, rounds),
    decreases rounds,
{
    if rounds == 0 || run.machine.state.is_terminal() {
    } else {
        let plain = without_cancellation(script);
        assert(script.response(run.machine.state) == plain.response(run.machine.state));
        assert(run.next(script, now) == run.next(plain, now));
        lemma_round_keeps_consistent(run, script, now);
        lemma_late_cancellation_changes_nothing(
            run.next(script, now),
            script,
            now,
            (rounds - 1) as nat,
        );
    }
}

/// A request to cancel that arrives at or after the point of no return has
/// no effect: the logout ends in the same state, with the same flags, and
/// the driver is told the same, as if the user had not asked.
pub proof fn law_cancellation_after_commit_has_no_effect(
    config: LogoutConfig,
    flags: SessionFlags,
    script: LogoutScriptView,
    now: u64,
)
    requires
        script.cancel_during matches Some(state) && state.position() >= 4,
    ensures
        logout(config, flags, script, now) == logout(
            config,
            flags,
            without_cancellation(script),
            now,
        ),
{
    lemma_initial_run_is_consistent(config, flags, now);
    lemma_late_cancellation_changes_nothing(RunView::initial(config, flags, now), script, now, 10);
}

/// Whether the work of the states before `state` succeeds under `script`,
/// and that of `state` too, so that the logout would step on from `state`
/// to the next state. This is so for `Idle`, for `PreChecking` where the
/// pre-checks pass, and for `StoppingSyncService` where in addition there
/// is a sync service to stop.
pub open spec fn steps_on_from(script: LogoutScriptView, state: LogoutStateView) -> bool {
    let prechecks_pass = script.client_exists && script.sync_service_exists
        && script.has_access_token;
    match state {
        LogoutStateView::Idle => true,
        LogoutStateView::PreChecking => prechecks_pass,
        LogoutStateView::StoppingSyncService => prechecks_pass && script.sync_service_found,
        _ => false,
    }
}

/// Where cancellation is allowed, a request to cancel that arrives before
/// the server is asked to sign out, during a step that succeeds, ends the
/// logout in `Failed(Cancelled)` at the end of that step. The session is
/// not invalidated, no logout is in progress afterwards, and the listeners
/// are sent no terminal notification: no success, and no failure either.
pub proof fn law_cancellation_before_commit_ends_logout(
    config: LogoutConfig,
    flags: SessionFlags,
    script: LogoutScriptView,
    now: u64,
)
    requires
        config.allow_cancellation,
        script.cancel_during matches Some(state) && steps_on_from(script, state),
    ensures
        ({
            let end = logout(config, flags, script, now);
            &&& end.machine.state == LogoutStateView::Failed(LogoutErrorView::cancelled())
            &&& terminal_notifications(end.trace) == Seq::<LogoutActionView>::empty()
            &&& !end.machine.point_of_no_return
            &&& !end.flags.point_of_no_return
            &&& !end.flags.logout_in_progress
        }),
{
    law_logout_ends_in_terminal_state(config, flags, script, now);
    let cancel_at = script.cancel_during->0;
    let idle = RunView::initial(config, flags, now);
    let prechecking = idle.next(script, now);
    let stopping = prechecking.next(script, now);
    let logging_out = stopping.next(script, now);
    reveal_with_fuel(RunView::run, 4);
    if cancel_at is Idle {
        lemma_run_stops_at_end(prechecking, script, now, 9);
    } else if cancel_at is PreChecking {
        lemma_run_stops_at_end(stopping, script, now, 8);
    } else {
        lemma_run_stops_at_end(logging_out, script, now, 7);
    }
}

/// The percentages that the listeners of a successful logout are told are
/// the milestones in order: with sixty for the closing of the tabs on a
/// desktop, and without it elsewhere.
pub proof fn law_percentages_of_successful_logout(
    config: LogoutConfig,
    flags: SessionFlags,
    script: LogoutScriptView,
    now: u64,
)
    ensures
        ({
            let end = logout(config, flags, script, now);
            end.machine.state is Completed ==> percentages(end.trace) == if config.is_desktop {
                seq![10u8, 20u8, 30u8, 50u8, 60u8, 70u8, 80u8, 90u8, 100u8]
            } else {
                seq![10u8, 20u8, 30u8, 50u8, 70u8, 80u8, 90u8, 100u8]
            }
        }),
{
    law_logout_ends_in_terminal_state(config, flags, script, now);
    let end = logout(config, flags, script, now);
    if end.machine.state is Completed {
        if config.is_desktop {
            assert(milestones(end.machine.state, true) =~= seq![
                10u8,
                20u8,
                30u8,
                50u8,
                60u8,
                70u8,
                80u8,
                90u8,
                100u8,
            ]);
        } else {
            assert(milestones(end.machine.state, false) =~= seq![
                10u8,
                20u8,
                30u8,
                50u8,
                70u8,
                80u8,
                90u8,
                100u8,
            ]);
        }
    }
}

/// The listeners of a logout are sent exactly one terminal notification: the
/// success after a logout that completed, and the notification of the
/// failure after one that failed. The one exception is a cancelled logout,
/// which ends silently.
pub proof fn law_one_terminal_notification(
    config: LogoutConfig,
    flags: SessionFlags,
    script: LogoutScriptView,
    now: u64,
)
    ensures
        ({
            let end = logout(config, flags, script, now);
            &&& terminal_notifications(end.trace) == notifications_due(end.machine.state)
            &&& terminal_notifications(end.trace).len() == if end.machine.state
                == LogoutStateView::Failed(LogoutErrorView::cancelled()) {
                0nat
            } else {
                1nat
            }
        }),
{
    law_logout_ends_in_terminal_state(config, flags, script, now);
}

/// A successful logout leaves the session invalidated and no logout in
/// progress.
pub proof fn law_flags_after_success(
    config: LogoutConfig,
    flags: SessionFlags,
    script: LogoutScriptView,
    now: u64,
)
    ensures
        ({
            let end = logout(config, flags, script, now);
            end.machine.state is Completed ==> {
                &&& end.flags.point_of_no_return
                &&& !end.flags.logout_in_progress
            }
        }),
{
    law_logout_ends_in_terminal_state(config, flags, script, now);
}

/// Whether the user's request to cancel arrives early enough to end the
/// logout: cancellation must be allowed, and the request must arrive before
/// the server is asked to sign out.
pub open spec fn cancels_early(config: LogoutConfig, script: LogoutScriptView, position: nat) -> bool {
    config.allow_cancellation && match script.cancel_during {
        Some(state) => state.position() == position,
        None => false,
    }
}

/// The state in which the logout that a fresh machine makes of a script
/// ends, step by step: the first thing that goes wrong decides, and where
/// nothing goes wrong the logout completes. A request to cancel during a
/// step before the sign-out goes wrong at the end of that step, if the step
/// itself succeeds.
pub open spec fn final_state(config: LogoutConfig, script: LogoutScriptView) -> LogoutStateView {
    let cancelled = LogoutStateView::Failed(LogoutErrorView::cancelled());
    let prechecks = prechecks_result(
        script.client_exists,
        script.sync_service_exists,
        script.has_access_token,
    );
    let stopped = stop_sync_result(script.sync_service_found);
    let signed_out = server_logout_result(script.server_logout);
    let tabs = close_tabs_result(script.close_tabs);
    let cleaned = clean_app_state_result(script.clean_app_state);
    let restarted = restart_runtime_result(script.runtime_restart);
    if cancels_early(config, script, 0) {
        cancelled
    } else if prechecks is Err {
        LogoutStateView::Failed(prechecks->Err_0)
    } else if cancels_early(config, script, 1) {
        cancelled
    } else if stopped is Err {
        LogoutStateView::Failed(stopped->Err_0)
    } else if cancels_early(config, script, 2) {
        cancelled
    } else if !commits(signed_out) {
        LogoutStateView::Failed(signed_out->Err_0)
    } else if config.is_desktop && tabs is Err {
        LogoutStateView::Failed(post_commit_failure(tabs->Err_0))
    } else if cleaned is Err {
        LogoutStateView::Failed(post_commit_failure(cleaned->Err_0))
    } else if restarted is Err {
        LogoutStateView::Failed(
            LogoutErrorView::Unrecoverable(UnrecoverableErrorView::RuntimeRestartFailed),
        )
    } else {
        LogoutStateView::Completed
    }
}

/// Every logout ends in the state that [`final_state`] gives for its
/// script. In particular it completes exactly where every step succeeds
/// and no request to cancel arrives in time.
pub proof fn law_logout_ends_in_final_state(
    config: LogoutConfig,
    flags: SessionFlags,
    script: LogoutScriptView,
    now: u64,
)
    ensures
        logout(config, flags, script, now).machine.state == final_state(config, script),
{
    let r0 = RunView::initial(config, flags, now);
    reveal_with_fuel(RunView::run, 2);
    let r1 = r0.next(script, now);
    lemma_round_moves_forward(r0, script, now);
    assert(r0.run(script, now, 10) == r1.run(script, now, 9));
    if r1.machine.state.is_terminal() {
        lemma_run_stops_at_end(r1, script, now, 9);
    } else {
        let r2 = r1.next(script, now);
        lemma_round_moves_forward(r1, script, now);
        assert(r1.run(script, now, 9) == r2.run(script, now, 8));
        if r2.machine.state.is_terminal() {
            lemma_run_stops_at_end(r2, script, now, 8);
        } else {
            let r3 = r2.next(script, now);
            lemma_round_moves_forward(r2, script, now);
            assert(r2.run(script, now, 8) == r3.run(script, now, 7));
            if r3.machine.state.is_terminal() {
                lemma_run_stops_at_end(r3, script, now, 7);
            } else {
                let r4 = r3.next(script, now);
                lemma_round_moves_forward(r3, script, now);
                assert(r3.run(script, now, 7) == r4.run(script, now, 6));
                if r4.machine.state.is_terminal() {
                    lemma_run_stops_at_end(r4, script, now, 6);
                } else {
                    let r5 = r4.next(script, now);
                    lemma_round_moves_forward(r4, script, now);
                    assert(r4.run(script, now, 6) == r5.run(script, now, 5));
                    if r5.machine.state.is_terminal() {
                        lemma_run_stops_at_end(r5, script, now, 5);
                    } else {
                        let r6 = r5.next(script, now);
                        lemma_round_moves_forward(r5, script, now);
                        assert(r5.run(script, now, 5) == r6.run(script, now, 4));
                        if r6.machine.state.is_terminal() {
                            lemma_run_stops_at_end(r6, script, now, 4);
                        } else {
                            let r7 = r6.next(script, now);
                            lemma_round_moves_forward(r6, script, now);
                            assert(r6.run(script, now, 4) == r7.run(script, now, 3));
                            if r7.machine.state.is_terminal() {
                                lemma_run_stops_at_end(r7, script, now, 3);
                            } else {
                                let r8 = r7.next(script, now);
                                lemma_round_moves_forward(r7, script, now);
                                assert(r7.run(script, now, 3) == r8.run(script, now, 2));
                                if r8.machine.state.is_terminal() {
                                    lemma_run_stops_at_end(r8, script, now, 2);
                                } else {
                                    let r9 = r8.next(script, now);
                                    lemma_round_moves_forward(r8, script, now);
                                    assert(r8.run(script, now, 2) == r9.run(script, now, 1));
                                    if r9.machine.state.is_terminal() {
                                        lemma_run_stops_at_end(r9, script, now, 1);
                                    } else {
                                        let r10 = r9.next(script, now);
                                        lemma_round_moves_forward(r9, script, now);
                                        assert(r9.run(script, now, 1) == r10.run(script, now, 0));
                                    }
                                }
                            }
                        }
                    }
                }
            }
        }
    }
}

/// Whether the numbers rise from each to the next.
pub open spec fn rising(numbers: Seq<u8>) -> bool {
    forall|i: int, j: int| 0 <= i < j < numbers.len() ==> numbers[i] < numbers[j]
}

/// While a logout has not failed, the percentages that its listeners have
/// been told rise from each to the next and stay within a hundred, at every
/// round and not only at the end.
pub proof fn law_percentages_rise_until_failure(
    config: LogoutConfig,
    flags: SessionFlags,
    script: LogoutScriptView,
    now: u64,
    rounds: nat,
)
    ensures
        ({
            let run = RunView::initial(config, flags, now).run(script, now, rounds);
            !(run.machine.state is Failed) ==> {
                &&& rising(percentages(run.trace))
                &&& forall|i: int|
                    0 <= i < percentages(run.trace).len() ==> percentages(run.trace)[i] <= 100
                &&& run.machine.progress.percentage == run.machine.state.percentage()
            }
        }),
{
    let fresh = RunView::initial(config, flags, now);
    lemma_initial_run_is_consistent(config, flags, now);
    lemma_run_keeps_consistent(fresh, script, now, rounds);
    let run = fresh.run(script, now, rounds);
    if run.machine.state is Idle {
        assert(percentages(run.trace) =~= Seq::empty());
    }
}

/// The requests among the effects whose outcome the machine waits for, in
/// order.
pub open spec fn awaited_requests(effects: Seq<LogoutEffectView>) -> Seq<LogoutRequest>
    decreases effects.len(),
{
    if effects.len() == 0 {
        Seq::empty()
    } else {
        let earlier = awaited_requests(effects.drop_last());
        match effects.last() {
            LogoutEffectView::Perform(request) => if request.awaits_response() {
                earlier.push(request)
            } else {
                earlier
            },
            _ => earlier,
        }
    }
}

/// The work whose outcome a machine in `state` waits for.
pub open spec fn work_of(state: LogoutStateView, config: LogoutConfig) -> Option<LogoutRequest> {
    match state {
        LogoutStateView::PreChecking => Some(LogoutRequest::CheckPrerequisites),
        LogoutStateView::StoppingSyncService => Some(LogoutRequest::StopSyncService),
        LogoutStateView::LoggingOutFromServer => Some(
            LogoutRequest::ServerLogout { timeout: config.server_logout_timeout },
        ),
        LogoutStateView::PointOfNoReturn => Some(LogoutRequest::DeleteLastUsedAccount),
        LogoutStateView::ClosingTabs => Some(
            LogoutRequest::CloseAllTabs { timeout: config.tab_close_timeout },
        ),
        LogoutStateView::CleaningAppState => Some(
            LogoutRequest::CleanAppState { timeout: config.app_state_cleanup_timeout },
        ),
        LogoutStateView::ShuttingDownTasks => Some(LogoutRequest::ShutdownBackgroundTasks),
        LogoutStateView::RestartingRuntime => Some(LogoutRequest::RestartRuntime),
        _ => None,
    }
}

/// What a step asks its driver to wait for: the work of the state that the
/// machine has entered, with the timeout of the configuration, and nothing
/// where the logout has ended.
pub open spec fn asks_for_work_of_new_state(step: StepView) -> bool {
    awaited_requests(step.effects) == match work_of(step.machine.state, step.machine.config) {
        Some(request) => seq![request],
        None => Seq::empty(),
    }
}

/// Every step of the machine asks its driver for exactly the work whose
/// outcome the machine then waits for. A driver that carries out the
/// effects of a step therefore has one answer to give where the logout goes
/// on, and none where it has ended.
pub proof fn law_step_asks_for_awaited_work(
    machine: MachineView,
    flags: SessionFlags,
    response: LogoutResponseView,
    now: u64,
)
    ensures
        machine.start(flags, now) matches Some(step) ==> asks_for_work_of_new_state(step),
        machine.advance(flags, response, now) matches Some(step) ==> asks_for_work_of_new_state(
            step,
        ),
{
    reveal_with_fuel(awaited_requests, 4);
    if let Some(step) = machine.start(flags, now) {
        lemma_awaited_requests_of_step(step);
    }
    if let Some(step) = machine.advance(flags, response, now) {
        lemma_awaited_requests_of_step(step);
    }
}

/// The awaited requests of a list of up to three effects, by cases on where
/// the one request that may be awaited stands.
proof fn lemma_awaited_requests_of_step(step: StepView)
    requires
        step.effects.len() <= 3,
    ensures
        step.effects.len() == 0 ==> awaited_requests(step.effects) == Seq::<LogoutRequest>::empty(),
        step.effects.len() == 1 ==> awaited_requests(step.effects) == awaited_requests(
            seq![step.effects[0]],
        ),
        step.effects.len() == 2 ==> awaited_requests(step.effects) == awaited_requests(
            seq![step.effects[0]],
        ) + awaited_requests(seq![step.effects[1]]),
        step.effects.len() == 3 ==> awaited_requests(step.effects) == awaited_requests(
            seq![step.effects[0]],
        ) + awaited_requests(seq![step.effects[1]]) + awaited_requests(seq![step.effects[2]]),
{
    reveal_with_fuel(awaited_requests, 4);
    let effects = step.effects;
    if effects.len() >= 1 {
        assert(seq![effects[0]].drop_last() =~= Seq::empty());
    }
    if effects.len() == 1 {
        assert(effects =~= seq![effects[0]]);
    }
    if effects.len() == 2 {
        assert(effects.drop_last() =~= seq![effects[0]]);
        assert(seq![effects[1]].drop_last() =~= Seq::empty());
        assert(seq![effects[1]].last() == effects[1]);
    }
    if effects.len() == 3 {
        assert(effects.drop_last().drop_last() =~= seq![effects[0]]);
        assert(seq![effects[1]].drop_last() =~= Seq::empty());
        assert(seq![effects[2]].drop_last() =~= Seq::empty());
        assert(effects.drop_last().last() == effects[1]);
    }
}

} // verus!
