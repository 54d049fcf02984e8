//! Whole logouts: the state machine run against collaborators whose answers
//! are known in advance.
//!
//! A [`LogoutScript`] holds the answer to every request that the machine can
//! make, and the state in which the user asks to cancel, if at all. Since
//! the machine decides on nothing else, the scripts describe every way a
//! logout can go.

use crate::login::logout_actions::{
    effects_view,
    AckOutcome,
    AckOutcomeView,
    LogoutEffect,
    LogoutEffectView,
    LogoutResponse,
    LogoutResponseView,
    RestartOutcome,
    RestartOutcomeView,
    ServerLogoutOutcome,
    ServerLogoutOutcomeView,
    SessionFlags,
};
use crate::login::logout_errors::LogoutError;
use crate::login::logout_model::{MachineView, StepView};
use crate::login::logout_state::{LogoutConfig, LogoutState, LogoutStateView};
use crate::login::logout_state_machine::{error_result_view, LogoutStateMachine};
use vstd::prelude::*;

verus! {

/// What the collaborators of a logout will answer, and when the user cancels.
#[derive(Debug)]
pub struct LogoutScript {
    /// Whether there is an active client session.
    pub client_exists: bool,
    /// Whether a sync service is running when the pre-checks look.
    pub sync_service_exists: bool,
    /// Whether the client holds an access token.
    pub has_access_token: bool,
    /// Whether there is a sync service when it is to be stopped.
    pub sync_service_found: bool,
    /// How the server answers the sign-out request.
    pub server_logout: ServerLogoutOutcome,
    /// Whether the marker of the last used account could be deleted.
    pub account_marker_deleted: bool,
    /// How the wait for the tabs to close ends.
    pub close_tabs: AckOutcome,
    /// How the wait for the cleaning of the application state ends.
    pub clean_app_state: AckOutcome,
    /// How the restart of the runtime ends.
    pub runtime_restart: RestartOutcome,
    /// The state during which the user asks to cancel: the request arrives
    /// while the work of that state is under way (for `Idle`, before the
    /// logout starts).
    pub cancel_during: Option<LogoutState>,
}

/// The mathematical value of a [`LogoutScript`].
pub struct LogoutScriptView {
    pub client_exists: bool,
    pub sync_service_exists: bool,
    pub has_access_token: bool,
    pub sync_service_found: bool,
    pub server_logout: ServerLogoutOutcomeView,
    pub account_marker_deleted: bool,
    pub close_tabs: AckOutcomeView,
    pub clean_app_state: AckOutcomeView,
    pub runtime_restart: RestartOutcomeView,
    pub cancel_during: Option<LogoutStateView>,
}

impl View for LogoutScript {
    type V = LogoutScriptView;

    open spec fn view(&self) -> LogoutScriptView {
        LogoutScriptView {
            client_exists: self.client_exists,
            sync_service_exists: self.sync_service_exists,
            has_access_token: self.has_access_token,
            sync_service_found: self.sync_service_found,
            server_logout: self.server_logout@,
            account_marker_deleted: self.account_marker_deleted,
            close_tabs: self.close_tabs@,
            clean_app_state: self.clean_app_state@,
            runtime_restart: self.runtime_restart@,
            cancel_during: match self.cancel_during {
                Some(state) => Some(state@),
                None => None,
            },
        }
    }
}

impl LogoutScriptView {
    /// Whether the user asks to cancel while the logout is in `state`.
    pub open spec fn cancels_during(self, state: LogoutStateView) -> bool {
        match self.cancel_during {
            Some(at) => at.position() == state.position(),
            None => false,
        }
    }

    /// The answer to the request that the machine makes on entering `state`.
    pub open spec fn response(self, state: LogoutStateView) -> Option<LogoutResponseView> {
        match state {
            LogoutStateView::PreChecking => Some(
                LogoutResponseView::Prerequisites {
                    client_exists: self.client_exists,
                    sync_service_exists: self.sync_service_exists,
                    has_access_token: self.has_access_token,
                },
            ),
            LogoutStateView::StoppingSyncService => Some(
                LogoutResponseView::SyncServiceStopped { found: self.sync_service_found },
            ),
            LogoutStateView::LoggingOutFromServer => Some(
                LogoutResponseView::ServerLogout(self.server_logout),
            ),
            LogoutStateView::PointOfNoReturn => Some(
                LogoutResponseView::LastUsedAccountDeleted { deleted: self.account_marker_deleted },
            ),
            LogoutStateView::ClosingTabs => Some(LogoutResponseView::TabsClosed(self.close_tabs)),
            LogoutStateView::CleaningAppState => Some(
                LogoutResponseView::AppStateCleaned(self.clean_app_state),
            ),
            LogoutStateView::ShuttingDownTasks => Some(LogoutResponseView::BackgroundTasksShutDown),
            LogoutStateView::RestartingRuntime => Some(
                LogoutResponseView::RuntimeRestarted(self.runtime_restart),
            ),
            _ => None,
        }
    }
}

impl LogoutScript {
    /// Whether the user asks to cancel while the logout is in `state`.
    pub fn cancels_during(&self, state: &LogoutState) -> (cancels: bool)
        ensures
            cancels == self@.cancels_during(state@),
    {
        match &self.cancel_during {
            Some(at) => at.position() == state.position(),
            None => false,
        }
    }

    /// The answer to the request that the machine makes on entering `state`;
    /// `None` for `Idle` and the terminal states, in which it makes none.
    pub fn response(&self, state: &LogoutState) -> (response: Option<LogoutResponse>)
        ensures
            match response {
                Some(response) => self@.response(state@) == Some(response@),
                None => self@.response(state@) is None,
            },
    {
        match state {
            LogoutState::PreChecking => Some(
                LogoutResponse::Prerequisites {
                    client_exists: self.client_exists,
                    sync_service_exists: self.sync_service_exists,
                    has_access_token: self.has_access_token,
                },
            ),
            LogoutState::StoppingSyncService => Some(
                LogoutResponse::SyncServiceStopped { found: self.sync_service_found },
            ),
            LogoutState::LoggingOutFromServer => Some(
                LogoutResponse::ServerLogout(self.server_logout.clone()),
            ),
            LogoutState::PointOfNoReturn => Some(
                LogoutResponse::LastUsedAccountDeleted { deleted: self.account_marker_deleted },
            ),
            LogoutState::ClosingTabs => Some(LogoutResponse::TabsClosed(self.close_tabs.clone())),
            LogoutState::CleaningAppState => Some(
                LogoutResponse::AppStateCleaned(self.clean_app_state.clone()),
            ),
            LogoutState::ShuttingDownTasks => Some(LogoutResponse::BackgroundTasksShutDown),
            LogoutState::RestartingRuntime => Some(
                LogoutResponse::RuntimeRestarted(self.runtime_restart.clone()),
            ),
            _ => None,
        }
    }
}

/// A logout under way: the machine, the flags, and everything the driver has
/// been told to do so far.
pub struct RunView {
    pub machine: MachineView,
    pub flags: SessionFlags,
    pub trace: Seq<LogoutEffectView>,
}

impl RunView {
    /// A logout that has not started: a fresh machine and an empty trace.
    pub open spec fn initial(config: LogoutConfig, flags: SessionFlags, now: u64) -> RunView {
        RunView { machine: MachineView::initial(config, now), flags, trace: Seq::empty() }
    }

    /// The run after a step of the machine.
    pub open spec fn after(self, step: StepView) -> RunView {
        RunView { machine: step.machine, flags: step.flags, trace: self.trace + step.effects }
    }

    /// One round of the driver: the user's request to cancel is passed on if
    /// it arrives now, then the machine takes its step on the scripted
    /// answer. A run in a terminal state stays as it is.
    pub open spec fn next(self, script: LogoutScriptView, now: u64) -> RunView {
        let machine = if script.cancels_during(self.machine.state) {
            self.machine.request_cancellation()
        } else {
            self.machine
        };
        let step = match script.response(machine.state) {
            Some(response) => machine.advance(self.flags, response, now),
            None => machine.start(self.flags, now),
        };
        match step {
            Some(step) => self.after(step),
            None => self,
        }
    }

    /// The run after at most `rounds` rounds, stopping at a terminal state.
    pub open spec fn run(self, script: LogoutScriptView, now: u64, rounds: nat) -> RunView
        decreases rounds,
    {
        if rounds == 0 || self.machine.state.is_terminal() {
            self
        } else {
            self.next(script, now).run(script, now, (rounds - 1) as nat)
        }
    }

    /// Where the run ends. Ten rounds are enough for every logout: each
    /// round moves the machine to a later state, and there are ten states
    /// after `Idle`.
    pub open spec fn finish(self, script: LogoutScriptView, now: u64) -> RunView {
        self.run(script, now, 10)
    }

    /// The result of a logout that has ended.
    pub open spec fn result(self) -> Result<(), crate::login::logout_errors::LogoutErrorView> {
        match self.machine.state {
            LogoutStateView::Failed(error) => Err(error),
            _ => Ok(()),
        }
    }
}

/// Every round of a run that has not ended moves the machine to a later
/// state: a logout cannot stall or go back.
pub proof fn lemma_round_moves_forward(run: RunView, script: LogoutScriptView, now: u64)
    requires
        !run.machine.state.is_terminal(),
    ensures
        run.next(script, now).machine.state.position() > run.machine.state.position(),
{
}

/// A run is not changed by rounds that come after its end.
pub proof fn lemma_run_stops_at_end(run: RunView, script: LogoutScriptView, now: u64, rounds: nat)
    requires
        run.machine.state.is_terminal(),
    ensures
        run.run(script, now, rounds) == run,
{
}

/// A run of enough rounds ends in a terminal state.
pub proof fn lemma_run_ends(run: RunView, script: LogoutScriptView, now: u64, rounds: nat)
    requires
        run.machine.state.position() + rounds >= 10,
    ensures
        run.run(script, now, rounds).machine.state.is_terminal(),
    decreases rounds,
{
    if rounds == 0 || run.machine.state.is_terminal() {
    } else {
        lemma_round_moves_forward(run, script, now);
        lemma_run_ends(run.next(script, now), script, now, (rounds - 1) as nat);
    }
}

impl LogoutStateMachine {
    /// The machine, the flags and a trace of effects, taken together.
    pub open spec fn run_view(&self, flags: SessionFlags, trace: Vec<LogoutEffect>) -> RunView {
        RunView { machine: self@, flags, trace: effects_view(trace@) }
    }

    /// Runs the logout to its end against scripted collaborators, every step
    /// at time `now`. Returns the result of the logout, and the effects of
    /// all steps in order. The machine and the flags are left as the logout
    /// leaves them.
    pub fn execute(&mut self, flags: &mut SessionFlags, script: &LogoutScript, now: u64) -> (outcome: (
        Result<(), LogoutError>,
        Vec<LogoutEffect>,
    ))
        ensures
            final(self).run_view(*final(flags), outcome.1) == (RunView {
                machine: old(self)@,
                flags: *old(flags),
                trace: Seq::empty(),
            }).finish(script@, now),
            final(self)@.state.is_terminal(),
            error_result_view(outcome.0) == final(self).run_view(*final(flags), outcome.1).result(),
    {
        let mut trace: Vec<LogoutEffect> = Vec::new();
        let mut rounds: u8 = 10;
        let ghost start = self.run_view(*flags, trace);
        assert(start.trace =~= Seq::empty());
        proof {
            lemma_run_ends(start, script@, now, 10);
        }
        while rounds > 0 && !self.current_state().is_terminal()
            invariant
                rounds <= 10,
                self.run_view(*flags, trace).run(script@, now, rounds as nat) == start.finish(
                    script@,
                    now,
                ),
            decreases rounds,
        {
            let ghost before = self.run_view(*flags, trace);
            let state = self.current_state();
            if script.cancels_during(&state) {
                self.request_cancellation();
            }
            let step = match script.response(&state) {
                Some(response) => self.advance(flags, response, now),
                None => self.start(flags, now),
            };
            match step {
                Some(mut effects) => {
                    let ghost earlier = trace@;
                    let ghost added = effects@;
                    trace.append(&mut effects);
                    assert(effects_view(trace@) =~= effects_view(earlier) + effects_view(added));
                },
                None => {},
            }
            assert(self.run_view(*flags, trace) == before.next(script@, now));
            rounds = rounds - 1;
        }
        let result = match self.current_state() {
            LogoutState::Failed(error) => Err(error),
            _ => Ok(()),
        };
        (result, trace)
    }
}

} // verus!
