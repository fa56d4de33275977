//! The startup orchestrator: the decisions of the top-level coroutine that
//! takes a resolved connection to a ready (or failed) server and a revealed
//! main window.
//!
//! The caller runs the clocks, sockets and processes; this machine decides.
//! It emits each progress step exactly once and in order, settles the shared
//! readiness result exactly once on every path, hands the spawned child's
//! handle out for killing on the failure path, transfers it into the
//! process-wide slot on the success path, and decides whether a loading
//! window is shown from the one-second display race — a decision that never
//! cancels the underlying readiness work.

use vstd::prelude::*;

use crate::init_step::{InitStep, Progress};
use crate::log_buffer::{joined, get_logs, LogBuffer};
use crate::ready::{ReadyCell, ServerReadyData};
use crate::server_state::{kill_sidecar, ChildHandle, ServerState};
use crate::resolver::ServerConnection;

verus! {

/// How long a spawned server has to answer its health check before the
/// child is killed and the failure is surfaced.
pub const HEALTH_CHECK_TIMEOUT_SECS: u64 = 30;

/// How long the display race waits for readiness before a loading window is
/// shown instead of the main window directly.
pub const DISPLAY_DECISION_TIMEOUT_SECS: u64 = 1;

/// The fixed settle delay after which a created loading window counts as
/// shown.
pub const LOADING_SETTLE_DELAY_SECS: u64 = 1;

/// How often the storage marker file is polled while the wait is on.
pub const STORAGE_POLL_INTERVAL_SECS: u64 = 1;

/// The message surfaced when a spawned server never became healthy: a fixed
/// explanation followed by the captured log tail.
pub open spec fn spawn_failure_message(logs: Seq<char>) -> Seq<char> {
    "Failed to spawn OpenCode Server. Logs:\n"@ + logs
}

/// Builds the health-failure diagnostic from the captured log buffer.
pub fn spawn_failure_text(logs: &LogBuffer) -> (r: String)
    ensures
        r@ == spawn_failure_message(joined(logs@)),
{
    let mut m = String::from_str("Failed to spawn OpenCode Server. Logs:\n");
    let tail = get_logs(logs);
    m.append(tail.as_str());
    m
}

/// Where the orchestrator stands.
pub enum OrchPhase {
    /// Waiting for the connection resolver.
    Resolving,
    /// A child was spawned, the storage wait is enabled and unsatisfied:
    /// waiting for the marker file before the health check starts.
    StorageWait { url: String, password: Option<String>, child: ChildHandle },
    /// The spawned server's bounded health check is running.
    HealthWait { url: String, password: Option<String>, child: ChildHandle },
    /// The readiness result has settled; `Done` is not yet emitted.
    ReadyPhase,
    /// `Done` is emitted; waiting for the loading window's acknowledgment.
    AwaitLoadingAck,
    /// Everything is settled; the main window is to be created or reused.
    Finishing,
    /// The run is over.
    Finished,
}

/// What the caller must do after feeding a connection or a marker poll in.
pub enum ConnectAction {
    /// An existing server is used: readiness has already settled, nothing
    /// to supervise.
    UseExisting,
    /// Poll for the storage marker file and feed the outcome back in.
    PollSqlite,
    /// Start the bounded health check of the spawned server at this URL
    /// with this credential.
    StartHealthCheck { url: String, password: Option<String> },
}

/// The startup orchestrator's state machine.
pub struct Orchestrator {
    progress: Progress,
    state: ServerState,
    phase: OrchPhase,
    sqlite_enabled: bool,
    display_decided: bool,
    loading_shown: bool,
}

/// The settled readiness result is `Ok` with exactly this URL and
/// credential.
pub open spec fn ready_ok_with(st: ServerState, url: Seq<char>, password: Option<Seq<char>>) -> bool {
    match st.status_spec().value_spec() {
        Some(v) => match v {
            Ok(d) => d.url@ == url && d.password.deep_view() == password,
            Err(_) => false,
        },
        None => false,
    }
}

/// The settled readiness result is `Err` with exactly this message.
pub open spec fn ready_err_with(st: ServerState, message: Seq<char>) -> bool {
    match st.status_spec().value_spec() {
        Some(v) => match v {
            Ok(_) => false,
            Err(e) => e@ == message,
        },
        None => false,
    }
}

impl Orchestrator {
    pub closed spec fn progress_spec(&self) -> Progress {
        self.progress
    }

    pub closed spec fn state_spec(&self) -> ServerState {
        self.state
    }

    pub closed spec fn phase_spec(&self) -> OrchPhase {
        self.phase
    }

    pub closed spec fn sqlite_enabled_spec(&self) -> bool {
        self.sqlite_enabled
    }

    pub closed spec fn display_decided_spec(&self) -> bool {
        self.display_decided
    }

    pub closed spec fn loading_shown_spec(&self) -> bool {
        self.loading_shown
    }

    /// The machine's invariant, tying the phase to the progress signal, the
    /// readiness cell and the child slot: before readiness settles nothing
    /// is in the slot and no step beyond the waiting ones was emitted;
    /// `Done` is current exactly from the moment the run completes; the
    /// loading-acknowledgment phase exists only when a loading window was
    /// shown.
    pub open spec fn wf(&self) -> bool {
        &&& self.progress_spec().wf()
        &&& (self.loading_shown_spec() ==> self.display_decided_spec())
        &&& match self.phase_spec() {
            OrchPhase::Resolving => {
                &&& self.progress_spec().current_spec() == InitStep::ServerWaiting
                &&& !self.state_spec().status_spec().is_settled()
                &&& self.state_spec().child_spec() is None
            },
            OrchPhase::StorageWait { .. } => {
                &&& self.progress_spec().current_spec() == InitStep::SqliteWaiting
                &&& self.sqlite_enabled_spec()
                &&& !self.state_spec().status_spec().is_settled()
                &&& self.state_spec().child_spec() is None
            },
            OrchPhase::HealthWait { .. } => {
                &&& self.progress_spec().current_spec() != InitStep::Done
                &&& !self.state_spec().status_spec().is_settled()
                &&& self.state_spec().child_spec() is None
            },
            OrchPhase::ReadyPhase => {
                &&& self.progress_spec().current_spec() != InitStep::Done
                &&& self.state_spec().status_spec().is_settled()
            },
            OrchPhase::AwaitLoadingAck => {
                &&& self.progress_spec().current_spec() == InitStep::Done
                &&& self.state_spec().status_spec().is_settled()
                &&& self.display_decided_spec()
                &&& self.loading_shown_spec()
            },
            OrchPhase::Finishing => {
                &&& self.progress_spec().current_spec() == InitStep::Done
                &&& self.state_spec().status_spec().is_settled()
                &&& self.display_decided_spec()
            },
            OrchPhase::Finished => {
                &&& self.progress_spec().current_spec() == InitStep::Done
                &&& self.state_spec().status_spec().is_settled()
            },
        }
    }

    /// Starts a run: `ServerWaiting` is emitted, nothing is settled, no
    /// child is registered, no display decision is made yet.
    pub fn new(sqlite_enabled: bool) -> (r: Orchestrator)
        ensures
            r.wf(),
            r.phase_spec() is Resolving,
            r.sqlite_enabled_spec() == sqlite_enabled,
            !r.display_decided_spec(),
            !r.loading_shown_spec(),
            r.progress_spec().history() == seq![InitStep::ServerWaiting],
            !r.state_spec().status_spec().is_settled(),
    {
        Orchestrator {
            progress: Progress::new(),
            state: ServerState::new(None, ReadyCell::new()),
            phase: OrchPhase::Resolving,
            sqlite_enabled,
            display_decided: false,
            loading_shown: false,
        }
    }

    /// The step a freshly attached progress subscriber observes.
    pub fn current_step(&self) -> (s: InitStep)
        ensures
            s == self.progress_spec().current_spec(),
    {
        self.progress.current()
    }

    /// Feeds in the resolved connection together with the storage marker's
    /// state at this moment. An existing server settles readiness at once
    /// with no credential and skips all health gating. A spawned server
    /// first waits for the storage marker where that wait is enabled and
    /// unsatisfied — emitting `SqliteWaiting` — and otherwise goes straight
    /// to its bounded health check.
    pub fn on_connection(&mut self, conn: ServerConnection, sqlite_exists: bool) -> (a:
        ConnectAction)
        requires
            old(self).wf(),
            old(self).phase_spec() is Resolving,
        ensures
            final(self).wf(),
            final(self).sqlite_enabled_spec() == old(self).sqlite_enabled_spec(),
            final(self).display_decided_spec() == old(self).display_decided_spec(),
            final(self).loading_shown_spec() == old(self).loading_shown_spec(),
            conn matches ServerConnection::Existing { url } ==> {
                &&& final(self).phase_spec() is ReadyPhase
                &&& a is UseExisting
                &&& ready_ok_with(final(self).state_spec(), url@, None)
                &&& final(self).progress_spec() == old(self).progress_spec()
            },
            conn matches ServerConnection::CLI { url, password, child } ==> {
                &&& final(self).state_spec().child_spec() is None
                &&& !final(self).state_spec().status_spec().is_settled()
                &&& if old(self).sqlite_enabled_spec() && !sqlite_exists {
                    &&& a is PollSqlite
                    &&& final(self).phase_spec() == (OrchPhase::StorageWait { url, password, child })
                    &&& final(self).progress_spec().history() == old(
                        self,
                    ).progress_spec().history().push(InitStep::SqliteWaiting)
                } else {
                    &&& health_check_started(a, url@, password.deep_view())
                    &&& final(self).phase_spec() == (OrchPhase::HealthWait { url, password, child })
                    &&& final(self).progress_spec() == old(self).progress_spec()
                }
            },
    {
        match conn {
            ServerConnection::Existing { url } => {
                self.phase = OrchPhase::ReadyPhase;
                let _ = self.state.settle_status(Ok(ServerReadyData { url, password: None }));
                ConnectAction::UseExisting
            },
            ServerConnection::CLI { url, password, child } => {
                if self.sqlite_enabled && !sqlite_exists {
                    self.progress.advance(InitStep::SqliteWaiting);
                    self.phase = OrchPhase::StorageWait { url, password, child };
                    ConnectAction::PollSqlite
                } else {
                    let probe_url = url.clone();
                    let probe_password = clone_opt_string(&password);
                    self.phase = OrchPhase::HealthWait { url, password, child };
                    ConnectAction::StartHealthCheck { url: probe_url, password: probe_password }
                }
            },
        }
    }

    /// Feeds in one storage-marker poll. The wait is unbounded by design:
    /// until the marker file appears the answer is to poll again; once it
    /// appears, the health check starts.
    pub fn on_sqlite_poll(&mut self, exists: bool) -> (a: ConnectAction)
        requires
            old(self).wf(),
            old(self).phase_spec() is StorageWait,
        ensures
            final(self).wf(),
            final(self).progress_spec() == old(self).progress_spec(),
            final(self).sqlite_enabled_spec() == old(self).sqlite_enabled_spec(),
            final(self).display_decided_spec() == old(self).display_decided_spec(),
            final(self).loading_shown_spec() == old(self).loading_shown_spec(),
            final(self).state_spec() == old(self).state_spec(),
            !exists ==> {
                &&& a is PollSqlite
                &&& final(self).phase_spec() == old(self).phase_spec()
            },
            exists ==> {
                &&& old(self).phase_spec() matches OrchPhase::StorageWait { url, password, child }
                    ==> final(self).phase_spec() == (OrchPhase::HealthWait { url, password, child })
                        && health_check_started(a, url@, password.deep_view())
            },
    {
        if !exists {
            return ConnectAction::PollSqlite;
        }
        let mut ph = OrchPhase::ReadyPhase;
        core::mem::swap(&mut ph, &mut self.phase);
        match ph {
            OrchPhase::StorageWait { url, password, child } => {
                let probe_url = url.clone();
                let probe_password = clone_opt_string(&password);
                self.phase = OrchPhase::HealthWait { url, password, child };
                ConnectAction::StartHealthCheck { url: probe_url, password: probe_password }
            },
            _ => vstd::pervasive::unreached(),
        }
    }

    /// The spawned server answered its health check in time: the child's
    /// handle moves into the process-wide slot — so shutdown can reach it —
    /// and readiness settles `Ok` with the spawned URL and credential.
    pub fn on_health_success(&mut self)
        requires
            old(self).wf(),
            old(self).phase_spec() is HealthWait,
        ensures
            final(self).wf(),
            final(self).phase_spec() is ReadyPhase,
            final(self).progress_spec() == old(self).progress_spec(),
            final(self).sqlite_enabled_spec() == old(self).sqlite_enabled_spec(),
            final(self).display_decided_spec() == old(self).display_decided_spec(),
            final(self).loading_shown_spec() == old(self).loading_shown_spec(),
            old(self).phase_spec() matches OrchPhase::HealthWait { url, password, child } ==> {
                &&& ready_ok_with(final(self).state_spec(), url@, password.deep_view())
                &&& final(self).state_spec().child_spec() == Some(child)
            },
    {
        let mut ph = OrchPhase::ReadyPhase;
        core::mem::swap(&mut ph, &mut self.phase);
        match ph {
            OrchPhase::HealthWait { url, password, child } => {
                self.state.set_child(Some(child));
                let _ = self.state.settle_status(Ok(ServerReadyData { url, password }));
                self.phase = OrchPhase::ReadyPhase;
            },
            _ => vstd::pervasive::unreached(),
        }
    }

    /// The spawned server never became healthy within the bound: the
    /// child's handle is handed back so the caller kills it, and readiness
    /// settles `Err` carrying the captured log tail — at most the buffer's
    /// cap of lines, never a silent hang. The child never reaches the
    /// process-wide slot on this path.
    pub fn on_health_timeout(&mut self, logs: &LogBuffer) -> (victim: ChildHandle)
        requires
            old(self).wf(),
            old(self).phase_spec() is HealthWait,
        ensures
            final(self).wf(),
            final(self).phase_spec() is ReadyPhase,
            final(self).progress_spec() == old(self).progress_spec(),
            final(self).sqlite_enabled_spec() == old(self).sqlite_enabled_spec(),
            final(self).display_decided_spec() == old(self).display_decided_spec(),
            final(self).loading_shown_spec() == old(self).loading_shown_spec(),
            final(self).state_spec().child_spec() is None,
            ready_err_with(final(self).state_spec(), spawn_failure_message(joined(logs@))),
            old(self).phase_spec() matches OrchPhase::HealthWait { child, .. } ==> victim == child,
    {
        let message = spawn_failure_text(logs);
        let mut ph = OrchPhase::ReadyPhase;
        core::mem::swap(&mut ph, &mut self.phase);
        match ph {
            OrchPhase::HealthWait { url: _, password: _, child } => {
                let _ = self.state.settle_status(Err(message));
                self.phase = OrchPhase::ReadyPhase;
                child
            },
            _ => vstd::pervasive::unreached(),
        }
    }

    /// Decides which window to show from the one-second display race: ready
    /// in time means the main window directly, not ready in time means a
    /// loading window first. The decision only observes the readiness work,
    /// it never cancels it.
    pub fn decide_display(&mut self, ready_within_timeout: bool) -> (show_loading: bool)
        requires
            old(self).wf(),
            !old(self).display_decided_spec(),
        ensures
            final(self).wf(),
            show_loading == !ready_within_timeout,
            final(self).display_decided_spec(),
            final(self).loading_shown_spec() == show_loading,
            final(self).phase_spec() == old(self).phase_spec(),
            final(self).progress_spec() == old(self).progress_spec(),
            final(self).state_spec() == old(self).state_spec(),
            final(self).sqlite_enabled_spec() == old(self).sqlite_enabled_spec(),
    {
        self.display_decided = true;
        self.loading_shown = !ready_within_timeout;
        !ready_within_timeout
    }

    /// The readiness result has been awaited to completion: emit `Done` —
    /// the one and only time it is emitted this run. If a loading window
    /// was shown, its acknowledgment is awaited next; otherwise the run
    /// goes straight to revealing the main window.
    pub fn complete(&mut self)
        requires
            old(self).wf(),
            old(self).phase_spec() is ReadyPhase,
            old(self).display_decided_spec(),
        ensures
            final(self).wf(),
            final(self).progress_spec().current_spec() == InitStep::Done,
            final(self).progress_spec().history() == old(self).progress_spec().history().push(
                InitStep::Done,
            ),
            final(self).state_spec() == old(self).state_spec(),
            final(self).loading_shown_spec() == old(self).loading_shown_spec(),
            final(self).phase_spec() == (if old(self).loading_shown_spec() {
                OrchPhase::AwaitLoadingAck
            } else {
                OrchPhase::Finishing
            }),
    {
        self.progress.advance(InitStep::Done);
        if self.loading_shown {
            self.phase = OrchPhase::AwaitLoadingAck;
        } else {
            self.phase = OrchPhase::Finishing;
        }
    }

    /// The loading window acknowledged that it finished its exit animation.
    pub fn on_loading_ack(&mut self)
        requires
            old(self).wf(),
            old(self).phase_spec() is AwaitLoadingAck,
        ensures
            final(self).wf(),
            final(self).phase_spec() is Finishing,
            final(self).progress_spec() == old(self).progress_spec(),
            final(self).state_spec() == old(self).state_spec(),
            final(self).loading_shown_spec() == old(self).loading_shown_spec(),
    {
        self.phase = OrchPhase::Finishing;
    }

    /// Ends the run: the main window is created (or reused), and the
    /// loading window — exactly when one was shown — is to be closed.
    pub fn finish(&mut self) -> (close_loading: bool)
        requires
            old(self).wf(),
            old(self).phase_spec() is Finishing,
        ensures
            final(self).wf(),
            final(self).phase_spec() is Finished,
            close_loading == old(self).loading_shown_spec(),
            final(self).progress_spec() == old(self).progress_spec(),
            final(self).state_spec() == old(self).state_spec(),
    {
        self.phase = OrchPhase::Finished;
        self.loading_shown
    }

    /// The process-wide shutdown hook: takes the supervised child, if any,
    /// for killing. Callable at any point and any number of times; only the
    /// first call after a successful health check yields a handle.
    pub fn shutdown(&mut self) -> (victim: Option<ChildHandle>)
        requires
            old(self).wf(),
        ensures
            final(self).wf(),
            victim == old(self).state_spec().child_spec(),
            final(self).state_spec().child_spec() is None,
            final(self).state_spec().status_spec() == old(self).state_spec().status_spec(),
            final(self).phase_spec() == old(self).phase_spec(),
            final(self).progress_spec() == old(self).progress_spec(),
    {
        kill_sidecar(&mut self.state)
    }

    /// Whether the readiness result has settled.
    pub fn ready_settled(&self) -> (r: bool)
        ensures
            r == self.state_spec().status_spec().is_settled(),
    {
        self.state.status_settled()
    }

    /// The UI-facing await of the settled readiness result: every call
    /// yields the same settled value.
    pub fn await_initialization(&self) -> (r: Result<ServerReadyData, String>)
        requires
            self.state_spec().status_spec().is_settled(),
        ensures
            Some(r) == self.state_spec().status_spec().value_spec(),
    {
        crate::server_state::await_initialization(&self.state)
    }
}

/// The action carries the health-check target: this URL, this credential.
pub open spec fn health_check_started(
    a: ConnectAction,
    url: Seq<char>,
    password: Option<Seq<char>>,
) -> bool {
    match a {
        ConnectAction::StartHealthCheck { url: u, password: p } => u@ == url && p.deep_view()
            == password,
        _ => false,
    }
}

/// Copies an optional credential exactly.
fn clone_opt_string(o: &Option<String>) -> (r: Option<String>)
    ensures
        r == *o,
{
    match o {
        Some(s) => Some(s.clone()),
        None => None,
    }
}

} // verus!
