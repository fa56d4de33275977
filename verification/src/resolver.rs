//! Deciding how to connect to a server: reuse a user-configured custom URL,
//! reuse a server already listening on the local port, or spawn a fresh one.
//!
//! The resolver is a small state machine. The caller performs the outside
//! work each returned [`ResolverAction`] names — probing a URL, resolving a
//! port, spawning a process — and feeds the outcome back in. The tie-break
//! is deliberate and verified: explicit user configuration wins, then
//! "don't double-spawn" detection, then a fresh spawn as the fallback; a
//! spawn is requested at most once per run, and never when the custom URL
//! answered healthy.

use vstd::prelude::*;

use crate::port::{dec_str, u16_to_dec};
use crate::server_state::ChildHandle;

verus! {

/// The connection the resolver settles on: a server that already exists
/// somewhere (custom or local, nothing owned), or a freshly spawned child
/// serving on the local port with a fresh shared-secret credential.
pub enum ServerConnection {
    Existing { url: String },
    CLI { url: String, password: Option<String>, child: ChildHandle },
}

/// The URL of the local server on a given port.
pub open spec fn local_url_spec(port: u16) -> Seq<char> {
    "http://127.0.0.1:"@ + dec_str(port as nat)
}

/// Builds the local server URL for a port.
pub fn local_url(port: u16) -> (r: String)
    ensures
        r@ == local_url_spec(port),
{
    let mut s = String::from_str("http://127.0.0.1:");
    let digits = u16_to_dec(port);
    s.append(digits.as_str());
    s
}

/// A fresh random shared-secret credential for a spawned server.
///
/// Relies on `uuid::Uuid::new_v4` and its `Display` form: a version-4 UUID
/// rendered hyphenated and lowercase, always 36 characters. The value is
/// random, so nothing but its shape is stated.
#[verifier::external_body]
fn fresh_credential() -> (r: String)
    ensures
        r@.len() == 36,
{
    uuid::Uuid::new_v4().to_string()
}

/// Where the resolver stands, with the data the next step needs.
pub enum ResolverPhase {
    /// Waiting on the health probe of the user-configured URL.
    ProbingCustom { url: String },
    /// No usable custom server; a local port must be resolved.
    NeedPort,
    /// Waiting on the health probe of the local URL.
    ProbingLocal { port: u16, url: String },
    /// Waiting for the spawn of a fresh local server to complete.
    Spawning { port: u16, url: String, password: String },
    /// The connection has been delivered.
    Resolved,
}

/// The outside work the caller must perform next.
pub enum ResolverAction {
    /// Probe this URL, surfacing a retry prompt if it is unreachable.
    ProbeCustom { url: String },
    /// Resolve the local port (configuration override or ephemeral bind).
    ResolvePort,
    /// Probe this URL once, without any prompt.
    ProbeLocal { url: String },
    /// Spawn the server process on this port with this credential.
    Spawn { port: u16, url: String, password: String },
    /// Resolution is complete.
    Connected { conn: ServerConnection },
}

/// What a well-formed spawn request looks like: the action names the probed
/// port, the matching local URL and a fresh 36-character credential, and the
/// machine holds exactly that data while the spawn is in flight.
pub open spec fn spawn_requested(a: ResolverAction, port: u16, post_phase: ResolverPhase) -> bool {
    match a {
        ResolverAction::Spawn { port: p, url, password } => {
            &&& p == port
            &&& url@ == local_url_spec(port)
            &&& password@.len() == 36
            &&& post_phase == (ResolverPhase::Spawning { port: p, url, password })
        },
        _ => false,
    }
}

/// The connection-resolution state machine.
pub struct Resolver {
    phase: ResolverPhase,
    /// How many spawns have been requested so far.
    spawns: Ghost<int>,
    /// The outcome of the custom-URL probe, once it happened.
    custom_result: Ghost<Option<bool>>,
}

impl Resolver {
    pub closed spec fn phase_spec(&self) -> ResolverPhase {
        self.phase
    }

    /// How many times this resolver has asked for a process to be spawned.
    pub closed spec fn spawn_count(&self) -> int {
        self.spawns@
    }

    /// What the custom-URL probe reported, if one was made.
    pub closed spec fn custom_result_spec(&self) -> Option<bool> {
        self.custom_result@
    }

    /// The machine's invariant: port-bearing phases carry the matching local
    /// URL and a real port; a spawn is requested at most once, and only
    /// after the probes came back negative; a healthy custom URL ends the
    /// run with no spawn at all.
    pub open spec fn wf(&self) -> bool {
        &&& match self.phase_spec() {
            ResolverPhase::ProbingCustom { .. } => self.spawn_count() == 0,
            ResolverPhase::NeedPort => self.spawn_count() == 0,
            ResolverPhase::ProbingLocal { port, url } => {
                &&& self.spawn_count() == 0
                &&& url@ == local_url_spec(port)
                &&& port >= 1
            },
            ResolverPhase::Spawning { port, url, .. } => {
                &&& self.spawn_count() == 1
                &&& url@ == local_url_spec(port)
                &&& port >= 1
            },
            ResolverPhase::Resolved => 0 <= self.spawn_count() <= 1,
        }
        &&& (self.custom_result_spec() == Some(true) ==> self.phase_spec() is Resolved
            && self.spawn_count() == 0)
    }

    /// Starts a resolution. With a configured custom URL the first step is
    /// to probe it (prompting on failure); without one, the local port is
    /// resolved straight away.
    pub fn start(custom_url: Option<String>) -> (r: (Resolver, ResolverAction))
        ensures
            r.0.wf(),
            r.0.spawn_count() == 0,
            r.0.custom_result_spec() is None,
            match custom_url {
                Some(u) => {
                    &&& r.0.phase_spec() matches ResolverPhase::ProbingCustom { url } && url@ == u@
                    &&& r.1 matches ResolverAction::ProbeCustom { url } && url@ == u@
                },
                None => {
                    &&& r.0.phase_spec() is NeedPort
                    &&& r.1 is ResolvePort
                },
            },
    {
        match custom_url {
            Some(u) => {
                let probe = u.clone();
                (
                    Resolver {
                        phase: ResolverPhase::ProbingCustom { url: u },
                        spawns: Ghost(0),
                        custom_result: Ghost(None),
                    },
                    ResolverAction::ProbeCustom { url: probe },
                )
            },
            None => (
                Resolver {
                    phase: ResolverPhase::NeedPort,
                    spawns: Ghost(0),
                    custom_result: Ghost(None),
                },
                ResolverAction::ResolvePort,
            ),
        }
    }

    /// Feeds in the custom-URL probe's outcome. Healthy: the run ends with
    /// `Existing` at that URL and nothing is ever spawned. Unhealthy (the
    /// user declined to keep retrying): fall through to the local port.
    pub fn on_custom_health(&mut self, healthy: bool) -> (a: ResolverAction)
        requires
            old(self).wf(),
            old(self).phase_spec() is ProbingCustom,
            old(self).custom_result_spec() is None,
        ensures
            final(self).wf(),
            final(self).spawn_count() == 0,
            final(self).custom_result_spec() == Some(healthy),
            healthy ==> {
                &&& final(self).phase_spec() is Resolved
                &&& a matches ResolverAction::Connected {
                    conn: ServerConnection::Existing { url },
                } && url@ == old(self).phase_spec()->ProbingCustom_url@
            },
            !healthy ==> {
                &&& final(self).phase_spec() is NeedPort
                &&& a is ResolvePort
            },
    {
        self.custom_result = Ghost(Some(healthy));
        if healthy {
            let mut ph = ResolverPhase::Resolved;
            core::mem::swap(&mut ph, &mut self.phase);
            match ph {
                ResolverPhase::ProbingCustom { url } => ResolverAction::Connected {
                    conn: ServerConnection::Existing { url },
                },
                _ => vstd::pervasive::unreached(),
            }
        } else {
            self.phase = ResolverPhase::NeedPort;
            ResolverAction::ResolvePort
        }
    }

    /// Feeds in the resolved local port; the next step is a plain health
    /// probe of the local URL.
    pub fn on_port(&mut self, port: u16) -> (a: ResolverAction)
        requires
            old(self).wf(),
            old(self).phase_spec() is NeedPort,
            port >= 1,
        ensures
            final(self).wf(),
            final(self).spawn_count() == 0,
            final(self).custom_result_spec() == old(self).custom_result_spec(),
            final(self).phase_spec() matches ResolverPhase::ProbingLocal { port: p, url }
                && p == port && url@ == local_url_spec(port),
            a matches ResolverAction::ProbeLocal { url } && url@ == local_url_spec(port),
    {
        let url = local_url(port);
        let probe = url.clone();
        self.phase = ResolverPhase::ProbingLocal { port, url };
        ResolverAction::ProbeLocal { url: probe }
    }

    /// Feeds in the local probe's outcome. Healthy: something is already
    /// serving there, reuse it — never double-spawn. Unhealthy: request the
    /// one and only spawn, with a fresh random credential.
    pub fn on_local_health(&mut self, healthy: bool) -> (a: ResolverAction)
        requires
            old(self).wf(),
            old(self).phase_spec() is ProbingLocal,
        ensures
            final(self).wf(),
            final(self).custom_result_spec() == old(self).custom_result_spec(),
            healthy ==> {
                &&& final(self).phase_spec() is Resolved
                &&& final(self).spawn_count() == 0
                &&& a matches ResolverAction::Connected {
                    conn: ServerConnection::Existing { url },
                } && url@ == old(self).phase_spec()->ProbingLocal_url@
            },
            !healthy ==> {
                &&& final(self).phase_spec() is Spawning
                &&& final(self).spawn_count() == 1
                &&& spawn_requested(
                    a,
                    old(self).phase_spec()->ProbingLocal_port,
                    final(self).phase_spec(),
                )
            },
    {
        let mut ph = ResolverPhase::Resolved;
        core::mem::swap(&mut ph, &mut self.phase);
        match ph {
            ResolverPhase::ProbingLocal { port, url } => {
                if healthy {
                    self.phase = ResolverPhase::Resolved;
                    ResolverAction::Connected { conn: ServerConnection::Existing { url } }
                } else {
                    let password = fresh_credential();
                    let spawn_url = url.clone();
                    let spawn_password = password.clone();
                    self.spawns = Ghost(self.spawns@ + 1);
                    self.phase = ResolverPhase::Spawning { port, url, password };
                    ResolverAction::Spawn { port, url: spawn_url, password: spawn_password }
                }
            },
            _ => vstd::pervasive::unreached(),
        }
    }

    /// Feeds in the spawned child's handle; the run ends with a `CLI`
    /// connection carrying the URL, the credential and the handle.
    pub fn on_spawned(&mut self, child: ChildHandle) -> (a: ResolverAction)
        requires
            old(self).wf(),
            old(self).phase_spec() is Spawning,
        ensures
            final(self).wf(),
            final(self).phase_spec() is Resolved,
            final(self).spawn_count() == 1,
            final(self).custom_result_spec() == old(self).custom_result_spec(),
            a matches ResolverAction::Connected {
                conn: ServerConnection::CLI { url, password, child: c },
            } && {
                &&& url@ == old(self).phase_spec()->Spawning_url@
                &&& password matches Some(p) && p@ == old(self).phase_spec()->Spawning_password@
                &&& c == child
            },
    {
        let mut ph = ResolverPhase::Resolved;
        core::mem::swap(&mut ph, &mut self.phase);
        match ph {
            ResolverPhase::Spawning { port: _, url, password } => ResolverAction::Connected {
                conn: ServerConnection::CLI { url, password: Some(password), child },
            },
            _ => vstd::pervasive::unreached(),
        }
    }
}

/// A healthy user-configured server means no child process is ever spawned:
/// the run is already resolved to that existing server with a spawn count of
/// zero.
pub proof fn law_custom_healthy_no_spawn(r: Resolver)
    requires
        r.wf(),
        r.custom_result_spec() == Some(true),
    ensures
        r.spawn_count() == 0,
        r.phase_spec() is Resolved,
{
}

/// However a resolution run unfolds, at most one process is ever spawned.
pub proof fn law_spawn_at_most_once(r: Resolver)
    requires
        r.wf(),
    ensures
        r.spawn_count() <= 1,
{
}

} // verus!
