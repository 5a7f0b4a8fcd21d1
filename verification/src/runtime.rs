//! Runtime selection.
//!
//! The selector decides which container engine the run will talk to. It is a
//! small state machine driven from outside: the caller performs each
//! handshake probe (a lightweight version call against a socket) and feeds
//! the outcome back in. The primary engine is probed first, at the
//! configured socket. If that probe fails and the socket was the platform
//! default, the platform-conventional alternative-engine socket is derived
//! from the user's runtime directory and probed once; a user-overridden
//! socket gets no fallback. There are never more than two probes and a
//! failed probe is never retried: [`lemma_selector_probe_bound`] proves it
//! for every possible sequence of outcomes.

use vstd::prelude::*;

verus! {

/// The platform-default socket of the primary engine.
pub const DEFAULT_SOCKET: &'static str = "unix:///var/run/docker.sock";

/// The engine a run talks to: exactly one of the two, with the socket its
/// handshake succeeded at.
pub enum Runtime {
    Docker { socket: String },
    Podman { socket: String },
}

/// A handshake the caller is asked to perform: a version call against one
/// engine's protocol at one socket.
pub enum Probe {
    Docker { socket: String },
    Podman { socket: String },
}

/// Where selection stands.
pub enum SelectorState {
    /// The primary engine's handshake is in flight; `fallback` is the
    /// alternative-engine socket to try if it fails, already derived, or
    /// `None` when no fallback is available.
    ProbingDocker { socket: String, fallback: Option<String> },
    /// The alternative engine's handshake is in flight.
    ProbingPodman { socket: String },
    /// An engine answered; selection is over.
    Selected { runtime: Runtime },
    /// Neither engine answered; selection failed.
    Failed,
}

/// The alternative-engine socket path conventional for a runtime directory.
pub open spec fn podman_socket_spec(runtime_dir: Seq<char>) -> Seq<char> {
    "unix://"@ + runtime_dir + "/podman/podman.sock"@
}

/// Derives the alternative engine's socket path from the user's runtime
/// directory.
pub fn podman_socket_path(runtime_dir: &str) -> (r: String)
    ensures
        r@ == podman_socket_spec(runtime_dir@),
{
    let mut s = String::from_str("unix://");
    s.append(runtime_dir);
    s.append("/podman/podman.sock");
    s
}

/// Starts selection: the primary engine is probed at the configured socket.
/// The fallback socket is derived now, and only when the configured socket
/// is the platform default and a runtime directory is known; a
/// user-overridden socket gets none.
pub fn selector_start(socket: String, runtime_dir: Option<String>) -> (r: (SelectorState, Probe))
    ensures
        r.1 == (Probe::Docker { socket }),
        r.0 matches SelectorState::ProbingDocker { socket: s, fallback } && s == socket
            && (fallback is Some <==> (socket@ == DEFAULT_SOCKET@ && runtime_dir is Some))
            && (fallback matches Some(f) ==> runtime_dir matches Some(d) && f@
            == podman_socket_spec(d@)),
{
    let is_default = socket == String::from_str(DEFAULT_SOCKET);
    let fallback: Option<String> = if is_default {
        match runtime_dir {
            Some(d) => Some(podman_socket_path(d.as_str())),
            None => None,
        }
    } else {
        None
    };
    let probe = Probe::Docker { socket: socket.clone() };
    (SelectorState::ProbingDocker { socket, fallback }, probe)
}

/// What one probe outcome does to the selector: success selects the engine
/// that was being probed; a failed primary probe falls back to the
/// alternative socket when one was derived and fails otherwise; a failed
/// alternative probe fails. Terminal states are left as they are.
pub open spec fn spec_selector_step(state: SelectorState, reachable: bool) -> (
    SelectorState,
    Option<Probe>,
) {
    match state {
        SelectorState::ProbingDocker { socket, fallback } => {
            if reachable {
                (SelectorState::Selected { runtime: Runtime::Docker { socket } }, None)
            } else {
                match fallback {
                    Some(f) => (
                        SelectorState::ProbingPodman { socket: f },
                        Some(Probe::Podman { socket: f }),
                    ),
                    None => (SelectorState::Failed, None),
                }
            }
        },
        SelectorState::ProbingPodman { socket } => {
            if reachable {
                (SelectorState::Selected { runtime: Runtime::Podman { socket } }, None)
            } else {
                (SelectorState::Failed, None)
            }
        },
        _ => (state, None),
    }
}

/// Feeds one probe outcome into the selector.
pub fn selector_step(state: SelectorState, reachable: bool) -> (r: (SelectorState, Option<Probe>))
    requires
        state is ProbingDocker || state is ProbingPodman,
    ensures
        r == spec_selector_step(state, reachable),
{
    match state {
        SelectorState::ProbingDocker { socket, fallback } => {
            if reachable {
                (SelectorState::Selected { runtime: Runtime::Docker { socket } }, None)
            } else {
                match fallback {
                    Some(f) => {
                        let probe = Probe::Podman { socket: f.clone() };
                        (SelectorState::ProbingPodman { socket: f }, Some(probe))
                    },
                    None => (SelectorState::Failed, None),
                }
            }
        },
        SelectorState::ProbingPodman { socket } => {
            if reachable {
                (SelectorState::Selected { runtime: Runtime::Podman { socket } }, None)
            } else {
                (SelectorState::Failed, None)
            }
        },
        SelectorState::Selected { runtime } => (SelectorState::Selected { runtime }, None),
        SelectorState::Failed => (SelectorState::Failed, None),
    }
}

/// A whole selection run: the probes the selector asks for while consuming a
/// sequence of probe outcomes, and where it ends.
pub open spec fn spec_selector_run(state: SelectorState, outcomes: Seq<bool>) -> (
    SelectorState,
    Seq<Probe>,
)
    decreases outcomes.len(),
{
    if outcomes.len() == 0 {
        (state, Seq::empty())
    } else {
        let step = spec_selector_step(state, outcomes[0]);
        let rest = spec_selector_run(step.0, outcomes.drop_first());
        (
            rest.0,
            match step.1 {
                Some(p) => seq![p] + rest.1,
                None => rest.1,
            },
        )
    }
}

/// Once the primary probe has been answered, no further probe is ever asked
/// for: from any state other than the initial one, a run asks for nothing.
pub proof fn lemma_selector_settled(state: SelectorState, outcomes: Seq<bool>)
    requires
        !(state is ProbingDocker),
    ensures
        spec_selector_run(state, outcomes).1 =~= Seq::<Probe>::empty(),
    decreases outcomes.len(),
{
    if outcomes.len() > 0 {
        let step = spec_selector_step(state, outcomes[0]);
        lemma_selector_settled(step.0, outcomes.drop_first());
    }
}

/// The selector attempts at most two handshake probes and never retries a
/// failed one: after the initial primary-engine probe handed out by
/// [`selector_start`], any sequence of outcomes leads to at most one further
/// probe, and that probe targets the alternative engine at the fallback
/// socket that was derived up front — never the primary engine again.
pub proof fn lemma_selector_probe_bound(
    socket: String,
    fallback: Option<String>,
    outcomes: Seq<bool>,
)
    ensures
        ({
            let probes = spec_selector_run(
                SelectorState::ProbingDocker { socket, fallback },
                outcomes,
            ).1;
            &&& probes.len() <= 1
            &&& forall|i: int|
                0 <= i < probes.len() ==> (#[trigger] probes[i] matches Probe::Podman { socket: s }
                    && fallback == Some(s))
        }),
{
    let state = SelectorState::ProbingDocker { socket, fallback };
    if outcomes.len() > 0 {
        let step = spec_selector_step(state, outcomes[0]);
        lemma_selector_settled(step.0, outcomes.drop_first());
    }
}

} // verus!
