//! The decisions of one probe: from the current state and the next event of
//! the handshake, the next state and what to do.

use vstd::prelude::*;
use crate::hostkey::{base64_of, first_field, host_key_line, host_key_line_spec};

verus! {

/// Where a probe stands.
#[derive(Clone, Copy, Debug, PartialEq, Eq, Structural)]
pub enum ProbeState {
    /// Not connected yet.
    Init,
    /// Connected; the handshake runs until the server's key is verified.
    Handshaking,
    /// The host key was reported; the connection is being closed.
    Disconnecting,
    /// Done, with or without an error.
    Terminal,
}

/// The kinds of failure that end a probe.
#[derive(Clone, Copy, Debug, PartialEq, Eq, Structural)]
pub enum ProbeError {
    /// Connecting failed, or the stream closed or broke mid-handshake.
    Transport,
    /// The two sides share no algorithm of some category.
    Negotiation,
    /// A message came that the handshake does not allow at that point.
    Protocol,
    /// The host key did not parse, or its signature did not verify.
    Crypto,
}

/// A host key whose signature over the exchange hash was verified.
pub struct HostKey {
    pub blob: Vec<u8>,
    pub algorithm: String,
    pub fingerprint: String,
}

/// What the handshake reports.
pub enum ProbeEvent {
    Connected,
    ConnectFailed,
    HostKey(HostKey),
    /// Any other event of the connection.
    Other,
    /// The connection closed.
    Closed,
    Failed(ProbeError),
}

/// What the caller does next.
pub enum ProbeAction {
    /// Wait for the next event.
    Wait,
    /// Print this line, then close the connection.
    Emit(String),
    /// Stop; the probe succeeded.
    Finish,
    /// Stop with this error, printing nothing.
    Abort(ProbeError),
}

pub enum EventModel {
    Connected,
    ConnectFailed,
    HostKey(Seq<u8>, Seq<char>, Seq<char>),
    Other,
    Closed,
    Failed(ProbeError),
}

pub enum ActionModel {
    Wait,
    Emit(Seq<char>),
    Finish,
    Abort(ProbeError),
}

impl View for ProbeEvent {
    type V = EventModel;

    open spec fn view(&self) -> EventModel {
        match self {
            ProbeEvent::Connected => EventModel::Connected,
            ProbeEvent::ConnectFailed => EventModel::ConnectFailed,
            ProbeEvent::HostKey(k) => EventModel::HostKey(k.blob@, k.algorithm@, k.fingerprint@),
            ProbeEvent::Other => EventModel::Other,
            ProbeEvent::Closed => EventModel::Closed,
            ProbeEvent::Failed(e) => EventModel::Failed(*e),
        }
    }
}

impl View for ProbeAction {
    type V = ActionModel;

    open spec fn view(&self) -> ActionModel {
        match self {
            ProbeAction::Wait => ActionModel::Wait,
            ProbeAction::Emit(l) => ActionModel::Emit(l@),
            ProbeAction::Finish => ActionModel::Finish,
            ProbeAction::Abort(e) => ActionModel::Abort(*e),
        }
    }
}

/// One transition of a probe.
pub open spec fn step_spec(s: ProbeState, e: EventModel) -> (ProbeState, ActionModel) {
    match s {
        ProbeState::Init => match e {
            EventModel::Connected => (ProbeState::Handshaking, ActionModel::Wait),
            EventModel::ConnectFailed => (ProbeState::Terminal, ActionModel::Abort(ProbeError::Transport)),
            EventModel::Closed => (ProbeState::Terminal, ActionModel::Abort(ProbeError::Transport)),
            EventModel::Failed(err) => (ProbeState::Terminal, ActionModel::Abort(err)),
            _ => (ProbeState::Terminal, ActionModel::Abort(ProbeError::Protocol)),
        },
        ProbeState::Handshaking => match e {
            EventModel::HostKey(blob, algorithm, fingerprint) => (
                ProbeState::Disconnecting,
                ActionModel::Emit(host_key_line_spec(blob, algorithm, fingerprint)),
            ),
            EventModel::Other => (ProbeState::Handshaking, ActionModel::Wait),
            EventModel::Connected => (ProbeState::Terminal, ActionModel::Abort(ProbeError::Protocol)),
            EventModel::Failed(err) => (ProbeState::Terminal, ActionModel::Abort(err)),
            _ => (ProbeState::Terminal, ActionModel::Abort(ProbeError::Transport)),
        },
        ProbeState::Disconnecting => (ProbeState::Terminal, ActionModel::Finish),
        ProbeState::Terminal => (ProbeState::Terminal, ActionModel::Finish),
    }
}

/// The next state of a probe in `state` on `event`, and what to do.
pub fn step(state: ProbeState, event: &ProbeEvent) -> (r: (ProbeState, ProbeAction))
    ensures
        (r.0, r.1@) == step_spec(state, event@),
        r.1 matches ProbeAction::Emit(l) ==> (event matches ProbeEvent::HostKey(k) && first_field(l@) == base64_of(k.blob@)),
{
    match state {
        ProbeState::Init => match event {
            ProbeEvent::Connected => (ProbeState::Handshaking, ProbeAction::Wait),
            ProbeEvent::ConnectFailed => (ProbeState::Terminal, ProbeAction::Abort(ProbeError::Transport)),
            ProbeEvent::Closed => (ProbeState::Terminal, ProbeAction::Abort(ProbeError::Transport)),
            ProbeEvent::Failed(err) => (ProbeState::Terminal, ProbeAction::Abort(*err)),
            _ => (ProbeState::Terminal, ProbeAction::Abort(ProbeError::Protocol)),
        },
        ProbeState::Handshaking => match event {
            ProbeEvent::HostKey(k) => {
                let line = host_key_line(k.blob.as_slice(), k.algorithm.as_str(), k.fingerprint.as_str());
                (ProbeState::Disconnecting, ProbeAction::Emit(line))
            },
            ProbeEvent::Other => (ProbeState::Handshaking, ProbeAction::Wait),
            ProbeEvent::Connected => (ProbeState::Terminal, ProbeAction::Abort(ProbeError::Protocol)),
            ProbeEvent::Failed(err) => (ProbeState::Terminal, ProbeAction::Abort(*err)),
            _ => (ProbeState::Terminal, ProbeAction::Abort(ProbeError::Transport)),
        },
        ProbeState::Disconnecting => (ProbeState::Terminal, ProbeAction::Finish),
        ProbeState::Terminal => (ProbeState::Terminal, ProbeAction::Finish),
    }
}

/// The actions of a probe that starts in `s` and meets `events` in turn.
pub open spec fn run_actions(s: ProbeState, events: Seq<EventModel>) -> Seq<ActionModel>
    decreases events.len(),
{
    if events.len() == 0 {
        Seq::empty()
    } else {
        let (t, a) = step_spec(s, events[0]);
        seq![a] + run_actions(t, events.drop_first())
    }
}

/// An action that ends the probe's work: a reported key or an error.
pub open spec fn is_outcome(a: ActionModel) -> bool {
    a is Emit || a is Abort
}

/// How many actions of `acts` are outcomes.
pub open spec fn outcome_count(acts: Seq<ActionModel>) -> nat
    decreases acts.len(),
{
    if acts.len() == 0 {
        0
    } else {
        (if is_outcome(acts[0]) { 1nat } else { 0nat }) + outcome_count(acts.drop_first())
    }
}

proof fn lemma_outcome_count_push(a: ActionModel, rest: Seq<ActionModel>)
    ensures
        outcome_count(seq![a] + rest) == (if is_outcome(a) { 1nat } else { 0nat }) + outcome_count(rest),
{
    assert((seq![a] + rest).drop_first() =~= rest);
}

/// Once the probe is closing or done, nothing more is reported.
pub proof fn finished_probe_reports_nothing(s: ProbeState, events: Seq<EventModel>)
    requires
        s == ProbeState::Disconnecting || s == ProbeState::Terminal,
    ensures
        outcome_count(run_actions(s, events)) == 0,
    decreases events.len(),
{
    if events.len() > 0 {
        let (t, a) = step_spec(s, events[0]);
        finished_probe_reports_nothing(t, events.drop_first());
        lemma_outcome_count_push(a, run_actions(t, events.drop_first()));
    }
}

/// A probe reports at most one thing, whatever the events: one host-key
/// line or one error, never both and never twice.
pub proof fn one_outcome_per_probe(s: ProbeState, events: Seq<EventModel>)
    ensures
        outcome_count(run_actions(s, events)) <= 1,
    decreases events.len(),
{
    if events.len() > 0 {
        let (t, a) = step_spec(s, events[0]);
        lemma_outcome_count_push(a, run_actions(t, events.drop_first()));
        if is_outcome(a) {
            finished_probe_reports_nothing(t, events.drop_first());
        } else {
            one_outcome_per_probe(t, events.drop_first());
        }
    }
}

/// A failed connection, a closed stream or a failure of the handshake (a
/// signature that does not verify among them) never yields a host-key line.
pub proof fn failures_report_no_key(s: ProbeState, e: EventModel)
    requires
        e is ConnectFailed || e is Closed || e is Failed,
    ensures
        !(step_spec(s, e).1 is Emit),
        s is Init || s is Handshaking ==> step_spec(s, e).1 is Abort,
{
}

/// A reported line is the one of the verified key that the event carried:
/// its blob, its algorithm and its fingerprint.
pub proof fn reported_line_is_of_verified_key(s: ProbeState, e: EventModel)
    ensures
        step_spec(s, e).1 matches ActionModel::Emit(l) ==> (e matches EventModel::HostKey(b, a, f) && l
            == host_key_line_spec(b, a, f)),
{
}

} // verus!
