//! Decisions of the IP-change monitor and of the orchestrator that owns the
//! webhook listener. The caller performs each action and reports back what
//! happened as the next event.

use vstd::prelude::*;

verus! {

/// Seconds a stopping listener is given to finish in-flight requests.
pub const SHUTDOWN_GRACE_SECS: u64 = 3;

/// Construction attempts for a replacement listener before giving up.
pub const MAX_BIND_ATTEMPTS: u8 = 3;

/// Where one round of the IP-change monitor stands.
#[derive(Debug, Clone, PartialEq, Eq)]
pub enum MonitorState {
    /// Waiting for the next round.
    Idle,
    /// Asking for the public IP.
    LookingUp,
    /// Asking the platform whether the webhook matches this IP.
    Checking(String),
    /// Waiting for certificate material for this IP.
    Issuing(String),
    /// Uploading the new certificate for this IP.
    Registering(String),
}

/// What happened since the last action.
#[derive(Debug, Clone, PartialEq, Eq)]
pub enum MonitorEvent {
    /// The interval elapsed.
    Tick,
    IpFound(String),
    IpLookupFailed,
    /// The webhook points at the current IP with a custom certificate.
    WebhookCurrent,
    /// It does not.
    WebhookStale,
    WebhookQueryFailed,
    CertificateIssued,
    CertificateFailed,
    Registered,
    RegistrationFailed,
}

/// What the monitor asks for next.
#[derive(Debug, Clone, PartialEq, Eq)]
pub enum MonitorAction {
    LookupIp,
    QueryWebhook(String),
    IssueCertificate(String),
    RegisterWebhook(String),
    /// Raise the dirty signal, then wait for the next round.
    SignalDirty,
    /// Wait for the next round.
    Sleep,
}

/// The state's view, with strings as character sequences.
pub enum MonitorStateView {
    Idle,
    LookingUp,
    Checking(Seq<char>),
    Issuing(Seq<char>),
    Registering(Seq<char>),
}

pub enum MonitorActionView {
    LookupIp,
    QueryWebhook(Seq<char>),
    IssueCertificate(Seq<char>),
    RegisterWebhook(Seq<char>),
    SignalDirty,
    Sleep,
}

impl MonitorState {
    pub open spec fn view(&self) -> MonitorStateView {
        match self {
            MonitorState::Idle => MonitorStateView::Idle,
            MonitorState::LookingUp => MonitorStateView::LookingUp,
            MonitorState::Checking(ip) => MonitorStateView::Checking(ip@),
            MonitorState::Issuing(ip) => MonitorStateView::Issuing(ip@),
            MonitorState::Registering(ip) => MonitorStateView::Registering(ip@),
        }
    }
}

impl MonitorAction {
    pub open spec fn view(&self) -> MonitorActionView {
        match self {
            MonitorAction::LookupIp => MonitorActionView::LookupIp,
            MonitorAction::QueryWebhook(ip) => MonitorActionView::QueryWebhook(ip@),
            MonitorAction::IssueCertificate(ip) => MonitorActionView::IssueCertificate(ip@),
            MonitorAction::RegisterWebhook(ip) => MonitorActionView::RegisterWebhook(ip@),
            MonitorAction::SignalDirty => MonitorActionView::SignalDirty,
            MonitorAction::Sleep => MonitorActionView::Sleep,
        }
    }
}

/// One step of the monitor: a round starts on a tick with an IP lookup; a
/// webhook that already matches ends it; otherwise a certificate is issued
/// and registered for the IP, and only a successful registration raises the
/// dirty signal. Every failure, and every event the state does not expect,
/// ends the round and waits for the next one.
pub open spec fn monitor_next(s: MonitorStateView, e: MonitorEvent) -> (
    MonitorStateView,
    MonitorActionView,
) {
    match (s, e) {
        (MonitorStateView::Idle, MonitorEvent::Tick) => (
            MonitorStateView::LookingUp,
            MonitorActionView::LookupIp,
        ),
        (MonitorStateView::LookingUp, MonitorEvent::IpFound(ip)) => (
            MonitorStateView::Checking(ip@),
            MonitorActionView::QueryWebhook(ip@),
        ),
        (MonitorStateView::Checking(ip), MonitorEvent::WebhookStale) => (
            MonitorStateView::Issuing(ip),
            MonitorActionView::IssueCertificate(ip),
        ),
        (MonitorStateView::Checking(ip), MonitorEvent::WebhookQueryFailed) => (
            MonitorStateView::Issuing(ip),
            MonitorActionView::IssueCertificate(ip),
        ),
        (MonitorStateView::Issuing(ip), MonitorEvent::CertificateIssued) => (
            MonitorStateView::Registering(ip),
            MonitorActionView::RegisterWebhook(ip),
        ),
        (MonitorStateView::Registering(_), MonitorEvent::Registered) => (
            MonitorStateView::Idle,
            MonitorActionView::SignalDirty,
        ),
        _ => (MonitorStateView::Idle, MonitorActionView::Sleep),
    }
}

/// The monitor's next state and action.
pub fn monitor_step(state: MonitorState, event: MonitorEvent) -> (r: (MonitorState, MonitorAction))
    ensures
        (r.0@, r.1@) == monitor_next(state@, event),
{
    match (state, event) {
        (MonitorState::Idle, MonitorEvent::Tick) => (
            MonitorState::LookingUp,
            MonitorAction::LookupIp,
        ),
        (MonitorState::LookingUp, MonitorEvent::IpFound(ip)) => {
            let query = ip.clone();
            (MonitorState::Checking(ip), MonitorAction::QueryWebhook(query))
        },
        (MonitorState::Checking(ip), MonitorEvent::WebhookStale)
        | (MonitorState::Checking(ip), MonitorEvent::WebhookQueryFailed) => {
            let issue = ip.clone();
            (MonitorState::Issuing(ip), MonitorAction::IssueCertificate(issue))
        },
        (MonitorState::Issuing(ip), MonitorEvent::CertificateIssued) => {
            let register = ip.clone();
            (MonitorState::Registering(ip), MonitorAction::RegisterWebhook(register))
        },
        (MonitorState::Registering(_), MonitorEvent::Registered) => (
            MonitorState::Idle,
            MonitorAction::SignalDirty,
        ),
        _ => (MonitorState::Idle, MonitorAction::Sleep),
    }
}

/// The platform's webhook report as a monitor event: a matching webhook
/// ends the round, a stale one or an unreadable report leads to a new
/// certificate.
pub fn webhook_event<E>(status: Result<bool, E>) -> (r: MonitorEvent)
    ensures
        status matches Ok(b) && b ==> r == MonitorEvent::WebhookCurrent,
        status matches Ok(b) && !b ==> r == MonitorEvent::WebhookStale,
        status is Err ==> r == MonitorEvent::WebhookQueryFailed,
{
    match status {
        Ok(true) => MonitorEvent::WebhookCurrent,
        Ok(false) => MonitorEvent::WebhookStale,
        Err(_) => MonitorEvent::WebhookQueryFailed,
    }
}

/// Where the orchestrator stands with respect to the listener.
#[derive(Debug, Clone, Copy, PartialEq, Eq, Structural)]
pub enum Phase {
    /// One listener is serving.
    Serving,
    /// The listener was told to stop and is draining in-flight requests.
    Draining,
    /// No listener is up; a replacement is being constructed. `failures`
    /// counts the attempts that failed so far.
    Binding { failures: u8 },
    /// The listener is gone for good; the process should exit.
    Stopped,
}

/// What the orchestrator learnt.
#[derive(Debug, Clone, Copy, PartialEq, Eq, Structural)]
pub enum OrchestratorEvent {
    /// The listener's run ended.
    ListenerExited,
    /// The dirty signal fired: new certificate material was registered.
    Dirty,
    /// An auxiliary service loop ended, successfully or not.
    AuxiliaryExited,
    /// A replacement listener was constructed and bound.
    ListenerBound,
    /// Constructing a replacement listener failed.
    BindFailed,
}

/// What the orchestrator asks for.
#[derive(Debug, Clone, Copy, PartialEq, Eq, Structural)]
pub enum OrchestratorAction {
    /// Keep waiting for the next event.
    Wait,
    /// Stop the listener gracefully within the given seconds.
    StopListener(u64),
    /// Construct a new listener on the same address with the current
    /// certificate, allowing immediate address reuse.
    BindListener,
    /// Start serving on the listener just bound.
    StartListener,
    /// Restart the auxiliary loop that ended.
    RestartAuxiliary,
    /// Exit; outer supervision restarts the process.
    Shutdown,
}

/// The number of listeners that exist in a phase.
pub open spec fn listeners(p: Phase) -> nat {
    match p {
        Phase::Serving | Phase::Draining => 1,
        _ => 0,
    }
}

pub open spec fn phase_ok(p: Phase) -> bool {
    p matches Phase::Binding { failures } ==> failures < MAX_BIND_ATTEMPTS
}

/// One step of the orchestrator. A listener that ends while serving is
/// fatal; the dirty signal starts a swap (stop, drain, bind, start); further
/// dirty signals during a swap are absorbed, since the replacement reads the
/// newest certificate; an auxiliary loop that ends is restarted alone; a
/// replacement that cannot be built is retried until `MAX_BIND_ATTEMPTS`
/// attempts failed, then the orchestrator shuts down.
pub open spec fn orchestrate(p: Phase, e: OrchestratorEvent) -> (Phase, OrchestratorAction) {
    match (p, e) {
        (Phase::Stopped, _) => (Phase::Stopped, OrchestratorAction::Wait),
        (_, OrchestratorEvent::AuxiliaryExited) => (p, OrchestratorAction::RestartAuxiliary),
        (Phase::Serving, OrchestratorEvent::ListenerExited) => (
            Phase::Stopped,
            OrchestratorAction::Shutdown,
        ),
        (Phase::Serving, OrchestratorEvent::Dirty) => (
            Phase::Draining,
            OrchestratorAction::StopListener(SHUTDOWN_GRACE_SECS),
        ),
        (Phase::Draining, OrchestratorEvent::ListenerExited) => (
            Phase::Binding { failures: 0 },
            OrchestratorAction::BindListener,
        ),
        (Phase::Binding { failures: _ }, OrchestratorEvent::ListenerBound) => (
            Phase::Serving,
            OrchestratorAction::StartListener,
        ),
        (Phase::Binding { failures }, OrchestratorEvent::BindFailed) => if failures + 1
            < MAX_BIND_ATTEMPTS {
            (Phase::Binding { failures: (failures + 1) as u8 }, OrchestratorAction::BindListener)
        } else {
            (Phase::Stopped, OrchestratorAction::Shutdown)
        },
        _ => (p, OrchestratorAction::Wait),
    }
}

/// The orchestrator's next phase and action.
pub fn orchestrator_step(phase: Phase, event: OrchestratorEvent) -> (r: (
    Phase,
    OrchestratorAction,
))
    requires
        phase_ok(phase),
    ensures
        r == orchestrate(phase, event),
        phase_ok(r.0),
        r.1 == OrchestratorAction::BindListener ==> listeners(phase) + listeners(r.0) <= 1,
        r.1 == OrchestratorAction::StartListener ==> listeners(phase) == 0 && listeners(r.0)
            == 1,
{
    match (phase, event) {
        (Phase::Stopped, _) => (Phase::Stopped, OrchestratorAction::Wait),
        (_, OrchestratorEvent::AuxiliaryExited) => (phase, OrchestratorAction::RestartAuxiliary),
        (Phase::Serving, OrchestratorEvent::ListenerExited) => (
            Phase::Stopped,
            OrchestratorAction::Shutdown,
        ),
        (Phase::Serving, OrchestratorEvent::Dirty) => (
            Phase::Draining,
            OrchestratorAction::StopListener(SHUTDOWN_GRACE_SECS),
        ),
        (Phase::Draining, OrchestratorEvent::ListenerExited) => (
            Phase::Binding { failures: 0 },
            OrchestratorAction::BindListener,
        ),
        (Phase::Binding { failures: _ }, OrchestratorEvent::ListenerBound) => (
            Phase::Serving,
            OrchestratorAction::StartListener,
        ),
        (Phase::Binding { failures }, OrchestratorEvent::BindFailed) => {
            if failures + 1 < MAX_BIND_ATTEMPTS {
                (Phase::Binding { failures: failures + 1 }, OrchestratorAction::BindListener)
            } else {
                (Phase::Stopped, OrchestratorAction::Shutdown)
            }
        },
        _ => (phase, OrchestratorAction::Wait),
    }
}

} // verus!
