use vstd::prelude::*;
use crate::error::{Error, TunnelResult};
use crate::tunnel::{usable, Tunnel, TunnelState, TunnelView};

verus! {

/// Size of the buffer each forwarding direction reads into.
pub const RELAY_BUFFER_SIZE: usize = 16384;

/// Capacity of the control, result and relay queues.
pub const CHANNEL_CAPACITY: usize = 1024;

/// Seconds between two reconciliation passes.
pub const RECONCILE_PERIOD_SECS: u64 = 60;

/// Phase of a tunnel's listener.
#[derive(Debug, Clone, Copy, PartialEq, Eq, Structural)]
pub enum ListenerPhase {
    /// Binding the local port.
    Binding,
    /// Accepting connections.
    Running,
    /// Done: the listener task ends.
    Stopped,
}

/// What happened to a listener.
#[derive(Debug)]
pub enum ListenerEvent {
    /// The local port was bound.
    Bound,
    /// Binding the local port failed with this error.
    BindFailed(Error),
    /// A connection was accepted.
    Accepted,
    /// Accepting failed.
    AcceptFailed,
    /// The registry commanded the listener to stop.
    StopCommand,
    /// The command line was closed by the registry.
    ControlClosed,
}

/// What a listener does in reply to an event.
#[derive(Debug)]
pub enum ListenerAction {
    /// Send this report to the registry.
    Report(TunnelResult<TunnelState>),
    /// Hand the accepted connection to a new forwarder.
    Forward,
    /// Nothing.
    Idle,
}

/// The listener's lifecycle: binding reports success or the error and ends on
/// failure; a running listener forwards each accepted connection, and ends,
/// reporting stopped, on a stop command or on a failed accept.
pub open spec fn listener_transition(phase: ListenerPhase, event: ListenerEvent) -> (ListenerPhase, ListenerAction) {
    match (phase, event) {
        (ListenerPhase::Binding, ListenerEvent::Bound) => (
            ListenerPhase::Running,
            ListenerAction::Report(Ok(TunnelState::RUNNING)),
        ),
        (ListenerPhase::Binding, ListenerEvent::BindFailed(e)) => (
            ListenerPhase::Stopped,
            ListenerAction::Report(Err(e)),
        ),
        (ListenerPhase::Running, ListenerEvent::Accepted) => (ListenerPhase::Running, ListenerAction::Forward),
        (ListenerPhase::Running, ListenerEvent::AcceptFailed) => (
            ListenerPhase::Stopped,
            ListenerAction::Report(Ok(TunnelState::STOP)),
        ),
        (ListenerPhase::Running, ListenerEvent::StopCommand) => (
            ListenerPhase::Stopped,
            ListenerAction::Report(Ok(TunnelState::STOP)),
        ),
        (p, _) => (p, ListenerAction::Idle),
    }
}

/// One step of a tunnel's listener.
pub fn listener_step(phase: ListenerPhase, event: ListenerEvent) -> (r: (ListenerPhase, ListenerAction))
    ensures
        r == listener_transition(phase, event),
{
    match (phase, event) {
        (ListenerPhase::Binding, ListenerEvent::Bound) => (
            ListenerPhase::Running,
            ListenerAction::Report(Ok(TunnelState::RUNNING)),
        ),
        (ListenerPhase::Binding, ListenerEvent::BindFailed(e)) => (
            ListenerPhase::Stopped,
            ListenerAction::Report(Err(e)),
        ),
        (ListenerPhase::Running, ListenerEvent::Accepted) => (ListenerPhase::Running, ListenerAction::Forward),
        (ListenerPhase::Running, ListenerEvent::AcceptFailed) => (
            ListenerPhase::Stopped,
            ListenerAction::Report(Ok(TunnelState::STOP)),
        ),
        (ListenerPhase::Running, ListenerEvent::StopCommand) => (
            ListenerPhase::Stopped,
            ListenerAction::Report(Ok(TunnelState::STOP)),
        ),
        (p, _) => (p, ListenerAction::Idle),
    }
}

/// How a forwarded connection authenticates to the SSH server.
#[derive(Debug, PartialEq, Eq)]
pub enum AuthMethod {
    /// Password authentication.
    Password { username: String, password: String },
    /// Public-key authentication from a key file, the key optionally protected
    /// by a passphrase.
    PublicKey { username: String, private_key: String, passphrase: Option<String> },
    /// No credential is usable: no authentication is attempted.
    Nothing,
}

/// `a` is the authentication that the credentials of `t` call for: the
/// password alone, the key alone, the key with the password as its
/// passphrase, or nothing.
pub open spec fn auth_chosen(t: TunnelView, a: AuthMethod) -> bool {
    if usable(t.password) && !usable(t.private_key) {
        a matches AuthMethod::Password { username, password }
            && username@ == t.username && Some(password@) == t.password
    } else if usable(t.private_key) && !usable(t.password) {
        a matches AuthMethod::PublicKey { username, private_key, passphrase }
            && username@ == t.username && Some(private_key@) == t.private_key && passphrase is None
    } else if usable(t.private_key) && usable(t.password) {
        a matches AuthMethod::PublicKey { username, private_key, passphrase }
            && username@ == t.username && Some(private_key@) == t.private_key
            && passphrase.deep_view() == t.password
    } else {
        a is Nothing
    }
}

/// The credential, when it is usable.
fn usable_credential(c: &Option<String>) -> (r: Option<String>)
    ensures
        usable(c.deep_view()) ==> r.deep_view() == c.deep_view(),
        !usable(c.deep_view()) ==> r is None,
{
    match c {
        Some(s) => {
            if s.as_str().is_empty() {
                None
            } else {
                Some(s.clone())
            }
        },
        None => None,
    }
}

/// Chooses how to authenticate for `t`.
pub fn select_auth(t: &Tunnel) -> (r: AuthMethod)
    ensures
        auth_chosen(t@, r),
{
    let password = usable_credential(&t.password);
    let private_key = usable_credential(&t.private_key);
    match (password, private_key) {
        (Some(password), None) => AuthMethod::Password { username: t.username.clone(), password },
        (None, Some(private_key)) => AuthMethod::PublicKey {
            username: t.username.clone(),
            private_key,
            passphrase: None,
        },
        (Some(password), Some(private_key)) => AuthMethod::PublicKey {
            username: t.username.clone(),
            private_key,
            passphrase: Some(password),
        },
        (None, None) => AuthMethod::Nothing,
    }
}

/// Result of one read on one side of a forwarded connection.
#[derive(Debug, Clone, Copy, PartialEq, Eq, Structural)]
pub enum ReadOutcome {
    /// This many bytes were read; zero means the peer closed.
    Data(usize),
    /// A non-blocking read found nothing yet.
    WouldBlock,
    /// Any other I/O error.
    Failed,
}

/// What a forwarding direction does after a read.
#[derive(Debug, Clone, Copy, PartialEq, Eq, Structural)]
pub enum RelayStep {
    /// Pass on the first this many bytes of the buffer.
    Forward(usize),
    /// Yield to the scheduler and read again.
    Retry,
    /// Close the connection.
    Finish,
}

/// A forwarding direction passes on what it read, retries a read that would
/// block, and finishes on end of stream or on any other error.
pub open spec fn relay_rule(read: ReadOutcome) -> RelayStep {
    match read {
        ReadOutcome::Data(n) => if n == 0 {
            RelayStep::Finish
        } else {
            RelayStep::Forward(n)
        },
        ReadOutcome::WouldBlock => RelayStep::Retry,
        ReadOutcome::Failed => RelayStep::Finish,
    }
}

/// Decides what a forwarding direction does after a read.
pub fn relay_step(read: ReadOutcome) -> (r: RelayStep)
    ensures
        r == relay_rule(read),
{
    match read {
        ReadOutcome::Data(0) => RelayStep::Finish,
        ReadOutcome::Data(n) => RelayStep::Forward(n),
        ReadOutcome::WouldBlock => RelayStep::Retry,
        ReadOutcome::Failed => RelayStep::Finish,
    }
}

/// The decimal digit for `d < 10`.
pub open spec fn digit_char(d: nat) -> char {
    if d == 0 { '0' }
    else if d == 1 { '1' }
    else if d == 2 { '2' }
    else if d == 3 { '3' }
    else if d == 4 { '4' }
    else if d == 5 { '5' }
    else if d == 6 { '6' }
    else if d == 7 { '7' }
    else if d == 8 { '8' }
    else { '9' }
}

/// The decimal notation of `n`, without leading zeros.
pub open spec fn decimal(n: nat) -> Seq<char>
    decreases n,
{
    if n < 10 {
        seq![digit_char(n)]
    } else {
        decimal(n / 10).push(digit_char(n % 10))
    }
}

fn digit_str(d: u16) -> (r: &'static str)
    requires
        d < 10,
    ensures
        r@ == seq![digit_char(d as nat)],
{
    proof {
        reveal_strlit("0");
        reveal_strlit("1");
        reveal_strlit("2");
        reveal_strlit("3");
        reveal_strlit("4");
        reveal_strlit("5");
        reveal_strlit("6");
        reveal_strlit("7");
        reveal_strlit("8");
        reveal_strlit("9");
    }
    if d == 0 { "0" }
    else if d == 1 { "1" }
    else if d == 2 { "2" }
    else if d == 3 { "3" }
    else if d == 4 { "4" }
    else if d == 5 { "5" }
    else if d == 6 { "6" }
    else if d == 7 { "7" }
    else if d == 8 { "8" }
    else { "9" }
}

fn append_decimal(out: &mut String, n: u16)
    ensures
        final(out)@ == old(out)@ + decimal(n as nat),
    decreases n,
{
    if n >= 10 {
        append_decimal(out, n / 10);
    }
    out.append(digit_str(n % 10));
}

/// The `host:port` address of `t`'s SSH server.
pub fn ssh_address(t: &Tunnel) -> (r: String)
    ensures
        r@ == t.ssh_host@ + seq![':'] + decimal(t.ssh_port as nat),
{
    let mut out = t.ssh_host.clone();
    proof {
        reveal_strlit(":");
    }
    out.append(":");
    append_decimal(&mut out, t.ssh_port);
    out
}

} // verus!
