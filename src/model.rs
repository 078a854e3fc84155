use vstd::prelude::*;
use crate::error::{fault_view, Fault};
use crate::tunnel::{has_credential, with_status, TunnelOperator, TunnelState, TunnelView};

verus! {

/// What an operation leads to: the new list of tunnels, or the error reported.
/// An error leaves the list as it was.
pub type Outcome = Result<Seq<TunnelView>, (i32, Seq<char>)>;

/// Some tunnel of `s` listens on `port`.
pub open spec fn has_port(s: Seq<TunnelView>, port: u16) -> bool {
    exists|i: int| 0 <= i < s.len() && s[i].local_port == port
}

/// No two tunnels of `s` share a local port.
pub open spec fn unique_ports(s: Seq<TunnelView>) -> bool {
    forall|i: int, j: int|
        0 <= i < s.len() && 0 <= j < s.len() && i != j ==> s[i].local_port != s[j].local_port
}

/// The position of the tunnel listening on `port` (meaningful when `has_port(s, port)`).
pub open spec fn port_index(s: Seq<TunnelView>, port: u16) -> int {
    choose|i: int| 0 <= i < s.len() && s[i].local_port == port
}

/// The list after an operation with outcome `o` on `s`.
pub open spec fn after(s: Seq<TunnelView>, o: Outcome) -> Seq<TunnelView> {
    match o {
        Ok(n) => n,
        Err(_) => s,
    }
}

/// ADD: refused when the port is taken, or when the tunnel has no usable
/// credential; otherwise the tunnel is appended, stopped.
pub open spec fn add_outcome(s: Seq<TunnelView>, t: TunnelView) -> Outcome {
    if has_port(s, t.local_port) {
        Err(fault_view(Fault::DuplicatePort))
    } else if !has_credential(t) {
        Err(fault_view(Fault::NoCredential))
    } else {
        Ok(s.push(with_status(t, TunnelState::STOP)))
    }
}

/// Why a stopped-only operation (DELETE, SYNC) on `port` is refused, if it is.
pub open spec fn stopped_only_fault(s: Seq<TunnelView>, port: u16) -> Option<Fault> {
    if !has_port(s, port) {
        Some(Fault::NotFound)
    } else if s[port_index(s, port)].status == TunnelState::RUNNING {
        Some(Fault::InvalidState(TunnelState::RUNNING))
    } else {
        None
    }
}

/// DELETE: removes the stopped tunnel on `port`.
pub open spec fn delete_outcome(s: Seq<TunnelView>, port: u16) -> Outcome {
    match stopped_only_fault(s, port) {
        Some(f) => Err(fault_view(f)),
        None => Ok(s.remove(port_index(s, port))),
    }
}

/// SYNC: replaces the configuration of the stopped tunnel on `t`'s port; it
/// stays stopped. The new configuration needs a usable credential.
pub open spec fn sync_outcome(s: Seq<TunnelView>, t: TunnelView) -> Outcome {
    match stopped_only_fault(s, t.local_port) {
        Some(f) => Err(fault_view(f)),
        None => if !has_credential(t) {
            Err(fault_view(Fault::NoCredential))
        } else {
            Ok(s.update(port_index(s, t.local_port), with_status(t, TunnelState::STOP)))
        },
    }
}

/// Why a transition of the tunnel on `port` towards `target` is refused, if it is:
/// the tunnel must exist and be in the other state.
pub open spec fn transition_fault(s: Seq<TunnelView>, port: u16, target: TunnelState) -> Option<Fault> {
    if !has_port(s, port) {
        Some(Fault::NotFound)
    } else if s[port_index(s, port)].status == target {
        Some(Fault::InvalidState(target))
    } else {
        None
    }
}

/// The registered tunnel on `port`, with its status set to `status`.
pub open spec fn registered_with_status(s: Seq<TunnelView>, port: u16, status: TunnelState) -> TunnelView {
    with_status(s[port_index(s, port)], status)
}

/// The end of a start of the tunnel on `port`, once its new listener reported
/// `report`: a reported error is passed on and changes nothing; a reported
/// state becomes the tunnel's status. Its configuration stays as registered.
pub open spec fn start_outcome(
    s: Seq<TunnelView>,
    port: u16,
    report: Result<TunnelState, (i32, Seq<char>)>,
) -> Outcome {
    match transition_fault(s, port, TunnelState::RUNNING) {
        Some(f) => Err(fault_view(f)),
        None => match report {
            Err(e) => Err(e),
            Ok(state) => Ok(s.update(port_index(s, port), registered_with_status(s, port, state))),
        },
    }
}

/// The end of a stop of the tunnel on `port`, once its listener answered the
/// stop command with `report`: a reported error is passed on and changes
/// nothing; an acknowledgment leaves the tunnel stopped, its configuration as
/// registered.
pub open spec fn stop_outcome(
    s: Seq<TunnelView>,
    port: u16,
    report: Result<TunnelState, (i32, Seq<char>)>,
) -> Outcome {
    match transition_fault(s, port, TunnelState::STOP) {
        Some(f) => Err(fault_view(f)),
        None => match report {
            Err(e) => Err(e),
            Ok(_) => Ok(s.update(port_index(s, port), registered_with_status(s, port, TunnelState::STOP))),
        },
    }
}

/// Reconciliation: every running tunnel whose listener has exited is marked stopped.
pub open spec fn reconciled(s: Seq<TunnelView>, exited: Seq<bool>) -> Seq<TunnelView> {
    Seq::new(
        s.len(),
        |i: int|
            if s[i].status == TunnelState::RUNNING && exited[i] {
                with_status(s[i], TunnelState::STOP)
            } else {
                s[i]
            },
    )
}

/// What the registry does with one control message.
pub enum Step {
    /// Answer at once with this outcome.
    Reply(Outcome),
    /// Start a listener for this registered tunnel and wait for its first report.
    Listen(TunnelView),
    /// Tell the listener of this registered tunnel to stop and wait for its report.
    Halt(TunnelView),
    /// Leave the control loop.
    Exit,
}

/// Start of the tunnel on `t`'s port: refused unless it exists and is
/// stopped; the listener gets the registered configuration.
pub open spec fn start_step(s: Seq<TunnelView>, t: TunnelView) -> Step {
    match transition_fault(s, t.local_port, TunnelState::RUNNING) {
        Some(f) => Step::Reply(Err(fault_view(f))),
        None => Step::Listen(registered_with_status(s, t.local_port, TunnelState::RUNNING)),
    }
}

/// Stop of the tunnel on `t`'s port: refused unless it exists and is running.
pub open spec fn stop_step(s: Seq<TunnelView>, t: TunnelView) -> Step {
    match transition_fault(s, t.local_port, TunnelState::STOP) {
        Some(f) => Step::Reply(Err(fault_view(f))),
        None => Step::Halt(s[port_index(s, t.local_port)]),
    }
}

/// STATE: a request for the running status starts the tunnel, one for the
/// stopped status stops it.
pub open spec fn state_step(s: Seq<TunnelView>, t: TunnelView) -> Step {
    if t.status == TunnelState::RUNNING {
        start_step(s, t)
    } else {
        stop_step(s, t)
    }
}

/// The list after a step: only an answered step changes it here; the others
/// change it when their listener reports.
pub open spec fn step_after(s: Seq<TunnelView>, st: Step) -> Seq<TunnelView> {
    match st {
        Step::Reply(o) => after(s, o),
        _ => s,
    }
}

/// The step taken on a control message with operator `op` and target `t`.
pub open spec fn control_step(s: Seq<TunnelView>, op: TunnelOperator, t: Option<TunnelView>) -> Step {
    match op {
        TunnelOperator::VIEW => Step::Reply(Ok(s)),
        TunnelOperator::EXIT => Step::Exit,
        _ => match t {
            None => Step::Reply(Err(fault_view(Fault::Malformed))),
            Some(t) => match op {
                TunnelOperator::ADD => Step::Reply(add_outcome(s, t)),
                TunnelOperator::DELETE => Step::Reply(delete_outcome(s, t.local_port)),
                TunnelOperator::SYNC => Step::Reply(sync_outcome(s, t)),
                _ => state_step(s, t),
            },
        },
    }
}

} // verus!
