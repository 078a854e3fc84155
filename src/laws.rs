use vstd::prelude::*;
use crate::error::{fault_view, Fault};
use crate::model::{
    add_outcome, after, control_step, delete_outcome, has_port, port_index, reconciled, start_step,
    start_outcome, step_after, stop_outcome, stop_step, sync_outcome, unique_ports, Step,
};
use crate::tunnel::{has_credential, with_status, TunnelOperator, TunnelState, TunnelView};

verus! {

/// The list after adding each tunnel of `ts` in turn, failed adds included.
pub open spec fn after_adds(s: Seq<TunnelView>, ts: Seq<TunnelView>) -> Seq<TunnelView>
    decreases ts.len(),
{
    if ts.len() == 0 {
        s
    } else {
        after_adds(after(s, add_outcome(s, ts[0])), ts.drop_first())
    }
}

/// The tunnel on a registered port is found at `port_index`, and nowhere else.
pub proof fn lemma_port_index(s: Seq<TunnelView>, port: u16)
    requires
        unique_ports(s),
        has_port(s, port),
    ensures
        0 <= port_index(s, port) < s.len(),
        s[port_index(s, port)].local_port == port,
        forall|i: int| 0 <= i < s.len() && s[i].local_port == port ==> i == port_index(s, port),
{
}

/// An add whose port is already registered is refused with the duplicate-port
/// error; an add is refused only then or for want of a usable credential; and
/// it never leaves two tunnels on one port.
pub proof fn lemma_add_keeps_ports_unique(s: Seq<TunnelView>, t: TunnelView)
    requires
        unique_ports(s),
    ensures
        add_outcome(s, t) is Err <==> (has_port(s, t.local_port) || !has_credential(t)),
        has_port(s, t.local_port) ==> add_outcome(s, t) == Err::<Seq<TunnelView>, (i32, Seq<char>)>(
            fault_view(Fault::DuplicatePort),
        ),
        unique_ports(after(s, add_outcome(s, t))),
{
    if !has_port(s, t.local_port) && has_credential(t) {
        let n = s.push(with_status(t, TunnelState::STOP));
        assert forall|i: int, j: int| 0 <= i < n.len() && 0 <= j < n.len() && i != j implies n[i].local_port
            != n[j].local_port by {
            if i == s.len() as int {
                assert(s[j].local_port != t.local_port);
            } else if j == s.len() as int {
                assert(s[i].local_port != t.local_port);
            }
        }
    }
}

/// Whatever sequence of adds is applied, no two tunnels ever share a port.
pub proof fn lemma_adds_keep_ports_unique(s: Seq<TunnelView>, ts: Seq<TunnelView>)
    requires
        unique_ports(s),
    ensures
        unique_ports(after_adds(s, ts)),
    decreases ts.len(),
{
    if ts.len() > 0 {
        lemma_add_keeps_ports_unique(s, ts[0]);
        lemma_adds_keep_ports_unique(after(s, add_outcome(s, ts[0])), ts.drop_first());
    }
}

/// Delete succeeds exactly when the tunnel exists and is stopped; so does a
/// sync whose new configuration has a usable credential (one without is always
/// refused). On a running tunnel both fail with the invalid-state error.
pub proof fn lemma_state_gated(s: Seq<TunnelView>, t: TunnelView)
    requires
        unique_ports(s),
    ensures
        delete_outcome(s, t.local_port) is Ok <==> (has_port(s, t.local_port)
            && s[port_index(s, t.local_port)].status == TunnelState::STOP),
        has_credential(t) ==> (sync_outcome(s, t) is Ok <==> (has_port(s, t.local_port)
            && s[port_index(s, t.local_port)].status == TunnelState::STOP)),
        !has_credential(t) ==> sync_outcome(s, t) is Err,
        has_port(s, t.local_port) && s[port_index(s, t.local_port)].status == TunnelState::RUNNING ==> {
            &&& delete_outcome(s, t.local_port) == Err::<Seq<TunnelView>, (i32, Seq<char>)>(
                fault_view(Fault::InvalidState(TunnelState::RUNNING)),
            )
            &&& sync_outcome(s, t) == Err::<Seq<TunnelView>, (i32, Seq<char>)>(
                fault_view(Fault::InvalidState(TunnelState::RUNNING)),
            )
        },
{
}

/// Starting a running tunnel, or stopping a stopped one, fails with the
/// invalid-state error and changes nothing, whatever its listener reports.
pub proof fn lemma_transition_guard(
    s: Seq<TunnelView>,
    t: TunnelView,
    report: Result<TunnelState, (i32, Seq<char>)>,
)
    requires
        unique_ports(s),
        has_port(s, t.local_port),
    ensures
        s[port_index(s, t.local_port)].status == t.status ==> {
            &&& control_step(s, TunnelOperator::STATE, Some(t)) == Step::Reply(
                Err(fault_view(Fault::InvalidState(t.status))),
            )
            &&& step_after(s, control_step(s, TunnelOperator::STATE, Some(t))) == s
        },
        s[port_index(s, t.local_port)].status == TunnelState::RUNNING ==> after(
            s,
            start_outcome(s, t.local_port, report),
        ) == s,
        s[port_index(s, t.local_port)].status == TunnelState::STOP ==> after(
            s,
            stop_outcome(s, t.local_port, report),
        ) == s,
        s[port_index(s, t.local_port)].status == TunnelState::RUNNING ==> start_step(s, t) == Step::Reply(
            Err(fault_view(Fault::InvalidState(TunnelState::RUNNING))),
        ),
        s[port_index(s, t.local_port)].status == TunnelState::STOP ==> stop_step(s, t) == Step::Reply(
            Err(fault_view(Fault::InvalidState(TunnelState::STOP))),
        ),
{
}

/// After each successful change, the list that VIEW returns is the registry's
/// list, its ports are unique, and the changed tunnel appears in it exactly
/// once, as the change left it (or not at all after a delete). A start or a
/// stop changes the tunnel's status only.
pub proof fn lemma_snapshot_consistent(
    s: Seq<TunnelView>,
    t: TunnelView,
    report: Result<TunnelState, (i32, Seq<char>)>,
)
    requires
        unique_ports(s),
    ensures
        add_outcome(s, t) matches Ok(n) ==> {
            &&& control_step(n, TunnelOperator::VIEW, None) == Step::Reply(Ok(n))
            &&& unique_ports(n)
            &&& has_port(n, t.local_port)
            &&& n[port_index(n, t.local_port)] == with_status(t, TunnelState::STOP)
        },
        sync_outcome(s, t) matches Ok(n) ==> {
            &&& control_step(n, TunnelOperator::VIEW, None) == Step::Reply(Ok(n))
            &&& unique_ports(n)
            &&& has_port(n, t.local_port)
            &&& n[port_index(n, t.local_port)] == with_status(t, TunnelState::STOP)
        },
        delete_outcome(s, t.local_port) matches Ok(n) ==> {
            &&& control_step(n, TunnelOperator::VIEW, None) == Step::Reply(Ok(n))
            &&& unique_ports(n)
            &&& !has_port(n, t.local_port)
        },
        start_outcome(s, t.local_port, report) matches Ok(n) ==> {
            &&& control_step(n, TunnelOperator::VIEW, None) == Step::Reply(Ok(n))
            &&& unique_ports(n)
            &&& has_port(n, t.local_port)
            &&& report matches Ok(state) && n[port_index(n, t.local_port)] == with_status(
                s[port_index(s, t.local_port)],
                state,
            )
        },
        stop_outcome(s, t.local_port, report) matches Ok(n) ==> {
            &&& control_step(n, TunnelOperator::VIEW, None) == Step::Reply(Ok(n))
            &&& unique_ports(n)
            &&& has_port(n, t.local_port)
            &&& n[port_index(n, t.local_port)] == with_status(s[port_index(s, t.local_port)], TunnelState::STOP)
        },
{
    lemma_add_keeps_ports_unique(s, t);
    if let Ok(n) = add_outcome(s, t) {
        let i = s.len() as int;
        assert(n[i].local_port == t.local_port);
        lemma_port_index(n, t.local_port);
    }
    if has_port(s, t.local_port) {
        let k = port_index(s, t.local_port);
        lemma_port_index(s, t.local_port);
        if let Ok(n) = sync_outcome(s, t) {
            let u = with_status(t, TunnelState::STOP);
            assert(n == s.update(k, u));
            assert(n[k].local_port == t.local_port);
            assert(unique_ports(n));
            lemma_port_index(n, t.local_port);
        }
        if let Ok(n) = delete_outcome(s, t.local_port) {
            assert(n == s.remove(k));
            assert(unique_ports(n)) by {
                assert forall|a: int, b: int| 0 <= a < n.len() && 0 <= b < n.len() && a != b implies n[a].local_port
                    != n[b].local_port by {
                    let a0 = if a < k { a } else { a + 1 };
                    let b0 = if b < k { b } else { b + 1 };
                    assert(n[a] == s[a0]);
                    assert(n[b] == s[b0]);
                }
            }
            assert forall|a: int| 0 <= a < n.len() implies n[a].local_port != t.local_port by {
                let a0 = if a < k { a } else { a + 1 };
                assert(n[a] == s[a0]);
            }
        }
        if let Ok(n) = start_outcome(s, t.local_port, report) {
            let state = report->Ok_0;
            assert(n == s.update(k, with_status(s[k], state)));
            assert(n[k].local_port == t.local_port);
            assert(unique_ports(n));
            lemma_port_index(n, t.local_port);
        }
        if let Ok(n) = stop_outcome(s, t.local_port, report) {
            assert(n == s.update(k, with_status(s[k], TunnelState::STOP)));
            assert(n[k].local_port == t.local_port);
            assert(unique_ports(n));
            lemma_port_index(n, t.local_port);
        }
    }
}

/// Adding a new tunnel and then viewing shows the tunnel exactly as given,
/// except that its status is stopped.
pub proof fn lemma_add_then_view(s: Seq<TunnelView>, t: TunnelView)
    requires
        unique_ports(s),
        !has_port(s, t.local_port),
        has_credential(t),
    ensures
        add_outcome(s, t) is Ok,
        control_step(after(s, add_outcome(s, t)), TunnelOperator::VIEW, None) == Step::Reply(
            Ok(after(s, add_outcome(s, t))),
        ),
        after(s, add_outcome(s, t)).last() == with_status(t, TunnelState::STOP),
        after(s, add_outcome(s, t))[port_index(after(s, add_outcome(s, t)), t.local_port)]
            == with_status(t, TunnelState::STOP),
{
    lemma_snapshot_consistent(s, t, Ok(TunnelState::STOP));
}

/// Reconciliation marks a running tunnel whose listener exited as stopped,
/// leaves every other tunnel as it was, keeps ports unique, and the next VIEW
/// shows the result.
pub proof fn lemma_reconcile_stops_exited(s: Seq<TunnelView>, exited: Seq<bool>, i: int)
    requires
        unique_ports(s),
        exited.len() == s.len(),
        0 <= i < s.len(),
    ensures
        s[i].status == TunnelState::RUNNING && exited[i] ==> reconciled(s, exited)[i] == with_status(
            s[i],
            TunnelState::STOP,
        ),
        !(s[i].status == TunnelState::RUNNING && exited[i]) ==> reconciled(s, exited)[i] == s[i],
        unique_ports(reconciled(s, exited)),
        control_step(reconciled(s, exited), TunnelOperator::VIEW, None) == Step::Reply(
            Ok(reconciled(s, exited)),
        ),
{
    let n = reconciled(s, exited);
    assert forall|a: int, b: int| 0 <= a < n.len() && 0 <= b < n.len() && a != b implies n[a].local_port
        != n[b].local_port by {
        assert(n[a].local_port == s[a].local_port);
        assert(n[b].local_port == s[b].local_port);
    }
}

} // verus!
