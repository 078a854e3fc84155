use vstd::prelude::*;
use crate::error::{ConvertToPluginError, Error, Fault, TunnelResult};
use crate::model::{
    add_outcome, after, control_step, delete_outcome, has_port, port_index, reconciled, start_step,
    start_outcome, state_step, step_after, stop_outcome, stop_step, sync_outcome, transition_fault,
    unique_ports, Outcome, Step,
};
use crate::tunnel::{views, with_status, Tunnel, TunnelControl, TunnelOperator, TunnelState, TunnelView};

verus! {

/// A registered tunnel together with the link to its listener, held while the
/// listener runs. `H` is whatever the runtime uses to reach the listener.
pub struct TunnelWrapper<H> {
    pub tunnel: Tunnel,
    pub link: Option<H>,
}

impl<H> TunnelWrapper<H> {
    /// A wrapper with no listener.
    pub fn from_tunnel(tunnel: Tunnel) -> (r: TunnelWrapper<H>)
        ensures
            r.tunnel == tunnel,
            r.link.is_none(),
    {
        TunnelWrapper { tunnel, link: None }
    }
}

/// The authoritative set of tunnels, keyed by local port, in the order in
/// which they were added.
pub struct TunnelWrapperMap<H> {
    wrappers: Vec<TunnelWrapper<H>>,
}

impl<H> View for TunnelWrapperMap<H> {
    type V = Seq<TunnelView>;

    closed spec fn view(&self) -> Seq<TunnelView> {
        self.wrappers@.map_values(|w: TunnelWrapper<H>| w.tunnel@)
    }
}

/// The reply `r` is what outcome `o` reports: the full list of tunnels after a
/// success, the error after a failure.
pub open spec fn reply_matches(r: TunnelResult<Vec<Tunnel>>, o: Outcome) -> bool {
    match o {
        Ok(n) => r is Ok && views(r->Ok_0@) == n,
        Err(e) => r is Err && r->Err_0@ == e,
    }
}

impl<H> TunnelWrapperMap<H> {
    /// The listener links, position by position.
    pub closed spec fn links(&self) -> Seq<Option<H>> {
        self.wrappers@.map_values(|w: TunnelWrapper<H>| w.link)
    }

    /// Ports are unique, and a tunnel holds a link to its listener exactly
    /// while it is running.
    pub open spec fn wf(&self) -> bool {
        &&& unique_ports(self@)
        &&& self.links().len() == self@.len()
        &&& forall|i: int|
            0 <= i < self@.len() ==> (#[trigger] self.links()[i] is Some <==> self@[i].status
                == TunnelState::RUNNING)
    }

    pub fn new() -> (r: Self)
        ensures
            r.wf(),
            r@ == Seq::<TunnelView>::empty(),
    {
        let r = TunnelWrapperMap { wrappers: Vec::new() };
        assert(r@ =~= Seq::<TunnelView>::empty());
        assert(r.links() =~= Seq::<Option<H>>::empty());
        r
    }

    pub fn len(&self) -> (r: usize)
        ensures
            r == self@.len(),
    {
        self.wrappers.len()
    }

    /// The wrapper at position `i`.
    pub fn wrapper(&self, i: usize) -> (r: &TunnelWrapper<H>)
        requires
            i < self@.len(),
        ensures
            r.tunnel@ == self@[i as int],
            r.link == self.links()[i as int],
    {
        &self.wrappers[i]
    }

    /// The link to the listener of the tunnel on `port`, held exactly while
    /// that tunnel is running.
    pub fn link_of(&self, port: u16) -> (r: Option<&H>)
        requires
            self.wf(),
        ensures
            r is Some <==> has_port(self@, port) && self@[port_index(self@, port)].status
                == TunnelState::RUNNING,
            r matches Some(h) ==> self.links()[port_index(self@, port)] == Some(*h),
    {
        match self.find(port) {
            Some(i) => {
                assert(self.links()[i as int] == self.wrappers@[i as int].link);
                self.wrappers[i].link.as_ref()
            },
            None => None,
        }
    }

    /// The position of the tunnel on `port`.
    fn find(&self, port: u16) -> (r: Option<usize>)
        requires
            unique_ports(self@),
        ensures
            match r {
                Some(i) => i < self@.len() && i == port_index(self@, port) && has_port(self@, port),
                None => !has_port(self@, port),
            },
    {
        let n = self.wrappers.len();
        let mut i: usize = 0;
        while i < n
            invariant
                n == self@.len(),
                i <= n,
                unique_ports(self@),
                forall|j: int| 0 <= j < i ==> self@[j].local_port != port,
            decreases n - i,
        {
            if self.wrappers[i].tunnel.local_port == port {
                proof {
                    assert(self@[i as int].local_port == port);
                    let k = port_index(self@, port);
                    assert(has_port(self@, port));
                    assert(0 <= k < self@.len() && self@[k].local_port == port);
                    assert(k == i);
                }
                return Some(i);
            }
            i += 1;
        }
        None
    }
}

/// VIEW: the full list of tunnels.
pub fn make_tunels<H>(tunnels: &TunnelWrapperMap<H>) -> (r: Vec<Tunnel>)
    ensures
        views(r@) == tunnels@,
{
    let mut out: Vec<Tunnel> = Vec::new();
    let n = tunnels.wrappers.len();
    let mut i: usize = 0;
    while i < n
        invariant
            n == tunnels@.len(),
            i <= n,
            views(out@) =~= tunnels@.subrange(0, i as int),
        decreases n - i,
    {
        let t = tunnels.wrappers[i].tunnel.duplicate();
        assert(t@ == tunnels@[i as int]);
        let ghost prev = out@;
        out.push(t);
        assert(views(out@) =~= views(prev).push(t@));
        i += 1;
        assert(views(out@) =~= tunnels@.subrange(0, i as int));
    }
    assert(tunnels@.subrange(0, n as int) =~= tunnels@);
    out
}

/// ADD: registers `tunnel`, stopped, unless its local port is taken.
pub fn add_tunnel<H>(tunnel: Tunnel, tunnels: &mut TunnelWrapperMap<H>) -> (r: TunnelResult<Vec<Tunnel>>)
    requires
        old(tunnels).wf(),
    ensures
        final(tunnels).wf(),
        final(tunnels)@ == after(old(tunnels)@, add_outcome(old(tunnels)@, tunnel@)),
        reply_matches(r, add_outcome(old(tunnels)@, tunnel@)),
        final(tunnels).links() == if r is Ok {
            old(tunnels).links().push(None)
        } else {
            old(tunnels).links()
        },
{
    match tunnels.find(tunnel.local_port) {
        Some(_) => Err(Fault::DuplicatePort.convert()),
        None if !tunnel.has_credential() => Err(Fault::NoCredential.convert()),
        None => {
            let ghost s0 = tunnels@;
            let mut tunnel = tunnel;
            tunnel.status = TunnelState::STOP;
            let ghost added = tunnel@;
            let ghost l0 = tunnels.links();
            tunnels.wrappers.push(TunnelWrapper::from_tunnel(tunnel));
            assert(tunnels@ =~= s0.push(added));
            assert(tunnels.links() =~= l0.push(None));
            Ok(make_tunels(tunnels))
        },
    }
}

/// DELETE: removes the tunnel on `tunnel`'s local port, which must exist and be stopped.
pub fn delete_tunnel<H>(tunnel: Tunnel, tunnels: &mut TunnelWrapperMap<H>) -> (r: TunnelResult<Vec<Tunnel>>)
    requires
        old(tunnels).wf(),
    ensures
        final(tunnels).wf(),
        final(tunnels)@ == after(old(tunnels)@, delete_outcome(old(tunnels)@, tunnel.local_port)),
        reply_matches(r, delete_outcome(old(tunnels)@, tunnel.local_port)),
        final(tunnels).links() == if r is Ok {
            old(tunnels).links().remove(port_index(old(tunnels)@, tunnel.local_port))
        } else {
            old(tunnels).links()
        },
{
    match tunnels.find(tunnel.local_port) {
        None => Err(Fault::NotFound.convert()),
        Some(i) => {
            if tunnels.wrappers[i].tunnel.status == TunnelState::RUNNING {
                Err(Fault::InvalidState(TunnelState::RUNNING).convert())
            } else {
                let ghost s0 = tunnels@;
                let ghost l0 = tunnels.links();
                tunnels.wrappers.remove(i);
                assert(tunnels@ =~= s0.remove(i as int));
                assert(tunnels.links() =~= l0.remove(i as int));
                Ok(make_tunels(tunnels))
            }
        },
    }
}

/// SYNC: replaces the configuration of the tunnel on `tunnel`'s local port,
/// which must exist and be stopped; it stays stopped.
pub fn change_tunnel<H>(tunnel: Tunnel, tunnels: &mut TunnelWrapperMap<H>) -> (r: TunnelResult<Vec<Tunnel>>)
    requires
        old(tunnels).wf(),
    ensures
        final(tunnels).wf(),
        final(tunnels)@ == after(old(tunnels)@, sync_outcome(old(tunnels)@, tunnel@)),
        reply_matches(r, sync_outcome(old(tunnels)@, tunnel@)),
        final(tunnels).links() == old(tunnels).links(),
{
    match tunnels.find(tunnel.local_port) {
        None => Err(Fault::NotFound.convert()),
        Some(i) => {
            if tunnels.wrappers[i].tunnel.status == TunnelState::RUNNING {
                Err(Fault::InvalidState(TunnelState::RUNNING).convert())
            } else if !tunnel.has_credential() {
                Err(Fault::NoCredential.convert())
            } else {
                let ghost s0 = tunnels@;
                let mut tunnel = tunnel;
                tunnel.status = TunnelState::STOP;
                let ghost replaced = tunnel@;
                let ghost l0 = tunnels.links();
                tunnels.wrappers[i].tunnel = tunnel;
                assert(tunnels@ =~= s0.update(i as int, replaced));
                assert(tunnels.links() =~= l0);
                Ok(make_tunels(tunnels))
            }
        },
    }
}

/// What to do next with a control message.
pub enum Action {
    /// Send this reply.
    Reply(TunnelResult<Vec<Tunnel>>),
    /// Start a listener for this registered tunnel, then hand its first report
    /// to [`tunnel_started`].
    Listen(Tunnel),
    /// Send the stop command to this registered tunnel's listener, then hand
    /// its report to [`tunnel_stopped`].
    Halt(Tunnel),
    /// Leave the control loop.
    Exit,
}

/// The action `a` is the one step `st` asks for.
pub open spec fn action_matches(a: Action, st: Step) -> bool {
    match st {
        Step::Reply(o) => a is Reply && reply_matches(a->Reply_0, o),
        Step::Listen(t) => a is Listen && a->Listen_0@ == t,
        Step::Halt(t) => a is Halt && a->Halt_0@ == t,
        Step::Exit => a is Exit,
    }
}

/// The model of a listener's report.
pub open spec fn report_view(report: TunnelResult<TunnelState>) -> Result<TunnelState, (i32, Seq<char>)> {
    match report {
        Ok(state) => Ok(state),
        Err(e) => Err(e@),
    }
}

/// Why a transition of the tunnel on `port` towards `target` is refused, if it is.
fn check_transition<H>(tunnels: &TunnelWrapperMap<H>, port: u16, target: TunnelState) -> (r: Result<usize, Fault>)
    requires
        tunnels.wf(),
    ensures
        match r {
            Ok(i) => transition_fault(tunnels@, port, target) is None && i == port_index(tunnels@, port)
                && i < tunnels@.len(),
            Err(f) => transition_fault(tunnels@, port, target) == Some(f),
        },
{
    match tunnels.find(port) {
        None => Err(Fault::NotFound),
        Some(i) => {
            if tunnels.wrappers[i].tunnel.status == target {
                Err(Fault::InvalidState(target))
            } else {
                Ok(i)
            }
        },
    }
}

/// STATE towards running: asks for a listener unless the tunnel is missing or already running.
pub fn start_tunnel<H>(tunnel: Tunnel, tunnels: &TunnelWrapperMap<H>) -> (r: Action)
    requires
        tunnels.wf(),
    ensures
        action_matches(r, start_step(tunnels@, tunnel@)),
{
    match check_transition(tunnels, tunnel.local_port, TunnelState::RUNNING) {
        Err(f) => Action::Reply(Err(f.convert())),
        Ok(i) => {
            let mut registered = tunnels.wrappers[i].tunnel.duplicate();
            registered.status = TunnelState::RUNNING;
            Action::Listen(registered)
        },
    }
}

/// STATE towards stopped: asks to halt the listener unless the tunnel is missing or already stopped.
pub fn stop_tunnel<H>(tunnel: Tunnel, tunnels: &TunnelWrapperMap<H>) -> (r: Action)
    requires
        tunnels.wf(),
    ensures
        action_matches(r, stop_step(tunnels@, tunnel@)),
{
    match check_transition(tunnels, tunnel.local_port, TunnelState::STOP) {
        Err(f) => Action::Reply(Err(f.convert())),
        Ok(i) => Action::Halt(tunnels.wrappers[i].tunnel.duplicate()),
    }
}

/// STATE: the requested status selects start or stop.
pub fn state_tunnel<H>(tunnel: Tunnel, tunnels: &TunnelWrapperMap<H>) -> (r: Action)
    requires
        tunnels.wf(),
    ensures
        action_matches(r, state_step(tunnels@, tunnel@)),
{
    match tunnel.status {
        TunnelState::RUNNING => start_tunnel(tunnel, tunnels),
        TunnelState::STOP => stop_tunnel(tunnel, tunnels),
    }
}

/// End of a start: the listener started for the tunnel on `port` reported
/// `report`; on success the reported state becomes the tunnel's status (its
/// configuration stays as registered), and `link` is kept when that status is
/// running.
pub fn tunnel_started<H>(
    port: u16,
    report: TunnelResult<TunnelState>,
    link: H,
    tunnels: &mut TunnelWrapperMap<H>,
) -> (r: TunnelResult<Vec<Tunnel>>)
    requires
        old(tunnels).wf(),
    ensures
        final(tunnels).wf(),
        final(tunnels)@ == after(old(tunnels)@, start_outcome(old(tunnels)@, port, report_view(report))),
        reply_matches(r, start_outcome(old(tunnels)@, port, report_view(report))),
        final(tunnels).links() == if r is Ok {
            old(tunnels).links().update(
                port_index(old(tunnels)@, port),
                if report == Ok::<TunnelState, Error>(TunnelState::RUNNING) {
                    Some(link)
                } else {
                    None
                },
            )
        } else {
            old(tunnels).links()
        },
{
    match check_transition(tunnels, port, TunnelState::RUNNING) {
        Err(f) => Err(f.convert()),
        Ok(i) => match report {
            Err(e) => Err(e),
            Ok(state) => {
                let ghost s0 = tunnels@;
                let ghost l0 = tunnels.links();
                tunnels.wrappers[i].tunnel.status = state;
                let ghost kept = if state == TunnelState::RUNNING { Some(link) } else { None };
                if state == TunnelState::RUNNING {
                    tunnels.wrappers[i].link = Some(link);
                } else {
                    tunnels.wrappers[i].link = None;
                }
                assert(tunnels@ =~= s0.update(i as int, with_status(s0[i as int], state)));
                assert(tunnels.links() =~= l0.update(i as int, kept));
                Ok(make_tunels(tunnels))
            },
        },
    }
}

/// End of a stop: the listener of the tunnel on `port` answered the stop
/// command with `report`; on an acknowledgment the tunnel is stopped (its
/// configuration stays as registered) and its link is dropped.
pub fn tunnel_stopped<H>(
    port: u16,
    report: TunnelResult<TunnelState>,
    tunnels: &mut TunnelWrapperMap<H>,
) -> (r: TunnelResult<Vec<Tunnel>>)
    requires
        old(tunnels).wf(),
    ensures
        final(tunnels).wf(),
        final(tunnels)@ == after(old(tunnels)@, stop_outcome(old(tunnels)@, port, report_view(report))),
        reply_matches(r, stop_outcome(old(tunnels)@, port, report_view(report))),
        final(tunnels).links() == if r is Ok {
            old(tunnels).links().update(port_index(old(tunnels)@, port), None)
        } else {
            old(tunnels).links()
        },
{
    match check_transition(tunnels, port, TunnelState::STOP) {
        Err(f) => Err(f.convert()),
        Ok(i) => match report {
            Err(e) => Err(e),
            Ok(_) => {
                let ghost s0 = tunnels@;
                let ghost l0 = tunnels.links();
                tunnels.wrappers[i].tunnel.status = TunnelState::STOP;
                tunnels.wrappers[i].link = None;
                assert(tunnels@ =~= s0.update(i as int, with_status(s0[i as int], TunnelState::STOP)));
                assert(tunnels.links() =~= l0.update(i as int, None));
                Ok(make_tunels(tunnels))
            },
        },
    }
}

/// Reconciliation: `exited[i]` tells whether the listener of the `i`-th tunnel
/// has exited on its own; each such running tunnel is marked stopped and loses
/// its link.
pub fn state_check<H>(tunnels: &mut TunnelWrapperMap<H>, exited: &Vec<bool>)
    requires
        old(tunnels).wf(),
        exited@.len() == old(tunnels)@.len(),
    ensures
        final(tunnels).wf(),
        final(tunnels)@ == reconciled(old(tunnels)@, exited@),
        final(tunnels).links() == Seq::new(
            old(tunnels)@.len(),
            |i: int|
                if old(tunnels)@[i].status == TunnelState::RUNNING && exited@[i] {
                    None
                } else {
                    old(tunnels).links()[i]
                },
        ),
{
    let ghost s0 = tunnels@;
    let ghost l0 = tunnels.links();
    let n = tunnels.wrappers.len();
    let mut i: usize = 0;
    while i < n
        invariant
            n == tunnels@.len(),
            n == s0.len(),
            exited@.len() == n,
            i <= n,
            unique_ports(s0),
            l0.len() == n,
            forall|j: int| 0 <= j < n ==> (#[trigger] l0[j] is Some <==> s0[j].status == TunnelState::RUNNING),
            forall|j: int| 0 <= j < i ==> tunnels@[j] == reconciled(s0, exited@)[j],
            forall|j: int| i <= j < n ==> tunnels@[j] == s0[j],
            forall|j: int|
                0 <= j < i ==> #[trigger] tunnels.links()[j] == (if s0[j].status == TunnelState::RUNNING
                    && exited@[j] {
                    None
                } else {
                    l0[j]
                }),
            forall|j: int| i <= j < n ==> #[trigger] tunnels.links()[j] == l0[j],
        decreases n - i,
    {
        let ghost pl = tunnels.links();
        if tunnels.wrappers[i].tunnel.status == TunnelState::RUNNING && exited[i] {
            tunnels.wrappers[i].tunnel.status = TunnelState::STOP;
            tunnels.wrappers[i].link = None;
            assert(tunnels.links() =~= pl.update(i as int, None));
        } else {
            assert(tunnels.links() =~= pl);
        }
        i += 1;
    }
    assert(tunnels@ =~= reconciled(s0, exited@));
    assert(tunnels.links() =~= Seq::new(
        s0.len(),
        |j: int|
            if s0[j].status == TunnelState::RUNNING && exited@[j] {
                None
            } else {
                l0[j]
            },
    ));
    assert forall|a: int, b: int|
        0 <= a < n && 0 <= b < n && a != b implies tunnels@[a].local_port != tunnels@[b].local_port by {
        assert(tunnels@[a].local_port == s0[a].local_port);
        assert(tunnels@[b].local_port == s0[b].local_port);
    }
}

/// The model of a control message's target.
pub open spec fn target_view(tc: TunnelControl) -> Option<TunnelView> {
    match tc.tunnel {
        Some(t) => Some(t@),
        None => None,
    }
}

/// One turn of the control loop: performs the operation of `tc` as far as it
/// needs no listener, and says what is left to do.
pub fn dispatch<H>(tc: TunnelControl, tunnels: &mut TunnelWrapperMap<H>) -> (r: Action)
    requires
        old(tunnels).wf(),
    ensures
        final(tunnels).wf(),
        final(tunnels)@ == step_after(old(tunnels)@, control_step(old(tunnels)@, tc.operator, target_view(tc))),
        action_matches(r, control_step(old(tunnels)@, tc.operator, target_view(tc))),
        final(tunnels).links() == match control_step(old(tunnels)@, tc.operator, target_view(tc)) {
            Step::Reply(Ok(_)) => if tc.operator == TunnelOperator::ADD {
                old(tunnels).links().push(None)
            } else if tc.operator == TunnelOperator::DELETE {
                old(tunnels).links().remove(port_index(old(tunnels)@, tc.tunnel->Some_0.local_port))
            } else {
                old(tunnels).links()
            },
            _ => old(tunnels).links(),
        },
{
    match tc.operator {
        TunnelOperator::VIEW => Action::Reply(Ok(make_tunels(tunnels))),
        TunnelOperator::EXIT => Action::Exit,
        op => match tc.tunnel {
            None => Action::Reply(Err(Fault::Malformed.convert())),
            Some(tunnel) => match op {
                TunnelOperator::ADD => Action::Reply(add_tunnel(tunnel, tunnels)),
                TunnelOperator::DELETE => Action::Reply(delete_tunnel(tunnel, tunnels)),
                TunnelOperator::SYNC => Action::Reply(change_tunnel(tunnel, tunnels)),
                _ => state_tunnel(tunnel, tunnels),
            },
        },
    }
}

} // verus!
