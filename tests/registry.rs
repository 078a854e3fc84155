use leviathan::api::{
    add_tunnel, change_tunnel, delete_tunnel, dispatch, make_tunels, start_tunnel, state_check,
    state_tunnel, stop_tunnel, tunnel_started, tunnel_stopped, Action, TunnelWrapper, TunnelWrapperMap,
};
use leviathan::error::{Error, TunnelResult};
use leviathan::tunnel::{Tunnel, TunnelControl, TunnelOperator, TunnelState};

fn tunnel(local_port: u16, status: TunnelState) -> Tunnel {
    Tunnel {
        local_port,
        remote_port: 80,
        remote_host: String::from("10.0.0.5"),
        ssh_port: 22,
        ssh_host: String::from("bastion.example.com"),
        username: String::from("ops"),
        password: Some(String::from("secret")),
        private_key: None,
        status,
    }
}

fn control(operator: TunnelOperator, t: Option<Tunnel>) -> TunnelControl {
    TunnelControl { tunnel: t, operator }
}

fn expect_ok(r: TunnelResult<Vec<Tunnel>>) -> Vec<Tunnel> {
    match r {
        Ok(v) => v,
        Err(e) => panic!("unexpected error {:?}", e),
    }
}

fn expect_err(r: TunnelResult<Vec<Tunnel>>) -> Error {
    match r {
        Ok(v) => panic!("unexpected success {:?}", v),
        Err(e) => e,
    }
}

fn reply(a: Action) -> TunnelResult<Vec<Tunnel>> {
    match a {
        Action::Reply(r) => r,
        _ => panic!("expected a reply"),
    }
}

fn running_map(port: u16) -> TunnelWrapperMap<u32> {
    let mut m = TunnelWrapperMap::new();
    expect_ok(add_tunnel(tunnel(port, TunnelState::STOP), &mut m));
    expect_ok(tunnel_started(port, Ok(TunnelState::RUNNING), 7, &mut m));
    m
}

#[test]
fn new_registry_is_empty() {
    let m: TunnelWrapperMap<u32> = TunnelWrapperMap::new();
    assert_eq!(m.len(), 0);
    assert!(make_tunels(&m).is_empty());
}

#[test]
fn add_forces_stopped_status() {
    let mut m: TunnelWrapperMap<u32> = TunnelWrapperMap::new();
    let submitted = tunnel(9000, TunnelState::RUNNING);
    let v = expect_ok(add_tunnel(submitted.clone(), &mut m));
    let mut expected = submitted;
    expected.status = TunnelState::STOP;
    assert_eq!(v, vec![expected.clone()]);
    assert_eq!(make_tunels(&m), vec![expected]);
}

#[test]
fn add_duplicate_port_is_rejected() {
    let mut m: TunnelWrapperMap<u32> = TunnelWrapperMap::new();
    expect_ok(add_tunnel(tunnel(9000, TunnelState::STOP), &mut m));
    let mut other = tunnel(9000, TunnelState::STOP);
    other.remote_port = 443;
    let e = expect_err(add_tunnel(other, &mut m));
    assert_eq!(e.code, -2);
    assert_eq!(e.message, "DUPLICATE NODE!!!");
    let v = make_tunels(&m);
    assert_eq!(v.len(), 1);
    assert_eq!(v[0].remote_port, 80);
}

#[test]
fn adds_keep_insertion_order_and_unique_ports() {
    let mut m: TunnelWrapperMap<u32> = TunnelWrapperMap::new();
    for port in [9000u16, 9001, 9000, 9002, 9001] {
        let _ = add_tunnel(tunnel(port, TunnelState::STOP), &mut m);
    }
    let ports: Vec<u16> = make_tunels(&m).iter().map(|t| t.local_port).collect();
    assert_eq!(ports, vec![9000, 9001, 9002]);
}

#[test]
fn delete_stopped_tunnel() {
    let mut m: TunnelWrapperMap<u32> = TunnelWrapperMap::new();
    expect_ok(add_tunnel(tunnel(9000, TunnelState::STOP), &mut m));
    expect_ok(add_tunnel(tunnel(9001, TunnelState::STOP), &mut m));
    let v = expect_ok(delete_tunnel(tunnel(9000, TunnelState::STOP), &mut m));
    assert_eq!(v.len(), 1);
    assert_eq!(v[0].local_port, 9001);
}

#[test]
fn delete_missing_tunnel_is_not_found() {
    let mut m: TunnelWrapperMap<u32> = TunnelWrapperMap::new();
    let e = expect_err(delete_tunnel(tunnel(9000, TunnelState::STOP), &mut m));
    assert_eq!(e.code, -2);
    assert_eq!(e.message, "NODE DOES NOT EXISTS!!!");
}

#[test]
fn delete_and_sync_running_tunnel_are_invalid_state() {
    let mut m = running_map(9000);
    let e = expect_err(delete_tunnel(tunnel(9000, TunnelState::STOP), &mut m));
    assert_eq!(e.code, -2);
    assert_eq!(e.message, "NODE STATE IS RUNNING!!!");
    let e = expect_err(change_tunnel(tunnel(9000, TunnelState::STOP), &mut m));
    assert_eq!(e.message, "NODE STATE IS RUNNING!!!");
    let v = make_tunels(&m);
    assert_eq!(v.len(), 1);
    assert_eq!(v[0].status, TunnelState::RUNNING);
}

#[test]
fn sync_replaces_configuration_and_stays_stopped() {
    let mut m: TunnelWrapperMap<u32> = TunnelWrapperMap::new();
    expect_ok(add_tunnel(tunnel(9000, TunnelState::STOP), &mut m));
    let mut changed = tunnel(9000, TunnelState::RUNNING);
    changed.remote_host = String::from("db.internal");
    changed.remote_port = 5432;
    let v = expect_ok(change_tunnel(changed, &mut m));
    assert_eq!(v.len(), 1);
    assert_eq!(v[0].remote_host, "db.internal");
    assert_eq!(v[0].remote_port, 5432);
    assert_eq!(v[0].status, TunnelState::STOP);
}

#[test]
fn sync_missing_tunnel_is_not_found() {
    let mut m: TunnelWrapperMap<u32> = TunnelWrapperMap::new();
    let e = expect_err(change_tunnel(tunnel(9000, TunnelState::STOP), &mut m));
    assert_eq!(e.message, "NODE DOES NOT EXISTS!!!");
}

#[test]
fn start_asks_for_listener_then_stores_running() {
    let mut m: TunnelWrapperMap<u32> = TunnelWrapperMap::new();
    expect_ok(add_tunnel(tunnel(9000, TunnelState::STOP), &mut m));
    match start_tunnel(tunnel(9000, TunnelState::RUNNING), &m) {
        Action::Listen(t) => assert_eq!(t.local_port, 9000),
        _ => panic!("expected a listener to be started"),
    }
    let v = expect_ok(tunnel_started(9000, Ok(TunnelState::RUNNING), 5, &mut m));
    assert_eq!(v[0].status, TunnelState::RUNNING);
    assert_eq!(m.link_of(9000), Some(&5));
    assert_eq!(m.wrapper(0).link, Some(5));
}

#[test]
fn start_bind_failure_leaves_tunnel_stopped() {
    let mut m: TunnelWrapperMap<u32> = TunnelWrapperMap::new();
    expect_ok(add_tunnel(tunnel(9000, TunnelState::STOP), &mut m));
    let report = Err(Error::build(-2, "Address already in use"));
    let e = expect_err(tunnel_started(9000, report, 5, &mut m));
    assert_eq!(e.code, -2);
    assert_eq!(e.message, "Address already in use");
    assert_eq!(make_tunels(&m)[0].status, TunnelState::STOP);
    assert_eq!(m.link_of(9000), None);
}

#[test]
fn start_missing_tunnel_is_not_found() {
    let m: TunnelWrapperMap<u32> = TunnelWrapperMap::new();
    let e = expect_err(reply(start_tunnel(tunnel(9000, TunnelState::RUNNING), &m)));
    assert_eq!(e.message, "NODE DOES NOT EXISTS!!!");
}

#[test]
fn start_running_tunnel_is_invalid_state() {
    let mut m = running_map(9000);
    let e = expect_err(reply(state_tunnel(tunnel(9000, TunnelState::RUNNING), &m)));
    assert_eq!(e.code, -2);
    assert_eq!(e.message, "NODE STATE IS RUNNING!!!");
    let e = expect_err(tunnel_started(9000, Ok(TunnelState::RUNNING), 9, &mut m));
    assert_eq!(e.message, "NODE STATE IS RUNNING!!!");
    assert_eq!(m.link_of(9000), Some(&7));
}

#[test]
fn stop_stopped_tunnel_is_invalid_state() {
    let mut m: TunnelWrapperMap<u32> = TunnelWrapperMap::new();
    expect_ok(add_tunnel(tunnel(9000, TunnelState::STOP), &mut m));
    let e = expect_err(reply(state_tunnel(tunnel(9000, TunnelState::STOP), &m)));
    assert_eq!(e.code, -2);
    assert_eq!(e.message, "NODE STATE IS STOP!!!");
    let e = expect_err(tunnel_stopped(9000, Ok(TunnelState::STOP), &mut m));
    assert_eq!(e.message, "NODE STATE IS STOP!!!");
    assert_eq!(make_tunels(&m)[0].status, TunnelState::STOP);
}

#[test]
fn stop_running_tunnel() {
    let mut m = running_map(9000);
    match stop_tunnel(tunnel(9000, TunnelState::STOP), &m) {
        Action::Halt(t) => assert_eq!(t.local_port, 9000),
        _ => panic!("expected the listener to be halted"),
    }
    let v = expect_ok(tunnel_stopped(9000, Ok(TunnelState::STOP), &mut m));
    assert_eq!(v[0].status, TunnelState::STOP);
    assert_eq!(m.link_of(9000), None);
}

#[test]
fn reconciliation_stops_exited_listeners_only() {
    let mut m = running_map(9000);
    expect_ok(add_tunnel(tunnel(9001, TunnelState::STOP), &mut m));
    expect_ok(tunnel_started(9001, Ok(TunnelState::RUNNING), 8, &mut m));
    expect_ok(add_tunnel(tunnel(9002, TunnelState::STOP), &mut m));
    state_check(&mut m, &vec![true, false, true]);
    let v = make_tunels(&m);
    assert_eq!(v[0].status, TunnelState::STOP);
    assert_eq!(v[1].status, TunnelState::RUNNING);
    assert_eq!(v[2].status, TunnelState::STOP);
    assert_eq!(m.link_of(9000), None);
    assert_eq!(m.link_of(9001), Some(&8));
    // A reconciled tunnel can be started again.
    expect_ok(tunnel_started(9000, Ok(TunnelState::RUNNING), 3, &mut m));
    assert_eq!(make_tunels(&m)[0].status, TunnelState::RUNNING);
}

#[test]
fn dispatch_view_and_exit() {
    let mut m: TunnelWrapperMap<u32> = TunnelWrapperMap::new();
    expect_ok(add_tunnel(tunnel(9000, TunnelState::STOP), &mut m));
    let v = expect_ok(reply(dispatch(control(TunnelOperator::VIEW, None), &mut m)));
    assert_eq!(v.len(), 1);
    assert!(matches!(dispatch(control(TunnelOperator::EXIT, None), &mut m), Action::Exit));
}

#[test]
fn dispatch_without_tunnel_is_unknown_error() {
    let mut m: TunnelWrapperMap<u32> = TunnelWrapperMap::new();
    for op in [TunnelOperator::ADD, TunnelOperator::DELETE, TunnelOperator::SYNC, TunnelOperator::STATE] {
        let e = expect_err(reply(dispatch(control(op, None), &mut m)));
        assert_eq!(e.code, 0);
        assert_eq!(e.message, "unknow error");
    }
    assert_eq!(m.len(), 0);
}

#[test]
fn end_to_end_scenario() {
    let mut m: TunnelWrapperMap<u32> = TunnelWrapperMap::new();
    let v = expect_ok(reply(dispatch(control(TunnelOperator::ADD, Some(tunnel(9000, TunnelState::STOP))), &mut m)));
    assert_eq!(v.len(), 1);
    assert_eq!(v[0].remote_port, 80);

    let t = match dispatch(control(TunnelOperator::STATE, Some(tunnel(9000, TunnelState::RUNNING))), &mut m) {
        Action::Listen(t) => t,
        _ => panic!("expected a listener to be started"),
    };
    let v = expect_ok(tunnel_started(t.local_port, Ok(TunnelState::RUNNING), 1, &mut m));
    assert_eq!(v[0].status, TunnelState::RUNNING);

    let e = expect_err(reply(dispatch(control(TunnelOperator::STATE, Some(tunnel(9000, TunnelState::RUNNING))), &mut m)));
    assert_eq!(e.message, "NODE STATE IS RUNNING!!!");

    let t = match dispatch(control(TunnelOperator::STATE, Some(tunnel(9000, TunnelState::STOP))), &mut m) {
        Action::Halt(t) => t,
        _ => panic!("expected the listener to be halted"),
    };
    let v = expect_ok(tunnel_stopped(t.local_port, Ok(TunnelState::STOP), &mut m));
    assert_eq!(v[0].status, TunnelState::STOP);

    let v = expect_ok(reply(dispatch(control(TunnelOperator::DELETE, Some(tunnel(9000, TunnelState::STOP))), &mut m)));
    assert!(v.is_empty());
    let v = expect_ok(reply(dispatch(control(TunnelOperator::VIEW, None), &mut m)));
    assert!(v.iter().all(|t| t.local_port != 9000));
}

#[test]
fn wrapper_from_tunnel_has_no_link() {
    let w: TunnelWrapper<u32> = TunnelWrapper::from_tunnel(tunnel(9000, TunnelState::STOP));
    assert_eq!(w.tunnel.local_port, 9000);
    assert!(w.link.is_none());
}

#[test]
fn snapshot_matches_view_after_each_change() {
    let mut m: TunnelWrapperMap<u32> = TunnelWrapperMap::new();
    let steps: Vec<TunnelResult<Vec<Tunnel>>> = vec![
        add_tunnel(tunnel(9000, TunnelState::STOP), &mut m),
        add_tunnel(tunnel(9001, TunnelState::STOP), &mut m),
        change_tunnel(tunnel(9001, TunnelState::STOP), &mut m),
        tunnel_started(9000, Ok(TunnelState::RUNNING), 4, &mut m),
        delete_tunnel(tunnel(9001, TunnelState::STOP), &mut m),
    ];
    assert_eq!(steps.len(), 5);
    let mut m2: TunnelWrapperMap<u32> = TunnelWrapperMap::new();
    let a = expect_ok(add_tunnel(tunnel(9000, TunnelState::STOP), &mut m2));
    assert_eq!(a, make_tunels(&m2));
    let b = expect_ok(add_tunnel(tunnel(9001, TunnelState::STOP), &mut m2));
    assert_eq!(b, make_tunels(&m2));
    assert_eq!(b.iter().filter(|t| t.local_port == 9001).count(), 1);
    let c = expect_ok(tunnel_started(9001, Ok(TunnelState::RUNNING), 2, &mut m2));
    assert_eq!(c, make_tunels(&m2));
    assert_eq!(c.iter().filter(|t| t.local_port == 9001 && t.status == TunnelState::RUNNING).count(), 1);
    let d = expect_ok(delete_tunnel(tunnel(9000, TunnelState::STOP), &mut m2));
    assert_eq!(d, make_tunels(&m2));
    assert_eq!(d.iter().filter(|t| t.local_port == 9000).count(), 0);
    assert_eq!(make_tunels(&m), vec![{
        let mut t = tunnel(9000, TunnelState::RUNNING);
        t.status = TunnelState::RUNNING;
        t
    }]);
}

#[test]
fn start_reporting_stopped_keeps_no_link() {
    let mut m: TunnelWrapperMap<u32> = TunnelWrapperMap::new();
    expect_ok(add_tunnel(tunnel(9000, TunnelState::STOP), &mut m));
    let v = expect_ok(tunnel_started(9000, Ok(TunnelState::STOP), 6, &mut m));
    assert_eq!(v[0].status, TunnelState::STOP);
    assert_eq!(m.link_of(9000), None);
    assert!(m.wrapper(0).link.is_none());
}

#[test]
fn start_keeps_registered_configuration() {
    let mut m: TunnelWrapperMap<u32> = TunnelWrapperMap::new();
    let registered = tunnel(9000, TunnelState::STOP);
    expect_ok(add_tunnel(registered.clone(), &mut m));
    let mut submitted = tunnel(9000, TunnelState::RUNNING);
    submitted.remote_port = 8080;
    submitted.remote_host = String::from("elsewhere");
    let mut running = registered.clone();
    running.status = TunnelState::RUNNING;
    match start_tunnel(submitted, &m) {
        Action::Listen(t) => assert_eq!(t, running),
        _ => panic!("expected a listener to be started"),
    }
    let v = expect_ok(tunnel_started(9000, Ok(TunnelState::RUNNING), 6, &mut m));
    assert_eq!(v, vec![running.clone()]);

    let mut submitted = tunnel(9000, TunnelState::STOP);
    submitted.remote_port = 8081;
    match stop_tunnel(submitted, &m) {
        Action::Halt(t) => assert_eq!(t, running),
        _ => panic!("expected the listener to be halted"),
    }
    let v = expect_ok(tunnel_stopped(9000, Ok(TunnelState::STOP), &mut m));
    assert_eq!(v, vec![registered]);
}

#[test]
fn stop_acknowledgment_always_leaves_tunnel_stopped() {
    let mut m = running_map(9000);
    let v = expect_ok(tunnel_stopped(9000, Ok(TunnelState::RUNNING), &mut m));
    assert_eq!(v[0].status, TunnelState::STOP);
    assert_eq!(m.link_of(9000), None);
}

#[test]
fn stop_failure_keeps_tunnel_running() {
    let mut m = running_map(9000);
    let e = expect_err(tunnel_stopped(9000, Err(Error::build(-2, "broken pipe")), &mut m));
    assert_eq!(e.message, "broken pipe");
    assert_eq!(make_tunels(&m)[0].status, TunnelState::RUNNING);
    assert_eq!(m.link_of(9000), Some(&7));
}

fn without_credential(local_port: u16, password: Option<&str>, private_key: Option<&str>) -> Tunnel {
    let mut t = tunnel(local_port, TunnelState::STOP);
    t.password = password.map(String::from);
    t.private_key = private_key.map(String::from);
    t
}

#[test]
fn add_without_usable_credential_is_rejected() {
    let mut m: TunnelWrapperMap<u32> = TunnelWrapperMap::new();
    for t in [
        without_credential(9000, None, None),
        without_credential(9000, Some(""), None),
        without_credential(9000, None, Some("")),
        without_credential(9000, Some(""), Some("")),
    ] {
        let e = expect_err(add_tunnel(t, &mut m));
        assert_eq!(e.code, -2);
        assert_eq!(e.message, "NO USABLE CREDENTIAL!!!");
    }
    assert_eq!(m.len(), 0);
    expect_ok(add_tunnel(without_credential(9000, None, Some("/home/ops/.ssh/id_ed25519")), &mut m));
    assert_eq!(m.len(), 1);
}

#[test]
fn add_duplicate_port_wins_over_missing_credential() {
    let mut m: TunnelWrapperMap<u32> = TunnelWrapperMap::new();
    expect_ok(add_tunnel(tunnel(9000, TunnelState::STOP), &mut m));
    let e = expect_err(add_tunnel(without_credential(9000, None, None), &mut m));
    assert_eq!(e.message, "DUPLICATE NODE!!!");
}

#[test]
fn sync_without_usable_credential_is_rejected() {
    let mut m: TunnelWrapperMap<u32> = TunnelWrapperMap::new();
    expect_ok(add_tunnel(tunnel(9000, TunnelState::STOP), &mut m));
    let mut t = without_credential(9000, Some(""), None);
    t.remote_port = 5432;
    let e = expect_err(change_tunnel(t, &mut m));
    assert_eq!(e.code, -2);
    assert_eq!(e.message, "NO USABLE CREDENTIAL!!!");
    assert_eq!(make_tunels(&m)[0].remote_port, 80);
}

#[test]
fn dispatch_add_without_credential_is_rejected() {
    let mut m: TunnelWrapperMap<u32> = TunnelWrapperMap::new();
    let e = expect_err(reply(dispatch(control(TunnelOperator::ADD, Some(without_credential(9000, None, None))), &mut m)));
    assert_eq!(e.message, "NO USABLE CREDENTIAL!!!");
    assert_eq!(m.len(), 0);
}
