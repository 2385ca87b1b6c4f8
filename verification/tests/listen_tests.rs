use librqbit::listen::{
    ListenAction, ListenAddr, ListenEvent, ListenPhase, ListenerMode, ListenerOptions,
};

fn opts(mode: ListenerMode, addr: ListenAddr, ipv4_only: bool, announce: Option<u16>) -> ListenerOptions {
    ListenerOptions {
        mode,
        listen_addr: addr,
        enable_upnp_port_forwarding: true,
        announce_port: announce,
        ipv4_only,
    }
}

const V6_ANY: ListenAddr = ListenAddr::V6 { ip: 0, port: 4240, flowinfo: 0, scope_id: 0 };

#[test]
fn mode_transports() {
    assert!(ListenerMode::TcpOnly.tcp_enabled());
    assert!(!ListenerMode::TcpOnly.utp_enabled());
    assert!(!ListenerMode::UtpOnly.tcp_enabled());
    assert!(ListenerMode::UtpOnly.utp_enabled());
    assert!(ListenerMode::TcpAndUtp.tcp_enabled());
    assert!(ListenerMode::TcpAndUtp.utp_enabled());
}

#[test]
fn every_mode_opens_a_transport() {
    for mode in [ListenerMode::TcpOnly, ListenerMode::UtpOnly, ListenerMode::TcpAndUtp] {
        assert!(mode.tcp_enabled() || mode.utp_enabled());
    }
}

#[test]
fn default_options() {
    let o = ListenerOptions::default();
    assert!(matches!(o.mode, ListenerMode::TcpOnly));
    assert_eq!(o.listen_addr, ListenAddr::V6 { ip: 0, port: 0, flowinfo: 0, scope_id: 0 });
    assert!(!o.enable_upnp_port_forwarding);
    assert_eq!(o.announce_port, None);
    assert!(!o.ipv4_only);
}

#[test]
fn address_predicates() {
    let lo4 = ListenAddr::V4 { ip: 0x7f00_0001, port: 1 };
    let lo4_other = ListenAddr::V4 { ip: 0x7f12_3456, port: 1 };
    let pub4 = ListenAddr::V4 { ip: 0x0a00_0001, port: 2 };
    let lo6 = ListenAddr::V6 { ip: 1, port: 3, flowinfo: 0, scope_id: 0 };
    assert!(lo4.ip_is_loopback());
    assert!(lo4_other.ip_is_loopback());
    assert!(!pub4.ip_is_loopback());
    assert!(lo6.ip_is_loopback());
    assert!(!V6_ANY.ip_is_loopback());
    assert!(V6_ANY.ip_is_unspecified());
    assert!(V6_ANY.is_ipv6());
    assert!(!pub4.is_ipv6());
    assert_eq!(lo6.port(), 3);
}

#[test]
fn ipv4_only_replaces_v6_unspecified() {
    let o = opts(ListenerMode::TcpOnly, V6_ANY, true, None);
    assert_eq!(o.effective_listen_addr(), ListenAddr::V4 { ip: 0, port: 4240 });
    let o = opts(ListenerMode::TcpOnly, V6_ANY, false, None);
    assert_eq!(o.effective_listen_addr(), V6_ANY);
    let specific = ListenAddr::V6 { ip: 5, port: 9, flowinfo: 1, scope_id: 2 };
    let o = opts(ListenerMode::TcpOnly, specific, true, None);
    assert_eq!(o.effective_listen_addr(), specific);
}

#[test]
fn tcp_and_utp_start_up() {
    let o = opts(ListenerMode::TcpAndUtp, V6_ANY, false, None);
    let (state, action) = o.start();
    match action {
        ListenAction::BindTcp { addr, request_dualstack } => {
            assert_eq!(addr, V6_ANY);
            assert!(request_dualstack);
        }
        _ => panic!("expected a TCP bind"),
    }
    let bound = ListenAddr::V6 { ip: 0, port: 50000, flowinfo: 0, scope_id: 0 };
    let (state, action) = state.on_event(ListenEvent::TcpBound(bound));
    match action {
        ListenAction::BindUtp { addr } => assert_eq!(addr, bound),
        _ => panic!("expected a uTP bind"),
    }
    let (state, action) = state.on_event(ListenEvent::UtpBound(bound));
    assert_eq!(state.phase, ListenPhase::Finished);
    match action {
        ListenAction::Finish(s) => {
            assert_eq!(s.addr, bound);
            assert_eq!(s.announce_port, Some(50000));
            assert!(s.enable_upnp_port_forwarding);
            assert!(s.tcp && s.utp);
        }
        _ => panic!("expected to finish"),
    }
}

#[test]
fn utp_failure_tolerated_with_tcp() {
    let o = opts(ListenerMode::TcpAndUtp, V6_ANY, true, Some(7000));
    let (state, action) = o.start();
    match action {
        ListenAction::BindTcp { addr, request_dualstack } => {
            assert_eq!(addr, ListenAddr::V4 { ip: 0, port: 4240 });
            assert!(!request_dualstack);
        }
        _ => panic!("expected a TCP bind"),
    }
    let bound = ListenAddr::V4 { ip: 0, port: 4240 };
    let (state, _) = state.on_event(ListenEvent::TcpBound(bound));
    let (_, action) = state.on_event(ListenEvent::UtpFailed);
    match action {
        ListenAction::Finish(s) => {
            assert!(s.tcp);
            assert!(!s.utp);
            assert_eq!(s.announce_port, Some(7000));
        }
        _ => panic!("expected to finish"),
    }
}

#[test]
fn utp_failure_fatal_without_tcp() {
    let o = opts(ListenerMode::UtpOnly, V6_ANY, false, None);
    let (state, action) = o.start();
    assert!(matches!(action, ListenAction::BindUtp { addr } if addr == V6_ANY));
    let (state, action) = state.on_event(ListenEvent::UtpFailed);
    assert!(matches!(action, ListenAction::Fail));
    assert_eq!(state.phase, ListenPhase::Failed);
}

#[test]
fn tcp_failure_is_fatal() {
    let o = opts(ListenerMode::TcpOnly, V6_ANY, false, None);
    let (state, _) = o.start();
    let (state, action) = state.on_event(ListenEvent::TcpFailed);
    assert!(matches!(action, ListenAction::Fail));
    assert_eq!(state.phase, ListenPhase::Failed);
}

#[test]
fn tcp_only_loopback_announces_nothing() {
    let lo = ListenAddr::V4 { ip: 0x7f00_0001, port: 6881 };
    let o = opts(ListenerMode::TcpOnly, lo, false, None);
    let (state, _) = o.start();
    let (_, action) = state.on_event(ListenEvent::TcpBound(lo));
    match action {
        ListenAction::Finish(s) => {
            assert_eq!(s.announce_port, None);
            assert!(s.tcp && !s.utp);
        }
        _ => panic!("expected to finish"),
    }
}

#[test]
fn unexpected_event_fails() {
    let o = opts(ListenerMode::TcpOnly, V6_ANY, false, None);
    let (state, _) = o.start();
    let (_, action) = state.on_event(ListenEvent::UtpBound(V6_ANY));
    assert!(matches!(action, ListenAction::Fail));
}

#[test]
fn announce_port_rules() {
    let o = opts(ListenerMode::TcpOnly, V6_ANY, false, None);
    assert_eq!(o.announce_port_for(&ListenAddr::V6 { ip: 1, port: 5, flowinfo: 0, scope_id: 0 }), None);
    assert_eq!(o.announce_port_for(&ListenAddr::V6 { ip: 2, port: 5, flowinfo: 0, scope_id: 0 }), Some(5));
    let o = opts(ListenerMode::TcpOnly, V6_ANY, false, Some(9));
    assert_eq!(o.announce_port_for(&ListenAddr::V4 { ip: 0x7f00_0001, port: 5 }), Some(9));
}
