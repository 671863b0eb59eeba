use ttfb::{
    normalize_input, preferred_of, Action, Elapsed, Event, Failure, IpAddress, Measurement,
    ResolveDnsError, TtfbError,
};

fn start(input: &str, insecure: bool) -> (Measurement, Action) {
    let target = normalize_input(input).unwrap();
    Measurement::new(input.to_string(), target, insecure, "1.0.0".to_string())
}

fn io(kind: &str) -> Failure {
    Failure::new(kind.to_string(), format!("{kind} happened"))
}

fn done(ms: u64) -> Event {
    Event::Completed { elapsed: Elapsed::from_millis(ms) }
}

#[test]
fn domain_input_starts_with_lookup() {
    let (_, action) = start("phip1611.de", false);
    match action {
        Action::ResolveDns { host } => assert_eq!(host, "phip1611.de"),
        other => panic!("unexpected {other:?}"),
    }
}

#[test]
fn full_https_run_chains_all_stages() {
    let (mut m, _) = start("https://phip1611.de", false);
    let event = Event::Resolved {
        addrs: vec![IpAddress::V6(1), IpAddress::V4(0x0a00_0001)],
        elapsed: Elapsed::from_millis(1),
    };
    assert!(m.accepts(&event));
    let action = m.advance(event);
    match action {
        Action::ConnectTcp { addr, port } => {
            assert_eq!(addr, IpAddress::V4(0x0a00_0001));
            assert_eq!(port, 443);
        }
        other => panic!("unexpected {other:?}"),
    }
    match m.advance(done(2)) {
        Action::HandshakeTls { server_name, allow_insecure_certificates } => {
            assert_eq!(server_name, "phip1611.de");
            assert!(!allow_insecure_certificates);
        }
        other => panic!("unexpected {other:?}"),
    }
    match m.advance(done(3)) {
        Action::SendRequest { request } => assert_eq!(
            request,
            "GET / HTTP/1.1\r\nHost: phip1611.de\r\nUser-Agent: ttfb/1.0.0\r\nAccept: */*\r\n\
             Accept-Encoding: gzip, deflate, br\r\n\r\n"
        ),
        other => panic!("unexpected {other:?}"),
    }
    assert!(matches!(m.advance(done(4)), Action::ReadFirstByte));
    match m.advance(done(5)) {
        Action::Finish(o) => {
            assert_eq!(o.user_input(), "https://phip1611.de");
            assert_eq!(o.port(), 443);
            assert_eq!(o.dns_lookup_duration().unwrap().total().as_millis(), 1);
            assert_eq!(o.tcp_connect_duration().total().as_millis(), 3);
            assert_eq!(o.tls_handshake_duration().unwrap().total().as_millis(), 6);
            assert_eq!(o.http_get_send_duration().total().as_millis(), 10);
            assert_eq!(o.ttfb_duration().total().as_millis(), 15);
        }
        other => panic!("unexpected {other:?}"),
    }
    assert!(!m.accepts(&done(1)));
}

#[test]
fn ip_literal_skips_dns() {
    let (mut m, action) = start("127.0.0.1:8080", false);
    assert!(matches!(
        action,
        Action::ConnectTcp { addr: IpAddress::V4(0x7f00_0001), port: 8080 }
    ));
    assert!(!m.accepts(&Event::Resolved { addrs: vec![], elapsed: Elapsed::zero() }));
    assert!(matches!(m.advance(done(2)), Action::SendRequest { .. }));
    assert!(matches!(m.advance(done(4)), Action::ReadFirstByte));
    match m.advance(done(5)) {
        Action::Finish(o) => {
            assert!(o.dns_lookup_duration().is_none());
            assert!(o.tls_handshake_duration().is_none());
            let tcp = o.tcp_connect_duration();
            assert_eq!(tcp.total(), tcp.relative());
            assert_eq!(o.ip_addr(), IpAddress::V4(0x7f00_0001));
            assert_eq!(o.ttfb_duration().total().as_millis(), 11);
        }
        other => panic!("unexpected {other:?}"),
    }
}

#[test]
fn ipv6_literal_skips_dns() {
    let (_, action) = start("http://[::1]:1", false);
    assert!(matches!(action, Action::ConnectTcp { addr: IpAddress::V6(1), port: 1 }));
}

#[test]
fn closed_port_fails_with_tcp_connect_error() {
    let (mut m, action) = start("http://localhost:1", false);
    assert!(matches!(action, Action::ResolveDns { .. }));
    let action = m.advance(Event::Resolved {
        addrs: vec![IpAddress::V4(0x7f00_0001)],
        elapsed: Elapsed::from_millis(1),
    });
    assert!(matches!(action, Action::ConnectTcp { port: 1, .. }));
    match m.advance(Event::Failed(io("ConnectionRefused"))) {
        Action::Abort(e) => assert_eq!(e, TtfbError::CantConnectTcp(io("ConnectionRefused"))),
        other => panic!("unexpected {other:?}"),
    }
    assert!(!m.accepts(&done(1)));
}

#[test]
fn rejected_certificate_fails_with_verification_error() {
    let (mut m, _) = start("https://1.2.3.4", false);
    assert!(matches!(m.advance(done(1)), Action::HandshakeTls { .. }));
    match m.advance(Event::Rejected(io("InvalidData"))) {
        Action::Abort(TtfbError::CantVerifyTls(_)) => {}
        other => panic!("unexpected {other:?}"),
    }
}

#[test]
fn insecure_mode_completes_with_tls_stage() {
    let (mut m, _) = start("https://1.2.3.4", true);
    match m.advance(done(1)) {
        Action::HandshakeTls { server_name, allow_insecure_certificates } => {
            assert_eq!(server_name, "1.2.3.4");
            assert!(allow_insecure_certificates);
        }
        other => panic!("unexpected {other:?}"),
    }
    assert!(matches!(m.advance(done(2)), Action::SendRequest { .. }));
    assert!(matches!(m.advance(done(3)), Action::ReadFirstByte));
    match m.advance(done(4)) {
        Action::Finish(o) => {
            assert_eq!(o.tls_handshake_duration().unwrap().relative().as_millis(), 2);
            assert_eq!(o.tls_handshake_duration().unwrap().total().as_millis(), 3);
        }
        other => panic!("unexpected {other:?}"),
    }
}

#[test]
fn each_stage_maps_its_failure() {
    let (mut m, _) = start("example.com", false);
    assert!(matches!(
        m.advance(Event::ResolverUnavailable(io("Io"))),
        Action::Abort(TtfbError::CantConfigureDNSError(_))
    ));

    let (mut m, _) = start("example.com", false);
    match m.advance(Event::Failed(io("Timeout"))) {
        Action::Abort(e) => {
            assert_eq!(e, TtfbError::CantResolveDns(ResolveDnsError::Other(io("Timeout"))))
        }
        other => panic!("unexpected {other:?}"),
    }

    let (mut m, _) = start("example.com", false);
    match m.advance(Event::Resolved { addrs: vec![], elapsed: Elapsed::zero() }) {
        Action::Abort(e) => assert_eq!(e, TtfbError::CantResolveDns(ResolveDnsError::NoResults)),
        other => panic!("unexpected {other:?}"),
    }

    let (mut m, _) = start("1.2.3.4", false);
    match m.advance(Event::FlushFailed(io("BrokenPipe"))) {
        Action::Abort(e) => assert_eq!(e, TtfbError::OtherStreamError(io("BrokenPipe"))),
        other => panic!("unexpected {other:?}"),
    }

    let (mut m, _) = start("https://1.2.3.4", false);
    m.advance(done(1));
    assert!(matches!(
        m.advance(Event::Failed(io("InvalidData"))),
        Action::Abort(TtfbError::CantConnectTls(_))
    ));

    let (mut m, _) = start("1.2.3.4", false);
    m.advance(done(1));
    match m.advance(Event::Failed(io("ConnectionReset"))) {
        Action::Abort(e) => assert_eq!(e, TtfbError::CantConnectHttp(io("ConnectionReset"))),
        other => panic!("unexpected {other:?}"),
    }

    let (mut m, _) = start("1.2.3.4", false);
    m.advance(done(1));
    m.advance(done(1));
    match m.advance(Event::Failed(io("UnexpectedEof"))) {
        Action::Abort(e) => assert_eq!(e, TtfbError::NoHttpResponse),
        other => panic!("unexpected {other:?}"),
    }
}

#[test]
fn first_ipv4_is_preferred() {
    let v4a = IpAddress::V4(1);
    let v4b = IpAddress::V4(2);
    let v6a = IpAddress::V6(3);
    let v6b = IpAddress::V6(4);
    assert_eq!(preferred_of(&vec![v6a, v4a, v4b]), Some(v4a));
    assert_eq!(preferred_of(&vec![v6b, v6a]), Some(v6b));
    assert_eq!(preferred_of(&vec![]), None);
}

#[test]
fn errors_compare_shallowly() {
    assert_eq!(
        TtfbError::CantConnectTcp(Failure::new("ConnectionRefused".into(), "a".into())),
        TtfbError::CantConnectTcp(Failure::new("ConnectionRefused".into(), "b".into()))
    );
    assert_ne!(
        TtfbError::CantConnectTcp(io("ConnectionRefused")),
        TtfbError::CantConnectTcp(io("TimedOut"))
    );
    assert_eq!(TtfbError::CantVerifyTls(io("x")), TtfbError::CantVerifyTls(io("y")));
    assert_ne!(TtfbError::CantVerifyTls(io("x")), TtfbError::CantConnectTls(io("x")));
    assert_ne!(TtfbError::NoHttpResponse, TtfbError::OtherStreamError(io("x")));
}

#[test]
fn overflowing_durations_are_not_accepted() {
    let (mut m, _) = start("1.2.3.4", false);
    m.advance(Event::Completed { elapsed: Elapsed::from_nanos(u128::MAX) });
    m.advance(done(0));
    assert!(!m.accepts(&Event::Completed { elapsed: Elapsed::from_nanos(1) }));
    assert!(m.accepts(&Event::Completed { elapsed: Elapsed::zero() }));
}
