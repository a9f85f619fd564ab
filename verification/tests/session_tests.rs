use rock5::codec::BindAddr;
use rock5::codec::BindIp;
use rock5::codec::HostAddr;
use rock5::session::AddrPlan;
use rock5::session::ConnectOutcome;

use rock5::session::Session;
use rock5::session::SessionError;
use rock5::session::SessionState;
use rock5::session::offers_no_auth;

fn session_at_request_stage() -> Session {
    let mut s = Session::new();
    s.method_header(5, 1).unwrap();
    let (reply, decision) = s.methods(&vec![0u8]);
    assert_eq!(reply, vec![5u8, 0u8]);
    decision.unwrap();
    s
}

#[test]
fn method_selection_accepts_no_auth() {
    let mut s = Session::new();
    assert_eq!(s.method_header(5, 3), Ok(3));
    let (reply, decision) = s.methods(&vec![2u8, 0u8, 1u8]);
    assert_eq!(reply, vec![0x05u8, 0x00u8]);
    assert!(decision.is_ok());
    assert_eq!(s.state, SessionState::AwaitingRequest);
}

#[test]
fn method_selection_rejects_without_no_auth() {
    let mut s = Session::new();
    assert_eq!(s.method_header(5, 2), Ok(2));
    let (reply, decision) = s.methods(&vec![1u8, 2u8]);
    assert_eq!(reply, vec![0x05u8, 0xFFu8]);
    assert_eq!(decision, Err(SessionError::NoAcceptableAuthMethod));
    assert_eq!(s.state, SessionState::Failed);
}

#[test]
fn method_header_rejects_wrong_version() {
    let mut s = Session::new();
    assert_eq!(s.method_header(4, 1), Err(SessionError::UnsupportedVersion));
    assert_eq!(s.state, SessionState::Failed);
}

#[test]
fn method_header_rejects_zero_methods() {
    let mut s = Session::new();
    assert_eq!(s.method_header(5, 0), Err(SessionError::NoMethodsOffered));
    assert_eq!(s.state, SessionState::Failed);
}

#[test]
fn offers_no_auth_scans_whole_list() {
    assert!(offers_no_auth(&vec![0u8]));
    assert!(offers_no_auth(&vec![2u8, 1u8, 0u8]));
    assert!(!offers_no_auth(&vec![2u8, 1u8]));
    assert!(!offers_no_auth(&vec![]));
}

#[test]
fn request_header_rejects_wrong_version() {
    let mut s = session_at_request_stage();
    let f = s.request_header(4, 1, 0, 1).unwrap_err();
    assert_eq!(f.error, SessionError::UnsupportedVersion);
    assert!(f.reply.is_none());
    assert_eq!(s.state, SessionState::Failed);
}

#[test]
fn request_header_rejects_nonzero_reserved() {
    let mut s = session_at_request_stage();
    let f = s.request_header(5, 1, 7, 1).unwrap_err();
    assert_eq!(f.error, SessionError::MalformedRequest);
    assert!(f.reply.is_none());
    assert_eq!(s.state, SessionState::Failed);
}

#[test]
fn request_header_rejects_bind_command_with_general_failure() {
    let mut s = session_at_request_stage();
    let f = s.request_header(5, 2, 0, 1).unwrap_err();
    assert_eq!(f.error, SessionError::UnsupportedCommand);
    assert_eq!(
        f.reply.unwrap(),
        vec![0x05u8, 0x01, 0x00, 0x01, 0, 0, 0, 0, 0, 0]
    );
    assert_eq!(s.state, SessionState::Failed);
}

#[test]
fn request_header_rejects_udp_associate_command() {
    let mut s = session_at_request_stage();
    let f = s.request_header(5, 3, 0, 4).unwrap_err();
    assert_eq!(f.error, SessionError::UnsupportedCommand);
    assert_eq!(
        f.reply.unwrap(),
        vec![0x05u8, 0x01, 0x00, 0x01, 0, 0, 0, 0, 0, 0]
    );
}

#[test]
fn request_header_rejects_unknown_address_type() {
    let mut s = session_at_request_stage();
    let f = s.request_header(5, 1, 0, 2).unwrap_err();
    assert_eq!(f.error, SessionError::UnsupportedAddressType);
    assert_eq!(
        f.reply.unwrap(),
        vec![0x05u8, 0x01, 0x00, 0x01, 0, 0, 0, 0, 0, 0]
    );
    assert_eq!(s.state, SessionState::Failed);
}

#[test]
fn request_header_accepts_each_address_type() {
    let mut s = session_at_request_stage();
    assert_eq!(s.request_header(5, 1, 0, 1).unwrap(), AddrPlan::Ipv4);
    assert_eq!(s.state, SessionState::AwaitingRequest);

    let mut s = session_at_request_stage();
    assert_eq!(s.request_header(5, 1, 0, 3).unwrap(), AddrPlan::Domain);

    let mut s = session_at_request_stage();
    assert_eq!(s.request_header(5, 1, 0, 4).unwrap(), AddrPlan::Ipv6);
}

#[test]
fn addr_plan_byte_counts() {
    assert_eq!(AddrPlan::Ipv4.fixed_len(), 4);
    assert_eq!(AddrPlan::Ipv6.fixed_len(), 16);
    assert_eq!(AddrPlan::Domain.fixed_len(), 0);
    assert!(AddrPlan::Domain.is_domain());
    assert!(!AddrPlan::Ipv4.is_domain());
}

#[test]
fn request_target_parses_ipv4() {
    let mut s = session_at_request_stage();
    s.request_header(5, 1, 0, 1).unwrap();
    let req = s.request_target(&vec![127u8, 0, 0, 1], 0x1F, 0x90);
    assert_eq!(req.addr, HostAddr::Ipv4(vec![127, 0, 0, 1]));
    assert_eq!(req.port, 8080);
    assert_eq!(s.state, SessionState::Connecting);
}

#[test]
fn request_target_parses_ipv6() {
    let mut s = session_at_request_stage();
    s.request_header(5, 1, 0, 4).unwrap();
    let octets: Vec<u8> = vec![0, 0, 0, 0, 0, 0, 0, 0, 0, 0, 0, 0, 0, 0, 0, 1];
    let req = s.request_target(&octets, 0x00, 0x50);
    assert_eq!(req.addr, HostAddr::Ipv6(octets.clone()));
    assert_eq!(req.port, 80);
}

#[test]
fn request_target_parses_domain() {
    let mut s = session_at_request_stage();
    s.request_header(5, 1, 0, 3).unwrap();
    let req = s.request_target(&vec![b'a', b'b', b'.', b'c', b'd'], 0x01, 0xBB);
    assert_eq!(req.addr, HostAddr::Domain("ab.cd".to_string()));
    assert_eq!(req.port, 443);
}

#[test]
fn request_target_parses_empty_domain() {
    let mut s = session_at_request_stage();
    s.request_header(5, 1, 0, 3).unwrap();
    let req = s.request_target(&vec![], 0x00, 0x00);
    assert_eq!(req.addr, HostAddr::Domain(String::new()));
    assert_eq!(req.port, 0);
}

#[test]
fn request_target_decodes_invalid_utf8_lossily() {
    let mut s = session_at_request_stage();
    s.request_header(5, 1, 0, 3).unwrap();
    let req = s.request_target(&vec![0xFFu8, b'x'], 0xFF, 0xFF);
    assert_eq!(req.addr, HostAddr::Domain("\u{FFFD}x".to_string()));
    assert_eq!(req.port, 65535);
}

fn session_at_connect_stage() -> Session {
    let mut s = session_at_request_stage();
    s.request_header(5, 1, 0, 1).unwrap();
    s.request_target(&vec![127u8, 0, 0, 1], 0x00, 0x50);
    s
}

#[test]
fn connect_success_replies_with_local_address() {
    let mut s = session_at_connect_stage();
    let bind = BindAddr { ip: BindIp::V4(vec![10, 0, 0, 2]), port: 0x1234 };
    let reply = s.connect_outcome(ConnectOutcome::Connected(bind)).unwrap();
    assert_eq!(
        reply,
        vec![0x05u8, 0x00, 0x00, 0x01, 10, 0, 0, 2, 0x12, 0x34]
    );
    assert_eq!(s.state, SessionState::Relaying);
}

#[test]
fn connect_success_replies_with_ipv6_local_address() {
    let mut s = session_at_connect_stage();
    let octets: Vec<u8> = vec![0, 1, 2, 3, 4, 5, 6, 7, 8, 9, 10, 11, 12, 13, 14, 15];
    let bind = BindAddr { ip: BindIp::V6(octets.clone()), port: 1 };
    let reply = s.connect_outcome(ConnectOutcome::Connected(bind)).unwrap();
    let mut expected = vec![0x05u8, 0x00, 0x00, 0x04];
    expected.extend_from_slice(&octets);
    expected.extend_from_slice(&[0x00, 0x01]);
    assert_eq!(reply, expected);
}

#[test]
fn unresolvable_target_gets_general_failure() {
    let mut s = session_at_connect_stage();
    let f = s.connect_outcome(ConnectOutcome::Unresolvable).unwrap_err();
    assert_eq!(f.error, SessionError::TargetUnresolvable);
    assert_eq!(f.reply, vec![0x05u8, 0x01, 0x00, 0x01, 0, 0, 0, 0, 0, 0]);
    assert_eq!(s.state, SessionState::Failed);
}

#[test]
fn refused_target_gets_connection_refused() {
    let mut s = session_at_connect_stage();
    let f = s.connect_outcome(ConnectOutcome::Refused).unwrap_err();
    assert_eq!(f.error, SessionError::ConnectionRefused);
    assert_eq!(f.reply, vec![0x05u8, 0x05, 0x00, 0x01, 0, 0, 0, 0, 0, 0]);
    assert_eq!(s.state, SessionState::Failed);
}

#[test]
fn unreachable_target_gets_host_unreachable() {
    let mut s = session_at_connect_stage();
    let f = s.connect_outcome(ConnectOutcome::Unreachable).unwrap_err();
    assert_eq!(f.error, SessionError::HostUnreachable);
    assert_eq!(f.reply, vec![0x05u8, 0x04, 0x00, 0x01, 0, 0, 0, 0, 0, 0]);
}

#[test]
fn timed_out_connect_gets_ttl_expired() {
    let mut s = session_at_connect_stage();
    let f = s.connect_outcome(ConnectOutcome::TimedOut).unwrap_err();
    assert_eq!(f.error, SessionError::ConnectTimedOut);
    assert_eq!(f.reply, vec![0x05u8, 0x06, 0x00, 0x01, 0, 0, 0, 0, 0, 0]);
}

#[test]
fn other_connect_error_gets_general_failure() {
    let mut s = session_at_connect_stage();
    let f = s.connect_outcome(ConnectOutcome::OtherError).unwrap_err();
    assert_eq!(f.error, SessionError::ConnectFailed);
    assert_eq!(f.reply, vec![0x05u8, 0x01, 0x00, 0x01, 0, 0, 0, 0, 0, 0]);
}

#[test]
fn relay_reports_byte_counts_and_closes() {
    let mut s = session_at_connect_stage();
    let bind = BindAddr { ip: BindIp::V4(vec![10, 0, 0, 2]), port: 1 };
    s.connect_outcome(ConnectOutcome::Connected(bind)).unwrap();
    let outcome = s.finish_relay(65536, 1);
    assert_eq!(outcome.client_to_target, 65536);
    assert_eq!(outcome.target_to_client, 1);
    assert_eq!(s.state, SessionState::Closed);
}

#[test]
fn relay_error_closes_the_session() {
    let mut s = session_at_connect_stage();
    let bind = BindAddr { ip: BindIp::V4(vec![10, 0, 0, 2]), port: 1 };
    s.connect_outcome(ConnectOutcome::Connected(bind)).unwrap();
    s.relay_failed();
    assert_eq!(s.state, SessionState::Closed);
}

#[test]
fn two_sessions_do_not_interfere() {
    let mut a = Session::new();
    let mut b = Session::new();
    a.method_header(5, 1).unwrap();
    b.method_header(5, 1).unwrap();
    let (_, da) = a.methods(&vec![0u8]);
    da.unwrap();
    let (_, db) = b.methods(&vec![0u8]);
    db.unwrap();
    a.request_header(5, 1, 0, 1).unwrap();
    b.request_header(5, 1, 0, 1).unwrap();
    a.request_target(&vec![127u8, 0, 0, 1], 0x00, 0x50);
    b.request_target(&vec![127u8, 0, 0, 1], 0x00, 0x50);
    let bind_a = BindAddr { ip: BindIp::V4(vec![10, 0, 0, 2]), port: 1 };
    let bind_b = BindAddr { ip: BindIp::V4(vec![10, 0, 0, 2]), port: 2 };
    a.connect_outcome(ConnectOutcome::Connected(bind_a)).unwrap();
    b.connect_outcome(ConnectOutcome::Connected(bind_b)).unwrap();
    let done_a = a.finish_relay(3, 4);
    assert_eq!(a.state, SessionState::Closed);
    assert_eq!(b.state, SessionState::Relaying);
    let done_b = b.finish_relay(5, 6);
    assert_eq!(b.state, SessionState::Closed);
    assert_eq!(done_a.client_to_target, 3);
    assert_eq!(done_b.target_to_client, 6);
}
