use proto_bench::framing::build_file_header;
use proto_bench::models::{Mechanism, Protocol};
use proto_bench::server::{
    Server, ServerAction, ServerError, ServerState, SessionStats, StartStep, UdpSession,
};

fn server(mechanism: Mechanism) -> Server {
    Server::new(Protocol::UDP, mechanism, 0xffff, "127.0.0.1:8080".to_string())
}

#[test]
fn new_stats_are_zero() {
    let s = SessionStats::new();
    assert_eq!(s.count, 0);
    assert_eq!(s.bytes, 0);
}

#[test]
fn stats_record_messages_and_bytes() {
    let mut s = SessionStats::new();
    s.record(10);
    s.record(0);
    s.record(5);
    assert_eq!(s, SessionStats { count: 3, bytes: 15 });
}

#[test]
fn server_new_keeps_settings() {
    let s = Server::new(Protocol::TCP, Mechanism::Stream, 512, "0.0.0.0:9".to_string());
    assert_eq!(s.protocol, Protocol::TCP);
    assert_eq!(s.mechanism, Mechanism::Stream);
    assert_eq!(s.message_length, 512);
    assert_eq!(s.addr, "0.0.0.0:9");
    assert_eq!(s.start_tcp(), Ok(()));
    assert!(matches!(s.start(), StartStep::Finished(Ok(()))));
    assert!(matches!(server(Mechanism::Sync).start(), StartStep::ServeUdp));
}

#[test]
fn first_message_without_any_separator_is_an_error() {
    let srv = server(Mechanism::Sync);
    let mut session = UdpSession::new();
    let mut buf = vec![0u8; 0xffff];
    buf[..5].copy_from_slice(b"hello");
    assert!(session.accepts(&buf, 5));
    let out = srv.handle_datagram(&mut session, &buf, 5);
    assert!(out.send_ack);
    assert_eq!(out.action.unwrap_err(), ServerError::MissingSeparator);
    assert_eq!(session.state, ServerState::WaitForFile);
    assert_eq!(session.stats, SessionStats { count: 1, bytes: 5 });
}

#[test]
fn unterminated_invalid_name_is_an_invalid_path() {
    let srv = server(Mechanism::Stream);
    let mut session = UdpSession::new();
    let buf = vec![0x41u8, 0xff, 0x42];
    assert!(session.accepts(&buf, 3));
    let out = srv.handle_datagram(&mut session, &buf, 3);
    assert!(!out.send_ack);
    assert_eq!(out.action.unwrap_err(), ServerError::InvalidFilePath);
}

#[test]
fn invalid_name_ending_past_the_message_is_an_invalid_path() {
    let srv = server(Mechanism::Sync);
    let mut session = UdpSession::new();
    let buf = vec![0xffu8, 0x41, 0x1f];
    assert!(session.accepts(&buf, 2));
    let out = srv.handle_datagram(&mut session, &buf, 2);
    assert_eq!(out.action.unwrap_err(), ServerError::InvalidFilePath);
}

#[test]
fn first_message_names_the_file() {
    let srv = server(Mechanism::Sync);
    let mut session = UdpSession::new();
    let mut buf = vec![0u8; 64];
    let msg = b"out.bin\x1fhello";
    buf[..msg.len()].copy_from_slice(msg);
    assert!(session.accepts(&buf, msg.len()));
    let out = srv.handle_datagram(&mut session, &buf, msg.len());
    assert!(out.send_ack);
    match out.action.unwrap() {
        ServerAction::BeginFile { path, payload_start, payload_end } => {
            assert_eq!(path, "out.bin");
            assert_eq!(&buf[payload_start..payload_end], b"hello");
        }
        other => panic!("unexpected action {:?}", other),
    }
    assert_eq!(session.state, ServerState::Transferring);
    assert_eq!(session.stats, SessionStats { count: 1, bytes: 13 });
}

#[test]
fn later_messages_are_appended_then_reported() {
    let srv = server(Mechanism::Stream);
    let mut session = UdpSession::new();
    let buf = b"f\x1fab".to_vec();
    let first = srv.handle_datagram(&mut session, &buf, 4);
    assert!(!first.send_ack);
    let data = b"0123456789".to_vec();
    let second = srv.handle_datagram(&mut session, &data, 7);
    assert!(!second.send_ack);
    match second.action.unwrap() {
        ServerAction::Append { len } => assert_eq!(len, 7),
        other => panic!("unexpected action {:?}", other),
    }
    let end = srv.handle_datagram(&mut session, &data, 0);
    match end.action.unwrap() {
        ServerAction::Report { messages, bytes } => {
            assert_eq!(messages, 3);
            assert_eq!(bytes, 11);
        }
        other => panic!("unexpected action {:?}", other),
    }
    assert_eq!(session.state, ServerState::Done);
    let after = srv.handle_datagram(&mut session, &data, 2);
    match after.action.unwrap() {
        ServerAction::Report { messages, bytes } => {
            assert_eq!(messages, 4);
            assert_eq!(bytes, 13);
        }
        other => panic!("unexpected action {:?}", other),
    }
    assert_eq!(session.state, ServerState::Done);
}

#[test]
fn sync_server_acknowledges_every_message() {
    let srv = server(Mechanism::Sync);
    let mut session = UdpSession::new();
    let buf = b"f\x1f".to_vec();
    for size in [2usize, 1, 2, 0, 1] {
        assert!(srv.handle_datagram(&mut session, &buf, size).send_ack);
    }
}

#[test]
fn invalid_file_name_stops_the_session() {
    let srv = server(Mechanism::Sync);
    let mut session = UdpSession::new();
    let buf = vec![0xffu8, 0x1f, 0x41];
    let out = srv.handle_datagram(&mut session, &buf, 3);
    assert!(out.send_ack);
    assert_eq!(out.action.unwrap_err(), ServerError::InvalidFilePath);
    assert_eq!(session.state, ServerState::WaitForFile);
    assert_eq!(session.stats, SessionStats { count: 1, bytes: 3 });
}

#[test]
fn separator_may_lie_beyond_the_message_only_when_not_needed() {
    let session = UdpSession::new();
    let buf = b"abcd\x1f".to_vec();
    assert!(!session.accepts(&buf, 3));
    assert!(session.accepts(&buf, 5));
    assert!(!session.accepts(&buf, 0));
    assert!(!session.accepts(&buf, 6));
    assert!(session.accepts(b"abcd", 2));
    let going = UdpSession { state: ServerState::Transferring, stats: SessionStats::new() };
    assert!(going.accepts(&buf, 0));
    assert!(going.accepts(b"xyz", 3));
}

#[test]
fn counters_that_would_overflow_are_refused() {
    let full = UdpSession {
        state: ServerState::Transferring,
        stats: SessionStats { count: 255, bytes: 0 },
    };
    assert!(!full.accepts(b"x", 1));
    let heavy = UdpSession {
        state: ServerState::Transferring,
        stats: SessionStats { count: 0, bytes: u64::MAX - 1 },
    };
    assert!(heavy.accepts(b"x", 1));
    assert!(!heavy.accepts(b"xy", 2));
}

#[test]
fn client_header_is_read_back_by_the_server() {
    let srv = server(Mechanism::Sync);
    let mut session = UdpSession::new();
    let mut msg = build_file_header("docs/report.md");
    msg.extend_from_slice(b"payload bytes");
    let mut buf = vec![0x1fu8; 0xffff];
    buf[..msg.len()].copy_from_slice(&msg);
    let out = srv.handle_datagram(&mut session, &buf, msg.len());
    match out.action.unwrap() {
        ServerAction::BeginFile { path, payload_start, payload_end } => {
            assert_eq!(path, "docs/report.md.recv");
            assert_eq!(&buf[payload_start..payload_end], b"payload bytes");
        }
        other => panic!("unexpected action {:?}", other),
    }
}
