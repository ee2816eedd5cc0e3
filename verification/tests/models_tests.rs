use proto_bench::models::{Mechanism, Protocol, Role};

#[test]
fn protocol_names_print_and_parse() {
    assert_eq!(Protocol::UDP.to_string(), "udp");
    assert_eq!(Protocol::TCP.to_string(), "tcp");
    assert_eq!(Protocol::parse("udp"), Ok(Protocol::UDP));
    assert_eq!("tcp".parse::<Protocol>(), Ok(Protocol::TCP));
    assert_eq!(Protocol::parse(&Protocol::UDP.to_string()), Ok(Protocol::UDP));
}

#[test]
fn protocol_unknown_name_is_reported() {
    assert_eq!(Protocol::parse("UDP"), Err("Unknown protocol: UDP".to_string()));
    assert_eq!(Protocol::parse(""), Err("Unknown protocol: ".to_string()));
    assert_eq!(Protocol::parse("udpx"), Err("Unknown protocol: udpx".to_string()));
}

#[test]
fn protocol_upper_case_names() {
    assert_eq!(Protocol::from_upper_name("UDP"), Some(Protocol::UDP));
    assert_eq!(Protocol::from_upper_name("TCP"), Some(Protocol::TCP));
    assert_eq!(Protocol::from_upper_name("udp"), None);
    assert_eq!(Protocol::from_upper_name("QUIC"), None);
}

#[test]
fn mechanism_names_print_and_parse() {
    assert_eq!(Mechanism::Stream.to_string(), "stream");
    assert_eq!(Mechanism::Sync.as_str(), "sync");
    assert_eq!("stream".parse::<Mechanism>(), Ok(Mechanism::Stream));
    assert_eq!(Mechanism::parse("sync"), Ok(Mechanism::Sync));
    assert_eq!(Mechanism::parse("async"), Err("Unknown mechanism: async".to_string()));
}

#[test]
fn role_names_print_and_parse() {
    assert_eq!(Role::Client.to_string(), "client");
    assert_eq!(Role::Server.to_string(), "server");
    assert_eq!("server".parse::<Role>(), Ok(Role::Server));
    assert_eq!(Role::parse("client"), Ok(Role::Client));
    assert_eq!(Role::parse("peer"), Err("Unknown role: peer".to_string()));
}

#[test]
fn every_name_reads_back() {
    for p in [Protocol::UDP, Protocol::TCP] {
        assert_eq!(Protocol::parse(p.as_str()), Ok(p));
    }
    for m in [Mechanism::Stream, Mechanism::Sync] {
        assert_eq!(Mechanism::parse(m.as_str()), Ok(m));
    }
    for r in [Role::Client, Role::Server] {
        assert_eq!(Role::parse(r.as_str()), Ok(r));
    }
}
