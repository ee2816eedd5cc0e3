use proto_bench::transfer::{
    benchmark_conditions, benchmark_sizes, is_end_of_transfer, ClientStep, Condition,
    FileTransferClient, TransferTally, UDP_TEST_CHUNK_SIZE,
};

#[test]
fn empty_read_ends_a_transfer() {
    assert!(is_end_of_transfer(0));
    assert!(!is_end_of_transfer(1));
}

#[test]
fn tally_counts_non_empty_chunks() {
    let mut t = TransferTally::new();
    assert!(t.count_chunk(1024));
    assert!(t.count_chunk(10));
    assert!(!t.count_chunk(0));
    assert_eq!(t, TransferTally { messages: 2, bytes: 1034 });
}

#[test]
fn tally_refuses_overflowing_chunks() {
    let full = TransferTally { messages: i32::MAX, bytes: 0 };
    assert!(!full.fits(1));
    assert!(full.fits(0));
    let heavy = TransferTally { messages: 0, bytes: usize::MAX - 3 };
    assert!(heavy.fits(3));
    assert!(!heavy.fits(4));
}

#[test]
fn file_client_sends_what_it_read() {
    let c = FileTransferClient::new("/path/to/file".to_string(), 1024, true);
    assert_eq!(c.file_path, "/path/to/file");
    assert_eq!(c.chunk_size, 1024);
    assert!(c.use_udp);
    assert_eq!(c.next_step(0), ClientStep::Finish);
    assert_eq!(c.next_step(17), ClientStep::SendAndAwait { len: 17 });
    assert_eq!(c.next_step(1024), ClientStep::SendAndAwait { len: 1024 });
}

#[test]
fn benchmark_plan() {
    assert_eq!(UDP_TEST_CHUNK_SIZE, 1024);
    assert_eq!(
        benchmark_sizes(),
        vec![500 * 1024 * 1024, 1024 * 1024 * 1024, 1500000, 4000 * 1024, 10000, 1024 * 1024 * 1024]
    );
    let conds = benchmark_conditions();
    assert_eq!(conds.len(), 3);
    for c in conds {
        assert_eq!(Condition::from_name(c.as_str()), Some(c));
    }
    assert_eq!(Condition::from_name("Local network"), Some(Condition::LocalNetwork));
    assert_eq!(Condition::from_name("Satellite"), None);
    assert_eq!(Condition::LowBandwidthNetwork.as_str(), "Low bandwidth network");
}
