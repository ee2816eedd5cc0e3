use proto_bench::framing::{
    ack_payload, build_file_header, chunk_count, find_separator, header_fits_in, whole_chunks,
    SERVER_MSG_SEPARATOR,
};
use proto_bench::text::{decode_text, same_text};

#[test]
fn header_is_name_suffix_and_separator() {
    assert_eq!(build_file_header("a.txt"), b"a.txt.recv\x1f".to_vec());
    assert_eq!(build_file_header(""), b".recv\x1f".to_vec());
    assert_eq!(build_file_header("é"), vec![0xc3, 0xa9, b'.', b'r', b'e', b'c', b'v', 0x1f]);
}

#[test]
fn separator_is_found_first() {
    assert_eq!(SERVER_MSG_SEPARATOR, 0x1f);
    assert_eq!(find_separator(b"ab\x1fcd\x1f"), Some(2));
    assert_eq!(find_separator(b"\x1f"), Some(0));
    assert_eq!(find_separator(b"abc"), None);
    assert_eq!(find_separator(b""), None);
}

#[test]
fn header_must_fit_in_the_message() {
    let buf = b"ab\x1fcd";
    assert!(header_fits_in(buf, 3));
    assert!(header_fits_in(buf, 5));
    assert!(!header_fits_in(buf, 2));
    assert!(!header_fits_in(buf, 0));
    assert!(!header_fits_in(b"abcd", 4));
}

#[test]
fn ack_is_three_letters() {
    assert_eq!(ack_payload(), b"ACK".to_vec());
}

#[test]
fn chunk_count_rounds_up() {
    assert_eq!(chunk_count(0, 1024), 0);
    assert_eq!(chunk_count(1, 1024), 1);
    assert_eq!(chunk_count(1024, 1024), 1);
    assert_eq!(chunk_count(1025, 1024), 2);
    assert_eq!(chunk_count(2049, 1024), 3);
    assert_eq!(chunk_count(u64::MAX - 1024, 1024), (u64::MAX - 1024 + 1023) / 1024);
}

#[test]
fn whole_chunks_round_down() {
    assert_eq!(whole_chunks(5000, 1024), (4, 4096));
    assert_eq!(whole_chunks(1023, 1024), (0, 0));
    assert_eq!(whole_chunks(2048, 1024), (2, 2048));
    assert_eq!(whole_chunks(10000, 1024), (9, 9216));
}

#[test]
fn text_decoding_of_a_prefix() {
    assert_eq!(decode_text(b"ACKxyz", 3), Some("ACK".to_string()));
    assert_eq!(decode_text(b"", 0), Some(String::new()));
    assert_eq!(decode_text(&[0x41, 0xff, 0x42], 3), None);
    assert_eq!(decode_text(&[0x41, 0xff, 0x42], 1), Some("A".to_string()));
    assert_eq!(decode_text(&[0xc3, 0xa9], 2), Some("é".to_string()));
    assert_eq!(decode_text(&[0xc3, 0xa9], 1), None);
}

#[test]
fn same_text_compares_characters() {
    assert!(same_text("udp", "udp"));
    assert!(!same_text("udp", "ud"));
    assert!(!same_text("udp", "tcp"));
    assert!(same_text("", ""));
    assert!(same_text("héllo", "héllo"));
}
