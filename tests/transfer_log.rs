use baud_boss::transfer_log::{TransferLog, TransferLogType, DECODE_ERROR_MESSAGE};

fn summary(log: &TransferLog) -> Vec<(TransferLogType, Vec<u8>, bool)> {
    log.entries()
        .iter()
        .map(|e| (e.log_type, e.data_as_bytes.clone(), e.is_final))
        .collect()
}

fn open_count(log: &TransferLog) -> usize {
    log.entries().iter().filter(|e| !e.is_final).count()
}

#[test]
fn lines_then_partial_line_then_its_end() {
    let mut log = TransferLog::new();
    log.append_received(b"line1\nline2\n");
    assert_eq!(
        summary(&log),
        vec![
            (TransferLogType::SerialData, b"line1".to_vec(), true),
            (TransferLogType::SerialData, b"line2".to_vec(), true),
        ]
    );
    log.append_received(b"partial");
    assert_eq!(log.len(), 3);
    assert_eq!(log.entries()[2].data_as_bytes, b"partial".to_vec());
    assert!(!log.entries()[2].is_final);
    log.append_received(b" end\n");
    assert_eq!(log.len(), 3);
    assert_eq!(log.entries()[2].data_as_bytes, b"partial end".to_vec());
    assert!(log.entries()[2].is_final);
}

#[test]
fn split_reads_give_the_same_log_as_one_read() {
    let whole: &[u8] = b"ab\ncd\n\nef";
    let mut at_once = TransferLog::new();
    at_once.append_received(whole);
    let mut in_pieces = TransferLog::new();
    for piece in [&b"a"[..], b"b\nc", b"d", b"\n", b"\ne", b"f"] {
        in_pieces.append_received(piece);
    }
    assert_eq!(summary(&at_once), summary(&in_pieces));
    assert_eq!(
        summary(&at_once),
        vec![
            (TransferLogType::SerialData, b"ab".to_vec(), true),
            (TransferLogType::SerialData, b"cd".to_vec(), true),
            (TransferLogType::SerialData, b"".to_vec(), true),
            (TransferLogType::SerialData, b"ef".to_vec(), false),
        ]
    );
}

#[test]
fn byte_by_byte_reads_give_the_same_log() {
    let whole: &[u8] = b"hello\nworld\nmore";
    let mut at_once = TransferLog::new();
    at_once.append_received(whole);
    let mut bytewise = TransferLog::new();
    for b in whole {
        bytewise.append_received(&[*b]);
    }
    assert_eq!(summary(&at_once), summary(&bytewise));
}

#[test]
fn at_most_one_entry_is_open() {
    let mut log = TransferLog::new();
    log.append_received(b"abc");
    assert_eq!(open_count(&log), 1);
    log.append_echo(b"sent".to_vec());
    assert_eq!(open_count(&log), 0);
    log.append_received(b"x\ny");
    assert_eq!(open_count(&log), 1);
    log.append_error(b"oops".to_vec());
    assert_eq!(open_count(&log), 0);
    log.append_received(b"z");
    log.append_received(b"w");
    assert_eq!(open_count(&log), 1);
    assert!(!log.entries()[log.len() - 1].is_final);
}

#[test]
fn first_read_into_an_empty_log_starts_an_entry() {
    let mut log = TransferLog::new();
    log.append_received(b"abc");
    assert_eq!(summary(&log), vec![(TransferLogType::SerialData, b"abc".to_vec(), false)]);
}

#[test]
fn empty_read_changes_nothing() {
    let mut log = TransferLog::new();
    log.append_received(b"");
    assert_eq!(log.len(), 0);
    log.append_received(b"ab");
    log.append_received(b"");
    assert_eq!(summary(&log), vec![(TransferLogType::SerialData, b"ab".to_vec(), false)]);
}

#[test]
fn leading_delimiter_closes_the_open_entry() {
    let mut log = TransferLog::new();
    log.append_received(b"abc");
    log.append_received(b"\ndef");
    assert_eq!(
        summary(&log),
        vec![
            (TransferLogType::SerialData, b"abc".to_vec(), true),
            (TransferLogType::SerialData, b"def".to_vec(), false),
        ]
    );
}

#[test]
fn delimiter_after_a_closed_entry_records_an_empty_line() {
    let mut log = TransferLog::new();
    log.append_received(b"a\n");
    log.append_received(b"\n");
    assert_eq!(
        summary(&log),
        vec![
            (TransferLogType::SerialData, b"a".to_vec(), true),
            (TransferLogType::SerialData, b"".to_vec(), true),
        ]
    );
}

#[test]
fn echo_is_never_coalesced() {
    let mut log = TransferLog::new();
    log.append_received(b"partial");
    log.append_echo(b"cmd".to_vec());
    log.append_received(b" more\n");
    assert_eq!(
        summary(&log),
        vec![
            (TransferLogType::SerialData, b"partial".to_vec(), true),
            (TransferLogType::EchoData, b"cmd".to_vec(), true),
            (TransferLogType::SerialData, b" more".to_vec(), true),
        ]
    );
}

#[test]
fn error_entry_closes_the_open_entry() {
    let mut log = TransferLog::new();
    log.append_received(b"abc");
    log.append_error(b"failure".to_vec());
    assert_eq!(
        summary(&log),
        vec![
            (TransferLogType::SerialData, b"abc".to_vec(), true),
            (TransferLogType::ErrorData, b"failure".to_vec(), true),
        ]
    );
}

#[test]
fn text_of_an_entry_drops_trailing_white_space() {
    let mut log = TransferLog::new();
    log.append_received(b"value: 42 \r\t\n");
    assert_eq!(log.entries()[0].get_data_as_string(), Some(String::from("value: 42")));
    log.append_received("caf\u{e9}  \n".as_bytes());
    assert_eq!(log.entries()[1].get_data_as_string(), Some(String::from("caf\u{e9}")));
}

#[test]
fn invalid_utf8_shows_as_an_error_and_keeps_its_bytes() {
    let mut log = TransferLog::new();
    log.append_received(&[0x61, 0xff, 0x62, b'\n']);
    let entry = &log.entries()[0];
    assert_eq!(entry.get_data_as_string(), None);
    assert_eq!(entry.data_as_bytes, vec![0x61, 0xff, 0x62]);
    let line = entry.rendered_line();
    assert_eq!(line.kind, TransferLogType::ErrorData);
    assert_eq!(line.text, DECODE_ERROR_MESSAGE);
}

#[test]
fn rendered_lines_and_width() {
    let mut log = TransferLog::new();
    assert_eq!(log.content_width(), 0);
    log.append_received(b"ab\nabcd  \n");
    log.append_echo("\u{e9}\u{e9}\u{e9}".as_bytes().to_vec());
    let lines = log.rendered_lines();
    assert_eq!(lines.len(), 3);
    assert_eq!(lines[0].text, "ab");
    assert_eq!(lines[1].text, "abcd");
    assert_eq!(lines[2].text, "\u{e9}\u{e9}\u{e9}");
    assert_eq!(lines[2].kind, TransferLogType::EchoData);
    assert_eq!(log.content_width(), 4);
}

#[test]
fn entries_are_stamped_with_the_time() {
    let mut log = TransferLog::new();
    log.append_received(b"a\n");
    assert!(log.entries()[0].timestamp_millis.unwrap() > 1_500_000_000_000);
}
