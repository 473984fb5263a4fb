use cao_profile::frame::csv_line;
use cao_profile::frame::csv_lines;
use cao_profile::frame::format_u64;
use cao_profile::frame::json_body;
use cao_profile::Record;

fn rec(name: &[u8], file: &[u8], line: u32, duration_ns: u64, time_ms: Option<u64>) -> Record {
    Record { duration_ns, name: name.to_vec(), file: file.to_vec(), line, time_ms }
}

#[test]
fn format_u64_exact() {
    assert_eq!(format_u64(0), b"0".to_vec());
    assert_eq!(format_u64(7), b"7".to_vec());
    assert_eq!(format_u64(12345), b"12345".to_vec());
    assert_eq!(format_u64(u64::MAX), b"18446744073709551615".to_vec());
}

#[test]
fn csv_line_exact() {
    let r = rec(b"foo fn call label", b"src/lib.rs", 7, 200, None);
    assert_eq!(csv_line(&r), b"[src/lib.rs::7::foo fn call label],200,ns\n".to_vec());
}

#[test]
fn csv_lines_in_order() {
    let rs = vec![rec(b"a", b"x.rs", 1, 10, None), rec(b"b", b"y.rs", 2, 20, None)];
    assert_eq!(csv_lines(&rs), b"[x.rs::1::a],10,ns\n[y.rs::2::b],20,ns\n".to_vec());
}

#[test]
fn csv_lines_empty_batch() {
    let rs: Vec<Record> = Vec::new();
    assert_eq!(csv_lines(&rs), Vec::<u8>::new());
}

#[test]
fn json_body_exact() {
    let rs = vec![
        rec(b"E", b"a.rs", 3, 100, None),
        rec(b"f", b"b.rs", 4, 7, Some(1700000000000)),
    ];
    let expected = "[{\"duration_ns\":100,\"name\":\"E\",\"file\":\"a.rs\",\"line\":3},{\"duration_ns\":7,\"name\":\"f\",\"file\":\"b.rs\",\"line\":4,\"time_ms\":1700000000000}]";
    assert_eq!(json_body(&rs), expected.as_bytes().to_vec());
}

#[test]
fn json_escapes_quotes_and_backslashes() {
    let rs = vec![rec(b"q\"x", b"b\\c.rs", 1, 1, None)];
    let expected = "[{\"duration_ns\":1,\"name\":\"q\\\"x\",\"file\":\"b\\\\c.rs\",\"line\":1}]";
    assert_eq!(json_body(&rs), expected.as_bytes().to_vec());
}

#[test]
fn json_escapes_control_bytes() {
    let rs = vec![rec(b"a\nb", b"c.rs", 1, 1, None)];
    let expected = "[{\"duration_ns\":1,\"name\":\"a\\u000ab\",\"file\":\"c.rs\",\"line\":1}]";
    assert_eq!(json_body(&rs), expected.as_bytes().to_vec());
}

#[test]
fn json_body_empty_batch() {
    let rs: Vec<Record> = Vec::new();
    assert_eq!(json_body(&rs), b"[]".to_vec());
}
