use proctel::capture::capture_stream_lines;

#[test]
fn mixed_terminators_stripped_and_counted() {
    let data = b"a\nb\r\nc\n".to_vec();
    let (lines, total) = capture_stream_lines(&data);
    assert_eq!(lines, vec![b"a".to_vec(), b"b".to_vec(), b"c".to_vec()]);
    assert_eq!(total, 7);
}

#[test]
fn final_line_without_terminator_is_kept() {
    let data = b"one\ntwo".to_vec();
    let (lines, total) = capture_stream_lines(&data);
    assert_eq!(lines, vec![b"one".to_vec(), b"two".to_vec()]);
    assert_eq!(total, 7);
}

#[test]
fn empty_stream_yields_nothing() {
    let data: Vec<u8> = Vec::new();
    let (lines, total) = capture_stream_lines(&data);
    assert!(lines.is_empty());
    assert_eq!(total, 0);
}

#[test]
fn blank_lines_are_preserved() {
    let data = b"\n\r\n".to_vec();
    let (lines, total) = capture_stream_lines(&data);
    assert_eq!(lines, vec![b"".to_vec(), b"".to_vec()]);
    assert_eq!(total, 3);
}

#[test]
fn interior_carriage_return_is_kept() {
    let data = b"ab\rcd\n".to_vec();
    let (lines, total) = capture_stream_lines(&data);
    assert_eq!(lines, vec![b"ab\rcd".to_vec()]);
    assert_eq!(total, 6);
}

#[test]
fn trailing_carriage_return_without_line_feed_is_kept() {
    let data = b"x\r".to_vec();
    let (lines, total) = capture_stream_lines(&data);
    assert_eq!(lines, vec![b"x\r".to_vec()]);
    assert_eq!(total, 2);
}

#[test]
fn hello_line_counts_terminator_bytes() {
    let data = b"hello\n".to_vec();
    let (lines, total) = capture_stream_lines(&data);
    assert_eq!(lines, vec![b"hello".to_vec()]);
    assert_eq!(total, 6);
}

#[test]
fn ten_thousand_stderr_lines_and_empty_stdout() {
    let mut stderr_data: Vec<u8> = Vec::new();
    for i in 0..10_000u32 {
        stderr_data.extend_from_slice(format!("err {}\n", i).as_bytes());
    }
    let expected_total = stderr_data.len();
    let (err_lines, err_total) = capture_stream_lines(&stderr_data);
    assert_eq!(err_lines.len(), 10_000);
    assert_eq!(err_total, expected_total);
    assert_eq!(err_lines[0], b"err 0".to_vec());
    assert_eq!(err_lines[9_999], b"err 9999".to_vec());

    let stdout_data: Vec<u8> = Vec::new();
    let (out_lines, out_total) = capture_stream_lines(&stdout_data);
    assert_eq!(out_lines.len(), 0);
    assert_eq!(out_total, 0);
}
