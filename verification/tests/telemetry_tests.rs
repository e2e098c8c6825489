use proctel::driver::{default_log_path, render_lines, summary_line};
use proctel::encode::encode_event;
use proctel::event::{
    build_end_event, build_start_event, build_stats_event, fresh_id, EnvEntry, EventKind,
    InvocationContext, TelemetryEvent,
};
use proctel::stats::{
    duration_ms_between, exit_code_or_sentinel, get_resource_usage, make_process_stats, Timestamp,
};

fn sample_ctx() -> InvocationContext {
    InvocationContext {
        session_id: b"sess-1".to_vec(),
        pid: 42,
        ppid: 0,
        command: vec![b"echo".to_vec(), b"hello".to_vec()],
        cwd: b"/work".to_vec(),
        env: vec![
            EnvEntry { name: b"PATH".to_vec(), value: b"/bin:/usr/bin".to_vec() },
            EnvEntry { name: b"TRICKY".to_vec(), value: b"a\"b\\c\nd\te".to_vec() },
        ],
    }
}

fn parse(e: &TelemetryEvent) -> serde_json::Value {
    let bytes = encode_event(e);
    serde_json::from_slice(&bytes).expect("record must parse as JSON")
}

fn assert_uuid_shaped(id: &[u8]) {
    assert_eq!(id.len(), 36);
    for (i, b) in id.iter().enumerate() {
        if i == 8 || i == 13 || i == 18 || i == 23 {
            assert_eq!(*b, b'-');
        } else {
            assert!(b.is_ascii_hexdigit() && !b.is_ascii_uppercase());
        }
    }
}

#[test]
fn start_event_parses_with_all_fields() {
    let ts = Timestamp { secs: 1_700_000_000, nanos: 123_456_789 };
    let e = build_start_event(sample_ctx(), ts);
    let v = parse(&e);
    assert_eq!(v["event_type"].as_str(), Some("process_start"));
    assert_eq!(v["session_id"].as_str(), Some("sess-1"));
    assert_eq!(v["pid"].as_i64(), Some(42));
    assert_eq!(v["ppid"].as_i64(), Some(0));
    assert_eq!(v["cwd"].as_str(), Some("/work"));
    let cmd = v["command"].as_array().unwrap();
    assert_eq!(cmd.len(), 2);
    assert_eq!(cmd[0].as_str(), Some("echo"));
    assert_eq!(cmd[1].as_str(), Some("hello"));
    assert_eq!(v["env"]["PATH"].as_str(), Some("/bin:/usr/bin"));
    assert_eq!(v["env"]["TRICKY"].as_str(), Some("a\"b\\c\nd\te"));
    assert!(v["resource_usage"].is_null());
    assert!(v["duration_ms"].is_null());
    assert!(v["exit_code"].is_null());
    assert!(v["stdout_lines"].is_null());
    assert!(v["stderr_lines"].is_null());
    assert!(v["stdin_provided"].is_null());
    assert!(v["stdout_size_bytes"].is_null());
    assert!(v["stderr_size_bytes"].is_null());
    assert!((v["timestamp"].as_f64().unwrap() - 1_700_000_000.123456789).abs() < 1e-3);
}

#[test]
fn end_event_reports_hello_run() {
    let ts = Timestamp { secs: 10, nanos: 0 };
    let e = build_end_event(
        sample_ctx(),
        ts,
        3,
        0,
        vec![b"hello".to_vec()],
        Vec::new(),
        6,
        0,
    );
    let v = parse(&e);
    assert_eq!(v["event_type"].as_str(), Some("process_end"));
    let out = v["stdout_lines"].as_array().unwrap();
    assert_eq!(out.len(), 1);
    assert_eq!(out[0].as_str(), Some("hello"));
    assert_eq!(v["stderr_lines"].as_array().unwrap().len(), 0);
    assert_eq!(v["stdout_size_bytes"].as_u64(), Some(6));
    assert_eq!(v["stderr_size_bytes"].as_u64(), Some(0));
    assert_eq!(v["exit_code"].as_i64(), Some(0));
    assert_eq!(v["duration_ms"].as_u64(), Some(3));
    assert_eq!(v["env"].as_object().unwrap().len(), 0);
}

#[test]
fn end_event_keeps_negative_exit_code() {
    let ts = Timestamp { secs: 10, nanos: 0 };
    let e = build_end_event(sample_ctx(), ts, 1, -1, Vec::new(), Vec::new(), 0, 0);
    let v = parse(&e);
    assert_eq!(v["exit_code"].as_i64(), Some(-1));
}

#[test]
fn stats_event_carries_summary_map() {
    let start = Timestamp { secs: 100, nanos: 0 };
    let end = Timestamp { secs: 101, nanos: 500_000_000 };
    let stats = make_process_stats(start, end, Some(7), 3, 2, 30, 20);
    let e = build_stats_event(sample_ctx(), &stats, 30, 20);
    let v = parse(&e);
    assert_eq!(v["event_type"].as_str(), Some("process_stats"));
    assert_eq!(v["env"]["duration_ms"].as_str(), Some("1500"));
    assert_eq!(v["env"]["stdout_lines"].as_str(), Some("3"));
    assert_eq!(v["env"]["stderr_lines"].as_str(), Some("2"));
    assert_eq!(v["env"]["total_bytes"].as_str(), Some("50"));
    assert_eq!(v["exit_code"].as_i64(), Some(7));
    assert_eq!(v["duration_ms"].as_u64(), Some(1500));
    assert!(v["stdout_lines"].is_null());
    assert!(v["stderr_lines"].is_null());
    assert_eq!(v["stdout_size_bytes"].as_u64(), Some(30));
    assert_eq!(v["stderr_size_bytes"].as_u64(), Some(20));
}

#[test]
fn three_records_share_session_and_keep_order() {
    let start = Timestamp { secs: 5, nanos: 0 };
    let end = Timestamp { secs: 6, nanos: 0 };
    let e1 = build_start_event(sample_ctx(), start);
    let stats = make_process_stats(start, end, Some(0), 1, 0, 6, 0);
    let e2 = build_end_event(
        sample_ctx(),
        end,
        stats.duration_ms,
        stats.exit_code,
        vec![b"hello".to_vec()],
        Vec::new(),
        6,
        0,
    );
    let e3 = build_stats_event(sample_ctx(), &stats, 6, 0);
    let mut log: Vec<u8> = Vec::new();
    for e in [&e1, &e2, &e3] {
        log.extend_from_slice(&encode_event(e));
        log.push(b'\n');
    }
    let text = String::from_utf8(log).expect("log is UTF-8");
    let lines: Vec<&str> = text.lines().collect();
    assert_eq!(lines.len(), 3);
    let kinds = ["process_start", "process_end", "process_stats"];
    let mut session_ids: Vec<String> = Vec::new();
    for (line, kind) in lines.iter().zip(kinds.iter()) {
        let v: serde_json::Value = serde_json::from_str(line).expect("each line parses alone");
        assert_eq!(v["event_type"].as_str(), Some(*kind));
        session_ids.push(v["session_id"].as_str().unwrap().to_string());
        assert_eq!(v["command"].as_array().unwrap().len(), 2);
    }
    assert_eq!(session_ids[0], session_ids[1]);
    assert_eq!(session_ids[1], session_ids[2]);
}

#[test]
fn event_ids_are_uuid_shaped_and_fresh() {
    let ts = Timestamp { secs: 1, nanos: 0 };
    let e1 = build_start_event(sample_ctx(), ts);
    let e2 = build_start_event(sample_ctx(), ts);
    assert_uuid_shaped(&e1.event_id);
    assert_uuid_shaped(&e2.event_id);
    assert_ne!(e1.event_id, e2.event_id);
    assert_eq!(e1.event_type, EventKind::ProcessStart);
}

#[test]
fn fresh_id_is_uuid_shaped() {
    let id = fresh_id();
    assert_uuid_shaped(&id);
    assert_ne!(fresh_id(), fresh_id());
}

#[test]
fn timestamp_is_encoded_with_nine_fraction_digits() {
    let ts = Timestamp { secs: 1, nanos: 5 };
    let e = build_start_event(sample_ctx(), ts);
    let bytes = encode_event(&e);
    let text = String::from_utf8(bytes).unwrap();
    assert!(text.contains("\"timestamp\":1.000000005,"));
}

#[test]
fn duration_is_whole_milliseconds() {
    let a = Timestamp { secs: 1, nanos: 500_000_000 };
    let b = Timestamp { secs: 2, nanos: 499_999_999 };
    assert_eq!(duration_ms_between(a, b), 999);
    assert_eq!(duration_ms_between(a, a), 0);
    let c = Timestamp { secs: 3, nanos: 0 };
    assert_eq!(duration_ms_between(a, c), 1500);
}

#[test]
fn missing_exit_code_maps_to_sentinel() {
    assert_eq!(exit_code_or_sentinel(None), -1);
    assert_eq!(exit_code_or_sentinel(Some(42)), 42);
}

#[test]
fn stats_totals_are_the_sum_of_both_streams() {
    let start = Timestamp { secs: 0, nanos: 0 };
    let end = Timestamp { secs: 0, nanos: 0 };
    let stats = make_process_stats(start, end, None, 10, 20, 1_000, 2_345);
    assert_eq!(stats.total_output_bytes, 3_345);
    assert_eq!(stats.exit_code, -1);
    assert_eq!(stats.stdout_lines, 10);
    assert_eq!(stats.stderr_lines, 20);
    assert!(stats.signal.is_none());
}

#[test]
fn resource_usage_is_stubbed_out() {
    assert!(get_resource_usage().is_none());
}

#[test]
fn rendered_lines_restore_terminators() {
    assert_eq!(render_lines(&vec![b"hello".to_vec()]), b"hello\n".to_vec());
    assert_eq!(render_lines(&Vec::new()), Vec::<u8>::new());
    assert_eq!(render_lines(&vec![b"a".to_vec(), b"b".to_vec()]), b"a\nb\n".to_vec());
}

#[test]
fn summary_line_is_exact() {
    let line = summary_line(&b"sess-1".to_vec(), 12, 0, 1, 6, 0, 0);
    assert_eq!(
        String::from_utf8(line).unwrap(),
        "[sess-1] Completed in 12ms | Exit: 0 | Out: 1 lines/6 bytes | Err: 0 lines/0 bytes",
    );
}

#[test]
fn default_log_path_uses_epoch_seconds() {
    assert_eq!(
        String::from_utf8(default_log_path(1234)).unwrap(),
        "/tmp/rust_telemetry_1234.jsonl",
    );
}

#[test]
fn empty_command_and_env_still_encode() {
    let ctx = InvocationContext {
        session_id: b"s".to_vec(),
        pid: 1,
        ppid: 0,
        command: Vec::new(),
        cwd: Vec::new(),
        env: Vec::new(),
    };
    let v = parse(&build_start_event(ctx, Timestamp { secs: 0, nanos: 0 }));
    assert_eq!(v["command"].as_array().unwrap().len(), 0);
    assert_eq!(v["env"].as_object().unwrap().len(), 0);
    assert_eq!(v["cwd"].as_str(), Some(""));
}

#[test]
fn non_ascii_output_passes_through() {
    let ts = Timestamp { secs: 1, nanos: 0 };
    let line = String::from("h\u{e9}llo \u{2713}").into_bytes();
    let n = line.len();
    let e = build_end_event(sample_ctx(), ts, 0, 0, vec![line], Vec::new(), n, 0);
    let v = parse(&e);
    assert_eq!(v["stdout_lines"][0].as_str(), Some("h\u{e9}llo \u{2713}"));
}

#[test]
fn control_bytes_in_captured_lines_are_escaped() {
    let ts = Timestamp { secs: 1, nanos: 0 };
    let line: Vec<u8> = vec![0x01, b'x', 0x1f, b'\t'];
    let e = build_end_event(sample_ctx(), ts, 0, 0, vec![line.clone()], Vec::new(), 5, 0);
    let v = parse(&e);
    let out = v["stdout_lines"].as_array().unwrap();
    assert_eq!(out[0].as_str(), Some("\u{1}x\u{1f}\t"));
}
