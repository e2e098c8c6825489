//! Telemetry events: immutable records describing a supervised run.
//!
//! Three kinds are emitted per run, in order: `process_start` before the
//! child is spawned, `process_end` after it exited and both streams were
//! drained, and `process_stats` with the derived summary.  Every event of a
//! run carries the same session identifier and command.

use crate::capture::byte_views;
use crate::fmt::{dec_nat, push_dec_u128, push_dec_usize, str_bytes, str_to_bytes};
use crate::stats::{get_resource_usage, ProcessStats, ResourceUsage, Timestamp};
use vstd::prelude::*;

verus! {

/// The kind of moment a telemetry event records.
#[derive(Clone, Copy, PartialEq, Eq, Structural, Debug)]
pub enum EventKind {
    ProcessStart,
    ProcessEnd,
    ProcessStats,
}

/// One name/value pair of an environment snapshot (or of the derived
/// summary mapping in a stats event).
pub struct EnvEntry {
    pub name: Vec<u8>,
    pub value: Vec<u8>,
}

/// The name/value views of a sequence of entries.
pub open spec fn env_views(entries: Seq<EnvEntry>) -> Seq<(Seq<u8>, Seq<u8>)> {
    Seq::new(entries.len(), |i: int| (entries[i].name@, entries[i].value@))
}

/// What was invoked and where: captured once at start, read-only afterwards.
pub struct InvocationContext {
    pub session_id: Vec<u8>,
    pub pid: i32,
    pub ppid: i32,
    pub command: Vec<Vec<u8>>,
    pub cwd: Vec<u8>,
    pub env: Vec<EnvEntry>,
}

/// A single telemetry record; write-once, never mutated.
pub struct TelemetryEvent {
    pub event_id: Vec<u8>,
    pub event_type: EventKind,
    pub timestamp: Timestamp,
    pub pid: i32,
    pub ppid: i32,
    pub session_id: Vec<u8>,
    pub command: Vec<Vec<u8>>,
    pub cwd: Vec<u8>,
    pub env: Vec<EnvEntry>,
    pub resource_usage: Option<ResourceUsage>,
    pub duration_ms: Option<u128>,
    pub exit_code: Option<i32>,
    pub stdout_lines: Option<Vec<Vec<u8>>>,
    pub stderr_lines: Option<Vec<Vec<u8>>>,
    pub stdin_provided: Option<Vec<u8>>,
    pub stdout_size_bytes: Option<usize>,
    pub stderr_size_bytes: Option<usize>,
}

/// A lowercase hexadecimal digit byte.
pub open spec fn is_hex_lower(b: u8) -> bool {
    (0x30 <= b <= 0x39) || (0x61 <= b <= 0x66)
}

/// The text form of a version-4 UUID: 36 bytes, lowercase hexadecimal with
/// hyphens after the 8th, 12th, 16th and 20th digit.
pub open spec fn is_uuid_text(s: Seq<u8>) -> bool {
    &&& s.len() == 36
    &&& forall|i: int|
        0 <= i < 36 ==> (if i == 8 || i == 13 || i == 18 || i == 23 {
            s[i] == 0x2d
        } else {
            is_hex_lower(s[i])
        })
}

/// Relies on `uuid::Uuid::new_v4` and its `Display` impl: a fresh UUID
/// formats as the 36-byte lowercase hyphenated hexadecimal form.  Nothing is
/// assumed about which UUID comes back.
#[verifier::external_body]
fn uuid_v4_text() -> (r: Vec<u8>)
    ensures
        is_uuid_text(r@),
{
    uuid::Uuid::new_v4().to_string().into_bytes()
}

/// A fresh unique identifier in UUID text form, for event or session ids.
pub fn fresh_id() -> (r: Vec<u8>)
    ensures
        is_uuid_text(r@),
{
    uuid_v4_text()
}

/// The event carries the invocation context's identity fields.
pub open spec fn event_matches_ctx(e: TelemetryEvent, ctx: InvocationContext) -> bool {
    &&& e.pid == ctx.pid
    &&& e.ppid == ctx.ppid
    &&& e.session_id@ == ctx.session_id@
    &&& byte_views(e.command@) == byte_views(ctx.command@)
    &&& e.cwd@ == ctx.cwd@
    &&& is_uuid_text(e.event_id@)
}

/// A well-formed `process_start` event for `ctx`, stamped `ts`: it carries
/// the full environment snapshot and no outcome fields.
pub open spec fn is_start_event(e: TelemetryEvent, ctx: InvocationContext, ts: Timestamp) -> bool {
    &&& event_matches_ctx(e, ctx)
    &&& e.event_type == EventKind::ProcessStart
    &&& e.timestamp == ts
    &&& env_views(e.env@) == env_views(ctx.env@)
    &&& e.resource_usage is None
    &&& e.duration_ms is None
    &&& e.exit_code is None
    &&& e.stdout_lines is None
    &&& e.stderr_lines is None
    &&& e.stdin_provided is None
    &&& e.stdout_size_bytes is None
    &&& e.stderr_size_bytes is None
}

/// A well-formed `process_end` event: outcome plus both captured streams,
/// with the environment left out to avoid duplication.
pub open spec fn is_end_event(
    e: TelemetryEvent,
    ctx: InvocationContext,
    ts: Timestamp,
    duration_ms: u128,
    exit_code: i32,
    out_lines: Seq<Seq<u8>>,
    err_lines: Seq<Seq<u8>>,
    stdout_bytes: usize,
    stderr_bytes: usize,
) -> bool {
    &&& event_matches_ctx(e, ctx)
    &&& e.event_type == EventKind::ProcessEnd
    &&& e.timestamp == ts
    &&& env_views(e.env@) == Seq::<(Seq<u8>, Seq<u8>)>::empty()
    &&& e.resource_usage is None
    &&& e.duration_ms == Some(duration_ms)
    &&& e.exit_code == Some(exit_code)
    &&& (e.stdout_lines matches Some(v) && byte_views(v@) == out_lines)
    &&& (e.stderr_lines matches Some(v) && byte_views(v@) == err_lines)
    &&& e.stdin_provided is None
    &&& e.stdout_size_bytes == Some(stdout_bytes)
    &&& e.stderr_size_bytes == Some(stderr_bytes)
}

/// The summary mapping a `process_stats` event carries in place of the
/// environment snapshot.
pub open spec fn stats_summary_views(s: ProcessStats) -> Seq<(Seq<u8>, Seq<u8>)> {
    seq![
        (str_bytes("duration_ms"), dec_nat(s.duration_ms as nat)),
        (str_bytes("stdout_lines"), dec_nat(s.stdout_lines as nat)),
        (str_bytes("stderr_lines"), dec_nat(s.stderr_lines as nat)),
        (str_bytes("total_bytes"), dec_nat(s.total_output_bytes as nat)),
    ]
}

/// A well-formed `process_stats` event: the derived summary, no per-line
/// payload and no environment snapshot.
pub open spec fn is_stats_event(
    e: TelemetryEvent,
    ctx: InvocationContext,
    s: ProcessStats,
    stdout_bytes: usize,
    stderr_bytes: usize,
) -> bool {
    &&& event_matches_ctx(e, ctx)
    &&& e.event_type == EventKind::ProcessStats
    &&& e.timestamp == s.end_time
    &&& env_views(e.env@) == stats_summary_views(s)
    &&& e.resource_usage is None
    &&& e.duration_ms == Some(s.duration_ms)
    &&& e.exit_code == Some(s.exit_code)
    &&& e.stdout_lines is None
    &&& e.stderr_lines is None
    &&& e.stdin_provided is None
    &&& e.stdout_size_bytes == Some(stdout_bytes)
    &&& e.stderr_size_bytes == Some(stderr_bytes)
}

/// Builds the `process_start` event for one invocation.
pub fn build_start_event(ctx: InvocationContext, ts: Timestamp) -> (e: TelemetryEvent)
    ensures
        is_start_event(e, ctx, ts),
{
    TelemetryEvent {
        event_id: uuid_v4_text(),
        event_type: EventKind::ProcessStart,
        timestamp: ts,
        pid: ctx.pid,
        ppid: ctx.ppid,
        session_id: ctx.session_id,
        command: ctx.command,
        cwd: ctx.cwd,
        env: ctx.env,
        resource_usage: get_resource_usage(),
        duration_ms: None,
        exit_code: None,
        stdout_lines: None,
        stderr_lines: None,
        stdin_provided: None,
        stdout_size_bytes: None,
        stderr_size_bytes: None,
    }
}

/// Builds the `process_end` event from the outcome of the run.
pub fn build_end_event(
    ctx: InvocationContext,
    ts: Timestamp,
    duration_ms: u128,
    exit_code: i32,
    stdout_lines: Vec<Vec<u8>>,
    stderr_lines: Vec<Vec<u8>>,
    stdout_bytes: usize,
    stderr_bytes: usize,
) -> (e: TelemetryEvent)
    ensures
        is_end_event(
            e,
            ctx,
            ts,
            duration_ms,
            exit_code,
            byte_views(stdout_lines@),
            byte_views(stderr_lines@),
            stdout_bytes,
            stderr_bytes,
        ),
{
    let e = TelemetryEvent {
        event_id: uuid_v4_text(),
        event_type: EventKind::ProcessEnd,
        timestamp: ts,
        pid: ctx.pid,
        ppid: ctx.ppid,
        session_id: ctx.session_id,
        command: ctx.command,
        cwd: ctx.cwd,
        env: Vec::new(),
        resource_usage: get_resource_usage(),
        duration_ms: Some(duration_ms),
        exit_code: Some(exit_code),
        stdout_lines: Some(stdout_lines),
        stderr_lines: Some(stderr_lines),
        stdin_provided: None,
        stdout_size_bytes: Some(stdout_bytes),
        stderr_size_bytes: Some(stderr_bytes),
    };
    proof {
        assert(env_views(e.env@) =~= Seq::<(Seq<u8>, Seq<u8>)>::empty());
    }
    e
}

/// Builds the `process_stats` event from the derived run summary.
pub fn build_stats_event(
    ctx: InvocationContext,
    stats: &ProcessStats,
    stdout_bytes: usize,
    stderr_bytes: usize,
) -> (e: TelemetryEvent)
    ensures
        is_stats_event(e, ctx, *stats, stdout_bytes, stderr_bytes),
{
    let mut summary: Vec<EnvEntry> = Vec::new();
    let mut duration_text: Vec<u8> = Vec::new();
    push_dec_u128(&mut duration_text, stats.duration_ms);
    summary.push(EnvEntry { name: str_to_bytes("duration_ms"), value: duration_text });
    let mut out_text: Vec<u8> = Vec::new();
    push_dec_usize(&mut out_text, stats.stdout_lines);
    summary.push(EnvEntry { name: str_to_bytes("stdout_lines"), value: out_text });
    let mut err_text: Vec<u8> = Vec::new();
    push_dec_usize(&mut err_text, stats.stderr_lines);
    summary.push(EnvEntry { name: str_to_bytes("stderr_lines"), value: err_text });
    let mut total_text: Vec<u8> = Vec::new();
    push_dec_usize(&mut total_text, stats.total_output_bytes);
    summary.push(EnvEntry { name: str_to_bytes("total_bytes"), value: total_text });
    let e = TelemetryEvent {
        event_id: uuid_v4_text(),
        event_type: EventKind::ProcessStats,
        timestamp: stats.end_time,
        pid: ctx.pid,
        ppid: ctx.ppid,
        session_id: ctx.session_id,
        command: ctx.command,
        cwd: ctx.cwd,
        env: summary,
        resource_usage: None,
        duration_ms: Some(stats.duration_ms),
        exit_code: Some(stats.exit_code),
        stdout_lines: None,
        stderr_lines: None,
        stdin_provided: None,
        stdout_size_bytes: Some(stdout_bytes),
        stderr_size_bytes: Some(stderr_bytes),
    };
    proof {
        assert(env_views(e.env@) =~= stats_summary_views(*stats));
    }
    e
}

/// Every event built from one invocation context carries its session id and
/// command: all records of a run correlate.
pub proof fn lemma_events_share_session(
    e1: TelemetryEvent,
    e2: TelemetryEvent,
    ctx: InvocationContext,
)
    requires
        event_matches_ctx(e1, ctx),
        event_matches_ctx(e2, ctx),
    ensures
        e1.session_id@ == e2.session_id@,
        byte_views(e1.command@) == byte_views(e2.command@),
{
}

} // verus!
