//! Serializing a telemetry event as one JSON record.
//!
//! The encoding is specified byte-for-byte: a single JSON object holding
//! every field of the event, `null` for the absent optional ones.  The
//! record is appended to the log as one line, so it must not contain a raw
//! line feed; see `lemma_record_lf_free` in this module.

use crate::capture::{byte_views, lf};
use crate::event::{env_views, EnvEntry, EventKind, TelemetryEvent};
use crate::fmt::{
    dec_digits, dec_int, dec_nat, push_dec_digits, push_dec_i32, push_dec_i64, push_dec_u128,
    push_dec_u64, push_str_bytes, str_bytes,
};
use crate::json::{jarr, jstr, push_jarr, push_jstr};
use crate::stats::{ResourceUsage, Timestamp};
use vstd::prelude::*;

verus! {

/// A JSON object of string pairs: the comma-separated members.
pub open spec fn jobj_items(pairs: Seq<(Seq<u8>, Seq<u8>)>) -> Seq<u8>
    decreases pairs.len(),
{
    if pairs.len() == 0 {
        Seq::empty()
    } else if pairs.len() == 1 {
        jstr(pairs[0].0) + seq![0x3au8] + jstr(pairs[0].1)
    } else {
        jobj_items(pairs.drop_last()) + seq![0x2cu8] + jstr(pairs.last().0) + seq![0x3au8] + jstr(
            pairs.last().1,
        )
    }
}

/// A JSON object of string pairs.
pub open spec fn jobj(pairs: Seq<(Seq<u8>, Seq<u8>)>) -> Seq<u8> {
    seq![0x7bu8] + jobj_items(pairs) + seq![0x7du8]
}

/// The JSON number for a timestamp: seconds, a dot, and the nanosecond part
/// zero-padded to nine digits.
pub open spec fn timestamp_text(t: Timestamp) -> Seq<u8> {
    dec_nat(t.secs as nat) + seq![0x2eu8] + dec_digits(t.nanos as nat, 9)
}

/// The label of an event kind.
pub open spec fn kind_text(k: EventKind) -> Seq<u8> {
    match k {
        EventKind::ProcessStart => str_bytes("process_start"),
        EventKind::ProcessEnd => str_bytes("process_end"),
        EventKind::ProcessStats => str_bytes("process_stats"),
    }
}

/// An optional count: the number, or `null`.
pub open spec fn opt_u128_text(v: Option<u128>) -> Seq<u8> {
    match v {
        Some(n) => dec_nat(n as nat),
        None => str_bytes("null"),
    }
}

/// An optional exit code: the signed number, or `null`.
pub open spec fn opt_i32_text(v: Option<i32>) -> Seq<u8> {
    match v {
        Some(n) => dec_int(n as int),
        None => str_bytes("null"),
    }
}

/// An optional size: the number, or `null`.
pub open spec fn opt_usize_text(v: Option<usize>) -> Seq<u8> {
    match v {
        Some(n) => dec_nat(n as nat),
        None => str_bytes("null"),
    }
}

/// An optional string: its JSON form, or `null`.
pub open spec fn opt_jstr_text(v: Option<Vec<u8>>) -> Seq<u8> {
    match v {
        Some(s) => jstr(s@),
        None => str_bytes("null"),
    }
}

/// An optional captured line sequence: a JSON array, or `null`.
pub open spec fn opt_lines_text(v: Option<Vec<Vec<u8>>>) -> Seq<u8> {
    match v {
        Some(lines) => jarr(byte_views(lines@)),
        None => str_bytes("null"),
    }
}

/// Optional resource accounting: a JSON object, or `null`.
pub open spec fn resource_usage_text(v: Option<ResourceUsage>) -> Seq<u8> {
    match v {
        Some(u) => str_bytes("{\"user_time_ms\":") + dec_int(u.user_time_ms as int) + str_bytes(
            ",\"system_time_ms\":",
        ) + dec_int(u.system_time_ms as int) + str_bytes(",\"max_rss_kb\":") + dec_int(
            u.max_rss_kb as int,
        ) + str_bytes(",\"page_faults\":") + dec_int(u.page_faults as int) + str_bytes(
            ",\"context_switches\":",
        ) + dec_int(u.context_switches as int) + str_bytes("}"),
        None => str_bytes("null"),
    }
}

/// The full JSON record of an event, byte for byte.
pub open spec fn record_text(e: TelemetryEvent) -> Seq<u8> {
    str_bytes("{\"event_id\":") + jstr(e.event_id@) + str_bytes(",\"event_type\":\"") + kind_text(
        e.event_type,
    ) + str_bytes("\",\"timestamp\":") + timestamp_text(e.timestamp) + str_bytes(",\"pid\":")
        + dec_int(e.pid as int) + str_bytes(",\"ppid\":") + dec_int(e.ppid as int) + str_bytes(
        ",\"session_id\":",
    ) + jstr(e.session_id@) + str_bytes(",\"command\":") + jarr(byte_views(e.command@)) + str_bytes(
        ",\"cwd\":",
    ) + jstr(e.cwd@) + str_bytes(",\"env\":") + jobj(env_views(e.env@)) + str_bytes(
        ",\"resource_usage\":",
    ) + resource_usage_text(e.resource_usage) + str_bytes(",\"duration_ms\":") + opt_u128_text(
        e.duration_ms,
    ) + str_bytes(",\"exit_code\":") + opt_i32_text(e.exit_code) + str_bytes(",\"stdout_lines\":")
        + opt_lines_text(e.stdout_lines) + str_bytes(",\"stderr_lines\":") + opt_lines_text(
        e.stderr_lines,
    ) + str_bytes(",\"stdin_provided\":") + opt_jstr_text(e.stdin_provided) + str_bytes(
        ",\"stdout_size_bytes\":",
    ) + opt_usize_text(e.stdout_size_bytes) + str_bytes(",\"stderr_size_bytes\":") + opt_usize_text(
        e.stderr_size_bytes,
    ) + str_bytes("}")
}

/// Appends the JSON object of the entries' name/value pairs to `out`.
fn push_jobj(out: &mut Vec<u8>, entries: &Vec<EnvEntry>)
    ensures
        final(out)@ == old(out)@ + jobj(env_views(entries@)),
{
    out.push(0x7b);
    let n = entries.len();
    let mut i: usize = 0;
    proof {
        assert(env_views(entries@).take(0) =~= Seq::<(Seq<u8>, Seq<u8>)>::empty());
        assert(out@ =~= old(out)@ + seq![0x7bu8] + jobj_items(env_views(entries@).take(0)));
    }
    while i < n
        invariant
            i <= n,
            n == entries@.len(),
            out@ == old(out)@ + seq![0x7bu8] + jobj_items(env_views(entries@).take(i as int)),
        decreases n - i,
    {
        if i > 0 {
            out.push(0x2c);
        }
        push_jstr(out, &entries[i].name);
        out.push(0x3a);
        push_jstr(out, &entries[i].value);
        proof {
            let pairs = env_views(entries@);
            assert(pairs.take(i + 1).drop_last() =~= pairs.take(i as int));
            assert(pairs.take(i + 1).last() == pairs[i as int]);
            if i == 0 {
                assert(jobj_items(pairs.take(1)) == jstr(pairs.take(1)[0].0) + seq![0x3au8] + jstr(
                    pairs.take(1)[0].1,
                ));
                assert(pairs.take(1)[0] == pairs[0]);
            }
            assert(out@ =~= old(out)@ + seq![0x7bu8] + jobj_items(pairs.take(i + 1)));
        }
        i = i + 1;
    }
    out.push(0x7d);
    proof {
        assert(env_views(entries@).take(n as int) =~= env_views(entries@));
        assert(out@ =~= old(out)@ + jobj(env_views(entries@)));
    }
}

/// Appends the timestamp number to `out`.
fn push_timestamp(out: &mut Vec<u8>, t: Timestamp)
    ensures
        final(out)@ == old(out)@ + timestamp_text(t),
{
    push_dec_u64(out, t.secs);
    out.push(0x2e);
    push_dec_digits(out, t.nanos as u64, 9);
    proof {
        assert(out@ =~= old(out)@ + timestamp_text(t));
    }
}

/// Appends the kind label to `out`.
fn push_kind(out: &mut Vec<u8>, k: EventKind)
    ensures
        final(out)@ == old(out)@ + kind_text(k),
{
    match k {
        EventKind::ProcessStart => push_str_bytes(out, "process_start"),
        EventKind::ProcessEnd => push_str_bytes(out, "process_end"),
        EventKind::ProcessStats => push_str_bytes(out, "process_stats"),
    }
}

/// Appends an optional count to `out`.
fn push_opt_u128(out: &mut Vec<u8>, v: Option<u128>)
    ensures
        final(out)@ == old(out)@ + opt_u128_text(v),
{
    match v {
        Some(n) => push_dec_u128(out, n),
        None => push_str_bytes(out, "null"),
    }
}

/// Appends an optional exit code to `out`.
fn push_opt_i32(out: &mut Vec<u8>, v: Option<i32>)
    ensures
        final(out)@ == old(out)@ + opt_i32_text(v),
{
    match v {
        Some(n) => push_dec_i32(out, n),
        None => push_str_bytes(out, "null"),
    }
}

/// Appends an optional size to `out`.
fn push_opt_usize(out: &mut Vec<u8>, v: Option<usize>)
    ensures
        final(out)@ == old(out)@ + opt_usize_text(v),
{
    match v {
        Some(n) => push_dec_u128(out, n as u128),
        None => push_str_bytes(out, "null"),
    }
}

/// Appends an optional JSON string to `out`.
fn push_opt_jstr(out: &mut Vec<u8>, v: &Option<Vec<u8>>)
    ensures
        final(out)@ == old(out)@ + opt_jstr_text(*v),
{
    match v {
        Some(s) => push_jstr(out, s),
        None => push_str_bytes(out, "null"),
    }
}

/// Appends an optional array of captured lines to `out`.
fn push_opt_lines(out: &mut Vec<u8>, v: &Option<Vec<Vec<u8>>>)
    ensures
        final(out)@ == old(out)@ + opt_lines_text(*v),
{
    match v {
        Some(lines) => push_jarr(out, lines),
        None => push_str_bytes(out, "null"),
    }
}

/// Appends optional resource accounting to `out`.
fn push_resource_usage(out: &mut Vec<u8>, v: &Option<ResourceUsage>)
    ensures
        final(out)@ == old(out)@ + resource_usage_text(*v),
{
    match v {
        Some(u) => {
            push_str_bytes(out, "{\"user_time_ms\":");
            push_dec_i64(out, u.user_time_ms);
            push_str_bytes(out, ",\"system_time_ms\":");
            push_dec_i64(out, u.system_time_ms);
            push_str_bytes(out, ",\"max_rss_kb\":");
            push_dec_i64(out, u.max_rss_kb);
            push_str_bytes(out, ",\"page_faults\":");
            push_dec_i64(out, u.page_faults);
            push_str_bytes(out, ",\"context_switches\":");
            push_dec_i64(out, u.context_switches);
            push_str_bytes(out, "}");
        },
        None => push_str_bytes(out, "null"),
    }
}

/// Serializes an event to its JSON record, exactly `record_text`.
pub fn encode_event(e: &TelemetryEvent) -> (r: Vec<u8>)
    ensures
        r@ == record_text(*e),
{
    let mut out: Vec<u8> = Vec::new();
    push_str_bytes(&mut out, "{\"event_id\":");
    proof {
        assert(out@ =~= str_bytes("{\"event_id\":"));
    }
    push_jstr(&mut out, &e.event_id);
    push_str_bytes(&mut out, ",\"event_type\":\"");
    push_kind(&mut out, e.event_type);
    push_str_bytes(&mut out, "\",\"timestamp\":");
    push_timestamp(&mut out, e.timestamp);
    push_str_bytes(&mut out, ",\"pid\":");
    push_dec_i32(&mut out, e.pid);
    push_str_bytes(&mut out, ",\"ppid\":");
    push_dec_i32(&mut out, e.ppid);
    push_str_bytes(&mut out, ",\"session_id\":");
    push_jstr(&mut out, &e.session_id);
    push_str_bytes(&mut out, ",\"command\":");
    push_jarr(&mut out, &e.command);
    push_str_bytes(&mut out, ",\"cwd\":");
    push_jstr(&mut out, &e.cwd);
    push_str_bytes(&mut out, ",\"env\":");
    push_jobj(&mut out, &e.env);
    push_str_bytes(&mut out, ",\"resource_usage\":");
    push_resource_usage(&mut out, &e.resource_usage);
    push_str_bytes(&mut out, ",\"duration_ms\":");
    push_opt_u128(&mut out, e.duration_ms);
    push_str_bytes(&mut out, ",\"exit_code\":");
    push_opt_i32(&mut out, e.exit_code);
    push_str_bytes(&mut out, ",\"stdout_lines\":");
    push_opt_lines(&mut out, &e.stdout_lines);
    push_str_bytes(&mut out, ",\"stderr_lines\":");
    push_opt_lines(&mut out, &e.stderr_lines);
    push_str_bytes(&mut out, ",\"stdin_provided\":");
    push_opt_jstr(&mut out, &e.stdin_provided);
    push_str_bytes(&mut out, ",\"stdout_size_bytes\":");
    push_opt_usize(&mut out, e.stdout_size_bytes);
    push_str_bytes(&mut out, ",\"stderr_size_bytes\":");
    push_opt_usize(&mut out, e.stderr_size_bytes);
    push_str_bytes(&mut out, "}");
    out
}


/// A single byte other than line feed yields a line-feed-free piece.
proof fn lemma_byte_lf_free(b: u8)
    requires
        b != 0x0a,
    ensures
        !seq![b].contains(lf()),
{
    assert forall|i: int| 0 <= i < 1 implies seq![b][i] != lf() by {
        assert(seq![b][i] == b);
    }
}

/// A JSON object of string pairs holds no line feed.
proof fn lemma_jobj_lf_free(pairs: Seq<(Seq<u8>, Seq<u8>)>)
    ensures
        !jobj(pairs).contains(lf()),
        !jobj_items(pairs).contains(lf()),
    decreases pairs.len(),
{
    lemma_byte_lf_free(0x7b);
    lemma_byte_lf_free(0x7d);
    lemma_byte_lf_free(0x3a);
    lemma_byte_lf_free(0x2c);
    if pairs.len() == 0 {
    } else if pairs.len() == 1 {
        crate::json::lemma_jstr_lf_free(pairs[0].0);
        crate::json::lemma_jstr_lf_free(pairs[0].1);
        crate::json::lemma_cat_lf_free(jstr(pairs[0].0), seq![0x3au8]);
        crate::json::lemma_cat_lf_free(jstr(pairs[0].0) + seq![0x3au8], jstr(pairs[0].1));
    } else {
        lemma_jobj_lf_free(pairs.drop_last());
        crate::json::lemma_jstr_lf_free(pairs.last().0);
        crate::json::lemma_jstr_lf_free(pairs.last().1);
        let c1 = jobj_items(pairs.drop_last());
        let c2 = c1 + seq![0x2cu8];
        crate::json::lemma_cat_lf_free(c1, seq![0x2cu8]);
        let c3 = c2 + jstr(pairs.last().0);
        crate::json::lemma_cat_lf_free(c2, jstr(pairs.last().0));
        let c4 = c3 + seq![0x3au8];
        crate::json::lemma_cat_lf_free(c3, seq![0x3au8]);
        crate::json::lemma_cat_lf_free(c4, jstr(pairs.last().1));
    }
    crate::json::lemma_cat_lf_free(seq![0x7bu8], jobj_items(pairs));
    crate::json::lemma_cat_lf_free(seq![0x7bu8] + jobj_items(pairs), seq![0x7du8]);
}

/// A signed decimal numeral holds no line feed.
proof fn lemma_dec_int_lf_free(v: int)
    ensures
        !dec_int(v).contains(lf()),
{
    if v >= 0 {
        crate::fmt::lemma_dec_nat_lf_free(v as nat);
    } else {
        reveal_strlit("-");
        crate::fmt::lemma_ascii_lit_lf_free("-");
        crate::fmt::lemma_dec_nat_lf_free((-v) as nat);
        crate::json::lemma_cat_lf_free(str_bytes("-"), dec_nat((-v) as nat));
    }
}

/// A timestamp number holds no line feed.
proof fn lemma_timestamp_lf_free(t: Timestamp)
    ensures
        !timestamp_text(t).contains(lf()),
{
    crate::fmt::lemma_dec_nat_lf_free(t.secs as nat);
    crate::fmt::lemma_dec_digits_lf_free(t.nanos as nat, 9);
    lemma_byte_lf_free(0x2e);
    crate::json::lemma_cat_lf_free(dec_nat(t.secs as nat), seq![0x2eu8]);
    crate::json::lemma_cat_lf_free(
        dec_nat(t.secs as nat) + seq![0x2eu8],
        dec_digits(t.nanos as nat, 9),
    );
}

/// A kind label holds no line feed.
proof fn lemma_kind_lf_free(k: EventKind)
    ensures
        !kind_text(k).contains(lf()),
{
    reveal_strlit("process_start");
    crate::fmt::lemma_ascii_lit_lf_free("process_start");
    reveal_strlit("process_end");
    crate::fmt::lemma_ascii_lit_lf_free("process_end");
    reveal_strlit("process_stats");
    crate::fmt::lemma_ascii_lit_lf_free("process_stats");
}

/// An optional count holds no line feed.
proof fn lemma_opt_u128_lf_free(v: Option<u128>)
    ensures
        !opt_u128_text(v).contains(lf()),
{
    reveal_strlit("null");
    crate::fmt::lemma_ascii_lit_lf_free("null");
    match v {
        Some(n) => crate::fmt::lemma_dec_nat_lf_free(n as nat),
        None => (),
    }
}

/// An optional exit code holds no line feed.
proof fn lemma_opt_i32_lf_free(v: Option<i32>)
    ensures
        !opt_i32_text(v).contains(lf()),
{
    reveal_strlit("null");
    crate::fmt::lemma_ascii_lit_lf_free("null");
    match v {
        Some(n) => lemma_dec_int_lf_free(n as int),
        None => (),
    }
}

/// An optional size holds no line feed.
proof fn lemma_opt_usize_lf_free(v: Option<usize>)
    ensures
        !opt_usize_text(v).contains(lf()),
{
    reveal_strlit("null");
    crate::fmt::lemma_ascii_lit_lf_free("null");
    match v {
        Some(n) => crate::fmt::lemma_dec_nat_lf_free(n as nat),
        None => (),
    }
}

/// An optional JSON string holds no line feed.
proof fn lemma_opt_jstr_lf_free(v: Option<Vec<u8>>)
    ensures
        !opt_jstr_text(v).contains(lf()),
{
    reveal_strlit("null");
    crate::fmt::lemma_ascii_lit_lf_free("null");
    match v {
        Some(s) => crate::json::lemma_jstr_lf_free(s@),
        None => (),
    }
}

/// An optional array of captured lines holds no line feed.
proof fn lemma_opt_lines_lf_free(v: Option<Vec<Vec<u8>>>)
    ensures
        !opt_lines_text(v).contains(lf()),
{
    reveal_strlit("null");
    crate::fmt::lemma_ascii_lit_lf_free("null");
    match v {
        Some(lines) => crate::json::lemma_jarr_lf_free(byte_views(lines@)),
        None => (),
    }
}

/// Optional resource accounting holds no line feed.
proof fn lemma_resource_usage_lf_free(v: Option<ResourceUsage>)
    ensures
        !resource_usage_text(v).contains(lf()),
{
    reveal_strlit("null");
    crate::fmt::lemma_ascii_lit_lf_free("null");
    match v {
        Some(u) => {
            reveal_strlit("{\"user_time_ms\":");
            crate::fmt::lemma_ascii_lit_lf_free("{\"user_time_ms\":");
            reveal_strlit(",\"system_time_ms\":");
            crate::fmt::lemma_ascii_lit_lf_free(",\"system_time_ms\":");
            reveal_strlit(",\"max_rss_kb\":");
            crate::fmt::lemma_ascii_lit_lf_free(",\"max_rss_kb\":");
            reveal_strlit(",\"page_faults\":");
            crate::fmt::lemma_ascii_lit_lf_free(",\"page_faults\":");
            reveal_strlit(",\"context_switches\":");
            crate::fmt::lemma_ascii_lit_lf_free(",\"context_switches\":");
            reveal_strlit("}");
            crate::fmt::lemma_ascii_lit_lf_free("}");
            lemma_dec_int_lf_free(u.user_time_ms as int);
            lemma_dec_int_lf_free(u.system_time_ms as int);
            lemma_dec_int_lf_free(u.max_rss_kb as int);
            lemma_dec_int_lf_free(u.page_faults as int);
            lemma_dec_int_lf_free(u.context_switches as int);
            let c1 = str_bytes("{\"user_time_ms\":");
            let c2 = c1 + dec_int(u.user_time_ms as int);
            crate::json::lemma_cat_lf_free(c1, dec_int(u.user_time_ms as int));
            let c3 = c2 + str_bytes(",\"system_time_ms\":");
            crate::json::lemma_cat_lf_free(c2, str_bytes(",\"system_time_ms\":"));
            let c4 = c3 + dec_int(u.system_time_ms as int);
            crate::json::lemma_cat_lf_free(c3, dec_int(u.system_time_ms as int));
            let c5 = c4 + str_bytes(",\"max_rss_kb\":");
            crate::json::lemma_cat_lf_free(c4, str_bytes(",\"max_rss_kb\":"));
            let c6 = c5 + dec_int(u.max_rss_kb as int);
            crate::json::lemma_cat_lf_free(c5, dec_int(u.max_rss_kb as int));
            let c7 = c6 + str_bytes(",\"page_faults\":");
            crate::json::lemma_cat_lf_free(c6, str_bytes(",\"page_faults\":"));
            let c8 = c7 + dec_int(u.page_faults as int);
            crate::json::lemma_cat_lf_free(c7, dec_int(u.page_faults as int));
            let c9 = c8 + str_bytes(",\"context_switches\":");
            crate::json::lemma_cat_lf_free(c8, str_bytes(",\"context_switches\":"));
            let c10 = c9 + dec_int(u.context_switches as int);
            crate::json::lemma_cat_lf_free(c9, dec_int(u.context_switches as int));
            crate::json::lemma_cat_lf_free(c10, str_bytes("}"));
        },
        None => (),
    }
}

/// The labels between the fields of a record hold no line feed.
proof fn lemma_record_lits_lf_free()
    ensures
        !str_bytes("{\"event_id\":").contains(lf()),
        !str_bytes(",\"event_type\":\"").contains(lf()),
        !str_bytes("\",\"timestamp\":").contains(lf()),
        !str_bytes(",\"pid\":").contains(lf()),
        !str_bytes(",\"ppid\":").contains(lf()),
        !str_bytes(",\"session_id\":").contains(lf()),
        !str_bytes(",\"command\":").contains(lf()),
        !str_bytes(",\"cwd\":").contains(lf()),
        !str_bytes(",\"env\":").contains(lf()),
        !str_bytes(",\"resource_usage\":").contains(lf()),
        !str_bytes(",\"duration_ms\":").contains(lf()),
        !str_bytes(",\"exit_code\":").contains(lf()),
        !str_bytes(",\"stdout_lines\":").contains(lf()),
        !str_bytes(",\"stderr_lines\":").contains(lf()),
        !str_bytes(",\"stdin_provided\":").contains(lf()),
        !str_bytes(",\"stdout_size_bytes\":").contains(lf()),
        !str_bytes(",\"stderr_size_bytes\":").contains(lf()),
        !str_bytes("}").contains(lf()),
{
    reveal_strlit("{\"event_id\":");
    crate::fmt::lemma_ascii_lit_lf_free("{\"event_id\":");
    reveal_strlit(",\"event_type\":\"");
    crate::fmt::lemma_ascii_lit_lf_free(",\"event_type\":\"");
    reveal_strlit("\",\"timestamp\":");
    crate::fmt::lemma_ascii_lit_lf_free("\",\"timestamp\":");
    reveal_strlit(",\"pid\":");
    crate::fmt::lemma_ascii_lit_lf_free(",\"pid\":");
    reveal_strlit(",\"ppid\":");
    crate::fmt::lemma_ascii_lit_lf_free(",\"ppid\":");
    reveal_strlit(",\"session_id\":");
    crate::fmt::lemma_ascii_lit_lf_free(",\"session_id\":");
    reveal_strlit(",\"command\":");
    crate::fmt::lemma_ascii_lit_lf_free(",\"command\":");
    reveal_strlit(",\"cwd\":");
    crate::fmt::lemma_ascii_lit_lf_free(",\"cwd\":");
    reveal_strlit(",\"env\":");
    crate::fmt::lemma_ascii_lit_lf_free(",\"env\":");
    reveal_strlit(",\"resource_usage\":");
    crate::fmt::lemma_ascii_lit_lf_free(",\"resource_usage\":");
    reveal_strlit(",\"duration_ms\":");
    crate::fmt::lemma_ascii_lit_lf_free(",\"duration_ms\":");
    reveal_strlit(",\"exit_code\":");
    crate::fmt::lemma_ascii_lit_lf_free(",\"exit_code\":");
    reveal_strlit(",\"stdout_lines\":");
    crate::fmt::lemma_ascii_lit_lf_free(",\"stdout_lines\":");
    reveal_strlit(",\"stderr_lines\":");
    crate::fmt::lemma_ascii_lit_lf_free(",\"stderr_lines\":");
    reveal_strlit(",\"stdin_provided\":");
    crate::fmt::lemma_ascii_lit_lf_free(",\"stdin_provided\":");
    reveal_strlit(",\"stdout_size_bytes\":");
    crate::fmt::lemma_ascii_lit_lf_free(",\"stdout_size_bytes\":");
    reveal_strlit(",\"stderr_size_bytes\":");
    crate::fmt::lemma_ascii_lit_lf_free(",\"stderr_size_bytes\":");
    reveal_strlit("}");
    crate::fmt::lemma_ascii_lit_lf_free("}");
}

/// A serialized record holds no raw line feed byte: one record always
/// occupies exactly one log line.
pub proof fn lemma_record_lf_free(e: TelemetryEvent)
    ensures
        !record_text(e).contains(lf()),
{
    lemma_record_lits_lf_free();
    crate::json::lemma_jstr_lf_free(e.event_id@);
    lemma_kind_lf_free(e.event_type);
    lemma_timestamp_lf_free(e.timestamp);
    lemma_dec_int_lf_free(e.pid as int);
    lemma_dec_int_lf_free(e.ppid as int);
    crate::json::lemma_jstr_lf_free(e.session_id@);
    crate::json::lemma_jarr_lf_free(byte_views(e.command@));
    crate::json::lemma_jstr_lf_free(e.cwd@);
    lemma_jobj_lf_free(env_views(e.env@));
    lemma_resource_usage_lf_free(e.resource_usage);
    lemma_opt_u128_lf_free(e.duration_ms);
    lemma_opt_i32_lf_free(e.exit_code);
    lemma_opt_lines_lf_free(e.stdout_lines);
    lemma_opt_lines_lf_free(e.stderr_lines);
    lemma_opt_jstr_lf_free(e.stdin_provided);
    lemma_opt_usize_lf_free(e.stdout_size_bytes);
    lemma_opt_usize_lf_free(e.stderr_size_bytes);
    let c1 = str_bytes("{\"event_id\":");
    let c2 = c1 + jstr(e.event_id@);
    crate::json::lemma_cat_lf_free(c1, jstr(e.event_id@));
    let c3 = c2 + str_bytes(",\"event_type\":\"");
    crate::json::lemma_cat_lf_free(c2, str_bytes(",\"event_type\":\""));
    let c4 = c3 + kind_text(e.event_type);
    crate::json::lemma_cat_lf_free(c3, kind_text(e.event_type));
    let c5 = c4 + str_bytes("\",\"timestamp\":");
    crate::json::lemma_cat_lf_free(c4, str_bytes("\",\"timestamp\":"));
    let c6 = c5 + timestamp_text(e.timestamp);
    crate::json::lemma_cat_lf_free(c5, timestamp_text(e.timestamp));
    let c7 = c6 + str_bytes(",\"pid\":");
    crate::json::lemma_cat_lf_free(c6, str_bytes(",\"pid\":"));
    let c8 = c7 + dec_int(e.pid as int);
    crate::json::lemma_cat_lf_free(c7, dec_int(e.pid as int));
    let c9 = c8 + str_bytes(",\"ppid\":");
    crate::json::lemma_cat_lf_free(c8, str_bytes(",\"ppid\":"));
    let c10 = c9 + dec_int(e.ppid as int);
    crate::json::lemma_cat_lf_free(c9, dec_int(e.ppid as int));
    let c11 = c10 + str_bytes(",\"session_id\":");
    crate::json::lemma_cat_lf_free(c10, str_bytes(",\"session_id\":"));
    let c12 = c11 + jstr(e.session_id@);
    crate::json::lemma_cat_lf_free(c11, jstr(e.session_id@));
    let c13 = c12 + str_bytes(",\"command\":");
    crate::json::lemma_cat_lf_free(c12, str_bytes(",\"command\":"));
    let c14 = c13 + jarr(byte_views(e.command@));
    crate::json::lemma_cat_lf_free(c13, jarr(byte_views(e.command@)));
    let c15 = c14 + str_bytes(",\"cwd\":");
    crate::json::lemma_cat_lf_free(c14, str_bytes(",\"cwd\":"));
    let c16 = c15 + jstr(e.cwd@);
    crate::json::lemma_cat_lf_free(c15, jstr(e.cwd@));
    let c17 = c16 + str_bytes(",\"env\":");
    crate::json::lemma_cat_lf_free(c16, str_bytes(",\"env\":"));
    let c18 = c17 + jobj(env_views(e.env@));
    crate::json::lemma_cat_lf_free(c17, jobj(env_views(e.env@)));
    let c19 = c18 + str_bytes(",\"resource_usage\":");
    crate::json::lemma_cat_lf_free(c18, str_bytes(",\"resource_usage\":"));
    let c20 = c19 + resource_usage_text(e.resource_usage);
    crate::json::lemma_cat_lf_free(c19, resource_usage_text(e.resource_usage));
    let c21 = c20 + str_bytes(",\"duration_ms\":");
    crate::json::lemma_cat_lf_free(c20, str_bytes(",\"duration_ms\":"));
    let c22 = c21 + opt_u128_text(e.duration_ms);
    crate::json::lemma_cat_lf_free(c21, opt_u128_text(e.duration_ms));
    let c23 = c22 + str_bytes(",\"exit_code\":");
    crate::json::lemma_cat_lf_free(c22, str_bytes(",\"exit_code\":"));
    let c24 = c23 + opt_i32_text(e.exit_code);
    crate::json::lemma_cat_lf_free(c23, opt_i32_text(e.exit_code));
    let c25 = c24 + str_bytes(",\"stdout_lines\":");
    crate::json::lemma_cat_lf_free(c24, str_bytes(",\"stdout_lines\":"));
    let c26 = c25 + opt_lines_text(e.stdout_lines);
    crate::json::lemma_cat_lf_free(c25, opt_lines_text(e.stdout_lines));
    let c27 = c26 + str_bytes(",\"stderr_lines\":");
    crate::json::lemma_cat_lf_free(c26, str_bytes(",\"stderr_lines\":"));
    let c28 = c27 + opt_lines_text(e.stderr_lines);
    crate::json::lemma_cat_lf_free(c27, opt_lines_text(e.stderr_lines));
    let c29 = c28 + str_bytes(",\"stdin_provided\":");
    crate::json::lemma_cat_lf_free(c28, str_bytes(",\"stdin_provided\":"));
    let c30 = c29 + opt_jstr_text(e.stdin_provided);
    crate::json::lemma_cat_lf_free(c29, opt_jstr_text(e.stdin_provided));
    let c31 = c30 + str_bytes(",\"stdout_size_bytes\":");
    crate::json::lemma_cat_lf_free(c30, str_bytes(",\"stdout_size_bytes\":"));
    let c32 = c31 + opt_usize_text(e.stdout_size_bytes);
    crate::json::lemma_cat_lf_free(c31, opt_usize_text(e.stdout_size_bytes));
    let c33 = c32 + str_bytes(",\"stderr_size_bytes\":");
    crate::json::lemma_cat_lf_free(c32, str_bytes(",\"stderr_size_bytes\":"));
    let c34 = c33 + opt_usize_text(e.stderr_size_bytes);
    crate::json::lemma_cat_lf_free(c33, opt_usize_text(e.stderr_size_bytes));
    let c35 = c34 + str_bytes("}");
    crate::json::lemma_cat_lf_free(c34, str_bytes("}"));
    assert(record_text(e) == c35);
}

} // verus!
