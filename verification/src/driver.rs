//! Text the driver hands to the outside: the re-emitted captured output,
//! the one-line human-readable summary, and the default log path.

use crate::capture::lf;
use crate::fmt::{dec_int, dec_nat, push_dec_i32, push_dec_u128, push_dec_usize, push_str_bytes,
    str_bytes};
use vstd::prelude::*;

verus! {

/// Captured lines as they are re-emitted on the wrapper's own stream: each
/// line followed by a line feed.
pub open spec fn rendered_lines(lines: Seq<Seq<u8>>) -> Seq<u8>
    decreases lines.len(),
{
    if lines.len() == 0 {
        Seq::empty()
    } else {
        rendered_lines(lines.drop_last()) + lines.last() + seq![lf()]
    }
}

/// Appends the bytes of `src` to `out`.
pub fn push_bytes(out: &mut Vec<u8>, src: &Vec<u8>)
    ensures
        final(out)@ == old(out)@ + src@,
{
    let n = src.len();
    let mut i: usize = 0;
    proof {
        assert(out@ =~= old(out)@ + src@.take(0));
    }
    while i < n
        invariant
            i <= n,
            n == src@.len(),
            out@ == old(out)@ + src@.take(i as int),
        decreases n - i,
    {
        out.push(src[i]);
        proof {
            assert(src@.take(i + 1) =~= src@.take(i as int).push(src@[i as int]));
            assert(out@ =~= old(out)@ + src@.take(i + 1));
        }
        i = i + 1;
    }
    proof {
        assert(src@.take(n as int) =~= src@);
    }
}

/// Renders captured lines for re-emission, in captured order, a line feed
/// after each line.
pub fn render_lines(lines: &Vec<Vec<u8>>) -> (r: Vec<u8>)
    ensures
        r@ == rendered_lines(crate::capture::byte_views(lines@)),
{
    let mut out: Vec<u8> = Vec::new();
    let n = lines.len();
    let mut i: usize = 0;
    proof {
        assert(crate::capture::byte_views(lines@).take(0) =~= Seq::<Seq<u8>>::empty());
        assert(out@ =~= rendered_lines(crate::capture::byte_views(lines@).take(0)));
    }
    while i < n
        invariant
            i <= n,
            n == lines@.len(),
            out@ == rendered_lines(crate::capture::byte_views(lines@).take(i as int)),
        decreases n - i,
    {
        push_bytes(&mut out, &lines[i]);
        out.push(0x0a);
        proof {
            let views = crate::capture::byte_views(lines@);
            assert(views.take(i + 1).drop_last() =~= views.take(i as int));
            assert(views.take(i + 1).last() == lines@[i as int]@);
            assert(out@ =~= rendered_lines(views.take(i + 1)));
        }
        i = i + 1;
    }
    proof {
        assert(crate::capture::byte_views(lines@).take(n as int) =~= crate::capture::byte_views(
            lines@,
        ));
    }
    out
}

/// The summary printed to the wrapper's error stream on completion.
pub open spec fn summary_text(
    session_id: Seq<u8>,
    duration_ms: u128,
    exit_code: i32,
    stdout_line_count: usize,
    stdout_bytes: usize,
    stderr_line_count: usize,
    stderr_bytes: usize,
) -> Seq<u8> {
    str_bytes("[") + session_id + str_bytes("] Completed in ") + dec_nat(duration_ms as nat)
        + str_bytes("ms | Exit: ") + dec_int(exit_code as int) + str_bytes(" | Out: ") + dec_nat(
        stdout_line_count as nat,
    ) + str_bytes(" lines/") + dec_nat(stdout_bytes as nat) + str_bytes(" bytes | Err: ") + dec_nat(
        stderr_line_count as nat,
    ) + str_bytes(" lines/") + dec_nat(stderr_bytes as nat) + str_bytes(" bytes")
}

/// Builds the completion summary line.
pub fn summary_line(
    session_id: &Vec<u8>,
    duration_ms: u128,
    exit_code: i32,
    stdout_line_count: usize,
    stdout_bytes: usize,
    stderr_line_count: usize,
    stderr_bytes: usize,
) -> (r: Vec<u8>)
    ensures
        r@ == summary_text(
            session_id@,
            duration_ms,
            exit_code,
            stdout_line_count,
            stdout_bytes,
            stderr_line_count,
            stderr_bytes,
        ),
{
    let mut out: Vec<u8> = Vec::new();
    push_str_bytes(&mut out, "[");
    proof {
        assert(out@ =~= str_bytes("["));
    }
    push_bytes(&mut out, session_id);
    push_str_bytes(&mut out, "] Completed in ");
    push_dec_u128(&mut out, duration_ms);
    push_str_bytes(&mut out, "ms | Exit: ");
    push_dec_i32(&mut out, exit_code);
    push_str_bytes(&mut out, " | Out: ");
    push_dec_usize(&mut out, stdout_line_count);
    push_str_bytes(&mut out, " lines/");
    push_dec_usize(&mut out, stdout_bytes);
    push_str_bytes(&mut out, " bytes | Err: ");
    push_dec_usize(&mut out, stderr_line_count);
    push_str_bytes(&mut out, " lines/");
    push_dec_usize(&mut out, stderr_bytes);
    push_str_bytes(&mut out, " bytes");
    out
}

/// The default telemetry log path, derived from the epoch second at startup.
pub open spec fn default_log_path_text(epoch_secs: u64) -> Seq<u8> {
    str_bytes("/tmp/rust_telemetry_") + dec_nat(epoch_secs as nat) + str_bytes(".jsonl")
}

/// Builds the default telemetry log path for a run started at `epoch_secs`.
pub fn default_log_path(epoch_secs: u64) -> (r: Vec<u8>)
    ensures
        r@ == default_log_path_text(epoch_secs),
{
    let mut out: Vec<u8> = Vec::new();
    push_str_bytes(&mut out, "/tmp/rust_telemetry_");
    proof {
        assert(out@ =~= str_bytes("/tmp/rust_telemetry_"));
    }
    push_dec_u128(&mut out, epoch_secs as u128);
    push_str_bytes(&mut out, ".jsonl");
    out
}

} // verus!
