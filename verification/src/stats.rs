//! Run outcome: timestamps, duration, exit code and output volume.

use vstd::prelude::*;

verus! {

/// A wall-clock instant: whole seconds since the epoch plus a sub-second
/// nanosecond part.
#[derive(Clone, Copy, PartialEq, Eq, Structural, Debug)]
pub struct Timestamp {
    pub secs: u64,
    pub nanos: u32,
}

impl Timestamp {
    /// The nanosecond part stays below one second.
    pub open spec fn wf(self) -> bool {
        self.nanos < 1_000_000_000
    }

    /// The instant as whole nanoseconds since the epoch.
    pub open spec fn as_nanos(self) -> int {
        self.secs as int * 1_000_000_000 + self.nanos as int
    }
}

/// Whole milliseconds elapsed from `start` to `end`.
pub fn duration_ms_between(start: Timestamp, end: Timestamp) -> (r: u128)
    requires
        start.wf(),
        end.wf(),
        start.as_nanos() <= end.as_nanos(),
    ensures
        r as int == (end.as_nanos() - start.as_nanos()) / 1_000_000,
{
    let start_ns: u128 = start.secs as u128 * 1_000_000_000 + start.nanos as u128;
    let end_ns: u128 = end.secs as u128 * 1_000_000_000 + end.nanos as u128;
    (end_ns - start_ns) / 1_000_000
}

/// The exit code a run reports: the child's own code, or the sentinel when
/// none is available (for instance after a signal-caused termination).
pub fn exit_code_or_sentinel(code: Option<i32>) -> (r: i32)
    ensures
        code matches Some(c) ==> r == c,
        code is None ==> r == -1,
{
    match code {
        Some(c) => c,
        None => -1,
    }
}

/// OS-level accounting for a finished child process.
#[derive(Clone, Copy, PartialEq, Eq, Structural, Debug)]
pub struct ResourceUsage {
    pub user_time_ms: i64,
    pub system_time_ms: i64,
    pub max_rss_kb: i64,
    pub page_faults: i64,
    pub context_switches: i64,
}

/// Resource accounting is deliberately stubbed: no capability is attached,
/// so no event may rely on it ever being present.
pub fn get_resource_usage() -> (r: Option<ResourceUsage>)
    ensures
        r is None,
{
    None
}

/// Summary of one supervised run.
#[derive(Clone, Copy, PartialEq, Eq, Structural, Debug)]
pub struct ProcessStats {
    pub start_time: Timestamp,
    pub end_time: Timestamp,
    pub duration_ms: u128,
    pub exit_code: i32,
    pub signal: Option<i32>,
    pub stdout_lines: usize,
    pub stderr_lines: usize,
    pub total_output_bytes: usize,
}

/// Derives the run summary from the outcome of a supervised child: the
/// duration in whole milliseconds, the reported exit code (sentinel for an
/// unavailable one), and the per-stream line counts and byte totals.
pub fn make_process_stats(
    start: Timestamp,
    end: Timestamp,
    code: Option<i32>,
    stdout_line_count: usize,
    stderr_line_count: usize,
    stdout_bytes: usize,
    stderr_bytes: usize,
) -> (r: ProcessStats)
    requires
        start.wf(),
        end.wf(),
        start.as_nanos() <= end.as_nanos(),
        stdout_bytes + stderr_bytes <= usize::MAX,
    ensures
        r.start_time == start,
        r.end_time == end,
        r.duration_ms as int == (end.as_nanos() - start.as_nanos()) / 1_000_000,
        code matches Some(c) ==> r.exit_code == c,
        code is None ==> r.exit_code == -1,
        r.signal is None,
        r.stdout_lines == stdout_line_count,
        r.stderr_lines == stderr_line_count,
        r.total_output_bytes == stdout_bytes + stderr_bytes,
{
    ProcessStats {
        start_time: start,
        end_time: end,
        duration_ms: duration_ms_between(start, end),
        exit_code: exit_code_or_sentinel(code),
        signal: None,
        stdout_lines: stdout_line_count,
        stderr_lines: stderr_line_count,
        total_output_bytes: stdout_bytes + stderr_bytes,
    }
}

} // verus!
