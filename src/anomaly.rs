//! The two anomaly detectors, which synthesize crash logs from raw telemetry,
//! and the guard that keeps the thread-explosion detector from repeating itself.

use vstd::prelude::*;
use crate::model::{CombinedProcessData, CrashLog, CrashRow, SmartProcessTrend, ThreadInfo};
use crate::seqs::views;
use crate::store::{Store, StoreView};
use crate::text::{decimal, decimal_text, lemma_contains_middle, seq_contains, text_contains};

verus! {

/// A process with more threads than this has exploded.
pub const THREAD_EXCEPTION_THRESHOLD: i32 = 2000;

/// How many thread entries a thread-explosion report details.
pub const DETAILED_THREADS: usize = 10;

/// How many characters of a thread's command a report shows.
pub const COMMAND_PREVIEW_CHARS: usize = 50;

/// The process reports more threads than the threshold, in its thread list
/// or in any of its trend readings.
pub open spec fn thread_explosion(p: CombinedProcessData) -> bool {
    ||| p.threads@.len() > THREAD_EXCEPTION_THRESHOLD as nat
    ||| exists|k: int|
        0 <= k < p.trend@.len() && #[trigger] p.trend@[k].thread_count
            > THREAD_EXCEPTION_THRESHOLD
}

/// The text that marks a thread-explosion report as being about process `pid`.
pub open spec fn process_marker(pid: i32) -> Seq<char> {
    "PROCESS_INFO: PID="@ + decimal(pid as int)
}

pub open spec fn trend_line(k: int, t: SmartProcessTrend) -> Seq<char> {
    "  Trend["@ + decimal(k) + "] thread_count: "@ + decimal(t.thread_count as int) + "\n"@
}

/// The report lines of the first `n` trend readings.
pub open spec fn trend_lines(ts: Seq<SmartProcessTrend>, n: int) -> Seq<char>
    decreases n,
{
    if n <= 0 {
        Seq::empty()
    } else {
        trend_lines(ts, n - 1) + trend_line(n - 1, ts[n - 1])
    }
}

/// A command cut to its first characters.
pub open spec fn command_preview(c: Seq<char>) -> Seq<char> {
    if c.len() <= COMMAND_PREVIEW_CHARS {
        c
    } else {
        c.subrange(0, COMMAND_PREVIEW_CHARS as int)
    }
}

pub open spec fn thread_line(k: int, t: ThreadInfo) -> Seq<char> {
    "  Thread["@ + decimal(k) + "]: TID="@ + decimal(t.thread_id as int) + ", CPU="@
        + t.cpu_usage + ", MEM="@ + t.memory_usage + ", CMD="@ + command_preview(t.command)
        + "\n"@
}

/// The report lines of the first `n` thread entries.
pub open spec fn thread_lines(ts: Seq<ThreadInfo>, n: int) -> Seq<char>
    decreases n,
{
    if n <= 0 {
        Seq::empty()
    } else {
        thread_lines(ts, n - 1) + thread_line(n - 1, ts[n - 1])
    }
}

/// How many thread entries a report details, out of `n`.
pub open spec fn detailed_count(n: nat) -> nat {
    if n < DETAILED_THREADS {
        n
    } else {
        DETAILED_THREADS as nat
    }
}

/// The summary line for the thread entries that a report does not detail.
pub open spec fn more_threads_line(n: nat) -> Seq<char> {
    if n > DETAILED_THREADS {
        "  ... and "@ + decimal(n - DETAILED_THREADS) + " more threads\n"@
    } else {
        Seq::empty()
    }
}

/// A thread-explosion report after its marker.
pub open spec fn trace_rest(p: CombinedProcessData) -> Seq<char> {
    ", NAME="@ + p.name@ + ", USER="@ + p.user_name@ + "\n"@ + "SERVER_INFO: ID="@
        + p.server_id@ + ", NAME="@ + p.server_name@ + "\n"@ + "TIMESTAMP: "@ + decimal(
        p.timestamp as int,
    ) + "\n\n"@ + "THREAD_COUNT_ANALYSIS:\n"@ + "  Actual threads count: "@ + decimal(
        p.threads@.len() as int,
    ) + "\n"@ + trend_lines(p.trend@, p.trend@.len() as int) + "\nTHREAD_DETAILS:\n"@
        + thread_lines(views(p.threads@), detailed_count(p.threads@.len()) as int)
        + more_threads_line(p.threads@.len())
        + "\nRECOMMENDATION: Check for thread leaks or infinite thread creation"@
}

/// The diagnostic text of a thread-explosion report on process `p`.
pub open spec fn thread_exception_trace(p: CombinedProcessData) -> Seq<char> {
    "THREAD_EXCEPTION_DETECTED\n"@ + process_marker(p.pid) + trace_rest(p)
}

/// What a synthesized crash log says in place of an analysis that is still to come.
pub open spec fn pending_text() -> Seq<char> {
    "正在等待 AI 生成"@
}

/// A crash log synthesized at `now` for server `id`.
pub open spec fn synthesized_row(id: Seq<char>, crash_type: Seq<char>, trace: Seq<char>, now: i64) -> CrashRow {
    CrashRow {
        server_id: id,
        log_id: now,
        timestamp: now,
        crash_type,
        severity: "high"@,
        title: pending_text(),
        message: pending_text(),
        stack_trace: Some(trace),
        resolved: false,
        ai_summary: Some(pending_text()),
        ai_analysis: Some(pending_text()),
    }
}

/// The crash log that the thread-explosion detector synthesizes for `p` at `now`.
pub open spec fn thread_exception_row(p: CombinedProcessData, now: i64) -> CrashRow {
    synthesized_row(p.server_id@, "thread_exception"@, thread_exception_trace(p), now)
}

/// The crash log that the kernel-crash detector synthesizes at `now`.
pub open spec fn kernel_crash_row(id: Seq<char>, text: Seq<char>, now: i64) -> CrashRow {
    synthesized_row(id, "segmentation_fault"@, text, now)
}

/// A stored thread-explosion report on process `pid` of server `id`.
pub open spec fn guard_match(r: CrashRow, id: Seq<char>, pid: i32) -> bool {
    &&& r.server_id == id
    &&& r.crash_type == "thread_exception"@
    &&& match r.stack_trace {
        Some(t) => seq_contains(t, process_marker(pid)),
        None => false,
    }
}

pub open spec fn has_guard_match(v: StoreView, id: Seq<char>, pid: i32) -> bool {
    exists|i: int| 0 <= i < v.crash_logs.len() && #[trigger] guard_match(v.crash_logs[i], id, pid)
}

/// The thread-explosion detector applied to `p` at `now`: a report is added
/// unless one on the same process of the same server is stored already.
pub open spec fn thread_guard(v: StoreView, p: CombinedProcessData, now: i64) -> StoreView {
    if has_guard_match(v, p.server_id@, p.pid) {
        v
    } else {
        StoreView { crash_logs: v.crash_logs.push(thread_exception_row(p, now)), ..v }
    }
}

/// The text holds one of the kernel-crash indicators (case-sensitive).
pub open spec fn kernel_crash_text(t: Seq<char>) -> bool {
    ||| seq_contains(t, "kernel BUG at"@)
    ||| seq_contains(t, "Internal error: Oops"@)
    ||| seq_contains(t, "segmentation fault"@)
    ||| seq_contains(t, "kernel panic"@)
    ||| seq_contains(t, "Call trace:"@)
    ||| seq_contains(t, "---[ end trace"@)
    ||| seq_contains(t, "BUG:"@)
    ||| seq_contains(t, "WARNING:"@)
}

/// A report on a process always carries that process's marker.
pub proof fn lemma_trace_has_marker(p: CombinedProcessData)
    ensures
        seq_contains(thread_exception_trace(p), process_marker(p.pid)),
{
    lemma_contains_middle("THREAD_EXCEPTION_DETECTED\n"@, process_marker(p.pid), trace_rest(p));
}

/// Whether the process reports more threads than the threshold.
pub fn has_thread_exception(p: &CombinedProcessData) -> (r: bool)
    ensures
        r == thread_explosion(*p),
{
    let n = p.trend.len();
    let mut k: usize = 0;
    while k < n
        invariant
            n == p.trend@.len(),
            k <= n,
            forall|j: int| 0 <= j < k ==> #[trigger] p.trend@[j].thread_count <= THREAD_EXCEPTION_THRESHOLD,
        decreases n - k,
    {
        if p.trend[k].thread_count > THREAD_EXCEPTION_THRESHOLD {
            return true;
        }
        k = k + 1;
    }
    p.threads.len() > THREAD_EXCEPTION_THRESHOLD as usize
}

/// Whether the text holds one of the kernel-crash indicators.
pub fn is_system_crash(text: &str) -> (r: bool)
    ensures
        r == kernel_crash_text(text@),
{
    text_contains(text, "kernel BUG at") || text_contains(text, "Internal error: Oops")
        || text_contains(text, "segmentation fault") || text_contains(text, "kernel panic")
        || text_contains(text, "Call trace:") || text_contains(text, "---[ end trace")
        || text_contains(text, "BUG:") || text_contains(text, "WARNING:")
}

/// The lines of the first `shown` thread entries, cut after the preview length.
fn append_thread_lines(r: &mut String, threads: &Vec<crate::model::SmartThread>, shown: usize)
    requires
        shown <= threads@.len(),
    ensures
        final(r)@ == old(r)@ + thread_lines(views(threads@), shown as int),
{
    let ghost start = r@;
    let ghost ts = views(threads@);
    let mut k: usize = 0;
    while k < shown
        invariant
            shown <= threads@.len(),
            ts == views(threads@),
            k <= shown,
            r@ == start + thread_lines(ts, k as int),
        decreases shown - k,
    {
        let t = &threads[k];
        let ghost before = r@;
        let len = t.command.as_str().unicode_len();
        let cut = if len <= COMMAND_PREVIEW_CHARS {
            len
        } else {
            COMMAND_PREVIEW_CHARS
        };
        let preview = t.command.as_str().substring_char(0, cut);
        proof {
            assert(preview@ =~= command_preview(t.command@));
        }
        let index_text = decimal_text(k as i128);
        let tid_text = decimal_text(t.thread_id as i128);
        r.append("  Thread[");
        r.append(index_text.as_str());
        r.append("]: TID=");
        r.append(tid_text.as_str());
        r.append(", CPU=");
        r.append(t.cpu_usage.as_str());
        r.append(", MEM=");
        r.append(t.memory_usage.as_str());
        r.append(", CMD=");
        r.append(preview);
        r.append("\n");
        proof {
            assert(ts[k as int] == t@);
            assert(r@ =~= before + thread_line(k as int, ts[k as int]));
            assert(thread_lines(ts, k + 1) == thread_lines(ts, k as int) + thread_line(
                k as int,
                ts[k as int],
            ));
            assert(r@ =~= start + thread_lines(ts, k + 1));
        }
        k = k + 1;
    }
}

/// The lines of every trend reading.
fn append_trend_lines(r: &mut String, trend: &Vec<SmartProcessTrend>)
    ensures
        final(r)@ == old(r)@ + trend_lines(trend@, trend@.len() as int),
{
    let ghost start = r@;
    let n = trend.len();
    let mut k: usize = 0;
    while k < n
        invariant
            n == trend@.len(),
            k <= n,
            r@ == start + trend_lines(trend@, k as int),
        decreases n - k,
    {
        let ghost before = r@;
        let index_text = decimal_text(k as i128);
        let count_text = decimal_text(trend[k].thread_count as i128);
        r.append("  Trend[");
        r.append(index_text.as_str());
        r.append("] thread_count: ");
        r.append(count_text.as_str());
        r.append("\n");
        proof {
            assert(r@ =~= before + trend_line(k as int, trend@[k as int]));
            assert(trend_lines(trend@, k + 1) == trend_lines(trend@, k as int) + trend_line(
                k as int,
                trend@[k as int],
            ));
            assert(r@ =~= start + trend_lines(trend@, k + 1));
        }
        k = k + 1;
    }
}

/// The diagnostic text of a thread-explosion report: a marker line, the
/// process and its server, the submission time, every trend's thread count,
/// the first threads in detail and a count of the others.
pub fn build_thread_exception_stack_trace(p: &CombinedProcessData) -> (r: String)
    ensures
        r@ == thread_exception_trace(*p),
{
    let n = p.threads.len();
    let ts_text = decimal_text(p.timestamp as i128);
    let count_text = decimal_text(n as i128);
    let mut rest = String::from_str(", NAME=");
    rest.append(p.name.as_str());
    rest.append(", USER=");
    rest.append(p.user_name.as_str());
    rest.append("\n");
    rest.append("SERVER_INFO: ID=");
    rest.append(p.server_id.as_str());
    rest.append(", NAME=");
    rest.append(p.server_name.as_str());
    rest.append("\n");
    rest.append("TIMESTAMP: ");
    rest.append(ts_text.as_str());
    rest.append("\n\n");
    rest.append("THREAD_COUNT_ANALYSIS:\n");
    rest.append("  Actual threads count: ");
    rest.append(count_text.as_str());
    rest.append("\n");
    append_trend_lines(&mut rest, &p.trend);
    rest.append("\nTHREAD_DETAILS:\n");
    let shown = if n < DETAILED_THREADS {
        n
    } else {
        DETAILED_THREADS
    };
    append_thread_lines(&mut rest, &p.threads, shown);
    if n > DETAILED_THREADS {
        let more_text = decimal_text((n - DETAILED_THREADS) as i128);
        rest.append("  ... and ");
        rest.append(more_text.as_str());
        rest.append(" more threads\n");
    }
    proof {
        if n <= DETAILED_THREADS {
            assert(more_threads_line(n as nat) == Seq::<char>::empty());
        }
    }
    rest.append("\nRECOMMENDATION: Check for thread leaks or infinite thread creation");
    proof {
        assert(rest@ =~= trace_rest(*p));
    }
    let pid_text = decimal_text(p.pid as i128);
    let mut r = String::from_str("THREAD_EXCEPTION_DETECTED\n");
    r.append("PROCESS_INFO: PID=");
    r.append(pid_text.as_str());
    r.append(rest.as_str());
    proof {
        assert(r@ =~= thread_exception_trace(*p));
    }
    r
}

/// A crash log synthesized at `now`, with placeholders where the analysis will go.
fn synthesized_log(id: &String, crash_type: &str, trace: String, now: i64) -> (r: CrashLog)
    ensures
        r@ == synthesized_row(id@, crash_type@, trace@, now),
{
    CrashLog {
        server_id: id.clone(),
        log_id: now,
        timestamp: now,
        crash_type: String::from_str(crash_type),
        severity: String::from_str("high"),
        title: String::from_str("正在等待 AI 生成"),
        message: String::from_str("正在等待 AI 生成"),
        stack_trace: Some(trace),
        resolved: false,
        ai_summary: Some(String::from_str("正在等待 AI 生成")),
        ai_analysis: Some(String::from_str("正在等待 AI 生成")),
    }
}

/// Whether a thread-explosion report on process `pid` of server `id` is stored,
/// resolved or not.
pub fn thread_exception_crash_log_exists(store: &Store, id: &String, pid: i32) -> (r: bool)
    ensures
        r == has_guard_match(store@, id@, pid),
{
    let pid_text = decimal_text(pid as i128);
    let mut marker = String::from_str("PROCESS_INFO: PID=");
    marker.append(pid_text.as_str());
    let kind = String::from_str("thread_exception");
    let logs = store.crash_logs();
    let n = logs.len();
    let mut i: usize = 0;
    while i < n
        invariant
            n == logs@.len(),
            views(logs@) == store@.crash_logs,
            marker@ == process_marker(pid),
            kind@ == "thread_exception"@,
            i <= n,
            forall|j: int| 0 <= j < i ==> !guard_match(#[trigger] store@.crash_logs[j], id@, pid),
        decreases n - i,
    {
        let log = &logs[i];
        proof {
            assert(store@.crash_logs[i as int] == log@);
        }
        if log.server_id == *id && log.crash_type == kind {
            match &log.stack_trace {
                Some(t) => {
                    if text_contains(t.as_str(), marker.as_str()) {
                        assert(guard_match(store@.crash_logs[i as int], id@, pid));
                        return true;
                    }
                },
                None => {},
            }
        }
        i = i + 1;
    }
    false
}

/// Runs the thread-explosion guard for `p`: stores a report stamped `now`
/// unless one on the same process of the same server is stored already.
pub fn handle_thread_exception_crash_log(store: &mut Store, p: &CombinedProcessData, now: i64)
    requires
        old(store).wf(),
    ensures
        final(store).wf(),
        final(store)@ == thread_guard(old(store)@, *p, now),
{
    if thread_exception_crash_log_exists(store, &p.server_id, p.pid) {
        return ;
    }
    let trace = build_thread_exception_stack_trace(p);
    let log = synthesized_log(&p.server_id, "thread_exception", trace, now);
    store.create_crash_log(log);
}

/// Stores a kernel-crash report on server `id` stamped `now`, with `text` as
/// its diagnostic text.
pub fn handle_crash_log_from_dmesg(store: &mut Store, id: &String, text: &String, now: i64)
    requires
        old(store).wf(),
    ensures
        final(store).wf(),
        final(store)@ == (StoreView {
            crash_logs: old(store)@.crash_logs.push(kernel_crash_row(id@, text@, now)),
            ..old(store)@
        }),
{
    let log = synthesized_log(id, "segmentation_fault", text.clone(), now);
    store.create_crash_log(log);
}

} // verus!
