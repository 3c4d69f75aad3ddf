//! Records that arrive in a batch and rows that the store keeps.
//!
//! Readings that the collector reports as real numbers are carried as the
//! raw bit pattern of an IEEE-754 single-precision value (`f32::to_bits`):
//! the engine never computes with them, it only stores and overwrites them.

use vstd::prelude::*;

verus! {

/// A server descriptor; also the row of the server table.
pub struct NewServer {
    pub server_id: String,
    pub server_name: String,
    pub server_ip: String,
    pub server_os: String,
    pub server_status: String,
}

/// A stored server row.
pub struct Server {
    pub server_id: String,
    pub server_name: String,
    pub server_ip: String,
    pub server_os: String,
    pub server_status: String,
}

/// The seven readings of one system metric sample, as `f32` bit patterns.
#[derive(Debug, Clone, Copy, PartialEq, Eq, Structural)]
pub struct MetricValues {
    pub cpu_usage: u32,
    pub memory_usage: u32,
    pub disk_usage: u32,
    pub io_read: u32,
    pub io_write: u32,
    pub network_in: u32,
    pub network_out: u32,
}

/// An incoming system metric sample.
pub struct SmartSystemMetric {
    pub server_id: String,
    pub timestamp: i64,
    pub values: MetricValues,
}

/// A stored system metric row, unique per (server id, timestamp).
pub struct SystemMetric {
    pub server_id: String,
    pub timestamp: i64,
    pub values: MetricValues,
}

/// A stored process row, unique per (server id, name, user name).
pub struct Process {
    pub server_id: String,
    pub pid: i32,
    pub name: String,
    pub user_name: String,
    pub status: String,
}

/// One trend reading attached to a process submission.
#[derive(Debug, Clone, Copy, PartialEq, Eq, Structural)]
pub struct SmartProcessTrend {
    pub cpu_usage: u32,
    pub memory_usage: u32,
    pub thread_count: i32,
}

/// A stored trend row; trend rows are only ever appended.
pub struct ProcessTrend {
    pub server_id: String,
    pub pid: i32,
    pub timestamp: i64,
    pub cpu_usage: u32,
    pub memory_usage: u32,
    pub thread_count: i32,
}

/// One thread entry attached to a process submission.
pub struct SmartThread {
    pub thread_id: i32,
    pub user_name: String,
    pub priority: i32,
    pub nice_value: i32,
    pub virtual_memory: String,
    pub resident_memory: String,
    pub shared_memory: String,
    pub status: String,
    pub cpu_usage: String,
    pub memory_usage: String,
    pub runtime: String,
    pub command: String,
}

/// A stored thread row: a thread entry scoped by (server id, pid).
pub struct Thread {
    pub server_id: String,
    pub pid: i32,
    pub detail: SmartThread,
}

/// A process submission of the process batch; the server descriptor is optional.
pub struct SmartProcessInsert {
    pub server_id: String,
    pub pid: i32,
    pub name: String,
    pub user_name: String,
    pub status: String,
    pub timestamp: i64,
    pub trend: Vec<SmartProcessTrend>,
    pub threads: Vec<SmartThread>,
    pub server_name: Option<String>,
    pub server_ip: Option<String>,
    pub server_os: Option<String>,
    pub server_status: Option<String>,
}

/// A process submission of the combined batch; it always carries the server descriptor.
pub struct CombinedProcessData {
    pub server_id: String,
    pub server_name: String,
    pub server_ip: String,
    pub server_os: String,
    pub server_status: String,
    pub pid: i32,
    pub name: String,
    pub user_name: String,
    pub status: String,
    pub timestamp: i64,
    pub trend: Vec<SmartProcessTrend>,
    pub threads: Vec<SmartThread>,
}

/// A combined batch: process submissions, metric samples and an optional kernel log.
pub struct CombinedInsertData {
    pub process: Vec<CombinedProcessData>,
    pub metrics: Vec<SmartSystemMetric>,
    pub dmesg: Option<String>,
}

/// A recommendation supplied together with a crash log.
pub struct SmartRecommendation {
    pub priority: i32,
    pub action: String,
    pub command: String,
}

/// An incoming crash log of the crash-log batch.
pub struct SmartCrashLog {
    pub server_id: String,
    pub log_id: i64,
    pub timestamp: i64,
    pub crash_type: String,
    pub severity: String,
    pub title: String,
    pub message: String,
    pub stack_trace: Option<String>,
    pub resolved: bool,
    pub ai_summary: Option<String>,
    pub ai_analysis: Option<String>,
    pub recommendations: Vec<SmartRecommendation>,
}

/// A stored crash log row. Its position in the crash-log table is its row id.
pub struct CrashLog {
    pub server_id: String,
    pub log_id: i64,
    pub timestamp: i64,
    pub crash_type: String,
    pub severity: String,
    pub title: String,
    pub message: String,
    pub stack_trace: Option<String>,
    pub resolved: bool,
    pub ai_summary: Option<String>,
    pub ai_analysis: Option<String>,
}

/// A stored recommendation row, owned by the crash log at row `crash_log_id`.
pub struct AiRecommendation {
    pub crash_log_id: usize,
    pub priority: i32,
    pub action: String,
    pub command: String,
}

/// The text of an optional string.
pub open spec fn opt_view(o: Option<String>) -> Option<Seq<char>> {
    match o {
        Some(s) => Some(s@),
        None => None,
    }
}

/// What a server row holds.
pub struct ServerRow {
    pub server_id: Seq<char>,
    pub server_name: Seq<char>,
    pub server_ip: Seq<char>,
    pub server_os: Seq<char>,
    pub server_status: Seq<char>,
}

/// What a metric row holds.
pub struct MetricRow {
    pub server_id: Seq<char>,
    pub timestamp: i64,
    pub values: MetricValues,
}

/// What a process row holds.
pub struct ProcessRow {
    pub server_id: Seq<char>,
    pub pid: i32,
    pub name: Seq<char>,
    pub user_name: Seq<char>,
    pub status: Seq<char>,
}

/// What a trend row holds.
pub struct TrendRow {
    pub server_id: Seq<char>,
    pub pid: i32,
    pub timestamp: i64,
    pub cpu_usage: u32,
    pub memory_usage: u32,
    pub thread_count: i32,
}

/// What a thread entry holds.
pub struct ThreadInfo {
    pub thread_id: i32,
    pub user_name: Seq<char>,
    pub priority: i32,
    pub nice_value: i32,
    pub virtual_memory: Seq<char>,
    pub resident_memory: Seq<char>,
    pub shared_memory: Seq<char>,
    pub status: Seq<char>,
    pub cpu_usage: Seq<char>,
    pub memory_usage: Seq<char>,
    pub runtime: Seq<char>,
    pub command: Seq<char>,
}

/// What a thread row holds.
pub struct ThreadRow {
    pub server_id: Seq<char>,
    pub pid: i32,
    pub detail: ThreadInfo,
}

/// What a crash log row holds.
pub struct CrashRow {
    pub server_id: Seq<char>,
    pub log_id: i64,
    pub timestamp: i64,
    pub crash_type: Seq<char>,
    pub severity: Seq<char>,
    pub title: Seq<char>,
    pub message: Seq<char>,
    pub stack_trace: Option<Seq<char>>,
    pub resolved: bool,
    pub ai_summary: Option<Seq<char>>,
    pub ai_analysis: Option<Seq<char>>,
}

/// What a recommendation row holds.
pub struct RecommendationRow {
    pub crash_log_id: usize,
    pub priority: i32,
    pub action: Seq<char>,
    pub command: Seq<char>,
}

impl View for NewServer {
    type V = ServerRow;

    open spec fn view(&self) -> ServerRow {
        ServerRow {
            server_id: self.server_id@,
            server_name: self.server_name@,
            server_ip: self.server_ip@,
            server_os: self.server_os@,
            server_status: self.server_status@,
        }
    }
}

impl View for Server {
    type V = ServerRow;

    open spec fn view(&self) -> ServerRow {
        ServerRow {
            server_id: self.server_id@,
            server_name: self.server_name@,
            server_ip: self.server_ip@,
            server_os: self.server_os@,
            server_status: self.server_status@,
        }
    }
}

impl View for SystemMetric {
    type V = MetricRow;

    open spec fn view(&self) -> MetricRow {
        MetricRow { server_id: self.server_id@, timestamp: self.timestamp, values: self.values }
    }
}

impl View for SmartSystemMetric {
    type V = MetricRow;

    open spec fn view(&self) -> MetricRow {
        MetricRow { server_id: self.server_id@, timestamp: self.timestamp, values: self.values }
    }
}

impl View for Process {
    type V = ProcessRow;

    open spec fn view(&self) -> ProcessRow {
        ProcessRow {
            server_id: self.server_id@,
            pid: self.pid,
            name: self.name@,
            user_name: self.user_name@,
            status: self.status@,
        }
    }
}

impl View for ProcessTrend {
    type V = TrendRow;

    open spec fn view(&self) -> TrendRow {
        TrendRow {
            server_id: self.server_id@,
            pid: self.pid,
            timestamp: self.timestamp,
            cpu_usage: self.cpu_usage,
            memory_usage: self.memory_usage,
            thread_count: self.thread_count,
        }
    }
}

impl View for SmartThread {
    type V = ThreadInfo;

    open spec fn view(&self) -> ThreadInfo {
        ThreadInfo {
            thread_id: self.thread_id,
            user_name: self.user_name@,
            priority: self.priority,
            nice_value: self.nice_value,
            virtual_memory: self.virtual_memory@,
            resident_memory: self.resident_memory@,
            shared_memory: self.shared_memory@,
            status: self.status@,
            cpu_usage: self.cpu_usage@,
            memory_usage: self.memory_usage@,
            runtime: self.runtime@,
            command: self.command@,
        }
    }
}

impl View for Thread {
    type V = ThreadRow;

    open spec fn view(&self) -> ThreadRow {
        ThreadRow { server_id: self.server_id@, pid: self.pid, detail: self.detail@ }
    }
}

impl View for CrashLog {
    type V = CrashRow;

    open spec fn view(&self) -> CrashRow {
        CrashRow {
            server_id: self.server_id@,
            log_id: self.log_id,
            timestamp: self.timestamp,
            crash_type: self.crash_type@,
            severity: self.severity@,
            title: self.title@,
            message: self.message@,
            stack_trace: opt_view(self.stack_trace),
            resolved: self.resolved,
            ai_summary: opt_view(self.ai_summary),
            ai_analysis: opt_view(self.ai_analysis),
        }
    }
}

impl View for AiRecommendation {
    type V = RecommendationRow;

    open spec fn view(&self) -> RecommendationRow {
        RecommendationRow {
            crash_log_id: self.crash_log_id,
            priority: self.priority,
            action: self.action@,
            command: self.command@,
        }
    }
}

/// A copy of an optional string equal to the one it copies.
pub fn clone_opt(o: &Option<String>) -> (r: Option<String>)
    ensures
        r == *o,
{
    match o {
        Some(s) => Some(s.clone()),
        None => None,
    }
}

/// A copy of a thread entry equal to the one it copies.
pub fn clone_thread(t: &SmartThread) -> (r: SmartThread)
    ensures
        r == *t,
{
    SmartThread {
        thread_id: t.thread_id,
        user_name: t.user_name.clone(),
        priority: t.priority,
        nice_value: t.nice_value,
        virtual_memory: t.virtual_memory.clone(),
        resident_memory: t.resident_memory.clone(),
        shared_memory: t.shared_memory.clone(),
        status: t.status.clone(),
        cpu_usage: t.cpu_usage.clone(),
        memory_usage: t.memory_usage.clone(),
        runtime: t.runtime.clone(),
        command: t.command.clone(),
    }
}

} // verus!
