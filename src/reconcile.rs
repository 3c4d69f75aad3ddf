//! The entity reconcilers: each merges one incoming record into the store,
//! creating the entity when its natural key is new and updating it otherwise.

use vstd::prelude::*;
use crate::model::{
    clone_opt, clone_thread, CombinedProcessData, CrashLog, CrashRow, MetricRow, NewServer, Process,
    ProcessRow, ProcessTrend, RecommendationRow, Server, ServerRow, SmartCrashLog,
    SmartProcessInsert, SmartProcessTrend, SmartRecommendation, SmartSystemMetric, SmartThread,
    SystemMetric, Thread, ThreadInfo, ThreadRow, TrendRow, AiRecommendation, opt_view,
};
use crate::seqs::{lemma_first_index_some, views};
use crate::store::{Store, StoreView};

verus! {

/// A record named a server that is not stored and brought no descriptor to create it from.
pub enum IngestError {
    MissingReference { server_id: String },
}

impl IngestError {
    /// The id of the server that the failed record named.
    pub open spec fn server_id_view(&self) -> Seq<char> {
        match self {
            IngestError::MissingReference { server_id } => server_id@,
        }
    }
}

/// The server upsert: a stored server only takes the new status.
pub open spec fn upsert_server(v: StoreView, s: ServerRow) -> StoreView {
    match v.server_slot(s.server_id) {
        Some(i) => StoreView {
            servers: v.servers.update(i, ServerRow { server_status: s.server_status, ..v.servers[i] }),
            ..v
        },
        None => StoreView { servers: v.servers.push(s), ..v },
    }
}

/// The metric upsert: a stored sample takes every new reading.
pub open spec fn upsert_metric(v: StoreView, m: MetricRow) -> StoreView {
    match v.metric_slot(m.server_id, m.timestamp) {
        Some(i) => StoreView {
            metrics: v.metrics.update(i, MetricRow { values: m.values, ..v.metrics[i] }),
            ..v
        },
        None => StoreView { metrics: v.metrics.push(m), ..v },
    }
}

/// The process upsert: a stored process only takes the new status; its pid stays.
pub open spec fn upsert_process(v: StoreView, p: ProcessRow) -> StoreView {
    match v.process_slot(p.server_id, p.name, p.user_name) {
        Some(i) => StoreView {
            processes: v.processes.update(i, ProcessRow { status: p.status, ..v.processes[i] }),
            ..v
        },
        None => StoreView { processes: v.processes.push(p), ..v },
    }
}

pub open spec fn trend_row(id: Seq<char>, pid: i32, ts: i64, t: SmartProcessTrend) -> TrendRow {
    TrendRow {
        server_id: id,
        pid,
        timestamp: ts,
        cpu_usage: t.cpu_usage,
        memory_usage: t.memory_usage,
        thread_count: t.thread_count,
    }
}

pub open spec fn thread_row(id: Seq<char>, pid: i32, d: ThreadInfo) -> ThreadRow {
    ThreadRow { server_id: id, pid, detail: d }
}

pub open spec fn trend_rows(id: Seq<char>, pid: i32, ts: i64, trend: Seq<SmartProcessTrend>) -> Seq<
    TrendRow,
> {
    trend.map_values(|t: SmartProcessTrend| trend_row(id, pid, ts, t))
}

pub open spec fn thread_rows(id: Seq<char>, pid: i32, threads: Seq<ThreadInfo>) -> Seq<ThreadRow> {
    threads.map_values(|d: ThreadInfo| thread_row(id, pid, d))
}

/// Appends one trend row per reading, and replaces the whole thread set of
/// (`id`, `pid`) by the submitted threads.
pub open spec fn refresh_process_data(
    v: StoreView,
    id: Seq<char>,
    pid: i32,
    ts: i64,
    trend: Seq<SmartProcessTrend>,
    threads: Seq<ThreadInfo>,
) -> StoreView {
    StoreView {
        trends: v.trends + trend_rows(id, pid, ts, trend),
        threads: v.threads_without(id, pid) + thread_rows(id, pid, threads),
        ..v
    }
}

/// The server descriptor of a combined submission.
pub open spec fn combined_server(p: CombinedProcessData) -> ServerRow {
    ServerRow {
        server_id: p.server_id@,
        server_name: p.server_name@,
        server_ip: p.server_ip@,
        server_os: p.server_os@,
        server_status: p.server_status@,
    }
}

pub open spec fn combined_process(p: CombinedProcessData) -> ProcessRow {
    ProcessRow {
        server_id: p.server_id@,
        pid: p.pid,
        name: p.name@,
        user_name: p.user_name@,
        status: p.status@,
    }
}

/// A combined submission merged: the server upserted from its descriptor,
/// the process upserted, then its trends and threads refreshed.
pub open spec fn reconcile_combined(v: StoreView, p: CombinedProcessData) -> StoreView {
    refresh_process_data(
        upsert_process(upsert_server(v, combined_server(p)), combined_process(p)),
        p.server_id@,
        p.pid,
        p.timestamp,
        p.trend@,
        views(p.threads@),
    )
}

/// The server descriptor of a process submission, when all its fields are given.
pub open spec fn smart_descriptor(p: SmartProcessInsert) -> Option<ServerRow> {
    match (p.server_name, p.server_ip, p.server_os, p.server_status) {
        (Some(name), Some(ip), Some(os), Some(status)) => Some(
            ServerRow {
                server_id: p.server_id@,
                server_name: name@,
                server_ip: ip@,
                server_os: os@,
                server_status: status@,
            },
        ),
        _ => None,
    }
}

/// A process submission can be merged: its server is stored or can be created.
pub open spec fn process_insert_ok(v: StoreView, p: SmartProcessInsert) -> bool {
    v.has_server(p.server_id@) || smart_descriptor(p) is Some
}

/// The store with the server of `p` present; a stored server is left as it is.
pub open spec fn ensure_server(v: StoreView, p: SmartProcessInsert) -> StoreView {
    if v.has_server(p.server_id@) {
        v
    } else {
        StoreView { servers: v.servers.push(smart_descriptor(p)->0), ..v }
    }
}

pub open spec fn smart_process(p: SmartProcessInsert) -> ProcessRow {
    ProcessRow {
        server_id: p.server_id@,
        pid: p.pid,
        name: p.name@,
        user_name: p.user_name@,
        status: p.status@,
    }
}

/// A process submission merged, where `process_insert_ok` holds.
pub open spec fn reconcile_process(v: StoreView, p: SmartProcessInsert) -> StoreView {
    refresh_process_data(
        upsert_process(ensure_server(v, p), smart_process(p)),
        p.server_id@,
        p.pid,
        p.timestamp,
        p.trend@,
        views(p.threads@),
    )
}

pub open spec fn crash_row_of(c: SmartCrashLog) -> CrashRow {
    CrashRow {
        server_id: c.server_id@,
        log_id: c.log_id,
        timestamp: c.timestamp,
        crash_type: c.crash_type@,
        severity: c.severity@,
        title: c.title@,
        message: c.message@,
        stack_trace: opt_view(c.stack_trace),
        resolved: c.resolved,
        ai_summary: opt_view(c.ai_summary),
        ai_analysis: opt_view(c.ai_analysis),
    }
}

pub open spec fn recommendation_row(id: usize, r: SmartRecommendation) -> RecommendationRow {
    RecommendationRow { crash_log_id: id, priority: r.priority, action: r.action@, command: r.command@ }
}

pub open spec fn recommendation_rows(id: usize, recs: Seq<SmartRecommendation>) -> Seq<
    RecommendationRow,
> {
    recs.map_values(|r: SmartRecommendation| recommendation_row(id, r))
}

/// The crash-log upsert keyed by (server id, timestamp): a stored log takes
/// every new field but keeps its `log_id` and its recommendations; a new log
/// brings its own.
pub open spec fn upsert_crash_log(v: StoreView, c: SmartCrashLog) -> StoreView {
    match v.crash_slot(c.server_id@, c.timestamp) {
        Some(i) => StoreView {
            crash_logs: v.crash_logs.update(
                i,
                CrashRow { log_id: v.crash_logs[i].log_id, ..crash_row_of(c) },
            ),
            ..v
        },
        None => StoreView {
            crash_logs: v.crash_logs.push(crash_row_of(c)),
            recommendations: v.recommendations + recommendation_rows(
                v.crash_logs.len() as usize,
                c.recommendations@,
            ),
            ..v
        },
    }
}

/// Merges a server descriptor; true when the server was stored already.
pub fn handle_server_insert(store: &mut Store, server: &NewServer) -> (r: bool)
    requires
        old(store).wf(),
    ensures
        final(store).wf(),
        final(store)@ == upsert_server(old(store)@, server@),
        r == old(store)@.has_server(server.server_id@),
{
    match store.get_server_by_id(&server.server_id) {
        Some(i) => {
            proof {
                lemma_first_index_some(store@.servers, crate::store::server_key(server.server_id@));
            }
            store.update_server_status(i, &server.server_status);
            true
        },
        None => {
            store.create_server(
                Server {
                    server_id: server.server_id.clone(),
                    server_name: server.server_name.clone(),
                    server_ip: server.server_ip.clone(),
                    server_os: server.server_os.clone(),
                    server_status: server.server_status.clone(),
                },
            );
            false
        },
    }
}

/// Merges a metric sample of a stored server; true when a sample with the
/// same timestamp was stored already.
pub fn handle_metric_insert(store: &mut Store, metric: &SmartSystemMetric) -> (r: bool)
    requires
        old(store).wf(),
    ensures
        final(store).wf(),
        final(store)@ == upsert_metric(old(store)@, metric@),
        r == old(store)@.metric_slot(metric.server_id@, metric.timestamp) is Some,
{
    match store.get_system_metric_by_timestamp(&metric.server_id, metric.timestamp) {
        Some(i) => {
            proof {
                lemma_first_index_some(
                    store@.metrics,
                    crate::store::metric_key(metric.server_id@, metric.timestamp),
                );
            }
            store.update_system_metric(i, metric.values);
            true
        },
        None => {
            store.create_system_metric(
                SystemMetric {
                    server_id: metric.server_id.clone(),
                    timestamp: metric.timestamp,
                    values: metric.values,
                },
            );
            false
        },
    }
}

/// Appends the trend rows of a submission and replaces the thread set of
/// (`id`, `pid`) by its threads.
pub fn add_process_related_data(
    store: &mut Store,
    id: &String,
    pid: i32,
    ts: i64,
    trend: &Vec<SmartProcessTrend>,
    threads: &Vec<SmartThread>,
)
    requires
        old(store).wf(),
    ensures
        final(store).wf(),
        final(store)@ == refresh_process_data(old(store)@, id@, pid, ts, trend@, views(threads@)),
{
    let ghost start = store@;
    let n = trend.len();
    let mut k: usize = 0;
    while k < n
        invariant
            n == trend@.len(),
            k <= n,
            store.wf(),
            store@ == (StoreView {
                trends: start.trends + trend_rows(id@, pid, ts, trend@.subrange(0, k as int)),
                ..start
            }),
        decreases n - k,
    {
        let t = trend[k];
        store.create_process_trend(
            ProcessTrend {
                server_id: id.clone(),
                pid,
                timestamp: ts,
                cpu_usage: t.cpu_usage,
                memory_usage: t.memory_usage,
                thread_count: t.thread_count,
            },
        );
        proof {
            assert(trend_rows(id@, pid, ts, trend@.subrange(0, k + 1)) =~= trend_rows(
                id@,
                pid,
                ts,
                trend@.subrange(0, k as int),
            ).push(trend_row(id@, pid, ts, t)));
            assert(store@.trends =~= start.trends + trend_rows(
                id@,
                pid,
                ts,
                trend@.subrange(0, k + 1),
            ));
        }
        k = k + 1;
    }
    proof {
        assert(trend@.subrange(0, n as int) == trend@);
    }
    let ghost mid = store@;
    store.delete_threads_by_process(id, pid);
    let m = threads.len();
    let mut j: usize = 0;
    while j < m
        invariant
            m == threads@.len(),
            j <= m,
            store.wf(),
            store@ == (StoreView {
                threads: mid.threads_without(id@, pid) + thread_rows(
                    id@,
                    pid,
                    views(threads@).subrange(0, j as int),
                ),
                ..mid
            }),
        decreases m - j,
    {
        let d = clone_thread(&threads[j]);
        store.create_thread(Thread { server_id: id.clone(), pid, detail: d });
        proof {
            assert(thread_rows(id@, pid, views(threads@).subrange(0, j + 1)) =~= thread_rows(
                id@,
                pid,
                views(threads@).subrange(0, j as int),
            ).push(thread_row(id@, pid, threads@[j as int]@)));
            assert(store@.threads =~= mid.threads_without(id@, pid) + thread_rows(
                id@,
                pid,
                views(threads@).subrange(0, j + 1),
            ));
        }
        j = j + 1;
    }
    proof {
        assert(views(threads@).subrange(0, m as int) =~= views(threads@));
        assert(mid.threads_without(id@, pid) == start.threads_without(id@, pid));
    }
}

/// Upserts the process row of a submission; true when it was stored already.
fn upsert_process_row(store: &mut Store, id: &String, pid: i32, name: &String, user: &String, status: &String) -> (r: bool)
    requires
        old(store).wf(),
    ensures
        final(store).wf(),
        final(store)@ == upsert_process(
            old(store)@,
            ProcessRow { server_id: id@, pid, name: name@, user_name: user@, status: status@ },
        ),
        r == old(store)@.process_slot(id@, name@, user@) is Some,
{
    match store.get_process_by_name_and_user(id, name, user) {
        Some(i) => {
            proof {
                lemma_first_index_some(store@.processes, crate::store::process_key(id@, name@, user@));
            }
            store.update_process_status(i, status);
            true
        },
        None => {
            store.create_process(
                Process {
                    server_id: id.clone(),
                    pid,
                    name: name.clone(),
                    user_name: user.clone(),
                    status: status.clone(),
                },
            );
            false
        },
    }
}

/// Merges a combined submission: upserts its server from the descriptor,
/// upserts the process, then refreshes its trends and threads. True when the
/// process was stored already.
pub fn handle_combined_process_insert(store: &mut Store, p: &CombinedProcessData) -> (r: bool)
    requires
        old(store).wf(),
    ensures
        final(store).wf(),
        final(store)@ == reconcile_combined(old(store)@, *p),
        r == old(store)@.process_slot(p.server_id@, p.name@, p.user_name@) is Some,
{
    let server = NewServer {
        server_id: p.server_id.clone(),
        server_name: p.server_name.clone(),
        server_ip: p.server_ip.clone(),
        server_os: p.server_os.clone(),
        server_status: p.server_status.clone(),
    };
    handle_server_insert(store, &server);
    let r = upsert_process_row(store, &p.server_id, p.pid, &p.name, &p.user_name, &p.status);
    add_process_related_data(store, &p.server_id, p.pid, p.timestamp, &p.trend, &p.threads);
    r
}

/// Makes sure the server of a process submission is stored, creating it from
/// the submission's descriptor when it is not.
pub fn ensure_server_exists(store: &mut Store, p: &SmartProcessInsert) -> (r: Result<(), IngestError>)
    requires
        old(store).wf(),
    ensures
        final(store).wf(),
        r is Ok <==> process_insert_ok(old(store)@, *p),
        r is Ok ==> final(store)@ == ensure_server(old(store)@, *p),
        r matches Err(e) ==> final(store)@ == old(store)@ && e.server_id_view() == p.server_id@,
{
    if store.get_server_by_id(&p.server_id).is_some() {
        return Ok(());
    }
    match (&p.server_name, &p.server_ip, &p.server_os, &p.server_status) {
        (Some(name), Some(ip), Some(os), Some(status)) => {
            store.create_server(
                Server {
                    server_id: p.server_id.clone(),
                    server_name: name.clone(),
                    server_ip: ip.clone(),
                    server_os: os.clone(),
                    server_status: status.clone(),
                },
            );
            Ok(())
        },
        _ => Err(IngestError::MissingReference { server_id: p.server_id.clone() }),
    }
}

/// Merges a process submission whose server is stored or described; true when
/// the process was stored already.
pub fn handle_process_insert(store: &mut Store, p: &SmartProcessInsert) -> (r: Result<bool, IngestError>)
    requires
        old(store).wf(),
    ensures
        final(store).wf(),
        r is Ok <==> process_insert_ok(old(store)@, *p),
        r matches Ok(b) ==> final(store)@ == reconcile_process(old(store)@, *p) && b == old(
            store,
        )@.process_slot(p.server_id@, p.name@, p.user_name@) is Some,
        r matches Err(e) ==> final(store)@ == old(store)@ && e.server_id_view() == p.server_id@,
{
    match ensure_server_exists(store, p) {
        Ok(()) => {},
        Err(e) => {
            return Err(e);
        },
    }
    let r = upsert_process_row(store, &p.server_id, p.pid, &p.name, &p.user_name, &p.status);
    add_process_related_data(store, &p.server_id, p.pid, p.timestamp, &p.trend, &p.threads);
    Ok(r)
}

/// Merges a crash log keyed by (server id, timestamp); true when a log with
/// that key was stored already. Recommendations come in only with a new log.
pub fn handle_crash_log_insert(store: &mut Store, c: &SmartCrashLog) -> (r: bool)
    requires
        old(store).wf(),
    ensures
        final(store).wf(),
        final(store)@ == upsert_crash_log(old(store)@, *c),
        r == old(store)@.crash_slot(c.server_id@, c.timestamp) is Some,
{
    let mut row = CrashLog {
        server_id: c.server_id.clone(),
        log_id: c.log_id,
        timestamp: c.timestamp,
        crash_type: c.crash_type.clone(),
        severity: c.severity.clone(),
        title: c.title.clone(),
        message: c.message.clone(),
        stack_trace: clone_opt(&c.stack_trace),
        resolved: c.resolved,
        ai_summary: clone_opt(&c.ai_summary),
        ai_analysis: clone_opt(&c.ai_analysis),
    };
    match store.get_crash_log_by_timestamp(&c.server_id, c.timestamp) {
        Some(i) => {
            proof {
                lemma_first_index_some(
                    store@.crash_logs,
                    crate::store::crash_key(c.server_id@, c.timestamp),
                );
            }
            row.log_id = store.crash_logs()[i].log_id;
            store.update_crash_log(i, row);
            true
        },
        None => {
            let ghost start = store@;
            let id = store.create_crash_log(row);
            let ghost mid = store@;
            let n = c.recommendations.len();
            let mut k: usize = 0;
            while k < n
                invariant
                    n == c.recommendations@.len(),
                    k <= n,
                    id < mid.crash_logs.len(),
                    store.wf(),
                    store@ == (StoreView {
                        recommendations: mid.recommendations + recommendation_rows(
                            id,
                            c.recommendations@.subrange(0, k as int),
                        ),
                        ..mid
                    }),
                decreases n - k,
            {
                let rec = &c.recommendations[k];
                store.create_ai_recommendation(
                    AiRecommendation {
                        crash_log_id: id,
                        priority: rec.priority,
                        action: rec.action.clone(),
                        command: rec.command.clone(),
                    },
                );
                proof {
                    assert(recommendation_rows(id, c.recommendations@.subrange(0, k + 1))
                        =~= recommendation_rows(id, c.recommendations@.subrange(0, k as int)).push(
                        recommendation_row(id, *rec),
                    ));
                    assert(store@.recommendations =~= mid.recommendations + recommendation_rows(
                        id,
                        c.recommendations@.subrange(0, k + 1),
                    ));
                }
                k = k + 1;
            }
            proof {
                assert(c.recommendations@.subrange(0, n as int) =~= c.recommendations@);
            }
            false
        },
    }
}

} // verus!
