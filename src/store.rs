//! The durable state that reconciliation works on: one table per entity kind,
//! each looked up by its natural key.

use vstd::prelude::*;
use crate::model::{
    AiRecommendation, CrashLog, CrashRow, MetricRow, MetricValues, Process, ProcessRow,
    ProcessTrend, RecommendationRow, Server, ServerRow, SystemMetric, Thread, ThreadRow,
    TrendRow,
};
use crate::model::clone_thread;
use crate::seqs::{
    first_at, lemma_views_push, lemma_views_update, views, first_index, lemma_first_index_absent, lemma_first_index_found,
    lemma_first_index_none,
};

verus! {

/// The contents of every table, in insertion order.
pub struct StoreView {
    pub servers: Seq<ServerRow>,
    pub metrics: Seq<MetricRow>,
    pub processes: Seq<ProcessRow>,
    pub trends: Seq<TrendRow>,
    pub threads: Seq<ThreadRow>,
    pub crash_logs: Seq<CrashRow>,
    pub recommendations: Seq<RecommendationRow>,
}

/// A server row whose id is `id`.
pub open spec fn server_key(id: Seq<char>) -> spec_fn(ServerRow) -> bool {
    |r: ServerRow| r.server_id == id
}

/// A metric row of server `id` taken at `ts`.
pub open spec fn metric_key(id: Seq<char>, ts: i64) -> spec_fn(MetricRow) -> bool {
    |r: MetricRow| r.server_id == id && r.timestamp == ts
}

/// A process row of server `id` named `name` and run by `user`.
pub open spec fn process_key(id: Seq<char>, name: Seq<char>, user: Seq<char>) -> spec_fn(
    ProcessRow,
) -> bool {
    |r: ProcessRow| r.server_id == id && r.name == name && r.user_name == user
}

/// A crash log row of server `id` stamped `ts`.
pub open spec fn crash_key(id: Seq<char>, ts: i64) -> spec_fn(CrashRow) -> bool {
    |r: CrashRow| r.server_id == id && r.timestamp == ts
}

/// A thread row of process `pid` on server `id`.
pub open spec fn thread_of(r: ThreadRow, id: Seq<char>, pid: i32) -> bool {
    r.server_id == id && r.pid == pid
}

/// A thread row that does not belong to process `pid` on server `id`.
pub open spec fn keep_thread(id: Seq<char>, pid: i32) -> spec_fn(ThreadRow) -> bool {
    |r: ThreadRow| !thread_of(r, id, pid)
}

/// The position of a found index, as an integer.
pub open spec fn slot_of(r: Option<usize>) -> Option<int> {
    match r {
        Some(i) => Some(i as int),
        None => None,
    }
}

impl StoreView {
    pub open spec fn empty() -> StoreView {
        StoreView {
            servers: Seq::empty(),
            metrics: Seq::empty(),
            processes: Seq::empty(),
            trends: Seq::empty(),
            threads: Seq::empty(),
            crash_logs: Seq::empty(),
            recommendations: Seq::empty(),
        }
    }

    /// Natural keys are unique, and every recommendation belongs to a stored crash log.
    pub open spec fn wf(self) -> bool {
        &&& forall|i: int, j: int|
            0 <= i < j < self.servers.len() ==> #[trigger] self.servers[i].server_id
                != #[trigger] self.servers[j].server_id
        &&& forall|i: int, j: int|
            0 <= i < j < self.metrics.len() ==> !(#[trigger] self.metrics[i].server_id
                == #[trigger] self.metrics[j].server_id && self.metrics[i].timestamp
                == self.metrics[j].timestamp)
        &&& forall|i: int, j: int|
            0 <= i < j < self.processes.len() ==> !(#[trigger] self.processes[i].server_id
                == #[trigger] self.processes[j].server_id && self.processes[i].name
                == self.processes[j].name && self.processes[i].user_name
                == self.processes[j].user_name)
        &&& forall|i: int|
            0 <= i < self.recommendations.len()
                ==> #[trigger] self.recommendations[i].crash_log_id < self.crash_logs.len()
    }

    pub open spec fn server_slot(self, id: Seq<char>) -> Option<int> {
        first_index(self.servers, server_key(id))
    }

    pub open spec fn metric_slot(self, id: Seq<char>, ts: i64) -> Option<int> {
        first_index(self.metrics, metric_key(id, ts))
    }

    pub open spec fn process_slot(self, id: Seq<char>, name: Seq<char>, user: Seq<char>) -> Option<
        int,
    > {
        first_index(self.processes, process_key(id, name, user))
    }

    pub open spec fn crash_slot(self, id: Seq<char>, ts: i64) -> Option<int> {
        first_index(self.crash_logs, crash_key(id, ts))
    }

    pub open spec fn has_server(self, id: Seq<char>) -> bool {
        self.server_slot(id) is Some
    }

    /// The threads of every process but `pid` on server `id`, in their order.
    pub open spec fn threads_without(self, id: Seq<char>, pid: i32) -> Seq<ThreadRow> {
        self.threads.filter(keep_thread(id, pid))
    }
}

/// Well-formedness depends only on the keyed tables and on how many crash logs there are.
pub proof fn lemma_wf_keyed_tables(a: StoreView, b: StoreView)
    requires
        a.wf(),
        a.servers == b.servers,
        a.metrics == b.metrics,
        a.processes == b.processes,
        a.recommendations == b.recommendations,
        a.crash_logs.len() <= b.crash_logs.len(),
    ensures
        b.wf(),
{
}

/// The tables of the monitoring store.
pub struct Store {
    servers: Vec<Server>,
    metrics: Vec<SystemMetric>,
    processes: Vec<Process>,
    trends: Vec<ProcessTrend>,
    threads: Vec<Thread>,
    crash_logs: Vec<CrashLog>,
    recommendations: Vec<AiRecommendation>,
}

impl View for Store {
    type V = StoreView;

    closed spec fn view(&self) -> StoreView {
        StoreView {
            servers: views(self.servers@),
            metrics: views(self.metrics@),
            processes: views(self.processes@),
            trends: views(self.trends@),
            threads: views(self.threads@),
            crash_logs: views(self.crash_logs@),
            recommendations: views(self.recommendations@),
        }
    }
}

impl Store {
    pub open spec fn wf(&self) -> bool {
        self@.wf()
    }

    /// An empty store.
    pub fn new() -> (r: Store)
        ensures
            r@ == StoreView::empty(),
            r.wf(),
    {
        let r = Store {
            servers: Vec::new(),
            metrics: Vec::new(),
            processes: Vec::new(),
            trends: Vec::new(),
            threads: Vec::new(),
            crash_logs: Vec::new(),
            recommendations: Vec::new(),
        };
        proof {
            assert(r@.servers =~= Seq::empty());
            assert(r@.metrics =~= Seq::empty());
            assert(r@.processes =~= Seq::empty());
            assert(r@.trends =~= Seq::empty());
            assert(r@.threads =~= Seq::empty());
            assert(r@.crash_logs =~= Seq::empty());
            assert(r@.recommendations =~= Seq::empty());
        }
        r
    }

    pub fn servers(&self) -> (r: &Vec<Server>)
        ensures
            views(r@) == self@.servers,
    {
        &self.servers
    }

    pub fn metrics(&self) -> (r: &Vec<SystemMetric>)
        ensures
            views(r@) == self@.metrics,
    {
        &self.metrics
    }

    pub fn processes(&self) -> (r: &Vec<Process>)
        ensures
            views(r@) == self@.processes,
    {
        &self.processes
    }

    pub fn trends(&self) -> (r: &Vec<ProcessTrend>)
        ensures
            views(r@) == self@.trends,
    {
        &self.trends
    }

    pub fn threads(&self) -> (r: &Vec<Thread>)
        ensures
            views(r@) == self@.threads,
    {
        &self.threads
    }

    pub fn crash_logs(&self) -> (r: &Vec<CrashLog>)
        ensures
            views(r@) == self@.crash_logs,
    {
        &self.crash_logs
    }

    pub fn recommendations(&self) -> (r: &Vec<AiRecommendation>)
        ensures
            views(r@) == self@.recommendations,
    {
        &self.recommendations
    }

    /// Looks a server up by its id.
    pub fn get_server_by_id(&self, id: &String) -> (r: Option<usize>)
        ensures
            slot_of(r) == self@.server_slot(id@),
    {
        let n = self.servers.len();
        let mut i: usize = 0;
        while i < n
            invariant
                n == self@.servers.len(),
                i <= n,
                forall|j: int| 0 <= j < i ==> !server_key(id@)(#[trigger] self@.servers[j]),
            decreases n - i,
        {
            if self.servers[i].server_id == *id {
                proof {
                    assert(first_at(self@.servers, server_key(id@), i as int));
                    lemma_first_index_found(self@.servers, server_key(id@), i as int);
                }
                return Some(i);
            }
            i = i + 1;
        }
        proof {
            lemma_first_index_none(self@.servers, server_key(id@));
        }
        None
    }

    /// Looks a metric sample up by server id and timestamp.
    pub fn get_system_metric_by_timestamp(&self, id: &String, ts: i64) -> (r: Option<usize>)
        ensures
            slot_of(r) == self@.metric_slot(id@, ts),
    {
        let n = self.metrics.len();
        let mut i: usize = 0;
        while i < n
            invariant
                n == self@.metrics.len(),
                i <= n,
                forall|j: int| 0 <= j < i ==> !metric_key(id@, ts)(#[trigger] self@.metrics[j]),
            decreases n - i,
        {
            if self.metrics[i].server_id == *id && self.metrics[i].timestamp == ts {
                proof {
                    assert(first_at(self@.metrics, metric_key(id@, ts), i as int));
                    lemma_first_index_found(self@.metrics, metric_key(id@, ts), i as int);
                }
                return Some(i);
            }
            i = i + 1;
        }
        proof {
            lemma_first_index_none(self@.metrics, metric_key(id@, ts));
        }
        None
    }

    /// Looks a process up by server id, name and user name.
    pub fn get_process_by_name_and_user(&self, id: &String, name: &String, user: &String) -> (r:
        Option<usize>)
        ensures
            slot_of(r) == self@.process_slot(id@, name@, user@),
    {
        let n = self.processes.len();
        let mut i: usize = 0;
        while i < n
            invariant
                n == self@.processes.len(),
                i <= n,
                forall|j: int|
                    0 <= j < i ==> !process_key(id@, name@, user@)(#[trigger] self@.processes[j]),
            decreases n - i,
        {
            if self.processes[i].server_id == *id && self.processes[i].name == *name
                && self.processes[i].user_name == *user {
                proof {
                    assert(first_at(self@.processes, process_key(id@, name@, user@), i as int));
                    lemma_first_index_found(
                        self@.processes,
                        process_key(id@, name@, user@),
                        i as int,
                    );
                }
                return Some(i);
            }
            i = i + 1;
        }
        proof {
            lemma_first_index_none(self@.processes, process_key(id@, name@, user@));
        }
        None
    }

    /// Looks a crash log up by server id and timestamp.
    pub fn get_crash_log_by_timestamp(&self, id: &String, ts: i64) -> (r: Option<usize>)
        ensures
            slot_of(r) == self@.crash_slot(id@, ts),
    {
        let n = self.crash_logs.len();
        let mut i: usize = 0;
        while i < n
            invariant
                n == self@.crash_logs.len(),
                i <= n,
                forall|j: int| 0 <= j < i ==> !crash_key(id@, ts)(#[trigger] self@.crash_logs[j]),
            decreases n - i,
        {
            if self.crash_logs[i].server_id == *id && self.crash_logs[i].timestamp == ts {
                proof {
                    assert(first_at(self@.crash_logs, crash_key(id@, ts), i as int));
                    lemma_first_index_found(self@.crash_logs, crash_key(id@, ts), i as int);
                }
                return Some(i);
            }
            i = i + 1;
        }
        proof {
            lemma_first_index_none(self@.crash_logs, crash_key(id@, ts));
        }
        None
    }
    /// Inserts a server whose id is not stored yet.
    pub fn create_server(&mut self, row: Server)
        requires
            old(self).wf(),
            old(self)@.server_slot(row.server_id@) is None,
        ensures
            final(self).wf(),
            final(self)@ == (StoreView { servers: old(self)@.servers.push(row@), ..old(self)@ }),
    {
        proof {
            lemma_first_index_absent(self@.servers, server_key(row.server_id@));
        }
        proof {
            lemma_views_push(self.servers@, row);
        }
        self.servers.push(row);
    }

    /// Overwrites the status of the server at position `i`.
    pub fn update_server_status(&mut self, i: usize, status: &String)
        requires
            old(self).wf(),
            i < old(self)@.servers.len(),
        ensures
            final(self).wf(),
            final(self)@ == (StoreView {
                servers: old(self)@.servers.update(
                    i as int,
                    ServerRow { server_status: status@, ..old(self)@.servers[i as int] },
                ),
                ..old(self)@
            }),
    {
        let ghost before = self.servers@;
        self.servers[i].server_status = status.clone();
        proof {
            lemma_views_update(before, i as int, self.servers@[i as int]);
            assert(self.servers@ == before.update(i as int, self.servers@[i as int]));
        }
    }

    /// Inserts a metric sample whose (server id, timestamp) is not stored yet.
    pub fn create_system_metric(&mut self, row: SystemMetric)
        requires
            old(self).wf(),
            old(self)@.metric_slot(row.server_id@, row.timestamp) is None,
        ensures
            final(self).wf(),
            final(self)@ == (StoreView { metrics: old(self)@.metrics.push(row@), ..old(self)@ }),
    {
        proof {
            lemma_first_index_absent(self@.metrics, metric_key(row.server_id@, row.timestamp));
        }
        proof {
            lemma_views_push(self.metrics@, row);
        }
        self.metrics.push(row);
    }

    /// Overwrites every reading of the metric sample at position `i`.
    pub fn update_system_metric(&mut self, i: usize, values: MetricValues)
        requires
            old(self).wf(),
            i < old(self)@.metrics.len(),
        ensures
            final(self).wf(),
            final(self)@ == (StoreView {
                metrics: old(self)@.metrics.update(
                    i as int,
                    MetricRow { values, ..old(self)@.metrics[i as int] },
                ),
                ..old(self)@
            }),
    {
        let ghost before = self.metrics@;
        self.metrics[i].values = values;
        proof {
            lemma_views_update(before, i as int, self.metrics@[i as int]);
            assert(self.metrics@ == before.update(i as int, self.metrics@[i as int]));
        }
    }

    /// Inserts a process whose (server id, name, user name) is not stored yet.
    pub fn create_process(&mut self, row: Process)
        requires
            old(self).wf(),
            old(self)@.process_slot(row.server_id@, row.name@, row.user_name@) is None,
        ensures
            final(self).wf(),
            final(self)@ == (StoreView { processes: old(self)@.processes.push(row@), ..old(self)@ }),
    {
        proof {
            lemma_first_index_absent(
                self@.processes,
                process_key(row.server_id@, row.name@, row.user_name@),
            );
        }
        proof {
            lemma_views_push(self.processes@, row);
        }
        self.processes.push(row);
    }

    /// Overwrites the status of the process at position `i`.
    pub fn update_process_status(&mut self, i: usize, status: &String)
        requires
            old(self).wf(),
            i < old(self)@.processes.len(),
        ensures
            final(self).wf(),
            final(self)@ == (StoreView {
                processes: old(self)@.processes.update(
                    i as int,
                    ProcessRow { status: status@, ..old(self)@.processes[i as int] },
                ),
                ..old(self)@
            }),
    {
        let ghost before = self.processes@;
        self.processes[i].status = status.clone();
        proof {
            lemma_views_update(before, i as int, self.processes@[i as int]);
            assert(self.processes@ == before.update(i as int, self.processes@[i as int]));
        }
    }

    /// Appends a trend row.
    pub fn create_process_trend(&mut self, row: ProcessTrend)
        requires
            old(self).wf(),
        ensures
            final(self).wf(),
            final(self)@ == (StoreView { trends: old(self)@.trends.push(row@), ..old(self)@ }),
    {
        let ghost before = self@;
        proof {
            lemma_views_push(self.trends@, row);
        }
        self.trends.push(row);
        proof {
            lemma_wf_keyed_tables(before, self@);
        }
    }

    /// Appends a thread row.
    pub fn create_thread(&mut self, row: Thread)
        requires
            old(self).wf(),
        ensures
            final(self).wf(),
            final(self)@ == (StoreView { threads: old(self)@.threads.push(row@), ..old(self)@ }),
    {
        let ghost before = self@;
        proof {
            lemma_views_push(self.threads@, row);
        }
        self.threads.push(row);
        proof {
            lemma_wf_keyed_tables(before, self@);
        }
    }

    /// Removes every thread row of process `pid` on server `id`, keeping the others in order.
    pub fn delete_threads_by_process(&mut self, id: &String, pid: i32)
        requires
            old(self).wf(),
        ensures
            final(self).wf(),
            final(self)@ == (StoreView {
                threads: old(self)@.threads_without(id@, pid),
                ..old(self)@
            }),
    {
        let ghost all = self@.threads;
        let ghost raw = self.threads@;
        let mut kept: Vec<Thread> = Vec::new();
        let n = self.threads.len();
        let mut i: usize = 0;
        while i < n
            invariant
                n == all.len(),
                self.threads@ == raw,
                all == views(raw),
                i <= n,
                views(kept@) == all.subrange(0, i as int).filter(keep_thread(id@, pid)),
            decreases n - i,
        {
            proof {
                assert(all.subrange(0, i + 1) == all.subrange(0, i as int).push(all[i as int]));
                all.subrange(0, i as int).lemma_filter_push(all[i as int], keep_thread(id@, pid));
            }
            let t = &self.threads[i];
            if !(t.server_id == *id && t.pid == pid) {
                proof {
                    lemma_views_push(kept@, Thread { server_id: t.server_id, pid: t.pid, detail: t.detail });
                }
                kept.push(Thread { server_id: t.server_id.clone(), pid: t.pid, detail: clone_thread(&t.detail) });
            }
            i = i + 1;
        }
        proof {
            assert(all.subrange(0, n as int) == all);
        }
        let ghost before = self@;
        self.threads = kept;
        proof {
            lemma_wf_keyed_tables(before, self@);
        }
    }

    /// Appends a crash log and returns its row id.
    pub fn create_crash_log(&mut self, row: CrashLog) -> (r: usize)
        requires
            old(self).wf(),
        ensures
            final(self).wf(),
            r == old(self)@.crash_logs.len(),
            final(self)@ == (StoreView { crash_logs: old(self)@.crash_logs.push(row@), ..old(self)@ }),
    {
        let ghost before = self@;
        let r = self.crash_logs.len();
        proof {
            lemma_views_push(self.crash_logs@, row);
        }
        self.crash_logs.push(row);
        proof {
            lemma_wf_keyed_tables(before, self@);
        }
        r
    }

    /// Replaces the crash log at position `i`; its recommendations stay as they are.
    pub fn update_crash_log(&mut self, i: usize, row: CrashLog)
        requires
            old(self).wf(),
            i < old(self)@.crash_logs.len(),
        ensures
            final(self).wf(),
            final(self)@ == (StoreView {
                crash_logs: old(self)@.crash_logs.update(i as int, row@),
                ..old(self)@
            }),
    {
        proof {
            lemma_views_update(self.crash_logs@, i as int, row);
        }
        self.crash_logs.set(i, row);
    }

    /// Appends a recommendation to a stored crash log.
    pub fn create_ai_recommendation(&mut self, row: AiRecommendation)
        requires
            old(self).wf(),
            row.crash_log_id < old(self)@.crash_logs.len(),
        ensures
            final(self).wf(),
            final(self)@ == (StoreView {
                recommendations: old(self)@.recommendations.push(row@),
                ..old(self)@
            }),
    {
        proof {
            lemma_views_push(self.recommendations@, row);
        }
        self.recommendations.push(row);
    }
    /// Adds a server row read back from durable storage, unless its id is
    /// stored already; true when it was added.
    pub fn restore_server(&mut self, row: Server) -> (r: bool)
        requires
            old(self).wf(),
        ensures
            final(self).wf(),
            r == (old(self)@.server_slot(row.server_id@) is None),
            r ==> final(self)@ == (StoreView { servers: old(self)@.servers.push(row@), ..old(self)@ }),
            !r ==> final(self)@ == old(self)@,
    {
        if self.get_server_by_id(&row.server_id).is_some() {
            return false;
        }
        self.create_server(row);
        true
    }

    /// Adds a metric row read back from durable storage, unless its key is
    /// stored already; true when it was added.
    pub fn restore_metric(&mut self, row: SystemMetric) -> (r: bool)
        requires
            old(self).wf(),
        ensures
            final(self).wf(),
            r == (old(self)@.metric_slot(row.server_id@, row.timestamp) is None),
            r ==> final(self)@ == (StoreView { metrics: old(self)@.metrics.push(row@), ..old(self)@ }),
            !r ==> final(self)@ == old(self)@,
    {
        if self.get_system_metric_by_timestamp(&row.server_id, row.timestamp).is_some() {
            return false;
        }
        self.create_system_metric(row);
        true
    }

    /// Adds a process row read back from durable storage, unless its key is
    /// stored already; true when it was added.
    pub fn restore_process(&mut self, row: Process) -> (r: bool)
        requires
            old(self).wf(),
        ensures
            final(self).wf(),
            r == (old(self)@.process_slot(row.server_id@, row.name@, row.user_name@) is None),
            r ==> final(self)@ == (StoreView {
                processes: old(self)@.processes.push(row@),
                ..old(self)@
            }),
            !r ==> final(self)@ == old(self)@,
    {
        if self.get_process_by_name_and_user(&row.server_id, &row.name, &row.user_name).is_some() {
            return false;
        }
        self.create_process(row);
        true
    }

    /// Adds a recommendation read back from durable storage, when the crash
    /// log it belongs to is stored; true when it was added.
    pub fn restore_recommendation(&mut self, row: AiRecommendation) -> (r: bool)
        requires
            old(self).wf(),
        ensures
            final(self).wf(),
            r == (row.crash_log_id < old(self)@.crash_logs.len()),
            r ==> final(self)@ == (StoreView {
                recommendations: old(self)@.recommendations.push(row@),
                ..old(self)@
            }),
            !r ==> final(self)@ == old(self)@,
    {
        if row.crash_log_id >= self.crash_logs.len() {
            return false;
        }
        self.create_ai_recommendation(row);
        true
    }
}

} // verus!
