//! The ingestion coordinator: runs a batch through the reconcilers and the
//! anomaly detectors, keeps the tally, and applies the continue-on-error policy.

use vstd::prelude::*;
use crate::anomaly::{
    handle_crash_log_from_dmesg, handle_thread_exception_crash_log, has_thread_exception,
    is_system_crash, kernel_crash_row, kernel_crash_text, thread_explosion, thread_guard,
};
use crate::batch::{lemma_run_all, lemma_run_step, lemma_run_stopped, run, start, Outcome, Tally};
use crate::clock::now_millis;
use crate::model::{
    CombinedInsertData, CombinedProcessData, NewServer, SmartCrashLog, SmartProcessInsert,
    SmartSystemMetric,
};
use crate::reconcile::{
    combined_server, handle_combined_process_insert, handle_crash_log_insert,
    handle_metric_insert, handle_process_insert, handle_server_insert, process_insert_ok,
    reconcile_combined, reconcile_process, upsert_crash_log, upsert_metric, upsert_server,
    IngestError,
};
use crate::store::{Store, StoreView};

verus! {

/// The tally of one batch call.
pub struct InsertResult {
    pub success_count: usize,
    pub updated_count: usize,
    pub error_count: usize,
}

impl View for InsertResult {
    type V = Tally;

    open spec fn view(&self) -> Tally {
        Tally {
            created: self.success_count as nat,
            updated: self.updated_count as nat,
            failed: self.error_count as nat,
        }
    }
}

impl InsertResult {
    /// How many records the tally has counted.
    pub open spec fn total(&self) -> nat {
        (self.success_count + self.updated_count + self.error_count) as nat
    }

    pub fn new() -> (r: InsertResult)
        ensures
            r@ == Tally::zero(),
            r.total() == 0,
    {
        InsertResult { success_count: 0, updated_count: 0, error_count: 0 }
    }

    pub fn add_success(&mut self)
        requires
            old(self).total() < usize::MAX,
        ensures
            final(self)@ == old(self)@.count(false),
            final(self).total() == old(self).total() + 1,
    {
        self.success_count = self.success_count + 1;
    }

    pub fn add_updated(&mut self)
        requires
            old(self).total() < usize::MAX,
        ensures
            final(self)@ == old(self)@.count(true),
            final(self).total() == old(self).total() + 1,
    {
        self.updated_count = self.updated_count + 1;
    }

    pub fn add_error(&mut self)
        requires
            old(self).total() < usize::MAX,
        ensures
            final(self)@ == old(self)@.fail(),
            final(self).total() == old(self).total() + 1,
    {
        self.error_count = self.error_count + 1;
    }

    /// Adds the counts of another tally.
    pub fn merge(&mut self, other: InsertResult)
        requires
            old(self).total() + other.total() <= usize::MAX,
        ensures
            final(self)@ == (Tally {
                created: old(self)@.created + other@.created,
                updated: old(self)@.updated + other@.updated,
                failed: old(self)@.failed + other@.failed,
            }),
            final(self).total() == old(self).total() + other.total(),
    {
        self.success_count = self.success_count + other.success_count;
        self.updated_count = self.updated_count + other.updated_count;
        self.error_count = self.error_count + other.error_count;
    }
}

/// A batch stopped by a failed record: the tally so far and the failure.
pub struct BatchError {
    pub partial: InsertResult,
    pub error: IngestError,
}

/// `r` is what a batch call returns when its run ends in `o`.
pub open spec fn reports(r: Result<InsertResult, BatchError>, o: Outcome) -> bool {
    match r {
        Ok(t) => o.error is None && t@ == o.tally,
        Err(e) => o.error == Some(e.error.server_id_view()) && e.partial@ == o.tally,
    }
}

/// A record that failed: counted, and with `cont` false, the run stops on it.
pub open spec fn failed_step(o: Outcome, id: Seq<char>, cont: bool) -> Outcome {
    Outcome {
        tally: o.tally.fail(),
        error: if cont {
            None
        } else {
            Some(id)
        },
        ..o
    }
}

pub open spec fn server_step(o: Outcome, s: NewServer) -> Outcome {
    Outcome {
        store: upsert_server(o.store, s@),
        tally: o.tally.count(o.store.has_server(s.server_id@)),
        ..o
    }
}

pub open spec fn server_stepper() -> spec_fn(Outcome, NewServer) -> Outcome {
    |o: Outcome, s: NewServer| server_step(o, s)
}

/// A metric sample of an unknown server fails; any other is upserted.
pub open spec fn metric_step(o: Outcome, m: SmartSystemMetric, cont: bool) -> Outcome {
    if o.error is Some {
        o
    } else if !o.store.has_server(m.server_id@) {
        failed_step(o, m.server_id@, cont)
    } else {
        Outcome {
            store: upsert_metric(o.store, m@),
            tally: o.tally.count(o.store.metric_slot(m.server_id@, m.timestamp) is Some),
            ..o
        }
    }
}

pub open spec fn metric_stepper(cont: bool) -> spec_fn(Outcome, SmartSystemMetric) -> Outcome {
    |o: Outcome, m: SmartSystemMetric| metric_step(o, m, cont)
}

/// A process submission whose server is neither stored nor described fails.
pub open spec fn process_step(o: Outcome, p: SmartProcessInsert, cont: bool) -> Outcome {
    if o.error is Some {
        o
    } else if !process_insert_ok(o.store, p) {
        failed_step(o, p.server_id@, cont)
    } else {
        Outcome {
            store: reconcile_process(o.store, p),
            tally: o.tally.count(o.store.process_slot(p.server_id@, p.name@, p.user_name@) is Some),
            ..o
        }
    }
}

pub open spec fn process_stepper(cont: bool) -> spec_fn(Outcome, SmartProcessInsert) -> Outcome {
    |o: Outcome, p: SmartProcessInsert| process_step(o, p, cont)
}

/// A crash log of an unknown server fails; any other is upserted.
pub open spec fn crash_step(o: Outcome, c: SmartCrashLog, cont: bool) -> Outcome {
    if o.error is Some {
        o
    } else if !o.store.has_server(c.server_id@) {
        failed_step(o, c.server_id@, cont)
    } else {
        Outcome {
            store: upsert_crash_log(o.store, c),
            tally: o.tally.count(o.store.crash_slot(c.server_id@, c.timestamp) is Some),
            ..o
        }
    }
}

pub open spec fn crash_stepper(cont: bool) -> spec_fn(Outcome, SmartCrashLog) -> Outcome {
    |o: Outcome, c: SmartCrashLog| crash_step(o, c, cont)
}

/// The anomaly scan of a combined submission: its server is upserted, then
/// the thread-explosion detector runs; a detection counts as created, even
/// when the guard suppressed the report.
pub open spec fn scan_step(o: Outcome, p: CombinedProcessData, now: i64) -> Outcome {
    let v = upsert_server(o.store, combined_server(p));
    if thread_explosion(p) {
        Outcome { store: thread_guard(v, p, now), tally: o.tally.count(false), ..o }
    } else {
        Outcome { store: v, ..o }
    }
}

pub open spec fn scan_stepper(now: i64) -> spec_fn(Outcome, CombinedProcessData) -> Outcome {
    |o: Outcome, p: CombinedProcessData| scan_step(o, p, now)
}

pub open spec fn merge_step(o: Outcome, p: CombinedProcessData) -> Outcome {
    Outcome {
        store: reconcile_combined(o.store, p),
        tally: o.tally.count(o.store.process_slot(p.server_id@, p.name@, p.user_name@) is Some),
        ..o
    }
}

pub open spec fn merge_stepper() -> spec_fn(Outcome, CombinedProcessData) -> Outcome {
    |o: Outcome, p: CombinedProcessData| merge_step(o, p)
}

/// The kernel-crash scan: a kernel log with an indicator yields a report on
/// the first server of the batch, unless the run stopped or has no process.
pub open spec fn kernel_step(o: Outcome, d: CombinedInsertData, now: i64) -> Outcome {
    match d.dmesg {
        Some(t) => if o.error is None && kernel_crash_text(t@) && d.process@.len() > 0 {
            Outcome {
                store: StoreView {
                    crash_logs: o.store.crash_logs.push(
                        kernel_crash_row(d.process@[0].server_id@, t@, now),
                    ),
                    ..o.store
                },
                tally: o.tally.count(false),
                ..o
            }
        } else {
            o
        },
        None => o,
    }
}

/// A combined batch: anomaly scan, process reconciliation, metric
/// reconciliation and kernel-crash scan, in that order.
pub open spec fn combined_batch(v: StoreView, d: CombinedInsertData, cont: bool, now: i64) -> Outcome {
    kernel_step(
        run(
            run(run(start(v), d.process@, scan_stepper(now)), d.process@, merge_stepper()),
            d.metrics@,
            metric_stepper(cont),
        ),
        d,
        now,
    )
}

/// The entry points of batch ingestion.
pub struct SmartInsertService;

impl SmartInsertService {
    /// Upserts every server of the batch; no server record can fail.
    pub fn insert_servers(store: &mut Store, servers: Vec<NewServer>) -> (r: InsertResult)
        requires
            old(store).wf(),
        ensures
            final(store).wf(),
            final(store)@ == run(start(old(store)@), servers@, server_stepper()).store,
            r@ == run(start(old(store)@), servers@, server_stepper()).tally,
    {
        let ghost o0 = start(store@);
        let mut result = InsertResult::new();
        let n = servers.len();
        let mut i: usize = 0;
        while i < n
            invariant
                n == servers@.len(),
                i <= n,
                store.wf(),
                result.total() == i,
                run(o0, servers@.subrange(0, i as int), server_stepper()) == (Outcome {
                    store: store@,
                    tally: result@,
                    error: None,
                }),
            decreases n - i,
        {
            proof {
                lemma_run_step(o0, servers@, server_stepper(), i as int);
            }
            if handle_server_insert(store, &servers[i]) {
                result.add_updated();
            } else {
                result.add_success();
            }
            i = i + 1;
        }
        proof {
            lemma_run_all(o0, servers@, server_stepper());
        }
        result
    }

    /// The metric pass: samples of unknown servers fail, the others are upserted;
    /// with `cont` false the first failure stops the pass.
    fn reconcile_metrics(
        store: &mut Store,
        metrics: &Vec<SmartSystemMetric>,
        cont: bool,
        result: &mut InsertResult,
    ) -> (r: Result<(), IngestError>)
        requires
            old(store).wf(),
            old(result).total() + metrics@.len() <= usize::MAX,
        ensures
            final(store).wf(),
            final(result).total() <= old(result).total() + metrics@.len(),
            ({
                let o = run(
                    Outcome { store: old(store)@, tally: old(result)@, error: None },
                    metrics@,
                    metric_stepper(cont),
                );
                &&& final(store)@ == o.store
                &&& final(result)@ == o.tally
                &&& match r {
                    Ok(()) => o.error is None,
                    Err(e) => o.error == Some(e.server_id_view()),
                }
            }),
    {
        let ghost o0 = Outcome { store: store@, tally: result@, error: None };
        let ghost t0 = result.total();
        let n = metrics.len();
        let mut failure: Option<IngestError> = None;
        let mut i: usize = 0;
        proof {
            lemma_run_all(o0, metrics@, metric_stepper(cont));
        }
        while i < n
            invariant_except_break
                i <= n,
                result.total() == t0 + i,
                failure is None,
                run(o0, metrics@.subrange(0, i as int), metric_stepper(cont)) == (Outcome {
                    store: store@,
                    tally: result@,
                    error: None,
                }),
            invariant
                n == metrics@.len(),
                t0 + n <= usize::MAX,
                store.wf(),
                run(o0, metrics@.subrange(0, n as int), metric_stepper(cont)) == run(o0, metrics@, metric_stepper(cont)),
            ensures
                store.wf(),
                result.total() <= t0 + n,
                failure is None ==> run(o0, metrics@, metric_stepper(cont)) == (Outcome {
                    store: store@,
                    tally: result@,
                    error: None,
                }),
                failure matches Some(e) ==> run(o0, metrics@, metric_stepper(cont)) == (Outcome {
                    store: store@,
                    tally: result@,
                    error: Some(e.server_id_view()),
                }),
            decreases n - i,
        {
            proof {
                lemma_run_step(o0, metrics@, metric_stepper(cont), i as int);
            }
            let m = &metrics[i];
            if store.get_server_by_id(&m.server_id).is_none() {
                result.add_error();
                if !cont {
                    proof {
                        assert forall|q: Outcome, x: SmartSystemMetric|
                            q.error is Some implies #[trigger] metric_stepper(cont)(q, x) == q by {}
                        lemma_run_stopped(o0, metrics@, metric_stepper(cont), i + 1);
                    }
                    failure = Some(IngestError::MissingReference { server_id: m.server_id.clone() });
                    break;
                }
            } else if handle_metric_insert(store, m) {
                result.add_updated();
            } else {
                result.add_success();
            }
            i = i + 1;
        }
        match failure {
            None => Ok(()),
            Some(e) => Err(e),
        }
    }

    /// Upserts every metric sample whose server is stored; the others fail.
    pub fn insert_system_metrics(store: &mut Store, metrics: Vec<SmartSystemMetric>, continue_on_error: bool) -> (r: Result<InsertResult, BatchError>)
        requires
            old(store).wf(),
        ensures
            final(store).wf(),
            final(store)@ == run(start(old(store)@), metrics@, metric_stepper(continue_on_error)).store,
            reports(r, run(start(old(store)@), metrics@, metric_stepper(continue_on_error))),
    {
        let mut result = InsertResult::new();
        let n = metrics.len();
        assert(result.total() + n <= usize::MAX);
        match Self::reconcile_metrics(store, &metrics, continue_on_error, &mut result) {
            Ok(()) => Ok(result),
            Err(error) => Err(BatchError { partial: result, error }),
        }
    }

    /// Merges every process submission whose server is stored or described; the
    /// others fail.
    pub fn insert_processes(store: &mut Store, processes: Vec<SmartProcessInsert>, continue_on_error: bool) -> (r: Result<InsertResult, BatchError>)
        requires
            old(store).wf(),
        ensures
            final(store).wf(),
            final(store)@ == run(start(old(store)@), processes@, process_stepper(continue_on_error)).store,
            reports(r, run(start(old(store)@), processes@, process_stepper(continue_on_error))),
    {
        let ghost o0 = start(store@);
        let cont = continue_on_error;
        let mut result = InsertResult::new();
        let n = processes.len();
        let mut failure: Option<IngestError> = None;
        let mut i: usize = 0;
        proof {
            lemma_run_all(o0, processes@, process_stepper(cont));
        }
        while i < n
            invariant_except_break
                i <= n,
                result.total() == i,
                failure is None,
                run(o0, processes@.subrange(0, i as int), process_stepper(cont)) == (Outcome {
                    store: store@,
                    tally: result@,
                    error: None,
                }),
            invariant
                n == processes@.len(),
                store.wf(),
                run(o0, processes@.subrange(0, n as int), process_stepper(cont)) == run(o0, processes@, process_stepper(cont)),
            ensures
                store.wf(),
                failure is None ==> run(o0, processes@, process_stepper(cont)) == (Outcome {
                    store: store@,
                    tally: result@,
                    error: None,
                }),
                failure matches Some(e) ==> run(o0, processes@, process_stepper(cont)) == (Outcome {
                    store: store@,
                    tally: result@,
                    error: Some(e.server_id_view()),
                }),
            decreases n - i,
        {
            proof {
                lemma_run_step(o0, processes@, process_stepper(cont), i as int);
            }
            match handle_process_insert(store, &processes[i]) {
                Ok(true) => result.add_updated(),
                Ok(false) => result.add_success(),
                Err(error) => {
                    result.add_error();
                    if !cont {
                        proof {
                            assert forall|q: Outcome, x: SmartProcessInsert|
                                q.error is Some implies #[trigger] process_stepper(cont)(q, x) == q by {}
                            lemma_run_stopped(o0, processes@, process_stepper(cont), i + 1);
                        }
                        failure = Some(error);
                        break;
                    }
                },
            }
            i = i + 1;
        }
        match failure {
            None => Ok(result),
            Some(error) => Err(BatchError { partial: result, error }),
        }
    }

    /// Upserts every crash log whose server is stored; the others fail.
    pub fn insert_crash_logs(store: &mut Store, crash_logs: Vec<SmartCrashLog>, continue_on_error: bool) -> (r: Result<InsertResult, BatchError>)
        requires
            old(store).wf(),
        ensures
            final(store).wf(),
            final(store)@ == run(start(old(store)@), crash_logs@, crash_stepper(continue_on_error)).store,
            reports(r, run(start(old(store)@), crash_logs@, crash_stepper(continue_on_error))),
    {
        let ghost o0 = start(store@);
        let cont = continue_on_error;
        let mut result = InsertResult::new();
        let n = crash_logs.len();
        let mut failure: Option<IngestError> = None;
        let mut i: usize = 0;
        proof {
            lemma_run_all(o0, crash_logs@, crash_stepper(cont));
        }
        while i < n
            invariant_except_break
                i <= n,
                result.total() == i,
                failure is None,
                run(o0, crash_logs@.subrange(0, i as int), crash_stepper(cont)) == (Outcome {
                    store: store@,
                    tally: result@,
                    error: None,
                }),
            invariant
                n == crash_logs@.len(),
                store.wf(),
                run(o0, crash_logs@.subrange(0, n as int), crash_stepper(cont)) == run(o0, crash_logs@, crash_stepper(cont)),
            ensures
                store.wf(),
                failure is None ==> run(o0, crash_logs@, crash_stepper(cont)) == (Outcome {
                    store: store@,
                    tally: result@,
                    error: None,
                }),
                failure matches Some(e) ==> run(o0, crash_logs@, crash_stepper(cont)) == (Outcome {
                    store: store@,
                    tally: result@,
                    error: Some(e.server_id_view()),
                }),
            decreases n - i,
        {
            proof {
                lemma_run_step(o0, crash_logs@, crash_stepper(cont), i as int);
            }
            let c = &crash_logs[i];
            if store.get_server_by_id(&c.server_id).is_none() {
                result.add_error();
                if !cont {
                    proof {
                        assert forall|q: Outcome, x: SmartCrashLog|
                            q.error is Some implies #[trigger] crash_stepper(cont)(q, x) == q by {}
                        lemma_run_stopped(o0, crash_logs@, crash_stepper(cont), i + 1);
                    }
                    failure = Some(IngestError::MissingReference { server_id: c.server_id.clone() });
                    break;
                }
            } else if handle_crash_log_insert(store, c) {
                result.add_updated();
            } else {
                result.add_success();
            }
            i = i + 1;
        }
        match failure {
            None => Ok(result),
            Some(error) => Err(BatchError { partial: result, error }),
        }
    }

    /// Runs a combined batch with `now` as the detection time of every report it
    /// synthesizes.
    pub fn insert_combined_data_at(
        store: &mut Store,
        data: CombinedInsertData,
        continue_on_error: bool,
        now: i64,
    ) -> (r: Result<InsertResult, BatchError>)
        requires
            old(store).wf(),
            2 * data.process@.len() + data.metrics@.len() < usize::MAX,
        ensures
            final(store).wf(),
            final(store)@ == combined_batch(old(store)@, data, continue_on_error, now).store,
            reports(r, combined_batch(old(store)@, data, continue_on_error, now)),
    {
        let cont = continue_on_error;
        let ghost o0 = start(store@);
        let mut result = InsertResult::new();
        let np = data.process.len();
        let mut i: usize = 0;
        proof {
            lemma_run_all(o0, data.process@, scan_stepper(now));
        }
        while i < np
            invariant
                np == data.process@.len(),
                i <= np,
                store.wf(),
                result.total() <= i,
                run(o0, data.process@.subrange(0, i as int), scan_stepper(now)) == (Outcome {
                    store: store@,
                    tally: result@,
                    error: None,
                }),
            decreases np - i,
        {
            proof {
                lemma_run_step(o0, data.process@, scan_stepper(now), i as int);
            }
            let p = &data.process[i];
            let server = NewServer {
                server_id: p.server_id.clone(),
                server_name: p.server_name.clone(),
                server_ip: p.server_ip.clone(),
                server_os: p.server_os.clone(),
                server_status: p.server_status.clone(),
            };
            handle_server_insert(store, &server);
            if has_thread_exception(p) {
                handle_thread_exception_crash_log(store, p, now);
                result.add_success();
            }
            i = i + 1;
        }
        let ghost o1 = run(o0, data.process@, scan_stepper(now));
        let mut j: usize = 0;
        proof {
            lemma_run_all(o1, data.process@, merge_stepper());
        }
        while j < np
            invariant
                np == data.process@.len(),
                j <= np,
                store.wf(),
                result.total() <= np + j,
                2 * np + data.metrics@.len() < usize::MAX,
                run(o1, data.process@.subrange(0, j as int), merge_stepper()) == (Outcome {
                    store: store@,
                    tally: result@,
                    error: None,
                }),
            decreases np - j,
        {
            proof {
                lemma_run_step(o1, data.process@, merge_stepper(), j as int);
            }
            if handle_combined_process_insert(store, &data.process[j]) {
                result.add_updated();
            } else {
                result.add_success();
            }
            j = j + 1;
        }
        match Self::reconcile_metrics(store, &data.metrics, cont, &mut result) {
            Ok(()) => {},
            Err(error) => {
                return Err(BatchError { partial: result, error });
            },
        }
        match &data.dmesg {
            Some(text) => {
                if np > 0 && is_system_crash(text.as_str()) {
                    handle_crash_log_from_dmesg(store, &data.process[0].server_id, text, now);
                    result.add_success();
                }
            },
            None => {},
        }
        Ok(result)
    }

    /// Runs a combined batch, stamping the reports it synthesizes with the
    /// current time.
    pub fn insert_combined_data(store: &mut Store, data: CombinedInsertData, continue_on_error: bool) -> (r: Result<InsertResult, BatchError>)
        requires
            old(store).wf(),
            2 * data.process@.len() + data.metrics@.len() < usize::MAX,
        ensures
            final(store).wf(),
            exists|now: i64|
                {
                    &&& final(store)@ == #[trigger] combined_batch(old(store)@, data, continue_on_error, now).store
                    &&& reports(r, combined_batch(old(store)@, data, continue_on_error, now))
                },
    {
        let now = now_millis();
        Self::insert_combined_data_at(store, data, continue_on_error, now)
    }
}

} // verus!
