//! Properties of reconciliation that hold for every store and every record.

use vstd::prelude::*;
use crate::anomaly::{
    guard_match, has_guard_match, kernel_crash_row, kernel_crash_text, lemma_trace_has_marker,
    thread_exception_row, thread_explosion, thread_guard,
};
use crate::batch::{run, start, Outcome};
use crate::model::{CombinedInsertData, MetricRow, MetricValues, NewServer, ServerRow, SmartSystemMetric};
use crate::reconcile::{combined_process, reconcile_combined, upsert_metric, upsert_process, upsert_server};
use crate::seqs::{lemma_first_index_absent, lemma_first_index_found, lemma_first_index_some, first_at};
use crate::services::{combined_batch, server_stepper, kernel_step, merge_stepper, metric_step, metric_stepper, scan_stepper};
use crate::store::{metric_key, process_key, server_key, StoreView};

verus! {

/// Exactly one server row has id `id`.
pub open spec fn one_server(v: StoreView, id: Seq<char>) -> bool {
    exists|i: int|
        0 <= i < v.servers.len() && #[trigger] v.servers[i].server_id == id && forall|j: int|
            0 <= j < v.servers.len() && #[trigger] v.servers[j].server_id == id ==> j == i
}

/// Exactly one metric row is keyed (`id`, `ts`), and it holds `values`.
pub open spec fn one_metric(v: StoreView, id: Seq<char>, ts: i64, values: MetricValues) -> bool {
    exists|i: int|
        0 <= i < v.metrics.len() && #[trigger] metric_key(id, ts)(v.metrics[i])
            && v.metrics[i].values == values && forall|j: int|
            0 <= j < v.metrics.len() && #[trigger] metric_key(id, ts)(v.metrics[j]) ==> j == i
}

/// Reconciling the same server descriptor twice stores exactly one row for
/// it: the first call creates the row when none was stored, the second call
/// finds it (an update) and changes nothing.
pub proof fn lemma_server_reconcile_idempotent(v: StoreView, s: ServerRow)
    requires
        v.wf(),
    ensures
        !v.has_server(s.server_id) ==> upsert_server(v, s).servers == v.servers.push(s),
        upsert_server(v, s).has_server(s.server_id),
        upsert_server(upsert_server(v, s), s) == upsert_server(v, s),
        one_server(upsert_server(upsert_server(v, s), s), s.server_id),
{
    let id = s.server_id;
    let v1 = upsert_server(v, s);
    match v.server_slot(id) {
        Some(i) => {
            lemma_first_index_some(v.servers, server_key(id));
            assert(first_at(v1.servers, server_key(id), i));
            lemma_first_index_found(v1.servers, server_key(id), i);
            assert(v1.servers.update(i, ServerRow { server_status: s.server_status, ..v1.servers[i] }) =~= v1.servers);
            assert forall|j: int| 0 <= j < v1.servers.len() && #[trigger] v1.servers[j].server_id == id implies j == i by {
                if j != i {
                    if j < i {
                        assert(v.servers[j].server_id != v.servers[i].server_id);
                    } else {
                        assert(v.servers[i].server_id != v.servers[j].server_id);
                    }
                }
            }
            assert(v1.servers[i].server_id == id);
        },
        None => {
            lemma_first_index_absent(v.servers, server_key(id));
            let i = v.servers.len() as int;
            assert(v1.servers[i] == s);
            assert(first_at(v1.servers, server_key(id), i));
            lemma_first_index_found(v1.servers, server_key(id), i);
            assert(v1.servers.update(i, ServerRow { server_status: s.server_status, ..v1.servers[i] }) =~= v1.servers);
            assert forall|j: int| 0 <= j < v1.servers.len() && #[trigger] v1.servers[j].server_id == id implies j == i by {
                if j < i {
                    assert(!server_key(id)(v.servers[j]));
                }
            }
        },
    }
}

/// A sample resubmitted with the key (server id, timestamp) of a stored one
/// overwrites all its readings: one row stays for the key, holding the
/// readings of the last submission.
pub proof fn lemma_metric_full_overwrite(v: StoreView, first: MetricRow, second: MetricRow)
    requires
        v.wf(),
        first.server_id == second.server_id,
        first.timestamp == second.timestamp,
    ensures
        upsert_metric(v, first).metric_slot(second.server_id, second.timestamp) is Some,
        one_metric(
            upsert_metric(upsert_metric(v, first), second),
            second.server_id,
            second.timestamp,
            second.values,
        ),
{
    let id = first.server_id;
    let ts = first.timestamp;
    let key = metric_key(id, ts);
    let v1 = upsert_metric(v, first);
    let i = match v.metric_slot(id, ts) {
        Some(i) => {
            lemma_first_index_some(v.metrics, key);
            i
        },
        None => {
            lemma_first_index_absent(v.metrics, key);
            v.metrics.len() as int
        },
    };
    assert(key(v1.metrics[i]));
    assert forall|j: int| 0 <= j < v1.metrics.len() && #[trigger] key(v1.metrics[j]) implies j == i by {
        if j != i && v.metric_slot(id, ts) is Some {
            if j < i {
                assert(!(v.metrics[j].server_id == v.metrics[i].server_id && v.metrics[j].timestamp == v.metrics[i].timestamp));
            } else {
                assert(!(v.metrics[i].server_id == v.metrics[j].server_id && v.metrics[i].timestamp == v.metrics[j].timestamp));
            }
        }
    }
    assert(first_at(v1.metrics, key, i));
    lemma_first_index_found(v1.metrics, key, i);
    let v2 = upsert_metric(v1, second);
    assert(key(v2.metrics[i]));
    assert(v2.metrics[i].values == second.values);
    assert forall|j: int| 0 <= j < v2.metrics.len() && #[trigger] key(v2.metrics[j]) implies j == i by {
        if j != i {
            assert(v2.metrics[j] == v1.metrics[j]);
        }
    }
}

/// Two submissions of one process (same server, name and user) under
/// different pids land on one row: the second finds the row that the first
/// left (an update), which takes the second status and keeps its pid.
pub proof fn lemma_process_identity_collapse(
    v: StoreView,
    first: crate::model::CombinedProcessData,
    second: crate::model::CombinedProcessData,
)
    requires
        v.wf(),
        first.server_id@ == second.server_id@,
        first.name@ == second.name@,
        first.user_name@ == second.user_name@,
    ensures
        ({
            let v1 = reconcile_combined(v, first);
            let v2 = reconcile_combined(v1, second);
            &&& v1.process_slot(second.server_id@, second.name@, second.user_name@) is Some
            &&& v2.process_slot(second.server_id@, second.name@, second.user_name@)
                == v1.process_slot(second.server_id@, second.name@, second.user_name@)
            &&& v2.processes.len() == v1.processes.len()
            &&& v2.processes[v1.process_slot(second.server_id@, second.name@, second.user_name@)->0].status == second.status@
            &&& v2.processes[v1.process_slot(second.server_id@, second.name@, second.user_name@)->0].pid
                == v1.processes[v1.process_slot(second.server_id@, second.name@, second.user_name@)->0].pid
        }),
{
    let key = process_key(first.server_id@, first.name@, first.user_name@);
    let u = upsert_server(v, crate::reconcile::combined_server(first));
    assert(u.processes == v.processes);
    let v1 = reconcile_combined(v, first);
    assert(v1.processes == upsert_process(u, combined_process(first)).processes);
    let i = match v.process_slot(first.server_id@, first.name@, first.user_name@) {
        Some(i) => {
            lemma_first_index_some(v.processes, key);
            i
        },
        None => {
            lemma_first_index_absent(v.processes, key);
            v.processes.len() as int
        },
    };
    assert(key(v1.processes[i]));
    assert(first_at(v1.processes, key, i)) by {
        assert forall|j: int| 0 <= j < i implies !key(#[trigger] v1.processes[j]) by {
            assert(v1.processes[j] == v.processes[j]);
        }
    }
    lemma_first_index_found(v1.processes, key, i);
    let u2 = upsert_server(v1, crate::reconcile::combined_server(second));
    assert(u2.processes == v1.processes);
    let v2 = reconcile_combined(v1, second);
    assert(v2.processes == v1.processes.update(
        i,
        crate::model::ProcessRow { status: second.status@, ..v1.processes[i] },
    ));
    assert(first_at(v2.processes, key, i)) by {
        assert forall|j: int| 0 <= j < i implies !key(#[trigger] v2.processes[j]) by {
            assert(v2.processes[j] == v1.processes[j]);
        }
    }
    lemma_first_index_found(v2.processes, key, i);
}

/// The thread-explosion detector reports a process at most once: run twice
/// on the same process of a store without a report on it, it adds exactly
/// one report, which the second run finds and leaves alone.
pub proof fn lemma_thread_guard_reports_once(
    v: StoreView,
    p: crate::model::CombinedProcessData,
    now1: i64,
    now2: i64,
)
    requires
        !has_guard_match(v, p.server_id@, p.pid),
    ensures
        thread_guard(v, p, now1).crash_logs == v.crash_logs.push(thread_exception_row(p, now1)),
        thread_guard(thread_guard(v, p, now1), p, now2) == thread_guard(v, p, now1),
        ({
            let logs = thread_guard(thread_guard(v, p, now1), p, now2).crash_logs;
            &&& guard_match(logs[logs.len() - 1], p.server_id@, p.pid)
            &&& forall|j: int|
                0 <= j < logs.len() && #[trigger] guard_match(logs[j], p.server_id@, p.pid)
                    ==> j == logs.len() - 1
        }),
{
    lemma_trace_has_marker(p);
    let v1 = thread_guard(v, p, now1);
    let last = v.crash_logs.len() as int;
    assert(guard_match(v1.crash_logs[last], p.server_id@, p.pid));
    assert(has_guard_match(v1, p.server_id@, p.pid));
    assert forall|j: int| 0 <= j < v1.crash_logs.len() && #[trigger] guard_match(v1.crash_logs[j], p.server_id@, p.pid) implies j == last by {
        if j < last {
            assert(v1.crash_logs[j] == v.crash_logs[j]);
        }
    }
}

/// The kernel-crash detector is not deduplicated: every batch whose run has
/// not stopped and whose kernel log holds an indicator appends a new report,
/// whatever is stored, so the same text submitted twice gives two reports.
pub proof fn lemma_kernel_crash_not_deduplicated(o: Outcome, d: CombinedInsertData, now1: i64, now2: i64)
    requires
        o.error is None,
        d.dmesg is Some,
        kernel_crash_text(d.dmesg->0@),
        d.process@.len() > 0,
    ensures
        ({
            let row1 = kernel_crash_row(d.process@[0].server_id@, d.dmesg->0@, now1);
            let row2 = kernel_crash_row(d.process@[0].server_id@, d.dmesg->0@, now2);
            let o1 = kernel_step(o, d, now1);
            &&& o1.store.crash_logs == o.store.crash_logs.push(row1)
            &&& kernel_step(o1, d, now2).store.crash_logs == o.store.crash_logs.push(row1).push(row2)
        }),
{
}

/// A metric batch that stops on its second record (its server is unknown
/// and the policy is to stop) applies the first record, counts it and the
/// failure, never reaches the third, and reports the failure.
pub proof fn lemma_partial_batch_failure(v: StoreView, ms: Seq<SmartSystemMetric>)
    requires
        ms.len() == 3,
        v.has_server(ms[0].server_id@),
        !upsert_metric(v, ms[0]@).has_server(ms[1].server_id@),
    ensures
        ({
            let o = run(start(v), ms, metric_stepper(false));
            &&& o.store == upsert_metric(v, ms[0]@)
            &&& o.tally.created + o.tally.updated == 1
            &&& o.tally.failed == 1
            &&& o.error == Some(ms[1].server_id@)
        }),
{
    let f = metric_stepper(false);
    assert(ms.drop_last().drop_last().drop_last() =~= Seq::<SmartSystemMetric>::empty());
    assert(ms.drop_last().drop_last().last() == ms[0]);
    assert(ms.drop_last().last() == ms[1]);
    assert(ms.last() == ms[2]);
    let o0 = run(start(v), ms.drop_last().drop_last().drop_last(), f);
    assert(o0 == start(v));
    let o1 = run(start(v), ms.drop_last().drop_last(), f);
    assert(o1 == metric_step(start(v), ms[0], false));
    let o2 = run(start(v), ms.drop_last(), f);
    assert(o2 == metric_step(o1, ms[1], false));
    assert(o2.error is Some);
}

/// A run of the metric pass leaves the crash logs as they are.
pub proof fn lemma_metric_run_keeps_crash_logs(o: Outcome, ms: Seq<SmartSystemMetric>, cont: bool)
    ensures
        run(o, ms, metric_stepper(cont)).store.crash_logs == o.store.crash_logs,
    decreases ms.len(),
{
    if ms.len() > 0 {
        lemma_metric_run_keeps_crash_logs(o, ms.drop_last(), cont);
    }
}

/// The crash logs after a combined batch of one exploded process and no
/// kernel log: those that the thread-explosion guard leaves.
pub proof fn lemma_single_process_batch_crash_logs(
    v: StoreView,
    d: CombinedInsertData,
    cont: bool,
    now: i64,
)
    requires
        d.process@.len() == 1,
        thread_explosion(d.process@[0]),
        d.dmesg is None,
    ensures
        combined_batch(v, d, cont, now).store.crash_logs == thread_guard(v, d.process@[0], now).crash_logs,
{
    let p = d.process@[0];
    assert(d.process@.drop_last() =~= Seq::<crate::model::CombinedProcessData>::empty());
    assert(d.process@.last() == p);
    let u = upsert_server(v, crate::reconcile::combined_server(p));
    assert(u.crash_logs == v.crash_logs);
    assert(has_guard_match(u, p.server_id@, p.pid) == has_guard_match(v, p.server_id@, p.pid));
    assert(run(start(v), d.process@.drop_last(), scan_stepper(now)) == start(v));
    let o1 = run(start(v), d.process@, scan_stepper(now));
    assert(o1 == crate::services::scan_step(start(v), p, now));
    assert(o1.store.crash_logs == thread_guard(u, p, now).crash_logs);
    assert(o1.store.crash_logs == thread_guard(v, p, now).crash_logs);
    assert(run(o1, d.process@.drop_last(), merge_stepper()) == o1);
    let o2 = run(o1, d.process@, merge_stepper());
    assert(o2 == crate::services::merge_step(o1, p));
    assert(o2.store.crash_logs == o1.store.crash_logs);
    lemma_metric_run_keeps_crash_logs(o2, d.metrics@, cont);
}

/// Submitting the same exploded process in two combined batches yields one
/// thread-explosion report on it: the first batch adds it, the second finds
/// it and adds none.
pub proof fn lemma_dedup_across_batches(
    v: StoreView,
    d: CombinedInsertData,
    cont: bool,
    now1: i64,
    now2: i64,
)
    requires
        d.process@.len() == 1,
        thread_explosion(d.process@[0]),
        d.dmesg is None,
        !has_guard_match(v, d.process@[0].server_id@, d.process@[0].pid),
    ensures
        ({
            let p = d.process@[0];
            let v1 = combined_batch(v, d, cont, now1).store;
            let v2 = combined_batch(v1, d, cont, now2).store;
            &&& v1.crash_logs == v.crash_logs.push(thread_exception_row(p, now1))
            &&& v2.crash_logs == v1.crash_logs
            &&& forall|j: int|
                0 <= j < v2.crash_logs.len() && #[trigger] guard_match(v2.crash_logs[j], p.server_id@, p.pid)
                    ==> j == v.crash_logs.len()
        }),
{
    let p = d.process@[0];
    lemma_thread_guard_reports_once(v, p, now1, now2);
    lemma_single_process_batch_crash_logs(v, d, cont, now1);
    let v1 = combined_batch(v, d, cont, now1).store;
    let g = thread_guard(v, p, now1);
    assert(v1.crash_logs == g.crash_logs);
    assert(has_guard_match(v1, p.server_id@, p.pid) == has_guard_match(g, p.server_id@, p.pid));
    lemma_single_process_batch_crash_logs(v1, d, cont, now2);
    assert(thread_guard(v1, p, now2).crash_logs == v1.crash_logs);
}

/// A server batch that carries one new descriptor twice creates its row with
/// the first record and updates it with the second, leaving one row.
pub proof fn lemma_server_batch_twice(v: StoreView, s: NewServer)
    requires
        v.wf(),
        !v.has_server(s.server_id@),
    ensures
        ({
            let o = run(start(v), seq![s, s], server_stepper());
            &&& o.tally.created == 1
            &&& o.tally.updated == 1
            &&& o.tally.failed == 0
            &&& o.store == upsert_server(v, s@)
            &&& one_server(o.store, s.server_id@)
        }),
{
    lemma_server_reconcile_idempotent(v, s@);
    let xs = seq![s, s];
    assert(xs.drop_last().drop_last() =~= Seq::<NewServer>::empty());
    assert(xs.drop_last() =~= seq![s]);
    let ys = xs.drop_last();
    assert(ys.len() == 1);
    assert(ys.last() == s);
    assert(run(start(v), ys.drop_last(), server_stepper()) == start(v));
    let o1 = run(start(v), ys, server_stepper());
    assert(o1 == crate::services::server_step(start(v), s));
    assert(xs.last() == s);
    assert(run(start(v), xs, server_stepper()) == crate::services::server_step(o1, s));
}

} // verus!
