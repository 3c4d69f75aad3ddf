use blackbox::anomaly::{build_thread_exception_stack_trace, has_thread_exception, is_system_crash};
use blackbox::database::DatabaseManager;
use blackbox::model::{
    CombinedInsertData, CombinedProcessData, MetricValues, NewServer, Server, SmartCrashLog,
    SmartProcessInsert, SmartProcessTrend, SmartRecommendation, SmartSystemMetric, SmartThread,
};
use blackbox::query::{old_data_cutoff, retention_cutoff, server_matches_filter, MAX_RETENTION_DAYS};
use blackbox::reconcile::IngestError;
use blackbox::services::{InsertResult, SmartInsertService};
use blackbox::store::Store;

fn server(id: &str, status: &str) -> NewServer {
    NewServer {
        server_id: id.to_string(),
        server_name: format!("{} name", id),
        server_ip: "10.0.0.1".to_string(),
        server_os: "Linux".to_string(),
        server_status: status.to_string(),
    }
}

fn values(cpu: f32) -> MetricValues {
    MetricValues {
        cpu_usage: cpu.to_bits(),
        memory_usage: 20.0f32.to_bits(),
        disk_usage: 30.0f32.to_bits(),
        io_read: 1.0f32.to_bits(),
        io_write: 2.0f32.to_bits(),
        network_in: 3.0f32.to_bits(),
        network_out: 4.0f32.to_bits(),
    }
}

fn metric(id: &str, ts: i64, cpu: f32) -> SmartSystemMetric {
    SmartSystemMetric { server_id: id.to_string(), timestamp: ts, values: values(cpu) }
}

fn thread(tid: i32, command: &str) -> SmartThread {
    SmartThread {
        thread_id: tid,
        user_name: "svc".to_string(),
        priority: 20,
        nice_value: 0,
        virtual_memory: "1024".to_string(),
        resident_memory: "512".to_string(),
        shared_memory: "128".to_string(),
        status: "S".to_string(),
        cpu_usage: "0.5".to_string(),
        memory_usage: "1.5".to_string(),
        runtime: "00:01".to_string(),
        command: command.to_string(),
    }
}

fn trend(count: i32) -> SmartProcessTrend {
    SmartProcessTrend { cpu_usage: 1.5f32.to_bits(), memory_usage: 2.5f32.to_bits(), thread_count: count }
}

fn combined(id: &str, pid: i32, name: &str, status: &str, trend: Vec<SmartProcessTrend>, threads: Vec<SmartThread>) -> CombinedProcessData {
    CombinedProcessData {
        server_id: id.to_string(),
        server_name: format!("{} name", id),
        server_ip: "10.0.0.1".to_string(),
        server_os: "Linux".to_string(),
        server_status: "running".to_string(),
        pid,
        name: name.to_string(),
        user_name: "svc".to_string(),
        status: status.to_string(),
        timestamp: 1000,
        trend,
        threads,
    }
}

fn smart_process(id: &str, pid: i32, name: &str, with_descriptor: bool) -> SmartProcessInsert {
    let d = |s: &str| if with_descriptor { Some(s.to_string()) } else { None };
    SmartProcessInsert {
        server_id: id.to_string(),
        pid,
        name: name.to_string(),
        user_name: "svc".to_string(),
        status: "running".to_string(),
        timestamp: 500,
        trend: vec![trend(4)],
        threads: vec![thread(1, "run")],
        server_name: d("srv"),
        server_ip: d("10.0.0.2"),
        server_os: d("Linux"),
        server_status: d("up"),
    }
}

fn crash(id: &str, ts: i64, title: &str, recs: Vec<(i32, &str)>) -> SmartCrashLog {
    SmartCrashLog {
        server_id: id.to_string(),
        log_id: ts,
        timestamp: ts,
        crash_type: "oom".to_string(),
        severity: "low".to_string(),
        title: title.to_string(),
        message: "message".to_string(),
        stack_trace: Some("trace".to_string()),
        resolved: false,
        ai_summary: None,
        ai_analysis: None,
        recommendations: recs
            .into_iter()
            .map(|(p, a)| SmartRecommendation { priority: p, action: a.to_string(), command: "cmd".to_string() })
            .collect(),
    }
}

fn count_type(store: &Store, t: &str) -> usize {
    store.crash_logs().iter().filter(|c| c.crash_type == t).count()
}

#[test]
fn server_reconciled_twice_is_created_then_updated() {
    let mut store = Store::new();
    let first = SmartInsertService::insert_servers(&mut store, vec![server("srv-01", "running")]);
    assert_eq!((first.success_count, first.updated_count, first.error_count), (1, 0, 0));
    let second = SmartInsertService::insert_servers(&mut store, vec![server("srv-01", "running")]);
    assert_eq!((second.success_count, second.updated_count, second.error_count), (0, 1, 0));
    assert_eq!(store.servers().len(), 1);
}

#[test]
fn server_update_changes_only_status() {
    let mut store = Store::new();
    SmartInsertService::insert_servers(&mut store, vec![server("srv-01", "running")]);
    let mut changed = server("srv-01", "stopped");
    changed.server_name = "other".to_string();
    let r = SmartInsertService::insert_servers(&mut store, vec![changed, server("srv-02", "up")]);
    assert_eq!((r.success_count, r.updated_count), (1, 1));
    assert_eq!(store.servers()[0].server_status, "stopped");
    assert_eq!(store.servers()[0].server_name, "srv-01 name");
    assert_eq!(store.servers().len(), 2);
}

#[test]
fn thread_threshold_boundary() {
    let at = combined("s", 1, "p", "r", vec![], (0..2000).map(|i| thread(i, "c")).collect());
    assert!(!has_thread_exception(&at));
    let over = combined("s", 1, "p", "r", vec![], (0..2001).map(|i| thread(i, "c")).collect());
    assert!(has_thread_exception(&over));
    assert!(!has_thread_exception(&combined("s", 1, "p", "r", vec![trend(2000)], vec![])));
    assert!(has_thread_exception(&combined("s", 1, "p", "r", vec![trend(5), trend(2001)], vec![])));
}

#[test]
fn dedup_guard_reports_once_over_two_batches() {
    let mut store = Store::new();
    for now in [111, 222] {
        let data = CombinedInsertData {
            process: vec![combined("srv-01", 42, "worker", "running", vec![trend(2500)], vec![thread(1, "w")])],
            metrics: vec![],
            dmesg: None,
        };
        let r = SmartInsertService::insert_combined_data_at(&mut store, data, false, now).ok().unwrap();
        assert_eq!(r.error_count, 0);
    }
    assert_eq!(count_type(&store, "thread_exception"), 1);
    let log = &store.crash_logs()[0];
    assert_eq!(log.timestamp, 111);
    assert_eq!(log.log_id, 111);
    assert_eq!(log.severity, "high");
    assert!(!log.resolved);
    assert!(log.stack_trace.as_ref().unwrap().contains("PROCESS_INFO: PID=42"));
}

#[test]
fn dedup_guard_is_per_server() {
    let mut store = Store::new();
    let data = CombinedInsertData {
        process: vec![
            combined("srv-01", 42, "worker", "running", vec![trend(2500)], vec![]),
            combined("srv-02", 42, "worker", "running", vec![trend(2500)], vec![]),
        ],
        metrics: vec![],
        dmesg: None,
    };
    let r = SmartInsertService::insert_combined_data(&mut store, data, false).ok().unwrap();
    assert_eq!(count_type(&store, "thread_exception"), 2);
    assert_eq!((r.success_count, r.updated_count), (4, 0));
}

#[test]
fn kernel_crash_text_is_not_deduplicated() {
    let mut store = Store::new();
    for now in [5, 6] {
        let data = CombinedInsertData {
            process: vec![combined("srv-01", 7, "init", "running", vec![], vec![])],
            metrics: vec![],
            dmesg: Some("[ 12.3] kernel panic - not syncing".to_string()),
        };
        SmartInsertService::insert_combined_data_at(&mut store, data, false, now).ok().unwrap();
    }
    assert_eq!(count_type(&store, "segmentation_fault"), 2);
    let logs = store.crash_logs();
    assert_eq!(logs[0].stack_trace.as_deref(), Some("[ 12.3] kernel panic - not syncing"));
    assert_eq!(logs[0].server_id, "srv-01");
    assert_eq!(logs[1].timestamp, 6);
    assert_eq!(logs[0].title, "正在等待 AI 生成");
}

#[test]
fn kernel_log_needs_a_process_and_an_indicator() {
    let mut store = Store::new();
    let data = CombinedInsertData { process: vec![], metrics: vec![], dmesg: Some("kernel panic".to_string()) };
    SmartInsertService::insert_combined_data_at(&mut store, data, false, 1).ok().unwrap();
    let data = CombinedInsertData {
        process: vec![combined("srv-01", 7, "init", "running", vec![], vec![])],
        metrics: vec![],
        dmesg: Some("Kernel Panic, all quiet".to_string()),
    };
    SmartInsertService::insert_combined_data_at(&mut store, data, false, 1).ok().unwrap();
    assert_eq!(store.crash_logs().len(), 0);
}

#[test]
fn kernel_indicators_are_case_sensitive() {
    for t in ["kernel BUG at mm/slab.c", "Internal error: Oops", "segmentation fault", "kernel panic", "Call trace:", "---[ end trace 1 ]---", "BUG: soft lockup", "WARNING: CPU: 0"] {
        assert!(is_system_crash(&format!("prefix {} suffix", t)));
    }
    assert!(!is_system_crash("warning: all fine"));
    assert!(!is_system_crash(""));
}

#[test]
fn metric_full_overwrite() {
    let mut store = Store::new();
    SmartInsertService::insert_servers(&mut store, vec![server("srv-01", "up")]);
    let a = SmartInsertService::insert_system_metrics(&mut store, vec![metric("srv-01", 1000, 10.0)], false).ok().unwrap();
    assert_eq!((a.success_count, a.updated_count), (1, 0));
    let mut second = metric("srv-01", 1000, 55.0);
    second.values.disk_usage = 99.0f32.to_bits();
    let b = SmartInsertService::insert_system_metrics(&mut store, vec![second], false).ok().unwrap();
    assert_eq!((b.success_count, b.updated_count), (0, 1));
    let rows: Vec<_> = store.metrics().iter().filter(|m| m.timestamp == 1000).collect();
    assert_eq!(rows.len(), 1);
    assert_eq!(f32::from_bits(rows[0].values.cpu_usage), 55.0);
    assert_eq!(f32::from_bits(rows[0].values.disk_usage), 99.0);
}

#[test]
fn process_identity_collapse() {
    let mut store = Store::new();
    let first = CombinedInsertData {
        process: vec![combined("srv-01", 100, "worker", "running", vec![], vec![])],
        metrics: vec![],
        dmesg: None,
    };
    let r1 = SmartInsertService::insert_combined_data_at(&mut store, first, false, 0).ok().unwrap();
    assert_eq!((r1.success_count, r1.updated_count), (1, 0));
    let second = CombinedInsertData {
        process: vec![combined("srv-01", 101, "worker", "sleeping", vec![], vec![])],
        metrics: vec![],
        dmesg: None,
    };
    let r2 = SmartInsertService::insert_combined_data_at(&mut store, second, false, 0).ok().unwrap();
    assert_eq!((r2.success_count, r2.updated_count), (0, 1));
    assert_eq!(store.processes().len(), 1);
    assert_eq!(store.processes()[0].status, "sleeping");
    assert_eq!(store.processes()[0].pid, 100);
}

#[test]
fn partial_batch_failure_stops() {
    let mut store = Store::new();
    SmartInsertService::insert_servers(&mut store, vec![server("srv-01", "up")]);
    let batch = vec![metric("srv-01", 1, 1.0), metric("ghost", 2, 2.0), metric("srv-01", 3, 3.0)];
    let e = match SmartInsertService::insert_system_metrics(&mut store, batch, false) {
        Ok(_) => panic!("the batch must fail"),
        Err(e) => e,
    };
    assert_eq!(e.partial.success_count + e.partial.updated_count, 1);
    assert_eq!(e.partial.error_count, 1);
    match e.error {
        IngestError::MissingReference { server_id } => assert_eq!(server_id, "ghost"),
    }
    assert_eq!(store.metrics().len(), 1);
    assert_eq!(store.metrics()[0].timestamp, 1);
}

#[test]
fn partial_batch_failure_continues_when_asked() {
    let mut store = Store::new();
    SmartInsertService::insert_servers(&mut store, vec![server("srv-01", "up")]);
    let batch = vec![metric("srv-01", 1, 1.0), metric("ghost", 2, 2.0), metric("srv-01", 3, 3.0)];
    let r = SmartInsertService::insert_system_metrics(&mut store, batch, true).ok().unwrap();
    assert_eq!((r.success_count, r.updated_count, r.error_count), (2, 0, 1));
    assert_eq!(store.metrics().len(), 2);
}

#[test]
fn combined_metric_failure_skips_kernel_scan() {
    let mut store = Store::new();
    let data = CombinedInsertData {
        process: vec![combined("srv-01", 1, "a", "r", vec![], vec![])],
        metrics: vec![metric("srv-01", 1, 1.0), metric("ghost", 2, 2.0)],
        dmesg: Some("kernel panic".to_string()),
    };
    let e = match SmartInsertService::insert_combined_data_at(&mut store, data, false, 9) {
        Ok(_) => panic!("the batch must fail"),
        Err(e) => e,
    };
    assert_eq!((e.partial.success_count, e.partial.error_count), (2, 1));
    assert_eq!(store.crash_logs().len(), 0);
    assert_eq!(store.servers().len(), 1);
}

#[test]
fn process_without_server_or_descriptor_fails() {
    let mut store = Store::new();
    let e = match SmartInsertService::insert_processes(&mut store, vec![smart_process("srv-09", 1, "a", false)], false) {
        Ok(_) => panic!("the batch must fail"),
        Err(e) => e,
    };
    assert_eq!(e.partial.error_count, 1);
    assert_eq!(store.processes().len(), 0);
    assert_eq!(store.servers().len(), 0);
}

#[test]
fn process_descriptor_creates_server() {
    let mut store = Store::new();
    let r = SmartInsertService::insert_processes(&mut store, vec![smart_process("srv-09", 1, "a", true), smart_process("srv-09", 2, "a", false)], false).ok().unwrap();
    assert_eq!((r.success_count, r.updated_count, r.error_count), (1, 1, 0));
    assert_eq!(store.servers().len(), 1);
    assert_eq!(store.servers()[0].server_status, "up");
    assert_eq!(store.trends().len(), 2);
    assert_eq!(store.trends()[1].pid, 2);
    assert_eq!(store.threads().len(), 2);
}

#[test]
fn threads_are_replaced_and_trends_appended() {
    let mut store = Store::new();
    for threads in [vec![thread(1, "a"), thread(2, "b")], vec![thread(3, "c")]] {
        let data = CombinedInsertData {
            process: vec![combined("srv-01", 5, "p", "r", vec![trend(2)], threads)],
            metrics: vec![],
            dmesg: None,
        };
        SmartInsertService::insert_combined_data_at(&mut store, data, false, 0).ok().unwrap();
    }
    assert_eq!(store.threads().len(), 1);
    assert_eq!(store.threads()[0].detail.thread_id, 3);
    assert_eq!(store.trends().len(), 2);
}

#[test]
fn crash_log_upsert_keeps_recommendations() {
    let mut store = Store::new();
    let e = SmartInsertService::insert_crash_logs(&mut store, vec![crash("srv-01", 10, "t", vec![])], false);
    assert!(e.is_err());
    SmartInsertService::insert_servers(&mut store, vec![server("srv-01", "up")]);
    let r = SmartInsertService::insert_crash_logs(&mut store, vec![crash("srv-01", 10, "first", vec![(2, "restart"), (1, "inspect")])], false).ok().unwrap();
    assert_eq!((r.success_count, r.updated_count), (1, 0));
    let r = SmartInsertService::insert_crash_logs(&mut store, vec![crash("srv-01", 10, "second", vec![(3, "ignored")])], false).ok().unwrap();
    assert_eq!((r.success_count, r.updated_count), (0, 1));
    assert_eq!(store.crash_logs().len(), 1);
    assert_eq!(store.crash_logs()[0].title, "second");
    assert_eq!(store.recommendations().len(), 2);
    assert_eq!(store.recommendations()[0].crash_log_id, 0);
    assert_eq!(store.recommendations()[1].action, "inspect");
}

#[test]
fn thread_exception_trace_text() {
    let long = "x".repeat(60);
    let p = combined("srv-01", -5, "worker", "r", vec![trend(2500), trend(7)], vec![thread(9, &long)]);
    let expected = format!(
        "THREAD_EXCEPTION_DETECTED\nPROCESS_INFO: PID=-5, NAME=worker, USER=svc\nSERVER_INFO: ID=srv-01, NAME=srv-01 name\nTIMESTAMP: 1000\n\nTHREAD_COUNT_ANALYSIS:\n  Actual threads count: 1\n  Trend[0] thread_count: 2500\n  Trend[1] thread_count: 7\n\nTHREAD_DETAILS:\n  Thread[0]: TID=9, CPU=0.5, MEM=1.5, CMD={}\n\nRECOMMENDATION: Check for thread leaks or infinite thread creation",
        "x".repeat(50)
    );
    assert_eq!(build_thread_exception_stack_trace(&p), expected);
}

#[test]
fn thread_exception_trace_summarizes_extra_threads() {
    let p = combined("s", 1, "w", "r", vec![], (0..12).map(|i| thread(i, "c")).collect());
    let t = build_thread_exception_stack_trace(&p);
    assert!(t.contains("  Thread[9]: TID=9, CPU=0.5, MEM=1.5, CMD=c\n"));
    assert!(!t.contains("Thread[10]"));
    assert!(t.contains("  ... and 2 more threads\n"));
    assert!(t.contains("  Actual threads count: 12\n"));
}

#[test]
fn database_urls() {
    let m = DatabaseManager::new(Some("data/monitor.db".to_string()));
    assert_eq!(m.build_database_url(), "sqlite://data/monitor.db");
    assert_eq!(m.get_db_path_for_connection(), Some("sqlite://data/monitor.db".to_string()));
    assert_eq!(m.database_file_path(), "data/monitor.db");
    let m = DatabaseManager::new(Some("sqlite://x.db".to_string()));
    assert_eq!(m.build_database_url(), "sqlite://x.db");
    assert_eq!(m.database_file_path(), "x.db");
    let m = DatabaseManager::new(None);
    assert_eq!(m.build_database_url(), "sqlite://./database.db");
    assert_eq!(m.get_db_path_for_connection(), None);
    assert_eq!(m.get_db_path(), &None);
}

#[test]
fn server_filter_and_cutoff() {
    let s = Server {
        server_id: "srv-01".to_string(),
        server_name: "web frontend".to_string(),
        server_ip: "1".to_string(),
        server_os: "2".to_string(),
        server_status: "3".to_string(),
    };
    assert!(server_matches_filter(&s, &"srv-01".to_string()));
    assert!(server_matches_filter(&s, &"front".to_string()));
    assert!(!server_matches_filter(&s, &"srv".to_string()));
    assert_eq!(retention_cutoff(1_000_000_000_000, 30), Some(1_000_000_000_000 - 2_592_000_000));
    assert_eq!(retention_cutoff(i64::MIN, 1), None);
    assert_eq!(retention_cutoff(0, -1), Some(86_400_000));
}

#[test]
fn insert_result_merge() {
    let mut a = InsertResult::new();
    a.add_success();
    a.add_error();
    let mut b = InsertResult::new();
    b.add_updated();
    b.add_updated();
    a.merge(b);
    assert_eq!((a.success_count, a.updated_count, a.error_count), (1, 2, 1));
}

#[test]
fn restore_keeps_keys_unique() {
    let mut store = Store::new();
    let row = || Server {
        server_id: "a".to_string(),
        server_name: "n".to_string(),
        server_ip: "i".to_string(),
        server_os: "o".to_string(),
        server_status: "s".to_string(),
    };
    assert!(store.restore_server(row()));
    assert!(!store.restore_server(row()));
    assert_eq!(store.servers().len(), 1);
}

#[test]
fn wall_clock_stamps_reports() {
    let cutoff = old_data_cutoff(0).unwrap();
    assert!(cutoff > 1_600_000_000_000);
    assert_eq!(old_data_cutoff(i64::MAX), None);
    let mut store = Store::new();
    let data = CombinedInsertData {
        process: vec![combined("srv-01", 3, "w", "r", vec![trend(3000)], vec![])],
        metrics: vec![],
        dmesg: Some("BUG: unable to handle page fault".to_string()),
    };
    let r = SmartInsertService::insert_combined_data(&mut store, data, false).ok().unwrap();
    assert_eq!((r.success_count, r.updated_count, r.error_count), (3, 0, 0));
    assert_eq!(count_type(&store, "thread_exception"), 1);
    assert_eq!(count_type(&store, "segmentation_fault"), 1);
    for log in store.crash_logs() {
        assert!(log.timestamp >= cutoff);
        assert_eq!(log.log_id, log.timestamp);
    }
}

#[test]
fn crash_log_update_keeps_log_id() {
    let mut store = Store::new();
    SmartInsertService::insert_servers(&mut store, vec![server("srv-01", "up")]);
    let mut first = crash("srv-01", 10, "first", vec![]);
    first.log_id = 7;
    SmartInsertService::insert_crash_logs(&mut store, vec![first], false).ok().unwrap();
    let mut second = crash("srv-01", 10, "second", vec![]);
    second.log_id = 99;
    second.resolved = true;
    second.ai_summary = Some("summary".to_string());
    let r = SmartInsertService::insert_crash_logs(&mut store, vec![second], false).ok().unwrap();
    assert_eq!((r.success_count, r.updated_count), (0, 1));
    let log = &store.crash_logs()[0];
    assert_eq!(store.crash_logs().len(), 1);
    assert_eq!(log.log_id, 7);
    assert_eq!(log.timestamp, 10);
    assert_eq!(log.title, "second");
    assert!(log.resolved);
    assert_eq!(log.ai_summary.as_deref(), Some("summary"));
}

#[test]
fn cutoff_exists_for_every_ordinary_retention() {
    assert!(old_data_cutoff(30).is_some());
    assert!(old_data_cutoff(MAX_RETENTION_DAYS).is_some());
}
