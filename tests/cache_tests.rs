use std::sync::Arc;

use iperf3_statuspage::{
    clear_last_result_for_test, current_result, get_cached_iperf3_result, get_last_result,
    set_last_result_for_test, ConnectingTo, Connected, ResultStore, SharedStore, Start, TestStart,
    Timestamp,
};

/// A report as the tests see it: the header the library models, and one
/// measured figure of the kind the library never reads.
#[derive(Debug, Clone, Default)]
struct Report {
    start: Start,
    host_system: f64,
}

fn start_at(timesecs: u64) -> Start {
    Start {
        connected: vec![],
        version: "".to_string(),
        system_info: "".to_string(),
        timestamp: Timestamp { time: "".to_string(), timesecs },
        connecting_to: ConnectingTo { host: "".to_string(), port: 0 },
        cookie: "".to_string(),
        tcp_mss_default: 0,
        target_bitrate: 0,
        fq_rate: 0,
        sock_bufsize: 0,
        sndbuf_actual: 0,
        rcvbuf_actual: 0,
        test_start: TestStart {
            protocol: "".to_string(),
            num_streams: 0,
            blksize: 0,
            omit: 0,
            duration: 0,
            bytes: 0,
            blocks: 0,
            reverse: 0,
            tos: 0,
            target_bitrate: 0,
            bidir: 0,
            fqrate: 0,
        },
    }
}

fn dummy_result() -> Report {
    Report { start: start_at(0), host_system: 0.0 }
}

#[test]
fn iperf3_returns_service_unavailable_when_no_cache() {
    let mut store: ResultStore<Report> = ResultStore::new();
    clear_last_result_for_test(&mut store);

    let resp = get_cached_iperf3_result(&store);
    assert!(resp.is_err());
    assert_eq!(resp.unwrap_err(), "Iperf3 result not available yet.");
}

#[test]
fn iperf3_returns_cached_result() {
    let mut store: ResultStore<Report> = ResultStore::new();
    set_last_result_for_test(&mut store, Arc::new(dummy_result()), 0);

    let resp = get_cached_iperf3_result(&store);
    assert!(resp.is_ok());
    let result = resp.unwrap();
    assert_eq!(result.start.timestamp.timesecs, 0);
    assert_eq!(result.host_system, 0.0);

    clear_last_result_for_test(&mut store);
}

#[test]
fn test_set_get_clear_last_result_for_test() {
    let mut store: ResultStore<Report> = ResultStore::new();
    clear_last_result_for_test(&mut store);
    assert!(get_last_result(&store).is_none());

    let res = dummy_result();
    set_last_result_for_test(&mut store, Arc::new(res.clone()), 0);
    let cached = get_last_result(&store).unwrap();
    assert_eq!(cached.start.timestamp.timesecs, res.start.timestamp.timesecs);

    clear_last_result_for_test(&mut store);
    assert!(get_last_result(&store).is_none());
}

#[test]
fn cleared_store_stays_unavailable_until_set() {
    let mut store: ResultStore<Report> = ResultStore::new();
    store.set(Arc::new(dummy_result()), 5);
    store.clear();
    assert!(store.get().is_none());
    assert!(!store.is_populated());
    store.clear();
    assert!(store.get().is_none());
    store.set(Arc::new(Report { start: start_at(9), host_system: 1.5 }), 6);
    let c = store.get().unwrap();
    assert_eq!(c.report.start.timestamp.timesecs, 9);
    assert_eq!(c.captured_at, 6);
}

#[test]
fn second_set_replaces_first_whole() {
    let mut store: ResultStore<Report> = ResultStore::new();
    store.set(Arc::new(Report { start: start_at(100), host_system: 1.0 }), 10);
    store.set(Arc::new(Report { start: start_at(200), host_system: 2.0 }), 20);
    let c = store.get().unwrap();
    assert_eq!(c.report.start.timestamp.timesecs, 200);
    assert_eq!(c.report.host_system, 2.0);
    assert_eq!(c.captured_at, 20);
}

#[test]
fn get_shares_the_stored_report() {
    let mut store: ResultStore<Report> = ResultStore::new();
    let report = Arc::new(dummy_result());
    store.set(report.clone(), 3);
    let first = store.get().unwrap();
    let second = get_last_result(&store).unwrap();
    assert!(Arc::ptr_eq(&first.report, &report));
    assert!(Arc::ptr_eq(&second, &report));
    let copy = first.snapshot();
    assert!(Arc::ptr_eq(&copy.report, &report));
    assert_eq!(copy.captured_at, 3);
}

#[test]
fn current_result_of_empty_and_full_slot() {
    let none: Option<iperf3_statuspage::CachedResult<Report>> = None;
    assert_eq!(current_result(none).unwrap_err(), "Iperf3 result not available yet.");

    let mut store: ResultStore<Report> = ResultStore::new();
    store.set(Arc::new(Report { start: start_at(42), host_system: 0.5 }), 1);
    let r = current_result(store.get()).unwrap();
    assert_eq!(r.start.timestamp.timesecs, 42);
}

#[test]
fn shared_store_set_get_clear() {
    let shared: SharedStore<Report> = SharedStore::new();
    assert!(shared.get().is_none());
    assert_eq!(shared.current_result().unwrap_err(), "Iperf3 result not available yet.");

    shared.set(Arc::new(Report { start: start_at(7), host_system: 0.0 }), 70);
    let c = shared.get().unwrap();
    assert_eq!(c.report.start.timestamp.timesecs, 7);
    assert_eq!(c.captured_at, 70);
    assert_eq!(shared.current_result().unwrap().start.timestamp.timesecs, 7);

    shared.set(Arc::new(Report { start: start_at(8), host_system: 0.0 }), 80);
    assert_eq!(shared.get().unwrap().captured_at, 80);

    shared.clear();
    assert!(shared.get().is_none());
}

#[test]
fn snapshot_survives_a_later_write() {
    let shared: SharedStore<Report> = SharedStore::new();
    shared.set(Arc::new(Report { start: start_at(1), host_system: 0.0 }), 1);
    let before = shared.get().unwrap();
    shared.set(Arc::new(Report { start: start_at(2), host_system: 0.0 }), 2);
    assert_eq!(before.report.start.timestamp.timesecs, 1);
    assert_eq!(before.captured_at, 1);
    let after = shared.get().unwrap();
    assert_eq!(after.report.start.timestamp.timesecs, 2);
    assert_eq!(after.captured_at, 2);
}

#[test]
fn connection_records_keep_their_fields() {
    let mut start = start_at(5);
    start.connected.push(Connected {
        socket: 4,
        local_host: "10.0.0.1".to_string(),
        local_port: 5000,
        remote_host: "10.0.0.2".to_string(),
        remote_port: 5201,
    });
    let mut store: ResultStore<Start> = ResultStore::new();
    store.set(Arc::new(start), 1);
    let c = store.get().unwrap();
    assert_eq!(c.report.connected.len(), 1);
    assert_eq!(c.report.connected[0].remote_port, 5201);
}
