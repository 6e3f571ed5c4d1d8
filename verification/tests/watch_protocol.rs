use meta_single::changelog::{ChangeLogResponse, LogEntry};
use meta_single::codec::{decode_watch_request, response_encode};
use meta_single::router::{process_watch_start, process_watch_step, WatchStart, WatchStep};
use meta_single::store::{VersionedStore, WriteCommand};
use meta_single::watch::{watch_initial, watch_recheck, InitialCheck, RecheckStep, WatchRequest};

fn cmd(cluster: &str, tenant: &str, op: &str, payload: &str) -> WriteCommand {
    WriteCommand {
        cluster: cluster.to_string(),
        tenant: tenant.to_string(),
        op: op.to_string(),
        payload: payload.to_string(),
    }
}

fn req(client: &str, cluster: &str, tenants: &[&str], base: u64) -> WatchRequest {
    WatchRequest {
        client_id: client.to_string(),
        cluster: cluster.to_string(),
        tenants: tenants.iter().map(|t| t.to_string()).collect(),
        base_version: base,
    }
}

#[test]
fn versions_strictly_increase() {
    let mut s = VersionedStore::new();
    let v1 = s.apply_write(&cmd("c1", "t1", "createDB", "db1"));
    let v2 = s.apply_write(&cmd("c1", "t2", "createDB", "db2"));
    let v3 = s.apply_write(&cmd("c2", "t1", "dropDB", "db1"));
    assert_eq!((v1, v2, v3), (1, 2, 3));
    assert_eq!(s.version, 3);
    let versions: Vec<u64> = s.log.iter().map(|e| e.version).collect();
    assert_eq!(versions, vec![1, 2, 3]);
}

#[test]
fn read_change_log_is_idempotent() {
    let mut s = VersionedStore::new();
    s.apply_write(&cmd("c1", "t1", "createDB", "db1"));
    s.apply_write(&cmd("c1", "t2", "createDB", "db2"));
    let cluster = "c1".to_string();
    let tenants = vec!["t1".to_string(), "t2".to_string()];
    let r1 = s.read_change_logs(&cluster, &tenants, 0);
    let r2 = s.read_change_logs(&cluster, &tenants, 0);
    assert_eq!(r1, r2);
}

#[test]
fn example_first_write_is_version_one() {
    let mut s = VersionedStore::new();
    let v = s.apply_write(&cmd("c1", "t1", "createDB", "db1"));
    assert_eq!(v, 1);
    let r = s.read_change_logs(&"c1".to_string(), &vec!["t1".to_string()], 0);
    assert_eq!(r.max_ver, 1);
    assert_eq!(
        r.entries,
        vec![LogEntry {
            version: 1,
            cluster: "c1".to_string(),
            tenant: "t1".to_string(),
            payload: "db1".to_string(),
        }]
    );
}

#[test]
fn filter_never_returns_other_tenants() {
    let mut s = VersionedStore::new();
    s.apply_write(&cmd("c1", "a", "createDB", "da"));
    s.apply_write(&cmd("c1", "b", "createDB", "db"));
    s.apply_write(&cmd("c1", "a", "dropDB", "da2"));
    let r = s.read_change_logs(&"c1".to_string(), &vec!["a".to_string()], 0);
    assert_eq!(r.max_ver, 3);
    assert_eq!(r.entries.len(), 2);
    assert!(r.entries.iter().all(|e| e.tenant == "a"));
    assert_eq!(r.entries[0].version, 1);
    assert_eq!(r.entries[1].version, 3);
}

#[test]
fn filter_excludes_other_clusters() {
    let mut s = VersionedStore::new();
    s.apply_write(&cmd("c1", "a", "createDB", "da"));
    s.apply_write(&cmd("c2", "a", "createDB", "da"));
    let r = s.read_change_logs(&"c1".to_string(), &vec!["a".to_string()], 0);
    assert_eq!(r.entries.len(), 1);
    assert_eq!(r.entries[0].cluster, "c1");
    assert_eq!(r.max_ver, 2);
}

#[test]
fn empty_tenant_set_matches_all_tenants() {
    let mut s = VersionedStore::new();
    s.apply_write(&cmd("c1", "a", "createDB", "da"));
    s.apply_write(&cmd("c1", "b", "createDB", "db"));
    let r = s.read_change_logs(&"c1".to_string(), &vec![], 0);
    assert_eq!(r.entries.len(), 2);
}

#[test]
fn need_return_cases() {
    let caught_up = ChangeLogResponse { entries: vec![], max_ver: 5 };
    assert!(!caught_up.need_return(5));
    assert!(caught_up.need_return(4));
    let with_entry = ChangeLogResponse {
        entries: vec![LogEntry {
            version: 6,
            cluster: "c1".to_string(),
            tenant: "a".to_string(),
            payload: "p".to_string(),
        }],
        max_ver: 6,
    };
    assert!(with_entry.need_return(6));
}

#[test]
fn version_advance_without_match_is_due() {
    // The store moved past the watcher's base version, though nothing
    // matched its filter: the response is still due, so the client can
    // re-sync its cursor.
    let mut s = VersionedStore::new();
    s.apply_write(&cmd("c1", "b", "createDB", "db"));
    let r = s.read_change_logs(&"c1".to_string(), &vec!["a".to_string()], 0);
    assert!(r.entries.is_empty());
    assert_eq!(r.max_ver, 1);
    assert!(r.need_return(0));
}

#[test]
fn initial_check_answers_when_due() {
    let mut s = VersionedStore::new();
    s.apply_write(&cmd("c1", "t1", "createDB", "db1"));
    match watch_initial(&s, &req("client-1", "c1", &["t1"], 0)) {
        InitialCheck::Done(d) => {
            assert_eq!(d.entries.len(), 1);
            assert_eq!(d.max_ver, 1);
        }
        InitialCheck::Pending(_) => panic!("a due response must be answered at once"),
    }
}

#[test]
fn initial_check_subscribes_when_caught_up() {
    let mut s = VersionedStore::new();
    s.apply_write(&cmd("c1", "t1", "createDB", "db1"));
    match watch_initial(&s, &req("client-1", "c1", &["t1"], 1)) {
        InitialCheck::Done(_) => panic!("nothing is due for a caught-up watcher"),
        InitialCheck::Pending(mut rx) => {
            // The subscription was taken before any further write: the next
            // write's wake event must reach it.
            s.apply_write(&cmd("c1", "t1", "dropDB", "db1"));
            assert!(rx.try_recv().is_ok());
        }
    }
}

#[test]
fn wake_events_are_not_replayed() {
    let mut s = VersionedStore::new();
    s.apply_write(&cmd("c1", "t1", "createDB", "db1"));
    let mut rx = s.subscribe();
    assert!(rx.try_recv().is_err());
}

#[test]
fn recheck_returns_at_hard_ceiling_with_empty_result() {
    let mut s = VersionedStore::new();
    s.apply_write(&cmd("c1", "t1", "createDB", "db1"));
    match watch_recheck(&s, &req("client-1", "c1", &["t1"], 1), 1, true) {
        RecheckStep::Done(d) => {
            assert!(d.entries.is_empty());
            assert_eq!(d.max_ver, 1);
        }
        RecheckStep::Wait(_) => panic!("past the hard ceiling the session must return"),
    }
}

#[test]
fn recheck_waits_when_nothing_is_due() {
    let mut s = VersionedStore::new();
    s.apply_write(&cmd("c1", "t1", "createDB", "db1"));
    match watch_recheck(&s, &req("client-1", "c1", &["t1"], 1), 1, false) {
        RecheckStep::Done(_) => panic!("nothing is due and the ceiling has not passed"),
        RecheckStep::Wait(f) => assert_eq!(f, 1),
    }
}

#[test]
fn recheck_answers_after_matching_write() {
    let mut s = VersionedStore::new();
    s.apply_write(&cmd("c1", "t1", "createDB", "db1"));
    let r = req("client-1", "c1", &["t1"], 1);
    s.apply_write(&cmd("c1", "t1", "createTable", "tbl"));
    match watch_recheck(&s, &r, 1, false) {
        RecheckStep::Done(d) => {
            assert_eq!(d.entries.len(), 1);
            assert_eq!(d.entries[0].version, 2);
            assert_eq!(d.entries[0].payload, "tbl");
            assert_eq!(d.max_ver, 2);
        }
        RecheckStep::Wait(_) => panic!("a matching write makes the response due"),
    }
}

#[test]
fn decode_accepts_the_watch_tuple() {
    let body = br#"["client-1","c1",["t1","t2"],7]"#;
    let r = decode_watch_request(body).expect("well-formed body");
    assert_eq!(r.client_id, "client-1");
    assert_eq!(r.cluster, "c1");
    assert_eq!(r.tenants, vec!["t1".to_string(), "t2".to_string()]);
    assert_eq!(r.base_version, 7);
}

#[test]
fn decode_rejects_malformed_bodies() {
    assert!(decode_watch_request(b"not json").is_err());
    assert!(decode_watch_request(br#"{"cluster":"c1"}"#).is_err());
    assert!(decode_watch_request(br#"["client-1","c1",["t1"]]"#).is_err());
}

#[test]
fn encode_renders_the_uniform_envelope() {
    let resp = ChangeLogResponse {
        entries: vec![LogEntry {
            version: 1,
            cluster: "c1".to_string(),
            tenant: "t1".to_string(),
            payload: "db1".to_string(),
        }],
        max_ver: 1,
    };
    assert_eq!(response_encode(&resp), r#"{"Ok":[[[1,"c1","t1","db1"]],1]}"#);
    let empty = ChangeLogResponse { entries: vec![], max_ver: 4 };
    assert_eq!(response_encode(&empty), r#"{"Ok":[[],4]}"#);
}

#[test]
fn watch_call_answers_immediately_when_behind() {
    let mut s = VersionedStore::new();
    s.apply_write(&cmd("c1", "t1", "createDB", "db1"));
    match process_watch_start(&s, br#"["client-1","c1",["t1"],0]"#) {
        WatchStart::Done(body) => {
            assert_eq!(body, r#"{"Ok":[[[1,"c1","t1","db1"]],1]}"#)
        }
        _ => panic!("a behind watcher is answered at once"),
    }
}

#[test]
fn watch_call_rejects_bad_bodies() {
    let s = VersionedStore::new();
    match process_watch_start(&s, b"nonsense") {
        WatchStart::Reject(msg) => assert!(!msg.is_empty()),
        _ => panic!("a malformed body is rejected"),
    }
}

#[test]
fn watch_call_blocks_then_sees_the_write() {
    let mut s = VersionedStore::new();
    let (r, follow, mut rx) = match process_watch_start(&s, br#"["client-1","c1",["t1"],0]"#) {
        WatchStart::Pending(r, follow, rx) => (r, follow, rx),
        _ => panic!("nothing is due on a fresh store"),
    };
    assert_eq!(follow, 0);
    s.apply_write(&cmd("c1", "t1", "createDB", "db1"));
    assert!(rx.try_recv().is_ok());
    match process_watch_step(&s, &r, follow, false) {
        WatchStep::Done(body) => {
            assert_eq!(body, r#"{"Ok":[[[1,"c1","t1","db1"]],1]}"#)
        }
        WatchStep::Wait(_) => panic!("the matching write makes the response due"),
    }
}

#[test]
fn watch_step_times_out_with_empty_envelope() {
    let s = VersionedStore::new();
    let r = req("client-1", "c1", &["t1"], 0);
    match process_watch_step(&s, &r, 0, true) {
        WatchStep::Done(body) => assert_eq!(body, r#"{"Ok":[[],0]}"#),
        WatchStep::Wait(_) => panic!("past the hard ceiling the session must return"),
    }
}

/// Drives one whole watch call the way the server's loop does, with short
/// timeouts so the test stays quick: check and subscribe under shared
/// access, then sleep-and-recheck until the response is due or a ceiling
/// passes. Returns the response body.
async fn run_watch_call(
    storage: std::sync::Arc<tokio::sync::RwLock<VersionedStore>>,
    body: String,
) -> String {
    let start = {
        let s = storage.read().await;
        process_watch_start(&s, body.as_bytes())
    };
    let (wreq, mut follow, mut rx) = match start {
        WatchStart::Done(b) => return b,
        WatchStart::Reject(m) => panic!("unexpected rejection: {}", m),
        WatchStart::Pending(r, f, rx) => (r, f, rx),
    };
    let begun = std::time::Instant::now();
    loop {
        let _ = tokio::time::timeout(std::time::Duration::from_millis(50), rx.recv()).await;
        let deadline_reached = begun.elapsed() > std::time::Duration::from_millis(1500);
        let step = {
            let s = storage.read().await;
            process_watch_step(&s, &wreq, follow, deadline_reached)
        };
        match step {
            WatchStep::Done(b) => return b,
            WatchStep::Wait(f) => follow = f,
        }
    }
}

#[test]
fn concurrent_watchers_miss_no_matching_write() {
    let rt = tokio::runtime::Builder::new_multi_thread()
        .worker_threads(4)
        .enable_time()
        .build()
        .unwrap();
    rt.block_on(async {
        let storage = std::sync::Arc::new(tokio::sync::RwLock::new(VersionedStore::new()));
        const WRITES_PER_TENANT: u64 = 3;

        // One watcher per tenant: it keeps calling watch, advancing its base
        // version to each response's maximum version, until it has collected
        // its tenant's writes.
        let mut watchers = Vec::new();
        for tenant in ["a", "b"] {
            let storage = storage.clone();
            watchers.push(tokio::spawn(async move {
                let mut base: u64 = 0;
                let mut seen: Vec<(u64, String)> = Vec::new();
                let begun = std::time::Instant::now();
                while (seen.len() as u64) < WRITES_PER_TENANT
                    && begun.elapsed() < std::time::Duration::from_secs(10)
                {
                    let body = format!(r#"["client-{}","c1",["{}"],{}]"#, tenant, tenant, base);
                    let rsp = run_watch_call(storage.clone(), body).await;
                    let (entries, max_ver): (Vec<(u64, String, String, String)>, u64) =
                        serde_json::from_str::<Result<_, String>>(&rsp)
                            .expect("well-formed envelope")
                            .expect("watch succeeds");
                    for (version, cluster, tenant_of_row, payload) in entries {
                        assert_eq!(cluster, "c1");
                        assert_eq!(tenant_of_row, tenant);
                        seen.push((version, payload));
                    }
                    assert!(max_ver >= base, "versions never go backward");
                    base = max_ver;
                }
                seen
            }));
        }

        // One writer per tenant, interleaved with the watchers.
        let mut writers = Vec::new();
        for tenant in ["a", "b"] {
            let storage = storage.clone();
            writers.push(tokio::spawn(async move {
                for k in 0..WRITES_PER_TENANT {
                    tokio::time::sleep(std::time::Duration::from_millis(40)).await;
                    let mut s = storage.write().await;
                    s.apply_write(&WriteCommand {
                        cluster: "c1".to_string(),
                        tenant: tenant.to_string(),
                        op: "createDB".to_string(),
                        payload: format!("db-{}-{}", tenant, k),
                    });
                }
            }));
        }
        for w in writers {
            w.await.unwrap();
        }
        for (i, w) in watchers.into_iter().enumerate() {
            let tenant = ["a", "b"][i];
            let seen = w.await.unwrap();
            // Every matching write arrived, exactly once, in version order.
            assert_eq!(seen.len() as u64, WRITES_PER_TENANT);
            for k in 0..seen.len() {
                assert_eq!(seen[k].1, format!("db-{}-{}", tenant, k));
                if k > 0 {
                    assert!(seen[k - 1].0 < seen[k].0);
                }
            }
        }
    });
}
