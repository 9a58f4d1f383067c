use std::collections::HashMap;

use si_layer_cache::config::CacheConfig;
use si_layer_cache::db::{LayerDb, WORKSPACE_SNAPSHOT_TABLE};
use si_layer_cache::event::{Actor, ContentHash, GossipMessage, Tenancy};
use si_layer_cache::hybrid_cache::CacheRead;
use si_layer_cache::persister::{durable_op, DurableOp, PersistStatus};

type TestLayerDb = LayerDb<String, String, String, String, String, String>;

/// The durable tier of these tests: rows by (table, key).
type Rows = HashMap<(String, String), Vec<u8>>;

fn tenancy() -> Tenancy {
    Tenancy { workspace_pk: 1, change_set_id: 2 }
}

fn actor() -> Actor {
    Actor::User(3)
}

fn encode(s: &str) -> Vec<u8> {
    serde_json::to_vec(s).expect("encode")
}

fn process(id: u128) -> TestLayerDb {
    let cfg = CacheConfig::default().memory_reserved_percent(0);
    LayerDb::from_parts(id, &cfg, 1 << 20).expect("cannot create layerdb")
}

/// Runs the persister of `ldb` until its queue is drained, writing to
/// `rows`, and returns the gossip it would have published.
fn run_persister(ldb: &mut TestLayerDb, rows: &mut Rows) -> Vec<GossipMessage> {
    let mut published = Vec::new();
    while let Some(job) = ldb.persister_client.next_job() {
        match durable_op(&job.event) {
            DurableOp::Put { table, key, value } => {
                rows.insert((table, key), value);
            }
            DurableOp::Delete { table, key } => {
                rows.remove(&(table, key));
            }
        }
        if ldb.persister_client.record_durable_outcome(job.ticket, Ok(())) {
            published.push(ldb.gossip_message(job.event));
            ldb.persister_client.record_publish_outcome(job.ticket, Ok(()));
        }
    }
    published
}

fn snapshot_row(rows: &Rows, key: &ContentHash) -> Option<Vec<u8>> {
    rows.get(&(WORKSPACE_SNAPSHOT_TABLE.to_string(), key.to_string())).cloned()
}

#[test]
fn write_to_db() {
    let mut rows = Rows::new();
    let mut ldb = process(1);
    let value = "pantera".to_string();
    let (key, status) = ldb.workspace_snapshot.write(
        value.clone(),
        encode(&value),
        None,
        tenancy(),
        actor(),
        &mut ldb.persister_client,
    );
    run_persister(&mut ldb, &mut rows);
    match ldb.persister_client.get_status(&status) {
        PersistStatus::Finished => {}
        PersistStatus::Error(e) => panic!("Write failed; {e}"),
        PersistStatus::Pending => panic!("write still pending"),
    }

    // Are we in memory?
    match ldb.workspace_snapshot.read(&key) {
        CacheRead::Hit(v) => assert_eq!(v, value),
        _ => panic!("not in memory"),
    }

    // Are we in the durable tier?
    let in_pg = snapshot_row(&rows, &key).expect("no cas object in pg");
    let in_pg: String = serde_json::from_slice(&in_pg).expect("cannot deserialize data");
    assert_eq!(value, in_pg);
}

#[test]
fn evict_from_db() {
    let mut rows = Rows::new();
    let mut ldb = process(1);
    let value = "pantera".to_string();
    let (key, status) = ldb.workspace_snapshot.write(
        value.clone(),
        encode(&value),
        None,
        tenancy(),
        actor(),
        &mut ldb.persister_client,
    );
    run_persister(&mut ldb, &mut rows);
    assert_eq!(ldb.persister_client.get_status(&status), PersistStatus::Finished);

    let status = ldb.workspace_snapshot.evict(&key, tenancy(), actor(), &mut ldb.persister_client);
    run_persister(&mut ldb, &mut rows);
    match ldb.persister_client.get_status(&status) {
        PersistStatus::Finished => {}
        PersistStatus::Error(e) => panic!("Eviction failed; {e}"),
        PersistStatus::Pending => panic!("eviction still pending"),
    }
    assert!(matches!(ldb.workspace_snapshot.read(&key), CacheRead::Miss));
    assert!(snapshot_row(&rows, &key).is_none(), "found item in database when it should have been evicted");
}

#[test]
fn evictions_are_gossiped() {
    let mut rows = Rows::new();
    let mut ldb_slash = process(10);
    let mut ldb_axl = process(20);
    let value = "pantera".to_string();
    let (key, status) = ldb_slash.workspace_snapshot.write(
        value.clone(),
        encode(&value),
        None,
        tenancy(),
        actor(),
        &mut ldb_slash.persister_client,
    );
    let gossip = run_persister(&mut ldb_slash, &mut rows);
    assert_eq!(ldb_slash.persister_client.get_status(&status), PersistStatus::Finished);
    for m in gossip {
        ldb_axl.apply_cache_update(m);
    }

    // The value arrived in the remote memory cache, as bytes not yet decoded.
    let key_str = key.to_string();
    assert!(ldb_axl.workspace_snapshot.cache.contains(&key_str));
    let bytes = match ldb_axl.workspace_snapshot.read(&key) {
        CacheRead::Undecoded(b) => b,
        _ => panic!("value did not arrive in the remote memory cache"),
    };
    let remote: String = serde_json::from_slice(&bytes).expect("cannot deserialize data");
    assert_eq!(remote, value);
    let in_pg = snapshot_row(&rows, &key).expect("no cas object in pg");
    assert_eq!(in_pg, encode(&value));

    let status = ldb_slash.workspace_snapshot.evict(&key, tenancy(), actor(), &mut ldb_slash.persister_client);
    let gossip = run_persister(&mut ldb_slash, &mut rows);
    assert_eq!(ldb_slash.persister_client.get_status(&status), PersistStatus::Finished);
    for m in gossip {
        ldb_axl.apply_cache_update(m);
    }
    assert!(!ldb_axl.workspace_snapshot.cache.contains(&key_str), "value did not evict from the remote memory cache");
    assert!(snapshot_row(&rows, &key).is_none());
}

#[test]
fn identical_values_share_one_key_and_one_row() {
    let mut rows = Rows::new();
    let mut ldb = process(1);
    let (k1, _) = ldb.cas.write("x".to_string(), encode("x"), None, tenancy(), actor(), &mut ldb.persister_client);
    let (k2, _) = ldb.cas.write("x".to_string(), encode("x"), None, tenancy(), actor(), &mut ldb.persister_client);
    let (k3, _) = ldb.cas.write("y".to_string(), encode("y"), None, tenancy(), actor(), &mut ldb.persister_client);
    assert_eq!(k1, k2);
    assert_ne!(k1, k3);
    run_persister(&mut ldb, &mut rows);
    assert_eq!(rows.len(), 2);
}

#[test]
fn write_is_visible_before_it_is_durable() {
    let mut ldb = process(1);
    let (key, status) = ldb.cas.write("now".to_string(), encode("now"), None, tenancy(), actor(), &mut ldb.persister_client);
    assert_eq!(ldb.persister_client.get_status(&status), PersistStatus::Pending);
    match ldb.cas.read(&key) {
        CacheRead::Hit(v) => assert_eq!(v, "now"),
        _ => panic!("write not visible"),
    }
}

#[test]
fn read_through_promotes_durable_value() {
    let mut rows = Rows::new();
    let mut writer = process(1);
    let (key, _) = writer.cas.write("cold".to_string(), encode("cold"), None, tenancy(), actor(), &mut writer.persister_client);
    run_persister(&mut writer, &mut rows);

    // A fresh process finds nothing in memory and goes to the durable tier once.
    let mut fresh = process(2);
    let key_str = key.to_string();
    assert!(matches!(fresh.cas.read(&key), CacheRead::Miss));
    let bytes = rows.get(&("cas".to_string(), key_str.clone())).cloned().expect("durable row");
    let decoded: String = serde_json::from_slice(&bytes).expect("decode");
    let first = fresh.cas.cache.fill_from_durable(key_str.clone(), Some((decoded, bytes.len())));
    assert_eq!(first, Some("cold".to_string()));
    rows.clear();
    match fresh.cas.read(&key) {
        CacheRead::Hit(v) => assert_eq!(v, "cold"),
        _ => panic!("second read needed the durable tier"),
    }
}

#[test]
fn own_gossip_is_not_reapplied() {
    let mut rows = Rows::new();
    let mut ldb = process(7);
    let (key, _) = ldb.cas.write("mine".to_string(), encode("mine"), None, tenancy(), actor(), &mut ldb.persister_client);
    let gossip = run_persister(&mut ldb, &mut rows);
    assert_eq!(gossip.len(), 1);
    assert_eq!(gossip[0].origin, 7);
    for m in gossip {
        assert!(!ldb.apply_cache_update(m));
    }
    // Still the decoded value, not replaced by the gossiped bytes.
    assert!(matches!(ldb.cas.read(&key), CacheRead::Hit(_)));
}

#[test]
fn duplicate_gossip_is_a_no_op() {
    let mut rows = Rows::new();
    let mut a = process(1);
    let mut b = process(2);
    let (key, _) = a.cas.write("twice".to_string(), encode("twice"), None, tenancy(), actor(), &mut a.persister_client);
    let gossip = run_persister(&mut a, &mut rows);
    let m = gossip[0].clone();
    assert!(b.apply_cache_update(m.clone()));
    let key_str = key.to_string();
    let after_first = match b.cas.cache.cache.get(&key_str) {
        CacheRead::Undecoded(bytes) => bytes,
        _ => panic!("not applied"),
    };
    assert!(b.apply_cache_update(m));
    match b.cas.cache.cache.get(&key_str) {
        CacheRead::Undecoded(bytes) => assert_eq!(bytes, after_first),
        _ => panic!("second application changed the entry"),
    }
}

#[test]
fn secrets_take_the_latest_write() {
    let mut ldb = process(1);
    let key = "secret-key".to_string();
    ldb.encrypted_secret.write(key.clone(), "one".to_string(), encode("one"), None, tenancy(), actor(), &mut ldb.persister_client);
    ldb.encrypted_secret.write(key.clone(), "two".to_string(), encode("two"), None, tenancy(), actor(), &mut ldb.persister_client);
    match ldb.encrypted_secret.read(&key) {
        CacheRead::Hit(v) => assert_eq!(v, "two"),
        _ => panic!("secret missing"),
    }
    let bulk = ldb.encrypted_secret.read_many(&vec![key.clone(), "absent".to_string()]);
    assert_eq!(bulk.found.len(), 1);
    assert_eq!(bulk.found[0].1, "two");
    assert_eq!(bulk.missing, vec!["absent".to_string()]);
}

#[test]
fn failed_durable_write_reports_error_and_is_not_gossiped() {
    let mut ldb = process(1);
    let (_, status) = ldb.cas.write("x".to_string(), encode("x"), None, tenancy(), actor(), &mut ldb.persister_client);
    let job = ldb.persister_client.next_job().expect("queued");
    let publish = ldb.persister_client.record_durable_outcome(job.ticket, Err("connection refused".to_string()));
    assert!(!publish);
    // An announcement cannot finish a write that never became durable.
    ldb.persister_client.record_publish_outcome(job.ticket, Ok(()));
    assert_eq!(
        ldb.persister_client.get_status(&status),
        PersistStatus::Error("connection refused".to_string())
    );
    assert!(ldb.persister_client.is_drained());
}

#[test]
fn failed_publish_reports_error() {
    let mut ldb = process(1);
    let (_, status) = ldb.cas.write("x".to_string(), encode("x"), None, tenancy(), actor(), &mut ldb.persister_client);
    let job = ldb.persister_client.next_job().expect("queued");
    assert!(ldb.persister_client.record_durable_outcome(job.ticket, Ok(())));
    assert_eq!(ldb.persister_client.get_status(&status), PersistStatus::Pending);
    ldb.persister_client.record_publish_outcome(job.ticket, Err("bus down".to_string()));
    assert_eq!(ldb.persister_client.get_status(&status), PersistStatus::Error("bus down".to_string()));
}

#[test]
fn persister_keeps_submission_order() {
    let mut ldb = process(1);
    let (k1, s1) = ldb.cas.write("a".to_string(), encode("a"), None, tenancy(), actor(), &mut ldb.persister_client);
    let (k2, s2) = ldb.cas.write("b".to_string(), encode("b"), None, tenancy(), actor(), &mut ldb.persister_client);
    let j1 = ldb.persister_client.next_job().expect("first");
    let j2 = ldb.persister_client.next_job().expect("second");
    assert!(ldb.persister_client.next_job().is_none());
    assert_eq!(j1.ticket, s1.ticket);
    assert_eq!(j2.ticket, s2.ticket);
    assert_eq!(j1.event.key, k1.to_string());
    assert_eq!(j2.event.key, k2.to_string());
}

#[test]
fn pantera_reaches_a_sibling_without_a_read() {
    let mut rows = Rows::new();
    let mut a = process(100);
    let mut b = process(200);
    let t = Tenancy { workspace_pk: 42, change_set_id: 43 };
    let u = Actor::User(44);
    let (key, status) = a.cas.write("pantera".to_string(), encode("pantera"), None, t, u, &mut a.persister_client);
    match a.cas.read(&key) {
        CacheRead::Hit(v) => assert_eq!(v, "pantera"),
        _ => panic!("not readable on the writer"),
    }
    let gossip = run_persister(&mut a, &mut rows);
    assert_eq!(a.persister_client.get_status(&status), PersistStatus::Finished);
    assert_eq!(gossip[0].event.tenancy, t);
    assert_eq!(gossip[0].event.actor, u);
    for m in gossip {
        b.apply_cache_update(m);
    }
    let key_str = key.to_string();
    assert!(b.cas.cache.contains(&key_str));
    match b.cas.cache.cache.get(&key_str) {
        CacheRead::Undecoded(bytes) => {
            let v: String = serde_json::from_slice(&bytes).expect("decode");
            assert_eq!(v, "pantera");
        }
        _ => panic!("not resident on the sibling"),
    }
}

#[test]
fn content_hash_is_blake3_hex() {
    let empty = ContentHash::new(&Vec::new());
    assert_eq!(
        empty.to_string(),
        "af1349b9f5f9a1a6a0404dea36dcc9499bcb25c9adc112b7cc9a93cae41f3262"
    );
    let h = ContentHash::new(&b"pantera".to_vec());
    assert_eq!(h.to_string().len(), 64);
    assert_ne!(h.to_string(), "pantera");
}

#[test]
fn bulk_read_splits_and_fills_from_durable() {
    let mut ldb = process(1);
    let (k1, _) = ldb.cas.write("one".to_string(), encode("one"), None, tenancy(), actor(), &mut ldb.persister_client);
    ldb.cas.cache.insert_from_cache_updates("raw".to_string(), encode("raw"));
    let keys = vec!["gone".to_string(), k1.to_string(), "raw".to_string()];
    let bulk = ldb.cas.cache.get_bulk(&keys);
    assert_eq!(bulk.found.len(), 1);
    assert_eq!(bulk.found[0].0, k1.to_string());
    assert_eq!(bulk.found[0].1, "one");
    assert_eq!(bulk.undecoded.len(), 1);
    assert_eq!(bulk.undecoded[0].1, encode("raw"));
    assert_eq!(bulk.missing, vec!["gone".to_string()]);
    let filled = ldb.cas.cache.fill_many_from_durable(&vec![("gone".to_string(), "back".to_string(), 4)]);
    assert_eq!(filled, vec![("gone".to_string(), "back".to_string())]);
    assert!(ldb.cas.cache.contains(&"gone".to_string()));
}

#[test]
fn first_writer_wins_for_content_addresses() {
    let mut ldb = process(1);
    ldb.cas.cache.insert("k".to_string(), "first".to_string(), 5);
    ldb.cas.cache.insert("k".to_string(), "second".to_string(), 6);
    match ldb.cas.cache.get(&"k".to_string()) {
        CacheRead::Hit(v) => assert_eq!(v, "first"),
        _ => panic!("missing"),
    }
    ldb.cas.cache.insert_or_update("k".to_string(), "third".to_string(), 5);
    match ldb.cas.cache.get(&"k".to_string()) {
        CacheRead::Hit(v) => assert_eq!(v, "third"),
        _ => panic!("missing"),
    }
    ldb.cas.cache.remove_from_memory(&"k".to_string());
    assert!(!ldb.cas.cache.contains(&"k".to_string()));
}

#[test]
fn layer_db_rejects_bad_config() {
    let cfg = CacheConfig::default().memory_usable_max_percent(101);
    assert!(TestLayerDb::from_parts(1, &cfg, 1000).is_err());
    assert!(TestLayerDb::new(&CacheConfig::default()).is_ok());
}

#[test]
fn evicting_an_absent_key_changes_nothing() {
    let mut ldb = process(1);
    ldb.cas.cache.insert("k".to_string(), "v".to_string(), 1);
    ldb.cas.cache.evict_from_cache_updates(&"absent".to_string());
    ldb.cas.cache.evict_from_cache_updates(&"absent".to_string());
    assert!(ldb.cas.cache.contains(&"k".to_string()));
    assert!(!ldb.cas.cache.contains(&"absent".to_string()));
}

#[test]
fn bulk_backfill_keeps_every_value_that_fits() {
    let mut ldb = process(1);
    let fetched = vec![
        ("a".to_string(), "alpha".to_string(), 5),
        ("b".to_string(), "beta".to_string(), 4),
        ("c".to_string(), "gamma".to_string(), 5),
    ];
    let out = ldb.cas.cache.fill_many_from_durable(&fetched);
    assert_eq!(out.len(), 3);
    for (k, v, _) in &fetched {
        match ldb.cas.cache.get(k) {
            CacheRead::Hit(x) => assert_eq!(&x, v),
            _ => panic!("not backfilled"),
        }
    }
    assert!(!ldb.cas.cache.contains(&"d".to_string()));
}

#[test]
fn persister_counts_issued_writes() {
    let mut ldb = process(1);
    assert_eq!(ldb.persister_client.issued(), 0);
    ldb.cas.write("a".to_string(), encode("a"), None, tenancy(), actor(), &mut ldb.persister_client);
    assert_eq!(ldb.persister_client.issued(), 1);
}

#[test]
fn run_logs_are_gossiped_to_their_table() {
    let mut rows = Rows::new();
    let mut a = process(1);
    let mut b = process(2);
    let key = "run-1".to_string();
    let db = &mut a;
    db.func_run_log.write(key.clone(), "log line".to_string(), encode("log line"), None, tenancy(), actor(), &mut db.persister_client);
    let gossip = run_persister(&mut a, &mut rows);
    assert_eq!(gossip[0].event.table, "func_run_logs");
    assert_eq!(gossip[0].event.sort_key, "func_run_log");
    for m in gossip {
        assert!(b.apply_cache_update(m));
    }
    assert!(b.func_run_log.cache.contains(&key));
    assert!(!b.func_run.cache.contains(&key));
    assert!(!b.encrypted_secret.cache.contains(&key));
}

#[test]
fn bulk_read_sends_undecodable_bytes_to_the_durable_batch() {
    let mut ldb = process(1);
    ldb.cas.cache.insert_from_cache_updates("good".to_string(), encode("fine"));
    ldb.cas.cache.insert_from_cache_updates("bad".to_string(), b"not json".to_vec());
    let keys = vec!["gone".to_string(), "good".to_string(), "bad".to_string()];
    let bulk = ldb.cas.cache.get_bulk(&keys);
    assert_eq!(bulk.missing, vec!["gone".to_string()]);
    let decoded: Vec<(String, Option<String>)> = bulk
        .undecoded
        .iter()
        .map(|(k, b)| (k.clone(), serde_json::from_slice(b).ok()))
        .collect();
    let (promoted, batch) = ldb.cas.cache.settle_bulk(&decoded, bulk.missing);
    assert_eq!(promoted, vec![("good".to_string(), "fine".to_string())]);
    assert_eq!(batch, vec!["gone".to_string(), "bad".to_string()]);
    assert!(!ldb.cas.cache.contains(&"bad".to_string()));
    match ldb.cas.cache.get(&"good".to_string()) {
        CacheRead::Hit(v) => assert_eq!(v, "fine"),
        _ => panic!("not promoted"),
    }
}

#[test]
fn undecodable_single_read_becomes_a_miss() {
    let mut ldb = process(1);
    ldb.cas.cache.insert_from_cache_updates("bad".to_string(), b"{".to_vec());
    assert_eq!(ldb.cas.cache.settle_read(&"bad".to_string(), None), None);
    assert!(matches!(ldb.cas.cache.get(&"bad".to_string()), CacheRead::Miss));
    ldb.cas.cache.insert_from_cache_updates("ok".to_string(), encode("v"));
    assert_eq!(ldb.cas.cache.settle_read(&"ok".to_string(), Some("v".to_string())), Some("v".to_string()));
    assert!(matches!(ldb.cas.cache.get(&"ok".to_string()), CacheRead::Hit(_)));
}
