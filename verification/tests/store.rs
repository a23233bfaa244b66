use atomic_file::errors::{CasError, StoreError};
use atomic_file::names::{latest_version_in, parse_version};
use atomic_file::{modify, modify_json, AtomicFile};
use std::time::{SystemTime, UNIX_EPOCH};

fn unique_dir(tag: &str) -> String {
    let nanos = SystemTime::now().duration_since(UNIX_EPOCH).unwrap().as_nanos();
    format!("/tmp/atomic_file_check_{}_{}", tag, nanos)
}

fn read_latest(f: &AtomicFile) -> Option<Vec<u8>> {
    let snap = f.load().unwrap();
    match snap.open().unwrap() {
        Some(r) => Some(r.read_to_end().unwrap()),
        None => None,
    }
}

#[test]
fn fresh_store_is_empty() {
    let dir = unique_dir("fresh");
    let f = AtomicFile::new(&format!("{}/store", dir)).unwrap();
    let snap = f.load().unwrap();
    assert_eq!(snap.version(), 0);
    assert!(snap.open().unwrap().is_none());
}

#[test]
fn parse_version_accepts_decimal_suffixes() {
    let p = b"store.".to_vec();
    assert_eq!(parse_version(&b"store.7".to_vec(), &p), Some(7));
    assert_eq!(parse_version(&b"store.0".to_vec(), &p), Some(0));
    assert_eq!(parse_version(&b"store.007".to_vec(), &p), Some(7));
    assert_eq!(parse_version(&b"store.+5".to_vec(), &p), Some(5));
    assert_eq!(
        parse_version(&b"store.18446744073709551615".to_vec(), &p),
        Some(usize::MAX)
    );
    assert_eq!(
        parse_version(&b"store.00018446744073709551615".to_vec(), &p),
        Some(usize::MAX)
    );
}

#[test]
fn parse_version_rejects_unrelated_names() {
    let p = b"store.".to_vec();
    assert_eq!(parse_version(&b"store.".to_vec(), &p), None);
    assert_eq!(parse_version(&b"store".to_vec(), &p), None);
    assert_eq!(parse_version(&b"store.x".to_vec(), &p), None);
    assert_eq!(parse_version(&b"store.5x".to_vec(), &p), None);
    assert_eq!(parse_version(&b"store.++5".to_vec(), &p), None);
    assert_eq!(parse_version(&b"store.+".to_vec(), &p), None);
    assert_eq!(parse_version(&b"store.-5".to_vec(), &p), None);
    assert_eq!(parse_version(&b"other.3".to_vec(), &p), None);
    assert_eq!(parse_version(&b"store.18446744073709551616".to_vec(), &p), None);
    assert_eq!(
        parse_version(&b"store.99999999999999999999999999".to_vec(), &p),
        None
    );
}

#[test]
fn latest_version_ignores_unrelated_entries() {
    let p = b"store.".to_vec();
    let names: Vec<Vec<u8>> = vec![
        b".".to_vec(),
        b"..".to_vec(),
        b"store.1".to_vec(),
        b"junk".to_vec(),
        b"store.x".to_vec(),
        b"store.3".to_vec(),
        b"store".to_vec(),
        b"store.2".to_vec(),
    ];
    assert_eq!(latest_version_in(&names, &p), 3);
    let empty: Vec<Vec<u8>> = vec![];
    assert_eq!(latest_version_in(&empty, &p), 0);
    let unrelated: Vec<Vec<u8>> = vec![b"a".to_vec(), b"store.b".to_vec()];
    assert_eq!(latest_version_in(&unrelated, &p), 0);
}

#[test]
fn version_paths_follow_the_prefix() {
    let dir = unique_dir("paths");
    let root = format!("{}/store", dir);
    let f = AtomicFile::new(&root).unwrap();
    assert_eq!(f.path(12), format!("{}/store.12", root).into_bytes());
    assert_eq!(f.path(0), format!("{}/store.0", root).into_bytes());
}

#[test]
fn trailing_separator_keeps_the_store_name() {
    let dir = unique_dir("trail");
    let root = format!("{}/st2/", dir);
    let f = AtomicFile::new(&root).unwrap();
    assert_eq!(f.path(1), format!("{}st2.1", root).into_bytes());
}

#[test]
fn publish_advances_version_by_one() {
    let dir = unique_dir("advance");
    let f = AtomicFile::new(&format!("{}/store", dir)).unwrap();
    modify(&f, |mut d: Vec<u8>| {
        d.extend_from_slice(b"first");
        d
    })
    .unwrap();
    let snap = f.load().unwrap();
    assert_eq!(snap.version(), 1);
    let tmp = f.make_temp().unwrap();
    tmp.write_all(&b"second".to_vec()).unwrap();
    tmp.flush().unwrap();
    f.compare_and_swap(&snap, tmp).unwrap();
    let after = f.load().unwrap();
    assert_eq!(after.version(), snap.version() + 1);
    assert_eq!(read_latest(&f).unwrap(), b"second".to_vec());
}

#[test]
fn stale_snapshot_always_conflicts() {
    let dir = unique_dir("stale");
    let f = AtomicFile::new(&format!("{}/store", dir)).unwrap();
    for content in [b"1".to_vec(), b"2".to_vec(), b"3".to_vec()] {
        modify(&f, move |_| content.clone()).unwrap();
    }
    let stale = f.load().unwrap();
    assert_eq!(stale.version(), 3);

    modify(&f, |_| b"fourth".to_vec()).unwrap();
    assert_eq!(f.load().unwrap().version(), 4);

    let tmp = f.make_temp().unwrap();
    tmp.write_all(&b"late".to_vec()).unwrap();
    let res = f.compare_and_swap(&stale, tmp);
    assert!(matches!(res, Err(CasError::Conflict)));
    assert_eq!(f.load().unwrap().version(), 4);
    assert_eq!(read_latest(&f).unwrap(), b"fourth".to_vec());

    let fresh = f.load().unwrap();
    let tmp = f.make_temp().unwrap();
    tmp.write_all(&b"fifth".to_vec()).unwrap();
    f.compare_and_swap(&fresh, tmp).unwrap();
    assert_eq!(f.load().unwrap().version(), 5);
    assert_eq!(read_latest(&f).unwrap(), b"fifth".to_vec());
}

#[test]
fn two_appenders_leave_both_markers() {
    let dir = unique_dir("append");
    let f = AtomicFile::new(&format!("{}/store", dir)).unwrap();
    let before = f.load().unwrap().version();
    for i in 0..2 {
        modify(&f, move |mut d: Vec<u8>| {
            d.extend_from_slice(format!("thread{}", i).as_bytes());
            d
        })
        .unwrap();
    }
    let data = read_latest(&f).unwrap();
    assert!(data == b"thread0thread1".to_vec() || data == b"thread1thread0".to_vec());
    assert_eq!(f.load().unwrap().version(), before + 2);
}

#[test]
fn unrelated_directory_entries_do_not_change_load() {
    let dir = unique_dir("unrelated");
    let root = format!("{}/store", dir);
    let f = AtomicFile::new(&root).unwrap();
    modify(&f, |_| b"real".to_vec()).unwrap();
    AtomicFile::new(&format!("{}/junk", root)).unwrap();
    AtomicFile::new(&format!("{}/store.abc", root)).unwrap();
    AtomicFile::new(&format!("{}/wrong.7", root)).unwrap();
    let snap = f.load().unwrap();
    assert_eq!(snap.version(), 1);
    assert_eq!(read_latest(&f).unwrap(), b"real".to_vec());
}

#[test]
fn temporary_files_never_affect_load() {
    let dir = unique_dir("temps");
    let root = format!("{}/store", dir);
    let f = AtomicFile::new(&root).unwrap();
    modify(&f, |_| b"real".to_vec()).unwrap();
    let t = atomic_file::TmpFile::create_in(&root.clone().into_bytes()).unwrap();
    t.write_all(&b"candidate".to_vec()).unwrap();
    assert_eq!(f.load().unwrap().version(), 1);
    assert_eq!(read_latest(&f).unwrap(), b"real".to_vec());
    drop(t);
    assert_eq!(f.load().unwrap().version(), 1);
    assert_eq!(read_latest(&f).unwrap(), b"real".to_vec());
}

#[test]
fn live_temporary_files_are_distinct() {
    let dir = unique_dir("distinct");
    let f = AtomicFile::new(&format!("{}/store", dir)).unwrap();
    let first = f.make_temp().unwrap();
    let second = f.make_temp().unwrap();
    first.write_all(&b"one".to_vec()).unwrap();
    second.write_all(&b"two".to_vec()).unwrap();
    let snap = f.load().unwrap();
    f.compare_and_swap(&snap, first).unwrap();
    let snap = f.load().unwrap();
    assert_eq!(snap.version(), 1);
    assert_eq!(read_latest(&f).unwrap(), b"one".to_vec());
    f.compare_and_swap(&snap, second).unwrap();
    assert_eq!(f.load().unwrap().version(), 2);
    assert_eq!(read_latest(&f).unwrap(), b"two".to_vec());
}

#[test]
fn structured_value_round_trips() {
    let dir = unique_dir("roundtrip");
    let f = AtomicFile::new(&format!("{}/store", dir)).unwrap();
    let mut fields = serde_json::Map::new();
    fields.insert("alpha".to_string(), serde_json::Value::from(17u64));
    fields.insert("beta".to_string(), serde_json::Value::from("text"));
    let published = serde_json::Value::Object(fields);
    let wanted = published.clone();
    modify_json(&f, move |_| Some(published.clone())).unwrap();
    let bytes = read_latest(&f).unwrap();
    let decoded: serde_json::Value = serde_json::from_slice(&bytes).unwrap();
    assert_eq!(decoded, wanted);
}

#[test]
fn two_increments_of_absent_counter_reach_two() {
    let dir = unique_dir("counter");
    let f = AtomicFile::new(&format!("{}/store", dir)).unwrap();
    for _ in 0..2 {
        modify_json(&f, |v: Option<serde_json::Value>| {
            let next = match v {
                Some(val) => val.as_u64().unwrap() + 1,
                None => 1,
            };
            Some(serde_json::Value::from(next))
        })
        .unwrap();
    }
    let bytes = read_latest(&f).unwrap();
    let decoded: serde_json::Value = serde_json::from_slice(&bytes).unwrap();
    assert_eq!(decoded.as_u64(), Some(2));
}

#[test]
fn absent_value_is_stored_as_null() {
    let dir = unique_dir("null");
    let f = AtomicFile::new(&format!("{}/store", dir)).unwrap();
    modify_json(&f, |_| None).unwrap();
    assert_eq!(read_latest(&f).unwrap(), b"null".to_vec());
}

#[test]
fn malformed_content_is_a_decode_error() {
    let dir = unique_dir("decode");
    let f = AtomicFile::new(&format!("{}/store", dir)).unwrap();
    modify(&f, |_| b"not json at all".to_vec()).unwrap();
    let res = modify_json(&f, |v| v);
    assert_eq!(res, Err(StoreError::Decode));
    assert_eq!(read_latest(&f).unwrap(), b"not json at all".to_vec());
}

#[test]
fn paths_without_a_final_segment_are_rejected() {
    assert_eq!(
        AtomicFile::new("/").map(|_| ()),
        Err(StoreError::InvalidPath)
    );
    assert_eq!(
        AtomicFile::new("..").map(|_| ()),
        Err(StoreError::InvalidPath)
    );
    assert_eq!(
        AtomicFile::new("").map(|_| ()),
        Err(StoreError::InvalidPath)
    );
    let dir = unique_dir("dotdot");
    assert_eq!(
        AtomicFile::new(&format!("{}/a/..", dir)).map(|_| ()),
        Err(StoreError::InvalidPath)
    );
}

#[test]
fn directory_creation_failure_is_an_io_error() {
    let dir = unique_dir("ioerr");
    let root = format!("{}/store", dir);
    let f = AtomicFile::new(&root).unwrap();
    modify(&f, |_| b"x".to_vec()).unwrap();
    let res = AtomicFile::new(&format!("{}/store.1/sub", root)).map(|_| ());
    assert!(matches!(res, Err(StoreError::Io(_))));
}

#[test]
fn exhausted_version_space_is_reported() {
    let dir = unique_dir("limit");
    let root = format!("{}/vl", dir);
    let f = AtomicFile::new(&root).unwrap();
    AtomicFile::new(&format!("{}/vl.18446744073709551614", root)).unwrap();
    let snap = f.load().unwrap();
    assert_eq!(snap.version(), usize::MAX - 1);
    let tmp = f.make_temp().unwrap();
    tmp.write_all(&b"last".to_vec()).unwrap();
    f.compare_and_swap(&snap, tmp).unwrap();
    assert_eq!(f.load().unwrap().version(), usize::MAX);
    let res = modify(&f, |d| d);
    assert_eq!(res, Err(StoreError::VersionLimit));
}

#[test]
fn reopening_a_store_keeps_its_history() {
    let dir = unique_dir("reopen");
    let root = format!("{}/store", dir);
    let f = AtomicFile::new(&root).unwrap();
    modify(&f, |_| b"kept".to_vec()).unwrap();
    drop(f);
    let again = AtomicFile::new(&root).unwrap();
    assert_eq!(again.load().unwrap().version(), 1);
    assert_eq!(read_latest(&again).unwrap(), b"kept".to_vec());
}

#[test]
fn error_descriptions_name_the_cause() {
    assert_eq!(StoreError::InvalidPath.describe(), "path has no final segment");
    assert_eq!(StoreError::Decode.describe(), "stored content did not decode");
    assert_eq!(StoreError::Io(2).describe(), "operating system error");
}
