use primenet_rs::{
    append_jobs, lock_file, read_list_lock, read_nolock, unlock_file, QueueFile, StoreError,
};

fn file_with(lines: &[&str], locked: bool) -> QueueFile {
    QueueFile {
        records: lines.iter().map(|s| s.to_string()).collect(),
        locked,
    }
}

#[test]
fn read_and_lock_fails_on_existing_marker_without_reading() {
    let mut f = file_with(&["a", "b"], true);
    let r = read_list_lock(&mut f);
    assert!(matches!(r, Err(StoreError::LockBusy)));
    assert_eq!(f.records, vec!["a".to_string(), "b".to_string()]);
    assert!(f.locked);
}

#[test]
fn read_and_lock_returns_lines_and_holds_lock() {
    let mut f = file_with(&["a", "b"], false);
    let lines = read_list_lock(&mut f).unwrap();
    assert_eq!(lines, vec!["a".to_string(), "b".to_string()]);
    assert!(f.locked);
}

#[test]
fn lock_is_exclusive() {
    let mut f = file_with(&[], false);
    assert!(lock_file(&mut f).is_ok());
    assert!(matches!(lock_file(&mut f), Err(StoreError::LockBusy)));
}

#[test]
fn release_is_idempotent() {
    let mut f = file_with(&["x"], false);
    assert!(lock_file(&mut f).is_ok());
    assert!(unlock_file(&mut f).is_ok());
    assert!(unlock_file(&mut f).is_ok());
    assert!(!f.locked);
    assert_eq!(f.records, vec!["x".to_string()]);
}

#[test]
fn read_nolock_refuses_while_marker_exists() {
    let f = file_with(&["a"], true);
    assert!(matches!(read_nolock(&f), Err(StoreError::LockBusy)));
    let g = file_with(&["a"], false);
    assert_eq!(read_nolock(&g).unwrap(), vec!["a".to_string()]);
}

#[test]
fn append_writes_all_records_in_order() {
    let mut f = file_with(&["old"], false);
    let recs = vec!["n1".to_string(), "n2".to_string()];
    assert!(append_jobs(&mut f, &recs, None).is_ok());
    assert_eq!(
        f.records,
        vec!["old".to_string(), "n1".to_string(), "n2".to_string()]
    );
}

#[test]
fn failed_append_reports_exactly_the_unwritten_suffix() {
    let mut f = file_with(&["old"], false);
    let recs = vec!["a".to_string(), "b".to_string(), "c".to_string()];
    let r = append_jobs(&mut f, &recs, Some(1));
    let unwritten = match r {
        Err(u) => u,
        Ok(_) => panic!("append with an injected fault must fail"),
    };
    assert_eq!(unwritten, vec!["b".to_string(), "c".to_string()]);
    assert_eq!(f.records, vec!["old".to_string(), "a".to_string()]);
}

#[test]
fn fault_after_all_records_is_a_clean_append() {
    let mut f = file_with(&[], false);
    let recs = vec!["a".to_string()];
    assert!(append_jobs(&mut f, &recs, Some(5)).is_ok());
    assert_eq!(f.records, vec!["a".to_string()]);
}
