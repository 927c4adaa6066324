use factory::pool::JoinState;
use factory::walk::{Entry, EntryKind, Walker};

fn entry(name: &str, kind: EntryKind) -> Entry {
    Entry { name: name.into(), kind }
}

#[test]
fn walker_yields_files_with_item_paths() {
    let mut w = Walker::new("/data/root".into(), "".into());
    let (abs, rel) = w.next_dir().unwrap();
    assert_eq!((abs.as_str(), rel.as_str()), ("/data/root", ""));
    let files = w.visit(
        &abs,
        &rel,
        &vec![entry("a.sh", EntryKind::File), entry("sub", EntryKind::Dir), entry("link", EntryKind::Other)],
    );
    assert_eq!(files, vec![("/data/root/a.sh".to_string(), "a.sh".to_string())]);
    let (abs, rel) = w.next_dir().unwrap();
    assert_eq!((abs.as_str(), rel.as_str()), ("/data/root/sub", "sub"));
    let files = w.visit(&abs, &rel, &vec![entry("b.sh", EntryKind::File)]);
    assert_eq!(files, vec![("/data/root/sub/b.sh".to_string(), "sub/b.sh".to_string())]);
    assert!(w.next_dir().is_none());
}

#[test]
fn walker_keeps_the_parent_item_path() {
    let mut w = Walker::new("/w/0123".into(), "outer.zip".into());
    let (abs, rel) = w.next_dir().unwrap();
    let files = w.visit(&abs, &rel, &vec![entry("x.txt", EntryKind::File)]);
    assert_eq!(files[0].1, "outer.zip/x.txt");
}

#[test]
fn join_counts_busy_workers() {
    let mut j = JoinState::new();
    assert!(j.drained(true, true, true));
    assert!(j.record(true));
    assert!(j.record(true));
    assert!(!j.drained(true, true, true));
    assert!(j.record(false));
    assert!(j.record(false));
    assert_eq!(j.active, 0);
    assert!(!j.record(false));
    assert_eq!(j.active, 0);
    assert!(j.drained(true, true, true));
    assert!(!j.drained(false, true, true));
    assert!(!j.drained(true, false, true));
    assert!(!j.drained(true, true, false));
}
