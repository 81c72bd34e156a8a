use md_edit::editor::{
    fingerprint, DirtyTracker, Editor, Fingerprint, CHECKSUM_BASE, CHECKSUM_MODULUS,
};

#[test]
fn fingerprint_of_empty_text_is_zero() {
    let f = fingerprint("");
    assert_eq!(f, Fingerprint { length: 0, checksum: 0 });
    assert!(f.empty());
}

#[test]
fn fingerprint_exact_values() {
    assert_eq!(fingerprint("a"), Fingerprint { length: 1, checksum: 98 });
    assert_eq!(fingerprint("ab"), Fingerprint { length: 2, checksum: 25285 });
    assert_eq!(fingerprint("# Title\n"), Fingerprint { length: 8, checksum: 3039439934 });
    assert_eq!(fingerprint("héllo"), Fingerprint { length: 6, checksum: 3743907929 });
    assert_eq!(
        fingerprint("hello world, this is a longer text"),
        Fingerprint { length: 34, checksum: 4028377463 }
    );
    assert_eq!(CHECKSUM_BASE, 257);
    assert_eq!(CHECKSUM_MODULUS, 4294967291);
}

#[test]
fn fingerprint_differs_for_swapped_bytes() {
    assert_ne!(fingerprint("ab"), fingerprint("ba"));
    assert_ne!(fingerprint("a"), fingerprint("a\0"));
    assert!(!fingerprint("x").empty());
}

#[test]
fn tracker_starts_clean() {
    let t = DirtyTracker::new(fingerprint("text"));
    assert!(!t.is_dirty());
    assert_eq!(t.baseline, fingerprint("text"));
    assert_eq!(t.current, fingerprint("text"));
    assert!(!t.touched);
}

#[test]
fn tracker_is_dirty_after_a_changing_edit() {
    let mut t = DirtyTracker::new(fingerprint("text"));
    t.record(fingerprint("text!"));
    assert!(t.is_dirty());
    assert!(t.touched);
    t.rebaseline(fingerprint("text!"));
    assert!(!t.is_dirty());
    assert!(!t.touched);
}

#[test]
fn tracker_stays_dirty_when_the_edit_is_undone() {
    let mut t = DirtyTracker::new(fingerprint("A"));
    t.record(fingerprint("B"));
    t.record(fingerprint("A"));
    assert!(t.is_dirty());
}

#[test]
fn tracker_without_change_stays_clean() {
    let mut t = DirtyTracker::new(fingerprint("A"));
    t.record(fingerprint("A"));
    assert!(!t.is_dirty());
}

#[test]
fn tracker_sees_an_emptied_buffer() {
    let mut t = DirtyTracker::new(fingerprint("A"));
    t.record(fingerprint(""));
    assert!(!t.touched);
    assert!(t.is_dirty());
}

#[test]
fn rebaseline_to_other_content_leaves_the_buffer_dirty() {
    let mut t = DirtyTracker::new(fingerprint("A"));
    t.record(fingerprint("B"));
    t.rebaseline(fingerprint("C"));
    assert!(t.is_dirty());
}

#[test]
fn editor_edit_and_save() {
    let mut e = Editor::new();
    assert_eq!(e.content(), "");
    assert!(!e.is_dirty());
    e.edit("hello".to_string());
    assert_eq!(e.content(), "hello");
    assert!(e.is_dirty());
    assert_eq!(e.tracker().current, fingerprint("hello"));
    e.saved("hello");
    assert!(!e.is_dirty());
    assert_eq!(e.tracker().baseline, fingerprint("hello"));
}

#[test]
fn editor_kept_takes_in_the_buffer() {
    let mut e = Editor::new();
    e.edit("one".to_string());
    e.edit("two".to_string());
    assert!(e.is_dirty());
    e.kept();
    assert!(!e.is_dirty());
    assert_eq!(e.content(), "two");
    assert_eq!(e.tracker().baseline, fingerprint("two"));
}

#[test]
fn editor_replace_is_refused_while_dirty() {
    let mut e = Editor::default();
    e.edit("work".to_string());
    assert!(!e.replace("other".to_string()));
    assert_eq!(e.content(), "work");
    assert!(e.is_dirty());
    e.saved("work");
    assert!(e.replace("other".to_string()));
    assert_eq!(e.content(), "other");
    assert!(!e.is_dirty());
}
