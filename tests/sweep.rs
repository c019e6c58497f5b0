use hash_runner::sweep::{is_eligible, sweep_targets, DirEntry};

fn entry(name: &str, is_dir: bool) -> DirEntry {
    DirEntry { name: name.to_string(), is_dir }
}

#[test]
fn sweep_runs_only_visible_scripts() {
    let entries = vec![
        entry("a.ha.sh", false),
        entry(".hidden.ha.sh", false),
        entry("sub", true),
    ];
    assert_eq!(sweep_targets(&entries), vec![0]);
}

#[test]
fn sweep_skips_directories_with_suffix() {
    let entries = vec![entry("d.ha.sh", true), entry("b.ha.sh", false), entry("c.txt", false)];
    assert_eq!(sweep_targets(&entries), vec![1]);
}

#[test]
fn sweep_keeps_listing_order() {
    let entries = vec![
        entry("z.ha.sh", false),
        entry("notes", false),
        entry("a.ha.sh", false),
        entry("m.ha.sh", false),
    ];
    assert_eq!(sweep_targets(&entries), vec![0, 2, 3]);
}

#[test]
fn sweep_of_empty_listing() {
    assert!(sweep_targets(&Vec::new()).is_empty());
}

#[test]
fn eligibility_of_names() {
    assert!(is_eligible(&entry("x.ha.sh", false)));
    assert!(!is_eligible(&entry(".x.ha.sh", false)));
    assert!(!is_eligible(&entry("x.ha.sh", true)));
    assert!(!is_eligible(&entry("x.sh", false)));
    assert!(!is_eligible(&entry("", false)));
}
