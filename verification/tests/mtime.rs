use fskit::{entry_mtime, latest_mtime, mtime_recursive, EntryProbe, FileTimestamp, TreeScan};

fn at(seconds: i64) -> FileTimestamp {
    FileTimestamp::new(seconds, 0)
}

#[test]
fn file_answers_with_its_own_time() {
    let mtime = FileTimestamp::new(1_700_000_000, 42);
    assert_eq!(mtime_recursive(&TreeScan::File { mtime }), mtime);
}

#[test]
fn empty_directory_answers_with_its_own_time() {
    let scan = TreeScan::Directory { mtime: at(77), entries: Vec::new() };
    assert_eq!(mtime_recursive(&scan), at(77));
}

#[test]
fn directory_walk_that_holds_only_the_root_answers_with_the_root_time() {
    let scan = TreeScan::Directory {
        mtime: at(77),
        entries: vec![EntryProbe::Plain { mtime: Some(at(77)) }],
    };
    assert_eq!(mtime_recursive(&scan), at(77));
}

#[test]
fn directory_answers_with_the_latest_entry() {
    let scan = TreeScan::Directory {
        mtime: at(10),
        entries: vec![
            EntryProbe::Plain { mtime: Some(at(10)) },
            EntryProbe::Plain { mtime: Some(at(30)) },
            EntryProbe::Plain { mtime: Some(at(20)) },
        ],
    };
    assert_eq!(mtime_recursive(&scan), at(30));
}

#[test]
fn entries_win_over_a_newer_root_time() {
    let scan = TreeScan::Directory {
        mtime: at(100),
        entries: vec![EntryProbe::Plain { mtime: Some(at(5)) }],
    };
    assert_eq!(mtime_recursive(&scan), at(5));
}

#[test]
fn repointed_symlink_counts_with_its_own_time() {
    let scan = TreeScan::Directory {
        mtime: at(10),
        entries: vec![
            EntryProbe::Plain { mtime: Some(at(10)) },
            EntryProbe::Symlink { link: Some(at(50)), target: Some(at(3)) },
        ],
    };
    assert_eq!(mtime_recursive(&scan), at(50));
}

#[test]
fn symlink_to_a_newer_target_counts_with_the_target_time() {
    let probe = EntryProbe::Symlink { link: Some(at(50)), target: Some(at(60)) };
    assert_eq!(entry_mtime(&probe), Some(at(60)));
}

#[test]
fn symlink_with_unreadable_target_counts_with_its_own_time() {
    let probe = EntryProbe::Symlink { link: Some(at(50)), target: None };
    assert_eq!(entry_mtime(&probe), Some(at(50)));
}

#[test]
fn symlink_whose_own_time_is_unreadable_is_passed_over() {
    let probe = EntryProbe::Symlink { link: None, target: Some(at(60)) };
    assert_eq!(entry_mtime(&probe), None);
    assert_eq!(entry_mtime(&EntryProbe::Symlink { link: None, target: None }), None);
}

#[test]
fn plain_and_unreadable_entries() {
    assert_eq!(entry_mtime(&EntryProbe::Plain { mtime: Some(at(9)) }), Some(at(9)));
    assert_eq!(entry_mtime(&EntryProbe::Plain { mtime: None }), None);
    assert_eq!(entry_mtime(&EntryProbe::Unreadable), None);
}

#[test]
fn unreadable_entries_do_not_fail_the_walk() {
    let scan = TreeScan::Directory {
        mtime: at(1),
        entries: vec![
            EntryProbe::Unreadable,
            EntryProbe::Plain { mtime: None },
            EntryProbe::Plain { mtime: Some(at(8)) },
            EntryProbe::Symlink { link: None, target: Some(at(99)) },
        ],
    };
    assert_eq!(mtime_recursive(&scan), at(8));
}

#[test]
fn directory_falls_back_to_its_own_time_when_nothing_can_be_read() {
    let scan = TreeScan::Directory {
        mtime: at(123),
        entries: vec![
            EntryProbe::Unreadable,
            EntryProbe::Plain { mtime: None },
            EntryProbe::Symlink { link: None, target: Some(at(999)) },
        ],
    };
    assert_eq!(mtime_recursive(&scan), at(123));
}

#[test]
fn latest_mtime_compares_nanoseconds() {
    let entries = vec![
        EntryProbe::Plain { mtime: Some(FileTimestamp::new(5, 100)) },
        EntryProbe::Plain { mtime: Some(FileTimestamp::new(5, 101)) },
        EntryProbe::Plain { mtime: Some(FileTimestamp::new(4, 999_999_999)) },
    ];
    assert_eq!(latest_mtime(&entries), Some(FileTimestamp::new(5, 101)));
    assert_eq!(latest_mtime(&Vec::new()), None);
}

#[test]
fn answer_does_not_depend_on_walk_order() {
    let mut entries = vec![
        EntryProbe::Plain { mtime: Some(at(3)) },
        EntryProbe::Symlink { link: Some(at(9)), target: Some(at(4)) },
        EntryProbe::Unreadable,
        EntryProbe::Plain { mtime: Some(at(7)) },
    ];
    let forward = mtime_recursive(&TreeScan::Directory { mtime: at(0), entries: entries.clone() });
    entries.reverse();
    let backward = mtime_recursive(&TreeScan::Directory { mtime: at(0), entries });
    assert_eq!(forward, at(9));
    assert_eq!(backward, at(9));
}
