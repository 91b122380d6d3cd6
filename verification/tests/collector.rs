use code_reader::app::{build_report, App, FileEntry, FileInfo, Verdict};

fn entry(name: &str, path: &str, prefix: &[u8], data: Option<&[u8]>) -> FileEntry {
    FileEntry {
        name: name.to_string(),
        path: path.to_string(),
        prefix: prefix.to_vec(),
        data: data.map(|d| d.to_vec()),
    }
}

fn no_filter_app() -> App {
    App { path: "root".to_string(), file_names: None, not_need_paths: None }
}

fn pairs(records: &[FileInfo]) -> Vec<(String, String)> {
    records.iter().map(|r| (r.path.clone(), r.content.clone())).collect()
}

#[test]
fn all_text_files_collected() {
    let app = no_filter_app();
    let entries = vec![
        entry("a.txt", "root/a.txt", b"alpha", Some(b"alpha")),
        entry("b.txt", "root/b.txt", b"beta", Some(b"beta")),
        entry("c.md", "root/sub/c.md", b"# gamma", Some(b"# gamma\nbody")),
    ];
    let records = app.collect_entries(&entries);
    assert_eq!(
        pairs(&records),
        vec![
            ("root/a.txt".to_string(), "alpha".to_string()),
            ("root/b.txt".to_string(), "beta".to_string()),
            ("root/sub/c.md".to_string(), "# gamma\nbody".to_string()),
        ]
    );
}

#[test]
fn binary_prefix_excluded_despite_filters() {
    let mut app = no_filter_app();
    app.file_names = Some(vec!["bin".to_string()]);
    let entries = vec![entry("data.bin", "root/data.bin", &[0xff, 0xfe, 0x00], Some(b"x"))];
    assert_eq!(app.entry_verdict(&entries[0]), Verdict::NotText);
    assert!(app.collect_entries(&entries).is_empty());
}

#[test]
fn include_name_substring_matches() {
    let app = App {
        path: "root".to_string(),
        file_names: Some(vec!["foo".to_string()]),
        not_need_paths: None,
    };
    let included = entry("barfoo.txt", "root/barfoo.txt", b"one", Some(b"one"));
    let excluded = entry("bar.txt", "root/bar.txt", b"two", Some(b"two"));
    assert_eq!(app.entry_verdict(&included), Verdict::Keep);
    assert_eq!(app.entry_verdict(&excluded), Verdict::NameMismatch);
    let records = app.collect_entries(&vec![included, excluded]);
    assert_eq!(pairs(&records), vec![("root/barfoo.txt".to_string(), "one".to_string())]);
}

#[test]
fn exclude_path_overrides_include() {
    let app = App {
        path: "root".to_string(),
        file_names: Some(vec!["a".to_string()]),
        not_need_paths: Some(vec!["/node_modules/".to_string()]),
    };
    let shadowed = entry(
        "a.txt",
        "root/node_modules/a.txt",
        b"dep",
        Some(b"dep"),
    );
    let kept = entry("a.txt", "root/src/a.txt", b"src", Some(b"src"));
    assert_eq!(app.entry_verdict(&shadowed), Verdict::ExcludedPath);
    assert_eq!(app.entry_verdict(&kept), Verdict::Keep);
    let records = app.collect_entries(&vec![shadowed, kept]);
    assert_eq!(pairs(&records), vec![("root/src/a.txt".to_string(), "src".to_string())]);
}

#[test]
fn collect_twice_yields_same_pairs() {
    let app = App {
        path: "root".to_string(),
        file_names: Some(vec![".txt".to_string()]),
        not_need_paths: Some(vec!["skip".to_string()]),
    };
    let entries = vec![
        entry("a.txt", "root/a.txt", b"aa", Some(b"aa")),
        entry("b.bin", "root/b.bin", &[0x80], Some(b"bb")),
        entry("c.txt", "root/skip/c.txt", b"cc", Some(b"cc")),
        entry("d.txt", "root/d.txt", b"dd", Some(b"dd")),
    ];
    let first = app.collect_entries(&entries);
    let second = app.collect_entries(&entries);
    assert_eq!(pairs(&first), pairs(&second));
    assert_eq!(
        pairs(&first),
        vec![
            ("root/a.txt".to_string(), "aa".to_string()),
            ("root/d.txt".to_string(), "dd".to_string()),
        ]
    );
}

#[test]
fn binary_subfile_skipped_with_diagnostic_verdict() {
    let app = no_filter_app();
    let text = entry("a.txt", "root/a.txt", b"hello", Some(b"hello"));
    let binary = entry("b.bin", "root/sub/b.bin", &[0xc3, 0x28, 0xff], Some(&[0xc3, 0x28]));
    assert_eq!(app.entry_verdict(&binary), Verdict::NotText);
    let records = app.collect_entries(&vec![text, binary]);
    assert_eq!(pairs(&records), vec![("root/a.txt".to_string(), "hello".to_string())]);
}

#[test]
fn unreadable_or_non_utf8_contents_skipped() {
    let app = no_filter_app();
    let unread = entry("a.txt", "root/a.txt", b"ok", None);
    let invalid = entry("b.txt", "root/b.txt", b"ok", Some(&[0xff, 0x00]));
    assert_eq!(app.entry_verdict(&unread), Verdict::ReadFailed);
    assert_eq!(app.entry_verdict(&invalid), Verdict::ReadFailed);
    assert!(app.collect_entries(&vec![unread, invalid]).is_empty());
}

#[test]
fn record_renders_as_labelled_block() {
    let info = FileInfo { path: "root/a.txt".to_string(), content: "hello".to_string() };
    assert_eq!(
        info.to_display_string(),
        "文件路径：\nroot/a.txt\n文件内容：\nhello\n"
    );
}

#[test]
fn report_concatenates_blocks_in_reverse() {
    let records = vec![
        FileInfo { path: "p1".to_string(), content: "c1".to_string() },
        FileInfo { path: "p2".to_string(), content: "c2".to_string() },
    ];
    let (report, count) = build_report(&records);
    assert_eq!(count, 2);
    assert_eq!(
        report,
        "文件路径：\np2\n文件内容：\nc2\n文件路径：\np1\n文件内容：\nc1\n"
    );
}

#[test]
fn empty_report() {
    let (report, count) = build_report(&Vec::new());
    assert_eq!(count, 0);
    assert_eq!(report, "");
}
