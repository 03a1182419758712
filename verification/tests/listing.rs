use yadex::{
    build_entry, build_index, effective_limit, RawEntry, MAX_TIMESTAMP_SECS, MIN_TIMESTAMP_SECS,
};

fn entry(name: &str, is_dir: bool) -> Option<RawEntry> {
    Some(RawEntry { name: name.to_owned(), is_dir, size: 7, mtime: 0 })
}

#[test]
fn effective_limit_zero_means_unbounded() {
    assert_eq!(effective_limit(0), usize::MAX);
    assert_eq!(effective_limit(5), 5);
}

#[test]
fn below_limit_keeps_all_and_no_truncation() {
    let raw = vec![entry("a", false), entry("b", false)];
    let data = build_index("/", &raw, 3);
    assert_eq!(data.entry.len(), 2);
    assert!(!data.maybe_truncated);
    assert_eq!(data.entry[0].name, "a");
    assert_eq!(data.entry[1].name, "b");
}

#[test]
fn at_limit_sets_truncation_flag() {
    let raw = vec![entry("a", false), entry("b", false), entry("c", false)];
    let data = build_index("/", &raw, 3);
    assert_eq!(data.entry.len(), 3);
    assert!(data.maybe_truncated);
}

#[test]
fn above_limit_cuts_to_limit_in_order() {
    let raw = vec![
        entry("a", false),
        entry("b", false),
        entry("c", false),
        entry("d", false),
        entry("e", false),
    ];
    let data = build_index("/", &raw, 3);
    assert_eq!(data.entry.len(), 3);
    assert!(data.maybe_truncated);
    let names: Vec<&str> = data.entry.iter().map(|e| e.name.as_str()).collect();
    assert_eq!(names, ["a", "b", "c"]);
}

#[test]
fn unbounded_returns_everything() {
    let raw: Vec<Option<RawEntry>> = (0..100).map(|i| entry(&format!("f{i}"), false)).collect();
    let data = build_index("/", &raw, effective_limit(0));
    assert_eq!(data.entry.len(), 100);
    assert!(!data.maybe_truncated);
}

#[test]
fn failed_metadata_slot_is_skipped_not_fatal() {
    let raw = vec![entry("a", false), None, entry("b", false)];
    let data = build_index("/", &raw, 10);
    assert_eq!(data.entry.len(), 2);
    assert_eq!(data.entry[0].name, "a");
    assert_eq!(data.entry[1].name, "b");
    assert!(!data.maybe_truncated);
}

#[test]
fn failed_slot_still_counts_toward_the_bound() {
    let raw = vec![entry("a", false), None, entry("b", false)];
    let data = build_index("/", &raw, 2);
    assert_eq!(data.entry.len(), 1);
    assert_eq!(data.entry[0].name, "a");
    assert!(!data.maybe_truncated);
}

#[test]
fn href_is_percent_encoded_and_attribute_escaped() {
    let e = RawEntry { name: "a b&c.txt".to_owned(), is_dir: false, size: 1, mtime: 0 };
    let row = build_entry("/docs/", &e);
    assert_eq!(row.href, "/docs/a%20b%26c.txt");
    let expected = html_escape::encode_double_quoted_attribute(
        urlencoding::encode("a b&c.txt").as_ref(),
    )
    .into_owned();
    assert_eq!(row.href, format!("/docs/{expected}"));
}

#[test]
fn html_special_filename_never_reaches_href_raw() {
    let e = RawEntry { name: "<script>\"x\".txt".to_owned(), is_dir: false, size: 1, mtime: 0 };
    let row = build_entry("/", &e);
    assert_eq!(row.href, "/%3Cscript%3E%22x%22.txt");
    for c in ['<', '>', '"', ' ', '\''] {
        assert!(!row.href.contains(c));
    }
    assert!(!row.href.contains("&"));
    assert_eq!(row.name, "<script>\"x\".txt");
}

#[test]
fn multibyte_filename_is_percent_encoded_byte_by_byte() {
    let e = RawEntry { name: "ü €.txt".to_owned(), is_dir: false, size: 1, mtime: 0 };
    let row = build_entry("/", &e);
    assert_eq!(row.href, "/%C3%BC%20%E2%82%AC.txt");
    assert_eq!(
        row.href,
        format!("/{}", urlencoding::encode("ü €.txt"))
    );
}

#[test]
fn directory_entries_get_trailing_slash_on_name_and_href() {
    let d = RawEntry { name: "sub".to_owned(), is_dir: true, size: 0, mtime: 0 };
    let row = build_entry("/", &d);
    assert_eq!(row.name, "sub/");
    assert_eq!(row.href, "/sub/");
    let f = RawEntry { name: "file.txt".to_owned(), is_dir: false, size: 0, mtime: 0 };
    let row = build_entry("/", &f);
    assert_eq!(row.name, "file.txt");
    assert_eq!(row.href, "/file.txt");
}

#[test]
fn datetime_is_rfc3339_utc_of_the_mtime() {
    let e = RawEntry { name: "a".to_owned(), is_dir: false, size: 0, mtime: 0 };
    let row = build_entry("/", &e);
    assert_eq!(row.datetime.as_deref(), Some("1970-01-01T00:00:00+00:00"));
    let e = RawEntry { name: "a".to_owned(), is_dir: false, size: 0, mtime: 1431648000 };
    let row = build_entry("/", &e);
    let expected = chrono::DateTime::from_timestamp(1431648000, 0).unwrap().to_rfc3339();
    assert_eq!(row.datetime.as_deref(), Some(expected.as_str()));
}

#[test]
fn unrepresentable_mtime_yields_no_datetime() {
    let e = RawEntry { name: "a".to_owned(), is_dir: false, size: 0, mtime: i64::MAX };
    let row = build_entry("/", &e);
    assert!(row.datetime.is_none());
}

#[test]
fn timestamp_bounds_match_the_date_library() {
    assert!(chrono::DateTime::from_timestamp(MIN_TIMESTAMP_SECS, 0).is_some());
    assert!(chrono::DateTime::from_timestamp(MIN_TIMESTAMP_SECS - 1, 0).is_none());
    assert!(chrono::DateTime::from_timestamp(MAX_TIMESTAMP_SECS, 0).is_some());
    assert!(chrono::DateTime::from_timestamp(MAX_TIMESTAMP_SECS + 1, 0).is_none());
    for (mtime, representable) in [
        (MIN_TIMESTAMP_SECS, true),
        (MIN_TIMESTAMP_SECS - 1, false),
        (MAX_TIMESTAMP_SECS, true),
        (MAX_TIMESTAMP_SECS + 1, false),
    ] {
        let e = RawEntry { name: "a".to_owned(), is_dir: false, size: 0, mtime };
        assert_eq!(build_entry("/", &e).datetime.is_some(), representable);
    }
}

#[test]
fn empty_directory_lists_nothing_without_truncation() {
    let raw: Vec<Option<RawEntry>> = Vec::new();
    let data = build_index("/", &raw, 3);
    assert_eq!(data.entry.len(), 0);
    assert!(!data.maybe_truncated);
}

#[test]
fn size_and_kind_are_carried_through() {
    let e = RawEntry { name: "big".to_owned(), is_dir: false, size: u64::MAX, mtime: 0 };
    let row = build_entry("/", &e);
    assert_eq!(row.size, u64::MAX);
    assert!(!row.is_dir);
}
