use databend_common::error_code::ErrorKind;
use databend_common::hive::convert_hdfs_path;
use databend_common::hive::query_locations_step;
use databend_common::hive::split_listing;
use databend_common::hive::EntryMode;
use databend_common::hive::LocationsStep;
use databend_common::text::find_char;

#[test]
fn test_convert_hdfs_path() {
    let cases = vec![
        ("hdfs://namenode:8020/user/a", "/user/a/"),
        ("hdfs://namenode:8020/user/a/", "/user/a/"),
        ("hdfs://namenode:8020/", "/"),
        ("hdfs://namenode:8020", "/"),
        ("/user/a", "/user/a/"),
        ("/", "/"),
    ];
    for (hdfs_path, expected_path) in cases {
        let path = convert_hdfs_path(hdfs_path, true);
        assert_eq!(path, expected_path);
    }
}

#[test]
fn convert_hdfs_path_of_a_file_keeps_no_trailing_slash() {
    assert_eq!(convert_hdfs_path("hdfs://namenode:8020/user/a/f.parquet", false), "/user/a/f.parquet");
    assert_eq!(convert_hdfs_path("/user/a/", false), "/user/a/");
}

#[test]
fn convert_hdfs_path_without_scheme_or_slash() {
    // no slash at all: a colon still ends the scheme
    assert_eq!(convert_hdfs_path("file:abc", true), "abc/");
    // a colon after the first slash is part of the path
    assert_eq!(convert_hdfs_path("/a:b", true), "/a:b/");
    assert_eq!(convert_hdfs_path("", true), "/");
    assert_eq!(convert_hdfs_path("", false), "");
    // two slashes and nothing more: no authority to take off
    assert_eq!(convert_hdfs_path("s3://", true), "//");
}

#[test]
fn find_char_counts_characters() {
    assert_eq!(find_char("hdfs://x", ':'), Some(4));
    assert_eq!(find_char("héllo/x", '/'), Some(5));
    assert_eq!(find_char("abc", '/'), None);
}

#[test]
fn where_a_read_starts() {
    match query_locations_step("t1", None, &None, None) {
        Err(e) => {
            assert_eq!(e.kind, ErrorKind::TableInfoError);
            assert_eq!(e.message, "t1, table location is empty");
        }
        Ok(_) => panic!("a table without a location is read"),
    }
    match query_locations_step("t1", Some("hdfs://nn:8020/warehouse/t1"), &None, None) {
        Ok(LocationsStep::Locations(v)) => assert_eq!(v, vec![("/warehouse/t1/".to_string(), None)]),
        _ => panic!("an unpartitioned table is read from its location"),
    }
    let keys = Some(vec!["day".to_string()]);
    match query_locations_step("t1", Some("hdfs://nn:8020/warehouse/t1"), &keys, None) {
        Ok(LocationsStep::Locations(v)) => assert_eq!(v, vec![("/warehouse/t1/".to_string(), None)]),
        _ => panic!("a read without filters covers the location"),
    }
    let one = vec!["day = 1".to_string()];
    match query_locations_step("t1", Some("/warehouse/t1/"), &keys, Some(&one)) {
        Ok(LocationsStep::ListPartitions(l)) => assert_eq!(l, "/warehouse/t1/"),
        _ => panic!("a partitioned read lists the partitions"),
    }
    let two = vec!["a".to_string(), "b".to_string()];
    match query_locations_step("t1", Some("/warehouse/t1"), &keys, Some(&two)) {
        Err(e) => {
            assert_eq!(e.kind, ErrorKind::UnImplement);
            assert_eq!(e.message, "more than one filters, [a, b]");
        }
        Ok(_) => panic!("two filters are taken"),
    }
    let no_keys = Some(vec![]);
    match query_locations_step("t1", Some("/warehouse/t1"), &no_keys, Some(&two)) {
        Ok(LocationsStep::Locations(v)) => assert_eq!(v.len(), 1),
        _ => panic!("empty partition keys mean an unpartitioned table"),
    }
}

fn entry(path: &str, mode: EntryMode) -> (String, EntryMode) {
    (path.to_string(), mode)
}

#[test]
fn listed_entries_split_into_files_and_dirs() {
    let entries = vec![
        entry("wh/t1/part-0.parquet", EntryMode::File),
        entry("wh/t1/.part-0.crc", EntryMode::File),
        entry("wh/t1/_SUCCESS", EntryMode::File),
        entry("wh/t1/day=1/", EntryMode::Dir),
        entry("wh/t1/_tmp/", EntryMode::Dir),
        entry("wh/t1/part-1.parquet", EntryMode::File),
        entry("wh/t1/_unknown", EntryMode::Unknown),
    ];
    match split_listing(&entries) {
        Ok((files, dirs)) => {
            assert_eq!(files, vec!["wh/t1/part-0.parquet".to_string(), "wh/t1/part-1.parquet".to_string()]);
            assert_eq!(dirs, vec!["wh/t1/day=1/".to_string(), "wh/t1/_tmp/".to_string()]);
        }
        Err(e) => panic!("{}", e.message),
    }
    let no_slash = vec![entry("x_y", EntryMode::File), entry("ab", EntryMode::File), entry(".c", EntryMode::File)];
    match split_listing(&no_slash) {
        Ok((files, _)) => assert_eq!(files, vec!["ab".to_string(), ".c".to_string()]),
        Err(e) => panic!("{}", e.message),
    }
    let bad = vec![entry("wh/a", EntryMode::File), entry("wh/b", EntryMode::Unknown), entry("wh/c", EntryMode::Unknown)];
    match split_listing(&bad) {
        Err(e) => {
            assert_eq!(e.kind, ErrorKind::ReadTableDataError);
            assert_eq!(e.message, "wh/b couldn't get file mode");
        }
        Ok(_) => panic!("an entry of unknown mode is listed"),
    }
}
