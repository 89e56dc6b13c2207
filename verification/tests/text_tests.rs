use databend_common::expr_display::BooleanDomain;
use databend_common::expr_display::DataType;
use databend_common::expr_display::FunctionProperty;
use databend_common::expr_display::IntDomain;
use databend_common::expr_display::UIntDomain;
use databend_common::hive::partition_locations;
use databend_common::hive::source_count;
use databend_common::hive::split_partition_columns;
use databend_common::share::DateTimeUtc;
use databend_common::stage_files::check_grant_object_exists;
use databend_common::stage_files::compile_file_pattern;
use databend_common::stage_files::dal_listing_dir;
use databend_common::stage_files::describe_stage_query;
use databend_common::stage_files::filter_stage_files;
use databend_common::stage_files::internal_stage_file_path;
use databend_common::stage_files::internal_stage_path;
use databend_common::stage_files::stage_file_under_path;
use databend_common::stage_files::stage_files_of_listing;
use databend_common::stage_files::trim_start_matches;
use databend_common::stage_files::FileMeta;
use databend_common::stage_files::GrantObject;
use databend_common::stage_files::PathKind;
use databend_common::stage_files::StageFile;
use databend_common::error_code::ErrorKind;
use databend_common::text::u64_to_string;

fn strings(xs: &[&str]) -> Vec<String> {
    xs.iter().map(|s| s.to_string()).collect()
}

#[test]
fn expression_type_texts() {
    assert_eq!(DataType::Boolean.display_text(), "Boolean");
    assert_eq!(DataType::Nullable(Box::new(DataType::Int32)).display_text(), "Int32 NULL");
    assert_eq!(DataType::EmptyArray.display_text(), "Array(Nothing)");
    assert_eq!(DataType::Array(Box::new(DataType::String)).display_text(), "Array(String)");
    assert_eq!(DataType::Mapping(Box::new(DataType::UInt8)).display_text(), "Map(UInt8)");
    assert_eq!(DataType::Tuple(vec![DataType::Int8]).display_text(), "(Int8,)");
    assert_eq!(DataType::Tuple(vec![DataType::Int8, DataType::Null]).display_text(), "(Int8, NULL)");
    assert_eq!(DataType::Tuple(vec![]).display_text(), "()");
    assert_eq!(DataType::Generic(12).display_text(), "T12");
}

#[test]
fn domain_texts() {
    assert_eq!(IntDomain { min: -5, max: 7 }.display_text(), "{-5..=7}");
    assert_eq!(IntDomain { min: i64::MIN, max: i64::MAX }.display_text(), format!("{{{}..={}}}", i64::MIN, i64::MAX));
    assert_eq!(UIntDomain { min: 0, max: u64::MAX }.display_text(), format!("{{0..={}}}", u64::MAX));
    assert_eq!(BooleanDomain { has_false: true, has_true: true }.display_text(), "{FALSE, TRUE}");
    assert_eq!(BooleanDomain { has_false: true, has_true: false }.display_text(), "{FALSE}");
    assert_eq!(BooleanDomain { has_false: false, has_true: true }.display_text(), "{TRUE}");
    assert_eq!(FunctionProperty { commutative: true }.display_text(), "{commutative}");
    assert_eq!(FunctionProperty { commutative: false }.display_text(), "");
    assert_eq!(u64_to_string(1234567890), "1234567890");
}

#[test]
fn hive_reads() {
    assert_eq!(source_count(10, 4), 4);
    assert_eq!(source_count(2, 8), 2);
    assert_eq!(source_count(0, 8), 1);
    let locs = partition_locations("/warehouse/t/", strings(&["p=1", "p=2"]));
    assert_eq!(locs[0], ("/warehouse/t/p=1/".to_string(), Some("p=1".to_string())));
    assert_eq!(locs[1].0, "/warehouse/t/p=2/");
    let names = strings(&["a", "dt", "b", "region"]);
    let keys = Some(strings(&["dt", "region"]));
    assert_eq!(split_partition_columns(&vec![0, 1, 2, 3], &names, &keys), (vec![0, 2], vec![1, 3]));
    assert_eq!(split_partition_columns(&vec![3, 0], &names, &None), (vec![3, 0], vec![]));
}

fn file(path: &str) -> StageFile {
    StageFile { path: path.to_string(), size: 1, md5: None, last_modified: DateTimeUtc { secs: 0, nsecs: 0 }, creator: None }
}

#[test]
fn stage_files_under_a_path() {
    assert!(stage_file_under_path("/stage/s/", "a/b.csv", "/stage/s/a/"));
    assert!(stage_file_under_path("/stage/s/", "a/b.csv", "/stage/s/a"));
    assert!(stage_file_under_path("/stage/s/", "a", "/stage/s/a"));
    assert!(!stage_file_under_path("/stage/s/", "ab.csv", "/stage/s/a"));
    let files = vec![file("a/x.csv"), file("a/y.json"), file("b/z.csv")];
    let none = compile_file_pattern("").unwrap();
    assert!(none.is_none());
    let kept = filter_stage_files(files.clone(), "/stage/s/", "/stage/s/a/", &none);
    assert_eq!(kept.iter().map(|f| f.path.clone()).collect::<Vec<_>>(), strings(&["a/x.csv", "a/y.json"]));
    let csv = compile_file_pattern(r".*\.csv$").unwrap();
    let kept = filter_stage_files(files, "/stage/s/", "/stage/s/", &csv);
    assert_eq!(kept.iter().map(|f| f.path.clone()).collect::<Vec<_>>(), strings(&["a/x.csv", "b/z.csv"]));
}

#[test]
fn invalid_patterns_are_syntax_errors() {
    let e = compile_file_pattern("a(").unwrap_err();
    assert_eq!(e.kind, ErrorKind::SyntaxException);
    assert!(e.message.starts_with("Pattern format invalid, got:a(, error:"));
    let expected = format!("Pattern format invalid, got:a(, error:{:?}", regex::Regex::new("a(").unwrap_err());
    assert_eq!(e.message, expected);
}

#[test]
fn trimming_prefixes() {
    assert_eq!(trim_start_matches("ababc", "ab"), "c");
    assert_eq!(trim_start_matches("abc", ""), "abc");
    assert_eq!(trim_start_matches("//x", "/"), "x");
    assert_eq!(internal_stage_file_path("stage/s/a.csv", "/stage/s/"), "a.csv");
    for (s, p) in [("aaa", "a"), ("xyz", "xy"), ("", "a"), ("abab", "abab")] {
        assert_eq!(trim_start_matches(s, p), s.trim_start_matches(p));
    }
}

#[test]
fn dal_listing() {
    assert_eq!(dal_listing_dir("/a", PathKind::Dir), (false, "/a".to_string()));
    assert_eq!(dal_listing_dir("/a", PathKind::File), (true, "/a/".to_string()));
    assert_eq!(dal_listing_dir("/a", PathKind::NotFound), (false, "/a/".to_string()));
    let now = DateTimeUtc { secs: 99, nsecs: 5 };
    let listed = vec![
        ("a.csv".to_string(), FileMeta { content_length: 10, content_md5: Some("m".to_string()), last_modified: Some(7) }),
        ("b.txt".to_string(), FileMeta { content_length: 20, content_md5: None, last_modified: None }),
    ];
    let all = stage_files_of_listing(listed.clone(), &None, now);
    assert_eq!(all.len(), 2);
    assert_eq!(all[0].size, 10);
    assert_eq!(all[0].md5.as_deref(), Some("m"));
    assert_eq!(all[0].last_modified, DateTimeUtc { secs: 7, nsecs: 0 });
    assert_eq!(all[1].last_modified, now);
    let csv = compile_file_pattern("csv").unwrap();
    let some = stage_files_of_listing(listed, &csv, now);
    assert_eq!(some.len(), 1);
    assert_eq!(some[0].path, "a.csv");
}

#[test]
fn interpreter_texts_and_checks() {
    assert_eq!(describe_stage_query("s1"), "SELECT * FROM system.stages WHERE name = 's1'");
    assert_eq!(internal_stage_path("s1"), "/stage/s1/");
    assert!(check_grant_object_exists(&GrantObject::Global, false).is_ok());
    let t = GrantObject::Table("default".to_string(), "db".to_string(), "t".to_string());
    assert!(check_grant_object_exists(&t, true).is_ok());
    let e = check_grant_object_exists(&t, false).unwrap_err();
    assert_eq!(e.kind, ErrorKind::UnknownTable);
    assert_eq!(e.message, "table db.t not exists");
    let d = GrantObject::Database("default".to_string(), "db".to_string());
    let e = check_grant_object_exists(&d, false).unwrap_err();
    assert_eq!(e.kind, ErrorKind::UnknownDatabase);
    assert_eq!(e.message, "database db not exists");
}
