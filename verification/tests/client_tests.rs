use databend_common::error_code::ErrorCode;
use databend_common::error_code::ErrorKind;
use databend_common::meta_client::make_client;
use databend_common::meta_client::worker_answer;
use databend_common::meta_client::AttemptOutcome;
use databend_common::meta_client::ClientRequestKind;
use databend_common::meta_client::Response;
use databend_common::meta_client::ServiceOutcome;
use databend_common::meta_error::MetaError;
use databend_common::share::DateTimeUtc;
use databend_common::stage_files::list_files_from_dal;
use databend_common::stage_files::FileMeta;
use databend_common::stage_files::PathLookup;

fn strings(xs: &[&str]) -> Vec<String> {
    xs.iter().map(|x| x.to_string()).collect()
}

#[test]
fn worker_answers_with_the_kind_of_the_request() {
    match worker_answer(ClientRequestKind::Upsert, ServiceOutcome::Reply(Ok(5u8))) {
        Ok(Response::Upsert(5)) => {}
        other => panic!("{:?}", other),
    }
    match worker_answer(ClientRequestKind::PrefixList, ServiceOutcome::Reply(Ok(1u8))) {
        Ok(Response::PrefixList(1)) => {}
        other => panic!("{:?}", other),
    }
    match worker_answer::<u8>(ClientRequestKind::Txn, ServiceOutcome::Reply(Err(MetaError::Fatal("x".to_string())))) {
        Err(MetaError::Fatal(s)) => assert_eq!(s, "x"),
        other => panic!("{:?}", other),
    }
    match worker_answer::<u8>(ClientRequestKind::GetEndpoints, ServiceOutcome::Endpoints(strings(&["a:1", "b:2"]))) {
        Ok(Response::GetEndpoints(eps)) => assert_eq!(eps, strings(&["a:1", "b:2"])),
        other => panic!("{:?}", other),
    }
}

#[test]
fn make_client_takes_the_first_endpoint_that_connects() {
    let eps = strings(&["a", "b", "c"]);
    let unhealthy = vec![false, true, false];
    let outcomes = vec![AttemptOutcome::Failed(MetaError::Fatal("a down".to_string())), AttemptOutcome::Connected(vec![7, 8])];
    let (r, marked) = make_client(eps.clone(), &unhealthy, outcomes);
    assert_eq!(r.unwrap().token, vec![7, 8]);
    assert_eq!(marked, strings(&["a"]));

    let outcomes = vec![
        AttemptOutcome::Failed(MetaError::Fatal("a down".to_string())),
        AttemptOutcome::Failed(MetaError::Fatal("c down".to_string())),
    ];
    let (r, marked) = make_client(eps.clone(), &unhealthy, outcomes);
    match r {
        Err(MetaError::Fatal(s)) => assert_eq!(s, "c down"),
        other => panic!("{:?}", other),
    }
    assert_eq!(marked, strings(&["a", "c"]));

    let (r, marked) = make_client(strings(&["a", "b"]), &vec![true, true], vec![]);
    match r {
        Err(MetaError::InvalidConfig(s)) => assert_eq!(s, "endpoints is empty"),
        other => panic!("{:?}", other),
    }
    assert!(marked.is_empty());

    let (r, _) = make_client(strings(&["only"]), &vec![true], vec![AttemptOutcome::Connected(vec![1])]);
    assert_eq!(r.unwrap().token, vec![1]);
}

fn meta(len: u64) -> FileMeta {
    FileMeta { content_length: len, content_md5: None, last_modified: Some(100) }
}

#[test]
fn dal_listing_puts_the_file_first_then_the_walk() {
    let now = DateTimeUtc { secs: 1, nsecs: 0 };
    let walked = vec![("data/x.csv/part1.csv".to_string(), meta(2)), ("data/x.csv/notes.txt".to_string(), meta(3))];
    let files = list_files_from_dal("data/x.csv", PathLookup::File(meta(1)), Some(walked.clone()), "", now).unwrap();
    let paths: Vec<String> = files.iter().map(|f| f.path.clone()).collect();
    assert_eq!(paths, strings(&["data/x.csv", "data/x.csv/part1.csv", "data/x.csv/notes.txt"]));
    assert_eq!(files[0].size, 1);
    assert_eq!(files[0].last_modified, DateTimeUtc { secs: 100, nsecs: 0 });

    let files = list_files_from_dal("data/x.csv", PathLookup::File(meta(1)), Some(walked), ".*csv$", now).unwrap();
    let paths: Vec<String> = files.iter().map(|f| f.path.clone()).collect();
    assert_eq!(paths, strings(&["data/x.csv", "data/x.csv/part1.csv"]));

    let files = list_files_from_dal("data/", PathLookup::NotFound, None, "", now).unwrap();
    assert!(files.is_empty());

    let e = list_files_from_dal("data/", PathLookup::Dir, None, "(", now).unwrap_err();
    assert_eq!(e.kind, ErrorKind::SyntaxException);
    assert!(e.message.starts_with("Pattern format invalid, got:(, error:"));

    let failed = ErrorCode { kind: ErrorKind::LogicalError, message: "denied".to_string() };
    let e = list_files_from_dal("data/", PathLookup::Failed(failed), None, "(", now).unwrap_err();
    assert_eq!(e.kind, ErrorKind::LogicalError);
    assert_eq!(e.message, "denied");
}
