use databend_common::app_error::AppError;
use databend_common::app_error::AppErrorMessage;
use databend_common::app_error::DatabaseAlreadyExists;
use databend_common::app_error::DropDbWithDropTime;
use databend_common::app_error::ShareAccountAlreadyExists;
use databend_common::app_error::TableAlreadyExists;
use databend_common::app_error::TableVersionMismatched;
use databend_common::app_error::TxnRetryMaxTimes;
use databend_common::app_error::UnknownDatabaseId;
use databend_common::app_error::UnknownShareAccount;
use databend_common::app_error::UnknownTable;
use databend_common::app_error::WrongShareObject;
use databend_common::error_code::ErrorCode;
use databend_common::error_code::ErrorKind;
use databend_common::match_seq::MatchSeq;
use databend_common::meta_error::endpoints_non_empty;
use databend_common::meta_error::map_error_to_meta_error_text;
use databend_common::meta_error::MetaError;
use databend_common::meta_error::ToMetaError;
use databend_common::meta_storage_errors::map_error_to_meta_storage_error_text;
use databend_common::meta_storage_errors::MetaStorageError;
use databend_common::meta_storage_errors::ToMetaStorageError;

#[test]
fn app_error_texts() {
    let e = DatabaseAlreadyExists::new("db1", "create db");
    assert_eq!(e.display_text(), "DatabaseAlreadyExists: `db1` while `create db`");
    assert_eq!(e.message(), "Database 'db1' already exists");
    let e = TableAlreadyExists::new("t1", "create table");
    assert_eq!(e.message(), "Table 't1' already exists");
    let e = DropDbWithDropTime::new("db2");
    assert_eq!(e.message(), "Drop db 'db2' with drop_on time");
    let e = TableVersionMismatched::new(7, MatchSeq::GE(3), 2, "upsert");
    assert_eq!(e.display_text(), "TableVersionMismatched: 7 expect `>= 3` but `2`  while `upsert`");
    // its message is its text
    assert_eq!(e.message(), e.display_text());
    let e = UnknownShareAccount::new("acc", 9, "get");
    assert_eq!(e.display_text(), "UnknownShareAccount: acc 9 while get");
    assert_eq!(e.message(), "Unknown share account for (acc,9)");
    let e = ShareAccountAlreadyExists::new("s", "acc", "add");
    assert_eq!(e.message(), "Share account for (s,acc) already exists");
    let e = WrongShareObject::new("t");
    assert_eq!(e.message(), " t does not belong to the database that is being shared");
    let e = TxnRetryMaxTimes::new("upsert", 10);
    assert_eq!(e.display_text(), "TxnRetryMaxTimes: Txn upsert has retry 10 times, abort.");
    assert_eq!(e.message(), "TxnRetryMaxTimes: Txn upsert has retry 10 times");
    let e = UnknownDatabaseId::new(5, "get_db".to_string());
    assert_eq!(e.display_text(), "UnknownDatabaseId: `5` while `get_db`");
}

#[test]
fn match_seq_texts() {
    let mut s = String::new();
    MatchSeq::Any.push_text(&mut s);
    assert_eq!(s, "is any value");
    let mut s = String::new();
    MatchSeq::Exact(3).push_text(&mut s);
    assert_eq!(s, "== 3");
}

#[test]
fn app_error_converts_to_its_error_code() {
    let e = AppError::UnknownTable(UnknownTable::new("t", "get_table"));
    assert_eq!(e.display_text(), "UnknownTable: `t` while `get_table`");
    let c: ErrorCode = e.to_error_code();
    assert_eq!(c.kind, ErrorKind::UnknownTable);
    assert_eq!(c.message, "Unknown table 't'");
    let c = AppError::TxnRetryMaxTimes(TxnRetryMaxTimes::new("op", 3)).to_error_code();
    assert_eq!(c.kind, ErrorKind::TxnRetryMaxTimes);
    assert_eq!(c.message, "TxnRetryMaxTimes: Txn op has retry 3 times");
}

#[test]
fn meta_errors_convert_to_meta_service_errors() {
    let c = MetaError::MetaStoreAlreadyExists(3).to_error_code();
    assert_eq!(c.kind, ErrorKind::MetaServiceError);
    assert_eq!(c.message, "meta store already exists: 3");
    let c = MetaError::MetaStoreNotFound.to_error_code();
    assert_eq!(c.message, "MetaStoreNotFound");
    let c = MetaError::InvalidConfig("bad".to_string()).to_error_code();
    assert_eq!(c.kind, ErrorKind::MetaServiceError);
    assert_eq!(c.message, "bad");
    let c = MetaError::AppError(AppError::DatabaseAlreadyExists(DatabaseAlreadyExists::new("d", "c")))
        .to_error_code();
    assert_eq!(c.kind, ErrorKind::DatabaseAlreadyExists);
    assert_eq!(c.message, "Database 'd' already exists");
    let c = MetaError::MetaStorageError(MetaStorageError::TransactionConflict).to_error_code();
    assert_eq!(c.message, "Conflict when execute transaction, just retry");
}

#[test]
fn storage_errors() {
    let e = MetaStorageError::Damaged("bad block".to_string());
    assert_eq!(e.display_text(), "bad block");
    let c = MetaStorageError::SledError("io".to_string()).to_error_code();
    assert_eq!(c.kind, ErrorKind::MetaStorageError);
    assert_eq!(map_error_to_meta_storage_error_text("read", "eof"), "meta storage error: read, cause: eof");
}

#[test]
fn map_error_texts() {
    assert_eq!(map_error_to_meta_error_text("load", "broken"), "load, cause: broken");
    let r: Result<u8, String> = Err("broken".to_string());
    let m = r.map_error_to_meta_error(MetaError::MetaServiceError, || "load");
    match m {
        Err(MetaError::MetaServiceError(s)) => assert_eq!(s, "load, cause: broken"),
        other => panic!("unexpected {:?}", other),
    }
    let ok: Result<u8, String> = Ok(3);
    assert!(matches!(ok.map_error_to_meta_error(MetaError::MetaServiceError, || "load"), Ok(3)));
}

#[test]
fn endpoints_must_not_be_empty() {
    assert!(endpoints_non_empty(&["a".to_string()]).is_ok());
    match endpoints_non_empty(&[]) {
        Err(MetaError::InvalidConfig(s)) => assert_eq!(s, "endpoints is empty"),
        other => panic!("unexpected {:?}", other),
    }
}

#[test]
fn map_error_to_meta_storage_error_wraps_the_cause() {
    let r: Result<(), String> = Err("eof".to_string());
    match r.map_error_to_meta_storage_error(MetaStorageError::SledError, || "read") {
        Err(MetaStorageError::SledError(s)) => assert_eq!(s, "meta storage error: read, cause: eof"),
        other => panic!("unexpected {:?}", other),
    }
}
