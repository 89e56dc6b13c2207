use databend_common::app_error::AppError;
use databend_common::meta_error::MetaError;
use databend_common::share::DateTimeUtc;
use databend_common::share::ShareGrantEntry;
use databend_common::share::ShareGrantObject;
use databend_common::share::ShareGrantObjectName;
use databend_common::share::ShareGrantObjectPrivilege;
use databend_common::share::ShareGrantObjectSeqAndId;
use databend_common::share::ShareMeta;
use databend_common::share::ShareNameIdent;
use databend_common::share::ShareAccountNameIdent;
use databend_common::share::SharePrivileges;

fn at(secs: i64) -> DateTimeUtc {
    DateTimeUtc { secs, nsecs: 0 }
}

#[test]
fn share_texts() {
    let n = ShareNameIdent { tenant: "t".to_string(), share_name: "s".to_string() };
    assert_eq!(n.display_text(), "'t'/'s'");
    let a = ShareAccountNameIdent { account: "acc".to_string(), share_id: 3 };
    assert_eq!(a.display_text(), "'acc'/'3'");
    assert_eq!(ShareGrantObjectName::Database("db".to_string()).display_text(), "Database db");
    assert_eq!(
        ShareGrantObjectName::Table("db".to_string(), "t".to_string()).display_text(),
        "Table db/t"
    );
    assert_eq!(ShareGrantObject::Database(5).display_text(), "db/5");
    assert_eq!(ShareGrantObject::Table(6).display_text(), "table/6");
}

#[test]
fn grant_object_from_seq_and_id() {
    assert_eq!(ShareGrantObject::new(&ShareGrantObjectSeqAndId::Database(1, 2)), ShareGrantObject::Database(2));
    assert_eq!(ShareGrantObject::new(&ShareGrantObjectSeqAndId::Table(1, 2, 3)), ShareGrantObject::Table(3));
}

#[test]
fn privileges_as_bits() {
    let mut p = SharePrivileges::from_privilege(ShareGrantObjectPrivilege::Select);
    assert!(p.contains(ShareGrantObjectPrivilege::Select));
    assert!(!p.contains(ShareGrantObjectPrivilege::Usage));
    assert_eq!(p.bits(), ShareGrantObjectPrivilege::Select.bit());
    p.remove(ShareGrantObjectPrivilege::Select);
    assert!(p.is_empty());
    assert_eq!(ShareGrantObjectPrivilege::Usage.bit(), 1);
    assert_eq!(ShareGrantObjectPrivilege::ReferenceUsage.bit(), 2);
    assert_eq!(ShareGrantObjectPrivilege::Select.bit(), 4);
}

#[test]
fn grant_entry_grant_and_revoke() {
    let mut e = ShareGrantEntry::new(ShareGrantObject::Table(1), ShareGrantObjectPrivilege::Select, at(10));
    assert!(e.has_granted_privileges(ShareGrantObjectPrivilege::Select));
    // a grant replaces the privileges and records when
    e.grant_privileges(ShareGrantObjectPrivilege::Usage, at(20));
    assert_eq!(e.grant_on, at(10));
    assert_eq!(e.update_on, Some(at(20)));
    assert!(e.has_granted_privileges(ShareGrantObjectPrivilege::Usage));
    assert!(!e.has_granted_privileges(ShareGrantObjectPrivilege::Select));
    assert!(!e.revoke_privileges(ShareGrantObjectPrivilege::Select, at(30)));
    assert_eq!(e.update_on, Some(at(30)));
    assert!(e.revoke_privileges(ShareGrantObjectPrivilege::Usage, at(40)));
}

#[test]
fn share_meta_grants() {
    let mut m = ShareMeta::new(at(1), Some("c".to_string()));
    m.grant_object_privileges(ShareGrantObject::Database(7), ShareGrantObjectPrivilege::Usage, at(2));
    m.grant_object_privileges(ShareGrantObject::Table(9), ShareGrantObjectPrivilege::Select, at(3));
    let db_name = ShareGrantObjectName::Database("db".to_string());
    let t_name = ShareGrantObjectName::Table("db".to_string(), "t".to_string());
    let db = ShareGrantObjectSeqAndId::Database(0, 7);
    let t = ShareGrantObjectSeqAndId::Table(7, 0, 9);
    assert!(matches!(m.has_granted_privileges(&db_name, &db, ShareGrantObjectPrivilege::Usage), Ok(true)));
    assert!(matches!(m.has_granted_privileges(&t_name, &t, ShareGrantObjectPrivilege::Select), Ok(true)));
    assert!(matches!(m.has_granted_privileges(&t_name, &t, ShareGrantObjectPrivilege::Usage), Ok(false)));
    // another database is the wrong object
    let other = ShareGrantObjectSeqAndId::Database(0, 8);
    match m.has_granted_privileges(&db_name, &other, ShareGrantObjectPrivilege::Usage) {
        Err(MetaError::AppError(AppError::WrongShareObject(w))) => assert_eq!(w.obj_name, "Database db"),
        other => panic!("unexpected {:?}", other),
    }
    assert!(m.get_grant_entry(ShareGrantObject::Table(9)).is_some());
    assert!(m.get_grant_entry(ShareGrantObject::Table(10)).is_none());

    // revoking the table's only privilege removes its entry
    assert!(m.revoke_object_privileges(ShareGrantObject::Table(9), ShareGrantObjectPrivilege::Select, at(4)).is_ok());
    assert!(m.get_grant_entry(ShareGrantObject::Table(9)).is_none());
    // a table never granted: nothing to do
    assert!(m.revoke_object_privileges(ShareGrantObject::Table(11), ShareGrantObjectPrivilege::Select, at(4)).is_ok());
    // revoking on another database is an error
    match m.revoke_object_privileges(ShareGrantObject::Database(8), ShareGrantObjectPrivilege::Usage, at(5)) {
        Err(MetaError::AppError(AppError::WrongShareObject(w))) => assert_eq!(w.obj_name, "db/8"),
        other => panic!("unexpected {:?}", other),
    }
    // revoking the database's last privilege clears the grants
    m.grant_object_privileges(ShareGrantObject::Table(12), ShareGrantObjectPrivilege::Select, at(6));
    assert!(m.revoke_object_privileges(ShareGrantObject::Database(7), ShareGrantObjectPrivilege::Usage, at(7)).is_ok());
    assert!(m.database.is_none());
    assert!(m.entries.is_empty());
    assert_eq!(m.update_on, Some(at(7)));
}

#[test]
fn share_meta_accounts_stay_sorted_and_unique() {
    let mut m = ShareMeta::new(at(1), None);
    m.add_account("b".to_string());
    m.add_account("a".to_string());
    m.add_account("c".to_string());
    m.add_account("b".to_string());
    assert_eq!(m.get_accounts(), vec!["a", "b", "c"]);
    assert!(m.has_account(&"b".to_string()));
    m.del_account(&"b".to_string());
    m.del_account(&"x".to_string());
    assert_eq!(m.get_accounts(), vec!["a", "c"]);
    assert!(!m.has_account(&"b".to_string()));
}
