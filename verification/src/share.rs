//! Shares: a tenant shares a database, and tables in it, with other accounts.
//! The share metadata records what is granted, with which privileges, and to
//! which accounts.
use vstd::prelude::*;

use crate::app_error::WrongShareObject;
use crate::meta_error::MetaError;
use crate::app_error::AppError;
use crate::text::decimal;
use crate::text::chars_lt;
use crate::text::str_lt;
use crate::text::lemma_chars_lt_total;
use crate::text::lemma_chars_lt_transitive;
use crate::text::lemma_chars_lt_irreflexive;
use std::collections::BTreeMap;
use crate::text::push_decimal;
use crate::text::push_str;

verus! {

broadcast use vstd::laws_cmp::group_laws_cmp;

/// A moment in UTC: seconds since the Unix epoch and nanoseconds within the second.
#[derive(PartialEq, Eq, Structural, Clone, Copy, Debug)]
pub struct DateTimeUtc {
    pub secs: i64,
    pub nsecs: u32,
}

/// The name of a share: the tenant that owns it and the share's name.
#[derive(Debug)]
pub struct ShareNameIdent {
    pub tenant: String,
    pub share_name: String,
}

/// How a share name is printed: `'tenant'/'share_name'`.
pub open spec fn share_name_ident_text(n: ShareNameIdent) -> Seq<char> {
    "'"@ + n.tenant@ + "'/'"@ + n.share_name@ + "'"@
}

impl ShareNameIdent {
    /// How the share name is printed.
    pub fn display_text(&self) -> (r: String)
        ensures
            r@ == share_name_ident_text(*self),
    {
        let mut s = String::new();
        push_str(&mut s, "'");
        push_str(&mut s, self.tenant.as_str());
        push_str(&mut s, "'/'");
        push_str(&mut s, self.share_name.as_str());
        push_str(&mut s, "'");
        assert(s@ =~= share_name_ident_text(*self));
        s
    }
}

/// An account that a share is granted to, and the share's id.
#[derive(Debug)]
pub struct ShareAccountNameIdent {
    pub account: String,
    pub share_id: u64,
}

/// How a share account is printed: `'account'/'share_id'`.
pub open spec fn share_account_name_ident_text(n: ShareAccountNameIdent) -> Seq<char> {
    "'"@ + n.account@ + "'/'"@ + decimal(n.share_id as nat) + "'"@
}

impl ShareAccountNameIdent {
    /// How the share account is printed.
    pub fn display_text(&self) -> (r: String)
        ensures
            r@ == share_account_name_ident_text(*self),
    {
        let mut s = String::new();
        push_str(&mut s, "'");
        push_str(&mut s, self.account.as_str());
        push_str(&mut s, "'/'");
        push_decimal(&mut s, self.share_id);
        push_str(&mut s, "'");
        assert(s@ =~= share_account_name_ident_text(*self));
        s
    }
}

/// A request to show a share.
#[derive(Debug)]
pub struct ShowShareReq {
    pub share_name: ShareNameIdent,
}

/// A request to create a share.
#[derive(Debug)]
pub struct CreateShareReq {
    pub if_not_exists: bool,
    pub share_name: ShareNameIdent,
    pub comment: Option<String>,
    pub create_on: DateTimeUtc,
}

/// The reply to creating a share: its id.
#[derive(Debug)]
pub struct CreateShareReply {
    pub share_id: u64,
}

/// A request to drop a share.
#[derive(Debug)]
pub struct DropShareReq {
    pub share_name: ShareNameIdent,
    pub if_exists: bool,
}

/// The reply to dropping a share.
#[derive(Debug)]
pub struct DropShareReply {}

/// A request to grant a share to an account.
#[derive(Debug)]
pub struct AddShareAccountReq {
    pub share_name: ShareNameIdent,
    pub account: String,
    pub share_on: DateTimeUtc,
}

/// The reply to granting a share to an account.
#[derive(Debug)]
pub struct AddShareAccountReply {
    pub share_id: u64,
}

/// A request to take a share from an account.
#[derive(Debug)]
pub struct RemoveShareAccountReq {
    pub account: String,
    pub share_id: u64,
}

/// The reply to taking a share from an account.
#[derive(Debug)]
pub struct RemoveShareAccountReply {}

/// A request to show which accounts a share is granted to.
#[derive(Debug)]
pub struct ShowShareOfReq {
    pub share_name: ShareNameIdent,
}

/// The reply to showing which accounts a share is granted to.
#[derive(Debug)]
pub struct ShowShareOfReply {}

/// An object of a share by name: a database, or a table of a database.
#[derive(Debug)]
pub enum ShareGrantObjectName {
    Database(String),
    Table(String, String),
}

/// How an object name is printed: `Database db` or `Table db/table`.
pub open spec fn share_grant_object_name_text(n: ShareGrantObjectName) -> Seq<char> {
    match n {
        ShareGrantObjectName::Database(db) => "Database "@ + db@,
        ShareGrantObjectName::Table(db, table) => "Table "@ + db@ + "/"@ + table@,
    }
}

impl ShareGrantObjectName {
    /// How the object name is printed.
    pub fn display_text(&self) -> (r: String)
        ensures
            r@ == share_grant_object_name_text(*self),
    {
        let mut s = String::new();
        match self {
            ShareGrantObjectName::Database(db) => {
                push_str(&mut s, "Database ");
                push_str(&mut s, db.as_str());
            },
            ShareGrantObjectName::Table(db, table) => {
                push_str(&mut s, "Table ");
                push_str(&mut s, db.as_str());
                push_str(&mut s, "/");
                push_str(&mut s, table.as_str());
            },
        }
        assert(s@ =~= share_grant_object_name_text(*self));
        s
    }
}

/// An object of a share as the meta service finds it: a database by the
/// sequence number of its metadata and its id, or a table by its database's
/// id, the sequence number of its metadata and its id.
#[derive(PartialEq, Eq, Structural, Clone, Copy, Debug)]
pub enum ShareGrantObjectSeqAndId {
    Database(u64, u64),
    Table(u64, u64, u64),
}

/// A request to grant privileges on an object to a share.
#[derive(Debug)]
pub struct GrantShareObjectReq {
    pub share_name: ShareNameIdent,
    pub object: ShareGrantObjectName,
    pub grant_on: DateTimeUtc,
    pub privilege: ShareGrantObjectPrivilege,
}

/// The reply to granting privileges on an object.
#[derive(Debug)]
pub struct GrantShareObjectReply {}

/// A request to revoke privileges on an object from a share.
#[derive(Debug)]
pub struct RevokeShareObjectReq {
    pub share_name: ShareNameIdent,
    pub object: ShareGrantObjectName,
    pub privilege: ShareGrantObjectPrivilege,
    pub update_on: DateTimeUtc,
}

/// The reply to revoking privileges on an object.
#[derive(Debug)]
pub struct RevokeShareObjectReply {}

/// A request for the objects granted to a share; all of them where no
/// object is named.
#[derive(Debug)]
pub struct GetShareGrantObjectReq {
    pub share_name: ShareNameIdent,
    pub object: Option<ShareGrantObjectName>,
}

/// The reply with the objects granted to a share.
#[derive(Debug)]
pub struct GetShareGrantObjectReply {
    pub share_name: ShareNameIdent,
    pub objects: Vec<ShareGrantEntry>,
}

/// An account that a share is granted to, since when, and since when the
/// account has accepted it.
#[derive(Debug)]
pub struct ShareAccountMeta {
    pub account: String,
    pub share_id: u64,
    pub share_on: DateTimeUtc,
    pub accept_on: Option<DateTimeUtc>,
}

impl ShareAccountMeta {
    /// A share granted to an account at a moment, not accepted yet.
    pub fn new(account: String, share_id: u64, share_on: DateTimeUtc) -> (r: ShareAccountMeta)
        ensures
            r.account@ == account@,
            r.share_id == share_id,
            r.share_on == share_on,
            r.accept_on is None,
    {
        ShareAccountMeta { account, share_id, share_on, accept_on: None }
    }
}

/// The id of a share.
#[derive(PartialEq, Eq, Structural, Clone, Copy, Debug)]
pub struct ShareId {
    pub share_id: u64,
}

/// The id of a share, as the key of the share's name.
#[derive(PartialEq, Eq, Structural, Clone, Copy, Debug)]
pub struct ShareIdToName {
    pub share_id: u64,
}

impl ShareIdToName {
    /// How the id is printed: its decimal digits.
    pub fn display_text(&self) -> (r: String)
        ensures
            r@ == decimal(self.share_id as nat),
    {
        crate::text::u64_to_string(self.share_id)
    }
}

/// An object granted to a share: a database or a table, by id.
#[derive(PartialEq, Eq, Structural, Clone, Copy, Debug)]
pub enum ShareGrantObject {
    Database(u64),
    Table(u64),
}

/// How an object is printed, which is also its key: `db/id` or `table/id`.
pub open spec fn share_grant_object_text(o: ShareGrantObject) -> Seq<char> {
    match o {
        ShareGrantObject::Database(id) => "db/"@ + decimal(id as nat),
        ShareGrantObject::Table(id) => "table/"@ + decimal(id as nat),
    }
}

impl ShareGrantObject {
    /// The object that the meta service found: the database or the table, by id.
    pub open spec fn new_spec(seq_and_id: ShareGrantObjectSeqAndId) -> ShareGrantObject {
        match seq_and_id {
            ShareGrantObjectSeqAndId::Database(_, db_id) => ShareGrantObject::Database(db_id),
            ShareGrantObjectSeqAndId::Table(_, _, table_id) => ShareGrantObject::Table(table_id),
        }
    }

    /// The object that the meta service found: the database or the table, by id.
    pub fn new(seq_and_id: &ShareGrantObjectSeqAndId) -> (r: ShareGrantObject)
        ensures
            r == ShareGrantObject::new_spec(*seq_and_id),
    {
        match seq_and_id {
            ShareGrantObjectSeqAndId::Database(_seq, db_id) => ShareGrantObject::Database(*db_id),
            ShareGrantObjectSeqAndId::Table(_db_id, _seq, table_id) => ShareGrantObject::Table(*table_id),
        }
    }

    /// How the object is printed.
    pub fn display_text(&self) -> (r: String)
        ensures
            r@ == share_grant_object_text(*self),
    {
        let mut s = String::new();
        match self {
            ShareGrantObject::Database(id) => {
                push_str(&mut s, "db/");
                push_decimal(&mut s, *id);
            },
            ShareGrantObject::Table(id) => {
                push_str(&mut s, "table/");
                push_decimal(&mut s, *id);
            },
        }
        assert(s@ =~= share_grant_object_text(*self));
        s
    }
}

/// A privilege on a shared object: usage of a database or schema, reference
/// usage of a database, select on a table or view.
#[derive(PartialEq, Eq, Structural, Clone, Copy, Debug)]
pub enum ShareGrantObjectPrivilege {
    Usage,
    ReferenceUsage,
    Select,
}

impl ShareGrantObjectPrivilege {
    /// The flag of the privilege: 1, 2 and 4.
    pub fn bit(&self) -> (r: u64)
        ensures
            r == match *self {
                ShareGrantObjectPrivilege::Usage => 1u64,
                ShareGrantObjectPrivilege::ReferenceUsage => 2u64,
                ShareGrantObjectPrivilege::Select => 4u64,
            },
    {
        match self {
            ShareGrantObjectPrivilege::Usage => 1,
            ShareGrantObjectPrivilege::ReferenceUsage => 2,
            ShareGrantObjectPrivilege::Select => 4,
        }
    }
}

/// A set of privileges, one flag per privilege.
#[derive(PartialEq, Eq, Structural, Clone, Copy, Debug)]
pub struct SharePrivileges {
    pub usage: bool,
    pub reference_usage: bool,
    pub select: bool,
}

impl SharePrivileges {
    /// Whether the set holds a privilege.
    pub open spec fn has(self, p: ShareGrantObjectPrivilege) -> bool {
        match p {
            ShareGrantObjectPrivilege::Usage => self.usage,
            ShareGrantObjectPrivilege::ReferenceUsage => self.reference_usage,
            ShareGrantObjectPrivilege::Select => self.select,
        }
    }

    /// Whether the set holds no privilege.
    pub open spec fn spec_is_empty(self) -> bool {
        !self.usage && !self.reference_usage && !self.select
    }

    /// The set that holds only the given privilege.
    pub fn from_privilege(p: ShareGrantObjectPrivilege) -> (r: SharePrivileges)
        ensures
            forall|q: ShareGrantObjectPrivilege| r.has(q) == (q == p),
    {
        match p {
            ShareGrantObjectPrivilege::Usage => SharePrivileges { usage: true, reference_usage: false, select: false },
            ShareGrantObjectPrivilege::ReferenceUsage => SharePrivileges { usage: false, reference_usage: true, select: false },
            ShareGrantObjectPrivilege::Select => SharePrivileges { usage: false, reference_usage: false, select: true },
        }
    }

    /// Takes a privilege out of the set.
    pub fn remove(&mut self, p: ShareGrantObjectPrivilege)
        ensures
            forall|q: ShareGrantObjectPrivilege| final(self).has(q) == (old(self).has(q) && q != p),
    {
        match p {
            ShareGrantObjectPrivilege::Usage => self.usage = false,
            ShareGrantObjectPrivilege::ReferenceUsage => self.reference_usage = false,
            ShareGrantObjectPrivilege::Select => self.select = false,
        }
    }

    /// Whether the set holds a privilege.
    pub fn contains(&self, p: ShareGrantObjectPrivilege) -> (r: bool)
        ensures
            r == self.has(p),
    {
        match p {
            ShareGrantObjectPrivilege::Usage => self.usage,
            ShareGrantObjectPrivilege::ReferenceUsage => self.reference_usage,
            ShareGrantObjectPrivilege::Select => self.select,
        }
    }

    /// Whether the set holds no privilege.
    pub fn is_empty(&self) -> (r: bool)
        ensures
            r == self.spec_is_empty(),
            r == (forall|q: ShareGrantObjectPrivilege| !self.has(q)),
    {
        assert(self.has(ShareGrantObjectPrivilege::Usage) == self.usage);
        assert(self.has(ShareGrantObjectPrivilege::ReferenceUsage) == self.reference_usage);
        assert(self.has(ShareGrantObjectPrivilege::Select) == self.select);
        !self.usage && !self.reference_usage && !self.select
    }

    /// The flags of the set, summed.
    pub fn bits(&self) -> (r: u64)
        ensures
            r == (if self.usage { 1u64 } else { 0u64 }) + (if self.reference_usage { 2u64 } else { 0u64 })
                + (if self.select { 4u64 } else { 0u64 }),
    {
        let a: u64 = if self.usage { 1 } else { 0 };
        let b: u64 = if self.reference_usage { 2 } else { 0 };
        let c: u64 = if self.select { 4 } else { 0 };
        a + b + c
    }
}

/// An object granted to a share, the privileges on it, when it was granted
/// and when the grant last changed.
#[derive(PartialEq, Eq, Structural, Clone, Copy, Debug)]
pub struct ShareGrantEntry {
    pub object: ShareGrantObject,
    pub privileges: SharePrivileges,
    pub grant_on: DateTimeUtc,
    pub update_on: Option<DateTimeUtc>,
}

/// The entry of a fresh grant: the object with one privilege.
pub open spec fn new_entry(object: ShareGrantObject, p: ShareGrantObjectPrivilege, grant_on: DateTimeUtc) -> ShareGrantEntry {
    ShareGrantEntry {
        object,
        privileges: SharePrivileges {
            usage: p == ShareGrantObjectPrivilege::Usage,
            reference_usage: p == ShareGrantObjectPrivilege::ReferenceUsage,
            select: p == ShareGrantObjectPrivilege::Select,
        },
        grant_on,
        update_on: None,
    }
}

/// An entry granted again: its privileges become the one privilege.
pub open spec fn regranted(e: ShareGrantEntry, p: ShareGrantObjectPrivilege, grant_on: DateTimeUtc) -> ShareGrantEntry {
    ShareGrantEntry {
        privileges: new_entry(e.object, p, grant_on).privileges,
        update_on: Some(grant_on),
        ..e
    }
}

/// An entry with one privilege revoked.
pub open spec fn revoked(e: ShareGrantEntry, p: ShareGrantObjectPrivilege, update_on: DateTimeUtc) -> ShareGrantEntry {
    ShareGrantEntry {
        privileges: SharePrivileges {
            usage: e.privileges.usage && p != ShareGrantObjectPrivilege::Usage,
            reference_usage: e.privileges.reference_usage && p != ShareGrantObjectPrivilege::ReferenceUsage,
            select: e.privileges.select && p != ShareGrantObjectPrivilege::Select,
        },
        update_on: Some(update_on),
        ..e
    }
}

impl ShareGrantEntry {
    /// A fresh grant of one privilege on an object.
    pub fn new(object: ShareGrantObject, privileges: ShareGrantObjectPrivilege, grant_on: DateTimeUtc) -> (r: ShareGrantEntry)
        ensures
            r == new_entry(object, privileges, grant_on),
    {
        let ps = SharePrivileges::from_privilege(privileges);
        assert(ps == new_entry(object, privileges, grant_on).privileges) by {
            assert(ps.has(ShareGrantObjectPrivilege::Usage) == (privileges == ShareGrantObjectPrivilege::Usage));
            assert(ps.has(ShareGrantObjectPrivilege::ReferenceUsage) == (privileges == ShareGrantObjectPrivilege::ReferenceUsage));
            assert(ps.has(ShareGrantObjectPrivilege::Select) == (privileges == ShareGrantObjectPrivilege::Select));
        }
        ShareGrantEntry { object, privileges: ps, grant_on, update_on: None }
    }

    /// Grants the object again: the privileges become the one privilege, and
    /// the grant is marked as changed at `grant_on`.
    pub fn grant_privileges(&mut self, privileges: ShareGrantObjectPrivilege, grant_on: DateTimeUtc)
        ensures
            *final(self) == regranted(*old(self), privileges, grant_on),
    {
        self.update_on = Some(grant_on);
        let ps = SharePrivileges::from_privilege(privileges);
        assert(ps == new_entry(self.object, privileges, grant_on).privileges) by {
            assert(ps.has(ShareGrantObjectPrivilege::Usage) == (privileges == ShareGrantObjectPrivilege::Usage));
            assert(ps.has(ShareGrantObjectPrivilege::ReferenceUsage) == (privileges == ShareGrantObjectPrivilege::ReferenceUsage));
            assert(ps.has(ShareGrantObjectPrivilege::Select) == (privileges == ShareGrantObjectPrivilege::Select));
        }
        self.privileges = ps;
    }

    /// Revokes a privilege, marks the grant as changed at `update_on`, and
    /// answers whether no privilege is left.
    pub fn revoke_privileges(&mut self, privileges: ShareGrantObjectPrivilege, update_on: DateTimeUtc) -> (r: bool)
        ensures
            *final(self) == revoked(*old(self), privileges, update_on),
            r == final(self).privileges.spec_is_empty(),
    {
        self.update_on = Some(update_on);
        let mut ps = self.privileges;
        ps.remove(privileges);
        assert(ps == revoked(*old(self), privileges, update_on).privileges) by {
            assert(ps.has(ShareGrantObjectPrivilege::Usage) == ps.usage);
            assert(ps.has(ShareGrantObjectPrivilege::ReferenceUsage) == ps.reference_usage);
            assert(ps.has(ShareGrantObjectPrivilege::Select) == ps.select);
        }
        self.privileges = ps;
        self.privileges.is_empty()
    }

    /// The object of the grant.
    pub fn object(&self) -> (r: &ShareGrantObject)
        ensures
            *r == self.object,
    {
        &self.object
    }

    /// The privileges of the grant.
    pub fn privileges(&self) -> (r: &SharePrivileges)
        ensures
            *r == self.privileges,
    {
        &self.privileges
    }

    /// Whether the grant holds a privilege.
    pub fn has_granted_privileges(&self, privileges: ShareGrantObjectPrivilege) -> (r: bool)
        ensures
            r == self.privileges.has(privileges),
    {
        self.privileges.contains(privileges)
    }

    /// How the grant is printed: as its object.
    pub fn display_text(&self) -> (r: String)
        ensures
            r@ == share_grant_object_text(self.object),
    {
        self.object.display_text()
    }
}

/// The identity of a share: its id and the sequence number of its metadata.
#[derive(PartialEq, Eq, Structural, Clone, Copy, Debug)]
pub struct ShareIdent {
    pub share_id: u64,
    pub seq: u64,
}


/// The characters of each account name, in order.
pub open spec fn accounts_view(a: Seq<String>) -> Seq<Seq<char>> {
    Seq::new(a.len(), |i: int| a[i]@)
}

/// Whether names are in strictly increasing order (so each occurs once).
pub open spec fn sorted_names(s: Seq<Seq<char>>) -> bool {
    forall|i: int, j: int| 0 <= i < j < s.len() ==> chars_lt(#[trigger] s[i], #[trigger] s[j])
}

/// The metadata of a share: the database granted to it, the tables of that
/// database granted to it keyed by table id, the accounts it is granted to
/// in the order of their names, a comment, when it was created and when its
/// grants last changed as a whole.
#[derive(Debug)]
pub struct ShareMeta {
    pub database: Option<ShareGrantEntry>,
    pub entries: BTreeMap<u64, ShareGrantEntry>,
    pub accounts: Vec<String>,
    pub comment: Option<String>,
    pub share_on: DateTimeUtc,
    pub update_on: Option<DateTimeUtc>,
}

/// The database grant after a grant of `p` on a database: the existing grant
/// granted again, or a fresh grant.
pub open spec fn granted_database(db: Option<ShareGrantEntry>, object: ShareGrantObject, p: ShareGrantObjectPrivilege, t: DateTimeUtc) -> Option<ShareGrantEntry> {
    match db {
        Some(e) => Some(regranted(e, p, t)),
        None => Some(new_entry(object, p, t)),
    }
}

/// The table grants after a grant of `p` on a table: its grant granted again,
/// or a fresh grant under its id.
pub open spec fn granted_entries(entries: Map<u64, ShareGrantEntry>, id: u64, object: ShareGrantObject, p: ShareGrantObjectPrivilege, t: DateTimeUtc) -> Map<u64, ShareGrantEntry> {
    entries.insert(id, if entries.contains_key(id) { regranted(entries[id], p, t) } else { new_entry(object, p, t) })
}

/// The outcome of revoking `p` on an object: the database grant, the table
/// grants and the share's change time after it, or the printed object that is
/// not the shared database. Revoking the last privilege of the database drops
/// the database and every table grant and marks the share as changed;
/// revoking the last privilege of a table drops that table's grant; revoking
/// on a table that has no grant changes nothing.
pub open spec fn revoke_outcome(
    db: Option<ShareGrantEntry>,
    entries: Map<u64, ShareGrantEntry>,
    update_on: Option<DateTimeUtc>,
    object: ShareGrantObject,
    p: ShareGrantObjectPrivilege,
    t: DateTimeUtc,
) -> Result<(Option<ShareGrantEntry>, Map<u64, ShareGrantEntry>, Option<DateTimeUtc>), Seq<char>> {
    match object {
        ShareGrantObject::Database(_) => match db {
            Some(e) => if e.object == object {
                let e2 = revoked(e, p, t);
                if e2.privileges.spec_is_empty() {
                    Ok((None, Map::empty(), Some(t)))
                } else {
                    Ok((Some(e2), entries, update_on))
                }
            } else {
                Err(share_grant_object_text(object))
            },
            None => Err(share_grant_object_text(object)),
        },
        ShareGrantObject::Table(id) => if entries.contains_key(id) {
            let e2 = revoked(entries[id], p, t);
            if e2.privileges.spec_is_empty() {
                Ok((db, entries.remove(id), update_on))
            } else {
                Ok((db, entries.insert(id, e2), update_on))
            }
        } else {
            Ok((db, entries, update_on))
        },
    }
}

/// Whether a share grants `p` on an object the meta service found: on a
/// table, whether the table's grant holds it; on a database, whether the
/// database grant holds it, an error (the printed object name) if the
/// shared database is another one, and false if no database is shared.
pub open spec fn has_granted_outcome(
    db: Option<ShareGrantEntry>,
    entries: Map<u64, ShareGrantEntry>,
    obj_name: ShareGrantObjectName,
    object: ShareGrantObjectSeqAndId,
    p: ShareGrantObjectPrivilege,
) -> Result<bool, Seq<char>> {
    match object {
        ShareGrantObjectSeqAndId::Database(_, db_id) => match db {
            Some(e) => if e.object != ShareGrantObject::Database(db_id) {
                Err(share_grant_object_name_text(obj_name))
            } else {
                Ok(e.privileges.has(p))
            },
            None => Ok(false),
        },
        ShareGrantObjectSeqAndId::Table(_, _, table_id) => Ok(
            entries.contains_key(table_id) && entries[table_id].privileges.has(p),
        ),
    }
}

/// The grant of an object: none while no database is shared; the database
/// grant if it is of the object; else the table's grant.
pub open spec fn grant_entry_of(db: Option<ShareGrantEntry>, entries: Map<u64, ShareGrantEntry>, object: ShareGrantObject) -> Option<ShareGrantEntry> {
    match db {
        None => None,
        Some(d) => if d.object == object {
            Some(d)
        } else {
            match object {
                ShareGrantObject::Database(_) => None,
                ShareGrantObject::Table(id) => if entries.contains_key(id) {
                    Some(entries[id])
                } else {
                    None
                },
            }
        },
    }
}

impl ShareMeta {
    /// Whether the metadata is consistent: the database grant is of a
    /// database, each table grant is of the table whose id keys it, and the
    /// accounts are in order without repeats.
    pub open spec fn wf(&self) -> bool {
        &&& (self.database matches Some(e) ==> e.object is Database)
        &&& forall|k: u64| #[trigger] self.entries@.contains_key(k) ==> self.entries@[k].object == ShareGrantObject::Table(k)
        &&& sorted_names(accounts_view(self.accounts@))
    }

    /// A share created at `share_on` with a comment and no grants or accounts.
    pub fn new(share_on: DateTimeUtc, comment: Option<String>) -> (r: ShareMeta)
        ensures
            r.wf(),
            r.database is None,
            r.entries@ == Map::<u64, ShareGrantEntry>::empty(),
            r.accounts@.len() == 0,
            r.comment == comment,
            r.share_on == share_on,
            r.update_on is None,
    {
        ShareMeta {
            database: None,
            entries: BTreeMap::new(),
            accounts: Vec::new(),
            comment,
            share_on,
            update_on: None,
        }
    }

    /// The accounts the share is granted to, in the order of their names.
    pub fn get_accounts(&self) -> (r: Vec<String>)
        ensures
            accounts_view(r@) == accounts_view(self.accounts@),
    {
        let mut r: Vec<String> = Vec::new();
        let mut i: usize = 0;
        while i < self.accounts.len()
            invariant
                i <= self.accounts.len(),
                r@.len() == i,
                forall|j: int| 0 <= j < i ==> (#[trigger] r@[j])@ == self.accounts@[j]@,
            decreases self.accounts.len() - i,
        {
            r.push(self.accounts[i].clone());
            i = i + 1;
        }
        assert(accounts_view(r@) =~= accounts_view(self.accounts@));
        r
    }

    /// Whether the share is granted to an account.
    pub fn has_account(&self, account: &String) -> (r: bool)
        ensures
            r == accounts_view(self.accounts@).contains(account@),
    {
        let mut i: usize = 0;
        while i < self.accounts.len()
            invariant
                i <= self.accounts.len(),
                forall|j: int| 0 <= j < i ==> (#[trigger] self.accounts@[j])@ != account@,
            decreases self.accounts.len() - i,
        {
            if self.accounts[i] == *account {
                assert(accounts_view(self.accounts@)[i as int] == account@);
                return true;
            }
            i = i + 1;
        }
        assert forall|j: int| 0 <= j < accounts_view(self.accounts@).len() implies accounts_view(self.accounts@)[j] != account@ by {
            assert(accounts_view(self.accounts@)[j] == self.accounts@[j]@);
        }
        false
    }

    /// Grants the share to an account; an account it is granted to stays once.
    pub fn add_account(&mut self, account: String)
        requires
            old(self).wf(),
        ensures
            final(self).wf(),
            accounts_view(final(self).accounts@).to_set() == accounts_view(old(self).accounts@).to_set().insert(account@),
            final(self).database == old(self).database,
            final(self).entries@ == old(self).entries@,
            final(self).comment == old(self).comment,
            final(self).share_on == old(self).share_on,
            final(self).update_on == old(self).update_on,
    {
        let ghost old_view = accounts_view(self.accounts@);
        let n = self.accounts.len();
        let mut k: usize = 0;
        while k < n && str_lt(self.accounts[k].as_str(), account.as_str())
            invariant
                n == self.accounts@.len(),
                k <= n,
                old_view == accounts_view(self.accounts@),
                forall|j: int| 0 <= j < k ==> chars_lt(#[trigger] old_view[j], account@),
            decreases n - k,
        {
            assert(old_view[k as int] == self.accounts@[k as int]@);
            k = k + 1;
        }
        if k < n && self.accounts[k] == account {
            assert(old_view[k as int] == account@);
            assert(old_view.to_set().insert(account@) =~= old_view.to_set());
            return;
        }
        proof {
            assert forall|j: int| k <= j < n implies chars_lt(account@, #[trigger] old_view[j]) by {
                assert(old_view[k as int] == self.accounts@[k as int]@);
                assert(!chars_lt(old_view[k as int], account@));
                lemma_chars_lt_total(old_view[k as int], account@);
                assert(chars_lt(account@, old_view[k as int]));
                if j > k {
                    lemma_chars_lt_transitive(account@, old_view[k as int], old_view[j]);
                }
            }
        }
        self.accounts.insert(k, account);
        proof {
            let nv = accounts_view(self.accounts@);
            assert(nv =~= old_view.insert(k as int, account@));
            assert forall|i: int, j: int| 0 <= i < j < nv.len() implies chars_lt(#[trigger] nv[i], #[trigger] nv[j]) by {
                if j < k {
                } else if i < k && j == k {
                } else if i < k && j > k {
                    assert(nv[j] == old_view[j - 1]);
                    lemma_chars_lt_transitive(nv[i], nv[k as int], nv[j]);
                } else if i == k {
                    assert(nv[j] == old_view[j - 1]);
                } else {
                    assert(nv[i] == old_view[i - 1] && nv[j] == old_view[j - 1]);
                }
            }
            assert(nv.to_set() =~= old_view.to_set().insert(account@)) by {
                assert forall|x: Seq<char>| nv.to_set().contains(x) <==> old_view.to_set().insert(account@).contains(x) by {
                    if nv.to_set().contains(x) {
                        let i = choose|i: int| 0 <= i < nv.len() && nv[i] == x;
                        if i < k {
                            assert(old_view[i] == x);
                        } else if i > k {
                            assert(old_view[i - 1] == x);
                        }
                    }
                    if old_view.to_set().contains(x) {
                        let i = choose|i: int| 0 <= i < old_view.len() && old_view[i] == x;
                        if i < k {
                            assert(nv[i] == x);
                        } else {
                            assert(nv[i + 1] == x);
                        }
                    }
                    if x == account@ {
                        assert(nv[k as int] == x);
                    }
                }
            }
        }
    }

    /// Takes the share from an account.
    pub fn del_account(&mut self, account: &String)
        requires
            old(self).wf(),
        ensures
            final(self).wf(),
            accounts_view(final(self).accounts@).to_set() == accounts_view(old(self).accounts@).to_set().remove(account@),
            final(self).database == old(self).database,
            final(self).entries@ == old(self).entries@,
            final(self).comment == old(self).comment,
            final(self).share_on == old(self).share_on,
            final(self).update_on == old(self).update_on,
    {
        let ghost old_view = accounts_view(self.accounts@);
        let n = self.accounts.len();
        let mut k: usize = 0;
        while k < n && !(self.accounts[k] == *account)
            invariant
                n == self.accounts@.len(),
                k <= n,
                old_view == accounts_view(self.accounts@),
                forall|j: int| 0 <= j < k ==> #[trigger] old_view[j] != account@,
            decreases n - k,
        {
            assert(old_view[k as int] == self.accounts@[k as int]@);
            k = k + 1;
        }
        if k == n {
            assert(old_view.to_set().remove(account@) =~= old_view.to_set());
            return;
        }
        assert(old_view[k as int] == self.accounts@[k as int]@);
        assert(old_view[k as int] == account@);
        self.accounts.remove(k);
        proof {
            let nv = accounts_view(self.accounts@);
            assert(nv =~= old_view.remove(k as int));
            assert forall|i: int, j: int| 0 <= i < j < nv.len() implies chars_lt(#[trigger] nv[i], #[trigger] nv[j]) by {
                if j < k {
                } else if i < k {
                    assert(nv[j] == old_view[j + 1]);
                } else {
                    assert(nv[i] == old_view[i + 1] && nv[j] == old_view[j + 1]);
                }
            }
            assert forall|i: int| 0 <= i < old_view.len() && i != k implies #[trigger] old_view[i] != account@ by {
                if i < k {
                } else {
                    lemma_chars_lt_irreflexive(account@);
                    assert(chars_lt(old_view[k as int], old_view[i]));
                }
            }
            assert(nv.to_set() =~= old_view.to_set().remove(account@)) by {
                assert forall|x: Seq<char>| nv.to_set().contains(x) <==> old_view.to_set().remove(account@).contains(x) by {
                    if nv.to_set().contains(x) {
                        let i = choose|i: int| 0 <= i < nv.len() && nv[i] == x;
                        if i < k {
                            assert(old_view[i] == x);
                        } else {
                            assert(old_view[i + 1] == x);
                        }
                    }
                    if old_view.to_set().remove(account@).contains(x) {
                        let i = choose|i: int| 0 <= i < old_view.len() && old_view[i] == x;
                        assert(i != k);
                        if i < k {
                            assert(nv[i] == x);
                        } else {
                            assert(nv[i - 1] == x);
                        }
                    }
                }
            }
        }
    }

    /// The grant of an object (see `grant_entry_of`).
    pub fn get_grant_entry(&self, object: ShareGrantObject) -> (r: Option<ShareGrantEntry>)
        ensures
            r == grant_entry_of(self.database, self.entries@, object),
    {
        let database = match &self.database {
            Some(d) => *d,
            None => return None,
        };
        if database.object == object {
            return Some(database);
        }
        match object {
            ShareGrantObject::Database(_db_id) => None,
            ShareGrantObject::Table(table_id) => match self.entries.get(&table_id) {
                Some(e) => Some(*e),
                None => None,
            },
        }
    }

    /// Grants `privileges` on an object, at `grant_on`: the database grant
    /// becomes the one privilege (a fresh grant if there is none), or the
    /// table's grant does (a fresh grant under the table's id if it has none).
    pub fn grant_object_privileges(&mut self, object: ShareGrantObject, privileges: ShareGrantObjectPrivilege, grant_on: DateTimeUtc)
        requires
            old(self).wf(),
        ensures
            final(self).wf(),
            match object {
                ShareGrantObject::Database(_) => {
                    &&& final(self).database == granted_database(old(self).database, object, privileges, grant_on)
                    &&& final(self).entries@ == old(self).entries@
                },
                ShareGrantObject::Table(id) => {
                    &&& final(self).database == old(self).database
                    &&& final(self).entries@ == granted_entries(old(self).entries@, id, object, privileges, grant_on)
                },
            },
            accounts_view(final(self).accounts@) == accounts_view(old(self).accounts@),
            final(self).comment == old(self).comment,
            final(self).share_on == old(self).share_on,
            final(self).update_on == old(self).update_on,
    {
        match object {
            ShareGrantObject::Database(_db_id) => {
                match &mut self.database {
                    Some(db) => {
                        db.grant_privileges(privileges, grant_on);
                    },
                    None => {
                        self.database = Some(ShareGrantEntry::new(object, privileges, grant_on));
                    },
                }
            },
            ShareGrantObject::Table(table_id) => {
                let existing = match self.entries.get(&table_id) {
                    Some(e) => Some(*e),
                    None => None,
                };
                match existing {
                    Some(e) => {
                        let mut entry = e;
                        entry.grant_privileges(privileges, grant_on);
                        self.entries.insert(table_id, entry);
                    },
                    None => {
                        let entry = ShareGrantEntry::new(object, privileges, grant_on);
                        self.entries.insert(table_id, entry);
                    },
                }
            },
        }
    }

    /// Revokes `privileges` on an object at `update_on` (see `revoke_outcome`);
    /// revoking on a database that is not the shared one is a
    /// `WrongShareObject` error that names the object, and changes nothing.
    pub fn revoke_object_privileges(&mut self, object: ShareGrantObject, privileges: ShareGrantObjectPrivilege, update_on: DateTimeUtc) -> (r: Result<(), MetaError>)
        requires
            old(self).wf(),
        ensures
            final(self).wf(),
            match revoke_outcome(old(self).database, old(self).entries@, old(self).update_on, object, privileges, update_on) {
                Ok((d, m, u)) => {
                    &&& r is Ok
                    &&& final(self).database == d
                    &&& final(self).entries@ == m
                    &&& final(self).update_on == u
                },
                Err(name) => {
                    &&& (r matches Err(MetaError::AppError(AppError::WrongShareObject(w))) && w.obj_name@ == name)
                    &&& final(self).database == old(self).database
                    &&& final(self).entries@ == old(self).entries@
                    &&& final(self).update_on == old(self).update_on
                },
            },
            accounts_view(final(self).accounts@) == accounts_view(old(self).accounts@),
            final(self).comment == old(self).comment,
            final(self).share_on == old(self).share_on,
    {
        match object {
            ShareGrantObject::Database(_db_id) => {
                let current = match &self.database {
                    Some(e) => *e,
                    None => {
                        let key = object.display_text();
                        return Err(MetaError::AppError(AppError::WrongShareObject(WrongShareObject { obj_name: key })));
                    },
                };
                if object == current.object {
                    let mut entry = current;
                    if entry.revoke_privileges(privileges, update_on) {
                        self.database = None;
                        self.entries.clear();
                        self.update_on = Some(update_on);
                    } else {
                        self.database = Some(entry);
                    }
                } else {
                    let key = object.display_text();
                    return Err(MetaError::AppError(AppError::WrongShareObject(WrongShareObject { obj_name: key })));
                }
            },
            ShareGrantObject::Table(table_id) => {
                let existing = match self.entries.get(&table_id) {
                    Some(e) => *e,
                    None => return Ok(()),
                };
                let mut entry = existing;
                if entry.revoke_privileges(privileges, update_on) {
                    self.entries.remove(&table_id);
                } else {
                    self.entries.insert(table_id, entry);
                }
            },
        }
        Ok(())
    }

    /// Whether the share grants `privileges` on an object the meta service
    /// found (see `has_granted_outcome`); a database that is not the shared
    /// one is a `WrongShareObject` error that names it by `obj_name`.
    pub fn has_granted_privileges(&self, obj_name: &ShareGrantObjectName, object: &ShareGrantObjectSeqAndId, privileges: ShareGrantObjectPrivilege) -> (r: Result<bool, MetaError>)
        requires
            self.wf(),
        ensures
            match has_granted_outcome(self.database, self.entries@, *obj_name, *object, privileges) {
                Ok(b) => r == Ok::<bool, MetaError>(b),
                Err(name) => r matches Err(MetaError::AppError(AppError::WrongShareObject(w))) && w.obj_name@ == name,
            },
    {
        match object {
            ShareGrantObjectSeqAndId::Database(_seq, db_id) => match &self.database {
                Some(db) => match db.object {
                    ShareGrantObject::Database(self_db_id) => {
                        if self_db_id != *db_id {
                            let name = obj_name.display_text();
                            Err(MetaError::AppError(AppError::WrongShareObject(WrongShareObject { obj_name: name })))
                        } else {
                            Ok(db.has_granted_privileges(privileges))
                        }
                    },
                    ShareGrantObject::Table(_) => {
                        assert(false);
                        Ok(false)
                    },
                },
                None => Ok(false),
            },
            ShareGrantObjectSeqAndId::Table(_db_id, _table_seq, table_id) => {
                match self.entries.get(table_id) {
                    Some(entry) => Ok(entry.has_granted_privileges(privileges)),
                    None => Ok(false),
                }
            },
        }
    }
}


/// The reply to showing a share: its name, id, metadata and accounts.
#[derive(Debug)]
pub struct ShowShareReply {
    pub share_name: ShareNameIdent,
    pub share_id: u64,
    pub share_meta: ShareMeta,
    pub share_account_meta: Vec<ShareAccountMeta>,
}

/// A share: its identity, its name and its metadata.
#[derive(Debug)]
pub struct ShareInfo {
    pub ident: ShareIdent,
    pub name_ident: ShareNameIdent,
    pub meta: ShareMeta,
}

/// Granting a privilege on the shared database makes the share hold exactly
/// that privilege on it.
pub proof fn law_grant_database_then_granted(
    db: Option<ShareGrantEntry>,
    entries: Map<u64, ShareGrantEntry>,
    db_id: u64,
    seq: u64,
    name: ShareGrantObjectName,
    p: ShareGrantObjectPrivilege,
    q: ShareGrantObjectPrivilege,
    t: DateTimeUtc,
)
    requires
        db matches Some(e) ==> e.object == ShareGrantObject::Database(db_id),
    ensures
        has_granted_outcome(
            granted_database(db, ShareGrantObject::Database(db_id), p, t),
            entries,
            name,
            ShareGrantObjectSeqAndId::Database(seq, db_id),
            q,
        ) == Ok::<bool, Seq<char>>(q == p),
{
}

/// Granting a privilege on a table makes the share hold exactly that
/// privilege on the table.
pub proof fn law_grant_table_then_granted(
    db: Option<ShareGrantEntry>,
    entries: Map<u64, ShareGrantEntry>,
    db_id: u64,
    seq: u64,
    table_id: u64,
    name: ShareGrantObjectName,
    p: ShareGrantObjectPrivilege,
    q: ShareGrantObjectPrivilege,
    t: DateTimeUtc,
)
    ensures
        has_granted_outcome(
            db,
            granted_entries(entries, table_id, ShareGrantObject::Table(table_id), p, t),
            name,
            ShareGrantObjectSeqAndId::Table(db_id, seq, table_id),
            q,
        ) == Ok::<bool, Seq<char>>(q == p),
{
}

/// After a privilege is revoked on an object, the share no longer holds it
/// there: on a table, and on the shared database.
pub proof fn law_revoke_then_not_granted(
    db: Option<ShareGrantEntry>,
    entries: Map<u64, ShareGrantEntry>,
    update_on: Option<DateTimeUtc>,
    object: ShareGrantObject,
    found: ShareGrantObjectSeqAndId,
    name: ShareGrantObjectName,
    p: ShareGrantObjectPrivilege,
    t: DateTimeUtc,
)
    requires
        db matches Some(e) ==> e.object is Database,
        forall|k: u64| #[trigger] entries.contains_key(k) ==> entries[k].object == ShareGrantObject::Table(k),
        object == ShareGrantObject::new_spec(found),
        revoke_outcome(db, entries, update_on, object, p, t) is Ok,
    ensures
        ({
            let (d, m, u) = revoke_outcome(db, entries, update_on, object, p, t)->Ok_0;
            has_granted_outcome(d, m, name, found, p) == Ok::<bool, Seq<char>>(false)
        }),
{
}

/// Revoking the last privilege on the shared database drops the database
/// grant and every table grant, and marks the share as changed.
pub proof fn law_revoke_last_database_privilege_clears(
    e: ShareGrantEntry,
    entries: Map<u64, ShareGrantEntry>,
    update_on: Option<DateTimeUtc>,
    p: ShareGrantObjectPrivilege,
    t: DateTimeUtc,
)
    requires
        e.object is Database,
        forall|q: ShareGrantObjectPrivilege| #[trigger] e.privileges.has(q) ==> q == p,
    ensures
        revoke_outcome(Some(e), entries, update_on, e.object, p, t) == Ok::<(Option<ShareGrantEntry>, Map<u64, ShareGrantEntry>, Option<DateTimeUtc>), Seq<char>>((None, Map::empty(), Some(t))),
{
    assert(e.privileges.has(ShareGrantObjectPrivilege::Usage) == e.privileges.usage);
    assert(e.privileges.has(ShareGrantObjectPrivilege::ReferenceUsage) == e.privileges.reference_usage);
    assert(e.privileges.has(ShareGrantObjectPrivilege::Select) == e.privileges.select);
}

} // verus!
