//! The application errors of the meta service, their texts and messages, and the error codes they convert to.
use vstd::prelude::*;

use crate::error_code::ErrorCode;
use crate::error_code::ErrorKind;
use crate::error_code::ErrorView;
use crate::match_seq::MatchSeq;
use crate::match_seq::match_seq_text;
use crate::text::decimal;
use crate::text::push_decimal;
use crate::text::push_str;

verus! {

/// The message of an application error, as users are shown it.
pub trait AppErrorMessage {
    /// The characters of the message.
    spec fn spec_message(&self) -> Seq<char>;

    /// The message.
    fn message(&self) -> (r: String)
        ensures
            r@ == self.spec_message(),
    ;
}

/// The error DatabaseAlreadyExists; its text reads "DatabaseAlreadyExists: `{db_name}` while `{context}`".
#[derive(Debug)]
pub struct DatabaseAlreadyExists {
    pub db_name: String,
    pub context: String,
}

/// The text of `DatabaseAlreadyExists`.
pub open spec fn database_already_exists_text(e: DatabaseAlreadyExists) -> Seq<char> {
    "DatabaseAlreadyExists: `"@ + e.db_name@ + "` while `"@ + e.context@ + "`"@
}

impl DatabaseAlreadyExists {
    /// The error about the given values.
    pub fn new(db_name: &str, context: &str) -> (r: DatabaseAlreadyExists)
        ensures
            r.db_name@ == db_name@,
            r.context@ == context@,
    {
        DatabaseAlreadyExists { db_name: String::from_str(db_name), context: String::from_str(context) }
    }

    /// The text of the error.
    pub fn display_text(&self) -> (r: String)
        ensures
            r@ == database_already_exists_text(*self),
    {
        let mut s = String::new();
        push_str(&mut s, "DatabaseAlreadyExists: `");
        push_str(&mut s, self.db_name.as_str());
        push_str(&mut s, "` while `");
        push_str(&mut s, self.context.as_str());
        push_str(&mut s, "`");
        assert(s@ =~= database_already_exists_text(*self));
        s
    }
}

impl AppErrorMessage for DatabaseAlreadyExists {
    open spec fn spec_message(&self) -> Seq<char> {
        "Database '"@ + self.db_name@ + "' already exists"@
    }

    fn message(&self) -> (r: String) {
        let mut s = String::new();
        push_str(&mut s, "Database '");
        push_str(&mut s, self.db_name.as_str());
        push_str(&mut s, "' already exists");
        assert(s@ =~= self.spec_message());
        s
    }
}

/// The error CreateDatabaseWithDropTime; its text reads "CreateDatabaseWithDropTime: `{db_name}` with drop_on".
#[derive(Debug)]
pub struct CreateDatabaseWithDropTime {
    pub db_name: String,
}

/// The text of `CreateDatabaseWithDropTime`.
pub open spec fn create_database_with_drop_time_text(e: CreateDatabaseWithDropTime) -> Seq<char> {
    "CreateDatabaseWithDropTime: `"@ + e.db_name@ + "` with drop_on"@
}

impl CreateDatabaseWithDropTime {
    /// The error about the given values.
    pub fn new(db_name: &str) -> (r: CreateDatabaseWithDropTime)
        ensures
            r.db_name@ == db_name@,
    {
        CreateDatabaseWithDropTime { db_name: String::from_str(db_name) }
    }

    /// The text of the error.
    pub fn display_text(&self) -> (r: String)
        ensures
            r@ == create_database_with_drop_time_text(*self),
    {
        let mut s = String::new();
        push_str(&mut s, "CreateDatabaseWithDropTime: `");
        push_str(&mut s, self.db_name.as_str());
        push_str(&mut s, "` with drop_on");
        assert(s@ =~= create_database_with_drop_time_text(*self));
        s
    }
}

impl AppErrorMessage for CreateDatabaseWithDropTime {
    open spec fn spec_message(&self) -> Seq<char> {
        "Create database '"@ + self.db_name@ + "' with drop time"@
    }

    fn message(&self) -> (r: String) {
        let mut s = String::new();
        push_str(&mut s, "Create database '");
        push_str(&mut s, self.db_name.as_str());
        push_str(&mut s, "' with drop time");
        assert(s@ =~= self.spec_message());
        s
    }
}

/// The error DropDbWithDropTime; its text reads "DropDbWithDropTime: drop {db_name} with drop_on time".
#[derive(Debug)]
pub struct DropDbWithDropTime {
    pub db_name: String,
}

/// The text of `DropDbWithDropTime`.
pub open spec fn drop_db_with_drop_time_text(e: DropDbWithDropTime) -> Seq<char> {
    "DropDbWithDropTime: drop "@ + e.db_name@ + " with drop_on time"@
}

impl DropDbWithDropTime {
    /// The error about the given values.
    pub fn new(db_name: &str) -> (r: DropDbWithDropTime)
        ensures
            r.db_name@ == db_name@,
    {
        DropDbWithDropTime { db_name: String::from_str(db_name) }
    }

    /// The text of the error.
    pub fn display_text(&self) -> (r: String)
        ensures
            r@ == drop_db_with_drop_time_text(*self),
    {
        let mut s = String::new();
        push_str(&mut s, "DropDbWithDropTime: drop ");
        push_str(&mut s, self.db_name.as_str());
        push_str(&mut s, " with drop_on time");
        assert(s@ =~= drop_db_with_drop_time_text(*self));
        s
    }
}

impl AppErrorMessage for DropDbWithDropTime {
    open spec fn spec_message(&self) -> Seq<char> {
        "Drop db '"@ + self.db_name@ + "' with drop_on time"@
    }

    fn message(&self) -> (r: String) {
        let mut s = String::new();
        push_str(&mut s, "Drop db '");
        push_str(&mut s, self.db_name.as_str());
        push_str(&mut s, "' with drop_on time");
        assert(s@ =~= self.spec_message());
        s
    }
}

/// The error UndropDbWithNoDropTime; its text reads "UndropDbWithNoDropTime: undrop {db_name} with no drop_on time".
#[derive(Debug)]
pub struct UndropDbWithNoDropTime {
    pub db_name: String,
}

/// The text of `UndropDbWithNoDropTime`.
pub open spec fn undrop_db_with_no_drop_time_text(e: UndropDbWithNoDropTime) -> Seq<char> {
    "UndropDbWithNoDropTime: undrop "@ + e.db_name@ + " with no drop_on time"@
}

impl UndropDbWithNoDropTime {
    /// The error about the given values.
    pub fn new(db_name: &str) -> (r: UndropDbWithNoDropTime)
        ensures
            r.db_name@ == db_name@,
    {
        UndropDbWithNoDropTime { db_name: String::from_str(db_name) }
    }

    /// The text of the error.
    pub fn display_text(&self) -> (r: String)
        ensures
            r@ == undrop_db_with_no_drop_time_text(*self),
    {
        let mut s = String::new();
        push_str(&mut s, "UndropDbWithNoDropTime: undrop ");
        push_str(&mut s, self.db_name.as_str());
        push_str(&mut s, " with no drop_on time");
        assert(s@ =~= undrop_db_with_no_drop_time_text(*self));
        s
    }
}

impl AppErrorMessage for UndropDbWithNoDropTime {
    open spec fn spec_message(&self) -> Seq<char> {
        "Undrop db '"@ + self.db_name@ + "' with no drop_on time"@
    }

    fn message(&self) -> (r: String) {
        let mut s = String::new();
        push_str(&mut s, "Undrop db '");
        push_str(&mut s, self.db_name.as_str());
        push_str(&mut s, "' with no drop_on time");
        assert(s@ =~= self.spec_message());
        s
    }
}

/// The error UndropDbHasNoHistory; its text reads "UndropDbHasNoHistory: undrop {db_name} has no db id history".
#[derive(Debug)]
pub struct UndropDbHasNoHistory {
    pub db_name: String,
}

/// The text of `UndropDbHasNoHistory`.
pub open spec fn undrop_db_has_no_history_text(e: UndropDbHasNoHistory) -> Seq<char> {
    "UndropDbHasNoHistory: undrop "@ + e.db_name@ + " has no db id history"@
}

impl UndropDbHasNoHistory {
    /// The error about the given values.
    pub fn new(db_name: &str) -> (r: UndropDbHasNoHistory)
        ensures
            r.db_name@ == db_name@,
    {
        UndropDbHasNoHistory { db_name: String::from_str(db_name) }
    }

    /// The text of the error.
    pub fn display_text(&self) -> (r: String)
        ensures
            r@ == undrop_db_has_no_history_text(*self),
    {
        let mut s = String::new();
        push_str(&mut s, "UndropDbHasNoHistory: undrop ");
        push_str(&mut s, self.db_name.as_str());
        push_str(&mut s, " has no db id history");
        assert(s@ =~= undrop_db_has_no_history_text(*self));
        s
    }
}

impl AppErrorMessage for UndropDbHasNoHistory {
    open spec fn spec_message(&self) -> Seq<char> {
        "Undrop database '"@ + self.db_name@ + "' has no id history"@
    }

    fn message(&self) -> (r: String) {
        let mut s = String::new();
        push_str(&mut s, "Undrop database '");
        push_str(&mut s, self.db_name.as_str());
        push_str(&mut s, "' has no id history");
        assert(s@ =~= self.spec_message());
        s
    }
}

/// The error TableAlreadyExists; its text reads "TableAlreadyExists: {table_name} while {context}".
#[derive(Debug)]
pub struct TableAlreadyExists {
    pub table_name: String,
    pub context: String,
}

/// The text of `TableAlreadyExists`.
pub open spec fn table_already_exists_text(e: TableAlreadyExists) -> Seq<char> {
    "TableAlreadyExists: "@ + e.table_name@ + " while "@ + e.context@
}

impl TableAlreadyExists {
    /// The error about the given values.
    pub fn new(table_name: &str, context: &str) -> (r: TableAlreadyExists)
        ensures
            r.table_name@ == table_name@,
            r.context@ == context@,
    {
        TableAlreadyExists { table_name: String::from_str(table_name), context: String::from_str(context) }
    }

    /// The text of the error.
    pub fn display_text(&self) -> (r: String)
        ensures
            r@ == table_already_exists_text(*self),
    {
        let mut s = String::new();
        push_str(&mut s, "TableAlreadyExists: ");
        push_str(&mut s, self.table_name.as_str());
        push_str(&mut s, " while ");
        push_str(&mut s, self.context.as_str());
        assert(s@ =~= table_already_exists_text(*self));
        s
    }
}

impl AppErrorMessage for TableAlreadyExists {
    open spec fn spec_message(&self) -> Seq<char> {
        "Table '"@ + self.table_name@ + "' already exists"@
    }

    fn message(&self) -> (r: String) {
        let mut s = String::new();
        push_str(&mut s, "Table '");
        push_str(&mut s, self.table_name.as_str());
        push_str(&mut s, "' already exists");
        assert(s@ =~= self.spec_message());
        s
    }
}

/// The error CreateTableWithDropTime; its text reads "CreateTableWithDropTime: create {table_name} with drop time".
#[derive(Debug)]
pub struct CreateTableWithDropTime {
    pub table_name: String,
}

/// The text of `CreateTableWithDropTime`.
pub open spec fn create_table_with_drop_time_text(e: CreateTableWithDropTime) -> Seq<char> {
    "CreateTableWithDropTime: create "@ + e.table_name@ + " with drop time"@
}

impl CreateTableWithDropTime {
    /// The error about the given values.
    pub fn new(table_name: &str) -> (r: CreateTableWithDropTime)
        ensures
            r.table_name@ == table_name@,
    {
        CreateTableWithDropTime { table_name: String::from_str(table_name) }
    }

    /// The text of the error.
    pub fn display_text(&self) -> (r: String)
        ensures
            r@ == create_table_with_drop_time_text(*self),
    {
        let mut s = String::new();
        push_str(&mut s, "CreateTableWithDropTime: create ");
        push_str(&mut s, self.table_name.as_str());
        push_str(&mut s, " with drop time");
        assert(s@ =~= create_table_with_drop_time_text(*self));
        s
    }
}

impl AppErrorMessage for CreateTableWithDropTime {
    open spec fn spec_message(&self) -> Seq<char> {
        "Create Table '"@ + self.table_name@ + "' with drop time"@
    }

    fn message(&self) -> (r: String) {
        let mut s = String::new();
        push_str(&mut s, "Create Table '");
        push_str(&mut s, self.table_name.as_str());
        push_str(&mut s, "' with drop time");
        assert(s@ =~= self.spec_message());
        s
    }
}

/// The error UndropTableAlreadyExists; its text reads "UndropTableAlreadyExists: undrop {table_name} already exists".
#[derive(Debug)]
pub struct UndropTableAlreadyExists {
    pub table_name: String,
}

/// The text of `UndropTableAlreadyExists`.
pub open spec fn undrop_table_already_exists_text(e: UndropTableAlreadyExists) -> Seq<char> {
    "UndropTableAlreadyExists: undrop "@ + e.table_name@ + " already exists"@
}

impl UndropTableAlreadyExists {
    /// The error about the given values.
    pub fn new(table_name: &str) -> (r: UndropTableAlreadyExists)
        ensures
            r.table_name@ == table_name@,
    {
        UndropTableAlreadyExists { table_name: String::from_str(table_name) }
    }

    /// The text of the error.
    pub fn display_text(&self) -> (r: String)
        ensures
            r@ == undrop_table_already_exists_text(*self),
    {
        let mut s = String::new();
        push_str(&mut s, "UndropTableAlreadyExists: undrop ");
        push_str(&mut s, self.table_name.as_str());
        push_str(&mut s, " already exists");
        assert(s@ =~= undrop_table_already_exists_text(*self));
        s
    }
}

impl AppErrorMessage for UndropTableAlreadyExists {
    open spec fn spec_message(&self) -> Seq<char> {
        "Undrop Table '"@ + self.table_name@ + "' already exists"@
    }

    fn message(&self) -> (r: String) {
        let mut s = String::new();
        push_str(&mut s, "Undrop Table '");
        push_str(&mut s, self.table_name.as_str());
        push_str(&mut s, "' already exists");
        assert(s@ =~= self.spec_message());
        s
    }
}

/// The error UndropTableWithNoDropTime; its text reads "UndropTableWithNoDropTime: undrop {table_name} with no drop_on time".
#[derive(Debug)]
pub struct UndropTableWithNoDropTime {
    pub table_name: String,
}

/// The text of `UndropTableWithNoDropTime`.
pub open spec fn undrop_table_with_no_drop_time_text(e: UndropTableWithNoDropTime) -> Seq<char> {
    "UndropTableWithNoDropTime: undrop "@ + e.table_name@ + " with no drop_on time"@
}

impl UndropTableWithNoDropTime {
    /// The error about the given values.
    pub fn new(table_name: &str) -> (r: UndropTableWithNoDropTime)
        ensures
            r.table_name@ == table_name@,
    {
        UndropTableWithNoDropTime { table_name: String::from_str(table_name) }
    }

    /// The text of the error.
    pub fn display_text(&self) -> (r: String)
        ensures
            r@ == undrop_table_with_no_drop_time_text(*self),
    {
        let mut s = String::new();
        push_str(&mut s, "UndropTableWithNoDropTime: undrop ");
        push_str(&mut s, self.table_name.as_str());
        push_str(&mut s, " with no drop_on time");
        assert(s@ =~= undrop_table_with_no_drop_time_text(*self));
        s
    }
}

impl AppErrorMessage for UndropTableWithNoDropTime {
    open spec fn spec_message(&self) -> Seq<char> {
        "Undrop table '"@ + self.table_name@ + "' with no drop_on time"@
    }

    fn message(&self) -> (r: String) {
        let mut s = String::new();
        push_str(&mut s, "Undrop table '");
        push_str(&mut s, self.table_name.as_str());
        push_str(&mut s, "' with no drop_on time");
        assert(s@ =~= self.spec_message());
        s
    }
}

/// The error DropTableWithDropTime; its text reads "DropTableWithDropTime: drop {table_name} with drop_on time".
#[derive(Debug)]
pub struct DropTableWithDropTime {
    pub table_name: String,
}

/// The text of `DropTableWithDropTime`.
pub open spec fn drop_table_with_drop_time_text(e: DropTableWithDropTime) -> Seq<char> {
    "DropTableWithDropTime: drop "@ + e.table_name@ + " with drop_on time"@
}

impl DropTableWithDropTime {
    /// The error about the given values.
    pub fn new(table_name: &str) -> (r: DropTableWithDropTime)
        ensures
            r.table_name@ == table_name@,
    {
        DropTableWithDropTime { table_name: String::from_str(table_name) }
    }

    /// The text of the error.
    pub fn display_text(&self) -> (r: String)
        ensures
            r@ == drop_table_with_drop_time_text(*self),
    {
        let mut s = String::new();
        push_str(&mut s, "DropTableWithDropTime: drop ");
        push_str(&mut s, self.table_name.as_str());
        push_str(&mut s, " with drop_on time");
        assert(s@ =~= drop_table_with_drop_time_text(*self));
        s
    }
}

impl AppErrorMessage for DropTableWithDropTime {
    open spec fn spec_message(&self) -> Seq<char> {
        "Drop table '"@ + self.table_name@ + "' with drop_on time"@
    }

    fn message(&self) -> (r: String) {
        let mut s = String::new();
        push_str(&mut s, "Drop table '");
        push_str(&mut s, self.table_name.as_str());
        push_str(&mut s, "' with drop_on time");
        assert(s@ =~= self.spec_message());
        s
    }
}

/// The error UndropTableHasNoHistory; its text reads "UndropTableHasNoHistory: undrop {table_name} has no table id history".
#[derive(Debug)]
pub struct UndropTableHasNoHistory {
    pub table_name: String,
}

/// The text of `UndropTableHasNoHistory`.
pub open spec fn undrop_table_has_no_history_text(e: UndropTableHasNoHistory) -> Seq<char> {
    "UndropTableHasNoHistory: undrop "@ + e.table_name@ + " has no table id history"@
}

impl UndropTableHasNoHistory {
    /// The error about the given values.
    pub fn new(table_name: &str) -> (r: UndropTableHasNoHistory)
        ensures
            r.table_name@ == table_name@,
    {
        UndropTableHasNoHistory { table_name: String::from_str(table_name) }
    }

    /// The text of the error.
    pub fn display_text(&self) -> (r: String)
        ensures
            r@ == undrop_table_has_no_history_text(*self),
    {
        let mut s = String::new();
        push_str(&mut s, "UndropTableHasNoHistory: undrop ");
        push_str(&mut s, self.table_name.as_str());
        push_str(&mut s, " has no table id history");
        assert(s@ =~= undrop_table_has_no_history_text(*self));
        s
    }
}

impl AppErrorMessage for UndropTableHasNoHistory {
    open spec fn spec_message(&self) -> Seq<char> {
        "Undrop Table '"@ + self.table_name@ + "' has no table id list"@
    }

    fn message(&self) -> (r: String) {
        let mut s = String::new();
        push_str(&mut s, "Undrop Table '");
        push_str(&mut s, self.table_name.as_str());
        push_str(&mut s, "' has no table id list");
        assert(s@ =~= self.spec_message());
        s
    }
}

/// The error TableVersionMismatched; its text reads "TableVersionMismatched: {table_id} expect `{expect}` but `{curr}`  while `{context}`".
#[derive(Debug)]
pub struct TableVersionMismatched {
    pub table_id: u64,
    pub expect: MatchSeq,
    pub curr: u64,
    pub context: String,
}

/// The text of `TableVersionMismatched`.
pub open spec fn table_version_mismatched_text(e: TableVersionMismatched) -> Seq<char> {
    "TableVersionMismatched: "@ + decimal(e.table_id as nat) + " expect `"@ + match_seq_text(e.expect) + "` but `"@ + decimal(e.curr as nat) + "`  while `"@ + e.context@ + "`"@
}

impl TableVersionMismatched {
    /// The error about the given values.
    pub fn new(table_id: u64, expect: MatchSeq, curr: u64, context: &str) -> (r: TableVersionMismatched)
        ensures
            r.table_id == table_id,
            r.expect == expect,
            r.curr == curr,
            r.context@ == context@,
    {
        TableVersionMismatched { table_id, expect, curr, context: String::from_str(context) }
    }

    /// The text of the error.
    pub fn display_text(&self) -> (r: String)
        ensures
            r@ == table_version_mismatched_text(*self),
    {
        let mut s = String::new();
        push_str(&mut s, "TableVersionMismatched: ");
        push_decimal(&mut s, self.table_id as u64);
        push_str(&mut s, " expect `");
        self.expect.push_text(&mut s);
        push_str(&mut s, "` but `");
        push_decimal(&mut s, self.curr as u64);
        push_str(&mut s, "`  while `");
        push_str(&mut s, self.context.as_str());
        push_str(&mut s, "`");
        assert(s@ =~= table_version_mismatched_text(*self));
        s
    }
}

impl AppErrorMessage for TableVersionMismatched {
    open spec fn spec_message(&self) -> Seq<char> {
        table_version_mismatched_text(*self)
    }

    fn message(&self) -> (r: String) {
        self.display_text()
    }
}

/// The error UnknownDatabase; its text reads "UnknownDatabase: `{db_name}` while `{context}`".
#[derive(Debug)]
pub struct UnknownDatabase {
    pub db_name: String,
    pub context: String,
}

/// The text of `UnknownDatabase`.
pub open spec fn unknown_database_text(e: UnknownDatabase) -> Seq<char> {
    "UnknownDatabase: `"@ + e.db_name@ + "` while `"@ + e.context@ + "`"@
}

impl UnknownDatabase {
    /// The error about the given values.
    pub fn new(db_name: &str, context: &str) -> (r: UnknownDatabase)
        ensures
            r.db_name@ == db_name@,
            r.context@ == context@,
    {
        UnknownDatabase { db_name: String::from_str(db_name), context: String::from_str(context) }
    }

    /// The text of the error.
    pub fn display_text(&self) -> (r: String)
        ensures
            r@ == unknown_database_text(*self),
    {
        let mut s = String::new();
        push_str(&mut s, "UnknownDatabase: `");
        push_str(&mut s, self.db_name.as_str());
        push_str(&mut s, "` while `");
        push_str(&mut s, self.context.as_str());
        push_str(&mut s, "`");
        assert(s@ =~= unknown_database_text(*self));
        s
    }
}

impl AppErrorMessage for UnknownDatabase {
    open spec fn spec_message(&self) -> Seq<char> {
        "Unknown database '"@ + self.db_name@ + "'"@
    }

    fn message(&self) -> (r: String) {
        let mut s = String::new();
        push_str(&mut s, "Unknown database '");
        push_str(&mut s, self.db_name.as_str());
        push_str(&mut s, "'");
        assert(s@ =~= self.spec_message());
        s
    }
}

/// The error UnknownDatabaseId; its text reads "UnknownDatabaseId: `{db_id}` while `{context}`".
#[derive(Debug)]
pub struct UnknownDatabaseId {
    pub db_id: u64,
    pub context: String,
}

/// The text of `UnknownDatabaseId`.
pub open spec fn unknown_database_id_text(e: UnknownDatabaseId) -> Seq<char> {
    "UnknownDatabaseId: `"@ + decimal(e.db_id as nat) + "` while `"@ + e.context@ + "`"@
}

impl UnknownDatabaseId {
    /// The error about the given values.
    pub fn new(db_id: u64, context: String) -> (r: UnknownDatabaseId)
        ensures
            r.db_id == db_id,
            r.context@ == context@,
    {
        UnknownDatabaseId { db_id, context }
    }

    /// The text of the error.
    pub fn display_text(&self) -> (r: String)
        ensures
            r@ == unknown_database_id_text(*self),
    {
        let mut s = String::new();
        push_str(&mut s, "UnknownDatabaseId: `");
        push_decimal(&mut s, self.db_id as u64);
        push_str(&mut s, "` while `");
        push_str(&mut s, self.context.as_str());
        push_str(&mut s, "`");
        assert(s@ =~= unknown_database_id_text(*self));
        s
    }
}

impl AppErrorMessage for UnknownDatabaseId {
    open spec fn spec_message(&self) -> Seq<char> {
        unknown_database_id_text(*self)
    }

    fn message(&self) -> (r: String) {
        self.display_text()
    }
}

/// The error UnknownTable; its text reads "UnknownTable: `{table_name}` while `{context}`".
#[derive(Debug)]
pub struct UnknownTable {
    pub table_name: String,
    pub context: String,
}

/// The text of `UnknownTable`.
pub open spec fn unknown_table_text(e: UnknownTable) -> Seq<char> {
    "UnknownTable: `"@ + e.table_name@ + "` while `"@ + e.context@ + "`"@
}

impl UnknownTable {
    /// The error about the given values.
    pub fn new(table_name: &str, context: &str) -> (r: UnknownTable)
        ensures
            r.table_name@ == table_name@,
            r.context@ == context@,
    {
        UnknownTable { table_name: String::from_str(table_name), context: String::from_str(context) }
    }

    /// The text of the error.
    pub fn display_text(&self) -> (r: String)
        ensures
            r@ == unknown_table_text(*self),
    {
        let mut s = String::new();
        push_str(&mut s, "UnknownTable: `");
        push_str(&mut s, self.table_name.as_str());
        push_str(&mut s, "` while `");
        push_str(&mut s, self.context.as_str());
        push_str(&mut s, "`");
        assert(s@ =~= unknown_table_text(*self));
        s
    }
}

impl AppErrorMessage for UnknownTable {
    open spec fn spec_message(&self) -> Seq<char> {
        "Unknown table '"@ + self.table_name@ + "'"@
    }

    fn message(&self) -> (r: String) {
        let mut s = String::new();
        push_str(&mut s, "Unknown table '");
        push_str(&mut s, self.table_name.as_str());
        push_str(&mut s, "'");
        assert(s@ =~= self.spec_message());
        s
    }
}

/// The error UnknownTableId; its text reads "UnknownTableId: `{table_id}` while `{context}`".
#[derive(Debug)]
pub struct UnknownTableId {
    pub table_id: u64,
    pub context: String,
}

/// The text of `UnknownTableId`.
pub open spec fn unknown_table_id_text(e: UnknownTableId) -> Seq<char> {
    "UnknownTableId: `"@ + decimal(e.table_id as nat) + "` while `"@ + e.context@ + "`"@
}

impl UnknownTableId {
    /// The error about the given values.
    pub fn new(table_id: u64, context: &str) -> (r: UnknownTableId)
        ensures
            r.table_id == table_id,
            r.context@ == context@,
    {
        UnknownTableId { table_id, context: String::from_str(context) }
    }

    /// The text of the error.
    pub fn display_text(&self) -> (r: String)
        ensures
            r@ == unknown_table_id_text(*self),
    {
        let mut s = String::new();
        push_str(&mut s, "UnknownTableId: `");
        push_decimal(&mut s, self.table_id as u64);
        push_str(&mut s, "` while `");
        push_str(&mut s, self.context.as_str());
        push_str(&mut s, "`");
        assert(s@ =~= unknown_table_id_text(*self));
        s
    }
}

impl AppErrorMessage for UnknownTableId {
    open spec fn spec_message(&self) -> Seq<char> {
        unknown_table_id_text(*self)
    }

    fn message(&self) -> (r: String) {
        self.display_text()
    }
}

/// The error ShareAlreadyExists; its text reads "ShareAlreadyExists: {share_name} while {context}".
#[derive(Debug)]
pub struct ShareAlreadyExists {
    pub share_name: String,
    pub context: String,
}

/// The text of `ShareAlreadyExists`.
pub open spec fn share_already_exists_text(e: ShareAlreadyExists) -> Seq<char> {
    "ShareAlreadyExists: "@ + e.share_name@ + " while "@ + e.context@
}

impl ShareAlreadyExists {
    /// The error about the given values.
    pub fn new(share_name: &str, context: &str) -> (r: ShareAlreadyExists)
        ensures
            r.share_name@ == share_name@,
            r.context@ == context@,
    {
        ShareAlreadyExists { share_name: String::from_str(share_name), context: String::from_str(context) }
    }

    /// The text of the error.
    pub fn display_text(&self) -> (r: String)
        ensures
            r@ == share_already_exists_text(*self),
    {
        let mut s = String::new();
        push_str(&mut s, "ShareAlreadyExists: ");
        push_str(&mut s, self.share_name.as_str());
        push_str(&mut s, " while ");
        push_str(&mut s, self.context.as_str());
        assert(s@ =~= share_already_exists_text(*self));
        s
    }
}

impl AppErrorMessage for ShareAlreadyExists {
    open spec fn spec_message(&self) -> Seq<char> {
        "Share '"@ + self.share_name@ + "' already exists"@
    }

    fn message(&self) -> (r: String) {
        let mut s = String::new();
        push_str(&mut s, "Share '");
        push_str(&mut s, self.share_name.as_str());
        push_str(&mut s, "' already exists");
        assert(s@ =~= self.spec_message());
        s
    }
}

/// The error ShareAccountAlreadyExists; its text reads "ShareAccountAlreadyExists: {share_name} while {context}".
#[derive(Debug)]
pub struct ShareAccountAlreadyExists {
    pub share_name: String,
    pub account: String,
    pub context: String,
}

/// The text of `ShareAccountAlreadyExists`.
pub open spec fn share_account_already_exists_text(e: ShareAccountAlreadyExists) -> Seq<char> {
    "ShareAccountAlreadyExists: "@ + e.share_name@ + " while "@ + e.context@
}

impl ShareAccountAlreadyExists {
    /// The error about the given values.
    pub fn new(share_name: &str, account: &str, context: &str) -> (r: ShareAccountAlreadyExists)
        ensures
            r.share_name@ == share_name@,
            r.account@ == account@,
            r.context@ == context@,
    {
        ShareAccountAlreadyExists { share_name: String::from_str(share_name), account: String::from_str(account), context: String::from_str(context) }
    }

    /// The text of the error.
    pub fn display_text(&self) -> (r: String)
        ensures
            r@ == share_account_already_exists_text(*self),
    {
        let mut s = String::new();
        push_str(&mut s, "ShareAccountAlreadyExists: ");
        push_str(&mut s, self.share_name.as_str());
        push_str(&mut s, " while ");
        push_str(&mut s, self.context.as_str());
        assert(s@ =~= share_account_already_exists_text(*self));
        s
    }
}

impl AppErrorMessage for ShareAccountAlreadyExists {
    open spec fn spec_message(&self) -> Seq<char> {
        "Share account for ("@ + self.share_name@ + ","@ + self.account@ + ") already exists"@
    }

    fn message(&self) -> (r: String) {
        let mut s = String::new();
        push_str(&mut s, "Share account for (");
        push_str(&mut s, self.share_name.as_str());
        push_str(&mut s, ",");
        push_str(&mut s, self.account.as_str());
        push_str(&mut s, ") already exists");
        assert(s@ =~= self.spec_message());
        s
    }
}

/// The error UnknownShareAccount; its text reads "UnknownShareAccount: {account} {share_id} while {context}".
#[derive(Debug)]
pub struct UnknownShareAccount {
    pub account: String,
    pub share_id: u64,
    pub context: String,
}

/// The text of `UnknownShareAccount`.
pub open spec fn unknown_share_account_text(e: UnknownShareAccount) -> Seq<char> {
    "UnknownShareAccount: "@ + e.account@ + " "@ + decimal(e.share_id as nat) + " while "@ + e.context@
}

impl UnknownShareAccount {
    /// The error about the given values.
    pub fn new(account: &str, share_id: u64, context: &str) -> (r: UnknownShareAccount)
        ensures
            r.account@ == account@,
            r.share_id == share_id,
            r.context@ == context@,
    {
        UnknownShareAccount { account: String::from_str(account), share_id, context: String::from_str(context) }
    }

    /// The text of the error.
    pub fn display_text(&self) -> (r: String)
        ensures
            r@ == unknown_share_account_text(*self),
    {
        let mut s = String::new();
        push_str(&mut s, "UnknownShareAccount: ");
        push_str(&mut s, self.account.as_str());
        push_str(&mut s, " ");
        push_decimal(&mut s, self.share_id as u64);
        push_str(&mut s, " while ");
        push_str(&mut s, self.context.as_str());
        assert(s@ =~= unknown_share_account_text(*self));
        s
    }
}

impl AppErrorMessage for UnknownShareAccount {
    open spec fn spec_message(&self) -> Seq<char> {
        "Unknown share account for ("@ + self.account@ + ","@ + decimal(self.share_id as nat) + ")"@
    }

    fn message(&self) -> (r: String) {
        let mut s = String::new();
        push_str(&mut s, "Unknown share account for (");
        push_str(&mut s, self.account.as_str());
        push_str(&mut s, ",");
        push_decimal(&mut s, self.share_id as u64);
        push_str(&mut s, ")");
        assert(s@ =~= self.spec_message());
        s
    }
}

/// The error WrongShareObject; its text reads "WrongShareObject: {obj_name} does not belong to the database that is being shared".
#[derive(Debug)]
pub struct WrongShareObject {
    pub obj_name: String,
}

/// The text of `WrongShareObject`.
pub open spec fn wrong_share_object_text(e: WrongShareObject) -> Seq<char> {
    "WrongShareObject: "@ + e.obj_name@ + " does not belong to the database that is being shared"@
}

impl WrongShareObject {
    /// The error about the given values.
    pub fn new(obj_name: &str) -> (r: WrongShareObject)
        ensures
            r.obj_name@ == obj_name@,
    {
        WrongShareObject { obj_name: String::from_str(obj_name) }
    }

    /// The text of the error.
    pub fn display_text(&self) -> (r: String)
        ensures
            r@ == wrong_share_object_text(*self),
    {
        let mut s = String::new();
        push_str(&mut s, "WrongShareObject: ");
        push_str(&mut s, self.obj_name.as_str());
        push_str(&mut s, " does not belong to the database that is being shared");
        assert(s@ =~= wrong_share_object_text(*self));
        s
    }
}

impl AppErrorMessage for WrongShareObject {
    open spec fn spec_message(&self) -> Seq<char> {
        " "@ + self.obj_name@ + " does not belong to the database that is being shared"@
    }

    fn message(&self) -> (r: String) {
        let mut s = String::new();
        push_str(&mut s, " ");
        push_str(&mut s, self.obj_name.as_str());
        push_str(&mut s, " does not belong to the database that is being shared");
        assert(s@ =~= self.spec_message());
        s
    }
}

/// The error UnknownShare; its text reads "UnknownShare: {share_name} while {context}".
#[derive(Debug)]
pub struct UnknownShare {
    pub share_name: String,
    pub context: String,
}

/// The text of `UnknownShare`.
pub open spec fn unknown_share_text(e: UnknownShare) -> Seq<char> {
    "UnknownShare: "@ + e.share_name@ + " while "@ + e.context@
}

impl UnknownShare {
    /// The error about the given values.
    pub fn new(share_name: &str, context: &str) -> (r: UnknownShare)
        ensures
            r.share_name@ == share_name@,
            r.context@ == context@,
    {
        UnknownShare { share_name: String::from_str(share_name), context: String::from_str(context) }
    }

    /// The text of the error.
    pub fn display_text(&self) -> (r: String)
        ensures
            r@ == unknown_share_text(*self),
    {
        let mut s = String::new();
        push_str(&mut s, "UnknownShare: ");
        push_str(&mut s, self.share_name.as_str());
        push_str(&mut s, " while ");
        push_str(&mut s, self.context.as_str());
        assert(s@ =~= unknown_share_text(*self));
        s
    }
}

impl AppErrorMessage for UnknownShare {
    open spec fn spec_message(&self) -> Seq<char> {
        "Unknown share '"@ + self.share_name@ + "'"@
    }

    fn message(&self) -> (r: String) {
        let mut s = String::new();
        push_str(&mut s, "Unknown share '");
        push_str(&mut s, self.share_name.as_str());
        push_str(&mut s, "'");
        assert(s@ =~= self.spec_message());
        s
    }
}

/// The error UnknownShareId; its text reads "UnknownShareID: {share_id} while {context}".
#[derive(Debug)]
pub struct UnknownShareId {
    pub share_id: u64,
    pub context: String,
}

/// The text of `UnknownShareId`.
pub open spec fn unknown_share_id_text(e: UnknownShareId) -> Seq<char> {
    "UnknownShareID: "@ + decimal(e.share_id as nat) + " while "@ + e.context@
}

impl UnknownShareId {
    /// The error about the given values.
    pub fn new(share_id: u64, context: &str) -> (r: UnknownShareId)
        ensures
            r.share_id == share_id,
            r.context@ == context@,
    {
        UnknownShareId { share_id, context: String::from_str(context) }
    }

    /// The text of the error.
    pub fn display_text(&self) -> (r: String)
        ensures
            r@ == unknown_share_id_text(*self),
    {
        let mut s = String::new();
        push_str(&mut s, "UnknownShareID: ");
        push_decimal(&mut s, self.share_id as u64);
        push_str(&mut s, " while ");
        push_str(&mut s, self.context.as_str());
        assert(s@ =~= unknown_share_id_text(*self));
        s
    }
}

impl AppErrorMessage for UnknownShareId {
    open spec fn spec_message(&self) -> Seq<char> {
        "Unknown share id '"@ + decimal(self.share_id as nat) + "'"@
    }

    fn message(&self) -> (r: String) {
        let mut s = String::new();
        push_str(&mut s, "Unknown share id '");
        push_decimal(&mut s, self.share_id as u64);
        push_str(&mut s, "'");
        assert(s@ =~= self.spec_message());
        s
    }
}

/// The error TxnRetryMaxTimes; its text reads "TxnRetryMaxTimes: Txn {op} has retry {max_retry} times, abort.".
#[derive(Debug)]
pub struct TxnRetryMaxTimes {
    pub op: String,
    pub max_retry: u32,
}

/// The text of `TxnRetryMaxTimes`.
pub open spec fn txn_retry_max_times_text(e: TxnRetryMaxTimes) -> Seq<char> {
    "TxnRetryMaxTimes: Txn "@ + e.op@ + " has retry "@ + decimal(e.max_retry as nat) + " times, abort."@
}

impl TxnRetryMaxTimes {
    /// The error about the given values.
    pub fn new(op: &str, max_retry: u32) -> (r: TxnRetryMaxTimes)
        ensures
            r.op@ == op@,
            r.max_retry == max_retry,
    {
        TxnRetryMaxTimes { op: String::from_str(op), max_retry }
    }

    /// The text of the error.
    pub fn display_text(&self) -> (r: String)
        ensures
            r@ == txn_retry_max_times_text(*self),
    {
        let mut s = String::new();
        push_str(&mut s, "TxnRetryMaxTimes: Txn ");
        push_str(&mut s, self.op.as_str());
        push_str(&mut s, " has retry ");
        push_decimal(&mut s, self.max_retry as u64);
        push_str(&mut s, " times, abort.");
        assert(s@ =~= txn_retry_max_times_text(*self));
        s
    }
}

impl AppErrorMessage for TxnRetryMaxTimes {
    open spec fn spec_message(&self) -> Seq<char> {
        "TxnRetryMaxTimes: Txn "@ + self.op@ + " has retry "@ + decimal(self.max_retry as nat) + " times"@
    }

    fn message(&self) -> (r: String) {
        let mut s = String::new();
        push_str(&mut s, "TxnRetryMaxTimes: Txn ");
        push_str(&mut s, self.op.as_str());
        push_str(&mut s, " has retry ");
        push_decimal(&mut s, self.max_retry as u64);
        push_str(&mut s, " times");
        assert(s@ =~= self.spec_message());
        s
    }
}

/// The errors that the meta service reports to applications.
#[derive(Debug)]
pub enum AppError {
    TableVersionMismatched(TableVersionMismatched),
    TableAlreadyExists(TableAlreadyExists),
    CreateTableWithDropTime(CreateTableWithDropTime),
    UndropTableAlreadyExists(UndropTableAlreadyExists),
    UndropTableWithNoDropTime(UndropTableWithNoDropTime),
    DropTableWithDropTime(DropTableWithDropTime),
    UndropTableHasNoHistory(UndropTableHasNoHistory),
    DatabaseAlreadyExists(DatabaseAlreadyExists),
    CreateDatabaseWithDropTime(CreateDatabaseWithDropTime),
    DropDbWithDropTime(DropDbWithDropTime),
    UndropDbWithNoDropTime(UndropDbWithNoDropTime),
    UndropDbHasNoHistory(UndropDbHasNoHistory),
    UnknownDatabase(UnknownDatabase),
    UnknownDatabaseId(UnknownDatabaseId),
    UnknownTable(UnknownTable),
    UnknownTableId(UnknownTableId),
    TxnRetryMaxTimes(TxnRetryMaxTimes),
    ShareAlreadyExists(ShareAlreadyExists),
    UnknownShare(UnknownShare),
    UnknownShareId(UnknownShareId),
    ShareAccountAlreadyExists(ShareAccountAlreadyExists),
    UnknownShareAccount(UnknownShareAccount),
    WrongShareObject(WrongShareObject),
}

/// The text of an application error: the text of the error it holds.
pub open spec fn app_error_text(e: AppError) -> Seq<char> {
    match e {
        AppError::TableVersionMismatched(x) => table_version_mismatched_text(x),
        AppError::TableAlreadyExists(x) => table_already_exists_text(x),
        AppError::CreateTableWithDropTime(x) => create_table_with_drop_time_text(x),
        AppError::UndropTableAlreadyExists(x) => undrop_table_already_exists_text(x),
        AppError::UndropTableWithNoDropTime(x) => undrop_table_with_no_drop_time_text(x),
        AppError::DropTableWithDropTime(x) => drop_table_with_drop_time_text(x),
        AppError::UndropTableHasNoHistory(x) => undrop_table_has_no_history_text(x),
        AppError::DatabaseAlreadyExists(x) => database_already_exists_text(x),
        AppError::CreateDatabaseWithDropTime(x) => create_database_with_drop_time_text(x),
        AppError::DropDbWithDropTime(x) => drop_db_with_drop_time_text(x),
        AppError::UndropDbWithNoDropTime(x) => undrop_db_with_no_drop_time_text(x),
        AppError::UndropDbHasNoHistory(x) => undrop_db_has_no_history_text(x),
        AppError::UnknownDatabase(x) => unknown_database_text(x),
        AppError::UnknownDatabaseId(x) => unknown_database_id_text(x),
        AppError::UnknownTable(x) => unknown_table_text(x),
        AppError::UnknownTableId(x) => unknown_table_id_text(x),
        AppError::TxnRetryMaxTimes(x) => txn_retry_max_times_text(x),
        AppError::ShareAlreadyExists(x) => share_already_exists_text(x),
        AppError::UnknownShare(x) => unknown_share_text(x),
        AppError::UnknownShareId(x) => unknown_share_id_text(x),
        AppError::ShareAccountAlreadyExists(x) => share_account_already_exists_text(x),
        AppError::UnknownShareAccount(x) => unknown_share_account_text(x),
        AppError::WrongShareObject(x) => wrong_share_object_text(x),
    }
}

/// The error code of an application error: the code of its kind, with its message.
pub open spec fn app_error_code(e: AppError) -> ErrorView {
    match e {
        AppError::TableVersionMismatched(x) => ErrorView { kind: ErrorKind::TableVersionMismatched, message: x.spec_message() },
        AppError::TableAlreadyExists(x) => ErrorView { kind: ErrorKind::TableAlreadyExists, message: x.spec_message() },
        AppError::CreateTableWithDropTime(x) => ErrorView { kind: ErrorKind::CreateTableWithDropTime, message: x.spec_message() },
        AppError::UndropTableAlreadyExists(x) => ErrorView { kind: ErrorKind::UndropTableAlreadyExists, message: x.spec_message() },
        AppError::UndropTableWithNoDropTime(x) => ErrorView { kind: ErrorKind::UndropTableWithNoDropTime, message: x.spec_message() },
        AppError::DropTableWithDropTime(x) => ErrorView { kind: ErrorKind::DropTableWithDropTime, message: x.spec_message() },
        AppError::UndropTableHasNoHistory(x) => ErrorView { kind: ErrorKind::UndropTableHasNoHistory, message: x.spec_message() },
        AppError::DatabaseAlreadyExists(x) => ErrorView { kind: ErrorKind::DatabaseAlreadyExists, message: x.spec_message() },
        AppError::CreateDatabaseWithDropTime(x) => ErrorView { kind: ErrorKind::CreateDatabaseWithDropTime, message: x.spec_message() },
        AppError::DropDbWithDropTime(x) => ErrorView { kind: ErrorKind::DropDbWithDropTime, message: x.spec_message() },
        AppError::UndropDbWithNoDropTime(x) => ErrorView { kind: ErrorKind::UndropDbWithNoDropTime, message: x.spec_message() },
        AppError::UndropDbHasNoHistory(x) => ErrorView { kind: ErrorKind::UndropDbHasNoHistory, message: x.spec_message() },
        AppError::UnknownDatabase(x) => ErrorView { kind: ErrorKind::UnknownDatabase, message: x.spec_message() },
        AppError::UnknownDatabaseId(x) => ErrorView { kind: ErrorKind::UnknownDatabaseId, message: x.spec_message() },
        AppError::UnknownTable(x) => ErrorView { kind: ErrorKind::UnknownTable, message: x.spec_message() },
        AppError::UnknownTableId(x) => ErrorView { kind: ErrorKind::UnknownTableId, message: x.spec_message() },
        AppError::TxnRetryMaxTimes(x) => ErrorView { kind: ErrorKind::TxnRetryMaxTimes, message: x.spec_message() },
        AppError::ShareAlreadyExists(x) => ErrorView { kind: ErrorKind::ShareAlreadyExists, message: x.spec_message() },
        AppError::UnknownShare(x) => ErrorView { kind: ErrorKind::UnknownShare, message: x.spec_message() },
        AppError::UnknownShareId(x) => ErrorView { kind: ErrorKind::UnknownShareId, message: x.spec_message() },
        AppError::ShareAccountAlreadyExists(x) => ErrorView { kind: ErrorKind::ShareAccountAlreadyExists, message: x.spec_message() },
        AppError::UnknownShareAccount(x) => ErrorView { kind: ErrorKind::UnknownShareAccount, message: x.spec_message() },
        AppError::WrongShareObject(x) => ErrorView { kind: ErrorKind::WrongShareObject, message: x.spec_message() },
    }
}

impl AppError {
    /// The text of the error.
    pub fn display_text(&self) -> (r: String)
        ensures
            r@ == app_error_text(*self),
    {
        match self {
            AppError::TableVersionMismatched(x) => x.display_text(),
            AppError::TableAlreadyExists(x) => x.display_text(),
            AppError::CreateTableWithDropTime(x) => x.display_text(),
            AppError::UndropTableAlreadyExists(x) => x.display_text(),
            AppError::UndropTableWithNoDropTime(x) => x.display_text(),
            AppError::DropTableWithDropTime(x) => x.display_text(),
            AppError::UndropTableHasNoHistory(x) => x.display_text(),
            AppError::DatabaseAlreadyExists(x) => x.display_text(),
            AppError::CreateDatabaseWithDropTime(x) => x.display_text(),
            AppError::DropDbWithDropTime(x) => x.display_text(),
            AppError::UndropDbWithNoDropTime(x) => x.display_text(),
            AppError::UndropDbHasNoHistory(x) => x.display_text(),
            AppError::UnknownDatabase(x) => x.display_text(),
            AppError::UnknownDatabaseId(x) => x.display_text(),
            AppError::UnknownTable(x) => x.display_text(),
            AppError::UnknownTableId(x) => x.display_text(),
            AppError::TxnRetryMaxTimes(x) => x.display_text(),
            AppError::ShareAlreadyExists(x) => x.display_text(),
            AppError::UnknownShare(x) => x.display_text(),
            AppError::UnknownShareId(x) => x.display_text(),
            AppError::ShareAccountAlreadyExists(x) => x.display_text(),
            AppError::UnknownShareAccount(x) => x.display_text(),
            AppError::WrongShareObject(x) => x.display_text(),
        }
    }

    /// The error code that the error converts to.
    pub fn to_error_code(self) -> (r: ErrorCode)
        ensures
            r@ == app_error_code(self),
    {
        match self {
            AppError::TableVersionMismatched(err) => ErrorCode::create(ErrorKind::TableVersionMismatched, err.message()),
            AppError::TableAlreadyExists(err) => ErrorCode::create(ErrorKind::TableAlreadyExists, err.message()),
            AppError::CreateTableWithDropTime(err) => ErrorCode::create(ErrorKind::CreateTableWithDropTime, err.message()),
            AppError::UndropTableAlreadyExists(err) => ErrorCode::create(ErrorKind::UndropTableAlreadyExists, err.message()),
            AppError::UndropTableWithNoDropTime(err) => ErrorCode::create(ErrorKind::UndropTableWithNoDropTime, err.message()),
            AppError::DropTableWithDropTime(err) => ErrorCode::create(ErrorKind::DropTableWithDropTime, err.message()),
            AppError::UndropTableHasNoHistory(err) => ErrorCode::create(ErrorKind::UndropTableHasNoHistory, err.message()),
            AppError::DatabaseAlreadyExists(err) => ErrorCode::create(ErrorKind::DatabaseAlreadyExists, err.message()),
            AppError::CreateDatabaseWithDropTime(err) => ErrorCode::create(ErrorKind::CreateDatabaseWithDropTime, err.message()),
            AppError::DropDbWithDropTime(err) => ErrorCode::create(ErrorKind::DropDbWithDropTime, err.message()),
            AppError::UndropDbWithNoDropTime(err) => ErrorCode::create(ErrorKind::UndropDbWithNoDropTime, err.message()),
            AppError::UndropDbHasNoHistory(err) => ErrorCode::create(ErrorKind::UndropDbHasNoHistory, err.message()),
            AppError::UnknownDatabase(err) => ErrorCode::create(ErrorKind::UnknownDatabase, err.message()),
            AppError::UnknownDatabaseId(err) => ErrorCode::create(ErrorKind::UnknownDatabaseId, err.message()),
            AppError::UnknownTable(err) => ErrorCode::create(ErrorKind::UnknownTable, err.message()),
            AppError::UnknownTableId(err) => ErrorCode::create(ErrorKind::UnknownTableId, err.message()),
            AppError::TxnRetryMaxTimes(err) => ErrorCode::create(ErrorKind::TxnRetryMaxTimes, err.message()),
            AppError::ShareAlreadyExists(err) => ErrorCode::create(ErrorKind::ShareAlreadyExists, err.message()),
            AppError::UnknownShare(err) => ErrorCode::create(ErrorKind::UnknownShare, err.message()),
            AppError::UnknownShareId(err) => ErrorCode::create(ErrorKind::UnknownShareId, err.message()),
            AppError::ShareAccountAlreadyExists(err) => ErrorCode::create(ErrorKind::ShareAccountAlreadyExists, err.message()),
            AppError::UnknownShareAccount(err) => ErrorCode::create(ErrorKind::UnknownShareAccount, err.message()),
            AppError::WrongShareObject(err) => ErrorCode::create(ErrorKind::WrongShareObject, err.message()),
        }
    }
}


} // verus!
