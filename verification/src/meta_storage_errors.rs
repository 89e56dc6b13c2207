//! The errors of the meta storage: the application errors it aborts transactions with, and its own failures.
use vstd::prelude::*;

use crate::error_code::ErrorCode;
use crate::error_code::ErrorKind;
use crate::error_code::ErrorView;
use crate::match_seq::MatchSeq;
use crate::match_seq::match_seq_text;
use crate::text::decimal;
use crate::text::push_decimal;
use crate::text::push_str;

verus! {

/// The message of an application error, as users are shown it.
pub trait AppErrorMessage {
    /// The characters of the message.
    spec fn spec_message(&self) -> Seq<char>;

    /// The message.
    fn message(&self) -> (r: String)
        ensures
            r@ == self.spec_message(),
    ;
}

/// The error DatabaseAlreadyExists; its text reads "DatabaseAlreadyExists: `{db_name}` while `{context}`".
#[derive(Debug)]
pub struct DatabaseAlreadyExists {
    pub db_name: String,
    pub context: String,
}

/// The text of `DatabaseAlreadyExists`.
pub open spec fn database_already_exists_text(e: DatabaseAlreadyExists) -> Seq<char> {
    "DatabaseAlreadyExists: `"@ + e.db_name@ + "` while `"@ + e.context@ + "`"@
}

impl DatabaseAlreadyExists {
    /// The error about the given values.
    pub fn new(db_name: &str, context: &str) -> (r: DatabaseAlreadyExists)
        ensures
            r.db_name@ == db_name@,
            r.context@ == context@,
    {
        DatabaseAlreadyExists { db_name: String::from_str(db_name), context: String::from_str(context) }
    }

    /// The text of the error.
    pub fn display_text(&self) -> (r: String)
        ensures
            r@ == database_already_exists_text(*self),
    {
        let mut s = String::new();
        push_str(&mut s, "DatabaseAlreadyExists: `");
        push_str(&mut s, self.db_name.as_str());
        push_str(&mut s, "` while `");
        push_str(&mut s, self.context.as_str());
        push_str(&mut s, "`");
        assert(s@ =~= database_already_exists_text(*self));
        s
    }
}

impl AppErrorMessage for DatabaseAlreadyExists {
    open spec fn spec_message(&self) -> Seq<char> {
        "Database '"@ + self.db_name@ + "' already exists"@
    }

    fn message(&self) -> (r: String) {
        let mut s = String::new();
        push_str(&mut s, "Database '");
        push_str(&mut s, self.db_name.as_str());
        push_str(&mut s, "' already exists");
        assert(s@ =~= self.spec_message());
        s
    }
}

/// The error CreateDatabaseWithDropTime; its text reads "CreateDatabaseWithDropTime: `{db_name}` with drop_on".
#[derive(Debug)]
pub struct CreateDatabaseWithDropTime {
    pub db_name: String,
}

/// The text of `CreateDatabaseWithDropTime`.
pub open spec fn create_database_with_drop_time_text(e: CreateDatabaseWithDropTime) -> Seq<char> {
    "CreateDatabaseWithDropTime: `"@ + e.db_name@ + "` with drop_on"@
}

impl CreateDatabaseWithDropTime {
    /// The error about the given values.
    pub fn new(db_name: &str) -> (r: CreateDatabaseWithDropTime)
        ensures
            r.db_name@ == db_name@,
    {
        CreateDatabaseWithDropTime { db_name: String::from_str(db_name) }
    }

    /// The text of the error.
    pub fn display_text(&self) -> (r: String)
        ensures
            r@ == create_database_with_drop_time_text(*self),
    {
        let mut s = String::new();
        push_str(&mut s, "CreateDatabaseWithDropTime: `");
        push_str(&mut s, self.db_name.as_str());
        push_str(&mut s, "` with drop_on");
        assert(s@ =~= create_database_with_drop_time_text(*self));
        s
    }
}

impl AppErrorMessage for CreateDatabaseWithDropTime {
    open spec fn spec_message(&self) -> Seq<char> {
        "Create database '"@ + self.db_name@ + "' with drop time"@
    }

    fn message(&self) -> (r: String) {
        let mut s = String::new();
        push_str(&mut s, "Create database '");
        push_str(&mut s, self.db_name.as_str());
        push_str(&mut s, "' with drop time");
        assert(s@ =~= self.spec_message());
        s
    }
}

/// The error DropDbWithDropTime; its text reads "DropDbWithDropTime: drop {db_name} with drop_on time".
#[derive(Debug)]
pub struct DropDbWithDropTime {
    pub db_name: String,
}

/// The text of `DropDbWithDropTime`.
pub open spec fn drop_db_with_drop_time_text(e: DropDbWithDropTime) -> Seq<char> {
    "DropDbWithDropTime: drop "@ + e.db_name@ + " with drop_on time"@
}

impl DropDbWithDropTime {
    /// The error about the given values.
    pub fn new(db_name: &str) -> (r: DropDbWithDropTime)
        ensures
            r.db_name@ == db_name@,
    {
        DropDbWithDropTime { db_name: String::from_str(db_name) }
    }

    /// The text of the error.
    pub fn display_text(&self) -> (r: String)
        ensures
            r@ == drop_db_with_drop_time_text(*self),
    {
        let mut s = String::new();
        push_str(&mut s, "DropDbWithDropTime: drop ");
        push_str(&mut s, self.db_name.as_str());
        push_str(&mut s, " with drop_on time");
        assert(s@ =~= drop_db_with_drop_time_text(*self));
        s
    }
}

impl AppErrorMessage for DropDbWithDropTime {
    open spec fn spec_message(&self) -> Seq<char> {
        "Drop db '"@ + self.db_name@ + "' with drop_on time"@
    }

    fn message(&self) -> (r: String) {
        let mut s = String::new();
        push_str(&mut s, "Drop db '");
        push_str(&mut s, self.db_name.as_str());
        push_str(&mut s, "' with drop_on time");
        assert(s@ =~= self.spec_message());
        s
    }
}

/// The error UndropDbWithNoDropTime; its text reads "UndropDbWithNoDropTime: undrop {db_name} with no drop_on time".
#[derive(Debug)]
pub struct UndropDbWithNoDropTime {
    pub db_name: String,
}

/// The text of `UndropDbWithNoDropTime`.
pub open spec fn undrop_db_with_no_drop_time_text(e: UndropDbWithNoDropTime) -> Seq<char> {
    "UndropDbWithNoDropTime: undrop "@ + e.db_name@ + " with no drop_on time"@
}

impl UndropDbWithNoDropTime {
    /// The error about the given values.
    pub fn new(db_name: &str) -> (r: UndropDbWithNoDropTime)
        ensures
            r.db_name@ == db_name@,
    {
        UndropDbWithNoDropTime { db_name: String::from_str(db_name) }
    }

    /// The text of the error.
    pub fn display_text(&self) -> (r: String)
        ensures
            r@ == undrop_db_with_no_drop_time_text(*self),
    {
        let mut s = String::new();
        push_str(&mut s, "UndropDbWithNoDropTime: undrop ");
        push_str(&mut s, self.db_name.as_str());
        push_str(&mut s, " with no drop_on time");
        assert(s@ =~= undrop_db_with_no_drop_time_text(*self));
        s
    }
}

impl AppErrorMessage for UndropDbWithNoDropTime {
    open spec fn spec_message(&self) -> Seq<char> {
        "Undrop db '"@ + self.db_name@ + "' with no drop_on time"@
    }

    fn message(&self) -> (r: String) {
        let mut s = String::new();
        push_str(&mut s, "Undrop db '");
        push_str(&mut s, self.db_name.as_str());
        push_str(&mut s, "' with no drop_on time");
        assert(s@ =~= self.spec_message());
        s
    }
}

/// The error UndropDbHasNoHistory; its text reads "UndropDbHasNoHistory: undrop {db_name} has no db id history".
#[derive(Debug)]
pub struct UndropDbHasNoHistory {
    pub db_name: String,
}

/// The text of `UndropDbHasNoHistory`.
pub open spec fn undrop_db_has_no_history_text(e: UndropDbHasNoHistory) -> Seq<char> {
    "UndropDbHasNoHistory: undrop "@ + e.db_name@ + " has no db id history"@
}

impl UndropDbHasNoHistory {
    /// The error about the given values.
    pub fn new(db_name: &str) -> (r: UndropDbHasNoHistory)
        ensures
            r.db_name@ == db_name@,
    {
        UndropDbHasNoHistory { db_name: String::from_str(db_name) }
    }

    /// The text of the error.
    pub fn display_text(&self) -> (r: String)
        ensures
            r@ == undrop_db_has_no_history_text(*self),
    {
        let mut s = String::new();
        push_str(&mut s, "UndropDbHasNoHistory: undrop ");
        push_str(&mut s, self.db_name.as_str());
        push_str(&mut s, " has no db id history");
        assert(s@ =~= undrop_db_has_no_history_text(*self));
        s
    }
}

impl AppErrorMessage for UndropDbHasNoHistory {
    open spec fn spec_message(&self) -> Seq<char> {
        "Undrop database '"@ + self.db_name@ + "' has no id history"@
    }

    fn message(&self) -> (r: String) {
        let mut s = String::new();
        push_str(&mut s, "Undrop database '");
        push_str(&mut s, self.db_name.as_str());
        push_str(&mut s, "' has no id history");
        assert(s@ =~= self.spec_message());
        s
    }
}

/// The error TableAlreadyExists; its text reads "TableAlreadyExists: {table_name} while {context}".
#[derive(Debug)]
pub struct TableAlreadyExists {
    pub table_name: String,
    pub context: String,
}

/// The text of `TableAlreadyExists`.
pub open spec fn table_already_exists_text(e: TableAlreadyExists) -> Seq<char> {
    "TableAlreadyExists: "@ + e.table_name@ + " while "@ + e.context@
}

impl TableAlreadyExists {
    /// The error about the given values.
    pub fn new(table_name: &str, context: &str) -> (r: TableAlreadyExists)
        ensures
            r.table_name@ == table_name@,
            r.context@ == context@,
    {
        TableAlreadyExists { table_name: String::from_str(table_name), context: String::from_str(context) }
    }

    /// The text of the error.
    pub fn display_text(&self) -> (r: String)
        ensures
            r@ == table_already_exists_text(*self),
    {
        let mut s = String::new();
        push_str(&mut s, "TableAlreadyExists: ");
        push_str(&mut s, self.table_name.as_str());
        push_str(&mut s, " while ");
        push_str(&mut s, self.context.as_str());
        assert(s@ =~= table_already_exists_text(*self));
        s
    }
}

impl AppErrorMessage for TableAlreadyExists {
    open spec fn spec_message(&self) -> Seq<char> {
        "Table '"@ + self.table_name@ + "' already exists"@
    }

    fn message(&self) -> (r: String) {
        let mut s = String::new();
        push_str(&mut s, "Table '");
        push_str(&mut s, self.table_name.as_str());
        push_str(&mut s, "' already exists");
        assert(s@ =~= self.spec_message());
        s
    }
}

/// The error CreateTableWithDropTime; its text reads "CreateTableWithDropTime: create {table_name} with drop time".
#[derive(Debug)]
pub struct CreateTableWithDropTime {
    pub table_name: String,
}

/// The text of `CreateTableWithDropTime`.
pub open spec fn create_table_with_drop_time_text(e: CreateTableWithDropTime) -> Seq<char> {
    "CreateTableWithDropTime: create "@ + e.table_name@ + " with drop time"@
}

impl CreateTableWithDropTime {
    /// The error about the given values.
    pub fn new(table_name: &str) -> (r: CreateTableWithDropTime)
        ensures
            r.table_name@ == table_name@,
    {
        CreateTableWithDropTime { table_name: String::from_str(table_name) }
    }

    /// The text of the error.
    pub fn display_text(&self) -> (r: String)
        ensures
            r@ == create_table_with_drop_time_text(*self),
    {
        let mut s = String::new();
        push_str(&mut s, "CreateTableWithDropTime: create ");
        push_str(&mut s, self.table_name.as_str());
        push_str(&mut s, " with drop time");
        assert(s@ =~= create_table_with_drop_time_text(*self));
        s
    }
}

impl AppErrorMessage for CreateTableWithDropTime {
    open spec fn spec_message(&self) -> Seq<char> {
        "Create Table '"@ + self.table_name@ + "' with drop time"@
    }

    fn message(&self) -> (r: String) {
        let mut s = String::new();
        push_str(&mut s, "Create Table '");
        push_str(&mut s, self.table_name.as_str());
        push_str(&mut s, "' with drop time");
        assert(s@ =~= self.spec_message());
        s
    }
}

/// The error UndropTableAlreadyExists; its text reads "UndropTableAlreadyExists: undrop {table_name} already exists".
#[derive(Debug)]
pub struct UndropTableAlreadyExists {
    pub table_name: String,
}

/// The text of `UndropTableAlreadyExists`.
pub open spec fn undrop_table_already_exists_text(e: UndropTableAlreadyExists) -> Seq<char> {
    "UndropTableAlreadyExists: undrop "@ + e.table_name@ + " already exists"@
}

impl UndropTableAlreadyExists {
    /// The error about the given values.
    pub fn new(table_name: &str) -> (r: UndropTableAlreadyExists)
        ensures
            r.table_name@ == table_name@,
    {
        UndropTableAlreadyExists { table_name: String::from_str(table_name) }
    }

    /// The text of the error.
    pub fn display_text(&self) -> (r: String)
        ensures
            r@ == undrop_table_already_exists_text(*self),
    {
        let mut s = String::new();
        push_str(&mut s, "UndropTableAlreadyExists: undrop ");
        push_str(&mut s, self.table_name.as_str());
        push_str(&mut s, " already exists");
        assert(s@ =~= undrop_table_already_exists_text(*self));
        s
    }
}

impl AppErrorMessage for UndropTableAlreadyExists {
    open spec fn spec_message(&self) -> Seq<char> {
        "Undrop Table '"@ + self.table_name@ + "' already exists"@
    }

    fn message(&self) -> (r: String) {
        let mut s = String::new();
        push_str(&mut s, "Undrop Table '");
        push_str(&mut s, self.table_name.as_str());
        push_str(&mut s, "' already exists");
        assert(s@ =~= self.spec_message());
        s
    }
}

/// The error UndropTableWithNoDropTime; its text reads "UndropTableWithNoDropTime: undrop {table_name} with no drop_on time".
#[derive(Debug)]
pub struct UndropTableWithNoDropTime {
    pub table_name: String,
}

/// The text of `UndropTableWithNoDropTime`.
pub open spec fn undrop_table_with_no_drop_time_text(e: UndropTableWithNoDropTime) -> Seq<char> {
    "UndropTableWithNoDropTime: undrop "@ + e.table_name@ + " with no drop_on time"@
}

impl UndropTableWithNoDropTime {
    /// The error about the given values.
    pub fn new(table_name: &str) -> (r: UndropTableWithNoDropTime)
        ensures
            r.table_name@ == table_name@,
    {
        UndropTableWithNoDropTime { table_name: String::from_str(table_name) }
    }

    /// The text of the error.
    pub fn display_text(&self) -> (r: String)
        ensures
            r@ == undrop_table_with_no_drop_time_text(*self),
    {
        let mut s = String::new();
        push_str(&mut s, "UndropTableWithNoDropTime: undrop ");
        push_str(&mut s, self.table_name.as_str());
        push_str(&mut s, " with no drop_on time");
        assert(s@ =~= undrop_table_with_no_drop_time_text(*self));
        s
    }
}

impl AppErrorMessage for UndropTableWithNoDropTime {
    open spec fn spec_message(&self) -> Seq<char> {
        "Undrop table '"@ + self.table_name@ + "' with no drop_on time"@
    }

    fn message(&self) -> (r: String) {
        let mut s = String::new();
        push_str(&mut s, "Undrop table '");
        push_str(&mut s, self.table_name.as_str());
        push_str(&mut s, "' with no drop_on time");
        assert(s@ =~= self.spec_message());
        s
    }
}

/// The error DropTableWithDropTime; its text reads "DropTableWithDropTime: drop {table_name} with drop_on time".
#[derive(Debug)]
pub struct DropTableWithDropTime {
    pub table_name: String,
}

/// The text of `DropTableWithDropTime`.
pub open spec fn drop_table_with_drop_time_text(e: DropTableWithDropTime) -> Seq<char> {
    "DropTableWithDropTime: drop "@ + e.table_name@ + " with drop_on time"@
}

impl DropTableWithDropTime {
    /// The error about the given values.
    pub fn new(table_name: &str) -> (r: DropTableWithDropTime)
        ensures
            r.table_name@ == table_name@,
    {
        DropTableWithDropTime { table_name: String::from_str(table_name) }
    }

    /// The text of the error.
    pub fn display_text(&self) -> (r: String)
        ensures
            r@ == drop_table_with_drop_time_text(*self),
    {
        let mut s = String::new();
        push_str(&mut s, "DropTableWithDropTime: drop ");
        push_str(&mut s, self.table_name.as_str());
        push_str(&mut s, " with drop_on time");
        assert(s@ =~= drop_table_with_drop_time_text(*self));
        s
    }
}

impl AppErrorMessage for DropTableWithDropTime {
    open spec fn spec_message(&self) -> Seq<char> {
        "Drop table '"@ + self.table_name@ + "' with drop_on time"@
    }

    fn message(&self) -> (r: String) {
        let mut s = String::new();
        push_str(&mut s, "Drop table '");
        push_str(&mut s, self.table_name.as_str());
        push_str(&mut s, "' with drop_on time");
        assert(s@ =~= self.spec_message());
        s
    }
}

/// The error UndropTableHasNoHistory; its text reads "UndropTableHasNoHistory: undrop {table_name} has no table id history".
#[derive(Debug)]
pub struct UndropTableHasNoHistory {
    pub table_name: String,
}

/// The text of `UndropTableHasNoHistory`.
pub open spec fn undrop_table_has_no_history_text(e: UndropTableHasNoHistory) -> Seq<char> {
    "UndropTableHasNoHistory: undrop "@ + e.table_name@ + " has no table id history"@
}

impl UndropTableHasNoHistory {
    /// The error about the given values.
    pub fn new(table_name: &str) -> (r: UndropTableHasNoHistory)
        ensures
            r.table_name@ == table_name@,
    {
        UndropTableHasNoHistory { table_name: String::from_str(table_name) }
    }

    /// The text of the error.
    pub fn display_text(&self) -> (r: String)
        ensures
            r@ == undrop_table_has_no_history_text(*self),
    {
        let mut s = String::new();
        push_str(&mut s, "UndropTableHasNoHistory: undrop ");
        push_str(&mut s, self.table_name.as_str());
        push_str(&mut s, " has no table id history");
        assert(s@ =~= undrop_table_has_no_history_text(*self));
        s
    }
}

impl AppErrorMessage for UndropTableHasNoHistory {
    open spec fn spec_message(&self) -> Seq<char> {
        "Undrop Table '"@ + self.table_name@ + "' has no table id list"@
    }

    fn message(&self) -> (r: String) {
        let mut s = String::new();
        push_str(&mut s, "Undrop Table '");
        push_str(&mut s, self.table_name.as_str());
        push_str(&mut s, "' has no table id list");
        assert(s@ =~= self.spec_message());
        s
    }
}

/// The error TableVersionMismatched; its text reads "TableVersionMismatched: {table_id} expect `{expect}` but `{curr}`  while `{context}`".
#[derive(Debug)]
pub struct TableVersionMismatched {
    pub table_id: u64,
    pub expect: MatchSeq,
    pub curr: u64,
    pub context: String,
}

/// The text of `TableVersionMismatched`.
pub open spec fn table_version_mismatched_text(e: TableVersionMismatched) -> Seq<char> {
    "TableVersionMismatched: "@ + decimal(e.table_id as nat) + " expect `"@ + match_seq_text(e.expect) + "` but `"@ + decimal(e.curr as nat) + "`  while `"@ + e.context@ + "`"@
}

impl TableVersionMismatched {
    /// The error about the given values.
    pub fn new(table_id: u64, expect: MatchSeq, curr: u64, context: &str) -> (r: TableVersionMismatched)
        ensures
            r.table_id == table_id,
            r.expect == expect,
            r.curr == curr,
            r.context@ == context@,
    {
        TableVersionMismatched { table_id, expect, curr, context: String::from_str(context) }
    }

    /// The text of the error.
    pub fn display_text(&self) -> (r: String)
        ensures
            r@ == table_version_mismatched_text(*self),
    {
        let mut s = String::new();
        push_str(&mut s, "TableVersionMismatched: ");
        push_decimal(&mut s, self.table_id as u64);
        push_str(&mut s, " expect `");
        self.expect.push_text(&mut s);
        push_str(&mut s, "` but `");
        push_decimal(&mut s, self.curr as u64);
        push_str(&mut s, "`  while `");
        push_str(&mut s, self.context.as_str());
        push_str(&mut s, "`");
        assert(s@ =~= table_version_mismatched_text(*self));
        s
    }
}

impl AppErrorMessage for TableVersionMismatched {
    open spec fn spec_message(&self) -> Seq<char> {
        table_version_mismatched_text(*self)
    }

    fn message(&self) -> (r: String) {
        self.display_text()
    }
}

/// The error UnknownDatabase; its text reads "UnknownDatabase: `{db_name}` while `{context}`".
#[derive(Debug)]
pub struct UnknownDatabase {
    pub db_name: String,
    pub context: String,
}

/// The text of `UnknownDatabase`.
pub open spec fn unknown_database_text(e: UnknownDatabase) -> Seq<char> {
    "UnknownDatabase: `"@ + e.db_name@ + "` while `"@ + e.context@ + "`"@
}

impl UnknownDatabase {
    /// The error about the given values.
    pub fn new(db_name: &str, context: &str) -> (r: UnknownDatabase)
        ensures
            r.db_name@ == db_name@,
            r.context@ == context@,
    {
        UnknownDatabase { db_name: String::from_str(db_name), context: String::from_str(context) }
    }

    /// The text of the error.
    pub fn display_text(&self) -> (r: String)
        ensures
            r@ == unknown_database_text(*self),
    {
        let mut s = String::new();
        push_str(&mut s, "UnknownDatabase: `");
        push_str(&mut s, self.db_name.as_str());
        push_str(&mut s, "` while `");
        push_str(&mut s, self.context.as_str());
        push_str(&mut s, "`");
        assert(s@ =~= unknown_database_text(*self));
        s
    }
}

impl AppErrorMessage for UnknownDatabase {
    open spec fn spec_message(&self) -> Seq<char> {
        "Unknown database '"@ + self.db_name@ + "'"@
    }

    fn message(&self) -> (r: String) {
        let mut s = String::new();
        push_str(&mut s, "Unknown database '");
        push_str(&mut s, self.db_name.as_str());
        push_str(&mut s, "'");
        assert(s@ =~= self.spec_message());
        s
    }
}

/// The error UnknownDatabaseId; its text reads "UnknownDatabaseId: `{db_id}` while `{context}`".
#[derive(Debug)]
pub struct UnknownDatabaseId {
    pub db_id: u64,
    pub context: String,
}

/// The text of `UnknownDatabaseId`.
pub open spec fn unknown_database_id_text(e: UnknownDatabaseId) -> Seq<char> {
    "UnknownDatabaseId: `"@ + decimal(e.db_id as nat) + "` while `"@ + e.context@ + "`"@
}

impl UnknownDatabaseId {
    /// The error about the given values.
    pub fn new(db_id: u64, context: String) -> (r: UnknownDatabaseId)
        ensures
            r.db_id == db_id,
            r.context@ == context@,
    {
        UnknownDatabaseId { db_id, context }
    }

    /// The text of the error.
    pub fn display_text(&self) -> (r: String)
        ensures
            r@ == unknown_database_id_text(*self),
    {
        let mut s = String::new();
        push_str(&mut s, "UnknownDatabaseId: `");
        push_decimal(&mut s, self.db_id as u64);
        push_str(&mut s, "` while `");
        push_str(&mut s, self.context.as_str());
        push_str(&mut s, "`");
        assert(s@ =~= unknown_database_id_text(*self));
        s
    }
}

impl AppErrorMessage for UnknownDatabaseId {
    open spec fn spec_message(&self) -> Seq<char> {
        unknown_database_id_text(*self)
    }

    fn message(&self) -> (r: String) {
        self.display_text()
    }
}

/// The error UnknownTable; its text reads "UnknownTable: `{table_name}` while `{context}`".
#[derive(Debug)]
pub struct UnknownTable {
    pub table_name: String,
    pub context: String,
}

/// The text of `UnknownTable`.
pub open spec fn unknown_table_text(e: UnknownTable) -> Seq<char> {
    "UnknownTable: `"@ + e.table_name@ + "` while `"@ + e.context@ + "`"@
}

impl UnknownTable {
    /// The error about the given values.
    pub fn new(table_name: &str, context: &str) -> (r: UnknownTable)
        ensures
            r.table_name@ == table_name@,
            r.context@ == context@,
    {
        UnknownTable { table_name: String::from_str(table_name), context: String::from_str(context) }
    }

    /// The text of the error.
    pub fn display_text(&self) -> (r: String)
        ensures
            r@ == unknown_table_text(*self),
    {
        let mut s = String::new();
        push_str(&mut s, "UnknownTable: `");
        push_str(&mut s, self.table_name.as_str());
        push_str(&mut s, "` while `");
        push_str(&mut s, self.context.as_str());
        push_str(&mut s, "`");
        assert(s@ =~= unknown_table_text(*self));
        s
    }
}

impl AppErrorMessage for UnknownTable {
    open spec fn spec_message(&self) -> Seq<char> {
        "Unknown table '"@ + self.table_name@ + "'"@
    }

    fn message(&self) -> (r: String) {
        let mut s = String::new();
        push_str(&mut s, "Unknown table '");
        push_str(&mut s, self.table_name.as_str());
        push_str(&mut s, "'");
        assert(s@ =~= self.spec_message());
        s
    }
}

/// The error UnknownTableId; its text reads "UnknownTableId: `{table_id}` while `{context}`".
#[derive(Debug)]
pub struct UnknownTableId {
    pub table_id: u64,
    pub context: String,
}

/// The text of `UnknownTableId`.
pub open spec fn unknown_table_id_text(e: UnknownTableId) -> Seq<char> {
    "UnknownTableId: `"@ + decimal(e.table_id as nat) + "` while `"@ + e.context@ + "`"@
}

impl UnknownTableId {
    /// The error about the given values.
    pub fn new(table_id: u64, context: &str) -> (r: UnknownTableId)
        ensures
            r.table_id == table_id,
            r.context@ == context@,
    {
        UnknownTableId { table_id, context: String::from_str(context) }
    }

    /// The text of the error.
    pub fn display_text(&self) -> (r: String)
        ensures
            r@ == unknown_table_id_text(*self),
    {
        let mut s = String::new();
        push_str(&mut s, "UnknownTableId: `");
        push_decimal(&mut s, self.table_id as u64);
        push_str(&mut s, "` while `");
        push_str(&mut s, self.context.as_str());
        push_str(&mut s, "`");
        assert(s@ =~= unknown_table_id_text(*self));
        s
    }
}

impl AppErrorMessage for UnknownTableId {
    open spec fn spec_message(&self) -> Seq<char> {
        unknown_table_id_text(*self)
    }

    fn message(&self) -> (r: String) {
        self.display_text()
    }
}

/// The error ShareAlreadyExists; its text reads "ShareAlreadyExists: {share_name} while {context}".
#[derive(Debug)]
pub struct ShareAlreadyExists {
    pub share_name: String,
    pub context: String,
}

/// The text of `ShareAlreadyExists`.
pub open spec fn share_already_exists_text(e: ShareAlreadyExists) -> Seq<char> {
    "ShareAlreadyExists: "@ + e.share_name@ + " while "@ + e.context@
}

impl ShareAlreadyExists {
    /// The error about the given values.
    pub fn new(share_name: &str, context: &str) -> (r: ShareAlreadyExists)
        ensures
            r.share_name@ == share_name@,
            r.context@ == context@,
    {
        ShareAlreadyExists { share_name: String::from_str(share_name), context: String::from_str(context) }
    }

    /// The text of the error.
    pub fn display_text(&self) -> (r: String)
        ensures
            r@ == share_already_exists_text(*self),
    {
        let mut s = String::new();
        push_str(&mut s, "ShareAlreadyExists: ");
        push_str(&mut s, self.share_name.as_str());
        push_str(&mut s, " while ");
        push_str(&mut s, self.context.as_str());
        assert(s@ =~= share_already_exists_text(*self));
        s
    }
}

impl AppErrorMessage for ShareAlreadyExists {
    open spec fn spec_message(&self) -> Seq<char> {
        "Share '"@ + self.share_name@ + "' already exists"@
    }

    fn message(&self) -> (r: String) {
        let mut s = String::new();
        push_str(&mut s, "Share '");
        push_str(&mut s, self.share_name.as_str());
        push_str(&mut s, "' already exists");
        assert(s@ =~= self.spec_message());
        s
    }
}

/// The error UnknownShare; its text reads "UnknownShare: {share_name} while {context}".
#[derive(Debug)]
pub struct UnknownShare {
    pub share_name: String,
    pub context: String,
}

/// The text of `UnknownShare`.
pub open spec fn unknown_share_text(e: UnknownShare) -> Seq<char> {
    "UnknownShare: "@ + e.share_name@ + " while "@ + e.context@
}

impl UnknownShare {
    /// The error about the given values.
    pub fn new(share_name: &str, context: &str) -> (r: UnknownShare)
        ensures
            r.share_name@ == share_name@,
            r.context@ == context@,
    {
        UnknownShare { share_name: String::from_str(share_name), context: String::from_str(context) }
    }

    /// The text of the error.
    pub fn display_text(&self) -> (r: String)
        ensures
            r@ == unknown_share_text(*self),
    {
        let mut s = String::new();
        push_str(&mut s, "UnknownShare: ");
        push_str(&mut s, self.share_name.as_str());
        push_str(&mut s, " while ");
        push_str(&mut s, self.context.as_str());
        assert(s@ =~= unknown_share_text(*self));
        s
    }
}

impl AppErrorMessage for UnknownShare {
    open spec fn spec_message(&self) -> Seq<char> {
        "Unknown share '"@ + self.share_name@ + "'"@
    }

    fn message(&self) -> (r: String) {
        let mut s = String::new();
        push_str(&mut s, "Unknown share '");
        push_str(&mut s, self.share_name.as_str());
        push_str(&mut s, "'");
        assert(s@ =~= self.spec_message());
        s
    }
}

/// The error UnknownShareId; its text reads "UnknownShareID: {share_id} while {context}".
#[derive(Debug)]
pub struct UnknownShareId {
    pub share_id: u64,
    pub context: String,
}

/// The text of `UnknownShareId`.
pub open spec fn unknown_share_id_text(e: UnknownShareId) -> Seq<char> {
    "UnknownShareID: "@ + decimal(e.share_id as nat) + " while "@ + e.context@
}

impl UnknownShareId {
    /// The error about the given values.
    pub fn new(share_id: u64, context: &str) -> (r: UnknownShareId)
        ensures
            r.share_id == share_id,
            r.context@ == context@,
    {
        UnknownShareId { share_id, context: String::from_str(context) }
    }

    /// The text of the error.
    pub fn display_text(&self) -> (r: String)
        ensures
            r@ == unknown_share_id_text(*self),
    {
        let mut s = String::new();
        push_str(&mut s, "UnknownShareID: ");
        push_decimal(&mut s, self.share_id as u64);
        push_str(&mut s, " while ");
        push_str(&mut s, self.context.as_str());
        assert(s@ =~= unknown_share_id_text(*self));
        s
    }
}

impl AppErrorMessage for UnknownShareId {
    open spec fn spec_message(&self) -> Seq<char> {
        "Unknown share id '"@ + decimal(self.share_id as nat) + "'"@
    }

    fn message(&self) -> (r: String) {
        let mut s = String::new();
        push_str(&mut s, "Unknown share id '");
        push_decimal(&mut s, self.share_id as u64);
        push_str(&mut s, "'");
        assert(s@ =~= self.spec_message());
        s
    }
}

/// The errors that the meta service reports to applications.
#[derive(Debug)]
pub enum AppError {
    TableVersionMismatched(TableVersionMismatched),
    TableAlreadyExists(TableAlreadyExists),
    CreateTableWithDropTime(CreateTableWithDropTime),
    UndropTableAlreadyExists(UndropTableAlreadyExists),
    UndropTableWithNoDropTime(UndropTableWithNoDropTime),
    DropTableWithDropTime(DropTableWithDropTime),
    UndropTableHasNoHistory(UndropTableHasNoHistory),
    DatabaseAlreadyExists(DatabaseAlreadyExists),
    CreateDatabaseWithDropTime(CreateDatabaseWithDropTime),
    DropDbWithDropTime(DropDbWithDropTime),
    UndropDbWithNoDropTime(UndropDbWithNoDropTime),
    UndropDbHasNoHistory(UndropDbHasNoHistory),
    UnknownDatabase(UnknownDatabase),
    UnknownDatabaseId(UnknownDatabaseId),
    UnknownTable(UnknownTable),
    UnknownTableId(UnknownTableId),
    ShareAlreadyExists(ShareAlreadyExists),
    UnknownShare(UnknownShare),
    UnknownShareId(UnknownShareId),
}

/// The text of an application error: the text of the error it holds.
pub open spec fn app_error_text(e: AppError) -> Seq<char> {
    match e {
        AppError::TableVersionMismatched(x) => table_version_mismatched_text(x),
        AppError::TableAlreadyExists(x) => table_already_exists_text(x),
        AppError::CreateTableWithDropTime(x) => create_table_with_drop_time_text(x),
        AppError::UndropTableAlreadyExists(x) => undrop_table_already_exists_text(x),
        AppError::UndropTableWithNoDropTime(x) => undrop_table_with_no_drop_time_text(x),
        AppError::DropTableWithDropTime(x) => drop_table_with_drop_time_text(x),
        AppError::UndropTableHasNoHistory(x) => undrop_table_has_no_history_text(x),
        AppError::DatabaseAlreadyExists(x) => database_already_exists_text(x),
        AppError::CreateDatabaseWithDropTime(x) => create_database_with_drop_time_text(x),
        AppError::DropDbWithDropTime(x) => drop_db_with_drop_time_text(x),
        AppError::UndropDbWithNoDropTime(x) => undrop_db_with_no_drop_time_text(x),
        AppError::UndropDbHasNoHistory(x) => undrop_db_has_no_history_text(x),
        AppError::UnknownDatabase(x) => unknown_database_text(x),
        AppError::UnknownDatabaseId(x) => unknown_database_id_text(x),
        AppError::UnknownTable(x) => unknown_table_text(x),
        AppError::UnknownTableId(x) => unknown_table_id_text(x),
        AppError::ShareAlreadyExists(x) => share_already_exists_text(x),
        AppError::UnknownShare(x) => unknown_share_text(x),
        AppError::UnknownShareId(x) => unknown_share_id_text(x),
    }
}

/// The error code of an application error: the code of its kind, with its message.
pub open spec fn app_error_code(e: AppError) -> ErrorView {
    match e {
        AppError::TableVersionMismatched(x) => ErrorView { kind: ErrorKind::TableVersionMismatched, message: x.spec_message() },
        AppError::TableAlreadyExists(x) => ErrorView { kind: ErrorKind::TableAlreadyExists, message: x.spec_message() },
        AppError::CreateTableWithDropTime(x) => ErrorView { kind: ErrorKind::CreateTableWithDropTime, message: x.spec_message() },
        AppError::UndropTableAlreadyExists(x) => ErrorView { kind: ErrorKind::UndropTableAlreadyExists, message: x.spec_message() },
        AppError::UndropTableWithNoDropTime(x) => ErrorView { kind: ErrorKind::UndropTableWithNoDropTime, message: x.spec_message() },
        AppError::DropTableWithDropTime(x) => ErrorView { kind: ErrorKind::DropTableWithDropTime, message: x.spec_message() },
        AppError::UndropTableHasNoHistory(x) => ErrorView { kind: ErrorKind::UndropTableHasNoHistory, message: x.spec_message() },
        AppError::DatabaseAlreadyExists(x) => ErrorView { kind: ErrorKind::DatabaseAlreadyExists, message: x.spec_message() },
        AppError::CreateDatabaseWithDropTime(x) => ErrorView { kind: ErrorKind::CreateDatabaseWithDropTime, message: x.spec_message() },
        AppError::DropDbWithDropTime(x) => ErrorView { kind: ErrorKind::DropDbWithDropTime, message: x.spec_message() },
        AppError::UndropDbWithNoDropTime(x) => ErrorView { kind: ErrorKind::UndropDbWithNoDropTime, message: x.spec_message() },
        AppError::UndropDbHasNoHistory(x) => ErrorView { kind: ErrorKind::UndropDbHasNoHistory, message: x.spec_message() },
        AppError::UnknownDatabase(x) => ErrorView { kind: ErrorKind::UnknownDatabase, message: x.spec_message() },
        AppError::UnknownDatabaseId(x) => ErrorView { kind: ErrorKind::UnknownDatabaseId, message: x.spec_message() },
        AppError::UnknownTable(x) => ErrorView { kind: ErrorKind::UnknownTable, message: x.spec_message() },
        AppError::UnknownTableId(x) => ErrorView { kind: ErrorKind::UnknownTableId, message: x.spec_message() },
        AppError::ShareAlreadyExists(x) => ErrorView { kind: ErrorKind::ShareAlreadyExists, message: x.spec_message() },
        AppError::UnknownShare(x) => ErrorView { kind: ErrorKind::UnknownShare, message: x.spec_message() },
        AppError::UnknownShareId(x) => ErrorView { kind: ErrorKind::UnknownShareId, message: x.spec_message() },
    }
}

impl AppError {
    /// The text of the error.
    pub fn display_text(&self) -> (r: String)
        ensures
            r@ == app_error_text(*self),
    {
        match self {
            AppError::TableVersionMismatched(x) => x.display_text(),
            AppError::TableAlreadyExists(x) => x.display_text(),
            AppError::CreateTableWithDropTime(x) => x.display_text(),
            AppError::UndropTableAlreadyExists(x) => x.display_text(),
            AppError::UndropTableWithNoDropTime(x) => x.display_text(),
            AppError::DropTableWithDropTime(x) => x.display_text(),
            AppError::UndropTableHasNoHistory(x) => x.display_text(),
            AppError::DatabaseAlreadyExists(x) => x.display_text(),
            AppError::CreateDatabaseWithDropTime(x) => x.display_text(),
            AppError::DropDbWithDropTime(x) => x.display_text(),
            AppError::UndropDbWithNoDropTime(x) => x.display_text(),
            AppError::UndropDbHasNoHistory(x) => x.display_text(),
            AppError::UnknownDatabase(x) => x.display_text(),
            AppError::UnknownDatabaseId(x) => x.display_text(),
            AppError::UnknownTable(x) => x.display_text(),
            AppError::UnknownTableId(x) => x.display_text(),
            AppError::ShareAlreadyExists(x) => x.display_text(),
            AppError::UnknownShare(x) => x.display_text(),
            AppError::UnknownShareId(x) => x.display_text(),
        }
    }

    /// The error code that the error converts to.
    pub fn to_error_code(self) -> (r: ErrorCode)
        ensures
            r@ == app_error_code(self),
    {
        match self {
            AppError::TableVersionMismatched(err) => ErrorCode::create(ErrorKind::TableVersionMismatched, err.message()),
            AppError::TableAlreadyExists(err) => ErrorCode::create(ErrorKind::TableAlreadyExists, err.message()),
            AppError::CreateTableWithDropTime(err) => ErrorCode::create(ErrorKind::CreateTableWithDropTime, err.message()),
            AppError::UndropTableAlreadyExists(err) => ErrorCode::create(ErrorKind::UndropTableAlreadyExists, err.message()),
            AppError::UndropTableWithNoDropTime(err) => ErrorCode::create(ErrorKind::UndropTableWithNoDropTime, err.message()),
            AppError::DropTableWithDropTime(err) => ErrorCode::create(ErrorKind::DropTableWithDropTime, err.message()),
            AppError::UndropTableHasNoHistory(err) => ErrorCode::create(ErrorKind::UndropTableHasNoHistory, err.message()),
            AppError::DatabaseAlreadyExists(err) => ErrorCode::create(ErrorKind::DatabaseAlreadyExists, err.message()),
            AppError::CreateDatabaseWithDropTime(err) => ErrorCode::create(ErrorKind::CreateDatabaseWithDropTime, err.message()),
            AppError::DropDbWithDropTime(err) => ErrorCode::create(ErrorKind::DropDbWithDropTime, err.message()),
            AppError::UndropDbWithNoDropTime(err) => ErrorCode::create(ErrorKind::UndropDbWithNoDropTime, err.message()),
            AppError::UndropDbHasNoHistory(err) => ErrorCode::create(ErrorKind::UndropDbHasNoHistory, err.message()),
            AppError::UnknownDatabase(err) => ErrorCode::create(ErrorKind::UnknownDatabase, err.message()),
            AppError::UnknownDatabaseId(err) => ErrorCode::create(ErrorKind::UnknownDatabaseId, err.message()),
            AppError::UnknownTable(err) => ErrorCode::create(ErrorKind::UnknownTable, err.message()),
            AppError::UnknownTableId(err) => ErrorCode::create(ErrorKind::UnknownTableId, err.message()),
            AppError::ShareAlreadyExists(err) => ErrorCode::create(ErrorKind::ShareAlreadyExists, err.message()),
            AppError::UnknownShare(err) => ErrorCode::create(ErrorKind::UnknownShare, err.message()),
            AppError::UnknownShareId(err) => ErrorCode::create(ErrorKind::UnknownShareId, err.message()),
        }
    }
}

/// The failures of the meta storage. The failures that come from the
/// embedded store hold the text of the underlying error.
#[derive(Debug)]
pub enum MetaStorageError {
    BytesError(String),
    SerdeError(String),
    SledError(String),
    Damaged(String),
    SnapshotError(String),
    TransactionConflict,
    AppError(AppError),
}

/// The text of a storage failure.
pub open spec fn meta_storage_error_text(e: MetaStorageError) -> Seq<char> {
    match e {
        MetaStorageError::BytesError(s) => s@,
        MetaStorageError::SerdeError(s) => s@,
        MetaStorageError::SledError(s) => s@,
        MetaStorageError::Damaged(s) => s@,
        MetaStorageError::SnapshotError(s) => s@,
        MetaStorageError::TransactionConflict => "Conflict when execute transaction, just retry"@,
        MetaStorageError::AppError(a) => app_error_text(a),
    }
}

/// The error code of a storage failure: that of the application error it
/// holds, else a `MetaStorageError` with its text.
pub open spec fn meta_storage_error_code(e: MetaStorageError) -> ErrorView {
    match e {
        MetaStorageError::AppError(a) => app_error_code(a),
        _ => ErrorView { kind: ErrorKind::MetaStorageError, message: meta_storage_error_text(e) },
    }
}

impl MetaStorageError {
    /// The text of the failure.
    pub fn display_text(&self) -> (r: String)
        ensures
            r@ == meta_storage_error_text(*self),
    {
        match self {
            MetaStorageError::BytesError(s) => s.clone(),
            MetaStorageError::SerdeError(s) => s.clone(),
            MetaStorageError::SledError(s) => s.clone(),
            MetaStorageError::Damaged(s) => s.clone(),
            MetaStorageError::SnapshotError(s) => s.clone(),
            MetaStorageError::TransactionConflict => String::from_str("Conflict when execute transaction, just retry"),
            MetaStorageError::AppError(a) => a.display_text(),
        }
    }

    /// The error code that the failure converts to.
    pub fn to_error_code(self) -> (r: ErrorCode)
        ensures
            r@ == meta_storage_error_code(self),
    {
        match self {
            MetaStorageError::AppError(a) => a.to_error_code(),
            _ => {
                let t = self.display_text();
                ErrorCode::create(ErrorKind::MetaStorageError, t)
            },
        }
    }

    /// The failure of bytes that are not UTF-8, with the text of its cause.
    pub fn from_utf8_error(cause: &str) -> (r: MetaStorageError)
        ensures
            r matches MetaStorageError::BytesError(s) && s@ == "Bad bytes, cannot parse bytes with UTF8, cause: "@ + cause@,
    {
        let mut s = String::new();
        push_str(&mut s, "Bad bytes, cannot parse bytes with UTF8, cause: ");
        push_str(&mut s, cause);
        MetaStorageError::BytesError(s)
    }

    /// The failure to encode or decode JSON, with the debug text of its cause.
    pub fn from_serde_json_error(cause: &str) -> (r: MetaStorageError)
        ensures
            r matches MetaStorageError::SerdeError(s) && s@ == "serde json se/de error: "@ + cause@,
    {
        let mut s = String::new();
        push_str(&mut s, "serde json se/de error: ");
        push_str(&mut s, cause);
        MetaStorageError::SerdeError(s)
    }
}

/// The text of a storage failure raised while doing something: what was being
/// done and the cause (`map_error_to_meta_storage_error`).
pub fn map_error_to_meta_storage_error_text(context: &str, cause: &str) -> (r: String)
    ensures
        r@ == "meta storage error: "@ + context@ + ", cause: "@ + cause@,
{
    let mut s = String::new();
    push_str(&mut s, "meta storage error: ");
    push_str(&mut s, context);
    push_str(&mut s, ", cause: ");
    push_str(&mut s, cause);
    s
}


/// Wraps the error of a result into a storage error, built only when there
/// is an error.
pub trait ToMetaStorageError<T, E, CtxFn> where E: core::fmt::Display {
    /// On an error: `meta storage error: `, the text of what was being done
    /// (from `context_fn`), `, cause: ` and the error's text, handed to
    /// `err_code_fn`, which builds the storage error. A success stays as it is.
    fn map_error_to_meta_storage_error<ErrFn, D>(self, err_code_fn: ErrFn, context_fn: CtxFn) -> Result<T, MetaStorageError> where
        ErrFn: FnOnce(String) -> MetaStorageError,
        D: core::fmt::Display,
        CtxFn: FnOnce() -> D,
        requires
            call_requires(context_fn, ()),
            forall|s: String| call_requires(err_code_fn, (s,)),
    ;
}

impl<T, E, CtxFn> ToMetaStorageError<T, E, CtxFn> for Result<T, E> where E: core::fmt::Display {
    fn map_error_to_meta_storage_error<ErrFn, D>(self, err_code_fn: ErrFn, context_fn: CtxFn) -> (r: Result<T, MetaStorageError>) where
        ErrFn: FnOnce(String) -> MetaStorageError,
        D: core::fmt::Display,
        CtxFn: FnOnce() -> D,
        ensures
            match self {
                Ok(v) => r == Ok::<T, MetaStorageError>(v),
                Err(e) => r matches Err(m) && exists|ctx: D, ctx_text: String, cause_text: String, text: String| {
                    &&& call_ensures(context_fn, (), ctx)
                    &&& vstd::string::to_string_from_display_ensures::<D>(&ctx, ctx_text)
                    &&& vstd::string::to_string_from_display_ensures::<E>(&e, cause_text)
                    &&& text@ == "meta storage error: "@ + ctx_text@ + ", cause: "@ + cause_text@
                    &&& call_ensures(err_code_fn, (text,), m)
                },
            },
    {
        match self {
            Ok(v) => Ok(v),
            Err(error) => {
                let ctx = context_fn();
                let ctx_text = ctx.to_string();
                let cause_text = error.to_string();
                let text = map_error_to_meta_storage_error_text(ctx_text.as_str(), cause_text.as_str());
                Err(err_code_fn(text))
            },
        }
    }
}

} // verus!
