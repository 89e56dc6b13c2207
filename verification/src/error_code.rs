//! The error codes that the services answer with: a kind and a message.
use vstd::prelude::*;

verus! {

/// The kinds of error that the logic of this library raises.
#[derive(PartialEq, Eq, Structural, Clone, Copy, Debug)]
pub enum ErrorKind {
    BadArguments,
    BadDataValueType,
    IllegalDataType,
    LogicalError,
    UnknownDatabase,
    UnknownDatabaseId,
    UnknownTable,
    UnknownTableId,
    DatabaseAlreadyExists,
    CreateDatabaseWithDropTime,
    UndropDbHasNoHistory,
    UndropTableWithNoDropTime,
    DropTableWithDropTime,
    DropDbWithDropTime,
    UndropDbWithNoDropTime,
    TableAlreadyExists,
    CreateTableWithDropTime,
    UndropTableAlreadyExists,
    UndropTableHasNoHistory,
    TableVersionMismatched,
    ShareAlreadyExists,
    UnknownShare,
    UnknownShareId,
    ShareAccountAlreadyExists,
    UnknownShareAccount,
    WrongShareObject,
    TxnRetryMaxTimes,
    MetaStorageError,
    MetaServiceError,
    SemanticError,
    SyntaxException,
    UnImplement,
    AbortedQuery,
    AbortedSession,
    TableInfoError,
    ReadTableDataError,
    InvalidArgument,
}

/// An error: its kind and the message that explains it.
#[derive(Debug)]
pub struct ErrorCode {
    pub kind: ErrorKind,
    pub message: String,
}

/// What an error is: its kind and the characters of its message.
pub struct ErrorView {
    pub kind: ErrorKind,
    pub message: Seq<char>,
}

impl View for ErrorCode {
    type V = ErrorView;

    open spec fn view(&self) -> ErrorView {
        ErrorView { kind: self.kind, message: self.message@ }
    }
}

impl ErrorCode {
    /// An error of the given kind with the given message.
    pub fn create(kind: ErrorKind, message: String) -> (e: ErrorCode)
        ensures
            e.kind == kind,
            e.message@ == message@,
    {
        ErrorCode { kind, message }
    }

    /// The kind of the error.
    pub fn kind(&self) -> (k: ErrorKind)
        ensures
            k == self.kind,
    {
        self.kind
    }

    /// A copy of the message of the error.
    pub fn message(&self) -> (m: String)
        ensures
            m@ == self.message@,
    {
        self.message.clone()
    }
}

} // verus!
