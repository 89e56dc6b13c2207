//! The decisions of the ClickHouse handler: how a query is run, when the
//! client hears of progress, and what is written back for each item a query
//! produces. The handler's network and runtime carry them out.
use vstd::prelude::*;

verus! {

/// How far a query has scanned: rows and bytes.
#[derive(PartialEq, Eq, Structural, Clone, Copy, Debug)]
pub struct ProgressValues {
    pub rows: usize,
    pub bytes: usize,
}

/// How a statement is run.
#[derive(PartialEq, Eq, Structural, Clone, Copy, Debug)]
pub enum QueryRoute {
    /// As a query whose results are sent to the client.
    Query,
    /// As an insert whose rows come from the client.
    InsertFromClient,
}

/// Runs the handler's decisions.
#[derive(Debug)]
pub struct InteractiveWorkerBase {}

impl InteractiveWorkerBase {
    /// How a statement runs: an insert whose rows come from a select runs
    /// like a query, since the client sends no data; any other insert takes
    /// its rows from the client; everything else is a query.
    pub fn route(is_insert: bool, has_select_plan: bool) -> (r: QueryRoute)
        ensures
            r == if is_insert && !has_select_plan { QueryRoute::InsertFromClient } else { QueryRoute::Query },
    {
        if is_insert && !has_select_plan {
            QueryRoute::InsertFromClient
        } else {
            QueryRoute::Query
        }
    }

    /// One tick of the progress reporter: what was scanned since the last
    /// report is reported when it holds rows, and becomes the new mark;
    /// otherwise nothing is reported and the mark stays.
    pub fn progress_step(prev: ProgressValues, cur: ProgressValues) -> (r: (ProgressValues, Option<ProgressValues>))
        requires
            prev.rows <= cur.rows,
            prev.bytes <= cur.bytes,
        ensures
            cur.rows - prev.rows > 0 ==> r == (cur, Some(ProgressValues {
                rows: (cur.rows - prev.rows) as usize,
                bytes: (cur.bytes - prev.bytes) as usize,
            })),
            cur.rows - prev.rows == 0 ==> r == (prev, None::<ProgressValues>),
    {
        let diff = ProgressValues { rows: cur.rows - prev.rows, bytes: cur.bytes - prev.bytes };
        if diff.rows > 0 {
            (cur, Some(diff))
        } else {
            (prev, None)
        }
    }
}

/// What a running query hands the writer: a block or the query's error, the
/// header of an insert, or progress.
#[derive(Debug)]
pub enum BlockItem<B, E> {
    Block(Result<B, E>),
    /// The empty block with the schema of an insert, sent once before the
    /// client's rows.
    InsertSample(B),
    ProgressTicker(ProgressValues),
}

/// What the writer does next.
#[derive(Debug)]
pub enum WriterAction<B, E> {
    /// No more items: the query is done.
    Finish,
    /// Sends progress and goes on.
    WriteProgress(ProgressValues),
    /// Sends the error and stops.
    WriteErrorAndStop(E),
    /// Sends a block and goes on.
    WriteBlock(B),
    /// Sends the header of an insert (the block carries its schema) and goes
    /// on.
    WriteHeader(B),
}

/// What the writer does with the next item, or with the end of the items.
pub fn writer_action<B, E>(item: Option<BlockItem<B, E>>) -> (r: WriterAction<B, E>)
    ensures
        match item {
            None => r is Finish,
            Some(BlockItem::ProgressTicker(v)) => r == WriterAction::<B, E>::WriteProgress(v),
            Some(BlockItem::Block(Err(e))) => r == WriterAction::<B, E>::WriteErrorAndStop(e),
            Some(BlockItem::Block(Ok(b))) => r == WriterAction::<B, E>::WriteBlock(b),
            Some(BlockItem::InsertSample(b)) => r == WriterAction::<B, E>::WriteHeader(b),
        },
{
    match item {
        None => WriterAction::Finish,
        Some(BlockItem::ProgressTicker(v)) => WriterAction::WriteProgress(v),
        Some(BlockItem::Block(Err(e))) => WriterAction::WriteErrorAndStop(e),
        Some(BlockItem::Block(Ok(b))) => WriterAction::WriteBlock(b),
        Some(BlockItem::InsertSample(b)) => WriterAction::WriteHeader(b),
    }
}

/// What the query's data pump does with the next item of the query's
/// stream: forward it, and stop after the end, an error, or a failed send.
#[derive(PartialEq, Eq, Structural, Clone, Copy, Debug)]
pub enum PumpAction {
    /// The stream ended.
    Stop,
    /// Forward a block; stop if the client is gone.
    ForwardBlock,
    /// Forward the error and stop.
    ForwardErrorAndStop,
}

/// What the data pump does with the next item of the stream: `None` for
/// the end, or whether the item is a block (`true`) or an error.
pub fn pump_action(next_is_block: Option<bool>) -> (r: PumpAction)
    ensures
        r == match next_is_block {
            None => PumpAction::Stop,
            Some(true) => PumpAction::ForwardBlock,
            Some(false) => PumpAction::ForwardErrorAndStop,
        },
{
    match next_is_block {
        None => PumpAction::Stop,
        Some(true) => PumpAction::ForwardBlock,
        Some(false) => PumpAction::ForwardErrorAndStop,
    }
}


/// A column type of the ClickHouse protocol, as far as inserts read it;
/// `Other` stands for every type that they do not read.
#[derive(Debug)]
pub enum SqlType {
    UInt8,
    UInt16,
    UInt32,
    UInt64,
    Int8,
    Int16,
    Int32,
    Int64,
    Float32,
    Float64,
    String,
    FixedString(usize),
    Date,
    DateTime,
    Nullable(Box<SqlType>),
    Other,
}

/// The column an inserted ClickHouse column becomes.
#[derive(PartialEq, Eq, Structural, Clone, Copy, Debug)]
pub enum ColumnKind {
    UInt8,
    UInt16,
    UInt32,
    UInt64,
    Int8,
    Int16,
    Int32,
    Int64,
    Float32,
    Float64,
    String,
    /// Dates as `Int32` days since the start of the common era.
    DateDays,
    /// Nullable dates as days since the start of the common era, cut to
    /// `UInt16`.
    DateDaysCut,
    /// Date-times as `Int64` microseconds since the epoch.
    DateTimeMicros,
}

/// The kind of a column that is not nullable.
pub open spec fn plain_kind(t: SqlType) -> Option<ColumnKind> {
    match t {
        SqlType::UInt8 => Some(ColumnKind::UInt8),
        SqlType::UInt16 => Some(ColumnKind::UInt16),
        SqlType::UInt32 => Some(ColumnKind::UInt32),
        SqlType::UInt64 => Some(ColumnKind::UInt64),
        SqlType::Int8 => Some(ColumnKind::Int8),
        SqlType::Int16 => Some(ColumnKind::Int16),
        SqlType::Int32 => Some(ColumnKind::Int32),
        SqlType::Int64 => Some(ColumnKind::Int64),
        SqlType::Float32 => Some(ColumnKind::Float32),
        SqlType::Float64 => Some(ColumnKind::Float64),
        SqlType::String => Some(ColumnKind::String),
        SqlType::FixedString(_) => Some(ColumnKind::String),
        SqlType::Date => Some(ColumnKind::DateDays),
        SqlType::DateTime => Some(ColumnKind::DateTimeMicros),
        _ => None,
    }
}

/// The column a ClickHouse column becomes: its kind and whether it is
/// nullable; nullable dates are cut to 16 bits; a type nullable twice, or
/// one that inserts do not read, becomes none.
pub open spec fn column_kind_of(t: SqlType) -> Option<(ColumnKind, bool)> {
    match t {
        SqlType::Nullable(inner) => match *inner {
            SqlType::Date => Some((ColumnKind::DateDaysCut, true)),
            other => match plain_kind(other) {
                Some(k) => Some((k, true)),
                None => None,
            },
        },
        other => match plain_kind(other) {
            Some(k) => Some((k, false)),
            None => None,
        },
    }
}

fn plain_column_kind(t: &SqlType) -> (r: Option<ColumnKind>)
    ensures
        r == plain_kind(*t),
{
    match t {
        SqlType::UInt8 => Some(ColumnKind::UInt8),
        SqlType::UInt16 => Some(ColumnKind::UInt16),
        SqlType::UInt32 => Some(ColumnKind::UInt32),
        SqlType::UInt64 => Some(ColumnKind::UInt64),
        SqlType::Int8 => Some(ColumnKind::Int8),
        SqlType::Int16 => Some(ColumnKind::Int16),
        SqlType::Int32 => Some(ColumnKind::Int32),
        SqlType::Int64 => Some(ColumnKind::Int64),
        SqlType::Float32 => Some(ColumnKind::Float32),
        SqlType::Float64 => Some(ColumnKind::Float64),
        SqlType::String => Some(ColumnKind::String),
        SqlType::FixedString(_) => Some(ColumnKind::String),
        SqlType::Date => Some(ColumnKind::DateDays),
        SqlType::DateTime => Some(ColumnKind::DateTimeMicros),
        _ => None,
    }
}

/// The column that an inserted ClickHouse column of the given type
/// becomes; `None` for a type that inserts do not read, which fails the
/// insert as unsupported.
pub fn column_kind(t: &SqlType) -> (r: Option<(ColumnKind, bool)>)
    ensures
        r == column_kind_of(*t),
{
    match t {
        SqlType::Nullable(inner) => match &**inner {
            SqlType::Date => Some((ColumnKind::DateDaysCut, true)),
            other => match plain_column_kind(other) {
                Some(k) => Some((k, true)),
                None => None,
            },
        },
        other => match plain_column_kind(other) {
            Some(k) => Some((k, false)),
            None => None,
        },
    }
}

} // verus!
