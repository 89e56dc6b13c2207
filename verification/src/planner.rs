//! Small pieces of the query planner: what is pushed down to a table scan,
//! the plan that restores a dropped table, and the tree that plans are
//! formatted as.
use vstd::prelude::*;

use vstd::std_specs::convert::FromSpecImpl;

verus! {

/// What a scan may be asked to do itself: read only some columns, filter,
/// stop after a number of rows, and order.
#[derive(Debug, Clone)]
pub struct Extras<E> {
    /// The indices of the columns to read, if not all.
    pub projection: Option<Vec<usize>>,
    /// The filters to apply.
    pub filters: Vec<E>,
    /// The number of rows to read at most, if limited.
    pub limit: Option<usize>,
    /// The expressions to order by.
    pub order_by: Vec<E>,
}

impl<E> Extras<E> {
    /// Nothing pushed down: all columns, no filter, no limit, no order.
    pub fn default() -> (r: Extras<E>)
        ensures
            r.projection is None,
            r.filters@ == Seq::<E>::empty(),
            r.limit is None,
            r.order_by@ == Seq::<E>::empty(),
    {
        Extras { projection: None, filters: Vec::new(), limit: None, order_by: Vec::new() }
    }
}

/// A table named within a tenant's database.
#[derive(Debug, Clone)]
pub struct TableNameIdent {
    pub tenant: String,
    pub db_name: String,
    pub table_name: String,
}

/// A request to the meta service to restore a dropped table.
#[derive(Debug, Clone)]
pub struct UndropTableReq {
    pub name_ident: TableNameIdent,
}

/// The plan of `UNDROP TABLE`.
#[derive(Debug, Clone)]
pub struct UnDropTablePlan {
    pub tenant: String,
    pub catalog: String,
    pub db: String,
    pub table: String,
}

impl From<UnDropTablePlan> for UndropTableReq {
    /// The request names the plan's table in its tenant and database.
    fn from(p: UnDropTablePlan) -> (r: UndropTableReq) {
        UndropTableReq { name_ident: TableNameIdent { tenant: p.tenant, db_name: p.db, table_name: p.table } }
    }
}

impl FromSpecImpl<UnDropTablePlan> for UndropTableReq {
    open spec fn obeys_from_spec() -> bool {
        true
    }

    open spec fn from_spec(p: UnDropTablePlan) -> UndropTableReq {
        UndropTableReq { name_ident: TableNameIdent { tenant: p.tenant, db_name: p.db, table_name: p.table } }
    }
}

/// A database named within a tenant.
#[derive(Debug, Clone)]
pub struct DatabaseNameIdent {
    pub tenant: String,
    pub db_name: String,
}

/// A request to the meta service to create a database with its metadata.
#[derive(Debug)]
pub struct CreateDatabaseReq<M> {
    pub if_not_exists: bool,
    pub name_ident: DatabaseNameIdent,
    pub meta: M,
}

/// The plan of `CREATE DATABASE`, with the database's metadata.
#[derive(Debug)]
pub struct CreateDatabasePlan<M> {
    pub if_not_exists: bool,
    pub tenant: String,
    pub catalog: String,
    pub database: String,
    pub meta: M,
}

impl<M> From<CreateDatabasePlan<M>> for CreateDatabaseReq<M> {
    /// The request names the plan's database in its tenant and carries its
    /// metadata.
    fn from(p: CreateDatabasePlan<M>) -> (r: CreateDatabaseReq<M>) {
        CreateDatabaseReq {
            if_not_exists: p.if_not_exists,
            name_ident: DatabaseNameIdent { tenant: p.tenant, db_name: p.database },
            meta: p.meta,
        }
    }
}

impl<M> FromSpecImpl<CreateDatabasePlan<M>> for CreateDatabaseReq<M> {
    open spec fn obeys_from_spec() -> bool {
        true
    }

    open spec fn from_spec(p: CreateDatabasePlan<M>) -> CreateDatabaseReq<M> {
        CreateDatabaseReq {
            if_not_exists: p.if_not_exists,
            name_ident: DatabaseNameIdent { tenant: p.tenant, db_name: p.database },
            meta: p.meta,
        }
    }
}

/// Where the rows of an insert come from: a select, the client in a
/// format, or values written in the statement.
#[derive(Debug)]
pub enum InsertInputSource<P, B> {
    SelectPlan(Box<P>),
    StreamingWithFormat(String),
    Values(B),
}

/// The plan of an `INSERT`.
#[derive(Debug)]
pub struct InsertPlan<P, B> {
    pub catalog: String,
    pub database: String,
    pub table: String,
    pub table_id: u64,
    pub overwrite: bool,
    pub source: InsertInputSource<P, B>,
}

impl<P, B> InsertPlan<P, B> {
    /// Whether the rows come from a select.
    pub fn has_select_plan(&self) -> (r: bool)
        ensures
            r == (self.source is SelectPlan),
    {
        match &self.source {
            InsertInputSource::SelectPlan(_) => true,
            _ => false,
        }
    }

    /// The format the rows come in: none for a select, the client's format
    /// for streamed rows, `values` for values in the statement.
    pub fn format(&self) -> (r: Option<&str>)
        ensures
            match self.source {
                InsertInputSource::SelectPlan(_) => r is None,
                InsertInputSource::StreamingWithFormat(f) => r matches Some(s) && s@ == f@,
                InsertInputSource::Values(_) => r matches Some(s) && s@ == "values"@,
            },
    {
        match &self.source {
            InsertInputSource::SelectPlan(_) => None,
            InsertInputSource::StreamingWithFormat(v) => Some(v.as_str()),
            InsertInputSource::Values(_) => Some("values"),
        }
    }
}

/// A node of a tree to be printed with indentation: a payload and the
/// nodes below it.
#[derive(Debug)]
pub struct FormatTreeNode<T> {
    payload: T,
    children: Vec<FormatTreeNode<T>>,
}

impl<T> FormatTreeNode<T> {
    /// The payload of the node.
    pub closed spec fn payload_view(&self) -> T {
        self.payload
    }

    /// The nodes below this one.
    pub closed spec fn children_view(&self) -> Seq<FormatTreeNode<T>> {
        self.children@
    }

    /// A leaf.
    pub fn new(payload: T) -> (r: FormatTreeNode<T>)
        ensures
            r.payload_view() == payload,
            r.children_view() == Seq::<FormatTreeNode<T>>::empty(),
    {
        FormatTreeNode { payload, children: Vec::new() }
    }

    /// A node over the given children, in order.
    pub fn with_children(payload: T, children: Vec<FormatTreeNode<T>>) -> (r: FormatTreeNode<T>)
        ensures
            r.payload_view() == payload,
            r.children_view() == children@,
    {
        FormatTreeNode { payload, children }
    }
}

} // verus!
