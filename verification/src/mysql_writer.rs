//! What the MySQL handler tells clients about a result: the column types of
//! its schema, whether there are rows to send at all, and which error a
//! failed query is reported as.
use vstd::prelude::*;

use crate::data_type::DataTypeImpl;
use crate::data_type::TypeID;
use crate::data_type::TypeView;
use crate::data_type::spec_is_date_or_date_time;
use crate::data_type::spec_is_floating;
use crate::data_type::id_of;
use crate::data_type::spec_remove_nullable;
use crate::data_type::spec_type_name;
use crate::data_type::remove_nullable;
use crate::error_code::ErrorCode;
use crate::error_code::ErrorKind;
use crate::text::push_str;

verus! {

/// The column types of the MySQL protocol that results use.
#[derive(PartialEq, Eq, Structural, Clone, Copy, Debug)]
pub enum MysqlColumnType {
    Long,
    Float,
    Varchar,
    Short,
    Date,
    Datetime,
    Null,
}

/// The MySQL column type of a data type, nullable or not: integers and
/// intervals are longs, floats are floats, strings and the nested and
/// semi-structured types are text, booleans are shorts. A type nullable
/// twice has none.
pub open spec fn mysql_type_of(id: TypeID) -> Option<MysqlColumnType> {
    match id {
        TypeID::Int8 | TypeID::Int16 | TypeID::Int32 | TypeID::Int64 | TypeID::UInt8 | TypeID::UInt16
        | TypeID::UInt32 | TypeID::UInt64 | TypeID::Interval => Some(MysqlColumnType::Long),
        TypeID::Float32 | TypeID::Float64 => Some(MysqlColumnType::Float),
        TypeID::String | TypeID::Array | TypeID::Struct | TypeID::Variant | TypeID::VariantArray
        | TypeID::VariantObject => Some(MysqlColumnType::Varchar),
        TypeID::Boolean => Some(MysqlColumnType::Short),
        TypeID::Date => Some(MysqlColumnType::Date),
        TypeID::Timestamp => Some(MysqlColumnType::Datetime),
        TypeID::Null => Some(MysqlColumnType::Null),
        TypeID::Nullable => None,
    }
}

/// The MySQL column type of a field's data type; a type that has none is an
/// `UnImplement` error naming the type.
pub fn convert_field_type(data_type: &DataTypeImpl) -> (r: Result<MysqlColumnType, ErrorCode>)
    ensures
        match mysql_type_of(id_of(spec_remove_nullable(data_type@))) {
            Some(t) => r == Ok::<MysqlColumnType, ErrorCode>(t),
            None => r matches Err(e) && e.kind == ErrorKind::UnImplement
                && e.message@ == "Unsupported column type:"@ + spec_type_name(data_type@),
        },
{
    let inner = remove_nullable(data_type);
    match inner.data_type_id() {
        TypeID::Int8 | TypeID::Int16 | TypeID::Int32 | TypeID::Int64 | TypeID::UInt8 | TypeID::UInt16
        | TypeID::UInt32 | TypeID::UInt64 | TypeID::Interval => Ok(MysqlColumnType::Long),
        TypeID::Float32 | TypeID::Float64 => Ok(MysqlColumnType::Float),
        TypeID::String | TypeID::Array | TypeID::Struct | TypeID::Variant | TypeID::VariantArray
        | TypeID::VariantObject => Ok(MysqlColumnType::Varchar),
        TypeID::Boolean => Ok(MysqlColumnType::Short),
        TypeID::Date => Ok(MysqlColumnType::Date),
        TypeID::Timestamp => Ok(MysqlColumnType::Datetime),
        TypeID::Null => Ok(MysqlColumnType::Null),
        TypeID::Nullable => {
            let mut m = String::new();
            push_str(&mut m, "Unsupported column type:");
            let n = data_type.name();
            push_str(&mut m, n.as_str());
            Err(ErrorCode::create(ErrorKind::UnImplement, m))
        },
    }
}

/// A column of a result set as the MySQL protocol describes it.
#[derive(Debug, Clone)]
pub struct MysqlColumn {
    pub table: String,
    pub column: String,
    pub coltype: MysqlColumnType,
}

/// The columns of a schema, given as the names and types of its fields, in
/// order; the first field without a MySQL type stops it with its error.
pub fn convert_schema(fields: &Vec<(String, DataTypeImpl)>) -> (r: Result<Vec<MysqlColumn>, ErrorCode>)
    ensures
        match r {
            Ok(cols) => {
                &&& cols@.len() == fields@.len()
                &&& forall|i: int| 0 <= i < fields@.len() ==> {
                    &&& (#[trigger] cols@[i]).table@ == Seq::<char>::empty()
                    &&& cols@[i].column@ == fields@[i].0@
                    &&& Some(cols@[i].coltype) == mysql_type_of(id_of(spec_remove_nullable(fields@[i].1@)))
                }
            },
            Err(e) => exists|i: int| 0 <= i < fields@.len() && {
                &&& mysql_type_of(id_of(spec_remove_nullable((#[trigger] fields@[i]).1@))) is None
                &&& forall|j: int| 0 <= j < i ==> mysql_type_of(id_of(spec_remove_nullable((#[trigger] fields@[j]).1@))) is Some
                &&& e.kind == ErrorKind::UnImplement
                &&& e.message@ == "Unsupported column type:"@ + spec_type_name(fields@[i].1@)
            },
        },
{
    let mut cols: Vec<MysqlColumn> = Vec::new();
    let mut i: usize = 0;
    while i < fields.len()
        invariant
            i <= fields@.len(),
            cols@.len() == i,
            forall|k: int| 0 <= k < i ==> {
                &&& (#[trigger] cols@[k]).table@ == Seq::<char>::empty()
                &&& cols@[k].column@ == fields@[k].0@
                &&& Some(cols@[k].coltype) == mysql_type_of(id_of(spec_remove_nullable(fields@[k].1@)))
            },
        decreases fields@.len() - i,
    {
        match convert_field_type(&fields[i].1) {
            Ok(coltype) => {
                cols.push(MysqlColumn { table: String::new(), column: fields[i].0.clone(), coltype });
            },
            Err(e) => {
                assert(forall|j: int| 0 <= j < i ==> mysql_type_of(id_of(spec_remove_nullable((#[trigger] fields@[j]).1@))) is Some) by {
                    assert forall|j: int| 0 <= j < i implies mysql_type_of(id_of(spec_remove_nullable((#[trigger] fields@[j]).1@))) is Some by {
                        assert(Some(cols@[j].coltype) == mysql_type_of(id_of(spec_remove_nullable(fields@[j].1@))));
                    }
                }
                return Err(e);
            },
        }
        i = i + 1;
    }
    Ok(cols)
}

/// Whether a result is answered with a plain OK and no rows: it has no
/// result set and no blocks, or its schema has no fields.
pub fn completes_without_rows(has_result_set: bool, no_blocks: bool, num_fields: usize) -> (r: bool)
    ensures
        r == ((!has_result_set && no_blocks) || num_fields == 0),
{
    (!has_result_set && no_blocks) || num_fields == 0
}

/// The MySQL errors a failed query is reported as.
#[derive(PartialEq, Eq, Structural, Clone, Copy, Debug)]
pub enum MysqlErrorKind {
    UnknownError,
    AbortingConnection,
}

/// Which error a failed query is reported as: aborting the connection when
/// the query or the session was aborted, an unknown error otherwise.
pub fn mysql_error_kind(kind: ErrorKind) -> (r: MysqlErrorKind)
    ensures
        r == if kind == ErrorKind::AbortedQuery || kind == ErrorKind::AbortedSession {
            MysqlErrorKind::AbortingConnection
        } else {
            MysqlErrorKind::UnknownError
        },
{
    if kind == ErrorKind::AbortedQuery || kind == ErrorKind::AbortedSession {
        MysqlErrorKind::AbortingConnection
    } else {
        MysqlErrorKind::UnknownError
    }
}


/// A value of a result cell, as the writer tells values apart: the payload
/// of a float, an array, a struct or a variant is not read here, as they are
/// written through the column's serializer.
#[derive(Debug, Clone)]
pub enum CellValue {
    Null,
    Boolean(bool),
    Int64(i64),
    UInt64(u64),
    Float64,
    String(Vec<u8>),
    Array,
    Struct,
    Variant,
}

/// How a cell is written to the MySQL text protocol.
#[derive(Debug, Clone, PartialEq, Eq)]
pub enum CellWrite {
    /// A NULL cell.
    Null,
    /// A small integer (booleans as 0 and 1).
    Tiny(i8),
    /// A date, by its days since the epoch.
    Date(i32),
    /// The text the column's serializer gives for the row.
    Serialized,
    /// The bytes of a string.
    Bytes(Vec<u8>),
    /// A signed integer.
    Int(i64),
    /// An unsigned integer.
    UInt(u64),
}

/// How a cell of a column of the given type (nullable or not) is written;
/// `None` when the value does not fit the type.
pub open spec fn cell_write_of(id: TypeID, value: CellValue) -> Option<CellWrite> {
    match value {
        CellValue::Null => Some(CellWrite::Null),
        CellValue::Boolean(b) => if id == TypeID::Boolean {
            Some(CellWrite::Tiny(if b { 1i8 } else { 0i8 }))
        } else {
            None
        },
        CellValue::Int64(v) => if id == TypeID::Date {
            Some(CellWrite::Date(v as i32))
        } else if id == TypeID::Timestamp {
            Some(CellWrite::Serialized)
        } else {
            Some(CellWrite::Int(v))
        },
        CellValue::UInt64(v) => Some(CellWrite::UInt(v)),
        CellValue::Float64 => Some(CellWrite::Serialized),
        CellValue::String(bytes) => if id == TypeID::String {
            Some(CellWrite::Bytes(bytes))
        } else {
            None
        },
        CellValue::Array => if id == TypeID::Array { Some(CellWrite::Serialized) } else { None },
        CellValue::Struct => if id == TypeID::Struct { Some(CellWrite::Serialized) } else { None },
        CellValue::Variant => if id == TypeID::Variant || id == TypeID::VariantArray || id == TypeID::VariantObject {
            Some(CellWrite::Serialized)
        } else {
            None
        },
    }
}

/// How a cell is written: NULL as NULL, then by the column's type with its
/// nullability taken off and the value. A value that does not fit the type
/// is a `BadDataValueType` error naming the value's own type (given by its
/// text) and the column's.
pub fn write_cell(data_type: &DataTypeImpl, value: CellValue, value_type_name: &str) -> (r: Result<CellWrite, ErrorCode>)
    ensures
        match cell_write_of(id_of(spec_remove_nullable(data_type@)), value) {
            Some(w) => r == Ok::<CellWrite, ErrorCode>(w),
            None => r matches Err(e) && e.kind == ErrorKind::BadDataValueType && e.message@ == "Unsupported column type:"@
                + value_type_name@ + ", expected type in schema: "@ + spec_type_name(spec_remove_nullable(data_type@)),
        },
{
    if let CellValue::Null = value {
        return Ok(CellWrite::Null);
    }
    let inner = remove_nullable(data_type);
    let id = inner.data_type_id();
    let w: Option<CellWrite> = match value {
        CellValue::Null => Some(CellWrite::Null),
        CellValue::Boolean(b) => if id == TypeID::Boolean {
            Some(CellWrite::Tiny(if b { 1i8 } else { 0i8 }))
        } else {
            None
        },
        CellValue::Int64(v) => if id == TypeID::Date {
            Some(CellWrite::Date(v as i32))
        } else if id == TypeID::Timestamp {
            Some(CellWrite::Serialized)
        } else {
            Some(CellWrite::Int(v))
        },
        CellValue::UInt64(v) => Some(CellWrite::UInt(v)),
        CellValue::Float64 => Some(CellWrite::Serialized),
        CellValue::String(bytes) => if id == TypeID::String {
            Some(CellWrite::Bytes(bytes))
        } else {
            None
        },
        CellValue::Array => if id == TypeID::Array { Some(CellWrite::Serialized) } else { None },
        CellValue::Struct => if id == TypeID::Struct { Some(CellWrite::Serialized) } else { None },
        CellValue::Variant => if id == TypeID::Variant || id == TypeID::VariantArray || id == TypeID::VariantObject {
            Some(CellWrite::Serialized)
        } else {
            None
        },
    };
    match w {
        Some(w) => Ok(w),
        None => {
            let mut m = String::new();
            push_str(&mut m, "Unsupported column type:");
            push_str(&mut m, value_type_name);
            push_str(&mut m, ", expected type in schema: ");
            let n = inner.name();
            push_str(&mut m, n.as_str());
            Err(ErrorCode::create(ErrorKind::BadDataValueType, m))
        },
    }
}


/// The column type announced for a column agrees with how its cells are
/// written: a column whose cells are written as dates is a `DATE` column,
/// one written as booleans a small-integer column, one written as string
/// bytes a text column, and one of plain integers a long one; a timestamp
/// column is a `DATETIME` column. Nullability does not change the type.
pub proof fn law_column_type_agrees_with_cells(t: TypeView, v: CellValue)
    ensures
        cell_write_of(id_of(spec_remove_nullable(t)), v) matches Some(CellWrite::Date(_)) ==> mysql_type_of(
            id_of(spec_remove_nullable(t)),
        ) == Some(MysqlColumnType::Date),
        cell_write_of(id_of(spec_remove_nullable(t)), v) matches Some(CellWrite::Tiny(_)) ==> mysql_type_of(
            id_of(spec_remove_nullable(t)),
        ) == Some(MysqlColumnType::Short),
        cell_write_of(id_of(spec_remove_nullable(t)), v) matches Some(CellWrite::Bytes(_)) ==> mysql_type_of(
            id_of(spec_remove_nullable(t)),
        ) == Some(MysqlColumnType::Varchar),
        id_of(spec_remove_nullable(t)) == TypeID::Timestamp ==> mysql_type_of(id_of(spec_remove_nullable(t)))
            == Some(MysqlColumnType::Datetime),
        id_of(spec_remove_nullable(t)) == TypeID::Date ==> mysql_type_of(id_of(spec_remove_nullable(t)))
            != mysql_type_of(TypeID::Timestamp),
        (cell_write_of(id_of(spec_remove_nullable(t)), v) matches Some(CellWrite::Int(_))) && spec_is_integer_id(
            id_of(spec_remove_nullable(t)),
        ) ==> mysql_type_of(id_of(spec_remove_nullable(t))) == Some(MysqlColumnType::Long),
        spec_is_floating(id_of(spec_remove_nullable(t))) ==> mysql_type_of(id_of(spec_remove_nullable(t))) == Some(
            MysqlColumnType::Float,
        ),
        (cell_write_of(id_of(spec_remove_nullable(t)), v) matches Some(CellWrite::Serialized)) && !spec_is_date_or_date_time(
            id_of(spec_remove_nullable(t)),
        ) && !spec_is_floating(id_of(spec_remove_nullable(t))) && !(v is Float64) ==> mysql_type_of(
            id_of(spec_remove_nullable(t)),
        ) == Some(MysqlColumnType::Varchar),
{
}

/// The integer types.
pub open spec fn spec_is_integer_id(id: TypeID) -> bool {
    match id {
        TypeID::Int8 | TypeID::Int16 | TypeID::Int32 | TypeID::Int64 | TypeID::UInt8 | TypeID::UInt16
        | TypeID::UInt32 | TypeID::UInt64 => true,
        _ => false,
    }
}

} // verus!
