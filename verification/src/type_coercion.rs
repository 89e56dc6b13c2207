//! The coercion rules of the data types: the type that two (or more) types
//! are cast to for an arithmetic operation, a comparison or a merge.
use vstd::prelude::*;

use crate::data_type::DataTypeImpl;
use crate::data_type::TypeID;
use crate::data_type::TypeView;
use crate::data_type::id_of;
use crate::data_type::spec_is_integer;
use crate::data_type::spec_is_floating;
use crate::data_type::spec_is_numeric;
use crate::data_type::spec_is_signed_numeric;
use crate::data_type::spec_is_date_or_date_time;
use crate::data_type::spec_is_variant;
use crate::data_type::spec_byte_size;
use crate::data_type::byte_size_error;
use crate::data_type::spec_is_nullable;
use crate::data_type::spec_wrap_nullable;
use crate::data_type::spec_remove_nullable;
use crate::data_type::spec_type_name;
use crate::data_type::id_name;
use crate::data_type::names_view;
use crate::data_type::view_types;
use crate::data_type::view_type;
use crate::data_type::lemma_view_types;
use crate::data_type::wrap_nullable;
use crate::data_type::remove_nullable;
use crate::data_type::names_eq;
use crate::data_type::clone_names;
use crate::error_code::ErrorCode;
use crate::error_code::ErrorKind;
use crate::error_code::ErrorView;
use crate::text::bool_text;
use crate::text::decimal;
use crate::text::push_bool;
use crate::text::push_decimal;
use crate::text::push_str;

verus! {

/// The binary arithmetic operators.
#[derive(PartialEq, Eq, Structural, Clone, Copy, Debug)]
pub enum DataValueBinaryOperator {
    Plus,
    Minus,
    Mul,
    Div,
    IntDiv,
    Modulo,
}

/// The unary arithmetic operators.
#[derive(PartialEq, Eq, Structural, Clone, Copy, Debug)]
pub enum DataValueUnaryOperator {
    Negate,
}

/// How an operator is printed.
pub open spec fn binary_op_text(op: DataValueBinaryOperator) -> Seq<char> {
    match op {
        DataValueBinaryOperator::Plus => "+"@,
        DataValueBinaryOperator::Minus => "-"@,
        DataValueBinaryOperator::Mul => "*"@,
        DataValueBinaryOperator::Div => "/"@,
        DataValueBinaryOperator::IntDiv => "div"@,
        DataValueBinaryOperator::Modulo => "%"@,
    }
}

impl DataValueBinaryOperator {
    /// How the operator is printed.
    pub fn text(&self) -> (r: &'static str)
        ensures
            r@ == binary_op_text(*self),
    {
        match self {
            DataValueBinaryOperator::Plus => "+",
            DataValueBinaryOperator::Minus => "-",
            DataValueBinaryOperator::Mul => "*",
            DataValueBinaryOperator::Div => "/",
            DataValueBinaryOperator::IntDiv => "div",
            DataValueBinaryOperator::Modulo => "%",
        }
    }
}

/// What a result holding a type or an error is.
pub open spec fn result_view(r: Result<DataTypeImpl, ErrorCode>) -> Result<TypeView, ErrorView> {
    match r {
        Ok(t) => Ok(t@),
        Err(e) => Err(e@),
    }
}

pub open spec fn max_nat(a: nat, b: nat) -> nat {
    if a >= b { a } else { b }
}

fn max_usize(a: usize, b: usize) -> (r: usize)
    ensures
        r == max_nat(a as nat, b as nat),
{
    if a >= b { a } else { b }
}

/// The next wider integer width: sizes below eight bytes double.
pub open spec fn spec_next_size(size: nat) -> nat {
    if size < 8 { size * 2 } else { size }
}

/// The next wider integer width: sizes below eight bytes double.
pub fn next_size(size: usize) -> (r: usize)
    ensures
        r == spec_next_size(size as nat),
{
    if size < 8 {
        return size * 2;
    }
    size
}

/// The numeric type of a sign, a kind and a width in bytes. Integer widths
/// above eight bytes overflow to the 64 bit integer of the opposite sign,
/// floating point widths above eight bytes to the 64 bit float.
pub open spec fn spec_numeric_type(is_signed: bool, is_floating: bool, size: nat) -> Option<TypeView> {
    if !is_floating {
        if !is_signed {
            if size == 1 {
                Some(TypeView::UInt8)
            } else if size == 2 {
                Some(TypeView::UInt16)
            } else if size == 4 {
                Some(TypeView::UInt32)
            } else if size == 8 {
                Some(TypeView::UInt64)
            } else if size > 8 {
                Some(TypeView::Int64)
            } else {
                None
            }
        } else {
            if size == 1 {
                Some(TypeView::Int8)
            } else if size == 2 {
                Some(TypeView::Int16)
            } else if size == 4 {
                Some(TypeView::Int32)
            } else if size == 8 {
                Some(TypeView::Int64)
            } else if size > 8 {
                Some(TypeView::UInt64)
            } else {
                None
            }
        }
    } else {
        if size == 4 || (is_signed && (size == 1 || size == 2)) {
            Some(TypeView::Float32)
        } else if size >= 8 {
            Some(TypeView::Float64)
        } else {
            None
        }
    }
}

/// The error of asking for a numeric type that does not exist.
pub open spec fn construct_error(is_signed: bool, is_floating: bool, size: nat) -> ErrorView {
    ErrorView {
        kind: ErrorKind::BadDataValueType,
        message: "Can't construct type from is_signed: "@ + bool_text(is_signed)
            + ", is_floating: "@ + bool_text(is_floating) + ", byte_size: "@ + decimal(size),
    }
}

/// The numeric type of a sign, a kind and a width, or the error.
pub open spec fn spec_construct_numeric_type(is_signed: bool, is_floating: bool, size: nat) -> Result<TypeView, ErrorView> {
    match spec_numeric_type(is_signed, is_floating, size) {
        Some(t) => Ok(t),
        None => Err(construct_error(is_signed, is_floating, size)),
    }
}

/// The numeric type of a sign, a kind and a width in bytes; an error of kind
/// `BadDataValueType` where no such type exists.
pub fn construct_numeric_type(is_signed: bool, is_floating: bool, byte_size: usize) -> (r: Result<DataTypeImpl, ErrorCode>)
    ensures
        result_view(r) == spec_construct_numeric_type(is_signed, is_floating, byte_size as nat),
{
    let t = match (is_signed, is_floating, byte_size) {
        (false, false, 1) => DataTypeImpl::UInt8,
        (false, false, 2) => DataTypeImpl::UInt16,
        (false, false, 4) => DataTypeImpl::UInt32,
        (false, false, 8) => DataTypeImpl::UInt64,
        (false, true, 4) => DataTypeImpl::Float32,
        (false, true, 8) => DataTypeImpl::Float64,
        (true, false, 1) => DataTypeImpl::Int8,
        (true, false, 2) => DataTypeImpl::Int16,
        (true, false, 4) => DataTypeImpl::Int32,
        (true, false, 8) => DataTypeImpl::Int64,
        (true, true, 1) => DataTypeImpl::Float32,
        (true, true, 2) => DataTypeImpl::Float32,
        (true, true, 4) => DataTypeImpl::Float32,
        (true, true, 8) => DataTypeImpl::Float64,
        (false, false, d) if d > 8 => DataTypeImpl::Int64,
        (true, false, d) if d > 8 => DataTypeImpl::UInt64,
        (_, true, d) if d > 8 => DataTypeImpl::Float64,
        _ => {
            let mut m = String::new();
            push_str(&mut m, "Can't construct type from is_signed: ");
            push_bool(&mut m, is_signed);
            push_str(&mut m, ", is_floating: ");
            push_bool(&mut m, is_floating);
            push_str(&mut m, ", byte_size: ");
            push_decimal(&mut m, byte_size as u64);
            assert(m@ =~= construct_error(is_signed, is_floating, byte_size as nat).message);
            return Err(ErrorCode::create(ErrorKind::BadDataValueType, m));
        },
    };
    Ok(t)
}


/// The width of the type when it has the given property, else 0.
pub open spec fn size_if(has: bool, id: TypeID) -> nat {
    if has { spec_byte_size(id) } else { 0 }
}

/// Whether two numeric types need a wider type than the wider of them: a
/// float meets an integer at least as wide, or a signed type meets an
/// unsigned type at least as wide.
pub open spec fn should_double(li: TypeID, ri: TypeID) -> bool {
    let has_float = spec_is_floating(li) || spec_is_floating(ri);
    let has_integer = spec_is_integer(li) || spec_is_integer(ri);
    let has_signed = spec_is_signed_numeric(li) || spec_is_signed_numeric(ri);
    let max_unsigned = max_nat(size_if(!spec_is_signed_numeric(li), li), size_if(!spec_is_signed_numeric(ri), ri));
    let max_signed = max_nat(size_if(spec_is_signed_numeric(li), li), size_if(spec_is_signed_numeric(ri), ri));
    let max_integer = max_nat(size_if(spec_is_integer(li), li), size_if(spec_is_integer(ri), ri));
    let max_float = max_nat(size_if(spec_is_floating(li), li), size_if(spec_is_floating(ri), ri));
    (has_float && has_integer && max_integer >= max_float) || (has_signed && max_unsigned >= max_signed)
}

/// The width that two numeric types are coerced to, before any overflow is capped.
pub open spec fn coerced_size(li: TypeID, ri: TypeID) -> nat {
    let m = max_nat(spec_byte_size(li), spec_byte_size(ri));
    if should_double(li, ri) { m * 2 } else { m }
}

/// The error of a coercion that would need a type wider than eight bytes.
pub open spec fn overflow_error(l: TypeView, r: TypeView) -> ErrorView {
    ErrorView {
        kind: ErrorKind::BadDataValueType,
        message: "Can't construct type from "@ + spec_type_name(l) + " and "@ + spec_type_name(r),
    }
}

/// The numerical coercion rule: the type that both numeric types can be cast
/// to while keeping their precision. It is signed if either is, floating if
/// either is, and as wide as the wider of them, twice as wide where the other
/// side needs room. Wider than eight bytes is an error, or is capped at eight
/// bytes where overflow is allowed. A non-numeric side is an error.
pub open spec fn spec_numerical_coercion(l: TypeView, r: TypeView, allow_overflow: bool) -> Result<TypeView, ErrorView> {
    let li = id_of(l);
    let ri = id_of(r);
    if !spec_is_numeric(li) {
        Err(byte_size_error(li))
    } else if !spec_is_numeric(ri) {
        Err(byte_size_error(ri))
    } else {
        let has_float = spec_is_floating(li) || spec_is_floating(ri);
        let has_signed = spec_is_signed_numeric(li) || spec_is_signed_numeric(ri);
        let size = coerced_size(li, ri);
        if size > 8 && !allow_overflow {
            Err(overflow_error(l, r))
        } else {
            spec_construct_numeric_type(has_signed, has_float, if size > 8 { 8 } else { size })
        }
    }
}

/// The numerical coercion rule (see `spec_numerical_coercion`).
pub fn numerical_coercion(lhs_type: &DataTypeImpl, rhs_type: &DataTypeImpl, allow_overflow: bool) -> (r: Result<DataTypeImpl, ErrorCode>)
    ensures
        result_view(r) == spec_numerical_coercion(lhs_type@, rhs_type@, allow_overflow),
{
    let lhs_id = lhs_type.data_type_id();
    let rhs_id = rhs_type.data_type_id();

    let has_float = lhs_id.is_floating() || rhs_id.is_floating();
    let has_integer = lhs_id.is_integer() || rhs_id.is_integer();
    let has_signed = lhs_id.is_signed_numeric() || rhs_id.is_signed_numeric();

    let size_of_lhs = match lhs_id.numeric_byte_size() {
        Ok(n) => n,
        Err(e) => return Err(e),
    };
    let size_of_rhs = match rhs_id.numeric_byte_size() {
        Ok(n) => n,
        Err(e) => return Err(e),
    };

    let max_size_of_unsigned_integer = max_usize(
        if lhs_id.is_signed_numeric() { 0 } else { size_of_lhs },
        if rhs_id.is_signed_numeric() { 0 } else { size_of_rhs },
    );
    let max_size_of_signed_integer = max_usize(
        if !lhs_id.is_signed_numeric() { 0 } else { size_of_lhs },
        if !rhs_id.is_signed_numeric() { 0 } else { size_of_rhs },
    );
    let max_size_of_integer = max_usize(
        if !lhs_id.is_integer() { 0 } else { size_of_lhs },
        if !rhs_id.is_integer() { 0 } else { size_of_rhs },
    );
    let max_size_of_float = max_usize(
        if !lhs_id.is_floating() { 0 } else { size_of_lhs },
        if !rhs_id.is_floating() { 0 } else { size_of_rhs },
    );

    let should_double = (has_float && has_integer && max_size_of_integer >= max_size_of_float)
        || (has_signed && max_size_of_unsigned_integer >= max_size_of_signed_integer);

    let mut max_size = if should_double {
        max_usize(size_of_rhs, size_of_lhs) * 2
    } else {
        max_usize(size_of_rhs, size_of_lhs)
    };

    if max_size > 8 {
        if allow_overflow {
            max_size = 8;
        } else {
            let mut m = String::new();
            push_str(&mut m, "Can't construct type from ");
            let ln = lhs_type.name();
            push_str(&mut m, ln.as_str());
            push_str(&mut m, " and ");
            let rn = rhs_type.name();
            push_str(&mut m, rn.as_str());
            assert(m@ =~= overflow_error(lhs_type@, rhs_type@).message);
            return Err(ErrorCode::create(ErrorKind::BadDataValueType, m));
        }
    }
    construct_numeric_type(has_signed, has_float, max_size)
}

/// The type of a binary arithmetic operation on two numeric types: sums and
/// products widen to the next size, differences also become signed, quotients
/// are 64 bit floats, integer quotients keep the wider size, and a remainder
/// takes the divisor's size, widened when the dividend is signed (a float
/// remainder is a 64 bit float). A non-numeric side is an error.
pub open spec fn spec_numerical_arithmetic_coercion(op: DataValueBinaryOperator, l: TypeView, r: TypeView) -> Result<TypeView, ErrorView> {
    let li = id_of(l);
    let ri = id_of(r);
    if !spec_is_numeric(li) || !spec_is_numeric(ri) {
        Err(ErrorView {
            kind: ErrorKind::BadDataValueType,
            message: "DataValue Error: Unsupported ("@ + spec_type_name(l) + ") "@ + binary_op_text(op)
                + " ("@ + spec_type_name(r) + ")"@,
        })
    } else {
        let has_signed = spec_is_signed_numeric(li) || spec_is_signed_numeric(ri);
        let has_float = spec_is_floating(li) || spec_is_floating(ri);
        let max_size = max_nat(spec_byte_size(li), spec_byte_size(ri));
        match op {
            DataValueBinaryOperator::Plus | DataValueBinaryOperator::Mul =>
                spec_construct_numeric_type(has_signed, has_float, spec_next_size(max_size)),
            DataValueBinaryOperator::Modulo =>
                if has_float {
                    Ok(TypeView::Float64)
                } else {
                    let signed = spec_is_signed_numeric(li);
                    let right = spec_byte_size(ri);
                    spec_construct_numeric_type(signed, false, if signed { spec_next_size(right) } else { right })
                },
            DataValueBinaryOperator::Minus =>
                spec_construct_numeric_type(true, has_float, spec_next_size(max_size)),
            DataValueBinaryOperator::Div => Ok(TypeView::Float64),
            DataValueBinaryOperator::IntDiv => spec_construct_numeric_type(has_signed, false, max_size),
        }
    }
}

/// The type of a binary arithmetic operation (see `spec_numerical_arithmetic_coercion`).
pub fn numerical_arithmetic_coercion(op: &DataValueBinaryOperator, lhs_type: &DataTypeImpl, rhs_type: &DataTypeImpl) -> (r: Result<DataTypeImpl, ErrorCode>)
    ensures
        result_view(r) == spec_numerical_arithmetic_coercion(*op, lhs_type@, rhs_type@),
{
    let lhs_id = lhs_type.data_type_id();
    let rhs_id = rhs_type.data_type_id();

    if !lhs_id.is_numeric() || !rhs_id.is_numeric() {
        let mut m = String::new();
        push_str(&mut m, "DataValue Error: Unsupported (");
        let ln = lhs_type.name();
        push_str(&mut m, ln.as_str());
        push_str(&mut m, ") ");
        push_str(&mut m, op.text());
        push_str(&mut m, " (");
        let rn = rhs_type.name();
        push_str(&mut m, rn.as_str());
        push_str(&mut m, ")");
        assert(m@ =~= spec_numerical_arithmetic_coercion(*op, lhs_type@, rhs_type@)->Err_0.message);
        return Err(ErrorCode::create(ErrorKind::BadDataValueType, m));
    }

    let has_signed = lhs_id.is_signed_numeric() || rhs_id.is_signed_numeric();
    let has_float = lhs_id.is_floating() || rhs_id.is_floating();
    let ls = match lhs_id.numeric_byte_size() {
        Ok(n) => n,
        Err(e) => return Err(e),
    };
    let rs = match rhs_id.numeric_byte_size() {
        Ok(n) => n,
        Err(e) => return Err(e),
    };
    let max_size = max_usize(ls, rs);

    match op {
        DataValueBinaryOperator::Plus | DataValueBinaryOperator::Mul => {
            construct_numeric_type(has_signed, has_float, next_size(max_size))
        },
        DataValueBinaryOperator::Modulo => {
            if has_float {
                return Ok(DataTypeImpl::Float64);
            }
            let result_is_signed = lhs_id.is_signed_numeric();
            let right_size = rs;
            let size_of_result = if result_is_signed {
                next_size(right_size)
            } else {
                right_size
            };
            construct_numeric_type(result_is_signed, false, size_of_result)
        },
        DataValueBinaryOperator::Minus => {
            construct_numeric_type(true, has_float, next_size(max_size))
        },
        DataValueBinaryOperator::Div => Ok(DataTypeImpl::Float64),
        DataValueBinaryOperator::IntDiv => construct_numeric_type(has_signed, false, max_size),
    }
}

/// The type of a negation: signed, as wide as the operand, or the next size
/// for an unsigned operand. A non-numeric operand is an error.
pub open spec fn spec_numerical_unary_arithmetic_coercion(op: DataValueUnaryOperator, t: TypeView) -> Result<TypeView, ErrorView> {
    let id = id_of(t);
    if !spec_is_numeric(id) {
        Err(ErrorView {
            kind: ErrorKind::BadDataValueType,
            message: "DataValue Error: Unsupported ("@ + id_name(id) + ")"@,
        })
    } else {
        match op {
            DataValueUnaryOperator::Negate => {
                let size = spec_byte_size(id);
                spec_construct_numeric_type(
                    true,
                    spec_is_floating(id),
                    if spec_is_signed_numeric(id) { size } else { spec_next_size(size) },
                )
            },
        }
    }
}

/// The type of a unary arithmetic operation (see `spec_numerical_unary_arithmetic_coercion`).
pub fn numerical_unary_arithmetic_coercion(op: &DataValueUnaryOperator, val_type: &DataTypeImpl) -> (r: Result<DataTypeImpl, ErrorCode>)
    ensures
        result_view(r) == spec_numerical_unary_arithmetic_coercion(*op, val_type@),
{
    let type_id = val_type.data_type_id();
    if !type_id.is_numeric() {
        let mut m = String::new();
        push_str(&mut m, "DataValue Error: Unsupported (");
        push_str(&mut m, type_id.name());
        push_str(&mut m, ")");
        assert(m@ =~= spec_numerical_unary_arithmetic_coercion(*op, val_type@)->Err_0.message);
        return Err(ErrorCode::create(ErrorKind::BadDataValueType, m));
    }
    match op {
        DataValueUnaryOperator::Negate => {
            let has_float = type_id.is_floating();
            let has_signed = type_id.is_signed_numeric();
            let numeric_size = match type_id.numeric_byte_size() {
                Ok(n) => n,
                Err(e) => return Err(e),
            };
            let max_size = if has_signed {
                numeric_size
            } else {
                next_size(numeric_size)
            };
            construct_numeric_type(true, has_float, max_size)
        },
    }
}


/// The error of comparing two types that have no common type.
pub open spec fn compare_error(l: TypeView, r: TypeView) -> ErrorView {
    ErrorView {
        kind: ErrorKind::IllegalDataType,
        message: "Can not compare "@ + spec_type_name(l) + " with "@ + spec_type_name(r),
    }
}

/// The coercion rule of comparisons, a superset of the numerical rule: a type
/// compares with itself; two numbers by the numerical rule with overflow
/// allowed; anything with null as its nullable version; a number with a
/// string as 64 bit floats; a number or a string with a date or timestamp as
/// that date or timestamp; a date with a timestamp as the timestamp, two
/// timestamps at the finer precision; anything with a variant as that thing.
/// Other pairs do not compare.
pub open spec fn spec_compare_coercion(l: TypeView, r: TypeView) -> Result<TypeView, ErrorView> {
    let li = id_of(l);
    let ri = id_of(r);
    if l == r {
        Ok(l)
    } else if spec_is_numeric(li) && spec_is_numeric(ri) {
        spec_numerical_coercion(l, r, true)
    } else if li == TypeID::Null {
        Ok(spec_wrap_nullable(r))
    } else if ri == TypeID::Null {
        Ok(spec_wrap_nullable(l))
    } else if (spec_is_numeric(li) && ri == TypeID::String) || (spec_is_numeric(ri) && li == TypeID::String) {
        Ok(TypeView::Float64)
    } else if (spec_is_numeric(li) || li == TypeID::String) && spec_is_date_or_date_time(ri) {
        Ok(r)
    } else if (spec_is_numeric(ri) || ri == TypeID::String) && spec_is_date_or_date_time(li) {
        Ok(l)
    } else if spec_is_date_or_date_time(li) && spec_is_date_or_date_time(ri) {
        if li == TypeID::Date {
            Ok(r)
        } else if ri == TypeID::Date {
            Ok(l)
        } else {
            Ok(TypeView::Timestamp(max_nat(l->Timestamp_0, r->Timestamp_0)))
        }
    } else if spec_is_variant(li) {
        Ok(r)
    } else if spec_is_variant(ri) {
        Ok(l)
    } else {
        Err(compare_error(l, r))
    }
}

/// The coercion rule of comparisons (see `spec_compare_coercion`).
pub fn compare_coercion(lhs_type: &DataTypeImpl, rhs_type: &DataTypeImpl) -> (r: Result<DataTypeImpl, ErrorCode>)
    ensures
        result_view(r) == spec_compare_coercion(lhs_type@, rhs_type@),
{
    let lhs_id = lhs_type.data_type_id();
    let rhs_id = rhs_type.data_type_id();

    if lhs_type.type_eq(rhs_type) {
        return Ok(lhs_type.clone());
    }
    if lhs_id.is_numeric() && rhs_id.is_numeric() {
        return numerical_coercion(lhs_type, rhs_type, true);
    }
    if lhs_id == TypeID::Null {
        return Ok(wrap_nullable(rhs_type));
    }
    if rhs_id == TypeID::Null {
        return Ok(wrap_nullable(lhs_type));
    }
    if (lhs_id.is_numeric() && rhs_id.is_string()) || (rhs_id.is_numeric() && lhs_id.is_string()) {
        return Ok(DataTypeImpl::Float64);
    }
    if (lhs_id.is_numeric() || lhs_id.is_string()) && rhs_id.is_date_or_date_time() {
        return Ok(rhs_type.clone());
    }
    if (rhs_id.is_numeric() || rhs_id.is_string()) && lhs_id.is_date_or_date_time() {
        return Ok(lhs_type.clone());
    }
    if lhs_id.is_date_or_date_time() && rhs_id.is_date_or_date_time() {
        return match (lhs_type, rhs_type) {
            (DataTypeImpl::Date, _) => Ok(rhs_type.clone()),
            (_, DataTypeImpl::Date) => Ok(lhs_type.clone()),
            (DataTypeImpl::Timestamp(p), DataTypeImpl::Timestamp(q)) => {
                Ok(DataTypeImpl::Timestamp(max_usize(*p, *q)))
            },
            _ => {
                assert(false);
                Ok(lhs_type.clone())
            },
        };
    }
    if lhs_id.is_variant() {
        return Ok(rhs_type.clone());
    }
    if rhs_id.is_variant() {
        return Ok(lhs_type.clone());
    }
    let mut m = String::new();
    push_str(&mut m, "Can not compare ");
    let ln = lhs_type.name();
    push_str(&mut m, ln.as_str());
    push_str(&mut m, " with ");
    let rn = rhs_type.name();
    push_str(&mut m, rn.as_str());
    assert(m@ =~= compare_error(lhs_type@, rhs_type@).message);
    Err(ErrorCode::create(ErrorKind::IllegalDataType, m))
}

/// The error of merging two structs whose field names differ.
pub open spec fn struct_names_error() -> ErrorView {
    ErrorView {
        kind: ErrorKind::BadArguments,
        message: "Can't merge structs with different names or sizes"@,
    }
}

/// The error of merging two types that have no common type.
pub open spec fn merge_error(l: TypeView, r: TypeView) -> ErrorView {
    ErrorView {
        kind: ErrorKind::BadDataValueType,
        message: "Can't merge types from "@ + spec_type_name(l) + " and "@ + spec_type_name(r),
    }
}

/// The merge rule: the type that values of both types are stored as. If
/// either side is nullable, the nullable version of the merge of the inner
/// types; with null, the nullable version of the other; two arrays, the array
/// of the merged element types; two structs with the same field names, the
/// struct of the merged field types (an error if the names differ); two types
/// of the same id, the left one; two numbers, the numerical rule without
/// overflow. Other pairs do not merge.
pub open spec fn spec_merge_types(l: TypeView, r: TypeView) -> Result<TypeView, ErrorView>
    decreases l, r,
{
    if spec_is_nullable(l) || spec_is_nullable(r) {
        match spec_merge_types(spec_remove_nullable(l), spec_remove_nullable(r)) {
            Ok(t) => Ok(spec_wrap_nullable(t)),
            Err(e) => Err(e),
        }
    } else {
        match (l, r) {
            (TypeView::Null, _) => Ok(spec_wrap_nullable(r)),
            (_, TypeView::Null) => Ok(spec_wrap_nullable(l)),
            (TypeView::Array(a), TypeView::Array(b)) => match spec_merge_types(*a, *b) {
                Ok(t) => Ok(TypeView::Array(Box::new(t))),
                Err(e) => Err(e),
            },
            (TypeView::Struct(an, at), TypeView::Struct(bn, bt)) => if an != bn {
                Err(struct_names_error())
            } else {
                match spec_merge_list(at, bt) {
                    Ok(ts) => Ok(TypeView::Struct(an, ts)),
                    Err(e) => Err(e),
                }
            },
            _ => if id_of(l) == id_of(r) {
                Ok(l)
            } else if spec_is_numeric(id_of(l)) && spec_is_numeric(id_of(r)) {
                spec_numerical_coercion(l, r, false)
            } else {
                Err(merge_error(l, r))
            },
        }
    }
}

/// The merge of two lists of types, pair by pair up to the shorter list; the
/// first pair that does not merge is the error.
pub open spec fn spec_merge_list(a: Seq<TypeView>, b: Seq<TypeView>) -> Result<Seq<TypeView>, ErrorView>
    decreases a, b,
{
    if a.len() == 0 || b.len() == 0 {
        Ok(Seq::empty())
    } else {
        match spec_merge_types(a[0], b[0]) {
            Err(e) => Err(e),
            Ok(t) => match spec_merge_list(a.subrange(1, a.len() as int), b.subrange(1, b.len() as int)) {
                Ok(ts) => Ok(seq![t] + ts),
                Err(e) => Err(e),
            },
        }
    }
}


/// A list of merged types put in front of the merge of the rest.
pub open spec fn prepend_ok(p: Seq<TypeView>, rest: Result<Seq<TypeView>, ErrorView>) -> Result<Seq<TypeView>, ErrorView> {
    match rest {
        Ok(ts) => Ok(p + ts),
        Err(e) => Err(e),
    }
}

/// The merge rule (see `spec_merge_types`).
pub fn merge_types(lhs_type: &DataTypeImpl, rhs_type: &DataTypeImpl) -> (r: Result<DataTypeImpl, ErrorCode>)
    ensures
        result_view(r) == spec_merge_types(lhs_type@, rhs_type@),
    decreases lhs_type@, rhs_type@,
{
    if lhs_type.is_nullable() || rhs_type.is_nullable() {
        let lt = remove_nullable(lhs_type);
        let rt = remove_nullable(rhs_type);
        proof {
            if lhs_type@ is Nullable {
                assert(decreases_to!(lhs_type@ => (lhs_type@)->Nullable_0));
            } else {
                assert(decreases_to!(rhs_type@ => (rhs_type@)->Nullable_0));
            }
        }
        let merged = match merge_types(&lt, &rt) {
            Ok(t) => t,
            Err(e) => return Err(e),
        };
        return Ok(wrap_nullable(&merged));
    }

    let lhs_id = lhs_type.data_type_id();
    let rhs_id = rhs_type.data_type_id();

    match (lhs_type, rhs_type) {
        (DataTypeImpl::Null, _) => Ok(wrap_nullable(rhs_type)),
        (_, DataTypeImpl::Null) => Ok(wrap_nullable(lhs_type)),
        (DataTypeImpl::Array(a), DataTypeImpl::Array(b)) => {
            proof {
                assert(decreases_to!(lhs_type@ => (lhs_type@)->Array_0));
            }
            let typ = match merge_types(&**a, &**b) {
                Ok(t) => t,
                Err(e) => return Err(e),
            };
            Ok(DataTypeImpl::Array(Box::new(typ)))
        },
        (DataTypeImpl::Struct(an, at), DataTypeImpl::Struct(bn, bt)) => {
            if !names_eq(an, bn) {
                let m = String::from_str("Can't merge structs with different names or sizes");
                return Err(ErrorCode::create(ErrorKind::BadArguments, m));
            }
            proof {
                lemma_view_types(at@);
                lemma_view_types(bt@);
            }
            let ghost av = view_types(at@);
            let ghost bv = view_types(bt@);
            let n = if at.len() < bt.len() { at.len() } else { bt.len() };
            let mut types: Vec<DataTypeImpl> = Vec::new();
            let mut i: usize = 0;
            assert(av.subrange(0, av.len() as int) == av);
            assert(bv.subrange(0, bv.len() as int) == bv);
            assert(view_types(types@) =~= Seq::<TypeView>::empty());
            while i < n
                invariant
                    lhs_type@ == TypeView::Struct(names_view(an@), av),
                    rhs_type@ == TypeView::Struct(names_view(bn@), bv),
                    av == view_types(at@),
                    bv == view_types(bt@),
                    names_view(an@) == names_view(bn@),
                    av.len() == at@.len(),
                    bv.len() == bt@.len(),
                    forall|j: int| 0 <= j < at@.len() ==> #[trigger] av[j] == view_type(at@[j]),
                    forall|j: int| 0 <= j < bt@.len() ==> #[trigger] bv[j] == view_type(bt@[j]),
                    n == if at.len() < bt.len() { at.len() } else { bt.len() },
                    i <= n,
                    types@.len() == i,
                    spec_merge_list(av, bv) == prepend_ok(
                        view_types(types@),
                        spec_merge_list(av.subrange(i as int, av.len() as int), bv.subrange(i as int, bv.len() as int)),
                    ),
                decreases n - i,
            {
                let ghost ar = av.subrange(i as int, av.len() as int);
                let ghost br = bv.subrange(i as int, bv.len() as int);
                proof {
                    assert(ar[0] == av[i as int]);
                    assert(br[0] == bv[i as int]);
                    assert(ar.subrange(1, ar.len() as int) =~= av.subrange(i + 1, av.len() as int));
                    assert(br.subrange(1, br.len() as int) =~= bv.subrange(i + 1, bv.len() as int));
                    assert(decreases_to!(lhs_type@ => (lhs_type@)->Struct_1));
                    assert(decreases_to!(av => av[i as int]));
                }
                let t = match merge_types(&at[i], &bt[i]) {
                    Ok(t) => t,
                    Err(e) => {
                        assert(spec_merge_list(ar, br) == Err::<Seq<TypeView>, ErrorView>(e@));
                        return Err(e);
                    },
                };
                let ghost old_types = types@;
                types.push(t);
                proof {
                    lemma_view_types(old_types);
                    lemma_view_types(types@);
                    assert(view_types(types@) =~= view_types(old_types).push(t@));
                    let rest = spec_merge_list(av.subrange(i + 1, av.len() as int), bv.subrange(i + 1, bv.len() as int));
                    match rest {
                        Ok(ts) => {
                            assert(view_types(old_types) + (seq![t@] + ts) =~= view_types(types@) + ts);
                        },
                        Err(e) => {},
                    }
                }
                i = i + 1;
            }
            proof {
                let ar = av.subrange(i as int, av.len() as int);
                let br = bv.subrange(i as int, bv.len() as int);
                assert(ar.len() == 0 || br.len() == 0);
                assert(view_types(types@) + Seq::<TypeView>::empty() =~= view_types(types@));
            }
            let ns = clone_names(an);
            Ok(DataTypeImpl::Struct(ns, types))
        },
        _ => {
            if lhs_id == rhs_id {
                return Ok(lhs_type.clone());
            }
            if lhs_id.is_numeric() && rhs_id.is_numeric() {
                numerical_coercion(lhs_type, rhs_type, false)
            } else {
                let mut m = String::new();
                push_str(&mut m, "Can't merge types from ");
                let ln = lhs_type.name();
                push_str(&mut m, ln.as_str());
                push_str(&mut m, " and ");
                let rn = rhs_type.name();
                push_str(&mut m, rn.as_str());
                assert(m@ =~= merge_error(lhs_type@, rhs_type@).message);
                Err(ErrorCode::create(ErrorKind::BadDataValueType, m))
            }
        },
    }
}


/// The error of aggregating no types at all.
pub open spec fn empty_args_error() -> ErrorView {
    ErrorView { kind: ErrorKind::BadArguments, message: "Can't aggregate empty args"@ }
}

/// The common type of the arguments of a multi-argument function: the first
/// merged with the common type of the rest, the last one alone.
pub open spec fn spec_aggregate_types(args: Seq<TypeView>) -> Result<TypeView, ErrorView>
    decreases args.len(),
{
    if args.len() == 0 {
        Err(empty_args_error())
    } else if args.len() == 1 {
        Ok(args[0])
    } else {
        match spec_aggregate_types(args.subrange(1, args.len() as int)) {
            Ok(right) => spec_merge_types(args[0], right),
            Err(e) => Err(e),
        }
    }
}

/// An error in the aggregation of a suffix is the error of the whole.
proof fn lemma_aggregate_error(args: Seq<TypeView>, k: int)
    requires
        0 <= k < args.len(),
        spec_aggregate_types(args.subrange(k, args.len() as int)) is Err,
    ensures
        spec_aggregate_types(args) == spec_aggregate_types(args.subrange(k, args.len() as int)),
    decreases k,
{
    if k > 0 {
        let tail = args.subrange(1, args.len() as int);
        assert(tail.subrange(k - 1, tail.len() as int) =~= args.subrange(k, args.len() as int));
        lemma_aggregate_error(tail, k - 1);
        assert(args.len() >= 2);
    } else {
        assert(args.subrange(0, args.len() as int) =~= args);
    }
}

/// The common type of the arguments of a function (see `spec_aggregate_types`).
pub fn aggregate_types(args: &[DataTypeImpl]) -> (r: Result<DataTypeImpl, ErrorCode>)
    ensures
        result_view(r) == spec_aggregate_types(view_types(args@)),
{
    let n = args.len();
    proof {
        lemma_view_types(args@);
    }
    let ghost vs = view_types(args@);
    if n == 0 {
        let m = String::from_str("Can't aggregate empty args");
        return Err(ErrorCode::create(ErrorKind::BadArguments, m));
    }
    let mut acc = args[n - 1].clone();
    let mut i: usize = n - 1;
    assert(vs.subrange(i as int, n as int) =~= seq![vs[i as int]]);
    while i > 0
        invariant
            n == args@.len(),
            vs == view_types(args@),
            vs.len() == n,
            forall|j: int| 0 <= j < n ==> #[trigger] vs[j] == view_type(args@[j]),
            i < n,
            spec_aggregate_types(vs.subrange(i as int, n as int)) == Ok::<TypeView, ErrorView>(acc@),
        decreases i,
    {
        let ghost suffix = vs.subrange(i - 1, n as int);
        assert(suffix.subrange(1, suffix.len() as int) =~= vs.subrange(i as int, n as int));
        assert(suffix[0] == vs[i - 1]);
        let merged = match merge_types(&args[i - 1], &acc) {
            Ok(t) => t,
            Err(e) => {
                proof {
                    lemma_aggregate_error(vs, i - 1);
                }
                return Err(e);
            },
        };
        acc = merged;
        i = i - 1;
    }
    assert(vs.subrange(0, n as int) =~= vs);
    Ok(acc)
}

} // verus!
