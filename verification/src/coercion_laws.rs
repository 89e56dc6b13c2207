//! Laws of the coercion rules.
use vstd::prelude::*;

use crate::data_type::TypeID;
use crate::data_type::TypeView;
use crate::data_type::id_of;
use crate::data_type::spec_byte_size;
use crate::data_type::spec_is_floating;
use crate::data_type::spec_is_numeric;
use crate::data_type::spec_is_signed_numeric;
use crate::data_type::spec_is_variant;
use crate::type_coercion::DataValueBinaryOperator;
use crate::type_coercion::spec_compare_coercion;
use crate::type_coercion::spec_numerical_arithmetic_coercion;
use crate::type_coercion::spec_numerical_coercion;
use crate::type_coercion::spec_merge_types;
use crate::type_coercion::spec_merge_list;
use crate::data_type::spec_can_inside_nullable;
use crate::error_code::ErrorView;

verus! {

/// Whether values of type `t` fit in type `res` by width: a float only in a
/// float at least as wide; a signed integer in a signed type at least as
/// wide, strictly wider when that type is a float; an unsigned integer in an
/// unsigned type at least as wide, or in a signed or float type strictly wider.
pub open spec fn can_hold(res: TypeID, t: TypeID) -> bool {
    if spec_is_floating(t) {
        spec_is_floating(res) && spec_byte_size(res) >= spec_byte_size(t)
    } else if spec_is_signed_numeric(t) {
        spec_is_signed_numeric(res) && if spec_is_floating(res) {
            spec_byte_size(res) > spec_byte_size(t)
        } else {
            spec_byte_size(res) >= spec_byte_size(t)
        }
    } else if spec_is_signed_numeric(res) {
        spec_byte_size(res) > spec_byte_size(t)
    } else {
        spec_byte_size(res) >= spec_byte_size(t)
    }
}

/// The numerical coercion does not depend on the order of its operands:
/// either both orders coerce, to the same type, or neither does.
pub proof fn law_numerical_coercion_commutes(l: TypeView, r: TypeView, allow_overflow: bool)
    ensures
        (spec_numerical_coercion(l, r, allow_overflow) is Ok) == (spec_numerical_coercion(r, l, allow_overflow) is Ok),
        spec_numerical_coercion(l, r, allow_overflow) is Ok ==> spec_numerical_coercion(l, r, allow_overflow)
            == spec_numerical_coercion(r, l, allow_overflow),
{
}

/// A numeric type coerces with itself to itself.
pub proof fn law_numerical_coercion_idempotent(t: TypeView, allow_overflow: bool)
    requires
        spec_is_numeric(id_of(t)),
    ensures
        spec_numerical_coercion(t, t, allow_overflow) == Ok::<TypeView, crate::error_code::ErrorView>(t),
{
}

/// The numerical coercion keeps precision: without overflow, the common type
/// holds the values of both operands.
pub proof fn law_numerical_coercion_keeps_precision(l: TypeView, r: TypeView)
    ensures
        spec_numerical_coercion(l, r, false) is Ok ==> {
            let t = spec_numerical_coercion(l, r, false)->Ok_0;
            can_hold(id_of(t), id_of(l)) && can_hold(id_of(t), id_of(r))
        },
{
}

/// The comparison rule is a superset of the numerical rule: two numbers
/// compare at their numerical coercion, with overflow allowed.
pub proof fn law_compare_extends_numerical(l: TypeView, r: TypeView)
    requires
        spec_is_numeric(id_of(l)),
        spec_is_numeric(id_of(r)),
    ensures
        spec_compare_coercion(l, r) == spec_numerical_coercion(l, r, true),
{
    if l == r {
        law_numerical_coercion_idempotent(l, true);
    }
}

/// The comparison rule does not depend on the order of its operands, unless
/// both are variants: either both orders compare, at the same type, or
/// neither does.
pub proof fn law_compare_coercion_commutes(l: TypeView, r: TypeView)
    requires
        !(spec_is_variant(id_of(l)) && spec_is_variant(id_of(r))),
    ensures
        (spec_compare_coercion(l, r) is Ok) == (spec_compare_coercion(r, l) is Ok),
        spec_compare_coercion(l, r) is Ok ==> spec_compare_coercion(l, r) == spec_compare_coercion(r, l),
{
    law_numerical_coercion_commutes(l, r, true);
}


/// Whether a type is well formed: a nullable type wraps a type that can be
/// nullable, and so on through array elements and struct fields.
pub open spec fn well_formed(t: TypeView) -> bool
    decreases t, 1nat,
{
    match t {
        TypeView::Nullable(inner) => spec_can_inside_nullable(*inner) && well_formed(*inner),
        TypeView::Array(inner) => well_formed(*inner),
        TypeView::Struct(_, ts) => well_formed_list(ts),
        _ => true,
    }
}

/// Whether every type of a list is well formed.
pub open spec fn well_formed_list(ts: Seq<TypeView>) -> bool
    decreases ts, 0nat,
{
    if ts.len() == 0 {
        true
    } else {
        well_formed(ts[0]) && well_formed_list(ts.subrange(1, ts.len() as int))
    }
}

/// A well formed type merges with itself to itself.
pub proof fn law_merge_types_reflexive(t: TypeView)
    requires
        well_formed(t),
    ensures
        spec_merge_types(t, t) == Ok::<TypeView, ErrorView>(t),
    decreases t, 1nat,
{
    match t {
        TypeView::Nullable(inner) => {
            law_merge_types_reflexive(*inner);
        },
        TypeView::Array(inner) => {
            law_merge_types_reflexive(*inner);
        },
        TypeView::Struct(ns, ts) => {
            lemma_merge_list_reflexive(ts);
        },
        _ => {},
    }
}

/// A list of well formed types merges with itself to itself.
proof fn lemma_merge_list_reflexive(ts: Seq<TypeView>)
    requires
        well_formed_list(ts),
    ensures
        spec_merge_list(ts, ts) == Ok::<Seq<TypeView>, ErrorView>(ts),
    decreases ts, 0nat,
{
    if ts.len() > 0 {
        law_merge_types_reflexive(ts[0]);
        lemma_merge_list_reflexive(ts.subrange(1, ts.len() as int));
        assert(seq![ts[0]] + ts.subrange(1, ts.len() as int) =~= ts);
    } else {
        assert(ts =~= Seq::<TypeView>::empty());
    }
}


/// The result of an addition, subtraction or multiplication is signed
/// exactly when an operand is signed or the operation is a subtraction: an
/// unsigned column plus a signed one gives a signed type, and two unsigned
/// columns add and multiply to an unsigned type. Numeric operands always
/// have a result type.
pub proof fn law_arithmetic_result_sign(op: DataValueBinaryOperator, l: TypeView, r: TypeView)
    requires
        op == DataValueBinaryOperator::Plus || op == DataValueBinaryOperator::Mul || op == DataValueBinaryOperator::Minus,
        spec_is_numeric(id_of(l)),
        spec_is_numeric(id_of(r)),
    ensures
        spec_numerical_arithmetic_coercion(op, l, r) matches Ok(t) && (spec_is_signed_numeric(id_of(t)) <==> (
            spec_is_signed_numeric(id_of(l)) || spec_is_signed_numeric(id_of(r)) || op == DataValueBinaryOperator::Minus)),
{
}

/// An addition, subtraction or multiplication of operands narrower than
/// eight bytes has a result type that holds the values of both operands.
pub proof fn law_arithmetic_result_holds_operands(op: DataValueBinaryOperator, l: TypeView, r: TypeView)
    requires
        op == DataValueBinaryOperator::Plus || op == DataValueBinaryOperator::Mul || op == DataValueBinaryOperator::Minus,
        spec_is_numeric(id_of(l)),
        spec_is_numeric(id_of(r)),
        spec_byte_size(id_of(l)) < 8,
        spec_byte_size(id_of(r)) < 8,
    ensures
        spec_numerical_arithmetic_coercion(op, l, r) matches Ok(t) && can_hold(id_of(t), id_of(l)) && can_hold(
            id_of(t),
            id_of(r),
        ),
{
}

} // verus!
