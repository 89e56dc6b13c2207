//! The data types of column values, their ids and the operations the
//! coercion rules read: nullability, numeric width and sign, names.
use vstd::prelude::*;

use crate::text::push_char;
use crate::text::push_decimal;
use crate::text::push_str;
use crate::text::decimal;
use crate::error_code::ErrorCode;
use crate::error_code::ErrorKind;
use crate::error_code::ErrorView;

verus! {

/// The id of a data type, one per kind of type.
#[derive(PartialEq, Eq, Structural, Clone, Copy, Debug)]
pub enum TypeID {
    Null,
    Nullable,
    Boolean,
    UInt8,
    UInt16,
    UInt32,
    UInt64,
    Int8,
    Int16,
    Int32,
    Int64,
    Float32,
    Float64,
    String,
    Date,
    Timestamp,
    Interval,
    Array,
    Struct,
    Variant,
    VariantArray,
    VariantObject,
}

/// The unit of an interval type.
#[derive(PartialEq, Eq, Structural, Clone, Copy, Debug)]
pub enum IntervalKind {
    Year,
    Month,
    Day,
    Hour,
    Minute,
    Second,
    Doy,
    Dow,
}

/// A data type. Nullable and array types wrap an inner type; a struct type
/// holds the names of its fields and their types, in order.
#[derive(Debug)]
pub enum DataTypeImpl {
    Null,
    Nullable(Box<DataTypeImpl>),
    Boolean,
    UInt8,
    UInt16,
    UInt32,
    UInt64,
    Int8,
    Int16,
    Int32,
    Int64,
    Float32,
    Float64,
    String,
    Date,
    Timestamp(usize),
    Interval(IntervalKind),
    Array(Box<DataTypeImpl>),
    Struct(Vec<String>, Vec<DataTypeImpl>),
    Variant,
    VariantArray,
    VariantObject,
}

/// What a data type is, with field names taken as character sequences.
pub enum TypeView {
    Null,
    Nullable(Box<TypeView>),
    Boolean,
    UInt8,
    UInt16,
    UInt32,
    UInt64,
    Int8,
    Int16,
    Int32,
    Int64,
    Float32,
    Float64,
    String,
    Date,
    Timestamp(nat),
    Interval(IntervalKind),
    Array(Box<TypeView>),
    Struct(Seq<Seq<char>>, Seq<TypeView>),
    Variant,
    VariantArray,
    VariantObject,
}

/// The characters of each string of a sequence.
pub open spec fn names_view(ns: Seq<String>) -> Seq<Seq<char>> {
    Seq::new(ns.len(), |i: int| ns[i]@)
}

/// The view of a data type.
pub open spec fn view_type(t: DataTypeImpl) -> TypeView
    decreases t, 1nat,
{
    match t {
        DataTypeImpl::Null => TypeView::Null,
        DataTypeImpl::Nullable(inner) => TypeView::Nullable(Box::new(view_type(*inner))),
        DataTypeImpl::Boolean => TypeView::Boolean,
        DataTypeImpl::UInt8 => TypeView::UInt8,
        DataTypeImpl::UInt16 => TypeView::UInt16,
        DataTypeImpl::UInt32 => TypeView::UInt32,
        DataTypeImpl::UInt64 => TypeView::UInt64,
        DataTypeImpl::Int8 => TypeView::Int8,
        DataTypeImpl::Int16 => TypeView::Int16,
        DataTypeImpl::Int32 => TypeView::Int32,
        DataTypeImpl::Int64 => TypeView::Int64,
        DataTypeImpl::Float32 => TypeView::Float32,
        DataTypeImpl::Float64 => TypeView::Float64,
        DataTypeImpl::String => TypeView::String,
        DataTypeImpl::Date => TypeView::Date,
        DataTypeImpl::Timestamp(p) => TypeView::Timestamp(p as nat),
        DataTypeImpl::Interval(k) => TypeView::Interval(k),
        DataTypeImpl::Array(inner) => TypeView::Array(Box::new(view_type(*inner))),
        DataTypeImpl::Struct(names, types) => TypeView::Struct(
            names_view(names@),
            view_types(types@),
        ),
        DataTypeImpl::Variant => TypeView::Variant,
        DataTypeImpl::VariantArray => TypeView::VariantArray,
        DataTypeImpl::VariantObject => TypeView::VariantObject,
    }
}

/// The views of a sequence of data types, in order.
pub open spec fn view_types(ts: Seq<DataTypeImpl>) -> Seq<TypeView>
    decreases ts, 0nat,
{
    if ts.len() == 0 {
        Seq::empty()
    } else {
        view_types(ts.subrange(0, ts.len() - 1)).push(view_type(ts[ts.len() - 1]))
    }
}

impl View for DataTypeImpl {
    type V = TypeView;

    open spec fn view(&self) -> TypeView {
        view_type(*self)
    }
}


/// The views of a sequence of data types are the view of each, in order.
pub proof fn lemma_view_types(ts: Seq<DataTypeImpl>)
    ensures
        view_types(ts).len() == ts.len(),
        forall|i: int| 0 <= i < ts.len() ==> #[trigger] view_types(ts)[i] == view_type(ts[i]),
    decreases ts.len(),
{
    if ts.len() > 0 {
        lemma_view_types(ts.subrange(0, ts.len() - 1));
    }
}

/// The id of the type that a view describes.
pub open spec fn id_of(t: TypeView) -> TypeID {
    match t {
        TypeView::Null => TypeID::Null,
        TypeView::Nullable(_) => TypeID::Nullable,
        TypeView::Boolean => TypeID::Boolean,
        TypeView::UInt8 => TypeID::UInt8,
        TypeView::UInt16 => TypeID::UInt16,
        TypeView::UInt32 => TypeID::UInt32,
        TypeView::UInt64 => TypeID::UInt64,
        TypeView::Int8 => TypeID::Int8,
        TypeView::Int16 => TypeID::Int16,
        TypeView::Int32 => TypeID::Int32,
        TypeView::Int64 => TypeID::Int64,
        TypeView::Float32 => TypeID::Float32,
        TypeView::Float64 => TypeID::Float64,
        TypeView::String => TypeID::String,
        TypeView::Date => TypeID::Date,
        TypeView::Timestamp(_) => TypeID::Timestamp,
        TypeView::Interval(_) => TypeID::Interval,
        TypeView::Array(_) => TypeID::Array,
        TypeView::Struct(_, _) => TypeID::Struct,
        TypeView::Variant => TypeID::Variant,
        TypeView::VariantArray => TypeID::VariantArray,
        TypeView::VariantObject => TypeID::VariantObject,
    }
}

/// Signed or unsigned integers of one to eight bytes.
pub open spec fn spec_is_integer(id: TypeID) -> bool {
    match id {
        TypeID::UInt8 | TypeID::UInt16 | TypeID::UInt32 | TypeID::UInt64 | TypeID::Int8
        | TypeID::Int16 | TypeID::Int32 | TypeID::Int64 => true,
        _ => false,
    }
}

/// Floating point numbers of four or eight bytes.
pub open spec fn spec_is_floating(id: TypeID) -> bool {
    id == TypeID::Float32 || id == TypeID::Float64
}

/// Integers and floating point numbers.
pub open spec fn spec_is_numeric(id: TypeID) -> bool {
    spec_is_integer(id) || spec_is_floating(id)
}

/// Numbers that may be negative: signed integers and floating point numbers.
pub open spec fn spec_is_signed_numeric(id: TypeID) -> bool {
    match id {
        TypeID::Int8 | TypeID::Int16 | TypeID::Int32 | TypeID::Int64 | TypeID::Float32
        | TypeID::Float64 => true,
        _ => false,
    }
}

/// Dates and timestamps.
pub open spec fn spec_is_date_or_date_time(id: TypeID) -> bool {
    id == TypeID::Date || id == TypeID::Timestamp
}

/// The semi-structured variant types.
pub open spec fn spec_is_variant(id: TypeID) -> bool {
    id == TypeID::Variant || id == TypeID::VariantArray || id == TypeID::VariantObject
}

/// The width in bytes of a numeric type (0 for the others).
pub open spec fn spec_byte_size(id: TypeID) -> nat {
    match id {
        TypeID::UInt8 | TypeID::Int8 => 1,
        TypeID::UInt16 | TypeID::Int16 => 2,
        TypeID::UInt32 | TypeID::Int32 | TypeID::Float32 => 4,
        TypeID::UInt64 | TypeID::Int64 | TypeID::Float64 => 8,
        _ => 0,
    }
}

/// The name of a type id, as its derived debug rendering prints it.
pub open spec fn id_name(id: TypeID) -> Seq<char> {
    match id {
        TypeID::Null => "Null"@,
        TypeID::Nullable => "Nullable"@,
        TypeID::Boolean => "Boolean"@,
        TypeID::UInt8 => "UInt8"@,
        TypeID::UInt16 => "UInt16"@,
        TypeID::UInt32 => "UInt32"@,
        TypeID::UInt64 => "UInt64"@,
        TypeID::Int8 => "Int8"@,
        TypeID::Int16 => "Int16"@,
        TypeID::Int32 => "Int32"@,
        TypeID::Int64 => "Int64"@,
        TypeID::Float32 => "Float32"@,
        TypeID::Float64 => "Float64"@,
        TypeID::String => "String"@,
        TypeID::Date => "Date"@,
        TypeID::Timestamp => "Timestamp"@,
        TypeID::Interval => "Interval"@,
        TypeID::Array => "Array"@,
        TypeID::Struct => "Struct"@,
        TypeID::Variant => "Variant"@,
        TypeID::VariantArray => "VariantArray"@,
        TypeID::VariantObject => "VariantObject"@,
    }
}

impl TypeID {
    /// Whether the id is an integer type.
    pub fn is_integer(&self) -> (r: bool)
        ensures
            r == spec_is_integer(*self),
    {
        match self {
            TypeID::UInt8 | TypeID::UInt16 | TypeID::UInt32 | TypeID::UInt64 | TypeID::Int8
            | TypeID::Int16 | TypeID::Int32 | TypeID::Int64 => true,
            _ => false,
        }
    }

    /// Whether the id is a floating point type.
    pub fn is_floating(&self) -> (r: bool)
        ensures
            r == spec_is_floating(*self),
    {
        match self {
            TypeID::Float32 | TypeID::Float64 => true,
            _ => false,
        }
    }

    /// Whether the id is a numeric type.
    pub fn is_numeric(&self) -> (r: bool)
        ensures
            r == spec_is_numeric(*self),
    {
        self.is_integer() || self.is_floating()
    }

    /// Whether the id is a numeric type that holds negative values.
    pub fn is_signed_numeric(&self) -> (r: bool)
        ensures
            r == spec_is_signed_numeric(*self),
    {
        match self {
            TypeID::Int8 | TypeID::Int16 | TypeID::Int32 | TypeID::Int64 | TypeID::Float32
            | TypeID::Float64 => true,
            _ => false,
        }
    }

    /// Whether the id is the string type.
    pub fn is_string(&self) -> (r: bool)
        ensures
            r == (*self == TypeID::String),
    {
        match self {
            TypeID::String => true,
            _ => false,
        }
    }

    /// Whether the id is a date or a timestamp.
    pub fn is_date_or_date_time(&self) -> (r: bool)
        ensures
            r == spec_is_date_or_date_time(*self),
    {
        match self {
            TypeID::Date | TypeID::Timestamp => true,
            _ => false,
        }
    }

    /// Whether the id is a variant type.
    pub fn is_variant(&self) -> (r: bool)
        ensures
            r == spec_is_variant(*self),
    {
        match self {
            TypeID::Variant | TypeID::VariantArray | TypeID::VariantObject => true,
            _ => false,
        }
    }

    /// The name of the id.
    pub fn name(&self) -> (r: &'static str)
        ensures
            r@ == id_name(*self),
    {
        match self {
            TypeID::Null => "Null",
            TypeID::Nullable => "Nullable",
            TypeID::Boolean => "Boolean",
            TypeID::UInt8 => "UInt8",
            TypeID::UInt16 => "UInt16",
            TypeID::UInt32 => "UInt32",
            TypeID::UInt64 => "UInt64",
            TypeID::Int8 => "Int8",
            TypeID::Int16 => "Int16",
            TypeID::Int32 => "Int32",
            TypeID::Int64 => "Int64",
            TypeID::Float32 => "Float32",
            TypeID::Float64 => "Float64",
            TypeID::String => "String",
            TypeID::Date => "Date",
            TypeID::Timestamp => "Timestamp",
            TypeID::Interval => "Interval",
            TypeID::Array => "Array",
            TypeID::Struct => "Struct",
            TypeID::Variant => "Variant",
            TypeID::VariantArray => "VariantArray",
            TypeID::VariantObject => "VariantObject",
        }
    }
}


impl TypeID {
    /// The width in bytes of a numeric type; for any other type an error of
    /// kind `BadArguments` that names the id.
    pub fn numeric_byte_size(&self) -> (r: Result<usize, ErrorCode>)
        ensures
            match r {
                Ok(n) => spec_is_numeric(*self) && n == spec_byte_size(*self),
                Err(e) => !spec_is_numeric(*self) && e@ == byte_size_error(*self),
            },
    {
        match self {
            TypeID::UInt8 | TypeID::Int8 => Ok(1),
            TypeID::UInt16 | TypeID::Int16 => Ok(2),
            TypeID::UInt32 | TypeID::Int32 | TypeID::Float32 => Ok(4),
            TypeID::UInt64 | TypeID::Int64 | TypeID::Float64 => Ok(8),
            _ => {
                let mut m = String::new();
                push_str(&mut m, "Function number_byte_size argument must be numeric types, but got ");
                push_str(&mut m, self.name());
                Err(ErrorCode::create(ErrorKind::BadArguments, m))
            },
        }
    }
}

/// The error that asking the width of a non-numeric type raises.
pub open spec fn byte_size_error(id: TypeID) -> ErrorView {
    ErrorView {
        kind: ErrorKind::BadArguments,
        message: "Function number_byte_size argument must be numeric types, but got "@ + id_name(id),
    }
}

/// Whether a type is nullable.
pub open spec fn spec_is_nullable(t: TypeView) -> bool {
    t is Nullable
}

/// Whether a type can be wrapped in a nullable type: all but the null
/// type and the nullable types.
pub open spec fn spec_can_inside_nullable(t: TypeView) -> bool {
    !(t is Null) && !(t is Nullable)
}

/// The nullable version of a type; a type that cannot be wrapped stays as it is.
pub open spec fn spec_wrap_nullable(t: TypeView) -> TypeView {
    if spec_can_inside_nullable(t) {
        TypeView::Nullable(Box::new(t))
    } else {
        t
    }
}

/// The inner type of a nullable type; any other type stays as it is.
pub open spec fn spec_remove_nullable(t: TypeView) -> TypeView {
    match t {
        TypeView::Nullable(inner) => *inner,
        _ => t,
    }
}

/// The name of an interval unit.
pub open spec fn interval_name(k: IntervalKind) -> Seq<char> {
    match k {
        IntervalKind::Year => "Year"@,
        IntervalKind::Month => "Month"@,
        IntervalKind::Day => "Day"@,
        IntervalKind::Hour => "Hour"@,
        IntervalKind::Minute => "Minute"@,
        IntervalKind::Second => "Second"@,
        IntervalKind::Doy => "Doy"@,
        IntervalKind::Dow => "Dow"@,
    }
}

/// The name of a type as messages print it: the id's name, with the inner
/// type of a nullable or array type, the precision of a timestamp and the
/// unit of an interval in brackets.
pub open spec fn spec_type_name(t: TypeView) -> Seq<char>
    decreases t,
{
    match t {
        TypeView::Nullable(inner) => "Nullable("@ + spec_type_name(*inner) + ")"@,
        TypeView::Array(inner) => "Array("@ + spec_type_name(*inner) + ")"@,
        TypeView::Timestamp(p) => "Timestamp("@ + decimal(p) + ")"@,
        TypeView::Interval(k) => "Interval("@ + interval_name(k) + ")"@,
        _ => id_name(id_of(t)),
    }
}

impl IntervalKind {
    /// The name of the unit.
    pub fn name(&self) -> (r: &'static str)
        ensures
            r@ == interval_name(*self),
    {
        match self {
            IntervalKind::Year => "Year",
            IntervalKind::Month => "Month",
            IntervalKind::Day => "Day",
            IntervalKind::Hour => "Hour",
            IntervalKind::Minute => "Minute",
            IntervalKind::Second => "Second",
            IntervalKind::Doy => "Doy",
            IntervalKind::Dow => "Dow",
        }
    }
}

impl Clone for DataTypeImpl {
    /// A deep copy of the type.
    fn clone(&self) -> (r: Self)
        ensures
            r@ == self@,
        decreases self,
    {
        match self {
            DataTypeImpl::Null => DataTypeImpl::Null,
            DataTypeImpl::Nullable(inner) => {
                let c = (**inner).clone();
                DataTypeImpl::Nullable(Box::new(c))
            },
            DataTypeImpl::Boolean => DataTypeImpl::Boolean,
            DataTypeImpl::UInt8 => DataTypeImpl::UInt8,
            DataTypeImpl::UInt16 => DataTypeImpl::UInt16,
            DataTypeImpl::UInt32 => DataTypeImpl::UInt32,
            DataTypeImpl::UInt64 => DataTypeImpl::UInt64,
            DataTypeImpl::Int8 => DataTypeImpl::Int8,
            DataTypeImpl::Int16 => DataTypeImpl::Int16,
            DataTypeImpl::Int32 => DataTypeImpl::Int32,
            DataTypeImpl::Int64 => DataTypeImpl::Int64,
            DataTypeImpl::Float32 => DataTypeImpl::Float32,
            DataTypeImpl::Float64 => DataTypeImpl::Float64,
            DataTypeImpl::String => DataTypeImpl::String,
            DataTypeImpl::Date => DataTypeImpl::Date,
            DataTypeImpl::Timestamp(p) => DataTypeImpl::Timestamp(*p),
            DataTypeImpl::Interval(k) => DataTypeImpl::Interval(*k),
            DataTypeImpl::Array(inner) => {
                let c = (**inner).clone();
                DataTypeImpl::Array(Box::new(c))
            },
            DataTypeImpl::Struct(names, types) => {
                let ns = clone_names(names);
                let mut ts: Vec<DataTypeImpl> = Vec::new();
                let mut i: usize = 0;
                proof {
                    lemma_view_types(types@);
                }
                while i < types.len()
                    invariant
                        *self == DataTypeImpl::Struct(*names, *types),
                        i <= types.len(),
                        ts@.len() == i,
                        view_types(types@).len() == types@.len(),
                        forall|j: int| 0 <= j < types@.len() ==> #[trigger] view_types(types@)[j] == view_type(types@[j]),
                        forall|j: int| 0 <= j < i ==> view_type(#[trigger] ts@[j]) == view_type(types@[j]),
                    decreases types.len() - i,
                {
                    proof {
                        assert(decreases_to!(*self => (*self)->Struct_1));
                        assert(decreases_to!(*types => types@));
                        assert(decreases_to!(types@ => types@[i as int]));
                    }
                    let c = types[i].clone();
                    ts.push(c);
                    i = i + 1;
                }
                proof {
                    lemma_view_types(ts@);
                    assert(view_types(ts@) =~= view_types(types@));
                }
                DataTypeImpl::Struct(ns, ts)
            },
            DataTypeImpl::Variant => DataTypeImpl::Variant,
            DataTypeImpl::VariantArray => DataTypeImpl::VariantArray,
            DataTypeImpl::VariantObject => DataTypeImpl::VariantObject,
        }
    }
}

/// A copy of a list of names.
pub fn clone_names(names: &Vec<String>) -> (r: Vec<String>)
    ensures
        names_view(r@) == names_view(names@),
{
    let mut r: Vec<String> = Vec::new();
    let mut i: usize = 0;
    while i < names.len()
        invariant
            i <= names.len(),
            r@.len() == i,
            forall|j: int| 0 <= j < i ==> (#[trigger] r@[j])@ == names@[j]@,
        decreases names.len() - i,
    {
        r.push(names[i].clone());
        i = i + 1;
    }
    assert(names_view(r@) =~= names_view(names@));
    r
}

/// Whether two lists of names hold the same names in the same order.
pub fn names_eq(a: &Vec<String>, b: &Vec<String>) -> (r: bool)
    ensures
        r == (names_view(a@) == names_view(b@)),
{
    if a.len() != b.len() {
        proof {
            assert(names_view(a@).len() != names_view(b@).len());
        }
        return false;
    }
    let mut i: usize = 0;
    while i < a.len()
        invariant
            i <= a.len(),
            a.len() == b.len(),
            forall|j: int| 0 <= j < i ==> (#[trigger] a@[j])@ == b@[j]@,
        decreases a.len() - i,
    {
        if a[i] != b[i] {
            proof {
                assert(names_view(a@)[i as int] != names_view(b@)[i as int]);
            }
            return false;
        }
        i = i + 1;
    }
    assert(names_view(a@) =~= names_view(b@));
    true
}

impl DataTypeImpl {
    /// The id of the type.
    pub fn data_type_id(&self) -> (r: TypeID)
        ensures
            r == id_of(self@),
    {
        match self {
            DataTypeImpl::Null => TypeID::Null,
            DataTypeImpl::Nullable(_) => TypeID::Nullable,
            DataTypeImpl::Boolean => TypeID::Boolean,
            DataTypeImpl::UInt8 => TypeID::UInt8,
            DataTypeImpl::UInt16 => TypeID::UInt16,
            DataTypeImpl::UInt32 => TypeID::UInt32,
            DataTypeImpl::UInt64 => TypeID::UInt64,
            DataTypeImpl::Int8 => TypeID::Int8,
            DataTypeImpl::Int16 => TypeID::Int16,
            DataTypeImpl::Int32 => TypeID::Int32,
            DataTypeImpl::Int64 => TypeID::Int64,
            DataTypeImpl::Float32 => TypeID::Float32,
            DataTypeImpl::Float64 => TypeID::Float64,
            DataTypeImpl::String => TypeID::String,
            DataTypeImpl::Date => TypeID::Date,
            DataTypeImpl::Timestamp(_) => TypeID::Timestamp,
            DataTypeImpl::Interval(_) => TypeID::Interval,
            DataTypeImpl::Array(_) => TypeID::Array,
            DataTypeImpl::Struct(_, _) => TypeID::Struct,
            DataTypeImpl::Variant => TypeID::Variant,
            DataTypeImpl::VariantArray => TypeID::VariantArray,
            DataTypeImpl::VariantObject => TypeID::VariantObject,
        }
    }

    /// Whether the type is nullable.
    pub fn is_nullable(&self) -> (r: bool)
        ensures
            r == spec_is_nullable(self@),
    {
        match self {
            DataTypeImpl::Nullable(_) => true,
            _ => false,
        }
    }

    /// Whether the type can be wrapped in a nullable type.
    pub fn can_inside_nullable(&self) -> (r: bool)
        ensures
            r == spec_can_inside_nullable(self@),
    {
        match self {
            DataTypeImpl::Null | DataTypeImpl::Nullable(_) => false,
            _ => true,
        }
    }

    /// Whether two types are the same type.
    pub fn type_eq(&self, other: &DataTypeImpl) -> (r: bool)
        ensures
            r == (self@ == other@),
        decreases self,
    {
        match (self, other) {
            (DataTypeImpl::Null, DataTypeImpl::Null) => true,
            (DataTypeImpl::Nullable(a), DataTypeImpl::Nullable(b)) => (**a).type_eq(&**b),
            (DataTypeImpl::Boolean, DataTypeImpl::Boolean) => true,
            (DataTypeImpl::UInt8, DataTypeImpl::UInt8) => true,
            (DataTypeImpl::UInt16, DataTypeImpl::UInt16) => true,
            (DataTypeImpl::UInt32, DataTypeImpl::UInt32) => true,
            (DataTypeImpl::UInt64, DataTypeImpl::UInt64) => true,
            (DataTypeImpl::Int8, DataTypeImpl::Int8) => true,
            (DataTypeImpl::Int16, DataTypeImpl::Int16) => true,
            (DataTypeImpl::Int32, DataTypeImpl::Int32) => true,
            (DataTypeImpl::Int64, DataTypeImpl::Int64) => true,
            (DataTypeImpl::Float32, DataTypeImpl::Float32) => true,
            (DataTypeImpl::Float64, DataTypeImpl::Float64) => true,
            (DataTypeImpl::String, DataTypeImpl::String) => true,
            (DataTypeImpl::Date, DataTypeImpl::Date) => true,
            (DataTypeImpl::Timestamp(p), DataTypeImpl::Timestamp(q)) => *p == *q,
            (DataTypeImpl::Interval(k), DataTypeImpl::Interval(l)) => *k == *l,
            (DataTypeImpl::Array(a), DataTypeImpl::Array(b)) => (**a).type_eq(&**b),
            (DataTypeImpl::Struct(an, at), DataTypeImpl::Struct(bn, bt)) => {
                if !names_eq(an, bn) {
                    return false;
                }
                proof {
                    lemma_view_types(at@);
                    lemma_view_types(bt@);
                }
                if at.len() != bt.len() {
                    return false;
                }
                let mut i: usize = 0;
                while i < at.len()
                    invariant
                        *self == DataTypeImpl::Struct(*an, *at),
                        *other == DataTypeImpl::Struct(*bn, *bt),
                        names_view(an@) == names_view(bn@),
                        i <= at.len(),
                        at.len() == bt.len(),
                        view_types(at@).len() == at@.len(),
                        view_types(bt@).len() == bt@.len(),
                        forall|j: int| 0 <= j < at@.len() ==> #[trigger] view_types(at@)[j] == view_type(at@[j]),
                        forall|j: int| 0 <= j < bt@.len() ==> #[trigger] view_types(bt@)[j] == view_type(bt@[j]),
                        forall|j: int| 0 <= j < i ==> view_type(#[trigger] at@[j]) == view_type(bt@[j]),
                    decreases at.len() - i,
                {
                    proof {
                        assert(decreases_to!(*self => (*self)->Struct_1));
                        assert(decreases_to!(*at => at@));
                        assert(decreases_to!(at@ => at@[i as int]));
                    }
                    if !at[i].type_eq(&bt[i]) {
                        proof {
                            assert(view_types(at@)[i as int] != view_types(bt@)[i as int]);
                        }
                        return false;
                    }
                    i = i + 1;
                }
                assert(view_types(at@) =~= view_types(bt@));
                true
            },
            (DataTypeImpl::Variant, DataTypeImpl::Variant) => true,
            (DataTypeImpl::VariantArray, DataTypeImpl::VariantArray) => true,
            (DataTypeImpl::VariantObject, DataTypeImpl::VariantObject) => true,
            _ => false,
        }
    }

    /// The name of the type, as messages print it.
    pub fn name(&self) -> (r: String)
        ensures
            r@ == spec_type_name(self@),
        decreases self,
    {
        let mut s = String::new();
        match self {
            DataTypeImpl::Nullable(inner) => {
                push_str(&mut s, "Nullable(");
                let n = (**inner).name();
                push_str(&mut s, n.as_str());
                push_str(&mut s, ")");
            },
            DataTypeImpl::Array(inner) => {
                push_str(&mut s, "Array(");
                let n = (**inner).name();
                push_str(&mut s, n.as_str());
                push_str(&mut s, ")");
            },
            DataTypeImpl::Timestamp(p) => {
                push_str(&mut s, "Timestamp(");
                push_decimal(&mut s, *p as u64);
                push_str(&mut s, ")");
            },
            DataTypeImpl::Interval(k) => {
                push_str(&mut s, "Interval(");
                push_str(&mut s, k.name());
                push_str(&mut s, ")");
            },
            _ => {
                push_str(&mut s, self.data_type_id().name());
            },
        }
        assert(s@ =~= spec_type_name(self@));
        s
    }
}

/// The nullable version of a type; the null type and nullable types stay as they are.
pub fn wrap_nullable(t: &DataTypeImpl) -> (r: DataTypeImpl)
    ensures
        r@ == spec_wrap_nullable(t@),
{
    if !t.can_inside_nullable() {
        return t.clone();
    }
    DataTypeImpl::Nullable(Box::new(t.clone()))
}

/// The inner type of a nullable type; any other type stays as it is.
pub fn remove_nullable(t: &DataTypeImpl) -> (r: DataTypeImpl)
    ensures
        r@ == spec_remove_nullable(t@),
{
    match t {
        DataTypeImpl::Nullable(inner) => (**inner).clone(),
        _ => t.clone(),
    }
}

} // verus!
