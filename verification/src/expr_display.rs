//! How the types and expressions of the expression framework, and the
//! domains, properties and signatures of its functions, are written in plans
//! and error messages.
use vstd::prelude::*;

use crate::remote_expr::Expr;
use crate::text::decimal;
use crate::text::push_decimal;
use crate::text::push_signed_decimal;
use crate::text::push_str;
use crate::text::signed_decimal;

verus! {

/// A type of the expression framework.
#[derive(Debug)]
pub enum DataType {
    Boolean,
    String,
    UInt8,
    UInt16,
    UInt32,
    UInt64,
    Int8,
    Int16,
    Int32,
    Int64,
    Float32,
    Float64,
    Null,
    Nullable(Box<DataType>),
    EmptyArray,
    Array(Box<DataType>),
    Mapping(Box<DataType>),
    Tuple(Vec<DataType>),
    Generic(usize),
}

/// The text of a type: a nullable type is its inner type followed by
/// `NULL`, a tuple of one field keeps a trailing comma, and a generic
/// parameter is `T` and its index.
pub open spec fn type_text(t: DataType) -> Seq<char>
    decreases t, 1nat,
{
    match t {
        DataType::Boolean => "Boolean"@,
        DataType::String => "String"@,
        DataType::UInt8 => "UInt8"@,
        DataType::UInt16 => "UInt16"@,
        DataType::UInt32 => "UInt32"@,
        DataType::UInt64 => "UInt64"@,
        DataType::Int8 => "Int8"@,
        DataType::Int16 => "Int16"@,
        DataType::Int32 => "Int32"@,
        DataType::Int64 => "Int64"@,
        DataType::Float32 => "Float32"@,
        DataType::Float64 => "Float64"@,
        DataType::Null => "NULL"@,
        DataType::Nullable(inner) => type_text(*inner) + " NULL"@,
        DataType::EmptyArray => "Array(Nothing)"@,
        DataType::Array(inner) => "Array("@ + type_text(*inner) + ")"@,
        DataType::Mapping(inner) => "Map("@ + type_text(*inner) + ")"@,
        DataType::Tuple(tys) => if tys@.len() == 1 {
            "("@ + types_text(tys@) + ",)"@
        } else {
            "("@ + types_text(tys@) + ")"@
        },
        DataType::Generic(index) => "T"@ + decimal(index as nat),
    }
}

/// The texts of a sequence of types, separated by `, `.
pub open spec fn types_text(ts: Seq<DataType>) -> Seq<char>
    decreases ts, 0nat,
{
    if ts.len() == 0 {
        Seq::empty()
    } else if ts.len() == 1 {
        type_text(ts[0])
    } else {
        types_text(ts.subrange(0, ts.len() - 1)) + ", "@ + type_text(ts[ts.len() - 1])
    }
}

impl DataType {
    /// The text of the type.
    pub fn display_text(&self) -> (r: String)
        ensures
            r@ == type_text(*self),
        decreases self,
    {
        let mut s = String::new();
        match self {
            DataType::Boolean => push_str(&mut s, "Boolean"),
            DataType::String => push_str(&mut s, "String"),
            DataType::UInt8 => push_str(&mut s, "UInt8"),
            DataType::UInt16 => push_str(&mut s, "UInt16"),
            DataType::UInt32 => push_str(&mut s, "UInt32"),
            DataType::UInt64 => push_str(&mut s, "UInt64"),
            DataType::Int8 => push_str(&mut s, "Int8"),
            DataType::Int16 => push_str(&mut s, "Int16"),
            DataType::Int32 => push_str(&mut s, "Int32"),
            DataType::Int64 => push_str(&mut s, "Int64"),
            DataType::Float32 => push_str(&mut s, "Float32"),
            DataType::Float64 => push_str(&mut s, "Float64"),
            DataType::Null => push_str(&mut s, "NULL"),
            DataType::Nullable(inner) => {
                let t = (**inner).display_text();
                push_str(&mut s, t.as_str());
                push_str(&mut s, " NULL");
            },
            DataType::EmptyArray => push_str(&mut s, "Array(Nothing)"),
            DataType::Array(inner) => {
                push_str(&mut s, "Array(");
                let t = (**inner).display_text();
                push_str(&mut s, t.as_str());
                push_str(&mut s, ")");
            },
            DataType::Mapping(inner) => {
                push_str(&mut s, "Map(");
                let t = (**inner).display_text();
                push_str(&mut s, t.as_str());
                push_str(&mut s, ")");
            },
            DataType::Tuple(tys) => {
                push_str(&mut s, "(");
                let mut i: usize = 0;
                while i < tys.len()
                    invariant
                        *self == DataType::Tuple(*tys),
                        i <= tys@.len(),
                        s@ == "("@ + types_text(tys@.subrange(0, i as int)),
                    decreases tys@.len() - i,
                {
                    if i > 0 {
                        push_str(&mut s, ", ");
                    }
                    proof {
                        assert(decreases_to!(*self => (*self)->Tuple_0));
                        assert(decreases_to!(*tys => tys@));
                        assert(decreases_to!(tys@ => tys@[i as int]));
                    }
                    let t = tys[i].display_text();
                    push_str(&mut s, t.as_str());
                    assert(tys@.subrange(0, i + 1).subrange(0, i as int) =~= tys@.subrange(0, i as int));
                    assert(s@ =~= "("@ + types_text(tys@.subrange(0, i + 1)));
                    i = i + 1;
                }
                assert(tys@.subrange(0, tys@.len() as int) =~= tys@);
                if tys.len() == 1 {
                    push_str(&mut s, ",)");
                } else {
                    push_str(&mut s, ")");
                }
            },
            DataType::Generic(index) => {
                push_str(&mut s, "T");
                push_decimal(&mut s, *index as u64);
            },
        }
        assert(s@ =~= type_text(*self));
        s
    }
}

/// The values a signed integer expression may take: from `min` to `max`.
#[derive(PartialEq, Eq, Structural, Clone, Copy, Debug)]
pub struct IntDomain {
    pub min: i64,
    pub max: i64,
}

/// The values an unsigned integer expression may take: from `min` to `max`.
#[derive(PartialEq, Eq, Structural, Clone, Copy, Debug)]
pub struct UIntDomain {
    pub min: u64,
    pub max: u64,
}

/// The values a boolean expression may take.
#[derive(PartialEq, Eq, Structural, Clone, Copy, Debug)]
pub struct BooleanDomain {
    pub has_false: bool,
    pub has_true: bool,
}

/// What is known of a function: whether its arguments may be swapped.
#[derive(PartialEq, Eq, Structural, Clone, Copy, Debug)]
pub struct FunctionProperty {
    pub commutative: bool,
}

impl IntDomain {
    /// The text of the domain: `{min..=max}`.
    pub fn display_text(&self) -> (r: String)
        ensures
            r@ == "{"@ + signed_decimal(self.min as int) + "..="@ + signed_decimal(self.max as int) + "}"@,
    {
        let mut s = String::new();
        push_str(&mut s, "{");
        push_signed_decimal(&mut s, self.min);
        push_str(&mut s, "..=");
        push_signed_decimal(&mut s, self.max);
        push_str(&mut s, "}");
        s
    }
}

impl UIntDomain {
    /// The text of the domain: `{min..=max}`.
    pub fn display_text(&self) -> (r: String)
        ensures
            r@ == "{"@ + decimal(self.min as nat) + "..="@ + decimal(self.max as nat) + "}"@,
    {
        let mut s = String::new();
        push_str(&mut s, "{");
        push_decimal(&mut s, self.min);
        push_str(&mut s, "..=");
        push_decimal(&mut s, self.max);
        push_str(&mut s, "}");
        s
    }
}

impl BooleanDomain {
    /// The text of the domain: `{FALSE, TRUE}`, `{FALSE}`, or else `{TRUE}`.
    pub fn display_text(&self) -> (r: String)
        ensures
            r@ == if self.has_false && self.has_true {
                "{FALSE, TRUE}"@
            } else if self.has_false {
                "{FALSE}"@
            } else {
                "{TRUE}"@
            },
    {
        if self.has_false && self.has_true {
            String::from_str("{FALSE, TRUE}")
        } else if self.has_false {
            String::from_str("{FALSE}")
        } else {
            String::from_str("{TRUE}")
        }
    }
}

impl FunctionProperty {
    /// The text of the properties: `{commutative}`, or nothing when there is
    /// no property to show.
    pub fn display_text(&self) -> (r: String)
        ensures
            r@ == if self.commutative { "{commutative}"@ } else { Seq::<char>::empty() },
    {
        if self.commutative {
            String::from_str("{commutative}")
        } else {
            String::new()
        }
    }
}


/// What is declared of a function: its name, the types of its arguments,
/// the type it returns, and its properties.
#[derive(Debug)]
pub struct FunctionSignature {
    pub name: String,
    pub args_type: Vec<DataType>,
    pub return_type: DataType,
    pub property: FunctionProperty,
}

/// The text of a signature: `name(argument types) :: return type`.
pub open spec fn signature_text(sig: FunctionSignature) -> Seq<char> {
    sig.name@ + "("@ + types_text(sig.args_type@) + ") :: "@ + type_text(sig.return_type)
}

/// Appends the texts of the types, separated by `, `.
fn push_types(s: &mut String, ts: &Vec<DataType>)
    ensures
        final(s)@ == old(s)@ + types_text(ts@),
{
    let ghost s0 = s@;
    assert(s@ =~= s0 + types_text(ts@.subrange(0, 0)));
    let mut i: usize = 0;
    while i < ts.len()
        invariant
            i <= ts@.len(),
            s@ == s0 + types_text(ts@.subrange(0, i as int)),
        decreases ts@.len() - i,
    {
        if i > 0 {
            push_str(s, ", ");
        }
        let t = ts[i].display_text();
        push_str(s, t.as_str());
        assert(ts@.subrange(0, i + 1).subrange(0, i as int) =~= ts@.subrange(0, i as int));
        assert(s@ =~= s0 + types_text(ts@.subrange(0, i + 1)));
        i = i + 1;
    }
    assert(ts@.subrange(0, ts@.len() as int) =~= ts@);
}

impl FunctionSignature {
    /// The text of the signature.
    pub fn display_text(&self) -> (r: String)
        ensures
            r@ == signature_text(*self),
    {
        let mut s = String::new();
        push_str(&mut s, self.name.as_str());
        push_str(&mut s, "(");
        push_types(&mut s, &self.args_type);
        push_str(&mut s, ") :: ");
        let t = self.return_type.display_text();
        push_str(&mut s, t.as_str());
        assert(s@ =~= signature_text(*self));
        s
    }
}

/// The binding of the generic parameter at index `i`: `Ti=type`.
pub open spec fn binding_text(gs: Seq<DataType>, i: int) -> Seq<char> {
    "T"@ + decimal(i as nat) + "="@ + type_text(gs[i])
}

/// The bindings of the first `n` generic parameters, separated by `, `.
pub open spec fn bindings_text(gs: Seq<DataType>, n: nat) -> Seq<char>
    decreases n,
{
    if n == 0 {
        Seq::empty()
    } else if n == 1 {
        binding_text(gs, 0)
    } else {
        bindings_text(gs, (n - 1) as nat) + ", "@ + binding_text(gs, n - 1)
    }
}

/// The instantiation of a call's generic parameters: nothing when there is
/// none, else `<T0=type, T1=type, ..>`.
pub open spec fn generics_text(gs: Seq<DataType>) -> Seq<char> {
    if gs.len() == 0 {
        Seq::empty()
    } else {
        "<"@ + bindings_text(gs, gs.len()) + ">"@
    }
}

/// The text of an expression whose constants are given by their text: a
/// column is `ColumnRef(id)`, a cast `CAST(expr AS type)`, and a call is the
/// name of its function, the instantiation of its generic parameters, the
/// argument types of its signature in angle brackets, and its arguments in
/// round brackets.
pub open spec fn expr_text(e: Expr<String, FunctionSignature>) -> Seq<char>
    decreases e, 1nat,
{
    match e {
        Expr::Constant { scalar, .. } => scalar@,
        Expr::ColumnRef { id, .. } => "ColumnRef("@ + decimal(id as nat) + ")"@,
        Expr::Cast { expr, dest_type, .. } => "CAST("@ + expr_text(*expr) + " AS "@ + type_text(dest_type) + ")"@,
        Expr::TryCast { expr, dest_type, .. } => "TRY_CAST("@ + expr_text(*expr) + " AS "@ + type_text(dest_type)
            + ")"@,
        Expr::FunctionCall { function, generics, args, .. } => function.name@ + generics_text(generics@) + "<"@
            + types_text(function.args_type@) + ">("@ + exprs_text(args@) + ")"@,
    }
}

/// The texts of a sequence of expressions, separated by `, `.
pub open spec fn exprs_text(es: Seq<Expr<String, FunctionSignature>>) -> Seq<char>
    decreases es, 0nat,
{
    if es.len() == 0 {
        Seq::empty()
    } else if es.len() == 1 {
        expr_text(es[0])
    } else {
        exprs_text(es.subrange(0, es.len() - 1)) + ", "@ + expr_text(es[es.len() - 1])
    }
}

/// Appends the instantiation of a call's generic parameters.
fn push_generics(s: &mut String, gs: &Vec<DataType>)
    ensures
        final(s)@ == old(s)@ + generics_text(gs@),
{
    if gs.len() == 0 {
        assert(s@ =~= s@ + generics_text(gs@));
        return;
    }
    let ghost s0 = s@;
    push_str(s, "<");
    let mut i: usize = 0;
    while i < gs.len()
        invariant
            i <= gs@.len(),
            s@ == s0 + "<"@ + bindings_text(gs@, i as nat),
        decreases gs@.len() - i,
    {
        if i > 0 {
            push_str(s, ", ");
        }
        push_str(s, "T");
        push_decimal(s, i as u64);
        push_str(s, "=");
        let t = gs[i].display_text();
        push_str(s, t.as_str());
        assert(s@ =~= s0 + "<"@ + bindings_text(gs@, (i + 1) as nat));
        i = i + 1;
    }
    push_str(s, ">");
    assert(s@ =~= s0 + generics_text(gs@));
}

impl Expr<String, FunctionSignature> {
    /// The text of the expression.
    pub fn display_text(&self) -> (r: String)
        ensures
            r@ == expr_text(*self),
        decreases self,
    {
        let mut s = String::new();
        match self {
            Expr::Constant { scalar, .. } => push_str(&mut s, scalar.as_str()),
            Expr::ColumnRef { id, .. } => {
                push_str(&mut s, "ColumnRef(");
                push_decimal(&mut s, *id as u64);
                push_str(&mut s, ")");
            },
            Expr::Cast { expr, dest_type, .. } => {
                push_str(&mut s, "CAST(");
                let t = (**expr).display_text();
                push_str(&mut s, t.as_str());
                push_str(&mut s, " AS ");
                let d = dest_type.display_text();
                push_str(&mut s, d.as_str());
                push_str(&mut s, ")");
            },
            Expr::TryCast { expr, dest_type, .. } => {
                push_str(&mut s, "TRY_CAST(");
                let t = (**expr).display_text();
                push_str(&mut s, t.as_str());
                push_str(&mut s, " AS ");
                let d = dest_type.display_text();
                push_str(&mut s, d.as_str());
                push_str(&mut s, ")");
            },
            Expr::FunctionCall { function, generics, args, .. } => {
                push_str(&mut s, function.name.as_str());
                push_generics(&mut s, generics);
                push_str(&mut s, "<");
                push_types(&mut s, &function.args_type);
                push_str(&mut s, ">(");
                let ghost s0 = s@;
                assert(s@ =~= s0 + exprs_text(args@.subrange(0, 0)));
                let mut i: usize = 0;
                while i < args.len()
                    invariant
                        *self == (Expr::FunctionCall { span: (*self)->FunctionCall_span, id: (*self)->FunctionCall_id, function: *function, generics: *generics, args: *args }),
                        i <= args@.len(),
                        s@ == s0 + exprs_text(args@.subrange(0, i as int)),
                    decreases args@.len() - i,
                {
                    if i > 0 {
                        push_str(&mut s, ", ");
                    }
                    proof {
                        assert(decreases_to!(*self => (*self)->FunctionCall_args));
                        assert(decreases_to!(*args => args@));
                        assert(decreases_to!(args@ => args@[i as int]));
                    }
                    let t = args[i].display_text();
                    push_str(&mut s, t.as_str());
                    assert(args@.subrange(0, i + 1).subrange(0, i as int) =~= args@.subrange(0, i as int));
                    assert(s@ =~= s0 + exprs_text(args@.subrange(0, i + 1)));
                    i = i + 1;
                }
                assert(args@.subrange(0, args@.len() as int) =~= args@);
                push_str(&mut s, ")");
            },
        }
        assert(s@ =~= expr_text(*self));
        s
    }
}


/// An expression as it is first built from a query, before its functions
/// are resolved: a literal, a column with its type, a cast, or a call of a
/// function by name with its parameters and arguments.
#[derive(Debug)]
pub enum RawExpr<L> {
    Literal { span: Option<(usize, usize)>, lit: L },
    ColumnRef { span: Option<(usize, usize)>, id: usize, data_type: DataType },
    Cast { span: Option<(usize, usize)>, expr: Box<RawExpr<L>>, dest_type: DataType },
    TryCast { span: Option<(usize, usize)>, expr: Box<RawExpr<L>>, dest_type: DataType },
    FunctionCall { span: Option<(usize, usize)>, name: String, params: Vec<usize>, args: Vec<RawExpr<L>> },
}

/// The numbers, separated by `, `.
pub open spec fn numbers_text(ns: Seq<usize>) -> Seq<char>
    decreases ns.len(),
{
    if ns.len() == 0 {
        Seq::empty()
    } else if ns.len() == 1 {
        decimal(ns[0] as nat)
    } else {
        numbers_text(ns.subrange(0, ns.len() - 1)) + ", "@ + decimal(ns[ns.len() - 1] as nat)
    }
}

/// The parameters of a call: nothing when there is none, else the numbers
/// in round brackets.
pub open spec fn params_text(ps: Seq<usize>) -> Seq<char> {
    if ps.len() == 0 {
        Seq::empty()
    } else {
        "("@ + numbers_text(ps) + ")"@
    }
}

/// The text of an expression whose literals are given by their text: a
/// column is `ColumnRef(id)::type`, a cast `CAST(expr AS type)`, and a call
/// is the function's name, its parameters, and its arguments in round
/// brackets.
pub open spec fn raw_text(e: RawExpr<String>) -> Seq<char>
    decreases e, 1nat,
{
    match e {
        RawExpr::Literal { lit, .. } => lit@,
        RawExpr::ColumnRef { id, data_type, .. } => "ColumnRef("@ + decimal(id as nat) + ")::"@ + type_text(data_type),
        RawExpr::Cast { expr, dest_type, .. } => "CAST("@ + raw_text(*expr) + " AS "@ + type_text(dest_type) + ")"@,
        RawExpr::TryCast { expr, dest_type, .. } => "TRY_CAST("@ + raw_text(*expr) + " AS "@ + type_text(dest_type)
            + ")"@,
        RawExpr::FunctionCall { name, params, args, .. } => name@ + params_text(params@) + "("@ + raws_text(args@)
            + ")"@,
    }
}

/// The texts of a sequence of expressions, separated by `, `.
pub open spec fn raws_text(es: Seq<RawExpr<String>>) -> Seq<char>
    decreases es, 0nat,
{
    if es.len() == 0 {
        Seq::empty()
    } else if es.len() == 1 {
        raw_text(es[0])
    } else {
        raws_text(es.subrange(0, es.len() - 1)) + ", "@ + raw_text(es[es.len() - 1])
    }
}

/// Appends the parameters of a call.
fn push_params(s: &mut String, ps: &Vec<usize>)
    ensures
        final(s)@ == old(s)@ + params_text(ps@),
{
    if ps.len() == 0 {
        assert(s@ =~= s@ + params_text(ps@));
        return;
    }
    let ghost s0 = s@;
    push_str(s, "(");
    assert(s@ =~= s0 + "("@ + numbers_text(ps@.subrange(0, 0)));
    let mut i: usize = 0;
    while i < ps.len()
        invariant
            i <= ps@.len(),
            s@ == s0 + "("@ + numbers_text(ps@.subrange(0, i as int)),
        decreases ps@.len() - i,
    {
        if i > 0 {
            push_str(s, ", ");
        }
        push_decimal(s, ps[i] as u64);
        assert(ps@.subrange(0, i + 1).subrange(0, i as int) =~= ps@.subrange(0, i as int));
        assert(s@ =~= s0 + "("@ + numbers_text(ps@.subrange(0, i + 1)));
        i = i + 1;
    }
    assert(ps@.subrange(0, ps@.len() as int) =~= ps@);
    push_str(s, ")");
    assert(s@ =~= s0 + params_text(ps@));
}

impl RawExpr<String> {
    /// The text of the expression.
    pub fn display_text(&self) -> (r: String)
        ensures
            r@ == raw_text(*self),
        decreases self,
    {
        let mut s = String::new();
        match self {
            RawExpr::Literal { lit, .. } => push_str(&mut s, lit.as_str()),
            RawExpr::ColumnRef { id, data_type, .. } => {
                push_str(&mut s, "ColumnRef(");
                push_decimal(&mut s, *id as u64);
                push_str(&mut s, ")::");
                let d = data_type.display_text();
                push_str(&mut s, d.as_str());
            },
            RawExpr::Cast { expr, dest_type, .. } => {
                push_str(&mut s, "CAST(");
                let t = (**expr).display_text();
                push_str(&mut s, t.as_str());
                push_str(&mut s, " AS ");
                let d = dest_type.display_text();
                push_str(&mut s, d.as_str());
                push_str(&mut s, ")");
            },
            RawExpr::TryCast { expr, dest_type, .. } => {
                push_str(&mut s, "TRY_CAST(");
                let t = (**expr).display_text();
                push_str(&mut s, t.as_str());
                push_str(&mut s, " AS ");
                let d = dest_type.display_text();
                push_str(&mut s, d.as_str());
                push_str(&mut s, ")");
            },
            RawExpr::FunctionCall { name, params, args, .. } => {
                push_str(&mut s, name.as_str());
                push_params(&mut s, params);
                push_str(&mut s, "(");
                let ghost s0 = s@;
                assert(s@ =~= s0 + raws_text(args@.subrange(0, 0)));
                let mut i: usize = 0;
                while i < args.len()
                    invariant
                        *self == (RawExpr::FunctionCall { span: (*self)->FunctionCall_span, name: *name, params: *params, args: *args }),
                        i <= args@.len(),
                        s@ == s0 + raws_text(args@.subrange(0, i as int)),
                    decreases args@.len() - i,
                {
                    if i > 0 {
                        push_str(&mut s, ", ");
                    }
                    proof {
                        assert(decreases_to!(*self => (*self)->FunctionCall_args));
                        assert(decreases_to!(*args => args@));
                        assert(decreases_to!(args@ => args@[i as int]));
                    }
                    let t = args[i].display_text();
                    push_str(&mut s, t.as_str());
                    assert(args@.subrange(0, i + 1).subrange(0, i as int) =~= args@.subrange(0, i as int));
                    assert(s@ =~= s0 + raws_text(args@.subrange(0, i + 1)));
                    i = i + 1;
                }
                assert(args@.subrange(0, args@.len() as int) =~= args@);
                push_str(&mut s, ")");
            },
        }
        assert(s@ =~= raw_text(*self));
        s
    }
}

} // verus!
