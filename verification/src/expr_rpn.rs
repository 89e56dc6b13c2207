//! The reverse Polish form of a SQL expression that the synchronous
//! analyzer evaluates with a stack: what each node of the expression, met
//! after its children, adds to it.
use vstd::prelude::*;

use crate::data_type::DataTypeImpl;

verus! {

/// How a function of the reverse Polish form was written.
#[derive(PartialEq, Eq, Structural, Clone, Copy, Debug)]
pub enum OperatorKind {
    Unary,
    Binary,
    Other,
}

/// A call in the reverse Polish form: the function's name and how many
/// operands it takes from the stack.
#[derive(Debug)]
pub struct FunctionExprInfo {
    pub name: String,
    pub args_count: usize,
    pub kind: OperatorKind,
}

/// An `IN` list: how many values it holds, and whether it is `NOT IN`.
#[derive(PartialEq, Eq, Structural, Clone, Copy, Debug)]
pub struct InListInfo {
    pub list_size: usize,
    pub negated: bool,
}

/// A value of the reverse Polish form: a value of the query, or one the
/// builder adds itself (a number, or a quoted string).
#[derive(Debug)]
pub enum RpnValue<V> {
    Given(V),
    Number(String, bool),
    SingleQuotedString(String),
}

/// An item of the reverse Polish form; `V`, `I` and `Q` are the values,
/// identifiers and subqueries of the query.
#[derive(Debug)]
pub enum ExprRPNItem<V, I, Q> {
    Value(RpnValue<V>),
    Identifier(I),
    QualifiedIdentifier(Vec<I>),
    Function(FunctionExprInfo),
    Wildcard,
    Exists(Q),
    Subquery(Q),
    Cast(DataTypeImpl, bool),
    Between(bool),
    InList(InListInfo),
    MapAccess(Vec<V>),
    Array(usize),
}

/// A unary operator of SQL.
#[derive(Debug)]
pub enum UnaryOp {
    Plus,
    Minus,
    /// Any other operator, by its text.
    Other(String),
}

/// A field that `EXTRACT` takes from a date or time.
#[derive(PartialEq, Eq, Structural, Clone, Copy, Debug)]
pub enum DateTimeField {
    Year,
    Month,
    Day,
    Hour,
    Minute,
    Second,
}

/// A node of a SQL expression as the builder reads it, its children left
/// out (they come before it); a type is given as the data type it names.
#[derive(Debug)]
pub enum SqlNode<V, I, Q> {
    Value(V),
    Identifier(I),
    CompoundIdentifier(Vec<I>),
    IsNull,
    IsNotNull,
    UnaryOp(UnaryOp),
    /// A binary operator, by its text.
    BinaryOp(String),
    Exists(Q),
    Subquery(Q),
    Function { name: String, args_count: usize },
    Cast { data_type: DataTypeImpl, pg_style: bool },
    /// `TRY_CAST`: its type, and whether that type can be made nullable.
    TryCast { data_type: DataTypeImpl, can_inside_nullable: bool },
    TypedString { data_type: DataTypeImpl, value: String },
    Position,
    Substring { has_from: bool, has_for: bool },
    Between { negated: bool },
    Tuple(usize),
    InList { list_size: usize, negated: bool },
    Extract(DateTimeField),
    MapAccess(Vec<V>),
    Trim { has_where: bool },
    Array(usize),
    /// A node that adds nothing.
    Other,
}

/// The call of a function with the given name and number of operands.
pub open spec fn call(name: Seq<char>, args_count: usize, kind: OperatorKind) -> (Seq<char>, usize, OperatorKind) {
    (name, args_count, kind)
}

/// The name of the function that extracts a field.
pub open spec fn extract_function(f: DateTimeField) -> Seq<char> {
    match f {
        DateTimeField::Year => "toYear"@,
        DateTimeField::Month => "toMonth"@,
        DateTimeField::Day => "toDayOfMonth"@,
        DateTimeField::Hour => "toHour"@,
        DateTimeField::Minute => "toMinute"@,
        DateTimeField::Second => "toSecond"@,
    }
}

/// Whether an item is the call of a function with this name, operand count
/// and kind.
pub open spec fn is_call<V, I, Q>(item: ExprRPNItem<V, I, Q>, name: Seq<char>, args_count: usize, kind: OperatorKind) -> bool {
    item matches ExprRPNItem::Function(f) && f.name@ == name && f.args_count == args_count && f.kind == kind
}

/// What a node adds to the reverse Polish form, in order.
pub open spec fn node_items<V, I, Q>(node: SqlNode<V, I, Q>, items: Seq<ExprRPNItem<V, I, Q>>) -> bool {
    match node {
        SqlNode::Value(v) => items =~= seq![ExprRPNItem::<V, I, Q>::Value(RpnValue::Given(v))],
        SqlNode::Identifier(i) => items =~= seq![ExprRPNItem::<V, I, Q>::Identifier(i)],
        SqlNode::CompoundIdentifier(is) => items =~= seq![ExprRPNItem::<V, I, Q>::QualifiedIdentifier(is)],
        SqlNode::IsNull => items.len() == 1 && is_call(items[0], "is_null"@, 1, OperatorKind::Other),
        SqlNode::IsNotNull => items.len() == 1 && is_call(items[0], "is_not_null"@, 1, OperatorKind::Other),
        SqlNode::UnaryOp(UnaryOp::Plus) => items.len() == 0,
        SqlNode::UnaryOp(UnaryOp::Minus) => items.len() == 1 && is_call(items[0], "NEGATE"@, 1, OperatorKind::Unary),
        SqlNode::UnaryOp(UnaryOp::Other(op)) => items.len() == 1 && is_call(items[0], op@, 1, OperatorKind::Unary),
        SqlNode::BinaryOp(op) => items.len() == 1 && is_call(items[0], op@, 2, OperatorKind::Binary),
        SqlNode::Exists(q) => items =~= seq![ExprRPNItem::<V, I, Q>::Exists(q)],
        SqlNode::Subquery(q) => items =~= seq![ExprRPNItem::<V, I, Q>::Subquery(q)],
        SqlNode::Function { name, args_count } => items.len() == 1 && is_call(
            items[0],
            name@,
            args_count,
            OperatorKind::Other,
        ),
        SqlNode::Cast { data_type, pg_style } => items =~= seq![ExprRPNItem::<V, I, Q>::Cast(data_type, pg_style)],
        SqlNode::TryCast { data_type, can_inside_nullable } => items =~= seq![
            ExprRPNItem::<V, I, Q>::Cast(
                if can_inside_nullable {
                    DataTypeImpl::Nullable(Box::new(data_type))
                } else {
                    data_type
                },
                false,
            ),
        ],
        SqlNode::TypedString { data_type, value } => items.len() == 2 && (items[0] matches ExprRPNItem::Value(
            RpnValue::SingleQuotedString(s),
        ) && s@ == value@) && items[1] == ExprRPNItem::<V, I, Q>::Cast(data_type, false),
        SqlNode::Position => items.len() == 1 && is_call(items[0], "position"@, 2, OperatorKind::Other),
        SqlNode::Substring { has_from, has_for } => {
            let k: int = if has_from { 0 } else { 1 };
            &&& items.len() == k + 1
            &&& !has_from ==> (items[0] matches ExprRPNItem::Value(RpnValue::Number(n, neg)) && n@ == "1"@ && !neg)
            &&& is_call(items[k], "substring"@, if has_for { 3 } else { 2 }, OperatorKind::Other)
        },
        SqlNode::Between { negated } => items =~= seq![ExprRPNItem::<V, I, Q>::Between(negated)],
        SqlNode::Tuple(len) => if len > 1 {
            items.len() == 1 && is_call(items[0], "tuple"@, len, OperatorKind::Other)
        } else {
            items.len() == 0
        },
        SqlNode::InList { list_size, negated } => items =~= seq![
            ExprRPNItem::<V, I, Q>::InList(InListInfo { list_size, negated }),
        ],
        SqlNode::Extract(f) => items.len() == 1 && is_call(items[0], extract_function(f), 1, OperatorKind::Other),
        SqlNode::MapAccess(keys) => items =~= seq![ExprRPNItem::<V, I, Q>::MapAccess(keys)],
        SqlNode::Trim { has_where } => items.len() == 1 && is_call(
            items[0],
            "trim"@,
            if has_where { 2 } else { 1 },
            OperatorKind::Other,
        ),
        SqlNode::Array(len) => items =~= seq![ExprRPNItem::<V, I, Q>::Array(len)],
        SqlNode::Other => items.len() == 0,
    }
}

impl<V, I, Q> ExprRPNItem<V, I, Q> {
    /// The call of a function with the given number of operands.
    pub fn function(name: String, args_count: usize) -> (r: Self)
        ensures
            is_call(r, name@, args_count, OperatorKind::Other),
    {
        ExprRPNItem::Function(FunctionExprInfo { name, args_count, kind: OperatorKind::Other })
    }

    /// A binary operator, which takes two operands.
    pub fn binary_operator(name: String) -> (r: Self)
        ensures
            is_call(r, name@, 2, OperatorKind::Binary),
    {
        ExprRPNItem::Function(FunctionExprInfo { name, args_count: 2, kind: OperatorKind::Binary })
    }

    /// A unary operator, which takes one operand.
    pub fn unary_operator(name: String) -> (r: Self)
        ensures
            is_call(r, name@, 1, OperatorKind::Unary),
    {
        ExprRPNItem::Function(FunctionExprInfo { name, args_count: 1, kind: OperatorKind::Unary })
    }
}

/// The reverse Polish form built so far.
#[derive(Debug)]
pub struct ExprRPNBuilder<V, I, Q> {
    pub rpn: Vec<ExprRPNItem<V, I, Q>>,
}

impl<V, I, Q> ExprRPNBuilder<V, I, Q> {
    /// A builder with nothing built.
    pub fn new() -> (r: Self)
        ensures
            r.rpn@.len() == 0,
    {
        ExprRPNBuilder { rpn: Vec::new() }
    }

    /// Adds what a node of the expression stands for, once its children
    /// were added.
    pub fn process_expr(&mut self, node: SqlNode<V, I, Q>)
        ensures
            exists|items: Seq<ExprRPNItem<V, I, Q>>| #![trigger node_items(node, items)]
                node_items(node, items) && final(self).rpn@ == old(self).rpn@ + items,
    {
        let ghost before = self.rpn@;
        let ghost n = node;
        match node {
            SqlNode::Value(v) => self.rpn.push(ExprRPNItem::Value(RpnValue::Given(v))),
            SqlNode::Identifier(i) => self.rpn.push(ExprRPNItem::Identifier(i)),
            SqlNode::CompoundIdentifier(is) => self.rpn.push(ExprRPNItem::QualifiedIdentifier(is)),
            SqlNode::IsNull => self.rpn.push(ExprRPNItem::function(String::from_str("is_null"), 1)),
            SqlNode::IsNotNull => self.rpn.push(ExprRPNItem::function(String::from_str("is_not_null"), 1)),
            SqlNode::UnaryOp(op) => match op {
                UnaryOp::Plus => {},
                UnaryOp::Minus => self.rpn.push(ExprRPNItem::unary_operator(String::from_str("NEGATE"))),
                UnaryOp::Other(text) => self.rpn.push(ExprRPNItem::unary_operator(text)),
            },
            SqlNode::BinaryOp(op) => self.rpn.push(ExprRPNItem::binary_operator(op)),
            SqlNode::Exists(q) => self.rpn.push(ExprRPNItem::Exists(q)),
            SqlNode::Subquery(q) => self.rpn.push(ExprRPNItem::Subquery(q)),
            SqlNode::Function { name, args_count } => self.rpn.push(
                ExprRPNItem::Function(FunctionExprInfo { name, args_count, kind: OperatorKind::Other }),
            ),
            SqlNode::Cast { data_type, pg_style } => self.rpn.push(ExprRPNItem::Cast(data_type, pg_style)),
            SqlNode::TryCast { data_type, can_inside_nullable } => {
                let ty = if can_inside_nullable {
                    DataTypeImpl::Nullable(Box::new(data_type))
                } else {
                    data_type
                };
                self.rpn.push(ExprRPNItem::Cast(ty, false));
            },
            SqlNode::TypedString { data_type, value } => {
                self.rpn.push(ExprRPNItem::Value(RpnValue::SingleQuotedString(value)));
                self.rpn.push(ExprRPNItem::Cast(data_type, false));
            },
            SqlNode::Position => self.rpn.push(ExprRPNItem::function(String::from_str("position"), 2)),
            SqlNode::Substring { has_from, has_for } => {
                if !has_from {
                    self.rpn.push(ExprRPNItem::Value(RpnValue::Number(String::from_str("1"), false)));
                }
                if has_for {
                    self.rpn.push(ExprRPNItem::function(String::from_str("substring"), 3));
                } else {
                    self.rpn.push(ExprRPNItem::function(String::from_str("substring"), 2));
                }
            },
            SqlNode::Between { negated } => self.rpn.push(ExprRPNItem::Between(negated)),
            SqlNode::Tuple(len) => {
                if len > 1 {
                    self.rpn.push(ExprRPNItem::function(String::from_str("tuple"), len));
                }
            },
            SqlNode::InList { list_size, negated } => self.rpn.push(
                ExprRPNItem::InList(InListInfo { list_size, negated }),
            ),
            SqlNode::Extract(f) => {
                let name = match f {
                    DateTimeField::Year => String::from_str("toYear"),
                    DateTimeField::Month => String::from_str("toMonth"),
                    DateTimeField::Day => String::from_str("toDayOfMonth"),
                    DateTimeField::Hour => String::from_str("toHour"),
                    DateTimeField::Minute => String::from_str("toMinute"),
                    DateTimeField::Second => String::from_str("toSecond"),
                };
                self.rpn.push(ExprRPNItem::function(name, 1));
            },
            SqlNode::MapAccess(keys) => self.rpn.push(ExprRPNItem::MapAccess(keys)),
            SqlNode::Trim { has_where } => {
                if has_where {
                    self.rpn.push(ExprRPNItem::function(String::from_str("trim"), 2));
                } else {
                    self.rpn.push(ExprRPNItem::function(String::from_str("trim"), 1));
                }
            },
            SqlNode::Array(len) => self.rpn.push(ExprRPNItem::Array(len)),
            SqlNode::Other => {},
        }
        let ghost items = self.rpn@.subrange(before.len() as int, self.rpn@.len() as int);
        assert(self.rpn@ =~= before + items);
        assert(node_items(n, items));
    }

    /// Adds the wildcard `*`.
    pub fn visit_wildcard(&mut self)
        ensures
            final(self).rpn@ == old(self).rpn@.push(ExprRPNItem::Wildcard),
    {
        self.rpn.push(ExprRPNItem::Wildcard);
    }
}


/// The name of the function a call item calls.
pub open spec fn called_name<V, I, Q>(item: ExprRPNItem<V, I, Q>) -> Option<Seq<char>> {
    match item {
        ExprRPNItem::Function(f) => Some(f.name@),
        _ => None,
    }
}

/// The SQL tests for NULL become calls of the functions of their own
/// names, each taking its one operand: `a IS NULL` calls `is_null` and
/// `a IS NOT NULL` calls `is_not_null`, so the two never evaluate alike.
pub proof fn law_null_tests_call_their_own_functions<V, I, Q>(
    is_null: Seq<ExprRPNItem<V, I, Q>>,
    is_not_null: Seq<ExprRPNItem<V, I, Q>>,
)
    requires
        node_items(SqlNode::<V, I, Q>::IsNull, is_null),
        node_items(SqlNode::<V, I, Q>::IsNotNull, is_not_null),
    ensures
        is_null.len() == 1 && is_not_null.len() == 1,
        called_name(is_null[0]) == Some("is_null"@),
        called_name(is_not_null[0]) == Some("is_not_null"@),
        called_name(is_null[0]) != called_name(is_not_null[0]),
        is_null[0] matches ExprRPNItem::Function(f) && f.args_count == 1,
        is_not_null[0] matches ExprRPNItem::Function(f) && f.args_count == 1,
{
    reveal_strlit("is_null");
    reveal_strlit("is_not_null");
    assert("is_null"@.len() != "is_not_null"@.len());
}

/// The other SQL forms that become calls name the function that computes
/// them, with the operands they take: a negation `NEGATE` of one operand,
/// `POSITION` of two, `SUBSTRING` of two or three, `TRIM` of one or two,
/// and each `EXTRACT` field the function of that field.
pub proof fn law_sql_forms_call_their_functions<V, I, Q>(node: SqlNode<V, I, Q>, items: Seq<ExprRPNItem<V, I, Q>>)
    requires
        node_items(node, items),
    ensures
        node matches SqlNode::UnaryOp(UnaryOp::Minus) ==> is_call(items[0], "NEGATE"@, 1, OperatorKind::Unary),
        node matches SqlNode::Position ==> is_call(items[0], "position"@, 2, OperatorKind::Other),
        node matches SqlNode::Substring { has_from, has_for } ==> is_call(
            items[items.len() - 1],
            "substring"@,
            if has_for { 3 } else { 2 },
            OperatorKind::Other,
        ),
        node matches SqlNode::Trim { has_where } ==> is_call(items[0], "trim"@, if has_where { 2 } else { 1 }, OperatorKind::Other),
        node matches SqlNode::Extract(DateTimeField::Year) ==> is_call(items[0], "toYear"@, 1, OperatorKind::Other),
        node matches SqlNode::Extract(DateTimeField::Month) ==> is_call(items[0], "toMonth"@, 1, OperatorKind::Other),
        node matches SqlNode::Extract(DateTimeField::Day) ==> is_call(items[0], "toDayOfMonth"@, 1, OperatorKind::Other),
        node matches SqlNode::Extract(DateTimeField::Hour) ==> is_call(items[0], "toHour"@, 1, OperatorKind::Other),
        node matches SqlNode::Extract(DateTimeField::Minute) ==> is_call(items[0], "toMinute"@, 1, OperatorKind::Other),
        node matches SqlNode::Extract(DateTimeField::Second) ==> is_call(items[0], "toSecond"@, 1, OperatorKind::Other),
        node matches SqlNode::BinaryOp(op) ==> is_call(items[0], op@, 2, OperatorKind::Binary),
        node matches SqlNode::Function { name, args_count } ==> is_call(items[0], name@, args_count, OperatorKind::Other),
        node matches SqlNode::Between { negated } ==> items.len() == 1 && (items[0] matches ExprRPNItem::Between(n)
            && n == negated),
        node matches SqlNode::InList { list_size, negated } ==> items.len() == 1 && (items[0] matches ExprRPNItem::InList(
            info,
        ) && info.list_size == list_size && info.negated == negated),
        node matches SqlNode::TryCast { data_type, can_inside_nullable } ==> items.len() == 1 && (items[0] matches ExprRPNItem::Cast(
            ty,
            pg,
        ) && !pg && (can_inside_nullable ==> (ty matches DataTypeImpl::Nullable(inner) && *inner == data_type)) && (
        !can_inside_nullable ==> ty == data_type)),
        node matches SqlNode::Cast { data_type, pg_style } ==> items.len() == 1 && (items[0] matches ExprRPNItem::Cast(
            ty,
            pg,
        ) && pg == pg_style && ty == data_type),
        node matches SqlNode::Tuple(len) ==> (len <= 1 <==> items.len() == 0),
        node matches SqlNode::UnaryOp(UnaryOp::Plus) ==> items.len() == 0,
{
}

} // verus!
