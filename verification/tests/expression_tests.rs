use databend_common::expr_display::DataType;
use databend_common::expr_display::FunctionProperty;
use databend_common::expr_display::FunctionSignature;
use databend_common::expr_display::RawExpr;
use databend_common::remote_expr::Expr;

fn plus_signature() -> FunctionSignature {
    FunctionSignature {
        name: "plus".to_string(),
        args_type: vec![DataType::Int8, DataType::Int8],
        return_type: DataType::Int16,
        property: FunctionProperty { commutative: true },
    }
}

fn column(id: usize) -> Expr<String, FunctionSignature> {
    Expr::ColumnRef { span: None, id }
}

fn constant(text: &str) -> Expr<String, FunctionSignature> {
    Expr::Constant { span: None, scalar: text.to_string() }
}

#[test]
fn signature_text() {
    assert_eq!(plus_signature().display_text(), "plus(Int8, Int8) :: Int16");
    let none = FunctionSignature {
        name: "now".to_string(),
        args_type: vec![],
        return_type: DataType::Nullable(Box::new(DataType::UInt64)),
        property: FunctionProperty { commutative: false },
    };
    assert_eq!(none.display_text(), "now() :: UInt64 NULL");
}

#[test]
fn checked_expression_texts() {
    assert_eq!(column(3).display_text(), "ColumnRef(3)");
    assert_eq!(constant("42").display_text(), "42");
    let cast = Expr::Cast { span: None, expr: Box::new(column(0)), dest_type: DataType::Int64 };
    assert_eq!(cast.display_text(), "CAST(ColumnRef(0) AS Int64)");
    let try_cast = Expr::TryCast { span: None, expr: Box::new(constant("NULL")), dest_type: DataType::String };
    assert_eq!(try_cast.display_text(), "TRY_CAST(NULL AS String)");
    let call = Expr::FunctionCall {
        span: None,
        id: 7,
        function: plus_signature(),
        generics: vec![],
        args: vec![column(0), constant("1")],
    };
    assert_eq!(call.display_text(), "plus<Int8, Int8>(ColumnRef(0), 1)");
    let generic = Expr::FunctionCall {
        span: Some((0, 5)),
        id: 8,
        function: FunctionSignature {
            name: "if".to_string(),
            args_type: vec![DataType::Boolean, DataType::Generic(0), DataType::Generic(0)],
            return_type: DataType::Generic(0),
            property: FunctionProperty { commutative: false },
        },
        generics: vec![DataType::UInt8, DataType::Null],
        args: vec![constant("true"), column(1), column(2)],
    };
    assert_eq!(
        generic.display_text(),
        "if<T0=UInt8, T1=NULL><Boolean, T0, T0>(true, ColumnRef(1), ColumnRef(2))"
    );
}

#[test]
fn raw_expression_texts() {
    let col: RawExpr<String> = RawExpr::ColumnRef { span: None, id: 2, data_type: DataType::Boolean };
    assert_eq!(col.display_text(), "ColumnRef(2)::Boolean");
    let lit: RawExpr<String> = RawExpr::Literal { span: None, lit: "1_u8".to_string() };
    let cast = RawExpr::Cast { span: None, expr: Box::new(lit), dest_type: DataType::UInt64 };
    assert_eq!(cast.display_text(), "CAST(1_u8 AS UInt64)");
    let call: RawExpr<String> = RawExpr::FunctionCall {
        span: None,
        name: "to_string".to_string(),
        params: vec![],
        args: vec![RawExpr::TryCast {
            span: None,
            expr: Box::new(RawExpr::Literal { span: None, lit: "NULL".to_string() }),
            dest_type: DataType::Int32,
        }],
    };
    assert_eq!(call.display_text(), "to_string(TRY_CAST(NULL AS Int32))");
    let with_params: RawExpr<String> = RawExpr::FunctionCall {
        span: Some((1, 2)),
        name: "round".to_string(),
        params: vec![2, 10],
        args: vec![col_of(0), col_of(1)],
    };
    assert_eq!(with_params.display_text(), "round(2, 10)(ColumnRef(0)::Int8, ColumnRef(1)::Int8)");
}

fn col_of(id: usize) -> RawExpr<String> {
    RawExpr::ColumnRef { span: None, id, data_type: DataType::Int8 }
}
