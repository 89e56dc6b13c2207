use databend_common::clickhouse_handler::column_kind;
use databend_common::clickhouse_handler::ColumnKind;
use databend_common::clickhouse_handler::SqlType;
use databend_common::data_type::DataTypeImpl;
use databend_common::error_code::ErrorKind;
use databend_common::expr_rpn::DateTimeField;
use databend_common::expr_rpn::ExprRPNBuilder;
use databend_common::expr_rpn::ExprRPNItem;
use databend_common::expr_rpn::OperatorKind;
use databend_common::expr_rpn::RpnValue;
use databend_common::expr_rpn::SqlNode;
use databend_common::expr_rpn::UnaryOp;
use databend_common::hash_join::probe_validity;
use databend_common::hash_join::ColumnValidity;
use databend_common::meta_client::handshake_token;
use databend_common::meta_error::MetaError;
use databend_common::mysql_writer::write_cell;
use databend_common::mysql_writer::CellValue;
use databend_common::mysql_writer::CellWrite;

#[test]
fn mysql_cells() {
    let nullable_bool = DataTypeImpl::Nullable(Box::new(DataTypeImpl::Boolean));
    assert_eq!(write_cell(&nullable_bool, CellValue::Null, "Null").unwrap(), CellWrite::Null);
    assert_eq!(write_cell(&nullable_bool, CellValue::Boolean(true), "Boolean").unwrap(), CellWrite::Tiny(1));
    assert_eq!(write_cell(&DataTypeImpl::Date, CellValue::Int64(19000), "Int64").unwrap(), CellWrite::Date(19000));
    assert_eq!(write_cell(&DataTypeImpl::Timestamp(6), CellValue::Int64(5), "Int64").unwrap(), CellWrite::Serialized);
    assert_eq!(write_cell(&DataTypeImpl::Int32, CellValue::Int64(-5), "Int64").unwrap(), CellWrite::Int(-5));
    assert_eq!(write_cell(&DataTypeImpl::UInt8, CellValue::UInt64(5), "UInt64").unwrap(), CellWrite::UInt(5));
    assert_eq!(write_cell(&DataTypeImpl::Float64, CellValue::Float64, "Float64").unwrap(), CellWrite::Serialized);
    assert_eq!(
        write_cell(&DataTypeImpl::String, CellValue::String(b"ab".to_vec()), "String").unwrap(),
        CellWrite::Bytes(b"ab".to_vec())
    );
    assert_eq!(write_cell(&DataTypeImpl::VariantArray, CellValue::Variant, "Variant").unwrap(), CellWrite::Serialized);
    let e = write_cell(&DataTypeImpl::Int8, CellValue::String(b"x".to_vec()), "String").unwrap_err();
    assert_eq!(e.kind, ErrorKind::BadDataValueType);
    assert_eq!(e.message, "Unsupported column type:String, expected type in schema: Int8");
}

#[test]
fn handshake_versions() {
    assert_eq!(handshake_token(0, 5, vec![1], "0.0.0", "0.0.5").unwrap(), vec![1]);
    assert_eq!(handshake_token(5, 5, vec![2], "0.0.5", "0.0.5").unwrap(), vec![2]);
    match handshake_token(1002003, 1002004, vec![3], "1.2.3", "1.2.4") {
        Err(MetaError::MetaNetworkError(e)) => {
            assert_eq!(e.kind, ErrorKind::InvalidArgument);
            assert_eq!(e.message, "metasrv protocol_version(1.2.3) < meta-client min-compatible(1.2.4)");
        }
        other => panic!("{:?}", other),
    }
}

#[test]
fn probe_rows_validity() {
    let plain = ColumnValidity { nullable_or_null: false, all_null: false, valids: None };
    assert_eq!(probe_validity(2, &vec![plain.clone()]), None);
    let a = ColumnValidity { nullable_or_null: true, all_null: false, valids: Some(vec![true, false, true]) };
    let b = ColumnValidity { nullable_or_null: true, all_null: false, valids: Some(vec![true, true, false]) };
    assert_eq!(probe_validity(3, &vec![a.clone(), plain.clone(), b]), Some(vec![true, false, false]));
    let all = ColumnValidity { nullable_or_null: true, all_null: true, valids: None };
    assert_eq!(probe_validity(3, &vec![a, all]), Some(vec![false, false, false]));
    let nullable_no_map = ColumnValidity { nullable_or_null: true, all_null: false, valids: None };
    assert_eq!(probe_validity(3, &vec![nullable_no_map]), None);
}

#[test]
fn clickhouse_column_kinds() {
    assert_eq!(column_kind(&SqlType::UInt8), Some((ColumnKind::UInt8, false)));
    assert_eq!(column_kind(&SqlType::Date), Some((ColumnKind::DateDays, false)));
    assert_eq!(column_kind(&SqlType::FixedString(4)), Some((ColumnKind::String, false)));
    assert_eq!(column_kind(&SqlType::Nullable(Box::new(SqlType::Date))), Some((ColumnKind::DateDaysCut, true)));
    assert_eq!(column_kind(&SqlType::Nullable(Box::new(SqlType::DateTime))), Some((ColumnKind::DateTimeMicros, true)));
    assert_eq!(column_kind(&SqlType::Nullable(Box::new(SqlType::Nullable(Box::new(SqlType::Int8))))), None);
    assert_eq!(column_kind(&SqlType::Other), None);
}

fn call(item: &ExprRPNItem<u8, String, ()>) -> (String, usize, OperatorKind) {
    match item {
        ExprRPNItem::Function(f) => (f.name.clone(), f.args_count, f.kind),
        other => panic!("{:?}", other),
    }
}

#[test]
fn reverse_polish_items() {
    let mut b: ExprRPNBuilder<u8, String, ()> = ExprRPNBuilder::new();
    b.process_expr(SqlNode::Value(7));
    b.process_expr(SqlNode::UnaryOp(UnaryOp::Plus));
    b.process_expr(SqlNode::UnaryOp(UnaryOp::Minus));
    b.process_expr(SqlNode::BinaryOp("+".to_string()));
    b.process_expr(SqlNode::Substring { has_from: false, has_for: true });
    b.process_expr(SqlNode::Tuple(1));
    b.process_expr(SqlNode::Extract(DateTimeField::Day));
    b.process_expr(SqlNode::TryCast { data_type: DataTypeImpl::Int8, can_inside_nullable: true });
    b.visit_wildcard();
    assert_eq!(b.rpn.len(), 8);
    assert!(matches!(b.rpn[0], ExprRPNItem::Value(RpnValue::Given(7))));
    assert_eq!(call(&b.rpn[1]), ("NEGATE".to_string(), 1, OperatorKind::Unary));
    assert_eq!(call(&b.rpn[2]), ("+".to_string(), 2, OperatorKind::Binary));
    match &b.rpn[3] {
        ExprRPNItem::Value(RpnValue::Number(n, neg)) => assert_eq!((n.as_str(), *neg), ("1", false)),
        other => panic!("{:?}", other),
    }
    assert_eq!(call(&b.rpn[4]), ("substring".to_string(), 3, OperatorKind::Other));
    assert_eq!(call(&b.rpn[5]), ("toDayOfMonth".to_string(), 1, OperatorKind::Other));
    match &b.rpn[6] {
        ExprRPNItem::Cast(DataTypeImpl::Nullable(inner), false) => assert!(matches!(**inner, DataTypeImpl::Int8)),
        other => panic!("{:?}", other),
    }
    assert!(matches!(b.rpn[7], ExprRPNItem::Wildcard));
}
