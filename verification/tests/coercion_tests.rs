use databend_common::data_type::DataTypeImpl;
use databend_common::data_type::IntervalKind;
use databend_common::data_type::TypeID;
use databend_common::data_type::remove_nullable;
use databend_common::data_type::wrap_nullable;
use databend_common::error_code::ErrorKind;
use databend_common::type_coercion::aggregate_types;
use databend_common::type_coercion::compare_coercion;
use databend_common::type_coercion::construct_numeric_type;
use databend_common::type_coercion::merge_types;
use databend_common::type_coercion::next_size;
use databend_common::type_coercion::numerical_arithmetic_coercion;
use databend_common::type_coercion::numerical_coercion;
use databend_common::type_coercion::numerical_unary_arithmetic_coercion;
use databend_common::type_coercion::DataValueBinaryOperator;
use databend_common::type_coercion::DataValueUnaryOperator;
use databend_common::mysql_writer::completes_without_rows;
use databend_common::mysql_writer::convert_field_type;
use databend_common::mysql_writer::convert_schema;
use databend_common::mysql_writer::mysql_error_kind;
use databend_common::mysql_writer::MysqlColumnType;
use databend_common::mysql_writer::MysqlErrorKind;

fn name(r: Result<DataTypeImpl, databend_common::error_code::ErrorCode>) -> String {
    r.unwrap().name()
}

fn nullable(t: DataTypeImpl) -> DataTypeImpl {
    DataTypeImpl::Nullable(Box::new(t))
}

#[test]
fn next_size_doubles_below_eight() {
    assert_eq!(next_size(1), 2);
    assert_eq!(next_size(4), 8);
    assert_eq!(next_size(8), 8);
    assert_eq!(next_size(16), 16);
}

#[test]
fn construct_numeric_type_by_sign_kind_and_width() {
    assert_eq!(name(construct_numeric_type(false, false, 1)), "UInt8");
    assert_eq!(name(construct_numeric_type(true, false, 4)), "Int32");
    assert_eq!(name(construct_numeric_type(true, true, 2)), "Float32");
    assert_eq!(name(construct_numeric_type(false, true, 8)), "Float64");
    // widths above eight bytes overflow to the other sign
    assert_eq!(name(construct_numeric_type(false, false, 16)), "Int64");
    assert_eq!(name(construct_numeric_type(true, false, 16)), "UInt64");
    assert_eq!(name(construct_numeric_type(false, true, 16)), "Float64");
    let e = construct_numeric_type(false, true, 2).unwrap_err();
    assert_eq!(e.kind, ErrorKind::BadDataValueType);
    assert_eq!(
        e.message,
        "Can't construct type from is_signed: false, is_floating: true, byte_size: 2"
    );
}

#[test]
fn numerical_coercion_keeps_precision() {
    let r = numerical_coercion(&DataTypeImpl::UInt8, &DataTypeImpl::Int8, false);
    assert_eq!(name(r), "Int16");
    let r = numerical_coercion(&DataTypeImpl::UInt8, &DataTypeImpl::Float32, false);
    assert_eq!(name(r), "Float32");
    let r = numerical_coercion(&DataTypeImpl::Int32, &DataTypeImpl::Float32, false);
    assert_eq!(name(r), "Float64");
    let r = numerical_coercion(&DataTypeImpl::UInt16, &DataTypeImpl::UInt32, false);
    assert_eq!(name(r), "UInt32");
    let r = numerical_coercion(&DataTypeImpl::UInt64, &DataTypeImpl::Int64, true);
    assert_eq!(name(r), "Int64");
    let e = numerical_coercion(&DataTypeImpl::UInt64, &DataTypeImpl::Int64, false).unwrap_err();
    assert_eq!(e.kind, ErrorKind::BadDataValueType);
    assert_eq!(e.message, "Can't construct type from UInt64 and Int64");
    let e = numerical_coercion(&DataTypeImpl::String, &DataTypeImpl::Int8, true).unwrap_err();
    assert_eq!(e.kind, ErrorKind::BadArguments);
    assert_eq!(e.message, "Function number_byte_size argument must be numeric types, but got String");
}

#[test]
fn numerical_coercion_commutes_on_examples() {
    let ts = [
        DataTypeImpl::UInt8,
        DataTypeImpl::Int16,
        DataTypeImpl::UInt32,
        DataTypeImpl::Float32,
        DataTypeImpl::Int64,
        DataTypeImpl::Float64,
    ];
    for a in ts.iter() {
        for b in ts.iter() {
            let x = numerical_coercion(a, b, true).map(|t| t.name());
            let y = numerical_coercion(b, a, true).map(|t| t.name());
            assert_eq!(x.ok(), y.ok());
        }
    }
}

#[test]
fn arithmetic_coercion_by_operator() {
    let (u8t, i32t, u64t, i64t, f32t) =
        (DataTypeImpl::UInt8, DataTypeImpl::Int32, DataTypeImpl::UInt64, DataTypeImpl::Int64, DataTypeImpl::Float32);
    assert_eq!(name(numerical_arithmetic_coercion(&DataValueBinaryOperator::Plus, &u8t, &u8t)), "UInt16");
    assert_eq!(name(numerical_arithmetic_coercion(&DataValueBinaryOperator::Mul, &i64t, &u64t)), "Int64");
    assert_eq!(name(numerical_arithmetic_coercion(&DataValueBinaryOperator::Minus, &u8t, &u8t)), "Int16");
    assert_eq!(name(numerical_arithmetic_coercion(&DataValueBinaryOperator::Div, &u8t, &u8t)), "Float64");
    assert_eq!(name(numerical_arithmetic_coercion(&DataValueBinaryOperator::IntDiv, &i32t, &u8t)), "Int32");
    assert_eq!(name(numerical_arithmetic_coercion(&DataValueBinaryOperator::Modulo, &i32t, &u8t)), "Int16");
    assert_eq!(name(numerical_arithmetic_coercion(&DataValueBinaryOperator::Modulo, &u8t, &i32t)), "UInt32");
    assert_eq!(name(numerical_arithmetic_coercion(&DataValueBinaryOperator::Modulo, &f32t, &u8t)), "Float64");
    let e = numerical_arithmetic_coercion(&DataValueBinaryOperator::Plus, &DataTypeImpl::String, &u8t).unwrap_err();
    assert_eq!(e.kind, ErrorKind::BadDataValueType);
    assert_eq!(e.message, "DataValue Error: Unsupported (String) + (UInt8)");
}

#[test]
fn unary_coercion_of_negation() {
    let neg = DataValueUnaryOperator::Negate;
    assert_eq!(name(numerical_unary_arithmetic_coercion(&neg, &DataTypeImpl::UInt8)), "Int16");
    assert_eq!(name(numerical_unary_arithmetic_coercion(&neg, &DataTypeImpl::Int8)), "Int8");
    assert_eq!(name(numerical_unary_arithmetic_coercion(&neg, &DataTypeImpl::UInt64)), "Int64");
    assert_eq!(name(numerical_unary_arithmetic_coercion(&neg, &DataTypeImpl::Float32)), "Float32");
    let e = numerical_unary_arithmetic_coercion(&neg, &DataTypeImpl::Boolean).unwrap_err();
    assert_eq!(e.kind, ErrorKind::BadDataValueType);
    assert_eq!(e.message, "DataValue Error: Unsupported (Boolean)");
}

#[test]
fn compare_coercion_rules() {
    assert_eq!(name(compare_coercion(&DataTypeImpl::Int8, &DataTypeImpl::Int8)), "Int8");
    assert_eq!(name(compare_coercion(&DataTypeImpl::UInt8, &DataTypeImpl::Int8)), "Int16");
    assert_eq!(name(compare_coercion(&DataTypeImpl::UInt64, &DataTypeImpl::Int64)), "Int64");
    assert_eq!(name(compare_coercion(&DataTypeImpl::Null, &DataTypeImpl::Int8)), "Nullable(Int8)");
    assert_eq!(name(compare_coercion(&DataTypeImpl::String, &DataTypeImpl::Int8)), "Float64");
    assert_eq!(name(compare_coercion(&DataTypeImpl::String, &DataTypeImpl::Date)), "Date");
    assert_eq!(name(compare_coercion(&DataTypeImpl::Date, &DataTypeImpl::Timestamp(3))), "Timestamp(3)");
    assert_eq!(
        name(compare_coercion(&DataTypeImpl::Timestamp(6), &DataTypeImpl::Timestamp(3))),
        "Timestamp(6)"
    );
    assert_eq!(name(compare_coercion(&DataTypeImpl::Variant, &DataTypeImpl::Boolean)), "Boolean");
    let e = compare_coercion(&DataTypeImpl::Boolean, &DataTypeImpl::String).unwrap_err();
    assert_eq!(e.kind, ErrorKind::IllegalDataType);
    assert_eq!(e.message, "Can not compare Boolean with String");
}

#[test]
fn merge_types_rules() {
    assert_eq!(name(merge_types(&DataTypeImpl::UInt8, &DataTypeImpl::UInt8)), "UInt8");
    assert_eq!(name(merge_types(&DataTypeImpl::UInt8, &DataTypeImpl::Int8)), "Int16");
    assert_eq!(
        name(merge_types(&nullable(DataTypeImpl::UInt8), &DataTypeImpl::UInt16)),
        "Nullable(UInt16)"
    );
    assert_eq!(name(merge_types(&DataTypeImpl::Null, &DataTypeImpl::String)), "Nullable(String)");
    let a = DataTypeImpl::Array(Box::new(DataTypeImpl::Int8));
    let b = DataTypeImpl::Array(Box::new(DataTypeImpl::UInt8));
    assert_eq!(name(merge_types(&a, &b)), "Array(Int16)");
    let s1 = DataTypeImpl::Struct(vec!["x".to_string()], vec![DataTypeImpl::UInt8]);
    let s2 = DataTypeImpl::Struct(vec!["x".to_string()], vec![DataTypeImpl::Int8]);
    match merge_types(&s1, &s2).unwrap() {
        DataTypeImpl::Struct(names, types) => {
            assert_eq!(names, vec!["x".to_string()]);
            assert_eq!(types[0].name(), "Int16");
        }
        _ => panic!("not a struct"),
    }
    let s3 = DataTypeImpl::Struct(vec!["y".to_string()], vec![DataTypeImpl::Int8]);
    let e = merge_types(&s1, &s3).unwrap_err();
    assert_eq!(e.kind, ErrorKind::BadArguments);
    assert_eq!(e.message, "Can't merge structs with different names or sizes");
    let e = merge_types(&DataTypeImpl::String, &DataTypeImpl::Int8).unwrap_err();
    assert_eq!(e.kind, ErrorKind::BadDataValueType);
    assert_eq!(e.message, "Can't merge types from String and Int8");
    let e = merge_types(&DataTypeImpl::UInt64, &DataTypeImpl::Int64).unwrap_err();
    assert_eq!(e.kind, ErrorKind::BadDataValueType);
}

#[test]
fn aggregate_types_merges_from_the_right() {
    let args = vec![DataTypeImpl::UInt8, DataTypeImpl::UInt16, DataTypeImpl::Int8];
    assert_eq!(name(aggregate_types(&args)), "Int32");
    assert_eq!(name(aggregate_types(&[DataTypeImpl::Date])), "Date");
    let e = aggregate_types(&[]).unwrap_err();
    assert_eq!(e.kind, ErrorKind::BadArguments);
    assert_eq!(e.message, "Can't aggregate empty args");
}

#[test]
fn type_names_and_ids() {
    assert_eq!(DataTypeImpl::Interval(IntervalKind::Doy).name(), "Interval(Doy)");
    assert_eq!(nullable(DataTypeImpl::Array(Box::new(DataTypeImpl::Int64))).name(), "Nullable(Array(Int64))");
    assert_eq!(DataTypeImpl::Timestamp(6).data_type_id(), TypeID::Timestamp);
    assert!(TypeID::Int8.is_signed_numeric());
    assert!(!TypeID::UInt8.is_signed_numeric());
    assert!(TypeID::VariantObject.is_variant());
    assert_eq!(TypeID::Float32.numeric_byte_size().unwrap(), 4);
    assert_eq!(wrap_nullable(&DataTypeImpl::Null).name(), "Null");
    assert_eq!(wrap_nullable(&DataTypeImpl::Int8).name(), "Nullable(Int8)");
    assert_eq!(remove_nullable(&nullable(DataTypeImpl::Int8)).name(), "Int8");
    assert!(DataTypeImpl::Int8.type_eq(&DataTypeImpl::Int8));
    assert!(!DataTypeImpl::Timestamp(3).type_eq(&DataTypeImpl::Timestamp(6)));
}

#[test]
fn mysql_column_types() {
    assert_eq!(convert_field_type(&DataTypeImpl::UInt8).unwrap(), MysqlColumnType::Long);
    assert_eq!(convert_field_type(&nullable(DataTypeImpl::Float64)).unwrap(), MysqlColumnType::Float);
    assert_eq!(convert_field_type(&DataTypeImpl::Timestamp(6)).unwrap(), MysqlColumnType::Datetime);
    assert_eq!(convert_field_type(&DataTypeImpl::Boolean).unwrap(), MysqlColumnType::Short);
    assert_eq!(convert_field_type(&DataTypeImpl::VariantObject).unwrap(), MysqlColumnType::Varchar);
    let twice = nullable(nullable(DataTypeImpl::Int8));
    let e = convert_field_type(&twice).unwrap_err();
    assert_eq!(e.kind, ErrorKind::UnImplement);
    assert_eq!(e.message, "Unsupported column type:Nullable(Nullable(Int8))");
    let fields = vec![("a".to_string(), DataTypeImpl::Int32), ("b".to_string(), DataTypeImpl::String)];
    let cols = convert_schema(&fields).unwrap();
    assert_eq!(cols[1].column, "b");
    assert_eq!(cols[1].coltype, MysqlColumnType::Varchar);
    assert_eq!(cols[0].table, "");
    let bad = vec![("a".to_string(), DataTypeImpl::Int32), ("b".to_string(), twice)];
    assert!(convert_schema(&bad).is_err());
    assert!(completes_without_rows(false, true, 3));
    assert!(completes_without_rows(true, false, 0));
    assert!(!completes_without_rows(true, true, 1));
    assert_eq!(mysql_error_kind(ErrorKind::AbortedQuery), MysqlErrorKind::AbortingConnection);
    assert_eq!(mysql_error_kind(ErrorKind::UnknownTable), MysqlErrorKind::UnknownError);
}
