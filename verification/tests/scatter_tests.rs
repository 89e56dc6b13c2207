use databend_common::error_code::ErrorKind;
use databend_common::flight_scatter::scatter_indices;
use databend_common::flight_scatter::HashColumn;

#[test]
fn hash_values_of_columns() {
    let plain = HashColumn::UInt64(vec![7, 8, 9]);
    assert_eq!(plain.get_hash_values().unwrap(), vec![7, 8, 9]);

    let nullable = HashColumn::Nullable {
        inner: Box::new(HashColumn::UInt64(vec![7, 8, 9])),
        validity: vec![true, false, true],
    };
    assert_eq!(nullable.get_hash_values().unwrap(), vec![7, 0, 9]);

    let constant = HashColumn::Const { inner: Box::new(HashColumn::UInt64(vec![42])), len: 4 };
    assert_eq!(constant.get_hash_values().unwrap(), vec![42, 42, 42, 42]);

    let null_constant = HashColumn::Const {
        inner: Box::new(HashColumn::Nullable {
            inner: Box::new(HashColumn::UInt64(vec![5])),
            validity: vec![false],
        }),
        len: 2,
    };
    assert_eq!(null_constant.get_hash_values().unwrap(), vec![0, 0]);

    let other = HashColumn::Const { inner: Box::new(HashColumn::Other { rows: 1 }), len: 3 };
    let e = other.get_hash_values().unwrap_err();
    assert_eq!(e.kind, ErrorKind::LogicalError);
    assert_eq!(e.message, "Hash keys must be of type u64.");
}

#[test]
fn rows_go_to_hash_modulo_nodes() {
    assert_eq!(scatter_indices(&vec![0, 1, 5, 6, 11], 3), vec![0, 1, 2, 0, 2]);
    assert_eq!(scatter_indices(&vec![u64::MAX], 1), vec![0]);
    assert_eq!(scatter_indices(&vec![], 4), Vec::<usize>::new());
}
