use databend_common::bind_context::match_column_binding;
use databend_common::bind_context::BindContext;
use databend_common::bind_context::ColumnBinding;
use databend_common::bind_context::NameResolutionResult;
use databend_common::data_type::DataTypeImpl;
use databend_common::error_code::ErrorKind;

fn binding(db: Option<&str>, table: Option<&str>, column: &str, index: usize) -> ColumnBinding {
    ColumnBinding {
        database_name: db.map(|s| s.to_string()),
        table_name: table.map(|s| s.to_string()),
        column_name: column.to_string(),
        index,
        data_type: Box::new(DataTypeImpl::Int32),
        visible_in_unqualified_wildcard: true,
    }
}

fn no_aliases() -> Vec<(String, u32)> {
    vec![]
}

#[test]
fn match_column_binding_lowercases_the_reference() {
    let b = binding(Some("db"), Some("t"), "a", 0);
    assert!(match_column_binding(None, None, "A", &b));
    assert!(match_column_binding(None, Some("T"), "a", &b));
    assert!(match_column_binding(Some("DB"), Some("t"), "a", &b));
    assert!(!match_column_binding(Some("db"), None, "a", &b));
    assert!(!match_column_binding(None, Some("u"), "a", &b));
    assert!(!match_column_binding(None, None, "b", &b));
    let unqualified = binding(None, None, "a", 1);
    assert!(!match_column_binding(None, Some("t"), "a", &unqualified));
}

#[test]
fn resolve_name_in_scopes() {
    let mut outer = BindContext::new();
    outer.add_column_binding(binding(None, Some("t"), "a", 0));
    outer.add_column_binding(binding(None, Some("t"), "b", 1));
    let mut inner = outer.push();
    inner.add_column_binding(binding(None, Some("u"), "b", 2));
    inner.add_column_binding(binding(None, Some("v"), "c", 3));
    inner.add_column_binding(binding(None, Some("w"), "c", 4));

    // an outer reference
    match inner.resolve_name(None, None, "a", &no_aliases()) {
        Ok(NameResolutionResult::Column(c)) => assert_eq!(c.index, 0),
        other => panic!("unexpected {:?}", other),
    }
    // the inner scope hides the outer one
    match inner.resolve_name(None, None, "B", &no_aliases()) {
        Ok(NameResolutionResult::Column(c)) => assert_eq!(c.index, 2),
        other => panic!("unexpected {:?}", other),
    }
    // qualified by the outer table
    match inner.resolve_name(None, Some("t"), "b", &no_aliases()) {
        Ok(NameResolutionResult::Column(c)) => assert_eq!(c.index, 1),
        other => panic!("unexpected {:?}", other),
    }
    match inner.resolve_name(None, None, "c", &no_aliases()) {
        Err(e) => {
            assert_eq!(e.kind, ErrorKind::SemanticError);
            assert_eq!(e.message, "column reference is ambiguous");
        }
        other => panic!("unexpected {:?}", other),
    }
    match inner.resolve_name(None, None, "z", &no_aliases()) {
        Err(e) => assert_eq!(e.message, "column doesn't exist"),
        other => panic!("unexpected {:?}", other),
    }
}

#[test]
fn aliases_come_first() {
    let mut ctx = BindContext::new();
    ctx.add_column_binding(binding(None, Some("t"), "a", 0));
    let aliases = vec![("a".to_string(), 7u32), ("x".to_string(), 8u32)];
    match ctx.resolve_name(None, None, "A", &aliases) {
        Ok(NameResolutionResult::Alias { alias, scalar }) => {
            assert_eq!(alias, "a");
            assert_eq!(scalar, 7);
        }
        other => panic!("unexpected {:?}", other),
    }
    // a qualified name skips the aliases
    match ctx.resolve_name(None, Some("t"), "a", &aliases) {
        Ok(NameResolutionResult::Column(c)) => assert_eq!(c.index, 0),
        other => panic!("unexpected {:?}", other),
    }
    let twice = vec![("a".to_string(), 1u32), ("a".to_string(), 2u32)];
    match ctx.resolve_name(None, None, "a", &twice) {
        Err(e) => assert_eq!(e.message, "column reference is ambiguous"),
        other => panic!("unexpected {:?}", other),
    }
}

#[test]
fn table_alias_renames_columns() {
    let mut ctx = BindContext::new();
    ctx.add_column_binding(binding(Some("db"), Some("t"), "a", 0));
    ctx.add_column_binding(binding(Some("db"), Some("t"), "b", 1));
    assert!(ctx.apply_table_alias("T1", &vec!["x".to_string()]).is_ok());
    let cols = ctx.all_column_bindings();
    assert_eq!(cols[0].table_name.as_deref(), Some("t1"));
    assert_eq!(cols[0].database_name, None);
    assert_eq!(cols[0].column_name, "x");
    assert_eq!(cols[1].column_name, "b");
    assert_eq!(ctx.result_columns(), vec![(0, "x".to_string()), (1, "b".to_string())]);

    let e = ctx
        .apply_table_alias("t2", &vec!["p".to_string(), "q".to_string(), "r".to_string()])
        .unwrap_err();
    assert_eq!(e.kind, ErrorKind::SemanticError);
    assert_eq!(e.message, "table has 2 columns available but 3 columns specified");
    // the columns were moved to the alias before the error
    assert_eq!(ctx.all_column_bindings()[1].table_name.as_deref(), Some("t2"));
    assert_eq!(ctx.all_column_bindings()[0].column_name, "x");
}

#[test]
fn scopes_and_format() {
    let mut outer = BindContext::new();
    outer.add_column_binding(binding(None, None, "a", 0));
    let inner = BindContext::with_parent(Box::new(outer.clone()));
    let sibling = inner.replace();
    assert!(sibling.columns.is_empty());
    assert_eq!(sibling.parent.as_ref().unwrap().columns.len(), 1);
    let mut ctx = BindContext::new();
    assert!(ctx.resolve_format("CSV".to_string()).is_ok());
    assert_eq!(ctx.format.as_deref(), Some("CSV"));
    assert!(!ctx.in_grouping);
}
