use pg_position::get_flat_nodes;
use pg_position::get_position_for_pg_query_node;
use pg_position::AstNode;
use pg_position::NodeKind;
use pg_position::TreeError;
use pg_position::NO_POSITION;

fn leaf(kind: NodeKind, location: i32) -> AstNode {
    AstNode { kind, location, child: None, elements: Vec::new(), options: Vec::new() }
}

fn table_creation(elements: Vec<Option<AstNode>>, options: Vec<Option<AstNode>>) -> AstNode {
    AstNode { kind: NodeKind::CreateStmt, location: 0, child: None, elements, options }
}

#[test]
fn test_get_flat_nodes() {
    let input = "CREATE TABLE products (
    product_no integer,
    name text,
    price numeric CHECK (price > 0),
    discounted_price numeric CHECK (discounted_price > 0),
    CHECK (price > discounted_price)
);";

    let column_names = ["product_no", "name", "price", "discounted_price"];
    let mut elements: Vec<Option<AstNode>> = Vec::new();
    for name in column_names {
        let at = input.find(name).unwrap() as i32;
        elements.push(Some(leaf(NodeKind::ColumnDef, at)));
    }
    let table_check = input.find("CHECK (price > discounted_price)").unwrap() as i32;
    elements.push(Some(leaf(NodeKind::Constraint, table_check)));

    let stmt = table_creation(elements, Vec::new());
    let flat = get_flat_nodes(&stmt).unwrap();

    assert_eq!(flat.len(), 6);
    assert!(std::ptr::eq(flat[0], &stmt));
    assert_eq!(flat[0].kind, NodeKind::CreateStmt);
    assert_eq!(get_position_for_pg_query_node(flat[0]), Ok(NO_POSITION));
    for (i, name) in column_names.iter().enumerate() {
        assert_eq!(flat[1 + i].kind, NodeKind::ColumnDef);
        assert_eq!(
            get_position_for_pg_query_node(flat[1 + i]),
            Ok(input.find(name).unwrap() as i32)
        );
    }
    assert_eq!(flat[5].kind, NodeKind::Constraint);
    assert_eq!(get_position_for_pg_query_node(flat[5]), Ok(table_check));
}

#[test]
fn test_flatten_non_compound_is_identity() {
    let n = leaf(NodeKind::ColumnRef, 42);
    let flat = get_flat_nodes(&n).unwrap();
    assert_eq!(flat.len(), 1);
    assert!(std::ptr::eq(flat[0], &n));
}

#[test]
fn test_flatten_compound_statement_positions() {
    let elements = vec![
        Some(leaf(NodeKind::ColumnDef, 18)),
        Some(leaf(NodeKind::ColumnDef, 34)),
    ];
    let stmt = table_creation(elements, Vec::new());
    let flat = get_flat_nodes(&stmt).unwrap();

    assert_eq!(flat.len(), 3);
    assert!(std::ptr::eq(flat[0], &stmt));
    assert_eq!(get_position_for_pg_query_node(flat[0]), Ok(NO_POSITION));
    assert_eq!(get_position_for_pg_query_node(flat[1]), Ok(18));
    assert_eq!(get_position_for_pg_query_node(flat[2]), Ok(34));
}

#[test]
fn test_flatten_keeps_option_list_after_elements() {
    let elements = vec![Some(leaf(NodeKind::ColumnDef, 10))];
    let options = vec![Some(leaf(NodeKind::DefElem, 25)), Some(leaf(NodeKind::DefElem, 40))];
    let stmt = table_creation(elements, options);
    let flat = get_flat_nodes(&stmt).unwrap();

    assert_eq!(flat.len(), 4);
    assert_eq!(flat[1].kind, NodeKind::ColumnDef);
    assert_eq!(flat[1].location, 10);
    assert_eq!(flat[2].kind, NodeKind::DefElem);
    assert_eq!(flat[2].location, 25);
    assert_eq!(flat[3].kind, NodeKind::DefElem);
    assert_eq!(flat[3].location, 40);
}

#[test]
fn test_flatten_compound_with_no_children() {
    let stmt = table_creation(Vec::new(), Vec::new());
    let flat = get_flat_nodes(&stmt).unwrap();
    assert_eq!(flat.len(), 1);
    assert!(std::ptr::eq(flat[0], &stmt));
}

#[test]
fn test_flatten_empty_wrapper_is_malformed() {
    let elements = vec![Some(leaf(NodeKind::ColumnDef, 18)), None];
    let stmt = table_creation(elements, Vec::new());
    assert_eq!(get_flat_nodes(&stmt).unwrap_err(), TreeError::MalformedTree);

    let options: Vec<Option<AstNode>> = vec![None];
    let stmt = table_creation(Vec::new(), options);
    assert_eq!(get_flat_nodes(&stmt).unwrap_err(), TreeError::MalformedTree);
}

#[test]
fn test_flatten_then_resolve_is_stable() {
    let elements = vec![
        Some(leaf(NodeKind::ColumnDef, 18)),
        Some(leaf(NodeKind::ColumnDef, 34)),
    ];
    let stmt = table_creation(elements, Vec::new());

    let first: Vec<Result<i32, TreeError>> =
        get_flat_nodes(&stmt).unwrap().iter().map(|n| get_position_for_pg_query_node(n)).collect();
    let second: Vec<Result<i32, TreeError>> =
        get_flat_nodes(&stmt).unwrap().iter().map(|n| get_position_for_pg_query_node(n)).collect();
    assert_eq!(first, second);
    assert_eq!(first, vec![Ok(NO_POSITION), Ok(18), Ok(34)]);
}
