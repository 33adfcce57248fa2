use pg_position::classify;
use pg_position::get_position_for_pg_query_node;
use pg_position::AstNode;
use pg_position::NodeKind;
use pg_position::Strategy;
use pg_position::TreeError;
use pg_position::NO_POSITION;

fn leaf(kind: NodeKind, location: i32) -> AstNode {
    AstNode { kind, location, child: None, elements: Vec::new(), options: Vec::new() }
}

fn delegating(kind: NodeKind, location: i32, child: AstNode) -> AstNode {
    AstNode { kind, location, child: Some(Box::new(child)), elements: Vec::new(), options: Vec::new() }
}

#[test]
fn test_direct_column_ref() {
    let n = leaf(NodeKind::ColumnRef, 42);
    assert_eq!(get_position_for_pg_query_node(&n), Ok(42));
}

#[test]
fn test_direct_negative_location_passes_through() {
    let n = leaf(NodeKind::ColumnRef, -1);
    assert_eq!(get_position_for_pg_query_node(&n), Ok(-1));
}

#[test]
fn test_delegate_binary_expr_uses_left_operand() {
    let n = delegating(NodeKind::AExpr, 50, leaf(NodeKind::ColumnRef, 42));
    assert_eq!(get_position_for_pg_query_node(&n), Ok(42));
}

#[test]
fn test_delegate_chain_reaches_leaf() {
    let inner = delegating(NodeKind::AExpr, 90, leaf(NodeKind::ColumnRef, 7));
    let outer = delegating(NodeKind::AExpr, 95, inner);
    assert_eq!(get_position_for_pg_query_node(&outer), Ok(7));

    let plan = delegating(NodeKind::SubPlan, 0, leaf(NodeKind::Var, 13));
    assert_eq!(get_position_for_pg_query_node(&plan), Ok(13));
}

#[test]
fn test_delegate_missing_child_is_malformed() {
    let n = leaf(NodeKind::AExpr, 50);
    assert_eq!(get_position_for_pg_query_node(&n), Err(TreeError::MalformedTree));
}

#[test]
fn test_sentinel_statements() {
    assert_eq!(get_position_for_pg_query_node(&leaf(NodeKind::AlterTableStmt, 0)), Ok(NO_POSITION));
    assert_eq!(get_position_for_pg_query_node(&leaf(NodeKind::GrantStmt, 0)), Ok(NO_POSITION));
    assert_eq!(get_position_for_pg_query_node(&leaf(NodeKind::SelectStmt, 0)), Ok(NO_POSITION));
    assert_eq!(get_position_for_pg_query_node(&leaf(NodeKind::CreateStmt, 0)), Ok(NO_POSITION));
}

#[test]
fn test_unclassified_kind_is_reported() {
    let n = leaf(NodeKind::Unrecognized, 5);
    assert_eq!(
        get_position_for_pg_query_node(&n),
        Err(TreeError::UnclassifiedKind { kind: NodeKind::Unrecognized })
    );
}

#[test]
fn test_classification_table() {
    assert_eq!(classify(NodeKind::ColumnRef), Strategy::Direct);
    assert_eq!(classify(NodeKind::RangeVar), Strategy::Direct);
    assert_eq!(classify(NodeKind::ColumnDef), Strategy::Direct);
    assert_eq!(classify(NodeKind::Constraint), Strategy::Direct);
    assert_eq!(classify(NodeKind::ResTarget), Strategy::Direct);
    assert_eq!(classify(NodeKind::AExpr), Strategy::Delegate);
    assert_eq!(classify(NodeKind::SubPlan), Strategy::Delegate);
    assert_eq!(classify(NodeKind::CreateStmt), Strategy::Compound);
    assert_eq!(classify(NodeKind::AlterTableStmt), Strategy::Sentinel);
    assert_eq!(classify(NodeKind::GrantStmt), Strategy::Sentinel);
    assert_eq!(classify(NodeKind::RawStmt), Strategy::Sentinel);
    assert_eq!(classify(NodeKind::List), Strategy::Sentinel);
    assert_eq!(classify(NodeKind::Unrecognized), Strategy::Unclassified);
}

#[test]
fn test_resolution_is_stable_across_calls() {
    let n = delegating(NodeKind::AExpr, 50, leaf(NodeKind::ColumnRef, 42));
    let first = get_position_for_pg_query_node(&n);
    let second = get_position_for_pg_query_node(&n);
    assert_eq!(first, second);
}
