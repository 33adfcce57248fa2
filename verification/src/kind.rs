use vstd::prelude::*;

verus! {

/// One tag for every node variant the external grammar can produce, plus
/// [`NodeKind::Unrecognized`] for a variant this taxonomy has no row for
/// (a grammar that has evolved past this resolver).
///
/// The taxonomy mirrors the grammar's own variant list; the classification
/// of each kind is a static property of the tag alone, never of runtime
/// content (see [`classification`]).
#[derive(Debug, Clone, Copy, PartialEq, Eq, Structural)]
pub enum NodeKind {
    Alias,
    RangeVar,
    TableFunc,
    Var,
    Param,
    Aggref,
    GroupingFunc,
    WindowFunc,
    SubscriptingRef,
    FuncExpr,
    NamedArgExpr,
    OpExpr,
    DistinctExpr,
    NullIfExpr,
    ScalarArrayOpExpr,
    BoolExpr,
    SubLink,
    SubPlan,
    AlternativeSubPlan,
    FieldSelect,
    FieldStore,
    RelabelType,
    CoerceViaIo,
    ArrayCoerceExpr,
    ConvertRowtypeExpr,
    CollateExpr,
    CaseExpr,
    CaseWhen,
    CaseTestExpr,
    ArrayExpr,
    RowExpr,
    RowCompareExpr,
    CoalesceExpr,
    MinMaxExpr,
    SqlvalueFunction,
    XmlExpr,
    NullTest,
    BooleanTest,
    CoerceToDomain,
    CoerceToDomainValue,
    SetToDefault,
    CurrentOfExpr,
    NextValueExpr,
    InferenceElem,
    TargetEntry,
    RangeTblRef,
    JoinExpr,
    FromExpr,
    OnConflictExpr,
    IntoClause,
    RawStmt,
    Query,
    InsertStmt,
    DeleteStmt,
    UpdateStmt,
    SelectStmt,
    AlterTableStmt,
    AlterTableCmd,
    AlterDomainStmt,
    SetOperationStmt,
    GrantStmt,
    GrantRoleStmt,
    AlterDefaultPrivilegesStmt,
    ClosePortalStmt,
    ClusterStmt,
    CopyStmt,
    CreateStmt,
    DefineStmt,
    DropStmt,
    TruncateStmt,
    CommentStmt,
    FetchStmt,
    IndexStmt,
    CreateFunctionStmt,
    AlterFunctionStmt,
    DoStmt,
    RenameStmt,
    RuleStmt,
    NotifyStmt,
    ListenStmt,
    UnlistenStmt,
    TransactionStmt,
    ViewStmt,
    LoadStmt,
    CreateDomainStmt,
    CreatedbStmt,
    DropdbStmt,
    VacuumStmt,
    ExplainStmt,
    CreateTableAsStmt,
    CreateSeqStmt,
    AlterSeqStmt,
    VariableSetStmt,
    VariableShowStmt,
    DiscardStmt,
    CreateTrigStmt,
    CreatePlangStmt,
    CreateRoleStmt,
    AlterRoleStmt,
    DropRoleStmt,
    LockStmt,
    ConstraintsSetStmt,
    ReindexStmt,
    CheckPointStmt,
    CreateSchemaStmt,
    AlterDatabaseStmt,
    AlterDatabaseSetStmt,
    AlterRoleSetStmt,
    CreateConversionStmt,
    CreateCastStmt,
    CreateOpClassStmt,
    CreateOpFamilyStmt,
    AlterOpFamilyStmt,
    PrepareStmt,
    ExecuteStmt,
    DeallocateStmt,
    DeclareCursorStmt,
    CreateTableSpaceStmt,
    DropTableSpaceStmt,
    AlterObjectDependsStmt,
    AlterObjectSchemaStmt,
    AlterOwnerStmt,
    AlterOperatorStmt,
    AlterTypeStmt,
    DropOwnedStmt,
    ReassignOwnedStmt,
    CompositeTypeStmt,
    CreateEnumStmt,
    CreateRangeStmt,
    AlterEnumStmt,
    AlterTsdictionaryStmt,
    AlterTsconfigurationStmt,
    CreateFdwStmt,
    AlterFdwStmt,
    CreateForeignServerStmt,
    AlterForeignServerStmt,
    CreateUserMappingStmt,
    AlterUserMappingStmt,
    DropUserMappingStmt,
    AlterTableSpaceOptionsStmt,
    AlterTableMoveAllStmt,
    SecLabelStmt,
    CreateForeignTableStmt,
    ImportForeignSchemaStmt,
    CreateExtensionStmt,
    AlterExtensionStmt,
    AlterExtensionContentsStmt,
    CreateEventTrigStmt,
    AlterEventTrigStmt,
    RefreshMatViewStmt,
    ReplicaIdentityStmt,
    AlterSystemStmt,
    CreatePolicyStmt,
    AlterPolicyStmt,
    CreateTransformStmt,
    CreateAmStmt,
    CreatePublicationStmt,
    AlterPublicationStmt,
    CreateSubscriptionStmt,
    AlterSubscriptionStmt,
    DropSubscriptionStmt,
    CreateStatsStmt,
    AlterCollationStmt,
    CallStmt,
    AlterStatsStmt,
    AExpr,
    ColumnRef,
    ParamRef,
    AConst,
    FuncCall,
    AStar,
    AIndices,
    AIndirection,
    AArrayExpr,
    ResTarget,
    MultiAssignRef,
    TypeCast,
    CollateClause,
    SortBy,
    WindowDef,
    RangeSubselect,
    RangeFunction,
    RangeTableSample,
    RangeTableFunc,
    RangeTableFuncCol,
    TypeName,
    ColumnDef,
    IndexElem,
    Constraint,
    DefElem,
    RangeTblEntry,
    RangeTblFunction,
    TableSampleClause,
    WithCheckOption,
    SortGroupClause,
    GroupingSet,
    WindowClause,
    ObjectWithArgs,
    AccessPriv,
    CreateOpClassItem,
    TableLikeClause,
    FunctionParameter,
    LockingClause,
    RowMarkClause,
    XmlSerialize,
    WithClause,
    InferClause,
    OnConflictClause,
    CommonTableExpr,
    RoleSpec,
    TriggerTransition,
    PartitionElem,
    PartitionSpec,
    PartitionBoundSpec,
    PartitionRangeDatum,
    PartitionCmd,
    VacuumRelation,
    InlineCodeBlock,
    CallContext,
    Integer,
    Float,
    Boolean,
    String,
    BitString,
    List,
    IntList,
    OidList,
    MergeStmt,
    MergeAction,
    AlterDatabaseRefreshCollStmt,
    ReturnStmt,
    PlassignStmt,
    StatsElem,
    CtesearchClause,
    CtecycleClause,
    MergeWhenClause,
    PublicationObjSpec,
    PublicationTable,
    JsonFormat,
    JsonReturning,
    JsonValueExpr,
    JsonConstructorExpr,
    JsonIsPredicate,
    JsonOutput,
    JsonKeyValue,
    JsonObjectConstructor,
    JsonArrayConstructor,
    JsonArrayQueryConstructor,
    JsonAggConstructor,
    JsonObjectAgg,
    JsonArrayAgg,
    RtepermissionInfo,
    WindowFuncRunCondition,
    MergeSupportFunc,
    JsonBehavior,
    JsonExpr,
    JsonTablePath,
    JsonTablePathScan,
    JsonTableSiblingJoin,
    SinglePartitionSpec,
    JsonArgument,
    JsonFuncExpr,
    JsonTablePathSpec,
    JsonTable,
    JsonTableColumn,
    JsonParseExpr,
    JsonScalarExpr,
    JsonSerializeExpr,
    Unrecognized,
}

/// The resolution strategy a node kind is classified into.
///
/// - `Direct`: the kind declares its own offset field; resolution returns it
///   verbatim (a negative "unknown" value included).
/// - `Delegate`: the kind's own offset is absent or unreliable; resolution
///   recurses into one designated child.
/// - `Sentinel`: the kind is not independently positioned (the grammar
///   declares no offset for it, or it is a pure statement wrapper);
///   resolution returns the no-position sentinel.
/// - `Compound`: the kind aggregates an ordered list of independently
///   positioned elements; flattening expands it, and its own resolved
///   value is the sentinel.
/// - `Unclassified`: no row exists for the kind; resolution reports it as
///   a hard error rather than guessing a default.
#[derive(Debug, Clone, Copy, PartialEq, Eq, Structural)]
pub enum Strategy {
    Direct,
    Delegate,
    Sentinel,
    Compound,
    Unclassified,
}

/// The classification table: a total mapping from node kind to resolution
/// strategy.
///
/// The rows follow the grammar's own position semantics:
/// - `AExpr` delegates to its left operand and `SubPlan` to its wrapped
///   expression, since their own offset fields do not point at the start
///   of the construct;
/// - `CreateStmt` (table creation) is the compound kind: its declared
///   element and option lists are reported per child;
/// - every other kind whose grammar message declares an offset field is
///   `Direct`;
/// - every kind without a declared offset field is `Sentinel`;
/// - only `Unrecognized` is left `Unclassified`.
pub open spec fn classification(k: NodeKind) -> Strategy {
    match k {
        NodeKind::Alias => Strategy::Sentinel,
        NodeKind::RangeVar => Strategy::Direct,
        NodeKind::TableFunc => Strategy::Direct,
        NodeKind::Var => Strategy::Direct,
        NodeKind::Param => Strategy::Direct,
        NodeKind::Aggref => Strategy::Direct,
        NodeKind::GroupingFunc => Strategy::Direct,
        NodeKind::WindowFunc => Strategy::Direct,
        NodeKind::SubscriptingRef => Strategy::Sentinel,
        NodeKind::FuncExpr => Strategy::Direct,
        NodeKind::NamedArgExpr => Strategy::Direct,
        NodeKind::OpExpr => Strategy::Direct,
        NodeKind::DistinctExpr => Strategy::Direct,
        NodeKind::NullIfExpr => Strategy::Direct,
        NodeKind::ScalarArrayOpExpr => Strategy::Direct,
        NodeKind::BoolExpr => Strategy::Direct,
        NodeKind::SubLink => Strategy::Direct,
        NodeKind::SubPlan => Strategy::Delegate,
        NodeKind::AlternativeSubPlan => Strategy::Sentinel,
        NodeKind::FieldSelect => Strategy::Sentinel,
        NodeKind::FieldStore => Strategy::Sentinel,
        NodeKind::RelabelType => Strategy::Direct,
        NodeKind::CoerceViaIo => Strategy::Direct,
        NodeKind::ArrayCoerceExpr => Strategy::Direct,
        NodeKind::ConvertRowtypeExpr => Strategy::Direct,
        NodeKind::CollateExpr => Strategy::Direct,
        NodeKind::CaseExpr => Strategy::Direct,
        NodeKind::CaseWhen => Strategy::Direct,
        NodeKind::CaseTestExpr => Strategy::Sentinel,
        NodeKind::ArrayExpr => Strategy::Direct,
        NodeKind::RowExpr => Strategy::Direct,
        NodeKind::RowCompareExpr => Strategy::Sentinel,
        NodeKind::CoalesceExpr => Strategy::Direct,
        NodeKind::MinMaxExpr => Strategy::Direct,
        NodeKind::SqlvalueFunction => Strategy::Direct,
        NodeKind::XmlExpr => Strategy::Direct,
        NodeKind::NullTest => Strategy::Direct,
        NodeKind::BooleanTest => Strategy::Direct,
        NodeKind::CoerceToDomain => Strategy::Direct,
        NodeKind::CoerceToDomainValue => Strategy::Direct,
        NodeKind::SetToDefault => Strategy::Direct,
        NodeKind::CurrentOfExpr => Strategy::Sentinel,
        NodeKind::NextValueExpr => Strategy::Sentinel,
        NodeKind::InferenceElem => Strategy::Sentinel,
        NodeKind::TargetEntry => Strategy::Sentinel,
        NodeKind::RangeTblRef => Strategy::Sentinel,
        NodeKind::JoinExpr => Strategy::Sentinel,
        NodeKind::FromExpr => Strategy::Sentinel,
        NodeKind::OnConflictExpr => Strategy::Sentinel,
        NodeKind::IntoClause => Strategy::Sentinel,
        NodeKind::RawStmt => Strategy::Sentinel,
        NodeKind::Query => Strategy::Sentinel,
        NodeKind::InsertStmt => Strategy::Sentinel,
        NodeKind::DeleteStmt => Strategy::Sentinel,
        NodeKind::UpdateStmt => Strategy::Sentinel,
        NodeKind::SelectStmt => Strategy::Sentinel,
        NodeKind::AlterTableStmt => Strategy::Sentinel,
        NodeKind::AlterTableCmd => Strategy::Sentinel,
        NodeKind::AlterDomainStmt => Strategy::Sentinel,
        NodeKind::SetOperationStmt => Strategy::Sentinel,
        NodeKind::GrantStmt => Strategy::Sentinel,
        NodeKind::GrantRoleStmt => Strategy::Sentinel,
        NodeKind::AlterDefaultPrivilegesStmt => Strategy::Sentinel,
        NodeKind::ClosePortalStmt => Strategy::Sentinel,
        NodeKind::ClusterStmt => Strategy::Sentinel,
        NodeKind::CopyStmt => Strategy::Sentinel,
        NodeKind::CreateStmt => Strategy::Compound,
        NodeKind::DefineStmt => Strategy::Sentinel,
        NodeKind::DropStmt => Strategy::Sentinel,
        NodeKind::TruncateStmt => Strategy::Sentinel,
        NodeKind::CommentStmt => Strategy::Sentinel,
        NodeKind::FetchStmt => Strategy::Sentinel,
        NodeKind::IndexStmt => Strategy::Sentinel,
        NodeKind::CreateFunctionStmt => Strategy::Sentinel,
        NodeKind::AlterFunctionStmt => Strategy::Sentinel,
        NodeKind::DoStmt => Strategy::Sentinel,
        NodeKind::RenameStmt => Strategy::Sentinel,
        NodeKind::RuleStmt => Strategy::Sentinel,
        NodeKind::NotifyStmt => Strategy::Sentinel,
        NodeKind::ListenStmt => Strategy::Sentinel,
        NodeKind::UnlistenStmt => Strategy::Sentinel,
        NodeKind::TransactionStmt => Strategy::Direct,
        NodeKind::ViewStmt => Strategy::Sentinel,
        NodeKind::LoadStmt => Strategy::Sentinel,
        NodeKind::CreateDomainStmt => Strategy::Sentinel,
        NodeKind::CreatedbStmt => Strategy::Sentinel,
        NodeKind::DropdbStmt => Strategy::Sentinel,
        NodeKind::VacuumStmt => Strategy::Sentinel,
        NodeKind::ExplainStmt => Strategy::Sentinel,
        NodeKind::CreateTableAsStmt => Strategy::Sentinel,
        NodeKind::CreateSeqStmt => Strategy::Sentinel,
        NodeKind::AlterSeqStmt => Strategy::Sentinel,
        NodeKind::VariableSetStmt => Strategy::Sentinel,
        NodeKind::VariableShowStmt => Strategy::Sentinel,
        NodeKind::DiscardStmt => Strategy::Sentinel,
        NodeKind::CreateTrigStmt => Strategy::Sentinel,
        NodeKind::CreatePlangStmt => Strategy::Sentinel,
        NodeKind::CreateRoleStmt => Strategy::Sentinel,
        NodeKind::AlterRoleStmt => Strategy::Sentinel,
        NodeKind::DropRoleStmt => Strategy::Sentinel,
        NodeKind::LockStmt => Strategy::Sentinel,
        NodeKind::ConstraintsSetStmt => Strategy::Sentinel,
        NodeKind::ReindexStmt => Strategy::Sentinel,
        NodeKind::CheckPointStmt => Strategy::Sentinel,
        NodeKind::CreateSchemaStmt => Strategy::Sentinel,
        NodeKind::AlterDatabaseStmt => Strategy::Sentinel,
        NodeKind::AlterDatabaseSetStmt => Strategy::Sentinel,
        NodeKind::AlterRoleSetStmt => Strategy::Sentinel,
        NodeKind::CreateConversionStmt => Strategy::Sentinel,
        NodeKind::CreateCastStmt => Strategy::Sentinel,
        NodeKind::CreateOpClassStmt => Strategy::Sentinel,
        NodeKind::CreateOpFamilyStmt => Strategy::Sentinel,
        NodeKind::AlterOpFamilyStmt => Strategy::Sentinel,
        NodeKind::PrepareStmt => Strategy::Sentinel,
        NodeKind::ExecuteStmt => Strategy::Sentinel,
        NodeKind::DeallocateStmt => Strategy::Direct,
        NodeKind::DeclareCursorStmt => Strategy::Sentinel,
        NodeKind::CreateTableSpaceStmt => Strategy::Sentinel,
        NodeKind::DropTableSpaceStmt => Strategy::Sentinel,
        NodeKind::AlterObjectDependsStmt => Strategy::Sentinel,
        NodeKind::AlterObjectSchemaStmt => Strategy::Sentinel,
        NodeKind::AlterOwnerStmt => Strategy::Sentinel,
        NodeKind::AlterOperatorStmt => Strategy::Sentinel,
        NodeKind::AlterTypeStmt => Strategy::Sentinel,
        NodeKind::DropOwnedStmt => Strategy::Sentinel,
        NodeKind::ReassignOwnedStmt => Strategy::Sentinel,
        NodeKind::CompositeTypeStmt => Strategy::Sentinel,
        NodeKind::CreateEnumStmt => Strategy::Sentinel,
        NodeKind::CreateRangeStmt => Strategy::Sentinel,
        NodeKind::AlterEnumStmt => Strategy::Sentinel,
        NodeKind::AlterTsdictionaryStmt => Strategy::Sentinel,
        NodeKind::AlterTsconfigurationStmt => Strategy::Sentinel,
        NodeKind::CreateFdwStmt => Strategy::Sentinel,
        NodeKind::AlterFdwStmt => Strategy::Sentinel,
        NodeKind::CreateForeignServerStmt => Strategy::Sentinel,
        NodeKind::AlterForeignServerStmt => Strategy::Sentinel,
        NodeKind::CreateUserMappingStmt => Strategy::Sentinel,
        NodeKind::AlterUserMappingStmt => Strategy::Sentinel,
        NodeKind::DropUserMappingStmt => Strategy::Sentinel,
        NodeKind::AlterTableSpaceOptionsStmt => Strategy::Sentinel,
        NodeKind::AlterTableMoveAllStmt => Strategy::Sentinel,
        NodeKind::SecLabelStmt => Strategy::Sentinel,
        NodeKind::CreateForeignTableStmt => Strategy::Sentinel,
        NodeKind::ImportForeignSchemaStmt => Strategy::Sentinel,
        NodeKind::CreateExtensionStmt => Strategy::Sentinel,
        NodeKind::AlterExtensionStmt => Strategy::Sentinel,
        NodeKind::AlterExtensionContentsStmt => Strategy::Sentinel,
        NodeKind::CreateEventTrigStmt => Strategy::Sentinel,
        NodeKind::AlterEventTrigStmt => Strategy::Sentinel,
        NodeKind::RefreshMatViewStmt => Strategy::Sentinel,
        NodeKind::ReplicaIdentityStmt => Strategy::Sentinel,
        NodeKind::AlterSystemStmt => Strategy::Sentinel,
        NodeKind::CreatePolicyStmt => Strategy::Sentinel,
        NodeKind::AlterPolicyStmt => Strategy::Sentinel,
        NodeKind::CreateTransformStmt => Strategy::Sentinel,
        NodeKind::CreateAmStmt => Strategy::Sentinel,
        NodeKind::CreatePublicationStmt => Strategy::Sentinel,
        NodeKind::AlterPublicationStmt => Strategy::Sentinel,
        NodeKind::CreateSubscriptionStmt => Strategy::Sentinel,
        NodeKind::AlterSubscriptionStmt => Strategy::Sentinel,
        NodeKind::DropSubscriptionStmt => Strategy::Sentinel,
        NodeKind::CreateStatsStmt => Strategy::Sentinel,
        NodeKind::AlterCollationStmt => Strategy::Sentinel,
        NodeKind::CallStmt => Strategy::Sentinel,
        NodeKind::AlterStatsStmt => Strategy::Sentinel,
        NodeKind::AExpr => Strategy::Delegate,
        NodeKind::ColumnRef => Strategy::Direct,
        NodeKind::ParamRef => Strategy::Direct,
        NodeKind::AConst => Strategy::Direct,
        NodeKind::FuncCall => Strategy::Direct,
        NodeKind::AStar => Strategy::Sentinel,
        NodeKind::AIndices => Strategy::Sentinel,
        NodeKind::AIndirection => Strategy::Sentinel,
        NodeKind::AArrayExpr => Strategy::Direct,
        NodeKind::ResTarget => Strategy::Direct,
        NodeKind::MultiAssignRef => Strategy::Sentinel,
        NodeKind::TypeCast => Strategy::Direct,
        NodeKind::CollateClause => Strategy::Direct,
        NodeKind::SortBy => Strategy::Direct,
        NodeKind::WindowDef => Strategy::Direct,
        NodeKind::RangeSubselect => Strategy::Sentinel,
        NodeKind::RangeFunction => Strategy::Sentinel,
        NodeKind::RangeTableSample => Strategy::Direct,
        NodeKind::RangeTableFunc => Strategy::Direct,
        NodeKind::RangeTableFuncCol => Strategy::Direct,
        NodeKind::TypeName => Strategy::Direct,
        NodeKind::ColumnDef => Strategy::Direct,
        NodeKind::IndexElem => Strategy::Sentinel,
        NodeKind::Constraint => Strategy::Direct,
        NodeKind::DefElem => Strategy::Direct,
        NodeKind::RangeTblEntry => Strategy::Sentinel,
        NodeKind::RangeTblFunction => Strategy::Sentinel,
        NodeKind::TableSampleClause => Strategy::Sentinel,
        NodeKind::WithCheckOption => Strategy::Sentinel,
        NodeKind::SortGroupClause => Strategy::Sentinel,
        NodeKind::GroupingSet => Strategy::Direct,
        NodeKind::WindowClause => Strategy::Sentinel,
        NodeKind::ObjectWithArgs => Strategy::Sentinel,
        NodeKind::AccessPriv => Strategy::Sentinel,
        NodeKind::CreateOpClassItem => Strategy::Sentinel,
        NodeKind::TableLikeClause => Strategy::Sentinel,
        NodeKind::FunctionParameter => Strategy::Sentinel,
        NodeKind::LockingClause => Strategy::Sentinel,
        NodeKind::RowMarkClause => Strategy::Sentinel,
        NodeKind::XmlSerialize => Strategy::Direct,
        NodeKind::WithClause => Strategy::Direct,
        NodeKind::InferClause => Strategy::Direct,
        NodeKind::OnConflictClause => Strategy::Direct,
        NodeKind::CommonTableExpr => Strategy::Direct,
        NodeKind::RoleSpec => Strategy::Direct,
        NodeKind::TriggerTransition => Strategy::Sentinel,
        NodeKind::PartitionElem => Strategy::Direct,
        NodeKind::PartitionSpec => Strategy::Direct,
        NodeKind::PartitionBoundSpec => Strategy::Direct,
        NodeKind::PartitionRangeDatum => Strategy::Direct,
        NodeKind::PartitionCmd => Strategy::Sentinel,
        NodeKind::VacuumRelation => Strategy::Sentinel,
        NodeKind::InlineCodeBlock => Strategy::Sentinel,
        NodeKind::CallContext => Strategy::Sentinel,
        NodeKind::Integer => Strategy::Sentinel,
        NodeKind::Float => Strategy::Sentinel,
        NodeKind::Boolean => Strategy::Sentinel,
        NodeKind::String => Strategy::Sentinel,
        NodeKind::BitString => Strategy::Sentinel,
        NodeKind::List => Strategy::Sentinel,
        NodeKind::IntList => Strategy::Sentinel,
        NodeKind::OidList => Strategy::Sentinel,
        NodeKind::MergeStmt => Strategy::Sentinel,
        NodeKind::MergeAction => Strategy::Sentinel,
        NodeKind::AlterDatabaseRefreshCollStmt => Strategy::Sentinel,
        NodeKind::ReturnStmt => Strategy::Sentinel,
        NodeKind::PlassignStmt => Strategy::Direct,
        NodeKind::StatsElem => Strategy::Sentinel,
        NodeKind::CtesearchClause => Strategy::Direct,
        NodeKind::CtecycleClause => Strategy::Direct,
        NodeKind::MergeWhenClause => Strategy::Sentinel,
        NodeKind::PublicationObjSpec => Strategy::Direct,
        NodeKind::PublicationTable => Strategy::Sentinel,
        NodeKind::JsonFormat => Strategy::Direct,
        NodeKind::JsonReturning => Strategy::Sentinel,
        NodeKind::JsonValueExpr => Strategy::Sentinel,
        NodeKind::JsonConstructorExpr => Strategy::Direct,
        NodeKind::JsonIsPredicate => Strategy::Direct,
        NodeKind::JsonOutput => Strategy::Sentinel,
        NodeKind::JsonKeyValue => Strategy::Sentinel,
        NodeKind::JsonObjectConstructor => Strategy::Direct,
        NodeKind::JsonArrayConstructor => Strategy::Direct,
        NodeKind::JsonArrayQueryConstructor => Strategy::Direct,
        NodeKind::JsonAggConstructor => Strategy::Direct,
        NodeKind::JsonObjectAgg => Strategy::Sentinel,
        NodeKind::JsonArrayAgg => Strategy::Sentinel,
        NodeKind::RtepermissionInfo => Strategy::Sentinel,
        NodeKind::WindowFuncRunCondition => Strategy::Sentinel,
        NodeKind::MergeSupportFunc => Strategy::Direct,
        NodeKind::JsonBehavior => Strategy::Direct,
        NodeKind::JsonExpr => Strategy::Direct,
        NodeKind::JsonTablePath => Strategy::Sentinel,
        NodeKind::JsonTablePathScan => Strategy::Sentinel,
        NodeKind::JsonTableSiblingJoin => Strategy::Sentinel,
        NodeKind::SinglePartitionSpec => Strategy::Sentinel,
        NodeKind::JsonArgument => Strategy::Sentinel,
        NodeKind::JsonFuncExpr => Strategy::Direct,
        NodeKind::JsonTablePathSpec => Strategy::Direct,
        NodeKind::JsonTable => Strategy::Direct,
        NodeKind::JsonTableColumn => Strategy::Direct,
        NodeKind::JsonParseExpr => Strategy::Direct,
        NodeKind::JsonScalarExpr => Strategy::Direct,
        NodeKind::JsonSerializeExpr => Strategy::Direct,
        NodeKind::Unrecognized => Strategy::Unclassified,
    }
}

/// Classifies a node kind; agrees with [`classification`] on every kind.
pub fn classify(k: NodeKind) -> (s: Strategy)
    ensures
        s == classification(k),
{
    match k {
        NodeKind::Alias => Strategy::Sentinel,
        NodeKind::RangeVar => Strategy::Direct,
        NodeKind::TableFunc => Strategy::Direct,
        NodeKind::Var => Strategy::Direct,
        NodeKind::Param => Strategy::Direct,
        NodeKind::Aggref => Strategy::Direct,
        NodeKind::GroupingFunc => Strategy::Direct,
        NodeKind::WindowFunc => Strategy::Direct,
        NodeKind::SubscriptingRef => Strategy::Sentinel,
        NodeKind::FuncExpr => Strategy::Direct,
        NodeKind::NamedArgExpr => Strategy::Direct,
        NodeKind::OpExpr => Strategy::Direct,
        NodeKind::DistinctExpr => Strategy::Direct,
        NodeKind::NullIfExpr => Strategy::Direct,
        NodeKind::ScalarArrayOpExpr => Strategy::Direct,
        NodeKind::BoolExpr => Strategy::Direct,
        NodeKind::SubLink => Strategy::Direct,
        NodeKind::SubPlan => Strategy::Delegate,
        NodeKind::AlternativeSubPlan => Strategy::Sentinel,
        NodeKind::FieldSelect => Strategy::Sentinel,
        NodeKind::FieldStore => Strategy::Sentinel,
        NodeKind::RelabelType => Strategy::Direct,
        NodeKind::CoerceViaIo => Strategy::Direct,
        NodeKind::ArrayCoerceExpr => Strategy::Direct,
        NodeKind::ConvertRowtypeExpr => Strategy::Direct,
        NodeKind::CollateExpr => Strategy::Direct,
        NodeKind::CaseExpr => Strategy::Direct,
        NodeKind::CaseWhen => Strategy::Direct,
        NodeKind::CaseTestExpr => Strategy::Sentinel,
        NodeKind::ArrayExpr => Strategy::Direct,
        NodeKind::RowExpr => Strategy::Direct,
        NodeKind::RowCompareExpr => Strategy::Sentinel,
        NodeKind::CoalesceExpr => Strategy::Direct,
        NodeKind::MinMaxExpr => Strategy::Direct,
        NodeKind::SqlvalueFunction => Strategy::Direct,
        NodeKind::XmlExpr => Strategy::Direct,
        NodeKind::NullTest => Strategy::Direct,
        NodeKind::BooleanTest => Strategy::Direct,
        NodeKind::CoerceToDomain => Strategy::Direct,
        NodeKind::CoerceToDomainValue => Strategy::Direct,
        NodeKind::SetToDefault => Strategy::Direct,
        NodeKind::CurrentOfExpr => Strategy::Sentinel,
        NodeKind::NextValueExpr => Strategy::Sentinel,
        NodeKind::InferenceElem => Strategy::Sentinel,
        NodeKind::TargetEntry => Strategy::Sentinel,
        NodeKind::RangeTblRef => Strategy::Sentinel,
        NodeKind::JoinExpr => Strategy::Sentinel,
        NodeKind::FromExpr => Strategy::Sentinel,
        NodeKind::OnConflictExpr => Strategy::Sentinel,
        NodeKind::IntoClause => Strategy::Sentinel,
        NodeKind::RawStmt => Strategy::Sentinel,
        NodeKind::Query => Strategy::Sentinel,
        NodeKind::InsertStmt => Strategy::Sentinel,
        NodeKind::DeleteStmt => Strategy::Sentinel,
        NodeKind::UpdateStmt => Strategy::Sentinel,
        NodeKind::SelectStmt => Strategy::Sentinel,
        NodeKind::AlterTableStmt => Strategy::Sentinel,
        NodeKind::AlterTableCmd => Strategy::Sentinel,
        NodeKind::AlterDomainStmt => Strategy::Sentinel,
        NodeKind::SetOperationStmt => Strategy::Sentinel,
        NodeKind::GrantStmt => Strategy::Sentinel,
        NodeKind::GrantRoleStmt => Strategy::Sentinel,
        NodeKind::AlterDefaultPrivilegesStmt => Strategy::Sentinel,
        NodeKind::ClosePortalStmt => Strategy::Sentinel,
        NodeKind::ClusterStmt => Strategy::Sentinel,
        NodeKind::CopyStmt => Strategy::Sentinel,
        NodeKind::CreateStmt => Strategy::Compound,
        NodeKind::DefineStmt => Strategy::Sentinel,
        NodeKind::DropStmt => Strategy::Sentinel,
        NodeKind::TruncateStmt => Strategy::Sentinel,
        NodeKind::CommentStmt => Strategy::Sentinel,
        NodeKind::FetchStmt => Strategy::Sentinel,
        NodeKind::IndexStmt => Strategy::Sentinel,
        NodeKind::CreateFunctionStmt => Strategy::Sentinel,
        NodeKind::AlterFunctionStmt => Strategy::Sentinel,
        NodeKind::DoStmt => Strategy::Sentinel,
        NodeKind::RenameStmt => Strategy::Sentinel,
        NodeKind::RuleStmt => Strategy::Sentinel,
        NodeKind::NotifyStmt => Strategy::Sentinel,
        NodeKind::ListenStmt => Strategy::Sentinel,
        NodeKind::UnlistenStmt => Strategy::Sentinel,
        NodeKind::TransactionStmt => Strategy::Direct,
        NodeKind::ViewStmt => Strategy::Sentinel,
        NodeKind::LoadStmt => Strategy::Sentinel,
        NodeKind::CreateDomainStmt => Strategy::Sentinel,
        NodeKind::CreatedbStmt => Strategy::Sentinel,
        NodeKind::DropdbStmt => Strategy::Sentinel,
        NodeKind::VacuumStmt => Strategy::Sentinel,
        NodeKind::ExplainStmt => Strategy::Sentinel,
        NodeKind::CreateTableAsStmt => Strategy::Sentinel,
        NodeKind::CreateSeqStmt => Strategy::Sentinel,
        NodeKind::AlterSeqStmt => Strategy::Sentinel,
        NodeKind::VariableSetStmt => Strategy::Sentinel,
        NodeKind::VariableShowStmt => Strategy::Sentinel,
        NodeKind::DiscardStmt => Strategy::Sentinel,
        NodeKind::CreateTrigStmt => Strategy::Sentinel,
        NodeKind::CreatePlangStmt => Strategy::Sentinel,
        NodeKind::CreateRoleStmt => Strategy::Sentinel,
        NodeKind::AlterRoleStmt => Strategy::Sentinel,
        NodeKind::DropRoleStmt => Strategy::Sentinel,
        NodeKind::LockStmt => Strategy::Sentinel,
        NodeKind::ConstraintsSetStmt => Strategy::Sentinel,
        NodeKind::ReindexStmt => Strategy::Sentinel,
        NodeKind::CheckPointStmt => Strategy::Sentinel,
        NodeKind::CreateSchemaStmt => Strategy::Sentinel,
        NodeKind::AlterDatabaseStmt => Strategy::Sentinel,
        NodeKind::AlterDatabaseSetStmt => Strategy::Sentinel,
        NodeKind::AlterRoleSetStmt => Strategy::Sentinel,
        NodeKind::CreateConversionStmt => Strategy::Sentinel,
        NodeKind::CreateCastStmt => Strategy::Sentinel,
        NodeKind::CreateOpClassStmt => Strategy::Sentinel,
        NodeKind::CreateOpFamilyStmt => Strategy::Sentinel,
        NodeKind::AlterOpFamilyStmt => Strategy::Sentinel,
        NodeKind::PrepareStmt => Strategy::Sentinel,
        NodeKind::ExecuteStmt => Strategy::Sentinel,
        NodeKind::DeallocateStmt => Strategy::Direct,
        NodeKind::DeclareCursorStmt => Strategy::Sentinel,
        NodeKind::CreateTableSpaceStmt => Strategy::Sentinel,
        NodeKind::DropTableSpaceStmt => Strategy::Sentinel,
        NodeKind::AlterObjectDependsStmt => Strategy::Sentinel,
        NodeKind::AlterObjectSchemaStmt => Strategy::Sentinel,
        NodeKind::AlterOwnerStmt => Strategy::Sentinel,
        NodeKind::AlterOperatorStmt => Strategy::Sentinel,
        NodeKind::AlterTypeStmt => Strategy::Sentinel,
        NodeKind::DropOwnedStmt => Strategy::Sentinel,
        NodeKind::ReassignOwnedStmt => Strategy::Sentinel,
        NodeKind::CompositeTypeStmt => Strategy::Sentinel,
        NodeKind::CreateEnumStmt => Strategy::Sentinel,
        NodeKind::CreateRangeStmt => Strategy::Sentinel,
        NodeKind::AlterEnumStmt => Strategy::Sentinel,
        NodeKind::AlterTsdictionaryStmt => Strategy::Sentinel,
        NodeKind::AlterTsconfigurationStmt => Strategy::Sentinel,
        NodeKind::CreateFdwStmt => Strategy::Sentinel,
        NodeKind::AlterFdwStmt => Strategy::Sentinel,
        NodeKind::CreateForeignServerStmt => Strategy::Sentinel,
        NodeKind::AlterForeignServerStmt => Strategy::Sentinel,
        NodeKind::CreateUserMappingStmt => Strategy::Sentinel,
        NodeKind::AlterUserMappingStmt => Strategy::Sentinel,
        NodeKind::DropUserMappingStmt => Strategy::Sentinel,
        NodeKind::AlterTableSpaceOptionsStmt => Strategy::Sentinel,
        NodeKind::AlterTableMoveAllStmt => Strategy::Sentinel,
        NodeKind::SecLabelStmt => Strategy::Sentinel,
        NodeKind::CreateForeignTableStmt => Strategy::Sentinel,
        NodeKind::ImportForeignSchemaStmt => Strategy::Sentinel,
        NodeKind::CreateExtensionStmt => Strategy::Sentinel,
        NodeKind::AlterExtensionStmt => Strategy::Sentinel,
        NodeKind::AlterExtensionContentsStmt => Strategy::Sentinel,
        NodeKind::CreateEventTrigStmt => Strategy::Sentinel,
        NodeKind::AlterEventTrigStmt => Strategy::Sentinel,
        NodeKind::RefreshMatViewStmt => Strategy::Sentinel,
        NodeKind::ReplicaIdentityStmt => Strategy::Sentinel,
        NodeKind::AlterSystemStmt => Strategy::Sentinel,
        NodeKind::CreatePolicyStmt => Strategy::Sentinel,
        NodeKind::AlterPolicyStmt => Strategy::Sentinel,
        NodeKind::CreateTransformStmt => Strategy::Sentinel,
        NodeKind::CreateAmStmt => Strategy::Sentinel,
        NodeKind::CreatePublicationStmt => Strategy::Sentinel,
        NodeKind::AlterPublicationStmt => Strategy::Sentinel,
        NodeKind::CreateSubscriptionStmt => Strategy::Sentinel,
        NodeKind::AlterSubscriptionStmt => Strategy::Sentinel,
        NodeKind::DropSubscriptionStmt => Strategy::Sentinel,
        NodeKind::CreateStatsStmt => Strategy::Sentinel,
        NodeKind::AlterCollationStmt => Strategy::Sentinel,
        NodeKind::CallStmt => Strategy::Sentinel,
        NodeKind::AlterStatsStmt => Strategy::Sentinel,
        NodeKind::AExpr => Strategy::Delegate,
        NodeKind::ColumnRef => Strategy::Direct,
        NodeKind::ParamRef => Strategy::Direct,
        NodeKind::AConst => Strategy::Direct,
        NodeKind::FuncCall => Strategy::Direct,
        NodeKind::AStar => Strategy::Sentinel,
        NodeKind::AIndices => Strategy::Sentinel,
        NodeKind::AIndirection => Strategy::Sentinel,
        NodeKind::AArrayExpr => Strategy::Direct,
        NodeKind::ResTarget => Strategy::Direct,
        NodeKind::MultiAssignRef => Strategy::Sentinel,
        NodeKind::TypeCast => Strategy::Direct,
        NodeKind::CollateClause => Strategy::Direct,
        NodeKind::SortBy => Strategy::Direct,
        NodeKind::WindowDef => Strategy::Direct,
        NodeKind::RangeSubselect => Strategy::Sentinel,
        NodeKind::RangeFunction => Strategy::Sentinel,
        NodeKind::RangeTableSample => Strategy::Direct,
        NodeKind::RangeTableFunc => Strategy::Direct,
        NodeKind::RangeTableFuncCol => Strategy::Direct,
        NodeKind::TypeName => Strategy::Direct,
        NodeKind::ColumnDef => Strategy::Direct,
        NodeKind::IndexElem => Strategy::Sentinel,
        NodeKind::Constraint => Strategy::Direct,
        NodeKind::DefElem => Strategy::Direct,
        NodeKind::RangeTblEntry => Strategy::Sentinel,
        NodeKind::RangeTblFunction => Strategy::Sentinel,
        NodeKind::TableSampleClause => Strategy::Sentinel,
        NodeKind::WithCheckOption => Strategy::Sentinel,
        NodeKind::SortGroupClause => Strategy::Sentinel,
        NodeKind::GroupingSet => Strategy::Direct,
        NodeKind::WindowClause => Strategy::Sentinel,
        NodeKind::ObjectWithArgs => Strategy::Sentinel,
        NodeKind::AccessPriv => Strategy::Sentinel,
        NodeKind::CreateOpClassItem => Strategy::Sentinel,
        NodeKind::TableLikeClause => Strategy::Sentinel,
        NodeKind::FunctionParameter => Strategy::Sentinel,
        NodeKind::LockingClause => Strategy::Sentinel,
        NodeKind::RowMarkClause => Strategy::Sentinel,
        NodeKind::XmlSerialize => Strategy::Direct,
        NodeKind::WithClause => Strategy::Direct,
        NodeKind::InferClause => Strategy::Direct,
        NodeKind::OnConflictClause => Strategy::Direct,
        NodeKind::CommonTableExpr => Strategy::Direct,
        NodeKind::RoleSpec => Strategy::Direct,
        NodeKind::TriggerTransition => Strategy::Sentinel,
        NodeKind::PartitionElem => Strategy::Direct,
        NodeKind::PartitionSpec => Strategy::Direct,
        NodeKind::PartitionBoundSpec => Strategy::Direct,
        NodeKind::PartitionRangeDatum => Strategy::Direct,
        NodeKind::PartitionCmd => Strategy::Sentinel,
        NodeKind::VacuumRelation => Strategy::Sentinel,
        NodeKind::InlineCodeBlock => Strategy::Sentinel,
        NodeKind::CallContext => Strategy::Sentinel,
        NodeKind::Integer => Strategy::Sentinel,
        NodeKind::Float => Strategy::Sentinel,
        NodeKind::Boolean => Strategy::Sentinel,
        NodeKind::String => Strategy::Sentinel,
        NodeKind::BitString => Strategy::Sentinel,
        NodeKind::List => Strategy::Sentinel,
        NodeKind::IntList => Strategy::Sentinel,
        NodeKind::OidList => Strategy::Sentinel,
        NodeKind::MergeStmt => Strategy::Sentinel,
        NodeKind::MergeAction => Strategy::Sentinel,
        NodeKind::AlterDatabaseRefreshCollStmt => Strategy::Sentinel,
        NodeKind::ReturnStmt => Strategy::Sentinel,
        NodeKind::PlassignStmt => Strategy::Direct,
        NodeKind::StatsElem => Strategy::Sentinel,
        NodeKind::CtesearchClause => Strategy::Direct,
        NodeKind::CtecycleClause => Strategy::Direct,
        NodeKind::MergeWhenClause => Strategy::Sentinel,
        NodeKind::PublicationObjSpec => Strategy::Direct,
        NodeKind::PublicationTable => Strategy::Sentinel,
        NodeKind::JsonFormat => Strategy::Direct,
        NodeKind::JsonReturning => Strategy::Sentinel,
        NodeKind::JsonValueExpr => Strategy::Sentinel,
        NodeKind::JsonConstructorExpr => Strategy::Direct,
        NodeKind::JsonIsPredicate => Strategy::Direct,
        NodeKind::JsonOutput => Strategy::Sentinel,
        NodeKind::JsonKeyValue => Strategy::Sentinel,
        NodeKind::JsonObjectConstructor => Strategy::Direct,
        NodeKind::JsonArrayConstructor => Strategy::Direct,
        NodeKind::JsonArrayQueryConstructor => Strategy::Direct,
        NodeKind::JsonAggConstructor => Strategy::Direct,
        NodeKind::JsonObjectAgg => Strategy::Sentinel,
        NodeKind::JsonArrayAgg => Strategy::Sentinel,
        NodeKind::RtepermissionInfo => Strategy::Sentinel,
        NodeKind::WindowFuncRunCondition => Strategy::Sentinel,
        NodeKind::MergeSupportFunc => Strategy::Direct,
        NodeKind::JsonBehavior => Strategy::Direct,
        NodeKind::JsonExpr => Strategy::Direct,
        NodeKind::JsonTablePath => Strategy::Sentinel,
        NodeKind::JsonTablePathScan => Strategy::Sentinel,
        NodeKind::JsonTableSiblingJoin => Strategy::Sentinel,
        NodeKind::SinglePartitionSpec => Strategy::Sentinel,
        NodeKind::JsonArgument => Strategy::Sentinel,
        NodeKind::JsonFuncExpr => Strategy::Direct,
        NodeKind::JsonTablePathSpec => Strategy::Direct,
        NodeKind::JsonTable => Strategy::Direct,
        NodeKind::JsonTableColumn => Strategy::Direct,
        NodeKind::JsonParseExpr => Strategy::Direct,
        NodeKind::JsonScalarExpr => Strategy::Direct,
        NodeKind::JsonSerializeExpr => Strategy::Direct,
        NodeKind::Unrecognized => Strategy::Unclassified,
    }
}

} // verus!
