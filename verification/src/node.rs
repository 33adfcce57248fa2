use vstd::prelude::*;

use crate::kind::NodeKind;

verus! {

/// The resolver's view of one node of the external parse tree.
///
/// The external parser produces the tree; this crate only reads it. A node
/// carries the variant tag and exactly the data position resolution ever
/// consults: the offset the grammar declares for the variant (where it
/// declares one), the designated child a delegating variant resolves
/// through, and the declared child lists of a compound variant. Every
/// child slot is optional so that a structurally absent child — a defect
/// of the upstream tree — stays distinguishable from a present one.
#[derive(Debug)]
pub struct AstNode {
    /// The grammar variant this node instantiates.
    pub kind: NodeKind,
    /// The offset field the grammar declares for this variant, verbatim —
    /// including a negative "unknown" value encoded upstream. Meaningful
    /// only for kinds classified `Direct`; other kinds never have it read.
    pub location: i32,
    /// The designated child a `Delegate` kind resolves through: the left
    /// operand of a binary expression (`AExpr`), the wrapped inner
    /// expression of a sub-plan (`SubPlan`). `None` where the external
    /// tree left the slot unset.
    pub child: Option<Box<AstNode>>,
    /// The declared element list of a `Compound` kind (the table elements
    /// of a table-creation statement), in source order. Each entry is the
    /// inner node of one list wrapper; `None` is an empty wrapper, a
    /// malformed tree.
    pub elements: Vec<Option<AstNode>>,
    /// The declared option list of a `Compound` kind, in source order,
    /// wrapped exactly as `elements` is.
    pub options: Vec<Option<AstNode>>,
}

/// The defects resolution and flattening can report.
///
/// Neither is recoverable by this crate: both signal that the input tree
/// or the taxonomy is out of step with the external grammar. The
/// no-position sentinel is not an error and is never reported here.
#[derive(Debug, Clone, Copy, PartialEq, Eq, Structural)]
pub enum TreeError {
    /// A declared child is structurally absent where the grammar
    /// guarantees presence: an upstream parser defect.
    MalformedTree,
    /// No classification row exists for the kind: the grammar has evolved
    /// past this resolver's taxonomy.
    UnclassifiedKind { kind: NodeKind },
}

} // verus!
