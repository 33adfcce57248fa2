use vstd::prelude::*;

use crate::kind::classification;
use crate::kind::classify;
use crate::kind::Strategy;
use crate::node::AstNode;
use crate::node::TreeError;

verus! {

/// The fixed out-of-band offset meaning "not independently positioned".
///
/// Kinds classified `Sentinel` or `Compound` resolve to this value rather
/// than failing: their position is only meaningful as an aggregate anchor,
/// never as a leaf. Callers must special-case it before emitting a
/// diagnostic location.
pub const NO_POSITION: i32 = -1;

/// The offset a node resolves to, selected purely by the node's kind:
/// a `Direct` kind answers with its own declared offset, verbatim; a
/// `Delegate` kind answers with its designated child's resolution, or
/// reports a malformed tree where the child slot is unset; a `Sentinel`
/// or `Compound` kind answers with the no-position sentinel; an
/// `Unclassified` kind is reported as such, never defaulted.
pub open spec fn resolve_spec(n: AstNode) -> Result<i32, TreeError>
    decreases n,
{
    match classification(n.kind) {
        Strategy::Direct => Ok(n.location),
        Strategy::Delegate => match n.child {
            Some(c) => resolve_spec(*c),
            None => Err(TreeError::MalformedTree),
        },
        Strategy::Sentinel => Ok(NO_POSITION),
        Strategy::Compound => Ok(NO_POSITION),
        Strategy::Unclassified => Err(TreeError::UnclassifiedKind { kind: n.kind }),
    }
}

/// Resolves the best-known source offset of one node.
///
/// Returns exactly what [`resolve_spec`] defines: the node's own declared
/// offset for a `Direct` kind, the designated child's resolution for a
/// `Delegate` kind, [`NO_POSITION`] for a kind that is not independently
/// positioned, and an error — never a guessed default — for an absent
/// designated child or an unclassified kind.
pub fn get_position_for_pg_query_node(node: &AstNode) -> (r: Result<i32, TreeError>)
    ensures
        r == resolve_spec(*node),
    decreases *node,
{
    match classify(node.kind) {
        Strategy::Direct => Ok(node.location),
        Strategy::Delegate => match node.child.as_ref() {
            Some(c) => get_position_for_pg_query_node(&**c),
            None => Err(TreeError::MalformedTree),
        },
        Strategy::Sentinel => Ok(NO_POSITION),
        Strategy::Compound => Ok(NO_POSITION),
        Strategy::Unclassified => Err(TreeError::UnclassifiedKind { kind: node.kind }),
    }
}

/// Every kind that resolution can consult in `n` has a classification
/// row: the node's own kind is classified, and where the kind delegates,
/// the designated child is present and itself fully classified. This is
/// the completeness of the taxonomy over one tree.
pub open spec fn fully_classified(n: AstNode) -> bool
    decreases n,
{
    &&& !(classification(n.kind) is Unclassified)
    &&& (classification(n.kind) is Delegate ==> match n.child {
        Some(c) => fully_classified(*c),
        None => false,
    })
}

/// Every declared offset that resolution can consult in `n` — the node's
/// own where its kind is `Direct`, the designated child's otherwise — is
/// non-negative.
pub open spec fn offsets_nonneg(n: AstNode) -> bool
    decreases n,
{
    match classification(n.kind) {
        Strategy::Direct => n.location >= 0,
        Strategy::Delegate => match n.child {
            Some(c) => offsets_nonneg(*c),
            None => true,
        },
        _ => true,
    }
}

/// Resolution is total over a fully classified tree: it terminates and
/// returns an offset, never an unclassified-kind or malformed-tree
/// failure; and where the tree's declared offsets are themselves
/// non-negative, that offset is non-negative or the defined sentinel.
pub proof fn lemma_resolution_total(n: AstNode)
    requires
        fully_classified(n),
    ensures
        resolve_spec(n) is Ok,
        offsets_nonneg(n) ==> resolve_spec(n)->Ok_0 == NO_POSITION || resolve_spec(n)->Ok_0 >= 0,
    decreases n,
{
    if classification(n.kind) is Delegate {
        lemma_resolution_total(*n.child->0);
    }
}

/// The node whose own rule finally answers for `n`: `n` itself where its
/// kind does not delegate or its designated child is absent; otherwise
/// the node reached by repeatedly unwrapping to the designated child.
pub open spec fn delegate_target(n: AstNode) -> AstNode
    decreases n,
{
    if classification(n.kind) is Delegate {
        match n.child {
            Some(c) => delegate_target(*c),
            None => n,
        }
    } else {
        n
    }
}

/// Delegation is transitive and terminating: over a fully classified
/// tree, repeatedly unwrapping a delegating node to its designated child
/// reaches a node that no longer delegates — one answering directly or
/// with the sentinel — within the depth of the chain, and `n` resolves to
/// exactly that node's own resolution.
pub proof fn lemma_delegation_terminates(n: AstNode)
    requires
        fully_classified(n),
    ensures
        !(classification(delegate_target(n).kind) is Delegate),
        !(classification(delegate_target(n).kind) is Unclassified),
        fully_classified(delegate_target(n)),
        resolve_spec(n) == resolve_spec(delegate_target(n)),
    decreases n,
{
    if classification(n.kind) is Delegate {
        lemma_delegation_terminates(*n.child->0);
    }
}

} // verus!
