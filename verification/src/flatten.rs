use vstd::prelude::*;

use crate::kind::classification;
use crate::kind::classify;
use crate::kind::Strategy;
use crate::node::AstNode;
use crate::node::TreeError;

verus! {

/// The inner nodes of a run of list wrappers, in declared order.
pub open spec fn unwrapped(entries: Seq<Option<AstNode>>) -> Seq<AstNode> {
    entries.map_values(|e: Option<AstNode>| e->0)
}

/// Every list wrapper in `entries` holds a node.
pub open spec fn all_present(entries: Seq<Option<AstNode>>) -> bool {
    forall|i: int| 0 <= i < entries.len() ==> entries[i] is Some
}

/// Flattening succeeds on every node except a compound one with an empty
/// list wrapper among its declared children — that wrapper is a defect of
/// the external tree and is reported, never silently skipped.
pub open spec fn flatten_ok(n: AstNode) -> bool {
    classification(n.kind) is Compound ==> all_present(n.elements@) && all_present(n.options@)
}

/// The flat sequence of a node: the node alone for every ordinary kind;
/// for a compound kind, the node itself followed by its declared elements
/// and then its declared options, each unwrapped from its list wrapper,
/// in their existing order.
pub open spec fn flat_seq(n: AstNode) -> Seq<AstNode> {
    if classification(n.kind) is Compound {
        seq![n] + unwrapped(n.elements@) + unwrapped(n.options@)
    } else {
        seq![n]
    }
}

/// Flattens one node into the ordered sequence of nodes to treat as
/// independently positioned leaves.
///
/// Succeeds if and only if no declared list wrapper of a compound node is
/// empty, and then returns references to exactly the nodes of
/// [`flat_seq`], in order, the input node first; constructs no node and
/// reorders nothing. An empty wrapper is reported as a malformed tree.
pub fn get_flat_nodes<'a>(node: &'a AstNode) -> (r: Result<Vec<&'a AstNode>, TreeError>)
    ensures
        r is Ok <==> flatten_ok(*node),
        r matches Ok(v) ==> v@.len() == flat_seq(*node).len()
            && (forall|k: int| 0 <= k < v@.len() ==> *v@[k] == flat_seq(*node)[k]),
        r matches Err(e) ==> e == TreeError::MalformedTree,
{
    let mut out: Vec<&'a AstNode> = Vec::new();
    out.push(node);
    match classify(node.kind) {
        Strategy::Compound => {
            let mut i: usize = 0;
            while i < node.elements.len()
                invariant
                    classification(node.kind) is Compound,
                    i <= node.elements@.len(),
                    out@.len() == 1 + i,
                    out@[0] == node,
                    forall|j: int| 0 <= j < i ==> node.elements@[j] is Some,
                    forall|j: int| 0 <= j < i ==> *out@[1 + j] == node.elements@[j]->0,
                decreases node.elements@.len() - i,
            {
                match node.elements[i].as_ref() {
                    Some(e) => {
                        out.push(e);
                    }
                    None => {
                        proof {
                            assert(!all_present(node.elements@));
                        }
                        return Err(TreeError::MalformedTree);
                    }
                }
                i = i + 1;
            }
            let offset: usize = node.elements.len();
            let mut j: usize = 0;
            while j < node.options.len()
                invariant
                    classification(node.kind) is Compound,
                    offset == node.elements@.len(),
                    j <= node.options@.len(),
                    out@.len() == 1 + offset + j,
                    out@[0] == node,
                    forall|k: int| 0 <= k < offset ==> node.elements@[k] is Some,
                    forall|k: int| 0 <= k < offset ==> *out@[1 + k] == node.elements@[k]->0,
                    forall|k: int| 0 <= k < j ==> node.options@[k] is Some,
                    forall|k: int| 0 <= k < j ==> *out@[1 + offset + k] == node.options@[k]->0,
                decreases node.options@.len() - j,
            {
                match node.options[j].as_ref() {
                    Some(o) => {
                        out.push(o);
                    }
                    None => {
                        proof {
                            assert(!all_present(node.options@));
                        }
                        return Err(TreeError::MalformedTree);
                    }
                }
                j = j + 1;
            }
            Ok(out)
        }
        _ => Ok(out),
    }
}

/// Flattening a non-compound node always succeeds and yields exactly one
/// element: the input node itself, unchanged.
pub proof fn lemma_flatten_identity(n: AstNode)
    requires
        !(classification(n.kind) is Compound),
    ensures
        flatten_ok(n),
        flat_seq(n).len() == 1,
        flat_seq(n)[0] == n,
{
}

/// Flattening a compound node yields `1 + |elements| + |options|`
/// elements in declared order: the node itself first, then each declared
/// element and then each declared option, unwrapped from its list
/// wrapper.
pub proof fn lemma_flatten_compound(n: AstNode)
    requires
        classification(n.kind) is Compound,
    ensures
        flat_seq(n).len() == 1 + n.elements@.len() + n.options@.len(),
        flat_seq(n)[0] == n,
        forall|i: int| 0 <= i < n.elements@.len() ==> flat_seq(n)[1 + i] == n.elements@[i]->0,
        forall|i: int|
            0 <= i < n.options@.len() ==> flat_seq(n)[1 + n.elements@.len() + i]
                == n.options@[i]->0,
{
}

/// Resolving the elements of a flattened root is stable: flattening equal
/// roots again and resolving at the same positional index yields the same
/// offset, since both flattening and resolution are pure functions of the
/// tree value.
pub proof fn lemma_flatten_resolution_stable(a: AstNode, b: AstNode, i: int)
    requires
        a == b,
        0 <= i < flat_seq(a).len(),
    ensures
        flat_seq(a) == flat_seq(b),
        crate::resolve::resolve_spec(flat_seq(a)[i]) == crate::resolve::resolve_spec(
            flat_seq(b)[i],
        ),
{
}

} // verus!
