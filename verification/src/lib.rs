//! Source-position resolution for an externally produced abstract syntax
//! tree of parsed SQL statements.
//!
//! The external parser yields an immutable tree of tagged node variants,
//! each optionally carrying a raw offset into the source text. Reading a
//! node's own offset field is wrong for a significant subset of variants:
//! some declare no offset at all, some declare one that does not point at
//! the start of the construct, and some are containers whose children must
//! be reported individually. This crate classifies every variant of the
//! grammar's taxonomy into a resolution strategy, resolves a node's best
//! known offset by recursing into a designated child where the node's own
//! field is unreliable, and flattens compound statements into an ordered
//! sequence of independently positioned sub-nodes.

pub mod flatten;
pub mod kind;
pub mod node;
pub mod resolve;

pub use flatten::flat_seq;
pub use flatten::flatten_ok;
pub use flatten::get_flat_nodes;
pub use kind::classification;
pub use kind::classify;
pub use kind::NodeKind;
pub use kind::Strategy;
pub use node::AstNode;
pub use node::TreeError;
pub use resolve::get_position_for_pg_query_node;
pub use resolve::resolve_spec;
pub use resolve::NO_POSITION;
