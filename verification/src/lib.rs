//! A generic authorization predicate solver.
//!
//! Declarative access-control rules are compiled into boolean expression
//! trees over relational comparisons of primitive expressions.  The solver
//! reduces such a tree against a per-request context into a verdict that is
//! either fully `Solved` or `Unsolvable`, denying by default whenever an
//! operand cannot be resolved.

pub mod context;
pub mod expression;
pub mod module_source;
pub mod predicate;
pub mod solver;
pub mod type_normalization;
pub mod value;
