//! Compiled access expressions: boolean trees over relational comparisons of
//! subsystem-specific primitive expressions.  Trees are built once by the
//! rule compiler and are immutable thereafter; the solver only reads them.

use vstd::prelude::*;

use crate::value::{val_eq, val_in, val_lt, val_lte, Value};

verus! {

/// A relational comparison of two primitive operands.  Operand order is
/// preserved end to end: it decides the asymmetric comparators.
pub enum AccessRelationalOp<E> {
    Eq(Box<E>, Box<E>),
    Neq(Box<E>, Box<E>),
    Lt(Box<E>, Box<E>),
    Lte(Box<E>, Box<E>),
    Gt(Box<E>, Box<E>),
    Gte(Box<E>, Box<E>),
    In(Box<E>, Box<E>),
}

impl<E> AccessRelationalOp<E> {
    /// The left operand.
    pub open spec fn left(&self) -> E {
        match self {
            AccessRelationalOp::Eq(l, _) => **l,
            AccessRelationalOp::Neq(l, _) => **l,
            AccessRelationalOp::Lt(l, _) => **l,
            AccessRelationalOp::Lte(l, _) => **l,
            AccessRelationalOp::Gt(l, _) => **l,
            AccessRelationalOp::Gte(l, _) => **l,
            AccessRelationalOp::In(l, _) => **l,
        }
    }

    /// The right operand.
    pub open spec fn right(&self) -> E {
        match self {
            AccessRelationalOp::Eq(_, r) => **r,
            AccessRelationalOp::Neq(_, r) => **r,
            AccessRelationalOp::Lt(_, r) => **r,
            AccessRelationalOp::Lte(_, r) => **r,
            AccessRelationalOp::Gt(_, r) => **r,
            AccessRelationalOp::Gte(_, r) => **r,
            AccessRelationalOp::In(_, r) => **r,
        }
    }

    /// Both operands, left first, without consuming the op.
    pub fn sides(&self) -> (r: (&E, &E))
        ensures
            *r.0 == self.left(),
            *r.1 == self.right(),
    {
        match self {
            AccessRelationalOp::Eq(l, r) => (&**l, &**r),
            AccessRelationalOp::Neq(l, r) => (&**l, &**r),
            AccessRelationalOp::Lt(l, r) => (&**l, &**r),
            AccessRelationalOp::Lte(l, r) => (&**l, &**r),
            AccessRelationalOp::Gt(l, r) => (&**l, &**r),
            AccessRelationalOp::Gte(l, r) => (&**l, &**r),
            AccessRelationalOp::In(l, r) => (&**l, &**r),
        }
    }

    /// The comparator this op stands for, applied to two resolved values.
    pub open spec fn compare(&self, a: Value, b: Value) -> bool {
        match self {
            AccessRelationalOp::Eq(_, _) => val_eq(a, b),
            AccessRelationalOp::Neq(_, _) => !val_eq(a, b),
            AccessRelationalOp::Lt(_, _) => val_lt(a, b),
            AccessRelationalOp::Lte(_, _) => val_lte(a, b),
            AccessRelationalOp::Gt(_, _) => val_lt(b, a),
            AccessRelationalOp::Gte(_, _) => val_lte(b, a),
            AccessRelationalOp::In(_, _) => val_in(a, b),
        }
    }
}

/// A boolean connective over sub-expressions.
pub enum AccessLogicalOp<E> {
    Not(Box<AccessPredicateExpression<E>>),
    And(Box<AccessPredicateExpression<E>>, Box<AccessPredicateExpression<E>>),
    Or(Box<AccessPredicateExpression<E>>, Box<AccessPredicateExpression<E>>),
}

/// A compiled access expression: the tree the solver walks.
pub enum AccessPredicateExpression<E> {
    LogicalOp(AccessLogicalOp<E>),
    RelationalOp(AccessRelationalOp<E>),
    BooleanLiteral(bool),
}

/// A primitive expression shared by every subsystem: a literal value, a
/// claim of the request context, or a field of the input under validation.
pub enum CommonAccessPrimitiveExpression {
    Literal(Value),
    ContextSelection(String),
    InputSelection(String),
}

/// The module-execution subsystem's primitive expression vocabulary; it adds
/// no variants of its own beyond the common ones.
pub enum ModuleAccessPrimitiveExpression {
    Common(CommonAccessPrimitiveExpression),
}

} // verus!
