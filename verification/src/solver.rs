//! The generic solver driver: walks a compiled boolean expression tree,
//! delegates relational leaves to the subsystem adapter, and combines
//! sub-results through the predicate algebra, denying by default whenever a
//! sub-result cannot be established.

use vstd::prelude::*;

use crate::context::{
    reduce_module_faults, reduce_module_primitive_expression, reduce_module_spec, AccessInput,
    AccessSolverError, RequestContext,
};
use crate::expression::{
    AccessLogicalOp, AccessPredicateExpression, AccessRelationalOp, ModuleAccessPrimitiveExpression,
};
use crate::predicate::{
    truth_and, truth_not, truth_or, AccessPredicate, ModuleAccessPredicate,
    ModuleAccessPredicateWrapper, Truth,
};
use crate::value::{eq_values, gt_values, gte_values, in_values, lt_values, lte_values, neq_values};

verus! {

/// The classification of a solving step: fully evaluated to some predicate
/// classification, or not established at all.
#[derive(Clone, Copy, PartialEq, Eq, Structural, Debug)]
pub enum SolutionV {
    Solved(Truth),
    Unsolvable,
}

/// The outcome of solving an access expression.  `Solved` carries the real
/// answer; `Unsolvable` carries a safe fallback predicate, fixed to the
/// always-false one: an access rule that cannot be fully evaluated must
/// never default to permit.
pub enum AccessSolution<P> {
    Solved(P),
    Unsolvable(P),
}

impl<P: AccessPredicate> AccessSolution<P> {
    /// The classification this outcome denotes.
    pub open spec fn classification(&self) -> SolutionV {
        match self {
            AccessSolution::Solved(p) => SolutionV::Solved(p.truth()),
            AccessSolution::Unsolvable(_) => SolutionV::Unsolvable,
        }
    }

    /// Deny-safety: an unsolvable outcome carries the always-false fallback.
    pub open spec fn deny_safe(&self) -> bool {
        match self {
            AccessSolution::Solved(_) => true,
            AccessSolution::Unsolvable(p) => p.truth() == Truth::False,
        }
    }
}

/// The one capability a consumer subsystem supplies: solving a relational
/// leaf with its own primitive-expression type and its own predicate type.
/// Boolean composition, short-circuiting and the deny-by-default contract
/// come from the shared driver.
pub trait AccessSolver<E, P: AccessPredicate>: Sized {
    /// The verdict a relational leaf denotes, when no reduction faults.
    spec fn leaf_solution(
        &self,
        context: &RequestContext,
        input: Option<&AccessInput>,
        op: &AccessRelationalOp<E>,
    ) -> SolutionV;

    /// Whether solving this leaf faults (the underlying reduction fails).
    spec fn leaf_faults(
        &self,
        context: &RequestContext,
        input: Option<&AccessInput>,
        op: &AccessRelationalOp<E>,
    ) -> bool;

    fn solve_relational_op(
        &self,
        context: &RequestContext,
        input: Option<&AccessInput>,
        op: &AccessRelationalOp<E>,
    ) -> (r: Result<AccessSolution<P>, AccessSolverError>)
        ensures
            r is Err <==> self.leaf_faults(context, input, op),
            r matches Ok(sol) ==> sol.classification() == self.leaf_solution(context, input, op)
                && sol.deny_safe(),
    ;
}

/// The verdict of a whole expression tree: leaves as the adapter classifies
/// them, `Not`/`And`/`Or` combined with deny bias.  An unsolvable child
/// forces an unsolvable conjunction, while a true sibling still decides a
/// disjunction.
pub open spec fn solve_sem<E, P: AccessPredicate, S: AccessSolver<E, P>>(
    solver: &S,
    context: &RequestContext,
    input: Option<&AccessInput>,
    expr: &AccessPredicateExpression<E>,
) -> SolutionV
    decreases expr,
{
    match expr {
        AccessPredicateExpression::BooleanLiteral(b) => SolutionV::Solved(
            if *b {
                Truth::True
            } else {
                Truth::False
            },
        ),
        AccessPredicateExpression::RelationalOp(op) => solver.leaf_solution(context, input, op),
        AccessPredicateExpression::LogicalOp(logical) => match logical {
            AccessLogicalOp::Not(inner) => match solve_sem(solver, context, input, inner) {
                SolutionV::Solved(t) => SolutionV::Solved(truth_not(t)),
                SolutionV::Unsolvable => SolutionV::Unsolvable,
            },
            AccessLogicalOp::And(l, r) => match (
                solve_sem(solver, context, input, l),
                solve_sem(solver, context, input, r),
            ) {
                (SolutionV::Solved(a), SolutionV::Solved(b)) => SolutionV::Solved(truth_and(a, b)),
                _ => SolutionV::Unsolvable,
            },
            AccessLogicalOp::Or(l, r) => match (
                solve_sem(solver, context, input, l),
                solve_sem(solver, context, input, r),
            ) {
                (SolutionV::Solved(a), SolutionV::Solved(b)) => SolutionV::Solved(truth_or(a, b)),
                (SolutionV::Solved(a), SolutionV::Unsolvable) => if a == Truth::True {
                    SolutionV::Solved(Truth::True)
                } else {
                    SolutionV::Unsolvable
                },
                (SolutionV::Unsolvable, SolutionV::Solved(b)) => if b == Truth::True {
                    SolutionV::Solved(Truth::True)
                } else {
                    SolutionV::Unsolvable
                },
                (SolutionV::Unsolvable, SolutionV::Unsolvable) => SolutionV::Unsolvable,
            },
        },
    }
}

/// Whether solving a whole expression tree faults: exactly when the
/// reduction under some relational leaf does.
pub open spec fn solve_faults<E, P: AccessPredicate, S: AccessSolver<E, P>>(
    solver: &S,
    context: &RequestContext,
    input: Option<&AccessInput>,
    expr: &AccessPredicateExpression<E>,
) -> bool
    decreases expr,
{
    match expr {
        AccessPredicateExpression::BooleanLiteral(_) => false,
        AccessPredicateExpression::RelationalOp(op) => solver.leaf_faults(context, input, op),
        AccessPredicateExpression::LogicalOp(logical) => match logical {
            AccessLogicalOp::Not(inner) => solve_faults(solver, context, input, inner),
            AccessLogicalOp::And(l, r) => solve_faults(solver, context, input, l) || solve_faults(
                solver,
                context,
                input,
                r,
            ),
            AccessLogicalOp::Or(l, r) => solve_faults(solver, context, input, l) || solve_faults(
                solver,
                context,
                input,
                r,
            ),
        },
    }
}

/// Solves a compiled access expression against the request context and the
/// optional input under validation.  The result is `Err` exactly when some
/// leaf's reduction faults; otherwise it is the deny-safe outcome that
/// `solve_sem` names, with children evaluated left before right.
pub fn solve<E, P: AccessPredicate, S: AccessSolver<E, P>>(
    solver: &S,
    context: &RequestContext,
    input: Option<&AccessInput>,
    expr: &AccessPredicateExpression<E>,
) -> (r: Result<AccessSolution<P>, AccessSolverError>)
    ensures
        r is Err <==> solve_faults(solver, context, input, expr),
        r matches Ok(sol) ==> sol.classification() == solve_sem(solver, context, input, expr)
            && sol.deny_safe(),
    decreases *expr,
{
    match expr {
        AccessPredicateExpression::BooleanLiteral(b) => Ok(
            AccessSolution::Solved(P::from_bool(*b)),
        ),
        AccessPredicateExpression::RelationalOp(op) => solver.solve_relational_op(
            context,
            input,
            op,
        ),
        AccessPredicateExpression::LogicalOp(logical) => match logical {
            AccessLogicalOp::Not(inner) => {
                let sub = match solve(solver, context, input, inner) {
                    Ok(s) => s,
                    Err(e) => {
                        return Err(e);
                    },
                };
                Ok(
                    match sub {
                        AccessSolution::Solved(p) => AccessSolution::Solved(p.not()),
                        AccessSolution::Unsolvable(p) => AccessSolution::Unsolvable(p),
                    },
                )
            },
            AccessLogicalOp::And(l, r) => {
                let ls = match solve(solver, context, input, l) {
                    Ok(s) => s,
                    Err(e) => {
                        return Err(e);
                    },
                };
                let rs = match solve(solver, context, input, r) {
                    Ok(s) => s,
                    Err(e) => {
                        return Err(e);
                    },
                };
                Ok(
                    match (ls, rs) {
                        (AccessSolution::Solved(a), AccessSolution::Solved(b)) => {
                            AccessSolution::Solved(a.and(b))
                        },
                        _ => AccessSolution::Unsolvable(P::from_bool(false)),
                    },
                )
            },
            AccessLogicalOp::Or(l, r) => {
                let ls = match solve(solver, context, input, l) {
                    Ok(s) => s,
                    Err(e) => {
                        return Err(e);
                    },
                };
                let rs = match solve(solver, context, input, r) {
                    Ok(s) => s,
                    Err(e) => {
                        return Err(e);
                    },
                };
                Ok(
                    match (ls, rs) {
                        (AccessSolution::Solved(a), AccessSolution::Solved(b)) => {
                            AccessSolution::Solved(a.or(b))
                        },
                        (AccessSolution::Solved(a), AccessSolution::Unsolvable(_)) => {
                            if a.is_true() {
                                AccessSolution::Solved(a)
                            } else {
                                AccessSolution::Unsolvable(P::from_bool(false))
                            }
                        },
                        (AccessSolution::Unsolvable(_), AccessSolution::Solved(b)) => {
                            if b.is_true() {
                                AccessSolution::Solved(b)
                            } else {
                                AccessSolution::Unsolvable(P::from_bool(false))
                            }
                        },
                        (AccessSolution::Unsolvable(_), AccessSolution::Unsolvable(_)) => {
                            AccessSolution::Unsolvable(P::from_bool(false))
                        },
                    },
                )
            },
        },
    }
}

/// The module-execution subsystem: its adapter reduces module primitive
/// expressions and answers with the plain module predicate.
pub struct DenoSubsystem {}

impl DenoSubsystem {
    /// The verdict of a module relational leaf: unsolvable as soon as either
    /// operand is not resolvable, otherwise the comparator's answer.
    pub open spec fn module_leaf_solution(
        &self,
        context: &RequestContext,
        input: Option<&AccessInput>,
        op: &AccessRelationalOp<ModuleAccessPrimitiveExpression>,
    ) -> SolutionV {
        match (
            reduce_module_spec(context, input, &op.left()),
            reduce_module_spec(context, input, &op.right()),
        ) {
            (Some(lv), Some(rv)) => SolutionV::Solved(
                if op.compare(lv, rv) {
                    Truth::True
                } else {
                    Truth::False
                },
            ),
            _ => SolutionV::Unsolvable,
        }
    }
}

impl AccessSolver<ModuleAccessPrimitiveExpression, ModuleAccessPredicateWrapper> for DenoSubsystem {
    open spec fn leaf_solution(
        &self,
        context: &RequestContext,
        input: Option<&AccessInput>,
        op: &AccessRelationalOp<ModuleAccessPrimitiveExpression>,
    ) -> SolutionV {
        self.module_leaf_solution(context, input, op)
    }

    open spec fn leaf_faults(
        &self,
        context: &RequestContext,
        input: Option<&AccessInput>,
        op: &AccessRelationalOp<ModuleAccessPrimitiveExpression>,
    ) -> bool {
        reduce_module_faults(context, &op.left()) || reduce_module_faults(context, &op.right())
    }

    /// Solves one relational leaf: reduce the left operand, then the right;
    /// if either is not resolvable the leaf is unsolvable with the
    /// always-false fallback; otherwise apply the matching comparator and
    /// lift its boolean into the module predicate.
    fn solve_relational_op(
        &self,
        context: &RequestContext,
        input: Option<&AccessInput>,
        op: &AccessRelationalOp<ModuleAccessPrimitiveExpression>,
    ) -> (r: Result<AccessSolution<ModuleAccessPredicateWrapper>, AccessSolverError>) {
        let (left, right) = op.sides();
        let left_value = match reduce_module_primitive_expression(context, input, left) {
            Ok(v) => v,
            Err(e) => {
                return Err(e);
            },
        };
        let right_value = match reduce_module_primitive_expression(context, input, right) {
            Ok(v) => v,
            Err(e) => {
                return Err(e);
            },
        };
        Ok(
            match (left_value, right_value) {
                (Some(lv), Some(rv)) => {
                    let verdict = match op {
                        AccessRelationalOp::Eq(_, _) => eq_values(lv, rv),
                        AccessRelationalOp::Neq(_, _) => neq_values(lv, rv),
                        AccessRelationalOp::Lt(_, _) => lt_values(lv, rv),
                        AccessRelationalOp::Lte(_, _) => lte_values(lv, rv),
                        AccessRelationalOp::Gt(_, _) => gt_values(lv, rv),
                        AccessRelationalOp::Gte(_, _) => gte_values(lv, rv),
                        AccessRelationalOp::In(_, _) => in_values(lv, rv),
                    };
                    AccessSolution::Solved(ModuleAccessPredicateWrapper::from_bool(verdict))
                },
                _ => AccessSolution::Unsolvable(
                    ModuleAccessPredicateWrapper(ModuleAccessPredicate::False),
                ),
            },
        )
    }
}

/// Law (deny bias): if either operand of a relational leaf reduces to
/// `None`, the leaf's solution is unsolvable, whichever of the relational
/// ops the leaf carries and whatever the other operand's value.
pub proof fn lemma_leaf_deny_bias(
    solver: &DenoSubsystem,
    context: &RequestContext,
    input: Option<&AccessInput>,
    op: &AccessRelationalOp<ModuleAccessPrimitiveExpression>,
)
    requires
        reduce_module_spec(context, input, &op.left()) is None || reduce_module_spec(
            context,
            input,
            &op.right(),
        ) is None,
    ensures
        solver.module_leaf_solution(context, input, op) == SolutionV::Unsolvable,
{
}

/// Law (determinism): the solver's contract pins the outcome down to a
/// function of the expression, the context and the input; two module
/// solutions with the same classification are the same value, so repeated
/// solving yields identical solutions.
pub proof fn lemma_solution_determined(
    s1: AccessSolution<ModuleAccessPredicateWrapper>,
    s2: AccessSolution<ModuleAccessPredicateWrapper>,
)
    requires
        s1.classification() == s2.classification(),
        s1.deny_safe(),
        s2.deny_safe(),
    ensures
        s1 == s2,
{
}

} // verus!

