use access_solver::context::{AccessInput, RequestContext};
use access_solver::expression::{
    AccessLogicalOp, AccessPredicateExpression, AccessRelationalOp, CommonAccessPrimitiveExpression,
    ModuleAccessPrimitiveExpression,
};
use access_solver::predicate::{ModuleAccessPredicate, ModuleAccessPredicateWrapper};
use access_solver::solver::{solve, AccessSolution, DenoSubsystem};
use access_solver::value::Value;

type Expr = AccessPredicateExpression<ModuleAccessPrimitiveExpression>;
type RelOp = AccessRelationalOp<ModuleAccessPrimitiveExpression>;
type Solution = AccessSolution<ModuleAccessPredicateWrapper>;

fn s(x: &str) -> String {
    x.to_string()
}

fn ctx_sel(name: &str) -> Box<ModuleAccessPrimitiveExpression> {
    Box::new(ModuleAccessPrimitiveExpression::Common(
        CommonAccessPrimitiveExpression::ContextSelection(s(name)),
    ))
}

fn input_sel(name: &str) -> Box<ModuleAccessPrimitiveExpression> {
    Box::new(ModuleAccessPrimitiveExpression::Common(
        CommonAccessPrimitiveExpression::InputSelection(s(name)),
    ))
}

fn lit(v: Value) -> Box<ModuleAccessPrimitiveExpression> {
    Box::new(ModuleAccessPrimitiveExpression::Common(
        CommonAccessPrimitiveExpression::Literal(v),
    ))
}

fn rel(op: RelOp) -> Expr {
    AccessPredicateExpression::RelationalOp(op)
}

fn context_with(claims: Vec<(&str, Value)>) -> RequestContext {
    RequestContext {
        claims: claims.into_iter().map(|(k, v)| (s(k), v)).collect(),
        failing: Vec::new(),
    }
}

fn is_solved_true(r: &Solution) -> bool {
    matches!(
        r,
        AccessSolution::Solved(ModuleAccessPredicateWrapper(ModuleAccessPredicate::True))
    )
}

fn is_solved_false(r: &Solution) -> bool {
    matches!(
        r,
        AccessSolution::Solved(ModuleAccessPredicateWrapper(ModuleAccessPredicate::False))
    )
}

fn is_unsolvable_false(r: &Solution) -> bool {
    matches!(
        r,
        AccessSolution::Unsolvable(ModuleAccessPredicateWrapper(ModuleAccessPredicate::False))
    )
}

#[test]
fn scenario_owner_match() {
    // context.userId = input.ownerId, both "u1": permit.
    let expr = rel(RelOp::Eq(ctx_sel("userId"), input_sel("ownerId")));
    let context = context_with(vec![("userId", Value::String(s("u1")))]);
    let input = AccessInput {
        value: Value::Object(vec![(s("ownerId"), Value::String(s("u1")))]),
    };
    let r = solve(&DenoSubsystem {}, &context, Some(&input), &expr).unwrap();
    assert!(is_solved_true(&r));
}

#[test]
fn scenario_absent_role() {
    // context.role = "admin" with no role claim: unsolvable, deny-safe.
    let expr = rel(RelOp::Eq(ctx_sel("role"), lit(Value::String(s("admin")))));
    let context = context_with(vec![("userId", Value::String(s("u1")))]);
    let r = solve(&DenoSubsystem {}, &context, None, &expr).unwrap();
    assert!(is_unsolvable_false(&r));
}

#[test]
fn scenario_age_number() {
    // age >= 18 with age = 21 (a number): permit.
    let expr = rel(RelOp::Gte(ctx_sel("age"), lit(Value::Number(18))));
    let context = context_with(vec![("age", Value::Number(21))]);
    let r = solve(&DenoSubsystem {}, &context, None, &expr).unwrap();
    assert!(is_solved_true(&r));
}

#[test]
fn scenario_age_string_vs_number() {
    // age >= 18 with age = "21" (a string against a number): solved false.
    let expr = rel(RelOp::Gte(ctx_sel("age"), lit(Value::Number(18))));
    let context = context_with(vec![("age", Value::String(s("21")))]);
    let r = solve(&DenoSubsystem {}, &context, None, &expr).unwrap();
    assert!(is_solved_false(&r));
}

#[test]
fn scenario_membership() {
    // tags in ["a", "b"]: false for "c", true for "a".
    let list = Value::List(vec![Value::String(s("a")), Value::String(s("b"))]);
    let expr = rel(RelOp::In(ctx_sel("tags"), lit(list)));

    let context = context_with(vec![("tags", Value::String(s("c")))]);
    let r = solve(&DenoSubsystem {}, &context, None, &expr).unwrap();
    assert!(is_solved_false(&r));

    let list2 = Value::List(vec![Value::String(s("a")), Value::String(s("b"))]);
    let expr2 = rel(RelOp::In(ctx_sel("tags"), lit(list2)));
    let context2 = context_with(vec![("tags", Value::String(s("a")))]);
    let r2 = solve(&DenoSubsystem {}, &context2, None, &expr2).unwrap();
    assert!(is_solved_true(&r2));
}

#[test]
fn scenario_or_with_unresolvable_branch() {
    // (context.role = "admin") OR (context.userId = input.ownerId): role is
    // absent but the owner matches, so the whole expression still permits.
    let left = rel(RelOp::Eq(ctx_sel("role"), lit(Value::String(s("admin")))));
    let right = rel(RelOp::Eq(ctx_sel("userId"), input_sel("ownerId")));
    let expr = AccessPredicateExpression::LogicalOp(AccessLogicalOp::Or(
        Box::new(left),
        Box::new(right),
    ));
    let context = context_with(vec![("userId", Value::String(s("u1")))]);
    let input = AccessInput {
        value: Value::Object(vec![(s("ownerId"), Value::String(s("u1")))]),
    };
    let r = solve(&DenoSubsystem {}, &context, Some(&input), &expr).unwrap();
    assert!(is_solved_true(&r));
}

fn make_op(kind: usize, l: Box<ModuleAccessPrimitiveExpression>, r: Box<ModuleAccessPrimitiveExpression>) -> RelOp {
    match kind {
        0 => RelOp::Eq(l, r),
        1 => RelOp::Neq(l, r),
        2 => RelOp::Lt(l, r),
        3 => RelOp::Lte(l, r),
        4 => RelOp::Gt(l, r),
        5 => RelOp::Gte(l, r),
        _ => RelOp::In(l, r),
    }
}

#[test]
fn deny_bias_for_every_op_and_side() {
    // Whatever the relational op and whichever side is unresolvable, the
    // leaf is unsolvable with the always-false fallback.
    let context = context_with(vec![("known", Value::Number(1))]);
    for kind in 0..7 {
        for side in 0..3 {
            let (l, r) = match side {
                0 => (ctx_sel("absent"), lit(Value::Number(1))),
                1 => (lit(Value::Number(1)), ctx_sel("absent")),
                _ => (ctx_sel("absent"), ctx_sel("alsoAbsent")),
            };
            let expr = rel(make_op(kind, l, r));
            let sol = solve(&DenoSubsystem {}, &context, None, &expr).unwrap();
            assert!(is_unsolvable_false(&sol), "op {} side {}", kind, side);
        }
    }
}

fn classify(r: &Solution) -> (bool, bool) {
    (is_solved_true(r), is_solved_false(r))
}

#[test]
fn determinism_same_context_same_solution() {
    let list = Value::List(vec![Value::String(s("a")), Value::String(s("b"))]);
    let expr = AccessPredicateExpression::LogicalOp(AccessLogicalOp::And(
        Box::new(rel(RelOp::In(ctx_sel("tags"), lit(list)))),
        Box::new(rel(RelOp::Lt(ctx_sel("age"), lit(Value::Number(30))))),
    ));
    let context = context_with(vec![
        ("tags", Value::String(s("b"))),
        ("age", Value::Number(21)),
    ]);
    let first = solve(&DenoSubsystem {}, &context, None, &expr).unwrap();
    let second = solve(&DenoSubsystem {}, &context, None, &expr).unwrap();
    assert_eq!(classify(&first), classify(&second));
    assert!(is_solved_true(&first));
}

#[test]
fn reduction_fault_is_an_error_not_a_denial() {
    // A claim whose source faults aborts the check; an absent claim does not.
    let expr = rel(RelOp::Eq(ctx_sel("role"), lit(Value::String(s("admin")))));
    let context = RequestContext {
        claims: Vec::new(),
        failing: vec![s("role")],
    };
    let r = solve(&DenoSubsystem {}, &context, None, &expr);
    match r {
        Err(e) => assert_eq!(e.claim, s("role")),
        Ok(_) => panic!("a faulting claim must surface as an error"),
    }
}

#[test]
fn input_reference_without_input_is_unsolvable() {
    let expr = rel(RelOp::Eq(input_sel("ownerId"), lit(Value::String(s("u1")))));
    let context = context_with(vec![]);
    let r = solve(&DenoSubsystem {}, &context, None, &expr).unwrap();
    assert!(is_unsolvable_false(&r));
}

#[test]
fn input_reference_into_a_non_object_is_unsolvable() {
    let expr = rel(RelOp::Eq(input_sel("ownerId"), lit(Value::String(s("u1")))));
    let context = context_with(vec![]);
    let input = AccessInput {
        value: Value::String(s("not an object")),
    };
    let r = solve(&DenoSubsystem {}, &context, Some(&input), &expr).unwrap();
    assert!(is_unsolvable_false(&r));
}

#[test]
fn unconsulted_failing_claim_does_not_fault() {
    // A claim whose source would fault only matters when the rule reads it.
    let expr = rel(RelOp::Eq(ctx_sel("userId"), lit(Value::String(s("u1")))));
    let context = RequestContext {
        claims: vec![(s("userId"), Value::String(s("u1")))],
        failing: vec![s("role")],
    };
    let r = solve(&DenoSubsystem {}, &context, None, &expr).unwrap();
    assert!(is_solved_true(&r));
}

#[test]
fn boolean_literals_and_connectives() {
    let t = AccessPredicateExpression::<ModuleAccessPrimitiveExpression>::BooleanLiteral(true);
    let f = AccessPredicateExpression::<ModuleAccessPrimitiveExpression>::BooleanLiteral(false);
    let context = context_with(vec![]);

    let r = solve(&DenoSubsystem {}, &context, None, &t).unwrap();
    assert!(is_solved_true(&r));

    let not_f = AccessPredicateExpression::LogicalOp(AccessLogicalOp::Not(Box::new(f)));
    let r2 = solve(&DenoSubsystem {}, &context, None, &not_f).unwrap();
    assert!(is_solved_true(&r2));

    let f2 = AccessPredicateExpression::<ModuleAccessPrimitiveExpression>::BooleanLiteral(false);
    let t2 = AccessPredicateExpression::<ModuleAccessPrimitiveExpression>::BooleanLiteral(true);
    let and = AccessPredicateExpression::LogicalOp(AccessLogicalOp::And(
        Box::new(t2),
        Box::new(f2),
    ));
    let r3 = solve(&DenoSubsystem {}, &context, None, &and).unwrap();
    assert!(is_solved_false(&r3));
}

#[test]
fn unsolvable_conjunct_forces_unsolvable() {
    // Even a true sibling cannot rescue a conjunction with an unresolvable
    // child: the deny bias keeps it unsolvable.
    let t = AccessPredicateExpression::<ModuleAccessPrimitiveExpression>::BooleanLiteral(true);
    let leaf = rel(RelOp::Eq(ctx_sel("absent"), lit(Value::Number(1))));
    let and = AccessPredicateExpression::LogicalOp(AccessLogicalOp::And(
        Box::new(t),
        Box::new(leaf),
    ));
    let context = context_with(vec![]);
    let r = solve(&DenoSubsystem {}, &context, None, &and).unwrap();
    assert!(is_unsolvable_false(&r));
}

#[test]
fn negation_of_unsolvable_stays_deny_safe() {
    let leaf = rel(RelOp::Eq(ctx_sel("absent"), lit(Value::Number(1))));
    let not = AccessPredicateExpression::LogicalOp(AccessLogicalOp::Not(Box::new(leaf)));
    let context = context_with(vec![]);
    let r = solve(&DenoSubsystem {}, &context, None, &not).unwrap();
    assert!(is_unsolvable_false(&r));
}

#[test]
fn operand_order_is_preserved() {
    // 3 < 5 is true while 5 < 3 is false: the sides are not interchangeable.
    let context = context_with(vec![]);
    let lt = rel(RelOp::Lt(lit(Value::Number(3)), lit(Value::Number(5))));
    let r = solve(&DenoSubsystem {}, &context, None, &lt).unwrap();
    assert!(is_solved_true(&r));

    let lt2 = rel(RelOp::Lt(lit(Value::Number(5)), lit(Value::Number(3))));
    let r2 = solve(&DenoSubsystem {}, &context, None, &lt2).unwrap();
    assert!(is_solved_false(&r2));
}

#[test]
fn membership_in_a_non_list_is_false() {
    let context = context_with(vec![]);
    let expr = rel(RelOp::In(
        lit(Value::String(s("a"))),
        lit(Value::String(s("a"))),
    ));
    let r = solve(&DenoSubsystem {}, &context, None, &expr).unwrap();
    assert!(is_solved_false(&r));
}
