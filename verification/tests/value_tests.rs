use access_solver::value::{
    eq_values, gt_values, gte_values, in_values, lt_values, lte_values, neq_values, Value,
};

fn s(x: &str) -> String {
    x.to_string()
}

#[test]
fn equality_is_complement_of_inequality() {
    let pairs = vec![
        (Value::Null, Value::Null),
        (Value::Bool(true), Value::Bool(true)),
        (Value::Bool(true), Value::Bool(false)),
        (Value::Number(3), Value::Number(3)),
        (Value::Number(3), Value::Number(4)),
        (Value::String(s("a")), Value::String(s("a"))),
        (Value::String(s("a")), Value::String(s("b"))),
        (Value::Number(3), Value::String(s("3"))),
    ];
    for (a, b) in &pairs {
        assert_eq!(eq_values(a, b), !neq_values(a, b));
    }
}

#[test]
fn trichotomy_on_ordered_kinds() {
    let pairs = vec![
        (Value::Number(1), Value::Number(2)),
        (Value::Number(2), Value::Number(2)),
        (Value::Number(3), Value::Number(2)),
        (Value::String(s("ab")), Value::String(s("abc"))),
        (Value::String(s("abc")), Value::String(s("abc"))),
        (Value::String(s("abd")), Value::String(s("abc"))),
    ];
    for (a, b) in &pairs {
        let holds = [lt_values(a, b), eq_values(a, b), gt_values(a, b)];
        assert_eq!(holds.iter().filter(|h| **h).count(), 1);
    }
}

#[test]
fn ordering_across_kinds_is_false() {
    let a = Value::String(s("21"));
    let b = Value::Number(18);
    assert!(!lt_values(&a, &b));
    assert!(!lte_values(&a, &b));
    assert!(!gt_values(&a, &b));
    assert!(!gte_values(&a, &b));
    let c = Value::Bool(true);
    let d = Value::Bool(true);
    assert!(eq_values(&c, &d));
    assert!(!lt_values(&c, &d));
    assert!(!lte_values(&c, &d));
}

#[test]
fn lexicographic_string_order() {
    let ab = Value::String(s("ab"));
    let abc = Value::String(s("abc"));
    let abd = Value::String(s("abd"));
    assert!(lt_values(&ab, &abc));
    assert!(lt_values(&abc, &abd));
    assert!(!lt_values(&abd, &abc));
    assert!(lte_values(&abc, &abc));
    assert!(gte_values(&abd, &abc));
    assert!(gt_values(&abd, &ab));
}

#[test]
fn deep_equality_on_lists_and_objects() {
    let l1 = Value::List(vec![Value::Number(1), Value::String(s("x"))]);
    let l2 = Value::List(vec![Value::Number(1), Value::String(s("x"))]);
    let l3 = Value::List(vec![Value::Number(1), Value::String(s("y"))]);
    assert!(eq_values(&l1, &l2));
    assert!(!eq_values(&l1, &l3));

    let o1 = Value::Object(vec![(s("a"), Value::Number(1)), (s("b"), Value::Bool(true))]);
    let o2 = Value::Object(vec![(s("b"), Value::Bool(true)), (s("a"), Value::Number(1))]);
    let o3 = Value::Object(vec![(s("a"), Value::Number(2)), (s("b"), Value::Bool(true))]);
    assert!(eq_values(&o1, &o2));
    assert!(!eq_values(&o1, &o3));
}

#[test]
fn membership_uses_deep_equality() {
    let needle = Value::List(vec![Value::Number(1)]);
    let hay = Value::List(vec![
        Value::List(vec![Value::Number(2)]),
        Value::List(vec![Value::Number(1)]),
    ]);
    assert!(in_values(&needle, &hay));
    let hay2 = Value::List(vec![Value::List(vec![Value::Number(2)])]);
    assert!(!in_values(&needle, &hay2));
}

#[test]
fn equality_is_reflexive_and_symmetric() {
    let values = vec![
        Value::Null,
        Value::Bool(false),
        Value::Number(-7),
        Value::String(s("abc")),
        Value::List(vec![Value::Number(1), Value::Null]),
        Value::Object(vec![(s("a"), Value::Number(1)), (s("b"), Value::Bool(true))]),
    ];
    for v in &values {
        assert!(eq_values(v, v));
    }
    let o1 = Value::Object(vec![(s("a"), Value::Number(1)), (s("b"), Value::Bool(true))]);
    let o2 = Value::Object(vec![(s("b"), Value::Bool(true)), (s("a"), Value::Number(1))]);
    assert_eq!(eq_values(&o1, &o2), eq_values(&o2, &o1));
    assert!(eq_values(&o1, &o2));
}

#[test]
fn non_strict_order_is_strict_order_or_equality() {
    let pairs = vec![
        (Value::Number(1), Value::Number(2)),
        (Value::Number(2), Value::Number(2)),
        (Value::Number(3), Value::Number(2)),
        (Value::String(s("ab")), Value::String(s("abc"))),
        (Value::String(s("abc")), Value::String(s("abc"))),
        (Value::String(s("abd")), Value::String(s("abc"))),
    ];
    for (a, b) in &pairs {
        assert_eq!(lte_values(a, b), lt_values(a, b) || eq_values(a, b));
    }
}

#[test]
fn equality_of_mismatched_kinds_is_false_not_an_error() {
    let cases = vec![
        (Value::Null, Value::Bool(false)),
        (Value::Number(0), Value::String(s("0"))),
        (Value::List(vec![]), Value::Object(vec![])),
    ];
    for (a, b) in &cases {
        assert!(!eq_values(a, b));
        assert!(neq_values(a, b));
    }
}
