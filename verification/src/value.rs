//! The runtime value model shared by context lookups and comparators.

use vstd::prelude::*;

verus! {

/// A runtime value: the common currency of context claims, input fields and
/// rule literals.  Immutable once produced.
pub enum Value {
    Null,
    Bool(bool),
    Number(i64),
    String(String),
    List(Vec<Value>),
    Object(Vec<(String, Value)>),
}

/// Structural equality of two values.  Values of different kinds are never
/// equal; lists are equal element by element; objects are equal when they
/// bind the same number of keys and each side's bindings all occur on the
/// other side.
pub open spec fn val_eq(a: Value, b: Value) -> bool
    decreases a, 0int,
{
    match (a, b) {
        (Value::Null, Value::Null) => true,
        (Value::Bool(x), Value::Bool(y)) => x == y,
        (Value::Number(x), Value::Number(y)) => x == y,
        (Value::String(x), Value::String(y)) => x@ == y@,
        (Value::List(x), Value::List(y)) => {
            &&& x@.len() == y@.len()
            &&& forall|i: int| 0 <= i < x@.len() ==> val_eq(#[trigger] x@[i], y@[i])
        },
        (Value::Object(x), Value::Object(y)) => {
            &&& x@.len() == y@.len()
            &&& forall|i: int| 0 <= i < x@.len() ==> obj_has(y@, #[trigger] x@[i])
            &&& forall|j: int| 0 <= j < y@.len() ==> obj_has_rev(x@, #[trigger] y@[j])
        },
        _ => false,
    }
}

/// Whether the object entries `entries` contain a binding with the key of
/// `pair` and a value equal to the value of `pair`; `pair` supplies the left
/// side of the element comparison.
pub open spec fn obj_has(entries: Seq<(String, Value)>, pair: (String, Value)) -> bool
    decreases pair, 1int,
{
    exists|j: int|
        0 <= j < entries.len() && (#[trigger] entries[j]).0@ == pair.0@ && val_eq(
            pair.1,
            entries[j].1,
        )
}

/// Whether the object entries `entries` contain a binding with the key of
/// `pair` and a value equal to the value of `pair`; here `entries` supplies
/// the left side of the element comparison.
pub open spec fn obj_has_rev(entries: Seq<(String, Value)>, pair: (String, Value)) -> bool
    decreases entries, 1int,
{
    exists|i: int|
        0 <= i < entries.len() && (#[trigger] entries[i]).0@ == pair.0@ && val_eq(
            entries[i].1,
            pair.1,
        )
}

/// Executable structural equality; returns exactly `val_eq`.
pub fn eq_values(a: &Value, b: &Value) -> (r: bool)
    ensures
        r == val_eq(*a, *b),
    decreases *a, 0int,
{
    match (a, b) {
        (Value::Null, Value::Null) => true,
        (Value::Bool(x), Value::Bool(y)) => *x == *y,
        (Value::Number(x), Value::Number(y)) => *x == *y,
        (Value::String(x), Value::String(y)) => *x == *y,
        (Value::List(x), Value::List(y)) => {
            if x.len() != y.len() {
                return false;
            }
            let mut i: usize = 0;
            while i < x.len()
                invariant
                    0 <= i <= x@.len(),
                    x@.len() == y@.len(),
                    *a == Value::List(*x),
                    *b == Value::List(*y),
                    forall|k: int| 0 <= k < i ==> val_eq(#[trigger] x@[k], y@[k]),
                decreases x@.len() - i,
            {
                proof {
                    assert(decreases_to!(*a => a->List_0));
                    assert(decreases_to!(a->List_0 => a->List_0@));
                    assert(decreases_to!(a->List_0@ => a->List_0@[i as int]));
                    assert(a->List_0@[i as int] == x@[i as int]);
                }
                if !eq_values(&x[i], &y[i]) {
                    proof {
                        assert(a->List_0 == *x);
                        assert(b->List_0 == *y);
                        assert(!val_eq(a->List_0@[i as int], b->List_0@[i as int]));
                    }
                    return false;
                }
                i = i + 1;
            }
            true
        },
        (Value::Object(x), Value::Object(y)) => {
            if x.len() != y.len() {
                return false;
            }
            let mut i: usize = 0;
            while i < x.len()
                invariant
                    0 <= i <= x@.len(),
                    x@.len() == y@.len(),
                    *a == Value::Object(*x),
                    *b == Value::Object(*y),
                    forall|k: int| 0 <= k < i ==> obj_has(y@, #[trigger] x@[k]),
                decreases x@.len() - i,
            {
                proof {
                    assert(decreases_to!(*a => a->Object_0));
                    assert(decreases_to!(a->Object_0 => a->Object_0@));
                    assert(decreases_to!(a->Object_0@ => a->Object_0@[i as int]));
                    assert(decreases_to!(a->Object_0@[i as int] => a->Object_0@[i as int].1));
                    assert(a->Object_0@[i as int] == x@[i as int]);
                }
                if !obj_contains(y, &x[i].0, &x[i].1) {
                    proof {
                        assert(a->Object_0 == *x);
                        assert(b->Object_0 == *y);
                        assert(!obj_has(b->Object_0@, a->Object_0@[i as int]));
                    }
                    return false;
                }
                i = i + 1;
            }
            let mut j: usize = 0;
            while j < y.len()
                invariant
                    0 <= j <= y@.len(),
                    x@.len() == y@.len(),
                    *a == Value::Object(*x),
                    *b == Value::Object(*y),
                    forall|k: int| 0 <= k < x@.len() ==> obj_has(y@, #[trigger] x@[k]),
                    forall|k: int| 0 <= k < j ==> obj_has_rev(x@, #[trigger] y@[k]),
                decreases y@.len() - j,
            {
                proof {
                    assert(decreases_to!(*a => a->Object_0));
                    assert(a->Object_0 == *x);
                }
                if !obj_contains_rev(x, &y[j].0, &y[j].1) {
                    proof {
                        assert(b->Object_0 == *y);
                        assert(!obj_has_rev(a->Object_0@, b->Object_0@[j as int]));
                    }
                    return false;
                }
                j = j + 1;
            }
            true
        },
        _ => false,
    }
}

/// Strict lexicographic order on character sequences: a proper prefix comes
/// first, otherwise the first differing character decides.
pub open spec fn lex_lt(a: Seq<char>, b: Seq<char>) -> bool
    decreases a.len(),
{
    if b.len() == 0 {
        false
    } else if a.len() == 0 {
        true
    } else if (a[0] as u32) < (b[0] as u32) {
        true
    } else if (a[0] as u32) > (b[0] as u32) {
        false
    } else {
        lex_lt(a.skip(1), b.skip(1))
    }
}

/// Strict order on values: defined only between two numbers or two strings
/// (lexicographically); any other pairing is unordered and yields false.
pub open spec fn val_lt(a: Value, b: Value) -> bool {
    match (a, b) {
        (Value::Number(x), Value::Number(y)) => x < y,
        (Value::String(x), Value::String(y)) => lex_lt(x@, y@),
        _ => false,
    }
}

/// Non-strict order on values: order or equality between two numbers or two
/// strings; false for every other pairing.
pub open spec fn val_lte(a: Value, b: Value) -> bool {
    match (a, b) {
        (Value::Number(x), Value::Number(y)) => x <= y,
        (Value::String(x), Value::String(y)) => lex_lt(x@, y@) || x@ == y@,
        _ => false,
    }
}

/// Membership: true exactly when `b` is a list with an element equal to `a`.
/// A right operand that is not a list yields false, never a fault.
pub open spec fn val_in(a: Value, b: Value) -> bool {
    match b {
        Value::List(l) => exists|i: int| 0 <= i < l@.len() && val_eq(a, #[trigger] l@[i]),
        _ => false,
    }
}

/// Whether `entries` holds a binding for `key` whose value equals `value`.
fn obj_contains(entries: &Vec<(String, Value)>, key: &String, value: &Value) -> (r: bool)
    ensures
        r == obj_has(entries@, (*key, *value)),
    decreases *value, 1int,
{
    let mut j: usize = 0;
    while j < entries.len()
        invariant
            0 <= j <= entries@.len(),
            forall|k: int|
                0 <= k < j ==> !((#[trigger] entries@[k]).0@ == key@ && val_eq(
                    *value,
                    entries@[k].1,
                )),
        decreases entries@.len() - j,
    {
        if entries[j].0 == *key {
            if eq_values(value, &entries[j].1) {
                return true;
            }
        }
        j = j + 1;
    }
    false
}

/// Whether `entries` holds a binding for `key` whose value equals `value`,
/// comparing with the stored value on the left.
fn obj_contains_rev(entries: &Vec<(String, Value)>, key: &String, value: &Value) -> (r: bool)
    ensures
        r == obj_has_rev(entries@, (*key, *value)),
    decreases *entries, 1int,
{
    let mut i: usize = 0;
    while i < entries.len()
        invariant
            0 <= i <= entries@.len(),
            forall|k: int|
                0 <= k < i ==> !((#[trigger] entries@[k]).0@ == key@ && val_eq(
                    entries@[k].1,
                    *value,
                )),
        decreases entries@.len() - i,
    {
        proof {
            assert(decreases_to!(*entries => entries@));
            assert(decreases_to!(entries@ => entries@[i as int]));
            assert(decreases_to!(entries@[i as int] => entries@[i as int].1));
        }
        if entries[i].0 == *key {
            if eq_values(&entries[i].1, value) {
                return true;
            }
        }
        i = i + 1;
    }
    false
}

/// Executable inequality; the exact complement of `eq_values`.
pub fn neq_values(a: &Value, b: &Value) -> (r: bool)
    ensures
        r == !val_eq(*a, *b),
{
    !eq_values(a, b)
}

/// Reducing a lexicographic comparison to the remainders after an equal
/// prefix: as long as the first `i` characters agree, the order of the whole
/// sequences is the order of what follows them.
proof fn lemma_lex_skip(a: Seq<char>, b: Seq<char>, i: int)
    requires
        0 <= i <= a.len(),
        i <= b.len(),
        forall|k: int| 0 <= k < i ==> a[k] == b[k],
    ensures
        lex_lt(a, b) == lex_lt(a.skip(i), b.skip(i)),
    decreases i,
{
    if i > 0 {
        assert(a.len() > 0 && b.len() > 0);
        assert(a[0] == b[0]);
        lemma_lex_skip(a.skip(1), b.skip(1), i - 1);
        assert(a.skip(1).skip(i - 1) =~= a.skip(i));
        assert(b.skip(1).skip(i - 1) =~= b.skip(i));
    } else {
        assert(a.skip(0) =~= a);
        assert(b.skip(0) =~= b);
    }
}

/// Executable lexicographic comparison of two strings.
fn str_lt(a: &String, b: &String) -> (r: bool)
    ensures
        r == lex_lt(a@, b@),
{
    let sa = a.as_str();
    let sb = b.as_str();
    let alen = sa.unicode_len();
    let blen = sb.unicode_len();
    let mut i: usize = 0;
    loop
        invariant
            0 <= i <= alen,
            i <= blen,
            alen == a@.len(),
            blen == b@.len(),
            sa@ == a@,
            sb@ == b@,
            forall|k: int| 0 <= k < i ==> a@[k] == b@[k],
        decreases alen - i,
    {
        if i >= blen {
            proof {
                lemma_lex_skip(a@, b@, i as int);
            }
            return false;
        }
        if i >= alen {
            proof {
                lemma_lex_skip(a@, b@, i as int);
            }
            return true;
        }
        let ca = sa.get_char(i);
        let cb = sb.get_char(i);
        if ca as u32 != cb as u32 {
            proof {
                lemma_lex_skip(a@, b@, i as int);
                assert(a@.skip(i as int)[0] == a@[i as int]);
                assert(b@.skip(i as int)[0] == b@[i as int]);
            }
            return (ca as u32) < (cb as u32);
        }
        i = i + 1;
    }
}

/// Executable strict order; returns exactly `val_lt`.
pub fn lt_values(a: &Value, b: &Value) -> (r: bool)
    ensures
        r == val_lt(*a, *b),
{
    match (a, b) {
        (Value::Number(x), Value::Number(y)) => *x < *y,
        (Value::String(x), Value::String(y)) => str_lt(x, y),
        _ => false,
    }
}

/// Executable non-strict order; returns exactly `val_lte`.
pub fn lte_values(a: &Value, b: &Value) -> (r: bool)
    ensures
        r == val_lte(*a, *b),
{
    match (a, b) {
        (Value::Number(x), Value::Number(y)) => *x <= *y,
        (Value::String(x), Value::String(y)) => str_lt(x, y) || *x == *y,
        _ => false,
    }
}

/// Executable strict order, reversed; returns exactly `val_lt(b, a)`.
pub fn gt_values(a: &Value, b: &Value) -> (r: bool)
    ensures
        r == val_lt(*b, *a),
{
    lt_values(b, a)
}

/// Executable non-strict order, reversed; returns exactly `val_lte(b, a)`.
pub fn gte_values(a: &Value, b: &Value) -> (r: bool)
    ensures
        r == val_lte(*b, *a),
{
    lte_values(b, a)
}

/// Executable membership; returns exactly `val_in`.  The right operand is
/// interpreted as a list; any other kind yields false.
pub fn in_values(a: &Value, b: &Value) -> (r: bool)
    ensures
        r == val_in(*a, *b),
{
    match b {
        Value::List(l) => {
            let mut i: usize = 0;
            while i < l.len()
                invariant
                    0 <= i <= l@.len(),
                    *b == Value::List(*l),
                    forall|k: int| 0 <= k < i ==> !val_eq(*a, #[trigger] l@[k]),
                decreases l@.len() - i,
            {
                if eq_values(a, &l[i]) {
                    proof {
                        assert(b->List_0 == *l);
                        assert(val_eq(*a, b->List_0@[i as int]));
                    }
                    return true;
                }
                i = i + 1;
            }
            false
        },
        _ => false,
    }
}

/// Inequality of two values, as the comparators use it.
pub open spec fn val_neq(a: Value, b: Value) -> bool {
    !val_eq(a, b)
}

/// Law: equality is exactly the complement of inequality, for every pair of
/// values.
pub proof fn lemma_eq_is_not_neq(a: Value, b: Value)
    ensures
        val_eq(a, b) == !val_neq(a, b),
{
}

/// Trichotomy of the lexicographic order: of `lex_lt(a, b)`, `a == b` and
/// `lex_lt(b, a)`, exactly one holds.
proof fn lemma_lex_trichotomy(a: Seq<char>, b: Seq<char>)
    ensures
        lex_lt(a, b) || lex_lt(b, a) || a == b,
        lex_lt(a, b) ==> !lex_lt(b, a) && a != b,
        lex_lt(b, a) ==> a != b,
    decreases a.len(),
{
    if b.len() == 0 {
        if a.len() == 0 {
            assert(a =~= b);
        }
    } else if a.len() == 0 {
        assert(a != b);
    } else if (a[0] as u32) != (b[0] as u32) {
        assert(a[0] != b[0]);
    } else {
        lemma_lex_trichotomy(a.skip(1), b.skip(1));
        vstd::utf8::char_u32_cast(a[0], a[0] as u32);
        vstd::utf8::char_u32_cast(b[0], b[0] as u32);
        assert(a[0] == b[0]);
        if a.skip(1) == b.skip(1) && a.len() == b.len() {
            assert(a =~= b) by {
                assert(forall|k: int|
                    1 <= k < a.len() ==> #[trigger] a[k] == a.skip(1)[k - 1] && b[k] == b.skip(
                        1,
                    )[k - 1]);
            }
        }
        if a == b {
            assert(a.skip(1) == b.skip(1));
        }
        if a.len() != b.len() {
            assert(a != b);
        }
    }
}

/// Equality of values is reflexive: every value equals itself.
pub proof fn lemma_val_eq_reflexive(a: Value)
    ensures
        val_eq(a, a),
    decreases a,
{
    match a {
        Value::List(l) => {
            assert forall|i: int| 0 <= i < l@.len() implies val_eq(#[trigger] l@[i], l@[i]) by {
                assert(decreases_to!(a => a->List_0));
                assert(decreases_to!(a->List_0 => a->List_0@));
                assert(decreases_to!(a->List_0@ => a->List_0@[i]));
                assert(a->List_0@[i] == l@[i]);
                lemma_val_eq_reflexive(l@[i]);
            }
        },
        Value::Object(o) => {
            assert forall|i: int|
                0 <= i < o@.len() implies obj_has(o@, #[trigger] o@[i]) && obj_has_rev(
                o@,
                o@[i],
            ) by {
                assert(decreases_to!(a => a->Object_0));
                assert(decreases_to!(a->Object_0 => a->Object_0@));
                assert(decreases_to!(a->Object_0@ => a->Object_0@[i]));
                assert(decreases_to!(a->Object_0@[i] => a->Object_0@[i].1));
                assert(a->Object_0@[i] == o@[i]);
                lemma_val_eq_reflexive(o@[i].1);
                assert((o@[i]).0@ == (o@[i]).0@ && val_eq(o@[i].1, o@[i].1));
            }
        },
        _ => {},
    }
}

/// Equality of values is symmetric, in both the order of the comparison and
/// its result.
pub proof fn lemma_val_eq_symmetric(a: Value, b: Value)
    ensures
        val_eq(a, b) == val_eq(b, a),
    decreases a, b,
{
    if val_eq(a, b) {
        lemma_val_eq_one_way(a, b);
    }
    if val_eq(b, a) {
        lemma_val_eq_one_way(b, a);
    }
}

/// One direction of symmetry: if `a` equals `b` then `b` equals `a`.
proof fn lemma_val_eq_one_way(a: Value, b: Value)
    requires
        val_eq(a, b),
    ensures
        val_eq(b, a),
    decreases a,
{
    match (a, b) {
        (Value::List(x), Value::List(y)) => {
            assert forall|i: int| 0 <= i < y@.len() implies val_eq(#[trigger] y@[i], x@[i]) by {
                assert(decreases_to!(a => a->List_0));
                assert(decreases_to!(a->List_0 => a->List_0@));
                assert(decreases_to!(a->List_0@ => a->List_0@[i]));
                assert(a->List_0@[i] == x@[i]);
                assert(val_eq(x@[i], y@[i]));
                lemma_val_eq_one_way(x@[i], y@[i]);
            }
        },
        (Value::Object(x), Value::Object(y)) => {
            assert forall|j: int| 0 <= j < y@.len() implies obj_has(x@, #[trigger] y@[j]) by {
                assert(obj_has_rev(x@, y@[j]));
                let i = choose|i: int|
                    0 <= i < x@.len() && (#[trigger] x@[i]).0@ == y@[j].0@ && val_eq(
                        x@[i].1,
                        y@[j].1,
                    );
                assert(decreases_to!(a => a->Object_0));
                assert(decreases_to!(a->Object_0 => a->Object_0@));
                assert(decreases_to!(a->Object_0@ => a->Object_0@[i]));
                assert(decreases_to!(a->Object_0@[i] => a->Object_0@[i].1));
                assert(a->Object_0@[i] == x@[i]);
                lemma_val_eq_one_way(x@[i].1, y@[j].1);
                assert((x@[i]).0@ == (y@[j]).0@ && val_eq(y@[j].1, x@[i].1));
            }
            assert forall|i: int| 0 <= i < x@.len() implies obj_has_rev(y@, #[trigger] x@[i]) by {
                assert(obj_has(y@, x@[i]));
                let j = choose|j: int|
                    0 <= j < y@.len() && (#[trigger] y@[j]).0@ == x@[i].0@ && val_eq(
                        x@[i].1,
                        y@[j].1,
                    );
                assert(decreases_to!(a => a->Object_0));
                assert(decreases_to!(a->Object_0 => a->Object_0@));
                assert(decreases_to!(a->Object_0@ => a->Object_0@[i]));
                assert(decreases_to!(a->Object_0@[i] => a->Object_0@[i].1));
                assert(a->Object_0@[i] == x@[i]);
                lemma_val_eq_one_way(x@[i].1, y@[j].1);
                assert((y@[j]).0@ == (x@[i]).0@ && val_eq(y@[j].1, x@[i].1));
            }
        },
        _ => {},
    }
}

/// Law: for values of an ordered kind, the non-strict order is exactly the
/// strict order or equality.
pub proof fn lemma_lte_is_lt_or_eq(a: Value, b: Value)
    requires
        ordered_kind(a, b),
    ensures
        val_lte(a, b) == (val_lt(a, b) || val_eq(a, b)),
{
}

/// Whether two values are of an ordered kind: both numbers or both strings.
pub open spec fn ordered_kind(a: Value, b: Value) -> bool {
    ||| (a is Number && b is Number)
    ||| (a is String && b is String)
}

/// Law: for values of an ordered kind, exactly one of `val_lt(a, b)`,
/// `val_eq(a, b)` and `val_lt(b, a)` holds.
pub proof fn lemma_ordered_trichotomy(a: Value, b: Value)
    requires
        ordered_kind(a, b),
    ensures
        val_lt(a, b) || val_eq(a, b) || val_lt(b, a),
        val_lt(a, b) ==> !val_eq(a, b) && !val_lt(b, a),
        val_eq(a, b) ==> !val_lt(a, b) && !val_lt(b, a),
        val_lt(b, a) ==> !val_eq(a, b) && !val_lt(a, b),
{
    if a is String {
        lemma_lex_trichotomy(a->String_0@, b->String_0@);
    }
}

} // verus!

