//! The predicate algebra: a boolean algebra over subsystem-supplied
//! predicate types, tolerant of residual (not yet concrete) terms.

use vstd::prelude::*;

verus! {

/// The three conceptual classifications of a predicate: provably true,
/// provably false, or residual — a term whose truth is deferred to a later
/// evaluation stage.
#[derive(Clone, Copy, PartialEq, Eq, Structural, Debug)]
pub enum Truth {
    True,
    False,
    Residual,
}

/// Negation over classifications: a residual term stays residual.
pub open spec fn truth_not(t: Truth) -> Truth {
    match t {
        Truth::True => Truth::False,
        Truth::False => Truth::True,
        Truth::Residual => Truth::Residual,
    }
}

/// Conjunction over classifications: false dominates, truth is neutral, and
/// anything else remains residual.
pub open spec fn truth_and(a: Truth, b: Truth) -> Truth {
    if a == Truth::False || b == Truth::False {
        Truth::False
    } else if a == Truth::True && b == Truth::True {
        Truth::True
    } else {
        Truth::Residual
    }
}

/// Disjunction over classifications: truth dominates, falsity is neutral,
/// and anything else remains residual.
pub open spec fn truth_or(a: Truth, b: Truth) -> Truth {
    if a == Truth::True || b == Truth::True {
        Truth::True
    } else if a == Truth::False && b == Truth::False {
        Truth::False
    } else {
        Truth::Residual
    }
}

/// The capability a subsystem's predicate type must supply to take part in
/// solving: a classification, the three boolean connectives and the lift
/// from a concrete boolean.
pub trait AccessPredicate: Sized {
    /// The classification this predicate value denotes.
    spec fn truth(&self) -> Truth;

    fn and(self, other: Self) -> (r: Self)
        ensures
            r.truth() == truth_and(self.truth(), other.truth()),
    ;

    fn or(self, other: Self) -> (r: Self)
        ensures
            r.truth() == truth_or(self.truth(), other.truth()),
    ;

    fn not(self) -> (r: Self)
        ensures
            r.truth() == truth_not(self.truth()),
    ;

    fn is_true(&self) -> (r: bool)
        ensures
            r == (self.truth() == Truth::True),
    ;

    fn is_false(&self) -> (r: bool)
        ensures
            r == (self.truth() == Truth::False),
    ;

    fn from_bool(value: bool) -> (r: Self)
        ensures
            r.truth() == (if value {
                Truth::True
            } else {
                Truth::False
            }),
    ;
}

/// Law: negation is involutive.
pub proof fn lemma_not_involutive(t: Truth)
    ensures
        truth_not(truth_not(t)) == t,
{
}

/// Law: truth is neutral for conjunction.
pub proof fn lemma_and_true_neutral(t: Truth)
    ensures
        truth_and(t, Truth::True) == t,
{
}

/// Law: falsity is neutral for disjunction.
pub proof fn lemma_or_false_neutral(t: Truth)
    ensures
        truth_or(t, Truth::False) == t,
{
}

/// Law: falsity annihilates conjunction.
pub proof fn lemma_and_false_annihilates(t: Truth)
    ensures
        truth_and(t, Truth::False) == Truth::False,
{
}

/// Law: truth annihilates disjunction.
pub proof fn lemma_or_true_annihilates(t: Truth)
    ensures
        truth_or(t, Truth::True) == Truth::True,
{
}

/// The module-execution subsystem's predicate: a plain verdict with no
/// residual form, since an in-process check either passes or fails.
#[derive(Clone, Copy, PartialEq, Eq, Structural, Debug)]
pub enum ModuleAccessPredicate {
    True,
    False,
}

impl ModuleAccessPredicate {
    /// The boolean this predicate denotes.
    pub open spec fn as_bool(self) -> bool {
        self is True
    }

    pub fn not(self) -> (r: Self)
        ensures
            r.as_bool() == !self.as_bool(),
    {
        match self {
            ModuleAccessPredicate::True => ModuleAccessPredicate::False,
            ModuleAccessPredicate::False => ModuleAccessPredicate::True,
        }
    }

    pub fn from_bool(value: bool) -> (r: Self)
        ensures
            r.as_bool() == value,
    {
        if value {
            ModuleAccessPredicate::True
        } else {
            ModuleAccessPredicate::False
        }
    }
}

/// Local algebra carrier for the module predicate, so the shared solver can
/// drive it through the `AccessPredicate` capability.
#[derive(Clone, Copy, PartialEq, Eq, Structural, Debug)]
pub struct ModuleAccessPredicateWrapper(pub ModuleAccessPredicate);

impl AccessPredicate for ModuleAccessPredicateWrapper {
    /// A module predicate is always concrete: never residual.
    open spec fn truth(&self) -> Truth {
        if self.0.as_bool() {
            Truth::True
        } else {
            Truth::False
        }
    }

    fn and(self, other: Self) -> (r: Self) {
        ModuleAccessPredicateWrapper(
            ModuleAccessPredicate::from_bool(self.0.as_bool_exec() && other.0.as_bool_exec()),
        )
    }

    fn or(self, other: Self) -> (r: Self) {
        ModuleAccessPredicateWrapper(
            ModuleAccessPredicate::from_bool(self.0.as_bool_exec() || other.0.as_bool_exec()),
        )
    }

    fn not(self) -> (r: Self) {
        ModuleAccessPredicateWrapper(self.0.not())
    }

    fn is_true(&self) -> (r: bool) {
        matches!(self.0, ModuleAccessPredicate::True)
    }

    fn is_false(&self) -> (r: bool) {
        matches!(self.0, ModuleAccessPredicate::False)
    }

    fn from_bool(value: bool) -> (r: Self) {
        ModuleAccessPredicateWrapper(ModuleAccessPredicate::from_bool(value))
    }
}

impl ModuleAccessPredicate {
    /// The boolean this predicate denotes, as runnable code.
    pub fn as_bool_exec(self) -> (r: bool)
        ensures
            r == self.as_bool(),
    {
        matches!(self, ModuleAccessPredicate::True)
    }
}

impl From<bool> for ModuleAccessPredicate {
    /// Lifts a concrete boolean into the predicate's true/false forms.
    fn from(value: bool) -> (r: Self) {
        ModuleAccessPredicate::from_bool(value)
    }
}

impl vstd::std_specs::convert::FromSpecImpl<bool> for ModuleAccessPredicate {
    open spec fn obeys_from_spec() -> bool {
        true
    }

    open spec fn from_spec(value: bool) -> Self {
        if value {
            ModuleAccessPredicate::True
        } else {
            ModuleAccessPredicate::False
        }
    }
}

impl From<bool> for ModuleAccessPredicateWrapper {
    /// Lifts a concrete boolean into the wrapper's true/false predicates.
    fn from(value: bool) -> (r: Self) {
        ModuleAccessPredicateWrapper(ModuleAccessPredicate::from_bool(value))
    }
}

impl vstd::std_specs::convert::FromSpecImpl<bool> for ModuleAccessPredicateWrapper {
    open spec fn obeys_from_spec() -> bool {
        true
    }

    open spec fn from_spec(value: bool) -> Self {
        ModuleAccessPredicateWrapper(
            if value {
                ModuleAccessPredicate::True
            } else {
                ModuleAccessPredicate::False
            },
        )
    }
}

/// A module predicate's classification determines it: the algebra laws over
/// classifications therefore carry over to the wrapper values themselves.
pub proof fn lemma_wrapper_truth_determines(a: ModuleAccessPredicateWrapper, b: ModuleAccessPredicateWrapper)
    requires
        a.truth() == b.truth(),
    ensures
        a == b,
{
}

} // verus!
