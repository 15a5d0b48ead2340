//! The per-request context and the primitive-expression reducer.
//!
//! Reduction is pure and context-scoped: it never mutates the context and
//! returns `None` exactly when the referenced datum is not determinable in
//! this evaluation pass.  A claim whose underlying source faulted is kept
//! apart from one that is merely absent: the former is an error, the latter
//! is the ordinary "not yet known" outcome.

use vstd::prelude::*;

use crate::expression::{CommonAccessPrimitiveExpression, ModuleAccessPrimitiveExpression};
use crate::value::Value;

verus! {

/// A read-only view over the claims of one request.  `claims` binds claim
/// names to resolved values; `failing` names the claims whose underlying
/// source faults when consulted (a transport failure, a malformed token).
pub struct RequestContext {
    pub claims: Vec<(String, Value)>,
    pub failing: Vec<String>,
}

/// The value under validation for field- or mutation-level checks: the
/// "input" side of a comparison is what is being written, not the context.
pub struct AccessInput {
    pub value: Value,
}

/// First binding of `key` among `entries`, if any.
pub open spec fn lookup_spec(entries: Seq<(String, Value)>, key: Seq<char>) -> Option<Value>
    decreases entries.len(),
{
    if entries.len() == 0 {
        None
    } else if entries[0].0@ == key {
        Some(entries[0].1)
    } else {
        lookup_spec(entries.skip(1), key)
    }
}

/// Whether `names` holds `name`.
pub open spec fn contains_name(names: Seq<String>, name: Seq<char>) -> bool {
    exists|i: int| 0 <= i < names.len() && names[i]@ == name
}

impl RequestContext {
    /// What a claim reference reduces to: the bound value, or nothing when
    /// the claim is absent from this request.
    pub open spec fn claim_spec(&self, key: Seq<char>) -> Option<Value> {
        lookup_spec(self.claims@, key)
    }

    /// Whether consulting `key` faults instead of answering.
    pub open spec fn claim_faults(&self, key: Seq<char>) -> bool {
        contains_name(self.failing@, key)
    }
}

impl AccessInput {
    /// What an input-field reference reduces to: the field's value when the
    /// input is an object that binds it, nothing otherwise.
    pub open spec fn field_spec(&self, key: Seq<char>) -> Option<Value> {
        match self.value {
            Value::Object(entries) => lookup_spec(entries@, key),
            _ => None,
        }
    }
}

/// Executable lookup of the first binding of `key`; returns a reference to
/// exactly what `lookup_spec` names.
fn lookup<'a>(entries: &'a Vec<(String, Value)>, key: &String) -> (r: Option<&'a Value>)
    ensures
        match r {
            Some(v) => lookup_spec(entries@, key@) == Some(*v),
            None => lookup_spec(entries@, key@) is None,
        },
{
    proof {
        assert(entries@.skip(0) =~= entries@);
    }
    let mut i: usize = 0;
    while i < entries.len()
        invariant
            0 <= i <= entries@.len(),
            lookup_spec(entries@, key@) == lookup_spec(entries@.skip(i as int), key@),
        decreases entries@.len() - i,
    {
        if entries[i].0 == *key {
            proof {
                assert(entries@.skip(i as int)[0] == entries@[i as int]);
            }
            return Some(&entries[i].1);
        }
        proof {
            assert(entries@.skip(i as int)[0] == entries@[i as int]);
            assert(entries@.skip(i as int).skip(1) =~= entries@.skip(i as int + 1));
        }
        i = i + 1;
    }
    proof {
        assert(entries@.skip(i as int).len() == 0);
    }
    None
}

/// Executable membership among the failing claim names.
fn name_in(names: &Vec<String>, name: &String) -> (r: bool)
    ensures
        r == contains_name(names@, name@),
{
    let mut i: usize = 0;
    while i < names.len()
        invariant
            0 <= i <= names@.len(),
            forall|k: int| 0 <= k < i ==> (#[trigger] names@[k])@ != name@,
        decreases names@.len() - i,
    {
        if names[i] == *name {
            return true;
        }
        i = i + 1;
    }
    false
}

/// The fault reported when a claim's underlying source fails: the access
/// check as a whole fails, so that callers can tell "denied by policy" from
/// "could not evaluate policy".
#[derive(Debug)]
pub struct AccessSolverError {
    pub claim: String,
}

/// What a common primitive expression reduces to against `context` and
/// `input`, when its reduction does not fault.
pub open spec fn reduce_common_spec(
    context: &RequestContext,
    input: Option<&AccessInput>,
    expr: &CommonAccessPrimitiveExpression,
) -> Option<Value> {
    match expr {
        CommonAccessPrimitiveExpression::Literal(v) => Some(*v),
        CommonAccessPrimitiveExpression::ContextSelection(key) => context.claim_spec(key@),
        CommonAccessPrimitiveExpression::InputSelection(key) => match input {
            Some(inp) => inp.field_spec(key@),
            None => None,
        },
    }
}

/// Whether reducing a common primitive expression faults.
pub open spec fn reduce_common_faults(
    context: &RequestContext,
    expr: &CommonAccessPrimitiveExpression,
) -> bool {
    match expr {
        CommonAccessPrimitiveExpression::ContextSelection(key) => context.claim_faults(key@),
        _ => false,
    }
}

/// Reduces a common primitive expression: a literal is itself; a context
/// claim is read from the request context, faulting when its source does;
/// an input field is read from the value under validation.
pub fn reduce_common_primitive_expression<'a>(
    context: &'a RequestContext,
    input: Option<&'a AccessInput>,
    expr: &'a CommonAccessPrimitiveExpression,
) -> (r: Result<Option<&'a Value>, AccessSolverError>)
    ensures
        r is Err <==> reduce_common_faults(context, expr),
        r matches Ok(v) ==> match v {
            Some(inner) => reduce_common_spec(context, input, expr) == Some(*inner),
            None => reduce_common_spec(context, input, expr) is None,
        },
{
    match expr {
        CommonAccessPrimitiveExpression::Literal(v) => Ok(Some(v)),
        CommonAccessPrimitiveExpression::ContextSelection(key) => {
            if name_in(&context.failing, key) {
                Err(AccessSolverError { claim: key.clone() })
            } else {
                match lookup(&context.claims, key) {
                    Some(v) => Ok(Some(v)),
                    None => Ok(None),
                }
            }
        },
        CommonAccessPrimitiveExpression::InputSelection(key) => match input {
            Some(inp) => match &inp.value {
                Value::Object(entries) => match lookup(entries, key) {
                    Some(v) => Ok(Some(v)),
                    None => Ok(None),
                },
                _ => Ok(None),
            },
            None => Ok(None),
        },
    }
}

/// What a module primitive expression reduces to: the module vocabulary only
/// wraps the common one.
pub open spec fn reduce_module_spec(
    context: &RequestContext,
    input: Option<&AccessInput>,
    expr: &ModuleAccessPrimitiveExpression,
) -> Option<Value> {
    match expr {
        ModuleAccessPrimitiveExpression::Common(common) => reduce_common_spec(
            context,
            input,
            common,
        ),
    }
}

/// Whether reducing a module primitive expression faults.
pub open spec fn reduce_module_faults(
    context: &RequestContext,
    expr: &ModuleAccessPrimitiveExpression,
) -> bool {
    match expr {
        ModuleAccessPrimitiveExpression::Common(common) => reduce_common_faults(context, common),
    }
}

/// Reduces a module primitive expression by delegating to the common
/// reducer.
pub fn reduce_module_primitive_expression<'a>(
    context: &'a RequestContext,
    input: Option<&'a AccessInput>,
    expr: &'a ModuleAccessPrimitiveExpression,
) -> (r: Result<Option<&'a Value>, AccessSolverError>)
    ensures
        r is Err <==> reduce_module_faults(context, expr),
        r matches Ok(v) ==> match v {
            Some(inner) => reduce_module_spec(context, input, expr) == Some(*inner),
            None => reduce_module_spec(context, input, expr) is None,
        },
{
    match expr {
        ModuleAccessPrimitiveExpression::Common(common) => reduce_common_primitive_expression(
            context,
            input,
            common,
        ),
    }
}

} // verus!
