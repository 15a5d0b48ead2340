//! The field-shape description consumed by schema presentation: a base type
//! with nullability and list modifiers, and the parameter capability that
//! introspection reads.  Conversion into a concrete schema syntax lives with
//! the presentation layer; the shape itself and what is read from it are
//! plain data.

use vstd::prelude::*;

verus! {

/// How a type use modifies its base: as a list, as non-null, or as optional.
pub enum TypeModifier {
    List,
    NonNull,
    Optional,
}

/// A field-shape description: a base type plus nullability.
pub struct Type {
    pub base: BaseType,
    pub nullable: bool,
}

/// The base of a type: a named leaf, or a list of some inner type.
pub enum BaseType {
    Leaf(String),
    List(Box<Type>),
}

impl BaseType {
    /// The name of the leaf at the bottom of a (possibly nested) list type.
    pub open spec fn innermost_spec(&self) -> Seq<char>
        decreases self,
    {
        match self {
            BaseType::Leaf(name) => name@,
            BaseType::List(inner) => inner.base.innermost_spec(),
        }
    }

    /// How many list layers wrap the leaf.
    pub open spec fn depth(&self) -> nat
        decreases self,
    {
        match self {
            BaseType::Leaf(_) => 0,
            BaseType::List(inner) => 1 + inner.base.depth(),
        }
    }
}

/// The name of the innermost leaf type: a list's element name, however
/// deeply the lists nest.
pub fn innermost_typename(typ: &Type) -> (r: &str)
    ensures
        r@ == typ.base.innermost_spec(),
    decreases typ.base,
{
    match &typ.base {
        BaseType::Leaf(name) => name.as_str(),
        BaseType::List(inner) => innermost_typename(inner),
    }
}

/// A validation constraint attached to a parameter's type.
pub enum TypeValidation {
    IntRange { min: i64, max: i64 },
}

/// An introspection parameter: a name, a type shape, and an optional
/// validation constraint.
pub trait Parameter {
    /// Name of the parameter.
    fn name(&self) -> &str;

    /// Type of the parameter.
    fn typ(&self) -> Type;

    /// Validation attached to the parameter's type, if any.
    fn type_validation(&self) -> Option<TypeValidation>;
}

} // verus!
