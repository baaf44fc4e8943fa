//! The graph of types: a type is a base shape under a set of qualifiers, and
//! pointers, arrays and functions hold the types they are built from.

use vstd::prelude::*;
use vstd::std_specs::convert::FromSpecImpl;
use std::rc::Rc;
use crate::ast::Node;
use crate::classes::FloatClass;
use crate::classes::IntClass;
use crate::classes::MagicType;
use crate::qualifiers::Qualifier;
use crate::qualifiers::Qualifiers;
use crate::tags::EnumRef;
use crate::tags::StructRef;
use crate::tags::UnionRef;

verus! {

/// A shared type node. Nodes are never changed once made, so one node can
/// serve any number of declarations.
pub type TypeRef = Rc<Type>;

/// A type: a base shape and the qualifiers on it.
pub struct Type {
    pub basetype: BaseType,
    pub qualifiers: Qualifiers,
}

/// The shape of a type.
#[derive(Clone)]
pub enum BaseType {
    Void,
    Bool,
    Struct(StructRef),
    Enum(EnumRef),
    Union(UnionRef),
    Float(FloatClass),
    Integer(IntClass),
    MagicType(MagicType),
    Pointer(Rc<Type>),
    Array(Rc<Type>, ArraySize),
    Function(FunctionType),
}

/// The size of an array type.
#[derive(Clone)]
pub enum ArraySize {
    /// No size given, as in `int[]`: the type is incomplete.
    Incomplete,
    /// A size known when the declaration is read.
    Fixed(u64),
    /// A size that is computed when the program runs.
    Expr(ArraySizeExpr),
}

/// The expression for the size of a variable-length array, shared and never
/// evaluated here.
#[derive(Clone)]
pub struct ArraySizeExpr(Rc<Node>);

/// A function type: what it returns, and the type and name of each
/// parameter. The names serve messages and rendering only.
#[derive(Clone)]
pub struct FunctionType {
    pub ret: Rc<Type>,
    pub args: Vec<(Rc<Type>, String)>,
}

impl ArraySizeExpr {
    /// The expression held.
    pub closed spec fn node(self) -> Node {
        *self.0
    }

    /// Takes an expression as the size of an array.
    pub fn new(n: Node) -> (r: Self)
        ensures
            r.node() == n,
    {
        ArraySizeExpr(Rc::new(n))
    }
}

impl std::ops::Deref for ArraySizeExpr {
    type Target = Node;

    fn deref(&self) -> (r: &Node)
        ensures
            *r == self.node(),
    {
        &*self.0
    }
}

impl From<ArraySizeExpr> for ArraySize {
    fn from(v: ArraySizeExpr) -> (r: Self) {
        ArraySize::Expr(v)
    }
}

impl FromSpecImpl<ArraySizeExpr> for ArraySize {
    open spec fn obeys_from_spec() -> bool {
        true
    }

    open spec fn from_spec(v: ArraySizeExpr) -> Self {
        ArraySize::Expr(v)
    }
}

impl Type {
    /// A new node of this shape, without qualifiers.
    pub fn new_ref_bare(basetype: BaseType) -> (r: TypeRef)
        ensures
            r.basetype == basetype,
            r.qualifiers@ == Set::<Qualifier>::empty(),
    {
        Type::new_ref(basetype, Qualifiers::new())
    }

    /// A new node of this shape under these qualifiers. Nothing is checked:
    /// an array of functions can be written down here, and it is for the
    /// parser to refuse it.
    pub fn new_ref(basetype: BaseType, qualifiers: Qualifiers) -> (r: TypeRef)
        ensures
            *r == (Type { basetype, qualifiers }),
    {
        Rc::new(Type { basetype: basetype, qualifiers: qualifiers })
    }
}

} // verus!
