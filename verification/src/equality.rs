//! When two types are the same type.
//!
//! Two types are compared part by part, and a later part is looked at only
//! where every earlier one was found equal. Tags are compared by identity.
//! Function types are compared by what they return, by the number of their
//! parameters, and by the base type of each parameter: neither the name of a
//! parameter nor the qualifiers on it belong to the function's type. Two
//! array sizes that are both expressions cannot be compared here; a
//! comparison that comes to such a pair has no answer.

use vstd::prelude::*;
use vstd::std_specs::cmp::PartialEqSpec;
use std::rc::Rc;
use crate::tags::enum_made_with;
use crate::tags::struct_made_with;
use crate::tags::union_made_with;
use crate::tags::EnumRef;
use crate::tags::StructRef;
use crate::tags::UnionRef;
use crate::types::ArraySize;
use crate::types::BaseType;
use crate::types::FunctionType;
use crate::types::Type;

verus! {

/// Two comparisons made one after the other: the second counts only where
/// the first found equality, and a first one without an answer leaves the
/// whole without one.
pub open spec fn and_then(first: Option<bool>, second: Option<bool>) -> Option<bool> {
    match first {
        Some(true) => second,
        _ => first,
    }
}

/// The comparison of two parameter lists of the same length, from parameter
/// `from` on: base type against base type, in order, up to the first pair
/// that is not equal.
pub open spec fn params_equality(
    a: Seq<(Rc<Type>, String)>,
    b: Seq<(Rc<Type>, String)>,
    from: int,
) -> Option<bool>
    decreases a, a.len() - from,
{
    if 0 <= from < a.len() {
        and_then(a[from].0.basetype.equality(b[from].0.basetype), params_equality(a, b, from + 1))
    } else {
        Some(true)
    }
}

impl ArraySize {
    /// Whether two sizes are the same: sizes of different kinds never are,
    /// two fixed sizes are when the numbers are, and for two expressions
    /// there is no answer.
    pub open spec fn equality(self, other: ArraySize) -> Option<bool> {
        match (self, other) {
            (ArraySize::Incomplete, ArraySize::Incomplete) => Some(true),
            (ArraySize::Fixed(a), ArraySize::Fixed(b)) => Some(a == b),
            (ArraySize::Expr(_), ArraySize::Expr(_)) => None,
            _ => Some(false),
        }
    }

    /// Compares two sizes; `None` where both are expressions.
    pub fn try_eq(&self, other: &ArraySize) -> (r: Option<bool>)
        ensures
            r == self.equality(*other),
    {
        match (self, other) {
            (ArraySize::Incomplete, ArraySize::Incomplete) => Some(true),
            (ArraySize::Fixed(a), ArraySize::Fixed(b)) => Some(*a == *b),
            (ArraySize::Expr(_), ArraySize::Expr(_)) => None,
            _ => Some(false),
        }
    }

    /// Whether two sizes are the same. Two expressions cannot be compared.
    pub fn eq(&self, other: &ArraySize) -> (r: bool)
        requires
            self.equality(*other) is Some,
        ensures
            Some(r) == self.equality(*other),
    {
        match self.try_eq(other) {
            Some(r) => r,
            None => false,
        }
    }
}

impl Type {
    /// Whether two types are the same: the base types are, and then the
    /// qualifiers are.
    pub open spec fn equality(self, other: Type) -> Option<bool>
        decreases self,
    {
        and_then(
            self.basetype.equality(other.basetype),
            Some(self.qualifiers@ == other.qualifiers@),
        )
    }

    /// Compares two types; `None` where the comparison comes to two array
    /// sizes that are both expressions.
    pub fn try_eq(&self, other: &Type) -> (r: Option<bool>)
        ensures
            r == self.equality(*other),
        decreases self,
    {
        match self.basetype.try_eq(&other.basetype) {
            Some(true) => Some(self.qualifiers == other.qualifiers),
            r => r,
        }
    }

    /// Whether two types are the same. The comparison must not come to two
    /// array sizes that are both expressions.
    pub fn eq(&self, other: &Type) -> (r: bool)
        requires
            self.equality(*other) is Some,
        ensures
            Some(r) == self.equality(*other),
    {
        match self.try_eq(other) {
            Some(r) => r,
            None => false,
        }
    }
}

impl BaseType {
    /// Whether two base types are the same: the same variant, and then tags
    /// by identity, classes by value, and pointers, arrays and functions by
    /// what they are built from.
    pub open spec fn equality(self, other: BaseType) -> Option<bool>
        decreases self,
    {
        match (self, other) {
            (BaseType::Void, BaseType::Void) => Some(true),
            (BaseType::Bool, BaseType::Bool) => Some(true),
            (BaseType::Struct(a), BaseType::Struct(b)) => Some(a == b),
            (BaseType::Enum(a), BaseType::Enum(b)) => Some(a == b),
            (BaseType::Union(a), BaseType::Union(b)) => Some(a == b),
            (BaseType::Float(a), BaseType::Float(b)) => Some(a == b),
            (BaseType::Integer(a), BaseType::Integer(b)) => Some(a == b),
            (BaseType::MagicType(a), BaseType::MagicType(b)) => Some(a.same(b)),
            (BaseType::Pointer(a), BaseType::Pointer(b)) => a.equality(*b),
            (BaseType::Array(a, n), BaseType::Array(b, m)) => and_then(
                a.equality(*b),
                n.equality(m),
            ),
            (BaseType::Function(f), BaseType::Function(g)) => f.equality(g),
            _ => Some(false),
        }
    }

    /// Compares two base types; `None` where the comparison comes to two
    /// array sizes that are both expressions.
    pub fn try_eq(&self, other: &BaseType) -> (r: Option<bool>)
        ensures
            r == self.equality(*other),
        decreases self,
    {
        match (self, other) {
            (BaseType::Void, BaseType::Void) => Some(true),
            (BaseType::Bool, BaseType::Bool) => Some(true),
            (BaseType::Struct(a), BaseType::Struct(b)) => Some(*a == *b),
            (BaseType::Enum(a), BaseType::Enum(b)) => Some(*a == *b),
            (BaseType::Union(a), BaseType::Union(b)) => Some(*a == *b),
            (BaseType::Float(a), BaseType::Float(b)) => Some(*a == *b),
            (BaseType::Integer(a), BaseType::Integer(b)) => Some(*a == *b),
            (BaseType::MagicType(a), BaseType::MagicType(b)) => Some(*a == *b),
            (BaseType::Pointer(a), BaseType::Pointer(b)) => a.try_eq(b),
            (BaseType::Array(a, n), BaseType::Array(b, m)) => match a.try_eq(b) {
                Some(true) => n.try_eq(m),
                r => r,
            },
            (BaseType::Function(f), BaseType::Function(g)) => f.try_eq(g),
            _ => Some(false),
        }
    }

    /// Whether two base types are the same. The comparison must not come to
    /// two array sizes that are both expressions.
    pub fn eq(&self, other: &BaseType) -> (r: bool)
        requires
            self.equality(*other) is Some,
        ensures
            Some(r) == self.equality(*other),
    {
        match self.try_eq(other) {
            Some(r) => r,
            None => false,
        }
    }
}

impl FunctionType {
    /// Whether two function types are the same: what they return is, then
    /// they have as many parameters, then the parameters' base types are,
    /// pair by pair.
    pub open spec fn equality(self, other: FunctionType) -> Option<bool>
        decreases self,
    {
        and_then(
            self.ret.equality(*other.ret),
            if self.args@.len() == other.args@.len() {
                params_equality(self.args@, other.args@, 0)
            } else {
                Some(false)
            },
        )
    }

    /// Compares two function types; `None` where the comparison comes to two
    /// array sizes that are both expressions.
    pub fn try_eq(&self, other: &FunctionType) -> (r: Option<bool>)
        ensures
            r == self.equality(*other),
        decreases self,
    {
        match self.ret.try_eq(&other.ret) {
            Some(true) => {},
            r => {
                return r;
            },
        }
        if self.args.len() != other.args.len() {
            return Some(false);
        }
        let mut i: usize = 0;
        while i < self.args.len()
            invariant
                i <= self.args.len(),
                self.args.len() == other.args.len(),
                self.ret.equality(*other.ret) == Some(true),
                params_equality(self.args@, other.args@, 0) == params_equality(
                    self.args@,
                    other.args@,
                    i as int,
                ),
            decreases self.args.len() - i,
        {
            match self.args[i].0.basetype.try_eq(&other.args[i].0.basetype) {
                Some(true) => {},
                r => {
                    return r;
                },
            }
            i += 1;
        }
        Some(true)
    }

    /// Whether two function types are the same. The comparison must not come
    /// to two array sizes that are both expressions.
    pub fn eq(&self, other: &FunctionType) -> (r: bool)
        requires
            self.equality(*other) is Some,
        ensures
            Some(r) == self.equality(*other),
    {
        match self.try_eq(other) {
            Some(r) => r,
            None => false,
        }
    }
}

/// Two parameter lists are equal from `from` on exactly when every pair of
/// base types from there on is.
proof fn lemma_params_equal(a: Seq<(Rc<Type>, String)>, b: Seq<(Rc<Type>, String)>, from: int)
    requires
        0 <= from <= a.len(),
    ensures
        params_equality(a, b, from) == Some(true) <==> forall|i: int|
            from <= i < a.len() ==> (#[trigger] a[i]).0.basetype.equality(b[i].0.basetype) == Some(
                true,
            ),
    decreases a.len() - from,
{
    if from < a.len() {
        lemma_params_equal(a, b, from + 1);
    }
}

/// The comparison of two parameter lists reads the base types alone.
proof fn lemma_params_by_base_type(
    a: Seq<(Rc<Type>, String)>,
    b: Seq<(Rc<Type>, String)>,
    c: Seq<(Rc<Type>, String)>,
    from: int,
)
    requires
        0 <= from <= a.len(),
        a.len() == b.len(),
        a.len() == c.len(),
        forall|i: int| 0 <= i < a.len() ==> (#[trigger] a[i]).0.basetype == b[i].0.basetype,
    ensures
        params_equality(a, c, from) == params_equality(b, c, from),
        params_equality(c, a, from) == params_equality(c, b, from),
    decreases a.len() - from,
{
    if from < a.len() {
        assert(a[from].0.basetype == b[from].0.basetype);
        lemma_params_by_base_type(a, b, c, from + 1);
    }
}

/// Function types are equal exactly when what they return is equal, they
/// have as many parameters, and the base types of the parameters are equal
/// pair by pair, in order.
pub proof fn lemma_function_types_equal(f: FunctionType, g: FunctionType)
    ensures
        f.equality(g) == Some(true) <==> {
            &&& f.ret.equality(*g.ret) == Some(true)
            &&& f.args@.len() == g.args@.len()
            &&& forall|i: int|
                0 <= i < f.args@.len() ==> (#[trigger] f.args@[i]).0.basetype.equality(
                    g.args@[i].0.basetype,
                ) == Some(true)
        },
{
    lemma_params_equal(f.args@, g.args@, 0);
}

/// Function types with different numbers of parameters are not equal.
pub proof fn lemma_arity_matters(f: FunctionType, g: FunctionType)
    requires
        f.args@.len() != g.args@.len(),
    ensures
        f.equality(g) != Some(true),
        f.equality(g) == Some(false) <==> f.ret.equality(*g.ret) is Some,
{
}

/// Neither the names of the parameters nor the qualifiers on them take part
/// in the comparison of function types: two function types that return the
/// same and whose parameters have the same base types, pair by pair, compare
/// alike with every function type, and so with each other as each does with
/// itself.
pub proof fn lemma_parameter_names_and_qualifiers_are_ignored(
    f: FunctionType,
    g: FunctionType,
    h: FunctionType,
)
    requires
        f.ret == g.ret,
        f.args@.len() == g.args@.len(),
        forall|i: int|
            0 <= i < f.args@.len() ==> (#[trigger] f.args@[i]).0.basetype == g.args@[i].0.basetype,
    ensures
        f.equality(h) == g.equality(h),
        h.equality(f) == h.equality(g),
        f.equality(g) == f.equality(f),
        f.equality(g) != Some(false),
{
    if f.args@.len() == h.args@.len() {
        lemma_params_by_base_type(f.args@, g.args@, h.args@, 0);
    }
    lemma_params_by_base_type(f.args@, g.args@, f.args@, 0);
    lemma_function_equality_is_reflexive(f);
}

/// Qualifiers count wherever a whole type is compared: two types under
/// different qualifiers are not equal, nor are pointers to them, nor arrays
/// of them.
pub proof fn lemma_qualifiers_matter(a: Rc<Type>, b: Rc<Type>, n: ArraySize, m: ArraySize)
    requires
        a.qualifiers@ != b.qualifiers@,
    ensures
        a.equality(*b) != Some(true),
        BaseType::Pointer(a).equality(BaseType::Pointer(b)) != Some(true),
        BaseType::Array(a, n).equality(BaseType::Array(b, m)) != Some(true),
{
}

/// Two arrays of fixed size are equal exactly when their elements are and
/// the sizes are the same number.
pub proof fn lemma_fixed_arrays_equal(a: Rc<Type>, b: Rc<Type>, n: u64, m: u64)
    ensures
        BaseType::Array(a, ArraySize::Fixed(n)).equality(BaseType::Array(b, ArraySize::Fixed(m)))
            == and_then(a.equality(*b), Some(n == m)),
{
}

/// The type behind a shared node.
spec fn target(a: Rc<Type>) -> Type {
    *a
}

/// The base type of parameter `i`.
spec fn base_at(a: Seq<(Rc<Type>, String)>, i: int) -> BaseType {
    a[i].0.basetype
}

/// No type is unequal to itself: a comparison of a type with itself finds
/// equality wherever it has an answer.
pub proof fn lemma_equality_is_reflexive(t: Type)
    ensures
        t.equality(t) != Some(false),
    decreases t,
{
    lemma_base_equality_is_reflexive(t.basetype);
}

/// No base type is unequal to itself.
pub proof fn lemma_base_equality_is_reflexive(b: BaseType)
    ensures
        b.equality(b) != Some(false),
    decreases b,
{
    match b {
        BaseType::Pointer(a) => lemma_equality_is_reflexive(target(a)),
        BaseType::Array(a, _) => lemma_equality_is_reflexive(target(a)),
        BaseType::Function(f) => lemma_function_equality_is_reflexive(f),
        _ => {},
    }
}

/// No function type is unequal to itself.
pub proof fn lemma_function_equality_is_reflexive(f: FunctionType)
    ensures
        f.equality(f) != Some(false),
    decreases f,
{
    lemma_equality_is_reflexive(target(f.ret));
    lemma_params_equality_is_reflexive(f.args@, 0);
}

proof fn lemma_params_equality_is_reflexive(a: Seq<(Rc<Type>, String)>, from: int)
    ensures
        params_equality(a, a, from) != Some(false),
    decreases a, a.len() - from,
{
    if 0 <= from < a.len() {
        lemma_base_equality_is_reflexive(base_at(a, from));
        lemma_params_equality_is_reflexive(a, from + 1);
    }
}

/// The order of the two sides does not matter.
pub proof fn lemma_equality_is_symmetric(t: Type, u: Type)
    ensures
        t.equality(u) == u.equality(t),
    decreases t,
{
    lemma_base_equality_is_symmetric(t.basetype, u.basetype);
}

/// The order of the two sides does not matter.
pub proof fn lemma_base_equality_is_symmetric(b: BaseType, c: BaseType)
    ensures
        b.equality(c) == c.equality(b),
    decreases b,
{
    match (b, c) {
        (BaseType::Pointer(a), BaseType::Pointer(d)) => lemma_equality_is_symmetric(target(a), target(d)),
        (BaseType::Array(a, _), BaseType::Array(d, _)) => lemma_equality_is_symmetric(target(a), target(d)),
        (BaseType::Function(f), BaseType::Function(g)) => lemma_function_equality_is_symmetric(
            f,
            g,
        ),
        _ => {},
    }
}

/// The order of the two sides does not matter.
pub proof fn lemma_function_equality_is_symmetric(f: FunctionType, g: FunctionType)
    ensures
        f.equality(g) == g.equality(f),
    decreases f,
{
    lemma_equality_is_symmetric(target(f.ret), target(g.ret));
    if f.args@.len() == g.args@.len() {
        lemma_params_equality_is_symmetric(f.args@, g.args@, 0);
    }
}

proof fn lemma_params_equality_is_symmetric(
    a: Seq<(Rc<Type>, String)>,
    b: Seq<(Rc<Type>, String)>,
    from: int,
)
    requires
        a.len() == b.len(),
    ensures
        params_equality(a, b, from) == params_equality(b, a, from),
    decreases a, a.len() - from,
{
    if 0 <= from < a.len() {
        lemma_base_equality_is_symmetric(base_at(a, from), base_at(b, from));
        lemma_params_equality_is_symmetric(a, b, from + 1);
    }
}

/// Whether none of these parameters holds an array sized by an expression.
pub open spec fn params_expression_free(a: Seq<(Rc<Type>, String)>) -> bool
    decreases a,
{
    forall|i: int| 0 <= i < a.len() ==> (#[trigger] a[i]).0.expression_free()
}

impl Type {
    /// Whether no array in the type is sized by an expression.
    pub open spec fn expression_free(self) -> bool
        decreases self,
    {
        self.basetype.expression_free()
    }
}

impl BaseType {
    /// Whether no array in the base type is sized by an expression.
    pub open spec fn expression_free(self) -> bool
        decreases self,
    {
        match self {
            BaseType::Pointer(t) => t.expression_free(),
            BaseType::Array(t, n) => t.expression_free() && !(n is Expr),
            BaseType::Function(f) => f.expression_free(),
            _ => true,
        }
    }
}

impl FunctionType {
    /// Whether no array in what the function returns or takes is sized by an
    /// expression.
    pub open spec fn expression_free(self) -> bool
        decreases self,
    {
        self.ret.expression_free() && params_expression_free(self.args@)
    }
}

/// A type without arrays sized by an expression can be compared with every
/// type, from either side.
pub proof fn lemma_expression_free_types_compare(t: Type, u: Type)
    requires
        t.expression_free(),
    ensures
        t.equality(u) is Some,
        u.equality(t) is Some,
    decreases t,
{
    lemma_expression_free_base_types_compare(base_at_top(t), base_at_top(u));
}

/// A base type without arrays sized by an expression can be compared with
/// every base type, from either side.
pub proof fn lemma_expression_free_base_types_compare(b: BaseType, c: BaseType)
    requires
        b.expression_free(),
    ensures
        b.equality(c) is Some,
        c.equality(b) is Some,
    decreases b,
{
    lemma_base_equality_is_symmetric(b, c);
    match (b, c) {
        (BaseType::Pointer(a), BaseType::Pointer(d)) => lemma_expression_free_types_compare(
            target(a),
            target(d),
        ),
        (BaseType::Array(a, _), BaseType::Array(d, _)) => lemma_expression_free_types_compare(
            target(a),
            target(d),
        ),
        (
            BaseType::Function(f),
            BaseType::Function(g),
        ) => lemma_expression_free_function_types_compare(f, g),
        _ => {},
    }
}

/// A function type without arrays sized by an expression can be compared
/// with every function type, from either side.
pub proof fn lemma_expression_free_function_types_compare(f: FunctionType, g: FunctionType)
    requires
        f.expression_free(),
    ensures
        f.equality(g) is Some,
        g.equality(f) is Some,
    decreases f,
{
    lemma_function_equality_is_symmetric(f, g);
    lemma_expression_free_types_compare(target(f.ret), target(g.ret));
    if f.args@.len() == g.args@.len() {
        lemma_expression_free_params_compare(f.args@, g.args@, 0);
    }
}

proof fn lemma_expression_free_params_compare(
    a: Seq<(Rc<Type>, String)>,
    b: Seq<(Rc<Type>, String)>,
    from: int,
)
    requires
        params_expression_free(a),
    ensures
        params_equality(a, b, from) is Some,
    decreases a, a.len() - from,
{
    if 0 <= from < a.len() {
        assert(a[from].0.expression_free());
        lemma_expression_free_base_types_compare(base_at(a, from), base_at(b, from));
        lemma_expression_free_params_compare(a, b, from + 1);
    }
}

/// The base type of a type.
spec fn base_at_top(t: Type) -> BaseType {
    t.basetype
}

/// A clone of a struct handle is the same tag: it is equal to the handle
/// it was cloned from, whichever side it stands on, and was made with the
/// same record. Equality of handles is an equivalence.
pub proof fn lemma_struct_clone_is_same_tag(a: StructRef, b: StructRef, c: StructRef)
    ensures
        cloned::<StructRef>(a, b) ==> a.eq_spec(&b) && b.eq_spec(&a),
        a.eq_spec(&a),
        a.eq_spec(&b) == b.eq_spec(&a),
        a.eq_spec(&b) && b.eq_spec(&c) ==> a.eq_spec(&c),
        a.eq_spec(&b) ==> struct_made_with(a) == struct_made_with(b),
{
}

/// A clone of a union handle is the same tag: it is equal to the handle
/// it was cloned from, whichever side it stands on, and was made with the
/// same record. Equality of handles is an equivalence.
pub proof fn lemma_union_clone_is_same_tag(a: UnionRef, b: UnionRef, c: UnionRef)
    ensures
        cloned::<UnionRef>(a, b) ==> a.eq_spec(&b) && b.eq_spec(&a),
        a.eq_spec(&a),
        a.eq_spec(&b) == b.eq_spec(&a),
        a.eq_spec(&b) && b.eq_spec(&c) ==> a.eq_spec(&c),
        a.eq_spec(&b) ==> union_made_with(a) == union_made_with(b),
{
}

/// A clone of a enum handle is the same tag: it is equal to the handle
/// it was cloned from, whichever side it stands on, and was made with the
/// same record. Equality of handles is an equivalence.
pub proof fn lemma_enum_clone_is_same_tag(a: EnumRef, b: EnumRef, c: EnumRef)
    ensures
        cloned::<EnumRef>(a, b) ==> a.eq_spec(&b) && b.eq_spec(&a),
        a.eq_spec(&a),
        a.eq_spec(&b) == b.eq_spec(&a),
        a.eq_spec(&b) && b.eq_spec(&c) ==> a.eq_spec(&c),
        a.eq_spec(&b) ==> enum_made_with(a) == enum_made_with(b),
{
}

} // verus!
