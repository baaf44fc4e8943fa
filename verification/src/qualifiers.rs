//! The qualifier algebra: a set over `const`, `volatile` and `restrict`, with
//! union, the subset order, and its text.

use vstd::prelude::*;
use vstd::std_specs::cmp::PartialEqSpecImpl;
use vstd::string::*;

verus! {

/// One of the three qualifiers that C puts on a type.
#[derive(Clone, Copy, Debug, PartialEq, Eq, Structural)]
pub enum Qualifier {
    Const,
    Volatile,
    Restrict,
}

/// The qualifiers on a type. `const volatile` is a valid pair: the program
/// may not write the object, the hardware may.
///
/// The view is the set of qualifiers present; two values are equal when their
/// views are.
pub struct Qualifiers {
    v: u8,
}

/// The bit that stands for a qualifier.
pub closed spec fn bit_of(q: Qualifier) -> u8 {
    match q {
        Qualifier::Const => 1u8,
        Qualifier::Volatile => 2u8,
        Qualifier::Restrict => 4u8,
    }
}

impl View for Qualifiers {
    type V = Set<Qualifier>;

    closed spec fn view(&self) -> Set<Qualifier> {
        Set::new(|q: Qualifier| self.v & bit_of(q) != 0)
    }
}

/// What setting bit `m` of `a` does to each of the three bits.
proof fn lemma_set_bit(a: u8, m: u8)
    requires
        a < 8,
        m == 1 || m == 2 || m == 4,
    ensures
        (a | m) < 8,
        (a | m) & m != 0,
        m != 1 ==> (a | m) & 1 == a & 1,
        m != 2 ==> (a | m) & 2 == a & 2,
        m != 4 ==> (a | m) & 4 == a & 4,
{
    assert(a < 8 && (m == 1 || m == 2 || m == 4) ==> (a | m) < 8 && (a | m) & m != 0 && (m != 1
        ==> (a | m) & 1 == a & 1) && (m != 2 ==> (a | m) & 2 == a & 2) && (m != 4 ==> (a | m) & 4
        == a & 4)) by (bit_vector);
}

/// What the union of two bit patterns does to each of the three bits.
proof fn lemma_union_bits(a: u8, b: u8)
    requires
        a < 8,
        b < 8,
    ensures
        (a | b) < 8,
        (a | b) & 1 != 0 <==> a & 1 != 0 || b & 1 != 0,
        (a | b) & 2 != 0 <==> a & 2 != 0 || b & 2 != 0,
        (a | b) & 4 != 0 <==> a & 4 != 0 || b & 4 != 0,
{
    assert(a < 8 && b < 8 ==> (a | b) < 8 && ((a | b) & 1 != 0 <==> a & 1 != 0 || b & 1 != 0) && ((
    a | b) & 2 != 0 <==> a & 2 != 0 || b & 2 != 0) && ((a | b) & 4 != 0 <==> a & 4 != 0 || b & 4
        != 0)) by (bit_vector);
}

/// Below 8 a bit pattern is its three low bits: inclusion and equality can be
/// read off them.
proof fn lemma_three_bits(a: u8, b: u8)
    requires
        a < 8,
        b < 8,
    ensures
        a & b == a <==> (a & 1 != 0 ==> b & 1 != 0) && (a & 2 != 0 ==> b & 2 != 0) && (a & 4 != 0
            ==> b & 4 != 0),
        a == b <==> (a & 1 != 0 <==> b & 1 != 0) && (a & 2 != 0 <==> b & 2 != 0) && (a & 4 != 0
            <==> b & 4 != 0),
{
    assert(a < 8 && b < 8 ==> (a & b == a <==> (a & 1 != 0 ==> b & 1 != 0) && (a & 2 != 0 ==> b & 2
        != 0) && (a & 4 != 0 ==> b & 4 != 0))) by (bit_vector);
    assert(a < 8 && b < 8 ==> (a == b <==> (a & 1 != 0 <==> b & 1 != 0) && (a & 2 != 0 <==> b & 2
        != 0) && (a & 4 != 0 <==> b & 4 != 0))) by (bit_vector);
}

impl Qualifiers {
    #[verifier::type_invariant]
    spec fn only_known_bits(self) -> bool {
        self.v < 8
    }

    /// The text of the qualifiers: each one that is present, in the order
    /// `const`, `volatile`, `restrict`, with a space behind it.
    pub open spec fn text(self) -> Seq<char> {
        (if self@.contains(Qualifier::Const) {
            "const "@
        } else {
            Seq::<char>::empty()
        }) + (if self@.contains(Qualifier::Volatile) {
            "volatile "@
        } else {
            Seq::<char>::empty()
        }) + (if self@.contains(Qualifier::Restrict) {
            "restrict "@
        } else {
            Seq::<char>::empty()
        })
    }

    /// No qualifier at all.
    pub fn new() -> (r: Self)
        ensures
            r@ == Set::<Qualifier>::empty(),
    {
        let r = Qualifiers { v: 0 };
        proof {
            assert(0u8 & 1u8 == 0 && 0u8 & 2u8 == 0 && 0u8 & 4u8 == 0) by (bit_vector);
            assert(r@ =~= Set::<Qualifier>::empty());
        }
        r
    }

    /// Adds `const`. The reference that comes back is `self`, for chaining.
    pub fn set_const(&mut self) -> (r: &mut Self)
        ensures
            r@ == old(self)@.insert(Qualifier::Const),
            *final(self) == *final(r),
    {
        proof {
            use_type_invariant(&*self);
            lemma_set_bit(self.v, 1);
        }
        self.v = self.v | 1;
        proof {
            assert(self@ =~= old(self)@.insert(Qualifier::Const));
        }
        self
    }

    /// Adds `volatile`. The reference that comes back is `self`, for chaining.
    pub fn set_volatile(&mut self) -> (r: &mut Self)
        ensures
            r@ == old(self)@.insert(Qualifier::Volatile),
            *final(self) == *final(r),
    {
        proof {
            use_type_invariant(&*self);
            lemma_set_bit(self.v, 2);
        }
        self.v = self.v | 2;
        proof {
            assert(self@ =~= old(self)@.insert(Qualifier::Volatile));
        }
        self
    }

    /// Adds `restrict`. The reference that comes back is `self`, for chaining.
    pub fn set_restrict(&mut self) -> (r: &mut Self)
        ensures
            r@ == old(self)@.insert(Qualifier::Restrict),
            *final(self) == *final(r),
    {
        proof {
            use_type_invariant(&*self);
            lemma_set_bit(self.v, 4);
        }
        self.v = self.v | 4;
        proof {
            assert(self@ =~= old(self)@.insert(Qualifier::Restrict));
        }
        self
    }

    /// Whether `const` is present.
    pub fn is_const(&self) -> (r: bool)
        ensures
            r == self@.contains(Qualifier::Const),
    {
        self.v & 1 != 0
    }

    /// Whether `volatile` is present.
    pub fn is_volatile(&self) -> (r: bool)
        ensures
            r == self@.contains(Qualifier::Volatile),
    {
        self.v & 2 != 0
    }

    /// Whether `restrict` is present.
    pub fn is_restrict(&self) -> (r: bool)
        ensures
            r == self@.contains(Qualifier::Restrict),
    {
        self.v & 4 != 0
    }

    /// Whether every qualifier of `self` is one of `other` too. A pointer to a
    /// less qualified type converts to one to a more qualified type, not the
    /// other way round.
    pub fn is_lesser_than(&self, other: &Self) -> (r: bool)
        ensures
            r == self@.subset_of(other@),
    {
        proof {
            use_type_invariant(self);
            use_type_invariant(other);
            lemma_three_bits(self.v, other.v);
            if self@.subset_of(other@) {
                assert(self@.contains(Qualifier::Const) ==> other@.contains(Qualifier::Const));
                assert(self@.contains(Qualifier::Volatile) ==> other@.contains(
                    Qualifier::Volatile,
                ));
                assert(self@.contains(Qualifier::Restrict) ==> other@.contains(
                    Qualifier::Restrict,
                ));
            }
        }
        self.v & other.v == self.v
    }

    /// Adds every qualifier of `other`, as when a declarator qualifies a
    /// typedef name that brings qualifiers of its own.
    pub fn merge_from(&mut self, other: &Qualifiers)
        ensures
            final(self)@ == old(self)@.union(other@),
    {
        proof {
            use_type_invariant(&*self);
            use_type_invariant(other);
            lemma_union_bits(self.v, other.v);
        }
        self.v = self.v | other.v;
        proof {
            assert(self@ =~= old(self)@.union(other@));
        }
    }

    /// The qualifiers as text, ready to stand before the text of a type.
    pub fn render(&self) -> (r: String)
        ensures
            r@ == self.text(),
    {
        let mut r = String::new();
        if self.is_const() {
            r.append("const ");
        }
        if self.is_volatile() {
            r.append("volatile ");
        }
        if self.is_restrict() {
            r.append("restrict ");
        }
        r
    }
}

impl Clone for Qualifiers {
    fn clone(&self) -> (r: Self)
        ensures
            r == *self,
    {
        proof {
            use_type_invariant(self);
        }
        Qualifiers { v: self.v }
    }
}

impl PartialEq for Qualifiers {
    fn eq(&self, other: &Self) -> (r: bool) {
        proof {
            use_type_invariant(self);
            use_type_invariant(other);
            lemma_three_bits(self.v, other.v);
            if self.v == other.v {
                assert(self@ =~= other@);
            } else {
                assert(self@.contains(Qualifier::Const) != other@.contains(Qualifier::Const)
                    || self@.contains(Qualifier::Volatile) != other@.contains(Qualifier::Volatile)
                    || self@.contains(Qualifier::Restrict) != other@.contains(
                    Qualifier::Restrict,
                ));
            }
        }
        self.v == other.v
    }
}

impl PartialEqSpecImpl for Qualifiers {
    open spec fn obeys_eq_spec() -> bool {
        true
    }

    open spec fn eq_spec(&self, other: &Self) -> bool {
        self@ == other@
    }
}

/// Setting a qualifier that is present changes nothing: setting one twice
/// leaves what setting it once leaves.
pub proof fn lemma_set_is_idempotent(a: Qualifiers, q: Qualifier)
    ensures
        a@.insert(q).insert(q) == a@.insert(q),
        a@.contains(q) ==> a@.insert(q) == a@,
{
    assert(a@.insert(q).insert(q) =~= a@.insert(q));
    if a@.contains(q) {
        assert(a@.insert(q) =~= a@);
    }
}

/// Merging a set of qualifiers into itself changes nothing; more generally,
/// merging in a set that is lesser changes nothing.
pub proof fn lemma_merge_is_idempotent(a: Qualifiers, b: Qualifiers)
    ensures
        a@.union(a@) == a@,
        b@.subset_of(a@) ==> a@.union(b@) == a@,
{
    assert(a@.union(a@) =~= a@);
    if b@.subset_of(a@) {
        assert(a@.union(b@) =~= a@);
    }
}

/// The order of `is_lesser_than` is reflexive and antisymmetric: every set is
/// lesser than itself, two sets that are lesser than each other are equal, and
/// so a set is never lesser than one that it properly contains.
pub proof fn lemma_lesser_than_is_an_order(a: Qualifiers, b: Qualifiers)
    ensures
        a@.subset_of(a@),
        a@.subset_of(b@) && b@.subset_of(a@) ==> a@ == b@,
        a@.subset_of(b@) && a@ != b@ ==> !b@.subset_of(a@),
{
    if a@.subset_of(b@) && b@.subset_of(a@) {
        assert(a@ =~= b@);
    }
}

/// After a merge both the old value and what was merged in are lesser than
/// the result, and the result is the least such set.
pub proof fn lemma_merge_is_least_upper_bound(a: Qualifiers, b: Qualifiers, c: Qualifiers)
    ensures
        a@.subset_of(a@.union(b@)),
        b@.subset_of(a@.union(b@)),
        a@.subset_of(c@) && b@.subset_of(c@) ==> a@.union(b@).subset_of(c@),
{
}

} // verus!
