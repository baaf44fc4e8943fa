//! Struct, union and enum tags: the records, and the identity handles through
//! which they are shared.
//!
//! A tag is made when its name is first met, often before its members are
//! known, and completed once. Every use of the tag holds a handle to the one
//! record, so a struct can hold a pointer to itself, and two tags of the same
//! name in different scopes stay apart. To Verus a handle is the identity of
//! its record and nothing else: two handles are equal when they share a
//! record, and what the record holds at a given moment is no part of the
//! handle's value.

use vstd::prelude::*;
use vstd::std_specs::cmp::PartialEqSpecImpl;
use std::cell::Ref;
use std::cell::RefCell;
use std::cell::RefMut;
use std::ops::Deref;
use std::rc::Rc;
use crate::types::TypeRef;

verus! {

/// The guard of a shared borrow of a record.
#[verifier::external_type_specification]
#[verifier::external_body]
#[verifier::reject_recursive_types(T)]
pub struct ExRef<'b, T: ?Sized>(Ref<'b, T>);

/// The guard of an exclusive borrow of a record.
#[verifier::external_type_specification]
#[verifier::external_body]
#[verifier::reject_recursive_types(T)]
pub struct ExRefMut<'b, T: ?Sized + 'b>(RefMut<'b, T>);

/// The record that a shared guard gives access to. This is `Deref::deref` of
/// `std::cell::Ref`; what the record holds depends on what was done to it
/// before, so nothing is claimed of it.
#[verifier::external_body]
pub(crate) fn record<'a, 'b, T>(guard: &'a Ref<'b, T>) -> (r: &'a T) {
    guard.deref()
}

/// A struct tag: its name, and its members once the definition was seen.
pub struct Struct {
    pub name: String,
    pub items: Option<Vec<(TypeRef, String)>>,
}

/// A union tag: its name, and its members once the definition was seen.
pub struct Union {
    pub name: String,
    pub items: Option<Vec<(TypeRef, String)>>,
}

/// An enum tag: its name, and its constants once the definition was seen.
pub struct Enum {
    pub name: String,
    pub items: Option<Vec<(u64, String)>>,
}

/// The handle of a struct tag.
#[verifier::external_body]
pub struct StructRef(Rc<RefCell<Struct>>);

/// The handle of a union tag.
#[verifier::external_body]
pub struct UnionRef(Rc<RefCell<Union>>);

/// The handle of an enum tag.
#[verifier::external_body]
pub struct EnumRef(Rc<RefCell<Enum>>);

/// The record that a struct handle's cell was made with.
pub uninterp spec fn struct_made_with(h: StructRef) -> Struct;

/// The record that a union handle's cell was made with.
pub uninterp spec fn union_made_with(h: UnionRef) -> Union;

/// The record that an enum handle's cell was made with.
pub uninterp spec fn enum_made_with(h: EnumRef) -> Enum;

impl StructRef {
    /// Puts a record into a cell of its own: `RefCell::new`, then `Rc::new`.
    /// The contract only gives the record a name by which the handle's
    /// origin can be told; it says nothing of what the cell holds later.
    #[verifier::external_body]
    pub fn new(v: Struct) -> (r: Self)
        ensures
            struct_made_with(r) == v,
    {
        StructRef(Rc::new(RefCell::new(v)))
    }

    /// Shared access to the record, or `None` while it is borrowed
    /// exclusively: `RefCell::try_borrow`, which does not panic.
    #[verifier::external_body]
    pub fn borrow(&self) -> (r: Option<Ref<'_, Struct>>) {
        self.0.try_borrow().ok()
    }

    /// Exclusive access to the record, or `None` while any other borrow of it
    /// is alive: `RefCell::try_borrow_mut`, which does not panic.
    #[verifier::external_body]
    pub fn borrow_mut(&self) -> (r: Option<RefMut<'_, Struct>>) {
        self.0.try_borrow_mut().ok()
    }

    /// Whether both handles share one record: `Rc::ptr_eq`, which compares
    /// the addresses of the two cells and reads neither.
    #[verifier::external_body]
    fn shares_record(&self, other: &Self) -> (r: bool)
        ensures
            r == (*self == *other),
    {
        Rc::ptr_eq(&self.0, &other.0)
    }
}

impl Clone for StructRef {
    /// Another handle of the same record: `Rc::clone`, which copies no
    /// record.
    #[verifier::external_body]
    fn clone(&self) -> (r: Self)
        ensures
            r == *self,
    {
        StructRef(self.0.clone())
    }
}

impl PartialEq for StructRef {
    /// Identity: names and members are not looked at.
    fn eq(&self, other: &Self) -> (r: bool) {
        self.shares_record(other)
    }
}

impl PartialEqSpecImpl for StructRef {
    open spec fn obeys_eq_spec() -> bool {
        true
    }

    open spec fn eq_spec(&self, other: &Self) -> bool {
        *self == *other
    }
}

impl UnionRef {
    /// Puts a record into a cell of its own: `RefCell::new`, then `Rc::new`.
    /// The contract only gives the record a name by which the handle's
    /// origin can be told; it says nothing of what the cell holds later.
    #[verifier::external_body]
    pub fn new(v: Union) -> (r: Self)
        ensures
            union_made_with(r) == v,
    {
        UnionRef(Rc::new(RefCell::new(v)))
    }

    /// Shared access to the record, or `None` while it is borrowed
    /// exclusively: `RefCell::try_borrow`, which does not panic.
    #[verifier::external_body]
    pub fn borrow(&self) -> (r: Option<Ref<'_, Union>>) {
        self.0.try_borrow().ok()
    }

    /// Exclusive access to the record, or `None` while any other borrow of it
    /// is alive: `RefCell::try_borrow_mut`, which does not panic.
    #[verifier::external_body]
    pub fn borrow_mut(&self) -> (r: Option<RefMut<'_, Union>>) {
        self.0.try_borrow_mut().ok()
    }

    /// Whether both handles share one record: `Rc::ptr_eq`, which compares
    /// the addresses of the two cells and reads neither.
    #[verifier::external_body]
    fn shares_record(&self, other: &Self) -> (r: bool)
        ensures
            r == (*self == *other),
    {
        Rc::ptr_eq(&self.0, &other.0)
    }
}

impl Clone for UnionRef {
    /// Another handle of the same record: `Rc::clone`, which copies no
    /// record.
    #[verifier::external_body]
    fn clone(&self) -> (r: Self)
        ensures
            r == *self,
    {
        UnionRef(self.0.clone())
    }
}

impl PartialEq for UnionRef {
    /// Identity: names and members are not looked at.
    fn eq(&self, other: &Self) -> (r: bool) {
        self.shares_record(other)
    }
}

impl PartialEqSpecImpl for UnionRef {
    open spec fn obeys_eq_spec() -> bool {
        true
    }

    open spec fn eq_spec(&self, other: &Self) -> bool {
        *self == *other
    }
}

impl EnumRef {
    /// Puts a record into a cell of its own: `RefCell::new`, then `Rc::new`.
    /// The contract only gives the record a name by which the handle's
    /// origin can be told; it says nothing of what the cell holds later.
    #[verifier::external_body]
    pub fn new(v: Enum) -> (r: Self)
        ensures
            enum_made_with(r) == v,
    {
        EnumRef(Rc::new(RefCell::new(v)))
    }

    /// Shared access to the record, or `None` while it is borrowed
    /// exclusively: `RefCell::try_borrow`, which does not panic.
    #[verifier::external_body]
    pub fn borrow(&self) -> (r: Option<Ref<'_, Enum>>) {
        self.0.try_borrow().ok()
    }

    /// Exclusive access to the record, or `None` while any other borrow of it
    /// is alive: `RefCell::try_borrow_mut`, which does not panic.
    #[verifier::external_body]
    pub fn borrow_mut(&self) -> (r: Option<RefMut<'_, Enum>>) {
        self.0.try_borrow_mut().ok()
    }

    /// Whether both handles share one record: `Rc::ptr_eq`, which compares
    /// the addresses of the two cells and reads neither.
    #[verifier::external_body]
    fn shares_record(&self, other: &Self) -> (r: bool)
        ensures
            r == (*self == *other),
    {
        Rc::ptr_eq(&self.0, &other.0)
    }
}

impl Clone for EnumRef {
    /// Another handle of the same record: `Rc::clone`, which copies no
    /// record.
    #[verifier::external_body]
    fn clone(&self) -> (r: Self)
        ensures
            r == *self,
    {
        EnumRef(self.0.clone())
    }
}

impl PartialEq for EnumRef {
    /// Identity: names and members are not looked at.
    fn eq(&self, other: &Self) -> (r: bool) {
        self.shares_record(other)
    }
}

impl PartialEqSpecImpl for EnumRef {
    open spec fn obeys_eq_spec() -> bool {
        true
    }

    open spec fn eq_spec(&self, other: &Self) -> bool {
        *self == *other
    }
}

impl Struct {
    /// Whether the members are known.
    pub open spec fn populated(self) -> bool {
        self.items is Some
    }

    /// A new tag of this name, incomplete, behind a handle of its own.
    pub fn new_ref(name: &str) -> (r: StructRef)
        ensures
            struct_made_with(r).name@ == name@,
            !struct_made_with(r).populated(),
    {
        StructRef::new(Struct { name: name.to_owned(), items: None })
    }

    /// Whether the members are known.
    pub fn is_populated(&self) -> (r: bool)
        ensures
            r == self.populated(),
    {
        self.items.is_some()
    }

    /// Completes the tag. A tag is completed once: one that has its members
    /// takes no others.
    pub fn set_items(&mut self, items: Vec<(TypeRef, String)>)
        requires
            !old(self).populated(),
        ensures
            final(self).populated(),
            final(self).items == Some(items),
            final(self).name == old(self).name,
    {
        self.items = Some(items);
    }
}

impl Union {
    /// Whether the members are known.
    pub open spec fn populated(self) -> bool {
        self.items is Some
    }

    /// A new tag of this name, incomplete, behind a handle of its own.
    pub fn new_ref(name: &str) -> (r: UnionRef)
        ensures
            union_made_with(r).name@ == name@,
            !union_made_with(r).populated(),
    {
        UnionRef::new(Union { name: name.to_owned(), items: None })
    }

    /// Whether the members are known.
    pub fn is_populated(&self) -> (r: bool)
        ensures
            r == self.populated(),
    {
        self.items.is_some()
    }

    /// Completes the tag. A tag is completed once: one that has its members
    /// takes no others.
    pub fn set_items(&mut self, items: Vec<(TypeRef, String)>)
        requires
            !old(self).populated(),
        ensures
            final(self).populated(),
            final(self).items == Some(items),
            final(self).name == old(self).name,
    {
        self.items = Some(items);
    }
}

impl Enum {
    /// Whether the constants are known.
    pub open spec fn populated(self) -> bool {
        self.items is Some
    }

    /// A new tag of this name, incomplete, behind a handle of its own.
    pub fn new_ref(name: &str) -> (r: EnumRef)
        ensures
            enum_made_with(r).name@ == name@,
            !enum_made_with(r).populated(),
    {
        EnumRef::new(Enum { name: name.to_owned(), items: None })
    }

    /// Whether the constants are known.
    pub fn is_populated(&self) -> (r: bool)
        ensures
            r == self.populated(),
    {
        self.items.is_some()
    }

    /// Completes the tag. A tag is completed once: one that has its constants
    /// takes no others.
    pub fn set_items(&mut self, items: Vec<(u64, String)>)
        requires
            !old(self).populated(),
        ensures
            final(self).populated(),
            final(self).items == Some(items),
            final(self).name == old(self).name,
    {
        self.items = Some(items);
    }
}

} // verus!
