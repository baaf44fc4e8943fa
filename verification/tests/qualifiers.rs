use ctypes::qualifiers::Qualifiers;

#[test]
fn new_has_all_flags_clear() {
    let q = Qualifiers::new();
    assert!(!q.is_const());
    assert!(!q.is_volatile());
    assert!(!q.is_restrict());
    assert_eq!(q.render(), "");
}

#[test]
fn set_const_twice_leaves_exactly_const() {
    let mut q = Qualifiers::new();
    q.set_const().set_const();
    assert!(q.is_const());
    assert!(!q.is_volatile());
    assert!(!q.is_restrict());
    let mut once = Qualifiers::new();
    once.set_const();
    assert!(q == once);
}

#[test]
fn each_setter_sets_its_own_flag() {
    let mut v = Qualifiers::new();
    v.set_volatile();
    assert!(!v.is_const() && v.is_volatile() && !v.is_restrict());
    let mut r = Qualifiers::new();
    r.set_restrict();
    assert!(!r.is_const() && !r.is_volatile() && r.is_restrict());
    let mut c = Qualifiers::new();
    c.set_const();
    assert!(c.is_const() && !c.is_volatile() && !c.is_restrict());
    assert!(c != v && v != r && c != r);
}

#[test]
fn setters_chain_on_the_same_value() {
    let mut q = Qualifiers::new();
    q.set_const().set_volatile().set_restrict();
    assert!(q.is_const() && q.is_volatile() && q.is_restrict());
}

#[test]
fn merge_from_unions_the_flags() {
    let mut a = Qualifiers::new();
    a.set_const();
    let mut b = Qualifiers::new();
    b.set_volatile().set_restrict();
    a.merge_from(&b);
    assert!(a.is_const() && a.is_volatile() && a.is_restrict());
    assert!(!b.is_const() && b.is_volatile() && b.is_restrict());
}

#[test]
fn merge_from_itself_changes_nothing() {
    let mut a = Qualifiers::new();
    a.set_const().set_restrict();
    let copy = a.clone();
    a.merge_from(&copy);
    assert!(a == copy);
    assert!(a.is_const() && !a.is_volatile() && a.is_restrict());
}

#[test]
fn is_lesser_than_is_reflexive() {
    let empty = Qualifiers::new();
    assert!(empty.is_lesser_than(&empty));
    let mut cv = Qualifiers::new();
    cv.set_const().set_volatile();
    assert!(cv.is_lesser_than(&cv));
}

#[test]
fn is_lesser_than_is_the_subset_order() {
    let empty = Qualifiers::new();
    let mut c = Qualifiers::new();
    c.set_const();
    let mut cv = Qualifiers::new();
    cv.set_const().set_volatile();
    let mut r = Qualifiers::new();
    r.set_restrict();
    assert!(empty.is_lesser_than(&c));
    assert!(c.is_lesser_than(&cv));
    assert!(!cv.is_lesser_than(&c));
    assert!(!c.is_lesser_than(&empty));
    assert!(!c.is_lesser_than(&r));
    assert!(!r.is_lesser_than(&c));
}

#[test]
fn clone_keeps_the_flags() {
    let mut a = Qualifiers::new();
    a.set_volatile();
    let b = a.clone();
    assert!(a == b);
    assert!(b.is_volatile() && !b.is_const() && !b.is_restrict());
}

#[test]
fn qualifiers_render_in_a_fixed_order() {
    let mut q = Qualifiers::new();
    q.set_restrict();
    assert_eq!(q.render(), "restrict ");
    q.set_const();
    assert_eq!(q.render(), "const restrict ");
    q.set_volatile();
    assert_eq!(q.render(), "const volatile restrict ");
    let mut v = Qualifiers::new();
    v.set_volatile();
    assert_eq!(v.render(), "volatile ");
}
