use ctypes::ast::Node;
use ctypes::classes::FloatClass;
use ctypes::classes::IntClass;
use ctypes::classes::MagicType;
use ctypes::classes::{Signed, Unsigned};
use ctypes::qualifiers::Qualifiers;
use ctypes::tags::Enum;
use ctypes::tags::Struct;
use ctypes::tags::Union;
use ctypes::types::ArraySize;
use ctypes::types::ArraySizeExpr;
use ctypes::types::BaseType;
use ctypes::types::FunctionType;
use ctypes::types::Type;
use ctypes::types::TypeRef;

fn void() -> TypeRef {
    Type::new_ref_bare(BaseType::Void)
}

fn plain_int() -> TypeRef {
    Type::new_ref_bare(BaseType::Integer(IntClass::signed_int()))
}

fn const_int() -> TypeRef {
    let mut q = Qualifiers::new();
    q.set_const();
    Type::new_ref(BaseType::Integer(IntClass::signed_int()), q)
}

fn function(ret: TypeRef, args: Vec<(TypeRef, &str)>) -> FunctionType {
    FunctionType { ret, args: args.into_iter().map(|(t, n)| (t, n.to_string())).collect() }
}

fn expr(text: &str) -> ArraySize {
    ArraySize::from(ArraySizeExpr::new(Node { text: text.to_string() }))
}

#[test]
fn function_types_ignore_parameter_qualifiers() {
    let f = function(void(), vec![(plain_int(), "a")]);
    let g = function(void(), vec![(const_int(), "a")]);
    assert!(f.eq(&g));
    assert!(g.eq(&f));
    assert_eq!(f.try_eq(&g), Some(true));
    assert!(BaseType::Function(f).eq(&BaseType::Function(g)));
}

#[test]
fn function_types_ignore_parameter_names() {
    let f = function(void(), vec![(plain_int(), "a"), (plain_int(), "b")]);
    let g = function(void(), vec![(plain_int(), "x"), (plain_int(), "")]);
    assert!(f.eq(&g));
}

#[test]
fn function_types_of_different_arity_differ() {
    let f = function(void(), vec![(plain_int(), "a"), (plain_int(), "b")]);
    let g = function(void(), vec![(plain_int(), "a")]);
    let none = function(void(), vec![]);
    assert!(!f.eq(&g));
    assert!(!g.eq(&f));
    assert!(!g.eq(&none));
    assert!(none.eq(&function(void(), vec![])));
}

#[test]
fn function_types_compare_parameter_base_types_in_order() {
    let long = Type::new_ref_bare(BaseType::Integer(IntClass::Long(Signed)));
    let f = function(void(), vec![(plain_int(), "a"), (long.clone(), "b")]);
    let g = function(void(), vec![(long, "a"), (plain_int(), "b")]);
    assert!(!f.eq(&g));
    assert!(f.eq(&f));
}

#[test]
fn function_types_compare_return_types_with_qualifiers() {
    let f = function(plain_int(), vec![]);
    let g = function(const_int(), vec![]);
    let h = function(void(), vec![]);
    assert!(!f.eq(&g));
    assert!(!f.eq(&h));
    assert!(f.eq(&function(plain_int(), vec![])));
}

#[test]
fn qualifiers_below_the_top_of_a_parameter_count() {
    let f = function(void(), vec![(Type::new_ref_bare(BaseType::Pointer(plain_int())), "p")]);
    let g = function(void(), vec![(Type::new_ref_bare(BaseType::Pointer(const_int())), "p")]);
    assert!(!f.eq(&g));
}

#[test]
fn pointee_qualifiers_matter() {
    let p = Type::new_ref_bare(BaseType::Pointer(plain_int()));
    let q = Type::new_ref_bare(BaseType::Pointer(const_int()));
    assert!(!p.eq(&q));
    assert!(!q.eq(&p));
    assert!(p.eq(&Type::new_ref_bare(BaseType::Pointer(plain_int()))));
    assert!(q.eq(&Type::new_ref_bare(BaseType::Pointer(const_int()))));
}

#[test]
fn top_level_qualifiers_matter_outside_parameters() {
    assert!(!plain_int().eq(&const_int()));
    assert!(const_int().eq(&const_int()));
    assert!(plain_int().basetype.eq(&const_int().basetype));
}

#[test]
fn fixed_arrays_compare_by_element_and_size() {
    let a = Type::new_ref_bare(BaseType::Array(plain_int(), ArraySize::Fixed(5)));
    let b = Type::new_ref_bare(BaseType::Array(plain_int(), ArraySize::Fixed(5)));
    let c = Type::new_ref_bare(BaseType::Array(plain_int(), ArraySize::Fixed(6)));
    let d = Type::new_ref_bare(BaseType::Array(const_int(), ArraySize::Fixed(5)));
    assert!(a.eq(&b));
    assert!(!a.eq(&c));
    assert!(!a.eq(&d));
}

#[test]
fn array_sizes_of_different_kinds_differ() {
    assert!(ArraySize::Incomplete.eq(&ArraySize::Incomplete));
    assert!(!ArraySize::Incomplete.eq(&ArraySize::Fixed(0)));
    assert!(!ArraySize::Fixed(0).eq(&ArraySize::Incomplete));
    assert!(!ArraySize::Fixed(3).eq(&expr("n")));
    assert!(!expr("n").eq(&ArraySize::Fixed(3)));
    assert!(!expr("n").eq(&ArraySize::Incomplete));
    assert!(ArraySize::Fixed(u64::MAX).eq(&ArraySize::Fixed(u64::MAX)));
    assert!(!ArraySize::Fixed(1).eq(&ArraySize::Fixed(2)));
}

#[test]
fn two_expression_sizes_cannot_be_compared() {
    assert_eq!(expr("n").try_eq(&expr("n")), None);
    assert_eq!(expr("n").try_eq(&expr("m")), None);
    let a = Type::new_ref_bare(BaseType::Array(plain_int(), expr("n")));
    let b = Type::new_ref_bare(BaseType::Array(plain_int(), expr("n")));
    assert_eq!(a.try_eq(&b), None);
    let pa = Type::new_ref_bare(BaseType::Pointer(a.clone()));
    let pb = Type::new_ref_bare(BaseType::Pointer(b.clone()));
    assert_eq!(pa.try_eq(&pb), None);
    let f = function(a.clone(), vec![]);
    let g = function(b.clone(), vec![(plain_int(), "x")]);
    assert_eq!(f.try_eq(&g), None);
    let h = function(void(), vec![(plain_int(), "x"), (a, "y")]);
    let k = function(void(), vec![(plain_int(), "x"), (b, "y")]);
    assert_eq!(h.try_eq(&k), None);
}

#[test]
fn a_difference_found_first_settles_the_comparison() {
    // The elements differ, so the sizes are never looked at.
    let a = Type::new_ref_bare(BaseType::Array(plain_int(), expr("n")));
    let b = Type::new_ref_bare(BaseType::Array(const_int(), expr("n")));
    assert_eq!(a.try_eq(&b), Some(false));
    assert!(!a.eq(&b));
    // The first parameters differ, so the second pair is never looked at.
    let long = Type::new_ref_bare(BaseType::Integer(IntClass::Long(Signed)));
    let va = Type::new_ref_bare(BaseType::Array(plain_int(), expr("n")));
    let vb = Type::new_ref_bare(BaseType::Array(plain_int(), expr("m")));
    let f = function(void(), vec![(plain_int(), "x"), (va, "y")]);
    let g = function(void(), vec![(long, "x"), (vb, "y")]);
    assert_eq!(f.try_eq(&g), Some(false));
}

#[test]
fn different_variants_differ() {
    let s = Type::new_ref_bare(BaseType::Struct(Struct::new_ref("S")));
    let p = Type::new_ref_bare(BaseType::Pointer(plain_int()));
    let a = Type::new_ref_bare(BaseType::Array(plain_int(), ArraySize::Incomplete));
    let b = Type::new_ref_bare(BaseType::Bool);
    assert!(!void().eq(&plain_int()));
    assert!(!void().eq(&b));
    assert!(!p.eq(&a));
    assert!(!s.eq(&p));
    assert!(void().eq(&void()));
    assert!(b.eq(&Type::new_ref_bare(BaseType::Bool)));
}

#[test]
fn classes_compare_by_value() {
    let f = BaseType::Float(FloatClass::Float);
    let d = BaseType::Float(FloatClass::Double);
    assert!(f.eq(&BaseType::Float(FloatClass::Float)));
    assert!(!f.eq(&d));
    let i = BaseType::Integer(IntClass::Int(Signed));
    let u = BaseType::Integer(IntClass::Int(Unsigned));
    assert!(i.eq(&BaseType::Integer(IntClass::signed_int())));
    assert!(!i.eq(&u));
    assert!(!BaseType::Integer(IntClass::char()).eq(&BaseType::Integer(IntClass::Char(Some(Signed)))));
    let m = BaseType::MagicType(MagicType::VaList);
    let n = BaseType::MagicType(MagicType::Named("a".to_string(), "b".to_string()));
    assert!(m.eq(&BaseType::MagicType(MagicType::VaList)));
    assert!(!m.eq(&n));
    assert!(n.eq(&BaseType::MagicType(MagicType::Named("a".to_string(), "b".to_string()))));
}

#[test]
fn tag_types_compare_by_identity() {
    let s = Struct::new_ref("S");
    let other = Struct::new_ref("S");
    let a = Type::new_ref_bare(BaseType::Struct(s.clone()));
    let b = Type::new_ref_bare(BaseType::Struct(s.clone()));
    let c = Type::new_ref_bare(BaseType::Struct(other));
    assert!(a.eq(&b));
    assert!(!a.eq(&c));
    let u = Union::new_ref("S");
    let e = Enum::new_ref("S");
    assert!(BaseType::Union(u.clone()).eq(&BaseType::Union(u.clone())));
    assert!(!BaseType::Union(u.clone()).eq(&BaseType::Union(Union::new_ref("S"))));
    assert!(BaseType::Enum(e.clone()).eq(&BaseType::Enum(e.clone())));
    assert!(!BaseType::Enum(e.clone()).eq(&BaseType::Enum(Enum::new_ref("S"))));
    assert!(!BaseType::Struct(s).eq(&BaseType::Union(u)));
}

#[test]
fn a_completed_tag_is_still_the_same_type() {
    let s = Struct::new_ref("S");
    let before = Type::new_ref_bare(BaseType::Struct(s.clone()));
    s.borrow_mut().unwrap().set_items(vec![(plain_int(), "v".to_string())]);
    let after = Type::new_ref_bare(BaseType::Struct(s));
    assert!(before.eq(&after));
}

#[test]
fn new_ref_bare_has_no_qualifiers() {
    let t = Type::new_ref_bare(BaseType::Void);
    assert!(t.qualifiers == Qualifiers::new());
    assert!(matches!(t.basetype, BaseType::Void));
}

#[test]
fn new_ref_keeps_shape_and_qualifiers() {
    let mut q = Qualifiers::new();
    q.set_volatile();
    let t = Type::new_ref(BaseType::Pointer(plain_int()), q.clone());
    assert!(t.qualifiers == q);
    assert!(matches!(&t.basetype, BaseType::Pointer(p) if p.eq(&plain_int())));
}

#[test]
fn an_expression_size_gives_its_node_back() {
    let e = ArraySizeExpr::new(Node { text: "n + 1".to_string() });
    assert_eq!(e.text, "n + 1");
    let size = ArraySize::from(e.clone());
    assert!(matches!(size, ArraySize::Expr(inner) if inner.text == "n + 1"));
}

#[test]
fn equality_is_reflexive_and_symmetric() {
    let s = Struct::new_ref("S");
    let samples: Vec<TypeRef> = vec![
        void(),
        plain_int(),
        const_int(),
        Type::new_ref_bare(BaseType::Pointer(const_int())),
        Type::new_ref_bare(BaseType::Array(plain_int(), ArraySize::Fixed(2))),
        Type::new_ref_bare(BaseType::Array(plain_int(), ArraySize::Incomplete)),
        Type::new_ref_bare(BaseType::Struct(s)),
        Type::new_ref_bare(BaseType::Function(function(void(), vec![(plain_int(), "a")]))),
        Type::new_ref_bare(BaseType::Function(function(void(), vec![(const_int(), "b")]))),
        Type::new_ref_bare(BaseType::Function(function(plain_int(), vec![]))),
    ];
    for a in samples.iter() {
        assert_eq!(a.try_eq(a), Some(true));
        for b in samples.iter() {
            assert_eq!(a.try_eq(b), b.try_eq(a));
        }
    }
}

#[test]
fn a_type_without_expression_sizes_compares_with_every_type() {
    let sized = Type::new_ref_bare(BaseType::Array(plain_int(), expr("n")));
    let nested = Type::new_ref_bare(BaseType::Pointer(sized.clone()));
    let fixed = Type::new_ref_bare(BaseType::Array(plain_int(), ArraySize::Fixed(4)));
    let deep = Type::new_ref_bare(BaseType::Pointer(fixed.clone()));
    assert_eq!(fixed.try_eq(&sized), Some(false));
    assert_eq!(sized.try_eq(&fixed), Some(false));
    assert_eq!(deep.try_eq(&nested), Some(false));
    assert_eq!(nested.try_eq(&deep), Some(false));
    assert_eq!(plain_int().try_eq(&sized), Some(false));
    assert_eq!(sized.try_eq(&sized), None);
}
