//! The text of a type, for messages and for printing a program back.
//!
//! The text of a tag holds the tag's name, which is read from the tag's
//! record when the text is made. What a record holds is no part of a type's
//! value, so the text of a type that mentions a tag is stated as a relation:
//! `renders` holds of every text that the type can give, whatever names its
//! tags have.

use vstd::prelude::*;
use vstd::string::*;
use std::rc::Rc;
use crate::tags::record;
use crate::tags::Enum;
use crate::tags::Struct;
use crate::tags::Union;
use crate::qualifiers::Qualifiers;
use crate::text::debug_string;
use crate::text::debug_text;
use crate::text::decimal;
use crate::text::decimal_text;
use crate::text::joined_text;
use crate::text::list_text;
use crate::types::ArraySize;
use crate::types::BaseType;
use crate::types::FunctionType;
use crate::types::Type;

verus! {

/// The text of a tag: the keyword, a space, and the name as `debug_text`
/// shows it.
pub open spec fn tag_text(keyword: Seq<char>, name: Seq<char>) -> Seq<char> {
    keyword + " "@ + debug_text(name)
}

/// The text of a type: its qualifiers, then the text of its base type.
pub open spec fn qualified_text(qualifiers: Qualifiers, base: Seq<char>) -> Seq<char> {
    qualifiers.text() + base
}

/// The text of a pointer type: a star, then the text of what it points to.
pub open spec fn pointer_text(target: Seq<char>) -> Seq<char> {
    "*"@ + target
}

/// The text of an array type: the text of the element, then the size.
pub open spec fn array_text(element: Seq<char>, size: ArraySize) -> Seq<char> {
    element + size.text()
}

/// The text of a parameter: between round brackets the text of its type, a
/// comma and a space, and its name as `debug_text` shows it.
pub open spec fn param_text(ty: Seq<char>, name: Seq<char>) -> Seq<char> {
    "("@ + ty + ", "@ + debug_text(name) + ")"@
}

/// The text of a function type: `Fcn`, and between round brackets the text
/// of what it returns, a comma and a space, and the list of its parameters.
pub open spec fn function_text(ret: Seq<char>, params: Seq<Seq<char>>) -> Seq<char> {
    "Fcn("@ + ret + ", "@ + list_text(params) + ")"@
}

/// Whether `s` can be the text of this parameter.
pub open spec fn param_renders(p: (Rc<Type>, String), s: Seq<char>) -> bool
    decreases p,
{
    exists|ty: Seq<char>| p.0.renders(ty) && s == #[trigger] param_text(ty, p.1@)
}

/// Whether `items` can be the texts of these parameters, one for one.
pub open spec fn params_render(args: Seq<(Rc<Type>, String)>, items: Seq<Seq<char>>) -> bool
    decreases args,
{
    &&& items.len() == args.len()
    &&& forall|i: int| 0 <= i < args.len() ==> param_renders(#[trigger] args[i], items[i])
}

/// Whether none of these parameters mentions a tag.
pub open spec fn params_tag_free(args: Seq<(Rc<Type>, String)>) -> bool
    decreases args,
{
    forall|i: int| 0 <= i < args.len() ==> (#[trigger] args[i]).0.tag_free()
}

/// Writes the text of a tag.
pub fn render_tag(keyword: &str, name: &str) -> (r: String)
    ensures
        r@ == tag_text(keyword@, name@),
{
    let mut r = String::from_str(keyword);
    r.append(" ");
    r.append(debug_string(name).as_str());
    r
}

/// Writes the text of a parameter from the text of its type and its name.
pub fn render_param(ty: &str, name: &str) -> (r: String)
    ensures
        r@ == param_text(ty@, name@),
{
    let mut r = String::from_str("(");
    r.append(ty);
    r.append(", ");
    r.append(debug_string(name).as_str());
    r.append(")");
    r
}

impl ArraySize {
    /// The text of the size: between square brackets nothing, the number in
    /// decimal, or the expression as it was written.
    pub open spec fn text(self) -> Seq<char> {
        match self {
            ArraySize::Incomplete => "[]"@,
            ArraySize::Fixed(n) => "["@ + decimal_text(n as nat) + "]"@,
            ArraySize::Expr(e) => "["@ + e.node().text@ + "]"@,
        }
    }

    /// Writes the size.
    pub fn render(&self) -> (r: String)
        ensures
            r@ == self.text(),
    {
        match self {
            ArraySize::Incomplete => String::from_str("[]"),
            ArraySize::Fixed(n) => {
                let mut r = String::from_str("[");
                r.append(decimal(*n).as_str());
                r.append("]");
                r
            },
            ArraySize::Expr(e) => {
                let mut r = String::from_str("[");
                r.append(e.text.as_str());
                r.append("]");
                r
            },
        }
    }
}

impl Type {
    /// Whether `s` can be the text of this type: the qualifiers, then a text
    /// of the base type.
    pub open spec fn renders(self, s: Seq<char>) -> bool
        decreases self,
    {
        exists|b: Seq<char>|
            self.basetype.renders(b) && s == #[trigger] qualified_text(self.qualifiers, b)
    }

    /// Whether the type mentions no tag, so that its text is read from the
    /// type alone.
    pub open spec fn tag_free(self) -> bool
        decreases self,
    {
        self.basetype.tag_free()
    }

    /// Writes the type. `None` where the record of a tag that the type
    /// mentions is borrowed exclusively at this moment and cannot be read.
    pub fn render(&self) -> (r: Option<String>)
        ensures
            r matches Some(s) ==> self.renders(s@),
            self.tag_free() ==> r is Some,
        decreases self,
    {
        match self.basetype.render() {
            Some(b) => {
                let mut r = self.qualifiers.render();
                r.append(b.as_str());
                assert(r@ == qualified_text(self.qualifiers, b@));
                Some(r)
            },
            None => None,
        }
    }
}

impl BaseType {
    /// Whether `s` can be the text of this base type.
    pub open spec fn renders(self, s: Seq<char>) -> bool
        decreases self,
    {
        match self {
            BaseType::Void => s == "void"@,
            BaseType::Bool => s == "_Bool"@,
            BaseType::Struct(_) => exists|name: Seq<char>| s == #[trigger] tag_text("struct"@, name),
            BaseType::Union(_) => exists|name: Seq<char>| s == #[trigger] tag_text("union"@, name),
            BaseType::Enum(_) => exists|name: Seq<char>| s == #[trigger] tag_text("enum"@, name),
            BaseType::Float(c) => s == c.text(),
            BaseType::Integer(c) => s == c.text(),
            BaseType::MagicType(m) => s == "/*magic*/ "@ + m.text(),
            BaseType::Array(t, n) => exists|e: Seq<char>|
                t.renders(e) && s == #[trigger] array_text(e, n),
            BaseType::Pointer(t) => exists|p: Seq<char>|
                t.renders(p) && s == #[trigger] pointer_text(p),
            BaseType::Function(f) => f.renders(s),
        }
    }

    /// Whether the base type mentions no tag.
    pub open spec fn tag_free(self) -> bool
        decreases self,
    {
        match self {
            BaseType::Struct(_) | BaseType::Union(_) | BaseType::Enum(_) => false,
            BaseType::Array(t, _) => t.tag_free(),
            BaseType::Pointer(t) => t.tag_free(),
            BaseType::Function(f) => f.tag_free(),
            _ => true,
        }
    }

    /// Writes the base type. `None` where the record of a tag that it
    /// mentions is borrowed exclusively at this moment and cannot be read.
    pub fn render(&self) -> (r: Option<String>)
        ensures
            r matches Some(s) ==> self.renders(s@),
            self.tag_free() ==> r is Some,
        decreases self,
    {
        match self {
            BaseType::Void => Some(String::from_str("void")),
            BaseType::Bool => Some(String::from_str("_Bool")),
            BaseType::Struct(h) => match h.borrow() {
                Some(guard) => Some(render_tag("struct", record(&guard).name.as_str())),
                None => None,
            },
            BaseType::Union(h) => match h.borrow() {
                Some(guard) => Some(render_tag("union", record(&guard).name.as_str())),
                None => None,
            },
            BaseType::Enum(h) => match h.borrow() {
                Some(guard) => Some(render_tag("enum", record(&guard).name.as_str())),
                None => None,
            },
            BaseType::Float(c) => Some(c.render()),
            BaseType::Integer(c) => Some(c.render()),
            BaseType::MagicType(m) => {
                let mut r = String::from_str("/*magic*/ ");
                r.append(m.render().as_str());
                Some(r)
            },
            BaseType::Array(t, n) => match t.render() {
                Some(mut r) => {
                    let ghost element = r@;
                    r.append(n.render().as_str());
                    assert(r@ == array_text(element, *n));
                    Some(r)
                },
                None => None,
            },
            BaseType::Pointer(t) => match t.render() {
                Some(p) => {
                    let mut r = String::from_str("*");
                    r.append(p.as_str());
                    assert(r@ == pointer_text(p@));
                    Some(r)
                },
                None => None,
            },
            BaseType::Function(f) => f.render(),
        }
    }
}

impl FunctionType {
    /// Whether `s` can be the text of this function type.
    pub open spec fn renders(self, s: Seq<char>) -> bool
        decreases self,
    {
        exists|ret: Seq<char>, items: Seq<Seq<char>>|
            {
                &&& self.ret.renders(ret)
                &&& params_render(self.args@, items)
                &&& s == #[trigger] function_text(ret, items)
            }
    }

    /// Whether the function type mentions no tag.
    pub open spec fn tag_free(self) -> bool
        decreases self,
    {
        self.ret.tag_free() && params_tag_free(self.args@)
    }

    /// Writes the function type. `None` where the record of a tag that it
    /// mentions is borrowed exclusively at this moment and cannot be read.
    pub fn render(&self) -> (r: Option<String>)
        ensures
            r matches Some(s) ==> self.renders(s@),
            self.tag_free() ==> r is Some,
        decreases self,
    {
        let ret = match self.ret.render() {
            Some(ret) => ret,
            None => {
                return None;
            },
        };
        let list = match render_params(&self.args) {
            Some(list) => list,
            None => {
                return None;
            },
        };
        let mut r = String::from_str("Fcn(");
        r.append(ret.as_str());
        r.append(", ");
        r.append(list.as_str());
        r.append(")");
        proof {
            let items = choose|items: Seq<Seq<char>>|
                params_render(self.args@, items) && list@ == #[trigger] list_text(items);
            assert(r@ == function_text(ret@, items));
        }
        Some(r)
    }
}

/// Writes a list of parameters, or of members: each as `param_text` has it,
/// between square brackets. `None` where the record of a tag that one of
/// them mentions is borrowed exclusively at this moment and cannot be read.
pub fn render_params(args: &Vec<(Rc<Type>, String)>) -> (r: Option<String>)
    ensures
        r matches Some(s) ==> exists|items: Seq<Seq<char>>|
            params_render(args@, items) && s@ == #[trigger] list_text(items),
        params_tag_free(args@) ==> r is Some,
    decreases args,
{
    let mut list = String::from_str("[");
    let ghost mut items: Seq<Seq<char>> = Seq::empty();
    let mut i: usize = 0;
    while i < args.len()
        invariant
            i <= args.len(),
            items.len() == i,
            forall|j: int| 0 <= j < i ==> param_renders(#[trigger] args@[j], items[j]),
            list@ == "["@ + joined_text(items),
        decreases args.len() - i,
    {
        let ty = match args[i].0.render() {
            Some(ty) => ty,
            None => {
                assert(!args@[i as int].0.tag_free());
                return None;
            },
        };
        let item = render_param(ty.as_str(), args[i].1.as_str());
        if i > 0 {
            list.append(", ");
        }
        list.append(item.as_str());
        proof {
            let longer = items.push(item@);
            assert(longer.drop_last() =~= items);
            assert(item@ == param_text(ty@, args@[i as int].1@));
            items = longer;
        }
        i += 1;
    }
    list.append("]");
    proof {
        assert(params_render(args@, items));
        assert(list@ == list_text(items));
    }
    Some(list)
}

/// The text of a tag's record: the kind, and between curly brackets the
/// name as `debug_text` shows it and the text of the items.
pub open spec fn record_text(kind: Seq<char>, name: Seq<char>, items: Seq<char>) -> Seq<char> {
    kind + " { name: "@ + debug_text(name) + ", items: "@ + items + " }"@
}

/// The text of items that are known: `Some`, and the list between round
/// brackets.
pub open spec fn some_text(list: Seq<char>) -> Seq<char> {
    "Some("@ + list + ")"@
}

/// The text of an enum constant: between round brackets its value in
/// decimal, a comma and a space, and its name as `debug_text` shows it.
pub open spec fn constant_text(value: u64, name: Seq<char>) -> Seq<char> {
    "("@ + decimal_text(value as nat) + ", "@ + debug_text(name) + ")"@
}

/// The texts of the constants of an enum, one for one.
pub open spec fn constants_text(items: Seq<(u64, String)>) -> Seq<Seq<char>> {
    Seq::new(items.len(), |i: int| constant_text(items[i].0, items[i].1@))
}

/// Writes the record of a tag from its kind, its name and the text of its
/// items.
pub fn render_record(kind: &str, name: &str, items: &str) -> (r: String)
    ensures
        r@ == record_text(kind@, name@, items@),
{
    let mut r = String::from_str(kind);
    r.append(" { name: ");
    r.append(debug_string(name).as_str());
    r.append(", items: ");
    r.append(items);
    r.append(" }");
    r
}

/// Writes the members of a struct or a union, known or not. `None` where the
/// record of a tag that a member mentions is borrowed exclusively at this
/// moment and cannot be read.
fn render_members(items: &Option<Vec<(Rc<Type>, String)>>) -> (r: Option<String>)
    ensures
        r matches Some(s) ==> members_render(*items, s@),
        members_tag_free(*items) ==> r is Some,
{
    match items {
        None => Some(String::from_str("None")),
        Some(v) => match render_params(v) {
            Some(list) => {
                let mut r = String::from_str("Some(");
                r.append(list.as_str());
                r.append(")");
                proof {
                    let texts = choose|texts: Seq<Seq<char>>|
                        params_render(v@, texts) && list@ == #[trigger] list_text(texts);
                    assert(r@ == some_text(list_text(texts)));
                }
                Some(r)
            },
            None => None,
        },
    }
}

/// Whether `s` can be the text of these members, known or not.
pub open spec fn members_render(items: Option<Vec<(Rc<Type>, String)>>, s: Seq<char>) -> bool {
    match items {
        None => s == "None"@,
        Some(v) => exists|texts: Seq<Seq<char>>|
            params_render(v@, texts) && s == some_text(#[trigger] list_text(texts)),
    }
}

/// Whether no member mentions a tag.
pub open spec fn members_tag_free(items: Option<Vec<(Rc<Type>, String)>>) -> bool {
    match items {
        None => true,
        Some(v) => params_tag_free(v@),
    }
}

impl Struct {
    /// Whether `s` can be the text of this record.
    pub open spec fn renders(self, s: Seq<char>) -> bool {
        exists|items: Seq<char>|
            members_render(self.items, items) && s == #[trigger] record_text(
                "Struct"@,
                self.name@,
                items,
            )
    }

    /// Writes the record. `None` where the record of a tag that a member
    /// mentions is borrowed exclusively at this moment and cannot be read.
    pub fn render(&self) -> (r: Option<String>)
        ensures
            r matches Some(s) ==> self.renders(s@),
            members_tag_free(self.items) ==> r is Some,
    {
        match render_members(&self.items) {
            Some(items) => Some(render_record("Struct", self.name.as_str(), items.as_str())),
            None => None,
        }
    }
}

impl Union {
    /// Whether `s` can be the text of this record.
    pub open spec fn renders(self, s: Seq<char>) -> bool {
        exists|items: Seq<char>|
            members_render(self.items, items) && s == #[trigger] record_text(
                "Union"@,
                self.name@,
                items,
            )
    }

    /// Writes the record. `None` where the record of a tag that a member
    /// mentions is borrowed exclusively at this moment and cannot be read.
    pub fn render(&self) -> (r: Option<String>)
        ensures
            r matches Some(s) ==> self.renders(s@),
            members_tag_free(self.items) ==> r is Some,
    {
        match render_members(&self.items) {
            Some(items) => Some(render_record("Union", self.name.as_str(), items.as_str())),
            None => None,
        }
    }
}

impl Enum {
    /// The text of this record.
    pub open spec fn text(self) -> Seq<char> {
        record_text(
            "Enum"@,
            self.name@,
            match self.items {
                None => "None"@,
                Some(v) => some_text(list_text(constants_text(v@))),
            },
        )
    }

    /// Writes the record.
    pub fn render(&self) -> (r: String)
        ensures
            r@ == self.text(),
    {
        match &self.items {
            None => render_record("Enum", self.name.as_str(), "None"),
            Some(v) => {
                let mut list = String::from_str("[");
                let ghost mut items: Seq<Seq<char>> = Seq::empty();
                let mut i: usize = 0;
                while i < v.len()
                    invariant
                        i <= v.len(),
                        items.len() == i,
                        forall|j: int|
                            0 <= j < i ==> #[trigger] items[j] == constant_text(v@[j].0, v@[j].1@),
                        list@ == "["@ + joined_text(items),
                    decreases v.len() - i,
                {
                    let mut item = String::from_str("(");
                    item.append(decimal(v[i].0).as_str());
                    item.append(", ");
                    item.append(debug_string(v[i].1.as_str()).as_str());
                    item.append(")");
                    if i > 0 {
                        list.append(", ");
                    }
                    list.append(item.as_str());
                    proof {
                        let longer = items.push(item@);
                        assert(longer.drop_last() =~= items);
                        items = longer;
                    }
                    i += 1;
                }
                list.append("]");
                let mut known = String::from_str("Some(");
                known.append(list.as_str());
                known.append(")");
                proof {
                    assert(items =~= constants_text(v@));
                }
                render_record("Enum", self.name.as_str(), known.as_str())
            },
        }
    }
}

/// The type behind a shared node.
spec fn target(a: Rc<Type>) -> Type {
    *a
}

/// The base type of a type.
spec fn base_of(t: Type) -> BaseType {
    t.basetype
}

/// A type that mentions no tag has one text: `renders` holds of no two
/// different texts.
pub proof fn lemma_tag_free_text_is_determined(t: Type, s1: Seq<char>, s2: Seq<char>)
    requires
        t.tag_free(),
        t.renders(s1),
        t.renders(s2),
    ensures
        s1 == s2,
    decreases t,
{
    let b1 = choose|b: Seq<char>|
        t.basetype.renders(b) && s1 == #[trigger] qualified_text(t.qualifiers, b);
    let b2 = choose|b: Seq<char>|
        t.basetype.renders(b) && s2 == #[trigger] qualified_text(t.qualifiers, b);
    lemma_tag_free_base_text_is_determined(base_of(t), b1, b2);
}

/// A base type that mentions no tag has one text.
pub proof fn lemma_tag_free_base_text_is_determined(b: BaseType, s1: Seq<char>, s2: Seq<char>)
    requires
        b.tag_free(),
        b.renders(s1),
        b.renders(s2),
    ensures
        s1 == s2,
    decreases b,
{
    match b {
        BaseType::Array(t, n) => {
            let e1 = choose|e: Seq<char>| t.renders(e) && s1 == #[trigger] array_text(e, n);
            let e2 = choose|e: Seq<char>| t.renders(e) && s2 == #[trigger] array_text(e, n);
            lemma_tag_free_text_is_determined(target(t), e1, e2);
        },
        BaseType::Pointer(t) => {
            let p1 = choose|p: Seq<char>| t.renders(p) && s1 == #[trigger] pointer_text(p);
            let p2 = choose|p: Seq<char>| t.renders(p) && s2 == #[trigger] pointer_text(p);
            lemma_tag_free_text_is_determined(target(t), p1, p2);
        },
        BaseType::Function(f) => {
            lemma_tag_free_function_text_is_determined(f, s1, s2);
        },
        _ => {},
    }
}

/// A function type that mentions no tag has one text.
pub proof fn lemma_tag_free_function_text_is_determined(
    f: FunctionType,
    s1: Seq<char>,
    s2: Seq<char>,
)
    requires
        f.tag_free(),
        f.renders(s1),
        f.renders(s2),
    ensures
        s1 == s2,
    decreases f,
{
    let (r1, items1) = choose|ret: Seq<char>, items: Seq<Seq<char>>|
        {
            &&& f.ret.renders(ret)
            &&& params_render(f.args@, items)
            &&& s1 == #[trigger] function_text(ret, items)
        };
    let (r2, items2) = choose|ret: Seq<char>, items: Seq<Seq<char>>|
        {
            &&& f.ret.renders(ret)
            &&& params_render(f.args@, items)
            &&& s2 == #[trigger] function_text(ret, items)
        };
    lemma_tag_free_text_is_determined(target(f.ret), r1, r2);
    lemma_tag_free_params_text_is_determined(f.args@, items1, items2);
}

/// Parameters that mention no tag have one text each.
proof fn lemma_tag_free_params_text_is_determined(
    args: Seq<(Rc<Type>, String)>,
    items1: Seq<Seq<char>>,
    items2: Seq<Seq<char>>,
)
    requires
        params_tag_free(args),
        params_render(args, items1),
        params_render(args, items2),
    ensures
        items1 == items2,
    decreases args,
{
    assert forall|i: int| 0 <= i < args.len() implies items1[i] == items2[i] by {
        let p = args[i];
        assert(param_renders(p, items1[i]));
        assert(param_renders(p, items2[i]));
        let t1 = choose|ty: Seq<char>| p.0.renders(ty) && items1[i] == #[trigger] param_text(ty, p.1@);
        let t2 = choose|ty: Seq<char>| p.0.renders(ty) && items2[i] == #[trigger] param_text(ty, p.1@);
        lemma_tag_free_text_is_determined(target(p.0), t1, t2);
    }
    assert(items1 =~= items2);
}

} // verus!
