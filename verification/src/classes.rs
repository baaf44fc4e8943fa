//! The closed classifications: signedness, the integer and floating classes,
//! storage classes, and the types that only the compiler can name.

use vstd::prelude::*;
use vstd::std_specs::cmp::PartialEqSpecImpl;
use vstd::string::*;
use crate::text::debug_string;
use crate::text::debug_text;
use crate::text::decimal;
use crate::text::decimal_text;

pub use self::Signedness::Signed;
pub use self::Signedness::Unsigned;

verus! {

/// Whether an integer type has a sign.
#[derive(Debug, PartialEq, Eq, Structural, Clone, Copy)]
pub enum Signedness {
    Signed,
    Unsigned,
}

impl Signedness {
    /// `Signed` for `true`, `Unsigned` for `false`.
    pub fn from_bool_signed(s: bool) -> (r: Self)
        ensures
            r == (if s {
                Signedness::Signed
            } else {
                Signedness::Unsigned
            }),
    {
        if s {
            Signedness::Signed
        } else {
            Signedness::Unsigned
        }
    }

    /// Whether this is `Unsigned`.
    pub fn is_unsigned(&self) -> (r: bool)
        ensures
            r == (*self == Signedness::Unsigned),
    {
        *self == Signedness::Unsigned
    }

    /// The name of the variant.
    pub open spec fn text(self) -> Seq<char> {
        match self {
            Signedness::Signed => "Signed"@,
            Signedness::Unsigned => "Unsigned"@,
        }
    }

    /// The name of the variant, as text.
    pub fn render(&self) -> (r: String)
        ensures
            r@ == self.text(),
    {
        match self {
            Signedness::Signed => String::from_str("Signed"),
            Signedness::Unsigned => String::from_str("Unsigned"),
        }
    }
}

/// The integer types.
#[derive(Debug, PartialEq, Eq, Structural, Clone, Copy)]
pub enum IntClass {
    /// An extension type of a fixed number of bits.
    Bits(Signedness, u8),
    /// `char`, `signed char` or `unsigned char`: plain `char` is a type of its
    /// own, whichever signedness the implementation gives it.
    Char(Option<Signedness>),
    /// `[un]signed short [int]`
    Short(Signedness),
    /// `[un]signed int`
    Int(Signedness),
    /// `[un]signed long [int]`
    Long(Signedness),
    /// `[un]signed long long [int]`
    LongLong(Signedness),
}

impl IntClass {
    /// Plain `char`.
    pub fn char() -> (r: Self)
        ensures
            r == IntClass::Char(None),
    {
        IntClass::Char(None)
    }

    /// Plain `int`, which is signed.
    pub fn signed_int() -> (r: Self)
        ensures
            r == IntClass::Int(Signedness::Signed),
    {
        IntClass::Int(Signedness::Signed)
    }

    /// The variant with what it holds between round brackets.
    pub open spec fn text(self) -> Seq<char> {
        match self {
            IntClass::Bits(s, n) => "Bits("@ + s.text() + ", "@ + decimal_text(n as nat) + ")"@,
            IntClass::Char(None) => "Char(None)"@,
            IntClass::Char(Some(s)) => "Char(Some("@ + s.text() + "))"@,
            IntClass::Short(s) => "Short("@ + s.text() + ")"@,
            IntClass::Int(s) => "Int("@ + s.text() + ")"@,
            IntClass::Long(s) => "Long("@ + s.text() + ")"@,
            IntClass::LongLong(s) => "LongLong("@ + s.text() + ")"@,
        }
    }

    /// The variant with what it holds, as text.
    pub fn render(&self) -> (r: String)
        ensures
            r@ == self.text(),
    {
        match self {
            IntClass::Bits(s, n) => {
                let mut r = String::from_str("Bits(");
                r.append(s.render().as_str());
                r.append(", ");
                r.append(decimal(*n as u64).as_str());
                r.append(")");
                r
            },
            IntClass::Char(None) => String::from_str("Char(None)"),
            IntClass::Char(Some(s)) => {
                let mut r = String::from_str("Char(Some(");
                r.append(s.render().as_str());
                r.append("))");
                r
            },
            IntClass::Short(s) => wrapped("Short(", s),
            IntClass::Int(s) => wrapped("Int(", s),
            IntClass::Long(s) => wrapped("Long(", s),
            IntClass::LongLong(s) => wrapped("LongLong(", s),
        }
    }
}

/// A signedness behind the opening of a variant and before a closing bracket.
fn wrapped(opening: &str, s: &Signedness) -> (r: String)
    ensures
        r@ == opening@ + s.text() + ")"@,
{
    let mut r = String::from_str(opening);
    r.append(s.render().as_str());
    r.append(")");
    r
}

/// The floating types.
#[derive(Debug, PartialEq, Eq, Structural, Clone, Copy)]
pub enum FloatClass {
    Float,
    Double,
    LongDouble,
}

impl FloatClass {
    /// The name of the variant.
    pub open spec fn text(self) -> Seq<char> {
        match self {
            FloatClass::Float => "Float"@,
            FloatClass::Double => "Double"@,
            FloatClass::LongDouble => "LongDouble"@,
        }
    }

    /// The name of the variant, as text.
    pub fn render(&self) -> (r: String)
        ensures
            r@ == self.text(),
    {
        match self {
            FloatClass::Float => String::from_str("Float"),
            FloatClass::Double => String::from_str("Double"),
            FloatClass::LongDouble => String::from_str("LongDouble"),
        }
    }
}

/// Where a declared object is kept. Declarators give one; nothing here reads it.
#[derive(Debug, PartialEq, Eq, Structural, Clone, Copy)]
pub enum StorageClass {
    Auto,
    Extern,
    Static,
    Register,
}

impl StorageClass {
    /// The name of the variant.
    pub open spec fn text(self) -> Seq<char> {
        match self {
            StorageClass::Auto => "Auto"@,
            StorageClass::Extern => "Extern"@,
            StorageClass::Static => "Static"@,
            StorageClass::Register => "Register"@,
        }
    }

    /// The name of the variant, as text.
    pub fn render(&self) -> (r: String)
        ensures
            r@ == self.text(),
    {
        match self {
            StorageClass::Auto => String::from_str("Auto"),
            StorageClass::Extern => String::from_str("Extern"),
            StorageClass::Static => String::from_str("Static"),
            StorageClass::Register => String::from_str("Register"),
        }
    }
}

/// A type that the compiler provides and no declaration spells out.
#[derive(Debug)]
pub enum MagicType {
    /// The type of a variable argument list.
    VaList,
    /// A builtin known by two names.
    Named(String, String),
}

impl MagicType {
    /// Whether two values name the same builtin: the same variant, holding
    /// the same characters.
    pub open spec fn same(self, other: MagicType) -> bool {
        match (self, other) {
            (MagicType::VaList, MagicType::VaList) => true,
            (MagicType::Named(a, b), MagicType::Named(c, d)) => a@ == c@ && b@ == d@,
            _ => false,
        }
    }

    /// The variant, with both names as `debug_text` shows them where it has
    /// names.
    pub open spec fn text(self) -> Seq<char> {
        match self {
            MagicType::VaList => "VaList"@,
            MagicType::Named(a, b) => "Named("@ + debug_text(a@) + ", "@ + debug_text(b@) + ")"@,
        }
    }

    /// The variant with what it holds, as text.
    pub fn render(&self) -> (r: String)
        ensures
            r@ == self.text(),
    {
        match self {
            MagicType::VaList => String::from_str("VaList"),
            MagicType::Named(a, b) => {
                let mut r = String::from_str("Named(");
                r.append(debug_string(a.as_str()).as_str());
                r.append(", ");
                r.append(debug_string(b.as_str()).as_str());
                r.append(")");
                r
            },
        }
    }
}

impl Clone for MagicType {
    fn clone(&self) -> (r: Self)
        ensures
            r == *self,
    {
        match self {
            MagicType::VaList => MagicType::VaList,
            MagicType::Named(a, b) => MagicType::Named(a.clone(), b.clone()),
        }
    }
}

impl PartialEq for MagicType {
    fn eq(&self, other: &Self) -> (r: bool) {
        match (self, other) {
            (MagicType::VaList, MagicType::VaList) => true,
            (MagicType::Named(a, b), MagicType::Named(c, d)) => *a == *c && *b == *d,
            _ => false,
        }
    }
}

impl PartialEqSpecImpl for MagicType {
    open spec fn obeys_eq_spec() -> bool {
        true
    }

    open spec fn eq_spec(&self, other: &Self) -> bool {
        self.same(*other)
    }
}

} // verus!
