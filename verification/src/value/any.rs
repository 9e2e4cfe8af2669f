//! Dynamically tagged configuration values.
//!
//! A configuration key or property value is one of a closed set of plain
//! shapes, each carrying its runtime type in its variant tag.  Contracts
//! speak about such a value through its mathematical view [`ValueView`].

use vstd::prelude::*;

verus! {

/// The runtime type of a [`ConfigValue`].
#[derive(Clone, Copy, Debug, Hash, PartialEq, Eq, Structural)]
pub enum TypeTag {
    Int,
    Str,
    Bool,
}

/// A dynamically tagged configuration key or value.
#[derive(Clone, Debug, Hash, PartialEq, Eq)]
pub enum ConfigValue {
    Int(i64),
    Str(String),
    Bool(bool),
}

/// The mathematical value of a [`ConfigValue`].
#[verifier::ext_equal]
pub enum ValueView {
    Int(int),
    Str(Seq<char>),
    Bool(bool),
}

impl View for ConfigValue {
    type V = ValueView;

    open spec fn view(&self) -> ValueView {
        match self {
            ConfigValue::Int(i) => ValueView::Int(*i as int),
            ConfigValue::Str(s) => ValueView::Str(s@),
            ConfigValue::Bool(b) => ValueView::Bool(*b),
        }
    }
}

/// The runtime type of an abstract value.
pub open spec fn tag_of(v: ValueView) -> TypeTag {
    match v {
        ValueView::Int(_) => TypeTag::Int,
        ValueView::Str(_) => TypeTag::Str,
        ValueView::Bool(_) => TypeTag::Bool,
    }
}

/// The views of an optional value.
pub open spec fn opt_view(o: Option<ConfigValue>) -> Option<ValueView> {
    match o {
        Some(v) => Some(v@),
        None => None,
    }
}

impl ConfigValue {
    /// The runtime type of this value.
    pub fn type_tag(&self) -> (t: TypeTag)
        ensures
            t == tag_of(self@),
    {
        match self {
            ConfigValue::Int(_) => TypeTag::Int,
            ConfigValue::Str(_) => TypeTag::Str,
            ConfigValue::Bool(_) => TypeTag::Bool,
        }
    }

}

/// Decides equality of two values by their views.
pub fn equal(a: &ConfigValue, b: &ConfigValue) -> (r: bool)
    ensures
        r == (a@ == b@),
{
    match (a, b) {
        (ConfigValue::Int(x), ConfigValue::Int(y)) => x == y,
        (ConfigValue::Str(x), ConfigValue::Str(y)) => x.eq(y),
        (ConfigValue::Bool(x), ConfigValue::Bool(y)) => x == y,
        _ => false,
    }
}

/// Decides equality of two optional values by their views.
pub fn opt_value_eq(a: &Option<ConfigValue>, b: &Option<ConfigValue>) -> (r: bool)
    ensures
        r == (opt_view(*a) == opt_view(*b)),
{
    match (a, b) {
        (Some(x), Some(y)) => equal(x, y),
        (None, None) => true,
        _ => false,
    }
}

/// An exact copy of a value.
pub fn clone(v: &ConfigValue) -> (r: ConfigValue)
    ensures
        r@ == v@,
{
    match v {
        ConfigValue::Int(i) => ConfigValue::Int(*i),
        ConfigValue::Str(s) => ConfigValue::Str(s.clone()),
        ConfigValue::Bool(b) => ConfigValue::Bool(*b),
    }
}

/// One step of the string hash: the running hash folded with one more
/// character.
pub open spec fn hash_step(h: u64, c: char) -> u64 {
    h.wrapping_mul(31).wrapping_add(c as u64)
}

/// The hash of the characters of `s` from index `i` on, folded onto `h`.
pub open spec fn str_hash_from(s: Seq<char>, i: int, h: u64) -> u64
    decreases s.len() - i,
{
    if i < 0 || i >= s.len() {
        h
    } else {
        str_hash_from(s, i + 1, hash_step(h, s[i]))
    }
}

/// The hash of an abstract value: each variant mixes its payload under
/// a distinct seed, so that equal views always hash alike.
pub open spec fn spec_value_hash(v: ValueView) -> u64 {
    match v {
        ValueView::Int(i) => if i >= 0 {
            (3u64).wrapping_add(i as u64)
        } else {
            (5u64).wrapping_add((i + 0x8000_0000_0000_0000) as u64)
        },
        ValueView::Str(s) => str_hash_from(s, 0, 7u64),
        ValueView::Bool(b) => if b {
            11u64
        } else {
            13u64
        },
    }
}

/// The hash of a value, a function of its view alone.
pub fn hash(v: &ConfigValue) -> (r: u64)
    ensures
        r == spec_value_hash(v@),
{
    match v {
        ConfigValue::Int(i) => {
            if *i >= 0 {
                3u64.wrapping_add(*i as u64)
            } else {
                let m: u64 = ((*i + 1) + 0x7fff_ffff_ffff_ffff) as u64;
                proof {
                    assert(m == *i + 0x8000_0000_0000_0000int);
                }
                5u64.wrapping_add(m)
            }
        },
        ConfigValue::Str(s) => {
            let ghost sv = s@;
            let text = s.as_str();
            let n = text.unicode_len();
            let mut h: u64 = 7;
            let mut i: usize = 0;
            while i < n
                invariant
                    i <= n,
                    n == sv.len(),
                    sv == text@,
                    str_hash_from(sv, 0, 7u64) == str_hash_from(sv, i as int, h),
                decreases n - i,
            {
                let c = text.get_char(i);
                h = h.wrapping_mul(31).wrapping_add(c as u64);
                i += 1;
            }
            h
        },
        ConfigValue::Bool(b) => {
            if *b {
                11
            } else {
                13
            }
        },
    }
}


/// An exact copy of an optional value.
pub fn clone_opt_value(v: &Option<ConfigValue>) -> (r: Option<ConfigValue>)
    ensures
        opt_view(r) == opt_view(*v),
{
    match v {
        Some(x) => Some(clone(x)),
        None => None,
    }
}

/// The display rendering of an abstract value: a number in decimal, a
/// string as its characters, a boolean as `true` or `false`.
pub open spec fn spec_display(v: ValueView) -> Seq<char> {
    match v {
        ValueView::Int(i) => crate::convert::int_dec_view(i),
        ValueView::Str(s) => s,
        ValueView::Bool(b) => if b {
            "true"@
        } else {
            "false"@
        },
    }
}

/// The debug rendering of an abstract value: as the display rendering,
/// but with a string wrapped in double quotes.
pub open spec fn spec_debug(v: ValueView) -> Seq<char> {
    match v {
        ValueView::Str(s) => seq!['"'] + s + seq!['"'],
        _ => spec_display(v),
    }
}

/// The display rendering of a value.
pub fn to_string(v: &ConfigValue) -> (r: String)
    ensures
        r@ == spec_display(v@),
{
    match v {
        ConfigValue::Int(i) => crate::convert::int_to_string(*i),
        ConfigValue::Str(s) => s.clone(),
        ConfigValue::Bool(b) => {
            if *b {
                "true".to_owned()
            } else {
                "false".to_owned()
            }
        },
    }
}

/// The debug rendering of a value.
pub fn to_debug_string(v: &ConfigValue) -> (r: String)
    ensures
        r@ == spec_debug(v@),
{
    match v {
        ConfigValue::Str(s) => {
            let mut r = String::from_str("\"");
            r.append(s.as_str());
            r.append("\"");
            proof {
                reveal_strlit("\"");
                assert(r@ =~= seq!['"'] + s@ + seq!['"']);
            }
            r
        },
        _ => to_string(v),
    }
}

/// A container for one dynamically tagged value, comparable and
/// hashable without the caller committing to one static type.
#[derive(Clone, Debug, Hash, PartialEq, Eq)]
pub struct AnyObject {
    value: ConfigValue,
}

impl View for AnyObject {
    type V = ValueView;

    closed spec fn view(&self) -> ValueView {
        self.value@
    }
}

impl AnyObject {
    /// A container holding the given value.
    pub fn new(value: ConfigValue) -> (r: AnyObject)
        ensures
            r@ == value@,
    {
        AnyObject { value }
    }

    /// The held value.
    pub fn as_ref(&self) -> (r: &ConfigValue)
        ensures
            r@ == self@,
    {
        &self.value
    }

    /// The display rendering of the held value.
    pub fn to_display_string(&self) -> (r: String)
        ensures
            r@ == spec_display(self@),
    {
        to_string(&self.value)
    }
}

} // verus!
