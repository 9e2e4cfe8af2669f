//! Value converters.
//!
//! A converter turns a raw value of one runtime type into a value of
//! the type a property declares.  A property carries an ordered list of
//! converters; a source tries them in declaration order and keeps the first
//! result.  Each converter here is total executable code proved against an
//! exact mathematical description of what it computes.

use vstd::prelude::*;

use crate::value::any::ConfigValue;
use crate::value::any::ValueView;
use crate::value::any::opt_view;
use vstd::string::StrSliceExecFns;
use vstd::string::StringExecFns;

verus! {

/// Whether `c` is a decimal digit.
pub open spec fn is_digit(c: char) -> bool {
    48 <= c as int <= 57
}

/// The numeric value of a decimal digit.
pub open spec fn digit_val(c: char) -> int {
    c as int - 48
}

/// Whether every character of `s` is a decimal digit.
pub open spec fn all_digits(s: Seq<char>) -> bool {
    forall|i: int| 0 <= i < s.len() ==> is_digit(#[trigger] s[i])
}

/// The number denoted by a sequence of decimal digits, most significant first.
pub open spec fn digits_val(s: Seq<char>) -> int
    decreases s.len(),
{
    if s.len() == 0 {
        0
    } else {
        digits_val(s.drop_last()) * 10 + digit_val(s.last())
    }
}

/// The signed number denoted by `s`, if `s` is an optional minus sign
/// followed by one or more decimal digits and the number fits in an `i64`.
pub open spec fn parse_int_view(s: Seq<char>) -> Option<int> {
    if s.len() > 0 && s[0] == '-' {
        let d = s.skip(1);
        if d.len() > 0 && all_digits(d) && -digits_val(d) >= i64::MIN {
            Some(-digits_val(d))
        } else {
            None
        }
    } else {
        if s.len() > 0 && all_digits(s) && digits_val(s) <= i64::MAX {
            Some(digits_val(s))
        } else {
            None
        }
    }
}

/// The digit character for a value below ten.
pub open spec fn digit_char(d: int) -> char {
    if d == 0 {
        '0'
    } else if d == 1 {
        '1'
    } else if d == 2 {
        '2'
    } else if d == 3 {
        '3'
    } else if d == 4 {
        '4'
    } else if d == 5 {
        '5'
    } else if d == 6 {
        '6'
    } else if d == 7 {
        '7'
    } else if d == 8 {
        '8'
    } else {
        '9'
    }
}

/// The decimal digits of a nonnegative number, most significant first.
pub open spec fn dec_digits(n: int) -> Seq<char>
    decreases n,
{
    if n < 10 {
        seq![digit_char(n)]
    } else {
        dec_digits(n / 10).push(digit_char(n % 10))
    }
}

/// The decimal rendering of a signed number.
pub open spec fn int_dec_view(i: int) -> Seq<char> {
    if i < 0 {
        seq!['-'] + dec_digits(-i)
    } else {
        dec_digits(i)
    }
}

/// A digit string denotes a nonnegative number.
proof fn lemma_digits_val_nonneg(s: Seq<char>)
    requires
        all_digits(s),
    ensures
        digits_val(s) >= 0,
    decreases s.len(),
{
    if s.len() > 0 {
        assert(all_digits(s.drop_last()));
        lemma_digits_val_nonneg(s.drop_last());
    }
}

/// Dropping trailing digits never increases the denoted number.
proof fn lemma_digits_val_prefix(s: Seq<char>, i: int)
    requires
        all_digits(s),
        0 <= i <= s.len(),
    ensures
        digits_val(s.subrange(0, i)) <= digits_val(s),
    decreases s.len() - i,
{
    if i == s.len() {
        assert(s.subrange(0, i) =~= s);
    } else {
        let t = s.subrange(0, i + 1);
        assert(t.drop_last() =~= s.subrange(0, i));
        assert(all_digits(t.drop_last()));
        lemma_digits_val_nonneg(t.drop_last());
        lemma_digits_val_prefix(s, i + 1);
    }
}

/// Reads a signed decimal number from a string.
///
/// Succeeds exactly on an optional minus sign followed by one or more
/// decimal digits denoting a number that fits in an `i64`.
pub fn parse_int(s: &str) -> (r: Option<i64>)
    ensures
        r matches Some(i) ==> parse_int_view(s@) == Some(i as int),
        r is None ==> parse_int_view(s@) is None,
{
    let n = s.unicode_len();
    if n == 0 {
        return None;
    }
    let neg = s.get_char(0) == '-';
    let start: usize = if neg {
        1
    } else {
        0
    };
    if start == n {
        return None;
    }
    let ghost digits = s@.subrange(start as int, n as int);
    proof {
        if neg {
            assert(digits =~= s@.skip(1));
        } else {
            assert(digits =~= s@);
        }
    }
    let mut acc: i64 = 0;
    let mut idx: usize = start;
    while idx < n
        invariant
            start <= idx <= n,
            n == s@.len(),
            start < n,
            start == if neg { 1int } else { 0int },
            neg <==> (s@.len() > 0 && s@[0] == '-'),
            digits == s@.subrange(start as int, n as int),
            all_digits(s@.subrange(start as int, idx as int)),
            acc == -digits_val(s@.subrange(start as int, idx as int)),
            acc <= 0,
        decreases n - idx,
    {
        let ghost prefix = s@.subrange(start as int, idx as int);
        let c = s.get_char(idx);
        let cv = c as u32;
        if cv < 48 || cv > 57 {
            proof {
                if neg {
                    assert(digits =~= s@.skip(1));
                } else {
                    assert(digits =~= s@);
                }
                assert(digits[idx - start] == s@[idx as int]);
                assert(!all_digits(digits));
            }
            return None;
        }
        let d = (cv - 48) as i64;
        let ghost prefix2 = s@.subrange(start as int, idx + 1int);
        proof {
            assert(prefix2.drop_last() =~= prefix);
            assert(prefix2.last() == s@[idx as int]);
            assert(digits_val(prefix2) == digits_val(prefix) * 10 + digit_val(s@[idx as int]));
        }
        let overflowed: bool = match acc.checked_mul(10) {
            Some(a) => {
                match a.checked_sub(d) {
                    Some(b) => {
                        acc = b;
                        false
                    },
                    None => true,
                }
            },
            None => true,
        };
        if overflowed {
            proof {
                if neg {
                    assert(digits =~= s@.skip(1));
                } else {
                    assert(digits =~= s@);
                }
                assert(digits_val(prefix2) > 0x8000_0000_0000_0000int);
                if all_digits(digits) {
                    assert(prefix2 =~= digits.subrange(0, idx + 1 - start));
                    lemma_digits_val_prefix(digits, idx + 1 - start);
                }
            }
            return None;
        }
        idx += 1;
        proof {
            assert(all_digits(s@.subrange(start as int, idx as int)));
        }
    }
    proof {
        assert(s@.subrange(start as int, idx as int) == digits);
        lemma_digits_val_nonneg(digits);
    }
    if neg {
        Some(acc)
    } else {
        if acc == i64::MIN {
            None
        } else {
            Some(-acc)
        }
    }
}

/// The one-character string for a decimal digit.
fn digit_str(d: u64) -> (r: &'static str)
    requires
        d < 10,
    ensures
        r@ == seq![digit_char(d as int)],
{
    let r: &'static str = if d == 0 {
        "0"
    } else if d == 1 {
        "1"
    } else if d == 2 {
        "2"
    } else if d == 3 {
        "3"
    } else if d == 4 {
        "4"
    } else if d == 5 {
        "5"
    } else if d == 6 {
        "6"
    } else if d == 7 {
        "7"
    } else if d == 8 {
        "8"
    } else {
        "9"
    };
    proof {
        reveal_strlit("0");
        reveal_strlit("1");
        reveal_strlit("2");
        reveal_strlit("3");
        reveal_strlit("4");
        reveal_strlit("5");
        reveal_strlit("6");
        reveal_strlit("7");
        reveal_strlit("8");
        reveal_strlit("9");
        assert(r@ =~= seq![digit_char(d as int)]);
    }
    r
}

/// The decimal rendering of an unsigned number.
fn u64_dec_string(n: u64) -> (r: String)
    ensures
        r@ == dec_digits(n as int),
    decreases n,
{
    if n < 10 {
        digit_str(n).to_owned()
    } else {
        let mut s = u64_dec_string(n / 10);
        s.append(digit_str(n % 10));
        proof {
            assert(s@ =~= dec_digits(n as int / 10).push(digit_char(n as int % 10)));
        }
        s
    }
}

/// The decimal rendering of a signed number.
pub fn int_to_string(i: i64) -> (r: String)
    ensures
        r@ == int_dec_view(i as int),
{
    if i >= 0 {
        u64_dec_string(i as u64)
    } else {
        let mag: u64 = ((-(i + 1)) as u64) + 1;
        let digits = u64_dec_string(mag);
        let mut s = String::from_str("-");
        s.append(digits.as_str());
        proof {
            reveal_strlit("-");
            assert(s@ =~= seq!['-'] + dec_digits(-(i as int)));
        }
        s
    }
}

/// A conversion from a raw value's runtime type to a property's type.
#[derive(Clone, Copy, Debug, Hash, PartialEq, Eq, Structural)]
pub enum ValueConverter {
    /// Reads a signed decimal number out of a string.
    StrToInt,
    /// Renders a number as its decimal string.
    IntToStr,
    /// Reads `"true"` or `"false"` out of a string.
    StrToBool,
}

/// What a converter yields on an abstract value, or `None` when the value
/// cannot be converted.
pub open spec fn spec_convert(c: ValueConverter, v: ValueView) -> Option<ValueView> {
    match c {
        ValueConverter::StrToInt => match v {
            ValueView::Str(s) => match parse_int_view(s) {
                Some(i) => Some(ValueView::Int(i)),
                None => None,
            },
            _ => None,
        },
        ValueConverter::IntToStr => match v {
            ValueView::Int(i) => Some(ValueView::Str(int_dec_view(i))),
            _ => None,
        },
        ValueConverter::StrToBool => match v {
            ValueView::Str(s) => if s == "true"@ {
                Some(ValueView::Bool(true))
            } else if s == "false"@ {
                Some(ValueView::Bool(false))
            } else {
                None
            },
            _ => None,
        },
    }
}

impl ValueConverter {
    /// Applies this converter to one raw value.
    pub fn convert(&self, v: &ConfigValue) -> (r: Option<ConfigValue>)
        ensures
            opt_view(r) == spec_convert(*self, v@),
    {
        match self {
            ValueConverter::StrToInt => match v {
                ConfigValue::Str(s) => match parse_int(s.as_str()) {
                    Some(i) => Some(ConfigValue::Int(i)),
                    None => None,
                },
                _ => None,
            },
            ValueConverter::IntToStr => match v {
                ConfigValue::Int(i) => Some(ConfigValue::Str(int_to_string(*i))),
                _ => None,
            },
            ValueConverter::StrToBool => match v {
                ConfigValue::Str(s) => {
                    if s.eq(&String::from_str("true")) {
                        Some(ConfigValue::Bool(true))
                    } else if s.eq(&String::from_str("false")) {
                        Some(ConfigValue::Bool(false))
                    } else {
                        None
                    }
                },
                _ => None,
            },
        }
    }
}

/// A digit character denotes its digit.
proof fn lemma_digit_char_val(d: int)
    requires
        0 <= d < 10,
    ensures
        digit_val(digit_char(d)) == d,
        is_digit(digit_char(d)),
{
}

/// The decimal rendering of a nonnegative number is a nonempty digit
/// string.
proof fn lemma_dec_digits_all_digits(n: int)
    requires
        n >= 0,
    ensures
        all_digits(dec_digits(n)),
        dec_digits(n).len() > 0,
    decreases n,
{
    if n >= 10 {
        lemma_dec_digits_all_digits(n / 10);
        assert forall|i: int| 0 <= i < dec_digits(n).len() implies is_digit(
            #[trigger] dec_digits(n)[i],
        ) by {
            if i < dec_digits(n / 10).len() {
                assert(dec_digits(n)[i] == dec_digits(n / 10)[i]);
            }
        }
    }
}

/// The decimal rendering of a nonnegative number denotes that number.
proof fn lemma_dec_digits_value(n: int)
    requires
        n >= 0,
    ensures
        digits_val(dec_digits(n)) == n,
    decreases n,
{
    if n < 10 {
        lemma_digit_char_val(n);
        assert(dec_digits(n) == seq![digit_char(n)]);
        assert(dec_digits(n).drop_last() =~= Seq::<char>::empty());
        assert(dec_digits(n).last() == digit_char(n));
        assert(digits_val(dec_digits(n)) == digits_val(dec_digits(n).drop_last()) * 10
            + digit_val(dec_digits(n).last()));
        assert(digits_val(dec_digits(n).drop_last()) == 0);
    } else {
        lemma_digit_char_val(n % 10);
        lemma_dec_digits_value(n / 10);
        assert(dec_digits(n) == dec_digits(n / 10).push(digit_char(n % 10)));
        assert(dec_digits(n).drop_last() =~= dec_digits(n / 10));
        assert(dec_digits(n).last() == digit_char(n % 10));
        assert(digits_val(dec_digits(n)) == digits_val(dec_digits(n).drop_last()) * 10
            + digit_val(dec_digits(n).last()));
        assert(n / 10 * 10 + n % 10 == n);
    }
}

/// Law: rendering and reading are inverse.  The decimal rendering of
/// any number an `i64` can hold reads back as exactly that number, so
/// sending a property value through `IntToStr` and `StrToInt` in turn
/// returns it unchanged.
pub proof fn lemma_int_decimal_round_trip(i: int)
    requires
        i64::MIN <= i <= i64::MAX,
    ensures
        parse_int_view(int_dec_view(i)) == Some(i),
{
    if i >= 0 {
        lemma_dec_digits_all_digits(i);
        lemma_dec_digits_value(i);
        assert(!is_digit('-'));
    } else {
        lemma_dec_digits_all_digits(-i);
        lemma_dec_digits_value(-i);
        let s = int_dec_view(i);
        assert(s[0] == '-');
        assert(s.skip(1) =~= dec_digits(-i));
    }
}

} // verus!
