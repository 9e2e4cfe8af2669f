//! Rendering of optional values.

use vstd::prelude::*;

use crate::value::any::ConfigValue;
use crate::value::any::ValueView;
use crate::value::any::opt_view;
use crate::value::any::spec_debug;
use crate::value::any::spec_display;

verus! {

/// The display rendering of an optional abstract value: the value's
/// rendering, or `none` when absent.
pub open spec fn spec_opt_display(o: Option<ValueView>) -> Seq<char> {
    match o {
        Some(v) => spec_display(v),
        None => "none"@,
    }
}

/// The debug rendering of an optional abstract value: the value's
/// rendering, or `none` when absent.
pub open spec fn spec_opt_debug(o: Option<ValueView>) -> Seq<char> {
    match o {
        Some(v) => spec_debug(v),
        None => "none"@,
    }
}

/// The display rendering of an optional value.
pub fn to_string(o: &Option<ConfigValue>) -> (r: String)
    ensures
        r@ == spec_opt_display(opt_view(*o)),
{
    match o {
        Some(v) => crate::value::any::to_string(v),
        None => "none".to_owned(),
    }
}

/// The debug rendering of an optional value.
pub fn to_debug_string(o: &Option<ConfigValue>) -> (r: String)
    ensures
        r@ == spec_opt_debug(opt_view(*o)),
{
    match o {
        Some(v) => crate::value::any::to_debug_string(v),
        None => "none".to_owned(),
    }
}

} // verus!
