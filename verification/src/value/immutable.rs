//! A shared, read-only container for one dynamically tagged value.

use vstd::prelude::*;

use crate::value::any::ConfigValue;
use crate::value::any::ValueView;
use crate::value::any::spec_display;

verus! {

/// A read-only container for one dynamically tagged value: once built,
/// the held value never changes.
#[derive(Clone, Debug, Hash, PartialEq, Eq)]
pub struct ImmutableObject {
    value: ConfigValue,
}

impl View for ImmutableObject {
    type V = ValueView;

    closed spec fn view(&self) -> ValueView {
        self.value@
    }
}

impl ImmutableObject {
    /// A container holding the given value.
    pub fn new(value: ConfigValue) -> (r: ImmutableObject)
        ensures
            r@ == value@,
    {
        ImmutableObject { value }
    }

    /// An owned copy of the held value.
    pub fn value(&self) -> (r: ConfigValue)
        ensures
            r@ == self@,
    {
        crate::value::any::clone(&self.value)
    }

    /// The held value.
    pub fn as_ref(&self) -> (r: &ConfigValue)
        ensures
            r@ == self@,
    {
        &self.value
    }

    /// The display rendering of the held value.
    pub fn to_display_string(&self) -> (r: String)
        ensures
            r@ == spec_display(self@),
    {
        crate::value::any::to_string(&self.value)
    }
}

} // verus!
