//! A writable container for one dynamically tagged value.

use vstd::prelude::*;

use crate::value::any::ConfigValue;
use crate::value::any::ValueView;
use crate::value::any::spec_display;

verus! {

/// A writable container for one dynamically tagged value.
#[derive(Clone, Debug, Hash, PartialEq, Eq)]
pub struct Mutable {
    value: ConfigValue,
}

impl View for Mutable {
    type V = ValueView;

    closed spec fn view(&self) -> ValueView {
        self.value@
    }
}

impl Mutable {
    /// A container holding the given value.
    pub fn new(value: ConfigValue) -> (r: Mutable)
        ensures
            r@ == value@,
    {
        Mutable { value }
    }

    /// The held value.
    pub fn as_ref(&self) -> (r: &ConfigValue)
        ensures
            r@ == self@,
    {
        &self.value
    }

    /// Replaces the held value.
    pub fn set(&mut self, value: ConfigValue)
        ensures
            final(self)@ == value@,
    {
        self.value = value;
    }

    /// The display rendering of the held value.
    pub fn to_display_string(&self) -> (r: String)
        ensures
            r@ == spec_display(self@),
    {
        crate::value::any::to_string(&self.value)
    }
}

} // verus!
