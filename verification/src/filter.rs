//! Value filters.
//!
//! A filter inspects a candidate property value coming out of a
//! configuration source and either accepts it (possibly after rewriting
//! it) or rejects it.  A rejected candidate is treated as if the source
//! had no value at all, so resolution falls through to the next source.

use vstd::prelude::*;

use crate::value::any::ConfigValue;
use crate::value::any::ValueView;
use crate::value::any::clone;
use crate::value::any::equal;

verus! {

/// A check applied to a candidate property value before it is adopted.
#[derive(Clone, Debug, PartialEq, Eq)]
pub enum ValueFilter {
    /// Rewrites one particular value into another; any other value passes
    /// through unchanged.
    Rewrite { from: ConfigValue, to: ConfigValue },
    /// Rewrites one particular value into another and rejects every other
    /// value.
    RewriteOnly { from: ConfigValue, to: ConfigValue },
    /// Accepts a number lying between `min` and `max` inclusive; rejects
    /// every other value.
    IntRange { min: i64, max: i64 },
    /// Accepts a string whose length lies between `min` and `max`
    /// inclusive; rejects every other value.
    StrLenRange { min: usize, max: usize },
    /// Rejects a number at or below `floor`, passes one at or below `cap`
    /// through, and replaces one above `cap` by its successor; rejects
    /// every other value, and a number whose successor does not fit.
    IntStep { floor: i64, cap: i64 },
}

/// The mathematical value of a [`ValueFilter`].
#[verifier::ext_equal]
pub enum FilterView {
    Rewrite { from: ValueView, to: ValueView },
    RewriteOnly { from: ValueView, to: ValueView },
    IntRange { min: int, max: int },
    StrLenRange { min: int, max: int },
    IntStep { floor: int, cap: int },
}

impl View for ValueFilter {
    type V = FilterView;

    open spec fn view(&self) -> FilterView {
        match self {
            ValueFilter::Rewrite { from, to } => FilterView::Rewrite {
                from: from@,
                to: to@,
            },
            ValueFilter::RewriteOnly { from, to } => FilterView::RewriteOnly {
                from: from@,
                to: to@,
            },
            ValueFilter::IntRange { min, max } => FilterView::IntRange {
                min: *min as int,
                max: *max as int,
            },
            ValueFilter::StrLenRange { min, max } => FilterView::StrLenRange {
                min: *min as int,
                max: *max as int,
            },
            ValueFilter::IntStep { floor, cap } => FilterView::IntStep {
                floor: *floor as int,
                cap: *cap as int,
            },
        }
    }
}

/// What a filter yields on an abstract candidate value: the value to
/// adopt, or `None` when the candidate is rejected.
pub open spec fn spec_filter(f: FilterView, v: ValueView) -> Option<ValueView> {
    match f {
        FilterView::Rewrite { from, to } => if v == from {
            Some(to)
        } else {
            Some(v)
        },
        FilterView::RewriteOnly { from, to } => if v == from {
            Some(to)
        } else {
            None
        },
        FilterView::IntRange { min, max } => match v {
            ValueView::Int(i) => if min <= i <= max {
                Some(v)
            } else {
                None
            },
            _ => None,
        },
        FilterView::StrLenRange { min, max } => match v {
            ValueView::Str(s) => if min <= s.len() <= max {
                Some(v)
            } else {
                None
            },
            _ => None,
        },
        FilterView::IntStep { floor, cap } => match v {
            ValueView::Int(i) => if i > cap {
                if i + 1 <= i64::MAX {
                    Some(ValueView::Int(i + 1))
                } else {
                    None
                }
            } else if i > floor {
                Some(v)
            } else {
                None
            },
            _ => None,
        },
    }
}

impl ValueFilter {
    /// Applies this filter to one candidate value.
    pub fn filter(&self, v: &ConfigValue) -> (r: Option<ConfigValue>)
        ensures
            crate::value::any::opt_view(r) == spec_filter(self@, v@),
    {
        match self {
            ValueFilter::Rewrite { from, to } => {
                if equal(v, from) {
                    Some(clone(to))
                } else {
                    Some(clone(v))
                }
            },
            ValueFilter::RewriteOnly { from, to } => {
                if equal(v, from) {
                    Some(clone(to))
                } else {
                    None
                }
            },
            ValueFilter::IntRange { min, max } => {
                match v {
                    ConfigValue::Int(i) => {
                        if *min <= *i && *i <= *max {
                            Some(ConfigValue::Int(*i))
                        } else {
                            None
                        }
                    },
                    _ => None,
                }
            },
            ValueFilter::StrLenRange { min, max } => {
                match v {
                    ConfigValue::Str(s) => {
                        let len: usize = s.as_str().unicode_len();
                        if *min <= len && len <= *max {
                            Some(ConfigValue::Str(s.clone()))
                        } else {
                            None
                        }
                    },
                    _ => None,
                }
            },
            ValueFilter::IntStep { floor, cap } => {
                match v {
                    ConfigValue::Int(i) => {
                        if *i > *cap {
                            if *i < i64::MAX {
                                Some(ConfigValue::Int(*i + 1))
                            } else {
                                None
                            }
                        } else if *i > *floor {
                            Some(ConfigValue::Int(*i))
                        } else {
                            None
                        }
                    },
                    _ => None,
                }
            },
        }
    }

    /// An exact copy of this filter.
    pub fn clone_filter(&self) -> (r: ValueFilter)
        ensures
            r@ == self@,
    {
        match self {
            ValueFilter::Rewrite { from, to } => ValueFilter::Rewrite {
                from: clone(from),
                to: clone(to),
            },
            ValueFilter::RewriteOnly { from, to } => ValueFilter::RewriteOnly {
                from: clone(from),
                to: clone(to),
            },
            ValueFilter::IntRange { min, max } => ValueFilter::IntRange { min: *min, max: *max },
            ValueFilter::StrLenRange { min, max } => ValueFilter::StrLenRange {
                min: *min,
                max: *max,
            },
            ValueFilter::IntStep { floor, cap } => ValueFilter::IntStep {
                floor: *floor,
                cap: *cap,
            },
        }
    }

    /// Decides equality of two filters by their views.
    pub fn filter_eq(&self, other: &ValueFilter) -> (r: bool)
        ensures
            r == (self@ == other@),
    {
        match (self, other) {
            (
                ValueFilter::Rewrite { from: f1, to: t1 },
                ValueFilter::Rewrite { from: f2, to: t2 },
            ) => equal(f1, f2) && equal(t1, t2),
            (
                ValueFilter::RewriteOnly { from: f1, to: t1 },
                ValueFilter::RewriteOnly { from: f2, to: t2 },
            ) => equal(f1, f2) && equal(t1, t2),
            (
                ValueFilter::IntRange { min: a1, max: b1 },
                ValueFilter::IntRange { min: a2, max: b2 },
            ) => a1 == a2 && b1 == b2,
            (
                ValueFilter::StrLenRange { min: a1, max: b1 },
                ValueFilter::StrLenRange { min: a2, max: b2 },
            ) => a1 == a2 && b1 == b2,
            (
                ValueFilter::IntStep { floor: a1, cap: b1 },
                ValueFilter::IntStep { floor: a2, cap: b2 },
            ) => a1 == a2 && b1 == b2,
            _ => false,
        }
    }
}

/// Decides equality of two optional filters by their views.
pub fn opt_filter_eq(a: &Option<ValueFilter>, b: &Option<ValueFilter>) -> (r: bool)
    ensures
        r == (opt_filter_view(*a) == opt_filter_view(*b)),
{
    match (a, b) {
        (Some(x), Some(y)) => x.filter_eq(y),
        (None, None) => true,
        _ => false,
    }
}

/// The views of an optional filter.
pub open spec fn opt_filter_view(o: Option<ValueFilter>) -> Option<FilterView> {
    match o {
        Some(f) => Some(f@),
        None => None,
    }
}

/// An exact copy of an optional filter.
pub fn clone_opt_filter(v: &Option<ValueFilter>) -> (r: Option<ValueFilter>)
    ensures
        opt_filter_view(r) == opt_filter_view(*v),
{
    match v {
        Some(f) => Some(f.clone_filter()),
        None => None,
    }
}

} // verus!
