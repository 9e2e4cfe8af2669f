//! Properties and their configuration.
//!
//! A property configuration is the immutable descriptor of one property:
//! its key, declared value type, optional default, ordered converters,
//! optional filter, documentation and flags.  A property is the cached,
//! live resolution of one key: its current value, the source it came
//! from, and the listeners to notify when the value changes.

use vstd::prelude::*;

use crate::convert::ValueConverter;
use crate::filter::FilterView;
use crate::filter::ValueFilter;
use crate::filter::clone_opt_filter;
use crate::filter::opt_filter_eq;
use crate::filter::opt_filter_view;
use crate::filter::spec_filter;
use crate::value::any::ConfigValue;
use crate::value::any::TypeTag;
use crate::value::any::ValueView;
use crate::value::any::clone_opt_value;
use crate::value::any::clone;
use crate::value::any::opt_value_eq;
use crate::value::any::opt_view;
use crate::value::any::equal;

verus! {

/// The views of an optional documentation string.
pub open spec fn opt_str_view(o: Option<String>) -> Option<Seq<char>> {
    match o {
        Some(s) => Some(s@),
        None => None,
    }
}

/// The mathematical value of a property configuration.
#[verifier::ext_equal]
pub struct ConfigView {
    pub key: ValueView,
    pub value_type: TypeTag,
    pub default_value: Option<ValueView>,
    pub value_converters: Seq<ValueConverter>,
    pub value_filter: Option<FilterView>,
    pub doc: Option<Seq<char>>,
    pub is_static: bool,
    pub is_required: bool,
}

impl ConfigView {
    /// A configured default must survive the configured filter: a default
    /// the filter itself rejects is an inconsistent configuration.
    pub open spec fn valid(self) -> bool {
        match (self.default_value, self.value_filter) {
            (Some(d), Some(f)) => spec_filter(f, d) is Some,
            _ => true,
        }
    }
}

/// The immutable descriptor of one property.
#[derive(Debug, PartialEq, Eq)]
pub struct DefaultRawPropertyConfig {
    key: ConfigValue,
    value_type: TypeTag,
    default_value: Option<ConfigValue>,
    value_converters: Vec<ValueConverter>,
    value_filter: Option<ValueFilter>,
    doc: Option<String>,
    is_static: bool,
    is_required: bool,
}

impl View for DefaultRawPropertyConfig {
    type V = ConfigView;

    closed spec fn view(&self) -> ConfigView {
        ConfigView {
            key: self.key@,
            value_type: self.value_type,
            default_value: opt_view(self.default_value),
            value_converters: self.value_converters@,
            value_filter: opt_filter_view(self.value_filter),
            doc: opt_str_view(self.doc),
            is_static: self.is_static,
            is_required: self.is_required,
        }
    }
}

impl DefaultRawPropertyConfig {
    /// The key identifying the property.
    pub fn get_raw_key(&self) -> (r: &ConfigValue)
        ensures
            r@ == self@.key,
    {
        &self.key
    }

    /// The declared runtime type of the property value.
    pub fn get_value_type(&self) -> (r: TypeTag)
        ensures
            r == self@.value_type,
    {
        self.value_type
    }

    /// The configured default value, if any.
    pub fn get_raw_default_value(&self) -> (r: Option<ConfigValue>)
        ensures
            opt_view(r) == self@.default_value,
    {
        clone_opt_value(&self.default_value)
    }

    /// The ordered converters of the property.
    pub fn get_value_converters(&self) -> (r: &Vec<ValueConverter>)
        ensures
            r@ == self@.value_converters,
    {
        &self.value_converters
    }

    /// The configured value filter, if any.
    pub fn get_value_filter(&self) -> (r: &Option<ValueFilter>)
        ensures
            opt_filter_view(*r) == self@.value_filter,
    {
        &self.value_filter
    }

    /// The documentation of the property, if any.
    pub fn get_doc(&self) -> (r: &Option<String>)
        ensures
            opt_str_view(*r) == self@.doc,
    {
        &self.doc
    }

    /// Whether the property is static: fixed after its first resolution.
    pub fn is_static(&self) -> (r: bool)
        ensures
            r == self@.is_static,
    {
        self.is_static
    }

    /// Whether the property is required: it must resolve to some value.
    pub fn is_required(&self) -> (r: bool)
        ensures
            r == self@.is_required,
    {
        self.is_required
    }

    /// Whether a configured default survives the configured filter.
    pub fn check_valid(&self) -> (r: bool)
        ensures
            r == self@.valid(),
    {
        match (&self.default_value, &self.value_filter) {
            (Some(d), Some(f)) => f.filter(d).is_some(),
            _ => true,
        }
    }

    /// An exact copy of this configuration.
    pub fn clone_config(&self) -> (r: DefaultRawPropertyConfig)
        ensures
            r@ == self@,
    {
        let r = DefaultRawPropertyConfig {
            key: clone(&self.key),
            value_type: self.value_type,
            default_value: clone_opt_value(&self.default_value),
            value_converters: clone_converters(&self.value_converters),
            value_filter: clone_opt_filter(&self.value_filter),
            doc: clone_opt_str(&self.doc),
            is_static: self.is_static,
            is_required: self.is_required,
        };
        proof {
            assert(r@ =~= self@);
        }
        r
    }

    /// Decides equality of two configurations by their views.
    pub fn config_eq(&self, other: &DefaultRawPropertyConfig) -> (r: bool)
        ensures
            r == (self@ == other@),
    {
        let r = equal(&self.key, &other.key) && self.value_type == other.value_type
            && opt_value_eq(&self.default_value, &other.default_value)
            && converters_eq(&self.value_converters, &other.value_converters)
            && opt_filter_eq(&self.value_filter, &other.value_filter)
            && opt_str_eq(&self.doc, &other.doc) && self.is_static == other.is_static
            && self.is_required == other.is_required;
        proof {
            if r {
                assert(self@ =~= other@);
            }
        }
        r
    }
}

/// An exact copy of a converter list.
pub fn clone_converters(v: &Vec<ValueConverter>) -> (r: Vec<ValueConverter>)
    ensures
        r@ == v@,
{
    let mut r: Vec<ValueConverter> = Vec::new();
    let mut i: usize = 0;
    while i < v.len()
        invariant
            i <= v.len(),
            r@ == v@.subrange(0, i as int),
        decreases v.len() - i,
    {
        r.push(v[i]);
        i += 1;
        proof {
            assert(r@ =~= v@.subrange(0, i as int));
        }
    }
    proof {
        assert(r@ =~= v@);
    }
    r
}

/// Decides equality of two converter lists.
pub fn converters_eq(a: &Vec<ValueConverter>, b: &Vec<ValueConverter>) -> (r: bool)
    ensures
        r == (a@ == b@),
{
    if a.len() != b.len() {
        return false;
    }
    let mut i: usize = 0;
    while i < a.len()
        invariant
            i <= a.len(),
            a@.len() == b@.len(),
            forall|j: int| 0 <= j < i ==> a@[j] == b@[j],
        decreases a.len() - i,
    {
        if a[i] != b[i] {
            return false;
        }
        i += 1;
    }
    proof {
        assert(a@ =~= b@);
    }
    true
}

/// An exact copy of an optional string.
pub fn clone_opt_str(v: &Option<String>) -> (r: Option<String>)
    ensures
        opt_str_view(r) == opt_str_view(*v),
{
    match v {
        Some(s) => Some(s.clone()),
        None => None,
    }
}

/// Decides equality of two optional strings by their characters.
pub fn opt_str_eq(a: &Option<String>, b: &Option<String>) -> (r: bool)
    ensures
        r == (opt_str_view(*a) == opt_str_view(*b)),
{
    match (a, b) {
        (Some(x), Some(y)) => x.eq(y),
        (None, None) => true,
        _ => false,
    }
}

/// The mathematical value of a property configuration builder.
#[verifier::ext_equal]
pub struct BuilderView {
    pub key: Option<ValueView>,
    pub value_type: Option<TypeTag>,
    pub default_value: Option<ValueView>,
    pub value_converters: Seq<ValueConverter>,
    pub value_filter: Option<FilterView>,
    pub doc: Option<Seq<char>>,
    pub is_static: bool,
    pub is_required: bool,
}

impl BuilderView {
    /// Whether `build` may run: the key and value type are set, and a
    /// configured default survives the configured filter.
    pub open spec fn can_build(self) -> bool {
        &&& self.key is Some
        &&& self.value_type is Some
        &&& self.built().valid()
    }

    /// The configuration this builder describes, assuming key and value
    /// type are set.
    pub open spec fn built(self) -> ConfigView {
        ConfigView {
            key: self.key->0,
            value_type: self.value_type->0,
            default_value: self.default_value,
            value_converters: self.value_converters,
            value_filter: self.value_filter,
            doc: self.doc,
            is_static: self.is_static,
            is_required: self.is_required,
        }
    }
}

/// Accumulates the parts of a property configuration.
pub struct DefaultPropertyConfigBuilder {
    key: Option<ConfigValue>,
    value_type: Option<TypeTag>,
    default_value: Option<ConfigValue>,
    value_converters: Vec<ValueConverter>,
    value_filter: Option<ValueFilter>,
    doc: Option<String>,
    is_static: bool,
    is_required: bool,
}

impl View for DefaultPropertyConfigBuilder {
    type V = BuilderView;

    closed spec fn view(&self) -> BuilderView {
        BuilderView {
            key: opt_view(self.key),
            value_type: self.value_type,
            default_value: opt_view(self.default_value),
            value_converters: self.value_converters@,
            value_filter: opt_filter_view(self.value_filter),
            doc: opt_str_view(self.doc),
            is_static: self.is_static,
            is_required: self.is_required,
        }
    }
}

impl DefaultPropertyConfigBuilder {
    /// A builder with nothing set.
    pub fn new() -> (r: DefaultPropertyConfigBuilder)
        ensures
            r@ == (BuilderView {
                key: None,
                value_type: None,
                default_value: None,
                value_converters: Seq::empty(),
                value_filter: None,
                doc: None,
                is_static: false,
                is_required: false,
            }),
    {
        let r = DefaultPropertyConfigBuilder {
            key: None,
            value_type: None,
            default_value: None,
            value_converters: Vec::new(),
            value_filter: None,
            doc: None,
            is_static: false,
            is_required: false,
        };
        proof {
            assert(r@ =~= (BuilderView {
                key: None,
                value_type: None,
                default_value: None,
                value_converters: Seq::empty(),
                value_filter: None,
                doc: None,
                is_static: false,
                is_required: false,
            }));
        }
        r
    }

    /// Sets the property key.  Required before building.
    pub fn set_key(self, key: ConfigValue) -> (r: Self)
        ensures
            r@ == (BuilderView { key: Some(key@), ..self@ }),
    {
        Self { key: Some(key), ..self }
    }

    /// Sets the declared value type.  Required before building.
    pub fn set_value_type(self, value_type: TypeTag) -> (r: Self)
        ensures
            r@ == (BuilderView { value_type: Some(value_type), ..self@ }),
    {
        Self { value_type: Some(value_type), ..self }
    }

    /// Sets the default value.
    pub fn set_default_value(self, default_value: ConfigValue) -> (r: Self)
        ensures
            r@ == (BuilderView { default_value: Some(default_value@), ..self@ }),
    {
        Self { default_value: Some(default_value), ..self }
    }

    /// Appends one converter.
    pub fn add_value_converter(self, value_converter: ValueConverter) -> (r: Self)
        ensures
            r@ == (BuilderView {
                value_converters: self@.value_converters.push(value_converter),
                ..self@
            }),
    {
        let mut s = self;
        s.value_converters.push(value_converter);
        s
    }

    /// Appends several converters in order.
    pub fn add_value_converters(self, value_converters: Vec<ValueConverter>) -> (r: Self)
        ensures
            r@ == (BuilderView {
                value_converters: self@.value_converters + value_converters@,
                ..self@
            }),
    {
        let mut s = self;
        let mut vs = value_converters;
        s.value_converters.append(&mut vs);
        s
    }

    /// Sets the value filter, replacing any previous one.
    pub fn set_value_filter(self, value_filter: ValueFilter) -> (r: Self)
        ensures
            r@ == (BuilderView { value_filter: Some(value_filter@), ..self@ }),
    {
        Self { value_filter: Some(value_filter), ..self }
    }

    /// Sets the documentation string.
    pub fn set_doc(self, doc: &str) -> (r: Self)
        ensures
            r@ == (BuilderView { doc: Some(doc@), ..self@ }),
    {
        Self { doc: Some(doc.to_owned()), ..self }
    }

    /// Marks the property static or not.
    pub fn set_static(self, is_static: bool) -> (r: Self)
        ensures
            r@ == (BuilderView { is_static: is_static, ..self@ }),
    {
        Self { is_static, ..self }
    }

    /// Marks the property required or not.
    pub fn set_required(self, is_required: bool) -> (r: Self)
        ensures
            r@ == (BuilderView { is_required: is_required, ..self@ }),
    {
        Self { is_required, ..self }
    }

    /// Freezes the accumulated parts into an immutable configuration, or
    /// yields `None` exactly when the key or value type is missing or the
    /// default is rejected by the filter.
    pub fn try_build(&self) -> (r: Option<DefaultRawPropertyConfig>)
        ensures
            self@.can_build() <==> r is Some,
            r matches Some(c) ==> c@ == self@.built(),
    {
        let key = match &self.key {
            Some(k) => clone(k),
            None => {
                return None;
            },
        };
        let value_type = match &self.value_type {
            Some(t) => *t,
            None => {
                return None;
            },
        };
        let config = DefaultRawPropertyConfig {
            key,
            value_type,
            default_value: clone_opt_value(&self.default_value),
            value_converters: clone_converters(&self.value_converters),
            value_filter: clone_opt_filter(&self.value_filter),
            doc: clone_opt_str(&self.doc),
            is_static: self.is_static,
            is_required: self.is_required,
        };
        proof {
            assert(config@ =~= self@.built());
        }
        if config.check_valid() {
            Some(config)
        } else {
            None
        }
    }

    /// Freezes the accumulated parts into an immutable configuration.
    ///
    /// Building without a key or value type, or with a default that its
    /// own filter rejects, is a construction-time usage error and is
    /// excluded here; `try_build` reports those cases as `None`.
    pub fn build(&self) -> (r: DefaultRawPropertyConfig)
        requires
            self@.can_build(),
        ensures
            r@ == self@.built(),
    {
        match self.try_build() {
            Some(c) => c,
            None => unreached(),
        }
    }
}

/// The mathematical value of a property.
#[verifier::ext_equal]
pub struct PropertyView {
    pub config: ConfigView,
    pub value: Option<ValueView>,
    pub source: Option<int>,
    pub listeners: Seq<u64>,
}

/// The cached, live resolution of one property key.
///
/// The value and source cells are mutated only by the configuration
/// manager owning the property.  Listeners are opaque handles chosen by
/// the caller; change propagation reports which handle must be invoked
/// with which event.
#[derive(Debug, PartialEq, Eq)]
pub struct DefaultRawProperty {
    config: DefaultRawPropertyConfig,
    value: Option<ConfigValue>,
    source: Option<usize>,
    change_listeners: Vec<u64>,
}

/// The view of an optional source index.
pub open spec fn opt_source_view(o: Option<usize>) -> Option<int> {
    match o {
        Some(i) => Some(i as int),
        None => None,
    }
}

impl View for DefaultRawProperty {
    type V = PropertyView;

    closed spec fn view(&self) -> PropertyView {
        PropertyView {
            config: self.config@,
            value: opt_view(self.value),
            source: opt_source_view(self.source),
            listeners: self.change_listeners@,
        }
    }
}

impl DefaultRawProperty {
    /// A property for the given configuration, not yet resolved.
    pub fn new(config: &DefaultRawPropertyConfig) -> (r: DefaultRawProperty)
        ensures
            r@ == (PropertyView {
                config: config@,
                value: None,
                source: None,
                listeners: Seq::empty(),
            }),
    {
        let r = DefaultRawProperty {
            config: config.clone_config(),
            value: None,
            source: None,
            change_listeners: Vec::new(),
        };
        proof {
            assert(r@ =~= (PropertyView {
                config: config@,
                value: None,
                source: None,
                listeners: Seq::empty(),
            }));
        }
        r
    }

    /// Stores a newly resolved value and the index of the source it came
    /// from.
    pub fn update(&mut self, value: Option<ConfigValue>, source: Option<usize>)
        ensures
            final(self)@ == (PropertyView {
                value: opt_view(value),
                source: opt_source_view(source),
                ..old(self)@
            }),
    {
        self.value = value;
        self.source = source;
        proof {
            assert(self@ =~= (PropertyView {
                value: opt_view(self.value),
                source: opt_source_view(self.source),
                ..old(self)@
            }));
        }
    }

    /// The configuration of this property.
    pub fn get_raw_config(&self) -> (r: &DefaultRawPropertyConfig)
        ensures
            r@ == self@.config,
    {
        &self.config
    }

    /// The current value, or `None` while unresolved or absent.
    pub fn get_raw_value(&self) -> (r: Option<ConfigValue>)
        ensures
            opt_view(r) == self@.value,
    {
        clone_opt_value(&self.value)
    }

    /// The index, in the manager's priority order, of the source the
    /// current value came from; `None` when the default or no value is in
    /// effect.
    pub fn get_source(&self) -> (r: Option<usize>)
        ensures
            opt_source_view(r) == self@.source,
    {
        self.source
    }

    /// Registers a listener handle, appended in registration order.
    pub fn add_raw_change_listener(&mut self, listener: u64)
        ensures
            final(self)@ == (PropertyView {
                listeners: old(self)@.listeners.push(listener),
                ..old(self)@
            }),
    {
        self.change_listeners.push(listener);
        proof {
            assert(self@ =~= (PropertyView {
                listeners: old(self)@.listeners.push(listener),
                ..old(self)@
            }));
        }
    }

    /// Pairs every registered listener, in registration order, with the
    /// given event.
    pub fn raise_change_event(&self, event: &DefaultRawPropertyChangeEvent) -> (r: Vec<
        (u64, DefaultRawPropertyChangeEvent),
    >)
        ensures
            r@.len() == self@.listeners.len(),
            forall|i: int|
                0 <= i < r@.len() ==> #[trigger] r@[i].0 == self@.listeners[i] && r@[i].1@
                    == event@,
    {
        let mut r: Vec<(u64, DefaultRawPropertyChangeEvent)> = Vec::new();
        let mut i: usize = 0;
        while i < self.change_listeners.len()
            invariant
                i <= self.change_listeners.len(),
                r@.len() == i,
                forall|j: int|
                    0 <= j < i ==> #[trigger] r@[j].0 == self@.listeners[j] && r@[j].1@ == event@,
            decreases self.change_listeners.len() - i,
        {
            r.push((self.change_listeners[i], event.clone_event()));
            i += 1;
        }
        r
    }

    /// An exact copy of this property.
    pub fn clone_property(&self) -> (r: DefaultRawProperty)
        ensures
            r@ == self@,
    {
        let r = DefaultRawProperty {
            config: self.config.clone_config(),
            value: clone_opt_value(&self.value),
            source: self.source,
            change_listeners: clone_listeners(&self.change_listeners),
        };
        proof {
            assert(r@ =~= self@);
        }
        r
    }
}

/// An exact copy of a listener handle list.
pub fn clone_listeners(v: &Vec<u64>) -> (r: Vec<u64>)
    ensures
        r@ == v@,
{
    let mut r: Vec<u64> = Vec::new();
    let mut i: usize = 0;
    while i < v.len()
        invariant
            i <= v.len(),
            r@ == v@.subrange(0, i as int),
        decreases v.len() - i,
    {
        r.push(v[i]);
        i += 1;
        proof {
            assert(r@ =~= v@.subrange(0, i as int));
        }
    }
    proof {
        assert(r@ =~= v@);
    }
    r
}

/// The mathematical value of a property change event.
#[verifier::ext_equal]
pub struct EventView {
    pub property: PropertyView,
    pub old_value: Option<ValueView>,
    pub new_value: Option<ValueView>,
    pub change_time: u128,
}

/// One detected change of one property: the property after the change,
/// the value before and after, and the change time in epoch milliseconds.
#[derive(Debug, PartialEq, Eq)]
pub struct DefaultRawPropertyChangeEvent {
    property: DefaultRawProperty,
    old_value: Option<ConfigValue>,
    new_value: Option<ConfigValue>,
    change_time: u128,
}

impl View for DefaultRawPropertyChangeEvent {
    type V = EventView;

    closed spec fn view(&self) -> EventView {
        EventView {
            property: self.property@,
            old_value: opt_view(self.old_value),
            new_value: opt_view(self.new_value),
            change_time: self.change_time,
        }
    }
}

impl DefaultRawPropertyChangeEvent {
    /// An event recording one change of one property.
    pub fn new(
        property: DefaultRawProperty,
        old_value: Option<ConfigValue>,
        new_value: Option<ConfigValue>,
        change_time: u128,
    ) -> (r: DefaultRawPropertyChangeEvent)
        ensures
            r@ == (EventView {
                property: property@,
                old_value: opt_view(old_value),
                new_value: opt_view(new_value),
                change_time: change_time,
            }),
    {
        let r = DefaultRawPropertyChangeEvent { property, old_value, new_value, change_time };
        proof {
            assert(r@ =~= (EventView {
                property: r.property@,
                old_value: opt_view(r.old_value),
                new_value: opt_view(r.new_value),
                change_time: r.change_time,
            }));
        }
        r
    }

    /// The property that changed, as of after the change.
    pub fn get_raw_property(&self) -> (r: &DefaultRawProperty)
        ensures
            r@ == self@.property,
    {
        &self.property
    }

    /// The value before the change.
    pub fn get_raw_old_value(&self) -> (r: Option<ConfigValue>)
        ensures
            opt_view(r) == self@.old_value,
    {
        clone_opt_value(&self.old_value)
    }

    /// The value after the change.
    pub fn get_raw_new_value(&self) -> (r: Option<ConfigValue>)
        ensures
            opt_view(r) == self@.new_value,
    {
        clone_opt_value(&self.new_value)
    }

    /// The change time in epoch milliseconds, as given by the caller that
    /// raised the source change.
    pub fn get_change_time(&self) -> (r: u128)
        ensures
            r == self@.change_time,
    {
        self.change_time
    }

    /// An exact copy of this event.
    pub fn clone_event(&self) -> (r: DefaultRawPropertyChangeEvent)
        ensures
            r@ == self@,
    {
        let r = DefaultRawPropertyChangeEvent {
            property: self.property.clone_property(),
            old_value: clone_opt_value(&self.old_value),
            new_value: clone_opt_value(&self.new_value),
            change_time: self.change_time,
        };
        proof {
            assert(r@ =~= self@);
        }
        r
    }
}

/// Law: a default and its filter must agree at build time.  With key
/// and value type set, building a property configuration succeeds
/// exactly when the configured filter accepts the configured default;
/// when either is absent there is nothing to check and building
/// succeeds.
pub proof fn lemma_build_default_filter_consistency(b: BuilderView)
    requires
        b.key is Some,
        b.value_type is Some,
    ensures
        b.can_build() <==> (match (b.default_value, b.value_filter) {
            (Some(d), Some(f)) => spec_filter(f, d) is Some,
            _ => true,
        }),
{
}

} // verus!
