//! Configuration sources.
//!
//! A source is a named table of raw values for raw keys, together with a
//! change-notification channel.  Asked for a property's value, it looks
//! the raw key up, keeps a raw value whose runtime type already matches
//! the property's declared type, and otherwise tries the property's
//! converters in declaration order.

use vstd::prelude::*;

use crate::convert::ValueConverter;
use crate::convert::spec_convert;
use crate::property::ConfigView;
use crate::property::DefaultRawPropertyConfig;
use crate::value::any::ConfigValue;
use crate::value::any::ValueView;
use crate::value::any::clone;
use crate::value::any::opt_view;
use crate::value::any::tag_of;
use crate::value::any::equal;

verus! {

/// The identity of a configuration source: its non-empty display name.
#[derive(Clone, Debug, PartialEq, Eq)]
pub struct DefaultConfiguratonSourceConfig {
    name: String,
}

impl View for DefaultConfiguratonSourceConfig {
    type V = Seq<char>;

    closed spec fn view(&self) -> Seq<char> {
        self.name@
    }
}

impl DefaultConfiguratonSourceConfig {
    /// The display name of the source.
    pub fn get_name(&self) -> (r: &String)
        ensures
            r@ == self@,
    {
        &self.name
    }
}

/// Accumulates the parts of a source configuration.
pub struct DefaultConfigurationSourceConfigBuilder {
    name: Option<String>,
}

impl View for DefaultConfigurationSourceConfigBuilder {
    type V = Option<Seq<char>>;

    closed spec fn view(&self) -> Option<Seq<char>> {
        match self.name {
            Some(ref s) => Some(s@),
            None => None,
        }
    }
}

impl DefaultConfigurationSourceConfigBuilder {
    /// A builder with no name set.
    pub fn new() -> (r: DefaultConfigurationSourceConfigBuilder)
        ensures
            r@ is None,
    {
        DefaultConfigurationSourceConfigBuilder { name: None }
    }

    /// Sets the source name.  Required before building.
    pub fn set_name(self, name: &str) -> (r: Self)
        ensures
            r@ == Some(name@),
    {
        DefaultConfigurationSourceConfigBuilder { name: Some(name.to_owned()) }
    }

    /// Freezes the name into a source configuration.
    ///
    /// The name identifies the source; building without one, or with an
    /// empty one, is a construction-time usage error and is excluded
    /// here.
    pub fn build(&self) -> (r: DefaultConfiguratonSourceConfig)
        requires
            self@ is Some,
            self@->0.len() > 0,
        ensures
            r@ == self@->0,
    {
        match &self.name {
            Some(n) => DefaultConfiguratonSourceConfig { name: n.clone() },
            None => unreached(),
        }
    }
}

/// The mathematical value of a configuration source.
#[verifier::ext_equal]
pub struct SourceView {
    pub name: Seq<char>,
    pub entries: Seq<(ValueView, ValueView)>,
    pub listeners: Seq<u64>,
}

/// The index of the first entry holding `k`, or the length of `entries`
/// when no entry holds it, scanning from `i`.
pub open spec fn find_entry_from(entries: Seq<(ValueView, ValueView)>, k: ValueView, i: int) -> int
    decreases entries.len() - i,
{
    if i < 0 || i >= entries.len() {
        entries.len() as int
    } else if entries[i].0 == k {
        i
    } else {
        find_entry_from(entries, k, i + 1)
    }
}

/// The raw value a source's table holds for `k`, if any.
pub open spec fn spec_lookup(entries: Seq<(ValueView, ValueView)>, k: ValueView) -> Option<
    ValueView,
> {
    let i = find_entry_from(entries, k, 0);
    if i < entries.len() {
        Some(entries[i].1)
    } else {
        None
    }
}

/// The table after storing `v` for `k`: the entry for `k` is replaced or
/// appended when `v` is a value, and removed when `v` is `None`.
pub open spec fn spec_set_entry(
    entries: Seq<(ValueView, ValueView)>,
    k: ValueView,
    v: Option<ValueView>,
) -> Seq<(ValueView, ValueView)> {
    let i = find_entry_from(entries, k, 0);
    match v {
        Some(value) => if i < entries.len() {
            entries.update(i, (k, value))
        } else {
            entries.push((k, value))
        },
        None => if i < entries.len() {
            entries.remove(i)
        } else {
            entries
        },
    }
}

/// The result of trying the converters from index `i` on, keeping the
/// first successful conversion.
pub open spec fn convert_from(cs: Seq<ValueConverter>, v: ValueView, i: int) -> Option<ValueView>
    decreases cs.len() - i,
{
    if i < 0 || i >= cs.len() {
        None
    } else {
        match spec_convert(cs[i], v) {
            Some(r) => Some(r),
            None => convert_from(cs, v, i + 1),
        }
    }
}

/// What a source yields for a property: the raw value under the
/// property's key if its type already matches, else the first successful
/// conversion, else nothing.
pub open spec fn spec_source_value(src: SourceView, cfg: ConfigView) -> Option<ValueView> {
    match spec_lookup(src.entries, cfg.key) {
        None => None,
        Some(raw) => if tag_of(raw) == cfg.value_type {
            Some(raw)
        } else {
            convert_from(cfg.value_converters, raw, 0)
        },
    }
}

/// A named provider of raw values for raw keys.
///
/// The table of raw values stands for whatever backing store a concrete
/// source reads; a caller loads it through `set_property_value`, which is
/// also how a dynamic update enters the system.
#[derive(Debug, PartialEq, Eq)]
pub struct DefaultConfigurationSource {
    config: DefaultConfiguratonSourceConfig,
    entries: Vec<(ConfigValue, ConfigValue)>,
    change_listeners: Vec<u64>,
}

/// The views of a raw key/value table.
pub open spec fn entries_view(entries: Seq<(ConfigValue, ConfigValue)>) -> Seq<
    (ValueView, ValueView),
> {
    entries.map_values(|p: (ConfigValue, ConfigValue)| (p.0@, p.1@))
}

impl View for DefaultConfigurationSource {
    type V = SourceView;

    closed spec fn view(&self) -> SourceView {
        SourceView {
            name: self.config@,
            entries: entries_view(self.entries@),
            listeners: self.change_listeners@,
        }
    }
}

impl DefaultConfigurationSource {
    /// A source with the given identity and an empty table.
    pub fn new(config: DefaultConfiguratonSourceConfig) -> (r: DefaultConfigurationSource)
        ensures
            r@ == (SourceView {
                name: config@,
                entries: Seq::empty(),
                listeners: Seq::empty(),
            }),
    {
        let r = DefaultConfigurationSource {
            config,
            entries: Vec::new(),
            change_listeners: Vec::new(),
        };
        proof {
            assert(r@ =~= (SourceView {
                name: r.config@,
                entries: Seq::empty(),
                listeners: Seq::empty(),
            }));
        }
        r
    }

    /// The identity of this source.
    pub fn get_config(&self) -> (r: &DefaultConfiguratonSourceConfig)
        ensures
            r@ == self@.name,
    {
        &self.config
    }

    /// Stores, replaces or removes the raw value for one raw key.
    pub fn set_property_value(&mut self, key: ConfigValue, value: Option<ConfigValue>)
        ensures
            final(self)@ == (SourceView {
                entries: spec_set_entry(old(self)@.entries, key@, opt_view(value)),
                ..old(self)@
            }),
    {
        let ghost ev = self@.entries;
        let mut i: usize = 0;
        while i < self.entries.len()
            invariant
                i <= self.entries.len(),
                *self == *old(self),
                ev == entries_view(self.entries@),
                find_entry_from(ev, key@, 0) == find_entry_from(ev, key@, i as int),
                forall|j: int| 0 <= j < i ==> ev[j].0 != key@,
            decreases self.entries.len() - i,
        {
            if equal(&self.entries[i].0, &key) {
                proof {
                    assert(ev[i as int].0 == key@);
                    assert(find_entry_from(ev, key@, i as int) == i as int);
                }
                match value {
                    Some(v) => {
                        self.entries[i] = (key, v);
                        proof {
                            assert(self@.entries =~= spec_set_entry(ev, key@, opt_view(value)));
                            assert(self@ =~= (SourceView {
                                entries: spec_set_entry(old(self)@.entries, key@, opt_view(value)),
                                ..old(self)@
                            }));
                        }
                    },
                    None => {
                        self.entries.remove(i);
                        proof {
                            assert(self@.entries =~= spec_set_entry(ev, key@, opt_view(value)));
                            assert(self@ =~= (SourceView {
                                entries: spec_set_entry(old(self)@.entries, key@, opt_view(value)),
                                ..old(self)@
                            }));
                        }
                    },
                }
                return ;
            }
            i += 1;
        }
        proof {
            assert(find_entry_from(ev, key@, 0) == ev.len());
        }
        match value {
            Some(v) => {
                self.entries.push((key, v));
                proof {
                    assert(self@.entries =~= spec_set_entry(ev, key@, opt_view(value)));
                    assert(self@ =~= (SourceView {
                        entries: spec_set_entry(old(self)@.entries, key@, opt_view(value)),
                        ..old(self)@
                    }));
                }
            },
            None => {
                proof {
                    assert(self@ =~= (SourceView {
                        entries: spec_set_entry(old(self)@.entries, key@, opt_view(value)),
                        ..old(self)@
                    }));
                }
            },
        }
    }

    /// The raw value this source's table holds for a raw key, if any.
    fn lookup_raw(&self, key: &ConfigValue) -> (r: Option<&ConfigValue>)
        ensures
            match r {
                Some(v) => spec_lookup(self@.entries, key@) == Some(v@),
                None => spec_lookup(self@.entries, key@) is None,
            },
    {
        let ghost ev = self@.entries;
        let mut i: usize = 0;
        while i < self.entries.len()
            invariant
                i <= self.entries.len(),
                ev == entries_view(self.entries@),
                find_entry_from(ev, key@, 0) == find_entry_from(ev, key@, i as int),
            decreases self.entries.len() - i,
        {
            if equal(&self.entries[i].0, key) {
                proof {
                    assert(ev[i as int].0 == key@);
                    assert(find_entry_from(ev, key@, i as int) == i as int);
                }
                return Some(&self.entries[i].1);
            }
            i += 1;
        }
        None
    }

    /// What this source yields for a property.
    ///
    /// The raw value under the property's key is kept unchanged when its
    /// runtime type equals the property's declared type; otherwise the
    /// property's converters are tried in declaration order and the first
    /// successful conversion is kept; otherwise the property has no
    /// value in this source.
    pub fn get_property_value(&self, config: &DefaultRawPropertyConfig) -> (r: Option<ConfigValue>)
        ensures
            opt_view(r) == spec_source_value(self@, config@),
    {
        let raw = match self.lookup_raw(config.get_raw_key()) {
            Some(v) => v,
            None => {
                return None;
            },
        };
        if raw.type_tag() == config.get_value_type() {
            return Some(clone(raw));
        }
        let converters = config.get_value_converters();
        let ghost cs = converters@;
        let ghost rv = raw@;
        let mut i: usize = 0;
        while i < converters.len()
            invariant
                i <= converters.len(),
                cs == converters@,
                rv == raw@,
                cs == config@.value_converters,
                spec_lookup(self@.entries, config@.key) == Some(rv),
                tag_of(rv) != config@.value_type,
                convert_from(cs, rv, 0) == convert_from(cs, rv, i as int),
            decreases converters.len() - i,
        {
            match converters[i].convert(raw) {
                Some(converted) => {
                    return Some(converted);
                },
                None => {},
            }
            i += 1;
        }
        None
    }

    /// Registers a listener handle for this source's change channel.
    pub fn add_change_listener(&mut self, listener: u64)
        ensures
            final(self)@ == (SourceView {
                listeners: old(self)@.listeners.push(listener),
                ..old(self)@
            }),
    {
        self.change_listeners.push(listener);
        proof {
            assert(self@ =~= (SourceView {
                listeners: old(self)@.listeners.push(listener),
                ..old(self)@
            }));
        }
    }

    /// Pairs every registered listener, in registration order, with one
    /// change event carrying this source and the given time.
    pub fn raise_change_event(&self, change_time: u128) -> (r: Vec<
        (u64, DefaultConfigurationSourceChangeEvent),
    >)
        ensures
            r@.len() == self@.listeners.len(),
            forall|i: int|
                0 <= i < r@.len() ==> #[trigger] r@[i].0 == self@.listeners[i] && r@[i].1@
                    == (SourceChangeEventView { source: self@, change_time }),
    {
        let mut r: Vec<(u64, DefaultConfigurationSourceChangeEvent)> = Vec::new();
        let mut i: usize = 0;
        while i < self.change_listeners.len()
            invariant
                i <= self.change_listeners.len(),
                r@.len() == i,
                forall|j: int|
                    0 <= j < i ==> #[trigger] r@[j].0 == self@.listeners[j] && r@[j].1@
                        == (SourceChangeEventView { source: self@, change_time }),
            decreases self.change_listeners.len() - i,
        {
            let event = DefaultConfigurationSourceChangeEvent::new(self, change_time);
            r.push((self.change_listeners[i], event));
            i += 1;
        }
        r
    }

    /// An exact copy of this source.
    pub fn clone_source(&self) -> (r: DefaultConfigurationSource)
        ensures
            r@ == self@,
    {
        let mut entries: Vec<(ConfigValue, ConfigValue)> = Vec::new();
        let mut i: usize = 0;
        while i < self.entries.len()
            invariant
                i <= self.entries.len(),
                entries@.len() == i,
                forall|j: int|
                    0 <= j < i ==> #[trigger] entries@[j].0@ == self.entries@[j].0@
                        && entries@[j].1@ == self.entries@[j].1@,
            decreases self.entries.len() - i,
        {
            let pair = &self.entries[i];
            let c0 = clone(&pair.0);
            let c1 = clone(&pair.1);
            entries.push((c0, c1));
            i += 1;
        }
        let r = DefaultConfigurationSource {
            config: DefaultConfiguratonSourceConfig { name: self.config.name.clone() },
            entries,
            change_listeners: crate::property::clone_listeners(&self.change_listeners),
        };
        proof {
            assert(entries_view(r.entries@) =~= entries_view(self.entries@));
            assert(r@ =~= self@);
        }
        r
    }
}

/// The mathematical value of a source change event.
#[verifier::ext_equal]
pub struct SourceChangeEventView {
    pub source: SourceView,
    pub change_time: u128,
}

/// One change notification of one source: the source as of the change
/// and the change time in epoch milliseconds.
#[derive(Debug, PartialEq, Eq)]
pub struct DefaultConfigurationSourceChangeEvent {
    source: DefaultConfigurationSource,
    change_time: u128,
}

impl View for DefaultConfigurationSourceChangeEvent {
    type V = SourceChangeEventView;

    closed spec fn view(&self) -> SourceChangeEventView {
        SourceChangeEventView { source: self.source@, change_time: self.change_time }
    }
}

impl DefaultConfigurationSourceChangeEvent {
    /// An event recording one change of one source.
    pub fn new(source: &DefaultConfigurationSource, change_time: u128) -> (r:
        DefaultConfigurationSourceChangeEvent)
        ensures
            r@ == (SourceChangeEventView { source: source@, change_time }),
    {
        DefaultConfigurationSourceChangeEvent { source: source.clone_source(), change_time }
    }

    /// The source that changed.
    pub fn get_source(&self) -> (r: &DefaultConfigurationSource)
        ensures
            r@ == self@.source,
    {
        &self.source
    }

    /// The change time in epoch milliseconds, as given by the caller that
    /// raised the change.
    pub fn get_change_time(&self) -> (r: u128)
        ensures
            r == self@.change_time,
    {
        self.change_time
    }
}

} // verus!
