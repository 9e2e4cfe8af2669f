//! The configuration manager: value resolution, the property cache, and
//! change propagation.
//!
//! A manager owns an ordered list of sources, highest priority first,
//! and a cache of live properties, one per distinct key.  It resolves a
//! property by asking each source in turn for a post-filter value and
//! falling back to the configured default, and it re-resolves every
//! cached property when a source changes, reporting exactly which
//! listener handles must be invoked with which change event.

use vstd::prelude::*;

use crate::filter::spec_filter;
use crate::property::ConfigView;
use crate::property::DefaultRawProperty;
use crate::property::DefaultRawPropertyChangeEvent;
use crate::property::DefaultRawPropertyConfig;
use crate::property::EventView;
use crate::property::PropertyView;
use crate::property::opt_source_view;
use crate::source::DefaultConfigurationSource;
use crate::source::SourceView;
use crate::source::spec_set_entry;
use crate::source::spec_source_value;
use crate::value::any::ConfigValue;
use crate::value::any::ValueView;
use crate::value::any::clone_opt_value;
use crate::value::any::opt_value_eq;
use crate::value::any::opt_view;

verus! {

/// An error a configuration manager reports instead of resolving.
#[derive(Clone, Copy, Debug, PartialEq, Eq, Structural)]
pub enum ConfigurationError {
    /// A required property resolved to no value: no source provided one
    /// and no default is configured.
    RequiredPropertyMissing,
    /// The same key was requested with a materially different
    /// configuration than the one cached for it.
    ConfigMismatch,
}

/// The candidate a source contributes after the property's filter ran:
/// the source's value when no filter is configured, what the filter
/// made of it otherwise, and nothing when the source had no value or
/// the filter rejected it.
pub open spec fn spec_post_filter(cfg: ConfigView, v: Option<ValueView>) -> Option<ValueView> {
    match v {
        None => None,
        Some(x) => match cfg.value_filter {
            None => Some(x),
            Some(f) => spec_filter(f, x),
        },
    }
}

/// The post-filter candidate of one source for one property.
pub open spec fn spec_source_candidate(src: SourceView, cfg: ConfigView) -> Option<ValueView> {
    spec_post_filter(cfg, spec_source_value(src, cfg))
}

/// Resolution from source index `i` on: the first source with a
/// post-filter value wins, and when none yields one the configured
/// default is used with no contributing source.
pub open spec fn resolve_from(sources: Seq<SourceView>, cfg: ConfigView, i: int) -> (
    Option<ValueView>,
    Option<int>,
)
    decreases sources.len() - i,
{
    if i < 0 || i >= sources.len() {
        (cfg.default_value, None)
    } else {
        match spec_source_candidate(sources[i], cfg) {
            Some(v) => (Some(v), Some(i)),
            None => resolve_from(sources, cfg, i + 1),
        }
    }
}

/// The resolved value of a property over the given sources, and the
/// index of the contributing source.
pub open spec fn spec_resolve(sources: Seq<SourceView>, cfg: ConfigView) -> (
    Option<ValueView>,
    Option<int>,
) {
    resolve_from(sources, cfg, 0)
}

/// A winning source index lies in range and carries the winning value;
/// no winner means the default is in effect.
pub proof fn lemma_resolve_shape(sources: Seq<SourceView>, cfg: ConfigView, i: int)
    requires
        0 <= i <= sources.len(),
    ensures
        match resolve_from(sources, cfg, i) {
            (v, Some(j)) => i <= j < sources.len() && v == spec_source_candidate(sources[j], cfg)
                && v is Some,
            (v, None) => v == cfg.default_value,
        },
    decreases sources.len() - i,
{
    if i < sources.len() {
        match spec_source_candidate(sources[i], cfg) {
            Some(_) => {},
            None => {
                lemma_resolve_shape(sources, cfg, i + 1);
            },
        }
    }
}

/// The views of a priority/source pair list.
pub open spec fn pairs_view(s: Seq<(i32, DefaultConfigurationSource)>) -> Seq<(int, SourceView)> {
    s.map_values(|p: (i32, DefaultConfigurationSource)| (p.0 as int, p.1@))
}

/// The views of a source list.
pub open spec fn sources_view(s: Seq<DefaultConfigurationSource>) -> Seq<SourceView> {
    s.map_values(|src: DefaultConfigurationSource| src@)
}

/// Inserts a pair into a list sorted by weakly descending priority,
/// before the first strictly lower priority.
pub open spec fn insert_desc(p: (int, SourceView), s: Seq<(int, SourceView)>) -> Seq<
    (int, SourceView),
>
    decreases s.len(),
{
    if s.len() == 0 {
        seq![p]
    } else if p.0 >= s[0].0 {
        seq![p] + s
    } else {
        seq![s[0]] + insert_desc(p, s.drop_first())
    }
}

/// Sorts a pair list by descending priority by repeated insertion.
pub open spec fn sort_desc(s: Seq<(int, SourceView)>) -> Seq<(int, SourceView)>
    decreases s.len(),
{
    if s.len() == 0 {
        Seq::empty()
    } else {
        insert_desc(s[0], sort_desc(s.drop_first()))
    }
}

/// Whether no two pairs carry the same priority.
pub open spec fn unique_priorities(s: Seq<(int, SourceView)>) -> bool {
    forall|i: int, j: int| 0 <= i < j < s.len() ==> s[i].0 != s[j].0
}

/// The sources of a sorted pair list, priorities stripped.
pub open spec fn strip_priorities(s: Seq<(int, SourceView)>) -> Seq<SourceView> {
    s.map_values(|p: (int, SourceView)| p.1)
}

/// The mathematical value of a manager configuration.
#[verifier::ext_equal]
pub struct ManagerConfigView {
    pub name: Seq<char>,
    pub sources: Seq<SourceView>,
}

/// The immutable configuration of a manager: its name and its sources,
/// highest priority first.
pub struct DefaultConfigurationManagerConfig {
    name: String,
    sources: Vec<DefaultConfigurationSource>,
}

impl View for DefaultConfigurationManagerConfig {
    type V = ManagerConfigView;

    closed spec fn view(&self) -> ManagerConfigView {
        ManagerConfigView { name: self.name@, sources: sources_view(self.sources@) }
    }
}

impl DefaultConfigurationManagerConfig {
    /// The display name of the manager.
    pub fn get_name(&self) -> (r: &String)
        ensures
            r@ == self@.name,
    {
        &self.name
    }

    /// The sources consulted during resolution, highest priority first.
    pub fn get_sources(&self) -> (r: &Vec<DefaultConfigurationSource>)
        ensures
            sources_view(r@) == self@.sources,
    {
        &self.sources
    }
}

/// The mathematical value of a manager configuration builder.
#[verifier::ext_equal]
pub struct ManagerBuilderView {
    pub name: Option<Seq<char>>,
    pub sources: Seq<(int, SourceView)>,
}

impl ManagerBuilderView {
    /// Whether `build` may run: the name is set and no two sources share
    /// a priority.
    pub open spec fn can_build(self) -> bool {
        &&& self.name is Some
        &&& unique_priorities(self.sources)
    }

    /// The configuration this builder describes: the added sources
    /// ordered by descending priority.
    pub open spec fn built(self) -> ManagerConfigView {
        ManagerConfigView { name: self.name->0, sources: strip_priorities(sort_desc(self.sources)) }
    }
}

/// Accumulates the parts of a manager configuration.
pub struct DefaultConfigurationManagerConfigBuilder {
    name: Option<String>,
    sources: Vec<(i32, DefaultConfigurationSource)>,
}

impl View for DefaultConfigurationManagerConfigBuilder {
    type V = ManagerBuilderView;

    closed spec fn view(&self) -> ManagerBuilderView {
        ManagerBuilderView {
            name: match self.name {
                Some(ref s) => Some(s@),
                None => None,
            },
            sources: pairs_view(self.sources@),
        }
    }
}

impl DefaultConfigurationManagerConfigBuilder {
    /// A builder with nothing set.
    pub fn new() -> (r: DefaultConfigurationManagerConfigBuilder)
        ensures
            r@ == (ManagerBuilderView { name: None, sources: Seq::empty() }),
    {
        let r = DefaultConfigurationManagerConfigBuilder { name: None, sources: Vec::new() };
        proof {
            assert(r@ =~= (ManagerBuilderView { name: None, sources: Seq::empty() }));
        }
        r
    }

    /// Sets the manager name.  Required before building.
    pub fn set_name(self, name: &str) -> (r: Self)
        ensures
            r@ == (ManagerBuilderView { name: Some(name@), ..self@ }),
    {
        let r = DefaultConfigurationManagerConfigBuilder {
            name: Some(name.to_owned()),
            ..self
        };
        proof {
            assert(r@ =~= (ManagerBuilderView { name: Some(name@), ..self@ }));
        }
        r
    }

    /// Adds one source under the given priority.  A greater priority is
    /// consulted earlier during resolution.
    pub fn add_source(self, priority: i32, source: DefaultConfigurationSource) -> (r: Self)
        ensures
            r@ == (ManagerBuilderView {
                sources: self@.sources.push((priority as int, source@)),
                ..self@
            }),
    {
        let ghost pre = self@;
        let ghost sv = source@;
        let mut s = self;
        s.sources.push((priority, source));
        proof {
            assert(s@ =~= (ManagerBuilderView {
                sources: pre.sources.push((priority as int, sv)),
                ..pre
            }));
        }
        s
    }

    /// Freezes the accumulated parts into a manager configuration, or
    /// yields `None` exactly when the name is missing or two sources
    /// share a priority.
    pub fn try_build(&self) -> (r: Option<DefaultConfigurationManagerConfig>)
        ensures
            self@.can_build() <==> r is Some,
            r matches Some(c) ==> c@ == self@.built(),
    {
        let name = match &self.name {
            Some(n) => n.clone(),
            None => {
                return None;
            },
        };
        if !priorities_unique(&self.sources) {
            return None;
        }
        let pairs = clone_pairs(&self.sources);
        let sorted = sort_pairs(pairs);
        let sources = strip_pairs(sorted);
        let c = DefaultConfigurationManagerConfig { name, sources };
        proof {
            assert(c@ =~= self@.built());
        }
        Some(c)
    }

    /// Freezes the accumulated parts into a manager configuration.
    ///
    /// Building without a name, or with two sources under one priority,
    /// is a construction-time usage error and is excluded here;
    /// `try_build` reports those cases as `None`.
    pub fn build(&self) -> (r: DefaultConfigurationManagerConfig)
        requires
            self@.can_build(),
        ensures
            r@ == self@.built(),
    {
        match self.try_build() {
            Some(c) => c,
            None => unreached(),
        }
    }
}

/// Decides whether no two pairs of the list share a priority.
fn priorities_unique(s: &Vec<(i32, DefaultConfigurationSource)>) -> (r: bool)
    ensures
        r == unique_priorities(pairs_view(s@)),
{
    let mut i: usize = 0;
    while i < s.len()
        invariant
            i <= s.len(),
            forall|a: int, b: int| 0 <= a < b < s@.len() && a < i ==> pairs_view(s@)[a].0
                != pairs_view(s@)[b].0,
        decreases s.len() - i,
    {
        let mut j: usize = i + 1;
        while j < s.len()
            invariant
                i < j <= s.len(),
                forall|a: int, b: int| 0 <= a < b < s@.len() && a < i ==> pairs_view(s@)[a].0
                    != pairs_view(s@)[b].0,
                forall|b: int| i < b < j ==> pairs_view(s@)[i as int].0 != pairs_view(s@)[b].0,
            decreases s.len() - j,
        {
            if s[i].0 == s[j].0 {
                proof {
                    assert(pairs_view(s@)[i as int].0 == pairs_view(s@)[j as int].0);
                }
                return false;
            }
            j += 1;
        }
        i += 1;
    }
    true
}

/// An exact copy of a priority/source pair list.
fn clone_pairs(s: &Vec<(i32, DefaultConfigurationSource)>) -> (r: Vec<
    (i32, DefaultConfigurationSource),
>)
    ensures
        pairs_view(r@) == pairs_view(s@),
{
    let mut r: Vec<(i32, DefaultConfigurationSource)> = Vec::new();
    let mut i: usize = 0;
    while i < s.len()
        invariant
            i <= s.len(),
            r@.len() == i,
            forall|j: int|
                0 <= j < i ==> #[trigger] r@[j].0 == s@[j].0 && r@[j].1@ == s@[j].1@,
        decreases s.len() - i,
    {
        let pair = &s[i];
        r.push((pair.0, pair.1.clone_source()));
        i += 1;
    }
    proof {
        assert(pairs_view(r@) =~= pairs_view(s@));
    }
    r
}

/// Inserts a pair into a list sorted by weakly descending priority.
fn insert_pair(p: (i32, DefaultConfigurationSource), s: Vec<(i32, DefaultConfigurationSource)>)
    -> (r: Vec<(i32, DefaultConfigurationSource)>)
    ensures
        pairs_view(r@) == insert_desc((p.0 as int, p.1@), pairs_view(s@)),
    decreases s@.len(),
{
    let ghost pv = (p.0 as int, p.1@);
    let ghost sv0 = pairs_view(s@);
    if s.len() == 0 {
        let mut r = s;
        r.push(p);
        proof {
            assert(pairs_view(r@) =~= insert_desc(pv, sv0));
        }
        r
    } else if p.0 >= s[0].0 {
        let mut r = s;
        r.insert(0, p);
        proof {
            assert(pairs_view(r@) =~= seq![pv] + sv0);
        }
        r
    } else {
        let mut s2 = s;
        let head = s2.remove(0);
        let ghost hv = (head.0 as int, head.1@);
        proof {
            assert(pairs_view(s2@) =~= pairs_view(s@).drop_first());
        }
        let mut r = insert_pair(p, s2);
        r.insert(0, head);
        proof {
            assert(pairs_view(r@) =~= seq![hv] + insert_desc(pv, pairs_view(s@).drop_first()));
            assert(seq![hv] == seq![pairs_view(s@)[0]]);
        }
        r
    }
}

/// Sorts a pair list by descending priority.
fn sort_pairs(s: Vec<(i32, DefaultConfigurationSource)>) -> (r: Vec<
    (i32, DefaultConfigurationSource),
>)
    ensures
        pairs_view(r@) == sort_desc(pairs_view(s@)),
    decreases s@.len(),
{
    if s.len() == 0 {
        proof {
            assert(pairs_view(s@) =~= Seq::<(int, SourceView)>::empty());
            assert(sort_desc(pairs_view(s@)) =~= pairs_view(s@));
        }
        s
    } else {
        let mut s2 = s;
        let head = s2.remove(0);
        proof {
            assert(pairs_view(s2@) =~= pairs_view(s@).drop_first());
        }
        let sorted = sort_pairs(s2);
        insert_pair(head, sorted)
    }
}

/// Strips the priorities off a sorted pair list.
fn strip_pairs(s: Vec<(i32, DefaultConfigurationSource)>) -> (r: Vec<DefaultConfigurationSource>)
    ensures
        sources_view(r@) == strip_priorities(pairs_view(s@)),
{
    let mut r: Vec<DefaultConfigurationSource> = Vec::new();
    let mut i: usize = 0;
    let mut s2 = s;
    while i < s2.len()
        invariant
            i <= s2.len(),
            r@.len() == i,
            forall|j: int| 0 <= j < i ==> #[trigger] r@[j]@ == s2@[j].1@,
        decreases s2.len() - i,
    {
        let pair = &s2[i];
        r.push(pair.1.clone_source());
        i += 1;
    }
    proof {
        assert(sources_view(r@) =~= strip_priorities(pairs_view(s2@)));
    }
    r
}

/// What one change pass does to one cached property: nothing when the
/// re-resolved value equals the current one, nothing for a static
/// property, nothing when a required property would lose its value;
/// otherwise the new value and contributing source are adopted.
pub open spec fn spec_step_property(sources: Seq<SourceView>, p: PropertyView) -> PropertyView {
    let (nv, ns) = spec_resolve(sources, p.config);
    if nv == p.value {
        p
    } else if p.config.is_static {
        p
    } else if nv is None && p.config.is_required {
        p
    } else {
        PropertyView { value: nv, source: ns, ..p }
    }
}

/// Whether one change pass adopts a new value for the property.
pub open spec fn spec_property_changes(sources: Seq<SourceView>, p: PropertyView) -> bool {
    let nv = spec_resolve(sources, p.config).0;
    &&& nv != p.value
    &&& !p.config.is_static
    &&& !(nv is None && p.config.is_required)
}

/// The event recording one adopted change of one property.
pub open spec fn spec_change_event(sources: Seq<SourceView>, p: PropertyView, t: u128) -> EventView {
    EventView {
        property: spec_step_property(sources, p),
        old_value: p.value,
        new_value: spec_resolve(sources, p.config).0,
        change_time: t,
    }
}

/// The listener invocations one property contributes to a change pass:
/// none when no change is adopted, otherwise one per property listener
/// in registration order followed by one per manager-wide listener in
/// registration order, all carrying the same event.
pub open spec fn spec_property_notices(
    sources: Seq<SourceView>,
    p: PropertyView,
    mgr_listeners: Seq<u64>,
    t: u128,
) -> Seq<(u64, EventView)> {
    if spec_property_changes(sources, p) {
        (p.listeners + mgr_listeners).map_values(|l: u64| (l, spec_change_event(sources, p, t)))
    } else {
        Seq::empty()
    }
}

/// The listener invocations of a change pass from property index `i` on.
pub open spec fn notices_from(
    sources: Seq<SourceView>,
    props: Seq<PropertyView>,
    mgr_listeners: Seq<u64>,
    t: u128,
    i: int,
) -> Seq<(u64, EventView)>
    decreases props.len() - i,
{
    if i < 0 || i >= props.len() {
        Seq::empty()
    } else {
        spec_property_notices(sources, props[i], mgr_listeners, t) + notices_from(
            sources,
            props,
            mgr_listeners,
            t,
            i + 1,
        )
    }
}

/// All listener invocations of one change pass, in cache order.
pub open spec fn spec_all_notices(
    sources: Seq<SourceView>,
    props: Seq<PropertyView>,
    mgr_listeners: Seq<u64>,
    t: u128,
) -> Seq<(u64, EventView)> {
    notices_from(sources, props, mgr_listeners, t, 0)
}

/// The views of a listener invocation list.
pub open spec fn notices_view(v: Seq<(u64, DefaultRawPropertyChangeEvent)>) -> Seq<
    (u64, EventView),
> {
    v.map_values(|n: (u64, DefaultRawPropertyChangeEvent)| (n.0, n.1@))
}

/// The views of a property list.
pub open spec fn props_view(s: Seq<DefaultRawProperty>) -> Seq<PropertyView> {
    s.map_values(|p: DefaultRawProperty| p@)
}

/// The index of the first cached property under `key`, or the length of
/// `props` when no property holds it, scanning from `i`.
pub open spec fn find_prop_from(props: Seq<PropertyView>, key: ValueView, i: int) -> int
    decreases props.len() - i,
{
    if i < 0 || i >= props.len() {
        props.len() as int
    } else if props[i].config.key == key {
        i
    } else {
        find_prop_from(props, key, i + 1)
    }
}

/// The mathematical value of a configuration manager.
#[verifier::ext_equal]
pub struct ManagerView {
    pub config: ManagerConfigView,
    pub properties: Seq<PropertyView>,
    pub listeners: Seq<u64>,
}

impl ManagerView {
    /// Well-formedness of the cache: one property per distinct key, and
    /// every contributing source index in range.
    pub open spec fn wf(self) -> bool {
        &&& forall|i: int, j: int|
            0 <= i < j < self.properties.len() ==> self.properties[i].config.key
                != self.properties[j].config.key
        &&& forall|i: int|
            0 <= i < self.properties.len() ==> (#[trigger] self.properties[i].source matches Some(
                s,
            ) ==> 0 <= s < self.config.sources.len())
    }

    /// Whether `cfg` asks for a key that is cached under a materially
    /// different configuration.
    pub open spec fn key_conflict(self, cfg: ConfigView) -> bool {
        let i = find_prop_from(self.properties, cfg.key, 0);
        i < self.properties.len() && self.properties[i].config != cfg
    }

    /// Whether a first resolution of `cfg` would leave a required
    /// property without a value.
    pub open spec fn required_missing_on_miss(self, cfg: ConfigView) -> bool {
        let i = find_prop_from(self.properties, cfg.key, 0);
        i == self.properties.len() && cfg.is_required && spec_resolve(
            self.config.sources,
            cfg,
        ).0 is None
    }
}

/// What `get_property` does to a manager: an existing property under the
/// same key is reused unchanged; otherwise the property is resolved once
/// and appended to the cache.  Yields the new manager and the property's
/// handle.
pub open spec fn spec_get_property(m: ManagerView, cfg: ConfigView) -> (ManagerView, int) {
    let i = find_prop_from(m.properties, cfg.key, 0);
    if i < m.properties.len() {
        (m, i)
    } else {
        let (v, s) = spec_resolve(m.config.sources, cfg);
        (
            ManagerView {
                properties: m.properties.push(
                    PropertyView { config: cfg, value: v, source: s, listeners: Seq::empty() },
                ),
                ..m
            },
            i,
        )
    }
}

/// The resolution core: an ordered source list and a cache of live
/// properties, exactly one per distinct key.
pub struct DefaultConfigurationManager {
    config: DefaultConfigurationManagerConfig,
    properties: Vec<DefaultRawProperty>,
    raw_change_listeners: Vec<u64>,
}

impl View for DefaultConfigurationManager {
    type V = ManagerView;

    closed spec fn view(&self) -> ManagerView {
        ManagerView {
            config: self.config@,
            properties: props_view(self.properties@),
            listeners: self.raw_change_listeners@,
        }
    }
}

impl DefaultConfigurationManager {
    /// A manager over the given configuration, with an empty cache.
    pub fn new(config: DefaultConfigurationManagerConfig) -> (r: DefaultConfigurationManager)
        ensures
            r@ == (ManagerView {
                config: config@,
                properties: Seq::empty(),
                listeners: Seq::empty(),
            }),
            r@.wf(),
    {
        let r = DefaultConfigurationManager {
            config,
            properties: Vec::new(),
            raw_change_listeners: Vec::new(),
        };
        proof {
            assert(r@ =~= (ManagerView {
                config: r.config@,
                properties: Seq::empty(),
                listeners: Seq::empty(),
            }));
        }
        r
    }

    /// The configuration of this manager.
    pub fn get_config(&self) -> (r: &DefaultConfigurationManagerConfig)
        ensures
            r@ == self@.config,
    {
        &self.config
    }

    /// Applies the property's filter, if any, to a candidate value a
    /// source yielded.
    pub fn apply_value_filter(config: &DefaultRawPropertyConfig, value: Option<ConfigValue>) -> (r:
        Option<ConfigValue>)
        ensures
            opt_view(r) == spec_post_filter(config@, opt_view(value)),
    {
        match value {
            None => None,
            Some(v) => match config.get_value_filter() {
                None => Some(v),
                Some(f) => f.filter(&v),
            },
        }
    }

    /// Whether a resolved value satisfies the property's required flag:
    /// a required property must have resolved to some value.
    pub fn check_required(config: &DefaultRawPropertyConfig, value: &Option<ConfigValue>) -> (r:
        bool)
        ensures
            r == !(config@.is_required && opt_view(*value) is None),
    {
        !(config.is_required() && value.is_none())
    }

    /// Resolves a property over an ordered source list: the first source
    /// with a post-filter value wins, else the configured default.
    fn resolve_value(
        sources: &Vec<DefaultConfigurationSource>,
        config: &DefaultRawPropertyConfig,
    ) -> (r: (Option<ConfigValue>, Option<usize>))
        ensures
            ({
                let (v, s) = spec_resolve(sources_view(sources@), config@);
                opt_view(r.0) == v && opt_source_view(r.1) == s
            }),
    {
        let ghost sv = sources_view(sources@);
        let mut i: usize = 0;
        while i < sources.len()
            invariant
                i <= sources.len(),
                sv == sources_view(sources@),
                spec_resolve(sv, config@) == resolve_from(sv, config@, i as int),
            decreases sources.len() - i,
        {
            let raw = sources[i].get_property_value(config);
            let candidate = Self::apply_value_filter(config, raw);
            proof {
                assert(sv[i as int] == sources@[i as int]@);
            }
            if candidate.is_some() {
                return (candidate, Some(i));
            }
            i += 1;
        }
        (config.get_raw_default_value(), None)
    }

    /// Resolves a property over this manager's sources without touching
    /// the cache: the value and the index of the contributing source.
    pub fn do_get_property_value(&self, config: &DefaultRawPropertyConfig) -> (r: (
        Option<ConfigValue>,
        Option<usize>,
    ))
        ensures
            ({
                let (v, s) = spec_resolve(self@.config.sources, config@);
                opt_view(r.0) == v && opt_source_view(r.1) == s
            }),
    {
        Self::resolve_value(&self.config.sources, config)
    }

    /// Resolves a property's value without touching the cache, or
    /// reports that a required property resolved to no value.
    pub fn try_get_property_value(&self, config: &DefaultRawPropertyConfig) -> (r: Result<
        Option<ConfigValue>,
        ConfigurationError,
    >)
        ensures
            ({
                let v = spec_resolve(self@.config.sources, config@).0;
                match r {
                    Ok(value) => opt_view(value) == v && !(config@.is_required && v is None),
                    Err(e) => e == ConfigurationError::RequiredPropertyMissing
                        && config@.is_required && v is None,
                }
            }),
    {
        let (value, _) = self.do_get_property_value(config);
        if Self::check_required(config, &value) {
            Ok(value)
        } else {
            Err(ConfigurationError::RequiredPropertyMissing)
        }
    }

    /// Resolves a property's value without touching the cache.
    ///
    /// A required property resolving to no value is a fatal
    /// configuration mistake and is excluded here; `try_get_property_value`
    /// reports that case as an error.
    pub fn get_property_value(&self, config: &DefaultRawPropertyConfig) -> (r: Option<ConfigValue>)
        requires
            !(config@.is_required && spec_resolve(self@.config.sources, config@).0 is None),
        ensures
            opt_view(r) == spec_resolve(self@.config.sources, config@).0,
    {
        match self.try_get_property_value(config) {
            Ok(value) => value,
            Err(_) => unreached(),
        }
    }

    /// The index of the first cached property under `key`.
    fn find_property(&self, key: &ConfigValue) -> (r: usize)
        ensures
            r as int == find_prop_from(self@.properties, key@, 0),
            r <= self@.properties.len(),
            r < self@.properties.len() ==> self@.properties[r as int].config.key == key@,
            forall|j: int| 0 <= j < r ==> self@.properties[j].config.key != key@,
    {
        let ghost pv = self@.properties;
        let mut i: usize = 0;
        while i < self.properties.len()
            invariant
                i <= self.properties.len(),
                pv == props_view(self.properties@),
                find_prop_from(pv, key@, 0) == find_prop_from(pv, key@, i as int),
                forall|j: int| 0 <= j < i ==> pv[j].config.key != key@,
            decreases self.properties.len() - i,
        {
            if crate::value::any::equal(self.properties[i].get_raw_config().get_raw_key(), key)
            {
                proof {
                    assert(pv[i as int].config.key == key@);
                    assert(find_prop_from(pv, key@, i as int) == i as int);
                }
                return i;
            }
            i += 1;
        }
        i
    }

    /// Fetches or creates the cached property for a configuration, or
    /// reports why it cannot: the key is cached under a materially
    /// different configuration, or a first resolution would leave a
    /// required property without a value.  Yields the property's handle;
    /// equal configurations always yield the same handle.
    pub fn try_get_property(&mut self, config: &DefaultRawPropertyConfig) -> (r: Result<
        usize,
        ConfigurationError,
    >)
        requires
            old(self)@.wf(),
        ensures
            final(self)@.wf(),
            match r {
                Ok(h) => !old(self)@.key_conflict(config@) && !old(self)@.required_missing_on_miss(
                    config@,
                ) && final(self)@ == spec_get_property(old(self)@, config@).0 && h as int
                    == spec_get_property(old(self)@, config@).1,
                Err(e) => final(self)@ == old(self)@ && (match e {
                    ConfigurationError::ConfigMismatch => old(self)@.key_conflict(config@),
                    ConfigurationError::RequiredPropertyMissing => !old(self)@.key_conflict(
                        config@,
                    ) && old(self)@.required_missing_on_miss(config@),
                }),
            },
    {
        let idx = self.find_property(config.get_raw_key());
        if idx < self.properties.len() {
            if self.properties[idx].get_raw_config().config_eq(config) {
                Ok(idx)
            } else {
                Err(ConfigurationError::ConfigMismatch)
            }
        } else {
            let (value, source) = Self::resolve_value(&self.config.sources, config);
            if !Self::check_required(config, &value) {
                return Err(ConfigurationError::RequiredPropertyMissing);
            }
            let ghost pre = self@;
            let mut property = DefaultRawProperty::new(config);
            property.update(value, source);
            let ghost new_prop = property@;
            self.properties.push(property);
            proof {
                assert(self@.properties =~= pre.properties.push(new_prop));
                assert(self@ =~= spec_get_property(pre, config@).0);
                lemma_resolve_shape(pre.config.sources, config@, 0);
            }
            Ok(idx)
        }
    }

    /// Fetches or creates the cached property for a configuration and
    /// yields its handle.  Exactly one property exists per distinct key:
    /// equal configurations always yield the same handle.
    ///
    /// Requesting a cached key with a materially different configuration,
    /// or first-resolving a required property to no value, are fatal
    /// usage errors and are excluded here; `try_get_property` reports
    /// them as errors.
    pub fn get_property(&mut self, config: &DefaultRawPropertyConfig) -> (r: usize)
        requires
            old(self)@.wf(),
            !old(self)@.key_conflict(config@),
            !old(self)@.required_missing_on_miss(config@),
        ensures
            final(self)@.wf(),
            final(self)@ == spec_get_property(old(self)@, config@).0,
            r as int == spec_get_property(old(self)@, config@).1,
    {
        match self.try_get_property(config) {
            Ok(h) => h,
            Err(_) => unreached(),
        }
    }

    /// The cached property behind a handle.
    pub fn property_at(&self, property: usize) -> (r: &DefaultRawProperty)
        requires
            property < self@.properties.len(),
        ensures
            r@ == self@.properties[property as int],
    {
        &self.properties[property]
    }

    /// The number of cached properties.
    pub fn property_count(&self) -> (r: usize)
        ensures
            r == self@.properties.len(),
    {
        self.properties.len()
    }

    /// Registers a manager-wide listener handle, notified of every
    /// property change.
    pub fn add_raw_change_listener(&mut self, listener: u64)
        ensures
            final(self)@ == (ManagerView {
                listeners: old(self)@.listeners.push(listener),
                ..old(self)@
            }),
    {
        self.raw_change_listeners.push(listener);
        proof {
            assert(self@ =~= (ManagerView {
                listeners: old(self)@.listeners.push(listener),
                ..old(self)@
            }));
        }
    }

    /// Registers a listener handle on one cached property.
    pub fn add_property_change_listener(&mut self, property: usize, listener: u64)
        requires
            property < old(self)@.properties.len(),
        ensures
            final(self)@ == (ManagerView {
                properties: old(self)@.properties.update(
                    property as int,
                    PropertyView {
                        listeners: old(self)@.properties[property as int].listeners.push(listener),
                        ..old(self)@.properties[property as int]
                    },
                ),
                ..old(self)@
            }),
    {
        self.properties[property].add_raw_change_listener(listener);
        proof {
            assert(self@ =~= (ManagerView {
                properties: old(self)@.properties.update(
                    property as int,
                    PropertyView {
                        listeners: old(self)@.properties[property as int].listeners.push(listener),
                        ..old(self)@.properties[property as int]
                    },
                ),
                ..old(self)@
            }));
        }
    }

    /// Runs one change pass: re-resolves every cached property and
    /// reports the listener invocations due.
    ///
    /// A property whose re-resolved value equals its current one
    /// contributes nothing.  A static property never adopts a change,
    /// and a required property never loses its last value.  Every other
    /// changed property adopts the new value and source, and contributes
    /// one invocation per property listener in registration order
    /// followed by one per manager-wide listener in registration order,
    /// all carrying the same change event.
    pub fn on_source_change(&mut self, change_time: u128) -> (r: Vec<
        (u64, DefaultRawPropertyChangeEvent),
    >)
        requires
            old(self)@.wf(),
        ensures
            final(self)@.wf(),
            final(self)@.config == old(self)@.config,
            final(self)@.listeners == old(self)@.listeners,
            final(self)@.properties.len() == old(self)@.properties.len(),
            forall|i: int|
                0 <= i < old(self)@.properties.len() ==> final(self)@.properties[i]
                    == spec_step_property(
                    old(self)@.config.sources,
                    #[trigger] old(self)@.properties[i],
                ),
            notices_view(r@) == spec_all_notices(
                old(self)@.config.sources,
                old(self)@.properties,
                old(self)@.listeners,
                change_time,
            ),
    {
        let ghost srcs = old(self)@.config.sources;
        let ghost props0 = old(self)@.properties;
        let ghost ls = old(self)@.listeners;
        let mut notices: Vec<(u64, DefaultRawPropertyChangeEvent)> = Vec::new();
        let mut i: usize = 0;
        while i < self.properties.len()
            invariant
                i <= self.properties.len(),
                srcs == old(self)@.config.sources,
                props0 == old(self)@.properties,
                ls == old(self)@.listeners,
                self@.config == old(self)@.config,
                self@.listeners == old(self)@.listeners,
                self@.properties.len() == props0.len(),
                forall|j: int|
                    0 <= j < i ==> self@.properties[j] == spec_step_property(
                        srcs,
                        #[trigger] props0[j],
                    ),
                forall|j: int| i <= j < props0.len() ==> self@.properties[j] == #[trigger] props0[j],
                notices_view(notices@) + notices_from(srcs, props0, ls, change_time, i as int)
                    == spec_all_notices(srcs, props0, ls, change_time),
            decreases self.properties.len() - i,
        {
            let ghost p = props0[i as int];
            proof {
                assert(self@.properties[i as int] == p);
            }
            let (nv, ns) = Self::resolve_value(
                &self.config.sources,
                self.properties[i].get_raw_config(),
            );
            let old_value = self.properties[i].get_raw_value();
            let is_noop = opt_value_eq(&nv, &old_value) || self.properties[
                i
            ].get_raw_config().is_static() || (nv.is_none() && self.properties[
                i
            ].get_raw_config().is_required());
            if is_noop {
                proof {
                    assert(!spec_property_changes(srcs, p));
                    assert(spec_step_property(srcs, p) == p);
                    assert(spec_property_notices(srcs, p, ls, change_time) =~= Seq::<
                        (u64, EventView),
                    >::empty());
                    assert(notices_from(srcs, props0, ls, change_time, i as int)
                        == spec_property_notices(srcs, p, ls, change_time) + notices_from(
                        srcs,
                        props0,
                        ls,
                        change_time,
                        i + 1,
                    ));
                    assert(spec_property_notices(srcs, p, ls, change_time) + notices_from(
                        srcs,
                        props0,
                        ls,
                        change_time,
                        i + 1,
                    ) =~= notices_from(srcs, props0, ls, change_time, i + 1));
                }
            } else {
                let update_value = clone_opt_value(&nv);
                self.properties[i].update(update_value, ns);
                proof {
                    assert(spec_property_changes(srcs, p));
                    assert(self@.properties[i as int] =~= spec_step_property(srcs, p));
                }
                let snapshot = self.properties[i].clone_property();
                let event = DefaultRawPropertyChangeEvent::new(
                    snapshot,
                    old_value,
                    nv,
                    change_time,
                );
                let ghost ev = spec_change_event(srcs, p, change_time);
                proof {
                    assert(event@ =~= ev);
                }
                let mut chunk = self.properties[i].raise_change_event(&event);
                let mut k: usize = 0;
                while k < self.raw_change_listeners.len()
                    invariant
                        k <= self.raw_change_listeners.len(),
                        self.raw_change_listeners@ == ls,
                        event@ == ev,
                        chunk@.len() == p.listeners.len() + k,
                        forall|j: int|
                            0 <= j < p.listeners.len() ==> #[trigger] chunk@[j].0
                                == p.listeners[j] && chunk@[j].1@ == ev,
                        forall|j: int|
                            p.listeners.len() <= j < p.listeners.len() + k ==> #[trigger] chunk@[
                                j
                            ].0 == ls[j - p.listeners.len()] && chunk@[j].1@ == ev,
                    decreases self.raw_change_listeners.len() - k,
                {
                    chunk.push((self.raw_change_listeners[k], event.clone_event()));
                    k += 1;
                }
                proof {
                    assert(notices_view(chunk@) =~= (p.listeners + ls).map_values(
                        |l: u64| (l, ev),
                    ));
                    assert(notices_view(chunk@) == spec_property_notices(
                        srcs,
                        p,
                        ls,
                        change_time,
                    ));
                }
                let ghost pre_notices = notices@;
                notices.append(&mut chunk);
                proof {
                    assert(notices_view(notices@) =~= notices_view(pre_notices) + notices_view(
                        notices@.subrange(pre_notices.len() as int, notices@.len() as int),
                    ));
                    assert(notices_view(notices@) =~= notices_view(pre_notices)
                        + spec_property_notices(srcs, p, ls, change_time));
                    assert(notices_from(srcs, props0, ls, change_time, i as int)
                        == spec_property_notices(srcs, p, ls, change_time) + notices_from(
                        srcs,
                        props0,
                        ls,
                        change_time,
                        i + 1,
                    ));
                    assert((notices_view(pre_notices) + spec_property_notices(
                        srcs,
                        p,
                        ls,
                        change_time,
                    )) + notices_from(srcs, props0, ls, change_time, i + 1) =~= notices_view(
                        pre_notices,
                    ) + (spec_property_notices(srcs, p, ls, change_time) + notices_from(
                        srcs,
                        props0,
                        ls,
                        change_time,
                        i + 1,
                    )));
                }
            }
            i += 1;
        }
        proof {
            assert(notices_from(srcs, props0, ls, change_time, props0.len() as int) =~= Seq::<
                (u64, EventView),
            >::empty());
            assert(notices_view(notices@) + notices_from(
                srcs,
                props0,
                ls,
                change_time,
                props0.len() as int,
            ) =~= notices_view(notices@));
            assert forall|ii: int, jj: int|
                0 <= ii < jj < self@.properties.len() implies self@.properties[ii].config.key
                != self@.properties[jj].config.key by {
                assert(self@.properties[ii].config == props0[ii].config);
                assert(self@.properties[jj].config == props0[jj].config);
            }
            assert forall|ii: int|
                0 <= ii < self@.properties.len() implies (#[trigger] self@.properties[ii].source
                matches Some(s) ==> 0 <= s < self@.config.sources.len()) by {
                lemma_resolve_shape(srcs, props0[ii].config, 0);
            }
        }
        notices
    }

    /// Stores, replaces or removes one raw value in one source, then
    /// runs a change pass over the cache and reports the listener
    /// invocations due.  This is how a dynamic configuration update
    /// enters the system.
    pub fn update_source_value(
        &mut self,
        source: usize,
        key: ConfigValue,
        value: Option<ConfigValue>,
        change_time: u128,
    ) -> (r: Vec<(u64, DefaultRawPropertyChangeEvent)>)
        requires
            old(self)@.wf(),
            source < old(self)@.config.sources.len(),
        ensures
            ({
                let srcs1 = old(self)@.config.sources.update(
                    source as int,
                    SourceView {
                        entries: spec_set_entry(
                            old(self)@.config.sources[source as int].entries,
                            key@,
                            opt_view(value),
                        ),
                        ..old(self)@.config.sources[source as int]
                    },
                );
                &&& final(self)@.wf()
                &&& final(self)@.config.name == old(self)@.config.name
                &&& final(self)@.config.sources == srcs1
                &&& final(self)@.listeners == old(self)@.listeners
                &&& final(self)@.properties.len() == old(self)@.properties.len()
                &&& forall|i: int|
                    0 <= i < old(self)@.properties.len() ==> final(self)@.properties[i]
                        == spec_step_property(srcs1, #[trigger] old(self)@.properties[i])
                &&& notices_view(r@) == spec_all_notices(
                    srcs1,
                    old(self)@.properties,
                    old(self)@.listeners,
                    change_time,
                )
            }),
    {
        let ghost pre = self@;
        let ghost kv = key@;
        let ghost vv = opt_view(value);
        let ghost srcs1 = pre.config.sources.update(
            source as int,
            SourceView {
                entries: spec_set_entry(pre.config.sources[source as int].entries, kv, vv),
                ..pre.config.sources[source as int]
            },
        );
        self.config.sources[source].set_property_value(key, value);
        proof {
            assert(self@.config.sources =~= srcs1);
            assert(self@.config =~= (ManagerConfigView { sources: srcs1, ..pre.config }));
            assert(self@.properties == pre.properties);
            assert(self@.listeners == pre.listeners);
            assert(self@.wf());
        }
        self.on_source_change(change_time)
    }
}

/// Sources yielding no post-filter candidate between `i` and `k` are
/// skipped without affecting the result.
proof fn lemma_resolve_skip(sources: Seq<SourceView>, cfg: ConfigView, i: int, k: int)
    requires
        0 <= i <= k <= sources.len(),
        forall|j: int| i <= j < k ==> spec_source_candidate(#[trigger] sources[j], cfg) is None,
    ensures
        resolve_from(sources, cfg, i) == resolve_from(sources, cfg, k),
    decreases k - i,
{
    if i < k {
        lemma_resolve_skip(sources, cfg, i + 1, k);
    }
}

/// Law: the higher-priority source wins.  With two sources added under
/// priorities `p1 > p2`, in either registration order, the built
/// configuration consults `s1` first, and when `s1` yields a post-filter
/// value, resolution returns it and never consults `s2`.
pub proof fn lemma_priority_precedence(
    p1: int,
    s1: SourceView,
    p2: int,
    s2: SourceView,
    cfg: ConfigView,
)
    requires
        p1 > p2,
        spec_source_candidate(s1, cfg) is Some,
    ensures
        strip_priorities(sort_desc(seq![(p1, s1), (p2, s2)])) == seq![s1, s2],
        strip_priorities(sort_desc(seq![(p2, s2), (p1, s1)])) == seq![s1, s2],
        spec_resolve(seq![s1, s2], cfg).0 == spec_source_candidate(s1, cfg),
        spec_resolve(seq![s1, s2], cfg).1 == Some(0int),
{
    reveal_with_fuel(sort_desc, 4);
    reveal_with_fuel(insert_desc, 4);
    let a = (p1, s1);
    let b = (p2, s2);
    assert(seq![a, b].drop_first() =~= seq![b]);
    assert(seq![b, a].drop_first() =~= seq![a]);
    assert(seq![a].drop_first() =~= Seq::<(int, SourceView)>::empty());
    assert(seq![b].drop_first() =~= Seq::<(int, SourceView)>::empty());
    assert(sort_desc(seq![b]) == insert_desc(b, Seq::empty()));
    assert(sort_desc(seq![a]) == insert_desc(a, Seq::empty()));
    assert(sort_desc(seq![a, b]) == insert_desc(a, seq![b]));
    assert(sort_desc(seq![a, b]) =~= seq![a] + seq![b]);
    assert(sort_desc(seq![b, a]) == insert_desc(b, seq![a]));
    assert(insert_desc(b, seq![a]) =~= seq![a] + insert_desc(b, Seq::empty()));
    assert(sort_desc(seq![b, a]) =~= seq![a] + seq![b]);
    assert(strip_priorities(seq![a] + seq![b]) =~= seq![s1, s2]);
    assert(spec_resolve(seq![s1, s2], cfg) == resolve_from(seq![s1, s2], cfg, 0));
    assert(seq![s1, s2][0] == s1);
}

/// Law: resolution falls through sources in order.  If every source
/// before `k` yields no post-filter candidate and source `k` yields one,
/// that candidate and that source are the result.
pub proof fn lemma_fallback(sources: Seq<SourceView>, cfg: ConfigView, k: int)
    requires
        0 <= k < sources.len(),
        forall|j: int| 0 <= j < k ==> spec_source_candidate(#[trigger] sources[j], cfg) is None,
        spec_source_candidate(sources[k], cfg) is Some,
    ensures
        spec_resolve(sources, cfg).0 == spec_source_candidate(sources[k], cfg),
        spec_resolve(sources, cfg).1 == Some(k),
{
    lemma_resolve_skip(sources, cfg, 0, k);
}

/// Law: when no source yields a post-filter candidate, resolution
/// returns the configured default with no contributing source; without
/// a default, it returns nothing.
pub proof fn lemma_fallback_default(sources: Seq<SourceView>, cfg: ConfigView)
    requires
        forall|j: int|
            0 <= j < sources.len() ==> spec_source_candidate(#[trigger] sources[j], cfg) is None,
    ensures
        spec_resolve(sources, cfg).0 == cfg.default_value,
        spec_resolve(sources, cfg).1 == None::<int>,
{
    lemma_resolve_skip(sources, cfg, 0, sources.len() as int);
}

/// Law: a filter rejection causes fallthrough, not absence.  When the
/// first source holds a value that the property's filter rejects and the
/// second source yields a post-filter candidate, resolution returns the
/// second source's candidate.
pub proof fn lemma_filter_short_circuit(s0: SourceView, s1: SourceView, cfg: ConfigView)
    requires
        spec_source_value(s0, cfg) is Some,
        cfg.value_filter is Some,
        spec_filter(cfg.value_filter->0, spec_source_value(s0, cfg)->0) is None,
        spec_source_candidate(s1, cfg) is Some,
    ensures
        spec_resolve(seq![s0, s1], cfg).0 == spec_source_candidate(s1, cfg),
        spec_resolve(seq![s0, s1], cfg).1 == Some(1int),
{
    assert(seq![s0, s1][0] == s0);
    assert(seq![s0, s1][1] == s1);
    assert(spec_source_candidate(s0, cfg) is None);
    lemma_fallback(seq![s0, s1], cfg, 1);
}

/// The scan for a key stops inside the cache or exactly at its end.
proof fn lemma_find_prop_bounds(props: Seq<PropertyView>, key: ValueView, i: int)
    requires
        0 <= i <= props.len(),
    ensures
        i <= find_prop_from(props, key, i) <= props.len(),
    decreases props.len() - i,
{
    if i < props.len() && props[i].config.key != key {
        lemma_find_prop_bounds(props, key, i + 1);
    }
}

/// No property between `i` and the end matches `key` when the scan from
/// `i` runs off the end.
proof fn lemma_find_prop_none(props: Seq<PropertyView>, key: ValueView, i: int)
    requires
        0 <= i <= props.len(),
        find_prop_from(props, key, i) == props.len(),
    ensures
        forall|j: int| i <= j < props.len() ==> (#[trigger] props[j]).config.key != key,
    decreases props.len() - i,
{
    if i < props.len() {
        lemma_find_prop_none(props, key, i + 1);
    }
}

/// Appending a property under `key` to a cache without one puts the
/// first match at the old end.
proof fn lemma_find_prop_push(props: Seq<PropertyView>, p: PropertyView, key: ValueView, i: int)
    requires
        0 <= i <= props.len(),
        find_prop_from(props, key, i) == props.len(),
        p.config.key == key,
    ensures
        find_prop_from(props.push(p), key, i) == props.len(),
    decreases props.len() - i,
{
    if i < props.len() {
        lemma_find_prop_push(props, p, key, i + 1);
    } else {
        assert(props.push(p)[i] == p);
    }
}

/// Law: one key, one property.  Fetching a property twice with equal
/// configurations yields the same handle, and the second fetch leaves
/// the manager unchanged.
pub proof fn lemma_cache_identity(m: ManagerView, cfg: ConfigView)
    ensures
        ({
            let (m1, h1) = spec_get_property(m, cfg);
            let (m2, h2) = spec_get_property(m1, cfg);
            m2 == m1 && h2 == h1
        }),
{
    let i = find_prop_from(m.properties, cfg.key, 0);
    lemma_find_prop_bounds(m.properties, cfg.key, 0);
    if i < m.properties.len() {
    } else {
        let (m1, h1) = spec_get_property(m, cfg);
        let newp = PropertyView {
            config: cfg,
            value: spec_resolve(m.config.sources, cfg).0,
            source: spec_resolve(m.config.sources, cfg).1,
            listeners: Seq::empty(),
        };
        assert(m1.properties == m.properties.push(newp));
        lemma_find_prop_push(m.properties, newp, cfg.key, 0);
        assert(find_prop_from(m1.properties, cfg.key, 0) == i);
    }
}

/// Nothing changes, nobody is notified, from property `i` on.
proof fn lemma_notices_empty_from(
    sources: Seq<SourceView>,
    props: Seq<PropertyView>,
    ls: Seq<u64>,
    t: u128,
    i: int,
)
    requires
        0 <= i <= props.len(),
        forall|j: int|
            0 <= j < props.len() ==> spec_resolve(sources, (#[trigger] props[j]).config).0
                == props[j].value,
    ensures
        notices_from(sources, props, ls, t, i) == Seq::<(u64, EventView)>::empty(),
    decreases props.len() - i,
{
    if i < props.len() {
        lemma_notices_empty_from(sources, props, ls, t, i + 1);
        assert(!spec_property_changes(sources, props[i]));
        assert(spec_property_notices(sources, props[i], ls, t) =~= Seq::<
            (u64, EventView),
        >::empty());
        assert(notices_from(sources, props, ls, t, i) =~= Seq::<(u64, EventView)>::empty());
    }
}

/// Law: change detection is by value.  A change pass in which every
/// cached property re-resolves to its current value adopts nothing and
/// produces zero listener invocations.
pub proof fn lemma_no_change_no_notifications(
    sources: Seq<SourceView>,
    props: Seq<PropertyView>,
    ls: Seq<u64>,
    t: u128,
)
    requires
        forall|j: int|
            0 <= j < props.len() ==> spec_resolve(sources, (#[trigger] props[j]).config).0
                == props[j].value,
    ensures
        forall|j: int|
            0 <= j < props.len() ==> spec_step_property(sources, #[trigger] props[j]) == props[j],
        spec_all_notices(sources, props, ls, t) == Seq::<(u64, EventView)>::empty(),
{
    lemma_notices_empty_from(sources, props, ls, t, 0);
}

/// Law: an adopted change notifies each listener exactly once.  A change
/// pass over a single cached property whose value changes produces one
/// invocation per property listener, in registration order, followed by
/// one per manager-wide listener, in registration order, all carrying
/// the same event: the value before, the value after, and the property
/// as of after the change.
pub proof fn lemma_change_notifies_each_listener_once(
    sources: Seq<SourceView>,
    props: Seq<PropertyView>,
    ls: Seq<u64>,
    t: u128,
)
    requires
        props.len() == 1,
        spec_property_changes(sources, props[0]),
    ensures
        ({
            let ns = spec_all_notices(sources, props, ls, t);
            let ev = spec_change_event(sources, props[0], t);
            &&& ns.len() == props[0].listeners.len() + ls.len()
            &&& forall|j: int|
                0 <= j < props[0].listeners.len() ==> #[trigger] ns[j] == (
                    props[0].listeners[j],
                    ev,
                )
            &&& forall|j: int|
                props[0].listeners.len() <= j < ns.len() ==> #[trigger] ns[j] == (
                    ls[j - props[0].listeners.len()],
                    ev,
                )
            &&& ev.old_value == props[0].value
            &&& ev.new_value == spec_resolve(sources, props[0].config).0
        }),
{
    let ev = spec_change_event(sources, props[0], t);
    let chunk = spec_property_notices(sources, props[0], ls, t);
    assert(notices_from(sources, props, ls, t, 1) == Seq::<(u64, EventView)>::empty());
    assert(spec_all_notices(sources, props, ls, t) =~= chunk);
    assert(chunk == (props[0].listeners + ls).map_values(|l: u64| (l, ev)));
}

/// Law: a static property is immutable after first resolution.  Whatever
/// the sources now hold, a change pass leaves its value and contributing
/// source untouched, even where a fresh, cache-free resolution would
/// yield something else.
pub proof fn lemma_static_property_immutable(sources: Seq<SourceView>, p: PropertyView)
    requires
        p.config.is_static,
    ensures
        spec_step_property(sources, p) == p,
{
}

/// Law: a required property never silently loses its value.  When
/// re-resolution yields no value for a required property, a change pass
/// keeps its last value and source; the violation surfaces only at the
/// next fresh resolution, which reports the missing value.
pub proof fn lemma_required_property_keeps_value(sources: Seq<SourceView>, p: PropertyView)
    requires
        p.config.is_required,
        spec_resolve(sources, p.config).0 is None,
    ensures
        spec_step_property(sources, p) == p,
{
}

} // verus!
