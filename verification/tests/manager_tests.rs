use scf_core::convert::ValueConverter;
use scf_core::filter::ValueFilter;
use scf_core::manager::ConfigurationError;
use scf_core::manager::DefaultConfigurationManager;
use scf_core::manager::DefaultConfigurationManagerConfigBuilder;
use scf_core::property::DefaultPropertyConfigBuilder;
use scf_core::property::DefaultRawPropertyConfig;
use scf_core::source::DefaultConfigurationSource;
use scf_core::source::DefaultConfigurationSourceConfigBuilder;
use scf_core::value::any::ConfigValue;
use scf_core::value::any::TypeTag;

fn name_of(s: &str) -> ConfigValue {
    ConfigValue::Str(s.to_string())
}

fn empty_source(name: &str) -> DefaultConfigurationSource {
    let config = DefaultConfigurationSourceConfigBuilder::new().set_name(name).build();
    DefaultConfigurationSource::new(config)
}

fn new_source() -> DefaultConfigurationSource {
    let mut source = empty_source("test");
    source.set_property_value(name_of("key_ok"), Some(name_of("10")));
    source.set_property_value(name_of("key_error"), Some(name_of("error")));
    source
}

fn new_property_config() -> DefaultRawPropertyConfig {
    DefaultPropertyConfigBuilder::new()
        .set_key(name_of("key_ok"))
        .set_value_type(TypeTag::Int)
        .add_value_converter(ValueConverter::StrToInt)
        .set_value_filter(ValueFilter::Rewrite {
            from: ConfigValue::Int(10),
            to: ConfigValue::Int(5),
        })
        .set_doc("for test")
        .build()
}

fn new_property_config2() -> DefaultRawPropertyConfig {
    DefaultPropertyConfigBuilder::new()
        .set_key(name_of("key_error"))
        .set_value_type(TypeTag::Int)
        .add_value_converter(ValueConverter::StrToInt)
        .build()
}

fn new_property_config3(key: &str) -> DefaultRawPropertyConfig {
    DefaultPropertyConfigBuilder::new()
        .set_key(name_of(key))
        .set_value_type(TypeTag::Int)
        .add_value_converter(ValueConverter::StrToInt)
        .set_required(true)
        .build()
}

fn new_property_config4(key: &str) -> DefaultRawPropertyConfig {
    DefaultPropertyConfigBuilder::new()
        .set_key(name_of(key))
        .set_value_type(TypeTag::Int)
        .add_value_converter(ValueConverter::StrToInt)
        .set_static(true)
        .build()
}

#[test]
fn manager_config_test() {
    let source = new_source();
    let config = DefaultConfigurationManagerConfigBuilder::new()
        .set_name("test")
        .add_source(1, source)
        .build();
    println!("manager config: {:?}", config.get_name());
    assert_eq!("test", config.get_name().as_str());
    assert_eq!(1, config.get_sources().len());
}

#[test]
fn manager_test() {
    let source = new_source();
    let config = DefaultConfigurationManagerConfigBuilder::new()
        .set_name("test")
        .add_source(1, source)
        .build();
    let mut manager = DefaultConfigurationManager::new(config);
    assert_eq!("test", manager.get_config().get_name().as_str());

    let config = new_property_config();
    let property = manager.get_property(&config);
    assert_eq!(Some(ConfigValue::Int(5)), manager.property_at(property).get_raw_value());
    assert_eq!(Some(0), manager.property_at(property).get_source());
    let config2 = new_property_config2();
    let property2 = manager.get_property(&config2);
    assert_eq!(None, manager.property_at(property2).get_raw_value());
    assert_eq!(None, manager.property_at(property2).get_source());

    let value = manager.get_property_value(&config);
    assert_eq!(Some(ConfigValue::Int(5)), value);
    let value2 = manager.get_property_value(&config2);
    assert_eq!(None, value2);
}

#[test]
fn dynamic_test() {
    let mut source0 = empty_source("test");
    source0.set_property_value(name_of("key_ok"), Some(ConfigValue::Int(20)));
    let source = new_source();
    let config = DefaultConfigurationManagerConfigBuilder::new()
        .set_name("test")
        .add_source(0, source0)
        .add_source(1, source)
        .build();
    let mut manager = DefaultConfigurationManager::new(config);

    let config = new_property_config();
    let property = manager.get_property(&config);
    assert_eq!(Some(ConfigValue::Int(5)), manager.property_at(property).get_raw_value());
    assert_eq!(Some(0), manager.property_at(property).get_source());
    let config2 = new_property_config2();
    let property2 = manager.get_property(&config2);
    assert_eq!(None, manager.property_at(property2).get_raw_value());
    assert_eq!(None, manager.property_at(property2).get_source());

    let value = manager.get_property_value(&config);
    assert_eq!(Some(ConfigValue::Int(5)), value);
    let value2 = manager.get_property_value(&config2);
    assert_eq!(None, value2);

    manager.update_source_value(0, name_of("key_ok"), Some(name_of("11")), 1001);
    assert_eq!(Some(ConfigValue::Int(11)), manager.property_at(property).get_raw_value());
    let value2 = manager.get_property_value(&config2);
    assert_eq!(None, value2);

    let value = manager.get_property_value(&config);
    assert_eq!(Some(ConfigValue::Int(11)), value);

    manager.add_property_change_listener(property, 7);
    let notices = manager.update_source_value(0, name_of("key_ok"), Some(name_of("12")), 1002);
    assert_eq!(Some(ConfigValue::Int(12)), manager.property_at(property).get_raw_value());
    assert_eq!(Some(0), manager.property_at(property).get_source());
    let value = manager.get_property_value(&config);
    assert_eq!(Some(ConfigValue::Int(12)), value);
    assert_eq!(1, notices.len());
    assert_eq!(7, notices[0].0);
    assert_eq!(Some(ConfigValue::Int(11)), notices[0].1.get_raw_old_value());
    assert_eq!(Some(ConfigValue::Int(12)), notices[0].1.get_raw_new_value());
    assert_eq!(1002, notices[0].1.get_change_time());

    let notices = manager.update_source_value(0, name_of("key_ok"), None, 1003);
    assert_eq!(Some(ConfigValue::Int(20)), manager.property_at(property).get_raw_value());
    assert_eq!(Some(1), manager.property_at(property).get_source());
    assert_eq!(1, notices.len());

    manager.update_source_value(0, name_of("key_error"), Some(name_of("1")), 1004);
    assert_eq!(Some(ConfigValue::Int(1)), manager.property_at(property2).get_raw_value());
}

#[test]
fn change_event_idempotent_update() {
    let source = new_source();
    let config = DefaultConfigurationManagerConfigBuilder::new()
        .set_name("test")
        .add_source(1, source)
        .build();
    let mut manager = DefaultConfigurationManager::new(config);
    let config = new_property_config();
    let property = manager.get_property(&config);
    manager.add_property_change_listener(property, 7);
    manager.add_raw_change_listener(8);

    let notices = manager.update_source_value(0, name_of("key_ok"), Some(name_of("10")), 2001);
    assert_eq!(0, notices.len());
    assert_eq!(Some(ConfigValue::Int(5)), manager.property_at(property).get_raw_value());

    let notices = manager.update_source_value(0, name_of("key_ok"), Some(name_of("42")), 2002);
    assert_eq!(2, notices.len());
    assert_eq!(7, notices[0].0);
    assert_eq!(8, notices[1].0);
    assert_eq!(Some(ConfigValue::Int(5)), notices[0].1.get_raw_old_value());
    assert_eq!(Some(ConfigValue::Int(42)), notices[0].1.get_raw_new_value());
    assert_eq!(notices[0].1, notices[1].1);
}

#[test]
fn required_property() {
    let source = new_source();
    let config = DefaultConfigurationManagerConfigBuilder::new()
        .set_name("test")
        .add_source(1, source)
        .build();
    let mut manager = DefaultConfigurationManager::new(config);

    let config = new_property_config3("key_ok");
    assert!(manager.try_get_property(&config).is_ok());
    assert_eq!(Ok(Some(ConfigValue::Int(10))), manager.try_get_property_value(&config));
}

#[test]
fn required_property_missing() {
    let source = new_source();
    let config = DefaultConfigurationManagerConfigBuilder::new()
        .set_name("test")
        .add_source(1, source)
        .build();
    let mut manager = DefaultConfigurationManager::new(config);

    let config = new_property_config3("key_none");
    assert_eq!(
        Err(ConfigurationError::RequiredPropertyMissing),
        manager.try_get_property(&config)
    );
    assert_eq!(
        Err(ConfigurationError::RequiredPropertyMissing),
        manager.try_get_property_value(&config)
    );
    assert_eq!(0, manager.property_count());
}

#[test]
fn required_property_dynamic() {
    let mut source = empty_source("test");
    source.set_property_value(name_of("key_ok"), Some(name_of("20")));
    source.set_property_value(name_of("key_required"), Some(name_of("30")));
    let config = DefaultConfigurationManagerConfigBuilder::new()
        .set_name("test")
        .add_source(1, source)
        .build();
    let mut manager = DefaultConfigurationManager::new(config);

    let config = new_property_config();
    let property = manager.get_property(&config);
    assert_eq!(Some(ConfigValue::Int(20)), manager.property_at(property).get_raw_value());

    manager.update_source_value(0, name_of("key_ok"), None, 3001);
    assert_eq!(None, manager.property_at(property).get_raw_value());

    let config = new_property_config3("key_required");
    let property = manager.get_property(&config);
    assert_eq!(Some(ConfigValue::Int(30)), manager.property_at(property).get_raw_value());

    let notices = manager.update_source_value(0, name_of("key_required"), None, 3002);
    assert_eq!(Some(ConfigValue::Int(30)), manager.property_at(property).get_raw_value());
    assert_eq!(0, notices.len());
}

#[test]
fn static_property() {
    let mut source = empty_source("test");
    source.set_property_value(name_of("key_ok"), Some(name_of("20")));
    let config = DefaultConfigurationManagerConfigBuilder::new()
        .set_name("test")
        .add_source(1, source)
        .build();
    let mut manager = DefaultConfigurationManager::new(config);

    let config = new_property_config4("key_ok");
    let property = manager.get_property(&config);
    assert_eq!(Some(ConfigValue::Int(20)), manager.property_at(property).get_raw_value());

    manager.update_source_value(0, name_of("key_ok"), Some(name_of("30")), 4001);
    assert_eq!(Some(ConfigValue::Int(20)), manager.property_at(property).get_raw_value());
    assert_eq!(Some(ConfigValue::Int(30)), manager.get_property_value(&config));

    manager.update_source_value(0, name_of("key_ok"), None, 4002);
    assert_eq!(Some(ConfigValue::Int(20)), manager.property_at(property).get_raw_value());
    assert_eq!(None, manager.get_property_value(&config));
}

#[test]
fn duplicate_priority_rejected() {
    let source1 = new_source();
    let source2 = empty_source("test2");
    let builder = DefaultConfigurationManagerConfigBuilder::new()
        .set_name("test")
        .add_source(1, source1)
        .add_source(1, source2);
    assert!(builder.try_build().is_none());
}

#[test]
fn manager_builder_requires_name() {
    let builder = DefaultConfigurationManagerConfigBuilder::new().add_source(1, new_source());
    assert!(builder.try_build().is_none());
}

#[test]
fn priority_precedence_any_registration_order() {
    let key = name_of("k");
    let mut high = empty_source("high");
    high.set_property_value(key.clone(), Some(name_of("a")));
    let mut low = empty_source("low");
    low.set_property_value(key.clone(), Some(name_of("b")));

    let cfg = DefaultPropertyConfigBuilder::new()
        .set_key(key.clone())
        .set_value_type(TypeTag::Str)
        .build();

    let config = DefaultConfigurationManagerConfigBuilder::new()
        .set_name("m1")
        .add_source(2, high.clone_source())
        .add_source(1, low.clone_source())
        .build();
    let manager = DefaultConfigurationManager::new(config);
    assert_eq!(Some(name_of("a")), manager.get_property_value(&cfg));

    let config = DefaultConfigurationManagerConfigBuilder::new()
        .set_name("m2")
        .add_source(1, low)
        .add_source(2, high)
        .build();
    let manager = DefaultConfigurationManager::new(config);
    assert_eq!(Some(name_of("a")), manager.get_property_value(&cfg));
}

#[test]
fn filter_rejection_falls_through_to_next_source() {
    let key = name_of("k");
    let mut first = empty_source("first");
    first.set_property_value(key.clone(), Some(name_of("x")));
    let mut second = empty_source("second");
    second.set_property_value(key.clone(), Some(name_of("y")));

    let cfg = DefaultPropertyConfigBuilder::new()
        .set_key(key.clone())
        .set_value_type(TypeTag::Str)
        .set_value_filter(ValueFilter::RewriteOnly { from: name_of("y"), to: name_of("y") })
        .build();

    let config = DefaultConfigurationManagerConfigBuilder::new()
        .set_name("m")
        .add_source(2, first)
        .add_source(1, second)
        .build();
    let mut manager = DefaultConfigurationManager::new(config);
    assert_eq!(Some(name_of("y")), manager.get_property_value(&cfg));
    let property = manager.get_property(&cfg);
    assert_eq!(Some(1), manager.property_at(property).get_source());
}

#[test]
fn same_key_different_config_rejected() {
    let source = new_source();
    let config = DefaultConfigurationManagerConfigBuilder::new()
        .set_name("test")
        .add_source(1, source)
        .build();
    let mut manager = DefaultConfigurationManager::new(config);

    let cfg = DefaultPropertyConfigBuilder::new()
        .set_key(name_of("not-exist"))
        .set_value_type(TypeTag::Str)
        .build();
    let property = manager.get_property(&cfg);
    assert_eq!(None, manager.property_at(property).get_raw_value());

    let cfg2 = DefaultPropertyConfigBuilder::new()
        .set_key(name_of("not-exist"))
        .set_value_type(TypeTag::Str)
        .set_default_value(name_of("default"))
        .build();
    assert_eq!(Err(ConfigurationError::ConfigMismatch), manager.try_get_property(&cfg2));
    assert_eq!(1, manager.property_count());
}
