use scf_core::convert::ValueConverter;
use scf_core::property::DefaultPropertyConfigBuilder;
use scf_core::property::DefaultRawPropertyConfig;
use scf_core::source::DefaultConfigurationSource;
use scf_core::source::DefaultConfigurationSourceChangeEvent;
use scf_core::source::DefaultConfigurationSourceConfigBuilder;
use scf_core::value::any::ConfigValue;
use scf_core::value::any::TypeTag;

fn key_of(s: &str) -> ConfigValue {
    ConfigValue::Str(s.to_string())
}

fn plain_config(key: ConfigValue, value_type: TypeTag) -> DefaultRawPropertyConfig {
    DefaultPropertyConfigBuilder::new().set_key(key).set_value_type(value_type).build()
}

#[test]
fn source_config_test() {
    let config = DefaultConfigurationSourceConfigBuilder::new().set_name("test").build();
    println!("config: {:?}", config);
    assert_eq!("test", config.get_name().as_str());
    assert_eq!(&config, &config.clone());
}

#[test]
fn source_test() {
    let config = DefaultConfigurationSourceConfigBuilder::new().set_name("test").build();
    let mut source = DefaultConfigurationSource::new(config);
    source.set_property_value(key_of("10"), Some(ConfigValue::Int(10)));
    source.set_property_value(key_of("11"), Some(key_of("11")));
    source.set_property_value(key_of("xx"), Some(key_of("xx")));
    println!("config source: {:?}", source);
    assert_eq!("test", source.get_config().get_name().as_str());

    let property_config = plain_config(key_of("10"), TypeTag::Int);
    assert_eq!(Some(ConfigValue::Int(10)), source.get_property_value(&property_config));
    let property_config2 = plain_config(key_of("1"), TypeTag::Int);
    assert_eq!(None, source.get_property_value(&property_config2));
    let property_config3 = plain_config(ConfigValue::Int(1), TypeTag::Int);
    assert_eq!(None, source.get_property_value(&property_config3));
    let property_config4 = DefaultPropertyConfigBuilder::new()
        .set_key(key_of("11"))
        .set_value_type(TypeTag::Int)
        .add_value_converter(ValueConverter::StrToInt)
        .build();
    assert_eq!(Some(ConfigValue::Int(11)), source.get_property_value(&property_config4));
    let property_config5 = DefaultPropertyConfigBuilder::new()
        .set_key(key_of("xx"))
        .set_value_type(TypeTag::Int)
        .add_value_converter(ValueConverter::StrToInt)
        .build();
    assert_eq!(None, source.get_property_value(&property_config5));

    source.add_change_listener(31);
    let events = source.raise_change_event(777);
    assert_eq!(1, events.len());
    assert_eq!(31, events[0].0);
    assert_eq!(777, events[0].1.get_change_time());
}

#[test]
fn source_event_test() {
    let config = DefaultConfigurationSourceConfigBuilder::new().set_name("test").build();
    let mut source = DefaultConfigurationSource::new(config);
    source.set_property_value(key_of("10"), Some(ConfigValue::Int(10)));

    let event = DefaultConfigurationSourceChangeEvent::new(&source, 424242);
    println!("source event: {:?}", event);
    assert_eq!(&source, event.get_source());
    assert_eq!(424242, event.get_change_time());
}

#[test]
fn source_values_replace_and_remove() {
    let config = DefaultConfigurationSourceConfigBuilder::new().set_name("table").build();
    let mut source = DefaultConfigurationSource::new(config);
    let property_config = plain_config(key_of("k"), TypeTag::Str);

    assert_eq!(None, source.get_property_value(&property_config));
    source.set_property_value(key_of("k"), Some(key_of("a")));
    assert_eq!(Some(key_of("a")), source.get_property_value(&property_config));
    source.set_property_value(key_of("k"), Some(key_of("b")));
    assert_eq!(Some(key_of("b")), source.get_property_value(&property_config));
    source.set_property_value(key_of("k"), None);
    assert_eq!(None, source.get_property_value(&property_config));
    source.set_property_value(key_of("k"), None);
    assert_eq!(None, source.get_property_value(&property_config));
}

#[test]
fn source_type_match_skips_converters() {
    let config = DefaultConfigurationSourceConfigBuilder::new().set_name("typed").build();
    let mut source = DefaultConfigurationSource::new(config);
    source.set_property_value(key_of("n"), Some(ConfigValue::Int(7)));

    let int_config = DefaultPropertyConfigBuilder::new()
        .set_key(key_of("n"))
        .set_value_type(TypeTag::Int)
        .add_value_converter(ValueConverter::IntToStr)
        .build();
    assert_eq!(Some(ConfigValue::Int(7)), source.get_property_value(&int_config));

    let str_config = DefaultPropertyConfigBuilder::new()
        .set_key(key_of("n"))
        .set_value_type(TypeTag::Str)
        .add_value_converter(ValueConverter::IntToStr)
        .build();
    assert_eq!(Some(key_of("7")), source.get_property_value(&str_config));
}
