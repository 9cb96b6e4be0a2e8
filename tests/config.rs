use lazy_link::{Argument, ArgumentError, CacheMode, MacroArgs};

fn string_arg(key: &str, value: &str) -> Argument {
    Argument { key: key.to_string(), value: Some(value.to_string()) }
}

fn other_arg(key: &str) -> Argument {
    Argument { key: key.to_string(), value: None }
}

#[test]
fn mode_names() {
    assert_eq!(CacheMode::from_name("static"), Ok(CacheMode::Static));
    assert_eq!(CacheMode::from_name("static-atomic"), Ok(CacheMode::StaticAtomic));
    assert_eq!(CacheMode::from_name("none"), Ok(CacheMode::Disabled));
    assert_eq!(CacheMode::from_name("Static"), Err(ArgumentError::UnknownCacheMode));
    assert_eq!(CacheMode::from_name(""), Err(ArgumentError::UnknownCacheMode));
    assert_eq!(CacheMode::from_name("static-atomics"), Err(ArgumentError::UnknownCacheMode));
}

#[test]
fn mode_cache_types() {
    assert_eq!(CacheMode::Static.cache_type(), "StaticCache");
    assert_eq!(CacheMode::StaticAtomic.cache_type(), "StaticAtomicCache");
    assert_eq!(CacheMode::Disabled.cache_type(), "NoCache");
}

#[test]
fn resolver_alone_gives_defaults() {
    let args = MacroArgs::parse(&vec![string_arg("resolver", "my_resolver")]).unwrap();
    assert_eq!(args.resolver, "my_resolver");
    assert_eq!(args.cache, CacheMode::Static);
    assert_eq!(args.module, None);
}

#[test]
fn all_keys_are_read() {
    let args = MacroArgs::parse(&vec![
        string_arg("module", "User32.dll"),
        string_arg("cache", "none"),
        string_arg("resolver", "win32_resolve"),
    ])
    .unwrap();
    assert_eq!(args.resolver, "win32_resolve");
    assert_eq!(args.cache, CacheMode::Disabled);
    assert_eq!(args.module.as_deref(), Some("User32.dll"));
}

#[test]
fn later_key_overrides_earlier() {
    let args = MacroArgs::parse(&vec![
        string_arg("resolver", "first"),
        string_arg("cache", "none"),
        string_arg("cache", "static-atomic"),
        string_arg("resolver", "second"),
    ])
    .unwrap();
    assert_eq!(args.resolver, "second");
    assert_eq!(args.cache, CacheMode::StaticAtomic);
}

#[test]
fn missing_resolver_is_rejected() {
    assert_eq!(MacroArgs::parse(&vec![]).unwrap_err(), ArgumentError::MissingResolver);
    assert_eq!(
        MacroArgs::parse(&vec![string_arg("cache", "static")]).unwrap_err(),
        ArgumentError::MissingResolver
    );
}

#[test]
fn unknown_key_is_rejected() {
    let r = MacroArgs::parse(&vec![string_arg("resolver", "r"), other_arg("obfuscate")]);
    assert_eq!(r.unwrap_err(), ArgumentError::UnknownAttribute);
}

#[test]
fn non_string_value_is_rejected() {
    let r = MacroArgs::parse(&vec![other_arg("resolver")]);
    assert_eq!(r.unwrap_err(), ArgumentError::NotAString);
}

#[test]
fn unknown_mode_is_rejected() {
    let r = MacroArgs::parse(&vec![string_arg("resolver", "r"), string_arg("cache", "lazy")]);
    assert_eq!(r.unwrap_err(), ArgumentError::UnknownCacheMode);
}

#[test]
fn first_error_wins() {
    let r = MacroArgs::parse(&vec![other_arg("cache"), string_arg("colour", "red")]);
    assert_eq!(r.unwrap_err(), ArgumentError::NotAString);
}

#[test]
fn error_messages() {
    assert_eq!(ArgumentError::NotAString.message(), "expected a string");
    assert_eq!(ArgumentError::UnknownAttribute.message(), "unknown attribute");
    assert_eq!(
        ArgumentError::UnknownCacheMode.message(),
        "expected one of the following values: static, static-atomic, none"
    );
    assert_eq!(
        ArgumentError::MissingResolver.message(),
        "missing resolver = \"...\" attribute"
    );
}
