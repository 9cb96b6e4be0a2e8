use std::cell::RefCell;

use lazy_link::{Address, Argument, Cache, CacheMode, MacroArgs, StaticCache};

fn fallback_impl() {}

fn my_resolver(
    requests: &RefCell<Vec<(&'static str, &'static str)>>,
    module: Option<&'static str>,
    name: &'static str,
) -> Address {
    requests.borrow_mut().push((module.unwrap_or(""), name));
    Address::new(fallback_impl as usize).unwrap()
}

#[test]
fn module_test_resolve_nocache() {
    let args = MacroArgs::parse(&vec![
        Argument { key: "resolver".to_string(), value: Some("my_resolver".to_string()) },
        Argument { key: "module".to_string(), value: Some("hello_module".to_string()) },
    ])
    .unwrap();
    assert_eq!(args.cache, CacheMode::Static);
    assert_eq!(args.module.as_deref(), Some("hello_module"));

    let requests: RefCell<Vec<(&'static str, &'static str)>> = RefCell::new(Vec::new());
    let mut method_01 = StaticCache::new();
    assert_eq!(requests.borrow().as_slice(), []);

    method_01.resolve(|| my_resolver(&requests, Some("hello_module"), "method_01"));
    assert_eq!(
        requests.borrow().as_slice(),
        [("hello_module", "method_01")]
    );
}
