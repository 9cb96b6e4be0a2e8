use std::cell::Cell;

use lazy_link::{Address, Cache, StaticCache};

fn fallback_impl_01(called: &Cell<bool>, arg: u8) {
    called.set(true);
    assert_eq!(arg, 0x67);
}

fn fallback_impl_02(called: &Cell<bool>, arg1: u8, arg2: u8) {
    called.set(true);
    assert_eq!(arg1, 0x77);
    assert_eq!(arg2, 0x34);
}

fn my_resolver(_module: Option<&str>, name: &str) -> Address {
    Address::new(match name {
        "method_01" => fallback_impl_01 as usize,
        "method_02" => fallback_impl_02 as usize,
        _ => unreachable!(),
    })
    .unwrap()
}

#[test]
fn arguments_test_resolve_nocache() {
    let impl_01_called = Cell::new(false);
    let impl_02_called = Cell::new(false);
    let mut method_01 = StaticCache::new();
    let mut method_02 = StaticCache::new();

    let target_01 = method_01.resolve(|| my_resolver(None, "method_01"));
    assert_eq!(target_01.get(), fallback_impl_01 as usize);
    fallback_impl_01(&impl_01_called, 0x67);

    let target_02 = method_02.resolve(|| my_resolver(None, "method_02"));
    assert_eq!(target_02.get(), fallback_impl_02 as usize);
    fallback_impl_02(&impl_02_called, 0x77, 0x34);

    assert!(impl_01_called.get());
    assert!(impl_02_called.get());
}
