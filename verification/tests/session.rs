//! Session resource and rendering tests.

use erg_kernel::error::nat_to_string;
use erg_kernel::render::render_value;
use erg_kernel::resource::ErgConfig;
use erg_kernel::resource::SharedCompilerResource;
use erg_kernel::ty::mono;
use erg_kernel::ty::ty_eq;
use erg_kernel::value::TypeObj;
use erg_kernel::value::ValueObj;

#[test]
fn shared_resource_starts_empty_and_clears_to_empty() {
    let cfg = ErgConfig { py_compatible: false };
    let mut shared = SharedCompilerResource::new(cfg);
    assert_eq!(shared.mod_cache.entries.len(), 0);
    assert_eq!(shared.py_mod_cache.entries.len(), 0);
    shared.mod_cache.insert("lib/core".to_string(), 1);
    shared.py_mod_cache.insert("site-packages/os".to_string(), 2);
    assert_eq!(shared.mod_cache.get("lib/core"), Some(1));
    assert_eq!(shared.py_mod_cache.get("site-packages/os"), Some(2));
    assert_eq!(shared.mod_cache.get("missing"), None);
    shared.clear_all();
    assert_eq!(shared.mod_cache.entries.len(), 0);
    assert_eq!(shared.py_mod_cache.entries.len(), 0);
    assert_eq!(shared.mod_cache.get("lib/core"), None);
    // The configuration survives the reset.
    assert_eq!(shared.mod_cache.cfg, cfg);
}

#[test]
fn cache_insert_replaces_an_existing_path() {
    let cfg = ErgConfig { py_compatible: true };
    let mut shared = SharedCompilerResource::new(cfg.copy());
    shared.mod_cache.insert("m".to_string(), 1);
    shared.mod_cache.insert("m".to_string(), 2);
    assert_eq!(shared.mod_cache.get("m"), Some(2));
    assert_eq!(shared.mod_cache.entries.len(), 1);
}

#[test]
fn decimal_rendering_of_naturals() {
    assert_eq!(nat_to_string(0), "0");
    assert_eq!(nat_to_string(7), "7");
    assert_eq!(nat_to_string(12345), "12345");
    assert_eq!(nat_to_string(u64::MAX), "18446744073709551615");
}

#[test]
fn value_rendering_names_contents() {
    let arr = ValueObj::Array(vec![ValueObj::Nat(1), ValueObj::Nat(2), ValueObj::Nat(3)]);
    assert_eq!(render_value(&arr), "[1, 2, 3]");
    let s = ValueObj::Str("hi".to_string());
    assert_eq!(render_value(&s), "\"hi\"");
    let b = ValueObj::Bool(true);
    assert_eq!(render_value(&b), "True");
    let t = ValueObj::Type(TypeObj::Builtin(mono("Int")));
    assert_eq!(render_value(&t), "Int");
    let d = ValueObj::Dict(vec![(ValueObj::Nat(1), ValueObj::Str("one".to_string()))]);
    assert_eq!(render_value(&d), "{1: \"one\"}");
    let empty = ValueObj::Array(vec![]);
    assert_eq!(render_value(&empty), "[]");
}

#[test]
fn type_equality_is_by_contents() {
    assert!(ty_eq(&mono("Int"), &mono("Int")));
    assert!(!ty_eq(&mono("Int"), &mono("Nat")));
}
