//! Tests for the constant pool and the method registry.

use minijvm::const_pool::{ConstPool, CpInfo};
use minijvm::error::{CpError, LookupError, VmError};
use minijvm::method_area::{Method, MethodArea};

/// The constant pool of the `Adder` sample class.
fn sample_const_pool() -> ConstPool {
    let items = vec![
        CpInfo::Placeholder,
        CpInfo::MethodRef { class_index: 4, name_and_type_index: 14 },
        CpInfo::MethodRef { class_index: 3, name_and_type_index: 15 },
        CpInfo::ClassRef { name_index: 16 },
        CpInfo::ClassRef { name_index: 17 },
        CpInfo::Utf8("<init>".to_string()),
        CpInfo::Utf8("()V".to_string()),
        CpInfo::Utf8("Code".to_string()),
        CpInfo::Utf8("LineNumberTable".to_string()),
        CpInfo::Utf8("add".to_string()),
        CpInfo::Utf8("(II)I".to_string()),
        CpInfo::Utf8("main".to_string()),
        CpInfo::Utf8("SourceFile".to_string()),
        CpInfo::Utf8("Adder.java".to_string()),
        CpInfo::NameAndType { name_index: 5, descriptor_index: 6 },
        CpInfo::NameAndType { name_index: 9, descriptor_index: 10 },
        CpInfo::Utf8("Adder".to_string()),
        CpInfo::Utf8("java/lang/Object".to_string()),
    ];
    ConstPool::from_vec(items)
}

#[test]
fn can_put_and_resolve_from_method_table() {
    let mut table = MethodArea::new();
    table.put("foo", Method::new(2, 0, vec![], ""));
    assert!(table.resolve_method("foo").is_ok());
}

#[test]
fn resolve_utf8_directly() {
    let pool = sample_const_pool();
    assert_eq!(pool.resolve(16).unwrap(), "Adder");
}

#[test]
fn resolve_class_ref_recurses_into_name() {
    let pool = sample_const_pool();
    assert_eq!(pool.resolve(3).unwrap(), "Adder");
    assert_eq!(pool.resolve(4).unwrap(), "java/lang/Object");
}

#[test]
fn resolve_name_and_type_joins_with_colon() {
    let pool = sample_const_pool();
    assert_eq!(pool.resolve(15).unwrap(), "add:(II)I");
}

#[test]
fn resolve_method_ref_yields_canonical_signature() {
    let pool = sample_const_pool();
    assert_eq!(pool.resolve(2).unwrap(), "Adder.add:(II)I");
    assert_eq!(pool.resolve(1).unwrap(), "java/lang/Object.<init>:()V");
}

#[test]
fn resolve_twice_yields_identical_text() {
    let pool = sample_const_pool();
    let first = pool.resolve(2).unwrap();
    let second = pool.resolve(2).unwrap();
    assert_eq!(first, second);
}

#[test]
fn resolve_placeholder_is_unresolvable() {
    let pool = sample_const_pool();
    assert!(matches!(
        pool.resolve(0),
        Err(CpError::UnresolvableConstant { index: 0 })
    ));
}

#[test]
fn resolve_numeric_literal_is_unresolvable() {
    let pool = ConstPool::from_vec(vec![CpInfo::Placeholder, CpInfo::Integer(7)]);
    assert!(matches!(
        pool.resolve(1),
        Err(CpError::UnresolvableConstant { index: 1 })
    ));
}

#[test]
fn resolve_out_of_range_index_fails() {
    let pool = sample_const_pool();
    assert!(matches!(
        pool.resolve(99),
        Err(CpError::IndexOutOfRange { index: 99 })
    ));
}

#[test]
fn cyclic_references_are_unresolvable() {
    let pool = ConstPool::from_vec(vec![
        CpInfo::Placeholder,
        CpInfo::ClassRef { name_index: 2 },
        CpInfo::ClassRef { name_index: 1 },
    ]);
    assert!(matches!(pool.resolve(1), Err(CpError::UnresolvableConstant { .. })));
}

#[test]
fn missing_method_fault_names_the_signature() {
    let area = MethodArea::new();
    match area.resolve_method("Adder.add:(II)I") {
        Err(VmError::RegistryLookup(LookupError::MethodNotFound { signature })) => {
            assert_eq!(signature, "Adder.add:(II)I");
        }
        _ => panic!("expected MethodNotFound"),
    }
}

#[test]
fn missing_class_fault_names_the_class() {
    let area = MethodArea::new();
    match area.resolve_class("Adder") {
        Err(VmError::RegistryLookup(LookupError::ClassNotFound { name })) => {
            assert_eq!(name, "Adder");
        }
        _ => panic!("expected ClassNotFound"),
    }
}

#[test]
fn put_replaces_earlier_registration() {
    let mut area = MethodArea::new();
    area.put("foo", Method::new(2, 0, vec![], "A"));
    area.put("foo", Method::new(5, 1, vec![], "B"));
    let m = area.resolve_method("foo").unwrap();
    assert_eq!(m.stack_size, 5);
    assert_eq!(m.local_size, 1);
    assert_eq!(m.class, "B");
}
