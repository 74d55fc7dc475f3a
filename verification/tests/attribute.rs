use iron_llvm::attribute::{
    attribute_type_from_raw, Attribute, AttributeCtor, AttributeError, AttributeHandle,
    AttributeType,
};
use iron_llvm::context::Context;

#[test]
fn it_works() {
    let c1 = Context::new(1);
    let c = c1.id();
    assert_eq!(c, 1);
}

#[test]
fn no_inline_enum_attribute() {
    let ctx = Context::new(1);
    let attr = AttributeHandle::new_enum(&ctx, 11, AttributeType::LLVMNoInlineAttribute);
    assert!(attr.is_enum());
    assert!(!attr.is_string());
    assert_eq!(
        attr.get_enum_value(),
        Some(AttributeType::LLVMNoInlineAttribute)
    );
    assert_eq!(attr.get_enum_kind(), 11);
}

#[test]
fn cpu_target_string_attribute() {
    let ctx = Context::new(2);
    let attr = AttributeHandle::new_string(&ctx, "cpu-target", "x86-64").unwrap();
    assert!(attr.is_string());
    assert!(!attr.is_enum());
    assert_eq!(attr.get_string_attribute_kind(), "cpu-target");
}

#[test]
fn all_kinds_round_trip() {
    let kinds = vec![
        AttributeType::LLVMZExtAttribute,
        AttributeType::LLVMSExtAttribute,
        AttributeType::LLVMNoReturnAttribute,
        AttributeType::LLVMInRegAttribute,
        AttributeType::LLVMStructRetAttribute,
        AttributeType::LLVMNoUnwindAttribute,
        AttributeType::LLVMNoAliasAttribute,
        AttributeType::LLVMByValAttribute,
        AttributeType::LLVMNestAttribute,
        AttributeType::LLVMReadNoneAttribute,
        AttributeType::LLVMReadOnlyAttribute,
        AttributeType::LLVMNoInlineAttribute,
        AttributeType::LLVMAlwaysInlineAttribute,
        AttributeType::LLVMOptimizeForSizeAttribute,
        AttributeType::LLVMStackProtectAttribute,
        AttributeType::LLVMStackProtectReqAttribute,
        AttributeType::LLVMAlignment,
        AttributeType::LLVMNoCaptureAttribute,
        AttributeType::LLVMNoRedZoneAttribute,
        AttributeType::LLVMNoImplicitFloatAttribute,
        AttributeType::LLVMNakedAttribute,
        AttributeType::LLVMInlineHintAttribute,
        AttributeType::LLVMStackAlignment,
        AttributeType::LLVMReturnsTwice,
        AttributeType::LLVMUWTable,
        AttributeType::LLVMNonLazyBind,
    ];
    let ctx = Context::new(3);
    let mut id: u32 = 1;
    for k in kinds {
        let attr = AttributeHandle::new_enum(&ctx, id, k);
        assert!(attr.is_enum());
        assert!(!attr.is_string());
        assert_eq!(attr.get_enum_value(), Some(k));
        assert_eq!(attr.get_enum_kind(), id);
        id += 1;
    }
}

#[test]
fn embedded_nul_rejected() {
    let ctx = Context::new(4);
    let r = AttributeHandle::new_string(&ctx, "cpu\0target", "x86-64");
    assert_eq!(r, Err(AttributeError::InvalidString));
    let r2 = AttributeHandle::new_string(&ctx, "cpu-target", "x86\0-64");
    assert_eq!(r2, Err(AttributeError::InvalidString));
    let r3 = AttributeHandle::new_string(&ctx, "\0", "\0");
    assert_eq!(r3, Err(AttributeError::InvalidString));
}

#[test]
fn zero_kind_value_absent() {
    let ctx = Context::new(5);
    let attr = AttributeHandle::new_enum(&ctx, 0, AttributeType::LLVMNoInlineAttribute);
    assert!(attr.is_enum());
    assert_eq!(attr.get_enum_value(), None);
    assert_eq!(attr.get_enum_kind(), 0);
}

#[test]
fn kind_lookup_exact_values() {
    assert_eq!(attribute_type_from_raw(0), None);
    assert_eq!(
        attribute_type_from_raw(0x1),
        Some(AttributeType::LLVMZExtAttribute)
    );
    assert_eq!(
        attribute_type_from_raw(0x800),
        Some(AttributeType::LLVMNoInlineAttribute)
    );
    assert_eq!(
        attribute_type_from_raw(0x1F0000),
        Some(AttributeType::LLVMAlignment)
    );
    assert_eq!(
        attribute_type_from_raw(0x1C000000),
        Some(AttributeType::LLVMStackAlignment)
    );
    assert_eq!(
        attribute_type_from_raw(0x80000000),
        Some(AttributeType::LLVMNonLazyBind)
    );
    // combined bit patterns do not name a single kind
    assert_eq!(attribute_type_from_raw(0x3), None);
    // an alignment magnitude inside the multi-bit field is not the kind
    assert_eq!(attribute_type_from_raw(0x10000), None);
    assert_eq!(attribute_type_from_raw(u64::MAX), None);
}

#[test]
fn raw_values_match_bit_layout() {
    assert_eq!(AttributeType::LLVMZExtAttribute.raw_value(), 1u64);
    assert_eq!(AttributeType::LLVMNoInlineAttribute.raw_value(), 1u64 << 11);
    assert_eq!(AttributeType::LLVMAlignment.raw_value(), 31u64 << 16);
    assert_eq!(AttributeType::LLVMStackAlignment.raw_value(), 7u64 << 26);
    assert_eq!(AttributeType::LLVMNonLazyBind.raw_value(), 1u64 << 31);
}

#[test]
fn forms_are_mutually_exclusive() {
    let ctx = Context::new(6);
    let e = AttributeHandle::new_enum(&ctx, 1, AttributeType::LLVMZExtAttribute);
    let s = AttributeHandle::new_string(&ctx, "k", "v").unwrap();
    assert!(e.is_enum() != e.is_string());
    assert!(s.is_enum() != s.is_string());
}

#[test]
fn empty_strings_allowed() {
    let ctx = Context::new(7);
    let attr = AttributeHandle::new_string(&ctx, "", "").unwrap();
    assert!(attr.is_string());
    assert_eq!(attr.get_string_attribute_kind(), "");
}

#[test]
fn attribute_records_its_context() {
    let ctx = Context::new(8);
    let e = AttributeHandle::new_enum(&ctx, 2, AttributeType::LLVMSExtAttribute);
    match &e {
        AttributeHandle::EnumForm { ctx_id, .. } => assert_eq!(*ctx_id, 8),
        AttributeHandle::StringForm { .. } => panic!("enum constructor made a string form"),
    }
    let s = AttributeHandle::new_string(&ctx, "k", "v").unwrap();
    match &s {
        AttributeHandle::StringForm { ctx_id, key, value } => {
            assert_eq!(*ctx_id, 8);
            assert_eq!(key, "k");
            assert_eq!(value, "v");
        }
        AttributeHandle::EnumForm { .. } => panic!("string constructor made an enum form"),
    }
}
