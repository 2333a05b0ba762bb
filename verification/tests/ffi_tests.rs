//! ABI mapper: the two spellings, return-slot sentinels, object naming.

use php_bindgen::filters::{ffi_default_value, ffi_type_name, header_ffi_type_name, object_names};
use php_bindgen::types::{FfiType, ObjectDef, RenderError};

#[test]
fn wrapper_spellings() {
    assert_eq!(ffi_type_name(&FfiType::Int8), "Int8");
    assert_eq!(ffi_type_name(&FfiType::UInt64), "UInt64");
    assert_eq!(ffi_type_name(&FfiType::Float32), "Float");
    assert_eq!(ffi_type_name(&FfiType::Float64), "Double");
    assert_eq!(ffi_type_name(&FfiType::Handle), "UInt64");
    assert_eq!(ffi_type_name(&FfiType::RustArcPtr), "UnsafeMutableRawPointer");
    assert_eq!(ffi_type_name(&FfiType::RustBuffer), "RustBuffer");
    assert_eq!(ffi_type_name(&FfiType::RustCallStatus), "RustCallStatus");
    assert_eq!(ffi_type_name(&FfiType::ForeignBytes), "ForeignBytes");
    assert_eq!(ffi_type_name(&FfiType::VoidPointer), "UnsafeMutableRawPointer");
    assert_eq!(
        ffi_type_name(&FfiType::Callback { name: "cb_iface".to_string() }),
        "@escaping UniffiCbIface"
    );
    assert_eq!(
        ffi_type_name(&FfiType::Struct { name: "foreign_future".to_string() }),
        "UniffiForeignFuture"
    );
    assert_eq!(
        ffi_type_name(&FfiType::Reference { inner: Box::new(FfiType::Int32) }),
        "UnsafeMutablePointer<Int32>"
    );
}

#[test]
fn header_spellings() {
    assert_eq!(header_ffi_type_name(&FfiType::Int8), "int8_t");
    assert_eq!(header_ffi_type_name(&FfiType::UInt64), "uint64_t");
    assert_eq!(header_ffi_type_name(&FfiType::Float32), "float");
    assert_eq!(header_ffi_type_name(&FfiType::Float64), "double");
    assert_eq!(header_ffi_type_name(&FfiType::Handle), "uint64_t");
    assert_eq!(header_ffi_type_name(&FfiType::RustArcPtr), "void*_Nonnull");
    assert_eq!(header_ffi_type_name(&FfiType::RustBuffer), "RustBuffer");
    assert_eq!(header_ffi_type_name(&FfiType::VoidPointer), "void* _Nonnull");
    assert_eq!(
        header_ffi_type_name(&FfiType::Callback { name: "cb_iface".to_string() }),
        "UniffiCbIface _Nonnull"
    );
    assert_eq!(
        header_ffi_type_name(&FfiType::Reference { inner: Box::new(FfiType::Float64) }),
        "double* _Nonnull"
    );
}

#[test]
fn return_slot_sentinels_match_both_spellings() {
    // Fixed-width integers: both sides spell the same width; zero clears.
    assert_eq!(ffi_default_value(Some(&FfiType::UInt32)).unwrap(), "0");
    assert_eq!(ffi_type_name(&FfiType::UInt32), "UInt32");
    assert_eq!(header_ffi_type_name(&FfiType::UInt32), "uint32_t");
    // IEEE floats.
    assert_eq!(ffi_default_value(Some(&FfiType::Float64)).unwrap(), "0.0");
    assert_eq!(header_ffi_type_name(&FfiType::Float64), "double");
    // Object handles: a null pointer sentinel.
    assert_eq!(ffi_default_value(Some(&FfiType::RustArcPtr)).unwrap(), "nil");
    // Owned buffers: an empty-but-valid descriptor.
    assert_eq!(
        ffi_default_value(Some(&FfiType::RustBuffer)).unwrap(),
        "RustBuffer.empty()"
    );
    // A void return slot is cleared with zero.
    assert_eq!(ffi_default_value(None).unwrap(), "0");
}

#[test]
fn illegal_return_types_fail_generation() {
    assert!(matches!(
        ffi_default_value(Some(&FfiType::RustCallStatus)),
        Err(RenderError::IllegalReturnType { ffi_type: FfiType::RustCallStatus })
    ));
    assert!(matches!(
        ffi_default_value(Some(&FfiType::Handle)),
        Err(RenderError::IllegalReturnType { ffi_type: FfiType::Handle })
    ));
    assert!(matches!(
        ffi_default_value(Some(&FfiType::ForeignBytes)),
        Err(RenderError::IllegalReturnType { .. })
    ));
    assert!(matches!(
        ffi_default_value(Some(&FfiType::VoidPointer)),
        Err(RenderError::IllegalReturnType { .. })
    ));
}

#[test]
fn object_names_bifurcate_on_callback_support() {
    let plain = ObjectDef {
        name: "session".to_string(),
        has_callback_interface: false,
    };
    let (outer, inner) = object_names(&plain);
    assert_eq!(outer, "SessionProtocol");
    assert_eq!(inner, "Session");
    assert_ne!(outer, inner);

    let callback_capable = ObjectDef {
        name: "session".to_string(),
        has_callback_interface: true,
    };
    let (outer2, inner2) = object_names(&callback_capable);
    assert_eq!(outer2, "Session");
    assert_eq!(inner2, "SessionImpl");
    assert_ne!(outer2, inner2);
}
