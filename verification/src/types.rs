//! The abstract data model the engine maps from and to.
//!
//! `Type` describes an interface-level type of the language-neutral
//! interface description; `FfiType` describes the closed set of ABI-level
//! kinds that cross the native boundary; `Literal` is a compile-time
//! constant to be rendered in target surface syntax. The interface
//! description is built once, externally, and is read-only for a run.

use vstd::prelude::*;

verus! {

/// An interface-level type.
pub enum Type {
    UInt8,
    Int8,
    UInt16,
    Int16,
    UInt32,
    Int32,
    UInt64,
    Int64,
    Float32,
    Float64,
    Boolean,
    Text,
    Bytes,
    Timestamp,
    Duration,
    Enum { name: String },
    Record { name: String },
    Object { name: String, has_callback_interface: bool },
    CallbackInterface { name: String },
    Optional { inner: Box<Type> },
    Sequence { inner: Box<Type> },
    Dictionary { key: Box<Type>, value: Box<Type> },
    External { name: String, namespace: String },
    Custom { name: String, builtin: Box<Type> },
}

/// An ABI-level kind used at the native boundary.
#[derive(Debug)]
pub enum FfiType {
    UInt8,
    Int8,
    UInt16,
    Int16,
    UInt32,
    Int32,
    UInt64,
    Int64,
    Float32,
    Float64,
    Handle,
    RustArcPtr,
    RustBuffer,
    RustCallStatus,
    ForeignBytes,
    Callback { name: String },
    Struct { name: String },
    Reference { inner: Box<FfiType> },
    VoidPointer,
}

/// A compile-time constant of an interface-level type.
pub enum Literal {
    Boolean(bool),
    Text(String),
    UInt(u64),
    Int(i64),
    Float(String),
    Enumerator(String),
    EmptySequence,
    EmptyMap,
    Null,
}

/// One declared variant of an enum, with its discriminant constant.
pub struct Variant {
    pub name: String,
    pub discr: Literal,
}

/// A declared enum of the interface description.
pub struct EnumDef {
    pub name: String,
    pub variants: Vec<Variant>,
}

/// A declared object type of the interface description.
pub struct ObjectDef {
    pub name: String,
    pub has_callback_interface: bool,
}

/// A resolved value that cannot be expressed in target surface syntax,
/// or an ABI kind with no mapping for the requested position. Generation
/// aborts on any of these; nothing is silently substituted.
#[derive(Debug)]
pub enum RenderError {
    /// The discriminant constant of an enum variant is not an integer.
    NonIntegerDiscriminant,
    /// The ABI kind is not legal as a return slot, so it has no
    /// default/sentinel value.
    IllegalReturnType { ffi_type: FfiType },
}

} // verus!
