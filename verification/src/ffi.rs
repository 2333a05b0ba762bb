//! The FFI ABI mapper and object naming.
//!
//! Each ABI-level kind has two textual spellings — one used inside
//! generated wrapper code and one used in declarations consumed by the
//! compiled native side — that must describe identical binary layout.
//! For every kind legal as a return slot there is also a default/sentinel
//! literal written to the return slot on the error path; a kind with no
//! such sentinel fails generation rather than silently substituting one.

use vstd::prelude::*;

use crate::naming::upper_camel_of;
use crate::oracle::PHPCodeOracle;
use crate::types::{FfiType, ObjectDef, RenderError};

verus! {

/// The spelling of an ABI kind inside generated wrapper code.
pub open spec fn ffi_label_of(t: FfiType) -> Seq<char>
    decreases t,
{
    match t {
        FfiType::Int8 => "Int8"@,
        FfiType::UInt8 => "UInt8"@,
        FfiType::Int16 => "Int16"@,
        FfiType::UInt16 => "UInt16"@,
        FfiType::Int32 => "Int32"@,
        FfiType::UInt32 => "UInt32"@,
        FfiType::Int64 => "Int64"@,
        FfiType::UInt64 => "UInt64"@,
        FfiType::Float32 => "Float"@,
        FfiType::Float64 => "Double"@,
        FfiType::Handle => "UInt64"@,
        FfiType::RustArcPtr => "UnsafeMutableRawPointer"@,
        FfiType::RustBuffer => "RustBuffer"@,
        FfiType::RustCallStatus => "RustCallStatus"@,
        FfiType::ForeignBytes => "ForeignBytes"@,
        FfiType::Callback { name } => "@escaping "@ + "Uniffi"@ + upper_camel_of(name@),
        FfiType::Struct { name } => "Uniffi"@ + upper_camel_of(name@),
        FfiType::Reference { inner } => "UnsafeMutablePointer<"@ + ffi_label_of(*inner) + ">"@,
        FfiType::VoidPointer => "UnsafeMutableRawPointer"@,
    }
}

/// The spelling of an ABI kind in a native-side declaration.
pub open spec fn header_label_of(t: FfiType) -> Seq<char>
    decreases t,
{
    match t {
        FfiType::Int8 => "int8_t"@,
        FfiType::UInt8 => "uint8_t"@,
        FfiType::Int16 => "int16_t"@,
        FfiType::UInt16 => "uint16_t"@,
        FfiType::Int32 => "int32_t"@,
        FfiType::UInt32 => "uint32_t"@,
        FfiType::Int64 => "int64_t"@,
        FfiType::UInt64 => "uint64_t"@,
        FfiType::Float32 => "float"@,
        FfiType::Float64 => "double"@,
        FfiType::Handle => "uint64_t"@,
        FfiType::RustArcPtr => "void*_Nonnull"@,
        FfiType::RustBuffer => "RustBuffer"@,
        FfiType::RustCallStatus => "RustCallStatus"@,
        FfiType::ForeignBytes => "ForeignBytes"@,
        FfiType::Callback { name } => "Uniffi"@ + upper_camel_of(name@) + " _Nonnull"@,
        FfiType::Struct { name } => "Uniffi"@ + upper_camel_of(name@),
        FfiType::Reference { inner } => header_label_of(*inner) + "* _Nonnull"@,
        FfiType::VoidPointer => "void* _Nonnull"@,
    }
}

/// The binary layout class of an ABI kind that may occupy a return slot.
pub enum ReturnLayout {
    /// A fixed-width integer register value.
    FixedInt { bits: u32, signed: bool },
    /// An IEEE floating-point register value.
    FixedFloat { bits: u32 },
    /// A non-null pointer to a native-owned object.
    ObjectPointer,
    /// An owned, length-prefixed buffer descriptor.
    OwnedBuffer,
}

/// The layout a return slot of kind `t` has, if `t` is legal there.
pub open spec fn return_layout_of(t: FfiType) -> Option<ReturnLayout> {
    match t {
        FfiType::UInt8 => Some(ReturnLayout::FixedInt { bits: 8, signed: false }),
        FfiType::Int8 => Some(ReturnLayout::FixedInt { bits: 8, signed: true }),
        FfiType::UInt16 => Some(ReturnLayout::FixedInt { bits: 16, signed: false }),
        FfiType::Int16 => Some(ReturnLayout::FixedInt { bits: 16, signed: true }),
        FfiType::UInt32 => Some(ReturnLayout::FixedInt { bits: 32, signed: false }),
        FfiType::Int32 => Some(ReturnLayout::FixedInt { bits: 32, signed: true }),
        FfiType::UInt64 => Some(ReturnLayout::FixedInt { bits: 64, signed: false }),
        FfiType::Int64 => Some(ReturnLayout::FixedInt { bits: 64, signed: true }),
        FfiType::Float32 => Some(ReturnLayout::FixedFloat { bits: 32 }),
        FfiType::Float64 => Some(ReturnLayout::FixedFloat { bits: 64 }),
        FfiType::RustArcPtr => Some(ReturnLayout::ObjectPointer),
        FfiType::RustBuffer => Some(ReturnLayout::OwnedBuffer),
        _ => None,
    }
}

/// Whether an ABI kind is legal as a return type.
pub open spec fn legal_return_type(t: FfiType) -> bool {
    return_layout_of(t) is Some
}

/// The sentinel literal written to a return slot of the given layout on
/// the error path: zero for scalars, null for handles, an empty-but-valid
/// descriptor for buffers.
pub open spec fn sentinel_of(l: ReturnLayout) -> Seq<char> {
    match l {
        ReturnLayout::FixedInt { .. } => "0"@,
        ReturnLayout::FixedFloat { .. } => "0.0"@,
        ReturnLayout::ObjectPointer => "nil"@,
        ReturnLayout::OwnedBuffer => "RustBuffer.empty()"@,
    }
}

/// The default/sentinel literal for a return slot, if the slot's kind is
/// legal there. A void return slot is cleared with zero.
pub open spec fn return_default_of(rt: Option<FfiType>) -> Option<Seq<char>> {
    match rt {
        None => Some("0"@),
        Some(t) => match return_layout_of(t) {
            Some(l) => Some(sentinel_of(l)),
            None => None,
        },
    }
}

/// The value `rt` names, with the reference stripped.
pub open spec fn deref_return(rt: Option<&FfiType>) -> Option<FfiType> {
    match rt {
        Some(t) => Some(*t),
        None => None,
    }
}

fn clone_ffi_type(t: &FfiType) -> (r: FfiType)
    ensures
        r == *t,
    decreases *t,
{
    match t {
        FfiType::Int8 => FfiType::Int8,
        FfiType::UInt8 => FfiType::UInt8,
        FfiType::Int16 => FfiType::Int16,
        FfiType::UInt16 => FfiType::UInt16,
        FfiType::Int32 => FfiType::Int32,
        FfiType::UInt32 => FfiType::UInt32,
        FfiType::Int64 => FfiType::Int64,
        FfiType::UInt64 => FfiType::UInt64,
        FfiType::Float32 => FfiType::Float32,
        FfiType::Float64 => FfiType::Float64,
        FfiType::Handle => FfiType::Handle,
        FfiType::RustArcPtr => FfiType::RustArcPtr,
        FfiType::RustBuffer => FfiType::RustBuffer,
        FfiType::RustCallStatus => FfiType::RustCallStatus,
        FfiType::ForeignBytes => FfiType::ForeignBytes,
        FfiType::Callback { name } => FfiType::Callback { name: name.clone() },
        FfiType::Struct { name } => FfiType::Struct { name: name.clone() },
        FfiType::Reference { inner } => FfiType::Reference {
            inner: Box::new(clone_ffi_type(&**inner)),
        },
        FfiType::VoidPointer => FfiType::VoidPointer,
    }
}

impl PHPCodeOracle {
    /// The wrapper-code spelling of an ABI kind.
    pub fn ffi_type_label(&self, ffi_type: &FfiType) -> (r: String)
        ensures
            r@ == ffi_label_of(*ffi_type),
        decreases *ffi_type,
    {
        match ffi_type {
            FfiType::Int8 => String::from_str("Int8"),
            FfiType::UInt8 => String::from_str("UInt8"),
            FfiType::Int16 => String::from_str("Int16"),
            FfiType::UInt16 => String::from_str("UInt16"),
            FfiType::Int32 => String::from_str("Int32"),
            FfiType::UInt32 => String::from_str("UInt32"),
            FfiType::Int64 => String::from_str("Int64"),
            FfiType::UInt64 => String::from_str("UInt64"),
            FfiType::Float32 => String::from_str("Float"),
            FfiType::Float64 => String::from_str("Double"),
            FfiType::Handle => String::from_str("UInt64"),
            FfiType::RustArcPtr => String::from_str("UnsafeMutableRawPointer"),
            FfiType::RustBuffer => String::from_str("RustBuffer"),
            FfiType::RustCallStatus => String::from_str("RustCallStatus"),
            FfiType::ForeignBytes => String::from_str("ForeignBytes"),
            FfiType::Callback { name } => {
                let mut out = String::from_str("@escaping ");
                let cb = self.ffi_callback_name(name.as_str());
                out.append(cb.as_str());
                out
            },
            FfiType::Struct { name } => self.ffi_struct_name(name.as_str()),
            FfiType::Reference { inner } => {
                let mut out = String::from_str("UnsafeMutablePointer<");
                let l = self.ffi_type_label(&**inner);
                out.append(l.as_str());
                out.append(">");
                out
            },
            FfiType::VoidPointer => String::from_str("UnsafeMutableRawPointer"),
        }
    }

    /// The default/sentinel literal for a return slot. Fails, rather than
    /// substituting anything, for a kind that is not legal as a return
    /// type: an undefined value crossing the boundary is a safety hazard.
    pub fn ffi_default_value(&self, return_type: Option<&FfiType>) -> (r: Result<
        String,
        RenderError,
    >)
        ensures
            match r {
                Ok(s) => return_default_of(deref_return(return_type)) == Some(s@),
                Err(e) => {
                    &&& return_default_of(deref_return(return_type)) is None
                    &&& e matches RenderError::IllegalReturnType { ffi_type }
                        && deref_return(return_type) == Some(ffi_type)
                },
            },
    {
        match return_type {
            Some(t) => match t {
                FfiType::UInt8 => Ok(String::from_str("0")),
                FfiType::Int8 => Ok(String::from_str("0")),
                FfiType::UInt16 => Ok(String::from_str("0")),
                FfiType::Int16 => Ok(String::from_str("0")),
                FfiType::UInt32 => Ok(String::from_str("0")),
                FfiType::Int32 => Ok(String::from_str("0")),
                FfiType::UInt64 => Ok(String::from_str("0")),
                FfiType::Int64 => Ok(String::from_str("0")),
                FfiType::Float32 => Ok(String::from_str("0.0")),
                FfiType::Float64 => Ok(String::from_str("0.0")),
                FfiType::RustArcPtr => Ok(String::from_str("nil")),
                FfiType::RustBuffer => Ok(String::from_str("RustBuffer.empty()")),
                _ => Err(RenderError::IllegalReturnType { ffi_type: clone_ffi_type(t) }),
            },
            None => Ok(String::from_str("0")),
        }
    }

    /// Resolves the (outer, inner) name pair for an object type. An object
    /// the foreign side may implement needs two names — the shared contract
    /// and the native-backed default implementation — so call sites can
    /// dispatch to either; a natively-backed object pairs its protocol name
    /// with one concrete call-site name.
    pub fn object_names(&self, obj: &ObjectDef) -> (r: (String, String))
        ensures
            r.0@ == object_outer_of(obj.name@, obj.has_callback_interface),
            r.1@ == object_inner_of(obj.name@, obj.has_callback_interface),
    {
        let class_name = self.class_name(obj.name.as_str());
        if obj.has_callback_interface {
            let mut impl_name = class_name.clone();
            impl_name.append("Impl");
            (class_name, impl_name)
        } else {
            let mut protocol_name = class_name.clone();
            protocol_name.append("Protocol");
            (protocol_name, class_name)
        }
    }
}

/// Law: for every ABI kind legal as a return slot, the error-path
/// sentinel and the two textual spellings are all determined by one
/// shared binary layout, so the value written on the error path is
/// layout-consistent with both declarations.
pub proof fn lemma_default_value_layout_consistent(t: FfiType)
    requires
        legal_return_type(t),
    ensures
        return_default_of(Some(t)) == Some(sentinel_of(return_layout_of(t).unwrap())),
        ffi_label_of(t) == surface_spelling_of(return_layout_of(t).unwrap()),
        header_label_of(t) == header_spelling_of(return_layout_of(t).unwrap()),
{
}

/// The wrapper-code spelling of a return-slot layout.
pub open spec fn surface_spelling_of(l: ReturnLayout) -> Seq<char> {
    match l {
        ReturnLayout::FixedInt { bits, signed } => if signed {
            if bits == 8 {
                "Int8"@
            } else if bits == 16 {
                "Int16"@
            } else if bits == 32 {
                "Int32"@
            } else {
                "Int64"@
            }
        } else {
            if bits == 8 {
                "UInt8"@
            } else if bits == 16 {
                "UInt16"@
            } else if bits == 32 {
                "UInt32"@
            } else {
                "UInt64"@
            }
        },
        ReturnLayout::FixedFloat { bits } => if bits == 32 {
            "Float"@
        } else {
            "Double"@
        },
        ReturnLayout::ObjectPointer => "UnsafeMutableRawPointer"@,
        ReturnLayout::OwnedBuffer => "RustBuffer"@,
    }
}

/// The native-declaration spelling of a return-slot layout.
pub open spec fn header_spelling_of(l: ReturnLayout) -> Seq<char> {
    match l {
        ReturnLayout::FixedInt { bits, signed } => if signed {
            if bits == 8 {
                "int8_t"@
            } else if bits == 16 {
                "int16_t"@
            } else if bits == 32 {
                "int32_t"@
            } else {
                "int64_t"@
            }
        } else {
            if bits == 8 {
                "uint8_t"@
            } else if bits == 16 {
                "uint16_t"@
            } else if bits == 32 {
                "uint32_t"@
            } else {
                "uint64_t"@
            }
        },
        ReturnLayout::FixedFloat { bits } => if bits == 32 {
            "float"@
        } else {
            "double"@
        },
        ReturnLayout::ObjectPointer => "void*_Nonnull"@,
        ReturnLayout::OwnedBuffer => "RustBuffer"@,
    }
}

/// Law: the two resolved object names never coincide, and the concrete
/// call-site name keeps the plain class name exactly when the object is
/// natively backed — the extra implementation name exists only for
/// objects a foreign implementation may stand behind.
pub proof fn lemma_object_names_bifurcation(name: Seq<char>, has_callback_interface: bool)
    ensures
        object_outer_of(name, has_callback_interface) != object_inner_of(
            name,
            has_callback_interface,
        ),
        (object_inner_of(name, has_callback_interface) == upper_camel_of(name))
            <==> !has_callback_interface,
{
    reveal_strlit("Impl");
    reveal_strlit("Protocol");
    let uc = upper_camel_of(name);
    assert((uc + "Impl"@).len() == uc.len() + 4);
    assert((uc + "Protocol"@).len() == uc.len() + 8);
}

/// The contract-side name `object_names` resolves.
pub open spec fn object_outer_of(name: Seq<char>, has_callback_interface: bool) -> Seq<char> {
    if has_callback_interface {
        upper_camel_of(name)
    } else {
        upper_camel_of(name) + "Protocol"@
    }
}

/// The call-site name `object_names` resolves.
pub open spec fn object_inner_of(name: Seq<char>, has_callback_interface: bool) -> Seq<char> {
    if has_callback_interface {
        upper_camel_of(name) + "Impl"@
    } else {
        upper_camel_of(name)
    }
}

} // verus!
