//! The lookup functions the rendering engine calls while it stitches
//! resolved names into output text.
//!
//! Each is a pure function of its arguments and the immutable per-run
//! configuration, so identical lookups always return identical output,
//! and every independent output fragment that references the same helper
//! agrees on its name.

use vstd::prelude::*;

use crate::context::Config;
use crate::decimal::{dec_int, dec_nat};
use crate::ffi::{deref_return, ffi_label_of, header_label_of, return_default_of};
use crate::naming::{
    escaped_against, is_arg_keyword, is_general_keyword, lower_camel_of, quote_arg_keyword,
    quote_general_keyword, shouty_snake_of, upper_camel_of,
};
use crate::oracle::{canonical_of, ffi_converter_name_of, literal_of, type_label_of, PHPCodeOracle};
use crate::types::{EnumDef, FfiType, Literal, ObjectDef, RenderError, Type};

verus! {

fn oracle() -> (r: PHPCodeOracle) {
    PHPCodeOracle
}

/// The surface spelling of a type.
pub fn type_label(t: &Type, config: &Config) -> (r: String)
    ensures
        r@ == type_label_of(*t, config.custom_types@),
{
    oracle().find(t).type_label(config)
}

/// The surface spelling of a return type; a missing return type is
/// spelled as the unit type.
pub fn return_type_name(t: Option<&Type>, config: &Config) -> (r: String)
    ensures
        match t {
            Some(inner) => r@ == type_label_of(*inner, config.custom_types@),
            None => r@ == "()"@,
        },
{
    match t {
        Some(inner) => oracle().find(inner).type_label(config),
        None => String::from_str("()"),
    }
}

/// The collision-free identifier fragment naming a type's helpers.
pub fn canonical_name(t: &Type) -> (r: String)
    ensures
        r@ == canonical_of(*t),
{
    oracle().find(t).canonical_name()
}

/// The name of a type's paired boundary-conversion helper.
pub fn ffi_converter_name(t: &Type) -> (r: String)
    ensures
        r@ == ffi_converter_name_of(*t),
{
    oracle().find(t).ffi_converter_name()
}

/// The converter name used when a type crosses the boundary as an error.
/// Object errors convert through a dedicated helper.
pub open spec fn error_converter_name_of(t: Type) -> Seq<char> {
    match t {
        Type::Object { .. } => ffi_converter_name_of(t) + "__as_error"@,
        _ => ffi_converter_name_of(t),
    }
}

/// The name of the boundary-conversion helper for a type thrown as an
/// error.
pub fn ffi_error_converter_name(t: &Type) -> (r: String)
    ensures
        r@ == error_converter_name_of(*t),
{
    let mut name = oracle().find(t).ffi_converter_name();
    match t {
        Type::Object { .. } => {
            name.append("__as_error");
        },
        _ => {},
    }
    name
}

/// The whole-value host-to-wire conversion entry point for a type.
pub fn lower_fn(t: &Type) -> (r: String)
    ensures
        r@ == ffi_converter_name_of(*t) + "::lower"@,
{
    oracle().find(t).lower()
}

/// The streaming host-to-wire conversion entry point for a type.
pub fn write_fn(t: &Type) -> (r: String)
    ensures
        r@ == ffi_converter_name_of(*t) + "::write"@,
{
    oracle().find(t).write()
}

/// The whole-buffer wire-to-host conversion entry point for a type.
pub fn lift_fn(t: &Type) -> (r: String)
    ensures
        r@ == ffi_converter_name_of(*t) + "::lift"@,
{
    oracle().find(t).lift()
}

/// The streaming wire-to-host conversion entry point for a type.
pub fn read_fn(t: &Type) -> (r: String)
    ensures
        r@ == ffi_converter_name_of(*t) + "::read"@,
{
    oracle().find(t).read()
}

/// Renders a compile-time constant in target surface syntax.
pub fn literal_php(literal: &Literal, t: &Type, config: &Config) -> (r: String)
    ensures
        r@ == literal_of(*literal, *t, config.custom_types@),
{
    oracle().find(t).literal(literal, config)
}

/// How an enum variant's discriminant constant is rendered, when it is an
/// integer; a discriminant of any other shape cannot stand in generated
/// output and is a fatal rendering error.
pub open spec fn discr_rendering(lit: Literal) -> Option<Seq<char>> {
    match lit {
        Literal::UInt(v) => Some(dec_nat(v as nat)),
        Literal::Int(v) => Some(dec_int(v as int)),
        _ => None,
    }
}

/// Renders the discriminant of one enum variant in decimal.
pub fn variant_discr_literal(e: &EnumDef, index: usize) -> (r: Result<String, RenderError>)
    requires
        index < e.variants@.len(),
    ensures
        match r {
            Ok(s) => discr_rendering(e.variants@[index as int].discr) == Some(s@),
            Err(err) => discr_rendering(e.variants@[index as int].discr) is None && err
                == RenderError::NonIntegerDiscriminant,
        },
{
    let variant = &e.variants[index];
    match &variant.discr {
        Literal::UInt(v) => Ok(crate::decimal::u64_to_decimal(*v)),
        Literal::Int(v) => Ok(crate::decimal::i64_to_decimal(*v)),
        _ => Err(RenderError::NonIntegerDiscriminant),
    }
}

/// The wrapper-code spelling of an ABI kind.
pub fn ffi_type_name(ffi_type: &FfiType) -> (r: String)
    ensures
        r@ == ffi_label_of(*ffi_type),
{
    oracle().ffi_type_label(ffi_type)
}

/// The default/sentinel literal for a return slot.
pub fn ffi_default_value(return_type: Option<&FfiType>) -> (r: Result<String, RenderError>)
    ensures
        match r {
            Ok(s) => return_default_of(deref_return(return_type)) == Some(s@),
            Err(e) => {
                &&& return_default_of(deref_return(return_type)) is None
                &&& e matches RenderError::IllegalReturnType { ffi_type }
                    && deref_return(return_type) == Some(ffi_type)
            },
        },
{
    oracle().ffi_default_value(return_type)
}

/// The native-declaration spelling of an ABI kind.
pub fn header_ffi_type_name(ffi_type: &FfiType) -> (r: String)
    ensures
        r@ == header_label_of(*ffi_type),
    decreases *ffi_type,
{
    match ffi_type {
        FfiType::Int8 => String::from_str("int8_t"),
        FfiType::UInt8 => String::from_str("uint8_t"),
        FfiType::Int16 => String::from_str("int16_t"),
        FfiType::UInt16 => String::from_str("uint16_t"),
        FfiType::Int32 => String::from_str("int32_t"),
        FfiType::UInt32 => String::from_str("uint32_t"),
        FfiType::Int64 => String::from_str("int64_t"),
        FfiType::UInt64 => String::from_str("uint64_t"),
        FfiType::Float32 => String::from_str("float"),
        FfiType::Float64 => String::from_str("double"),
        FfiType::Handle => String::from_str("uint64_t"),
        FfiType::RustArcPtr => String::from_str("void*_Nonnull"),
        FfiType::RustBuffer => String::from_str("RustBuffer"),
        FfiType::RustCallStatus => String::from_str("RustCallStatus"),
        FfiType::ForeignBytes => String::from_str("ForeignBytes"),
        FfiType::Callback { name } => {
            let mut out = oracle().ffi_callback_name(name.as_str());
            out.append(" _Nonnull");
            out
        },
        FfiType::Struct { name } => oracle().ffi_struct_name(name.as_str()),
        FfiType::Reference { inner } => {
            let mut out = header_ffi_type_name(&**inner);
            out.append("* _Nonnull");
            out
        },
        FfiType::VoidPointer => String::from_str("void* _Nonnull"),
    }
}

/// The surface spelling of a type-like identifier.
pub fn class_name(nm: &str) -> (r: String)
    ensures
        r@ == upper_camel_of(nm@),
{
    oracle().class_name(nm)
}

/// The surface spelling of a function-like identifier, escaped if it
/// collides with a reserved word.
pub fn fn_name(nm: &str) -> (r: String)
    ensures
        r@ == escaped_against(lower_camel_of(nm@), is_general_keyword(lower_camel_of(nm@))),
{
    quote_general_keyword(oracle().fn_name(nm))
}

/// The surface spelling of a value-like identifier, escaped if it
/// collides with a reserved word.
pub fn var_name(nm: &str) -> (r: String)
    ensures
        r@ == escaped_against(lower_camel_of(nm@), is_general_keyword(lower_camel_of(nm@))),
{
    quote_general_keyword(oracle().var_name(nm))
}

/// The surface spelling of an argument name, escaped only against the
/// stricter argument-position reserved words.
pub fn arg_name(nm: &str) -> (r: String)
    ensures
        r@ == escaped_against(lower_camel_of(nm@), is_arg_keyword(lower_camel_of(nm@))),
{
    quote_arg_keyword(oracle().var_name(nm))
}

/// The escaped surface spelling of an enum variant.
pub fn enum_variant_php_quoted(nm: &str) -> (r: String)
    ensures
        r@ == escaped_against(lower_camel_of(nm@), is_general_keyword(lower_camel_of(nm@))),
{
    quote_general_keyword(oracle().enum_variant_name(nm))
}

/// The escaped surface spelling of an error variant.
pub fn error_variant_php_quoted(nm: &str) -> (r: String)
    ensures
        r@ == escaped_against(upper_camel_of(nm@), is_general_keyword(upper_camel_of(nm@))),
{
    quote_general_keyword(oracle().class_name(nm))
}

/// The name of the function-pointer slot type for a callback interface.
pub fn ffi_callback_name(nm: &str) -> (r: String)
    ensures
        r@ == "Uniffi"@ + upper_camel_of(nm@),
{
    oracle().ffi_callback_name(nm)
}

/// The name of a compound struct crossing the boundary.
pub fn ffi_struct_name(nm: &str) -> (r: String)
    ensures
        r@ == "Uniffi"@ + upper_camel_of(nm@),
{
    oracle().ffi_struct_name(nm)
}

/// The include-guard name for one boundary definition.
pub fn if_guard_name(nm: &str) -> (r: String)
    ensures
        r@ == "UNIFFI_FFIDEF_"@ + shouty_snake_of(nm@),
{
    oracle().if_guard_name(nm)
}

/// The text with `prefix` added at the start of each line (trimmed on
/// blank lines), as textwrap's `indent` computes it from its two
/// arguments alone.
pub uninterp spec fn indented_with(text: Seq<char>, prefix: Seq<char>) -> Seq<char>;

/// The text with the longest common leading whitespace removed from every
/// line, as textwrap's `dedent` computes it from its argument alone.
pub uninterp spec fn dedented(text: Seq<char>) -> Seq<char>;

/// Relies on textwrap::indent: it prepends the prefix to each line,
/// trimmed of trailing blanks on whitespace-only lines, a pure function
/// of the two arguments.
#[verifier::external_body]
fn indent_text(text: &str, prefix: &str) -> (r: String)
    ensures
        r@ == indented_with(text@, prefix@),
{
    textwrap::indent(text, prefix)
}

/// Relies on textwrap::dedent: it strips the longest common leading
/// whitespace of all lines, a pure function of its argument.
#[verifier::external_body]
fn dedent_text(text: &str) -> (r: String)
    ensures
        r@ == dedented(text@),
{
    textwrap::dedent(text)
}

/// A run of `n` spaces.
pub open spec fn space_prefix(n: nat) -> Seq<char> {
    Seq::new(n, |i: int| ' ')
}

/// The documentation block for one declaration: the dedented text set off
/// with comment markers, indented by the requested number of spaces (a
/// negative request indents by none).
pub open spec fn doc_comment_of(text: Seq<char>, spaces: int) -> Seq<char> {
    indented_with(
        "/**\n"@ + indented_with(dedented(text), " * "@) + "\n */"@,
        space_prefix(
            if spaces < 0 {
                0
            } else {
                spaces as nat
            },
        ),
    )
}

/// Renders a doc comment, indented by `spaces`.
pub fn docstring(text: &str, spaces: i32) -> (r: String)
    ensures
        r@ == doc_comment_of(text@, spaces as int),
{
    let ded = dedent_text(text);
    let middle = indent_text(ded.as_str(), " * ");
    let mut wrapped = String::from_str("/**\n");
    wrapped.append(middle.as_str());
    wrapped.append("\n */");
    let count: usize = if spaces < 0 {
        0
    } else {
        spaces as usize
    };
    let mut pad = String::new();
    proof {
        assert(pad@ =~= space_prefix(0));
    }
    let mut k: usize = 0;
    while k < count
        invariant
            k <= count,
            pad@ == space_prefix(k as nat),
        decreases count - k,
    {
        pad.append(" ");
        proof {
            reveal_strlit(" ");
            assert(pad@ =~= space_prefix((k + 1) as nat));
        }
        k = k + 1;
    }
    indent_text(wrapped.as_str(), pad.as_str())
}

/// Law: lookups are deterministic. Every lookup here is pinned by its
/// contract to a function of the queried value and the immutable
/// configuration alone, so two identical queries — here spelled as two
/// queries with equal inputs — always resolve to byte-identical names,
/// and every output fragment that references the same helper agrees.
pub proof fn lemma_lookups_deterministic(
    t1: Type,
    t2: Type,
    f1: FfiType,
    f2: FfiType,
    customs1: Seq<(String, crate::context::CustomTypeConfig)>,
    customs2: Seq<(String, crate::context::CustomTypeConfig)>,
)
    requires
        t1 == t2,
        f1 == f2,
        customs1 == customs2,
    ensures
        canonical_of(t1) == canonical_of(t2),
        type_label_of(t1, customs1) == type_label_of(t2, customs2),
        ffi_converter_name_of(t1) == ffi_converter_name_of(t2),
        error_converter_name_of(t1) == error_converter_name_of(t2),
        ffi_label_of(f1) == ffi_label_of(f2),
        header_label_of(f1) == header_label_of(f2),
        return_default_of(Some(f1)) == return_default_of(Some(f2)),
{
}

/// Resolves the (outer, inner) name pair for an object type.
pub fn object_names(obj: &ObjectDef) -> (r: (String, String))
    ensures
        r.0@ == crate::ffi::object_outer_of(obj.name@, obj.has_callback_interface),
        r.1@ == crate::ffi::object_inner_of(obj.name@, obj.has_callback_interface),
{
    oracle().object_names(obj)
}

} // verus!
