//! The type oracle: the total mapping from an interface-level type to the
//! capability object that names it in generated code.
//!
//! Every lookup is a pure function of the type and the immutable per-run
//! configuration, so repeated queries for the same type agree. The
//! canonical name encodes the entire nested shape of a composite type —
//! kind tag first, then the children's canonical names — so distinct
//! nestings never collapse to the same helper name.

use vstd::prelude::*;

use crate::context::{lookup_custom, Config, CustomTypeConfig};
use crate::decimal::{dec_int, dec_nat, i64_to_decimal, u64_to_decimal};
use crate::naming::{
    lower_camel_of, shouty_snake_of, to_lower_camel, to_shouty_snake, to_upper_camel,
    upper_camel_of,
};
use crate::types::{Literal, Type};

verus! {

/// The collision-free identifier fragment that names a type's generated
/// helpers. Composite kinds prepend their tag to their children's
/// canonical names, so the whole nested shape is encoded.
pub open spec fn canonical_of(t: Type) -> Seq<char>
    decreases t,
{
    match t {
        Type::UInt8 => "UInt8"@,
        Type::Int8 => "Int8"@,
        Type::UInt16 => "UInt16"@,
        Type::Int16 => "Int16"@,
        Type::UInt32 => "UInt32"@,
        Type::Int32 => "Int32"@,
        Type::UInt64 => "UInt64"@,
        Type::Int64 => "Int64"@,
        Type::Float32 => "Float32"@,
        Type::Float64 => "Float64"@,
        Type::Boolean => "Boolean"@,
        Type::Text => "String"@,
        Type::Bytes => "Bytes"@,
        Type::Timestamp => "Timestamp"@,
        Type::Duration => "Duration"@,
        Type::Enum { name } => "Type"@ + upper_camel_of(name@),
        Type::Record { name } => "Type"@ + upper_camel_of(name@),
        Type::Object { name, .. } => "Type"@ + upper_camel_of(name@),
        Type::CallbackInterface { name } => "Type"@ + upper_camel_of(name@),
        Type::External { name, .. } => "Type"@ + upper_camel_of(name@),
        Type::Custom { name, .. } => "Type"@ + upper_camel_of(name@),
        Type::Optional { inner } => "Optional"@ + canonical_of(*inner),
        Type::Sequence { inner } => "Sequence"@ + canonical_of(*inner),
        Type::Dictionary { key, value } => "Map"@ + canonical_of(*key) + canonical_of(*value),
    }
}

/// The surface spelling of a type in generated source.
pub open spec fn type_label_of(t: Type, customs: Seq<(String, CustomTypeConfig)>) -> Seq<char>
    decreases t,
{
    match t {
        Type::UInt8 => "int"@,
        Type::Int8 => "int"@,
        Type::UInt16 => "int"@,
        Type::Int16 => "int"@,
        Type::UInt32 => "int"@,
        Type::Int32 => "int"@,
        Type::UInt64 => "int"@,
        Type::Int64 => "int"@,
        Type::Float32 => "float"@,
        Type::Float64 => "float"@,
        Type::Boolean => "bool"@,
        Type::Text => "string"@,
        Type::Bytes => "string"@,
        Type::Timestamp => "\\DateTime"@,
        Type::Duration => "\\DateInterval"@,
        Type::Enum { name } => upper_camel_of(name@),
        Type::Record { name } => upper_camel_of(name@),
        Type::Object { name, .. } => upper_camel_of(name@),
        Type::CallbackInterface { name } => upper_camel_of(name@),
        Type::External { name, .. } => upper_camel_of(name@),
        Type::Custom { name, builtin } => match lookup_custom(customs, name@) {
            Some(over) => match over.name_override {
                Some(n) => n@,
                None => upper_camel_of(name@),
            },
            None => type_label_of(*builtin, customs),
        },
        Type::Optional { inner } => "?"@ + type_label_of(*inner, customs),
        Type::Sequence { .. } => "array"@,
        Type::Dictionary { .. } => "array"@,
    }
}

/// The name of the paired boundary-conversion helper for a type.
pub open spec fn ffi_converter_name_of(t: Type) -> Seq<char> {
    "FfiConverter"@ + canonical_of(t)
}

/// How a compile-time constant of type `t` is spelled in generated source.
pub open spec fn literal_of(
    lit: Literal,
    t: Type,
    customs: Seq<(String, CustomTypeConfig)>,
) -> Seq<char> {
    match lit {
        Literal::Boolean(b) => if b {
            "true"@
        } else {
            "false"@
        },
        Literal::Text(s) => "\""@ + s@ + "\""@,
        Literal::UInt(v) => dec_nat(v as nat),
        Literal::Int(v) => dec_int(v as int),
        Literal::Float(s) => s@,
        Literal::Enumerator(v) => type_label_of(t, customs) + "::"@ + lower_camel_of(v@),
        Literal::EmptySequence => "[]"@,
        Literal::EmptyMap => "[]"@,
        Literal::Null => "null"@,
    }
}

/// The dispatch point for per-target naming decisions.
pub struct PHPCodeOracle;

impl PHPCodeOracle {
    /// Resolves the capability object for a type. Total: every type tag
    /// has a mapping, so generation never falls through silently.
    pub fn find<'a>(&self, type_: &'a Type) -> (r: CodeType<'a>)
        ensures
            r.type_ == type_,
    {
        CodeType { type_ }
    }

    /// The surface spelling of a type-like identifier.
    pub fn class_name(&self, nm: &str) -> (r: String)
        ensures
            r@ == upper_camel_of(nm@),
    {
        to_upper_camel(nm)
    }

    /// The surface spelling of a function-like identifier.
    pub fn fn_name(&self, nm: &str) -> (r: String)
        ensures
            r@ == lower_camel_of(nm@),
    {
        to_lower_camel(nm)
    }

    /// The surface spelling of a value-like identifier.
    pub fn var_name(&self, nm: &str) -> (r: String)
        ensures
            r@ == lower_camel_of(nm@),
    {
        to_lower_camel(nm)
    }

    /// The surface spelling of an enum variant.
    pub fn enum_variant_name(&self, nm: &str) -> (r: String)
        ensures
            r@ == lower_camel_of(nm@),
    {
        to_lower_camel(nm)
    }

    /// The name of the function-pointer slot type for a callback interface.
    pub fn ffi_callback_name(&self, nm: &str) -> (r: String)
        ensures
            r@ == "Uniffi"@ + upper_camel_of(nm@),
    {
        let mut out = String::from_str("Uniffi");
        let uc = to_upper_camel(nm);
        out.append(uc.as_str());
        out
    }

    /// The name of a compound struct crossing the boundary.
    pub fn ffi_struct_name(&self, nm: &str) -> (r: String)
        ensures
            r@ == "Uniffi"@ + upper_camel_of(nm@),
    {
        let mut out = String::from_str("Uniffi");
        let uc = to_upper_camel(nm);
        out.append(uc.as_str());
        out
    }

    /// The include-guard name for one boundary definition.
    pub fn if_guard_name(&self, nm: &str) -> (r: String)
        ensures
            r@ == "UNIFFI_FFIDEF_"@ + shouty_snake_of(nm@),
    {
        let mut out = String::from_str("UNIFFI_FFIDEF_");
        let sc = to_shouty_snake(nm);
        out.append(sc.as_str());
        out
    }
}

/// The capability object for one type: it carries nothing beyond its
/// mapping rule, and is constructed on demand at each lookup.
pub struct CodeType<'a> {
    pub type_: &'a Type,
}

impl<'a> CodeType<'a> {
    /// The surface spelling of this type in generated source.
    pub fn type_label(&self, config: &Config) -> (r: String)
        ensures
            r@ == type_label_of(*self.type_, config.custom_types@),
    {
        type_label_exec(self.type_, config)
    }

    /// The collision-free identifier fragment naming this type's helpers.
    pub fn canonical_name(&self) -> (r: String)
        ensures
            r@ == canonical_of(*self.type_),
    {
        canonical_name_exec(self.type_)
    }

    /// The name of the paired boundary-conversion helper.
    pub fn ffi_converter_name(&self) -> (r: String)
        ensures
            r@ == ffi_converter_name_of(*self.type_),
    {
        let mut out = String::from_str("FfiConverter");
        let c = canonical_name_exec(self.type_);
        out.append(c.as_str());
        out
    }

    /// The whole-value host-to-wire conversion entry point.
    pub fn lower(&self) -> (r: String)
        ensures
            r@ == ffi_converter_name_of(*self.type_) + "::lower"@,
    {
        let mut out = self.ffi_converter_name();
        out.append("::lower");
        out
    }

    /// The streaming host-to-wire conversion entry point.
    pub fn write(&self) -> (r: String)
        ensures
            r@ == ffi_converter_name_of(*self.type_) + "::write"@,
    {
        let mut out = self.ffi_converter_name();
        out.append("::write");
        out
    }

    /// The whole-buffer wire-to-host conversion entry point.
    pub fn lift(&self) -> (r: String)
        ensures
            r@ == ffi_converter_name_of(*self.type_) + "::lift"@,
    {
        let mut out = self.ffi_converter_name();
        out.append("::lift");
        out
    }

    /// The streaming wire-to-host conversion entry point.
    pub fn read(&self) -> (r: String)
        ensures
            r@ == ffi_converter_name_of(*self.type_) + "::read"@,
    {
        let mut out = self.ffi_converter_name();
        out.append("::read");
        out
    }

    /// Renders a compile-time constant of this type in surface syntax.
    pub fn literal(&self, lit: &Literal, config: &Config) -> (r: String)
        ensures
            r@ == literal_of(*lit, *self.type_, config.custom_types@),
    {
        match lit {
            Literal::Boolean(b) => {
                if *b {
                    String::from_str("true")
                } else {
                    String::from_str("false")
                }
            },
            Literal::Text(s) => {
                let mut out = String::from_str("\"");
                out.append(s.as_str());
                out.append("\"");
                out
            },
            Literal::UInt(v) => u64_to_decimal(*v),
            Literal::Int(v) => i64_to_decimal(*v),
            Literal::Float(s) => s.clone(),
            Literal::Enumerator(v) => {
                let mut out = type_label_exec(self.type_, config);
                out.append("::");
                let vn = to_lower_camel(v.as_str());
                out.append(vn.as_str());
                out
            },
            Literal::EmptySequence => String::from_str("[]"),
            Literal::EmptyMap => String::from_str("[]"),
            Literal::Null => String::from_str("null"),
        }
    }
}

fn canonical_name_exec(t: &Type) -> (r: String)
    ensures
        r@ == canonical_of(*t),
    decreases *t,
{
    match t {
        Type::UInt8 => String::from_str("UInt8"),
        Type::Int8 => String::from_str("Int8"),
        Type::UInt16 => String::from_str("UInt16"),
        Type::Int16 => String::from_str("Int16"),
        Type::UInt32 => String::from_str("UInt32"),
        Type::Int32 => String::from_str("Int32"),
        Type::UInt64 => String::from_str("UInt64"),
        Type::Int64 => String::from_str("Int64"),
        Type::Float32 => String::from_str("Float32"),
        Type::Float64 => String::from_str("Float64"),
        Type::Boolean => String::from_str("Boolean"),
        Type::Text => String::from_str("String"),
        Type::Bytes => String::from_str("Bytes"),
        Type::Timestamp => String::from_str("Timestamp"),
        Type::Duration => String::from_str("Duration"),
        Type::Enum { name } => named_canonical(name),
        Type::Record { name } => named_canonical(name),
        Type::Object { name, .. } => named_canonical(name),
        Type::CallbackInterface { name } => named_canonical(name),
        Type::External { name, .. } => named_canonical(name),
        Type::Custom { name, .. } => named_canonical(name),
        Type::Optional { inner } => {
            let mut out = String::from_str("Optional");
            let c = canonical_name_exec(&**inner);
            out.append(c.as_str());
            out
        },
        Type::Sequence { inner } => {
            let mut out = String::from_str("Sequence");
            let c = canonical_name_exec(&**inner);
            out.append(c.as_str());
            out
        },
        Type::Dictionary { key, value } => {
            let mut out = String::from_str("Map");
            let ck = canonical_name_exec(&**key);
            out.append(ck.as_str());
            let cv = canonical_name_exec(&**value);
            out.append(cv.as_str());
            out
        },
    }
}

fn named_canonical(name: &String) -> (r: String)
    ensures
        r@ == "Type"@ + upper_camel_of(name@),
{
    let mut out = String::from_str("Type");
    let uc = to_upper_camel(name.as_str());
    out.append(uc.as_str());
    out
}

fn type_label_exec(t: &Type, config: &Config) -> (r: String)
    ensures
        r@ == type_label_of(*t, config.custom_types@),
    decreases *t,
{
    match t {
        Type::UInt8 => String::from_str("int"),
        Type::Int8 => String::from_str("int"),
        Type::UInt16 => String::from_str("int"),
        Type::Int16 => String::from_str("int"),
        Type::UInt32 => String::from_str("int"),
        Type::Int32 => String::from_str("int"),
        Type::UInt64 => String::from_str("int"),
        Type::Int64 => String::from_str("int"),
        Type::Float32 => String::from_str("float"),
        Type::Float64 => String::from_str("float"),
        Type::Boolean => String::from_str("bool"),
        Type::Text => String::from_str("string"),
        Type::Bytes => String::from_str("string"),
        Type::Timestamp => String::from_str("\\DateTime"),
        Type::Duration => String::from_str("\\DateInterval"),
        Type::Enum { name } => to_upper_camel(name.as_str()),
        Type::Record { name } => to_upper_camel(name.as_str()),
        Type::Object { name, .. } => to_upper_camel(name.as_str()),
        Type::CallbackInterface { name } => to_upper_camel(name.as_str()),
        Type::External { name, .. } => to_upper_camel(name.as_str()),
        Type::Custom { name, builtin } => match config.find_custom(name.as_str()) {
            Some(over) => match &over.name_override {
                Some(n) => n.clone(),
                None => to_upper_camel(name.as_str()),
            },
            None => type_label_exec(&**builtin, config),
        },
        Type::Optional { inner } => {
            let mut out = String::from_str("?");
            let l = type_label_exec(&**inner, config);
            out.append(l.as_str());
            out
        },
        Type::Sequence { .. } => String::from_str("array"),
        Type::Dictionary { .. } => String::from_str("array"),
    }
}

/// One layer of composite wrapping around an inner type.
pub enum Nesting {
    OptionalLayer,
    SequenceLayer,
}

/// The type built by applying a stack of composite layers, outermost
/// first, to an inner type.
pub open spec fn wrap_nesting(layers: Seq<Nesting>, t: Type) -> Type
    decreases layers.len(),
{
    if layers.len() == 0 {
        t
    } else {
        let rest = wrap_nesting(layers.drop_first(), t);
        match layers[0] {
            Nesting::OptionalLayer => Type::Optional { inner: Box::new(rest) },
            Nesting::SequenceLayer => Type::Sequence { inner: Box::new(rest) },
        }
    }
}

/// The kind tag one composite layer contributes to a canonical name.
pub open spec fn layer_word(l: Nesting) -> Seq<char> {
    match l {
        Nesting::OptionalLayer => "Optional"@,
        Nesting::SequenceLayer => "Sequence"@,
    }
}

/// The kind tags a stack of layers contributes, outermost first.
pub open spec fn layers_word(layers: Seq<Nesting>) -> Seq<char>
    decreases layers.len(),
{
    if layers.len() == 0 {
        Seq::empty()
    } else {
        layer_word(layers[0]) + layers_word(layers.drop_first())
    }
}

proof fn lemma_wrap_nesting_canonical(layers: Seq<Nesting>, t: Type)
    ensures
        canonical_of(wrap_nesting(layers, t)) == layers_word(layers) + canonical_of(t),
    decreases layers.len(),
{
    if layers.len() == 0 {
        assert(layers_word(layers) + canonical_of(t) =~= canonical_of(t));
    } else {
        lemma_wrap_nesting_canonical(layers.drop_first(), t);
        let rest = wrap_nesting(layers.drop_first(), t);
        assert(canonical_of(wrap_nesting(layers, t)) == layer_word(layers[0]) + canonical_of(
            rest,
        ));
        assert(layer_word(layers[0]) + (layers_word(layers.drop_first()) + canonical_of(t))
            =~= (layer_word(layers[0]) + layers_word(layers.drop_first())) + canonical_of(t));
    }
}

proof fn lemma_layers_word_len(layers: Seq<Nesting>)
    ensures
        layers_word(layers).len() == 8 * layers.len(),
    decreases layers.len(),
{
    reveal_strlit("Optional");
    reveal_strlit("Sequence");
    if layers.len() > 0 {
        lemma_layers_word_len(layers.drop_first());
    }
}

proof fn lemma_layers_word_index(layers: Seq<Nesting>, i: int)
    requires
        0 <= i < layers.len(),
    ensures
        layers_word(layers)[8 * i] == layer_word(layers[i])[0],
    decreases layers.len(),
{
    reveal_strlit("Optional");
    reveal_strlit("Sequence");
    lemma_layers_word_len(layers.drop_first());
    if i > 0 {
        lemma_layers_word_index(layers.drop_first(), i - 1);
        assert(layers_word(layers)[8 * i] == layers_word(layers.drop_first())[8 * i - 8]);
    }
}

/// Law: the canonical name is injective over nested composite shape.
/// Two different stacks of optional/sequence layers around one inner
/// type never collapse to the same canonical name, so every nesting
/// gets its own helpers.
pub proof fn lemma_canonical_name_injective_over_nesting(
    l1: Seq<Nesting>,
    l2: Seq<Nesting>,
    t: Type,
)
    requires
        l1 != l2,
    ensures
        canonical_of(wrap_nesting(l1, t)) != canonical_of(wrap_nesting(l2, t)),
{
    reveal_strlit("Optional");
    reveal_strlit("Sequence");
    lemma_wrap_nesting_canonical(l1, t);
    lemma_wrap_nesting_canonical(l2, t);
    lemma_layers_word_len(l1);
    lemma_layers_word_len(l2);
    let c = canonical_of(t);
    let w1 = layers_word(l1);
    let w2 = layers_word(l2);
    if l1.len() == l2.len() {
        assert(exists|i: int| 0 <= i < l1.len() && l1[i] != l2[i]) by {
            if forall|i: int| 0 <= i < l1.len() ==> l1[i] == l2[i] {
                assert(l1 =~= l2);
            }
        }
        let i = choose|i: int| 0 <= i < l1.len() && l1[i] != l2[i];
        lemma_layers_word_index(l1, i);
        lemma_layers_word_index(l2, i);
        assert(layer_word(l1[i])[0] != layer_word(l2[i])[0]);
        assert((w1 + c)[8 * i] != (w2 + c)[8 * i]);
    } else {
        assert((w1 + c).len() != (w2 + c).len());
    }
}

/// Law: the canonical name separates the composite nestings of one inner
/// type. A sequence of optionals, an optional sequence, and a bare
/// sequence of the same inner type all receive distinct canonical names,
/// so their generated helpers never collide.
pub proof fn lemma_canonical_name_distinguishes_nesting(t: Type)
    ensures
        canonical_of(Type::Sequence { inner: Box::new(Type::Optional { inner: Box::new(t) }) })
            != canonical_of(
            Type::Optional { inner: Box::new(Type::Sequence { inner: Box::new(t) }) },
        ),
        canonical_of(Type::Sequence { inner: Box::new(Type::Optional { inner: Box::new(t) }) })
            != canonical_of(Type::Sequence { inner: Box::new(t) }),
        canonical_of(Type::Optional { inner: Box::new(Type::Sequence { inner: Box::new(t) }) })
            != canonical_of(Type::Sequence { inner: Box::new(t) }),
{
    reveal_strlit("Sequence");
    reveal_strlit("Optional");
    let c = canonical_of(t);
    let so = canonical_of(
        Type::Sequence { inner: Box::new(Type::Optional { inner: Box::new(t) }) },
    );
    let os = canonical_of(
        Type::Optional { inner: Box::new(Type::Sequence { inner: Box::new(t) }) },
    );
    let s = canonical_of(Type::Sequence { inner: Box::new(t) });
    assert(canonical_of(Type::Optional { inner: Box::new(t) }) == "Optional"@ + c);
    assert(canonical_of(Type::Sequence { inner: Box::new(t) }) == "Sequence"@ + c);
    assert(so == "Sequence"@ + ("Optional"@ + c));
    assert(os == "Optional"@ + ("Sequence"@ + c));
    assert(so[0] == 'S');
    assert(os[0] == 'O');
    assert(s[0] == 'S');
    assert(so.len() == c.len() + 16);
    assert(s.len() == c.len() + 8);
    assert(os.len() == c.len() + 16);
}

} // verus!
