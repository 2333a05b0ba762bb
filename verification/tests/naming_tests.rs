//! Naming conventions: case conversion and reserved-word escaping.

use php_bindgen::filters::{
    arg_name, class_name, docstring, enum_variant_php_quoted, error_variant_php_quoted,
    ffi_callback_name, ffi_struct_name, fn_name, if_guard_name, var_name,
};
use php_bindgen::naming::{quote_arg_keyword, quote_general_keyword};

#[test]
fn general_keyword_is_escaped() {
    assert_eq!(quote_general_keyword("if".to_string()), "`if`");
    assert_eq!(quote_general_keyword("protocol".to_string()), "`protocol`");
    assert_eq!(quote_general_keyword("Self".to_string()), "`Self`");
}

#[test]
fn non_keyword_passes_through() {
    assert_eq!(quote_general_keyword("hello".to_string()), "hello");
    assert_eq!(quote_general_keyword("iff".to_string()), "iff");
    assert_eq!(quote_general_keyword("".to_string()), "");
}

#[test]
fn arg_keyword_set_is_stricter() {
    assert_eq!(quote_arg_keyword("inout".to_string()), "`inout`");
    assert_eq!(quote_arg_keyword("var".to_string()), "`var`");
    assert_eq!(quote_arg_keyword("let".to_string()), "`let`");
    // General keywords outside the argument set pass unescaped here.
    assert_eq!(quote_arg_keyword("class".to_string()), "class");
    assert_eq!(quote_arg_keyword("if".to_string()), "if");
}

#[test]
fn fn_name_applies_case_then_escapes() {
    assert_eq!(fn_name("hello_world"), "helloWorld");
    assert_eq!(fn_name("if"), "`if`");
    assert_eq!(fn_name("IF"), "`if`");
}

#[test]
fn var_name_applies_case_then_escapes() {
    assert_eq!(var_name("my_value"), "myValue");
    assert_eq!(var_name("let"), "`let`");
}

#[test]
fn arg_name_escapes_only_argument_keywords() {
    assert_eq!(arg_name("in_out"), "inOut");
    assert_eq!(arg_name("var"), "`var`");
    assert_eq!(arg_name("class"), "class");
}

#[test]
fn class_name_of_reserved_word_is_distinct_from_raw_form() {
    // An enum literally named `if` surfaces as `If`, never the raw `if`.
    let n = class_name("if");
    assert_eq!(n, "If");
    assert_ne!(n, "if");
}

#[test]
fn class_name_upper_camels() {
    assert_eq!(class_name("hello_world"), "HelloWorld");
    assert_eq!(class_name("XMLHttpRequest".to_lowercase().as_str()), "Xmlhttprequest");
}

#[test]
fn enum_variant_quoted() {
    assert_eq!(enum_variant_php_quoted("MY_VARIANT"), "myVariant");
    assert_eq!(enum_variant_php_quoted("default"), "`default`");
}

#[test]
fn error_variant_quoted_uses_class_case() {
    assert_eq!(error_variant_php_quoted("bad_input"), "BadInput");
    // `Any` is reserved, and upper camel case keeps it as `Any`.
    assert_eq!(error_variant_php_quoted("Any"), "`Any`");
}

#[test]
fn ffi_callback_and_struct_names() {
    assert_eq!(ffi_callback_name("call_back"), "UniffiCallBack");
    assert_eq!(ffi_struct_name("foreign_future"), "UniffiForeignFuture");
}

#[test]
fn if_guard_name_is_shouty() {
    assert_eq!(if_guard_name("my_module"), "UNIFFI_FFIDEF_MY_MODULE");
    assert_eq!(if_guard_name("coreLib"), "UNIFFI_FFIDEF_CORE_LIB");
}

#[test]
fn lookups_are_deterministic() {
    assert_eq!(fn_name("some_method"), fn_name("some_method"));
    assert_eq!(class_name("some_type"), class_name("some_type"));
    assert_eq!(if_guard_name("some_type"), if_guard_name("some_type"));
}

#[test]
fn docstring_wraps_and_indents() {
    assert_eq!(docstring("hello", 4), "    /**\n     * hello\n     */");
    assert_eq!(docstring("hello", 0), "/**\n * hello\n */");
}

#[test]
fn docstring_dedents_common_whitespace() {
    assert_eq!(docstring("  a\n  b", 0), "/**\n * a\n * b\n */");
}

#[test]
fn docstring_negative_indent_means_none() {
    assert_eq!(docstring("x", -3), "/**\n * x\n */");
}
