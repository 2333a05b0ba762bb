//! Case conversion and reserved-word escaping for generated identifiers.
//!
//! Two independently-checked reserved-word sets guard the generated surface:
//! a general set, illegal wherever an identifier is declared or used, and a
//! stricter set that is additionally illegal in argument position. A name
//! that collides with the applicable set is wrapped in backticks, which keeps
//! the original name readable while making the escaped form distinct from
//! every legitimate identifier (no legal identifier contains a backtick).

use heck::{ToLowerCamelCase, ToShoutySnakeCase, ToUpperCamelCase};
use vstd::prelude::*;

verus! {

/// Equality of two string slices, decided through their owned forms.
pub fn str_eq(a: &str, b: &str) -> (r: bool)
    ensures
        r == (a@ == b@),
{
    let oa = a.to_owned();
    let ob = b.to_owned();
    oa == ob
}

/// The UpperCamelCase form of a name, as heck's `to_upper_camel_case`
/// computes it from the characters alone.
pub uninterp spec fn upper_camel_of(s: Seq<char>) -> Seq<char>;

/// The lowerCamelCase form of a name, as heck's `to_lower_camel_case`
/// computes it from the characters alone.
pub uninterp spec fn lower_camel_of(s: Seq<char>) -> Seq<char>;

/// The SHOUTY_SNAKE_CASE form of a name, as heck's `to_shouty_snake_case`
/// computes it from the characters alone.
pub uninterp spec fn shouty_snake_of(s: Seq<char>) -> Seq<char>;

/// Relies on heck's `to_upper_camel_case`: the conversion is a pure
/// function of the input characters.
#[verifier::external_body]
pub(crate) fn to_upper_camel(nm: &str) -> (r: String)
    ensures
        r@ == upper_camel_of(nm@),
{
    nm.to_upper_camel_case()
}

/// Relies on heck's `to_lower_camel_case`: the conversion is a pure
/// function of the input characters.
#[verifier::external_body]
pub(crate) fn to_lower_camel(nm: &str) -> (r: String)
    ensures
        r@ == lower_camel_of(nm@),
{
    nm.to_lower_camel_case()
}

/// Relies on heck's `to_shouty_snake_case`: the conversion is a pure
/// function of the input characters.
#[verifier::external_body]
pub(crate) fn to_shouty_snake(nm: &str) -> (r: String)
    ensures
        r@ == shouty_snake_of(nm@),
{
    nm.to_shouty_snake_case()
}

/// The reserved words that are illegal at declaration or use sites.
pub open spec fn is_general_keyword(s: Seq<char>) -> bool {
    ||| is_declaration_keyword(s)
    ||| is_statement_keyword(s)
    ||| is_expression_keyword(s)
}

/// Reserved words used in declarations.
pub open spec fn is_declaration_keyword(s: Seq<char>) -> bool {
    ||| s == "associatedtype"@
    ||| s == "class"@
    ||| s == "deinit"@
    ||| s == "enum"@
    ||| s == "extension"@
    ||| s == "fileprivate"@
    ||| s == "func"@
    ||| s == "import"@
    ||| s == "init"@
    ||| s == "inout"@
    ||| s == "internal"@
    ||| s == "let"@
    ||| s == "open"@
    ||| s == "operator"@
    ||| s == "private"@
    ||| s == "precedencegroup"@
    ||| s == "protocol"@
    ||| s == "public"@
    ||| s == "rethrows"@
    ||| s == "static"@
    ||| s == "struct"@
    ||| s == "subscript"@
    ||| s == "typealias"@
    ||| s == "var"@
}

/// Reserved words used in statements.
pub open spec fn is_statement_keyword(s: Seq<char>) -> bool {
    ||| s == "break"@
    ||| s == "case"@
    ||| s == "catch"@
    ||| s == "continue"@
    ||| s == "default"@
    ||| s == "defer"@
    ||| s == "do"@
    ||| s == "else"@
    ||| s == "fallthrough"@
    ||| s == "for"@
    ||| s == "guard"@
    ||| s == "if"@
    ||| s == "in"@
    ||| s == "repeat"@
    ||| s == "return"@
    ||| s == "throw"@
    ||| s == "switch"@
    ||| s == "where"@
    ||| s == "while"@
}

/// Reserved words used in expressions and types.
pub open spec fn is_expression_keyword(s: Seq<char>) -> bool {
    ||| s == "Any"@
    ||| s == "as"@
    ||| s == "await"@
    ||| s == "false"@
    ||| s == "is"@
    ||| s == "nil"@
    ||| s == "self"@
    ||| s == "Self"@
    ||| s == "super"@
    ||| s == "throws"@
    ||| s == "true"@
    ||| s == "try"@
}

/// The reserved words that are additionally illegal as argument names.
pub open spec fn is_arg_keyword(s: Seq<char>) -> bool {
    ||| s == "inout"@
    ||| s == "var"@
    ||| s == "let"@
}

/// A name wrapped in backticks.
pub open spec fn backtick_quoted(s: Seq<char>) -> Seq<char> {
    "`"@ + s + "`"@
}

/// What escaping against a reserved-word set leaves of a name.
pub open spec fn escaped_against(s: Seq<char>, reserved: bool) -> Seq<char> {
    if reserved {
        backtick_quoted(s)
    } else {
        s
    }
}

fn is_declaration_keyword_exec(nm: &str) -> (r: bool)
    ensures
        r == is_declaration_keyword(nm@),
{
    str_eq(nm, "associatedtype") || str_eq(nm, "class") || str_eq(nm, "deinit")
        || str_eq(nm, "enum") || str_eq(nm, "extension") || str_eq(nm, "fileprivate")
        || str_eq(nm, "func") || str_eq(nm, "import") || str_eq(nm, "init")
        || str_eq(nm, "inout") || str_eq(nm, "internal") || str_eq(nm, "let")
        || str_eq(nm, "open") || str_eq(nm, "operator") || str_eq(nm, "private")
        || str_eq(nm, "precedencegroup") || str_eq(nm, "protocol") || str_eq(nm, "public")
        || str_eq(nm, "rethrows") || str_eq(nm, "static") || str_eq(nm, "struct")
        || str_eq(nm, "subscript") || str_eq(nm, "typealias") || str_eq(nm, "var")
}

fn is_statement_keyword_exec(nm: &str) -> (r: bool)
    ensures
        r == is_statement_keyword(nm@),
{
    str_eq(nm, "break") || str_eq(nm, "case") || str_eq(nm, "catch")
        || str_eq(nm, "continue") || str_eq(nm, "default") || str_eq(nm, "defer")
        || str_eq(nm, "do") || str_eq(nm, "else") || str_eq(nm, "fallthrough")
        || str_eq(nm, "for") || str_eq(nm, "guard") || str_eq(nm, "if")
        || str_eq(nm, "in") || str_eq(nm, "repeat") || str_eq(nm, "return")
        || str_eq(nm, "throw") || str_eq(nm, "switch") || str_eq(nm, "where")
        || str_eq(nm, "while")
}

fn is_expression_keyword_exec(nm: &str) -> (r: bool)
    ensures
        r == is_expression_keyword(nm@),
{
    str_eq(nm, "Any") || str_eq(nm, "as") || str_eq(nm, "await")
        || str_eq(nm, "false") || str_eq(nm, "is") || str_eq(nm, "nil")
        || str_eq(nm, "self") || str_eq(nm, "Self") || str_eq(nm, "super")
        || str_eq(nm, "throws") || str_eq(nm, "true") || str_eq(nm, "try")
}

fn is_general_keyword_exec(nm: &str) -> (r: bool)
    ensures
        r == is_general_keyword(nm@),
{
    is_declaration_keyword_exec(nm) || is_statement_keyword_exec(nm)
        || is_expression_keyword_exec(nm)
}

fn is_arg_keyword_exec(nm: &str) -> (r: bool)
    ensures
        r == is_arg_keyword(nm@),
{
    str_eq(nm, "inout") || str_eq(nm, "var") || str_eq(nm, "let")
}

fn backtick_wrap(nm: String) -> (r: String)
    ensures
        r@ == backtick_quoted(nm@),
{
    let mut out = String::from_str("`");
    out.append(nm.as_str());
    out.append("`");
    out
}

/// Escapes a name that collides with the general reserved-word set.
pub fn quote_general_keyword(nm: String) -> (r: String)
    ensures
        r@ == escaped_against(nm@, is_general_keyword(nm@)),
{
    if is_general_keyword_exec(nm.as_str()) {
        backtick_wrap(nm)
    } else {
        nm
    }
}

/// Escapes a name that collides with the argument-position reserved words.
pub fn quote_arg_keyword(nm: String) -> (r: String)
    ensures
        r@ == escaped_against(nm@, is_arg_keyword(nm@)),
{
    if is_arg_keyword_exec(nm.as_str()) {
        backtick_wrap(nm)
    } else {
        nm
    }
}

/// Law: escaping a reserved word yields a form that no legitimate
/// identifier can equal, since legal identifiers contain no backtick;
/// a name that is not reserved passes through escaping unchanged.
pub proof fn lemma_escaping_distinguishes(w: Seq<char>, x: Seq<char>)
    requires
        is_general_keyword(w) || is_arg_keyword(w),
        forall|i: int| 0 <= i < x.len() ==> x[i] != '`',
    ensures
        backtick_quoted(w) != x,
        !is_general_keyword(x) ==> escaped_against(x, is_general_keyword(x)) == x,
{
    reveal_strlit("`");
    assert(backtick_quoted(w).len() == w.len() + 2);
    assert(backtick_quoted(w)[0] == '`');
    if backtick_quoted(w) == x {
        assert(x[0] == '`');
        assert(false);
    }
}

} // verus!
