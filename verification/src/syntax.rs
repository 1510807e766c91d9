//! The calls into `syn`, `quote`, `heck` and `unicode-ident`.
//!
//! Nothing in this file is proved: each function states what the library
//! relies on from the outside crate. A piece of syntax comes back as text:
//! the tokens that `syn` read, written out by `quote` and printed by the
//! token stream's `to_string`. An error comes back as its message.
//!
//! `syn` leaves the lexing and the printing to `proc-macro2`, which does both
//! itself in an ordinary program and hands both to the compiler inside a
//! procedural macro. The same text may therefore be printed with other
//! spacing, or refused with another message, from one place to the next. So
//! nothing is claimed of what the four parsers return: the library's
//! contracts hold whatever came back.

use vstd::prelude::*;

verus! {

/// What `heck` makes of `s` in snake case.
pub uninterp spec fn snake_case(s: Seq<char>) -> Seq<char>;

/// Whether `c` has the Unicode property XID_Start, by the tables of
/// `unicode-ident`.
pub uninterp spec fn xid_start(c: char) -> bool;

/// Whether `c` has the Unicode property XID_Continue, by the tables of
/// `unicode-ident`.
pub uninterp spec fn xid_continue(c: char) -> bool;

/// Calls `unicode_ident::is_xid_start` on `c`, a lookup in a fixed table. The
/// result depends on `c` alone and is named `xid_start(c)`.
#[verifier::external_body]
pub(crate) fn is_xid_start(c: char) -> (r: bool)
    ensures
        r == xid_start(c),
{
    unicode_ident::is_xid_start(c)
}

/// Calls `unicode_ident::is_xid_continue` on `c`, a lookup in a fixed table.
/// The result depends on `c` alone and is named `xid_continue(c)`.
#[verifier::external_body]
pub(crate) fn is_xid_continue(c: char) -> (r: bool)
    ensures
        r == xid_continue(c),
{
    unicode_ident::is_xid_continue(c)
}

/// Calls `heck::ToSnakeCase::to_snake_case` on `s`. The result depends on `s`
/// alone and is named `snake_case(s)`.
#[verifier::external_body]
pub(crate) fn to_snake_case(s: &str) -> (r: String)
    ensures
        r@ == snake_case(s@),
{
    heck::ToSnakeCase::to_snake_case(s)
}

/// Calls `syn::parse_str::<syn::Visibility>` on `s`. On success the visibility
/// is written back with `quote::ToTokens::to_token_stream` and the stream's
/// `to_string`; on failure the error's `to_string` gives its message. Nothing
/// is claimed of either.
///
/// `proc-macro2` reserves the right to panic on some malformed text and does
/// not say on which; its own lexer, in the version used here, answers every
/// text with tokens or an error.
#[verifier::external_body]
pub(crate) fn parse_visibility(s: &str) -> (r: Result<String, String>) {
    match syn::parse_str::<syn::Visibility>(s) {
        Ok(v) => Ok(quote::ToTokens::to_token_stream(&v).to_string()),
        Err(e) => Err(e.to_string()),
    }
}

/// Calls `syn::parse_str::<syn::Type>` on `s`. On success the type is written
/// back with `quote::ToTokens::to_token_stream` and the stream's `to_string`;
/// on failure the error's `to_string` gives its message. Nothing is claimed
/// of either. On panics, see `parse_visibility`.
#[verifier::external_body]
pub(crate) fn parse_type(s: &str) -> (r: Result<String, String>) {
    match syn::parse_str::<syn::Type>(s) {
        Ok(t) => Ok(quote::ToTokens::to_token_stream(&t).to_string()),
        Err(e) => Err(e.to_string()),
    }
}

/// Calls `syn::parse_str::<syn::Expr>` on `s`. On success the expression is
/// written back with `quote::ToTokens::to_token_stream` and the stream's
/// `to_string`; on failure the error's `to_string` gives its message. Nothing
/// is claimed of either. On panics, see `parse_visibility`.
#[verifier::external_body]
pub(crate) fn parse_expr(s: &str) -> (r: Result<String, String>) {
    match syn::parse_str::<syn::Expr>(s) {
        Ok(x) => Ok(quote::ToTokens::to_token_stream(&x).to_string()),
        Err(e) => Err(e.to_string()),
    }
}

/// Calls `syn::parse_str::<syn::Ident>` on `s`. On success the identifier's
/// `to_string` gives its text; on failure the error's `to_string` gives its
/// message. Nothing is claimed of either. On panics, see `parse_visibility`.
#[verifier::external_body]
pub(crate) fn parse_ident(s: &str) -> (r: Result<String, String>) {
    match syn::parse_str::<syn::Ident>(s) {
        Ok(i) => Ok(i.to_string()),
        Err(e) => Err(e.to_string()),
    }
}

} // verus!
