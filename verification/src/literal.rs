//! String literals as they appear in annotation arguments.

use vstd::prelude::*;

verus! {

/// A string literal: its token as source text, and the string it denotes.
pub struct StringLiteral {
    pub token: String,
    pub value: String,
}

/// The model of a [`StringLiteral`].
pub struct StringLiteralView {
    pub token: Seq<char>,
    pub value: Seq<char>,
}

impl View for StringLiteral {
    type V = StringLiteralView;

    open spec fn view(&self) -> StringLiteralView {
        StringLiteralView { token: self.token@, value: self.value@ }
    }
}

impl Clone for StringLiteral {
    fn clone(&self) -> (copy: Self)
        ensures
            copy == *self,
    {
        StringLiteral { token: self.token.clone(), value: self.value.clone() }
    }
}

/// The model of a literal that may be absent.
pub open spec fn literal_view(lit: Option<StringLiteral>) -> Option<StringLiteralView> {
    match lit {
        Some(l) => Some(l@),
        None => None,
    }
}

/// The string literal that `text` holds when read as Rust source: its token
/// and its value. `None` where `text` is not exactly one string literal.
pub uninterp spec fn string_literal(text: Seq<char>) -> Option<StringLiteralView>;

/// Reads `text` as one Rust string literal with `syn::parse_str::<syn::LitStr>`.
///
/// Trusted: the result is what syn's parser makes of `text`. On success the
/// token is the literal as syn prints it back and the value is the string it
/// denotes, escapes resolved. Nothing more is claimed than that the outcome
/// is a function of `text`.
#[verifier::external_body]
pub(crate) fn parse_string_literal(text: &str) -> (parsed: Option<StringLiteral>)
    ensures
        literal_view(parsed) == string_literal(text@),
{
    match syn::parse_str::<syn::LitStr>(text) {
        Ok(lit) => Some(StringLiteral { token: lit.token().to_string(), value: lit.value() }),
        Err(_) => None,
    }
}

} // verus!
