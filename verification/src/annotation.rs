//! Reading annotations: the required marker, and the two serialization
//! directives that are carried over to the companion type.

use vstd::prelude::*;
use crate::declaration::{
    Arguments, ArgumentsView, Attribute, AttributeView, Token, TokenView, attributes_view,
    tokens_view,
};
use crate::literal::{
    StringLiteral, StringLiteralView, literal_view, parse_string_literal, string_literal,
};
use crate::text::same_text;

verus! {

/// A field is required when one of its annotations has the path `required`,
/// whatever follows the path.
pub open spec fn required(attrs: Seq<AttributeView>) -> bool {
    exists|i: int| 0 <= i < attrs.len() && (#[trigger] attrs[i]).path == "required"@
}

/// The literal that `attr` offers for the directive `key`, as source text.
///
/// The annotation must be a `serde` list whose first token is the identifier
/// `key` and whose third token is a literal. The second token is not looked
/// at, and neither is anything after the third.
pub open spec fn offered_literal(attr: AttributeView, key: Seq<char>) -> Option<Seq<char>> {
    match attr.arguments {
        ArgumentsView::List(tokens) => {
            if attr.path == "serde"@ && tokens.len() >= 3 && tokens[0] == TokenView::Ident(key) {
                match tokens[2] {
                    TokenView::Literal(text) => Some(text),
                    _ => None,
                }
            } else {
                None
            }
        },
        _ => None,
    }
}

/// The directive `key` that `attr` yields: the literal it offers, where that
/// literal reads as a string literal.
pub open spec fn directive(attr: AttributeView, key: Seq<char>) -> Option<StringLiteralView> {
    match offered_literal(attr, key) {
        Some(text) => string_literal(text),
        None => None,
    }
}

/// `items[i]` is present and nothing before it is.
pub open spec fn first_at<T>(items: Seq<Option<T>>, i: int) -> bool {
    &&& 0 <= i < items.len()
    &&& items[i].is_some()
    &&& forall|j: int| 0 <= j < i ==> (#[trigger] items[j]).is_none()
}

/// The first item that is present, if any is.
pub open spec fn first_present<T>(items: Seq<Option<T>>) -> Option<T> {
    if exists|i: int| first_at(items, i) {
        items[choose|i: int| first_at(items, i)]
    } else {
        None
    }
}

/// What each annotation of a run yields for the directive `key`.
pub open spec fn yields(attrs: Seq<AttributeView>, key: Seq<char>) -> Seq<
    Option<StringLiteralView>,
> {
    attrs.map_values(|a: AttributeView| directive(a, key))
}

/// The directive `key` that a run of annotations carries over: that of the
/// first annotation which yields one. Later ones are ignored, and so are
/// annotations whose literal does not read as a string literal.
pub open spec fn carried(attrs: Seq<AttributeView>, key: Seq<char>) -> Option<StringLiteralView> {
    first_present(yields(attrs, key))
}

/// The models of a run of literals, each of which may be absent.
pub open spec fn literal_views(literals: Seq<Option<StringLiteral>>) -> Seq<
    Option<StringLiteralView>,
> {
    literals.map_values(|l: Option<StringLiteral>| literal_view(l))
}

/// At most one position is the first that is present.
pub proof fn first_at_is_unique<T>(items: Seq<Option<T>>, i: int, k: int)
    requires
        first_at(items, i),
        first_at(items, k),
    ensures
        i == k,
{
    if i < k {
        assert(items[i].is_none());
    } else if k < i {
        assert(items[k].is_none());
    }
}

/// Whether a field with these annotations is required.
pub fn is_required(attrs: &[Attribute]) -> (marked: bool)
    ensures
        marked == required(attributes_view(attrs@)),
{
    let ghost model = attributes_view(attrs@);
    let mut i: usize = 0;
    while i < attrs.len()
        invariant
            i <= attrs.len(),
            model == attributes_view(attrs@),
            forall|j: int| 0 <= j < i ==> (#[trigger] model[j]).path != "required"@,
        decreases attrs.len() - i,
    {
        if same_text(attrs[i].path.as_str(), "required") {
            assert(model[i as int].path == "required"@);
            return true;
        }
        i += 1;
    }
    false
}

/// The literal that `attr` offers for the directive `key`.
pub fn offered(attr: &Attribute, key: &str) -> (text: Option<String>)
    ensures
        match text {
            Some(t) => offered_literal(attr@, key@) == Some(t@),
            None => offered_literal(attr@, key@).is_none(),
        },
{
    if !same_text(attr.path.as_str(), "serde") {
        return None;
    }
    match &attr.arguments {
        Arguments::List(tokens) => {
            if tokens.len() < 3 {
                return None;
            }
            let named = match &tokens[0] {
                Token::Ident(name) => same_text(name.as_str(), key),
                _ => false,
            };
            assert(named == (tokens_view(tokens@)[0] == TokenView::Ident(key@)));
            if !named {
                return None;
            }
            match &tokens[2] {
                Token::Literal(text) => Some(text.clone()),
                _ => None,
            }
        },
        _ => None,
    }
}

/// The directive `key` that `attr` yields.
pub fn yielded(attr: &Attribute, key: &str) -> (found: Option<StringLiteral>)
    ensures
        literal_view(found) == directive(attr@, key@),
{
    match offered(attr, key) {
        Some(text) => parse_string_literal(text.as_str()),
        None => None,
    }
}

/// The first literal of a run that is present.
pub fn first_literal(literals: &[Option<StringLiteral>]) -> (found: Option<StringLiteral>)
    ensures
        literal_view(found) == first_present(literal_views(literals@)),
{
    let ghost model = literal_views(literals@);
    let mut i: usize = 0;
    while i < literals.len()
        invariant
            i <= literals.len(),
            model == literal_views(literals@),
            forall|j: int| 0 <= j < i ==> (#[trigger] model[j]).is_none(),
        decreases literals.len() - i,
    {
        if let Some(lit) = &literals[i] {
            proof {
                assert(model[i as int] == Some(lit@));
                assert(first_at(model, i as int));
                first_at_is_unique(model, i as int, choose|k: int| first_at(model, k));
            }
            return Some(lit.clone());
        }
        assert(model[i as int].is_none());
        i += 1;
    }
    proof {
        assert forall|k: int| !first_at(model, k) by {
            if 0 <= k < model.len() {
                assert(model[k].is_none());
            }
        }
    }
    None
}

/// The directive `key` that `attrs` carries over.
pub fn find_directive(attrs: &[Attribute], key: &str) -> (found: Option<StringLiteral>)
    ensures
        literal_view(found) == carried(attributes_view(attrs@), key@),
{
    let ghost model = attributes_view(attrs@);
    let mut read: Vec<Option<StringLiteral>> = Vec::new();
    let mut i: usize = 0;
    while i < attrs.len()
        invariant
            i <= attrs.len(),
            model == attributes_view(attrs@),
            read.len() == i,
            forall|j: int|
                0 <= j < i ==> literal_view(#[trigger] read[j]) == directive(model[j], key@),
        decreases attrs.len() - i,
    {
        read.push(yielded(&attrs[i], key));
        i += 1;
    }
    assert(literal_views(read@) =~= yields(model, key@));
    first_literal(read.as_slice())
}

/// The rename directive of a field: `#[serde(rename = "<key>")]`.
pub fn get_rename(attrs: &[Attribute]) -> (found: Option<StringLiteral>)
    ensures
        literal_view(found) == carried(attributes_view(attrs@), "rename"@),
{
    find_directive(attrs, "rename")
}

/// The casing policy of a declaration: `#[serde(rename_all = "<policy>")]`.
pub fn get_rename_all(attrs: &[Attribute]) -> (found: Option<StringLiteral>)
    ensures
        literal_view(found) == carried(attributes_view(attrs@), "rename_all"@),
{
    find_directive(attrs, "rename_all")
}

} // verus!
