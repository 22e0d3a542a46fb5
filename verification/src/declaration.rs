//! The source side of generation: a type declaration as the generator reads
//! it, with its fields and their annotations held as plain values.

use vstd::prelude::*;

verus! {

/// One token of an annotation's argument list.
pub enum Token {
    /// An identifier, as written.
    Ident(String),
    /// A single punctuation character.
    Punct(char),
    /// A literal, as source text (a string literal keeps its quotes).
    Literal(String),
    /// A delimited group, as source text. Its inside is never inspected.
    Group(String),
}

/// The model of a [`Token`].
pub enum TokenView {
    Ident(Seq<char>),
    Punct(char),
    Literal(Seq<char>),
    Group(Seq<char>),
}

impl View for Token {
    type V = TokenView;

    open spec fn view(&self) -> TokenView {
        match self {
            Token::Ident(text) => TokenView::Ident(text@),
            Token::Punct(c) => TokenView::Punct(*c),
            Token::Literal(text) => TokenView::Literal(text@),
            Token::Group(text) => TokenView::Group(text@),
        }
    }
}

/// What follows an annotation's path.
pub enum Arguments {
    /// Nothing: `#[path]`.
    Bare,
    /// A delimited token list: `#[path(tokens)]`.
    List(Vec<Token>),
    /// An assigned value: `#[path = value]`. The value is never inspected.
    Assigned,
}

/// The model of [`Arguments`].
pub enum ArgumentsView {
    Bare,
    List(Seq<TokenView>),
    Assigned,
}

/// The models of a run of tokens, in order.
pub open spec fn tokens_view(tokens: Seq<Token>) -> Seq<TokenView> {
    tokens.map_values(|t: Token| t@)
}

impl View for Arguments {
    type V = ArgumentsView;

    open spec fn view(&self) -> ArgumentsView {
        match self {
            Arguments::Bare => ArgumentsView::Bare,
            Arguments::List(tokens) => ArgumentsView::List(tokens_view(tokens@)),
            Arguments::Assigned => ArgumentsView::Assigned,
        }
    }
}

/// One annotation on a declaration or on a field.
pub struct Attribute {
    /// The path, as written (`serde`, `required`, `a::b`).
    pub path: String,
    pub arguments: Arguments,
}

/// The model of an [`Attribute`].
pub struct AttributeView {
    pub path: Seq<char>,
    pub arguments: ArgumentsView,
}

impl View for Attribute {
    type V = AttributeView;

    open spec fn view(&self) -> AttributeView {
        AttributeView { path: self.path@, arguments: self.arguments@ }
    }
}

/// The models of a run of annotations, in order.
pub open spec fn attributes_view(attrs: Seq<Attribute>) -> Seq<AttributeView> {
    attrs.map_values(|a: Attribute| a@)
}

/// One named field of a declaration.
pub struct Field {
    pub name: String,
    /// The declared type, as source text.
    pub ty: String,
    pub attrs: Vec<Attribute>,
}

/// The model of a [`Field`].
pub struct FieldView {
    pub name: Seq<char>,
    pub ty: Seq<char>,
    pub attrs: Seq<AttributeView>,
}

impl View for Field {
    type V = FieldView;

    open spec fn view(&self) -> FieldView {
        FieldView { name: self.name@, ty: self.ty@, attrs: attributes_view(self.attrs@) }
    }
}

/// The models of a run of fields, in order.
pub open spec fn fields_view(fields: Seq<Field>) -> Seq<FieldView> {
    fields.map_values(|f: Field| f@)
}

/// The shape of a declaration's body.
pub enum Shape {
    /// A struct with a braced list of named fields (the list may be empty).
    Named(Vec<Field>),
    /// A struct with positional fields.
    Unnamed,
    /// A struct without a field list.
    Unit,
    /// An enum.
    Enum,
    /// A union.
    Union,
}

/// The model of a [`Shape`].
pub enum ShapeView {
    Named(Seq<FieldView>),
    Unnamed,
    Unit,
    Enum,
    Union,
}

impl View for Shape {
    type V = ShapeView;

    open spec fn view(&self) -> ShapeView {
        match self {
            Shape::Named(fields) => ShapeView::Named(fields_view(fields@)),
            Shape::Unnamed => ShapeView::Unnamed,
            Shape::Unit => ShapeView::Unit,
            Shape::Enum => ShapeView::Enum,
            Shape::Union => ShapeView::Union,
        }
    }
}

/// A type declaration handed to the generator.
pub struct Declaration {
    pub name: String,
    /// The annotations on the declaration itself.
    pub attrs: Vec<Attribute>,
    pub shape: Shape,
}

/// The model of a [`Declaration`].
pub struct DeclarationView {
    pub name: Seq<char>,
    pub attrs: Seq<AttributeView>,
    pub shape: ShapeView,
}

impl View for Declaration {
    type V = DeclarationView;

    open spec fn view(&self) -> DeclarationView {
        DeclarationView {
            name: self.name@,
            attrs: attributes_view(self.attrs@),
            shape: self.shape@,
        }
    }
}

} // verus!
