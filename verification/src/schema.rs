//! The declarations that the generators read: records, tagged unions, their
//! fields, variants and annotations, each with its mathematical view.

use vstd::prelude::*;
use crate::text::{option_string_view, strings_view};
use crate::token::{Token, TokenKind, TokenView, tokens_view};

verus! {

/// How the arguments of an annotation are written.
#[derive(Clone, Copy, Debug, PartialEq, Eq, Structural)]
pub enum AnnotationForm {
    /// A bare name: `#[var]`.
    Path,
    /// A name and a delimited argument list: `#[init(val = 3.5)]`.
    List,
    /// A name and a value: `#[extract_to = "Name"]`.
    NameValue,
}

/// One annotation attached to a declaration or to a field.
#[derive(Clone, Debug)]
pub struct Annotation {
    /// The annotation's name; empty where its path is not a single identifier.
    pub name: String,
    pub form: AnnotationForm,
    /// The top-level tokens of the argument list or of the value; empty for the bare form.
    pub tokens: Vec<Token>,
    /// The annotation as written, carried verbatim onto generated fields.
    pub text: String,
}

/// The mathematical value of [`Annotation`].
pub struct AnnotationView {
    pub name: Seq<char>,
    pub form: AnnotationForm,
    pub tokens: Seq<TokenView>,
    pub text: Seq<char>,
}

impl View for Annotation {
    type V = AnnotationView;

    open spec fn view(&self) -> AnnotationView {
        AnnotationView {
            name: self.name@,
            form: self.form,
            tokens: tokens_view(self.tokens@),
            text: self.text@,
        }
    }
}

/// The mathematical values of a sequence, element by element.
pub open spec fn annotations_view(annotations: Seq<Annotation>) -> Seq<AnnotationView> {
    annotations.map_values(|a: Annotation| a@)
}

/// A type expression of a field or of a variant's payload.
#[derive(Clone, Debug)]
pub struct TypeExpr {
    /// The type as written.
    pub text: String,
    /// The last segment's identifier where the type is known to be a path;
    /// `None` for any other type and where that is not known.
    pub path_tail: Option<String>,
    /// The top-level tokens of the type.
    pub tokens: Vec<Token>,
}

/// The mathematical value of [`TypeExpr`].
pub struct TypeExprView {
    pub text: Seq<char>,
    pub path_tail: Option<Seq<char>>,
    pub tokens: Seq<TokenView>,
}

impl View for TypeExpr {
    type V = TypeExprView;

    open spec fn view(&self) -> TypeExprView {
        TypeExprView {
            text: self.text@,
            path_tail: option_string_view(self.path_tail),
            tokens: tokens_view(self.tokens@),
        }
    }
}

impl TypeExpr {
    /// A type that is a single identifier, such as `f32` or a type parameter.
    pub fn named(name: &str) -> (ty: TypeExpr)
        ensures
            ty@ == (TypeExprView {
                text: name@,
                path_tail: Some(name@),
                tokens: seq![TokenView { kind: TokenKind::Ident, text: name@ }],
            }),
    {
        let mut tokens: Vec<Token> = Vec::new();
        tokens.push(Token::new(TokenKind::Ident, name));
        proof {
            assert(tokens_view(tokens@) == seq![TokenView { kind: TokenKind::Ident, text: name@ }]);
        }
        TypeExpr { text: name.to_string(), path_tail: Some(name.to_string()), tokens }
    }
}

/// The mathematical values of a sequence, element by element.
pub open spec fn types_view(types: Seq<TypeExpr>) -> Seq<TypeExprView> {
    types.map_values(|t: TypeExpr| t@)
}

/// A named field of a record.
#[derive(Clone, Debug)]
pub struct FieldDeclaration {
    pub name: String,
    pub ty: TypeExpr,
    pub annotations: Vec<Annotation>,
}

/// The mathematical value of [`FieldDeclaration`].
pub struct FieldDeclarationView {
    pub name: Seq<char>,
    pub ty: TypeExprView,
    pub annotations: Seq<AnnotationView>,
}

impl View for FieldDeclaration {
    type V = FieldDeclarationView;

    open spec fn view(&self) -> FieldDeclarationView {
        FieldDeclarationView {
            name: self.name@,
            ty: self.ty@,
            annotations: annotations_view(self.annotations@),
        }
    }
}

/// The mathematical values of a sequence, element by element.
pub open spec fn fields_view(fields: Seq<FieldDeclaration>) -> Seq<FieldDeclarationView> {
    fields.map_values(|f: FieldDeclaration| f@)
}

/// What a variant of a tagged union carries.
#[derive(Clone, Debug)]
pub enum VariantPayload {
    /// Nothing.
    Unit,
    /// Unnamed payload types: one for a valid payload variant, any other count otherwise.
    Positional(Vec<TypeExpr>),
    /// Named payload fields.
    Named(Vec<FieldDeclaration>),
}

/// The mathematical value of [`VariantPayload`].
pub enum VariantPayloadView {
    Unit,
    Positional(Seq<TypeExprView>),
    Named(Seq<FieldDeclarationView>),
}

impl View for VariantPayload {
    type V = VariantPayloadView;

    open spec fn view(&self) -> VariantPayloadView {
        match self {
            VariantPayload::Unit => VariantPayloadView::Unit,
            VariantPayload::Positional(types) => VariantPayloadView::Positional(types_view(types@)),
            VariantPayload::Named(fields) => VariantPayloadView::Named(fields_view(fields@)),
        }
    }
}

/// One variant of a tagged union.
#[derive(Clone, Debug)]
pub struct VariantDeclaration {
    pub name: String,
    pub payload: VariantPayload,
}

/// The mathematical value of [`VariantDeclaration`].
pub struct VariantDeclarationView {
    pub name: Seq<char>,
    pub payload: VariantPayloadView,
}

impl View for VariantDeclaration {
    type V = VariantDeclarationView;

    open spec fn view(&self) -> VariantDeclarationView {
        VariantDeclarationView { name: self.name@, payload: self.payload@ }
    }
}

/// The mathematical values of a sequence, element by element.
pub open spec fn variants_view(variants: Seq<VariantDeclaration>) -> Seq<VariantDeclarationView> {
    variants.map_values(|v: VariantDeclaration| v@)
}

/// The shape of a declaration.
#[derive(Clone, Debug)]
pub enum DeclarationBody {
    /// A record with named fields.
    Composite(Vec<FieldDeclaration>),
    /// A record with positional fields only.
    PositionalRecord(Vec<TypeExpr>),
    /// A record without a field list.
    UnitRecord,
    /// A closed set of variants.
    TaggedUnion(Vec<VariantDeclaration>),
    /// An untagged union: fields that overlay each other.
    Overlay(Vec<FieldDeclaration>),
}

/// The mathematical value of [`DeclarationBody`].
pub enum DeclarationBodyView {
    Composite(Seq<FieldDeclarationView>),
    PositionalRecord(Seq<TypeExprView>),
    UnitRecord,
    TaggedUnion(Seq<VariantDeclarationView>),
    Overlay(Seq<FieldDeclarationView>),
}

impl View for DeclarationBody {
    type V = DeclarationBodyView;

    open spec fn view(&self) -> DeclarationBodyView {
        match self {
            DeclarationBody::Composite(fields) => DeclarationBodyView::Composite(fields_view(fields@)),
            DeclarationBody::PositionalRecord(types) => DeclarationBodyView::PositionalRecord(
                types_view(types@),
            ),
            DeclarationBody::UnitRecord => DeclarationBodyView::UnitRecord,
            DeclarationBody::TaggedUnion(variants) => DeclarationBodyView::TaggedUnion(
                variants_view(variants@),
            ),
            DeclarationBody::Overlay(fields) => DeclarationBodyView::Overlay(fields_view(fields@)),
        }
    }
}

/// A named domain type as its author declared it.
#[derive(Clone, Debug)]
pub struct SchemaDeclaration {
    pub name: String,
    /// The visibility as written: `pub`, `pub(crate)`, or empty.
    pub visibility: String,
    /// The names of the declared generic parameters, in order.
    pub generic_parameters: Vec<String>,
    /// The annotations on the declaration itself.
    pub annotations: Vec<Annotation>,
    pub body: DeclarationBody,
}

/// The mathematical value of [`SchemaDeclaration`].
pub struct SchemaDeclarationView {
    pub name: Seq<char>,
    pub visibility: Seq<char>,
    pub generic_parameters: Seq<Seq<char>>,
    pub annotations: Seq<AnnotationView>,
    pub body: DeclarationBodyView,
}

impl View for SchemaDeclaration {
    type V = SchemaDeclarationView;

    open spec fn view(&self) -> SchemaDeclarationView {
        SchemaDeclarationView {
            name: self.name@,
            visibility: self.visibility@,
            generic_parameters: strings_view(self.generic_parameters@),
            annotations: annotations_view(self.annotations@),
            body: self.body@,
        }
    }
}

} // verus!
