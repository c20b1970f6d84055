//! The errors that generation reports, and their messages.

use vstd::prelude::*;
use vstd::string::*;
use crate::text::{join, joined, strings_view};

verus! {

/// Why no artifact was generated for a declaration.
#[derive(Clone, Debug)]
pub enum Diagnostic {
    /// The declaration has type parameters and no binding table.
    MissingGenericBinding,
    /// The record has no named fields.
    UnsupportedRecordShape,
    /// The declaration is neither a record nor a tagged union.
    UnsupportedKind,
    /// Every variant is without payload: the enumeration generator is the one to use.
    RedirectToEnumeration,
    /// Some variants have a payload that is not one unnamed type; their names, in order.
    MixedUnionShape(Vec<String>),
    /// The enumeration generator was given a declaration with type parameters.
    EnumerationGenerics,
    /// The enumeration generator was given variants with a payload; each as written, in order.
    EnumerationPayload(Vec<String>),
    /// The enumeration generator was given a declaration that is no tagged union.
    EnumerationKind,
    /// A field's type has no host representation in the binding registry.
    UnresolvedType { field: String, ty: String },
    /// The binding registry already holds an entry for the domain type.
    AlreadyRegistered(String),
}

/// The mathematical value of [`Diagnostic`].
pub enum DiagnosticView {
    MissingGenericBinding,
    UnsupportedRecordShape,
    UnsupportedKind,
    RedirectToEnumeration,
    MixedUnionShape(Seq<Seq<char>>),
    EnumerationGenerics,
    EnumerationPayload(Seq<Seq<char>>),
    EnumerationKind,
    UnresolvedType { field: Seq<char>, ty: Seq<char> },
    AlreadyRegistered(Seq<char>),
}

impl View for Diagnostic {
    type V = DiagnosticView;

    open spec fn view(&self) -> DiagnosticView {
        match self {
            Diagnostic::MissingGenericBinding => DiagnosticView::MissingGenericBinding,
            Diagnostic::UnsupportedRecordShape => DiagnosticView::UnsupportedRecordShape,
            Diagnostic::UnsupportedKind => DiagnosticView::UnsupportedKind,
            Diagnostic::RedirectToEnumeration => DiagnosticView::RedirectToEnumeration,
            Diagnostic::MixedUnionShape(names) => DiagnosticView::MixedUnionShape(
                strings_view(names@),
            ),
            Diagnostic::EnumerationGenerics => DiagnosticView::EnumerationGenerics,
            Diagnostic::EnumerationPayload(variants) => DiagnosticView::EnumerationPayload(
                strings_view(variants@),
            ),
            Diagnostic::EnumerationKind => DiagnosticView::EnumerationKind,
            Diagnostic::UnresolvedType { field, ty } => DiagnosticView::UnresolvedType {
                field: field@,
                ty: ty@,
            },
            Diagnostic::AlreadyRegistered(name) => DiagnosticView::AlreadyRegistered(name@),
        }
    }
}

/// The message of a diagnostic.
pub open spec fn message_of(d: DiagnosticView) -> Seq<char> {
    match d {
        DiagnosticView::MissingGenericBinding => "`derive(AsGdRes)` does not support generics"@,
        DiagnosticView::UnsupportedRecordShape => "`derive(AsGdRes)` only supports structs with named fields"@,
        DiagnosticView::UnsupportedKind => "`derive(AsGdRes)` only supports structs with named fields, enums with unit variants, or enums with single-tuple variants"@,
        DiagnosticView::RedirectToEnumeration => "`derive(AsGdRes)` only supports enums with single-tuple variants, not unit variants. Did you mean to use `derive(AsGdEnumSimple)`?"@,
        DiagnosticView::MixedUnionShape(names) => "`derive(AsGdRes)` only supports unit enums or single-tuple enums. Unsupported variants: "@
            + joined(names, ", "@),
        DiagnosticView::EnumerationGenerics => "`derive(AsGdEnumSimple)` does not support generics"@,
        DiagnosticView::EnumerationPayload(variants) => "`derive(AsGdEnumSimple)` only supports unit enums. Unsupported variants: "@
            + joined(variants, ", "@) + ".\nDid you mean to derive `AsGdRes`?"@,
        DiagnosticView::EnumerationKind => "AsGdEnumSimple derive only supports enums with unit variants, not structs. Did you mean to derive `AsGdRes`?"@,
        DiagnosticView::UnresolvedType { field, ty } => "no host representation is registered for the type `"@
            + ty + "` of field `"@ + field + "`"@,
        DiagnosticView::AlreadyRegistered(name) => "a host representation is already registered for `"@
            + name + "`"@,
    }
}

impl Diagnostic {
    /// The message that the author of the declaration reads.
    pub fn message(&self) -> (out: String)
        ensures
            out@ == message_of(self@),
    {
        match self {
            Diagnostic::MissingGenericBinding => "`derive(AsGdRes)` does not support generics".to_string(),
            Diagnostic::UnsupportedRecordShape => "`derive(AsGdRes)` only supports structs with named fields".to_string(),
            Diagnostic::UnsupportedKind => "`derive(AsGdRes)` only supports structs with named fields, enums with unit variants, or enums with single-tuple variants".to_string(),
            Diagnostic::RedirectToEnumeration => "`derive(AsGdRes)` only supports enums with single-tuple variants, not unit variants. Did you mean to use `derive(AsGdEnumSimple)`?".to_string(),
            Diagnostic::MixedUnionShape(names) => {
                let mut out = "`derive(AsGdRes)` only supports unit enums or single-tuple enums. Unsupported variants: ".to_string();
                let list = join(names, ", ");
                out.append(list.as_str());
                out
            },
            Diagnostic::EnumerationGenerics => "`derive(AsGdEnumSimple)` does not support generics".to_string(),
            Diagnostic::EnumerationPayload(variants) => {
                let mut out = "`derive(AsGdEnumSimple)` only supports unit enums. Unsupported variants: ".to_string();
                let list = join(variants, ", ");
                out.append(list.as_str());
                out.append(".\nDid you mean to derive `AsGdRes`?");
                out
            },
            Diagnostic::EnumerationKind => "AsGdEnumSimple derive only supports enums with unit variants, not structs. Did you mean to derive `AsGdRes`?".to_string(),
            Diagnostic::UnresolvedType { field, ty } => {
                let mut out = "no host representation is registered for the type `".to_string();
                out.append(ty.as_str());
                out.append("` of field `");
                out.append(field.as_str());
                out.append("`");
                out
            },
            Diagnostic::AlreadyRegistered(name) => {
                let mut out = "a host representation is already registered for `".to_string();
                out.append(name.as_str());
                out.append("`");
                out
            },
        }
    }
}

} // verus!
