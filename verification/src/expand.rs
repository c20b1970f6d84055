//! Generation for one declaration: the routing by shape, and the source text
//! of what comes out.

use vstd::prelude::*;
use vstd::string::*;
use crate::annotation::{hook_of, post_construction_hook};
use crate::artifact::{GeneratedArtifact, GeneratedArtifactView};
use crate::bindings::{binding_table, table_of};
use crate::composite::{composite_expansion, expand_composite};
use crate::diagnostic::{Diagnostic, DiagnosticView};
use crate::render::{artifact_text, diagnostic_text, render_artifact, render_diagnostic};
use crate::schema::{DeclarationBody, DeclarationBodyView, SchemaDeclaration, SchemaDeclarationView};
use crate::substitute::GenericBinding;
use crate::tagged_union::{expand_union, union_expansion};

verus! {

/// What generation produces for a declaration.
///
/// A declaration with generic parameters and no binding table among its
/// annotations is refused before its shape is looked at. A record with named
/// fields goes to the composite generator, with the binding table and the
/// hook that its annotations give; a tagged union goes to
/// the tagged-union generator; every other shape is refused.
pub open spec fn expansion(d: SchemaDeclarationView) -> Result<GeneratedArtifactView, DiagnosticView> {
    if d.generic_parameters.len() > 0 && table_of(d.annotations).is_none() {
        Err(DiagnosticView::MissingGenericBinding)
    } else {
        match d.body {
            DeclarationBodyView::Composite(fields) => match composite_expansion(
                d.name,
                d.generic_parameters,
                fields,
                table_of(d.annotations),
                hook_of(d.annotations),
            ) {
                Ok(a) => Ok(GeneratedArtifactView::Composite(a)),
                Err(e) => Err(e),
            },
            DeclarationBodyView::PositionalRecord(_) => Err(DiagnosticView::UnsupportedRecordShape),
            DeclarationBodyView::UnitRecord => Err(DiagnosticView::UnsupportedRecordShape),
            DeclarationBodyView::TaggedUnion(variants) => match union_expansion(d.name, variants) {
                Ok(a) => Ok(GeneratedArtifactView::Union(a)),
                Err(e) => Err(e),
            },
            DeclarationBodyView::Overlay(_) => Err(DiagnosticView::UnsupportedKind),
        }
    }
}

/// The source text that generation hands back for a declaration: the
/// generated declarations, or the report of the diagnostic and nothing else.
pub open spec fn expansion_text(d: SchemaDeclarationView) -> Seq<char> {
    match expansion(d) {
        Ok(a) => artifact_text(a),
        Err(e) => diagnostic_text(e),
    }
}

/// The view of a generation result.
pub open spec fn result_view(r: Result<GeneratedArtifact, Diagnostic>) -> Result<
    GeneratedArtifactView,
    DiagnosticView,
> {
    match r {
        Ok(a) => Ok(a@),
        Err(d) => Err(d@),
    }
}

/// Generates the artifact for one declaration, or says why there is none.
pub fn generate(decl: &SchemaDeclaration) -> (result: Result<GeneratedArtifact, Diagnostic>)
    ensures
        result_view(result) == expansion(decl@),
{
    let bindings = binding_table(&decl.annotations);
    if decl.generic_parameters.len() > 0 && bindings.is_none() {
        return Err(Diagnostic::MissingGenericBinding);
    }
    match &decl.body {
        DeclarationBody::Composite(fields) => {
            let hook = post_construction_hook(&decl.annotations);
            let hook_name: Option<&str> = match &hook {
                Some(h) => Some(h.as_str()),
                None => None,
            };
            let table: Option<&Vec<GenericBinding>> = match &bindings {
                Some(t) => Some(t),
                None => None,
            };
            match expand_composite(
                decl.name.as_str(),
                &decl.generic_parameters,
                fields,
                table,
                hook_name,
            ) {
                Ok(a) => Ok(GeneratedArtifact::Composite(a)),
                Err(e) => Err(e),
            }
        },
        DeclarationBody::PositionalRecord(_) => Err(Diagnostic::UnsupportedRecordShape),
        DeclarationBody::UnitRecord => Err(Diagnostic::UnsupportedRecordShape),
        DeclarationBody::TaggedUnion(variants) => {
            match expand_union(decl.name.as_str(), variants) {
                Ok(a) => Ok(GeneratedArtifact::Union(a)),
                Err(e) => Err(e),
            }
        },
        DeclarationBody::Overlay(_) => Err(Diagnostic::UnsupportedKind),
    }
}

/// Expands one declaration into source text: the generated declarations, or
/// the report of the diagnostic.
pub fn expand_as_gd_res(decl: &SchemaDeclaration) -> (out: String)
    ensures
        out@ == expansion_text(decl@),
{
    match generate(decl) {
        Ok(a) => render_artifact(&a),
        Err(e) => render_diagnostic(&e),
    }
}

} // verus!
