//! Processing declarations against the binding registry, in the order in
//! which the caller hands them over: every referenced type must have its
//! binding before the declaration that refers to it is processed.

use vstd::prelude::*;
use vstd::string::*;
use crate::artifact::{GeneratedArtifact, GeneratedArtifactView};
use crate::bindings::{binding_table, entries, table_of};
use crate::diagnostic::{Diagnostic, DiagnosticView};
use crate::expand::{expansion, generate, result_view};
use crate::registry::{
    Registry, TypeBinding, TypeBindingView, artifact_binding, artifact_binding_of, binding_of,
    resolution_of,
};
use crate::render::record_handle_text;
use crate::schema::{
    DeclarationBody, DeclarationBodyView, FieldDeclaration, FieldDeclarationView,
    SchemaDeclaration, SchemaDeclarationView, VariantDeclaration, VariantDeclarationView,
    VariantPayload, VariantPayloadView, fields_view, variants_view,
};
use crate::substitute::{GenericBinding, GenericBindingView, bindings_view, instantiate, instantiated};
use crate::text::strings_view;

verus! {

/// The binding that an artifact registers for its domain type.
pub open spec fn binding_of_artifact(a: GeneratedArtifactView) -> TypeBindingView {
    match a {
        GeneratedArtifactView::Composite(c) => artifact_binding_of(
            c.domain_type,
            record_handle_text(c.host_name),
        ),
        GeneratedArtifactView::Union(u) => artifact_binding_of(u.domain_name, u.host_name),
    }
}

/// The report for the first field at or behind `from` whose type under the
/// binding table does not resolve.
pub open spec fn unresolved_field(
    bindings: Seq<TypeBindingView>,
    fields: Seq<FieldDeclarationView>,
    parameters: Seq<Seq<char>>,
    table: Seq<GenericBindingView>,
    from: int,
) -> Option<DiagnosticView>
    decreases fields.len() - from,
{
    if from < 0 || from >= fields.len() {
        None
    } else {
        let ty = instantiated(fields[from].ty, parameters, table);
        if resolution_of(bindings, ty).is_none() {
            Some(DiagnosticView::UnresolvedType { field: fields[from].name, ty: ty.text })
        } else {
            unresolved_field(bindings, fields, parameters, table, from + 1)
        }
    }
}

/// The report for the first variant at or behind `from` whose first payload
/// type does not resolve.
pub open spec fn unresolved_payload(
    bindings: Seq<TypeBindingView>,
    variants: Seq<VariantDeclarationView>,
    from: int,
) -> Option<DiagnosticView>
    decreases variants.len() - from,
{
    if from < 0 || from >= variants.len() {
        None
    } else {
        match variants[from].payload {
            VariantPayloadView::Positional(types) => if types.len() > 0 && resolution_of(
                bindings,
                types[0],
            ).is_none() {
                Some(
                    DiagnosticView::UnresolvedType { field: variants[from].name, ty: types[0].text },
                )
            } else {
                unresolved_payload(bindings, variants, from + 1)
            },
            _ => unresolved_payload(bindings, variants, from + 1),
        }
    }
}

/// The report for the first type that a declaration refers to and that has
/// no host representation.
pub open spec fn unresolved_reference(bindings: Seq<TypeBindingView>, d: SchemaDeclarationView) -> Option<
    DiagnosticView,
> {
    match d.body {
        DeclarationBodyView::Composite(fields) => unresolved_field(
            bindings,
            fields,
            d.generic_parameters,
            entries(table_of(d.annotations)),
            0,
        ),
        DeclarationBodyView::TaggedUnion(variants) => unresolved_payload(bindings, variants, 0),
        _ => None,
    }
}

/// What processing one declaration gives, and the bindings after it.
///
/// A declaration that generation refuses, one that refers to a type without
/// host representation, and one whose domain type has a binding already are
/// refused and leave the bindings as they are. Any other declaration gives
/// its artifact and appends the artifact's binding.
pub open spec fn processing(bindings: Seq<TypeBindingView>, d: SchemaDeclarationView) -> (
    Result<GeneratedArtifactView, DiagnosticView>,
    Seq<TypeBindingView>,
) {
    match expansion(d) {
        Err(e) => (Err(e), bindings),
        Ok(a) => match unresolved_reference(bindings, d) {
            Some(e) => (Err(e), bindings),
            None => {
                let b = binding_of_artifact(a);
                if binding_of(bindings, b.domain).is_some() {
                    (Err(DiagnosticView::AlreadyRegistered(b.domain)), bindings)
                } else {
                    (Ok(a), bindings.push(b))
                }
            },
        },
    }
}

/// The results of processing `declarations` one after another.
pub open spec fn batch_results(
    bindings: Seq<TypeBindingView>,
    declarations: Seq<SchemaDeclarationView>,
) -> Seq<Result<GeneratedArtifactView, DiagnosticView>>
    decreases declarations.len(),
{
    if declarations.len() == 0 {
        Seq::empty()
    } else {
        let before = declarations.drop_last();
        batch_results(bindings, before).push(
            processing(batch_bindings(bindings, before), declarations.last()).0,
        )
    }
}

/// The bindings after processing `declarations` one after another.
pub open spec fn batch_bindings(
    bindings: Seq<TypeBindingView>,
    declarations: Seq<SchemaDeclarationView>,
) -> Seq<TypeBindingView>
    decreases declarations.len(),
{
    if declarations.len() == 0 {
        bindings
    } else {
        let before = declarations.drop_last();
        processing(batch_bindings(bindings, before), declarations.last()).1
    }
}

/// The mathematical values of a sequence, element by element.
pub open spec fn declarations_view(declarations: Seq<SchemaDeclaration>) -> Seq<
    SchemaDeclarationView,
> {
    declarations.map_values(|d: SchemaDeclaration| d@)
}

/// The mathematical values of a sequence, element by element.
pub open spec fn results_view(results: Seq<Result<GeneratedArtifact, Diagnostic>>) -> Seq<
    Result<GeneratedArtifactView, DiagnosticView>,
> {
    results.map_values(|r: Result<GeneratedArtifact, Diagnostic>| result_view(r))
}

/// The mathematical value of an optional value.
pub open spec fn option_diagnostic_view(d: Option<Diagnostic>) -> Option<DiagnosticView> {
    match d {
        Some(d) => Some(d@),
        None => None,
    }
}

/// The binding that an artifact registers for its domain type.
pub fn binding_for(a: &GeneratedArtifact) -> (b: TypeBinding)
    ensures
        b@ == binding_of_artifact(a@),
{
    match a {
        GeneratedArtifact::Composite(c) => {
            let mut handle = "::godot::obj::Gd<".to_string();
            handle.append(c.host_name.as_str());
            handle.append(">");
            artifact_binding(c.domain_type.as_str(), handle.as_str())
        },
        GeneratedArtifact::Union(u) => artifact_binding(
            u.domain_name.as_str(),
            u.host_name.as_str(),
        ),
    }
}

impl Registry {
    /// Looks for a field whose type under the binding table has no host representation.
    pub fn check_fields(
        &self,
        fields: &Vec<FieldDeclaration>,
        parameters: &Vec<String>,
        table: &Vec<GenericBinding>,
    ) -> (found: Option<Diagnostic>)
        ensures
            option_diagnostic_view(found) == unresolved_field(
                self@,
                fields_view(fields@),
                strings_view(parameters@),
                bindings_view(table@),
                0,
            ),
    {
        let ghost views = fields_view(fields@);
        let mut i: usize = 0;
        while i < fields.len()
            invariant
                i <= fields.len(),
                views == fields_view(fields@),
                unresolved_field(self@, views, strings_view(parameters@), bindings_view(table@), 0)
                    == unresolved_field(
                    self@,
                    views,
                    strings_view(parameters@),
                    bindings_view(table@),
                    i as int,
                ),
            decreases fields.len() - i,
        {
            let f = &fields[i];
            proof {
                assert(views[i as int] == f@);
            }
            let ty = instantiate(&f.ty, parameters, table);
            if self.resolve(&ty).is_none() {
                return Some(Diagnostic::UnresolvedType { field: f.name.clone(), ty: ty.text });
            }
            i += 1;
        }
        None
    }

    /// Looks for a variant whose payload type has no host representation.
    pub fn check_payloads(&self, variants: &Vec<VariantDeclaration>) -> (found: Option<Diagnostic>)
        ensures
            option_diagnostic_view(found) == unresolved_payload(self@, variants_view(variants@), 0),
    {
        let ghost views = variants_view(variants@);
        let mut i: usize = 0;
        while i < variants.len()
            invariant
                i <= variants.len(),
                views == variants_view(variants@),
                unresolved_payload(self@, views, 0) == unresolved_payload(self@, views, i as int),
            decreases variants.len() - i,
        {
            let v = &variants[i];
            proof {
                assert(views[i as int] == v@);
            }
            match &v.payload {
                VariantPayload::Positional(types) => {
                    if types.len() > 0 {
                        proof {
                            assert(crate::schema::types_view(types@)[0] == types[0]@);
                        }
                        if self.resolve(&types[0]).is_none() {
                            return Some(
                                Diagnostic::UnresolvedType {
                                    field: v.name.clone(),
                                    ty: types[0].text.clone(),
                                },
                            );
                        }
                    }
                },
                _ => {},
            }
            i += 1;
        }
        None
    }

    /// Looks for a type that the declaration refers to and that has no host representation.
    pub fn check_references(&self, decl: &SchemaDeclaration) -> (found: Option<Diagnostic>)
        ensures
            option_diagnostic_view(found) == unresolved_reference(self@, decl@),
    {
        match &decl.body {
            DeclarationBody::Composite(fields) => {
                let none: Vec<GenericBinding> = Vec::new();
                proof {
                    assert(bindings_view(none@) == Seq::<GenericBindingView>::empty());
                }
                match binding_table(&decl.annotations) {
                    Some(table) => self.check_fields(fields, &decl.generic_parameters, &table),
                    None => self.check_fields(fields, &decl.generic_parameters, &none),
                }
            },
            DeclarationBody::TaggedUnion(variants) => self.check_payloads(variants),
            _ => None,
        }
    }

    /// Processes one declaration: generates its artifact, checks that every
    /// type it refers to has a host representation, and registers the
    /// artifact's binding. A refused declaration leaves the registry as it is.
    pub fn process(&mut self, decl: &SchemaDeclaration) -> (result: Result<
        GeneratedArtifact,
        Diagnostic,
    >)
        ensures
            result_view(result) == processing(old(self)@, decl@).0,
            final(self)@ == processing(old(self)@, decl@).1,
    {
        let artifact = match generate(decl) {
            Ok(a) => a,
            Err(e) => {
                return Err(e);
            },
        };
        match self.check_references(decl) {
            Some(e) => {
                return Err(e);
            },
            None => {},
        }
        let binding = binding_for(&artifact);
        match self.register(binding) {
            Ok(_) => Ok(artifact),
            Err(e) => Err(e),
        }
    }

    /// Processes declarations one after another, in the order given. A
    /// declaration that is refused does not keep the later ones from being
    /// processed.
    pub fn process_batch(&mut self, declarations: &Vec<SchemaDeclaration>) -> (results: Vec<
        Result<GeneratedArtifact, Diagnostic>,
    >)
        ensures
            results_view(results@) == batch_results(old(self)@, declarations_view(declarations@)),
            final(self)@ == batch_bindings(old(self)@, declarations_view(declarations@)),
            results@.len() == declarations@.len(),
    {
        let ghost start = self@;
        let ghost views = declarations_view(declarations@);
        let mut results: Vec<Result<GeneratedArtifact, Diagnostic>> = Vec::new();
        let mut i: usize = 0;
        proof {
            assert(results_view(results@) == batch_results(start, views.take(0)));
        }
        while i < declarations.len()
            invariant
                i <= declarations.len(),
                views == declarations_view(declarations@),
                results@.len() == i,
                results_view(results@) == batch_results(start, views.take(i as int)),
                self@ == batch_bindings(start, views.take(i as int)),
            decreases declarations.len() - i,
        {
            proof {
                assert(views.take(i + 1).drop_last() == views.take(i as int));
                assert(views.take(i + 1).last() == declarations[i as int]@);
            }
            let ghost before = results@;
            let result = self.process(&declarations[i]);
            results.push(result);
            proof {
                assert(results_view(results@) == results_view(before).push(
                    result_view(results@.last()),
                ));
            }
            i += 1;
        }
        proof {
            assert(views.take(declarations.len() as int) == views);
        }
        results
    }
}

} // verus!
