//! The generator for records with named fields.

use vstd::prelude::*;
use vstd::string::*;
use crate::annotation::{emitted_annotations, emitted_texts, initial_value, initial_value_of};
use crate::artifact::{
    CompositeArtifact, CompositeArtifactView, Construction, ConstructionView, FieldInitializer,
    FieldInitializerView, FieldRole, GeneratedField, GeneratedFieldView, generated_fields_view,
    initializers_view,
};
use crate::diagnostic::{Diagnostic, DiagnosticView};
use crate::schema::{FieldDeclaration, FieldDeclarationView, fields_view};
use crate::bindings::entries;
use crate::substitute::{
    GenericBinding, GenericBindingView, bindings_view, bound_type, instantiate, instantiated,
    lookup_binding,
};
use crate::text::{join, joined, strings_view};

verus! {

/// The view of an optional binding table.
pub open spec fn table_view(table: Option<&Vec<GenericBinding>>) -> Option<Seq<GenericBindingView>> {
    match table {
        Some(t) => Some(bindings_view(t@)),
        None => None,
    }
}

/// The view of an optional name.
pub open spec fn name_view(name: Option<&str>) -> Option<Seq<char>> {
    match name {
        Some(n) => Some(n@),
        None => None,
    }
}

/// The name of the record generated for the domain type `name`.
pub open spec fn host_name_of(name: Seq<char>) -> Seq<char> {
    name + "Resource"@
}

/// The header field that every generated record starts with.
pub open spec fn header_field() -> GeneratedFieldView {
    GeneratedFieldView {
        role: FieldRole::Header,
        name: "base"@,
        domain_type: Seq::empty(),
        annotations: seq!["#[base]"@],
    }
}

/// The generated field for one declared field: the same name, the host
/// representation of its type under the binding table, and the emitted
/// annotations.
pub open spec fn generated_field(
    f: FieldDeclarationView,
    parameters: Seq<Seq<char>>,
    table: Seq<GenericBindingView>,
    hook: bool,
) -> GeneratedFieldView {
    GeneratedFieldView {
        role: FieldRole::Data,
        name: f.name,
        domain_type: instantiated(f.ty, parameters, table).text,
        annotations: emitted_texts(f.annotations, hook),
    }
}

/// The fields of the generated record: the header, then one for each declared field.
pub open spec fn generated_fields(
    fields: Seq<FieldDeclarationView>,
    parameters: Seq<Seq<char>>,
    table: Seq<GenericBindingView>,
    hook: bool,
) -> Seq<GeneratedFieldView> {
    Seq::new(
        fields.len() + 1,
        |i: int|
            if i == 0 {
                header_field()
            } else {
                generated_field(fields[i - 1], parameters, table, hook)
            },
    )
}

/// How the explicit constructor sets one declared field.
pub open spec fn initializer_of(f: FieldDeclarationView) -> FieldInitializerView {
    FieldInitializerView { name: f.name, value: initial_value_of(f.annotations) }
}

/// How the generated record is constructed: by the host's convention without
/// a hook, by an explicit constructor that ends with the hook otherwise.
pub open spec fn construction_of(
    fields: Seq<FieldDeclarationView>,
    hook: Option<Seq<char>>,
) -> ConstructionView {
    match hook {
        None => ConstructionView::HostDefault,
        Some(h) => ConstructionView::Hooked {
            initializers: fields.map_values(|f: FieldDeclarationView| initializer_of(f)),
            hook: h,
        },
    }
}

/// The concrete types bound to the declared type parameters, in the order of
/// the parameters; a parameter without a binding gives none.
pub open spec fn concrete_arguments(
    parameters: Seq<Seq<char>>,
    table: Seq<GenericBindingView>,
) -> Seq<Seq<char>>
    decreases parameters.len(),
{
    if parameters.len() == 0 {
        Seq::empty()
    } else {
        let rest = concrete_arguments(parameters.drop_last(), table);
        match bound_type(table, parameters.last()) {
            Some(ty) => rest.push(ty.text),
            None => rest,
        }
    }
}

/// The domain type as the generated code names it: the declared name, with
/// the concrete type arguments where there are any.
pub open spec fn domain_type_text(name: Seq<char>, arguments: Seq<Seq<char>>) -> Seq<char> {
    if arguments.len() == 0 {
        name
    } else {
        name + "<"@ + joined(arguments, ", "@) + ">"@
    }
}

/// What the composite generator produces.
pub open spec fn composite_expansion(
    name: Seq<char>,
    parameters: Seq<Seq<char>>,
    fields: Seq<FieldDeclarationView>,
    table: Option<Seq<GenericBindingView>>,
    hook: Option<Seq<char>>,
) -> Result<CompositeArtifactView, DiagnosticView> {
    if parameters.len() > 0 && table.is_none() {
        Err(DiagnosticView::MissingGenericBinding)
    } else {
        Ok(
            CompositeArtifactView {
                domain_name: name,
                domain_type: domain_type_text(name, concrete_arguments(parameters, entries(table))),
                host_name: host_name_of(name),
                fields: generated_fields(fields, parameters, entries(table), hook.is_some()),
                construction: construction_of(fields, hook),
            },
        )
    }
}

/// The view of a generation result.
pub open spec fn composite_result_view(r: Result<CompositeArtifact, Diagnostic>) -> Result<
    CompositeArtifactView,
    DiagnosticView,
> {
    match r {
        Ok(a) => Ok(a@),
        Err(d) => Err(d@),
    }
}

/// The concrete type arguments of the domain type under a binding table.
pub fn bound_arguments(parameters: &Vec<String>, table: &Vec<GenericBinding>) -> (out: Vec<String>)
    ensures
        strings_view(out@) == concrete_arguments(strings_view(parameters@), bindings_view(table@)),
{
    let ghost params = strings_view(parameters@);
    let mut out: Vec<String> = Vec::new();
    let mut i: usize = 0;
    while i < parameters.len()
        invariant
            i <= parameters.len(),
            params == strings_view(parameters@),
            strings_view(out@) == concrete_arguments(params.take(i as int), bindings_view(table@)),
        decreases parameters.len() - i,
    {
        proof {
            assert(params.take(i + 1).drop_last() == params.take(i as int));
            assert(params.take(i + 1).last() == parameters[i as int]@);
        }
        let ghost before = out@;
        match lookup_binding(table, parameters[i].as_str()) {
            Some(ty) => {
                out.push(ty.text.clone());
                proof {
                    assert(strings_view(out@) == strings_view(before).push(ty.text@));
                }
            },
            None => {},
        }
        i += 1;
    }
    proof {
        assert(params.take(parameters.len() as int) == params);
    }
    out
}

/// The domain type as the generated code names it.
pub fn domain_type_name(name: &str, arguments: &Vec<String>) -> (out: String)
    ensures
        out@ == domain_type_text(name@, strings_view(arguments@)),
{
    let mut out = name.to_string();
    if arguments.len() > 0 {
        out.append("<");
        let list = join(arguments, ", ");
        out.append(list.as_str());
        out.append(">");
    }
    out
}

/// The name of the record generated for the domain type `name`.
pub fn host_name(name: &str) -> (out: String)
    ensures
        out@ == host_name_of(name@),
{
    let mut out = name.to_string();
    out.append("Resource");
    out
}

/// Generates the host-side record for a record with named fields.
///
/// Fails only where type parameters are declared and no binding table is
/// given. Otherwise the record has the header and one field for each declared
/// field, in order; without a hook it is constructed by the host's
/// convention, with a hook by an explicit constructor that ends with it.
pub fn expand_composite(
    name: &str,
    generic_parameters: &Vec<String>,
    fields: &Vec<FieldDeclaration>,
    table: Option<&Vec<GenericBinding>>,
    hook: Option<&str>,
) -> (result: Result<CompositeArtifact, Diagnostic>)
    ensures
        composite_result_view(result) == composite_expansion(
            name@,
            strings_view(generic_parameters@),
            fields_view(fields@),
            table_view(table),
            name_view(hook),
        ),
        result matches Ok(artifact) ==> artifact@.fields.len() == fields@.len() + 1,
        result is Err <==> (generic_parameters@.len() > 0 && table.is_none()),
{
    if generic_parameters.len() > 0 && table.is_none() {
        return Err(Diagnostic::MissingGenericBinding);
    }
    let no_entries: Vec<GenericBinding> = Vec::new();
    let bindings: &Vec<GenericBinding> = match table {
        Some(t) => t,
        None => &no_entries,
    };
    let ghost entries = entries(table_view(table));
    let ghost decls = fields_view(fields@);
    let ghost params = strings_view(generic_parameters@);
    proof {
        assert(bindings_view(no_entries@) == Seq::<GenericBindingView>::empty());
        assert(bindings_view(bindings@) == entries);
    }
    let hooked = hook.is_some();

    let mut generated: Vec<GeneratedField> = Vec::new();
    let mut header_annotations: Vec<String> = Vec::new();
    header_annotations.push("#[base]".to_string());
    proof {
        assert(strings_view(header_annotations@) == seq!["#[base]"@]);
    }
    generated.push(
        GeneratedField {
            role: FieldRole::Header,
            name: "base".to_string(),
            domain_type: String::new(),
            annotations: header_annotations,
        },
    );
    let mut initializers: Vec<FieldInitializer> = Vec::new();
    proof {
        assert(generated_fields_view(generated@) == generated_fields(decls, params, entries, hooked).take(1));
        assert(initializers_view(initializers@) == decls.map_values(
            |f: FieldDeclarationView| initializer_of(f),
        ).take(0));
    }
    let mut i: usize = 0;
    while i < fields.len()
        invariant
            i <= fields.len(),
            decls == fields_view(fields@),
            entries == bindings_view(bindings@),
            params == strings_view(generic_parameters@),
            hooked == name_view(hook).is_some(),
            generated@.len() == i + 1,
            initializers@.len() == i,
            generated_fields_view(generated@) == generated_fields(decls, params, entries, hooked).take(
                i + 1,
            ),
            initializers_view(initializers@) == decls.map_values(
                |f: FieldDeclarationView| initializer_of(f),
            ).take(i as int),
        decreases fields.len() - i,
    {
        let field = &fields[i];
        let ty = instantiate(&field.ty, generic_parameters, bindings);
        let annotations = emitted_annotations(&field.annotations, hooked);
        let ghost generated_before = generated@;
        let ghost initializers_before = initializers@;
        let next = GeneratedField {
            role: FieldRole::Data,
            name: field.name.clone(),
            domain_type: ty.text,
            annotations,
        };
        let initializer = FieldInitializer {
            name: field.name.clone(),
            value: initial_value(&field.annotations),
        };
        proof {
            let all = generated_fields(decls, params, entries, hooked);
            let inits = decls.map_values(|f: FieldDeclarationView| initializer_of(f));
            assert(decls[i as int] == field@);
            assert(all.take(i + 2) == all.take(i + 1).push(next@));
            assert(inits.take(i + 1) == inits.take(i as int).push(initializer@));
        }
        generated.push(next);
        initializers.push(initializer);
        proof {
            assert(generated_fields_view(generated@) == generated_fields_view(
                generated_before,
            ).push(generated@.last()@));
            assert(initializers_view(initializers@) == initializers_view(initializers_before).push(
                initializers@.last()@,
            ));
        }
        i += 1;
    }
    proof {
        let all = generated_fields(decls, params, entries, hooked);
        let inits = decls.map_values(|f: FieldDeclarationView| initializer_of(f));
        assert(all.take(fields.len() + 1) == all);
        assert(inits.take(fields.len() as int) == inits);
    }
    let construction = match hook {
        Some(h) => Construction::Hooked { initializers, hook: h.to_string() },
        None => Construction::HostDefault,
    };
    let arguments = bound_arguments(generic_parameters, bindings);
    let artifact = CompositeArtifact {
        domain_name: name.to_string(),
        domain_type: domain_type_name(name, &arguments),
        host_name: host_name(name),
        fields: generated,
        construction,
    };
    Ok(artifact)
}

} // verus!
