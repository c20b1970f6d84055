//! What holds of every declaration: the shape of generated records, the
//! carrying of annotations, the round trip of enumerations, the adapters of
//! unions, and the growth of the binding registry.

use vstd::prelude::*;
use crate::annotation::{
    carried_texts, default_display_text, emitted_texts, is_carried, kind_of,
};
use crate::artifact::{
    AdapterView, CompositeArtifactView, ConstructionView, FieldRole, };
use crate::annotation::hook_of;
use crate::artifact::GeneratedArtifactView;
use crate::bindings::{entries, table_of};
use crate::render::{field_type_text, field_visibility_text};
use crate::composite::{
    composite_expansion, concrete_arguments, generated_field, header_field, host_name_of,
};
use crate::expand::{expansion, expansion_text};
use crate::process::{binding_of_artifact, processing};
use crate::registry::{
    TypeBindingView, binding_of, entries_distinct, intrinsic_binding, lemma_unregistered,
    registered_from, resolution_of, lifting_of,
};
use crate::schema::{
    AnnotationView, FieldDeclarationView, SchemaDeclarationView, TypeExprView,
    VariantDeclarationView,
};
use crate::simple_enum::{
    ShadowEnumerationView, enumeration_expansion, mapped_variant, variant_count, variant_names,
};
use crate::substitute::{GenericBindingView, instantiated};
use crate::tagged_union::{
    VariantShape, adapter_target_of, all_of_shape, payload_of, shape_of,
    union_expansion,
};

verus! {

/// A record without hook gets the header and one field for each declared
/// field: the generated record has one field more than the declaration, the
/// first is the header, the field behind it at position `i + 1` has the name
/// of the declared field `i` and the host representation of its type under
/// the binding table, which is the declared type where the record has no
/// generic parameters, and the host constructs the record by default.
pub proof fn lemma_composite_fields(
    name: Seq<char>,
    parameters: Seq<Seq<char>>,
    fields: Seq<FieldDeclarationView>,
    table: Option<Seq<GenericBindingView>>,
)
    requires
        parameters.len() == 0 || table.is_some(),
    ensures
        composite_expansion(name, parameters, fields, table, None) matches Ok(a) && {
            &&& a.fields.len() == fields.len() + 1
            &&& a.fields[0] == header_field()
            &&& forall|i: int|
                0 <= i < fields.len() ==> (#[trigger] a.fields[i + 1]).role == FieldRole::Data
                    && a.fields[i + 1].name == fields[i].name && a.fields[i + 1].domain_type
                    == instantiated(fields[i].ty, parameters, entries(table)).text
            &&& parameters.len() == 0 ==> forall|i: int|
                0 <= i < fields.len() ==> (#[trigger] a.fields[i + 1]).domain_type
                    == fields[i].ty.text
            &&& a.construction == ConstructionView::HostDefault
        },
{
}

/// A record with named fields, without generic parameters and without a
/// hook: the generated record is named after the domain type, has the header
/// and then one public field for each declared field, of the same name and in
/// the same order, typed by the host representation of the declared type; the
/// host constructs it by default.
pub proof fn lemma_plain_record(d: SchemaDeclarationView)
    requires
        d.body is Composite,
        d.generic_parameters.len() == 0,
        hook_of(d.annotations).is_none(),
    ensures
        expansion(d) matches Ok(GeneratedArtifactView::Composite(a)) && {
            let fields = d.body->Composite_0;
            &&& a.domain_name == d.name
            &&& a.domain_type == d.name
            &&& a.host_name == host_name_of(d.name)
            &&& a.fields.len() == fields.len() + 1
            &&& a.fields[0] == header_field()
            &&& field_type_text(a.fields[0]) == "::godot::obj::Base<::godot::classes::Resource>"@
            &&& forall|i: int|
                0 <= i < fields.len() ==> {
                    let f = #[trigger] a.fields[i + 1];
                    &&& f.name == fields[i].name
                    &&& f.annotations == emitted_texts(fields[i].annotations, false)
                    &&& field_visibility_text(f) == "pub "@
                    &&& field_type_text(f) == "< "@ + fields[i].ty.text
                        + " as ::as_gd_res::AsGdRes>::ResType"@
                }
            &&& a.construction == ConstructionView::HostDefault
        },
{
    let fields = d.body->Composite_0;
    lemma_composite_fields(d.name, d.generic_parameters, fields, table_of(d.annotations));
    let a = composite_expansion(
        d.name,
        d.generic_parameters,
        fields,
        table_of(d.annotations),
        None,
    )->Ok_0;
    assert(concrete_arguments(d.generic_parameters, entries(table_of(d.annotations)))
        =~= Seq::<Seq<char>>::empty());
    assert forall|i: int| 0 <= i < fields.len() implies {
        let f = #[trigger] a.fields[i + 1];
        &&& f.annotations == emitted_texts(fields[i].annotations, false)
        &&& field_visibility_text(f) == "pub "@
        &&& field_type_text(f) == "< "@ + fields[i].ty.text
            + " as ::as_gd_res::AsGdRes>::ResType"@
    } by {
        assert(a.fields[i + 1] == generated_field(
            fields[i],
            d.generic_parameters,
            entries(table_of(d.annotations)),
            false,
        ));
    }
}

/// The value of a generated record that the host constructs by default: each
/// field holds the default of its host type.
pub open spec fn default_constructed<V>(
    a: CompositeArtifactView,
    host_default: spec_fn(Seq<char>) -> V,
) -> Seq<V> {
    Seq::new(a.fields.len(), |i: int| host_default(a.fields[i].domain_type))
}

/// What extraction builds from the value `host` of a generated record: for
/// each field behind the header, under the field's name, the extracted value
/// of the generated field.
pub open spec fn extracted<V, D>(
    a: CompositeArtifactView,
    host: Seq<V>,
    extract: spec_fn(Seq<char>, V) -> D,
) -> Seq<(Seq<char>, D)> {
    Seq::new(
        (a.fields.len() - 1) as nat,
        |i: int| (a.fields[i + 1].name, extract(a.fields[i + 1].domain_type, host[i + 1])),
    )
}

/// The domain value built from the default of each field's type.
pub open spec fn built_from_defaults<D>(
    fields: Seq<FieldDeclarationView>,
    parameters: Seq<Seq<char>>,
    table: Seq<GenericBindingView>,
    type_default: spec_fn(Seq<char>) -> D,
) -> Seq<(Seq<char>, D)> {
    Seq::new(
        fields.len(),
        |i: int| (fields[i].name, type_default(instantiated(fields[i].ty, parameters, table).text)),
    )
}

/// Extraction of the default: where, for the type of every field, the
/// conversion takes the host's default to the type's default, extracting the
/// record that the host constructs by default gives the domain value built
/// from each field's type default.
pub proof fn lemma_default_extraction<V, D>(
    name: Seq<char>,
    parameters: Seq<Seq<char>>,
    fields: Seq<FieldDeclarationView>,
    table: Option<Seq<GenericBindingView>>,
    host_default: spec_fn(Seq<char>) -> V,
    extract: spec_fn(Seq<char>, V) -> D,
    type_default: spec_fn(Seq<char>) -> D,
)
    requires
        parameters.len() == 0 || table.is_some(),
        forall|i: int|
            0 <= i < fields.len() ==> {
                let ty = #[trigger] instantiated(fields[i].ty, parameters, entries(table)).text;
                extract(ty, host_default(ty)) == type_default(ty)
            },
    ensures
        composite_expansion(name, parameters, fields, table, None) matches Ok(a) && extracted(
            a,
            default_constructed(a, host_default),
            extract,
        ) == built_from_defaults(fields, parameters, entries(table), type_default),
{
    let a = composite_expansion(name, parameters, fields, table, None)->Ok_0;
    let got = extracted(a, default_constructed(a, host_default), extract);
    let want = built_from_defaults(fields, parameters, entries(table), type_default);
    assert forall|i: int| 0 <= i < fields.len() implies got[i] == want[i] by {
        let ty = instantiated(fields[i].ty, parameters, entries(table)).text;
        assert(a.fields[i + 1] == generated_field(fields[i], parameters, entries(table), false));
        assert(a.fields[i + 1].domain_type == ty);
    }
    assert(got =~= want);
}

/// The carried annotations are the annotations of a carried kind, each
/// unchanged and in the declared order.
pub proof fn lemma_carried_is_filter(annotations: Seq<AnnotationView>, hook: bool)
    ensures
        carried_texts(annotations, hook) == annotations.filter(
            |a: AnnotationView| is_carried(kind_of(a), hook),
        ).map_values(|a: AnnotationView| a.text),
    decreases annotations.len(),
{
    reveal(Seq::filter);
    let pred = |a: AnnotationView| is_carried(kind_of(a), hook);
    let text = |a: AnnotationView| a.text;
    if annotations.len() == 0 {
        assert(annotations.filter(pred).map_values(text) =~= Seq::<Seq<char>>::empty());
    } else {
        lemma_carried_is_filter(annotations.drop_last(), hook);
        let rest = annotations.drop_last().filter(pred);
        if pred(annotations.last()) {
            assert(rest.push(annotations.last()).map_values(text) =~= rest.map_values(text).push(
                annotations.last().text,
            ));
        }
    }
}

/// A field with annotations of a carried kind has exactly these on its
/// generated field, in order and unchanged; a field with none has exactly
/// the one synthesized display annotation.
pub proof fn lemma_annotations_emitted(annotations: Seq<AnnotationView>, hook: bool)
    ensures
        ({
            let recognized = annotations.filter(|a: AnnotationView| is_carried(kind_of(a), hook));
            &&& recognized.len() > 0 ==> emitted_texts(annotations, hook) == recognized.map_values(
                |a: AnnotationView| a.text,
            )
            &&& recognized.len() == 0 ==> emitted_texts(annotations, hook) == seq![
                default_display_text(),
            ]
        }),
{
    lemma_carried_is_filter(annotations, hook);
}

/// The visibility of a declaration does not affect what is generated for it.
pub proof fn lemma_visibility_is_ignored(d: SchemaDeclarationView, visibility: Seq<char>)
    ensures
        expansion(SchemaDeclarationView { visibility, ..d }) == expansion(d),
        expansion_text(SchemaDeclarationView { visibility, ..d }) == expansion_text(d),
{
}

/// The variant of the shadow enumeration that the mapping to the host gives.
pub open spec fn to_host_of(a: ShadowEnumerationView, variant: Seq<char>) -> Option<Seq<char>> {
    mapped_variant(a.variants, variant)
}

/// The variant of the domain type that the mapping from the host gives.
pub open spec fn from_host_of(a: ShadowEnumerationView, variant: Seq<char>) -> Option<Seq<char>> {
    mapped_variant(a.variants, variant)
}

/// The two mappings of a generated enumeration are total on the declared
/// variants, and mapping a variant to the host and back gives the variant.
pub proof fn lemma_host_round_trip(d: SchemaDeclarationView, i: int)
    requires
        enumeration_expansion(d) is Ok,
        0 <= i < variant_count(d),
    ensures
        ({
            let a = enumeration_expansion(d)->Ok_0;
            let v = d.body->TaggedUnion_0[i].name;
            &&& to_host_of(a, v) matches Some(h) && from_host_of(a, h) == Some(v)
        }),
{
    let a = enumeration_expansion(d)->Ok_0;
    let variants = d.body->TaggedUnion_0;
    assert(a.variants == variant_names(variants));
    assert(a.variants[i] == variants[i].name);
    assert(a.variants.contains(variants[i].name));
}

/// A union whose variants all have one payload gets exactly one adapter for
/// each variant, in order: the adapter at position `k` builds variant `k`
/// and is implemented for the generated record of that variant's payload.
pub proof fn lemma_one_adapter_per_variant(name: Seq<char>, variants: Seq<VariantDeclarationView>)
    requires
        variants.len() > 0,
        all_of_shape(variants, VariantShape::SinglePayload),
    ensures
        union_expansion(name, variants) matches Ok(a) && {
            &&& a.adapters.len() == variants.len()
            &&& forall|k: int|
                0 <= k < variants.len() ==> (#[trigger] a.adapters[k]).variant == variants[k].name
                    && a.adapters[k].target == adapter_target_of(
                    variants[k].name,
                    payload_of(variants[k]),
                )
        },
{
    assert(shape_of(variants[0]) == VariantShape::SinglePayload);
    assert(!all_of_shape(variants, VariantShape::NoPayload));
}

/// The variant that a handle bound to the generated record `target` extracts
/// to: that of the first adapter implemented for the record, at or behind `from`.
pub open spec fn dispatched_from(adapters: Seq<AdapterView>, target: Seq<char>, from: int) -> Option<
    Seq<char>,
>
    decreases adapters.len() - from,
{
    if from < 0 || from >= adapters.len() {
        None
    } else if adapters[from].target == target {
        Some(adapters[from].variant)
    } else {
        dispatched_from(adapters, target, from + 1)
    }
}

/// Whether no two adapters are implemented for the same generated record.
pub open spec fn targets_distinct(adapters: Seq<AdapterView>) -> bool {
    forall|i: int, j: int|
        0 <= i < j < adapters.len() ==> (#[trigger] adapters[i]).target != (
        #[trigger] adapters[j]).target
}

/// Where no two variants share a payload record, a handle bound to the
/// payload record of variant `k` extracts to variant `k`.
pub proof fn lemma_dispatch_selects_variant(adapters: Seq<AdapterView>, k: int)
    requires
        0 <= k < adapters.len(),
        targets_distinct(adapters),
    ensures
        dispatched_from(adapters, adapters[k].target, 0) == Some(adapters[k].variant),
{
    lemma_dispatch_from(adapters, k, 0);
}

proof fn lemma_dispatch_from(adapters: Seq<AdapterView>, k: int, from: int)
    requires
        0 <= from <= k < adapters.len(),
        targets_distinct(adapters),
    ensures
        dispatched_from(adapters, adapters[k].target, from) == Some(adapters[k].variant),
    decreases k - from,
{
    if from < k {
        assert(adapters[from].target != adapters[k].target);
        lemma_dispatch_from(adapters, k, from + 1);
    }
}

/// The registry is append-only: processing a declaration leaves the bindings
/// as they are or appends one binding, that of the generated artifact.
pub proof fn lemma_processing_appends(bindings: Seq<TypeBindingView>, d: SchemaDeclarationView)
    ensures
        ({
            let (result, after) = processing(bindings, d);
            &&& result is Err ==> after == bindings
            &&& result matches Ok(a) ==> after == bindings.push(binding_of_artifact(a))
            &&& bindings.len() <= after.len()
            &&& after.subrange(0, bindings.len() as int) == bindings
        }),
{
    let (result, after) = processing(bindings, d);
    assert(after.subrange(0, bindings.len() as int) =~= bindings);
}

/// One binding for a domain type: processing keeps the registered domain
/// types distinct from each other and from the intrinsic ones.
pub proof fn lemma_processing_keeps_distinct(
    bindings: Seq<TypeBindingView>,
    d: SchemaDeclarationView,
)
    requires
        entries_distinct(bindings),
    ensures
        entries_distinct(processing(bindings, d).1),
{
    let (result, after) = processing(bindings, d);
    if result is Ok {
        let b = binding_of_artifact(result->Ok_0);
        assert(binding_of(bindings, b.domain).is_none());
        lemma_unregistered(bindings, b.domain, 0);
        assert(after == bindings.push(b));
    }
}

/// A binding, once there, stays: a later registration does not change what
/// the registry holds for a domain type that had a binding before.
pub proof fn lemma_binding_stable(
    bindings: Seq<TypeBindingView>,
    added: TypeBindingView,
    name: Seq<char>,
)
    requires
        binding_of(bindings, name).is_some(),
    ensures
        binding_of(bindings.push(added), name) == binding_of(bindings, name),
{
    if intrinsic_binding(name).is_none() {
        lemma_registered_stable(bindings, added, name, 0);
    }
}

proof fn lemma_registered_stable(
    bindings: Seq<TypeBindingView>,
    added: TypeBindingView,
    name: Seq<char>,
    from: int,
)
    requires
        0 <= from,
        registered_from(bindings, name, from).is_some(),
    ensures
        registered_from(bindings.push(added), name, from) == registered_from(bindings, name, from),
    decreases bindings.len() - from,
{
    let extended = bindings.push(added);
    assert(from < bindings.len());
    assert(extended[from] == bindings[from]);
    if bindings[from].domain != name {
        lemma_registered_stable(bindings, added, name, from + 1);
    }
}

/// A type that resolves keeps its resolution when a binding is registered.
pub proof fn lemma_resolution_stable(
    bindings: Seq<TypeBindingView>,
    added: TypeBindingView,
    ty: TypeExprView,
)
    requires
        resolution_of(bindings, ty).is_some(),
    ensures
        resolution_of(bindings.push(added), ty) == resolution_of(bindings, ty),
{
    lemma_binding_stable(bindings, added, lifting_of(ty).1);
}

} // verus!
