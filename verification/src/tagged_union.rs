//! The generator for tagged unions: one dispatch interface and one adapter
//! for each variant's payload.

use vstd::prelude::*;
use vstd::string::*;
use crate::artifact::{Adapter, AdapterView, UnionArtifact, UnionArtifactView, adapters_view};
use crate::composite::host_name_of;
use crate::diagnostic::{Diagnostic, DiagnosticView};
use crate::schema::{
    TypeExpr, TypeExprView, VariantDeclaration, VariantDeclarationView, VariantPayload,
    VariantPayloadView, variants_view,
};
use crate::text::{lowercase, lowercase_of, strings_view};

verus! {

/// The shape of a variant, as the generator tells them apart.
#[derive(Clone, Copy, Debug, PartialEq, Eq, Structural)]
pub enum VariantShape {
    /// No payload.
    NoPayload,
    /// Exactly one unnamed payload type.
    SinglePayload,
    /// Named payload fields, or a number of unnamed payload types other than one.
    Unsupported,
}

/// The shape of a variant.
pub open spec fn shape_of(v: VariantDeclarationView) -> VariantShape {
    match v.payload {
        VariantPayloadView::Unit => VariantShape::NoPayload,
        VariantPayloadView::Positional(types) => if types.len() == 1 {
            VariantShape::SinglePayload
        } else {
            VariantShape::Unsupported
        },
        VariantPayloadView::Named(_) => VariantShape::Unsupported,
    }
}

/// Whether every variant has the given shape.
pub open spec fn all_of_shape(variants: Seq<VariantDeclarationView>, shape: VariantShape) -> bool {
    forall|i: int| 0 <= i < variants.len() ==> shape_of(#[trigger] variants[i]) == shape
}

/// The names of the variants of unsupported shape, in order.
pub open spec fn offending_names(variants: Seq<VariantDeclarationView>) -> Seq<Seq<char>>
    decreases variants.len(),
{
    if variants.len() == 0 {
        Seq::empty()
    } else {
        let rest = offending_names(variants.drop_last());
        if shape_of(variants.last()) == VariantShape::Unsupported {
            rest.push(variants.last().name)
        } else {
            rest
        }
    }
}

/// The payload type of a single-payload variant.
pub open spec fn payload_of(v: VariantDeclarationView) -> TypeExprView
    recommends
        shape_of(v) == VariantShape::SinglePayload,
{
    v.payload->Positional_0[0]
}

/// The name of the dispatch interface of the union `name`.
pub open spec fn interface_name_of(name: Seq<char>) -> Seq<char> {
    name + "VariantExtractor"@
}

/// The generated record that an adapter is implemented for: that of the
/// payload type's last path segment, or of the variant's own name where the
/// payload type is not known to be a path.
pub open spec fn adapter_target_of(variant: Seq<char>, payload: TypeExprView) -> Seq<char> {
    match payload.path_tail {
        Some(tail) => host_name_of(tail),
        None => host_name_of(variant),
    }
}

/// The namespace segment of an adapter, from the lower-case forms of the
/// union's and the variant's names.
pub open spec fn namespace_text(lowered_union: Seq<char>, lowered_variant: Seq<char>) -> Seq<char> {
    "mod_"@ + lowered_union + "_"@ + lowered_variant
}

/// The adapter for one single-payload variant of the union `name`.
pub open spec fn adapter_of(name: Seq<char>, v: VariantDeclarationView) -> AdapterView {
    AdapterView {
        variant: v.name,
        target: adapter_target_of(v.name, payload_of(v)),
        namespace: namespace_text(lowercase_of(name), lowercase_of(v.name)),
    }
}

/// What the tagged-union generator produces.
pub open spec fn union_expansion(name: Seq<char>, variants: Seq<VariantDeclarationView>) -> Result<
    UnionArtifactView,
    DiagnosticView,
> {
    if all_of_shape(variants, VariantShape::NoPayload) {
        Err(DiagnosticView::RedirectToEnumeration)
    } else if all_of_shape(variants, VariantShape::SinglePayload) {
        Ok(
            UnionArtifactView {
                domain_name: name,
                host_name: host_name_of(name),
                interface: interface_name_of(name),
                adapters: variants.map_values(|v: VariantDeclarationView| adapter_of(name, v)),
            },
        )
    } else {
        Err(DiagnosticView::MixedUnionShape(offending_names(variants)))
    }
}

/// The view of a generation result.
pub open spec fn union_result_view(r: Result<UnionArtifact, Diagnostic>) -> Result<
    UnionArtifactView,
    DiagnosticView,
> {
    match r {
        Ok(a) => Ok(a@),
        Err(d) => Err(d@),
    }
}

/// Classifies one variant.
pub fn classify_variant(v: &VariantDeclaration) -> (shape: VariantShape)
    ensures
        shape == shape_of(v@),
{
    match &v.payload {
        VariantPayload::Unit => VariantShape::NoPayload,
        VariantPayload::Positional(types) => if types.len() == 1 {
            VariantShape::SinglePayload
        } else {
            VariantShape::Unsupported
        },
        VariantPayload::Named(_) => VariantShape::Unsupported,
    }
}

/// The name of the dispatch interface of the union `name`.
pub fn interface_name(name: &str) -> (out: String)
    ensures
        out@ == interface_name_of(name@),
{
    let mut out = name.to_string();
    out.append("VariantExtractor");
    out
}

/// The adapter for the variant `variant` with payload type `payload`, given
/// the lower-case forms of the union's and the variant's names.
pub fn make_adapter(
    variant: &str,
    payload: &TypeExpr,
    lowered_union: &str,
    lowered_variant: &str,
) -> (adapter: Adapter)
    ensures
        adapter@ == (AdapterView {
            variant: variant@,
            target: adapter_target_of(variant@, payload@),
            namespace: namespace_text(lowered_union@, lowered_variant@),
        }),
{
    let target = match &payload.path_tail {
        Some(tail) => crate::composite::host_name(tail.as_str()),
        None => crate::composite::host_name(variant),
    };
    let mut namespace = "mod_".to_string();
    namespace.append(lowered_union);
    namespace.append("_");
    namespace.append(lowered_variant);
    Adapter { variant: variant.to_string(), target, namespace }
}

/// Generates the dispatch interface and the adapters of a tagged union.
///
/// A union whose variants all lack a payload (an empty one too) is redirected
/// to the enumeration generator. A union whose variants all have exactly one
/// unnamed payload type gets one adapter for each variant, in order. Any
/// other union is refused, with the names of the variants of unsupported
/// shape.
pub fn expand_union(name: &str, variants: &Vec<VariantDeclaration>) -> (result: Result<
    UnionArtifact,
    Diagnostic,
>)
    ensures
        union_result_view(result) == union_expansion(name@, variants_view(variants@)),
        result matches Ok(artifact) ==> artifact@.adapters.len() == variants@.len(),
{
    let ghost decls = variants_view(variants@);
    let mut all_unit = true;
    let mut all_single = true;
    let mut offending: Vec<String> = Vec::new();
    let mut i: usize = 0;
    while i < variants.len()
        invariant
            i <= variants.len(),
            decls == variants_view(variants@),
            all_unit == all_of_shape(decls.take(i as int), VariantShape::NoPayload),
            all_single == all_of_shape(decls.take(i as int), VariantShape::SinglePayload),
            strings_view(offending@) == offending_names(decls.take(i as int)),
        decreases variants.len() - i,
    {
        let v = &variants[i];
        let shape = classify_variant(v);
        let ghost offending_before = offending@;
        proof {
            let before = decls.take(i as int);
            let after = decls.take(i + 1);
            assert(after.drop_last() == before);
            assert(after.last() == v@);
            assert(forall|k: int| 0 <= k < i ==> before[k] == after[k]);
            assert(after[i as int] == v@);
        }
        match shape {
            VariantShape::NoPayload => {
                all_single = false;
            },
            VariantShape::SinglePayload => {
                all_unit = false;
            },
            VariantShape::Unsupported => {
                all_unit = false;
                all_single = false;
                offending.push(v.name.clone());
                proof {
                    assert(strings_view(offending@) == strings_view(offending_before).push(v.name@));
                }
            },
        }
        i += 1;
    }
    proof {
        assert(decls.take(variants.len() as int) == decls);
    }
    if all_unit {
        return Err(Diagnostic::RedirectToEnumeration);
    }
    if !all_single {
        return Err(Diagnostic::MixedUnionShape(offending));
    }
    let lowered_union = lowercase(name);
    let mut adapters: Vec<Adapter> = Vec::new();
    let ghost wanted = decls.map_values(|v: VariantDeclarationView| adapter_of(name@, v));
    let mut j: usize = 0;
    while j < variants.len()
        invariant
            j <= variants.len(),
            decls == variants_view(variants@),
            all_of_shape(decls, VariantShape::SinglePayload),
            lowered_union@ == lowercase_of(name@),
            wanted == decls.map_values(|v: VariantDeclarationView| adapter_of(name@, v)),
            adapters_view(adapters@) == wanted.take(j as int),
        decreases variants.len() - j,
    {
        let v = &variants[j];
        proof {
            assert(decls[j as int] == v@);
            assert(shape_of(decls[j as int]) == VariantShape::SinglePayload);
        }
        let ghost adapters_before = adapters@;
        match &v.payload {
            VariantPayload::Positional(types) => {
                let lowered_variant = lowercase(v.name.as_str());
                let adapter = make_adapter(
                    v.name.as_str(),
                    &types[0],
                    lowered_union.as_str(),
                    lowered_variant.as_str(),
                );
                proof {
                    assert(payload_of(v@) == types@[0]@);
                    assert(adapter@ == adapter_of(name@, v@));
                    assert(wanted.take(j + 1) == wanted.take(j as int).push(adapter@));
                }
                adapters.push(adapter);
                proof {
                    assert(adapters_view(adapters@) == adapters_view(adapters_before).push(
                        adapters@.last()@,
                    ));
                }
            },
            _ => {
                proof {
                    assert(false);
                }
            },
        }
        j += 1;
    }
    proof {
        assert(wanted.take(variants.len() as int) == wanted);
    }
    Ok(
        UnionArtifact {
            domain_name: name.to_string(),
            host_name: crate::composite::host_name(name),
            interface: interface_name(name),
            adapters,
        },
    )
}

} // verus!
