//! The generator for tagged unions without any payload: a shadow enumeration
//! with the same variants, and the two mappings between it and the domain type.

use vstd::prelude::*;
use vstd::string::*;
use crate::diagnostic::{Diagnostic, DiagnosticView};
use crate::schema::{
    DeclarationBody, DeclarationBodyView, FieldDeclaration, FieldDeclarationView,
    SchemaDeclaration, SchemaDeclarationView, TypeExpr, TypeExprView, VariantDeclaration,
    VariantDeclarationView, VariantPayload, VariantPayloadView, fields_view, types_view,
    variants_view,
};
use crate::text::{
    contains_name, join, joined, lowercase, lowercase_of, option_string_view, strings_view,
};

verus! {

/// The shadow enumeration generated for a domain enumeration.
#[derive(Clone, Debug)]
pub struct ShadowEnumeration {
    /// The declared name of the domain type.
    pub domain_name: String,
    /// The name of the shadow enumeration.
    pub host_name: String,
    /// The namespace segment that holds the generated declarations.
    pub namespace: String,
    /// The variants, the same in both types and in the declared order.
    pub variants: Vec<String>,
}

/// The mathematical value of [`ShadowEnumeration`].
pub struct ShadowEnumerationView {
    pub domain_name: Seq<char>,
    pub host_name: Seq<char>,
    pub namespace: Seq<char>,
    pub variants: Seq<Seq<char>>,
}

impl View for ShadowEnumeration {
    type V = ShadowEnumerationView;

    open spec fn view(&self) -> ShadowEnumerationView {
        ShadowEnumerationView {
            domain_name: self.domain_name@,
            host_name: self.host_name@,
            namespace: self.namespace@,
            variants: strings_view(self.variants@),
        }
    }
}

/// The name of the shadow enumeration of the domain type `name`.
pub open spec fn shadow_name_of(name: Seq<char>) -> Seq<char> {
    name + "AsGdEnum"@
}

/// The namespace segment of a shadow enumeration, from the lower-case form of its name.
pub open spec fn shadow_namespace_text(lowered: Seq<char>) -> Seq<char> {
    "mod_"@ + lowered
}

/// The names of the variants, in order.
pub open spec fn variant_names(variants: Seq<VariantDeclarationView>) -> Seq<Seq<char>> {
    variants.map_values(|v: VariantDeclarationView| v.name)
}

/// The texts of a list of types.
pub open spec fn type_texts(types: Seq<TypeExprView>) -> Seq<Seq<char>> {
    types.map_values(|t: TypeExprView| t.text)
}

/// Named fields, each as `name: type`.
pub open spec fn field_texts(fields: Seq<FieldDeclarationView>) -> Seq<Seq<char>> {
    fields.map_values(|f: FieldDeclarationView| f.name + ": "@ + f.ty.text)
}

/// A variant with a payload, as the diagnostic shows it.
pub open spec fn payload_description(v: VariantDeclarationView) -> Seq<char> {
    match v.payload {
        VariantPayloadView::Unit => v.name,
        VariantPayloadView::Positional(types) => v.name + "("@ + joined(type_texts(types), ", "@)
            + ")"@,
        VariantPayloadView::Named(fields) => v.name + "{"@ + joined(field_texts(fields), ", "@)
            + "}"@,
    }
}

/// The variants that carry a payload, each as the diagnostic shows it, in order.
pub open spec fn payload_variants(variants: Seq<VariantDeclarationView>) -> Seq<Seq<char>>
    decreases variants.len(),
{
    if variants.len() == 0 {
        Seq::empty()
    } else {
        let rest = payload_variants(variants.drop_last());
        if variants.last().payload is Unit {
            rest
        } else {
            rest.push(payload_description(variants.last()))
        }
    }
}

/// What the enumeration generator produces.
///
/// A declaration with type parameters is refused first, then one that is no
/// tagged union, then one with a variant that carries a payload.
pub open spec fn enumeration_expansion(d: SchemaDeclarationView) -> Result<
    ShadowEnumerationView,
    DiagnosticView,
> {
    if d.generic_parameters.len() > 0 {
        Err(DiagnosticView::EnumerationGenerics)
    } else {
        match d.body {
            DeclarationBodyView::TaggedUnion(variants) => {
                let bad = payload_variants(variants);
                if bad.len() > 0 {
                    Err(DiagnosticView::EnumerationPayload(bad))
                } else {
                    Ok(
                        ShadowEnumerationView {
                            domain_name: d.name,
                            host_name: shadow_name_of(d.name),
                            namespace: shadow_namespace_text(lowercase_of(shadow_name_of(d.name))),
                            variants: variant_names(variants),
                        },
                    )
                }
            },
            _ => Err(DiagnosticView::EnumerationKind),
        }
    }
}

/// The view of a generation result.
pub open spec fn enumeration_result_view(r: Result<ShadowEnumeration, Diagnostic>) -> Result<
    ShadowEnumerationView,
    DiagnosticView,
> {
    match r {
        Ok(a) => Ok(a@),
        Err(d) => Err(d@),
    }
}

/// What a mapping between the two enumerations gives for a variant name: the
/// variant of the same name in the other type, where `variants` has it.
pub open spec fn mapped_variant(variants: Seq<Seq<char>>, name: Seq<char>) -> Option<Seq<char>> {
    if variants.contains(name) {
        Some(name)
    } else {
        None
    }
}

/// The texts of a list of types.
pub fn texts_of_types(types: &Vec<TypeExpr>) -> (out: Vec<String>)
    ensures
        strings_view(out@) == type_texts(types_view(types@)),
{
    let ghost wanted = type_texts(types_view(types@));
    let mut out: Vec<String> = Vec::new();
    let mut i: usize = 0;
    while i < types.len()
        invariant
            i <= types.len(),
            wanted == type_texts(types_view(types@)),
            strings_view(out@) == wanted.take(i as int),
        decreases types.len() - i,
    {
        let ghost before = out@;
        out.push(types[i].text.clone());
        proof {
            assert(strings_view(out@) == strings_view(before).push(types[i as int].text@));
            assert(wanted.take(i + 1) == wanted.take(i as int).push(types[i as int].text@));
        }
        i += 1;
    }
    proof {
        assert(wanted.take(types.len() as int) == wanted);
    }
    out
}

/// Named fields, each as `name: type`.
pub fn texts_of_fields(fields: &Vec<FieldDeclaration>) -> (out: Vec<String>)
    ensures
        strings_view(out@) == field_texts(fields_view(fields@)),
{
    let ghost wanted = field_texts(fields_view(fields@));
    let mut out: Vec<String> = Vec::new();
    let mut i: usize = 0;
    while i < fields.len()
        invariant
            i <= fields.len(),
            wanted == field_texts(fields_view(fields@)),
            strings_view(out@) == wanted.take(i as int),
        decreases fields.len() - i,
    {
        let ghost before = out@;
        let mut text = fields[i].name.clone();
        text.append(": ");
        text.append(fields[i].ty.text.as_str());
        proof {
            assert(wanted[i as int] == text@);
            assert(wanted.take(i + 1) == wanted.take(i as int).push(text@));
        }
        out.push(text);
        proof {
            assert(strings_view(out@) == strings_view(before).push(out@.last()@));
        }
        i += 1;
    }
    proof {
        assert(wanted.take(fields.len() as int) == wanted);
    }
    out
}

/// A variant as the diagnostic shows it.
pub fn describe_payload(v: &VariantDeclaration) -> (out: String)
    ensures
        out@ == payload_description(v@),
{
    let mut out = v.name.clone();
    match &v.payload {
        VariantPayload::Unit => {},
        VariantPayload::Positional(types) => {
            out.append("(");
            let texts = texts_of_types(types);
            let list = join(&texts, ", ");
            out.append(list.as_str());
            out.append(")");
        },
        VariantPayload::Named(fields) => {
            out.append("{");
            let texts = texts_of_fields(fields);
            let list = join(&texts, ", ");
            out.append(list.as_str());
            out.append("}");
        },
    }
    out
}

/// The name of the shadow enumeration of the domain type `name`.
pub fn shadow_name(name: &str) -> (out: String)
    ensures
        out@ == shadow_name_of(name@),
{
    let mut out = name.to_string();
    out.append("AsGdEnum");
    out
}

/// The namespace segment of a shadow enumeration, given the lower-case form of its name.
pub fn shadow_namespace(lowered: &str) -> (out: String)
    ensures
        out@ == shadow_namespace_text(lowered@),
{
    let mut out = "mod_".to_string();
    out.append(lowered);
    out
}

/// Generates the shadow enumeration of a tagged union without payloads.
pub fn expand_enumeration(decl: &SchemaDeclaration) -> (result: Result<
    ShadowEnumeration,
    Diagnostic,
>)
    ensures
        enumeration_result_view(result) == enumeration_expansion(decl@),
        result matches Ok(artifact) ==> artifact@.variants.len() == variant_count(decl@),
{
    if decl.generic_parameters.len() > 0 {
        return Err(Diagnostic::EnumerationGenerics);
    }
    let variants = match &decl.body {
        DeclarationBody::TaggedUnion(variants) => variants,
        _ => {
            return Err(Diagnostic::EnumerationKind);
        },
    };
    let ghost decls = variants_view(variants@);
    let ghost wanted = variant_names(decls);
    let mut names: Vec<String> = Vec::new();
    let mut bad: Vec<String> = Vec::new();
    let mut i: usize = 0;
    while i < variants.len()
        invariant
            i <= variants.len(),
            decls == variants_view(variants@),
            wanted == variant_names(decls),
            strings_view(names@) == wanted.take(i as int),
            strings_view(bad@) == payload_variants(decls.take(i as int)),
        decreases variants.len() - i,
    {
        let v = &variants[i];
        let ghost names_before = names@;
        let ghost bad_before = bad@;
        proof {
            assert(decls.take(i + 1).drop_last() == decls.take(i as int));
            assert(decls.take(i + 1).last() == v@);
            assert(wanted.take(i + 1) == wanted.take(i as int).push(v.name@));
        }
        names.push(v.name.clone());
        proof {
            assert(strings_view(names@) == strings_view(names_before).push(v.name@));
        }
        match &v.payload {
            VariantPayload::Unit => {},
            _ => {
                let description = describe_payload(v);
                bad.push(description);
                proof {
                    assert(strings_view(bad@) == strings_view(bad_before).push(bad@.last()@));
                }
            },
        }
        i += 1;
    }
    proof {
        assert(decls.take(variants.len() as int) == decls);
        assert(wanted.take(variants.len() as int) == wanted);
    }
    if bad.len() > 0 {
        return Err(Diagnostic::EnumerationPayload(bad));
    }
    let host_name = shadow_name(decl.name.as_str());
    let lowered = lowercase(host_name.as_str());
    let namespace = shadow_namespace(lowered.as_str());
    Ok(ShadowEnumeration { domain_name: decl.name.clone(), host_name, namespace, variants: names })
}

/// The number of variants that a tagged union declares; 0 for any other declaration.
pub open spec fn variant_count(d: SchemaDeclarationView) -> nat {
    match d.body {
        DeclarationBodyView::TaggedUnion(variants) => variants.len(),
        _ => 0,
    }
}

impl ShadowEnumeration {
    /// The variant of the shadow enumeration that the mapping to the host
    /// gives for a variant of the domain type; `None` for a name that is no variant.
    pub fn to_host(&self, variant: &str) -> (host: Option<String>)
        ensures
            option_string_view(host) == mapped_variant(self@.variants, variant@),
    {
        if contains_name(&self.variants, variant) {
            Some(variant.to_string())
        } else {
            None
        }
    }

    /// The variant of the domain type that the mapping from the host gives
    /// for a variant of the shadow enumeration; `None` for a name that is no variant.
    pub fn from_host(&self, variant: &str) -> (domain: Option<String>)
        ensures
            option_string_view(domain) == mapped_variant(self@.variants, variant@),
    {
        if contains_name(&self.variants, variant) {
            Some(variant.to_string())
        } else {
            None
        }
    }
}

/// The variants of the shadow enumeration, each followed by a comma.
pub open spec fn variant_list_text(variants: Seq<Seq<char>>) -> Seq<char>
    decreases variants.len(),
{
    if variants.len() == 0 {
        Seq::empty()
    } else {
        variant_list_text(variants.drop_last()) + variants.last() + ", "@
    }
}

/// The arms of a mapping from the type `from` to the type `to`: one for each
/// variant, to the variant of the same name.
pub open spec fn arms_text(from: Seq<char>, to: Seq<char>, variants: Seq<Seq<char>>) -> Seq<char>
    decreases variants.len(),
{
    if variants.len() == 0 {
        Seq::empty()
    } else {
        arms_text(from, to, variants.drop_last()) + from + "::"@ + variants.last() + " => "@ + to
            + "::"@ + variants.last() + ", "@
    }
}

/// The conversion from the type `from` into the type `to`.
pub open spec fn conversion_text(from: Seq<char>, to: Seq<char>, variants: Seq<Seq<char>>) -> Seq<
    char,
> {
    "impl From<"@ + from + "> for "@ + to + " { fn from(value: "@ + from + ") -> "@ + to
        + " { match value { "@ + arms_text(from, to, variants) + "} } } "@
}

/// The source text generated for a shadow enumeration.
pub open spec fn enumeration_text(a: ShadowEnumerationView) -> Seq<char> {
    "pub use "@ + a.namespace + "::*; mod "@ + a.namespace + " { use super::"@ + a.domain_name
        + "; use ::godot::prelude::GString; #[derive(::godot::prelude::GodotConvert, ::godot::prelude::Var, ::godot::prelude::Export, Clone, Copy, Debug, PartialEq, Eq)] #[godot(via = GString)] pub enum "@
        + a.host_name + " { "@ + variant_list_text(a.variants)
        + "} impl ::as_gd_res::AsGdEnumSimple for "@ + a.domain_name + " { type GdEnumType = "@
        + a.host_name + "; } impl ::as_gd_res::ExtractGd for "@ + a.host_name
        + " { type Extracted = "@ + a.domain_name
        + "; fn extract(&self) -> Self::Extracted { (*self).into() } } "@ + conversion_text(
        a.domain_name,
        a.host_name,
        a.variants,
    ) + conversion_text(a.host_name, a.domain_name, a.variants) + "impl Default for "@
        + a.host_name + " { fn default() -> Self { "@ + a.domain_name
        + "::default().into() } } }"@
}

/// The source text that the enumeration generator hands back for a declaration.
pub open spec fn enumeration_expansion_text(d: SchemaDeclarationView) -> Seq<char> {
    match enumeration_expansion(d) {
        Ok(a) => enumeration_text(a),
        Err(e) => crate::render::diagnostic_text(e),
    }
}

/// Appends the variants of the shadow enumeration.
fn push_variant_list(out: &mut String, variants: &Vec<String>)
    ensures
        final(out)@ == old(out)@ + variant_list_text(strings_view(variants@)),
{
    let ghost start = out@;
    let ghost views = strings_view(variants@);
    let mut i: usize = 0;
    while i < variants.len()
        invariant
            i <= variants.len(),
            views == strings_view(variants@),
            out@ == start + variant_list_text(views.take(i as int)),
        decreases variants.len() - i,
    {
        proof {
            assert(views.take(i + 1).drop_last() == views.take(i as int));
            assert(views.take(i + 1).last() == variants[i as int]@);
        }
        out.append(variants[i].as_str());
        out.append(", ");
        proof {
            assert(out@ == start + variant_list_text(views.take(i + 1)));
        }
        i += 1;
    }
    proof {
        assert(views.take(variants.len() as int) == views);
    }
}

/// Appends the arms of a mapping.
fn push_arms(out: &mut String, from: &str, to: &str, variants: &Vec<String>)
    ensures
        final(out)@ == old(out)@ + arms_text(from@, to@, strings_view(variants@)),
{
    let ghost start = out@;
    let ghost views = strings_view(variants@);
    let mut i: usize = 0;
    while i < variants.len()
        invariant
            i <= variants.len(),
            views == strings_view(variants@),
            out@ == start + arms_text(from@, to@, views.take(i as int)),
        decreases variants.len() - i,
    {
        proof {
            assert(views.take(i + 1).drop_last() == views.take(i as int));
            assert(views.take(i + 1).last() == variants[i as int]@);
        }
        out.append(from);
        out.append("::");
        out.append(variants[i].as_str());
        out.append(" => ");
        out.append(to);
        out.append("::");
        out.append(variants[i].as_str());
        out.append(", ");
        proof {
            assert(out@ == start + arms_text(from@, to@, views.take(i + 1)));
        }
        i += 1;
    }
    proof {
        assert(views.take(variants.len() as int) == views);
    }
}

/// The conversion from the type `from` into the type `to`.
pub fn render_conversion(from: &str, to: &str, variants: &Vec<String>) -> (out: String)
    ensures
        out@ == conversion_text(from@, to@, strings_view(variants@)),
{
    let mut out = "impl From<".to_string();
    out.append(from);
    out.append("> for ");
    out.append(to);
    out.append(" { fn from(value: ");
    out.append(from);
    out.append(") -> ");
    out.append(to);
    out.append(" { match value { ");
    push_arms(&mut out, from, to, variants);
    out.append("} } } ");
    out
}

/// The source text generated for a shadow enumeration.
pub fn render_enumeration(a: &ShadowEnumeration) -> (out: String)
    ensures
        out@ == enumeration_text(a@),
{
    let mut out = "pub use ".to_string();
    out.append(a.namespace.as_str());
    out.append("::*; mod ");
    out.append(a.namespace.as_str());
    out.append(" { use super::");
    out.append(a.domain_name.as_str());
    out.append(
        "; use ::godot::prelude::GString; #[derive(::godot::prelude::GodotConvert, ::godot::prelude::Var, ::godot::prelude::Export, Clone, Copy, Debug, PartialEq, Eq)] #[godot(via = GString)] pub enum ",
    );
    out.append(a.host_name.as_str());
    out.append(" { ");
    push_variant_list(&mut out, &a.variants);
    out.append("} impl ::as_gd_res::AsGdEnumSimple for ");
    out.append(a.domain_name.as_str());
    out.append(" { type GdEnumType = ");
    out.append(a.host_name.as_str());
    out.append("; } impl ::as_gd_res::ExtractGd for ");
    out.append(a.host_name.as_str());
    out.append(" { type Extracted = ");
    out.append(a.domain_name.as_str());
    out.append("; fn extract(&self) -> Self::Extracted { (*self).into() } } ");
    let to_host = render_conversion(a.domain_name.as_str(), a.host_name.as_str(), &a.variants);
    out.append(to_host.as_str());
    let from_host = render_conversion(a.host_name.as_str(), a.domain_name.as_str(), &a.variants);
    out.append(from_host.as_str());
    out.append("impl Default for ");
    out.append(a.host_name.as_str());
    out.append(" { fn default() -> Self { ");
    out.append(a.domain_name.as_str());
    out.append("::default().into() } } }");
    out
}

/// Expands one declaration into the source text of its shadow enumeration,
/// or into the report of the diagnostic.
pub fn expand_as_gd_res(decl: &SchemaDeclaration) -> (out: String)
    ensures
        out@ == enumeration_expansion_text(decl@),
{
    match expand_enumeration(decl) {
        Ok(a) => render_enumeration(&a),
        Err(e) => crate::render::render_diagnostic(&e),
    }
}

} // verus!
