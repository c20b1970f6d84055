//! The generated declarations as source text.

use vstd::prelude::*;
use vstd::string::*;
use crate::artifact::{
    Adapter, AdapterView, CompositeArtifact, CompositeArtifactView, Construction,
    ConstructionView, FieldInitializer, FieldInitializerView, FieldRole, GeneratedArtifact,
    GeneratedArtifactView, GeneratedField, GeneratedFieldView, UnionArtifact, UnionArtifactView,
    adapters_view, generated_fields_view, initializers_view,
};
use crate::diagnostic::{Diagnostic, DiagnosticView, message_of};
use crate::registry::{TypeBinding, TypeBindingView, artifact_binding, artifact_binding_of};
use crate::text::{quote_string, string_literal, strings_view};

verus! {

/// The texts of `items`, each followed by a space.
pub open spec fn spaced(items: Seq<Seq<char>>) -> Seq<char>
    decreases items.len(),
{
    if items.len() == 0 {
        Seq::empty()
    } else {
        spaced(items.drop_last()) + items.last() + " "@
    }
}

/// The type of a generated field: the host's handle type for the header, the
/// host representation of the domain type for a data field.
pub open spec fn field_type_text(f: GeneratedFieldView) -> Seq<char> {
    match f.role {
        FieldRole::Header => "::godot::obj::Base<::godot::classes::Resource>"@,
        FieldRole::Data => "< "@ + f.domain_type + " as ::as_gd_res::AsGdRes>::ResType"@,
    }
}

/// The visibility of a generated field.
pub open spec fn field_visibility_text(f: GeneratedFieldView) -> Seq<char> {
    match f.role {
        FieldRole::Header => Seq::empty(),
        FieldRole::Data => "pub "@,
    }
}

/// One field of the generated record: its annotations, then its declaration.
pub open spec fn field_text(f: GeneratedFieldView) -> Seq<char> {
    spaced(f.annotations) + field_visibility_text(f) + f.name + ": "@ + field_type_text(f) + ", "@
}

/// The fields of the generated record, in order.
pub open spec fn fields_text(fields: Seq<GeneratedFieldView>) -> Seq<char>
    decreases fields.len(),
{
    if fields.len() == 0 {
        Seq::empty()
    } else {
        fields_text(fields.drop_last()) + field_text(fields.last())
    }
}

/// The part of the extraction that builds one domain field from its generated field.
pub open spec fn extraction_text(f: GeneratedFieldView) -> Seq<char> {
    match f.role {
        FieldRole::Header => Seq::empty(),
        FieldRole::Data => f.name + ": self."@ + f.name + ".extract(), "@,
    }
}

/// The body of the extraction: one part for each data field, in order.
pub open spec fn extractions_text(fields: Seq<GeneratedFieldView>) -> Seq<char>
    decreases fields.len(),
{
    if fields.len() == 0 {
        Seq::empty()
    } else {
        extractions_text(fields.drop_last()) + extraction_text(fields.last())
    }
}

/// How the explicit constructor sets one field.
pub open spec fn initializer_text(f: FieldInitializerView) -> Seq<char> {
    match f.value {
        Some(literal) => f.name + ": "@ + literal + " .into(), "@,
        None => f.name + ": Default::default(), "@,
    }
}

/// The field initializers of the explicit constructor, in order.
pub open spec fn initializers_text(items: Seq<FieldInitializerView>) -> Seq<char>
    decreases items.len(),
{
    if items.len() == 0 {
        Seq::empty()
    } else {
        initializers_text(items.drop_last()) + initializer_text(items.last())
    }
}

/// The class annotation of the generated record: with the host's default
/// construction unless an explicit constructor is generated.
pub open spec fn class_annotation_text(c: ConstructionView) -> Seq<char> {
    match c {
        ConstructionView::HostDefault => "#[class(tool,init,base = Resource)] "@,
        ConstructionView::Hooked { .. } => "#[class(tool,base = Resource)] "@,
    }
}

/// The explicit constructor, where there is one.
pub open spec fn constructor_text(host_name: Seq<char>, c: ConstructionView) -> Seq<char> {
    match c {
        ConstructionView::HostDefault => Seq::empty(),
        ConstructionView::Hooked { initializers, hook } => "#[godot_api] impl ::godot::prelude::IResource for "@
            + host_name
            + " { fn init(base: ::godot::prelude::Base<::godot::prelude::Resource>) -> Self { let mut res = Self { base, "@
            + initializers_text(initializers) + "}; res."@ + hook + "(); res } }"@,
    }
}

/// The registration of a form of the domain type with the binding trait
/// `interface`, whose associated type `member` is the host type; nothing
/// where the binding lacks the form.
pub open spec fn form_registration_text(
    interface: Seq<char>,
    member: Seq<char>,
    domain: Seq<char>,
    host_type: Option<Seq<char>>,
) -> Seq<char> {
    match host_type {
        Some(host) => "impl ::as_gd_res::"@ + interface + " for "@ + domain + " { type "@ + member
            + " = "@ + host + "; } "@,
        None => Seq::empty(),
    }
}

/// The registrations of a binding: of the type itself, of its optional form
/// and of its list form.
pub open spec fn registrations_text(b: TypeBindingView) -> Seq<char> {
    form_registration_text("AsGdRes"@, "ResType"@, b.domain, Some(b.direct))
        + form_registration_text("AsGdResOpt"@, "GdOption"@, b.domain, b.optional)
        + form_registration_text("AsGdResArray"@, "GdArray"@, b.domain, b.list)
}

/// The handle through which the host refers to a generated record.
pub open spec fn record_handle_text(host_name: Seq<char>) -> Seq<char> {
    "::godot::obj::Gd<"@ + host_name + ">"@
}

/// The source text of a generated record with its registrations, its
/// extraction and, where there is one, its explicit constructor.
pub open spec fn composite_text(a: CompositeArtifactView) -> Seq<char> {
    registrations_text(artifact_binding_of(a.domain_type, record_handle_text(a.host_name)))
        + "#[derive(::godot::prelude::GodotClass)] "@ + class_annotation_text(a.construction)
        + "pub struct "@ + a.host_name + " { "@ + fields_text(a.fields)
        + "} impl ::as_gd_res::ExtractGd for "@ + a.host_name + " { type Extracted = "@
        + a.domain_type
        + "; fn extract(&self) -> Self::Extracted { use ::as_gd_res::ExtractGd; Self::Extracted { "@
        + extractions_text(a.fields) + "} } } "@ + constructor_text(a.host_name, a.construction)
}

/// Appends each text of `items`, followed by a space.
fn push_spaced(out: &mut String, items: &Vec<String>)
    ensures
        final(out)@ == old(out)@ + spaced(strings_view(items@)),
{
    let ghost start = out@;
    let ghost views = strings_view(items@);
    let mut i: usize = 0;
    while i < items.len()
        invariant
            i <= items.len(),
            views == strings_view(items@),
            out@ == start + spaced(views.take(i as int)),
        decreases items.len() - i,
    {
        proof {
            assert(views.take(i + 1).drop_last() == views.take(i as int));
            assert(views.take(i + 1).last() == items[i as int]@);
        }
        out.append(items[i].as_str());
        out.append(" ");
        proof {
            assert(out@ == start + spaced(views.take(i + 1)));
        }
        i += 1;
    }
    proof {
        assert(views.take(items.len() as int) == views);
    }
}

/// The source text of one generated field.
pub fn render_field(f: &GeneratedField) -> (out: String)
    ensures
        out@ == field_text(f@),
{
    let mut out = String::new();
    push_spaced(&mut out, &f.annotations);
    proof {
        assert(out@ == spaced(f@.annotations));
    }
    match f.role {
        FieldRole::Header => {
            proof {
                assert(out@ == spaced(f@.annotations) + field_visibility_text(f@));
            }
            out.append(f.name.as_str());
            out.append(": ");
            out.append("::godot::obj::Base<::godot::classes::Resource>");
        },
        FieldRole::Data => {
            out.append("pub ");
            out.append(f.name.as_str());
            out.append(": ");
            let mut ty = "< ".to_string();
            ty.append(f.domain_type.as_str());
            ty.append(" as ::as_gd_res::AsGdRes>::ResType");
            out.append(ty.as_str());
        },
    }
    out.append(", ");
    out
}

/// Appends the source text of the fields of a generated record.
fn push_fields(out: &mut String, fields: &Vec<GeneratedField>)
    ensures
        final(out)@ == old(out)@ + fields_text(generated_fields_view(fields@)),
{
    let ghost start = out@;
    let ghost views = generated_fields_view(fields@);
    let mut i: usize = 0;
    while i < fields.len()
        invariant
            i <= fields.len(),
            views == generated_fields_view(fields@),
            out@ == start + fields_text(views.take(i as int)),
        decreases fields.len() - i,
    {
        proof {
            assert(views.take(i + 1).drop_last() == views.take(i as int));
            assert(views.take(i + 1).last() == fields[i as int]@);
        }
        let text = render_field(&fields[i]);
        out.append(text.as_str());
        proof {
            assert(out@ == start + fields_text(views.take(i + 1)));
        }
        i += 1;
    }
    proof {
        assert(views.take(fields.len() as int) == views);
    }
}

/// Appends the body of the extraction.
fn push_extractions(out: &mut String, fields: &Vec<GeneratedField>)
    ensures
        final(out)@ == old(out)@ + extractions_text(generated_fields_view(fields@)),
{
    let ghost start = out@;
    let ghost views = generated_fields_view(fields@);
    let mut i: usize = 0;
    while i < fields.len()
        invariant
            i <= fields.len(),
            views == generated_fields_view(fields@),
            out@ == start + extractions_text(views.take(i as int)),
        decreases fields.len() - i,
    {
        proof {
            assert(views.take(i + 1).drop_last() == views.take(i as int));
            assert(views.take(i + 1).last() == fields[i as int]@);
        }
        let f = &fields[i];
        let mut text = String::new();
        match f.role {
            FieldRole::Header => {},
            FieldRole::Data => {
                text.append(f.name.as_str());
                text.append(": self.");
                text.append(f.name.as_str());
                text.append(".extract(), ");
                proof {
                    assert(text@ == f.name@ + ": self."@ + f.name@ + ".extract(), "@);
                }
            },
        }
        out.append(text.as_str());
        proof {
            assert(text@ == extraction_text(f@));
            assert(out@ == start + extractions_text(views.take(i + 1)));
        }
        i += 1;
    }
    proof {
        assert(views.take(fields.len() as int) == views);
    }
}

/// Appends the field initializers of the explicit constructor.
fn push_initializers(out: &mut String, items: &Vec<FieldInitializer>)
    ensures
        final(out)@ == old(out)@ + initializers_text(initializers_view(items@)),
{
    let ghost start = out@;
    let ghost views = initializers_view(items@);
    let mut i: usize = 0;
    while i < items.len()
        invariant
            i <= items.len(),
            views == initializers_view(items@),
            out@ == start + initializers_text(views.take(i as int)),
        decreases items.len() - i,
    {
        proof {
            assert(views.take(i + 1).drop_last() == views.take(i as int));
            assert(views.take(i + 1).last() == items[i as int]@);
        }
        let f = &items[i];
        let mut text = f.name.clone();
        match &f.value {
            Some(literal) => {
                text.append(": ");
                text.append(literal.as_str());
                text.append(" .into(), ");
            },
            None => {
                text.append(": Default::default(), ");
            },
        }
        out.append(text.as_str());
        proof {
            assert(text@ == initializer_text(f@));
            assert(out@ == start + initializers_text(views.take(i + 1)));
        }
        i += 1;
    }
    proof {
        assert(views.take(items.len() as int) == views);
    }
}

/// The registration of one form of a domain type.
pub fn render_form_registration(
    interface: &str,
    member: &str,
    domain: &str,
    host_type: Option<&str>,
) -> (out: String)
    ensures
        out@ == form_registration_text(
            interface@,
            member@,
            domain@,
            crate::composite::name_view(host_type),
        ),
{
    match host_type {
        Some(host) => {
            let mut out = "impl ::as_gd_res::".to_string();
            out.append(interface);
            out.append(" for ");
            out.append(domain);
            out.append(" { type ");
            out.append(member);
            out.append(" = ");
            out.append(host);
            out.append("; } ");
            out
        },
        None => String::new(),
    }
}

/// The registrations of a binding.
pub fn render_registrations(b: &TypeBinding) -> (out: String)
    ensures
        out@ == registrations_text(b@),
{
    let domain = b.domain.as_str();
    let mut out = render_form_registration("AsGdRes", "ResType", domain, Some(b.direct.as_str()));
    let optional: Option<&str> = match &b.optional {
        Some(s) => Some(s.as_str()),
        None => None,
    };
    let second = render_form_registration("AsGdResOpt", "GdOption", domain, optional);
    out.append(second.as_str());
    let list: Option<&str> = match &b.list {
        Some(s) => Some(s.as_str()),
        None => None,
    };
    let third = render_form_registration("AsGdResArray", "GdArray", domain, list);
    out.append(third.as_str());
    out
}

/// The explicit constructor of a generated record, empty where the host constructs it.
pub fn render_constructor(host_name: &str, construction: &Construction) -> (out: String)
    ensures
        out@ == constructor_text(host_name@, construction@),
{
    match construction {
        Construction::HostDefault => String::new(),
        Construction::Hooked { initializers, hook } => {
            let mut out = "#[godot_api] impl ::godot::prelude::IResource for ".to_string();
            out.append(host_name);
            out.append(
                " { fn init(base: ::godot::prelude::Base<::godot::prelude::Resource>) -> Self { let mut res = Self { base, ",
            );
            push_initializers(&mut out, initializers);
            out.append("}; res.");
            out.append(hook.as_str());
            out.append("(); res } }");
            out
        },
    }
}

/// The source text generated for a composite declaration.
pub fn render_composite(a: &CompositeArtifact) -> (out: String)
    ensures
        out@ == composite_text(a@),
{
    let mut handle = "::godot::obj::Gd<".to_string();
    handle.append(a.host_name.as_str());
    handle.append(">");
    let binding = artifact_binding(a.domain_type.as_str(), handle.as_str());
    let mut out = render_registrations(&binding);
    out.append("#[derive(::godot::prelude::GodotClass)] ");
    match &a.construction {
        Construction::HostDefault => {
            out.append("#[class(tool,init,base = Resource)] ");
        },
        Construction::Hooked { .. } => {
            out.append("#[class(tool,base = Resource)] ");
        },
    }
    out.append("pub struct ");
    out.append(a.host_name.as_str());
    out.append(" { ");
    push_fields(&mut out, &a.fields);
    out.append("} impl ::as_gd_res::ExtractGd for ");
    out.append(a.host_name.as_str());
    out.append(" { type Extracted = ");
    out.append(a.domain_type.as_str());
    out.append(
        "; fn extract(&self) -> Self::Extracted { use ::as_gd_res::ExtractGd; Self::Extracted { ",
    );
    push_extractions(&mut out, &a.fields);
    out.append("} } } ");
    let constructor = render_constructor(a.host_name.as_str(), &a.construction);
    out.append(constructor.as_str());
    out
}

/// The source text of one adapter: the implementation of `interface` for the
/// payload's generated record, in a namespace segment of its own.
pub open spec fn adapter_text(domain_name: Seq<char>, interface: Seq<char>, a: AdapterView) -> Seq<
    char,
> {
    "pub mod "@ + a.namespace
        + " { use super::*; use ::godot::prelude::godot_dyn; #[godot_dyn] impl "@ + interface
        + " for "@ + a.target + " { fn extract_enum_variant(&self) -> "@ + domain_name + " { "@
        + domain_name + "::"@ + a.variant + "(self.extract()) } } } "@
}

/// The source text of the adapters, in order.
pub open spec fn adapters_text(
    domain_name: Seq<char>,
    interface: Seq<char>,
    adapters: Seq<AdapterView>,
) -> Seq<char>
    decreases adapters.len(),
{
    if adapters.len() == 0 {
        Seq::empty()
    } else {
        adapters_text(domain_name, interface, adapters.drop_last()) + adapter_text(
            domain_name,
            interface,
            adapters.last(),
        )
    }
}

/// The source text generated for a tagged union: the dispatch interface, the
/// alias of the host representation, the registrations, the extraction
/// through the interface, and the adapters.
pub open spec fn union_text(a: UnionArtifactView) -> Seq<char> {
    "pub trait "@ + a.interface + " { fn extract_enum_variant(&self) -> "@ + a.domain_name
        + "; } type "@ + a.host_name
        + " = ::godot::obj::DynGd<::godot::classes::Resource, dyn "@ + a.interface + ">; "@
        + registrations_text(artifact_binding_of(a.domain_name, a.host_name))
        + "impl ::as_gd_res::ExtractGd for dyn "@
        + a.interface + " { type Extracted = "@ + a.domain_name
        + "; fn extract(&self) -> Self::Extracted { self.extract_enum_variant() } } "@
        + adapters_text(a.domain_name, a.interface, a.adapters)
}

/// The source text generated for a declaration.
pub open spec fn artifact_text(a: GeneratedArtifactView) -> Seq<char> {
    match a {
        GeneratedArtifactView::Composite(c) => composite_text(c),
        GeneratedArtifactView::Union(u) => union_text(u),
    }
}

/// The source text that reports a diagnostic to the compiler.
pub open spec fn diagnostic_text(d: DiagnosticView) -> Seq<char> {
    "compile_error!("@ + string_literal(message_of(d)) + ");"@
}

/// The source text of one adapter.
pub fn render_adapter(domain_name: &str, interface: &str, a: &Adapter) -> (out: String)
    ensures
        out@ == adapter_text(domain_name@, interface@, a@),
{
    let mut out = "pub mod ".to_string();
    out.append(a.namespace.as_str());
    out.append(" { use super::*; use ::godot::prelude::godot_dyn; #[godot_dyn] impl ");
    out.append(interface);
    out.append(" for ");
    out.append(a.target.as_str());
    out.append(" { fn extract_enum_variant(&self) -> ");
    out.append(domain_name);
    out.append(" { ");
    out.append(domain_name);
    out.append("::");
    out.append(a.variant.as_str());
    out.append("(self.extract()) } } } ");
    out
}

/// Appends the source text of the adapters.
fn push_adapters(out: &mut String, domain_name: &str, interface: &str, adapters: &Vec<Adapter>)
    ensures
        final(out)@ == old(out)@ + adapters_text(domain_name@, interface@, adapters_view(adapters@)),
{
    let ghost start = out@;
    let ghost views = adapters_view(adapters@);
    let mut i: usize = 0;
    while i < adapters.len()
        invariant
            i <= adapters.len(),
            views == adapters_view(adapters@),
            out@ == start + adapters_text(domain_name@, interface@, views.take(i as int)),
        decreases adapters.len() - i,
    {
        proof {
            assert(views.take(i + 1).drop_last() == views.take(i as int));
            assert(views.take(i + 1).last() == adapters[i as int]@);
        }
        let text = render_adapter(domain_name, interface, &adapters[i]);
        out.append(text.as_str());
        proof {
            assert(out@ == start + adapters_text(domain_name@, interface@, views.take(i + 1)));
        }
        i += 1;
    }
    proof {
        assert(views.take(adapters.len() as int) == views);
    }
}

/// The source text generated for a tagged union.
pub fn render_union(a: &UnionArtifact) -> (out: String)
    ensures
        out@ == union_text(a@),
{
    let mut out = "pub trait ".to_string();
    out.append(a.interface.as_str());
    out.append(" { fn extract_enum_variant(&self) -> ");
    out.append(a.domain_name.as_str());
    out.append("; } type ");
    out.append(a.host_name.as_str());
    out.append(" = ::godot::obj::DynGd<::godot::classes::Resource, dyn ");
    out.append(a.interface.as_str());
    out.append(">; ");
    let binding = artifact_binding(a.domain_name.as_str(), a.host_name.as_str());
    let registrations = render_registrations(&binding);
    out.append(registrations.as_str());
    out.append("impl ::as_gd_res::ExtractGd for dyn ");
    out.append(a.interface.as_str());
    out.append(" { type Extracted = ");
    out.append(a.domain_name.as_str());
    out.append("; fn extract(&self) -> Self::Extracted { self.extract_enum_variant() } } ");
    push_adapters(&mut out, a.domain_name.as_str(), a.interface.as_str(), &a.adapters);
    out
}

/// The source text generated for a declaration.
pub fn render_artifact(a: &GeneratedArtifact) -> (out: String)
    ensures
        out@ == artifact_text(a@),
{
    match a {
        GeneratedArtifact::Composite(c) => render_composite(c),
        GeneratedArtifact::Union(u) => render_union(u),
    }
}

/// The source text that reports a diagnostic to the compiler.
pub fn render_diagnostic(d: &Diagnostic) -> (out: String)
    ensures
        out@ == diagnostic_text(d@),
{
    let mut out = "compile_error!(".to_string();
    let message = d.message();
    let literal = quote_string(message.as_str());
    out.append(literal.as_str());
    out.append(");");
    out
}

} // verus!
