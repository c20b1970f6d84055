//! What generation produces for one declaration: the host-side record or the
//! dispatch interface with its adapters.

use vstd::prelude::*;
use crate::text::{option_string_view, strings_view};

verus! {

/// The part that a field plays in a generated record.
#[derive(Clone, Copy, Debug, PartialEq, Eq, Structural)]
pub enum FieldRole {
    /// The handle to the host object that every generated record starts with.
    Header,
    /// The host representation of one declared field.
    Data,
}

/// One field of a generated record.
#[derive(Clone, Debug)]
pub struct GeneratedField {
    pub role: FieldRole,
    pub name: String,
    /// For a data field the domain type whose host representation the field
    /// has; empty for the header.
    pub domain_type: String,
    /// The annotations on the field, each as written.
    pub annotations: Vec<String>,
}

/// The mathematical value of [`GeneratedField`].
pub struct GeneratedFieldView {
    pub role: FieldRole,
    pub name: Seq<char>,
    pub domain_type: Seq<char>,
    pub annotations: Seq<Seq<char>>,
}

impl View for GeneratedField {
    type V = GeneratedFieldView;

    open spec fn view(&self) -> GeneratedFieldView {
        GeneratedFieldView {
            role: self.role,
            name: self.name@,
            domain_type: self.domain_type@,
            annotations: strings_view(self.annotations@),
        }
    }
}

/// The mathematical values of a sequence, element by element.
pub open spec fn generated_fields_view(fields: Seq<GeneratedField>) -> Seq<GeneratedFieldView> {
    fields.map_values(|f: GeneratedField| f@)
}

/// How the explicit constructor sets one field: to its initial-value literal,
/// or to the type's default where `value` is `None`.
#[derive(Clone, Debug)]
pub struct FieldInitializer {
    pub name: String,
    pub value: Option<String>,
}

/// The mathematical value of [`FieldInitializer`].
pub struct FieldInitializerView {
    pub name: Seq<char>,
    pub value: Option<Seq<char>>,
}

impl View for FieldInitializer {
    type V = FieldInitializerView;

    open spec fn view(&self) -> FieldInitializerView {
        FieldInitializerView { name: self.name@, value: option_string_view(self.value) }
    }
}

/// The mathematical values of a sequence, element by element.
pub open spec fn initializers_view(items: Seq<FieldInitializer>) -> Seq<FieldInitializerView> {
    items.map_values(|f: FieldInitializer| f@)
}

/// How a generated record is constructed.
#[derive(Clone, Debug)]
pub enum Construction {
    /// By the host's default-construction convention.
    HostDefault,
    /// By an explicit constructor: the header, then each field by its
    /// initializer, then one call of the hook on the new value.
    Hooked { initializers: Vec<FieldInitializer>, hook: String },
}

/// The mathematical value of [`Construction`].
pub enum ConstructionView {
    HostDefault,
    Hooked { initializers: Seq<FieldInitializerView>, hook: Seq<char> },
}

impl View for Construction {
    type V = ConstructionView;

    open spec fn view(&self) -> ConstructionView {
        match self {
            Construction::HostDefault => ConstructionView::HostDefault,
            Construction::Hooked { initializers, hook } => ConstructionView::Hooked {
                initializers: initializers_view(initializers@),
                hook: hook@,
            },
        }
    }
}

/// The host-side record generated for a composite declaration.
#[derive(Clone, Debug)]
pub struct CompositeArtifact {
    /// The declared name of the domain type.
    pub domain_name: String,
    /// The domain type with its bound type arguments.
    pub domain_type: String,
    /// The name of the generated record.
    pub host_name: String,
    /// The header, then one field for each declared field, in order.
    pub fields: Vec<GeneratedField>,
    pub construction: Construction,
}

/// The mathematical value of [`CompositeArtifact`].
pub struct CompositeArtifactView {
    pub domain_name: Seq<char>,
    pub domain_type: Seq<char>,
    pub host_name: Seq<char>,
    pub fields: Seq<GeneratedFieldView>,
    pub construction: ConstructionView,
}

impl View for CompositeArtifact {
    type V = CompositeArtifactView;

    open spec fn view(&self) -> CompositeArtifactView {
        CompositeArtifactView {
            domain_name: self.domain_name@,
            domain_type: self.domain_type@,
            host_name: self.host_name@,
            fields: generated_fields_view(self.fields@),
            construction: self.construction@,
        }
    }
}

/// The implementation of a union's dispatch interface for one variant.
#[derive(Clone, Debug)]
pub struct Adapter {
    /// The variant that the adapter builds.
    pub variant: String,
    /// The generated record of the payload type, for which the interface is implemented.
    pub target: String,
    /// The namespace segment that holds the implementation.
    pub namespace: String,
}

/// The mathematical value of [`Adapter`].
pub struct AdapterView {
    pub variant: Seq<char>,
    pub target: Seq<char>,
    pub namespace: Seq<char>,
}

impl View for Adapter {
    type V = AdapterView;

    open spec fn view(&self) -> AdapterView {
        AdapterView { variant: self.variant@, target: self.target@, namespace: self.namespace@ }
    }
}

/// The mathematical values of a sequence, element by element.
pub open spec fn adapters_view(adapters: Seq<Adapter>) -> Seq<AdapterView> {
    adapters.map_values(|a: Adapter| a@)
}

/// The dispatch interface and adapters generated for a tagged union.
#[derive(Clone, Debug)]
pub struct UnionArtifact {
    /// The declared name of the domain type.
    pub domain_name: String,
    /// The name of the host representation: an alias of a dynamic handle over the interface.
    pub host_name: String,
    /// The name of the dispatch interface.
    pub interface: String,
    /// One adapter for each variant, in order.
    pub adapters: Vec<Adapter>,
}

/// The mathematical value of [`UnionArtifact`].
pub struct UnionArtifactView {
    pub domain_name: Seq<char>,
    pub host_name: Seq<char>,
    pub interface: Seq<char>,
    pub adapters: Seq<AdapterView>,
}

impl View for UnionArtifact {
    type V = UnionArtifactView;

    open spec fn view(&self) -> UnionArtifactView {
        UnionArtifactView {
            domain_name: self.domain_name@,
            host_name: self.host_name@,
            interface: self.interface@,
            adapters: adapters_view(self.adapters@),
        }
    }
}

/// What is generated for one declaration.
#[derive(Clone, Debug)]
pub enum GeneratedArtifact {
    Composite(CompositeArtifact),
    Union(UnionArtifact),
}

/// The mathematical value of [`GeneratedArtifact`].
pub enum GeneratedArtifactView {
    Composite(CompositeArtifactView),
    Union(UnionArtifactView),
}

impl View for GeneratedArtifact {
    type V = GeneratedArtifactView;

    open spec fn view(&self) -> GeneratedArtifactView {
        match self {
            GeneratedArtifact::Composite(a) => GeneratedArtifactView::Composite(a@),
            GeneratedArtifact::Union(a) => GeneratedArtifactView::Union(a@),
        }
    }
}

} // verus!
