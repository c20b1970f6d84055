//! The type mapping resolver: the bindings from domain types to their host
//! representations, and the resolution of a type expression against them.

use vstd::prelude::*;
use vstd::string::*;
use crate::diagnostic::{Diagnostic, DiagnosticView};
use crate::schema::{TypeExpr, TypeExprView};
use crate::text::{option_string_view, str_equal};
use crate::token::{Token, TokenKind, TokenView, tokens_view};

verus! {

/// How a value crosses between a domain type and its host representation.
#[derive(Clone, Copy, Debug, PartialEq, Eq, Structural)]
pub enum Conversion {
    /// The value is its own host representation: wrap and extract are the identity.
    Identity,
    /// The host holds a text value of its own kind: wrap and extract copy the characters.
    Text,
    /// The host holds a generated artifact: wrap and extract are the artifact's own.
    Artifact,
}

/// The association of a domain type with its host representation.
#[derive(Clone, Debug)]
pub struct TypeBinding {
    /// The domain type, as written.
    pub domain: String,
    /// The host type of a value of the domain type.
    pub direct: String,
    /// The host type of an optional value, where the host has one.
    pub optional: Option<String>,
    /// The host type of a list of values, where the host has one.
    pub list: Option<String>,
    pub conversion: Conversion,
}

/// The mathematical value of [`TypeBinding`].
pub struct TypeBindingView {
    pub domain: Seq<char>,
    pub direct: Seq<char>,
    pub optional: Option<Seq<char>>,
    pub list: Option<Seq<char>>,
    pub conversion: Conversion,
}

impl View for TypeBinding {
    type V = TypeBindingView;

    open spec fn view(&self) -> TypeBindingView {
        TypeBindingView {
            domain: self.domain@,
            direct: self.direct@,
            optional: option_string_view(self.optional),
            list: option_string_view(self.list),
            conversion: self.conversion,
        }
    }
}

/// The mathematical values of a sequence, element by element.
pub open spec fn type_bindings_view(bindings: Seq<TypeBinding>) -> Seq<TypeBindingView> {
    bindings.map_values(|b: TypeBinding| b@)
}

/// How the converted value is held, by the shape of the domain type.
#[derive(Clone, Copy, Debug, PartialEq, Eq, Structural)]
pub enum Lifting {
    /// The value itself.
    Direct,
    /// A value that may be absent: the conversion applies to the value inside.
    EachOptional,
    /// A list of values: the conversion applies to each element.
    EachElement,
    /// A value in a slot that must be assigned before it is first read.
    LazySlot,
}

/// What a domain type expression resolves to.
#[derive(Clone, Debug)]
pub struct Resolution {
    pub host_type: String,
    pub conversion: Conversion,
    pub lifting: Lifting,
}

/// The mathematical value of [`Resolution`].
pub struct ResolutionView {
    pub host_type: Seq<char>,
    pub conversion: Conversion,
    pub lifting: Lifting,
}

impl View for Resolution {
    type V = ResolutionView;

    open spec fn view(&self) -> ResolutionView {
        ResolutionView {
            host_type: self.host_type@,
            conversion: self.conversion,
            lifting: self.lifting,
        }
    }
}

/// The mathematical value of an optional value.
pub open spec fn option_resolution_view(r: Option<Resolution>) -> Option<ResolutionView> {
    match r {
        Some(r) => Some(r@),
        None => None,
    }
}

/// Whether `name` is a primitive type that is its own host representation.
pub open spec fn is_primitive(name: Seq<char>) -> bool {
    ||| name == "i8"@
    ||| name == "i16"@
    ||| name == "i32"@
    ||| name == "i64"@
    ||| name == "u8"@
    ||| name == "u16"@
    ||| name == "u32"@
    ||| name == "f32"@
    ||| name == "f64"@
    ||| name == "bool"@
}

/// The host type of a list whose elements have the host type `element`.
pub open spec fn list_host_type(element: Seq<char>) -> Seq<char> {
    "::godot::prelude::Array<"@ + element + ">"@
}

/// The host type of a lazily assigned slot that holds the host type `inner`.
pub open spec fn slot_host_type(inner: Seq<char>) -> Seq<char> {
    "::godot::prelude::OnEditor<"@ + inner + ">"@
}

/// The binding that a type has without any registration: a primitive is its
/// own host representation and has a list form; text has the host's text type.
pub open spec fn intrinsic_binding(name: Seq<char>) -> Option<TypeBindingView> {
    if is_primitive(name) {
        Some(
            TypeBindingView {
                domain: name,
                direct: name,
                optional: None,
                list: Some(list_host_type(name)),
                conversion: Conversion::Identity,
            },
        )
    } else if name == "String"@ {
        Some(
            TypeBindingView {
                domain: name,
                direct: "::godot::prelude::GString"@,
                optional: None,
                list: None,
                conversion: Conversion::Text,
            },
        )
    } else {
        None
    }
}

/// The host type of an optional value whose host type is `inner`.
pub open spec fn optional_host_type(inner: Seq<char>) -> Seq<char> {
    "Option<"@ + inner + ">"@
}

/// The binding that a generated artifact registers for its domain type, by
/// the handle through which the host refers to the artifact: the lazily
/// assigned slot of the handle for the type itself, the optional handle and
/// the list of handles.
pub open spec fn artifact_binding_of(domain: Seq<char>, handle: Seq<char>) -> TypeBindingView {
    TypeBindingView {
        domain,
        direct: slot_host_type(handle),
        optional: Some(optional_host_type(handle)),
        list: Some(list_host_type(handle)),
        conversion: Conversion::Artifact,
    }
}

/// The first entry for `name` at or behind `from`.
pub open spec fn registered_from(entries: Seq<TypeBindingView>, name: Seq<char>, from: int) -> Option<
    TypeBindingView,
>
    decreases entries.len() - from,
{
    if from < 0 || from >= entries.len() {
        None
    } else if entries[from].domain == name {
        Some(entries[from])
    } else {
        registered_from(entries, name, from + 1)
    }
}

/// The binding of the domain type `name`: the intrinsic one, or the registered one.
pub open spec fn binding_of(entries: Seq<TypeBindingView>, name: Seq<char>) -> Option<
    TypeBindingView,
> {
    match intrinsic_binding(name) {
        Some(b) => Some(b),
        None => registered_from(entries, name, 0),
    }
}

/// Whether the tokens are `wrapper < Name >`: the named container around one
/// type that is a single identifier.
pub open spec fn wraps_name(tokens: Seq<TokenView>, wrapper: Seq<char>) -> bool {
    &&& tokens.len() == 4
    &&& tokens[0].kind == TokenKind::Ident
    &&& tokens[0].text == wrapper
    &&& tokens[1].kind == TokenKind::Punct
    &&& tokens[1].text == "<"@
    &&& tokens[2].kind == TokenKind::Ident
    &&& tokens[3].kind == TokenKind::Punct
    &&& tokens[3].text == ">"@
}

/// The shape of a type expression and the domain type that it wraps: an
/// optional, a list or a lazily assigned slot of one named type, or the type
/// itself.
pub open spec fn lifting_of(ty: TypeExprView) -> (Lifting, Seq<char>) {
    if wraps_name(ty.tokens, "Option"@) {
        (Lifting::EachOptional, ty.tokens[2].text)
    } else if wraps_name(ty.tokens, "Vec"@) {
        (Lifting::EachElement, ty.tokens[2].text)
    } else if wraps_name(ty.tokens, "OnEditorInit"@) {
        (Lifting::LazySlot, ty.tokens[2].text)
    } else {
        (Lifting::Direct, ty.text)
    }
}

/// The host type that a binding gives for a shape, where it has one.
pub open spec fn lifted_host_type(b: TypeBindingView, lifting: Lifting) -> Option<Seq<char>> {
    match lifting {
        Lifting::Direct => Some(b.direct),
        Lifting::EachOptional => b.optional,
        Lifting::EachElement => b.list,
        Lifting::LazySlot => Some(slot_host_type(b.direct)),
    }
}

/// What a type expression resolves to against the registered bindings:
/// `None` where the wrapped domain type has no binding, or its binding lacks
/// the form that the shape asks for.
pub open spec fn resolution_of(entries: Seq<TypeBindingView>, ty: TypeExprView) -> Option<
    ResolutionView,
> {
    let (lifting, inner) = lifting_of(ty);
    match binding_of(entries, inner) {
        None => None,
        Some(b) => match lifted_host_type(b, lifting) {
            None => None,
            Some(host_type) => Some(ResolutionView { host_type, conversion: b.conversion, lifting }),
        },
    }
}

/// Whether no two entries are for the same domain type, and none is for a
/// type with an intrinsic binding.
pub open spec fn entries_distinct(entries: Seq<TypeBindingView>) -> bool {
    &&& forall|i: int, j: int|
        0 <= i < j < entries.len() ==> (#[trigger] entries[i]).domain != (
        #[trigger] entries[j]).domain
    &&& forall|i: int|
        0 <= i < entries.len() ==> intrinsic_binding((#[trigger] entries[i]).domain).is_none()
}

/// The bindings registered so far, in the order of their registration.
pub struct Registry {
    entries: Vec<TypeBinding>,
}

impl View for Registry {
    type V = Seq<TypeBindingView>;

    closed spec fn view(&self) -> Seq<TypeBindingView> {
        type_bindings_view(self.entries@)
    }
}

/// Whether `name` is a primitive type.
pub fn primitive(name: &str) -> (b: bool)
    ensures
        b == is_primitive(name@),
{
    str_equal(name, "i8") || str_equal(name, "i16") || str_equal(name, "i32") || str_equal(
        name,
        "i64",
    ) || str_equal(name, "u8") || str_equal(name, "u16") || str_equal(name, "u32") || str_equal(
        name,
        "f32",
    ) || str_equal(name, "f64") || str_equal(name, "bool")
}

/// The binding that a type has without any registration.
pub fn intrinsic(name: &str) -> (b: Option<TypeBinding>)
    ensures
        match b {
            Some(b) => intrinsic_binding(name@) == Some(b@),
            None => intrinsic_binding(name@).is_none(),
        },
{
    if primitive(name) {
        let mut list = "::godot::prelude::Array<".to_string();
        list.append(name);
        list.append(">");
        Some(
            TypeBinding {
                domain: name.to_string(),
                direct: name.to_string(),
                optional: None,
                list: Some(list),
                conversion: Conversion::Identity,
            },
        )
    } else if str_equal(name, "String") {
        Some(
            TypeBinding {
                domain: name.to_string(),
                direct: "::godot::prelude::GString".to_string(),
                optional: None,
                list: None,
                conversion: Conversion::Text,
            },
        )
    } else {
        None
    }
}

/// The binding that a generated artifact registers for its domain type.
pub fn artifact_binding(domain: &str, handle: &str) -> (b: TypeBinding)
    ensures
        b@ == artifact_binding_of(domain@, handle@),
{
    let mut direct = "::godot::prelude::OnEditor<".to_string();
    direct.append(handle);
    direct.append(">");
    let mut optional = "Option<".to_string();
    optional.append(handle);
    optional.append(">");
    let mut list = "::godot::prelude::Array<".to_string();
    list.append(handle);
    list.append(">");
    TypeBinding {
        domain: domain.to_string(),
        direct,
        optional: Some(optional),
        list: Some(list),
        conversion: Conversion::Artifact,
    }
}

/// A copy of a binding.
pub fn clone_binding(b: &TypeBinding) -> (out: TypeBinding)
    ensures
        out@ == b@,
{
    let optional = match &b.optional {
        Some(s) => Some(s.clone()),
        None => None,
    };
    let list = match &b.list {
        Some(s) => Some(s.clone()),
        None => None,
    };
    TypeBinding {
        domain: b.domain.clone(),
        direct: b.direct.clone(),
        optional,
        list,
        conversion: b.conversion,
    }
}

/// Whether the tokens are `wrapper < Name >`.
pub fn is_wrapper_of_name(tokens: &Vec<Token>, wrapper: &str) -> (b: bool)
    ensures
        b == wraps_name(tokens_view(tokens@), wrapper@),
{
    if tokens.len() != 4 {
        return false;
    }
    proof {
        let views = tokens_view(tokens@);
        assert(views[0] == tokens[0]@);
        assert(views[1] == tokens[1]@);
        assert(views[2] == tokens[2]@);
        assert(views[3] == tokens[3]@);
    }
    tokens[0].is_ident(wrapper) && tokens[1].is_punct("<") && tokens[2].kind == TokenKind::Ident
        && tokens[3].is_punct(">")
}

/// The shape of a type expression and the domain type that it wraps.
pub fn lifting(ty: &TypeExpr) -> (out: (Lifting, String))
    ensures
        (out.0, out.1@) == lifting_of(ty@),
{
    if is_wrapper_of_name(&ty.tokens, "Option") {
        proof {
            assert(tokens_view(ty.tokens@)[2] == ty.tokens[2]@);
        }
        (Lifting::EachOptional, ty.tokens[2].text.clone())
    } else if is_wrapper_of_name(&ty.tokens, "Vec") {
        proof {
            assert(tokens_view(ty.tokens@)[2] == ty.tokens[2]@);
        }
        (Lifting::EachElement, ty.tokens[2].text.clone())
    } else if is_wrapper_of_name(&ty.tokens, "OnEditorInit") {
        proof {
            assert(tokens_view(ty.tokens@)[2] == ty.tokens[2]@);
        }
        (Lifting::LazySlot, ty.tokens[2].text.clone())
    } else {
        (Lifting::Direct, ty.text.clone())
    }
}

/// Resolves a shape against a binding.
pub fn lift(b: &TypeBinding, lifting: Lifting) -> (r: Option<Resolution>)
    ensures
        option_resolution_view(r) == match lifted_host_type(b@, lifting) {
            None => None,
            Some(host_type) => Some(
                ResolutionView { host_type, conversion: b@.conversion, lifting },
            ),
        },
{
    let host_type = match lifting {
        Lifting::Direct => Some(b.direct.clone()),
        Lifting::EachOptional => match &b.optional {
            Some(s) => Some(s.clone()),
            None => None,
        },
        Lifting::EachElement => match &b.list {
            Some(s) => Some(s.clone()),
            None => None,
        },
        Lifting::LazySlot => {
            let mut slot = "::godot::prelude::OnEditor<".to_string();
            slot.append(b.direct.as_str());
            slot.append(">");
            Some(slot)
        },
    };
    match host_type {
        Some(host_type) => Some(Resolution { host_type, conversion: b.conversion, lifting }),
        None => None,
    }
}

impl Registry {
    /// A registry without any registration.
    pub fn new() -> (r: Registry)
        ensures
            r@ == Seq::<TypeBindingView>::empty(),
    {
        let r = Registry { entries: Vec::new() };
        proof {
            assert(type_bindings_view(r.entries@) == Seq::<TypeBindingView>::empty());
        }
        r
    }

    /// The number of registered bindings.
    pub fn len(&self) -> (n: usize)
        ensures
            n == self@.len(),
    {
        self.entries.len()
    }

    /// The binding of the domain type `name`: the intrinsic one, or the registered one.
    pub fn lookup(&self, name: &str) -> (b: Option<TypeBinding>)
        ensures
            match b {
                Some(b) => binding_of(self@, name@) == Some(b@),
                None => binding_of(self@, name@).is_none(),
            },
    {
        match intrinsic(name) {
            Some(b) => {
                return Some(b);
            },
            None => {},
        }
        let ghost views = type_bindings_view(self.entries@);
        let mut i: usize = 0;
        while i < self.entries.len()
            invariant
                i <= self.entries.len(),
                views == type_bindings_view(self.entries@),
                views == self@,
                intrinsic_binding(name@).is_none(),
                registered_from(views, name@, 0) == registered_from(views, name@, i as int),
            decreases self.entries.len() - i,
        {
            if str_equal(self.entries[i].domain.as_str(), name) {
                proof {
                    assert(views[i as int] == self.entries[i as int]@);
                }
                return Some(clone_binding(&self.entries[i]));
            }
            proof {
                assert(views[i as int] == self.entries[i as int]@);
            }
            i += 1;
        }
        None
    }

    /// Resolves a domain type expression to its host representation.
    pub fn resolve(&self, ty: &TypeExpr) -> (r: Option<Resolution>)
        ensures
            option_resolution_view(r) == resolution_of(self@, ty@),
    {
        let (shape, inner) = lifting(ty);
        match self.lookup(inner.as_str()) {
            Some(b) => lift(&b, shape),
            None => None,
        }
    }

    /// Registers a binding. The registry is append-only and holds one binding
    /// for a domain type: a binding for a type that has one already, intrinsic
    /// or registered, is refused and the registry stays as it is.
    pub fn register(&mut self, binding: TypeBinding) -> (result: Result<(), Diagnostic>)
        ensures
            match result {
                Ok(_) => binding_of(old(self)@, binding@.domain).is_none() && final(self)@ == old(
                    self,
                )@.push(binding@),
                Err(e) => binding_of(old(self)@, binding@.domain).is_some() && final(self)@ == old(
                    self,
                )@ && e@ == DiagnosticView::AlreadyRegistered(binding@.domain),
            },
            entries_distinct(old(self)@) ==> entries_distinct(final(self)@),
    {
        match self.lookup(binding.domain.as_str()) {
            Some(_) => Err(Diagnostic::AlreadyRegistered(binding.domain.clone())),
            None => {
                proof {
                    let entries = type_bindings_view(self.entries@);
                    let extended = entries.push(binding@);
                    assert(type_bindings_view(self.entries@.push(binding)) == extended);
                    lemma_unregistered(entries, binding@.domain, 0);
                    assert(entries_distinct(entries) ==> entries_distinct(extended));
                }
                self.entries.push(binding);
                Ok(())
            },
        }
    }
}

/// A name without a registered entry differs from the domain of every entry.
pub proof fn lemma_unregistered(entries: Seq<TypeBindingView>, name: Seq<char>, from: int)
    requires
        0 <= from <= entries.len(),
        registered_from(entries, name, from).is_none(),
    ensures
        forall|i: int| from <= i < entries.len() ==> (#[trigger] entries[i]).domain != name,
    decreases entries.len() - from,
{
    if from < entries.len() {
        lemma_unregistered(entries, name, from + 1);
    }
}

} // verus!
