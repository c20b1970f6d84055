//! Substitution of bound generic parameters in the types of fields.

use vstd::prelude::*;
use crate::schema::{TypeExpr, TypeExprView};
use crate::text::str_equal;

verus! {

/// One entry of a binding table: a type parameter and the concrete type bound to it.
#[derive(Clone, Debug)]
pub struct GenericBinding {
    pub parameter: String,
    pub concrete: TypeExpr,
}

/// The mathematical value of [`GenericBinding`].
pub struct GenericBindingView {
    pub parameter: Seq<char>,
    pub concrete: TypeExprView,
}

impl View for GenericBinding {
    type V = GenericBindingView;

    open spec fn view(&self) -> GenericBindingView {
        GenericBindingView { parameter: self.parameter@, concrete: self.concrete@ }
    }
}

/// The mathematical values of a sequence, element by element.
pub open spec fn bindings_view(bindings: Seq<GenericBinding>) -> Seq<GenericBindingView> {
    bindings.map_values(|b: GenericBinding| b@)
}

/// The concrete type that the first entry for `name` at or behind `from` binds.
pub open spec fn bound_from(table: Seq<GenericBindingView>, name: Seq<char>, from: int) -> Option<
    TypeExprView,
>
    decreases table.len() - from,
{
    if from < 0 || from >= table.len() {
        None
    } else if table[from].parameter == name {
        Some(table[from].concrete)
    } else {
        bound_from(table, name, from + 1)
    }
}

/// The concrete type bound to `name`: that of the first entry for it.
pub open spec fn bound_type(table: Seq<GenericBindingView>, name: Seq<char>) -> Option<TypeExprView> {
    bound_from(table, name, 0)
}

/// A type after substitution: the bound type where the whole type is a bound
/// parameter's name, the type itself otherwise. A parameter inside a container
/// type is not replaced.
pub open spec fn substituted(ty: TypeExprView, table: Seq<GenericBindingView>) -> TypeExprView {
    match bound_type(table, ty.text) {
        Some(concrete) => concrete,
        None => ty,
    }
}

/// The type of a field under a binding table: the substituted type where the
/// whole type is a declared generic parameter, the declared type otherwise.
pub open spec fn instantiated(
    ty: TypeExprView,
    parameters: Seq<Seq<char>>,
    table: Seq<GenericBindingView>,
) -> TypeExprView {
    if parameters.contains(ty.text) {
        substituted(ty, table)
    } else {
        ty
    }
}

/// Looks `name` up in a binding table.
pub fn lookup_binding<'a>(table: &'a Vec<GenericBinding>, name: &str) -> (found: Option<&'a TypeExpr>)
    ensures
        match found {
            Some(ty) => bound_type(bindings_view(table@), name@) == Some(ty@),
            None => bound_type(bindings_view(table@), name@).is_none(),
        },
{
    let ghost views = bindings_view(table@);
    let mut i: usize = 0;
    while i < table.len()
        invariant
            i <= table.len(),
            views == bindings_view(table@),
            bound_type(views, name@) == bound_from(views, name@, i as int),
        decreases table.len() - i,
    {
        if str_equal(table[i].parameter.as_str(), name) {
            return Some(&table[i].concrete);
        }
        i += 1;
    }
    None
}

/// Substitutes a field's type under a binding table.
pub fn substitute(ty: &TypeExpr, table: &Vec<GenericBinding>) -> (out: TypeExpr)
    ensures
        out@ == substituted(ty@, bindings_view(table@)),
{
    match lookup_binding(table, ty.text.as_str()) {
        Some(concrete) => clone_type(concrete),
        None => clone_type(ty),
    }
}

/// The type of a field of a declaration with the generic parameters
/// `parameters` under a binding table.
pub fn instantiate(ty: &TypeExpr, parameters: &Vec<String>, table: &Vec<GenericBinding>) -> (out:
    TypeExpr)
    ensures
        out@ == instantiated(ty@, crate::text::strings_view(parameters@), bindings_view(table@)),
{
    if crate::text::contains_name(parameters, ty.text.as_str()) {
        substitute(ty, table)
    } else {
        clone_type(ty)
    }
}

/// A copy of a type expression.
pub fn clone_type(ty: &TypeExpr) -> (out: TypeExpr)
    ensures
        out@ == ty@,
{
    let path_tail = match &ty.path_tail {
        Some(tail) => Some(tail.clone()),
        None => None,
    };
    TypeExpr { text: ty.text.clone(), path_tail, tokens: crate::token::clone_tokens(&ty.tokens) }
}

} // verus!
