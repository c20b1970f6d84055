//! A generator that bridges plain domain types to the resource types of a
//! host runtime.
//!
//! A declaration of a domain type, a record or a tagged union, is read as a
//! [`schema::SchemaDeclaration`]. [`expand::generate`] turns it into the
//! artifact that stands for the host-side declarations, or into a
//! [`diagnostic::Diagnostic`]; [`expand::expand_as_gd_res`] gives the same as
//! source text. [`registry::Registry`] holds the bindings from domain types to
//! host representations, and its `process` checks a declaration against them
//! before it registers the binding of the new artifact.
//!
//! The hook and the binding table of a declaration are read from its
//! annotations, by [`annotation::post_construction_hook`] and
//! [`bindings::binding_table`].
//!
//! Two smaller generators stand beside it: [`simple_enum`] for enumerations
//! whose variants carry nothing, and [`extract`] for the plain record that a
//! host-side record is extracted into.

pub mod annotation;
pub mod artifact;
pub mod bindings;
pub mod composite;
pub mod diagnostic;
pub mod expand;
pub mod extract;
pub mod laws;
pub mod parse;
pub mod process;
pub mod registry;
pub mod render;
pub mod schema;
pub mod simple_enum;
pub mod substitute;
pub mod tagged_union;
pub mod text;
pub mod token;
