use as_gd_res_derive::extract::derive_inner;
use as_gd_res_derive::schema::{
    Annotation, DeclarationBody, FieldDeclaration, SchemaDeclaration, TypeExpr,
    VariantDeclaration, VariantPayload,
};
use quote::ToTokens;

fn tokens(text: &str) -> String {
    text.parse::<proc_macro2::TokenStream>().unwrap().to_string()
}

fn annotations(attrs: &[syn::Attribute]) -> Vec<Annotation> {
    attrs
        .iter()
        .map(|a| Annotation::parse(&a.to_token_stream().to_string()).unwrap())
        .collect()
}

fn type_expr(ty: &syn::Type) -> TypeExpr {
    TypeExpr::parse(&ty.to_token_stream().to_string())
}

fn named_fields(fields: &syn::FieldsNamed) -> Vec<FieldDeclaration> {
    fields
        .named
        .iter()
        .map(|f| FieldDeclaration {
            name: f.ident.as_ref().unwrap().to_string(),
            ty: type_expr(&f.ty),
            annotations: annotations(&f.attrs),
        })
        .collect()
}

fn positional(fields: &syn::FieldsUnnamed) -> Vec<TypeExpr> {
    fields.unnamed.iter().map(|f| type_expr(&f.ty)).collect()
}

fn parameter_name(p: &syn::GenericParam) -> String {
    match p {
        syn::GenericParam::Type(t) => t.ident.to_string(),
        syn::GenericParam::Lifetime(l) => l.lifetime.to_string(),
        syn::GenericParam::Const(c) => c.ident.to_string(),
    }
}

fn declaration(source: &str) -> SchemaDeclaration {
    let input: syn::DeriveInput = syn::parse_str(source).unwrap();
    let body = match &input.data {
        syn::Data::Struct(data) => match &data.fields {
            syn::Fields::Named(fields) => DeclarationBody::Composite(named_fields(fields)),
            syn::Fields::Unnamed(fields) => DeclarationBody::PositionalRecord(positional(fields)),
            syn::Fields::Unit => DeclarationBody::UnitRecord,
        },
        syn::Data::Enum(data) => DeclarationBody::TaggedUnion(
            data.variants
                .iter()
                .map(|v| VariantDeclaration {
                    name: v.ident.to_string(),
                    payload: match &v.fields {
                        syn::Fields::Unit => VariantPayload::Unit,
                        syn::Fields::Unnamed(fields) => {
                            VariantPayload::Positional(positional(fields))
                        }
                        syn::Fields::Named(fields) => VariantPayload::Named(named_fields(fields)),
                    },
                })
                .collect(),
        ),
        syn::Data::Union(data) => DeclarationBody::Overlay(named_fields(&data.fields)),
    };
    SchemaDeclaration {
        name: input.ident.to_string(),
        visibility: input.vis.to_token_stream().to_string(),
        generic_parameters: input.generics.params.iter().map(parameter_name).collect(),
        annotations: annotations(&input.attrs),
        body,
    }
}

#[test]
fn test_1() {
    let input = declaration(r####"
        pub enum BrainState {
            DirectChaser,
            Roomba,
            Tank(EnumInnerState),
        }
    "####);
    let expected = r####"
        impl ExtractGd for BrainState
        where BrainState : Clone
        {
            type Extracted = BrainState;
            fn extract(&self) -> Self::Extracted {
                self.clone()
            }
        }
    "####;
    assert_eq!(tokens(&derive_inner(&input)), tokens(expected));
}
