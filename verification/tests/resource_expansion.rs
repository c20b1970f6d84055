use as_gd_res_derive::expand::expand_as_gd_res;
use as_gd_res_derive::schema::{
    Annotation, DeclarationBody, FieldDeclaration, SchemaDeclaration, TypeExpr,
    VariantDeclaration, VariantPayload,
};
use quote::ToTokens;

fn tokens(text: &str) -> String {
    text.parse::<proc_macro2::TokenStream>().unwrap().to_string()
}

fn annotations(attrs: &[syn::Attribute]) -> Vec<Annotation> {
    attrs
        .iter()
        .map(|a| Annotation::parse(&a.to_token_stream().to_string()).unwrap())
        .collect()
}

fn type_expr(ty: &syn::Type) -> TypeExpr {
    TypeExpr::parse(&ty.to_token_stream().to_string())
}

fn named_fields(fields: &syn::FieldsNamed) -> Vec<FieldDeclaration> {
    fields
        .named
        .iter()
        .map(|f| FieldDeclaration {
            name: f.ident.as_ref().unwrap().to_string(),
            ty: type_expr(&f.ty),
            annotations: annotations(&f.attrs),
        })
        .collect()
}

fn positional(fields: &syn::FieldsUnnamed) -> Vec<TypeExpr> {
    fields.unnamed.iter().map(|f| type_expr(&f.ty)).collect()
}

fn parameter_name(p: &syn::GenericParam) -> String {
    match p {
        syn::GenericParam::Type(t) => t.ident.to_string(),
        syn::GenericParam::Lifetime(l) => l.lifetime.to_string(),
        syn::GenericParam::Const(c) => c.ident.to_string(),
    }
}

fn declaration(source: &str) -> SchemaDeclaration {
    let input: syn::DeriveInput = syn::parse_str(source).unwrap();
    let body = match &input.data {
        syn::Data::Struct(data) => match &data.fields {
            syn::Fields::Named(fields) => DeclarationBody::Composite(named_fields(fields)),
            syn::Fields::Unnamed(fields) => DeclarationBody::PositionalRecord(positional(fields)),
            syn::Fields::Unit => DeclarationBody::UnitRecord,
        },
        syn::Data::Enum(data) => DeclarationBody::TaggedUnion(
            data.variants
                .iter()
                .map(|v| VariantDeclaration {
                    name: v.ident.to_string(),
                    payload: match &v.fields {
                        syn::Fields::Unit => VariantPayload::Unit,
                        syn::Fields::Unnamed(fields) => {
                            VariantPayload::Positional(positional(fields))
                        }
                        syn::Fields::Named(fields) => VariantPayload::Named(named_fields(fields)),
                    },
                })
                .collect(),
        ),
        syn::Data::Union(data) => DeclarationBody::Overlay(named_fields(&data.fields)),
    };
    SchemaDeclaration {
        name: input.ident.to_string(),
        visibility: input.vis.to_token_stream().to_string(),
        generic_parameters: input.generics.params.iter().map(parameter_name).collect(),
        annotations: annotations(&input.attrs),
        body,
    }
}

#[test]
fn tests_test_simple() {
    let input = declaration(r####"
        pub struct SimpleStructParams {
            a: f32,
            b: f32,
        }
    "####);
    let expected = r####"
        impl ::as_gd_res::AsGdRes for SimpleStructParams {
            type ResType = ::godot::prelude::OnEditor<::godot::obj::Gd<SimpleStructParamsResource>>;
        }
        impl ::as_gd_res::AsGdResOpt for SimpleStructParams {
            type GdOption = Option<::godot::obj::Gd<SimpleStructParamsResource>>;
        }
        impl ::as_gd_res::AsGdResArray for SimpleStructParams {
            type GdArray = ::godot::prelude::Array<::godot::obj::Gd<SimpleStructParamsResource>>;
        }
        #[derive(::godot::prelude::GodotClass)]
        #[class(tool,init,base=Resource)]
        pub struct SimpleStructParamsResource {
            #[base]
            base: ::godot::obj::Base<::godot::classes::Resource>,
            #[export]
            pub a: <f32 as ::as_gd_res::AsGdRes>::ResType,
            #[export]
            pub b: <f32 as ::as_gd_res::AsGdRes>::ResType,
        }
        impl ::as_gd_res::ExtractGd for SimpleStructParamsResource {
            type Extracted = SimpleStructParams;
            fn extract(&self) -> Self::Extracted {
                use ::as_gd_res::ExtractGd;
                Self::Extracted {
                    a: self.a.extract(),
                    b: self.b.extract(),
                }
            }
        }
    "####;
    assert_eq!(tokens(&expand_as_gd_res(&input)), tokens(expected));
}

#[test]
fn tests_test_2() {
    let input = declaration(r####"
        pub struct DropParams2 {
            pub total_value: f32,
            pub max_value_per_coin: f32,
            pub coin_scene_1: Option<PackedScenePath>,
            pub coin_scene_2: OnEditorInit<PackedScenePath>,
        }
    "####);
    let expected = r####"
        impl ::as_gd_res::AsGdRes for DropParams2 {
            type ResType = ::godot::prelude::OnEditor<::godot::obj::Gd<DropParams2Resource>>;
        }
        impl ::as_gd_res::AsGdResOpt for DropParams2 {
            type GdOption = Option<::godot::obj::Gd<DropParams2Resource>>;
        }
        impl ::as_gd_res::AsGdResArray for DropParams2 {
            type GdArray = ::godot::prelude::Array<::godot::obj::Gd<DropParams2Resource>>;
        }
        #[derive(::godot::prelude::GodotClass)]
        #[class(tool,init,base=Resource)]
        pub struct DropParams2Resource {
            #[base]
            base: ::godot::obj::Base<::godot::classes::Resource>,
            #[export]
            pub total_value: <f32 as ::as_gd_res::AsGdRes>::ResType,
            #[export]
            pub max_value_per_coin: <f32 as ::as_gd_res::AsGdRes>::ResType,
            #[export]
            pub coin_scene_1: <Option<PackedScenePath> as ::as_gd_res::AsGdRes>::ResType,
            #[export]
            pub coin_scene_2: <OnEditorInit<PackedScenePath> as ::as_gd_res::AsGdRes>::ResType,
        }
        impl ::as_gd_res::ExtractGd for DropParams2Resource {
            type Extracted = DropParams2;
            fn extract(&self) -> Self::Extracted {
                use ::as_gd_res::ExtractGd;
                Self::Extracted {
                    total_value: self.total_value.extract(),
                    max_value_per_coin: self.max_value_per_coin.extract(),
                    coin_scene_1: self.coin_scene_1.extract(),
                    coin_scene_2: self.coin_scene_2.extract(),
                }
            }
        }
    "####;
    assert_eq!(tokens(&expand_as_gd_res(&input)), tokens(expected));
}

#[test]
fn tests_test_attr_pass_through() {
    let input = declaration(r####"
          pub struct DropParams2 {
            #[export(range = (100.0, 500.0))]
            #[init(val = 200.0)]
            pub total_value: f32,
            #[export(range = (0.0, 5.0))]
            #[init(val = 3.0)]
            #[var(get, set = set_max_value_per_coin)]
            pub max_value_per_coin: f32,
            pub coin_scene_1: Option<PackedScenePath>,
            pub coin_scene_2: OnEditorInit<PackedScenePath>,
            #[var]
            pub non_exported_field: u32,
        }
    "####);
    let expected = r####"
          impl ::as_gd_res::AsGdRes for DropParams2 {
              type ResType = ::godot::prelude::OnEditor<::godot::obj::Gd<DropParams2Resource>>;
          }
          impl ::as_gd_res::AsGdResOpt for DropParams2 {
              type GdOption = Option<::godot::obj::Gd<DropParams2Resource>>;
          }
          impl ::as_gd_res::AsGdResArray for DropParams2 {
              type GdArray = ::godot::prelude::Array<::godot::obj::Gd<DropParams2Resource>>;
          }
        #[derive(::godot::prelude::GodotClass)]
        #[class(tool,init,base=Resource)]
        pub struct DropParams2Resource {
            #[base]
            base: ::godot::obj::Base<::godot::classes::Resource>,
            #[export(range = (100.0, 500.0))]
            #[init(val = 200.0)]
            pub total_value: <f32 as ::as_gd_res::AsGdRes>::ResType,
            #[export(range = (0.0, 5.0))]
            #[init(val = 3.0)]
            #[var(get, set = set_max_value_per_coin)]
            pub max_value_per_coin: <f32 as ::as_gd_res::AsGdRes>::ResType,
            #[export]
            pub coin_scene_1: <Option<PackedScenePath> as ::as_gd_res::AsGdRes>::ResType,
            #[export]
            pub coin_scene_2: <OnEditorInit<PackedScenePath> as ::as_gd_res::AsGdRes>::ResType,
            #[var]
            pub non_exported_field: <u32 as ::as_gd_res::AsGdRes>::ResType,
        }
        impl ::as_gd_res::ExtractGd for DropParams2Resource {
            type Extracted = DropParams2;
            fn extract(&self) -> Self::Extracted {
                use ::as_gd_res::ExtractGd;
                Self::Extracted {
                    total_value: self.total_value.extract(),
                    max_value_per_coin: self.max_value_per_coin.extract(),
                    coin_scene_1: self.coin_scene_1.extract(),
                    coin_scene_2: self.coin_scene_2.extract(),
                    non_exported_field: self.non_exported_field.extract(),
                }
            }
        }
    "####;
    assert_eq!(tokens(&expand_as_gd_res(&input)), tokens(expected));
}

#[test]
fn tests_test_complex_nested_struct() {
    let input = declaration(r####"
        pub struct EnemyParams {
            pub brain_params_required: OnEditorInit<BrainParams>,
            pub brain_params_optional: Option<BrainParams>,
            pub brains_vec: Vec<BrainParams>,
            pub drop_params: Option<DropParams2>,
            pub damage_team: DamageTeam,
        }
    "####);
    let expected = r####"
        impl ::as_gd_res::AsGdRes for EnemyParams {
            type ResType = ::godot::prelude::OnEditor<::godot::obj::Gd<EnemyParamsResource>>;
        }
        impl ::as_gd_res::AsGdResOpt for EnemyParams {
            type GdOption = Option<::godot::obj::Gd<EnemyParamsResource>>;
        }
        impl ::as_gd_res::AsGdResArray for EnemyParams {
            type GdArray = ::godot::prelude::Array<::godot::obj::Gd<EnemyParamsResource>>;
        }
        #[derive(::godot::prelude::GodotClass)]
        #[class(tool,init,base=Resource)]
        pub struct EnemyParamsResource {
            #[base]
            base: ::godot::obj::Base<::godot::classes::Resource>,
            #[export]
            pub brain_params_required: <OnEditorInit<BrainParams> as ::as_gd_res::AsGdRes>::ResType,
            #[export]
            pub brain_params_optional: <Option<BrainParams> as ::as_gd_res::AsGdRes>::ResType,
            #[export]
            pub brains_vec: <Vec<BrainParams> as ::as_gd_res::AsGdRes>::ResType,
            #[export]
            pub drop_params: <Option<DropParams2> as ::as_gd_res::AsGdRes>::ResType,
            #[export]
            pub damage_team: <DamageTeam as ::as_gd_res::AsGdRes>::ResType,
        }
        impl ::as_gd_res::ExtractGd for EnemyParamsResource {
            type Extracted = EnemyParams;
            fn extract(&self) -> Self::Extracted {
                use ::as_gd_res::ExtractGd;
                Self::Extracted {
                    brain_params_required: self.brain_params_required.extract(),
                    brain_params_optional: self.brain_params_optional.extract(),
                    brains_vec: self.brains_vec.extract(),
                    drop_params: self.drop_params.extract(),
                    damage_team: self.damage_team.extract(),
                }
            }
        }
    "####;
    assert_eq!(tokens(&expand_as_gd_res(&input)), tokens(expected));
}

#[test]
fn tests_test_enum_mixed_variants_error() {
    let input = declaration(r####"
        pub enum Mixed {
            Unit,
            Tuple(u32),
            Struct { x: i32 }
        }
    "####);
    let expected = r####"
        compile_error!("`derive(AsGdRes)` only supports unit enums or single-tuple enums. Unsupported variants: Struct");
    "####;
    assert_eq!(tokens(&expand_as_gd_res(&input)), tokens(expected));
}

#[test]
fn tests_test_union_error() {
    let input = declaration(r####"
        pub union Foo {
            a: u32,
            b: f32,
        }
    "####);
    let expected = r####"
        compile_error!("`derive(AsGdRes)` only supports structs with named fields, enums with unit variants, or enums with single-tuple variants");
    "####;
    assert_eq!(tokens(&expand_as_gd_res(&input)), tokens(expected));
}

#[test]
fn tests_test_tuple_struct_error() {
    let input = declaration(r####"
        pub struct Foo(u32);
    "####);
    let expected = r####"
        compile_error!("`derive(AsGdRes)` only supports structs with named fields");
    "####;
    assert_eq!(tokens(&expand_as_gd_res(&input)), tokens(expected));
}

#[test]
fn tests_test_generic_struct_error() {
    let input = declaration(r####"
        pub struct Bar<T> { val: T }
    "####);
    let expected = r####"
        compile_error!("`derive(AsGdRes)` does not support generics");
    "####;
    assert_eq!(tokens(&expand_as_gd_res(&input)), tokens(expected));
}

#[test]
fn test_empty_struct() {
    let input = declaration(r####"
        pub struct EmptyStruct {}
    "####);
    let expected = r####"
        impl ::as_gd_res::AsGdRes for EmptyStruct {
            type ResType = ::godot::prelude::OnEditor<::godot::obj::Gd<EmptyStructResource>>;
        }
        impl ::as_gd_res::AsGdResOpt for EmptyStruct {
            type GdOption = Option<::godot::obj::Gd<EmptyStructResource>>;
        }
        impl ::as_gd_res::AsGdResArray for EmptyStruct {
            type GdArray = ::godot::prelude::Array<::godot::obj::Gd<EmptyStructResource>>;
        }
        #[derive(::godot::prelude::GodotClass)]
        #[class(tool,init,base=Resource)]
        pub struct EmptyStructResource {
            #[base]
            base: ::godot::obj::Base<::godot::classes::Resource>,
        }
        impl ::as_gd_res::ExtractGd for EmptyStructResource {
            type Extracted = EmptyStruct;
            fn extract(&self) -> Self::Extracted {
                use ::as_gd_res::ExtractGd;
                Self::Extracted {
                }
            }
        }
    "####;
    assert_eq!(tokens(&expand_as_gd_res(&input)), tokens(expected));
}

#[test]
fn edge_cases_test_empty_enum() {
    let input = declaration(r####"
        pub enum EmptyEnum {}
    "####);
    let expected = r####"
        compile_error!(
            "`derive(AsGdRes)` only supports enums with single-tuple variants, not unit variants. Did you mean to use `derive(AsGdEnumSimple)`?"
        );
    "####;
    assert_eq!(tokens(&expand_as_gd_res(&input)), tokens(expected));
}

#[test]
fn test_struct_var_only_attribute() {
    let input = declaration(r####"
        pub struct VarOnlyStruct {
            #[var]
            pub field: i32,
        }
    "####);
    let expected = r####"
        impl ::as_gd_res::AsGdRes for VarOnlyStruct {
            type ResType = ::godot::prelude::OnEditor<::godot::obj::Gd<VarOnlyStructResource>>;
        }
        impl ::as_gd_res::AsGdResOpt for VarOnlyStruct {
            type GdOption = Option<::godot::obj::Gd<VarOnlyStructResource>>;
        }
        impl ::as_gd_res::AsGdResArray for VarOnlyStruct {
            type GdArray = ::godot::prelude::Array<::godot::obj::Gd<VarOnlyStructResource>>;
        }
        #[derive(::godot::prelude::GodotClass)]
        #[class(tool,init,base=Resource)]
        pub struct VarOnlyStructResource {
            #[base]
            base: ::godot::obj::Base<::godot::classes::Resource>,
            #[var]
            pub field: <i32 as ::as_gd_res::AsGdRes>::ResType,
        }
        impl ::as_gd_res::ExtractGd for VarOnlyStructResource {
            type Extracted = VarOnlyStruct;
            fn extract(&self) -> Self::Extracted {
                use ::as_gd_res::ExtractGd;
                Self::Extracted {
                    field: self.field.extract(),
                }
            }
        }
    "####;
    assert_eq!(tokens(&expand_as_gd_res(&input)), tokens(expected));
}

#[test]
fn test_struct_init_only_attribute() {
    let input = declaration(r####"
        pub struct InitOnlyStruct {
            #[init(val = 42)]
            pub field: i32,
        }
    "####);
    let expected = r####"
        impl ::as_gd_res::AsGdRes for InitOnlyStruct {
            type ResType = ::godot::prelude::OnEditor<::godot::obj::Gd<InitOnlyStructResource>>;
        }
        impl ::as_gd_res::AsGdResOpt for InitOnlyStruct {
            type GdOption = Option<::godot::obj::Gd<InitOnlyStructResource>>;
        }
        impl ::as_gd_res::AsGdResArray for InitOnlyStruct {
            type GdArray = ::godot::prelude::Array<::godot::obj::Gd<InitOnlyStructResource>>;
        }
        #[derive(::godot::prelude::GodotClass)]
        #[class(tool,init,base=Resource)]
        pub struct InitOnlyStructResource {
            #[base]
            base: ::godot::obj::Base<::godot::classes::Resource>,
            #[init(val = 42)]
            pub field: <i32 as ::as_gd_res::AsGdRes>::ResType,
        }
        impl ::as_gd_res::ExtractGd for InitOnlyStructResource {
            type Extracted = InitOnlyStruct;
            fn extract(&self) -> Self::Extracted {
                use ::as_gd_res::ExtractGd;
                Self::Extracted {
                    field: self.field.extract(),
                }
            }
        }
    "####;
    assert_eq!(tokens(&expand_as_gd_res(&input)), tokens(expected));
}

#[test]
fn test_private_struct() {
    let input = declaration(r####"
        struct PrivateStruct {
            pub field: i32,
        }
    "####);
    let expected = r####"
        impl ::as_gd_res::AsGdRes for PrivateStruct {
            type ResType = ::godot::prelude::OnEditor<::godot::obj::Gd<PrivateStructResource>>;
        }
        impl ::as_gd_res::AsGdResOpt for PrivateStruct {
            type GdOption = Option<::godot::obj::Gd<PrivateStructResource>>;
        }
        impl ::as_gd_res::AsGdResArray for PrivateStruct {
            type GdArray = ::godot::prelude::Array<::godot::obj::Gd<PrivateStructResource>>;
        }
        #[derive(::godot::prelude::GodotClass)]
        #[class(tool,init,base=Resource)]
        pub struct PrivateStructResource {
            #[base]
            base: ::godot::obj::Base<::godot::classes::Resource>,
            #[export]
            pub field: <i32 as ::as_gd_res::AsGdRes>::ResType,
        }
        impl ::as_gd_res::ExtractGd for PrivateStructResource {
            type Extracted = PrivateStruct;
            fn extract(&self) -> Self::Extracted {
                use ::as_gd_res::ExtractGd;
                Self::Extracted {
                    field: self.field.extract(),
                }
            }
        }
    "####;
    assert_eq!(tokens(&expand_as_gd_res(&input)), tokens(expected));
}

#[test]
fn edge_cases_test_single_variant_enum() {
    let input = declaration(r####"
        pub enum SingleVariant {
            Only(SomeData),
        }
    "####);
    let expected = r####"
        pub trait SingleVariantVariantExtractor {
            fn extract_enum_variant(&self) -> SingleVariant;
        }
        type SingleVariantResource =
            ::godot::obj::DynGd<::godot::classes::Resource, dyn SingleVariantVariantExtractor>;
        impl ::as_gd_res::AsGdRes for SingleVariant {
            type ResType = ::godot::prelude::OnEditor<SingleVariantResource>;
        }
        impl ::as_gd_res::AsGdResOpt for SingleVariant {
            type GdOption = Option<SingleVariantResource>;
        }
        impl ::as_gd_res::AsGdResArray for SingleVariant {
            type GdArray = ::godot::prelude::Array<SingleVariantResource>;
        }
        impl ::as_gd_res::ExtractGd for dyn SingleVariantVariantExtractor {
            type Extracted = SingleVariant;
            fn extract(&self) -> Self::Extracted {
                self.extract_enum_variant()
            }
        }
        pub mod mod_singlevariant_only {
            use super::*;
            use ::godot::prelude::godot_dyn;
            #[godot_dyn]
            impl SingleVariantVariantExtractor for SomeDataResource {
                fn extract_enum_variant(&self) -> SingleVariant {
                    SingleVariant::Only(self.extract())
                }
            }
        }
    "####;
    assert_eq!(tokens(&expand_as_gd_res(&input)), tokens(expected));
}

#[test]
fn test_post_init_empty_struct() {
    let input = declaration(r####"
        #[as_gd_res(post_init = init_method)]
        pub struct EmptyPostInit {}
    "####);
    let expected = r####"
        impl ::as_gd_res::AsGdRes for EmptyPostInit {
            type ResType = ::godot::prelude::OnEditor<::godot::obj::Gd<EmptyPostInitResource>>;
        }
        impl ::as_gd_res::AsGdResOpt for EmptyPostInit {
            type GdOption = Option<::godot::obj::Gd<EmptyPostInitResource>>;
        }
        impl ::as_gd_res::AsGdResArray for EmptyPostInit {
            type GdArray = ::godot::prelude::Array<::godot::obj::Gd<EmptyPostInitResource>>;
        }
        #[derive(::godot::prelude::GodotClass)]
        #[class(tool,base = Resource)]
        pub struct EmptyPostInitResource {
            #[base]
            base: ::godot::obj::Base<::godot::classes::Resource>,
        }
        impl ::as_gd_res::ExtractGd for EmptyPostInitResource {
            type Extracted = EmptyPostInit;
            fn extract(&self) -> Self::Extracted {
                use ::as_gd_res::ExtractGd;
                Self::Extracted {
                }
            }
        }
        #[godot_api]
        impl ::godot::prelude::IResource for EmptyPostInitResource {
            fn init(base: ::godot::prelude::Base<::godot::prelude::Resource>) -> Self {
                let mut res = Self {
                    base,
                };
                res.init_method();
                res
            }
        }
    "####;
    assert_eq!(tokens(&expand_as_gd_res(&input)), tokens(expected));
}

#[test]
fn enum_tests_test_simple_enum() {
    let input = declaration(r####"
        #[derive(Default, Clone, Copy, GodotConvert, Var, Export)]
        #[godot(via = GString)]
        pub enum DamageTeam {
            #[default]
            Player,
            Enemy,
            Environment,
        }
    "####);
    let expected = r####"
        compile_error!(
                    "`derive(AsGdRes)` only supports enums with single-tuple variants, not unit variants. Did you mean to use `derive(AsGdEnumSimple)`?"
                );
    "####;
    assert_eq!(tokens(&expand_as_gd_res(&input)), tokens(expected));
}

#[test]
fn enum_tests_test_enum_with_data_variants() {
    let input = declaration(r####"
        pub enum Pickup {
            Money(MoneyData),
            PowerUp(PowerUpData),
            Heal(HealData),
        }
    "####);
    let expected = r####"
        pub trait PickupVariantExtractor {
            fn extract_enum_variant(&self) -> Pickup;
        }
        type PickupResource =
            ::godot::obj::DynGd<::godot::classes::Resource, dyn PickupVariantExtractor>;
        impl ::as_gd_res::AsGdRes for Pickup {
            type ResType = ::godot::prelude::OnEditor<PickupResource>;
        }
        impl ::as_gd_res::AsGdResOpt for Pickup {
            type GdOption = Option<PickupResource>;
        }
        impl ::as_gd_res::AsGdResArray for Pickup {
            type GdArray = ::godot::prelude::Array<PickupResource>;
        }
        impl ::as_gd_res::ExtractGd for dyn PickupVariantExtractor {
            type Extracted = Pickup;
            fn extract(&self) -> Self::Extracted {
                self.extract_enum_variant()
            }
        }
        pub mod mod_pickup_money{
            use super::*;
            use ::godot::prelude::godot_dyn;
            #[godot_dyn]
            impl PickupVariantExtractor for MoneyDataResource {
                fn extract_enum_variant(&self) -> Pickup {
                    Pickup::Money(self.extract())
                }
            }
        }
        pub mod mod_pickup_powerup{
            use super::*;
            use ::godot::prelude::godot_dyn;
            #[godot_dyn]
            impl PickupVariantExtractor for PowerUpDataResource {
                fn extract_enum_variant(&self) -> Pickup {
                    Pickup::PowerUp(self.extract())
                }
            }
        }
        pub mod mod_pickup_heal{
            use super::*;
            use ::godot::prelude::godot_dyn;
            #[godot_dyn]
            impl PickupVariantExtractor for HealDataResource {
                fn extract_enum_variant(&self) -> Pickup {
                    Pickup::Heal(self.extract())
                }
            }
        }
    "####;
    assert_eq!(tokens(&expand_as_gd_res(&input)), tokens(expected));
}

#[test]
fn enum_tests_test_enum_mixed_variants_error() {
    let input = declaration(r####"
        pub enum Mixed {
            Unit,
            Tuple(u32),
            Struct { x: i32 }
        }
    "####);
    let expected = r####"
        compile_error!("`derive(AsGdRes)` only supports unit enums or single-tuple enums. Unsupported variants: Struct");
    "####;
    assert_eq!(tokens(&expand_as_gd_res(&input)), tokens(expected));
}

#[test]
fn error_tests_test_union_error() {
    let input = declaration(r####"
        pub union Foo {
            a: u32,
            b: f32,
        }
    "####);
    let expected = r####"
        compile_error!("`derive(AsGdRes)` only supports structs with named fields, enums with unit variants, or enums with single-tuple variants");
    "####;
    assert_eq!(tokens(&expand_as_gd_res(&input)), tokens(expected));
}

#[test]
fn error_tests_test_tuple_struct_error() {
    let input = declaration(r####"
        pub struct Foo(u32);
    "####);
    let expected = r####"
        compile_error!("`derive(AsGdRes)` only supports structs with named fields");
    "####;
    assert_eq!(tokens(&expand_as_gd_res(&input)), tokens(expected));
}

#[test]
fn error_tests_test_generic_struct_error() {
    let input = declaration(r####"
        pub struct Bar<T> { val: T }
    "####);
    let expected = r####"
        compile_error!("`derive(AsGdRes)` does not support generics");
    "####;
    assert_eq!(tokens(&expand_as_gd_res(&input)), tokens(expected));
}

#[test]
fn test_simple_generic_substitution() {
    let input = declaration(r####"
        #[as_gd_res_types(T = i32)]
        pub struct SimpleGeneric<T> {
            pub field: T,
        }
    "####);
    let expected = r####"
        impl ::as_gd_res::AsGdRes for SimpleGeneric<i32> {
            type ResType = ::godot::prelude::OnEditor<::godot::obj::Gd<SimpleGenericResource>>;
        }
        impl ::as_gd_res::AsGdResOpt for SimpleGeneric<i32> {
            type GdOption = Option<::godot::obj::Gd<SimpleGenericResource>>;
        }
        impl ::as_gd_res::AsGdResArray for SimpleGeneric<i32> {
            type GdArray = ::godot::prelude::Array<::godot::obj::Gd<SimpleGenericResource>>;
        }
        #[derive(::godot::prelude::GodotClass)]
        #[class(tool,init,base=Resource)]
        pub struct SimpleGenericResource {
            #[base]
            base: ::godot::obj::Base<::godot::classes::Resource>,
            #[export]
            pub field: <i32 as ::as_gd_res::AsGdRes>::ResType,
        }
        impl ::as_gd_res::ExtractGd for SimpleGenericResource {
            type Extracted = SimpleGeneric<i32>;
            fn extract(&self) -> Self::Extracted {
                use ::as_gd_res::ExtractGd;
                Self::Extracted {
                    field: self.field.extract(),
                }
            }
        }
    "####;
    assert_eq!(tokens(&expand_as_gd_res(&input)), tokens(expected));
}

#[test]
fn test_multiple_generic_parameters() {
    let input = declaration(r####"
        #[as_gd_res_types(A = i32, B = f32, C = bool)]
        pub struct MultiGeneric<A, B, C> {
            pub field_a: A,
            pub field_b: B,
            pub field_c: C,
        }
    "####);
    let expected = r####"
        impl ::as_gd_res::AsGdRes for MultiGeneric<i32, f32, bool> {
            type ResType = ::godot::prelude::OnEditor<::godot::obj::Gd<MultiGenericResource>>;
        }
        impl ::as_gd_res::AsGdResOpt for MultiGeneric<i32, f32, bool> {
            type GdOption = Option<::godot::obj::Gd<MultiGenericResource>>;
        }
        impl ::as_gd_res::AsGdResArray for MultiGeneric<i32, f32, bool> {
            type GdArray = ::godot::prelude::Array<::godot::obj::Gd<MultiGenericResource>>;
        }
        #[derive(::godot::prelude::GodotClass)]
        #[class(tool,init,base=Resource)]
        pub struct MultiGenericResource {
            #[base]
            base: ::godot::obj::Base<::godot::classes::Resource>,
            #[export]
            pub field_a: <i32 as ::as_gd_res::AsGdRes>::ResType,
            #[export]
            pub field_b: <f32 as ::as_gd_res::AsGdRes>::ResType,
            #[export]
            pub field_c: <bool as ::as_gd_res::AsGdRes>::ResType,
        }
        impl ::as_gd_res::ExtractGd for MultiGenericResource {
            type Extracted = MultiGeneric<i32, f32, bool>;
            fn extract(&self) -> Self::Extracted {
                use ::as_gd_res::ExtractGd;
                Self::Extracted {
                    field_a: self.field_a.extract(),
                    field_b: self.field_b.extract(),
                    field_c: self.field_c.extract(),
                }
            }
        }
    "####;
    assert_eq!(tokens(&expand_as_gd_res(&input)), tokens(expected));
}

#[test]
fn test_generic_with_complex_type() {
    let input = declaration(r####"
        #[as_gd_res_types(T = SomeComplexType)]
        pub struct WithComplexType<T> {
            pub field: T,
        }
    "####);
    let expected = r####"
        impl ::as_gd_res::AsGdRes for WithComplexType<SomeComplexType> {
            type ResType = ::godot::prelude::OnEditor<::godot::obj::Gd<WithComplexTypeResource>>;
        }
        impl ::as_gd_res::AsGdResOpt for WithComplexType<SomeComplexType> {
            type GdOption = Option<::godot::obj::Gd<WithComplexTypeResource>>;
        }
        impl ::as_gd_res::AsGdResArray for WithComplexType<SomeComplexType> {
            type GdArray = ::godot::prelude::Array<::godot::obj::Gd<WithComplexTypeResource>>;
        }
        #[derive(::godot::prelude::GodotClass)]
        #[class(tool,init,base=Resource)]
        pub struct WithComplexTypeResource {
            #[base]
            base: ::godot::obj::Base<::godot::classes::Resource>,
            #[export]
            pub field: <SomeComplexType as ::as_gd_res::AsGdRes>::ResType,
        }
        impl ::as_gd_res::ExtractGd for WithComplexTypeResource {
            type Extracted = WithComplexType<SomeComplexType>;
            fn extract(&self) -> Self::Extracted {
                use ::as_gd_res::ExtractGd;
                Self::Extracted {
                    field: self.field.extract(),
                }
            }
        }
    "####;
    assert_eq!(tokens(&expand_as_gd_res(&input)), tokens(expected));
}

#[test]
fn test_nested_generic_not_substituted() {
    let input = declaration(r####"
        #[as_gd_res_types(T = i32)]
        pub struct NestedGeneric<T> {
            pub field: Vec<T>,
        }
    "####);
    let expected = r####"
        impl ::as_gd_res::AsGdRes for NestedGeneric<i32> {
            type ResType = ::godot::prelude::OnEditor<::godot::obj::Gd<NestedGenericResource>>;
        }
        impl ::as_gd_res::AsGdResOpt for NestedGeneric<i32> {
            type GdOption = Option<::godot::obj::Gd<NestedGenericResource>>;
        }
        impl ::as_gd_res::AsGdResArray for NestedGeneric<i32> {
            type GdArray = ::godot::prelude::Array<::godot::obj::Gd<NestedGenericResource>>;
        }
        #[derive(::godot::prelude::GodotClass)]
        #[class(tool,init,base=Resource)]
        pub struct NestedGenericResource {
            #[base]
            base: ::godot::obj::Base<::godot::classes::Resource>,
            #[export]
            pub field: <Vec<T> as ::as_gd_res::AsGdRes>::ResType,
        }
        impl ::as_gd_res::ExtractGd for NestedGenericResource {
            type Extracted = NestedGeneric<i32>;
            fn extract(&self) -> Self::Extracted {
                use ::as_gd_res::ExtractGd;
                Self::Extracted {
                    field: self.field.extract(),
                }
            }
        }
    "####;
    assert_eq!(tokens(&expand_as_gd_res(&input)), tokens(expected));
}

#[test]
fn test_option_generic_not_substituted() {
    let input = declaration(r####"
        #[as_gd_res_types(T = i32)]
        pub struct OptionGeneric<T> {
            pub field: Option<T>,
        }
    "####);
    let expected = r####"
        impl ::as_gd_res::AsGdRes for OptionGeneric<i32> {
            type ResType = ::godot::prelude::OnEditor<::godot::obj::Gd<OptionGenericResource>>;
        }
        impl ::as_gd_res::AsGdResOpt for OptionGeneric<i32> {
            type GdOption = Option<::godot::obj::Gd<OptionGenericResource>>;
        }
        impl ::as_gd_res::AsGdResArray for OptionGeneric<i32> {
            type GdArray = ::godot::prelude::Array<::godot::obj::Gd<OptionGenericResource>>;
        }
        #[derive(::godot::prelude::GodotClass)]
        #[class(tool,init,base=Resource)]
        pub struct OptionGenericResource {
            #[base]
            base: ::godot::obj::Base<::godot::classes::Resource>,
            #[export]
            pub field: <Option<T> as ::as_gd_res::AsGdRes>::ResType,
        }
        impl ::as_gd_res::ExtractGd for OptionGenericResource {
            type Extracted = OptionGeneric<i32>;
            fn extract(&self) -> Self::Extracted {
                use ::as_gd_res::ExtractGd;
                Self::Extracted {
                    field: self.field.extract(),
                }
            }
        }
    "####;
    assert_eq!(tokens(&expand_as_gd_res(&input)), tokens(expected));
}

#[test]
fn test_partial_generic_mapping() {
    let input = declaration(r####"
        #[as_gd_res_types(A = i32)]
        pub struct PartialGeneric<A, B> {
            pub field_a: A,
            pub field_b: B,
        }
    "####);
    let expected = r####"
        impl ::as_gd_res::AsGdRes for PartialGeneric<i32> {
            type ResType = ::godot::prelude::OnEditor<::godot::obj::Gd<PartialGenericResource>>;
        }
        impl ::as_gd_res::AsGdResOpt for PartialGeneric<i32> {
            type GdOption = Option<::godot::obj::Gd<PartialGenericResource>>;
        }
        impl ::as_gd_res::AsGdResArray for PartialGeneric<i32> {
            type GdArray = ::godot::prelude::Array<::godot::obj::Gd<PartialGenericResource>>;
        }
        #[derive(::godot::prelude::GodotClass)]
        #[class(tool,init,base=Resource)]
        pub struct PartialGenericResource {
            #[base]
            base: ::godot::obj::Base<::godot::classes::Resource>,
            #[export]
            pub field_a: <i32 as ::as_gd_res::AsGdRes>::ResType,
            #[export]
            pub field_b: <B as ::as_gd_res::AsGdRes>::ResType,
        }
        impl ::as_gd_res::ExtractGd for PartialGenericResource {
            type Extracted = PartialGeneric<i32>;
            fn extract(&self) -> Self::Extracted {
                use ::as_gd_res::ExtractGd;
                Self::Extracted {
                    field_a: self.field_a.extract(),
                    field_b: self.field_b.extract(),
                }
            }
        }
    "####;
    assert_eq!(tokens(&expand_as_gd_res(&input)), tokens(expected));
}

#[test]
fn struct_attributes_test_attr_pass_through() {
    let input = declaration(r####"
          pub struct DropParams2 {
            #[export(range = (100.0, 500.0))]
            #[init(val = 200.0)]
            pub total_value: f32,
            #[export(range = (0.0, 5.0))]
            #[init(val = 3.0)]
            #[var(get, set = set_max_value_per_coin)]
            pub max_value_per_coin: f32,
            pub coin_scene_1: Option<PackedScenePath>,
            pub coin_scene_2: OnEditorInit<PackedScenePath>,
            #[var]
            pub non_exported_field: u32,
        }
    "####);
    let expected = r####"
          impl ::as_gd_res::AsGdRes for DropParams2 {
              type ResType = ::godot::prelude::OnEditor<::godot::obj::Gd<DropParams2Resource>>;
          }
          impl ::as_gd_res::AsGdResOpt for DropParams2 {
              type GdOption = Option<::godot::obj::Gd<DropParams2Resource>>;
          }
          impl ::as_gd_res::AsGdResArray for DropParams2 {
              type GdArray = ::godot::prelude::Array<::godot::obj::Gd<DropParams2Resource>>;
          }
        #[derive(::godot::prelude::GodotClass)]
        #[class(tool,init,base=Resource)]
        pub struct DropParams2Resource {
            #[base]
            base: ::godot::obj::Base<::godot::classes::Resource>,
            #[export(range = (100.0, 500.0))]
            #[init(val = 200.0)]
            pub total_value: <f32 as ::as_gd_res::AsGdRes>::ResType,
            #[export(range = (0.0, 5.0))]
            #[init(val = 3.0)]
            #[var(get, set = set_max_value_per_coin)]
            pub max_value_per_coin: <f32 as ::as_gd_res::AsGdRes>::ResType,
            #[export]
            pub coin_scene_1: <Option<PackedScenePath> as ::as_gd_res::AsGdRes>::ResType,
            #[export]
            pub coin_scene_2: <OnEditorInit<PackedScenePath> as ::as_gd_res::AsGdRes>::ResType,
            #[var]
            pub non_exported_field: <u32 as ::as_gd_res::AsGdRes>::ResType,
        }
        impl ::as_gd_res::ExtractGd for DropParams2Resource {
            type Extracted = DropParams2;
            fn extract(&self) -> Self::Extracted {
                use ::as_gd_res::ExtractGd;
                Self::Extracted {
                    total_value: self.total_value.extract(),
                    max_value_per_coin: self.max_value_per_coin.extract(),
                    coin_scene_1: self.coin_scene_1.extract(),
                    coin_scene_2: self.coin_scene_2.extract(),
                    non_exported_field: self.non_exported_field.extract(),
                }
            }
        }
    "####;
    assert_eq!(tokens(&expand_as_gd_res(&input)), tokens(expected));
}

#[test]
fn struct_basic_test_simple() {
    let input = declaration(r####"
        pub struct SimpleStructParams {
            a: f32,
            b: f32,
        }
    "####);
    let expected = r####"
        impl ::as_gd_res::AsGdRes for SimpleStructParams {
            type ResType = ::godot::prelude::OnEditor<::godot::obj::Gd<SimpleStructParamsResource>>;
        }
        impl ::as_gd_res::AsGdResOpt for SimpleStructParams {
            type GdOption = Option<::godot::obj::Gd<SimpleStructParamsResource>>;
        }
        impl ::as_gd_res::AsGdResArray for SimpleStructParams {
            type GdArray = ::godot::prelude::Array<::godot::obj::Gd<SimpleStructParamsResource>>;
        }
        #[derive(::godot::prelude::GodotClass)]
        #[class(tool,init,base=Resource)]
        pub struct SimpleStructParamsResource {
            #[base]
            base: ::godot::obj::Base<::godot::classes::Resource>,
            #[export]
            pub a: <f32 as ::as_gd_res::AsGdRes>::ResType,
            #[export]
            pub b: <f32 as ::as_gd_res::AsGdRes>::ResType,
        }
        impl ::as_gd_res::ExtractGd for SimpleStructParamsResource {
            type Extracted = SimpleStructParams;
            fn extract(&self) -> Self::Extracted {
                use ::as_gd_res::ExtractGd;
                Self::Extracted {
                    a: self.a.extract(),
                    b: self.b.extract(),
                }
            }
        }
    "####;
    assert_eq!(tokens(&expand_as_gd_res(&input)), tokens(expected));
}

#[test]
fn struct_basic_test_2() {
    let input = declaration(r####"
        pub struct DropParams2 {
            pub total_value: f32,
            pub max_value_per_coin: f32,
            pub coin_scene_1: Option<PackedScenePath>,
            pub coin_scene_2: OnEditorInit<PackedScenePath>,
        }
    "####);
    let expected = r####"
        impl ::as_gd_res::AsGdRes for DropParams2 {
            type ResType = ::godot::prelude::OnEditor<::godot::obj::Gd<DropParams2Resource>>;
        }
        impl ::as_gd_res::AsGdResOpt for DropParams2 {
            type GdOption = Option<::godot::obj::Gd<DropParams2Resource>>;
        }
        impl ::as_gd_res::AsGdResArray for DropParams2 {
            type GdArray = ::godot::prelude::Array<::godot::obj::Gd<DropParams2Resource>>;
        }
        #[derive(::godot::prelude::GodotClass)]
        #[class(tool,init,base=Resource)]
        pub struct DropParams2Resource {
            #[base]
            base: ::godot::obj::Base<::godot::classes::Resource>,
            #[export]
            pub total_value: <f32 as ::as_gd_res::AsGdRes>::ResType,
            #[export]
            pub max_value_per_coin: <f32 as ::as_gd_res::AsGdRes>::ResType,
            #[export]
            pub coin_scene_1: <Option<PackedScenePath> as ::as_gd_res::AsGdRes>::ResType,
            #[export]
            pub coin_scene_2: <OnEditorInit<PackedScenePath> as ::as_gd_res::AsGdRes>::ResType,
        }
        impl ::as_gd_res::ExtractGd for DropParams2Resource {
            type Extracted = DropParams2;
            fn extract(&self) -> Self::Extracted {
                use ::as_gd_res::ExtractGd;
                Self::Extracted {
                    total_value: self.total_value.extract(),
                    max_value_per_coin: self.max_value_per_coin.extract(),
                    coin_scene_1: self.coin_scene_1.extract(),
                    coin_scene_2: self.coin_scene_2.extract(),
                }
            }
        }
    "####;
    assert_eq!(tokens(&expand_as_gd_res(&input)), tokens(expected));
}

#[test]
fn struct_nested_test_complex_nested_struct() {
    let input = declaration(r####"
        pub struct EnemyParams {
            pub brain_params_required: OnEditorInit<BrainParams>,
            pub brain_params_optional: Option<BrainParams>,
            pub brains_vec: Vec<BrainParams>,
            pub drop_params: Option<DropParams2>,
            pub damage_team: DamageTeam,
        }
    "####);
    let expected = r####"
        impl ::as_gd_res::AsGdRes for EnemyParams {
            type ResType = ::godot::prelude::OnEditor<::godot::obj::Gd<EnemyParamsResource>>;
        }
        impl ::as_gd_res::AsGdResOpt for EnemyParams {
            type GdOption = Option<::godot::obj::Gd<EnemyParamsResource>>;
        }
        impl ::as_gd_res::AsGdResArray for EnemyParams {
            type GdArray = ::godot::prelude::Array<::godot::obj::Gd<EnemyParamsResource>>;
        }
        #[derive(::godot::prelude::GodotClass)]
        #[class(tool,init,base=Resource)]
        pub struct EnemyParamsResource {
            #[base]
            base: ::godot::obj::Base<::godot::classes::Resource>,
            #[export]
            pub brain_params_required: <OnEditorInit<BrainParams> as ::as_gd_res::AsGdRes>::ResType,
            #[export]
            pub brain_params_optional: <Option<BrainParams> as ::as_gd_res::AsGdRes>::ResType,
            #[export]
            pub brains_vec: <Vec<BrainParams> as ::as_gd_res::AsGdRes>::ResType,
            #[export]
            pub drop_params: <Option<DropParams2> as ::as_gd_res::AsGdRes>::ResType,
            #[export]
            pub damage_team: <DamageTeam as ::as_gd_res::AsGdRes>::ResType,
        }
        impl ::as_gd_res::ExtractGd for EnemyParamsResource {
            type Extracted = EnemyParams;
            fn extract(&self) -> Self::Extracted {
                use ::as_gd_res::ExtractGd;
                Self::Extracted {
                    brain_params_required: self.brain_params_required.extract(),
                    brain_params_optional: self.brain_params_optional.extract(),
                    brains_vec: self.brains_vec.extract(),
                    drop_params: self.drop_params.extract(),
                    damage_team: self.damage_team.extract(),
                }
            }
        }
    "####;
    assert_eq!(tokens(&expand_as_gd_res(&input)), tokens(expected));
}

#[test]
fn struct_post_init_test_post_init_attr() {
    let input = declaration(r####"
        #[as_gd_res(post_init = calculate_jump_params)]
        pub struct JumpParams {
            #[export(range = (0.0, 10.0))]
            #[var(get, set = set_height)]
            #[init(val = 3.5)]
            pub height: f32,
            #[export(range = (0.0, 10.0))]
            #[var(get, set = set_time_up)]
            #[init(val = 0.5)]
            pub time_up: f32,
            #[export(range = (0.0, 10.0))]
            #[var(get, set = set_time_down)]
            #[init(val = 0.4)]
            pub time_down: f32,
            #[export(range = (0.0, 1.0))]
            #[init(val = 0.25)]
            pub jump_vel_end_cut: f32,
            #[export(range = (0.0, 3.0))]
            #[init(val = 1.2)]
            #[var(get, set = set_terminal_vel_fall_mult)]
            pub terminal_vel_fall_mult: f32,
            #[var]
            pub jump_vel: f32,
            #[var]
            pub grav_ascent_acc: f32,
            #[var]
            pub grav_falling_acc: f32,
            #[var]
            pub jump_landing_vel: f32,
            #[var]
            pub terminal_vel: f32,
        }
    "####);
    let expected = r####"
        impl ::as_gd_res::AsGdRes for JumpParams {
            type ResType = ::godot::prelude::OnEditor<::godot::obj::Gd<JumpParamsResource>>;
        }
        impl ::as_gd_res::AsGdResOpt for JumpParams {
            type GdOption = Option<::godot::obj::Gd<JumpParamsResource>>;
        }
        impl ::as_gd_res::AsGdResArray for JumpParams {
            type GdArray = ::godot::prelude::Array<::godot::obj::Gd<JumpParamsResource>>;
        }
        #[derive(::godot::prelude::GodotClass)]
        #[class(tool,base = Resource)]
        pub struct JumpParamsResource {
            #[base]
            base: ::godot::obj::Base<::godot::classes::Resource>,
            #[export(range = (0.0,10.0))]
            #[var(get,set = set_height)]
            pub height: <f32 as ::as_gd_res::AsGdRes>::ResType,
            #[export(range = (0.0,10.0))]
            #[var(get,set = set_time_up)]
            pub time_up: <f32 as ::as_gd_res::AsGdRes>::ResType,
            #[export(range = (0.0,10.0))]
            #[var(get,set = set_time_down)]
            pub time_down: <f32 as ::as_gd_res::AsGdRes>::ResType,
            #[export(range = (0.0,1.0))]
            pub jump_vel_end_cut: <f32 as ::as_gd_res::AsGdRes>::ResType,
            #[export(range = (0.0,3.0))]
            #[var(get,set = set_terminal_vel_fall_mult)]
            pub terminal_vel_fall_mult: <f32 as ::as_gd_res::AsGdRes>::ResType,
            #[var]
            pub jump_vel: <f32 as ::as_gd_res::AsGdRes>::ResType,
            #[var]
            pub grav_ascent_acc: <f32 as ::as_gd_res::AsGdRes>::ResType,
            #[var]
            pub grav_falling_acc: <f32 as ::as_gd_res::AsGdRes>::ResType,
            #[var]
            pub jump_landing_vel: <f32 as ::as_gd_res::AsGdRes>::ResType,
            #[var]
            pub terminal_vel: <f32 as ::as_gd_res::AsGdRes>::ResType,
        }
        impl ::as_gd_res::ExtractGd for JumpParamsResource {
            type Extracted = JumpParams;
            fn extract(&self) -> Self::Extracted {
                use ::as_gd_res::ExtractGd;
                Self::Extracted {
                    height: self.height.extract(),
                    time_up: self.time_up.extract(),
                    time_down: self.time_down.extract(),
                    jump_vel_end_cut: self.jump_vel_end_cut.extract(),
                    terminal_vel_fall_mult: self.terminal_vel_fall_mult.extract(),
                    jump_vel: self.jump_vel.extract(),
                    grav_ascent_acc: self.grav_ascent_acc.extract(),
                    grav_falling_acc: self.grav_falling_acc.extract(),
                    jump_landing_vel: self.jump_landing_vel.extract(),
                    terminal_vel: self.terminal_vel.extract(),
                }
            }
        }
        #[godot_api]
        impl ::godot::prelude::IResource for JumpParamsResource {
            fn init(base: ::godot::prelude::Base<::godot::prelude::Resource>) -> Self {
                let mut res = Self {
                    base,
                    height: 3.5.into(),
                    time_up: 0.5.into(),
                    time_down: 0.4.into(),
                    jump_vel_end_cut: 0.25.into(),
                    terminal_vel_fall_mult: 1.2.into(),
                    jump_vel: Default::default(),
                    grav_ascent_acc: Default::default(),
                    grav_falling_acc: Default::default(),
                    jump_landing_vel: Default::default(),
                    terminal_vel: Default::default(),
                };
                res.calculate_jump_params();
                res
            }
        }
    "####;
    assert_eq!(tokens(&expand_as_gd_res(&input)), tokens(expected));
}

#[test]
fn test_struct_with_generics() {
    let input = declaration(r####"
        #[as_gd_res_types(T1 = i32, T2 = String)]
        pub struct StructWithGenerics<T1, T2> {
            pub field1: T1,
            pub field2: T2,
        }
    "####);
    let expected = r####"
        impl ::as_gd_res::AsGdRes for StructWithGenerics<i32, String> {
            type ResType = ::godot::prelude::OnEditor<::godot::obj::Gd<StructWithGenericsResource>>;
        }
        impl ::as_gd_res::AsGdResOpt for StructWithGenerics<i32, String> {
            type GdOption = Option<::godot::obj::Gd<StructWithGenericsResource>>;
        }
        impl ::as_gd_res::AsGdResArray for StructWithGenerics<i32, String> {
            type GdArray = ::godot::prelude::Array<::godot::obj::Gd<StructWithGenericsResource>>;
        }
        #[derive(::godot::prelude::GodotClass)]
        #[class(tool,init,base=Resource)]
        pub struct StructWithGenericsResource {
            #[base]
            base: ::godot::obj::Base<::godot::classes::Resource>,
            #[export]
            pub field1: <i32 as ::as_gd_res::AsGdRes>::ResType,
            #[export]
            pub field2: <String as ::as_gd_res::AsGdRes>::ResType,
        }
        impl ::as_gd_res::ExtractGd for StructWithGenericsResource {
            type Extracted = StructWithGenerics<i32, String>;
            fn extract(&self) -> Self::Extracted {
                use ::as_gd_res::ExtractGd;
                Self::Extracted {
                    field1: self.field1.extract(),
                    field2: self.field2.extract(),
                }
            }
        }
    "####;
    assert_eq!(tokens(&expand_as_gd_res(&input)), tokens(expected));
}
