use as_gd_res_derive::schema::TypeExpr;
use as_gd_res_derive::substitute::{clone_type, lookup_binding, substitute, GenericBinding};
use as_gd_res_derive::token::TokenKind;

fn token_texts(ty: &TypeExpr) -> Vec<String> {
    ty.tokens.iter().map(|t| t.text.clone()).collect()
}

fn binding(parameter: &str, concrete: &str) -> GenericBinding {
    GenericBinding { parameter: parameter.to_string(), concrete: TypeExpr::parse(concrete) }
}

#[test]
fn parse_knows_the_last_segment_of_a_path() {
    assert_eq!(TypeExpr::parse("f32").path_tail, Some("f32".to_string()));
    assert_eq!(TypeExpr::parse("Option<PackedScenePath>").path_tail, Some("Option".to_string()));
    assert_eq!(TypeExpr::parse("std::collections::HashMap<K, V>").path_tail, Some("HashMap".to_string()));
    assert_eq!(TypeExpr::parse("<T as Iterator>::Item").path_tail, Some("Item".to_string()));
    assert_eq!(TypeExpr::parse("::godot::obj::Gd<Node>").path_tail, Some("Gd".to_string()));
}

#[test]
fn parse_knows_no_segment_of_another_type() {
    assert_eq!(TypeExpr::parse("&str").path_tail, None);
    assert_eq!(TypeExpr::parse("(u8, u8)").path_tail, None);
    assert_eq!(TypeExpr::parse("[f32; 4]").path_tail, None);
    assert_eq!(TypeExpr::parse("dyn Extract").path_tail, None);
    assert_eq!(TypeExpr::parse("fn(u8) -> u8").path_tail, None);
    assert_eq!(TypeExpr::parse("not a type").path_tail, None);
    assert_eq!(TypeExpr::parse("").path_tail, None);
}

#[test]
fn parse_keeps_the_text_and_the_tokens() {
    let ty = TypeExpr::parse("Option<PackedScenePath>");
    assert_eq!(ty.text, "Option<PackedScenePath>");
    assert_eq!(token_texts(&ty), vec!["Option", "<", "PackedScenePath", ">"]);
    assert_eq!(ty.tokens[0].kind, TokenKind::Ident);
    assert_eq!(ty.tokens[1].kind, TokenKind::Punct);
    let spaced = TypeExpr::parse("Option < PackedScenePath >");
    assert_eq!(spaced.text, "Option < PackedScenePath >");
    assert_eq!(token_texts(&spaced), token_texts(&ty));
    let tuple = TypeExpr::parse("(u8, u8)");
    assert_eq!(token_texts(&tuple), vec!["("]);
    assert_eq!(tuple.tokens[0].kind, TokenKind::Group);
    let broken = TypeExpr::parse("Vec<(u8");
    assert_eq!(broken.text, "Vec<(u8");
    assert!(broken.tokens.is_empty());
}

#[test]
fn named_is_a_single_identifier() {
    let ty = TypeExpr::named("Number");
    assert_eq!(ty.text, "Number");
    assert_eq!(ty.path_tail, Some("Number".to_string()));
    assert_eq!(token_texts(&ty), vec!["Number"]);
    let parsed = TypeExpr::parse("Number");
    assert_eq!(parsed.path_tail, ty.path_tail);
    assert_eq!(token_texts(&parsed), token_texts(&ty));
}

#[test]
fn a_bound_parameter_is_replaced() {
    let table = vec![binding("T", "i32")];
    let out = substitute(&TypeExpr::parse("T"), &table);
    assert_eq!(out.text, "i32");
    assert_eq!(out.path_tail, Some("i32".to_string()));
}

#[test]
fn a_parameter_inside_a_container_is_not_replaced() {
    let table = vec![binding("T", "i32")];
    assert_eq!(substitute(&TypeExpr::parse("Vec<T>"), &table).text, "Vec<T>");
    assert_eq!(substitute(&TypeExpr::parse("Option<T>"), &table).text, "Option<T>");
    assert_eq!(substitute(&TypeExpr::parse("(T, T)"), &table).text, "(T, T)");
    assert_eq!(substitute(&TypeExpr::parse("&T"), &table).text, "&T");
}

#[test]
fn an_unbound_parameter_stays() {
    let table = vec![binding("A", "i32")];
    assert_eq!(substitute(&TypeExpr::parse("B"), &table).text, "B");
    assert_eq!(substitute(&TypeExpr::parse("A"), &Vec::new()).text, "A");
}

#[test]
fn the_first_binding_of_a_parameter_counts() {
    let table = vec![binding("T", "i32"), binding("U", "Vec<u8>"), binding("T", "bool")];
    assert_eq!(lookup_binding(&table, "T").unwrap().text, "i32");
    assert_eq!(lookup_binding(&table, "U").unwrap().text, "Vec<u8>");
    assert!(lookup_binding(&table, "V").is_none());
    assert_eq!(substitute(&TypeExpr::parse("T"), &table).text, "i32");
}

#[test]
fn a_bound_type_is_not_substituted_again() {
    let table = vec![binding("T", "U"), binding("U", "i32")];
    assert_eq!(substitute(&TypeExpr::parse("T"), &table).text, "U");
}

#[test]
fn clone_type_copies_every_part() {
    let ty = TypeExpr::parse("Vec<BrainParams>");
    let copy = clone_type(&ty);
    assert_eq!(copy.text, ty.text);
    assert_eq!(copy.path_tail, ty.path_tail);
    assert_eq!(token_texts(&copy), token_texts(&ty));
}
