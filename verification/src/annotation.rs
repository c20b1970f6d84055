//! Classification of annotations: which are carried onto a generated field,
//! when a default display annotation is synthesized, and which value an
//! annotation assigns to a key.

use vstd::prelude::*;
use crate::schema::{Annotation, AnnotationForm, AnnotationView, annotations_view};
use crate::text::{option_string_view, str_equal, strings_view};
use crate::token::{Token, TokenKind, TokenView, tokens_view};

verus! {

/// The kinds of annotation that the generators tell apart.
#[derive(Clone, Copy, Debug, PartialEq, Eq, Structural)]
pub enum AnnotationKind {
    /// Display/editable: `export`.
    Display,
    /// Persisted variable: `var`.
    Persisted,
    /// Initial-value hint: `init`.
    InitialValue,
    /// A directive to the generator itself: `as_gd_res`, `as_gd_res_types`.
    Directive,
    /// Anything else.
    Unrecognized,
}

/// The kind of an annotation, by its name alone.
pub open spec fn kind_of(a: AnnotationView) -> AnnotationKind {
    if a.name == "export"@ {
        AnnotationKind::Display
    } else if a.name == "var"@ {
        AnnotationKind::Persisted
    } else if a.name == "init"@ {
        AnnotationKind::InitialValue
    } else if a.name == "as_gd_res"@ || a.name == "as_gd_res_types"@ {
        AnnotationKind::Directive
    } else {
        AnnotationKind::Unrecognized
    }
}

/// Whether an annotation of this kind is carried onto the generated field.
/// With a post-construction hook the initial-value hints are consumed by the
/// constructor and dropped from the field.
pub open spec fn is_carried(kind: AnnotationKind, hook: bool) -> bool {
    match kind {
        AnnotationKind::Display => true,
        AnnotationKind::Persisted => true,
        AnnotationKind::InitialValue => !hook,
        AnnotationKind::Directive => false,
        AnnotationKind::Unrecognized => false,
    }
}

/// The texts of the carried annotations, in the declared order.
pub open spec fn carried_texts(annotations: Seq<AnnotationView>, hook: bool) -> Seq<Seq<char>>
    decreases annotations.len(),
{
    if annotations.len() == 0 {
        Seq::empty()
    } else {
        let rest = carried_texts(annotations.drop_last(), hook);
        if is_carried(kind_of(annotations.last()), hook) {
            rest.push(annotations.last().text)
        } else {
            rest
        }
    }
}

/// The text of the synthesized default display annotation.
pub open spec fn default_display_text() -> Seq<char> {
    "#[export]"@
}

/// The annotations emitted on a generated field: the carried ones, or the one
/// default display annotation where none is carried.
pub open spec fn emitted_texts(annotations: Seq<AnnotationView>, hook: bool) -> Seq<Seq<char>> {
    let carried = carried_texts(annotations, hook);
    if carried.len() == 0 {
        seq![default_display_text()]
    } else {
        carried
    }
}

/// Scans `tokens` from position `from` for `key`, one skipped token, and a
/// token of kind `wanted`; gives that token's text. Where the token after the
/// skipped one is of another kind, the scan goes on behind it.
pub open spec fn scan_assigned(
    tokens: Seq<TokenView>,
    key: Seq<char>,
    wanted: TokenKind,
    from: int,
) -> Option<Seq<char>>
    decreases tokens.len() - from,
{
    if from < 0 || from >= tokens.len() {
        None
    } else if tokens[from].kind == TokenKind::Ident && tokens[from].text == key {
        if from + 2 < tokens.len() {
            if tokens[from + 2].kind == wanted {
                Some(tokens[from + 2].text)
            } else {
                scan_assigned(tokens, key, wanted, from + 3)
            }
        } else {
            None
        }
    } else {
        scan_assigned(tokens, key, wanted, from + 1)
    }
}

/// What one annotation assigns to `key`, if it is named `name` and has an argument list.
pub open spec fn assigned_here(
    a: AnnotationView,
    name: Seq<char>,
    key: Seq<char>,
    wanted: TokenKind,
) -> Option<Seq<char>> {
    if a.name == name && a.form == AnnotationForm::List {
        scan_assigned(a.tokens, key, wanted, 0)
    } else {
        None
    }
}

/// What a list of annotations assigns to `key`: the assignment of the last
/// annotation that makes one.
pub open spec fn assigned_value(
    annotations: Seq<AnnotationView>,
    name: Seq<char>,
    key: Seq<char>,
    wanted: TokenKind,
) -> Option<Seq<char>>
    decreases annotations.len(),
{
    if annotations.len() == 0 {
        None
    } else {
        match assigned_here(annotations.last(), name, key, wanted) {
            Some(v) => Some(v),
            None => assigned_value(annotations.drop_last(), name, key, wanted),
        }
    }
}

/// The literal of a field's initial-value hint: `init(val = <literal>)`.
pub open spec fn initial_value_of(annotations: Seq<AnnotationView>) -> Option<Seq<char>> {
    assigned_value(annotations, "init"@, "val"@, TokenKind::Literal)
}

/// The post-construction hook that a declaration names: `as_gd_res(post_init = <name>)`.
pub open spec fn hook_of(annotations: Seq<AnnotationView>) -> Option<Seq<char>> {
    assigned_value(annotations, "as_gd_res"@, "post_init"@, TokenKind::Ident)
}

/// Classifies one annotation.
pub fn classify(a: &Annotation) -> (kind: AnnotationKind)
    ensures
        kind == kind_of(a@),
{
    let name = a.name.as_str();
    if str_equal(name, "export") {
        AnnotationKind::Display
    } else if str_equal(name, "var") {
        AnnotationKind::Persisted
    } else if str_equal(name, "init") {
        AnnotationKind::InitialValue
    } else if str_equal(name, "as_gd_res") || str_equal(name, "as_gd_res_types") {
        AnnotationKind::Directive
    } else {
        AnnotationKind::Unrecognized
    }
}

/// Whether an annotation of `kind` is carried onto the generated field.
pub fn carries(kind: AnnotationKind, hook: bool) -> (b: bool)
    ensures
        b == is_carried(kind, hook),
{
    match kind {
        AnnotationKind::Display => true,
        AnnotationKind::Persisted => true,
        AnnotationKind::InitialValue => !hook,
        AnnotationKind::Directive => false,
        AnnotationKind::Unrecognized => false,
    }
}

/// The annotations to emit on the generated field for a field that carries
/// `annotations`: each carried one verbatim and in order, or the one default
/// display annotation where none is carried.
pub fn emitted_annotations(annotations: &Vec<Annotation>, hook: bool) -> (out: Vec<String>)
    ensures
        strings_view(out@) == emitted_texts(annotations_view(annotations@), hook),
{
    let ghost views = annotations_view(annotations@);
    let mut out: Vec<String> = Vec::new();
    let mut i: usize = 0;
    while i < annotations.len()
        invariant
            i <= annotations.len(),
            views == annotations_view(annotations@),
            strings_view(out@) == carried_texts(views.take(i as int), hook),
        decreases annotations.len() - i,
    {
        let a = &annotations[i];
        proof {
            assert(views.take(i + 1).drop_last() == views.take(i as int));
            assert(views.take(i + 1).last() == a@);
        }
        let ghost before = out@;
        if carries(classify(a), hook) {
            out.push(a.text.clone());
            proof {
                assert(strings_view(out@) == strings_view(
                    before,
                ).push(a.text@));
            }
        }
        i += 1;
    }
    proof {
        assert(views.take(annotations.len() as int) == views);
    }
    if out.len() == 0 {
        out.push("#[export]".to_string());
        proof {
            assert(strings_view(out@) == seq![default_display_text()]);
        }
    }
    out
}

/// Scans the tokens of one argument list for an assignment to `key` of a
/// token of kind `wanted`.
pub fn find_assigned(tokens: &Vec<Token>, key: &str, wanted: TokenKind) -> (found: Option<String>)
    ensures
        option_string_view(found) == scan_assigned(
            tokens_view(tokens@),
            key@,
            wanted,
            0,
        ),
{
    let ghost views = tokens_view(tokens@);
    let mut i: usize = 0;
    while i < tokens.len()
        invariant
            i <= tokens.len() + 2,
            views == tokens_view(tokens@),
            scan_assigned(views, key@, wanted, 0) == scan_assigned(views, key@, wanted, i as int),
        decreases tokens.len() + 2 - i,
    {
        if tokens[i].is_ident(key) {
            if tokens.len() - i > 2 {
                if tokens[i + 2].kind == wanted {
                    return Some(tokens[i + 2].text.clone());
                }
                i += 3;
            } else {
                return None;
            }
        } else {
            i += 1;
        }
    }
    None
}

/// What `annotations` assign to `key` under the annotation `name`: the
/// assignment of the last annotation that makes one.
pub fn find_assigned_value(
    annotations: &Vec<Annotation>,
    name: &str,
    key: &str,
    wanted: TokenKind,
) -> (found: Option<String>)
    ensures
        option_string_view(found) == assigned_value(
            annotations_view(annotations@),
            name@,
            key@,
            wanted,
        ),
{
    let ghost views = annotations_view(annotations@);
    let mut found: Option<String> = None;
    let mut i: usize = 0;
    while i < annotations.len()
        invariant
            i <= annotations.len(),
            views == annotations_view(annotations@),
            option_string_view(found) == assigned_value(
                views.take(i as int),
                name@,
                key@,
                wanted,
            ),
        decreases annotations.len() - i,
    {
        let a = &annotations[i];
        proof {
            assert(views.take(i + 1).drop_last() == views.take(i as int));
            assert(views.take(i + 1).last() == a@);
        }
        if str_equal(a.name.as_str(), name) && a.form == AnnotationForm::List {
            let here = find_assigned(&a.tokens, key, wanted);
            if here.is_some() {
                found = here;
            }
        }
        i += 1;
    }
    proof {
        assert(views.take(annotations.len() as int) == views);
    }
    found
}

/// The literal of the initial-value hint among a field's annotations.
pub fn initial_value(annotations: &Vec<Annotation>) -> (value: Option<String>)
    ensures
        option_string_view(value) == initial_value_of(annotations_view(annotations@)),
{
    find_assigned_value(annotations, "init", "val", TokenKind::Literal)
}

/// The post-construction hook named among a declaration's annotations.
pub fn post_construction_hook(annotations: &Vec<Annotation>) -> (hook: Option<String>)
    ensures
        option_string_view(hook) == hook_of(annotations_view(annotations@)),
{
    find_assigned_value(annotations, "as_gd_res", "post_init", TokenKind::Ident)
}

} // verus!
