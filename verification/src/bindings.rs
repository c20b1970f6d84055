//! Reading the binding table of a declaration from its annotations:
//! `as_gd_res_types(T = i32, U = Vec<u8>)`.

use vstd::prelude::*;
use vstd::string::*;
use crate::schema::{Annotation, AnnotationForm, AnnotationView, TypeExpr, TypeExprView, annotations_view};
use crate::substitute::{GenericBinding, GenericBindingView, bindings_view};
use crate::text::str_equal;
use crate::token::{Token, TokenKind, TokenView, between, tokens_between, tokens_view};

verus! {

/// The entries of a binding table, none where there is no table.
pub open spec fn entries(table: Option<Seq<GenericBindingView>>) -> Seq<GenericBindingView> {
    match table {
        Some(t) => t,
        None => Seq::empty(),
    }
}

/// What is written between two neighbouring tokens: a space, unless one of
/// them is punctuation.
pub open spec fn gap(left: TokenView, right: TokenView) -> Seq<char> {
    if left.kind == TokenKind::Punct || right.kind == TokenKind::Punct {
        Seq::empty()
    } else {
        " "@
    }
}

/// The tokens written one after another.
pub open spec fn written(tokens: Seq<TokenView>) -> Seq<char>
    decreases tokens.len(),
{
    if tokens.len() == 0 {
        Seq::empty()
    } else if tokens.len() == 1 {
        tokens[0].text
    } else {
        written(tokens.drop_last()) + gap(tokens[tokens.len() - 2], tokens.last())
            + tokens.last().text
    }
}

/// Whether none of the tokens is a group.
pub open spec fn without_group(tokens: Seq<TokenView>) -> bool {
    forall|i: int| 0 <= i < tokens.len() ==> (#[trigger] tokens[i]).kind != TokenKind::Group
}

/// The type that the tokens of a binding name: the tokens as written. Its
/// last segment is known only where the type is a single identifier.
pub open spec fn type_of_tokens(tokens: Seq<TokenView>) -> TypeExprView {
    TypeExprView {
        text: written(tokens),
        path_tail: if tokens.len() == 1 && tokens[0].kind == TokenKind::Ident {
            Some(tokens[0].text)
        } else {
            None
        },
        tokens,
    }
}

/// Whether the tokens between two commas are a binding: a name, `=`, and a
/// type of at least one token and without a group.
pub open spec fn is_entry(segment: Seq<TokenView>) -> bool {
    &&& segment.len() >= 3
    &&& segment[0].kind == TokenKind::Ident
    &&& segment[1].kind == TokenKind::Punct
    &&& segment[1].text == "="@
    &&& without_group(segment.subrange(2, segment.len() as int))
}

/// The binding that the tokens between two commas make; none where they are
/// no binding.
pub open spec fn entry_of(segment: Seq<TokenView>) -> Seq<GenericBindingView> {
    if is_entry(segment) {
        seq![
            GenericBindingView {
                parameter: segment[0].text,
                concrete: type_of_tokens(segment.subrange(2, segment.len() as int)),
            },
        ]
    } else {
        Seq::empty()
    }
}

/// The nesting in angle brackets behind a token.
pub open spec fn depth_behind(depth: int, t: TokenView) -> int {
    if t.kind == TokenKind::Punct && t.text == "<"@ {
        depth + 1
    } else if t.kind == TokenKind::Punct && t.text == ">"@ && depth > 0 {
        depth - 1
    } else {
        depth
    }
}

/// The bindings in the tokens from `start` on, where the tokens up to `at`
/// are read and `depth` is the nesting in angle brackets at `at`. A comma
/// outside angle brackets ends a binding.
pub open spec fn entries_from(tokens: Seq<TokenView>, start: int, at: int, depth: int) -> Seq<
    GenericBindingView,
>
    decreases tokens.len() - at,
{
    if at < 0 || at >= tokens.len() {
        entry_of(between(tokens, start, tokens.len() as int))
    } else if depth == 0 && tokens[at].kind == TokenKind::Punct && tokens[at].text == ","@ {
        entry_of(between(tokens, start, at)) + entries_from(tokens, at + 1, at + 1, 0)
    } else {
        entries_from(tokens, start, at + 1, depth_behind(depth, tokens[at]))
    }
}

/// The bindings that the argument list of one table holds, in order. What
/// stands between two commas and is no binding is passed over.
pub open spec fn entries_of(tokens: Seq<TokenView>) -> Seq<GenericBindingView> {
    entries_from(tokens, 0, 0, 0)
}

/// Whether an annotation is a binding table.
pub open spec fn is_table(a: AnnotationView) -> bool {
    a.name == "as_gd_res_types"@ && a.form == AnnotationForm::List
}

/// The binding table that a declaration's annotations give: none where no
/// annotation is a table, else the bindings of all tables in order.
pub open spec fn table_of(annotations: Seq<AnnotationView>) -> Option<Seq<GenericBindingView>>
    decreases annotations.len(),
{
    if annotations.len() == 0 {
        None
    } else {
        let before = table_of(annotations.drop_last());
        if is_table(annotations.last()) {
            Some(entries(before) + entries_of(annotations.last().tokens))
        } else {
            before
        }
    }
}

/// The mathematical value of an optional binding table.
pub open spec fn optional_bindings_view(bindings: Option<Vec<GenericBinding>>) -> Option<
    Seq<GenericBindingView>,
> {
    match bindings {
        Some(b) => Some(bindings_view(b@)),
        None => None,
    }
}

/// Writes tokens one after another.
pub fn write_tokens(tokens: &Vec<Token>) -> (out: String)
    ensures
        out@ == written(tokens_view(tokens@)),
{
    let ghost views = tokens_view(tokens@);
    let mut out = String::new();
    let mut i: usize = 0;
    while i < tokens.len()
        invariant
            i <= tokens.len(),
            views == tokens_view(tokens@),
            out@ == written(views.take(i as int)),
        decreases tokens.len() - i,
    {
        proof {
            let next = views.take(i + 1);
            assert(next.drop_last() == views.take(i as int));
            assert(next.last() == tokens[i as int]@);
            if i > 0 {
                assert(next[next.len() - 2] == tokens[i - 1]@);
            }
        }
        if i > 0 && tokens[i - 1].kind != TokenKind::Punct && tokens[i].kind != TokenKind::Punct {
            out.append(" ");
        }
        out.append(tokens[i].text.as_str());
        proof {
            assert(out@ == written(views.take(i + 1)));
        }
        i += 1;
    }
    proof {
        assert(views.take(tokens.len() as int) == views);
    }
    out
}

/// Whether none of the tokens is a group.
pub fn has_no_group(tokens: &Vec<Token>) -> (b: bool)
    ensures
        b == without_group(tokens_view(tokens@)),
{
    let ghost views = tokens_view(tokens@);
    let mut i: usize = 0;
    while i < tokens.len()
        invariant
            i <= tokens.len(),
            views == tokens_view(tokens@),
            forall|k: int| 0 <= k < i ==> (#[trigger] views[k]).kind != TokenKind::Group,
        decreases tokens.len() - i,
    {
        proof {
            assert(views[i as int] == tokens[i as int]@);
        }
        if tokens[i].kind == TokenKind::Group {
            return false;
        }
        i += 1;
    }
    true
}

/// The type that the tokens of a binding name.
pub fn type_from_tokens(tokens: Vec<Token>) -> (ty: TypeExpr)
    ensures
        ty@ == type_of_tokens(tokens_view(tokens@)),
{
    let text = write_tokens(&tokens);
    let path_tail = if tokens.len() == 1 && tokens[0].kind == TokenKind::Ident {
        proof {
            assert(tokens_view(tokens@)[0] == tokens[0]@);
        }
        Some(tokens[0].text.clone())
    } else {
        proof {
            if tokens.len() == 1 {
                assert(tokens_view(tokens@)[0] == tokens[0]@);
            }
        }
        None
    };
    TypeExpr { text, path_tail, tokens }
}

/// Appends the binding that the tokens from `start` up to `end` make, if they make one.
fn push_entry(tokens: &Vec<Token>, start: usize, end: usize, out: &mut Vec<GenericBinding>)
    ensures
        bindings_view(final(out)@) == bindings_view(old(out)@) + entry_of(
            between(tokens_view(tokens@), start as int, end as int),
        ),
{
    let segment = tokens_between(tokens, start, end);
    let ghost views = tokens_view(segment@);
    let ghost before = out@;
    proof {
        if segment.len() >= 2 {
            assert(views[0] == segment[0]@);
            assert(views[1] == segment[1]@);
        }
    }
    if segment.len() >= 3 && segment[0].kind == TokenKind::Ident && segment[1].is_punct("=") {
        let ty_tokens = tokens_between(&segment, 2, segment.len());
        if has_no_group(&ty_tokens) {
            let binding = GenericBinding {
                parameter: segment[0].text.clone(),
                concrete: type_from_tokens(ty_tokens),
            };
            proof {
                assert(entry_of(views) == seq![binding@]);
            }
            out.push(binding);
            proof {
                assert(bindings_view(out@) == bindings_view(before).push(out@.last()@));
                assert(bindings_view(before).push(out@.last()@) == bindings_view(before) + seq![
                    out@.last()@,
                ]);
            }
            return;
        }
    }
    proof {
        assert(entry_of(views) == Seq::<GenericBindingView>::empty());
        assert(bindings_view(before) + Seq::<GenericBindingView>::empty() == bindings_view(before));
    }
}

/// Appends the bindings that the argument list of one table holds.
pub fn read_entries(tokens: &Vec<Token>, out: &mut Vec<GenericBinding>)
    ensures
        bindings_view(final(out)@) == bindings_view(old(out)@) + entries_of(tokens_view(tokens@)),
{
    let ghost views = tokens_view(tokens@);
    let ghost wanted = bindings_view(out@) + entries_of(views);
    let mut start: usize = 0;
    let mut at: usize = 0;
    let mut depth: usize = 0;
    while at < tokens.len()
        invariant
            start <= at <= tokens.len(),
            depth <= at,
            views == tokens_view(tokens@),
            bindings_view(out@) + entries_from(views, start as int, at as int, depth as int)
                == wanted,
        decreases tokens.len() - at,
    {
        proof {
            assert(views[at as int] == tokens[at as int]@);
        }
        let ghost before = bindings_view(out@);
        if depth == 0 && tokens[at].is_punct(",") {
            push_entry(tokens, start, at, out);
            proof {
                let entry = entry_of(between(views, start as int, at as int));
                let rest = entries_from(views, at + 1, at + 1, 0);
                assert((before + entry) + rest == before + (entry + rest));
            }
            start = at + 1;
            depth = 0;
        } else if tokens[at].is_punct("<") {
            depth += 1;
        } else if tokens[at].is_punct(">") && depth > 0 {
            depth -= 1;
        }
        at += 1;
    }
    push_entry(tokens, start, tokens.len(), out);
}

/// Reads the binding table of a declaration from its annotations: `None`
/// where no annotation is a table, else the bindings of all tables in order.
pub fn binding_table(annotations: &Vec<Annotation>) -> (table: Option<Vec<GenericBinding>>)
    ensures
        optional_bindings_view(table) == table_of(annotations_view(annotations@)),
{
    let ghost views = annotations_view(annotations@);
    let mut found = false;
    let mut out: Vec<GenericBinding> = Vec::new();
    let mut i: usize = 0;
    proof {
        assert(bindings_view(out@) == Seq::<GenericBindingView>::empty());
    }
    while i < annotations.len()
        invariant
            i <= annotations.len(),
            views == annotations_view(annotations@),
            found == table_of(views.take(i as int)).is_some(),
            bindings_view(out@) == entries(table_of(views.take(i as int))),
        decreases annotations.len() - i,
    {
        let a = &annotations[i];
        proof {
            assert(views.take(i + 1).drop_last() == views.take(i as int));
            assert(views.take(i + 1).last() == a@);
        }
        if str_equal(a.name.as_str(), "as_gd_res_types") && a.form == AnnotationForm::List {
            read_entries(&a.tokens, &mut out);
            found = true;
        }
        i += 1;
    }
    proof {
        assert(views.take(annotations.len() as int) == views);
    }
    if found {
        Some(out)
    } else {
        None
    }
}

} // verus!
