//! Reading annotations and type expressions from source text.

use vstd::prelude::*;
use vstd::string::*;
use proc_macro2::{Delimiter, TokenTree};
use crate::schema::{Annotation, AnnotationForm, AnnotationView, TypeExpr};
use crate::text::str_equal;
use crate::token::{Token, TokenKind, TokenView, tokens_from, tokens_view};

verus! {

/// `TokenStream::from_str` of proc-macro2, and the walk over the stream it
/// gives: for each top-level token tree in order its kind, and the text of
/// an identifier, a punctuation character or a literal, or the opening
/// delimiter of a group; `None` where the lexer refuses the text. Which
/// lexer works depends on the process, so nothing is claimed of the result.
#[verifier::external_body]
pub(crate) fn lex(text: &str) -> (tokens: Option<Vec<Token>>) {
    let stream = text.parse::<proc_macro2::TokenStream>().ok()?;
    let convert = |tree| match tree {
        TokenTree::Ident(t) => Token::new(TokenKind::Ident, &t.to_string()),
        TokenTree::Punct(t) => Token::new(TokenKind::Punct, &t.to_string()),
        TokenTree::Literal(t) => Token::new(TokenKind::Literal, &t.to_string()),
        TokenTree::Group(t) => match t.delimiter() {
            Delimiter::Parenthesis => Token::new(TokenKind::Group, "("),
            Delimiter::Brace => Token::new(TokenKind::Group, "{"),
            Delimiter::Bracket => Token::new(TokenKind::Group, "["),
            Delimiter::None => Token::new(TokenKind::Group, ""),
        },
    };
    Some(stream.into_iter().map(convert).collect())
}

/// `syn::parse_str` at the type `syn::Type`: the identifier of the last
/// segment where the text parses as a type and that type is a path, `None`
/// otherwise. It lexes as `lex` does, so nothing is claimed of the result.
#[verifier::external_body]
pub(crate) fn parse_path_tail(text: &str) -> (tail: Option<String>) {
    match syn::parse_str::<syn::Type>(text) {
        Ok(syn::Type::Path(path)) => path.path.segments.last().map(|s| s.ident.to_string()),
        _ => None,
    }
}

/// The position of the first `c` in `s` at or behind `from`; the length of
/// `s` where there is none.
pub open spec fn first_position(s: Seq<char>, c: char, from: int) -> int
    decreases s.len() - from,
{
    if from < 0 || from >= s.len() {
        s.len() as int
    } else if s[from] == c {
        from
    } else {
        first_position(s, c, from + 1)
    }
}

/// The position of the last `c` in the first `upto` characters of `s`; -1
/// where there is none.
pub open spec fn last_position(s: Seq<char>, c: char, upto: int) -> int
    decreases upto,
{
    if upto <= 0 || upto > s.len() {
        -1
    } else if s[upto - 1] == c {
        upto - 1
    } else {
        last_position(s, c, upto - 1)
    }
}

/// What stands between the first `open` and the last `close` of a text;
/// nothing where the first `open` does not stand before the last `close`.
pub open spec fn enclosed(s: Seq<char>, open: char, close: char) -> Seq<char> {
    let a = first_position(s, open, 0);
    let b = last_position(s, close, s.len() as int);
    if a < b {
        s.subrange(a + 1, b)
    } else {
        Seq::empty()
    }
}

/// Whether the tokens are those of an annotation: `#` and a bracketed group.
pub open spec fn is_annotation_shell(outer: Seq<TokenView>) -> bool {
    &&& outer.len() == 2
    &&& outer[0].kind == TokenKind::Punct
    &&& outer[0].text == "#"@
    &&& outer[1].kind == TokenKind::Group
    &&& outer[1].text == "["@
}

/// Whether the tokens inside the brackets are a name and an argument list.
pub open spec fn is_list_meta(meta: Seq<TokenView>) -> bool {
    &&& meta.len() == 2
    &&& meta[0].kind == TokenKind::Ident
    &&& meta[1].kind == TokenKind::Group
}

/// Whether the tokens inside the brackets are a name, `=` and a value.
pub open spec fn is_value_meta(meta: Seq<TokenView>) -> bool {
    &&& meta.len() >= 3
    &&& meta[0].kind == TokenKind::Ident
    &&& meta[1].kind == TokenKind::Punct
    &&& meta[1].text == "="@
}

/// The annotation written as `text`, from the tokens inside its brackets and
/// the tokens of its argument list. An annotation of any other form than a
/// bare name, a name with a list, or a name with a value has no name.
pub open spec fn annotation_from(
    text: Seq<char>,
    meta: Seq<TokenView>,
    arguments: Seq<TokenView>,
) -> AnnotationView {
    if meta.len() == 1 && meta[0].kind == TokenKind::Ident {
        AnnotationView { name: meta[0].text, form: AnnotationForm::Path, tokens: Seq::empty(), text }
    } else if is_list_meta(meta) {
        AnnotationView { name: meta[0].text, form: AnnotationForm::List, tokens: arguments, text }
    } else if is_value_meta(meta) {
        AnnotationView {
            name: meta[0].text,
            form: AnnotationForm::NameValue,
            tokens: meta.subrange(2, meta.len() as int),
            text,
        }
    } else {
        AnnotationView {
            name: Seq::empty(),
            form: AnnotationForm::Path,
            tokens: Seq::empty(),
            text,
        }
    }
}

/// The source text of the argument list of a list annotation with the source
/// text `body`: what its delimiters enclose.
pub open spec fn list_text(body: Seq<char>, delimiter: Seq<char>) -> Seq<char> {
    if delimiter == "("@ {
        enclosed(body, '(', ')')
    } else if delimiter == "["@ {
        enclosed(body, '[', ']')
    } else if delimiter == "{"@ {
        enclosed(body, '{', '}')
    } else {
        Seq::empty()
    }
}

/// What stands between the first `open` and the last `close` of a text.
pub fn enclosed_text(text: &str, open: char, close: char) -> (inner: String)
    ensures
        inner@ == enclosed(text@, open, close),
{
    let n = text.unicode_len();
    let mut a: usize = 0;
    while a < n && text.get_char(a) != open
        invariant
            a <= n,
            n == text@.len(),
            first_position(text@, open, 0) == first_position(text@, open, a as int),
        decreases n - a,
    {
        a += 1;
    }
    let mut b: usize = n;
    while b > 0 && text.get_char(b - 1) != close
        invariant
            b <= n,
            n == text@.len(),
            last_position(text@, close, n as int) == last_position(text@, close, b as int),
        decreases b,
    {
        b -= 1;
    }
    if b > 0 && a < b - 1 {
        text.substring_char(a + 1, b - 1).to_string()
    } else {
        String::new()
    }
}

/// Builds the annotation written as `text` from the tokens inside its
/// brackets and the tokens of its argument list.
pub fn annotation_from_tokens(text: &str, meta: &Vec<Token>, arguments: Vec<Token>) -> (a:
    Annotation)
    ensures
        a@ == annotation_from(text@, tokens_view(meta@), tokens_view(arguments@)),
{
    let ghost views = tokens_view(meta@);
    proof {
        if meta.len() >= 1 {
            assert(views[0] == meta[0]@);
        }
        if meta.len() >= 2 {
            assert(views[1] == meta[1]@);
        }
    }
    if meta.len() == 1 && meta[0].kind == TokenKind::Ident {
        let a = Annotation {
            name: meta[0].text.clone(),
            form: AnnotationForm::Path,
            tokens: Vec::new(),
            text: text.to_string(),
        };
        proof {
            assert(tokens_view(a.tokens@) == Seq::<TokenView>::empty());
        }
        a
    } else if meta.len() == 2 && meta[0].kind == TokenKind::Ident && meta[1].kind
        == TokenKind::Group {
        Annotation {
            name: meta[0].text.clone(),
            form: AnnotationForm::List,
            tokens: arguments,
            text: text.to_string(),
        }
    } else if meta.len() >= 3 && meta[0].kind == TokenKind::Ident && meta[1].is_punct("=") {
        Annotation {
            name: meta[0].text.clone(),
            form: AnnotationForm::NameValue,
            tokens: tokens_from(meta, 2),
            text: text.to_string(),
        }
    } else {
        let a = Annotation {
            name: String::new(),
            form: AnnotationForm::Path,
            tokens: Vec::new(),
            text: text.to_string(),
        };
        proof {
            assert(tokens_view(a.tokens@) == Seq::<TokenView>::empty());
        }
        a
    }
}

/// Whether the tokens are those of an annotation: `#` and a bracketed group.
pub fn annotation_shell(outer: &Vec<Token>) -> (b: bool)
    ensures
        b == is_annotation_shell(tokens_view(outer@)),
{
    if outer.len() != 2 {
        return false;
    }
    proof {
        assert(tokens_view(outer@)[0] == outer[0]@);
        assert(tokens_view(outer@)[1] == outer[1]@);
    }
    outer[0].is_punct("#") && outer[1].kind == TokenKind::Group && str_equal(
        outer[1].text.as_str(),
        "[",
    )
}

/// The source text of the argument list of a list annotation.
pub fn list_source(body: &str, delimiter: &str) -> (out: String)
    ensures
        out@ == list_text(body@, delimiter@),
{
    if str_equal(delimiter, "(") {
        enclosed_text(body, '(', ')')
    } else if str_equal(delimiter, "[") {
        enclosed_text(body, '[', ']')
    } else if str_equal(delimiter, "{") {
        enclosed_text(body, '{', '}')
    } else {
        String::new()
    }
}

impl Annotation {
    /// Reads one annotation from its source text, such as `#[init(val = 3.5)]`.
    ///
    /// The text is lexed three times: as a whole, between its brackets, and
    /// between the delimiters of its argument list. Gives `None` where the
    /// lexer refuses the text or the text is not `#` followed by one
    /// bracketed group of tokens. An annotation that is read carries the text
    /// as it is and is built from the tokens as [`annotation_from_tokens`]
    /// builds it.
    pub fn parse(text: &str) -> (a: Option<Annotation>)
        ensures
            a matches Some(x) ==> x@.text == text@ && exists|
                meta: Seq<TokenView>,
                arguments: Seq<TokenView>,
            | x@ == annotation_from(text@, meta, arguments),
    {
        let outer = match lex(text) {
            Some(outer) => outer,
            None => {
                return None;
            },
        };
        if !annotation_shell(&outer) {
            return None;
        }
        let body = enclosed_text(text, '[', ']');
        let meta = match lex(body.as_str()) {
            Some(meta) => meta,
            None => {
                return None;
            },
        };
        let mut arguments: Vec<Token> = Vec::new();
        if meta.len() == 2 && meta[0].kind == TokenKind::Ident && meta[1].kind
            == TokenKind::Group {
            let list = list_source(body.as_str(), meta[1].text.as_str());
            match lex(list.as_str()) {
                Some(tokens) => {
                    arguments = tokens;
                },
                None => {},
            }
        }
        let ghost meta_view = tokens_view(meta@);
        let ghost arguments_view = tokens_view(arguments@);
        let annotation = annotation_from_tokens(text, &meta, arguments);
        proof {
            assert(annotation@ == annotation_from(text@, meta_view, arguments_view));
        }
        Some(annotation)
    }
}

impl TypeExpr {
    /// Reads a type expression from its source text: the text as it is, with
    /// the tokens that the lexer gives for it (none where it refuses the
    /// text) and the last segment that the type parser finds in it.
    pub fn parse(text: &str) -> (ty: TypeExpr)
        ensures
            ty@.text == text@,
    {
        let tokens = match lex(text) {
            Some(tokens) => tokens,
            None => Vec::new(),
        };
        TypeExpr { text: text.to_string(), path_tail: parse_path_tail(text), tokens }
    }
}

} // verus!
