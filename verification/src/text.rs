//! Small verified helpers on text: comparing, joining, quoting.

use vstd::prelude::*;
use vstd::string::*;

verus! {

/// Whether two string slices hold the same characters.
pub fn str_equal(a: &str, b: &str) -> (eq: bool)
    ensures
        eq == (a@ == b@),
{
    let x = a.to_string();
    let y = b.to_string();
    x == y
}

/// The views of a sequence of strings.
pub open spec fn strings_view(strings: Seq<String>) -> Seq<Seq<char>> {
    strings.map_values(|s: String| s@)
}

/// The view of an optional string.
pub open spec fn option_string_view(s: Option<String>) -> Option<Seq<char>> {
    match s {
        Some(s) => Some(s@),
        None => None,
    }
}

/// `items` written one after another, each preceded by `sep` but the first.
pub open spec fn joined(items: Seq<Seq<char>>, sep: Seq<char>) -> Seq<char>
    decreases items.len(),
{
    if items.len() == 0 {
        Seq::empty()
    } else if items.len() == 1 {
        items[0]
    } else {
        joined(items.drop_last(), sep) + sep + items.last()
    }
}

/// Joins `items` with `sep` between neighbours.
pub fn join(items: &Vec<String>, sep: &str) -> (out: String)
    ensures
        out@ == joined(strings_view(items@), sep@),
{
    let ghost views = strings_view(items@);
    let mut out = String::new();
    let mut i: usize = 0;
    while i < items.len()
        invariant
            i <= items.len(),
            views == strings_view(items@),
            out@ == joined(views.take(i as int), sep@),
        decreases items.len() - i,
    {
        proof {
            assert(views.take(i + 1).drop_last() == views.take(i as int));
            assert(views.take(i + 1).last() == items[i as int]@);
            if i == 0 {
                assert(views.take(1)[0] == items[0]@);
            }
        }
        if i > 0 {
            out.append(sep);
        }
        out.append(items[i].as_str());
        proof {
            assert(out@ == joined(views.take(i + 1), sep@));
        }
        i += 1;
    }
    proof {
        assert(views.take(items.len() as int) == views);
    }
    out
}

/// The lower-case form of a text, as the standard library computes it.
pub uninterp spec fn lowercase_of(s: Seq<char>) -> Seq<char>;

/// `str::to_lowercase` of the standard library: the result is the lower-case
/// form of the argument, which depends on the characters alone.
#[verifier::external_body]
pub(crate) fn lowercase(s: &str) -> (out: String)
    ensures
        out@ == lowercase_of(s@),
{
    s.to_lowercase()
}

/// How one character stands inside a string literal.
pub open spec fn escaped_char(c: char) -> Seq<char> {
    if c == '"' {
        "\\\""@
    } else if c == '\\' {
        "\\\\"@
    } else if c == '\n' {
        "\\n"@
    } else if c == '\r' {
        "\\r"@
    } else if c == '\t' {
        "\\t"@
    } else {
        seq![c]
    }
}

/// The characters of `s`, each as it stands inside a string literal.
pub open spec fn escaped(s: Seq<char>) -> Seq<char>
    decreases s.len(),
{
    if s.len() == 0 {
        Seq::empty()
    } else {
        escaped(s.drop_last()) + escaped_char(s.last())
    }
}

/// `s` as a string literal: quoted, with quotes, backslashes, newlines,
/// carriage returns and tabs escaped.
pub open spec fn string_literal(s: Seq<char>) -> Seq<char> {
    "\""@ + escaped(s) + "\""@
}

/// Writes `s` as a string literal.
pub fn quote_string(s: &str) -> (out: String)
    ensures
        out@ == string_literal(s@),
{
    let mut out = "\"".to_string();
    let n = s.unicode_len();
    let mut i: usize = 0;
    while i < n
        invariant
            i <= n,
            n == s@.len(),
            out@ == "\""@ + escaped(s@.take(i as int)),
        decreases n - i,
    {
        let c = s.get_char(i);
        proof {
            assert(s@.take(i + 1).drop_last() == s@.take(i as int));
            assert(s@.take(i + 1).last() == c);
        }
        if c == '"' {
            out.append("\\\"");
        } else if c == '\\' {
            out.append("\\\\");
        } else if c == '\n' {
            out.append("\\n");
        } else if c == '\r' {
            out.append("\\r");
        } else if c == '\t' {
            out.append("\\t");
        } else {
            let one = s.substring_char(i, i + 1);
            proof {
                assert(one@ == seq![c]);
            }
            out.append(one);
        }
        proof {
            assert(out@ == "\""@ + escaped(s@.take(i + 1)));
        }
        i += 1;
    }
    proof {
        assert(s@.take(n as int) == s@);
    }
    out.append("\"");
    out
}


/// A copy of a vector of strings.
pub fn clone_strings(items: &Vec<String>) -> (out: Vec<String>)
    ensures
        strings_view(out@) == strings_view(items@),
{
    let mut out: Vec<String> = Vec::new();
    let mut i: usize = 0;
    while i < items.len()
        invariant
            i <= items.len(),
            strings_view(out@) == strings_view(items@).take(i as int),
        decreases items.len() - i,
    {
        let ghost before = out@;
        out.push(items[i].clone());
        proof {
            assert(strings_view(out@) == strings_view(before).push(items[i as int]@));
            assert(strings_view(items@).take(i + 1) == strings_view(items@).take(i as int).push(
                items[i as int]@,
            ));
        }
        i += 1;
    }
    proof {
        assert(strings_view(items@).take(items.len() as int) == strings_view(items@));
    }
    out
}

/// Whether `items` holds `name`.
pub fn contains_name(items: &Vec<String>, name: &str) -> (found: bool)
    ensures
        found == strings_view(items@).contains(name@),
{
    let ghost views = strings_view(items@);
    let mut i: usize = 0;
    while i < items.len()
        invariant
            i <= items.len(),
            views == strings_view(items@),
            forall|k: int| 0 <= k < i ==> views[k] != name@,
        decreases items.len() - i,
    {
        if str_equal(items[i].as_str(), name) {
            proof {
                assert(views[i as int] == name@);
            }
            return true;
        }
        i += 1;
    }
    false
}

} // verus!
