//! The gemtext line classifier and media-type predicates.

use vstd::prelude::*;
use crate::text::{
    chars_of, string_of, split_lines, lines_spec, skip_white, skip_nonwhite, skip_char,
    skip_white_exec, skip_nonwhite_exec, skip_char_exec,
};

verus! {

/// One classified line of a gemtext document.
#[derive(Clone, PartialEq, Debug)]
pub enum Line {
    Text(String),
    Link(String, Option<String>),
    Preformatted(String),
    Heading1(String),
    Heading2(String),
    Heading3(String),
    Quote(String),
    ListItem(String),
}

/// A classified line, over character sequences.
pub enum LineSpec {
    Text(Seq<char>),
    Link(Seq<char>, Option<Seq<char>>),
    Preformatted(Seq<char>),
    Heading1(Seq<char>),
    Heading2(Seq<char>),
    Heading3(Seq<char>),
    Quote(Seq<char>),
    ListItem(Seq<char>),
}

impl View for Line {
    type V = LineSpec;

    open spec fn view(&self) -> LineSpec {
        match self {
            Line::Text(s) => LineSpec::Text(s@),
            Line::Link(u, a) => LineSpec::Link(u@, match a { Some(x) => Some(x@), None => None }),
            Line::Preformatted(s) => LineSpec::Preformatted(s@),
            Line::Heading1(s) => LineSpec::Heading1(s@),
            Line::Heading2(s) => LineSpec::Heading2(s@),
            Line::Heading3(s) => LineSpec::Heading3(s@),
            Line::Quote(s) => LineSpec::Quote(s@),
            Line::ListItem(s) => LineSpec::ListItem(s@),
        }
    }
}

impl Line {
    /// A copy of this line.
    pub fn duplicate(&self) -> (r: Line)
        ensures
            r@ == self@,
    {
        match self {
            Line::Text(s) => Line::Text(s.clone()),
            Line::Link(u, a) => Line::Link(u.clone(), match a { Some(x) => Some(x.clone()), None => None }),
            Line::Preformatted(s) => Line::Preformatted(s.clone()),
            Line::Heading1(s) => Line::Heading1(s.clone()),
            Line::Heading2(s) => Line::Heading2(s.clone()),
            Line::Heading3(s) => Line::Heading3(s.clone()),
            Line::Quote(s) => Line::Quote(s.clone()),
            Line::ListItem(s) => Line::ListItem(s.clone()),
        }
    }
}

pub open spec fn lines_view(v: Seq<Line>) -> Seq<LineSpec> {
    v.map_values(|l: Line| l@)
}

/// Whether the line opens or closes a preformatted block.
pub open spec fn is_fence(l: Seq<char>) -> bool {
    l.len() >= 3 && l[0] == '`' && l[1] == '`' && l[2] == '`'
}

/// A link line: `=>`, optional white space, a target without white space,
/// then, after white space, an optional label.
pub open spec fn is_link(l: Seq<char>) -> bool {
    l.len() >= 2 && l[0] == '=' && l[1] == '>' && skip_white(l, 2) < l.len()
}

pub open spec fn link_spec(l: Seq<char>) -> LineSpec {
    let u0 = skip_white(l, 2);
    let u1 = skip_nonwhite(l, u0);
    let label = l.subrange(skip_white(l, u1), l.len() as int);
    LineSpec::Link(l.subrange(u0, u1), if label.len() > 0 { Some(label) } else { None })
}

pub open spec fn heading_spec(l: Seq<char>) -> LineSpec {
    let h = skip_char(l, 0, '#');
    let s = l.subrange(skip_white(l, h), l.len() as int);
    if h == 1 {
        LineSpec::Heading1(s)
    } else if h == 2 {
        LineSpec::Heading2(s)
    } else if h == 3 {
        LineSpec::Heading3(s)
    } else {
        LineSpec::Text(s)
    }
}

/// How a line outside a preformatted block is classified.
pub open spec fn classify_spec(l: Seq<char>) -> LineSpec {
    if is_link(l) {
        link_spec(l)
    } else if l.len() >= 2 && l[0] == '*' && l[1] == ' ' {
        LineSpec::ListItem(l.subrange(2, l.len() as int))
    } else if l.len() >= 1 && l[0] == '#' {
        heading_spec(l)
    } else if l.len() >= 1 && l[0] == '>' {
        LineSpec::Quote(l.subrange(1, l.len() as int))
    } else {
        LineSpec::Text(l)
    }
}

/// The classified lines of the first lines of a document, and whether a
/// preformatted block is open after them. Fence lines produce nothing.
pub open spec fn doc_state(ls: Seq<Seq<char>>) -> (Seq<LineSpec>, bool)
    decreases ls.len(),
{
    if ls.len() == 0 {
        (Seq::empty(), false)
    } else {
        let (out, pre) = doc_state(ls.drop_last());
        let l = ls.last();
        if is_fence(l) {
            (out, !pre)
        } else if pre {
            (out.push(LineSpec::Preformatted(l)), true)
        } else {
            (out.push(classify_spec(l)), false)
        }
    }
}

pub open spec fn parse_doc_spec(page: Seq<char>) -> Seq<LineSpec> {
    doc_state(lines_spec(page)).0
}

/// Classifies one line that is not inside a preformatted block.
pub fn classify_line(l: &Vec<char>) -> (r: Line)
    ensures
        r@ == classify_spec(l@),
{
    let n = l.len();
    if n >= 2 && l[0] == '=' && l[1] == '>' {
        let u0 = skip_white_exec(l, 2);
        if u0 < n {
            let u1 = skip_nonwhite_exec(l, u0);
            let a0 = skip_white_exec(l, u1);
            let url = string_of(l, u0, u1);
            let alt = if a0 < n { Some(string_of(l, a0, n)) } else { None };
            return Line::Link(url, alt);
        }
    }
    if n >= 2 && l[0] == '*' && l[1] == ' ' {
        return Line::ListItem(string_of(l, 2, n));
    }
    if n >= 1 && l[0] == '#' {
        let h = skip_char_exec(l, 0, '#');
        let s = string_of(l, skip_white_exec(l, h), n);
        return if h == 1 {
            Line::Heading1(s)
        } else if h == 2 {
            Line::Heading2(s)
        } else if h == 3 {
            Line::Heading3(s)
        } else {
            Line::Text(s)
        };
    }
    if n >= 1 && l[0] == '>' {
        return Line::Quote(string_of(l, 1, n));
    }
    assert(l@.subrange(0, n as int) =~= l@);
    Line::Text(string_of(l, 0, n))
}

/// Classifies every line of a gemtext page. Lines between fence lines (lines
/// starting with three backticks) are kept verbatim as preformatted.
pub fn parse_gemini_doc(page: &str) -> (r: Vec<Line>)
    ensures
        lines_view(r@) == parse_doc_spec(page@),
{
    let cs = chars_of(page);
    let ls = split_lines(&cs);
    let ghost lv = ls@.map_values(|l: Vec<char>| l@);
    let mut out: Vec<Line> = Vec::new();
    let mut pre = false;
    let mut i: usize = 0;
    while i < ls.len()
        invariant
            lv == ls@.map_values(|l: Vec<char>| l@),
            lv == lines_spec(page@),
            i <= ls@.len(),
            (lines_view(out@), pre) == doc_state(lv.take(i as int)),
        decreases ls@.len() - i,
    {
        let l = &ls[i];
        assert(lv.take(i + 1).drop_last() =~= lv.take(i as int));
        assert(lv.take(i + 1).last() == l@);
        let n = l.len();
        let ghost before = lines_view(out@);
        if n >= 3 && l[0] == '`' && l[1] == '`' && l[2] == '`' {
            pre = !pre;
        } else if pre {
            assert(l@.subrange(0, n as int) =~= l@);
            out.push(Line::Preformatted(string_of(l, 0, n)));
            assert(lines_view(out@) =~= before.push(LineSpec::Preformatted(l@)));
        } else {
            let c = classify_line(l);
            out.push(c);
            assert(lines_view(out@) =~= before.push(classify_spec(l@)));
        }
        i = i + 1;
    }
    assert(lv.take(ls@.len() as int) =~= lv);
    out
}

/// The media type and subtype of a MIME type string, if it parses.
pub uninterp spec fn media_type_of(s: Seq<char>) -> Option<(Seq<char>, Seq<char>)>;

/// Relies on `mime::Mime`'s `FromStr` with `Mime::type_` and `Mime::subtype`:
/// the type and subtype of a parsed MIME string (the parser lower-cases them),
/// `None` when the string does not parse.
#[verifier::external_body]
fn media_type_parts(s: &str) -> (r: Option<(String, String)>)
    ensures
        r matches Some(p) ==> media_type_of(s@) == Some((p.0@, p.1@)),
        r is None ==> media_type_of(s@) is None,
{
    match s.parse::<mime::Mime>() {
        Ok(m) => Some((m.type_().as_str().to_string(), m.subtype().as_str().to_string())),
        Err(_) => None,
    }
}

/// Whether a MIME type denotes a gemtext document (`text/gemini`).
pub open spec fn is_gemini_spec(m: Seq<char>) -> bool {
    media_type_of(m) matches Some(p) && p.0 == "text"@ && p.1 == "gemini"@
}

/// Whether a MIME type denotes text of any subtype.
pub open spec fn is_text_spec(m: Seq<char>) -> bool {
    media_type_of(m) matches Some(p) && p.0 == "text"@
}

/// Whether `mime` is `text/gemini`.
pub fn is_gemini_doc(mime: &str) -> (r: bool)
    ensures
        r == is_gemini_spec(mime@),
{
    match media_type_parts(mime) {
        Some(p) => p.0 == String::from_str("text") && p.1 == String::from_str("gemini"),
        None => false,
    }
}

/// Whether `mime` has the top-level type `text`.
pub fn is_text_doc(mime: &str) -> (r: bool)
    ensures
        r == is_text_spec(mime@),
{
    match media_type_parts(mime) {
        Some(p) => p.0 == String::from_str("text"),
        None => false,
    }
}

} // verus!
