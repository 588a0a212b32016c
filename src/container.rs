//! The viewport: display rows derived from the content by wrapping, two-axis
//! scrolling clamped to the content, and the link table of a gemtext page.

use vstd::prelude::*;
use crate::document::{Line, LineSpec, lines_view};
use crate::text::{chars_of, split_lines, lines_spec, decimal_digits, decimal_string};
use crate::unicode::{display_width, grapheme_clusters, views, str_width, graphemes_of};
use crate::wrap::{pretty_wrap, wrap_spec};

verus! {

broadcast use vstd::seq_lib::group_seq_properties;

/// A source line and whether it may be wrapped.
pub struct PrintableLine {
    pub s: String,
    pub wrapped: bool,
}

pub open spec fn printable_view(v: Seq<PrintableLine>) -> Seq<(Seq<char>, bool)> {
    v.map_values(|p: PrintableLine| (p.s@, p.wrapped))
}

/// The display rows for source lines at a content width: wrapped lines are
/// wrapped, the others kept whole.
pub open spec fn render_spec(lines: Seq<(Seq<char>, bool)>, width: nat) -> Seq<Seq<char>>
    decreases lines.len(),
{
    if lines.len() == 0 {
        Seq::empty()
    } else {
        let l = lines.last();
        render_spec(lines.drop_last(), width) + if l.1 { wrap_spec(l.0, width) } else { seq![l.0] }
    }
}

/// The widest row's display width.
pub open spec fn max_width(rows: Seq<Seq<char>>) -> nat
    decreases rows.len(),
{
    if rows.len() == 0 {
        0
    } else {
        let w = display_width(rows.last());
        let m = max_width(rows.drop_last());
        if w > m { w } else { m }
    }
}

/// The largest offset that scrolling can reach: content extent minus viewport
/// extent, or zero.
pub open spec fn scroll_limit(content: nat, view: nat) -> nat {
    if content > view { (content - view) as nat } else { 0 }
}

/// The text shown for link number `n`: `[n] => ` and the label, or the URL
/// when there is no label.
pub open spec fn link_text(n: nat, url: Seq<char>, label: Option<Seq<char>>) -> Seq<char> {
    seq!['['] + decimal_digits(n) + seq![']', ' ', '=', '>', ' '] + match label {
        Some(l) => l,
        None => url,
    }
}

/// The source lines and link table for a gemtext document. Preformatted
/// lines are not wrapped; links are numbered from 1 in order.
pub open spec fn gemini_lines_spec(doc: Seq<LineSpec>) -> (Seq<(Seq<char>, bool)>, Seq<Seq<char>>)
    decreases doc.len(),
{
    if doc.len() == 0 {
        (Seq::empty(), Seq::empty())
    } else {
        let (ls, links) = gemini_lines_spec(doc.drop_last());
        match doc.last() {
            LineSpec::Preformatted(s) => (ls.push((s, false)), links),
            LineSpec::Link(u, a) => (ls.push((link_text(links.len() + 1, u, a), true)), links.push(u)),
            LineSpec::Text(s) => (ls.push((s, true)), links),
            LineSpec::Heading1(s) => (ls.push((s, true)), links),
            LineSpec::Heading2(s) => (ls.push((s, true)), links),
            LineSpec::Heading3(s) => (ls.push((s, true)), links),
            LineSpec::Quote(s) => (ls.push((s, true)), links),
            LineSpec::ListItem(s) => (ls.push((s, true)), links),
        }
    }
}

/// Saturating addition on `usize` values.
pub open spec fn sat_add(a: nat, b: nat) -> nat {
    if a + b > usize::MAX { usize::MAX as nat } else { a + b }
}

/// Trimming a row grapheme by grapheme: columns skipped so far, columns
/// used so far, and the text kept. Graphemes are skipped until `col` columns
/// are skipped; after that graphemes are kept while they fit in `width`. The
/// first one that does not fit fills the view, so nothing after it is kept.
pub open spec fn trim_state(gs: Seq<Seq<char>>, col: nat, width: nat) -> (nat, nat, Seq<char>)
    decreases gs.len(),
{
    if gs.len() == 0 {
        (0, 0, Seq::empty())
    } else {
        let (sk, used, out) = trim_state(gs.drop_last(), col, width);
        let g = gs.last();
        let w = display_width(g);
        if sk < col {
            (sat_add(sk, w), used, out)
        } else if used < width && used + w <= width {
            (sk, used + w, out + g)
        } else {
            (sk, width, out)
        }
    }
}

/// The part of a row visible with horizontal offset `col` in `width` columns.
pub open spec fn trim_row(row: Seq<char>, col: nat, width: nat) -> Seq<char> {
    trim_state(grapheme_clusters(row), col, width).2
}

/// The scrollable viewport.
pub struct ContentContainer {
    lines: Vec<PrintableLine>,
    rendered: Vec<String>,
    content_width: usize,
    width: usize,
    height: usize,
    top_margin: usize,
    bottom_margin: usize,
    left_margin: usize,
    right_margin: usize,
    scroll_row: usize,
    scroll_column: usize,
    links: Option<Vec<String>>,
}

pub open spec fn min_nat(a: nat, b: nat) -> nat {
    if a < b { a } else { b }
}

/// Scroll offsets brought within the limits of a viewport: each offset is the
/// smaller of its old value and its limit.
pub open spec fn clamp_scroll(old: (nat, nat), c: ContentContainer) -> (nat, nat) {
    (min_nat(old.0, scroll_limit(c.rows().len(), c.height_spec())),
     min_nat(old.1, scroll_limit(c.content_width_spec(), c.width_spec())))
}

proof fn lemma_max_width_push(rows: Seq<Seq<char>>, r: Seq<char>)
    ensures
        max_width(rows.push(r)) == if display_width(r) > max_width(rows) { display_width(r) } else { max_width(rows) },
{
    assert(rows.push(r).drop_last() =~= rows);
}

impl ContentContainer {
    /// The source lines and whether each may be wrapped.
    pub closed spec fn source_lines(&self) -> Seq<(Seq<char>, bool)> {
        printable_view(self.lines@)
    }

    /// The display rows.
    pub closed spec fn rows(&self) -> Seq<Seq<char>> {
        views(self.rendered@)
    }

    pub closed spec fn width_spec(&self) -> nat {
        self.width as nat
    }

    pub closed spec fn height_spec(&self) -> nat {
        self.height as nat
    }

    pub closed spec fn content_width_spec(&self) -> nat {
        self.content_width as nat
    }

    pub closed spec fn scroll_spec(&self) -> (nat, nat) {
        (self.scroll_row as nat, self.scroll_column as nat)
    }

    /// Margins: top, bottom, left, right.
    pub closed spec fn margins_spec(&self) -> (nat, nat, nat, nat) {
        (self.top_margin as nat, self.bottom_margin as nat, self.left_margin as nat, self.right_margin as nat)
    }

    /// The link targets of the displayed document, numbered from 1.
    pub closed spec fn links_spec(&self) -> Seq<Seq<char>> {
        match self.links {
            Some(v) => views(v@),
            None => Seq::empty(),
        }
    }

    /// The rows are the rendering of the lines at the current width, and both
    /// scroll offsets lie within their limits.
    pub open spec fn wf(&self) -> bool {
        &&& self.rows() == render_spec(self.source_lines(), self.width_spec())
        &&& self.content_width_spec() == max_width(self.rows())
        &&& self.scroll_spec().0 <= scroll_limit(self.rows().len(), self.height_spec())
        &&& self.scroll_spec().1 <= scroll_limit(self.content_width_spec(), self.width_spec())
    }

    /// An empty viewport for a terminal of `cols` by `rows_total` cells, with
    /// one row of margin at the top and at the bottom.
    pub fn new(cols: u16, rows_total: u16) -> (r: Self)
        ensures
            r.wf(),
            r.source_lines() == Seq::<(Seq<char>, bool)>::empty(),
            r.links_spec() == Seq::<Seq<char>>::empty(),
            r.margins_spec() == (1nat, 1nat, 0nat, 0nat),
            r.width_spec() == cols as nat,
            r.height_spec() == scroll_limit(rows_total as nat, 2),
            r.scroll_spec() == (0nat, 0nat),
    {
        let r = ContentContainer {
            lines: Vec::new(),
            rendered: Vec::new(),
            content_width: 0,
            width: cols as usize,
            height: if rows_total >= 2 { rows_total as usize - 2 } else { 0 },
            top_margin: 1,
            bottom_margin: 1,
            left_margin: 0,
            right_margin: 0,
            scroll_row: 0,
            scroll_column: 0,
            links: None,
        };
        assert(r.rows() =~= Seq::<Seq<char>>::empty());
        assert(r.source_lines() =~= Seq::<(Seq<char>, bool)>::empty());
        r
    }

    /// Rebuilds the rows and the content width from the lines, then brings
    /// the scroll offsets back within their limits.
    fn render(&mut self)
        ensures
            final(self).wf(),
            final(self).source_lines() == old(self).source_lines(),
            final(self).links_spec() == old(self).links_spec(),
            final(self).margins_spec() == old(self).margins_spec(),
            final(self).width_spec() == old(self).width_spec(),
            final(self).height_spec() == old(self).height_spec(),
            final(self).scroll_spec() == clamp_scroll(old(self).scroll_spec(), *final(self)),
    {
        let ghost src = printable_view(self.lines@);
        let mut rendered: Vec<String> = Vec::new();
        let mut content_width: usize = 0;
        let mut i: usize = 0;
        assert(views(rendered@) =~= Seq::<Seq<char>>::empty());
        assert(src.take(0) =~= Seq::<(Seq<char>, bool)>::empty());
        while i < self.lines.len()
            invariant
                src == printable_view(self.lines@),
                i <= self.lines@.len(),
                views(rendered@) == render_spec(src.take(i as int), self.width as nat),
                content_width as nat == max_width(views(rendered@)),
            decreases self.lines@.len() - i,
        {
            let line = &self.lines[i];
            assert(src.take(i + 1).drop_last() =~= src.take(i as int));
            assert(src.take(i + 1).last() == (line.s@, line.wrapped));
            let ghost base = views(rendered@);
            if line.wrapped {
                let wrapped = pretty_wrap(line.s.as_str(), self.width);
                let ghost wv = views(wrapped@);
                let mut j: usize = 0;
                assert(base + wv.take(0) =~= base);
                while j < wrapped.len()
                    invariant
                        wv == views(wrapped@),
                        j <= wrapped@.len(),
                        views(rendered@) == base + wv.take(j as int),
                        content_width as nat == max_width(views(rendered@)),
                    decreases wrapped@.len() - j,
                {
                    let row = &wrapped[j];
                    let w = str_width(row.as_str());
                    let ghost prev = views(rendered@);
                    proof { lemma_max_width_push(prev, row@); }
                    if w > content_width {
                        content_width = w;
                    }
                    rendered.push(row.clone());
                    assert(views(rendered@) =~= prev.push(row@));
                    assert(wv[j as int] == row@);
                    assert(base + wv.take(j + 1) =~= prev.push(row@));
                    j = j + 1;
                }
                assert(wv.take(wrapped@.len() as int) =~= wv);
            } else {
                let w = str_width(line.s.as_str());
                proof { lemma_max_width_push(views(rendered@), line.s@); }
                if w > content_width {
                    content_width = w;
                }
                rendered.push(line.s.clone());
                assert(views(rendered@) =~= base.push(line.s@));
                assert(views(rendered@) =~= base + seq![line.s@]);
            }
            i = i + 1;
        }
        assert(src.take(self.lines@.len() as int) =~= src);
        self.rendered = rendered;
        self.content_width = content_width;
        let row_limit: usize = if self.rendered.len() > self.height { self.rendered.len() - self.height } else { 0 };
        if self.scroll_row > row_limit {
            self.scroll_row = row_limit;
        }
        let col_limit: usize = if self.content_width > self.width { self.content_width - self.width } else { 0 };
        if self.scroll_column > col_limit {
            self.scroll_column = col_limit;
        }
    }

    /// Adapts to a terminal of `width` by `height` cells (margins excluded)
    /// and renders again.
    pub fn resize(&mut self, width: u16, height: u16)
        ensures
            final(self).wf(),
            final(self).source_lines() == old(self).source_lines(),
            final(self).links_spec() == old(self).links_spec(),
            final(self).margins_spec() == old(self).margins_spec(),
            final(self).width_spec() == scroll_limit(width as nat, old(self).margins_spec().2 + old(self).margins_spec().3),
            final(self).height_spec() == scroll_limit(height as nat, old(self).margins_spec().0 + old(self).margins_spec().1),
            final(self).scroll_spec() == clamp_scroll(old(self).scroll_spec(), *final(self)),
    {
        self.width = sub_or_zero(width as usize, self.left_margin, self.right_margin);
        self.height = sub_or_zero(height as usize, self.top_margin, self.bottom_margin);
        self.render();
    }

    /// Sets the margins and the terminal size of `cols` by `rows_total` cells,
    /// then renders again.
    pub fn set_margins(&mut self, top: usize, bottom: usize, left: usize, right: usize, cols: u16, rows_total: u16)
        ensures
            final(self).wf(),
            final(self).source_lines() == old(self).source_lines(),
            final(self).links_spec() == old(self).links_spec(),
            final(self).margins_spec() == (top as nat, bottom as nat, left as nat, right as nat),
            final(self).width_spec() == scroll_limit(cols as nat, left as nat + right as nat),
            final(self).height_spec() == scroll_limit(rows_total as nat, top as nat + bottom as nat),
            final(self).scroll_spec() == clamp_scroll(old(self).scroll_spec(), *final(self)),
    {
        self.top_margin = top;
        self.bottom_margin = bottom;
        self.left_margin = left;
        self.right_margin = right;
        self.width = sub_or_zero(cols as usize, left, right);
        self.height = sub_or_zero(rows_total as usize, top, bottom);
        self.render();
    }

    /// The display rows.
    pub fn rendered_rows(&self) -> (r: &Vec<String>)
        ensures
            views(r@) == self.rows(),
    {
        &self.rendered
    }

    /// The scroll offsets: row, then column.
    pub fn scroll_pos(&self) -> (r: (usize, usize))
        ensures
            (r.0 as nat, r.1 as nat) == self.scroll_spec(),
    {
        (self.scroll_row, self.scroll_column)
    }

    /// The margins: top, bottom, left, right.
    pub fn margins(&self) -> (r: (usize, usize, usize, usize))
        ensures
            (r.0 as nat, r.1 as nat, r.2 as nat, r.3 as nat) == self.margins_spec(),
    {
        (self.top_margin, self.bottom_margin, self.left_margin, self.right_margin)
    }

    /// One column left, unless at the first column.
    pub fn scroll_left(&mut self)
        requires
            old(self).wf(),
        ensures
            final(self).wf(),
            final(self).rows() == old(self).rows(),
            final(self).source_lines() == old(self).source_lines(),
            final(self).links_spec() == old(self).links_spec(),
            final(self).width_spec() == old(self).width_spec(),
            final(self).height_spec() == old(self).height_spec(),
            final(self).margins_spec() == old(self).margins_spec(),
            final(self).content_width_spec() == old(self).content_width_spec(),
            final(self).scroll_spec() == (old(self).scroll_spec().0,
                if old(self).scroll_spec().1 > 0 { (old(self).scroll_spec().1 - 1) as nat } else { 0 }),
    {
        if self.scroll_column > 0 {
            self.scroll_column = self.scroll_column - 1;
        }
    }

    /// One column right, unless the widest row's end is already in view.
    pub fn scroll_right(&mut self)
        requires
            old(self).wf(),
        ensures
            final(self).wf(),
            final(self).rows() == old(self).rows(),
            final(self).source_lines() == old(self).source_lines(),
            final(self).links_spec() == old(self).links_spec(),
            final(self).width_spec() == old(self).width_spec(),
            final(self).height_spec() == old(self).height_spec(),
            final(self).margins_spec() == old(self).margins_spec(),
            final(self).content_width_spec() == old(self).content_width_spec(),
            final(self).scroll_spec() == (old(self).scroll_spec().0,
                if old(self).scroll_spec().1 < scroll_limit(old(self).content_width_spec(), old(self).width_spec()) {
                    old(self).scroll_spec().1 + 1
                } else {
                    old(self).scroll_spec().1
                }),
    {
        if self.content_width > self.width && self.scroll_column < self.content_width - self.width {
            self.scroll_column = self.scroll_column + 1;
        }
    }

    /// One row up, unless at the first row.
    pub fn scroll_up(&mut self)
        requires
            old(self).wf(),
        ensures
            final(self).wf(),
            final(self).rows() == old(self).rows(),
            final(self).source_lines() == old(self).source_lines(),
            final(self).links_spec() == old(self).links_spec(),
            final(self).width_spec() == old(self).width_spec(),
            final(self).height_spec() == old(self).height_spec(),
            final(self).margins_spec() == old(self).margins_spec(),
            final(self).content_width_spec() == old(self).content_width_spec(),
            final(self).scroll_spec() == (
                if old(self).scroll_spec().0 > 0 { (old(self).scroll_spec().0 - 1) as nat } else { 0 },
                old(self).scroll_spec().1),
    {
        if self.scroll_row > 0 {
            self.scroll_row = self.scroll_row - 1;
        }
    }

    /// One row down, unless the last row is already in view.
    pub fn scroll_down(&mut self)
        requires
            old(self).wf(),
        ensures
            final(self).wf(),
            final(self).rows() == old(self).rows(),
            final(self).source_lines() == old(self).source_lines(),
            final(self).links_spec() == old(self).links_spec(),
            final(self).width_spec() == old(self).width_spec(),
            final(self).height_spec() == old(self).height_spec(),
            final(self).margins_spec() == old(self).margins_spec(),
            final(self).content_width_spec() == old(self).content_width_spec(),
            final(self).scroll_spec() == (
                if old(self).scroll_spec().0 < scroll_limit(old(self).rows().len(), old(self).height_spec()) {
                    old(self).scroll_spec().0 + 1
                } else {
                    old(self).scroll_spec().0
                },
                old(self).scroll_spec().1),
    {
        let content_height = self.rendered.len();
        if content_height > self.height && self.scroll_row < content_height - self.height {
            self.scroll_row = self.scroll_row + 1;
        }
    }
}

/// `a - (b + c)`, or zero when that is negative.
fn sub_or_zero(a: usize, b: usize, c: usize) -> (r: usize)
    ensures
        r as nat == scroll_limit(a as nat, b as nat + c as nat),
{
    if b >= a || c >= a - b { 0 } else { a - b - c }
}

/// How many rows are in view: those from `row` on, at most `height`.
pub open spec fn visible_count(len: nat, row: nat, height: nat) -> nat {
    if row >= len { 0 } else if len - row < height { (len - row) as nat } else { height }
}

/// Source lines for plain text: every line kept whole.
pub open spec fn text_lines_spec(text: Seq<char>) -> Seq<(Seq<char>, bool)> {
    lines_spec(text).map_values(|l: Seq<char>| (l, false))
}

impl ContentContainer {
    /// Shows plain text: one unwrapped row per line, no links, scrolled to the origin.
    pub fn set_contents_text(&mut self, text: &str)
        ensures
            final(self).wf(),
            final(self).source_lines() == text_lines_spec(text@),
            final(self).links_spec() == Seq::<Seq<char>>::empty(),
            final(self).scroll_spec() == (0nat, 0nat),
            final(self).width_spec() == old(self).width_spec(),
            final(self).height_spec() == old(self).height_spec(),
            final(self).margins_spec() == old(self).margins_spec(),
    {
        let cs = chars_of(text);
        let ls = split_lines(&cs);
        let ghost lv = ls@.map_values(|l: Vec<char>| l@);
        let mut contents: Vec<PrintableLine> = Vec::new();
        let mut i: usize = 0;
        while i < ls.len()
            invariant
                lv == ls@.map_values(|l: Vec<char>| l@),
                lv == lines_spec(text@),
                i <= ls@.len(),
                printable_view(contents@) == lv.take(i as int).map_values(|l: Seq<char>| (l, false)),
            decreases ls@.len() - i,
        {
            let line = &ls[i];
            let n = line.len();
            let s = crate::text::string_of(line, 0, n);
            assert(line@.subrange(0, n as int) =~= line@);
            let ghost prev = printable_view(contents@);
            contents.push(PrintableLine { s, wrapped: false });
            assert(printable_view(contents@) =~= prev.push((line@, false)));
            assert(lv.take(i + 1).map_values(|l: Seq<char>| (l, false))
                =~= lv.take(i as int).map_values(|l: Seq<char>| (l, false)).push((line@, false)));
            i = i + 1;
        }
        assert(lv.take(ls@.len() as int) =~= lv);
        self.lines = contents;
        self.links = None;
        self.scroll_row = 0;
        self.scroll_column = 0;
        self.render();
    }

    /// Shows a gemtext document: preformatted lines whole, other lines
    /// wrapped, links numbered from 1 and recorded in the link table; scrolled
    /// to the origin.
    pub fn set_contents_gemini(&mut self, lines: &Vec<Line>)
        ensures
            final(self).wf(),
            (final(self).source_lines(), final(self).links_spec()) == gemini_lines_spec(lines_view(lines@)),
            final(self).scroll_spec() == (0nat, 0nat),
            final(self).width_spec() == old(self).width_spec(),
            final(self).height_spec() == old(self).height_spec(),
            final(self).margins_spec() == old(self).margins_spec(),
    {
        let ghost doc = lines_view(lines@);
        let mut contents: Vec<PrintableLine> = Vec::new();
        let mut links: Vec<String> = Vec::new();
        let mut i: usize = 0;
        while i < lines.len()
            invariant
                doc == lines_view(lines@),
                i <= lines@.len(),
                (printable_view(contents@), views(links@)) == gemini_lines_spec(doc.take(i as int)),
            decreases lines@.len() - i,
        {
            assert(doc.take(i + 1).drop_last() =~= doc.take(i as int));
            assert(doc.take(i + 1).last() == lines@[i as int]@);
            let ghost prev = printable_view(contents@);
            let ghost prev_links = views(links@);
            match &lines[i] {
                Line::Preformatted(s) => {
                    contents.push(PrintableLine { s: s.clone(), wrapped: false });
                    assert(printable_view(contents@) =~= prev.push((s@, false)));
                },
                Line::Link(url, alt) => {
                    links.push(url.clone());
                    assert(views(links@) =~= prev_links.push(url@));
                    let num = links.len();
                    let mut text = String::from_str("[");
                    proof { reveal_strlit("["); }
                    text.append(decimal_string(num).as_str());
                    text.append("] => ");
                    proof { reveal_strlit("] => "); }
                    match alt {
                        Some(a) => text.append(a.as_str()),
                        None => text.append(url.as_str()),
                    }
                    assert(text@ =~= link_text(prev_links.len() + 1, url@, match alt {
                        Some(a) => Some(a@),
                        None => None,
                    }));
                    contents.push(PrintableLine { s: text, wrapped: true });
                    assert(printable_view(contents@) =~= prev.push((text@, true)));
                },
                Line::Text(s) | Line::Heading1(s) | Line::Heading2(s) | Line::Heading3(s)
                | Line::Quote(s) | Line::ListItem(s) => {
                    contents.push(PrintableLine { s: s.clone(), wrapped: true });
                    assert(printable_view(contents@) =~= prev.push((s@, true)));
                },
            }
            i = i + 1;
        }
        assert(doc.take(lines@.len() as int) =~= doc);
        self.lines = contents;
        self.links = Some(links);
        self.scroll_row = 0;
        self.scroll_column = 0;
        self.render();
    }

    /// The URL of link number `n` (counted from 1) of the displayed document.
    pub fn link(&self, n: usize) -> (r: Option<String>)
        ensures
            1 <= n <= self.links_spec().len() ==> (r matches Some(u) && u@ == self.links_spec()[n - 1]),
            !(1 <= n <= self.links_spec().len()) ==> r is None,
    {
        match &self.links {
            Some(v) => {
                if n >= 1 && n <= v.len() {
                    Some(v[n - 1].clone())
                } else {
                    None
                }
            },
            None => None,
        }
    }

    /// The rows in view, each cut to the visible columns.
    pub fn visible_rows(&self) -> (r: Vec<String>)
        ensures
            r@.len() == visible_count(self.rows().len(), self.scroll_spec().0, self.height_spec()),
            forall|i: int| 0 <= i < r@.len() ==> #[trigger] r@[i]@ == trim_row(
                self.rows()[self.scroll_spec().0 + i], self.scroll_spec().1, self.width_spec()),
    {
        let mut r: Vec<String> = Vec::new();
        let mut i: usize = self.scroll_row;
        let end: usize = if self.scroll_row >= self.rendered.len() {
            self.scroll_row
        } else if self.rendered.len() - self.scroll_row < self.height {
            self.rendered.len()
        } else {
            self.scroll_row + self.height
        };
        while i < end
            invariant
                self.scroll_row <= i <= end <= self.rendered@.len() || (i == end && end == self.scroll_row),
                end - self.scroll_row == visible_count(self.rows().len(), self.scroll_spec().0, self.height_spec()),
                r@.len() == i - self.scroll_row,
                forall|k: int| 0 <= k < r@.len() ==> #[trigger] r@[k]@ == trim_row(
                    self.rows()[self.scroll_spec().0 + k], self.scroll_spec().1, self.width_spec()),
            decreases end - i,
        {
            let t = trim_visible(&self.rendered[i], self.scroll_column, self.width);
            r.push(t);
            i = i + 1;
        }
        r
    }
}

/// The part of `row` visible with horizontal offset `col` in `width` columns.
fn trim_visible(row: &String, col: usize, width: usize) -> (r: String)
    ensures
        r@ == trim_row(row@, col as nat, width as nat),
{
    let gs = graphemes_of(row.as_str());
    let ghost gv = views(gs@);
    let mut skipped: usize = 0;
    let mut used: usize = 0;
    let mut out = String::new();
    let mut j: usize = 0;
    assert(gv.take(0) =~= Seq::<Seq<char>>::empty());
    while j < gs.len()
        invariant
            gv == views(gs@),
            gv == grapheme_clusters(row@),
            j <= gs@.len(),
            (skipped as nat, used as nat, out@) == trim_state(gv.take(j as int), col as nat, width as nat),
            used <= width,
        decreases gs@.len() - j,
    {
        let g = &gs[j];
        assert(gv.take(j + 1).drop_last() =~= gv.take(j as int));
        assert(gv.take(j + 1).last() == g@);
        let w = str_width(g.as_str());
        if skipped < col {
            skipped = skipped.saturating_add(w);
        } else if used < width && w <= width - used {
            used = used + w;
            out.append(g.as_str());
        } else {
            used = width;
        }
        j = j + 1;
    }
    assert(gv.take(gs@.len() as int) =~= gv);
    out
}

} // verus!
