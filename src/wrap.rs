//! Width-aware wrapping of one line into display rows.

use vstd::prelude::*;
use crate::unicode::{display_width, grapheme_clusters, word_bound_segments, views, str_width, graphemes_of, word_bounds_of};

verus! {

broadcast use vstd::seq_lib::group_seq_properties;

/// Rows closed so far and the row being filled.
pub type WrapState = (Seq<Seq<char>>, Seq<char>);

/// Closes the row being filled, dropping it when it is empty.
pub open spec fn close_row(rows: Seq<Seq<char>>, cur: Seq<char>) -> Seq<Seq<char>> {
    if cur.len() > 0 { rows.push(cur) } else { rows }
}

/// Places one piece: appended to the current row if the row stays within
/// `width`, else the current row is closed and a new one starts with the piece.
pub open spec fn place(st: WrapState, p: Seq<char>, width: nat) -> WrapState {
    let cand = st.1 + p;
    if display_width(cand) > width { (close_row(st.0, st.1), p) } else { (st.0, cand) }
}

pub open spec fn place_all(st: WrapState, ps: Seq<Seq<char>>, width: nat) -> WrapState
    decreases ps.len(),
{
    if ps.len() == 0 { st } else { place(place_all(st, ps.drop_last(), width), ps.last(), width) }
}

/// Places a word whole, or grapheme by grapheme when it is wider than a row.
pub open spec fn place_word(st: WrapState, w: Seq<char>, width: nat) -> WrapState {
    if display_width(w) > width {
        place_all(st, grapheme_clusters(w), width)
    } else {
        place(st, w, width)
    }
}

pub open spec fn place_words(ws: Seq<Seq<char>>, width: nat) -> WrapState
    decreases ws.len(),
{
    if ws.len() == 0 {
        (Seq::empty(), Seq::empty())
    } else {
        place_word(place_words(ws.drop_last(), width), ws.last(), width)
    }
}

/// The rows a line wraps into: the line itself when it fits, else its words
/// packed greedily into rows.
pub open spec fn wrap_spec(line: Seq<char>, width: nat) -> Seq<Seq<char>> {
    if display_width(line) <= width {
        seq![line]
    } else {
        let st = place_words(word_bound_segments(line), width);
        close_row(st.0, st.1)
    }
}

/// No grapheme of a word that has to be split is wider than a row.
pub open spec fn graphemes_fit(line: Seq<char>, width: nat) -> bool {
    forall|i: int, j: int|
        0 <= i < word_bound_segments(line).len()
        && display_width(#[trigger] word_bound_segments(line)[i]) > width
        && 0 <= j < grapheme_clusters(word_bound_segments(line)[i]).len()
        ==> display_width(#[trigger] grapheme_clusters(word_bound_segments(line)[i])[j]) <= width
}

/// Wraps `line` into rows of at most `width` columns. The rows concatenate
/// back to the line; none is wider than `width` unless a single grapheme is.
pub fn pretty_wrap(line: &str, width: usize) -> (rows: Vec<String>)
    ensures
        views(rows@) == wrap_spec(line@, width as nat),
        views(rows@).flatten() == line@,
        graphemes_fit(line@, width as nat) ==> forall|i: int|
            0 <= i < rows@.len() ==> display_width(#[trigger] rows@[i]@) <= width,
{
    let mut rows: Vec<String> = Vec::new();
    if str_width(line) <= width {
        rows.push(line.to_owned());
        proof {
            assert(views(rows@) =~= seq![line@]);
            seq![line@].lemma_flatten_one_element();
        }
        return rows;
    }
    let words = word_bounds_of(line);
    let ghost ws = views(words@);
    let ghost fits = graphemes_fit(line@, width as nat);
    let mut cur = String::new();
    let mut k: usize = 0;
    while k < words.len()
        invariant
            ws == views(words@),
            ws == word_bound_segments(line@),
            ws.flatten() == line@,
            fits == graphemes_fit(line@, width as nat),
            0 <= k <= words@.len(),
            (views(rows@), cur@) == place_words(ws.take(k as int), width as nat),
            views(rows@).flatten() + cur@ == ws.take(k as int).flatten(),
            fits ==> all_fit(rows@, width as nat),
            fits ==> cur@.len() == 0 || display_width(cur@) <= width,
        decreases words@.len() - k,
    {
        let word = &words[k];
        assert(ws.take(k + 1).drop_last() =~= ws.take(k as int));
        assert(ws.take(k + 1).last() == word@);
        proof {
            ws.take(k as int).lemma_flatten_push(word@);
            assert(ws.take(k + 1) =~= ws.take(k as int).push(word@));
        }
        place_word_exec(&mut rows, &mut cur, word, width, Ghost(fits));
        k = k + 1;
    }
    assert(ws.take(words@.len() as int) =~= ws);
    if !cur.as_str().is_empty() {
        proof { lemma_views_push(rows@, cur); }
        rows.push(cur);
    }
    rows
}

/// Every row fits within `width` columns.
pub open spec fn all_fit(rows: Seq<String>, width: nat) -> bool {
    forall|i: int| 0 <= i < rows.len() ==> display_width(#[trigger] rows[i]@) <= width
}

/// Places one word, splitting it into graphemes when it is wider than a row.
fn place_word_exec(rows: &mut Vec<String>, cur: &mut String, word: &String, width: usize, Ghost(fits): Ghost<bool>)
    requires
        fits ==> all_fit(old(rows)@, width as nat),
        fits ==> old(cur)@.len() == 0 || display_width(old(cur)@) <= width,
        fits && display_width(word@) > width ==> forall|j: int|
            0 <= j < grapheme_clusters(word@).len()
            ==> display_width(#[trigger] grapheme_clusters(word@)[j]) <= width,
    ensures
        (views(final(rows)@), final(cur)@) == place_word((views(old(rows)@), old(cur)@), word@, width as nat),
        views(final(rows)@).flatten() + final(cur)@ == views(old(rows)@).flatten() + old(cur)@ + word@,
        fits ==> all_fit(final(rows)@, width as nat),
        fits ==> final(cur)@.len() == 0 || display_width(final(cur)@) <= width,
{
    if str_width(word.as_str()) > width {
        let gs = graphemes_of(word.as_str());
        let ghost gv = views(gs@);
        let ghost before = (views(rows@), cur@);
        let mut j: usize = 0;
        while j < gs.len()
            invariant
                gv == views(gs@),
                gv == grapheme_clusters(word@),
                gv.flatten() == word@,
                0 <= j <= gs@.len(),
                (views(rows@), cur@) == place_all(before, gv.take(j as int), width as nat),
                views(rows@).flatten() + cur@ == before.0.flatten() + before.1 + gv.take(j as int).flatten(),
                fits ==> all_fit(rows@, width as nat),
                fits ==> cur@.len() == 0 || display_width(cur@) <= width,
                fits ==> forall|jj: int| 0 <= jj < gv.len() ==> display_width(#[trigger] gv[jj]) <= width,
            decreases gs@.len() - j,
        {
            let g = &gs[j];
            assert(gv.take(j + 1).drop_last() =~= gv.take(j as int));
            assert(gv.take(j + 1).last() == g@);
            proof {
                gv.take(j as int).lemma_flatten_push(g@);
                assert(gv.take(j + 1) =~= gv.take(j as int).push(g@));
                assert(gv[j as int] == g@);
            }
            place_piece(rows, cur, g, width);
            assert(before.0.flatten() + before.1 + gv.take(j + 1).flatten()
                =~= before.0.flatten() + before.1 + gv.take(j as int).flatten() + g@);
            j = j + 1;
        }
        assert(gv.take(gs@.len() as int) =~= gv);
    } else {
        place_piece(rows, cur, word, width);
    }
}

/// Places one piece on the current row, or closes the row and starts the next.
fn place_piece(rows: &mut Vec<String>, cur: &mut String, p: &String, width: usize)
    ensures
        (views(final(rows)@), final(cur)@) == place((views(old(rows)@), old(cur)@), p@, width as nat),
        views(final(rows)@).flatten() + final(cur)@ == views(old(rows)@).flatten() + old(cur)@ + p@,
        all_fit(old(rows)@, width as nat) && (old(cur)@.len() == 0 || display_width(old(cur)@) <= width)
            ==> all_fit(final(rows)@, width as nat),
        display_width(p@) <= width ==> final(cur)@.len() == 0 || display_width(final(cur)@) <= width,
{
    let mut cand = cur.clone();
    cand.append(p.as_str());
    if str_width(cand.as_str()) > width {
        if !cur.as_str().is_empty() {
            proof { lemma_views_push(rows@, *cur); }
            rows.push(cur.clone());
        }
        *cur = p.clone();
    } else {
        *cur = cand;
        assert(views(rows@).flatten() + cur@ =~= views(old(rows)@).flatten() + old(cur)@ + p@);
    }
}

proof fn lemma_views_push(rows: Seq<String>, s: String)
    ensures
        views(rows.push(s)) == views(rows).push(s@),
        views(rows.push(s)).flatten() == views(rows).flatten() + s@,
{
    assert(views(rows.push(s)) =~= views(rows).push(s@));
    views(rows).lemma_flatten_push(s@);
}

} // verus!
