//! Reading the team roster sheet.

use vstd::prelude::*;
use crate::text::{contains, contains_seq, lower_seq, replace, replace_seq, to_lowercase, trim, trim_seq};
use crate::users::texts;

verus! {

/// The team a roster tab stands for, from its title with the word "Team" taken out and
/// lowercased: alternates (`d`), A, B, C, or none (`z`).
pub open spec fn team_of_title(title: Seq<char>) -> char {
    let l = lower_seq(replace_seq(title, "Team"@, ""@));
    if contains_seq(l, "alternates"@) {
        'd'
    } else if contains_seq(l, "a"@) {
        'A'
    } else if contains_seq(l, "b"@) {
        'B'
    } else if contains_seq(l, "c"@) {
        'C'
    } else {
        'z'
    }
}

/// The team a roster tab stands for.
pub fn team_from_tab_title(title: &str) -> (r: char)
    ensures
        r == team_of_title(title@),
{
    proof {
        reveal_strlit("Team");
    }
    let trimmed = replace(title, "Team", "");
    let l = to_lowercase(trimmed.as_str());
    if contains(l.as_str(), "alternates") {
        'd'
    } else if contains(l.as_str(), "a") {
        'A'
    } else if contains(l.as_str(), "b") {
        'B'
    } else if contains(l.as_str(), "c") {
        'C'
    } else {
        'z'
    }
}

/// The range of a tab that holds its members.
pub fn roster_range(title: &str) -> (r: String)
    ensures
        r@ == title@ + "!A4:H18"@,
{
    let mut r = String::from_str(title);
    r.append("!A4:H18");
    r
}

/// A cell's text trimmed and without double quotes.
pub open spec fn clean_cell(s: Seq<char>) -> Seq<char> {
    replace_seq(trim_seq(s), "\""@, ""@)
}

/// Cleans a cell's text.
pub fn clean(s: &str) -> (r: String)
    ensures
        r@ == clean_cell(s@),
{
    proof {
        reveal_strlit("\"");
    }
    let t = trim(s);
    replace(t.as_str(), "\"", "")
}

/// The non-empty cleaned texts.
pub open spec fn nonempty_pred() -> spec_fn(Seq<char>) -> bool {
    |s: Seq<char>| s.len() > 0
}

/// The events of a roster row: its cells from the third on, cleaned, the empty ones left out.
pub open spec fn row_events(cells: Seq<Seq<char>>) -> Seq<Seq<char>> {
    after_second(cells).map_values(|c: Seq<char>| clean_cell(c)).filter(nonempty_pred())
}

/// The cells after the second one.
pub open spec fn after_second(cells: Seq<Seq<char>>) -> Seq<Seq<char>> {
    if cells.len() <= 2 {
        Seq::empty()
    } else {
        cells.skip(2)
    }
}

/// Reads a roster row: the member's name from its first cell and the events from the
/// cells after the second; a row that is empty or has no name gives `None`.
pub fn parse_roster_row(cells: &Vec<String>) -> (r: Option<(String, Vec<String>)>)
    ensures
        r is None <==> (cells@.len() == 0 || clean_cell(cells@[0]@).len() == 0),
        r matches Some(row) ==> row.0@ == clean_cell(cells@[0]@) && texts(row.1@) == row_events(texts(cells@)),
{
    if cells.len() == 0 {
        return None;
    }
    let name = clean(cells[0].as_str());
    if name.unicode_len() == 0 {
        return None;
    }
    let ghost all = after_second(texts(cells@)).map_values(|c: Seq<char>| clean_cell(c));
    let ghost pred = nonempty_pred();
    let mut events: Vec<String> = Vec::new();
    let mut i: usize = 2;
    if cells.len() < 2 {
        i = cells.len();
    }
    let ghost start = i;
    assert(all.take(0).filter(pred) =~= Seq::<Seq<char>>::empty()) by {
        reveal(Seq::filter);
    }
    while i < cells.len()
        invariant
            start <= i <= cells.len(),
            start == (if cells@.len() < 2 { cells@.len() as int } else { 2 }),
            all == after_second(texts(cells@)).map_values(|c: Seq<char>| clean_cell(c)),
            pred == nonempty_pred(),
            cells@.len() >= 2 ==> all.len() == cells@.len() - 2,
            cells@.len() <= 2 ==> all.len() == 0,
            texts(events@) == all.take(i - start).filter(pred),
        decreases cells.len() - i,
    {
        let e = clean(cells[i].as_str());
        let k = i - 2;
        assert(all[k as int] == clean_cell(cells@[i as int]@));
        assert(all.take(k + 1).drop_last() =~= all.take(k as int));
        assert(all.take(k + 1).filter(pred) == (if pred(all[k as int]) {
            all.take(k as int).filter(pred).push(all[k as int])
        } else {
            all.take(k as int).filter(pred)
        })) by {
            reveal(Seq::filter);
        }
        if e.unicode_len() > 0 {
            events.push(e);
            assert(texts(events@) =~= all.take(k + 1).filter(pred));
        }
        i = i + 1;
    }
    assert(all.take(i - start) =~= all);
    Some((name, events))
}


proof fn lemma_filter_keeps_all(s: Seq<Seq<char>>, pred: spec_fn(Seq<char>) -> bool)
    requires
        forall|i: int| 0 <= i < s.len() ==> pred(#[trigger] s[i]),
    ensures
        s.filter(pred) == s,
    decreases s.len(),
{
    reveal(Seq::filter);
    if s.len() > 0 {
        lemma_filter_keeps_all(s.drop_last(), pred);
        assert(pred(s[s.len() - 1]));
        assert(s.drop_last().push(s.last()) =~= s);
    }
}

/// Every cell from the third on whose cleaned text is non-empty is one of the row's
/// events.
pub proof fn lemma_row_event_cells(cells: Seq<Seq<char>>, j: int)
    requires
        2 <= j < cells.len(),
        clean_cell(cells[j]).len() > 0,
    ensures
        row_events(cells).contains(clean_cell(cells[j])),
{
    broadcast use vstd::seq_lib::group_filter_ensures;

    let all = after_second(cells).map_values(|c: Seq<char>| clean_cell(c));
    assert(after_second(cells) == cells.skip(2));
    assert(all[j - 2] == clean_cell(cells[j]));
    assert(nonempty_pred()(all[j - 2]));
}

/// A row whose cells from the third on all clean to non-empty text has exactly those
/// cells, cleaned and in order, as its events.
pub proof fn lemma_row_events_in_order(cells: Seq<Seq<char>>)
    requires
        cells.len() >= 2,
        forall|j: int| 2 <= j < cells.len() ==> clean_cell(#[trigger] cells[j]).len() > 0,
    ensures
        row_events(cells) == cells.subrange(2, cells.len() as int).map_values(|c: Seq<char>| clean_cell(c)),
{
    let all = after_second(cells).map_values(|c: Seq<char>| clean_cell(c));
    let expected = cells.subrange(2, cells.len() as int).map_values(|c: Seq<char>| clean_cell(c));
    assert(all =~= expected) by {
        if cells.len() <= 2 {
            assert(after_second(cells) =~= Seq::<Seq<char>>::empty());
        } else {
            assert(after_second(cells) =~= cells.subrange(2, cells.len() as int));
        }
    }
    assert forall|i: int| 0 <= i < all.len() implies nonempty_pred()(#[trigger] all[i]) by {
        assert(all[i] == clean_cell(cells[i + 2]));
    }
    lemma_filter_keeps_all(all, nonempty_pred());
}

} // verus!
