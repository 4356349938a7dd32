//! Test documents: their titles, addresses, and who may edit them.

use vstd::prelude::*;
use crate::text::str_eq;

verus! {

/// The access a person is given to a shared document.
pub enum Perms {
    Viewer(),
    Commenter(),
    Editor(),
    Owner(),
}

impl Perms {
    /// The role name Google Drive uses for this access.
    pub fn role(&self) -> (r: String)
        ensures
            r@ == (match self {
                Perms::Viewer() => "reader"@,
                Perms::Commenter() => "commenter"@,
                Perms::Editor() => "writer"@,
                Perms::Owner() => "owner"@,
            }),
    {
        match self {
            Perms::Viewer() => String::from_str("reader"),
            Perms::Commenter() => String::from_str("commenter"),
            Perms::Editor() => String::from_str("writer"),
            Perms::Owner() => String::from_str("owner"),
        }
    }
}

/// What `char::to_uppercase` gives for a character: its Unicode uppercase mapping.
pub uninterp spec fn upper_char(c: char) -> Seq<char>;

/// Calls `char::to_uppercase` and writes out the characters it yields; the result is
/// named `upper_char` of the input.
#[verifier::external_body]
fn char_to_uppercase(c: char) -> (r: String)
    ensures
        r@ == upper_char(c),
{
    c.to_uppercase().to_string()
}

/// The title of the answer document for a test: event, team letter in upper case, date.
pub fn test_doc_title(event: &str, team: char, date: &str) -> (r: String)
    ensures
        r@ == event@ + " Team "@ + upper_char(team) + ", "@ + date@,
{
    let mut r = String::from_str(event);
    r.append(" Team ");
    let t = char_to_uppercase(team);
    r.append(t.as_str());
    r.append(", ");
    r.append(date);
    assert(r@ =~= event@ + " Team "@ + upper_char(team) + ", "@ + date@);
    r
}

/// The address of a Google document.
pub fn doc_url(file_id: &str) -> (r: String)
    ensures
        r@ == "https://docs.google.com/document/d/"@ + file_id@ + "/edit"@,
{
    let mut r = String::from_str("https://docs.google.com/document/d/");
    r.append(file_id);
    r.append("/edit");
    assert(r@ =~= "https://docs.google.com/document/d/"@ + file_id@ + "/edit"@);
    r
}

/// A character of one byte in UTF-8.
pub open spec fn is_ascii_char(c: char) -> bool {
    (c as u32) < 128
}

/// The text that links to a test. The link is stored as a quoted cell, so its first and
/// last characters, one byte each, are left out.
pub fn test_link_description(stored_url: &str) -> (r: String)
    requires
        stored_url@.len() >= 2,
        is_ascii_char(stored_url@[0]),
        is_ascii_char(stored_url@.last()),
    ensures
        r@ == "This is the [link]("@ + stored_url@.subrange(1, stored_url@.len() - 1) + ") to the test"@,
{
    let n = stored_url.unicode_len();
    let inner = stored_url.substring_char(1, n - 1);
    let mut r = String::from_str("This is the [link](");
    r.append(inner);
    r.append(") to the test");
    assert(r@ =~= "This is the [link]("@ + stored_url@.subrange(1, stored_url@.len() - 1) + ") to the test"@);
    r
}

/// A cell of the test sheet: its text when it holds text, and the cell as the sheet's
/// JSON renders it.
pub struct SheetCell {
    pub text: Option<String>,
    pub rendered: String,
}

/// Row `k` names the event: it has two cells at least, and the first holds the event's
/// name as text.
pub open spec fn names_event(rows: Seq<Vec<SheetCell>>, event: Seq<char>, k: int) -> bool {
    &&& rows[k]@.len() >= 2
    &&& rows[k]@[0].text matches Some(t) && t@ == event
}

/// The stored link of an event's test: the second cell, as rendered, of the first row
/// that names the event; none when no row does.
pub fn get_test_link(event: &str, rows: &Vec<Vec<SheetCell>>) -> (r: Option<String>)
    ensures
        r is Some <==> exists|k: int| 0 <= k < rows.len() && names_event(rows@, event@, k),
        r matches Some(link) ==> exists|k: int|
            #![trigger rows@[k]]
            0 <= k < rows.len() && names_event(rows@, event@, k) && (forall|j: int|
                0 <= j < k ==> !names_event(rows@, event@, j)) && link@ == rows@[k]@[1].rendered@,
{
    let mut k: usize = 0;
    while k < rows.len()
        invariant
            k <= rows.len(),
            forall|j: int| 0 <= j < k ==> !names_event(rows@, event@, j),
        decreases rows.len() - k,
    {
        let row = &rows[k];
        if row.len() >= 2 {
            let hit = match &row[0].text {
                Some(t) => str_eq(t.as_str(), event),
                None => false,
            };
            if hit {
                assert(names_event(rows@, event@, k as int));
                return Some(row[1].rendered.clone());
            }
        }
        k = k + 1;
    }
    None
}

} // verus!
