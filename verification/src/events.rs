//! Science Olympiad event names and their kinds.

use vstd::prelude::*;
use crate::text::str_eq;

verus! {

/// The events of the season, in the order the bot lists them.
pub open spec fn event_names() -> Seq<Seq<char>> {
    seq![
        "Anatomy and Physiology"@,
        "Astronomy"@,
        "Boomilever"@,
        "Bungee Drop"@,
        "Chemistry Lab"@,
        "Circuit Lab"@,
        "Codebusters"@,
        "Designer Genes"@,
        "Disease Detectives"@,
        "Dynamic Planet"@,
        "Electric Vehicle"@,
        "Engineering CAD"@,
        "Entomology"@,
        "Experimental Design"@,
        "Forensics"@,
        "Helicopter"@,
        "Hovercraft"@,
        "Machines"@,
        "Materials Science"@,
        "Remote Sensing"@,
        "Robot Tour"@,
        "Rocks and Minerals"@,
        "Water Quality"@,
    ]
}

/// The characters of each name in a list of string slices.
pub open spec fn slice_texts(v: Seq<&str>) -> Seq<Seq<char>> {
    v.map_values(|s: &str| s@)
}

/// The events of the season.
pub fn event_list() -> (r: Vec<&'static str>)
    ensures
        slice_texts(r@) == event_names(),
{
    let r = vec![
        "Anatomy and Physiology",
        "Astronomy",
        "Boomilever",
        "Bungee Drop",
        "Chemistry Lab",
        "Circuit Lab",
        "Codebusters",
        "Designer Genes",
        "Disease Detectives",
        "Dynamic Planet",
        "Electric Vehicle",
        "Engineering CAD",
        "Entomology",
        "Experimental Design",
        "Forensics",
        "Helicopter",
        "Hovercraft",
        "Machines",
        "Materials Science",
        "Remote Sensing",
        "Robot Tour",
        "Rocks and Minerals",
        "Water Quality",
    ];
    assert(slice_texts(r@) =~= event_names());
    r
}

/// The two divisions of the competition.
pub enum Division {
    B,
    C,
}

/// The kind of an event.
pub enum Types {
    Build,
    Hybrid,
    Study,
}

impl Types {
    /// The kind's name as the bot prints it.
    pub fn to_string(&self) -> (r: String)
        ensures
            r@ == (match self {
                Types::Build => "Build"@,
                Types::Hybrid => "Hybrid"@,
                Types::Study => "Study"@,
            }),
    {
        match self {
            Types::Build => String::from_str("Build"),
            Types::Hybrid => String::from_str("Hybrid"),
            Types::Study => String::from_str("Study"),
        }
    }
}

/// The kind of each listed event; any other name counts as a study event.
pub open spec fn event_type(e: Seq<char>) -> Types {
    if e == "Boomilever"@ || e == "Bungee Drop"@ || e == "Electric Vehicle"@ || e == "Helicopter"@
        || e == "Hovercraft"@ || e == "Robot Tour"@ {
        Types::Build
    } else if e == "Chemistry Lab"@ || e == "Circuit Lab"@ || e == "Engineering CAD"@ || e
        == "Experimental Design"@ || e == "Forensics"@ || e == "Machines"@ || e == "Materials Science"@
        || e == "Water Quality"@ {
        Types::Hybrid
    } else {
        Types::Study
    }
}

/// The kind of an event, by its exact name.
pub fn match_event_type(event: &str) -> (r: Types)
    ensures
        r == event_type(event@),
{
    if str_eq(event, "Boomilever") || str_eq(event, "Bungee Drop") || str_eq(event, "Electric Vehicle")
        || str_eq(event, "Helicopter") || str_eq(event, "Hovercraft") || str_eq(event, "Robot Tour") {
        Types::Build
    } else if str_eq(event, "Chemistry Lab") || str_eq(event, "Circuit Lab") || str_eq(
        event,
        "Engineering CAD",
    ) || str_eq(event, "Experimental Design") || str_eq(event, "Forensics") || str_eq(
        event,
        "Machines",
    ) || str_eq(event, "Materials Science") || str_eq(event, "Water Quality") {
        Types::Hybrid
    } else {
        Types::Study
    }
}

/// What `rust_fuzzy_search::fuzzy_search_sorted` ranks first when `query` is compared
/// with `candidates` by trigram similarity.
pub uninterp spec fn fuzzy_best_match(query: Seq<char>, candidates: Seq<Seq<char>>) -> Seq<char>;

/// Calls `rust_fuzzy_search::fuzzy_search_sorted` and takes the name it ranks first. The
/// crate scores every candidate and sorts the scores in descending order, so the name
/// returned is one of the candidates; which one is named `fuzzy_best_match`.
#[verifier::external_body]
fn closest_candidate(query: &str, candidates: &Vec<&str>) -> (r: String)
    requires
        candidates@.len() > 0,
    ensures
        r@ == fuzzy_best_match(query@, slice_texts(candidates@)),
        slice_texts(candidates@).contains(r@),
{
    rust_fuzzy_search::fuzzy_search_sorted(query, candidates)[0].0.to_string()
}

/// The event name a loosely typed name stands for: the shorthands "widi" and "r&m" by
/// their full names, anything else by the closest listed event.
pub fn find_closest_event_name(in_event: String) -> (r: String)
    ensures
        r@ == (if in_event@ == "widi"@ {
            "Write It Do It"@
        } else if in_event@ == "r&m"@ {
            "Rocks and Minerals"@
        } else {
            fuzzy_best_match(in_event@, event_names())
        }),
        in_event@ != "widi"@ ==> event_names().contains(r@),
{
    if str_eq(in_event.as_str(), "widi") {
        String::from_str("Write It Do It")
    } else if str_eq(in_event.as_str(), "r&m") {
        proof {
            reveal_strlit("Rocks and Minerals");
            assert(event_names()[21] == "Rocks and Minerals"@);
        }
        String::from_str("Rocks and Minerals")
    } else {
        let list = event_list();
        assert(slice_texts(list@).len() == list@.len());
        closest_candidate(in_event.as_str(), &list)
    }
}

} // verus!
