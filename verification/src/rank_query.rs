//! Rank queries: which place a school took in an event at an invitational.

use vstd::prelude::*;
use yaml_rust2::YamlLoader;
use crate::sessions::opt_view;
use crate::text::{
    chars_of, contains, contains_seq, decimal, eq_ignore_ascii_case, eq_ignore_ascii_case_seq,
    lower_seq, signed_decimal, to_lowercase, trim, trim_seq, u64_to_string, i64_to_string,
};

verus! {

/// A rank query as the command received it.
pub struct Input {
    pub qyear: i32,
    pub qinv: String,
    pub qschool: String,
    pub qstate: String,
    pub qevent: String,
    pub qdiv: String,
}

/// `s` is a numeral that `str::parse::<i32>` reads as -1: a minus sign, any zeros, a one.
pub open spec fn parses_as_minus_one(s: Seq<char>) -> bool {
    &&& s.len() >= 2
    &&& s[0] == '-'
    &&& s.last() == '1'
    &&& forall|i: int| 1 <= i < s.len() - 1 ==> s[i] == '0'
}

/// Tests whether a string reads as the placeholder -1.
pub fn is_minus_one(s: &str) -> (b: bool)
    ensures
        b == parses_as_minus_one(s@),
{
    let v = chars_of(s);
    let n = v.len();
    if n < 2 || v[0] != '-' || v[n - 1] != '1' {
        return false;
    }
    let mut i: usize = 1;
    while i < n - 1
        invariant
            v@ == s@,
            n == v.len(),
            n >= 2,
            1 <= i <= n - 1,
            forall|j: int| 1 <= j < i ==> v@[j] == '0',
        decreases n - 1 - i,
    {
        if v[i] != '0' {
            return false;
        }
        i = i + 1;
    }
    true
}

/// The event name a query uses: any name that mentions chemistry, in any case, means
/// "Chemistry Lab"; other names stay as given.
pub open spec fn fixed_event(e: Seq<char>) -> Seq<char> {
    if contains_seq(lower_seq(e), "chem"@) {
        "Chemistry Lab"@
    } else {
        e
    }
}

fn inv(name: String) -> (r: String)
    ensures
        r == name,
{
    name
}

fn state(name: String) -> (r: String)
    ensures
        r == name,
{
    name
}

fn school(name: String) -> (r: String)
    ensures
        r == name,
{
    name
}

/// Normalizes the event name; a placeholder -1 is not an event and is refused by the
/// precondition.
fn event(name: String) -> (r: String)
    requires
        !parses_as_minus_one(name@),
    ensures
        r@ == fixed_event(name@),
{
    let lower = to_lowercase(name.as_str());
    if contains(lower.as_str(), "chem") {
        String::from_str("Chemistry Lab")
    } else {
        name
    }
}

/// Trims every text field of a query and normalizes its event; year and division stay.
pub fn fix_inputs(query: Input) -> (r: Input)
    requires
        !parses_as_minus_one(query.qevent@),
    ensures
        r.qyear == query.qyear,
        r.qinv@ == trim_seq(query.qinv@),
        r.qevent@ == trim_seq(fixed_event(query.qevent@)),
        r.qschool@ == trim_seq(query.qschool@),
        r.qstate@ == trim_seq(query.qstate@),
        r.qdiv == query.qdiv,
{
    let oinv = trim(inv(query.qinv).as_str());
    let oevent = trim(event(query.qevent).as_str());
    let oschool = trim(school(query.qschool).as_str());
    let ostate = trim(state(query.qstate).as_str());
    Input { qyear: query.qyear, qinv: oinv, qschool: oschool, qstate: ostate, qevent: oevent, qdiv: query.qdiv }
}

impl Input {
    /// Builds a query from its parts, trimmed and normalized as `fix_inputs` does.
    pub fn build_input(year: i32, inv: String, school: String, state: String, event: String, div: String) -> (r:
        Input)
        requires
            !parses_as_minus_one(event@),
        ensures
            r.qyear == year,
            r.qinv@ == trim_seq(inv@),
            r.qevent@ == trim_seq(fixed_event(event@)),
            r.qschool@ == trim_seq(school@),
            r.qstate@ == trim_seq(state@),
            r.qdiv == div,
    {
        let inq = Input { qyear: year, qinv: inv, qschool: school, qstate: state, qevent: event, qdiv: div };
        fix_inputs(inq)
    }

    /// Whether a results file answers this query: its path names the invitational and its
    /// division matches, ignoring ASCII case. The division is read only for a path that
    /// names the invitational, and must then be present.
    pub fn file_matches(&self, path: &str, division: Option<String>) -> (b: bool)
        requires
            contains_seq(path@, self.qinv@) ==> division is Some,
        ensures
            b == (contains_seq(path@, self.qinv@) && eq_ignore_ascii_case_seq(division->0@, self.qdiv@)),
    {
        if contains(path, self.qinv.as_str()) {
            match division {
                Some(d) => eq_ignore_ascii_case(d.as_str(), self.qdiv.as_str()),
                None => false,
            }
        } else {
            false
        }
    }

    /// The query's fields as the command logs them.
    pub fn fields_summary(&self) -> (r: String)
        ensures
            r@ == "year: "@ + signed_decimal(self.qyear as int) + ", invitational: "@ + self.qinv@
                + ", school: "@ + self.qschool@ + ", event: "@ + self.qevent@,
    {
        let mut r = String::from_str("year: ");
        let y = i64_to_string(self.qyear as i64);
        r.append(y.as_str());
        r.append(", invitational: ");
        r.append(self.qinv.as_str());
        r.append(", school: ");
        r.append(self.qschool.as_str());
        r.append(", event: ");
        r.append(self.qevent.as_str());
        assert(r@ =~= "year: "@ + signed_decimal(self.qyear as int) + ", invitational: "@ + self.qinv@
            + ", school: "@ + self.qschool@ + ", event: "@ + self.qevent@);
        r
    }
}

} // verus!

verus! {

/// One team of a tournament's results, with the fields the query reads; a field is `None`
/// when the results file does not give it with the expected type.
pub struct TeamEntry {
    pub school: Option<String>,
    pub number: Option<i64>,
}

/// One placing of a tournament's results.
pub struct PlacingEntry {
    pub team: Option<i64>,
    pub event: Option<String>,
    pub place: Option<i64>,
}

/// The parts of a tournament's results file that a rank query reads.
pub struct ResultsDoc {
    pub teams: Vec<TeamEntry>,
    pub placings: Vec<PlacingEntry>,
}

/// Why a rank query found no place.
pub enum RankError {
    NoResultsFile,
    SchoolNotFound,
    PlacingNotFound,
    YearOutOfRange,
}

impl RankError {
    /// The text the command reports for the error.
    pub fn message(&self) -> (r: String)
        ensures
            r@ == (match self {
                RankError::NoResultsFile => "DNE"@,
                RankError::SchoolNotFound => "couldn't find school"@,
                RankError::PlacingNotFound => "placing not found"@,
                RankError::YearOutOfRange => "out of range integral type conversion attempted"@,
            }),
    {
        match self {
            RankError::NoResultsFile => String::from_str("DNE"),
            RankError::SchoolNotFound => String::from_str("couldn't find school"),
            RankError::PlacingNotFound => String::from_str("placing not found"),
            RankError::YearOutOfRange => String::from_str("out of range integral type conversion attempted"),
        }
    }
}

/// A team's school mentions the queried school, both lowercased.
pub open spec fn school_hit(t: TeamEntry, query: Seq<char>) -> bool {
    t.school matches Some(s) && contains_seq(lower_seq(s@), lower_seq(query))
}

/// Scanning the teams in order for the queried school reads only fields that are there:
/// each school up to the first hit, and that team's number.
pub open spec fn teams_readable(teams: Seq<TeamEntry>, query: Seq<char>) -> bool
    decreases teams.len(),
{
    if teams.len() == 0 {
        true
    } else if teams[0].school is None {
        false
    } else if school_hit(teams[0], query) {
        teams[0].number is Some
    } else {
        teams_readable(teams.drop_first(), query)
    }
}

/// The number of the first team whose school mentions the queried school.
pub open spec fn school_number(teams: Seq<TeamEntry>, query: Seq<char>) -> Option<i64>
    decreases teams.len(),
{
    if teams.len() == 0 {
        None
    } else if school_hit(teams[0], query) {
        teams[0].number
    } else {
        school_number(teams.drop_first(), query)
    }
}

/// A placing is the queried team's result in the queried event.
pub open spec fn placing_hit(p: PlacingEntry, number: i64, event: Seq<char>) -> bool {
    &&& number != -1
    &&& p.team == Some(number)
    &&& p.event matches Some(e) && eq_ignore_ascii_case_seq(e@, event)
}

/// Scanning the placings reads only fields that are there: team and event of each placing
/// up to the first hit, and that placing's place.
pub open spec fn placings_readable(placings: Seq<PlacingEntry>, number: i64, event: Seq<char>) -> bool
    decreases placings.len(),
{
    if placings.len() == 0 {
        true
    } else if placings[0].team is None || placings[0].event is None {
        false
    } else if placing_hit(placings[0], number, event) {
        placings[0].place is Some
    } else {
        placings_readable(placings.drop_first(), number, event)
    }
}

/// The place of the first placing of the queried team in the queried event.
pub open spec fn placing_of(placings: Seq<PlacingEntry>, number: i64, event: Seq<char>) -> Option<i64>
    decreases placings.len(),
{
    if placings.len() == 0 {
        None
    } else if placing_hit(placings[0], number, event) {
        placings[0].place
    } else {
        placing_of(placings.drop_first(), number, event)
    }
}

/// The first team of the results has a school to show.
pub open spec fn first_team_named(doc: ResultsDoc) -> bool {
    doc.teams@.len() > 0 && doc.teams@[0].school is Some
}

/// Everything a rank query reads of the results is there.
pub open spec fn results_readable(q: Input, doc: ResultsDoc) -> bool {
    &&& first_team_named(doc)
    &&& teams_readable(doc.teams@, q.qschool@)
    &&& school_number(doc.teams@, q.qschool@) matches Some(n) ==> placings_readable(
        doc.placings@,
        n,
        q.qevent@,
    )
}

/// The answer of a rank query on readable results.
pub open spec fn rank_of(q: Input, doc: ResultsDoc) -> Result<i64, RankError> {
    match school_number(doc.teams@, q.qschool@) {
        None => Err(RankError::SchoolNotFound),
        Some(n) => match placing_of(doc.placings@, n, q.qevent@) {
            Some(p) => Ok(p),
            None => Err(RankError::PlacingNotFound),
        },
    }
}

/// Scans the teams; `None` when a field the scan reads is missing.
fn scan_teams(teams: &Vec<TeamEntry>, query: &str) -> (r: Option<Option<i64>>)
    ensures
        r == (if teams_readable(teams@, query@) {
            Some(school_number(teams@, query@))
        } else {
            None
        }),
{
    let q = to_lowercase(query);
    let mut i: usize = 0;
    assert(teams@.skip(0) =~= teams@);
    while i < teams.len()
        invariant
            i <= teams.len(),
            q@ == lower_seq(query@),
            teams_readable(teams@, query@) == teams_readable(teams@.skip(i as int), query@),
            school_number(teams@, query@) == school_number(teams@.skip(i as int), query@),
        decreases teams.len() - i,
    {
        let ghost rest = teams@.skip(i as int);
        assert(rest[0] == teams@[i as int]);
        assert(rest.drop_first() =~= teams@.skip(i + 1));
        match &teams[i].school {
            None => {
                return None;
            },
            Some(s) => {
                let l = to_lowercase(s.as_str());
                if contains(l.as_str(), q.as_str()) {
                    assert(school_hit(rest[0], query@));
                    return match teams[i].number {
                        Some(n) => Some(Some(n)),
                        None => None,
                    };
                }
            },
        }
        i = i + 1;
    }
    Some(None)
}

/// Scans the placings; `None` when a field the scan reads is missing.
fn scan_placings(placings: &Vec<PlacingEntry>, number: i64, event: &str) -> (r: Option<Option<i64>>)
    ensures
        r == (if placings_readable(placings@, number, event@) {
            Some(placing_of(placings@, number, event@))
        } else {
            None
        }),
{
    let mut i: usize = 0;
    assert(placings@.skip(0) =~= placings@);
    while i < placings.len()
        invariant
            i <= placings.len(),
            placings_readable(placings@, number, event@) == placings_readable(placings@.skip(i as int), number, event@),
            placing_of(placings@, number, event@) == placing_of(placings@.skip(i as int), number, event@),
        decreases placings.len() - i,
    {
        let ghost rest = placings@.skip(i as int);
        assert(rest[0] == placings@[i as int]);
        assert(rest.drop_first() =~= placings@.skip(i + 1));
        let p = &placings[i];
        match (&p.team, &p.event) {
            (Some(t), Some(e)) => {
                if number != -1 && *t == number && eq_ignore_ascii_case(e.as_str(), event) {
                    assert(placing_hit(rest[0], number, event@));
                    return match p.place {
                        Some(pl) => Some(Some(pl)),
                        None => None,
                    };
                }
            },
            _ => {
                return None;
            },
        }
        i = i + 1;
    }
    Some(None)
}

/// A team as a rank query reads it: its school and its number.
pub open spec fn team_view(t: TeamEntry) -> (Option<Seq<char>>, Option<i64>) {
    (opt_view(t.school), t.number)
}

/// A placing as a rank query reads it: its team, its event and its place.
pub open spec fn placing_view(p: PlacingEntry) -> (Option<i64>, Option<Seq<char>>, Option<i64>) {
    (p.team, opt_view(p.event), p.place)
}

/// The teams and placings of results, as a rank query reads them; `None` for no results.
pub open spec fn results_view(r: Option<ResultsDoc>) -> Option<
    (Seq<(Option<Seq<char>>, Option<i64>)>, Seq<(Option<i64>, Option<Seq<char>>, Option<i64>)>),
> {
    match r {
        Some(d) => Some(
            (
                d.teams@.map_values(|t: TeamEntry| team_view(t)),
                d.placings@.map_values(|p: PlacingEntry| placing_view(p)),
            ),
        ),
        None => None,
    }
}

/// What `yaml_rust2::YamlLoader::load_from_str` makes of a results text, as a rank query
/// reads it: `None` when the text does not load or holds no document; otherwise, from the
/// first document, each entry of `Teams` (its `school` when a string, its `number` when an
/// integer) and each entry of `Placings` (its `team`, `event` and `place`, likewise).
pub uninterp spec fn yaml_results(text: Seq<char>) -> Option<
    (Seq<(Option<Seq<char>>, Option<i64>)>, Seq<(Option<i64>, Option<Seq<char>>, Option<i64>)>),
>;

/// What `yaml_rust2::YamlLoader::load_from_str` makes of a results text's division:
/// `None` when the text does not load or holds no document; otherwise the first
/// document's `Tournament.division` when it is a string.
pub uninterp spec fn yaml_division(text: Seq<char>) -> Option<Option<Seq<char>>>;

/// Loads a results text with `YamlLoader::load_from_str` and takes from its first
/// document the teams and placings a rank query reads, each field when it has the
/// expected type. The result is named `yaml_results` of the text.
#[verifier::external_body]
fn load_results(text: &str) -> (r: Option<ResultsDoc>)
    ensures
        results_view(r) == yaml_results(text@),
{
    let docs = YamlLoader::load_from_str(text).ok()?;
    let doc = docs.first()?;
    let teams = doc["Teams"].clone().into_iter().map(|t| TeamEntry {
        school: t["school"].clone().into_string(), number: t["number"].as_i64() }).collect();
    let placings = doc["Placings"].clone().into_iter().map(|p| PlacingEntry { team: p["team"].clone().into_i64(),
        event: p["event"].clone().into_string(), place: p["place"].clone().into_i64() }).collect();
    Some(ResultsDoc { teams, placings })
}

/// The view of a division read from a results text.
pub open spec fn division_view(r: Option<Option<String>>) -> Option<Option<Seq<char>>> {
    match r {
        Some(d) => Some(opt_view(d)),
        None => None,
    }
}

/// Loads a results text with `YamlLoader::load_from_str` and takes the first document's
/// `Tournament.division` when it is a string. The result is named `yaml_division` of the
/// text.
#[verifier::external_body]
fn results_division(text: &str) -> (r: Option<Option<String>>)
    ensures
        division_view(r) == yaml_division(text@),
{
    let docs = YamlLoader::load_from_str(text).ok()?;
    let doc = docs.first()?;
    Some(doc["Tournament"]["division"].as_str().map(|d| d.to_string()))
}

/// What a results file says about a query: it is no YAML document, it names the
/// invitational but gives no division, or it answers the query or not.
pub enum FileCheck {
    NotYaml,
    NoDivision,
    Answers(bool),
}

/// Two lists of teams that a rank query reads alike give the same scan.
proof fn lemma_teams_alike(a: Seq<TeamEntry>, b: Seq<TeamEntry>, query: Seq<char>)
    requires
        a.map_values(|t: TeamEntry| team_view(t)) == b.map_values(|t: TeamEntry| team_view(t)),
    ensures
        teams_readable(a, query) == teams_readable(b, query),
        school_number(a, query) == school_number(b, query),
    decreases a.len(),
{
    let va = a.map_values(|t: TeamEntry| team_view(t));
    let vb = b.map_values(|t: TeamEntry| team_view(t));
    assert(a.len() == va.len() && vb.len() == b.len());
    if a.len() > 0 {
        assert(va[0] == vb[0]);
        assert(team_view(a[0]) == team_view(b[0]));
        assert(a.drop_first().map_values(|t: TeamEntry| team_view(t)) =~= va.drop_first());
        assert(b.drop_first().map_values(|t: TeamEntry| team_view(t)) =~= vb.drop_first());
        lemma_teams_alike(a.drop_first(), b.drop_first(), query);
    }
}

/// Two lists of placings that a rank query reads alike give the same scan.
proof fn lemma_placings_alike(a: Seq<PlacingEntry>, b: Seq<PlacingEntry>, number: i64, event: Seq<char>)
    requires
        a.map_values(|p: PlacingEntry| placing_view(p)) == b.map_values(|p: PlacingEntry| placing_view(p)),
    ensures
        placings_readable(a, number, event) == placings_readable(b, number, event),
        placing_of(a, number, event) == placing_of(b, number, event),
    decreases a.len(),
{
    let va = a.map_values(|p: PlacingEntry| placing_view(p));
    let vb = b.map_values(|p: PlacingEntry| placing_view(p));
    assert(a.len() == va.len() && vb.len() == b.len());
    if a.len() > 0 {
        assert(va[0] == vb[0]);
        assert(placing_view(a[0]) == placing_view(b[0]));
        assert(a.drop_first().map_values(|p: PlacingEntry| placing_view(p)) =~= va.drop_first());
        assert(b.drop_first().map_values(|p: PlacingEntry| placing_view(p)) =~= vb.drop_first());
        lemma_placings_alike(a.drop_first(), b.drop_first(), number, event);
    }
}

/// A rank query's answer depends only on what the results give: two results with the
/// same teams and placings, field by field, are alike readable and give the same answer.
pub proof fn lemma_rank_depends_on_results(q: Input, a: ResultsDoc, b: ResultsDoc)
    requires
        results_view(Some(a)) == results_view(Some(b)),
    ensures
        results_readable(q, a) == results_readable(q, b),
        rank_of(q, a) == rank_of(q, b),
{
    let ta = a.teams@.map_values(|t: TeamEntry| team_view(t));
    let tb = b.teams@.map_values(|t: TeamEntry| team_view(t));
    assert(ta == tb);
    assert(a.placings@.map_values(|p: PlacingEntry| placing_view(p)) == b.placings@.map_values(
        |p: PlacingEntry| placing_view(p),
    ));
    lemma_teams_alike(a.teams@, b.teams@, q.qschool@);
    if a.teams@.len() > 0 {
        assert(ta[0] == tb[0]);
    }
    if let Some(n) = school_number(a.teams@, q.qschool@) {
        lemma_placings_alike(a.placings@, b.placings@, n, q.qevent@);
    }
}

impl Input {
    /// The number of the first team whose school mentions the queried school, ignoring case.
    pub fn find_school(&self, doc: &ResultsDoc) -> (r: Result<i64, RankError>)
        requires
            first_team_named(*doc),
            teams_readable(doc.teams@, self.qschool@),
        ensures
            r == (match school_number(doc.teams@, self.qschool@) {
                Some(n) => Ok(n),
                None => Err(RankError::SchoolNotFound),
            }),
    {
        match scan_teams(&doc.teams, self.qschool.as_str()) {
            Some(Some(n)) => Ok(n),
            _ => Err(RankError::SchoolNotFound),
        }
    }

    /// The place the queried school took in the queried event.
    pub fn find_rank(&self, doc: &ResultsDoc) -> (r: Result<i64, RankError>)
        requires
            results_readable(*self, *doc),
        ensures
            r == rank_of(*self, *doc),
    {
        let number = match self.find_school(doc) {
            Ok(n) => n,
            Err(e) => {
                return Err(e);
            },
        };
        match scan_placings(&doc.placings, number, self.qevent.as_str()) {
            Some(Some(p)) => Ok(p),
            _ => Err(RankError::PlacingNotFound),
        }
    }

    /// Answers the query when everything it reads of the results is there, and gives
    /// `None` when a field it would read is missing.
    pub fn try_find_rank(&self, doc: &ResultsDoc) -> (r: Option<Result<i64, RankError>>)
        ensures
            r is Some <==> results_readable(*self, *doc),
            r matches Some(x) ==> x == rank_of(*self, *doc),
    {
        if doc.teams.len() == 0 {
            return None;
        }
        if doc.teams[0].school.is_none() {
            return None;
        }
        match scan_teams(&doc.teams, self.qschool.as_str()) {
            None => None,
            Some(None) => Some(Err(RankError::SchoolNotFound)),
            Some(Some(n)) => match scan_placings(&doc.placings, n, self.qevent.as_str()) {
                None => None,
                Some(_) => Some(self.find_rank(doc)),
            },
        }
    }

    /// Answers the query from the text of a results file: `None` when the text is no YAML
    /// document or a field the query reads is missing; otherwise the answer on the teams
    /// and placings the text gives.
    pub fn rank_in_results(&self, text: &str) -> (r: Option<Result<i64, RankError>>)
        ensures
            yaml_results(text@) is None ==> r is None,
            yaml_results(text@) is Some ==> exists|doc: ResultsDoc|
                results_view(Some(doc)) == yaml_results(text@) && r == (if results_readable(*self, doc) {
                    Some(rank_of(*self, doc))
                } else {
                    None
                }),
    {
        match load_results(text) {
            None => None,
            Some(doc) => {
                let r = self.try_find_rank(&doc);
                assert(results_view(Some(doc)) == yaml_results(text@));
                r
            },
        }
    }

    /// Checks a results file against the query: its division is read from the text; a
    /// file whose path names the invitational must give one, and then it answers the query
    /// when the division matches, ignoring ASCII case.
    pub fn check_results_file(&self, path: &str, text: &str) -> (r: FileCheck)
        ensures
            yaml_division(text@) is None ==> r is NotYaml,
            yaml_division(text@) matches Some(d) ==> if contains_seq(path@, self.qinv@) && d is None {
                r is NoDivision
            } else {
                r == FileCheck::Answers(
                    contains_seq(path@, self.qinv@) && eq_ignore_ascii_case_seq(d->0, self.qdiv@),
                )
            },
    {
        match results_division(text) {
            None => FileCheck::NotYaml,
            Some(d) => {
                if contains(path, self.qinv.as_str()) && d.is_none() {
                    FileCheck::NoDivision
                } else {
                    FileCheck::Answers(self.file_matches(path, d))
                }
            },
        }
    }
}

} // verus!

verus! {

/// The arguments of a rank query command after defaults are filled in.
pub struct RankRequest {
    pub year: u32,
    pub invy: String,
    pub school: String,
    pub state: String,
    pub event: String,
    pub division: String,
}

/// An optional argument, with the placeholder -1 when it is missing.
pub open spec fn or_placeholder(o: Option<String>) -> Seq<char> {
    match o {
        Some(s) => s@,
        None => "-1"@,
    }
}

fn trimmed_or_placeholder(o: Option<String>) -> (r: String)
    ensures
        r@ == trim_seq(or_placeholder(o)),
{
    match o {
        Some(s) => trim(s.as_str()),
        None => trim("-1"),
    }
}

/// Fills in the defaults of a rank query: the current year, the placeholder -1 for a
/// missing invitational, school, state or event (each trimmed), and division C.
pub fn resolve_request(
    year: Option<u32>,
    current_year: u32,
    invy: Option<String>,
    school: Option<String>,
    state: Option<String>,
    event: Option<String>,
    division: Option<String>,
) -> (r: RankRequest)
    ensures
        r.year == (match year {
            Some(y) => y,
            None => current_year,
        }),
        r.invy@ == trim_seq(or_placeholder(invy)),
        r.school@ == trim_seq(or_placeholder(school)),
        r.state@ == trim_seq(or_placeholder(state)),
        r.event@ == trim_seq(or_placeholder(event)),
        r.division@ == (match division {
            Some(d) => d@,
            None => "c"@,
        }),
{
    let y = match year {
        Some(y) => y,
        None => current_year,
    };
    let d = match division {
        Some(d) => d,
        None => String::from_str("c"),
    };
    RankRequest {
        year: y,
        invy: trimmed_or_placeholder(invy),
        school: trimmed_or_placeholder(school),
        state: trimmed_or_placeholder(state),
        event: trimmed_or_placeholder(event),
        division: d,
    }
}

/// `word` followed by a space when `flagged`, else nothing.
pub open spec fn flag_word(flagged: bool, word: Seq<char>) -> Seq<char> {
    if flagged {
        word + " "@
    } else {
        Seq::empty()
    }
}

fn push_flag(s: &mut String, flagged: bool, word: &str)
    ensures
        final(s)@ == old(s)@ + flag_word(flagged, word@),
{
    if flagged {
        s.append(word);
        s.append(" ");
        assert(final(s)@ =~= old(s)@ + flag_word(flagged, word@));
    } else {
        assert(final(s)@ =~= old(s)@ + flag_word(flagged, word@));
    }
}

/// The argument names the rank query command reports as missing: it checks, in order,
/// the year, the invitational, the school, the event and the division for the
/// placeholder -1 and names them year, invitational, school, state and event.
pub open spec fn missing_spec(q: RankRequest) -> Seq<char> {
    flag_word(contains_seq(decimal(q.year as nat), "-1"@), "year"@) + flag_word(
        contains_seq(q.invy@, "-1"@),
        "invitational"@,
    ) + flag_word(contains_seq(q.school@, "-1"@), "school"@) + flag_word(
        contains_seq(q.event@, "-1"@),
        "state"@,
    ) + flag_word(contains_seq(q.division@, "-1"@), "event"@)
}

impl RankRequest {
    /// The names of the arguments still holding the placeholder, each followed by a space.
    pub fn missing_arguments(&self) -> (r: String)
        ensures
            r@ == missing_spec(*self),
    {
        let y = u64_to_string(self.year as u64);
        let mut r = String::new();
        push_flag(&mut r, contains(y.as_str(), "-1"), "year");
        push_flag(&mut r, contains(self.invy.as_str(), "-1"), "invitational");
        push_flag(&mut r, contains(self.school.as_str(), "-1"), "school");
        push_flag(&mut r, contains(self.event.as_str(), "-1"), "state");
        push_flag(&mut r, contains(self.division.as_str(), "-1"), "event");
        assert(r@ =~= missing_spec(*self));
        r
    }

    /// The query the request asks, or an error when the year does not fit an `i32`.
    pub fn to_input(&self) -> (r: Result<Input, RankError>)
        requires
            !parses_as_minus_one(self.event@),
        ensures
            r is Err <==> self.year > i32::MAX,
            r matches Err(e) ==> e == RankError::YearOutOfRange,
            r matches Ok(q) ==> {
                &&& q.qyear == self.year
                &&& q.qinv@ == trim_seq(self.invy@)
                &&& q.qschool@ == trim_seq(self.school@)
                &&& q.qstate@ == trim_seq(self.state@)
                &&& q.qevent@ == trim_seq(fixed_event(self.event@))
                &&& q.qdiv@ == self.division@
            },
    {
        if self.year > 2147483647 {
            return Err(RankError::YearOutOfRange);
        }
        let year: i32 = self.year as i32;
        Ok(
            Input::build_input(
                year,
                self.invy.clone(),
                self.school.clone(),
                self.state.clone(),
                self.event.clone(),
                self.division.clone(),
            ),
        )
    }

    /// The reply that reports the place found.
    pub fn placement_message(&self, place: i64) -> (r: String)
        ensures
            r@ == self.school@ + " "@ + self.event@ + "'s placement at "@ + self.invy@ + " "@ + decimal(
                self.year as nat,
            ) + " is: "@ + signed_decimal(place as int) + " :)"@,
    {
        let mut r = self.school.clone();
        r.append(" ");
        r.append(self.event.as_str());
        r.append("'s placement at ");
        r.append(self.invy.as_str());
        r.append(" ");
        let y = u64_to_string(self.year as u64);
        r.append(y.as_str());
        r.append(" is: ");
        let p = i64_to_string(place);
        r.append(p.as_str());
        r.append(" :)");
        assert(r@ =~= self.school@ + " "@ + self.event@ + "'s placement at "@ + self.invy@ + " "@ + decimal(
            self.year as nat,
        ) + " is: "@ + signed_decimal(place as int) + " :)"@);
        r
    }
}


/// A query's event is replaced only for chemistry: a name whose lowercase form mentions
/// "chem" becomes "Chemistry Lab", and every other name is kept exactly as given.
pub proof fn lemma_event_kept_unless_chemistry(name: Seq<char>)
    ensures
        !contains_seq(lower_seq(name), "chem"@) ==> fixed_event(name) == name,
        contains_seq(lower_seq(name), "chem"@) ==> fixed_event(name) == "Chemistry Lab"@,
{
}

} // verus!
