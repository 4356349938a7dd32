//! Registered members: lookup, partners, officers and registration.

use vstd::prelude::*;
use crate::text::{
    char_string, contains, contains_seq, decimal, eq_ignore_ascii_case, eq_ignore_ascii_case_seq, str_eq, u64_to_string,
};

verus! {

/// A member of the club as the bot records them.
pub struct SciolyUser {
    pub userid: String,
    pub default_email: String,
    pub team: char,
    pub events: Vec<String>,
    pub officer: bool,
}

/// The stored list of members.
pub struct Thing {
    pub users: Vec<SciolyUser>,
}

/// A record that a lookup did not find.
pub enum LookupError {
    UserNotFound,
    ServerNotFound,
}

impl LookupError {
    /// The text the commands report for the error.
    pub fn message(&self) -> (r: String)
        ensures
            r@ == (match self {
                LookupError::UserNotFound => "User not found"@,
                LookupError::ServerNotFound => "Server not found"@,
            }),
    {
        match self {
            LookupError::UserNotFound => String::from_str("User not found"),
            LookupError::ServerNotFound => String::from_str("Server not found"),
        }
    }
}

/// The characters of each string in a list.
pub open spec fn texts(v: Seq<String>) -> Seq<Seq<char>> {
    v.map_values(|s: String| s@)
}

impl Default for SciolyUser {
    fn default() -> (r: Self)
        ensures
            r.userid@ == Seq::<char>::empty(),
            r.default_email@ == Seq::<char>::empty(),
            r.team == 'z',
            r.events@.len() == 0,
            !r.officer,
    {
        SciolyUser {
            userid: String::new(),
            default_email: String::new(),
            team: 'z',
            events: Vec::new(),
            officer: false,
        }
    }
}

/// Some member has the id `id`.
pub open spec fn has_id(users: Seq<SciolyUser>, id: Seq<char>) -> bool {
    exists|i: int| 0 <= i < users.len() && users[i].userid@ == id
}

/// `i` is the first position of a member with the id `id`.
pub open spec fn is_first_with_id(users: Seq<SciolyUser>, id: Seq<char>, i: int) -> bool {
    &&& 0 <= i < users.len()
    &&& users[i].userid@ == id
    &&& forall|j: int| 0 <= j < i ==> users[j].userid@ != id
}

/// Looks a member up by id; the first record with that id is returned.
pub fn find_user(users: Vec<SciolyUser>, userid: &str) -> (r: Result<SciolyUser, LookupError>)
    ensures
        r is Ok <==> has_id(users@, userid@),
        r matches Ok(u) ==> exists|i: int| is_first_with_id(users@, userid@, i) && u == users@[i],
        r matches Err(e) ==> e == LookupError::UserNotFound,
{
    let mut list = users;
    let ghost orig = list@;
    let mut i: usize = 0;
    while i < list.len()
        invariant
            list@ == orig,
            orig == users@,
            i <= list.len(),
            forall|j: int| 0 <= j < i ==> orig[j].userid@ != userid@,
        decreases list.len() - i,
    {
        if str_eq(list[i].userid.as_str(), userid) {
            assert(orig[i as int].userid@ == userid@);
            let u = list.remove(i);
            assert(u == orig[i as int]);
            assert(is_first_with_id(orig, userid@, i as int));
            return Ok(u);
        }
        i = i + 1;
    }
    Err(LookupError::UserNotFound)
}

/// `u` is a partner of member `id` in `event` on team `team`.
pub open spec fn is_partner(u: SciolyUser, event: Seq<char>, id: Seq<char>, team: char) -> bool {
    &&& u.team == team
    &&& texts(u.events@).contains(event)
    &&& u.userid@ != id
}

/// The partner test as a predicate.
pub open spec fn partner_pred(event: Seq<char>, id: Seq<char>, team: char) -> spec_fn(SciolyUser) -> bool {
    |u: SciolyUser| is_partner(u, event, id, team)
}

/// Whether a list of names holds `name`.
pub fn list_contains(list: &Vec<String>, name: &String) -> (b: bool)
    ensures
        b == texts(list@).contains(name@),
{
    let mut i: usize = 0;
    while i < list.len()
        invariant
            i <= list.len(),
            forall|j: int| 0 <= j < i ==> list@[j]@ != name@,
        decreases list.len() - i,
    {
        if list[i] == *name {
            assert(texts(list@)[i as int] == name@);
            return true;
        }
        i = i + 1;
    }
    assert forall|j: int| 0 <= j < texts(list@).len() implies texts(list@)[j] != name@ by {}
    false
}

/// The members other than `userid` on team `team` who compete in `event`, in stored order.
pub fn get_event_partners(users: Vec<SciolyUser>, event: &String, userid: &str, team: char) -> (r:
    Vec<SciolyUser>)
    ensures
        r@ == users@.filter(partner_pred(event@, userid@, team)),
{
    let ghost orig = users@;
    let ghost pred = partner_pred(event@, userid@, team);
    let mut users = users;
    let mut partners: Vec<SciolyUser> = Vec::new();
    let mut k: usize = 0;
    assert(orig.len() == users.len());
    assert(orig.take(0).filter(pred) =~= Seq::<SciolyUser>::empty()) by {
        reveal(Seq::filter);
    }
    while users.len() > 0
        invariant
            k <= orig.len(),
            users@ == orig.skip(k as int),
            users.len() == orig.len() - k,
            orig.len() <= usize::MAX,
            pred == partner_pred(event@, userid@, team),
            partners@ == orig.take(k as int).filter(pred),
        decreases users.len(),
    {
        let u = users.remove(0);
        assert(u == orig[k as int]);
        let is_p = u.team == team && list_contains(&u.events, event) && !str_eq(u.userid.as_str(), userid);
        assert(pred(u) == is_partner(u, event@, userid@, team));
        assert(is_p == pred(u));
        assert(orig.take(k + 1).drop_last() =~= orig.take(k as int));
        assert(orig.take(k + 1).filter(pred) == (if pred(u) {
            orig.take(k as int).filter(pred).push(u)
        } else {
            orig.take(k as int).filter(pred)
        })) by {
            reveal(Seq::filter);
        }
        if is_p {
            partners.push(u);
        }
        k = k + 1;
        assert(users@ =~= orig.skip(k as int));
    }
    assert(orig.take(k as int) =~= orig);
    partners
}

/// The officer test as a predicate.
pub open spec fn officer_pred() -> spec_fn(SciolyUser) -> bool {
    |u: SciolyUser| u.officer
}

/// The default emails of the officers, in stored order.
pub fn get_officers_emails(users: Vec<SciolyUser>) -> (r: Vec<String>)
    ensures
        r@ == users@.filter(officer_pred()).map_values(|u: SciolyUser| u.default_email),
{
    let ghost orig = users@;
    let ghost pred = officer_pred();
    let mut users = users;
    let mut emails: Vec<String> = Vec::new();
    let mut k: usize = 0;
    assert(orig.len() == users.len());
    assert(orig.take(0).filter(pred) =~= Seq::<SciolyUser>::empty()) by {
        reveal(Seq::filter);
    }
    while users.len() > 0
        invariant
            k <= orig.len(),
            users@ == orig.skip(k as int),
            users.len() == orig.len() - k,
            orig.len() <= usize::MAX,
            pred == officer_pred(),
            emails@ == orig.take(k as int).filter(pred).map_values(|u: SciolyUser| u.default_email),
        decreases users.len(),
    {
        let u = users.remove(0);
        assert(u == orig[k as int]);
        assert(orig.take(k + 1).drop_last() =~= orig.take(k as int));
        assert(orig.take(k + 1).filter(pred) == (if pred(u) {
            orig.take(k as int).filter(pred).push(u)
        } else {
            orig.take(k as int).filter(pred)
        })) by {
            reveal(Seq::filter);
        }
        let ghost before = emails@;
        if u.officer {
            emails.push(u.default_email);
            assert(emails@ =~= orig.take(k + 1).filter(pred).map_values(|u: SciolyUser| u.default_email));
        }
        k = k + 1;
        assert(users@ =~= orig.skip(k as int));
    }
    assert(orig.take(k as int) =~= orig);
    emails
}

} // verus!

verus! {

/// `ids` pairs each event in `events`, in order, with the button id made of the
/// decimal command id followed by the event name.
pub open spec fn is_event_button_list(ids: Seq<(String, String)>, events: Seq<String>, ctx_id: u64) -> bool {
    &&& ids.len() == events.len()
    &&& forall|i: int|
        0 <= i < ids.len() ==> (#[trigger] ids[i]).0@ == events[i]@ && ids[i].1@ == decimal(
            ctx_id as nat,
        ) + events[i]@
}

/// Pairs each event with the id of its button for the command invocation `ctx_id`.
pub fn event_button_ids(events: Vec<String>, ctx_id: u64) -> (r: Vec<(String, String)>)
    ensures
        is_event_button_list(r@, events@, ctx_id),
{
    let prefix = u64_to_string(ctx_id);
    let ghost orig = events@;
    let mut events = events;
    let mut out: Vec<(String, String)> = Vec::new();
    let mut k: usize = 0;
    assert(orig.len() == events.len());
    while events.len() > 0
        invariant
            k <= orig.len(),
            orig.len() <= usize::MAX,
            events@ == orig.skip(k as int),
            events.len() == orig.len() - k,
            prefix@ == decimal(ctx_id as nat),
            is_event_button_list(out@, orig.take(k as int), ctx_id),
        decreases events.len(),
    {
        let e = events.remove(0);
        assert(e == orig[k as int]);
        let mut id = prefix.clone();
        id.append(e.as_str());
        let ghost before = out@;
        out.push((e, id));
        k = k + 1;
        assert(events@ =~= orig.skip(k as int));
        assert forall|i: int| 0 <= i < out@.len() implies (#[trigger] out@[i]).0@ == orig.take(
            k as int,
        )[i]@ && out@[i].1@ == decimal(ctx_id as nat) + orig.take(k as int)[i]@ by {
            if i < before.len() {
                assert(out@[i] == before[i]);
            }
        }
    }
    assert(orig.take(k as int) =~= orig);
    out
}

/// The event buttons of the member `author_id` for the command invocation `ctx_id`.
pub fn get_event_id_list(users: Vec<SciolyUser>, author_id: &str, ctx_id: u64) -> (r: Vec<
    (String, String),
>)
    requires
        has_id(users@, author_id@),
    ensures
        exists|i: int|
            is_first_with_id(users@, author_id@, i) && is_event_button_list(
                r@,
                users@[i].events@,
                ctx_id,
            ),
{
    match find_user(users, author_id) {
        Ok(user) => event_button_ids(user.events, ctx_id),
        Err(_) => Vec::new(),
    }
}

/// `after` is `before` with `user` recorded under `id`: the first record with that id
/// replaced, or `user` appended when there is none.
pub open spec fn registered(before: Seq<SciolyUser>, id: Seq<char>, user: SciolyUser, after: Seq<SciolyUser>) -> bool {
    if has_id(before, id) {
        exists|i: int| is_first_with_id(before, id, i) && after == before.update(i, user)
    } else {
        after == before.push(user)
    }
}

/// Records `user` under `userid`, replacing that member's first record or appending.
pub fn register_user(users: &mut Vec<SciolyUser>, userid: &str, user: SciolyUser)
    ensures
        registered(old(users)@, userid@, user, final(users)@),
{
    let mut i: usize = 0;
    while i < users.len()
        invariant
            i <= users.len(),
            users@ == old(users)@,
            forall|j: int| 0 <= j < i ==> users@[j].userid@ != userid@,
        decreases users.len() - i,
    {
        if str_eq(users[i].userid.as_str(), userid) {
            assert(is_first_with_id(users@, userid@, i as int));
            users.set(i, user);
            return;
        }
        i = i + 1;
    }
    users.push(user);
}

/// Looking a member up right after registering them under their own id gives back the
/// record that was registered.
pub proof fn lemma_lookup_after_register(before: Seq<SciolyUser>, user: SciolyUser, after: Seq<SciolyUser>)
    requires
        registered(before, user.userid@, user, after),
    ensures
        has_id(after, user.userid@),
        exists|i: int| is_first_with_id(after, user.userid@, i) && after[i] == user,
{
    let id = user.userid@;
    if has_id(before, id) {
        let i = choose|i: int| is_first_with_id(before, id, i) && after == before.update(i, user);
        assert(is_first_with_id(after, id, i));
    } else {
        let i = before.len() as int;
        assert(after[i] == user);
        assert(is_first_with_id(after, id, i));
    }
}

/// Registering a member leaves every record with another id where it was, and changes
/// no lookup of another id.
pub proof fn lemma_register_keeps_others(
    before: Seq<SciolyUser>,
    id: Seq<char>,
    user: SciolyUser,
    after: Seq<SciolyUser>,
    other: Seq<char>,
)
    requires
        registered(before, id, user, after),
        user.userid@ == id,
        other != id,
    ensures
        forall|j: int| 0 <= j < before.len() && before[j].userid@ != id ==> after[j] == before[j],
        has_id(after, other) == has_id(before, other),
        forall|i: int| is_first_with_id(after, other, i) <==> is_first_with_id(before, other, i),
{
    if has_id(before, id) {
        let k = choose|k: int| is_first_with_id(before, id, k) && after == before.update(k, user);
        assert(after.len() == before.len());
        if has_id(before, other) {
            let w = choose|w: int| 0 <= w < before.len() && before[w].userid@ == other;
            assert(after[w] == before[w]);
        }
        if has_id(after, other) {
            let w = choose|w: int| 0 <= w < after.len() && after[w].userid@ == other;
            assert(after[w] == before[w]);
        }
        assert forall|i: int| is_first_with_id(after, other, i) <==> is_first_with_id(before, other, i) by {
            if is_first_with_id(after, other, i) {
                assert(after[i] == before[i]);
                assert forall|j: int| 0 <= j < i implies before[j].userid@ != other by {
                    assert(after[j].userid@ != other);
                    if j != k {
                        assert(after[j] == before[j]);
                    }
                }
            }
            if is_first_with_id(before, other, i) {
                assert(i != k);
                assert forall|j: int| 0 <= j < i implies after[j].userid@ != other by {
                    if j != k {
                        assert(after[j] == before[j]);
                    }
                }
            }
        }
    } else {
        if has_id(before, other) {
            let w = choose|w: int| 0 <= w < before.len() && before[w].userid@ == other;
            assert(after[w] == before[w]);
        }
        if has_id(after, other) {
            let w = choose|w: int| 0 <= w < after.len() && after[w].userid@ == other;
            if w < before.len() {
                assert(after[w] == before[w]);
            }
        }
        assert forall|i: int| is_first_with_id(after, other, i) <==> is_first_with_id(before, other, i) by {
            if is_first_with_id(after, other, i) {
                assert(i < before.len());
                assert forall|j: int| 0 <= j < i implies before[j].userid@ != other by {
                    assert(after[j] == before[j]);
                }
            }
            if is_first_with_id(before, other, i) {
                assert forall|j: int| 0 <= j < i implies after[j].userid@ != other by {
                    assert(after[j] == before[j]);
                }
            }
        }
    }
}

/// The team as the registration reply shows it: the alternates' marker `d` reads
/// "Alternates", any other team its letter.
pub fn team_label(team: char) -> (r: String)
    ensures
        r@ == (if team == 'd' {
            "Alternates"@
        } else {
            seq![team]
        }),
{
    if team == 'd' {
        String::from_str("Alternates")
    } else {
        char_string(team)
    }
}

/// The emails a test document is shared with: each partner's default email, in order,
/// then that of the member `author_id`.
pub fn test_emails(partners: &Vec<SciolyUser>, users: &Vec<SciolyUser>, author_id: &str) -> (r: Vec<String>)
    requires
        has_id(users@, author_id@),
    ensures
        r@.len() == partners@.len() + 1,
        forall|i: int| 0 <= i < partners@.len() ==> (#[trigger] r@[i])@ == partners@[i].default_email@,
        exists|k: int|
            is_first_with_id(users@, author_id@, k) && r@[partners@.len() as int]@ == users@[k].default_email@,
{
    let mut emails: Vec<String> = Vec::new();
    let mut i: usize = 0;
    while i < partners.len()
        invariant
            i <= partners.len(),
            emails@.len() == i,
            forall|j: int| 0 <= j < i ==> (#[trigger] emails@[j])@ == partners@[j].default_email@,
        decreases partners.len() - i,
    {
        emails.push(partners[i].default_email.clone());
        i = i + 1;
    }
    let mut k: usize = 0;
    while k < users.len()
        invariant
            k <= users.len(),
            has_id(users@, author_id@),
            emails@.len() == partners@.len(),
            forall|j: int| 0 <= j < partners@.len() ==> (#[trigger] emails@[j])@ == partners@[j].default_email@,
            forall|j: int| 0 <= j < k ==> users@[j].userid@ != author_id@,
        decreases users.len() - k,
    {
        if str_eq(users[k].userid.as_str(), author_id) {
            assert(is_first_with_id(users@, author_id@, k as int));
            emails.push(users[k].default_email.clone());
            return emails;
        }
        k = k + 1;
    }
    emails
}

} // verus!

verus! {

/// Every partner found is on the member's team, competes in the event and is someone
/// else; every such member is found.
pub proof fn lemma_partners_exact(users: Seq<SciolyUser>, event: Seq<char>, id: Seq<char>, team: char)
    ensures
        forall|i: int|
            0 <= i < users.filter(partner_pred(event, id, team)).len() ==> {
                let p = #[trigger] users.filter(partner_pred(event, id, team))[i];
                &&& p.team == team
                &&& texts(p.events@).contains(event)
                &&& p.userid@ != id
                &&& users.contains(p)
            },
        forall|i: int|
            0 <= i < users.len() && is_partner(users[i], event, id, team) ==> users.filter(
                partner_pred(event, id, team),
            ).contains(#[trigger] users[i]),
{
    broadcast use vstd::seq_lib::group_filter_ensures;

    let pred = partner_pred(event, id, team);
    assert forall|i: int| 0 <= i < users.filter(pred).len() implies users.contains(
        #[trigger] users.filter(pred)[i],
    ) by {
        let p = users.filter(pred)[i];
        assert(users.filter(pred).contains(p));
        users.lemma_filter_contains_rev(pred, p);
    }
    assert forall|i: int| 0 <= i < users.len() && is_partner(users[i], event, id, team) implies users.filter(
        pred,
    ).contains(#[trigger] users[i]) by {
        assert(pred(users[i]));
    }
}

/// A member with a role whose name contains "officer" is an officer.
pub fn has_officer_role(role_names: &Vec<String>) -> (b: bool)
    ensures
        b == exists|k: int| 0 <= k < role_names.len() && contains_seq(role_names@[k]@, "officer"@),
{
    let mut k: usize = 0;
    while k < role_names.len()
        invariant
            k <= role_names.len(),
            forall|j: int| 0 <= j < k ==> !contains_seq(#[trigger] role_names@[j]@, "officer"@),
        decreases role_names.len() - k,
    {
        if contains(role_names[k].as_str(), "officer") {
            return true;
        }
        k = k + 1;
    }
    false
}

/// The first of the server's roles whose name is the event's, ignoring ASCII case; `None`
/// when the server has no such role and one is to be made.
pub fn role_for_event(role_names: &Vec<String>, event: &str) -> (r: Option<usize>)
    ensures
        r matches Some(k) ==> k < role_names.len() && eq_ignore_ascii_case_seq(role_names@[k as int]@, event@)
            && forall|j: int| 0 <= j < k ==> !eq_ignore_ascii_case_seq(#[trigger] role_names@[j]@, event@),
        r is None ==> forall|j: int|
            0 <= j < role_names.len() ==> !eq_ignore_ascii_case_seq(#[trigger] role_names@[j]@, event@),
{
    let mut k: usize = 0;
    while k < role_names.len()
        invariant
            k <= role_names.len(),
            forall|j: int| 0 <= j < k ==> !eq_ignore_ascii_case_seq(#[trigger] role_names@[j]@, event@),
        decreases role_names.len() - k,
    {
        if eq_ignore_ascii_case(role_names[k].as_str(), event) {
            return Some(k);
        }
        k = k + 1;
    }
    None
}


/// Every other member of the team who lists the event, however many events they list, is
/// among the partners found.
pub proof fn lemma_partners_complete(
    users: Seq<SciolyUser>,
    event: Seq<char>,
    id: Seq<char>,
    team: char,
    i: int,
    k: int,
)
    requires
        0 <= i < users.len(),
        users[i].team == team,
        0 <= k < users[i].events@.len(),
        users[i].events@[k]@ == event,
        users[i].userid@ != id,
    ensures
        users.filter(partner_pred(event, id, team)).contains(users[i]),
{
    broadcast use vstd::seq_lib::group_filter_ensures;

    assert(texts(users[i].events@)[k] == event);
    assert(partner_pred(event, id, team)(users[i]));
}

} // verus!
