//! Registered Discord servers and their default settings.

use vstd::prelude::*;
use crate::text::{str_eq, trim, trim_seq};
use crate::users::LookupError;

verus! {

/// The settings the bot keeps for one Discord server. `tests_file_id` holds the id of the
/// roster sheet that the server-default commands set and read.
pub struct Server {
    pub server_id: String,
    pub server_name: String,
    pub server_email: String,
    pub tests_file_id: String,
    pub pc_file_id: String,
}

/// The stored list of servers.
pub struct AllData {
    pub servers: Vec<Server>,
}

/// `i` is the first position of a server with the id `id`.
pub open spec fn is_first_server(servers: Seq<Server>, id: Seq<char>, i: int) -> bool {
    &&& 0 <= i < servers.len()
    &&& servers[i].server_id@ == id
    &&& forall|j: int| 0 <= j < i ==> servers[j].server_id@ != id
}

/// Some server has the id `id`.
pub open spec fn has_server(servers: Seq<Server>, id: Seq<char>) -> bool {
    exists|i: int| 0 <= i < servers.len() && servers[i].server_id@ == id
}

/// Looks a server up by id; the first record with that id is returned.
pub fn get_server(data: AllData, server_id: &str) -> (r: Result<Server, LookupError>)
    ensures
        r is Ok <==> has_server(data.servers@, server_id@),
        r matches Ok(s) ==> exists|i: int| is_first_server(data.servers@, server_id@, i) && s == data.servers@[i],
        r matches Err(e) ==> e == LookupError::ServerNotFound,
{
    let ghost orig = data.servers@;
    let mut list = data.servers;
    let mut i: usize = 0;
    while i < list.len()
        invariant
            list@ == orig,
            orig == data.servers@,
            i <= list.len(),
            forall|j: int| 0 <= j < i ==> orig[j].server_id@ != server_id@,
        decreases list.len() - i,
    {
        if str_eq(list[i].server_id.as_str(), server_id) {
            assert(orig[i as int].server_id@ == server_id@);
            let s = list.remove(i);
            assert(s == orig[i as int]);
            assert(is_first_server(orig, server_id@, i as int));
            return Ok(s);
        }
        i = i + 1;
    }
    Err(LookupError::ServerNotFound)
}

/// `after` is `before` with the record at `i` given the trimmed `email`, `roster` and `pc`,
/// its id and name kept.
pub open spec fn entry_updated(
    before: Seq<Server>,
    i: int,
    email: Seq<char>,
    roster: Seq<char>,
    pc: Seq<char>,
    after: Seq<Server>,
) -> bool {
    &&& after.len() == before.len()
    &&& forall|j: int| 0 <= j < before.len() && j != i ==> after[j] == before[j]
    &&& after[i].server_id == before[i].server_id
    &&& after[i].server_name == before[i].server_name
    &&& after[i].server_email@ == trim_seq(email)
    &&& after[i].tests_file_id@ == trim_seq(roster)
    &&& after[i].pc_file_id@ == trim_seq(pc)
}

/// `after` is `before` with the defaults of server `id` set to the trimmed `email`, `roster`
/// and `pc`: the first record with that id keeps its id and name, otherwise a record named
/// `name` is appended.
pub open spec fn defaults_applied(
    before: Seq<Server>,
    id: Seq<char>,
    name: Seq<char>,
    email: Seq<char>,
    roster: Seq<char>,
    pc: Seq<char>,
    after: Seq<Server>,
) -> bool {
    if has_server(before, id) {
        exists|i: int| is_first_server(before, id, i) && entry_updated(before, i, email, roster, pc, after)
    } else {
        &&& after.len() == before.len() + 1
        &&& forall|j: int| 0 <= j < before.len() ==> after[j] == before[j]
        &&& after.last().server_id@ == id
        &&& after.last().server_name@ == name
        &&& after.last().server_email@ == trim_seq(email)
        &&& after.last().tests_file_id@ == trim_seq(roster)
        &&& after.last().pc_file_id@ == trim_seq(pc)
    }
}

/// Sets the defaults of a server, adding the server when it is not yet recorded.
pub fn apply_server_defaults(
    data: &mut AllData,
    server_id: &str,
    server_name: &str,
    server_email: &str,
    roster_file_id: &str,
    pc_file_id: &str,
)
    ensures
        defaults_applied(
            old(data).servers@,
            server_id@,
            server_name@,
            server_email@,
            roster_file_id@,
            pc_file_id@,
            final(data).servers@,
        ),
{
    let email = trim(server_email);
    let roster = trim(roster_file_id);
    let pc = trim(pc_file_id);
    let mut i: usize = 0;
    while i < data.servers.len()
        invariant
            i <= data.servers.len(),
            data.servers@ == old(data).servers@,
            email@ == trim_seq(server_email@),
            roster@ == trim_seq(roster_file_id@),
            pc@ == trim_seq(pc_file_id@),
            forall|j: int| 0 <= j < i ==> data.servers@[j].server_id@ != server_id@,
        decreases data.servers.len() - i,
    {
        if str_eq(data.servers[i].server_id.as_str(), server_id) {
            assert(is_first_server(data.servers@, server_id@, i as int));
            let ghost prior = data.servers@;
            let old_entry = data.servers.remove(i);
            assert(old_entry == prior[i as int]);
            let entry = Server {
                server_id: old_entry.server_id,
                server_name: old_entry.server_name,
                server_email: email,
                tests_file_id: roster,
                pc_file_id: pc,
            };
            let ghost e = entry;
            data.servers.insert(i, entry);
            assert(data.servers@ =~= prior.update(i as int, e));
            assert(forall|j: int| 0 <= j < prior.len() && j != i ==> data.servers@[j] == prior[j]);
            assert(prior[i as int].server_id@ == server_id@);
            assert(has_server(prior, server_id@));
            assert(data.servers@[i as int] == e);
            assert(entry_updated(prior, i as int, server_email@, roster_file_id@, pc_file_id@, data.servers@));
            return;
        }
        i = i + 1;
    }
    let entry = Server {
        server_id: String::from_str(server_id),
        server_name: String::from_str(server_name),
        server_email: email,
        tests_file_id: roster,
        pc_file_id: pc,
    };
    data.servers.push(entry);
}

/// After a server's defaults are set, looking the server up gives the new trimmed defaults.
pub proof fn lemma_lookup_after_set_defaults(
    before: Seq<Server>,
    id: Seq<char>,
    name: Seq<char>,
    email: Seq<char>,
    roster: Seq<char>,
    pc: Seq<char>,
    after: Seq<Server>,
)
    requires
        defaults_applied(before, id, name, email, roster, pc, after),
    ensures
        has_server(after, id),
        exists|i: int|
            is_first_server(after, id, i) && after[i].server_email@ == trim_seq(email)
                && after[i].tests_file_id@ == trim_seq(roster) && after[i].pc_file_id@ == trim_seq(pc),
{
    if has_server(before, id) {
        let i = choose|i: int| is_first_server(before, id, i) && entry_updated(before, i, email, roster, pc, after);
        assert forall|j: int| 0 <= j < i implies after[j].server_id@ != id by {
            assert(after[j] == before[j]);
        }
        assert(is_first_server(after, id, i));
    } else {
        let i = before.len() as int;
        assert forall|j: int| 0 <= j < i implies after[j].server_id@ != id by {
            assert(after[j] == before[j]);
        }
        assert(is_first_server(after, id, i));
    }
}

} // verus!

verus! {

/// The address of a Google sheet.
pub open spec fn sheet_url(id: Seq<char>) -> Seq<char> {
    "https://docs.google.com/spreadsheets/d/"@ + id + "/edit"@
}

fn push_sheet_url(s: &mut String, id: &str)
    ensures
        final(s)@ == old(s)@ + sheet_url(id@),
{
    s.append("https://docs.google.com/spreadsheets/d/");
    s.append(id);
    s.append("/edit");
    assert(final(s)@ =~= old(s)@ + sheet_url(id@));
}

/// The reply to setting a server's defaults; it shows the values as they were given.
pub fn defaults_set_message(email: &str, roster_file_id: &str, pc_file_id: &str) -> (r: String)
    ensures
        r@ == "Your server defaults have been set to: email: "@ + email@ + ", \nroster: "@ + sheet_url(
            roster_file_id@,
        ) + ", \nprogress checks: "@ + sheet_url(pc_file_id@),
{
    let mut r = String::from_str("Your server defaults have been set to: email: ");
    r.append(email);
    r.append(", \nroster: ");
    push_sheet_url(&mut r, roster_file_id);
    r.append(", \nprogress checks: ");
    push_sheet_url(&mut r, pc_file_id);
    assert(r@ =~= "Your server defaults have been set to: email: "@ + email@ + ", \nroster: "@ + sheet_url(
        roster_file_id@,
    ) + ", \nprogress checks: "@ + sheet_url(pc_file_id@));
    r
}

/// The reply that shows a server's stored defaults, trimmed.
pub fn server_defaults_message(server: &Server) -> (r: String)
    ensures
        r@ == "Your server defaults are: email: "@ + trim_seq(server.server_email@) + ", \nroster: "@
            + sheet_url(trim_seq(server.tests_file_id@)) + ", \nprogress checks: "@ + sheet_url(
            trim_seq(server.pc_file_id@),
        ) + ". \nTo make changes, run `/ssd`."@,
{
    let email = trim(server.server_email.as_str());
    let roster = trim(server.tests_file_id.as_str());
    let pc = trim(server.pc_file_id.as_str());
    let mut r = String::from_str("Your server defaults are: email: ");
    r.append(email.as_str());
    r.append(", \nroster: ");
    push_sheet_url(&mut r, roster.as_str());
    r.append(", \nprogress checks: ");
    push_sheet_url(&mut r, pc.as_str());
    r.append(". \nTo make changes, run `/ssd`.");
    assert(r@ =~= "Your server defaults are: email: "@ + trim_seq(server.server_email@) + ", \nroster: "@
        + sheet_url(trim_seq(server.tests_file_id@)) + ", \nprogress checks: "@ + sheet_url(
        trim_seq(server.pc_file_id@),
    ) + ". \nTo make changes, run `/ssd`."@);
    r
}

} // verus!
