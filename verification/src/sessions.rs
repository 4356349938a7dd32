//! The interactive test and progress-check sessions: button ids, how a pressed button is
//! read, and the texts that name the partners.

use vstd::prelude::*;
use crate::sharing::Perms;
use crate::text::{decimal, push_decimal, str_eq, u64_to_string};

verus! {

/// The id of a session button: the decimal command id followed by a suffix.
pub fn button_id(ctx_id: u64, suffix: &str) -> (r: String)
    ensures
        r@ == decimal(ctx_id as nat) + suffix@,
{
    let mut r = u64_to_string(ctx_id);
    r.append(suffix);
    r
}

/// What a pressed button asks of a session.
pub enum Press {
    Abort,
    StartTest,
    Finish,
    Select(usize),
    Other,
}

/// `k` is the first event button with the id `id`.
pub open spec fn is_first_button(buttons: Seq<(String, String)>, id: Seq<char>, k: int) -> bool {
    &&& 0 <= k < buttons.len()
    &&& buttons[k].1@ == id
    &&& forall|j: int| 0 <= j < k ==> buttons[j].1@ != id
}

/// How a session reads a pressed button: abort first, then the chosen event's start
/// button, then the finish button, then the first event button with that id.
pub open spec fn press_of(
    id: Seq<char>,
    abort_id: Seq<char>,
    chosen_id: Option<Seq<char>>,
    finish_id: Option<Seq<char>>,
    buttons: Seq<(String, String)>,
    r: Press,
) -> bool {
    if id == abort_id {
        r == Press::Abort
    } else if chosen_id == Some(id) {
        r == Press::StartTest
    } else if finish_id == Some(id) {
        r == Press::Finish
    } else if exists|k: int| 0 <= k < buttons.len() && buttons[k].1@ == id {
        r matches Press::Select(k) && is_first_button(buttons, id, k as int)
    } else {
        r == Press::Other
    }
}

fn opt_eq(id: &str, other: &Option<String>) -> (b: bool)
    ensures
        b == (match other {
            Some(o) => Some(o@),
            None => None,
        } == Some(id@)),
{
    match other {
        Some(o) => str_eq(o.as_str(), id),
        None => false,
    }
}

/// The view of an optional id.
pub open spec fn opt_view(o: Option<String>) -> Option<Seq<char>> {
    match o {
        Some(s) => Some(s@),
        None => None,
    }
}

/// Reads a pressed button.
pub fn classify_press(
    custom_id: &str,
    abort_id: &str,
    chosen_id: &Option<String>,
    finish_id: &Option<String>,
    buttons: &Vec<(String, String)>,
) -> (r: Press)
    ensures
        press_of(custom_id@, abort_id@, opt_view(*chosen_id), opt_view(*finish_id), buttons@, r),
{
    if str_eq(custom_id, abort_id) {
        return Press::Abort;
    }
    if opt_eq(custom_id, chosen_id) {
        return Press::StartTest;
    }
    if opt_eq(custom_id, finish_id) {
        return Press::Finish;
    }
    let mut k: usize = 0;
    while k < buttons.len()
        invariant
            k <= buttons.len(),
            custom_id@ != abort_id@,
            opt_view(*chosen_id) != Some(custom_id@),
            opt_view(*finish_id) != Some(custom_id@),
            forall|j: int| 0 <= j < k ==> buttons@[j].1@ != custom_id@,
        decreases buttons.len() - k,
    {
        if str_eq(buttons[k].1.as_str(), custom_id) {
            assert(buttons@[k as int].1@ == custom_id@);
            assert(is_first_button(buttons@, custom_id@, k as int));
            return Press::Select(k);
        }
        k = k + 1;
    }
    Press::Other
}

/// Why a partner text could not be written.
pub enum PartnerError {
    WrongPartnerCount,
}

impl PartnerError {
    /// The text the commands report for the error.
    pub fn message(&self) -> (r: String)
        ensures
            r@ == "You seem to have an incorrect amount of partners. Please contact an officer to fix this."@,
    {
        String::from_str("You seem to have an incorrect amount of partners. Please contact an officer to fix this.")
    }
}

/// A mention of a member.
pub open spec fn mention(id: Seq<char>) -> Seq<char> {
    "<@"@ + id + ">"@
}

fn push_mention(s: &mut String, id: &str)
    ensures
        final(s)@ == old(s)@ + mention(id@),
{
    s.append("<@");
    s.append(id);
    s.append(">");
    assert(final(s)@ =~= old(s)@ + mention(id@));
}

fn push_author_mention(s: &mut String, author: u64)
    ensures
        final(s)@ == old(s)@ + mention(decimal(author as nat)),
{
    s.append("<@");
    push_decimal(s, author);
    s.append(">");
    assert(final(s)@ =~= old(s)@ + mention(decimal(author as nat)));
}

/// The text that asks the partners to start a test: one or two partners.
pub open spec fn start_prompt_spec(partners: Seq<String>, author: u64) -> Seq<char> {
    if partners.len() == 1 {
        "When you and your partner "@ + mention(partners[0]@) + " is ready, please start the test "@
            + mention(decimal(author as nat)) + "!"@
    } else {
        "When you and your partners "@ + mention(partners[0]@) + " and "@ + mention(partners[1]@)
            + " are ready, please start the test "@ + mention(decimal(author as nat)) + "!"@
    }
}

/// Asks the member and their partners to start a test; a test is taken with one or two
/// partners.
pub fn start_prompt(partner_ids: &Vec<String>, author: u64) -> (r: Result<String, PartnerError>)
    ensures
        r is Ok <==> (partner_ids@.len() == 1 || partner_ids@.len() == 2),
        r matches Ok(t) ==> t@ == start_prompt_spec(partner_ids@, author),
{
    if partner_ids.len() == 1 {
        let mut r = String::from_str("When you and your partner ");
        push_mention(&mut r, partner_ids[0].as_str());
        r.append(" is ready, please start the test ");
        push_author_mention(&mut r, author);
        r.append("!");
        assert(r@ =~= start_prompt_spec(partner_ids@, author));
        Ok(r)
    } else if partner_ids.len() == 2 {
        let mut r = String::from_str("When you and your partners ");
        push_mention(&mut r, partner_ids[0].as_str());
        r.append(" and ");
        push_mention(&mut r, partner_ids[1].as_str());
        r.append(" are ready, please start the test ");
        push_author_mention(&mut r, author);
        r.append("!");
        assert(r@ =~= start_prompt_spec(partner_ids@, author));
        Ok(r)
    } else {
        Err(PartnerError::WrongPartnerCount)
    }
}

/// The warning five minutes before a test is submitted: one or two partners.
pub open spec fn deadline_spec(partners: Seq<String>, author: u64) -> Seq<char> {
    let tail = ", you have 5 minutes left to submit the test. If you do not, it will be automatically submitted."@;
    if partners.len() == 1 {
        mention(partners[0]@) + " and "@ + mention(decimal(author as nat)) + tail
    } else {
        mention(partners[0]@) + ", "@ + mention(partners[1]@) + ", and "@ + mention(decimal(author as nat))
            + tail
    }
}

/// Warns the member and their partners that the test will be submitted in five minutes.
pub fn deadline_warning(partner_ids: &Vec<String>, author: u64) -> (r: Result<String, PartnerError>)
    ensures
        r is Ok <==> (partner_ids@.len() == 1 || partner_ids@.len() == 2),
        r matches Ok(t) ==> t@ == deadline_spec(partner_ids@, author),
{
    if partner_ids.len() == 1 {
        let mut r = String::new();
        push_mention(&mut r, partner_ids[0].as_str());
        r.append(" and ");
        push_author_mention(&mut r, author);
        r.append(", you have 5 minutes left to submit the test. If you do not, it will be automatically submitted.");
        assert(r@ =~= deadline_spec(partner_ids@, author));
        Ok(r)
    } else if partner_ids.len() == 2 {
        let mut r = String::new();
        push_mention(&mut r, partner_ids[0].as_str());
        r.append(", ");
        push_mention(&mut r, partner_ids[1].as_str());
        r.append(", and ");
        push_author_mention(&mut r, author);
        r.append(", you have 5 minutes left to submit the test. If you do not, it will be automatically submitted.");
        assert(r@ =~= deadline_spec(partner_ids@, author));
        Ok(r)
    } else {
        Err(PartnerError::WrongPartnerCount)
    }
}

} // verus!

verus! {

/// The seconds a test runs before it is submitted.
pub const EVENT_TIME: u64 = 3000;

/// The seconds before the end of a test at which the takers are warned.
pub const WARNING_LEAD: u64 = 300;

/// What happens to a running test: a button is pressed, or the wait runs out.
pub enum RunEvent {
    Press(String),
    Timeout,
}

/// What a running test does next: submit (changing the takers' access to the answer
/// document, when `access` names one), wait the given seconds for the next event, or
/// send a warning and then wait.
pub enum RunAction {
    Submit { access: Option<Perms> },
    Wait(u64),
    Warn { text: String, wait: u64 },
}

/// The state of a test session: its buttons, the event chosen so far (empty until one
/// is chosen), and, once the test runs, whether the takers have been warned.
pub struct TestSession {
    pub abort_id: String,
    pub finish_id: String,
    pub buttons: Vec<(String, String)>,
    pub event: String,
    pub event_id: String,
    pub warned: bool,
}

impl TestSession {
    /// A session for the command invocation `ctx_id` offering `buttons`, no event chosen.
    pub fn new(ctx_id: u64, buttons: Vec<(String, String)>) -> (r: Self)
        ensures
            r.abort_id@ == decimal(ctx_id as nat) + "abort"@,
            r.finish_id@ == decimal(ctx_id as nat) + "finish"@,
            r.buttons == buttons,
            r.event@ == Seq::<char>::empty(),
            r.event_id@ == Seq::<char>::empty(),
            !r.warned,
    {
        TestSession {
            abort_id: button_id(ctx_id, "abort"),
            finish_id: button_id(ctx_id, "finish"),
            buttons,
            event: String::new(),
            event_id: String::new(),
            warned: false,
        }
    }

    /// Reads a pressed button and, when it picks an event, makes that event the chosen one;
    /// nothing else changes.
    pub fn on_press(&mut self, custom_id: &str) -> (r: Press)
        ensures
            press_of(
                custom_id@,
                old(self).abort_id@,
                Some(old(self).event_id@),
                Some(old(self).finish_id@),
                old(self).buttons@,
                r,
            ),
            final(self).abort_id == old(self).abort_id,
            final(self).finish_id == old(self).finish_id,
            final(self).buttons == old(self).buttons,
            final(self).warned == old(self).warned,
            r matches Press::Select(k) ==> final(self).event@ == old(self).buttons@[k as int].0@
                && final(self).event_id@ == old(self).buttons@[k as int].1@,
            !(r is Select) ==> final(self).event == old(self).event && final(self).event_id == old(self).event_id,
    {
        let chosen = Some(self.event_id.clone());
        let finish = Some(self.finish_id.clone());
        let r = classify_press(custom_id, self.abort_id.as_str(), &chosen, &finish, &self.buttons);
        if let Press::Select(k) = r {
            self.event = self.buttons[k].0.clone();
            self.event_id = self.buttons[k].1.clone();
        }
        r
    }

    /// Decides the next step of a running test. The finish button submits and leaves
    /// the takers' access as it is. Any other button restarts the wait for the warning,
    /// `EVENT_TIME - WARNING_LEAD` seconds. When that wait runs out, the takers (one or two
    /// partners and the author) are warned and the test waits `WARNING_LEAD` seconds more;
    /// when that runs out too, the test is submitted and the takers are left with view
    /// access. A warning for a wrong number of partners is an error, and nothing changes.
    pub fn on_running_event(&mut self, ev: RunEvent, partner_ids: &Vec<String>, author: u64) -> (r: Result<
        RunAction,
        PartnerError,
    >)
        ensures
            final(self).abort_id == old(self).abort_id,
            final(self).finish_id == old(self).finish_id,
            final(self).buttons == old(self).buttons,
            final(self).event == old(self).event,
            final(self).event_id == old(self).event_id,
            ev matches RunEvent::Press(id) && id@ == old(self).finish_id@ ==> r == Ok::<RunAction, PartnerError>(
                RunAction::Submit { access: None },
            ) && final(self).warned == old(self).warned,
            ev matches RunEvent::Press(id) && id@ != old(self).finish_id@ ==> r == Ok::<RunAction, PartnerError>(
                RunAction::Wait((EVENT_TIME - WARNING_LEAD) as u64),
            ) && !final(self).warned,
            ev is Timeout && old(self).warned ==> r == Ok::<RunAction, PartnerError>(
                RunAction::Submit { access: Some(Perms::Viewer()) },
            ) && final(self).warned,
            ev is Timeout && !old(self).warned && (partner_ids@.len() == 1 || partner_ids@.len() == 2) ==> (
            r matches Ok(RunAction::Warn { text, wait }) && text@ == deadline_spec(partner_ids@, author) && wait
                == WARNING_LEAD && final(self).warned),
            ev is Timeout && !old(self).warned && !(partner_ids@.len() == 1 || partner_ids@.len() == 2) ==> r
                is Err && !final(self).warned,
    {
        match ev {
            RunEvent::Press(id) => {
                if str_eq(id.as_str(), self.finish_id.as_str()) {
                    Ok(RunAction::Submit { access: None })
                } else {
                    self.warned = false;
                    Ok(RunAction::Wait(EVENT_TIME - WARNING_LEAD))
                }
            },
            RunEvent::Timeout => {
                if self.warned {
                    Ok(RunAction::Submit { access: Some(Perms::Viewer()) })
                } else {
                    match deadline_warning(partner_ids, author) {
                        Ok(text) => {
                            self.warned = true;
                            Ok(RunAction::Warn { text, wait: WARNING_LEAD })
                        },
                        Err(e) => Err(e),
                    }
                }
            },
        }
    }
}

} // verus!
