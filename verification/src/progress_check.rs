//! Progress checks: the answers a member gives about practice with their partner.

use vstd::prelude::*;
use crate::text::{char_string, str_eq};
use crate::users::SciolyUser;

verus! {

/// One progress check.
pub struct ProgressCheck {
    pub event: String,
    pub duration: String,
    pub progress: String,
    pub improvements: String,
    pub timestamp: String,
    pub team: String,
}

impl Default for ProgressCheck {
    fn default() -> (r: Self)
        ensures
            r.event@ == Seq::<char>::empty(),
            r.duration@ == Seq::<char>::empty(),
            r.progress@ == Seq::<char>::empty(),
            r.improvements@ == Seq::<char>::empty(),
            r.timestamp@ == Seq::<char>::empty(),
            r.team@ == Seq::<char>::empty(),
    {
        ProgressCheck {
            event: String::new(),
            duration: String::new(),
            progress: String::new(),
            improvements: String::new(),
            timestamp: String::new(),
            team: String::new(),
        }
    }
}

impl ProgressCheck {
    /// Sets the event; the other answers stay.
    pub fn event(&mut self, event: String)
        ensures
            final(self).event == event,
            final(self).duration == old(self).duration,
            final(self).progress == old(self).progress,
            final(self).improvements == old(self).improvements,
            final(self).timestamp == old(self).timestamp,
            final(self).team == old(self).team,
    {
        self.event = event;
    }

    /// Sets how long the partners met; the other answers stay.
    pub fn duration(&mut self, duration: String)
        ensures
            final(self).duration == duration,
            final(self).event == old(self).event,
            final(self).progress == old(self).progress,
            final(self).improvements == old(self).improvements,
            final(self).timestamp == old(self).timestamp,
            final(self).team == old(self).team,
    {
        self.duration = duration;
    }

    /// Sets the progress made; the other answers stay.
    pub fn progress(&mut self, progress: String)
        ensures
            final(self).progress == progress,
            final(self).event == old(self).event,
            final(self).duration == old(self).duration,
            final(self).improvements == old(self).improvements,
            final(self).timestamp == old(self).timestamp,
            final(self).team == old(self).team,
    {
        self.progress = progress;
    }

    /// Sets the planned improvements; the other answers stay.
    pub fn improvements(&mut self, improvements: String)
        ensures
            final(self).improvements == improvements,
            final(self).event == old(self).event,
            final(self).duration == old(self).duration,
            final(self).progress == old(self).progress,
            final(self).timestamp == old(self).timestamp,
            final(self).team == old(self).team,
    {
        self.improvements = improvements;
    }

    /// Sets when the check was made; the other answers stay.
    pub fn timestamp(&mut self, timestamp: String)
        ensures
            final(self).timestamp == timestamp,
            final(self).event == old(self).event,
            final(self).duration == old(self).duration,
            final(self).progress == old(self).progress,
            final(self).improvements == old(self).improvements,
            final(self).team == old(self).team,
    {
        self.timestamp = timestamp;
    }

    /// Sets the team to the one-letter text of `team`; the other answers stay.
    pub fn team(&mut self, team: char)
        ensures
            final(self).team@ == seq![team],
            final(self).event == old(self).event,
            final(self).duration == old(self).duration,
            final(self).progress == old(self).progress,
            final(self).improvements == old(self).improvements,
            final(self).timestamp == old(self).timestamp,
    {
        self.team = char_string(team);
    }
}

/// The three questions of a progress check.
pub enum PcField {
    Duration,
    Progress,
    Improvements,
}

/// The question asked for a field.
pub open spec fn question_of(f: PcField) -> Seq<char> {
    match f {
        PcField::Duration => "How long did you meet with your partner for"@,
        PcField::Progress => "What progress did you make on"@,
        PcField::Improvements => "What improvements can you make for"@,
    }
}

impl PcField {
    /// The question asked for this field.
    pub fn question(&self) -> (r: String)
        ensures
            r@ == question_of(*self),
    {
        match self {
            PcField::Duration => String::from_str("How long did you meet with your partner for"),
            PcField::Progress => String::from_str("What progress did you make on"),
            PcField::Improvements => String::from_str("What improvements can you make for"),
        }
    }
}

/// The field a reply names when a member fixes an answer: "1", "2" or "3".
pub open spec fn answer_field_of(answer: Seq<char>) -> Option<PcField> {
    if answer == "1"@ {
        Some(PcField::Duration)
    } else if answer == "2"@ {
        Some(PcField::Progress)
    } else if answer == "3"@ {
        Some(PcField::Improvements)
    } else {
        None
    }
}

/// The field a reply names, or `None` for a reply that names none.
pub fn answer_field(answer: &str) -> (r: Option<PcField>)
    ensures
        r == answer_field_of(answer@),
{
    if str_eq(answer, "1") {
        Some(PcField::Duration)
    } else if str_eq(answer, "2") {
        Some(PcField::Progress)
    } else if str_eq(answer, "3") {
        Some(PcField::Improvements)
    } else {
        None
    }
}

impl ProgressCheck {
    /// Stores the answer to one question; the other answers stay.
    pub fn set_answer(&mut self, field: PcField, answer: String)
        ensures
            final(self).duration == (if field == PcField::Duration { answer } else { old(self).duration }),
            final(self).progress == (if field == PcField::Progress { answer } else { old(self).progress }),
            final(self).improvements == (if field == PcField::Improvements {
                answer
            } else {
                old(self).improvements
            }),
            final(self).event == old(self).event,
            final(self).timestamp == old(self).timestamp,
            final(self).team == old(self).team,
    {
        match field {
            PcField::Duration => self.duration(answer),
            PcField::Progress => self.progress(answer),
            PcField::Improvements => self.improvements(answer),
        }
    }

    /// The text that lists the answers for confirmation.
    pub fn confirmation_description(&self) -> (r: String)
        ensures
            r@ == "1. Duration: "@ + self.duration@ + "\n 2. Progress: "@ + self.progress@
                + "\n 3. Improvements: "@ + self.improvements@ + "\n"@,
    {
        let mut r = String::from_str("1. Duration: ");
        r.append(self.duration.as_str());
        r.append("\n 2. Progress: ");
        r.append(self.progress.as_str());
        r.append("\n 3. Improvements: ");
        r.append(self.improvements.as_str());
        r.append("\n");
        assert(r@ =~= "1. Duration: "@ + self.duration@ + "\n 2. Progress: "@ + self.progress@
            + "\n 3. Improvements: "@ + self.improvements@ + "\n"@);
        r
    }
}

/// The title of the confirmation for a progress check on `event`.
pub fn confirmation_title(event: &str) -> (r: String)
    ensures
        r@ == "Confirm that your Progress Check for "@ + event@ + " is correct: "@,
{
    let mut r = String::from_str("Confirm that your Progress Check for ");
    r.append(event);
    r.append(" is correct: ");
    assert(r@ =~= "Confirm that your Progress Check for "@ + event@ + " is correct: "@);
    r
}

/// A question as it is put to the member: the question, the event and a question mark.
pub fn question_text(question: &str, event: &str) -> (r: String)
    ensures
        r@ == question@ + " "@ + event@ + "?"@,
{
    let mut r = String::from_str(question);
    r.append(" ");
    r.append(event);
    r.append("?");
    assert(r@ =~= question@ + " "@ + event@ + "?"@);
    r
}

/// The two buttons under a progress check confirmation.
pub enum ConfirmChoice {
    Submit,
    Change,
}

/// The choice a pressed button stands for, or `None` for any other button.
pub fn confirm_choice(custom_id: &str) -> (r: Option<ConfirmChoice>)
    ensures
        r == (if custom_id@ == "whatthefrikiswrong"@ {
            Some(ConfirmChoice::Change)
        } else if custom_id@ == "whatthefriksubmitit"@ {
            Some(ConfirmChoice::Submit)
        } else {
            None
        }),
{
    if str_eq(custom_id, "whatthefrikiswrong") {
        Some(ConfirmChoice::Change)
    } else if str_eq(custom_id, "whatthefriksubmitit") {
        Some(ConfirmChoice::Submit)
    } else {
        None
    }
}

/// One step of the progress-check reminder: a note in the channel about a member, or a
/// direct message to the member with the given id.
pub enum ReminderStep {
    Note(String),
    DirectMessage(String),
}

/// The step for one member: a member without a team (team `z`) gets a note in the
/// channel that says so; every other member gets the reminder by direct message.
pub open spec fn reminder_step_for(u: SciolyUser, step: ReminderStep) -> bool {
    if u.team == 'z' {
        step matches ReminderStep::Note(t) && t@ == "<@"@ + u.userid@ + "> has not set a team"@
    } else {
        step matches ReminderStep::DirectMessage(id) && id@ == u.userid@
    }
}

/// The progress-check reminder for the members in order: one step per member.
pub fn progress_reminder_plan(users: &Vec<SciolyUser>) -> (r: Vec<ReminderStep>)
    ensures
        r.len() == users.len(),
        forall|i: int| 0 <= i < users.len() ==> reminder_step_for(users@[i], #[trigger] r@[i]),
{
    let mut r: Vec<ReminderStep> = Vec::new();
    let mut k: usize = 0;
    while k < users.len()
        invariant
            k <= users.len(),
            r.len() == k,
            forall|i: int| 0 <= i < k ==> reminder_step_for(users@[i], #[trigger] r@[i]),
        decreases users.len() - k,
    {
        let u = &users[k];
        if u.team == 'z' {
            let mut t = String::from_str("<@");
            t.append(u.userid.as_str());
            t.append("> has not set a team");
            assert(t@ =~= "<@"@ + u.userid@ + "> has not set a team"@);
            r.push(ReminderStep::Note(t));
        } else {
            r.push(ReminderStep::DirectMessage(u.userid.clone()));
        }
        k = k + 1;
    }
    r
}

/// The direct message that reminds a member, by name, to fill out the progress check.
pub fn progress_reminder_text(username: &str) -> (r: String)
    ensures
        r@ == "Reminder to fill out the progress check form [here](https://tinyurl.com/sciolyprog2425)"@
            + ", "@ + username@ + "!"@,
{
    let mut r = String::from_str(
        "Reminder to fill out the progress check form [here](https://tinyurl.com/sciolyprog2425)",
    );
    r.append(", ");
    r.append(username);
    r.append("!");
    assert(r@ =~= "Reminder to fill out the progress check form [here](https://tinyurl.com/sciolyprog2425)"@
        + ", "@ + username@ + "!"@);
    r
}

/// The note in the channel once a member has been reminded.
pub fn reminder_sent_note(username: &str) -> (r: String)
    ensures
        r@ == "Sent to "@ + username@ + "!"@,
{
    let mut r = String::from_str("Sent to ");
    r.append(username);
    r.append("!");
    assert(r@ =~= "Sent to "@ + username@ + "!"@);
    r
}


/// The reminder goes by direct message to every member whose team is not `z`, whatever
/// team it is; only a member of team `z` gets the note that they have not set a team.
pub proof fn lemma_reminder_reaches_every_team(u: SciolyUser, step: ReminderStep)
    requires
        reminder_step_for(u, step),
    ensures
        u.team != 'z' ==> (step matches ReminderStep::DirectMessage(id) && id@ == u.userid@),
        u.team == 'z' ==> (step matches ReminderStep::Note(t) && t@ == "<@"@ + u.userid@ + "> has not set a team"@),
{
}

} // verus!
