//! Reminders: when they are due, how they are ordered, and how a request becomes one.

use vstd::prelude::*;
use std::cmp::Ordering;
use chrono::{Datelike, Timelike};
use crate::clock::{shown_time, time_display, utc_instant, utc_seconds, valid_local_time, LocalTime};
use crate::text::{
    contains_ignore_ascii_case, contains_ignore_ascii_case_seq, digit_run_at, eq_ignore_ascii_case,
    eq_ignore_ascii_case_seq, folded_code, has_digit_run, has_digit_run_of, is_ascii_digit_char, lower_seq, starts_with,
    starts_with_seq, str_eq, to_lowercase, trim_start_matches, trim_start_matches_seq,
};

verus! {

/// How urgent a reminder is.
pub enum Priority {
    High,
    Medium,
    Low,
}

/// An instant in UTC: whole seconds since the Unix epoch and the nanoseconds past them.
#[derive(Clone, Copy)]
pub struct Timestamp {
    pub secs: i64,
    pub nanos: u32,
}

/// `a` is earlier than `b`.
pub open spec fn earlier(a: Timestamp, b: Timestamp) -> bool {
    a.secs < b.secs || (a.secs == b.secs && a.nanos < b.nanos)
}

/// A reminder for a member.
pub struct Reminder {
    pub user_id: u64,
    pub message: String,
    pub time: Timestamp,
    pub priority: Priority,
}

/// The order of reminders: the one due later comes first, so that a max-heap hands out
/// the one due soonest.
pub open spec fn reminder_order(a: Timestamp, b: Timestamp) -> Ordering {
    if earlier(b, a) {
        Ordering::Less
    } else if b == a {
        Ordering::Equal
    } else {
        Ordering::Greater
    }
}

impl Reminder {
    /// A reminder with the given parts.
    pub fn new(user_id: u64, message: String, time: Timestamp, priority: Priority) -> (r: Self)
        ensures
            r.user_id == user_id,
            r.message == message,
            r.time == time,
            r.priority == priority,
    {
        Reminder { user_id, message, time, priority }
    }

    /// Compares by due time, the later first.
    pub fn cmp(&self, other: &Self) -> (o: Ordering)
        ensures
            o == reminder_order(self.time, other.time),
    {
        let a = self.time;
        let b = other.time;
        if b.secs < a.secs || (b.secs == a.secs && b.nanos < a.nanos) {
            Ordering::Less
        } else if b.secs == a.secs && b.nanos == a.nanos {
            Ordering::Equal
        } else {
            Ordering::Greater
        }
    }

    /// The same comparison, always defined.
    pub fn partial_cmp(&self, other: &Self) -> (o: Option<Ordering>)
        ensures
            o == Some(reminder_order(self.time, other.time)),
    {
        Some(self.cmp(other))
    }
}

/// The order of reminders is a total order: swapping the two sides reverses it, it is
/// `Equal` exactly for equal due times, and it is transitive.
pub proof fn lemma_reminder_order_total(a: Timestamp, b: Timestamp, c: Timestamp)
    ensures
        (reminder_order(a, b) == Ordering::Less) <==> (reminder_order(b, a) == Ordering::Greater),
        (reminder_order(a, b) == Ordering::Equal) <==> a == b,
        reminder_order(a, b) == Ordering::Less && reminder_order(b, c) == Ordering::Less
            ==> reminder_order(a, c) == Ordering::Less,
        (reminder_order(a, b) == Ordering::Less) <==> earlier(b, a),
{
}

/// Why a time could not be read.
pub enum WhenError {
    OutOfRange,
    Unparsable,
    InvalidDate(String),
    UnrecognizedToken(String),
}

/// The reply to a time that could not be read.
pub open spec fn when_error_text(e: WhenError) -> Seq<char> {
    match e {
        WhenError::OutOfRange => "The time is out of the range I can read. Please use a valid date or time format."@,
        WhenError::Unparsable => "Could not parse the time: `Unable to parse date`. Please use a valid date or time format."@,
        WhenError::InvalidDate(d) => "Invalid date provided: `"@ + d@ + "`. Please use a valid date or time format."@,
        WhenError::UnrecognizedToken(t) => "Unrecognized word in date: `"@ + t@ + "`. Please use a valid date or time format."@,
    }
}

impl WhenError {
    /// The reply to this error.
    pub fn message(&self) -> (r: String)
        ensures
            r@ == when_error_text(*self),
    {
        match self {
            WhenError::OutOfRange => String::from_str(
                "The time is out of the range I can read. Please use a valid date or time format.",
            ),
            WhenError::Unparsable => String::from_str(
                "Could not parse the time: `Unable to parse date`. Please use a valid date or time format.",
            ),
            WhenError::InvalidDate(d) => {
                let mut r = String::from_str("Invalid date provided: `");
                r.append(d.as_str());
                r.append("`. Please use a valid date or time format.");
                assert(r@ =~= when_error_text(*self));
                r
            },
            WhenError::UnrecognizedToken(t) => {
                let mut r = String::from_str("Unrecognized word in date: `");
                r.append(t.as_str());
                r.append("`. Please use a valid date or time format.");
                assert(r@ =~= when_error_text(*self));
                r
            },
        }
    }
}

/// The time requests that are handed to the reader: at most 200 characters, no number
/// of six or more digits, none of the words thousand, million or billion, and no year.
/// With longer numbers the reader's date arithmetic can leave the calendar's range, and a
/// count of years can land on a February 29 that the target year lacks; either panics.
/// Counts of years alone are admitted through `year_count_request` instead.
pub open spec fn readable_time_request(s: Seq<char>) -> bool {
    &&& s.len() <= 200
    &&& !has_digit_run(s, 6)
    &&& !contains_ignore_ascii_case_seq(s, "thousand"@)
    &&& !contains_ignore_ascii_case_seq(s, "million"@)
    &&& !contains_ignore_ascii_case_seq(s, "billion"@)
    &&& !contains_ignore_ascii_case_seq(s, "year"@)
}

/// Tests whether a time request may be handed to the reader.
pub fn is_readable_time_request(text: &str) -> (b: bool)
    ensures
        b == readable_time_request(text@),
{
    text.unicode_len() <= 200 && !has_digit_run_of(text, 6) && !contains_ignore_ascii_case(text, "thousand")
        && !contains_ignore_ascii_case(text, "million") && !contains_ignore_ascii_case(text, "billion")
        && !contains_ignore_ascii_case(text, "year")
}

/// What reading a time can give: a date and time that exists, or one of the reader's
/// own errors.
pub open spec fn possible_reading(r: Result<LocalTime, WhenError>) -> bool {
    match r {
        Ok(t) => valid_local_time(t),
        Err(WhenError::OutOfRange) => false,
        Err(_) => true,
    }
}

/// Calls `chrono::Local::now()` and gives the offset of the machine's time zone from UTC
/// at this moment, in seconds (`local_minus_utc`). It depends on the clock and the zone;
/// chrono keeps every offset strictly within a day.
#[verifier::external_body]
fn local_utc_offset() -> (r: i32)
    ensures
        -86400 < r < 86400,
{
    chrono::Local::now().offset().local_minus_utc()
}

/// `local` is the date and time of the instant `now` in the zone `offset` seconds east of
/// UTC.
pub open spec fn clock_reading(now: Timestamp, local: LocalTime, offset: i32) -> bool {
    &&& -86400 < offset < 86400
    &&& now.nanos < 1_000_000_000
    &&& valid_local_time(local)
    &&& utc_seconds(local) == now.secs + offset
    &&& local.nanos == now.nanos
}

/// Calls `chrono::Utc::now()` and gives the current instant, with its date and time in
/// the zone `offset` seconds east of UTC (`with_timezone` and `naive_local`). It depends
/// on the clock, so only the relation between the two is stated. Like chrono's `Utc::now`,
/// it panics when the system clock lies before 1970 or at the very end of chrono's range;
/// no argument excludes that.
#[verifier::external_body]
fn clock_now(offset: i32) -> (r: (Timestamp, LocalTime))
    requires
        -86400 < offset < 86400,
    ensures
        clock_reading(r.0, r.1, offset),
{
    let now = chrono::Utc::now().with_timezone(&chrono::FixedOffset::east_opt(offset).unwrap());
    let t = now.naive_local();
    (Timestamp { secs: now.timestamp(), nanos: now.timestamp_subsec_nanos() }, LocalTime { year: t.year(),
        month: t.month(), day: t.day(), hour: t.hour(), minute: t.minute(), second: t.second(),
        nanos: t.nanosecond() })
}

/// A request for a whole number of years from now or ago: one to five digits, or "a",
/// then " year(s) from now" or " year(s) ago", ignoring ASCII case.
pub open spec fn year_suffix(t: Seq<char>) -> bool {
    ||| eq_ignore_ascii_case_seq(t, " year from now"@)
    ||| eq_ignore_ascii_case_seq(t, " years from now"@)
    ||| eq_ignore_ascii_case_seq(t, " year ago"@)
    ||| eq_ignore_ascii_case_seq(t, " years ago"@)
}

/// See `year_suffix`.
pub open spec fn year_count_request(s: Seq<char>) -> bool {
    ||| exists|k: int| 1 <= k <= 5 && digit_run_at(s, 0, k) && year_suffix(s.subrange(k, s.len() as int))
    ||| s.len() >= 1 && eq_ignore_ascii_case_seq(s.subrange(0, 1), "a"@) && year_suffix(s.subrange(1, s.len() as int))
}

fn is_year_suffix(t: &str) -> (b: bool)
    ensures
        b == year_suffix(t@),
{
    eq_ignore_ascii_case(t, " year from now") || eq_ignore_ascii_case(t, " years from now") || eq_ignore_ascii_case(
        t,
        " year ago",
    ) || eq_ignore_ascii_case(t, " years ago")
}

/// Tests whether a request asks for a whole number of years from now or ago.
pub fn is_year_count_request(text: &str) -> (b: bool)
    ensures
        b == year_count_request(text@),
{
    let len = text.unicode_len();
    let mut n: usize = 0;
    loop
        invariant
            len == text@.len(),
            n <= len,
            n <= 6,
            digit_run_at(text@, 0, n as int),
        ensures
            n <= len,
            n <= 6,
            digit_run_at(text@, 0, n as int),
            n == 6 || n == len || !is_ascii_digit_char(text@[n as int]),
        decreases len - n,
    {
        if n == 6 || n == len {
            break;
        }
        let c: u32 = text.get_char(n) as u32;
        if c < 48 || c > 57 {
            break;
        }
        assert(digit_run_at(text@, 0, n + 1)) by {
            assert forall|k: int| 0 <= k < n + 1 implies is_ascii_digit_char(#[trigger] text@[0 + k]) by {
                if k < n {
                    assert(is_ascii_digit_char(text@[0 + k]));
                }
            }
        }
        n = n + 1;
    }
    let by_count = if 1 <= n && n <= 5 {
        is_year_suffix(text.substring_char(n, len))
    } else {
        false
    };
    proof {
        assert forall|k: int|
            1 <= k <= 5 && digit_run_at(text@, 0, k) && year_suffix(text@.subrange(k, text@.len() as int)) implies k
            == n by {
            let t = text@.subrange(k, text@.len() as int);
            assert(t.len() > 0 && folded_code(t[0]) == 32) by {
                reveal_strlit(" year from now");
                reveal_strlit(" years from now");
                reveal_strlit(" year ago");
                reveal_strlit(" years ago");
                assert(" year from now"@[0] == ' ');
                assert(" years from now"@[0] == ' ');
                assert(" year ago"@[0] == ' ');
                assert(" years ago"@[0] == ' ');
            }
            assert(t[0] == text@[k]);
            if k < n {
                assert(is_ascii_digit_char(text@[0 + k]));
            }
            if k > n {
                assert(is_ascii_digit_char(text@[0 + n as int]));
            }
        }
    }
    if by_count {
        return true;
    }
    if len >= 1 && eq_ignore_ascii_case(text.substring_char(0, 1), "a") {
        is_year_suffix(text.substring_char(1, len))
    } else {
        false
    }
}

/// What `fuzzydate::aware_parse` reads from a request at the instant `now_secs` seconds
/// and `now_nanos` nanoseconds after the Unix epoch, in the zone `offset` seconds east of
/// UTC: the local date and time the request names, or fuzzydate's error.
pub uninterp spec fn fuzzy_reading(text: Seq<char>, now_secs: i64, now_nanos: u32, offset: i32) -> Result<
    LocalTime,
    WhenError,
>;

/// The requests handed to the reader at a given local date and time: a year that leaves
/// room for the reader's arithmetic, and a request that `readable_time_request` admits,
/// or a count of years from a day other than February 29.
pub open spec fn time_admitted(text: Seq<char>, local: LocalTime) -> bool {
    &&& -100000 <= local.year <= 100000
    &&& (readable_time_request(text) || (year_count_request(text) && !(local.month == 2 && local.day == 29)))
}

/// Reads a time written in natural language with `fuzzydate::aware_parse`, relative to
/// the instant `now`, in the fixed zone `offset` seconds east of UTC, and hands back the
/// local date and time it names, field by field, or fuzzydate's error. The result is
/// named `fuzzy_reading` of these arguments; the fields form a date and time chrono's
/// `NaiveDateTime` holds. A fixed zone has no gaps for fuzzydate's month steps to fall
/// into, and the requests handed over keep its year arithmetic in range and off
/// February 29.
#[verifier::external_body]
fn read_when(text: &str, now: Timestamp, offset: i32) -> (r: Result<LocalTime, WhenError>)
    requires
        exists|local: LocalTime| clock_reading(now, local, offset) && time_admitted(text@, local),
    ensures
        r == fuzzy_reading(text@, now.secs, now.nanos, offset),
        possible_reading(r),
{
    let zone = chrono::FixedOffset::east_opt(offset).unwrap();
    let at = chrono::DateTime::from_timestamp(now.secs, now.nanos).unwrap().with_timezone(&zone);
    match fuzzydate::aware_parse(text, Some(at), zone) {
        Ok(at) => {
            let t = at.naive_local();
            Ok(LocalTime { year: t.year(), month: t.month(), day: t.day(), hour: t.hour(),
                minute: t.minute(), second: t.second(), nanos: t.nanosecond() })
        },
        Err(fuzzydate::Error::ParseError) => Err(WhenError::Unparsable),
        Err(fuzzydate::Error::InvalidDate(d)) => Err(WhenError::InvalidDate(d)),
        Err(fuzzydate::Error::UnrecognizedToken(t)) => Err(WhenError::UnrecognizedToken(t)),
    }
}

/// A time request as it is read: "in X" is read as "X from now".
pub open spec fn normalized_when(text: Seq<char>) -> Seq<char> {
    if starts_with_seq(text, "in "@) {
        trim_start_matches_seq(text, "in "@) + " from now"@
    } else {
        text
    }
}

/// Rewrites "in X" to "X from now"; other requests stay.
pub fn normalize_when(text: String) -> (r: String)
    ensures
        r@ == normalized_when(text@),
{
    if starts_with(text.as_str(), "in ") {
        proof {
            reveal_strlit("in ");
        }
        let mut r = trim_start_matches(text.as_str(), "in ");
        r.append(" from now");
        r
    } else {
        text
    }
}

/// The priority a word names, in any case: high or h, medium or m, low or l; any other
/// word means low.
pub open spec fn priority_of(word: Seq<char>) -> Priority {
    let w = lower_seq(word);
    if w == "high"@ || w == "h"@ {
        Priority::High
    } else if w == "medium"@ || w == "m"@ {
        Priority::Medium
    } else {
        Priority::Low
    }
}

/// Reads a priority word.
pub fn parse_priority(word: &str) -> (r: Priority)
    ensures
        r == priority_of(word@),
{
    let w = to_lowercase(word);
    if str_eq(w.as_str(), "high") || str_eq(w.as_str(), "h") {
        Priority::High
    } else if str_eq(w.as_str(), "medium") || str_eq(w.as_str(), "m") {
        Priority::Medium
    } else {
        Priority::Low
    }
}

/// The reply confirming a reminder.
pub open spec fn confirmation_text(message: Seq<char>, when: Seq<char>, display: Seq<char>) -> Seq<char> {
    "Your reminder about "@ + message + " is set for: "@ + when + " ("@ + display + " PT)"@
}

/// What a reminder request comes to.
pub enum ReminderOutcome {
    Rejected(String),
    Created { confirmation: String, reminder: Reminder },
}

/// `r` is the outcome of a request once its time has been read: a rejection with the
/// error's reply, or a reminder at the instant the time names read as UTC, with a
/// confirmation that shows that time.
pub open spec fn is_outcome(
    r: ReminderOutcome,
    user_id: u64,
    message: String,
    when: Seq<char>,
    priority: Seq<char>,
    parsed: Result<LocalTime, WhenError>,
) -> bool {
    match (parsed, r) {
        (Err(e), ReminderOutcome::Rejected(text)) => text@ == when_error_text(e),
        (Ok(t), ReminderOutcome::Created { confirmation, reminder }) => {
            &&& confirmation@ == confirmation_text(message@, when, shown_time(t))
            &&& reminder.user_id == user_id
            &&& reminder.message == message
            &&& reminder.time.secs == utc_seconds(t)
            &&& reminder.time.nanos == t.nanos
            &&& reminder.priority == priority_of(priority)
        },
        _ => false,
    }
}

/// Decides a request once its time has been read.
pub fn plan_reminder(
    user_id: u64,
    message: String,
    when: &str,
    priority: &str,
    parsed: Result<LocalTime, WhenError>,
) -> (r: ReminderOutcome)
    requires
        parsed matches Ok(t) ==> valid_local_time(t),
    ensures
        is_outcome(r, user_id, message, when@, priority@, parsed),
{
    match parsed {
        Err(e) => ReminderOutcome::Rejected(e.message()),
        Ok(t) => {
            let display = time_display(&t);
            let mut confirmation = String::from_str("Your reminder about ");
            confirmation.append(message.as_str());
            confirmation.append(" is set for: ");
            confirmation.append(when);
            confirmation.append(" (");
            confirmation.append(display.as_str());
            confirmation.append(" PT)");
            assert(confirmation@ =~= confirmation_text(message@, when@, shown_time(t)));
            let reminder = Reminder::new(user_id, message, utc_instant(&t), parse_priority(priority));
            ReminderOutcome::Created { confirmation, reminder }
        },
    }
}

/// Handles a reminder request: normalizes the time, takes the clock and the local zone's
/// offset, refuses a request the reader cannot take at that moment, reads it, and decides.
/// Whatever the clock and zone, the outcome is the one `plan_reminder` gives for what
/// fuzzydate reads from the normalized request at that instant and offset.
pub fn create_reminder(user_id: u64, message: String, unparsed_time: String, priority: &str) -> (r:
    ReminderOutcome)
    ensures
        exists|now: Timestamp, local: LocalTime, offset: i32|
            clock_reading(now, local, offset) && (if time_admitted(normalized_when(unparsed_time@), local) {
                is_outcome(
                    r,
                    user_id,
                    message,
                    normalized_when(unparsed_time@),
                    priority@,
                    fuzzy_reading(normalized_when(unparsed_time@), now.secs, now.nanos, offset),
                )
            } else {
                r matches ReminderOutcome::Rejected(text) && text@ == when_error_text(WhenError::OutOfRange)
            }),
{
    let when = normalize_when(unparsed_time);
    let offset = local_utc_offset();
    let (now, local) = clock_now(offset);
    let admitted = -100000 <= local.year && local.year <= 100000 && (is_readable_time_request(when.as_str()) || (
    is_year_count_request(when.as_str()) && !(local.month == 2 && local.day == 29)));
    if !admitted {
        return ReminderOutcome::Rejected(WhenError::OutOfRange.message());
    }
    let parsed = read_when(when.as_str(), now, offset);
    let r = plan_reminder(user_id, message, when.as_str(), priority, parsed);
    assert(clock_reading(now, local, offset) && time_admitted(when@, local));
    r
}


/// The reader is refused only the listed forms: a request of at most 200 characters with
/// no number of six or more digits and none of the words thousand, million, billion or
/// year, in any case, is handed to the reader, whatever units it counts in.
pub proof fn lemma_short_requests_are_read(s: Seq<char>)
    requires
        s.len() <= 200,
        !has_digit_run(s, 6),
        !contains_ignore_ascii_case_seq(s, "thousand"@),
        !contains_ignore_ascii_case_seq(s, "million"@),
        !contains_ignore_ascii_case_seq(s, "billion"@),
        !contains_ignore_ascii_case_seq(s, "year"@),
    ensures
        readable_time_request(s),
{
}


/// At any local date and time within a hundred thousand years of year 0, every request
/// the reader is not refused is read, and so is a plain count of years unless the day is
/// February 29.
pub proof fn lemma_requests_read_at_any_time(text: Seq<char>, local: LocalTime)
    requires
        -100000 <= local.year <= 100000,
    ensures
        readable_time_request(text) ==> time_admitted(text, local),
        year_count_request(text) && !(local.month == 2 && local.day == 29) ==> time_admitted(text, local),
{
}

} // verus!
