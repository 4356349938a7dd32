use scioly_bot::ai::{add_chunk, add_footer};
use scioly_bot::events::{event_list, find_closest_event_name, match_event_type, Types};
use scioly_bot::progress_check::{
    answer_field, confirm_choice, confirmation_title, question_text, ConfirmChoice, PcField, ProgressCheck,
};
use scioly_bot::rank_query::{
    fix_inputs, is_minus_one, resolve_request, FileCheck, Input, PlacingEntry, RankError, ResultsDoc, TeamEntry,
};
use scioly_bot::clock::LocalTime;
use scioly_bot::reminder::{
    create_reminder, is_readable_time_request, is_year_count_request, normalize_when, parse_priority, plan_reminder, Priority,
    Reminder, ReminderOutcome, Timestamp, WhenError,
};
use scioly_bot::roster::{clean, parse_roster_row, roster_range, team_from_tab_title};
use scioly_bot::sessions::{
    button_id, classify_press, deadline_warning, start_prompt, Press, RunAction, RunEvent, TestSession, EVENT_TIME,
    WARNING_LEAD,
};
use scioly_bot::progress_check::{progress_reminder_plan, progress_reminder_text, reminder_sent_note, ReminderStep};
use scioly_bot::sharing::{doc_url, get_test_link, test_doc_title, test_link_description, Perms, SheetCell};
use scioly_bot::text::{
    contains, eq_ignore_ascii_case, i64_to_string, replace, starts_with, str_eq, trim,
    trim_start_matches, u64_to_string,
};
use scioly_bot::users::SciolyUser;
use chrono::Datelike;
use std::cmp::Ordering;

#[test]
fn trim_removes_unicode_white_space() {
    assert_eq!(trim("  a b \t\n"), "a b");
    assert_eq!(trim("\u{3000}x\u{2029}"), "x");
    assert_eq!(trim("   "), "");
    assert_eq!(trim("\u{200B}y"), "\u{200B}y");
}

#[test]
fn text_searches_and_rewrites() {
    assert!(contains("chemistry lab", "chem"));
    assert!(!contains("che", "chem"));
    assert!(contains("abc", ""));
    assert!(starts_with("in 5 minutes", "in "));
    assert!(!starts_with("i", "in "));
    assert!(eq_ignore_ascii_case("Div C", "div c"));
    assert!(!eq_ignore_ascii_case("Ä", "ä"));
    assert!(str_eq("x", "x"));
    assert!(!str_eq("x", "xy"));
    assert_eq!(replace("Team A Team", "Team", ""), " A ");
    assert_eq!(replace("aaa", "aa", "b"), "ba");
    assert_eq!(trim_start_matches("in in in 5", "in "), "5");
    assert_eq!(u64_to_string(0), "0");
    assert_eq!(u64_to_string(18446744073709551615), "18446744073709551615");
    assert_eq!(i64_to_string(-9223372036854775808), "-9223372036854775808");
    assert_eq!(i64_to_string(42), "42");
}

#[test]
fn event_list_and_types() {
    let list = event_list();
    assert_eq!(list.len(), 23);
    assert_eq!(list[4], "Chemistry Lab");
    assert!(matches!(match_event_type("Boomilever"), Types::Build));
    assert!(matches!(match_event_type("Forensics"), Types::Hybrid));
    assert!(matches!(match_event_type("Astronomy"), Types::Study));
    assert!(matches!(match_event_type("Write It Do It"), Types::Study));
    assert_eq!(match_event_type("Water Quality").to_string(), "Hybrid");
    assert_eq!(Types::Build.to_string(), "Build");
    assert_eq!(Types::Study.to_string(), "Study");
}

#[test]
fn lowercase_is_unicode() {
    let q = fix_inputs(query("x", "ÇHEM"));
    assert_eq!(q.qevent, "ÇHEM");
    let q = fix_inputs(query("x", "CHEMISTRY"));
    assert_eq!(q.qevent, "Chemistry Lab");
    assert_eq!(team_from_tab_title("ÀLTERNATES"), 'A');
}

#[test]
fn closest_event_names() {
    assert_eq!(find_closest_event_name("widi".to_string()), "Write It Do It");
    assert_eq!(find_closest_event_name("r&m".to_string()), "Rocks and Minerals");
    assert_eq!(find_closest_event_name("Astronmy".to_string()), "Astronomy");
    assert_eq!(find_closest_event_name("disease detective".to_string()), "Disease Detectives");
}

#[test]
fn progress_check_setters_and_texts() {
    let mut pc = ProgressCheck::default();
    pc.event("Astronomy".to_string());
    pc.duration("2 hours".to_string());
    pc.progress("stars".to_string());
    pc.improvements("galaxies".to_string());
    pc.timestamp("now".to_string());
    pc.team('B');
    assert_eq!(pc.team, "B");
    assert_eq!(pc.event, "Astronomy");
    assert_eq!(
        pc.confirmation_description(),
        "1. Duration: 2 hours\n 2. Progress: stars\n 3. Improvements: galaxies\n"
    );
    pc.set_answer(PcField::Progress, "nebulae".to_string());
    assert_eq!(pc.progress, "nebulae");
    assert_eq!(pc.duration, "2 hours");
    assert_eq!(confirmation_title("Astronomy"), "Confirm that your Progress Check for Astronomy is correct: ");
    assert_eq!(
        question_text(&PcField::Duration.question(), "Astronomy"),
        "How long did you meet with your partner for Astronomy?"
    );
    assert!(matches!(answer_field("2"), Some(PcField::Progress)));
    assert!(matches!(answer_field("3"), Some(PcField::Improvements)));
    assert!(answer_field("4").is_none());
    assert!(matches!(confirm_choice("whatthefrikiswrong"), Some(ConfirmChoice::Change)));
    assert!(matches!(confirm_choice("whatthefriksubmitit"), Some(ConfirmChoice::Submit)));
    assert!(confirm_choice("whatthefrik").is_none());
}

fn query(school: &str, event: &str) -> Input {
    Input {
        qyear: 2024,
        qinv: "aggie".to_string(),
        qschool: school.to_string(),
        qstate: "CA".to_string(),
        qevent: event.to_string(),
        qdiv: "c".to_string(),
    }
}

fn results() -> ResultsDoc {
    ResultsDoc {
        teams: vec![
            TeamEntry { school: Some("Mission San Jose High School".to_string()), number: Some(1) },
            TeamEntry { school: Some("Lynbrook High School".to_string()), number: Some(7) },
        ],
        placings: vec![
            PlacingEntry { team: Some(1), event: Some("Chemistry Lab".to_string()), place: Some(1) },
            PlacingEntry { team: Some(7), event: Some("Astronomy".to_string()), place: Some(3) },
            PlacingEntry { team: Some(7), event: Some("Chemistry Lab".to_string()), place: Some(12) },
        ],
    }
}

#[test]
fn minus_one_placeholder() {
    assert!(is_minus_one("-1"));
    assert!(is_minus_one("-0001"));
    assert!(!is_minus_one("1"));
    assert!(!is_minus_one("-"));
    assert!(!is_minus_one("-10"));
    assert!(!is_minus_one(" -1"));
}

#[test]
fn fix_inputs_normalizes_chemistry_and_trims() {
    let q = fix_inputs(query("  Lynbrook ", " CHEM lab "));
    assert_eq!(q.qevent, "Chemistry Lab");
    assert_eq!(q.qschool, "Lynbrook");
    let q = fix_inputs(query("x", " Astronomy "));
    assert_eq!(q.qevent, "Astronomy");
    let q = Input::build_input(2024, " aggie".to_string(), "s".to_string(), " ca ".to_string(), "e".to_string(), " C".to_string());
    assert_eq!(q.qinv, "aggie");
    assert_eq!(q.qstate, "ca");
    assert_eq!(q.qdiv, " C");
}

#[test]
fn rank_found_case_insensitively() {
    let q = query("LYNBROOK", "chemistry LAB");
    assert_eq!(q.find_school(&results()).ok(), Some(7));
    assert_eq!(q.find_rank(&results()).ok(), Some(12));
    assert_eq!(q.try_find_rank(&results()).unwrap().ok(), Some(12));
}

#[test]
fn rank_errors() {
    let q = query("Gunn", "Astronomy");
    let e = q.find_rank(&results()).err().unwrap();
    assert!(matches!(e, RankError::SchoolNotFound));
    assert_eq!(e.message(), "couldn't find school");
    let q = query("lynbrook", "Forensics");
    let e = q.find_rank(&results()).err().unwrap();
    assert!(matches!(e, RankError::PlacingNotFound));
    assert_eq!(e.message(), "placing not found");
    assert_eq!(RankError::NoResultsFile.message(), "DNE");
}

#[test]
fn unreadable_results_are_refused() {
    let q = query("lynbrook", "Astronomy");
    let empty = ResultsDoc { teams: vec![], placings: vec![] };
    assert!(q.try_find_rank(&empty).is_none());
    let mut doc = results();
    doc.placings[0].event = None;
    assert!(q.try_find_rank(&doc).is_none());
    let mut doc = results();
    doc.teams[1].number = None;
    assert!(q.try_find_rank(&doc).is_none());
}

#[test]
fn results_file_selection() {
    let q = query("x", "y");
    assert!(q.file_matches("/data/2024-02-03_aggie_invitational_c.yaml", Some("C".to_string())));
    assert!(!q.file_matches("/data/2024-02-03_aggie_invitational_b.yaml", Some("B".to_string())));
    assert!(!q.file_matches("/data/2024-01-01_other_c.yaml", None));
}

#[test]
fn rank_request_defaults_and_messages() {
    let r = resolve_request(None, 2025, Some(" aggie ".to_string()), Some("Lynbrook".to_string()), None, None, None);
    assert_eq!(r.year, 2025);
    assert_eq!(r.invy, "aggie");
    assert_eq!(r.state, "-1");
    assert_eq!(r.division, "c");
    assert_eq!(r.missing_arguments(), "state ");
    let r = resolve_request(Some(2024), 2025, None, None, Some("CA".to_string()), Some("Chem".to_string()), Some("-1".to_string()));
    assert_eq!(r.missing_arguments(), "invitational school event ");
    let r = resolve_request(Some(2024), 2025, Some("aggie".to_string()), Some("Lynbrook".to_string()), Some("CA".to_string()), Some("Chem Lab".to_string()), None);
    assert_eq!(r.missing_arguments(), "");
    let q = r.to_input().ok().unwrap();
    assert_eq!(q.qevent, "Chemistry Lab");
    assert_eq!(q.qyear, 2024);
    assert_eq!(r.placement_message(3), "Lynbrook Chem Lab's placement at aggie 2024 is: 3 :)");
    assert_eq!(q.fields_summary(), "year: 2024, invitational: aggie, school: Lynbrook, event: Chemistry Lab");
    let big = resolve_request(Some(3000000000), 2025, None, None, None, Some("x".to_string()), None);
    let e = big.to_input().err().unwrap();
    assert!(matches!(e, RankError::YearOutOfRange));
}

fn reminder_at(secs: i64, nanos: u32) -> Reminder {
    Reminder::new(1, "m".to_string(), Timestamp { secs, nanos }, Priority::Low)
}

#[test]
fn reminders_order_latest_first() {
    let early = reminder_at(100, 0);
    let late = reminder_at(100, 5);
    assert_eq!(early.cmp(&late), Ordering::Greater);
    assert_eq!(late.cmp(&early), Ordering::Less);
    assert_eq!(early.cmp(&reminder_at(100, 0)), Ordering::Equal);
    assert_eq!(reminder_at(50, 9).partial_cmp(&early), Some(Ordering::Greater));
}

#[test]
fn reminder_requests() {
    assert_eq!(normalize_when("in 5 minutes".to_string()), "5 minutes from now");
    assert_eq!(normalize_when("in in 5 minutes".to_string()), "5 minutes from now");
    assert_eq!(normalize_when("tomorrow 3 pm".to_string()), "tomorrow 3 pm");
    assert!(matches!(parse_priority("HIGH"), Priority::High));
    assert!(matches!(parse_priority("m"), Priority::Medium));
    assert!(matches!(parse_priority("L"), Priority::Low));
    assert!(matches!(parse_priority("urgent"), Priority::Low));
    assert_eq!(
        WhenError::Unparsable.message(),
        "Could not parse the time: `Unable to parse date`. Please use a valid date or time format."
    );
    assert_eq!(
        WhenError::InvalidDate("Feb 30".to_string()).message(),
        "Invalid date provided: `Feb 30`. Please use a valid date or time format."
    );
    assert_eq!(
        WhenError::UnrecognizedToken("blorp".to_string()).message(),
        "Unrecognized word in date: `blorp`. Please use a valid date or time format."
    );
    let parsed = Ok(local(2030, 1, 2, 3, 4, 5, 6));
    match plan_reminder(5, "study".to_string(), "tomorrow", "h", parsed) {
        ReminderOutcome::Created { confirmation, reminder } => {
            assert_eq!(confirmation, "Your reminder about study is set for: tomorrow (2030-01-02 at 03:04 PT)");
            assert_eq!(reminder.user_id, 5);
            assert_eq!(reminder.time.secs, 1893553445);
            assert_eq!(reminder.time.nanos, 6);
            assert!(matches!(reminder.priority, Priority::High));
        }
        ReminderOutcome::Rejected(_) => panic!("rejected a parsed time"),
    }
    match plan_reminder(5, "study".to_string(), "x", "h", Err(WhenError::Unparsable)) {
        ReminderOutcome::Rejected(t) => assert!(t.starts_with("Could not parse the time")),
        ReminderOutcome::Created { .. } => panic!("created a reminder without a time"),
    }
}

fn local(year: i32, month: u32, day: u32, hour: u32, minute: u32, second: u32, nanos: u32) -> LocalTime {
    LocalTime { year, month, day, hour, minute, second, nanos }
}

/// The confirmation and the instant of a reminder for the given local time.
fn planned(t: LocalTime) -> (String, i64, u32) {
    match plan_reminder(1, "x".to_string(), "w", "low", Ok(t)) {
        ReminderOutcome::Created { confirmation, reminder } => (confirmation, reminder.time.secs, reminder.time.nanos),
        ReminderOutcome::Rejected(r) => panic!("rejected a read time: {r}"),
    }
}

fn shown(t: LocalTime) -> String {
    let (c, _, _) = planned(t);
    c.trim_start_matches("Your reminder about x is set for: w (").trim_end_matches(" PT)").to_string()
}

fn instant(t: LocalTime) -> i64 {
    planned(t).1
}

#[test]
fn calendar_times_show_and_count() {
    assert_eq!(shown(local(2030, 1, 2, 3, 4, 0, 0)), "2030-01-02 at 03:04");
    assert_eq!(shown(local(7, 12, 31, 23, 59, 0, 0)), "0007-12-31 at 23:59");
    assert_eq!(shown(local(12345, 6, 7, 8, 9, 0, 0)), "+12345-06-07 at 08:09");
    assert_eq!(shown(local(-5, 2, 3, 10, 0, 0, 0)), "-0005-02-03 at 10:00");
    assert_eq!(instant(local(1970, 1, 1, 0, 0, 0, 0)), 0);
    assert_eq!(instant(local(2000, 3, 1, 0, 0, 0, 0)), 951868800);
    assert_eq!(instant(local(2024, 2, 29, 12, 30, 15, 7)), 1709209815);
    assert_eq!(planned(local(2024, 2, 29, 12, 30, 15, 7)).2, 7);
    assert_eq!(instant(local(1969, 12, 31, 23, 59, 59, 0)), -1);
    assert_eq!(instant(local(1900, 3, 1, 0, 0, 0, 0)), -2203891200);
    assert_eq!(instant(local(0, 1, 1, 0, 0, 0, 0)), -62167219200);
    assert_eq!(planned(local(2016, 12, 31, 23, 59, 59, 1_500_000_000)).2, 1_500_000_000);
}

#[test]
fn time_requests_within_reach() {
    assert!(is_readable_time_request("5 minutes from now"));
    assert!(!is_readable_time_request("1 year from now"));
    assert!(!is_readable_time_request("next YEAR"));
    assert!(is_readable_time_request("10000 minutes from now"));
    assert!(is_readable_time_request("99999 months from now"));
    assert!(!is_readable_time_request("123456 minutes from now"));
    assert!(is_readable_time_request("march 3 2030 at 9:15"));
    assert!(!is_readable_time_request("300000 years from now"));
    assert!(!is_readable_time_request("300000 days from now"));
    assert!(!is_readable_time_request("a Thousand days from now"));
    assert!(!is_readable_time_request("two MILLION weeks from now"));
    assert!(!is_readable_time_request("one billion minutes from now"));
    assert!(!is_readable_time_request("1 year after feb 29 2024"));
    assert!(!is_readable_time_request("1 Year after february twenty ninth"));
    assert!(is_readable_time_request("feb 29 2028"));
    assert!(!is_readable_time_request(&"1 day and ".repeat(21)));
    assert!(is_year_count_request("5 years from now"));
    assert!(is_year_count_request("12 YEARS AGO"));
    assert!(is_year_count_request("a year from now"));
    assert!(is_year_count_request("99999 years from now"));
    assert!(!is_year_count_request("123456 years from now"));
    assert!(!is_year_count_request("years from now"));
    assert!(!is_year_count_request("1 year after feb 29 2024"));
    assert!(!is_year_count_request("1 year and 2 days from now"));
}

#[test]
fn reminder_times_are_read() {
    match create_reminder(3, "far".to_string(), "in 300000 years".to_string(), "low") {
        ReminderOutcome::Rejected(t) => {
            assert_eq!(t, "The time is out of the range I can read. Please use a valid date or time format.")
        }
        ReminderOutcome::Created { .. } => panic!("read a time out of range"),
    }
    match create_reminder(1, "m".to_string(), "blorp".to_string(), "low") {
        ReminderOutcome::Rejected(t) => assert!(t.contains("`. Please use a valid date or time format.")),
        ReminderOutcome::Created { .. } => panic!("read a time from a nonsense word"),
    }
    match create_reminder(2, "n".to_string(), "tomorrow at 3pm".to_string(), "HIGH") {
        ReminderOutcome::Created { confirmation, reminder } => {
            assert!(confirmation.starts_with("Your reminder about n is set for: tomorrow at 3pm ("));
            assert!(confirmation.ends_with(" at 15:00 PT)"));
            assert!(matches!(reminder.priority, Priority::High));
            assert_eq!(reminder.user_id, 2);
        }
        ReminderOutcome::Rejected(t) => panic!("rejected: {t}"),
    }
    match create_reminder(4, "m".to_string(), "in 2 months".to_string(), "low") {
        ReminderOutcome::Created { confirmation, .. } => {
            assert!(confirmation.starts_with("Your reminder about m is set for: 2 months from now ("));
        }
        ReminderOutcome::Rejected(t) => panic!("rejected: {t}"),
    }
    let today = chrono::Local::now();
    let leap_day = today.month() == 2 && today.day() == 29;
    match create_reminder(4, "m".to_string(), "in 1 year".to_string(), "low") {
        ReminderOutcome::Created { confirmation, .. } => {
            assert!(!leap_day);
            assert!(confirmation.starts_with("Your reminder about m is set for: 1 year from now ("));
        }
        ReminderOutcome::Rejected(t) => {
            assert!(leap_day);
            assert_eq!(t, "The time is out of the range I can read. Please use a valid date or time format.")
        }
    }
    match create_reminder(4, "m".to_string(), "in 1 year and 2 days".to_string(), "low") {
        ReminderOutcome::Rejected(t) => {
            assert_eq!(t, "The time is out of the range I can read. Please use a valid date or time format.")
        }
        ReminderOutcome::Created { .. } => panic!("years beside other steps should be refused"),
    }
    match create_reminder(1, "m".to_string(), "in 5 minutes".to_string(), "low") {
        ReminderOutcome::Created { confirmation, .. } => {
            assert!(confirmation.starts_with("Your reminder about m is set for: 5 minutes from now ("));
        }
        ReminderOutcome::Rejected(t) => panic!("rejected: {t}"),
    }
}

#[test]
fn roster_tabs_and_rows() {
    assert_eq!(team_from_tab_title("Team A"), 'A');
    assert_eq!(team_from_tab_title("Team B"), 'B');
    assert_eq!(team_from_tab_title("TEAM C"), 'A');
    assert_eq!(team_from_tab_title("Team C"), 'C');
    assert_eq!(team_from_tab_title("Alternates"), 'd');
    assert_eq!(team_from_tab_title("Team 1"), 'z');
    assert_eq!(roster_range("Team A"), "Team A!A4:H18");
    assert_eq!(clean(" \"Ada\" "), "Ada");
    let row = vec![
        "\"Ada Lovelace\"".to_string(),
        "\"12\"".to_string(),
        "\"Astronomy\"".to_string(),
        "\"\"".to_string(),
        " \"Codebusters\" ".to_string(),
    ];
    let (name, events) = parse_roster_row(&row).unwrap();
    assert_eq!(name, "Ada Lovelace");
    assert_eq!(events, vec!["Astronomy".to_string(), "Codebusters".to_string()]);
    assert!(parse_roster_row(&vec![]).is_none());
    assert!(parse_roster_row(&vec!["\"\"".to_string(), "x".to_string()]).is_none());
    let (name, events) = parse_roster_row(&vec!["Bo".to_string()]).unwrap();
    assert_eq!(name, "Bo");
    assert!(events.is_empty());
}

#[test]
fn session_buttons_and_partner_texts() {
    assert_eq!(button_id(42, "abort"), "42abort");
    let buttons = vec![
        ("Astronomy".to_string(), "42Astronomy".to_string()),
        ("Forensics".to_string(), "42Forensics".to_string()),
    ];
    let chosen = Some("42Forensics".to_string());
    let finish = Some("42finish".to_string());
    assert!(matches!(classify_press("42abort", "42abort", &chosen, &finish, &buttons), Press::Abort));
    assert!(matches!(classify_press("42Forensics", "42abort", &chosen, &finish, &buttons), Press::StartTest));
    assert!(matches!(classify_press("42finish", "42abort", &chosen, &finish, &buttons), Press::Finish));
    assert!(matches!(classify_press("42Astronomy", "42abort", &chosen, &finish, &buttons), Press::Select(0)));
    assert!(matches!(classify_press("42Forensics", "42abort", &None, &None, &buttons), Press::Select(1)));
    assert!(matches!(classify_press("42other", "42abort", &chosen, &finish, &buttons), Press::Other));

    let one = vec!["11".to_string()];
    let two = vec!["11".to_string(), "22".to_string()];
    assert_eq!(
        start_prompt(&one, 99).ok().unwrap(),
        "When you and your partner <@11> is ready, please start the test <@99>!"
    );
    assert_eq!(
        start_prompt(&two, 99).ok().unwrap(),
        "When you and your partners <@11> and <@22> are ready, please start the test <@99>!"
    );
    let e = start_prompt(&vec![], 99).err().unwrap();
    assert_eq!(e.message(), "You seem to have an incorrect amount of partners. Please contact an officer to fix this.");
    assert_eq!(
        deadline_warning(&one, 99).ok().unwrap(),
        "<@11> and <@99>, you have 5 minutes left to submit the test. If you do not, it will be automatically submitted."
    );
    assert_eq!(
        deadline_warning(&two, 99).ok().unwrap(),
        "<@11>, <@22>, and <@99>, you have 5 minutes left to submit the test. If you do not, it will be automatically submitted."
    );
    assert!(deadline_warning(&vec!["1".to_string(), "2".to_string(), "3".to_string()], 9).is_err());
}

#[test]
fn sharing_texts() {
    assert_eq!(Perms::Viewer().role(), "reader");
    assert_eq!(Perms::Commenter().role(), "commenter");
    assert_eq!(Perms::Editor().role(), "writer");
    assert_eq!(Perms::Owner().role(), "owner");
    assert_eq!(test_doc_title("Astronomy", 'd', "2024-05-01"), "Astronomy Team D, 2024-05-01");
    assert_eq!(doc_url("abc"), "https://docs.google.com/document/d/abc/edit");
    assert_eq!(test_link_description("\"https://t.co/x\""), "This is the [link](https://t.co/x) to the test");
}

#[test]
fn streamed_reply_is_cut_after_limit() {
    let mut out = String::new();
    assert!(add_chunk(&mut out, "abc"));
    assert_eq!(out, "abc");
    let mut long = "x".repeat(901);
    assert!(!add_chunk(&mut long, "more"));
    assert!(long.ends_with("REPLY TRUNCATED; TOO LARGE"));
    let mut edge = "x".repeat(900);
    assert!(add_chunk(&mut edge, "y"));
    add_footer(&mut out);
    assert!(out.ends_with("*AI-generated content. Always make sure to verify with trusted sources.*"));
}

#[test]
fn test_session_tracks_chosen_event() {
    let buttons = vec![
        ("Astronomy".to_string(), "7Astronomy".to_string()),
        ("Forensics".to_string(), "7Forensics".to_string()),
    ];
    let mut session = TestSession::new(7, buttons);
    assert_eq!(session.abort_id, "7abort");
    assert_eq!(session.finish_id, "7finish");
    assert_eq!(session.event, "");
    assert!(matches!(session.on_press("7other"), Press::Other));
    assert!(matches!(session.on_press("7Forensics"), Press::Select(1)));
    assert_eq!(session.event, "Forensics");
    assert_eq!(session.event_id, "7Forensics");
    assert!(matches!(session.on_press("7Forensics"), Press::StartTest));
    assert_eq!(session.event, "Forensics");
    assert!(matches!(session.on_press("7finish"), Press::Finish));
    assert!(matches!(session.on_press("7abort"), Press::Abort));
}

#[test]
fn running_test_warns_then_submits() {
    let mut session = TestSession::new(7, vec![("Astronomy".to_string(), "7Astronomy".to_string())]);
    assert!(!session.warned);
    assert_eq!(EVENT_TIME - WARNING_LEAD, 2700);
    let partners = vec!["11".to_string()];
    match session.on_running_event(RunEvent::Press("7Astronomy".to_string()), &partners, 99) {
        Ok(RunAction::Wait(w)) => assert_eq!(w, 2700),
        _ => panic!("another button should restart the wait"),
    }
    match session.on_running_event(RunEvent::Timeout, &partners, 99) {
        Ok(RunAction::Warn { text, wait }) => {
            assert_eq!(
                text,
                "<@11> and <@99>, you have 5 minutes left to submit the test. If you do not, it will be automatically submitted."
            );
            assert_eq!(wait, 300);
        }
        _ => panic!("the first timeout should warn"),
    }
    assert!(session.warned);
    match session.on_running_event(RunEvent::Timeout, &partners, 99) {
        Ok(RunAction::Submit { access: Some(p) }) => assert_eq!(p.role(), "reader"),
        _ => panic!("the second timeout should submit and leave view access"),
    }
}

#[test]
fn running_test_finish_and_restart() {
    let mut session = TestSession::new(8, vec![]);
    let partners = vec!["1".to_string(), "2".to_string()];
    assert!(matches!(session.on_running_event(RunEvent::Timeout, &partners, 3), Ok(RunAction::Warn { .. })));
    assert!(matches!(
        session.on_running_event(RunEvent::Press("8other".to_string()), &partners, 3),
        Ok(RunAction::Wait(2700))
    ));
    assert!(!session.warned);
    assert!(matches!(
        session.on_running_event(RunEvent::Press("8finish".to_string()), &partners, 3),
        Ok(RunAction::Submit { access: None })
    ));
    let none: Vec<String> = vec![];
    assert!(session.on_running_event(RunEvent::Timeout, &none, 3).is_err());
    assert!(!session.warned);
}

fn member(id: &str, team: char) -> SciolyUser {
    SciolyUser {
        userid: id.to_string(),
        default_email: String::new(),
        team,
        events: vec![],
        officer: false,
    }
}

#[test]
fn progress_reminders_skip_members_without_team() {
    let users = vec![member("1", 'a'), member("2", 'z'), member("3", 'b')];
    let plan = progress_reminder_plan(&users);
    assert_eq!(plan.len(), 3);
    assert!(matches!(&plan[0], ReminderStep::DirectMessage(id) if id == "1"));
    assert!(matches!(&plan[1], ReminderStep::Note(t) if t == "<@2> has not set a team"));
    assert!(matches!(&plan[2], ReminderStep::DirectMessage(id) if id == "3"));
    assert_eq!(
        progress_reminder_text("Ada"),
        "Reminder to fill out the progress check form [here](https://tinyurl.com/sciolyprog2425), Ada!"
    );
    assert_eq!(reminder_sent_note("Ada"), "Sent to Ada!");
}

fn cell(text: Option<&str>, rendered: &str) -> SheetCell {
    SheetCell { text: text.map(|t| t.to_string()), rendered: rendered.to_string() }
}

#[test]
fn test_links_come_from_the_first_matching_row() {
    let rows = vec![
        vec![cell(Some("Astronomy"), "\"x\"")],
        vec![cell(None, "5"), cell(Some("a"), "\"a\"")],
        vec![cell(Some("Astronomy"), "\"Astronomy\""), cell(Some("https://l/1"), "\"https://l/1\"")],
        vec![cell(Some("Astronomy"), "\"Astronomy\""), cell(Some("https://l/2"), "\"https://l/2\"")],
    ];
    assert_eq!(get_test_link("Astronomy", &rows), Some("\"https://l/1\"".to_string()));
    assert_eq!(get_test_link("Forensics", &rows), None);
}

const RESULTS: &str = "Tournament:\n  division: C\nTeams:\n  - school: Lynbrook High School\n    number: 7\n  - school: Other School\n    number: 8\nPlacings:\n  - team: 8\n    event: Chem Lab\n    place: 1\n  - team: 7\n    event: Chem Lab\n    place: 3\n";

fn rank_query(school: &str, event: &str) -> Input {
    Input {
        qyear: 2024,
        qinv: "aggie".to_string(),
        qschool: school.to_string(),
        qstate: "CA".to_string(),
        qevent: event.to_string(),
        qdiv: "c".to_string(),
    }
}

#[test]
fn ranks_are_read_from_results_text() {
    assert!(matches!(rank_query("lynbrook", "chem lab").rank_in_results(RESULTS), Some(Ok(3))));
    assert!(matches!(rank_query("other", "Chem Lab").rank_in_results(RESULTS), Some(Ok(1))));
    assert!(matches!(
        rank_query("nowhere", "Chem Lab").rank_in_results(RESULTS),
        Some(Err(RankError::SchoolNotFound))
    ));
    assert!(matches!(
        rank_query("lynbrook", "Forensics").rank_in_results(RESULTS),
        Some(Err(RankError::PlacingNotFound))
    ));
    assert!(rank_query("lynbrook", "chem lab").rank_in_results("Teams: [").is_none());
    assert!(rank_query("lynbrook", "chem lab").rank_in_results("Teams:\n  - number: 7\n").is_none());
}

#[test]
fn results_files_are_checked_against_the_query() {
    let q = rank_query("lynbrook", "chem lab");
    assert!(matches!(q.check_results_file("results/2024-02-03_aggie_invitational_c.yaml", RESULTS), FileCheck::Answers(true)));
    assert!(matches!(q.check_results_file("results/2024-02-03_other_c.yaml", RESULTS), FileCheck::Answers(false)));
    let div_b = RESULTS.replace("division: C", "division: B");
    assert!(matches!(q.check_results_file("results/2024_aggie_b.yaml", &div_b), FileCheck::Answers(false)));
    assert!(matches!(q.check_results_file("results/2024_aggie.yaml", "Teams: []\n"), FileCheck::NoDivision));
    assert!(matches!(q.check_results_file("results/2024_other.yaml", "Teams: []\n"), FileCheck::Answers(false)));
    assert!(matches!(q.check_results_file("results/2024_aggie.yaml", "a: ["), FileCheck::NotYaml));
}
