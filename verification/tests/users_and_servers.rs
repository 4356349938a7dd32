use scioly_bot::servers::{
    apply_server_defaults, defaults_set_message, get_server, server_defaults_message, AllData, Server,
};
use scioly_bot::users::{
    event_button_ids, find_user, get_event_id_list, get_event_partners, get_officers_emails,
    has_officer_role, register_user, role_for_event, team_label, test_emails, LookupError, SciolyUser,
};

fn user(id: &str, email: &str, team: char, events: &[&str], officer: bool) -> SciolyUser {
    SciolyUser {
        userid: id.to_string(),
        default_email: email.to_string(),
        team,
        events: events.iter().map(|e| e.to_string()).collect(),
        officer,
    }
}

fn roster() -> Vec<SciolyUser> {
    vec![
        user("1", "a@x.org", 'A', &["Astronomy", "Codebusters"], false),
        user("2", "b@x.org", 'A', &["Astronomy"], true),
        user("3", "c@x.org", 'B', &["Astronomy"], false),
        user("4", "d@x.org", 'A', &["Codebusters", "Astronomy"], true),
        user("2", "dup@x.org", 'C', &[], false),
    ]
}

#[test]
fn default_user_is_blank_on_team_z() {
    let u = SciolyUser::default();
    assert_eq!(u.userid, "");
    assert_eq!(u.default_email, "");
    assert_eq!(u.team, 'z');
    assert!(u.events.is_empty());
    assert!(!u.officer);
}

#[test]
fn find_user_returns_first_record_with_id() {
    let found = find_user(roster(), "2").ok().unwrap();
    assert_eq!(found.default_email, "b@x.org");
    assert_eq!(found.team, 'A');
}

#[test]
fn find_user_reports_missing_user() {
    match find_user(roster(), "9") {
        Err(e) => {
            assert!(matches!(e, LookupError::UserNotFound));
            assert_eq!(e.message(), "User not found");
        }
        Ok(_) => panic!("found a user that is not there"),
    }
}

#[test]
fn partners_share_team_and_event_and_exclude_self() {
    let partners = get_event_partners(roster(), &"Astronomy".to_string(), "1", 'A');
    let ids: Vec<&str> = partners.iter().map(|u| u.userid.as_str()).collect();
    assert_eq!(ids, vec!["2", "4"]);
    let none = get_event_partners(roster(), &"Forensics".to_string(), "1", 'A');
    assert!(none.is_empty());
}

#[test]
fn officers_emails_in_order() {
    assert_eq!(get_officers_emails(roster()), vec!["b@x.org".to_string(), "d@x.org".to_string()]);
}

#[test]
fn event_buttons_prefix_command_id() {
    let ids = event_button_ids(vec!["Astronomy".to_string(), "Codebusters".to_string()], 987);
    assert_eq!(ids, vec![
        ("Astronomy".to_string(), "987Astronomy".to_string()),
        ("Codebusters".to_string(), "987Codebusters".to_string()),
    ]);
    let list = get_event_id_list(roster(), "4", 12);
    assert_eq!(list, vec![
        ("Codebusters".to_string(), "12Codebusters".to_string()),
        ("Astronomy".to_string(), "12Astronomy".to_string()),
    ]);
}

#[test]
fn lookup_after_register_gives_new_record() {
    let mut users = roster();
    register_user(&mut users, "3", user("3", "new@x.org", 'C', &["Forensics"], false));
    assert_eq!(users.len(), 5);
    let found = find_user(users, "3").ok().unwrap();
    assert_eq!(found.default_email, "new@x.org");
    assert_eq!(found.events, vec!["Forensics".to_string()]);

    let mut users = roster();
    register_user(&mut users, "7", user("7", "seven@x.org", 'B', &[], false));
    assert_eq!(users.len(), 6);
    assert_eq!(users[5].userid, "7");
    let found = find_user(users, "7").ok().unwrap();
    assert_eq!(found.default_email, "seven@x.org");
}

#[test]
fn register_keeps_other_members() {
    let mut users = roster();
    register_user(&mut users, "2", user("2", "changed@x.org", 'B', &[], false));
    assert_eq!(users[1].default_email, "changed@x.org");
    assert_eq!(users[4].default_email, "dup@x.org");
    assert_eq!(users[0].default_email, "a@x.org");
    assert_eq!(find_user(users, "4").ok().unwrap().default_email, "d@x.org");
}

#[test]
fn team_label_names_alternates() {
    assert_eq!(team_label('d'), "Alternates");
    assert_eq!(team_label('A'), "A");
    assert_eq!(team_label('z'), "z");
}

#[test]
fn test_emails_end_with_author() {
    let users = roster();
    let partners = get_event_partners(roster(), &"Astronomy".to_string(), "1", 'A');
    assert_eq!(test_emails(&partners, &users, "1"), vec![
        "b@x.org".to_string(),
        "d@x.org".to_string(),
        "a@x.org".to_string(),
    ]);
}

fn server(id: &str, name: &str) -> Server {
    Server {
        server_id: id.to_string(),
        server_name: name.to_string(),
        server_email: "old@x.org".to_string(),
        tests_file_id: "oldroster".to_string(),
        pc_file_id: "oldpc".to_string(),
    }
}

#[test]
fn get_server_finds_and_misses() {
    let data = AllData { servers: vec![server("10", "Lynbrook"), server("11", "Other")] };
    let s = get_server(data, "11").ok().unwrap();
    assert_eq!(s.server_name, "Other");
    let data = AllData { servers: vec![server("10", "Lynbrook")] };
    match get_server(data, "99") {
        Err(e) => assert_eq!(e.message(), "Server not found"),
        Ok(_) => panic!("found a server that is not there"),
    }
}

#[test]
fn lookup_after_set_defaults_gives_trimmed_values() {
    let mut data = AllData { servers: vec![server("10", "Lynbrook"), server("11", "Other")] };
    apply_server_defaults(&mut data, "11", "Renamed", "  team@x.org ", " roster1\n", "\tpc1 ");
    assert_eq!(data.servers.len(), 2);
    assert_eq!(data.servers[1].server_name, "Other");
    let s = get_server(data, "11").ok().unwrap();
    assert_eq!(s.server_email, "team@x.org");
    assert_eq!(s.tests_file_id, "roster1");
    assert_eq!(s.pc_file_id, "pc1");

    let mut data = AllData { servers: vec![server("10", "Lynbrook")] };
    apply_server_defaults(&mut data, "12", "New", "n@x.org", "r", "p");
    assert_eq!(data.servers.len(), 2);
    assert_eq!(data.servers[1].server_name, "New");
    assert_eq!(data.servers[0].server_email, "old@x.org");
}

#[test]
fn server_default_messages() {
    assert_eq!(
        defaults_set_message(" e@x.org", "r1", "p1"),
        "Your server defaults have been set to: email:  e@x.org, \nroster: https://docs.google.com/spreadsheets/d/r1/edit, \nprogress checks: https://docs.google.com/spreadsheets/d/p1/edit"
    );
    let s = Server {
        server_id: "1".to_string(),
        server_name: "n".to_string(),
        server_email: " e@x.org ".to_string(),
        tests_file_id: "r1 ".to_string(),
        pc_file_id: " p1".to_string(),
    };
    assert_eq!(
        server_defaults_message(&s),
        "Your server defaults are: email: e@x.org, \nroster: https://docs.google.com/spreadsheets/d/r1/edit, \nprogress checks: https://docs.google.com/spreadsheets/d/p1/edit. \nTo make changes, run `/ssd`."
    );
}

#[test]
fn roles_name_officers_and_events() {
    let roles = vec!["Member".to_string(), "club officer".to_string()];
    assert!(has_officer_role(&roles));
    assert!(!has_officer_role(&vec!["Officer".to_string(), "Member".to_string()]));
    let guild = vec!["Astronomy".to_string(), "chem lab".to_string(), "Chem Lab".to_string()];
    assert_eq!(role_for_event(&guild, "Chem Lab"), Some(1));
    assert_eq!(role_for_event(&guild, "Forensics"), None);
}
