use termos::storage::{
    add_connection, add_quick_command, delete_connection, delete_quick_command,
    edit_quick_command, find_connection_index, find_quick_command, get_connection, QuickCommand,
    QuickCommandLookupError, ServerConnection,
};

fn conn(nick: &str) -> ServerConnection {
    ServerConnection {
        nickname: nick.to_string(),
        host: "10.0.0.1".to_string(),
        port: 22,
        username: "root".to_string(),
        password: None,
        ssh_key: None,
        group: None,
        quick_commands: None,
    }
}

fn qc(name: &str, command: &str) -> QuickCommand {
    QuickCommand { name: name.to_string(), command: command.to_string() }
}

fn names(conns: &[ServerConnection]) -> Vec<String> {
    conns.iter().map(|c| c.nickname.clone()).collect()
}

fn qc_names(c: &ServerConnection) -> Vec<(String, String)> {
    c.quick_commands
        .as_ref()
        .map(|v| v.iter().map(|q| (q.name.clone(), q.command.clone())).collect())
        .unwrap_or_default()
}

#[test]
fn adding_a_new_nickname_appends_it() {
    let mut conns = vec![conn("web")];
    assert!(add_connection(&mut conns, conn("db")).is_ok());
    assert_eq!(names(&conns), vec!["web", "db"]);
}

#[test]
fn adding_a_nickname_again_is_refused_whatever_its_case() {
    let mut conns = vec![conn("Prod-Web")];
    let err = add_connection(&mut conns, conn("prod-web")).unwrap_err();
    assert_eq!(err, "A connection with nickname 'prod-web' already exists.");
    assert_eq!(names(&conns), vec!["Prod-Web"]);
}

#[test]
fn lookup_ignores_ascii_case_and_takes_the_first_match() {
    let mut a = conn("Alpha");
    a.host = "first".to_string();
    let mut b = conn("ALPHA");
    b.host = "second".to_string();
    let conns = vec![conn("beta"), a, b];
    let found = get_connection(conns.clone(), "alpha").unwrap();
    assert_eq!(found.host, "first");
    assert_eq!(find_connection_index(&conns, "aLpHa"), Some(1));
    assert!(get_connection(conns.clone(), "gamma").is_none());
    assert_eq!(find_connection_index(&conns, "gamma"), None);
    assert!(get_connection(Vec::new(), "alpha").is_none());
}

#[test]
fn deleting_removes_every_match_and_says_whether_any_was_found() {
    let mut conns = vec![conn("a"), conn("B"), conn("c"), conn("b")];
    assert!(delete_connection(&mut conns, "b"));
    assert_eq!(names(&conns), vec!["a", "c"]);
    assert!(!delete_connection(&mut conns, "zzz"));
    assert_eq!(names(&conns), vec!["a", "c"]);
}

#[test]
fn add_then_get_gives_the_connection_back() {
    let mut conns = vec![conn("x")];
    let mut c = conn("NewOne");
    c.port = 2222;
    c.password = Some("pw".to_string());
    add_connection(&mut conns, c).unwrap();
    let got = get_connection(conns, "newone").unwrap();
    assert_eq!(got.port, 2222);
    assert_eq!(got.password.as_deref(), Some("pw"));
}

#[test]
fn delete_then_get_finds_nothing_and_others_stay() {
    let mut conns = vec![conn("x"), conn("y")];
    delete_connection(&mut conns, "X");
    assert!(get_connection(conns.clone(), "x").is_none());
    assert!(get_connection(conns, "y").is_some());
}

#[test]
fn quick_commands_are_added_to_the_named_server() {
    let mut conns = vec![conn("web"), conn("db")];
    add_quick_command(&mut conns, "DB", qc("disk", "df -h")).unwrap();
    add_quick_command(&mut conns, "db", qc("up", "uptime")).unwrap();
    assert_eq!(
        qc_names(&conns[1]),
        vec![("disk".to_string(), "df -h".to_string()), ("up".to_string(), "uptime".to_string())]
    );
    assert!(conns[0].quick_commands.is_none());
    let err = add_quick_command(&mut conns, "nope", qc("a", "b")).unwrap_err();
    assert_eq!(err, "Server with nickname 'nope' not found.");
}

#[test]
fn quick_commands_are_edited_in_place() {
    let mut c = conn("web");
    c.quick_commands = Some(vec![qc("disk", "df -h"), qc("up", "uptime")]);
    let mut conns = vec![c];
    edit_quick_command(&mut conns, "web", "UP", None, Some("uptime -p".to_string())).unwrap();
    assert_eq!(qc_names(&conns[0])[1], ("up".to_string(), "uptime -p".to_string()));
    edit_quick_command(&mut conns, "web", "disk", Some("space".to_string()), None).unwrap();
    assert_eq!(qc_names(&conns[0])[0], ("space".to_string(), "df -h".to_string()));
    let err = edit_quick_command(&mut conns, "web", "missing", None, None).unwrap_err();
    assert_eq!(err, "Quick command 'missing' not found.");
    let err = edit_quick_command(&mut conns, "other", "up", None, None).unwrap_err();
    assert_eq!(err, "Server with nickname 'other' not found.");
    assert_eq!(conns[0].nickname, "web");
}

#[test]
fn quick_commands_are_deleted_by_name() {
    let mut c = conn("web");
    c.quick_commands = Some(vec![qc("a", "1"), qc("B", "2"), qc("b", "3")]);
    let mut conns = vec![c];
    delete_quick_command(&mut conns, "web", "b").unwrap();
    assert_eq!(qc_names(&conns[0]), vec![("a".to_string(), "1".to_string())]);
    let err = delete_quick_command(&mut conns, "web", "b").unwrap_err();
    assert_eq!(err, "Quick command 'b' not found.");
    let err = delete_quick_command(&mut conns, "nobody", "a").unwrap_err();
    assert_eq!(err, "Server with nickname 'nobody' not found.");
}

#[test]
fn a_quick_command_is_picked_by_name() {
    let mut c = conn("web");
    assert_eq!(find_quick_command(&c, "disk"), Err(QuickCommandLookupError::NoQuickCommands));
    c.quick_commands = Some(Vec::new());
    assert_eq!(find_quick_command(&c, "disk"), Err(QuickCommandLookupError::NotFound));
    c.quick_commands = Some(vec![qc("Disk Usage", "df -h"), qc("disk usage", "du")]);
    assert_eq!(find_quick_command(&c, "DISK USAGE"), Ok(0));
    assert_eq!(find_quick_command(&c, "disk"), Err(QuickCommandLookupError::NotFound));
}

#[test]
fn editing_a_server_replaces_it_unless_the_new_nickname_is_taken() {
    let mut conns = vec![conn("web"), conn("db")];
    let mut edited = conn("Web2");
    edited.port = 2200;
    termos::storage::update_connection(&mut conns, "WEB", edited).unwrap();
    assert_eq!(names(&conns), vec!["Web2", "db"]);
    assert_eq!(conns[0].port, 2200);
    let err = termos::storage::update_connection(&mut conns, "web2", conn("DB")).unwrap_err();
    assert_eq!(err, "A connection with nickname 'DB' already exists.");
    let err = termos::storage::update_connection(&mut conns, "nobody", conn("x")).unwrap_err();
    assert_eq!(err, "Server with nickname 'nobody' not found.");
    termos::storage::update_connection(&mut conns, "db", conn("DB")).unwrap();
    assert_eq!(names(&conns), vec!["Web2", "DB"]);
}
