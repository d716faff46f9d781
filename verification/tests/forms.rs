use termos::input::{Key, KeyPress};
use termos::storage::{QuickCommand, ServerConnection};
use termos::tui::form::{edit_field, FormField, FormState, FormStep};
use termos::tui::wizard::{
    quick_command_form, quick_command_wizard_step, server_form, server_wizard_step,
    validate_and_build, QuickCommandWizardOutcome, WizardOutcome,
};

fn press(key: Key) -> KeyPress {
    KeyPress { key, ctrl: false }
}

fn ctrl(c: char) -> KeyPress {
    KeyPress { key: Key::Char(c), ctrl: true }
}

fn field(value: &str, cursor: usize) -> FormField {
    FormField {
        label: "L",
        value: value.to_string(),
        is_password: false,
        placeholder: "p",
        cursor_pos: cursor,
        scroll_offset: 0,
    }
}

fn type_text(form: &mut FormState, text: &str) {
    for c in text.chars() {
        assert_eq!(form.handle_key(press(Key::Char(c)), true), FormStep::Stay);
    }
}

fn values(form: &FormState) -> Vec<String> {
    form.fields.iter().map(|f| f.value.clone()).collect()
}

fn sample() -> ServerConnection {
    ServerConnection {
        nickname: "prod-web-01".to_string(),
        host: "192.168.1.15".to_string(),
        port: 2200,
        username: "admin".to_string(),
        password: Some("sample-password".to_string()),
        ssh_key: None,
        group: Some("production".to_string()),
        quick_commands: Some(vec![QuickCommand { name: "disk usage".to_string(), command: "df -h".to_string() }]),
    }
}

#[test]
fn editing_keys_move_the_cursor_and_change_the_text() {
    let mut f = field("abc", 3);
    edit_field(&mut f, Key::Left);
    assert_eq!(f.cursor_pos, 2);
    edit_field(&mut f, Key::Char('X'));
    assert_eq!((f.value.as_str(), f.cursor_pos), ("abXc", 3));
    edit_field(&mut f, Key::Backspace);
    assert_eq!((f.value.as_str(), f.cursor_pos), ("abc", 2));
    edit_field(&mut f, Key::Delete);
    assert_eq!((f.value.as_str(), f.cursor_pos), ("ab", 2));
    edit_field(&mut f, Key::Delete);
    assert_eq!((f.value.as_str(), f.cursor_pos), ("ab", 2));
    edit_field(&mut f, Key::Right);
    assert_eq!(f.cursor_pos, 2);
    edit_field(&mut f, Key::Home);
    assert_eq!(f.cursor_pos, 0);
    edit_field(&mut f, Key::Backspace);
    assert_eq!((f.value.as_str(), f.cursor_pos), ("ab", 0));
    edit_field(&mut f, Key::Left);
    assert_eq!(f.cursor_pos, 0);
    edit_field(&mut f, Key::End);
    assert_eq!(f.cursor_pos, 2);
    let mut g = field("\u{e9}t\u{e9}", 1);
    edit_field(&mut g, Key::Delete);
    assert_eq!(g.value, "\u{e9}\u{e9}");
}

#[test]
fn the_server_form_starts_with_defaults_or_the_edited_connection() {
    let f = server_form(None);
    assert_eq!(values(&f), vec!["", "", "22", "root", "", "", ""]);
    assert_eq!(f.fields[2].cursor_pos, 2);
    assert_eq!(f.fields[3].cursor_pos, 4);
    assert_eq!(f.active_idx, 0);
    assert!(f.fields[4].is_password && !f.fields[0].is_password);
    assert_eq!(f.fields[0].label, "Nickname");
    let e = sample();
    let g = server_form(Some(&e));
    assert_eq!(values(&g), vec!["prod-web-01", "192.168.1.15", "2200", "admin", "sample-password", "", "production"]);
    assert_eq!(g.fields[0].cursor_pos, 11);
}

#[test]
fn validation_reports_the_first_missing_value() {
    let mut f = server_form(None);
    assert_eq!(validate_and_build(&f.fields, None).unwrap_err(), "Nickname cannot be empty.");
    f.fields[0].value = "  n ".to_string();
    assert_eq!(validate_and_build(&f.fields, None).unwrap_err(), "IP / Hostname cannot be empty.");
    f.fields[1].value = "h".to_string();
    f.fields[3].value = "   ".to_string();
    assert_eq!(validate_and_build(&f.fields, None).unwrap_err(), "Username cannot be empty.");
    f.fields[3].value = "u".to_string();
    for bad in ["", "abc", "65536", "-22", "2 2"] {
        f.fields[2].value = bad.to_string();
        assert_eq!(validate_and_build(&f.fields, None).unwrap_err(), "Invalid port number (1-65535).");
    }
    f.fields[2].value = " +0 ".to_string();
    let c = validate_and_build(&f.fields, None).unwrap();
    assert_eq!(c.port, 0);
}

#[test]
fn validation_trims_and_drops_empty_optionals() {
    let mut f = server_form(None);
    f.fields[0].value = " web ".to_string();
    f.fields[1].value = "\texample.org ".to_string();
    f.fields[2].value = " 2022".to_string();
    f.fields[3].value = "deploy".to_string();
    f.fields[4].value = "  ".to_string();
    f.fields[5].value = " ~/.ssh/id ".to_string();
    f.fields[6].value = "".to_string();
    let c = validate_and_build(&f.fields, None).unwrap();
    assert_eq!(c.nickname, "web");
    assert_eq!(c.host, "example.org");
    assert_eq!(c.port, 2022);
    assert_eq!(c.username, "deploy");
    assert_eq!(c.password, None);
    assert_eq!(c.ssh_key.as_deref(), Some("~/.ssh/id"));
    assert_eq!(c.group, None);
    assert!(c.quick_commands.is_none());
}

#[test]
fn editing_a_connection_and_saving_at_once_gives_it_back_with_its_commands() {
    let e = sample();
    let mut f = server_form(Some(&e));
    match server_wizard_step(&mut f, ctrl('s'), Some(&e)) {
        WizardOutcome::Saved(c) => {
            assert_eq!(c.nickname, e.nickname);
            assert_eq!(c.host, e.host);
            assert_eq!(c.port, e.port);
            assert_eq!(c.username, e.username);
            assert_eq!(c.password, e.password);
            assert_eq!(c.ssh_key, e.ssh_key);
            assert_eq!(c.group, e.group);
            let q = c.quick_commands.unwrap();
            assert_eq!(q.len(), 1);
            assert_eq!(q[0].command, "df -h");
        }
        _ => panic!("expected a saved connection"),
    }
}

#[test]
fn the_wizard_moves_focus_around_fields_and_buttons() {
    let mut f = server_form(None);
    assert!(matches!(server_wizard_step(&mut f, press(Key::Up), None), WizardOutcome::Continue));
    assert_eq!(f.active_idx, 8);
    assert!(matches!(server_wizard_step(&mut f, press(Key::Tab), None), WizardOutcome::Continue));
    assert_eq!(f.active_idx, 0);
    for _ in 0..7 {
        server_wizard_step(&mut f, press(Key::Enter), None);
    }
    assert_eq!(f.active_idx, 7);
    server_wizard_step(&mut f, press(Key::Left), None);
    assert_eq!(f.active_idx, 8);
    server_wizard_step(&mut f, press(Key::Right), None);
    assert_eq!(f.active_idx, 7);
    server_wizard_step(&mut f, press(Key::BackTab), None);
    assert_eq!(f.active_idx, 6);
    server_wizard_step(&mut f, press(Key::Down), None);
    server_wizard_step(&mut f, press(Key::Down), None);
    assert_eq!(f.active_idx, 8);
    assert!(matches!(server_wizard_step(&mut f, press(Key::Enter), None), WizardOutcome::Cancelled));
    assert!(matches!(server_wizard_step(&mut f, press(Key::Esc), None), WizardOutcome::Cancelled));
}

#[test]
fn saving_an_invalid_form_shows_the_error_until_the_next_edit() {
    let mut f = server_form(None);
    assert!(matches!(server_wizard_step(&mut f, ctrl('s'), None), WizardOutcome::Continue));
    assert_eq!(f.error_msg.as_deref(), Some("Nickname cannot be empty."));
    server_wizard_step(&mut f, press(Key::Left), None);
    assert!(f.error_msg.is_some());
    type_text(&mut f, "web");
    assert!(f.error_msg.is_none());
    assert_eq!(f.fields[0].value, "web");
    server_wizard_step(&mut f, press(Key::Down), None);
    type_text(&mut f, "host");
    for _ in 0..6 {
        server_wizard_step(&mut f, press(Key::Down), None);
    }
    assert_eq!(f.active_idx, 7);
    match server_wizard_step(&mut f, press(Key::Enter), None) {
        WizardOutcome::Saved(c) => {
            assert_eq!(c.nickname, "web");
            assert_eq!(c.host, "host");
            assert_eq!(c.port, 22);
            assert_eq!(c.username, "root");
        }
        _ => panic!("expected a saved connection"),
    }
}

#[test]
fn control_with_another_letter_types_it() {
    let mut f = server_form(None);
    server_wizard_step(&mut f, ctrl('x'), None);
    assert_eq!(f.fields[0].value, "x");
}

#[test]
fn the_quick_command_wizard_saves_on_control_s_and_rejects_blank_fields() {
    let mut f = quick_command_form(None);
    assert!(matches!(quick_command_wizard_step(&mut f, ctrl('s')), QuickCommandWizardOutcome::Continue));
    assert_eq!(f.fields[0].value, "");
    assert_eq!(f.error_msg.as_deref(), Some("Fields cannot be empty."));
    quick_command_wizard_step(&mut f, press(Key::Char('s')));
    assert!(f.error_msg.is_none());
    f.active_idx = 2;
    assert!(matches!(quick_command_wizard_step(&mut f, press(Key::Enter)), QuickCommandWizardOutcome::Continue));
    assert_eq!(f.error_msg.as_deref(), Some("Fields cannot be empty."));
    f.fields[1].value = "  df -h ".to_string();
    match quick_command_wizard_step(&mut f, press(Key::Enter)) {
        QuickCommandWizardOutcome::Saved(q) => {
            assert_eq!(q.name, "s");
            assert_eq!(q.command, "df -h");
        }
        _ => panic!("expected a saved command"),
    }
    f.active_idx = 3;
    assert!(matches!(quick_command_wizard_step(&mut f, press(Key::Enter)), QuickCommandWizardOutcome::Cancelled));
    let q = QuickCommand { name: "n".to_string(), command: "c".to_string() };
    let mut g = quick_command_form(Some(&q));
    assert_eq!(values(&g), vec!["n", "c"]);
    assert_eq!(g.fields[1].label, "SSH Command");
    match quick_command_wizard_step(&mut g, ctrl('s')) {
        QuickCommandWizardOutcome::Saved(saved) => {
            assert_eq!(saved.name, "n");
            assert_eq!(saved.command, "c");
        }
        _ => panic!("Control-S should save the command"),
    }
}

#[test]
fn a_long_field_scrolls_to_keep_the_cursor_in_view() {
    let mut f = field("abcdefghijklmnopqrstuvwxyz0123456789", 36);
    f.adjust_scroll(27);
    assert_eq!(f.scroll_offset, 10);
    let shown: String = f.visible_chars(27).into_iter().collect();
    assert_eq!(shown, "klmnopqrstuvwxyz0123456789");
    assert_eq!(f.cursor_column(100), 126);
    f.cursor_pos = 3;
    f.adjust_scroll(27);
    assert_eq!(f.scroll_offset, 3);
    f.is_password = true;
    let shown: String = f.visible_chars(5).into_iter().collect();
    assert_eq!(shown, "\u{2022}\u{2022}\u{2022}\u{2022}");
    let mut empty = field("", 0);
    empty.scroll_offset = 2;
    empty.adjust_scroll(27);
    assert_eq!(empty.scroll_offset, 2);
    assert_eq!(empty.cursor_column(100), 98);
    assert_eq!(empty.cursor_column(1), 65535);
    let placeholder: String = field("", 0).placeholder_chars(27).into_iter().collect();
    assert_eq!(placeholder, " p");
    let mut long = field("", 0);
    long.placeholder = "e.g. /home/user/.ssh/id_rsa";
    let placeholder: String = long.placeholder_chars(26).into_iter().collect();
    assert_eq!(placeholder, " e.g. /home/user/.ssh/id_r");
}
