use termos::input::Key;
use termos::storage::{QuickCommand, ServerConnection};
use termos::tui::common::{
    box_layout, box_size, centered_in, centered_in_or_left, centered_start, database_error_message,
    screen_fits, Screen,
};
use termos::tui::list::{connection_row, scroll_marks, visible_rows, ListAction, ListState, Overlay};
use termos::tui::qc_manager::{
    command_row, help_line, manager_title, server_row, QcAction, QcManagerState, QcMode,
};
use termos::tui::usage::UsageState;

fn conn(nick: &str) -> ServerConnection {
    ServerConnection {
        nickname: nick.to_string(),
        host: "192.168.1.15".to_string(),
        port: 22,
        username: "root".to_string(),
        password: None,
        ssh_key: None,
        group: None,
        quick_commands: None,
    }
}

fn servers(n: usize) -> Vec<ServerConnection> {
    (0..n).map(|i| conn(&format!("s{}", i))).collect()
}

#[test]
fn the_dashboard_keeps_the_selection_in_view() {
    let mut s = ListState::new();
    s.selected_idx = 12;
    s.settle(&servers(20));
    assert_eq!((s.selected_idx, s.scroll_offset), (12, 5));
    s.selected_idx = 2;
    s.settle(&servers(20));
    assert_eq!((s.selected_idx, s.scroll_offset), (2, 2));
    s.selected_idx = 30;
    s.settle(&servers(4));
    assert_eq!((s.selected_idx, s.scroll_offset), (3, 2));
    let mut e = ListState::new();
    e.settle(&Vec::new());
    assert_eq!((e.selected_idx, e.scroll_offset), (0, 0));
}

#[test]
fn dashboard_keys_navigate_connect_and_exit() {
    let conns = servers(3);
    let mut s = ListState::new();
    assert_eq!(s.handle_key(&conns, Key::Up), ListAction::Stay);
    assert_eq!(s.selected_idx, 2);
    assert_eq!(s.handle_key(&conns, Key::Down), ListAction::Stay);
    assert_eq!(s.selected_idx, 0);
    s.handle_key(&conns, Key::Down);
    assert_eq!(s.handle_key(&conns, Key::Enter), ListAction::Connect(1));
    let mut e = ListState::new();
    assert_eq!(e.handle_key(&Vec::new(), Key::Enter), ListAction::Stay);
    assert_eq!(s.handle_key(&conns, Key::Char('a')), ListAction::AddServer);
    assert_eq!(s.handle_key(&conns, Key::Char('q')), ListAction::Exit);
    assert_eq!(s.handle_key(&conns, Key::Esc), ListAction::Exit);
    assert_eq!(s.handle_key(&conns, Key::Char('z')), ListAction::Stay);
}

#[test]
fn deleting_from_the_dashboard_asks_first() {
    let conns = servers(2);
    let mut s = ListState::new();
    s.status_msg = Some("old".to_string());
    s.handle_key(&conns, Key::Char('d'));
    assert!(s.confirm_delete);
    assert!(s.status_msg.is_none());
    assert_eq!(s.handle_key(&conns, Key::Char('x')), ListAction::Stay);
    assert!(s.confirm_delete);
    assert_eq!(s.handle_key(&conns, Key::Char('n')), ListAction::Stay);
    assert!(!s.confirm_delete);
    s.handle_key(&conns, Key::Delete);
    assert_eq!(s.handle_key(&conns, Key::Char('Y')), ListAction::Delete(0));
    assert!(!s.confirm_delete);
    s.finish_delete("web", Ok(true));
    assert_eq!(s.status_msg.as_deref(), Some("\u{2714} Connection 'web' deleted."));
    s.finish_delete("web", Err("disk full".to_string()));
    assert_eq!(s.status_msg.as_deref(), Some("Error: disk full"));
    s.finish_add("db", Ok(()));
    assert_eq!(s.status_msg.as_deref(), Some("\u{2714} Server 'db' saved!"));
    s.finish_add("db", Err("dup".to_string()));
    assert_eq!(s.status_msg.as_deref(), Some("Save failed: dup"));
    s.finish_edit("db", Ok(()));
    assert_eq!(s.status_msg.as_deref(), Some("\u{2714} Server 'db' updated!"));
    let mut e = ListState::new();
    e.handle_key(&Vec::new(), Key::Char('d'));
    assert!(!e.confirm_delete);
}

fn grouped() -> Vec<ServerConnection> {
    let mut a = conn("web-1");
    a.group = Some("prod".to_string());
    let mut b = conn("db-1");
    b.group = Some("dev".to_string());
    b.host = "10.9.9.9".to_string();
    let mut c = conn("web-2");
    c.group = Some("prod".to_string());
    vec![a, b, c, conn("lone")]
}

#[test]
fn g_and_slash_open_the_group_popover_and_a_group_filters_the_list() {
    let conns = grouped();
    assert_eq!(termos::tui::filter::unique_groups(&conns), vec!["prod".to_string(), "dev".to_string()]);
    for key in [Key::Char('g'), Key::Char('/')] {
        let mut s = ListState::new();
        s.settle(&conns);
        assert_eq!(s.handle_key(&conns, key), ListAction::Stay);
        assert_eq!(s.overlay, Overlay::Groups(0));
    }
    let mut s = ListState::new();
    s.handle_key(&conns, Key::Char('g'));
    s.handle_key(&conns, Key::Down);
    s.handle_key(&conns, Key::Down);
    assert_eq!(s.overlay, Overlay::Groups(2));
    s.handle_key(&conns, Key::Enter);
    assert_eq!(s.overlay, Overlay::Closed);
    assert_eq!(s.group_filter.as_deref(), Some("dev"));
    s.settle(&conns);
    assert_eq!(termos::tui::filter::visible_indices(&conns, &s.group_filter, &s.query), vec![1]);
    assert_eq!(s.handle_key(&conns, Key::Enter), ListAction::Connect(1));
    s.handle_key(&conns, Key::Char('/'));
    s.handle_key(&conns, Key::Up);
    s.handle_key(&conns, Key::Up);
    s.handle_key(&conns, Key::Up);
    assert_eq!(s.overlay, Overlay::Groups(0));
    s.handle_key(&conns, Key::Enter);
    assert!(s.group_filter.is_none());
    assert_eq!(termos::tui::filter::visible_indices(&conns, &s.group_filter, &s.query), vec![0, 1, 2, 3]);
}

#[test]
fn typing_in_the_popover_searches_and_escape_clears_it() {
    let conns = grouped();
    let mut s = ListState::new();
    s.handle_key(&conns, Key::Char('g'));
    for c in "WEB".chars() {
        s.handle_key(&conns, Key::Char(c));
    }
    assert_eq!(termos::tui::filter::visible_indices(&conns, &s.group_filter, &s.query), vec![0, 2]);
    s.handle_key(&conns, Key::Backspace);
    s.handle_key(&conns, Key::Backspace);
    s.handle_key(&conns, Key::Backspace);
    for c in "9.9".chars() {
        s.handle_key(&conns, Key::Char(c));
    }
    assert_eq!(termos::tui::filter::visible_indices(&conns, &s.group_filter, &s.query), vec![1]);
    s.handle_key(&conns, Key::Esc);
    assert!(s.query.is_empty());
    assert_eq!(s.overlay, Overlay::Groups(0));
    s.handle_key(&conns, Key::Esc);
    assert_eq!(s.overlay, Overlay::Closed);
    s.query = vec!['d', 'e', 'v'];
    s.settle(&conns);
    assert_eq!(termos::tui::filter::visible_indices(&conns, &s.group_filter, &s.query), vec![1]);
    assert_eq!(s.handle_key(&conns, Key::Esc), ListAction::Stay);
    assert!(s.query.is_empty());
    assert_eq!(s.handle_key(&conns, Key::Esc), ListAction::Exit);
}

#[test]
fn e_opens_the_manage_menu_and_c_the_quick_commands() {
    let mut conns = grouped();
    conns[2].quick_commands = Some(vec![
        QuickCommand { name: "disk".to_string(), command: "df -h".to_string() },
        QuickCommand { name: "up".to_string(), command: "uptime".to_string() },
    ]);
    let mut s = ListState::new();
    s.selected_idx = 2;
    s.settle(&conns);
    s.handle_key(&conns, Key::Char('e'));
    assert_eq!(s.overlay, Overlay::Manage(0));
    assert_eq!(s.handle_key(&conns, Key::Enter), ListAction::EditServer(2));
    s.handle_key(&conns, Key::Char('e'));
    s.handle_key(&conns, Key::Down);
    assert_eq!(s.handle_key(&conns, Key::Enter), ListAction::ManageQuickCommands(2));
    s.handle_key(&conns, Key::Char('e'));
    assert_eq!(s.handle_key(&conns, Key::Char('2')), ListAction::ManageQuickCommands(2));
    s.handle_key(&conns, Key::Char('e'));
    assert_eq!(s.handle_key(&conns, Key::Esc), ListAction::Stay);
    assert_eq!(s.overlay, Overlay::Closed);
    s.handle_key(&conns, Key::Char('c'));
    assert_eq!(s.overlay, Overlay::QuickCommands(0));
    s.handle_key(&conns, Key::Up);
    assert_eq!(s.handle_key(&conns, Key::Enter), ListAction::RunQuickCommand(2, 1));
    s.selected_idx = 0;
    s.handle_key(&conns, Key::Char('c'));
    assert_eq!(s.handle_key(&conns, Key::Enter), ListAction::Stay);
    let mut e = ListState::new();
    e.handle_key(&Vec::new(), Key::Char('e'));
    assert_eq!(e.overlay, Overlay::Closed);
}

#[test]
fn dashboard_rows_show_login_and_key_and_are_cut() {
    let mut c = conn("web");
    let row: String = connection_row(&c).into_iter().collect();
    assert_eq!(row, format!("{:<16} ({}){}", "web", "root@192.168.1.15:22", ""));
    c.ssh_key = Some("/k".to_string());
    let row: String = connection_row(&c).into_iter().collect();
    assert_eq!(row, "web              (root@192.168.1.15:22) [Key]");
    c.host = "a-very-long-host-name.example.internal.corp".to_string();
    let row: String = connection_row(&c).into_iter().collect();
    assert_eq!(row.chars().count(), 58);
    assert_eq!(visible_rows(0, 3), (0, 3));
    assert_eq!(visible_rows(2, 20), (2, 10));
    assert_eq!(scroll_marks(0, 9), (false, true));
    assert_eq!(scroll_marks(1, 9), (true, false));
}

#[test]
fn the_manual_turns_pages_round() {
    let mut u = UsageState::new();
    assert!(!u.handle_key(Key::Left));
    assert_eq!(u.current_page, 2);
    assert!(!u.handle_key(Key::Tab));
    assert_eq!(u.current_page, 0);
    assert!(!u.handle_key(Key::Right));
    assert!(!u.handle_key(Key::Down));
    assert!(!u.handle_key(Key::Down));
    assert_eq!(u.current_page, 0);
    assert!(!u.handle_key(Key::Char('x')));
    assert!(u.handle_key(Key::Char('Q')));
    assert!(UsageState::closes_when_too_small(Key::Char('q')));
    assert!(!UsageState::closes_when_too_small(Key::Char('Q')));
}

#[test]
fn the_manager_finds_its_server() {
    let conns = vec![conn("web"), conn("DB")];
    let s = QcManagerState::new(Some("db".to_string()), QcMode::List);
    assert!(s.is_fixed_server);
    assert_eq!(s.current_server(&conns), Ok(Some(1)));
    let t = QcManagerState::new(Some("x".to_string()), QcMode::List);
    assert_eq!(t.current_server(&conns), Err("Server with nickname 'x' not found.".to_string()));
    let u = QcManagerState::new(None, QcMode::Edit);
    assert_eq!(u.current_server(&conns), Ok(None));
}

#[test]
fn the_manager_picks_a_server_then_its_commands() {
    let conns = servers(7);
    let mut s = QcManagerState::new(None, QcMode::Delete);
    assert!(!s.handle_server_key(&conns, Key::Up));
    assert_eq!(s.server_selected_idx, 6);
    s.settle_servers(conns.len());
    assert_eq!(s.server_scroll_offset, 2);
    s.qc_selected_idx = 3;
    assert!(!s.handle_server_key(&conns, Key::Enter));
    assert_eq!(s.current_nickname.as_deref(), Some("s6"));
    assert_eq!(s.qc_selected_idx, 0);
    assert_eq!(s.handle_command_key(2, Key::Enter), QcAction::Stay);
    assert!(s.qc_confirm_delete);
    assert_eq!(s.handle_command_key(2, Key::Char('y')), QcAction::DeleteCommand(0));
    s.finish_command_change("Delete", "\u{2714} Command deleted.", Ok(()));
    assert_eq!(s.status_msg.as_deref(), Some("\u{2714} Command deleted."));
    assert_eq!(s.handle_command_key(2, Key::Down), QcAction::Stay);
    assert_eq!(s.qc_selected_idx, 1);
    assert!(s.status_msg.is_none());
    assert_eq!(s.handle_command_key(2, Key::Esc), QcAction::Stay);
    assert!(s.current_nickname.is_none());
    assert!(s.handle_server_key(&conns, Key::Char('q')));
}

#[test]
fn a_named_server_closes_the_manager_on_escape_and_after_add() {
    let mut s = QcManagerState::new(Some("web".to_string()), QcMode::Edit);
    s.qc_selected_idx = 5;
    s.settle_commands(3);
    assert_eq!(s.qc_selected_idx, 2);
    assert_eq!(s.handle_command_key(3, Key::Enter), QcAction::EditCommand(2));
    s.finish_command_change("Edit", "\u{2714} Command updated.", Err("boom".to_string()));
    assert_eq!(s.status_msg.as_deref(), Some("Edit failed: boom"));
    assert_eq!(s.handle_command_key(3, Key::Esc), QcAction::Exit);
    assert!(s.after_add());
    let mut t = QcManagerState::new(None, QcMode::Add);
    t.current_nickname = Some("web".to_string());
    assert!(!t.after_add());
    assert!(t.current_nickname.is_none());
}

#[test]
fn manager_texts() {
    assert_eq!(manager_title(QcMode::List, "web"), " QUICK COMMANDS: web ");
    assert_eq!(manager_title(QcMode::Delete, "web"), " DELETE QC: web ");
    assert_eq!(help_line(QcMode::Edit), "Select command to Edit: [Enter]  |  [Esc] Back");
    let mut c = conn("web");
    let row: String = server_row(&c).into_iter().collect();
    assert_eq!(row, "web");
    c.group = Some("prod".to_string());
    let row: String = server_row(&c).into_iter().collect();
    assert_eq!(row, "web [prod]");
    let q = QuickCommand { name: "disk".to_string(), command: "x".repeat(80) };
    let row: String = command_row(&q).into_iter().collect();
    assert_eq!(row.chars().count(), 52);
    assert!(row.starts_with("disk: xxx"));
}

#[test]
fn layout_arithmetic() {
    assert!(screen_fits(Screen::Dashboard, 76, 18));
    assert!(!screen_fits(Screen::Dashboard, 75, 18));
    assert!(!screen_fits(Screen::Dashboard, 76, 17));
    assert!(screen_fits(Screen::QuickCommandManager, 60, 14));
    assert!(!screen_fits(Screen::QuickCommandManager, 59, 14));
    assert!(screen_fits(Screen::ServerWizard, 68, 22));
    assert!(!screen_fits(Screen::ServerWizard, 67, 22));
    assert!(screen_fits(Screen::QuickCommandWizard, 56, 12));
    assert!(!screen_fits(Screen::Manual, 78, 21));
    assert_eq!(box_size(Screen::Dashboard), (66, 18));
    assert_eq!(box_size(Screen::QuickCommandManager), (60, 14));
    assert_eq!(centered_start(80, 66), 7);
    assert_eq!(centered_start(10, 66), 0);
    assert_eq!(centered_in(7, 66, 26), 27);
    assert_eq!(centered_in_or_left(7, 54, 60), 7);
    let b = box_layout(2, 66, 20, 21);
    assert_eq!((b.left_border, b.right_border, b.inner_width), (21, 22, 64));
    assert_eq!((b.divider_row, b.bottom_row), (17, 21));
    assert_eq!(database_error_message("bad json"), "Database error: bad json");
}

#[test]
fn the_manager_scrolls_its_commands_and_manage_mode_edits() {
    let mut s = QcManagerState::new(Some("web".to_string()), QcMode::Manage);
    s.qc_selected_idx = 7;
    s.settle_commands(9);
    assert_eq!((s.qc_selected_idx, s.qc_scroll_offset), (7, 3));
    s.qc_selected_idx = 1;
    s.settle_commands(9);
    assert_eq!((s.qc_selected_idx, s.qc_scroll_offset), (1, 1));
    assert_eq!(s.handle_command_key(9, Key::Char('a')), QcAction::AddCommand);
    assert_eq!(s.handle_command_key(9, Key::Char('e')), QcAction::EditCommand(1));
    assert_eq!(s.handle_command_key(9, Key::Enter), QcAction::EditCommand(1));
    assert_eq!(s.handle_command_key(9, Key::Char('d')), QcAction::Stay);
    assert!(s.qc_confirm_delete);
    assert_eq!(s.handle_command_key(9, Key::Enter), QcAction::DeleteCommand(1));
    assert_eq!(manager_title(QcMode::Manage, "web"), " MANAGE QC: web ");
    assert_eq!(help_line(QcMode::Manage), "[a] Add  |  [e] Edit  |  [d] Delete  |  [Esc] Back");
}

#[test]
fn list_mode_never_asks_to_change_the_store() {
    let conns = servers(3);
    let mut s = QcManagerState::new(None, QcMode::List);
    let keys = [Key::Enter, Key::Char('a'), Key::Char('e'), Key::Char('d'), Key::Delete, Key::Char('y'), Key::Down, Key::Up, Key::Esc];
    s.handle_server_key(&conns, Key::Enter);
    for k in keys {
        let a = s.handle_command_key(4, k);
        assert!(matches!(a, QcAction::Stay | QcAction::Exit));
        assert!(!s.qc_confirm_delete);
    }
}
