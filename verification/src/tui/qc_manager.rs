//! The quick-command manager: pick a server (unless one was named), then
//! list, add, edit or delete its quick commands, one mode at a time, or all
//! three from one list in Manage mode.

use vstd::prelude::*;
use crate::input::Key;
use crate::storage::{
    find_connection_index, has_nickname, is_first_match, server_not_found_message, QuickCommand,
    ServerConnection,
};
use crate::text::{concat3, push_str_chars, take_chars};

verus! {

/// What the manager was opened to do.
#[derive(Clone, Copy, Debug, PartialEq, Eq, Structural)]
pub enum QcMode {
    List,
    Add,
    Edit,
    Delete,
    /// Add, edit and delete from one list, with the keys `a`, `e` and `d`.
    Manage,
}

/// The number of rows the manager shows, of servers or of commands.
pub const QC_ROWS: usize = 5;

/// The manager's state between key presses.
pub struct QcManagerState {
    pub mode: QcMode,
    /// A server was named when the manager opened; leaving its commands
    /// closes the manager.
    pub is_fixed_server: bool,
    pub current_nickname: Option<String>,
    pub server_selected_idx: usize,
    pub server_scroll_offset: usize,
    pub qc_selected_idx: usize,
    /// The first command shown when there are more than `QC_ROWS`.
    pub qc_scroll_offset: usize,
    pub qc_confirm_delete: bool,
    pub status_msg: Option<String>,
}

/// What the program is asked to do after a key press in the manager.
#[derive(Clone, Copy, Debug, PartialEq, Eq, Structural)]
pub enum QcAction {
    /// Nothing beyond the new state.
    Stay,
    /// Close the manager.
    Exit,
    /// Delete the quick command at this index of the current server, then
    /// report with `finish_command_change`.
    DeleteCommand(usize),
    /// Run the quick-command wizard on the command at this index, then
    /// report with `finish_command_change`.
    EditCommand(usize),
    /// Run the quick-command wizard for a new command, then report with
    /// `finish_command_change`.
    AddCommand,
}

/// The manager's answer to `key` while it lists `m` quick commands: the
/// action, the new selection, the pending delete, whether the status line
/// is cleared and whether the manager goes back to the server list. A
/// pending delete is answered only in the modes that can ask for one
/// (Delete and Manage).
pub open spec fn command_key_result(
    s: QcManagerState,
    m: int,
    key: Key,
) -> (QcAction, int, bool, bool, bool) {
    let sel = s.qc_selected_idx as int;
    if s.qc_confirm_delete && m > 0 && (s.mode is Delete || s.mode is Manage) {
        match key {
            Key::Char('y') | Key::Char('Y') | Key::Enter => (
                QcAction::DeleteCommand(s.qc_selected_idx),
                0,
                false,
                false,
                false,
            ),
            _ => (QcAction::Stay, sel, false, false, false),
        }
    } else {
        match key {
            Key::Esc => if s.is_fixed_server {
                (QcAction::Exit, sel, s.qc_confirm_delete, true, false)
            } else {
                (QcAction::Stay, sel, s.qc_confirm_delete, true, true)
            },
            Key::Up => (
                QcAction::Stay,
                if m > 0 {
                    if sel == 0 {
                        m - 1
                    } else {
                        sel - 1
                    }
                } else {
                    sel
                },
                s.qc_confirm_delete,
                true,
                false,
            ),
            Key::Down => (
                QcAction::Stay,
                if m > 0 {
                    (sel + 1) % m
                } else {
                    sel
                },
                s.qc_confirm_delete,
                true,
                false,
            ),
            Key::Enter => if m > 0 && s.mode is Delete {
                (QcAction::Stay, sel, true, true, false)
            } else if m > 0 && (s.mode is Edit || s.mode is Manage) {
                (QcAction::EditCommand(s.qc_selected_idx), sel, s.qc_confirm_delete, true, false)
            } else {
                (QcAction::Stay, sel, s.qc_confirm_delete, true, false)
            },
            Key::Char('a') | Key::Char('A') => if s.mode is Manage {
                (QcAction::AddCommand, sel, s.qc_confirm_delete, true, false)
            } else {
                (QcAction::Stay, sel, s.qc_confirm_delete, true, false)
            },
            Key::Char('e') | Key::Char('E') => if m > 0 && s.mode is Manage {
                (QcAction::EditCommand(s.qc_selected_idx), sel, s.qc_confirm_delete, true, false)
            } else {
                (QcAction::Stay, sel, s.qc_confirm_delete, true, false)
            },
            Key::Char('d') | Key::Char('D') | Key::Delete => if m > 0 && s.mode is Manage {
                (QcAction::Stay, sel, true, true, false)
            } else {
                (QcAction::Stay, sel, s.qc_confirm_delete, true, false)
            },
            _ => (QcAction::Stay, sel, s.qc_confirm_delete, true, false),
        }
    }
}

/// A selection and its scroll position once fitted to `n` rows, `QC_ROWS`
/// of them shown.
pub open spec fn settled_servers(sel: int, scroll: int, n: int) -> (int, int) {
    if n == 0 {
        (sel, scroll)
    } else {
        let s = if sel >= n {
            n - 1
        } else {
            sel
        };
        (
            s,
            if s < scroll {
                s
            } else if s >= scroll + QC_ROWS {
                s - (QC_ROWS - 1)
            } else {
                scroll
            },
        )
    }
}

/// In List mode no delete is pending.
pub open spec fn list_mode_quiet(s: QcManagerState) -> bool {
    s.mode is List ==> !s.qc_confirm_delete
}

impl QcManagerState {
    /// The manager as it opens, on the server `nickname` if one is named.
    pub fn new(nickname: Option<String>, mode: QcMode) -> (s: Self)
        ensures
            list_mode_quiet(s),
            s.mode == mode,
            s.is_fixed_server == nickname is Some,
            s.current_nickname == nickname,
            s.server_selected_idx == 0,
            s.server_scroll_offset == 0,
            s.qc_selected_idx == 0,
            s.qc_scroll_offset == 0,
            !s.qc_confirm_delete,
            s.status_msg is None,
    {
        let is_fixed_server = nickname.is_some();
        QcManagerState {
            mode,
            is_fixed_server,
            current_nickname: nickname,
            server_selected_idx: 0,
            server_scroll_offset: 0,
            qc_selected_idx: 0,
            qc_scroll_offset: 0,
            qc_confirm_delete: false,
            status_msg: None,
        }
    }

    /// The index in `conns` of the server whose commands are shown, none
    /// while a server is to be picked; an error when the server named no
    /// longer exists.
    pub fn current_server(&self, conns: &Vec<ServerConnection>) -> (r: Result<Option<usize>, String>)
        ensures
            self.current_nickname is None ==> r == Ok::<Option<usize>, String>(None),
            self.current_nickname matches Some(name) ==> {
                &&& !has_nickname(conns@, name@) ==> (r matches Err(e) && e@
                    == server_not_found_message(name@))
                &&& has_nickname(conns@, name@) ==> (r matches Ok(Some(i)) && is_first_match(
                    conns@,
                    name@,
                    i as int,
                ))
            },
    {
        match &self.current_nickname {
            None => Ok(None),
            Some(name) => match find_connection_index(conns, name.as_str()) {
                Some(i) => Ok(Some(i)),
                None => Err(concat3("Server with nickname '", name.as_str(), "' not found.")),
            },
        }
    }

    /// Keeps the command selection within the `m` commands listed and its
    /// row among the `QC_ROWS` shown, as the manager does each time it draws
    /// a nonempty list. The list scrolls, as the key reference promises
    /// ("dynamic scrolling"), so that a selection past the fifth command
    /// stays in view.
    pub fn settle_commands(&mut self, m: usize)
        ensures
            list_mode_quiet(*old(self)) ==> list_mode_quiet(*final(self)),
            (final(self).qc_selected_idx as int, final(self).qc_scroll_offset as int)
                == settled_servers(
                old(self).qc_selected_idx as int,
                old(self).qc_scroll_offset as int,
                m as int,
            ),
            m > 0 ==> final(self).qc_selected_idx < m,
            m > 0 ==> final(self).qc_scroll_offset <= final(self).qc_selected_idx
                < final(self).qc_scroll_offset + QC_ROWS,
            final(self).mode == old(self).mode,
            final(self).is_fixed_server == old(self).is_fixed_server,
            final(self).current_nickname == old(self).current_nickname,
            final(self).server_selected_idx == old(self).server_selected_idx,
            final(self).server_scroll_offset == old(self).server_scroll_offset,
            final(self).qc_confirm_delete == old(self).qc_confirm_delete,
            final(self).status_msg == old(self).status_msg,
    {
        if m > 0 {
            if self.qc_selected_idx >= m {
                self.qc_selected_idx = m - 1;
            }
            if self.qc_selected_idx < self.qc_scroll_offset {
                self.qc_scroll_offset = self.qc_selected_idx;
            } else if self.qc_selected_idx - self.qc_scroll_offset >= QC_ROWS {
                self.qc_scroll_offset = self.qc_selected_idx - (QC_ROWS - 1);
            }
        }
    }

    /// Fits the server selection and its scroll position to `n` servers, as
    /// the manager does each time it draws the server list.
    pub fn settle_servers(&mut self, n: usize)
        ensures
            list_mode_quiet(*old(self)) ==> list_mode_quiet(*final(self)),
            (final(self).server_selected_idx as int, final(self).server_scroll_offset as int)
                == settled_servers(
                old(self).server_selected_idx as int,
                old(self).server_scroll_offset as int,
                n as int,
            ),
            n > 0 ==> final(self).server_selected_idx < n,
            n > 0 ==> final(self).server_scroll_offset <= final(self).server_selected_idx
                < final(self).server_scroll_offset + QC_ROWS,
            final(self).mode == old(self).mode,
            final(self).is_fixed_server == old(self).is_fixed_server,
            final(self).current_nickname == old(self).current_nickname,
            final(self).qc_selected_idx == old(self).qc_selected_idx,
            final(self).qc_scroll_offset == old(self).qc_scroll_offset,
            final(self).qc_confirm_delete == old(self).qc_confirm_delete,
            final(self).status_msg == old(self).status_msg,
    {
        if n > 0 {
            if self.server_selected_idx >= n {
                self.server_selected_idx = n - 1;
            }
            if self.server_selected_idx < self.server_scroll_offset {
                self.server_scroll_offset = self.server_selected_idx;
            } else if self.server_selected_idx - self.server_scroll_offset >= QC_ROWS {
                self.server_scroll_offset = self.server_selected_idx - (QC_ROWS - 1);
            }
        }
    }

    /// Reacts to a key press while the server list is shown; `true` when the
    /// manager closes. Enter opens the commands of the selected server.
    pub fn handle_server_key(&mut self, conns: &Vec<ServerConnection>, key: Key) -> (closed: bool)
        requires
            conns.len() > 0 ==> old(self).server_selected_idx < conns.len(),
        ensures
            list_mode_quiet(*old(self)) ==> list_mode_quiet(*final(self)),
            closed == (key is Esc || key == Key::Char('q')),
            ({
                let n = conns.len() as int;
                let sel = old(self).server_selected_idx as int;
                &&& final(self).server_selected_idx == match key {
                    Key::Up => if n > 0 {
                        if sel == 0 {
                            n - 1
                        } else {
                            sel - 1
                        }
                    } else {
                        sel
                    },
                    Key::Down => if n > 0 {
                        (sel + 1) % n
                    } else {
                        sel
                    },
                    _ => sel,
                }
                &&& key is Enter && n > 0 ==> {
                    &&& final(self).current_nickname matches Some(name) && name
                        == conns@[sel].nickname
                    &&& final(self).qc_selected_idx == 0
                }
                &&& !(key is Enter && n > 0) ==> {
                    &&& final(self).current_nickname == old(self).current_nickname
                    &&& final(self).qc_selected_idx == old(self).qc_selected_idx
                }
            }),
            conns.len() > 0 ==> final(self).server_selected_idx < conns.len(),
            final(self).mode == old(self).mode,
            final(self).is_fixed_server == old(self).is_fixed_server,
            final(self).server_scroll_offset == old(self).server_scroll_offset,
            final(self).qc_scroll_offset == old(self).qc_scroll_offset,
            final(self).qc_confirm_delete == old(self).qc_confirm_delete,
            final(self).status_msg == old(self).status_msg,
    {
        let n = conns.len();
        let sel = self.server_selected_idx;
        match key {
            Key::Esc | Key::Char('q') => true,
            Key::Up => {
                if n > 0 {
                    self.server_selected_idx = if sel == 0 {
                        n - 1
                    } else {
                        sel - 1
                    };
                }
                false
            },
            Key::Down => {
                if n > 0 {
                    self.server_selected_idx = (sel + 1) % n;
                }
                false
            },
            Key::Enter => {
                if n > 0 {
                    self.current_nickname = Some(conns[sel].nickname.clone());
                    self.qc_selected_idx = 0;
                }
                false
            },
            _ => false,
        }
    }

    /// Reacts to a key press while the commands of a server are listed, `m`
    /// of them.
    pub fn handle_command_key(&mut self, m: usize, key: Key) -> (r: QcAction)
        requires
            m > 0 ==> old(self).qc_selected_idx < m,
        ensures
            list_mode_quiet(*old(self)) ==> list_mode_quiet(*final(self)),
            ({
                let (action, sel, confirm, clear, back) = command_key_result(*old(self), m as int, key);
                &&& r == action
                &&& final(self).qc_selected_idx == sel
                &&& final(self).qc_confirm_delete == confirm
                &&& final(self).status_msg == if clear {
                    None
                } else {
                    old(self).status_msg
                }
                &&& final(self).current_nickname == if back {
                    None
                } else {
                    old(self).current_nickname
                }
            }),
            m > 0 ==> final(self).qc_selected_idx < m,
            r matches QcAction::DeleteCommand(i) ==> i < m,
            r matches QcAction::EditCommand(i) ==> i < m,
            final(self).mode == old(self).mode,
            final(self).is_fixed_server == old(self).is_fixed_server,
            final(self).server_selected_idx == old(self).server_selected_idx,
            final(self).server_scroll_offset == old(self).server_scroll_offset,
            final(self).qc_scroll_offset == old(self).qc_scroll_offset,
    {
        let sel = self.qc_selected_idx;
        let can_delete = match self.mode {
            QcMode::Delete | QcMode::Manage => true,
            _ => false,
        };
        if self.qc_confirm_delete && m > 0 && can_delete {
            match key {
                Key::Char('y') | Key::Char('Y') | Key::Enter => {
                    self.qc_confirm_delete = false;
                    self.qc_selected_idx = 0;
                    return QcAction::DeleteCommand(sel);
                },
                _ => {
                    self.qc_confirm_delete = false;
                    return QcAction::Stay;
                },
            }
        }
        self.status_msg = None;
        match key {
            Key::Esc => {
                if self.is_fixed_server {
                    QcAction::Exit
                } else {
                    self.current_nickname = None;
                    QcAction::Stay
                }
            },
            Key::Up => {
                if m > 0 {
                    self.qc_selected_idx = if sel == 0 {
                        m - 1
                    } else {
                        sel - 1
                    };
                }
                QcAction::Stay
            },
            Key::Down => {
                if m > 0 {
                    self.qc_selected_idx = (sel + 1) % m;
                }
                QcAction::Stay
            },
            Key::Enter => {
                if m > 0 {
                    match self.mode {
                        QcMode::Delete => {
                            self.qc_confirm_delete = true;
                            QcAction::Stay
                        },
                        QcMode::Edit | QcMode::Manage => QcAction::EditCommand(sel),
                        _ => QcAction::Stay,
                    }
                } else {
                    QcAction::Stay
                }
            },
            Key::Char('a') | Key::Char('A') => {
                if let QcMode::Manage = self.mode {
                    QcAction::AddCommand
                } else {
                    QcAction::Stay
                }
            },
            Key::Char('e') | Key::Char('E') => {
                if let QcMode::Manage = self.mode {
                    if m > 0 {
                        return QcAction::EditCommand(sel);
                    }
                }
                QcAction::Stay
            },
            Key::Char('d') | Key::Char('D') | Key::Delete => {
                if let QcMode::Manage = self.mode {
                    if m > 0 {
                        self.qc_confirm_delete = true;
                    }
                }
                QcAction::Stay
            },
            _ => QcAction::Stay,
        }
    }

    /// Shows how a change to the commands went: `verb` names it ("Add",
    /// "Edit", "Delete"), `done` is the message of success.
    pub fn finish_command_change(&mut self, verb: &str, done: &str, outcome: Result<(), String>)
        ensures
            list_mode_quiet(*old(self)) ==> list_mode_quiet(*final(self)),
            final(self).status_msg matches Some(m) && m@ == match outcome {
                Ok(_) => done@,
                Err(e) => verb@ + " failed: "@ + e@,
            },
            final(self).mode == old(self).mode,
            final(self).is_fixed_server == old(self).is_fixed_server,
            final(self).current_nickname == old(self).current_nickname,
            final(self).server_selected_idx == old(self).server_selected_idx,
            final(self).server_scroll_offset == old(self).server_scroll_offset,
            final(self).qc_selected_idx == old(self).qc_selected_idx,
            final(self).qc_scroll_offset == old(self).qc_scroll_offset,
            final(self).qc_confirm_delete == old(self).qc_confirm_delete,
    {
        let msg = match outcome {
            Ok(_) => String::from_str(done),
            Err(e) => concat3(verb, " failed: ", e.as_str()),
        };
        self.status_msg = Some(msg);
    }

    /// After the add wizard of Add mode: `true` when the manager closes (a
    /// server was named when it opened); otherwise it goes back to the
    /// server list.
    pub fn after_add(&mut self) -> (closed: bool)
        ensures
            list_mode_quiet(*old(self)) ==> list_mode_quiet(*final(self)),
            closed == old(self).is_fixed_server,
            !closed ==> final(self).current_nickname is None,
            closed ==> final(self).current_nickname == old(self).current_nickname,
            final(self).mode == old(self).mode,
            final(self).is_fixed_server == old(self).is_fixed_server,
            final(self).server_selected_idx == old(self).server_selected_idx,
            final(self).server_scroll_offset == old(self).server_scroll_offset,
            final(self).qc_selected_idx == old(self).qc_selected_idx,
            final(self).qc_scroll_offset == old(self).qc_scroll_offset,
            final(self).qc_confirm_delete == old(self).qc_confirm_delete,
            final(self).status_msg == old(self).status_msg,
    {
        if self.is_fixed_server {
            true
        } else {
            self.current_nickname = None;
            false
        }
    }
}

/// The width of a row of the manager.
pub const QC_ROW_WIDTH: usize = 52;

/// The title of the manager's box while it shows the commands of
/// `nickname`.
pub open spec fn manager_title_spec(mode: QcMode, nickname: Seq<char>) -> Seq<char> {
    match mode {
        QcMode::List => " QUICK COMMANDS: "@ + nickname + " "@,
        QcMode::Delete => " DELETE QC: "@ + nickname + " "@,
        QcMode::Edit => " EDIT QC: "@ + nickname + " "@,
        QcMode::Add => " ADD QC: "@ + nickname + " "@,
        QcMode::Manage => " MANAGE QC: "@ + nickname + " "@,
    }
}

/// The title of the manager's box while it shows the commands of
/// `nickname`.
pub fn manager_title(mode: QcMode, nickname: &str) -> (r: String)
    ensures
        r@ == manager_title_spec(mode, nickname@),
{
    match mode {
        QcMode::List => concat3(" QUICK COMMANDS: ", nickname, " "),
        QcMode::Delete => concat3(" DELETE QC: ", nickname, " "),
        QcMode::Edit => concat3(" EDIT QC: ", nickname, " "),
        QcMode::Add => concat3(" ADD QC: ", nickname, " "),
        QcMode::Manage => concat3(" MANAGE QC: ", nickname, " "),
    }
}

/// The help line under the commands of a server.
pub fn help_line(mode: QcMode) -> (r: &'static str)
    ensures
        r@ == match mode {
            QcMode::List => "Navigate: [Up/Down] arrows  |  [Esc] Back"@,
            QcMode::Delete => "Select command to Delete: [Enter]  |  [Esc] Back"@,
            QcMode::Edit => "Select command to Edit: [Enter]  |  [Esc] Back"@,
            QcMode::Add => ""@,
            QcMode::Manage => "[a] Add  |  [e] Edit  |  [d] Delete  |  [Esc] Back"@,
        },
{
    match mode {
        QcMode::List => "Navigate: [Up/Down] arrows  |  [Esc] Back",
        QcMode::Delete => "Select command to Delete: [Enter]  |  [Esc] Back",
        QcMode::Edit => "Select command to Edit: [Enter]  |  [Esc] Back",
        QcMode::Add => "",
        QcMode::Manage => "[a] Add  |  [e] Edit  |  [d] Delete  |  [Esc] Back",
    }
}

/// `s` cut to `max` characters.
pub open spec fn cut(s: Seq<char>, max: int) -> Seq<char> {
    if s.len() <= max {
        s
    } else {
        s.take(max)
    }
}

/// The row of a server in the manager's server list: its nickname, then its
/// group in brackets when it has one.
pub fn server_row(c: &ServerConnection) -> (r: Vec<char>)
    ensures
        r@ == cut(
            c.nickname@ + match c.group {
                Some(g) => " ["@ + g@ + "]"@,
                None => ""@,
            },
            QC_ROW_WIDTH as int,
        ),
{
    let mut v: Vec<char> = Vec::new();
    push_str_chars(&mut v, c.nickname.as_str());
    match &c.group {
        Some(g) => {
            push_str_chars(&mut v, " [");
            push_str_chars(&mut v, g.as_str());
            push_str_chars(&mut v, "]");
        },
        None => {
            push_str_chars(&mut v, "");
        },
    }
    assert(v@ =~= Seq::<char>::empty() + c.nickname@ + match c.group {
        Some(g) => " ["@ + g@ + "]"@,
        None => ""@,
    });
    take_chars(&mut v, QC_ROW_WIDTH);
    v
}

/// The row of a quick command: its name, a colon, and the command.
pub fn command_row(q: &QuickCommand) -> (r: Vec<char>)
    ensures
        r@ == cut(q.name@ + ": "@ + q.command@, QC_ROW_WIDTH as int),
{
    let mut v: Vec<char> = Vec::new();
    push_str_chars(&mut v, q.name.as_str());
    push_str_chars(&mut v, ": ");
    push_str_chars(&mut v, q.command.as_str());
    assert(v@ =~= q.name@ + ": "@ + q.command@);
    take_chars(&mut v, QC_ROW_WIDTH);
    v
}

/// The actions that ask the program to change the quick commands in the
/// store.
pub open spec fn writes(a: QcAction) -> bool {
    a is DeleteCommand || a is EditCommand || a is AddCommand
}

/// In List mode the manager never asks to change the store: whatever its
/// state, no key asks for a delete, an edit or an add, and no key arms a
/// delete.
pub proof fn law_list_mode_never_writes(s: QcManagerState, m: int, key: Key)
    requires
        s.mode is List,
    ensures
        !writes(command_key_result(s, m, key).0),
        !s.qc_confirm_delete ==> !command_key_result(s, m, key).2,
{
}

} // verus!
