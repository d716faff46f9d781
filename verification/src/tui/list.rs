//! The connections dashboard: a scrolling list of the saved servers, eight
//! rows at a time, with connect, add, edit and delete, a popover to choose a
//! group and type a search, a menu to edit a server or manage its quick
//! commands, and a popover to run one of its quick commands.

use vstd::prelude::*;
use crate::input::Key;
use crate::storage::{quick_commands_of, ServerConnection};
use crate::text::{
    concat3, decimal, decimal_u16, pad_right, pad_right_chars, push_all, push_str_chars, take_chars,
};
use crate::tui::filter::{
    groups_spec, law_shown_are_the_matching, lemma_visible_in_range, opt_text, shows, texts,
    unique_groups, visible_indices, visible_spec,
};

verus! {

/// The number of rows the dashboard shows at once.
pub const LIST_ROWS: usize = 8;

/// What is open over the list, with the entry selected in it.
#[derive(Clone, Copy, Debug, PartialEq, Eq, Structural)]
pub enum Overlay {
    Closed,
    /// The group popover, opened with `g` or `/` as the key table and the
    /// manual give it: entry 0 is "[All]", entry `k` the `k`-th group. The
    /// search bar sits in it: typing edits the search text, which filters
    /// the list as it is typed, while Up and Down move among the popover's
    /// entries (not among the servers) until it is closed.
    Groups(usize),
    /// The manage menu: entry 0 edits the server, entry 1 manages its quick
    /// commands.
    Manage(usize),
    /// The quick commands of the selected server, to run one.
    QuickCommands(usize),
}

/// The dashboard's selection (among the servers shown), scroll position,
/// pending delete, status line, group filter, search text and popover.
pub struct ListState {
    pub selected_idx: usize,
    pub scroll_offset: usize,
    pub confirm_delete: bool,
    pub status_msg: Option<String>,
    pub group_filter: Option<String>,
    pub query: Vec<char>,
    pub overlay: Overlay,
}

/// The dashboard's state by view.
pub struct ListModel {
    pub sel: int,
    pub scroll: int,
    pub confirm: bool,
    pub status: Option<Seq<char>>,
    pub group: Option<Seq<char>>,
    pub query: Seq<char>,
    pub overlay: Overlay,
}

/// What the program is asked to do after a key press on the dashboard; the
/// indices are positions in the full list of servers.
#[derive(Clone, Copy, Debug, PartialEq, Eq, Structural)]
pub enum ListAction {
    /// Nothing beyond the new state.
    Stay,
    /// Leave the dashboard.
    Exit,
    /// Leave the dashboard and connect to the server at this index.
    Connect(usize),
    /// Delete the server at this index, then report with `finish_delete`.
    Delete(usize),
    /// Run the server wizard, then report with `finish_add`.
    AddServer,
    /// Run the server wizard on the server at this index, then report with
    /// `finish_edit`.
    EditServer(usize),
    /// Open the quick-command manager on the server at this index.
    ManageQuickCommands(usize),
    /// Run the quick command at the second index of the server at the
    /// first.
    RunQuickCommand(usize, usize),
}

/// The selection once clamped to a list of `n` servers.
pub open spec fn clamped_selection(sel: int, n: int) -> int {
    if n > 0 && sel >= n {
        n - 1
    } else {
        sel
    }
}

/// The scroll offset that keeps the selection `sel` among the `rows` rows
/// shown, moving as little as it can.
pub open spec fn scroll_to_show(sel: int, scroll: int, n: int, rows: int) -> int {
    if sel < scroll {
        sel
    } else if n > 0 && sel >= scroll + rows {
        sel - (rows - 1)
    } else {
        scroll
    }
}

/// The number of quick commands of the server selected among those shown.
pub open spec fn selected_quick_count(
    conns: Seq<ServerConnection>,
    vis: Seq<usize>,
    sel: int,
) -> int {
    if 0 <= sel < vis.len() && vis[sel] < conns.len() {
        quick_commands_of(conns[vis[sel] as int]).len() as int
    } else {
        0
    }
}

/// `m` with the selection and scroll back at the top.
pub open spec fn from_top(m: ListModel) -> ListModel {
    ListModel { sel: 0, scroll: 0, ..m }
}

/// `m` with the popover closed.
pub open spec fn closed(m: ListModel) -> ListModel {
    ListModel { overlay: Overlay::Closed, ..m }
}

/// The dashboard's answer to `key`: the action and the new state, with
/// `vis` the servers shown, `groups` the groups to choose from and `qcount`
/// the number of quick commands of the selected server.
pub open spec fn list_key(
    m: ListModel,
    vis: Seq<usize>,
    groups: Seq<Seq<char>>,
    qcount: int,
    key: Key,
) -> (ListAction, ListModel) {
    let n = vis.len() as int;
    let sel = m.sel;
    if m.confirm && n > 0 {
        match key {
            Key::Char('y') | Key::Char('Y') | Key::Enter => (
                ListAction::Delete(vis[sel]),
                ListModel { confirm: false, ..m },
            ),
            Key::Char('n') | Key::Char('N') | Key::Esc => (
                ListAction::Stay,
                ListModel { confirm: false, ..m },
            ),
            _ => (ListAction::Stay, m),
        }
    } else {
        let m0 = ListModel { status: None, ..m };
        match m.overlay {
            Overlay::Groups(k) => {
                match key {
                    Key::Up => (
                        ListAction::Stay,
                        ListModel {
                            overlay: Overlay::Groups(
                                if k == 0 {
                                    groups.len() as usize
                                } else {
                                    (k - 1) as usize
                                },
                            ),
                            ..m0
                        },
                    ),
                    Key::Down => (
                        ListAction::Stay,
                        ListModel {
                            overlay: Overlay::Groups(
                                if k >= groups.len() {
                                    0
                                } else {
                                    (k + 1) as usize
                                },
                            ),
                            ..m0
                        },
                    ),
                    Key::Enter => (
                        ListAction::Stay,
                        from_top(
                            closed(
                                ListModel {
                                    group: if k == 0 {
                                        None
                                    } else {
                                        Some(groups[k - 1])
                                    },
                                    ..m0
                                },
                            ),
                        ),
                    ),
                    Key::Esc => if m.query.len() > 0 {
                        (ListAction::Stay, from_top(ListModel { query: Seq::empty(), ..m0 }))
                    } else {
                        (ListAction::Stay, closed(m0))
                    },
                    Key::Backspace => (
                        ListAction::Stay,
                        from_top(
                            ListModel {
                                query: if m.query.len() > 0 {
                                    m.query.drop_last()
                                } else {
                                    m.query
                                },
                                ..m0
                            },
                        ),
                    ),
                    Key::Char(c) => (
                        ListAction::Stay,
                        from_top(ListModel { query: m.query.push(c), ..m0 }),
                    ),
                    _ => (ListAction::Stay, m0),
                }
            },
            Overlay::Manage(k) => match key {
                Key::Up | Key::Down => (
                    ListAction::Stay,
                    ListModel {
                        overlay: Overlay::Manage(
                            if k == 0 {
                                1
                            } else {
                                0
                            },
                        ),
                        ..m0
                    },
                ),
                Key::Char('1') => (ListAction::EditServer(vis[sel]), closed(m0)),
                Key::Char('2') => (ListAction::ManageQuickCommands(vis[sel]), closed(m0)),
                Key::Enter => (
                    if k == 0 {
                        ListAction::EditServer(vis[sel])
                    } else {
                        ListAction::ManageQuickCommands(vis[sel])
                    },
                    closed(m0),
                ),
                Key::Esc => (ListAction::Stay, closed(m0)),
                _ => (ListAction::Stay, m0),
            },
            Overlay::QuickCommands(k) => match key {
                Key::Up => (
                    ListAction::Stay,
                    ListModel {
                        overlay: Overlay::QuickCommands(
                            if qcount > 0 {
                                if k == 0 {
                                    (qcount - 1) as usize
                                } else {
                                    (k - 1) as usize
                                }
                            } else {
                                k
                            },
                        ),
                        ..m0
                    },
                ),
                Key::Down => (
                    ListAction::Stay,
                    ListModel {
                        overlay: Overlay::QuickCommands(
                            if qcount > 0 {
                                ((k + 1) % qcount) as usize
                            } else {
                                k
                            },
                        ),
                        ..m0
                    },
                ),
                Key::Enter => if qcount > 0 {
                    (ListAction::RunQuickCommand(vis[sel], k), closed(m0))
                } else {
                    (ListAction::Stay, m0)
                },
                Key::Esc => (ListAction::Stay, closed(m0)),
                _ => (ListAction::Stay, m0),
            },
            Overlay::Closed => match key {
                Key::Esc => if m.query.len() > 0 {
                    (ListAction::Stay, from_top(ListModel { query: Seq::empty(), ..m0 }))
                } else {
                    (ListAction::Exit, m0)
                },
                Key::Char('q') => (ListAction::Exit, m0),
                Key::Up => (
                    ListAction::Stay,
                    ListModel {
                        sel: if n > 0 {
                            if sel == 0 {
                                n - 1
                            } else {
                                sel - 1
                            }
                        } else {
                            sel
                        },
                        ..m0
                    },
                ),
                Key::Down => (
                    ListAction::Stay,
                    ListModel {
                        sel: if n > 0 {
                            (sel + 1) % n
                        } else {
                            sel
                        },
                        ..m0
                    },
                ),
                Key::Enter => (
                    if n > 0 {
                        ListAction::Connect(vis[sel])
                    } else {
                        ListAction::Stay
                    },
                    m0,
                ),
                Key::Char('a') | Key::Char('A') => (ListAction::AddServer, m0),
                Key::Char('d') | Key::Char('D') | Key::Delete => (
                    ListAction::Stay,
                    ListModel { confirm: m.confirm || n > 0, ..m0 },
                ),
                Key::Char('g') | Key::Char('G') | Key::Char('/') => (
                    ListAction::Stay,
                    ListModel { overlay: Overlay::Groups(0), ..m0 },
                ),
                Key::Char('e') | Key::Char('E') => (
                    ListAction::Stay,
                    if n > 0 {
                        ListModel { overlay: Overlay::Manage(0), ..m0 }
                    } else {
                        m0
                    },
                ),
                Key::Char('c') | Key::Char('C') => (
                    ListAction::Stay,
                    if n > 0 {
                        ListModel { overlay: Overlay::QuickCommands(0), ..m0 }
                    } else {
                        m0
                    },
                ),
                _ => (ListAction::Stay, m0),
            },
        }
    }
}

/// The popover once fitted to `n` servers shown, `gcount` groups and
/// `qcount` quick commands of the selected server: an index past its
/// entries moves to the last, and the server menus close when no server is
/// shown.
pub open spec fn settled_overlay(o: Overlay, n: int, gcount: int, qcount: int) -> Overlay {
    match o {
        Overlay::Closed => Overlay::Closed,
        Overlay::Groups(k) => if k > gcount {
            Overlay::Groups(gcount as usize)
        } else {
            o
        },
        Overlay::Manage(k) => if n == 0 {
            Overlay::Closed
        } else if k > 1 {
            Overlay::Manage(1)
        } else {
            o
        },
        Overlay::QuickCommands(k) => if n == 0 {
            Overlay::Closed
        } else if qcount > 0 && k >= qcount {
            Overlay::QuickCommands((qcount - 1) as usize)
        } else {
            o
        },
    }
}

impl ListState {
    /// The state by view.
    pub open spec fn model(&self) -> ListModel {
        ListModel {
            sel: self.selected_idx as int,
            scroll: self.scroll_offset as int,
            confirm: self.confirm_delete,
            status: opt_text(self.status_msg),
            group: opt_text(self.group_filter),
            query: self.query@,
            overlay: self.overlay,
        }
    }

    /// The dashboard as it opens: first row selected, nothing pending,
    /// filtered or open.
    pub fn new() -> (s: Self)
        ensures
            s.selected_idx == 0,
            s.scroll_offset == 0,
            !s.confirm_delete,
            s.status_msg is None,
            s.group_filter is None,
            s.query@.len() == 0,
            s.overlay == Overlay::Closed,
    {
        ListState {
            selected_idx: 0,
            scroll_offset: 0,
            confirm_delete: false,
            status_msg: None,
            group_filter: None,
            query: Vec::new(),
            overlay: Overlay::Closed,
        }
    }

    /// The servers shown, by index, for the list `conns`.
    pub open spec fn shown(&self, conns: Seq<ServerConnection>) -> Seq<usize> {
        visible_spec(conns, opt_text(self.group_filter), self.query@)
    }

    /// The selection lies within the `n` servers shown and its row is in
    /// view, and the popover's entry lies within its entries.
    pub open spec fn settled(&self, conns: Seq<ServerConnection>) -> bool {
        let vis = self.shown(conns);
        let n = vis.len() as int;
        &&& n > 0 ==> {
            &&& self.selected_idx < n
            &&& self.scroll_offset <= self.selected_idx < self.scroll_offset + LIST_ROWS
        }
        &&& self.overlay matches Overlay::Groups(k) ==> k <= groups_spec(conns).len()
        &&& self.overlay matches Overlay::Manage(k) ==> n > 0 && k < 2
        &&& self.overlay matches Overlay::QuickCommands(k) ==> n > 0 && (selected_quick_count(
            conns,
            vis,
            self.selected_idx as int,
        ) > 0 ==> k < selected_quick_count(conns, vis, self.selected_idx as int))
    }

    /// Fits the selection, the scroll position and the popover to the list
    /// `conns`, as the dashboard does each time it reloads it.
    pub fn settle(&mut self, conns: &Vec<ServerConnection>)
        ensures
            ({
                let vis = old(self).shown(conns@);
                let n = vis.len() as int;
                let sel = clamped_selection(old(self).selected_idx as int, n);
                &&& final(self).selected_idx == sel
                &&& final(self).scroll_offset == scroll_to_show(
                    sel,
                    old(self).scroll_offset as int,
                    n,
                    LIST_ROWS as int,
                )
                &&& final(self).overlay == settled_overlay(
                    old(self).overlay,
                    n,
                    groups_spec(conns@).len() as int,
                    selected_quick_count(conns@, vis, sel),
                )
            }),
            final(self).confirm_delete == old(self).confirm_delete,
            final(self).status_msg == old(self).status_msg,
            final(self).group_filter == old(self).group_filter,
            final(self).query == old(self).query,
            final(self).settled(conns@),
    {
        let vis = visible_indices(conns, &self.group_filter, &self.query);
        let n = vis.len();
        if n > 0 && self.selected_idx >= n {
            self.selected_idx = n - 1;
        }
        if self.selected_idx < self.scroll_offset {
            self.scroll_offset = self.selected_idx;
        } else if n > 0 && self.selected_idx - self.scroll_offset >= LIST_ROWS {
            self.scroll_offset = self.selected_idx - (LIST_ROWS - 1);
        }
        let gcount = unique_groups(conns).len();
        let qcount = self.selected_quick_count(conns, &vis);
        self.overlay = match self.overlay {
            Overlay::Closed => Overlay::Closed,
            Overlay::Groups(k) => if k > gcount {
                Overlay::Groups(gcount)
            } else {
                Overlay::Groups(k)
            },
            Overlay::Manage(k) => if n == 0 {
                Overlay::Closed
            } else if k > 1 {
                Overlay::Manage(1)
            } else {
                Overlay::Manage(k)
            },
            Overlay::QuickCommands(k) => if n == 0 {
                Overlay::Closed
            } else if qcount > 0 && k >= qcount {
                Overlay::QuickCommands(qcount - 1)
            } else {
                Overlay::QuickCommands(k)
            },
        };
    }

    /// The number of quick commands of the selected server among `vis`.
    fn selected_quick_count(&self, conns: &Vec<ServerConnection>, vis: &Vec<usize>) -> (r: usize)
        requires
            forall|k: int| 0 <= k < vis.len() ==> #[trigger] vis@[k] < conns.len(),
        ensures
            r == selected_quick_count(conns@, vis@, self.selected_idx as int),
    {
        if self.selected_idx < vis.len() {
            match &conns[vis[self.selected_idx]].quick_commands {
                Some(v) => v.len(),
                None => 0,
            }
        } else {
            0
        }
    }

    /// Reacts to a key press with the list `conns` loaded.
    pub fn handle_key(&mut self, conns: &Vec<ServerConnection>, key: Key) -> (r: ListAction)
        requires
            old(self).settled(conns@),
        ensures
            ({
                let vis = old(self).shown(conns@);
                (r, final(self).model()) == list_key(
                    old(self).model(),
                    vis,
                    groups_spec(conns@),
                    selected_quick_count(conns@, vis, old(self).selected_idx as int),
                    key,
                )
            }),
            r matches ListAction::Connect(i) ==> i < conns.len(),
            r matches ListAction::Delete(i) ==> i < conns.len(),
            r matches ListAction::EditServer(i) ==> i < conns.len(),
            r matches ListAction::ManageQuickCommands(i) ==> i < conns.len(),
            r matches ListAction::RunQuickCommand(i, k) ==> i < conns.len() && k
                < quick_commands_of(conns@[i as int]).len(),
    {
        let vis = visible_indices(conns, &self.group_filter, &self.query);
        let groups = unique_groups(conns);
        let qcount = self.selected_quick_count(conns, &vis);
        let n = vis.len();
        let sel = self.selected_idx;
        if self.confirm_delete && n > 0 {
            match key {
                Key::Char('y') | Key::Char('Y') | Key::Enter => {
                    self.confirm_delete = false;
                    return ListAction::Delete(vis[sel]);
                },
                Key::Char('n') | Key::Char('N') | Key::Esc => {
                    self.confirm_delete = false;
                    return ListAction::Stay;
                },
                _ => {
                    return ListAction::Stay;
                },
            }
        }
        self.status_msg = None;
        match self.overlay {
            Overlay::Groups(k) => {
                match key {
                    Key::Up => {
                        self.overlay = Overlay::Groups(if k == 0 { groups.len() } else { k - 1 });
                    },
                    Key::Down => {
                        self.overlay = Overlay::Groups(if k >= groups.len() { 0 } else { k + 1 });
                    },
                    Key::Enter => {
                        self.group_filter = if k == 0 {
                            None
                        } else {
                            Some(groups[k - 1].clone())
                        };
                        proof {
                            if k > 0 {
                                assert(texts(groups@)[k - 1] == groups@[k - 1]@);
                            }
                        }
                        self.overlay = Overlay::Closed;
                        self.selected_idx = 0;
                        self.scroll_offset = 0;
                    },
                    Key::Esc => {
                        if self.query.len() > 0 {
                            self.query = Vec::new();
                            self.selected_idx = 0;
                            self.scroll_offset = 0;
                        } else {
                            self.overlay = Overlay::Closed;
                        }
                    },
                    Key::Backspace => {
                        if self.query.len() > 0 {
                            self.query.pop();
                        }
                        self.selected_idx = 0;
                        self.scroll_offset = 0;
                    },
                    Key::Char(c) => {
                        self.query.push(c);
                        self.selected_idx = 0;
                        self.scroll_offset = 0;
                    },
                    _ => {},
                }
                ListAction::Stay
            },
            Overlay::Manage(k) => match key {
                Key::Up | Key::Down => {
                    self.overlay = Overlay::Manage(if k == 0 { 1 } else { 0 });
                    ListAction::Stay
                },
                Key::Char('1') => {
                    self.overlay = Overlay::Closed;
                    ListAction::EditServer(vis[sel])
                },
                Key::Char('2') => {
                    self.overlay = Overlay::Closed;
                    ListAction::ManageQuickCommands(vis[sel])
                },
                Key::Enter => {
                    self.overlay = Overlay::Closed;
                    if k == 0 {
                        ListAction::EditServer(vis[sel])
                    } else {
                        ListAction::ManageQuickCommands(vis[sel])
                    }
                },
                Key::Esc => {
                    self.overlay = Overlay::Closed;
                    ListAction::Stay
                },
                _ => ListAction::Stay,
            },
            Overlay::QuickCommands(k) => match key {
                Key::Up => {
                    if qcount > 0 {
                        self.overlay = Overlay::QuickCommands(if k == 0 { qcount - 1 } else { k - 1 });
                    }
                    ListAction::Stay
                },
                Key::Down => {
                    if qcount > 0 {
                        self.overlay = Overlay::QuickCommands((k + 1) % qcount);
                    }
                    ListAction::Stay
                },
                Key::Enter => {
                    if qcount > 0 {
                        self.overlay = Overlay::Closed;
                        ListAction::RunQuickCommand(vis[sel], k)
                    } else {
                        ListAction::Stay
                    }
                },
                Key::Esc => {
                    self.overlay = Overlay::Closed;
                    ListAction::Stay
                },
                _ => ListAction::Stay,
            },
            Overlay::Closed => match key {
                Key::Esc => {
                    if self.query.len() > 0 {
                        self.query = Vec::new();
                        self.selected_idx = 0;
                        self.scroll_offset = 0;
                        ListAction::Stay
                    } else {
                        ListAction::Exit
                    }
                },
                Key::Char('q') => ListAction::Exit,
                Key::Up => {
                    if n > 0 {
                        self.selected_idx = if sel == 0 { n - 1 } else { sel - 1 };
                    }
                    ListAction::Stay
                },
                Key::Down => {
                    if n > 0 {
                        self.selected_idx = (sel + 1) % n;
                    }
                    ListAction::Stay
                },
                Key::Enter => {
                    if n > 0 {
                        ListAction::Connect(vis[sel])
                    } else {
                        ListAction::Stay
                    }
                },
                Key::Char('a') | Key::Char('A') => ListAction::AddServer,
                Key::Char('d') | Key::Char('D') | Key::Delete => {
                    if n > 0 {
                        self.confirm_delete = true;
                    }
                    ListAction::Stay
                },
                Key::Char('g') | Key::Char('G') | Key::Char('/') => {
                    self.overlay = Overlay::Groups(0);
                    ListAction::Stay
                },
                Key::Char('e') | Key::Char('E') => {
                    if n > 0 {
                        self.overlay = Overlay::Manage(0);
                    }
                    ListAction::Stay
                },
                Key::Char('c') | Key::Char('C') => {
                    if n > 0 {
                        self.overlay = Overlay::QuickCommands(0);
                    }
                    ListAction::Stay
                },
                _ => ListAction::Stay,
            },
        }
    }

    /// Shows how the delete of server `name` went.
    pub fn finish_delete(&mut self, name: &str, outcome: Result<bool, String>)
        ensures
            final(self).selected_idx == old(self).selected_idx,
            final(self).scroll_offset == old(self).scroll_offset,
            final(self).confirm_delete == old(self).confirm_delete,
            final(self).group_filter == old(self).group_filter,
            final(self).query == old(self).query,
            final(self).overlay == old(self).overlay,
            final(self).status_msg matches Some(m) && m@ == match outcome {
                Ok(_) => "\u{2714} Connection '"@ + name@ + "' deleted."@,
                Err(e) => "Error: "@ + e@,
            },
    {
        let msg = match outcome {
            Ok(_) => concat3("\u{2714} Connection '", name, "' deleted."),
            Err(e) => concat3("Error: ", e.as_str(), ""),
        };
        proof {
            assert(("Error: "@ + outcome->Err_0@ + ""@) =~= "Error: "@ + outcome->Err_0@) by {
                reveal_strlit("");
            }
        }
        self.status_msg = Some(msg);
    }

    /// Shows how saving the edited server `name` went.
    pub fn finish_edit(&mut self, name: &str, outcome: Result<(), String>)
        ensures
            final(self).selected_idx == old(self).selected_idx,
            final(self).scroll_offset == old(self).scroll_offset,
            final(self).confirm_delete == old(self).confirm_delete,
            final(self).group_filter == old(self).group_filter,
            final(self).query == old(self).query,
            final(self).overlay == old(self).overlay,
            final(self).status_msg matches Some(m) && m@ == match outcome {
                Ok(_) => "\u{2714} Server '"@ + name@ + "' updated!"@,
                Err(e) => "Save failed: "@ + e@,
            },
    {
        let msg = match outcome {
            Ok(_) => concat3("\u{2714} Server '", name, "' updated!"),
            Err(e) => concat3("Save failed: ", e.as_str(), ""),
        };
        proof {
            if outcome is Err {
                assert(("Save failed: "@ + outcome->Err_0@ + ""@) =~= "Save failed: "@ + outcome->Err_0@) by {
                    reveal_strlit("");
                }
            }
        }
        self.status_msg = Some(msg);
    }

    /// Shows how saving the server `name` from the wizard went.
    pub fn finish_add(&mut self, name: &str, outcome: Result<(), String>)
        ensures
            final(self).selected_idx == old(self).selected_idx,
            final(self).scroll_offset == old(self).scroll_offset,
            final(self).confirm_delete == old(self).confirm_delete,
            final(self).group_filter == old(self).group_filter,
            final(self).query == old(self).query,
            final(self).overlay == old(self).overlay,
            final(self).status_msg matches Some(m) && m@ == match outcome {
                Ok(_) => "\u{2714} Server '"@ + name@ + "' saved!"@,
                Err(e) => "Save failed: "@ + e@,
            },
    {
        let msg = match outcome {
            Ok(_) => concat3("\u{2714} Server '", name, "' saved!"),
            Err(e) => concat3("Save failed: ", e.as_str(), ""),
        };
        proof {
            if outcome is Err {
                assert(("Save failed: "@ + outcome->Err_0@ + ""@) =~= "Save failed: "@ + outcome->Err_0@) by {
                    reveal_strlit("");
                }
            }
        }
        self.status_msg = Some(msg);
    }
}

/// The width of a dashboard row.
pub const ROW_WIDTH: usize = 58;

/// The text of a dashboard row before it is cut to the row width: the
/// nickname padded to sixteen characters, `(user@host:port)`, and ` [Key]`
/// when the server logs in with a key file.
pub open spec fn row_text(c: ServerConnection) -> Seq<char> {
    pad_right(c.nickname@, 16) + " ("@ + c.username@ + "@"@ + c.host@ + ":"@ + decimal(
        c.port as nat,
    ) + ")"@ + if c.ssh_key is Some {
        " [Key]"@
    } else {
        ""@
    }
}

/// The text of the dashboard row of `c`, cut to `ROW_WIDTH` characters.
pub fn connection_row(c: &ServerConnection) -> (r: Vec<char>)
    ensures
        r@ == if row_text(*c).len() <= ROW_WIDTH {
            row_text(*c)
        } else {
            row_text(*c).take(ROW_WIDTH as int)
        },
{
    let mut v: Vec<char> = Vec::new();
    push_str_chars(&mut v, c.nickname.as_str());
    assert(v@ =~= c.nickname@);
    pad_right_chars(&mut v, 16);
    push_str_chars(&mut v, " (");
    push_str_chars(&mut v, c.username.as_str());
    push_str_chars(&mut v, "@");
    push_str_chars(&mut v, c.host.as_str());
    push_str_chars(&mut v, ":");
    let port = decimal_u16(c.port);
    push_all(&mut v, &port);
    push_str_chars(&mut v, ")");
    if c.ssh_key.is_some() {
        push_str_chars(&mut v, " [Key]");
    } else {
        push_str_chars(&mut v, "");
    }
    take_chars(&mut v, ROW_WIDTH);
    v
}

/// Which rows the dashboard shows: the servers from `scroll` on, at most
/// `LIST_ROWS` of them, as the half-open range of their indices.
pub fn visible_rows(scroll: usize, n: usize) -> (r: (usize, usize))
    ensures
        r.0 == scroll,
        r.1 == if scroll >= n {
            scroll as int
        } else if n - scroll < LIST_ROWS {
            n as int
        } else {
            scroll + LIST_ROWS
        },
{
    if scroll >= n {
        (scroll, scroll)
    } else if n - scroll < LIST_ROWS {
        (scroll, n)
    } else {
        (scroll, scroll + LIST_ROWS)
    }
}

/// Whether the dashboard marks that rows lie above (`.0`) and below (`.1`)
/// the ones shown.
pub fn scroll_marks(scroll: usize, n: usize) -> (r: (bool, bool))
    ensures
        r.0 == (scroll > 0),
        r.1 == (scroll + LIST_ROWS < n),
{
    (scroll > 0, scroll < n && n - scroll > LIST_ROWS)
}

/// On a nonempty dashboard with nothing open, moving the selection up and
/// then down, or down and then up, comes back to the same server.
pub proof fn law_list_up_down(m: ListModel, vis: Seq<usize>, groups: Seq<Seq<char>>, qcount: int)
    requires
        0 <= m.sel < vis.len(),
        !m.confirm,
        m.overlay == Overlay::Closed,
    ensures
        list_key(list_key(m, vis, groups, qcount, Key::Up).1, vis, groups, qcount, Key::Down).1.sel
            == m.sel,
        list_key(list_key(m, vis, groups, qcount, Key::Down).1, vis, groups, qcount, Key::Up).1.sel
            == m.sel,
{
    let n = vis.len() as int;
    let sel = m.sel;
    assert((n - 1 + 1) % n == 0) by (nonlinear_arith)
        requires
            n > 0,
    ;
    if sel + 1 < n {
        assert((sel + 1) % n == sel + 1) by (nonlinear_arith)
            requires
                0 <= sel + 1 < n,
        ;
    } else {
        assert((sel + 1) % n == 0) by (nonlinear_arith)
            requires
                sel + 1 == n,
                n > 0,
        ;
    }
    if sel > 0 {
        assert((sel - 1 + 1) % n == sel) by (nonlinear_arith)
            requires
                0 <= sel < n,
        ;
    }
}

/// The server an action acts on, if any: the one to connect to, delete,
/// edit, manage or run a quick command of.
pub open spec fn acted_on(a: ListAction) -> Option<usize> {
    match a {
        ListAction::Connect(i) => Some(i),
        ListAction::Delete(i) => Some(i),
        ListAction::EditServer(i) => Some(i),
        ListAction::ManageQuickCommands(i) => Some(i),
        ListAction::RunQuickCommand(i, _) => Some(i),
        _ => None,
    }
}

/// Under a group filter or a search, the dashboard acts only on the servers
/// it shows: whatever key is pressed, a server that the answer connects to,
/// deletes (once confirmed), edits, manages or runs a command of is the one
/// selected among those shown, so it is in the list, belongs to the chosen
/// group and matches the search text.
pub proof fn law_actions_touch_only_shown_servers(s: ListState, conns: Seq<ServerConnection>, key: Key)
    requires
        conns.len() <= usize::MAX,
        s.settled(conns),
    ensures
        ({
            let vis = s.shown(conns);
            let a = list_key(
                s.model(),
                vis,
                groups_spec(conns),
                selected_quick_count(conns, vis, s.selected_idx as int),
                key,
            ).0;
            acted_on(a) matches Some(i) ==> {
                &&& s.selected_idx < vis.len()
                &&& i == vis[s.selected_idx as int]
                &&& i < conns.len()
                &&& shows(conns[i as int], opt_text(s.group_filter), s.query@)
            }
        }),
{
    let vis = s.shown(conns);
    law_shown_are_the_matching(conns, opt_text(s.group_filter), s.query@);
    lemma_visible_in_range(conns, opt_text(s.group_filter), s.query@);
    if s.selected_idx < vis.len() {
        assert(shows(conns[vis[s.selected_idx as int] as int], opt_text(s.group_filter), s.query@));
    }
}

/// Choosing entry `k > 0` of the group popover filters the list by the
/// `k`-th group and closes the popover; choosing "[All]" (entry 0) clears
/// the filter.
pub proof fn law_group_choice(m: ListModel, vis: Seq<usize>, groups: Seq<Seq<char>>, qcount: int, k: usize)
    requires
        !(m.confirm && vis.len() > 0),
        m.overlay == Overlay::Groups(k),
        k <= groups.len(),
    ensures
        ({
            let (a, m2) = list_key(m, vis, groups, qcount, Key::Enter);
            &&& a is Stay
            &&& m2.overlay == Overlay::Closed
            &&& m2.group == if k == 0 {
                None
            } else {
                Some(groups[k - 1])
            }
            &&& m2.query == m.query
        }),
{
}

/// Escape with a search text typed clears it and shows the full list
/// again (the group filter aside); without one it closes the popover, or
/// leaves the dashboard when nothing is open.
pub proof fn law_escape_clears_search(m: ListModel, vis: Seq<usize>, groups: Seq<Seq<char>>, qcount: int)
    requires
        !(m.confirm && vis.len() > 0),
        m.overlay is Groups || m.overlay is Closed,
    ensures
        m.query.len() > 0 ==> list_key(m, vis, groups, qcount, Key::Esc).1.query.len() == 0
            && list_key(m, vis, groups, qcount, Key::Esc).0 is Stay,
        m.query.len() == 0 && m.overlay is Groups ==> list_key(m, vis, groups, qcount, Key::Esc).1.overlay
            == Overlay::Closed,
        m.query.len() == 0 && m.overlay is Closed ==> list_key(m, vis, groups, qcount, Key::Esc).0
            is Exit,
{
}

} // verus!
