//! The connection store: the list of saved servers and the quick commands
//! attached to each, with lookup by nickname regardless of ASCII case.
//!
//! Every operation here works on the list as it was read from the
//! configuration file; reading and writing that file is left to the
//! caller.

use vstd::prelude::*;
use crate::text::{
    concat3, eq_ignore_ascii_case, eq_ignore_ascii_case_seq, lemma_eq_ignore_ascii_case_equivalence,
};

verus! {

/// A named shell command that can be run on a server in one step.
#[derive(Clone, Debug)]
pub struct QuickCommand {
    pub name: String,
    pub command: String,
}

/// A saved server: where to reach it, how to log in, and its quick
/// commands.
#[derive(Clone, Debug)]
pub struct ServerConnection {
    pub nickname: String,
    pub host: String,
    pub port: u16,
    pub username: String,
    pub password: Option<String>,
    pub ssh_key: Option<String>,
    pub group: Option<String>,
    pub quick_commands: Option<Vec<QuickCommand>>,
}

/// `c` is the connection that the nickname `nick` names.
pub open spec fn matches_nickname(c: ServerConnection, nick: Seq<char>) -> bool {
    eq_ignore_ascii_case_seq(c.nickname@, nick)
}

/// Some connection of `s` answers to the nickname `nick`.
pub open spec fn has_nickname(s: Seq<ServerConnection>, nick: Seq<char>) -> bool {
    exists|i: int| 0 <= i < s.len() && #[trigger] matches_nickname(s[i], nick)
}

/// The first connection of `s` that answers to `nick`, if any.
pub open spec fn lookup(s: Seq<ServerConnection>, nick: Seq<char>) -> Option<ServerConnection>
    decreases s.len(),
{
    if s.len() == 0 {
        None
    } else if lookup(s.drop_last(), nick) is Some {
        lookup(s.drop_last(), nick)
    } else if matches_nickname(s.last(), nick) {
        Some(s.last())
    } else {
        None
    }
}

/// The position in `s` of the first connection that answers to `nick`.
pub open spec fn is_first_match(s: Seq<ServerConnection>, nick: Seq<char>, i: int) -> bool {
    &&& 0 <= i < s.len()
    &&& matches_nickname(s[i], nick)
    &&& forall|j: int| 0 <= j < i ==> !#[trigger] matches_nickname(s[j], nick)
}

/// `s` without the connections that answer to `nick`, the others kept in
/// order.
pub open spec fn without_nickname(s: Seq<ServerConnection>, nick: Seq<char>) -> Seq<ServerConnection>
    decreases s.len(),
{
    if s.len() == 0 {
        Seq::empty()
    } else if matches_nickname(s.last(), nick) {
        without_nickname(s.drop_last(), nick)
    } else {
        without_nickname(s.drop_last(), nick).push(s.last())
    }
}

/// No two connections of `s` answer to the same nickname.
pub open spec fn unique_nicknames(s: Seq<ServerConnection>) -> bool {
    forall|i: int, j: int|
        0 <= i < s.len() && 0 <= j < s.len() && i != j ==> !eq_ignore_ascii_case_seq(
            #[trigger] s[i].nickname@,
            #[trigger] s[j].nickname@,
        )
}

/// The message of a refused addition.
pub open spec fn duplicate_message(nick: Seq<char>) -> Seq<char> {
    "A connection with nickname '"@ + nick + "' already exists."@
}

/// The message when no server answers to a nickname.
pub open spec fn server_not_found_message(nick: Seq<char>) -> Seq<char> {
    "Server with nickname '"@ + nick + "' not found."@
}

/// The message when a server has no quick command of a given name.
pub open spec fn quick_command_not_found_message(name: Seq<char>) -> Seq<char> {
    "Quick command '"@ + name + "' not found."@
}

/// `lookup` finds something exactly when some connection answers to the
/// nickname.
pub proof fn lemma_lookup_some_iff_has(s: Seq<ServerConnection>, nick: Seq<char>)
    ensures
        lookup(s, nick) is Some <==> has_nickname(s, nick),
    decreases s.len(),
{
    if s.len() > 0 {
        let t = s.drop_last();
        lemma_lookup_some_iff_has(t, nick);
        if has_nickname(t, nick) {
            let i = choose|i: int| 0 <= i < t.len() && #[trigger] matches_nickname(t[i], nick);
            assert(s[i] == t[i]);
        }
        if has_nickname(s, nick) && !matches_nickname(s.last(), nick) {
            let i = choose|i: int| 0 <= i < s.len() && #[trigger] matches_nickname(s[i], nick);
            assert(t[i] == s[i]);
        }
        if matches_nickname(s.last(), nick) {
            assert(matches_nickname(s[s.len() - 1], nick));
        }
    }
}

/// The index of the first connection of `conns` that answers to `nickname`,
/// ASCII case aside.
pub fn find_connection_index(conns: &Vec<ServerConnection>, nickname: &str) -> (r: Option<usize>)
    ensures
        r is None <==> !has_nickname(conns@, nickname@),
        r matches Some(i) ==> is_first_match(conns@, nickname@, i as int),
{
    let mut i: usize = 0;
    while i < conns.len()
        invariant
            i <= conns.len(),
            forall|j: int| 0 <= j < i ==> !#[trigger] matches_nickname(conns@[j], nickname@),
        decreases conns.len() - i,
    {
        if eq_ignore_ascii_case(conns[i].nickname.as_str(), nickname) {
            assert(matches_nickname(conns@[i as int], nickname@));
            return Some(i);
        }
        i = i + 1;
    }
    None
}

/// Adds `conn` at the end of `conns`, unless a connection already answers
/// to its nickname; then `conns` is left as it was and the error says so.
pub fn add_connection(conns: &mut Vec<ServerConnection>, conn: ServerConnection) -> (r: Result<(), String>)
    ensures
        has_nickname(old(conns)@, conn.nickname@) ==> {
            &&& r matches Err(e) && e@ == duplicate_message(conn.nickname@)
            &&& final(conns)@ == old(conns)@
        },
        !has_nickname(old(conns)@, conn.nickname@) ==> {
            &&& r is Ok
            &&& final(conns)@ == old(conns)@.push(conn)
        },
{
    match find_connection_index(conns, conn.nickname.as_str()) {
        Some(_) => {
            let msg = concat3("A connection with nickname '", conn.nickname.as_str(), "' already exists.");
            Err(msg)
        },
        None => {
            conns.push(conn);
            Ok(())
        },
    }
}

/// The first connection of `conns` that answers to `nickname`, ASCII case
/// aside.
pub fn get_connection(conns: Vec<ServerConnection>, nickname: &str) -> (r: Option<ServerConnection>)
    ensures
        r == lookup(conns@, nickname@),
{
    let mut conns = conns;
    proof {
        lemma_lookup_some_iff_has(conns@, nickname@);
    }
    match find_connection_index(&conns, nickname) {
        Some(i) => {
            proof {
                lemma_first_match_is_lookup(conns@, nickname@, i as int);
            }
            Some(conns.remove(i))
        },
        None => None,
    }
}

proof fn lemma_first_match_is_lookup(s: Seq<ServerConnection>, nick: Seq<char>, i: int)
    requires
        is_first_match(s, nick, i),
    ensures
        lookup(s, nick) == Some(s[i]),
    decreases s.len(),
{
    let t = s.drop_last();
    if i < s.len() - 1 {
        assert(t[i] == s[i]);
        assert forall|j: int| 0 <= j < i implies !#[trigger] matches_nickname(t[j], nick) by {
            assert(t[j] == s[j]);
        }
        lemma_first_match_is_lookup(t, nick, i);
    } else {
        lemma_lookup_some_iff_has(t, nick);
        if has_nickname(t, nick) {
            let j = choose|j: int| 0 <= j < t.len() && #[trigger] matches_nickname(t[j], nick);
            assert(t[j] == s[j]);
        }
    }
}

/// Removes every connection that answers to `nickname`, keeping the others
/// in order; the result tells whether any was removed.
pub fn delete_connection(conns: &mut Vec<ServerConnection>, nickname: &str) -> (removed: bool)
    ensures
        final(conns)@ == without_nickname(old(conns)@, nickname@),
        removed == has_nickname(old(conns)@, nickname@),
{
    let ghost s = conns@;
    let mut kept: Vec<ServerConnection> = Vec::new();
    let mut removed = false;
    let mut rest: Vec<ServerConnection> = Vec::new();
    std::mem::swap(conns, &mut rest);
    assert(rest@ == s);
    let n = rest.len();
    let mut i: usize = 0;
    while i < n
        invariant
            n == s.len(),
            i <= n,
            rest@ == s.subrange(i as int, n as int),
            kept@ == without_nickname(s.take(i as int), nickname@),
            removed == has_nickname(s.take(i as int), nickname@),
        decreases n - i,
    {
        let c = rest.remove(0);
        assert(c == s[i as int]);
        assert(s.take(i + 1).drop_last() =~= s.take(i as int));
        assert(s.take(i + 1).last() == c);
        assert(rest@ =~= s.subrange(i + 1, n as int));
        let m = eq_ignore_ascii_case(c.nickname.as_str(), nickname);
        proof {
            if has_nickname(s.take(i + 1), nickname@) && !m {
                let k = choose|k: int| 0 <= k < i + 1 && #[trigger] matches_nickname(s.take(i + 1)[k], nickname@);
                assert(s.take(i as int)[k] == s.take(i + 1)[k]);
            }
            if has_nickname(s.take(i as int), nickname@) {
                let k = choose|k: int| 0 <= k < i && #[trigger] matches_nickname(s.take(i as int)[k], nickname@);
                assert(s.take(i + 1)[k] == s.take(i as int)[k]);
            }
            if m {
                assert(matches_nickname(s.take(i + 1)[i as int], nickname@));
            }
        }
        if m {
            removed = true;
        } else {
            kept.push(c);
        }
        i = i + 1;
    }
    assert(s.take(n as int) =~= s);
    *conns = kept;
    removed
}

/// After a connection is added, looking up its nickname gives it back.
pub proof fn law_add_then_get(s: Seq<ServerConnection>, conn: ServerConnection)
    requires
        !has_nickname(s, conn.nickname@),
    ensures
        lookup(s.push(conn), conn.nickname@) == Some(conn),
{
    lemma_lookup_some_iff_has(s, conn.nickname@);
    lemma_eq_ignore_ascii_case_equivalence(conn.nickname@, conn.nickname@, conn.nickname@);
    assert(s.push(conn).drop_last() =~= s);
}

/// Adding a connection leaves the lookup of every nickname that it does
/// not answer to unchanged.
pub proof fn law_add_keeps_other_lookups(
    s: Seq<ServerConnection>,
    conn: ServerConnection,
    nick: Seq<char>,
)
    requires
        !matches_nickname(conn, nick),
    ensures
        lookup(s.push(conn), nick) == lookup(s, nick),
{
    assert(s.push(conn).drop_last() =~= s);
}

/// An addition that the store accepts keeps the nicknames unique.
pub proof fn law_add_keeps_nicknames_unique(s: Seq<ServerConnection>, conn: ServerConnection)
    requires
        unique_nicknames(s),
        !has_nickname(s, conn.nickname@),
    ensures
        unique_nicknames(s.push(conn)),
{
    let t = s.push(conn);
    assert forall|i: int, j: int|
        0 <= i < t.len() && 0 <= j < t.len() && i != j implies !eq_ignore_ascii_case_seq(
        #[trigger] t[i].nickname@,
        #[trigger] t[j].nickname@,
    ) by {
        if i == s.len() {
            assert(t[j] == s[j]);
            lemma_eq_ignore_ascii_case_equivalence(t[i].nickname@, t[j].nickname@, t[i].nickname@);
            if eq_ignore_ascii_case_seq(t[i].nickname@, t[j].nickname@) {
                assert(matches_nickname(s[j], conn.nickname@));
            }
        } else if j == s.len() {
            assert(t[i] == s[i]);
            if eq_ignore_ascii_case_seq(t[i].nickname@, t[j].nickname@) {
                assert(matches_nickname(s[i], conn.nickname@));
            }
        } else {
            assert(t[i] == s[i] && t[j] == s[j]);
        }
    }
}

/// After the connections that answer to a nickname are deleted, none
/// answers to it any more.
pub proof fn law_delete_then_get(s: Seq<ServerConnection>, nick: Seq<char>)
    ensures
        lookup(without_nickname(s, nick), nick) is None,
        !has_nickname(without_nickname(s, nick), nick),
    decreases s.len(),
{
    if s.len() > 0 {
        law_delete_then_get(s.drop_last(), nick);
        let w = without_nickname(s.drop_last(), nick);
        if !matches_nickname(s.last(), nick) {
            assert(w.push(s.last()).drop_last() =~= w);
        }
    }
    lemma_lookup_some_iff_has(without_nickname(s, nick), nick);
}

/// Deleting the connections of one nickname leaves the lookup of every
/// nickname that differs from it, ASCII case aside, unchanged.
pub proof fn law_delete_keeps_other_lookups(s: Seq<ServerConnection>, gone: Seq<char>, nick: Seq<char>)
    requires
        !eq_ignore_ascii_case_seq(gone, nick),
    ensures
        lookup(without_nickname(s, gone), nick) == lookup(s, nick),
    decreases s.len(),
{
    if s.len() > 0 {
        law_delete_keeps_other_lookups(s.drop_last(), gone, nick);
        let w = without_nickname(s.drop_last(), gone);
        let last = s.last();
        if matches_nickname(last, gone) {
            lemma_eq_ignore_ascii_case_equivalence(gone, last.nickname@, nick);
            lemma_eq_ignore_ascii_case_equivalence(last.nickname@, gone, nick);
        } else {
            assert(w.push(last).drop_last() =~= w);
        }
    }
}

/// A deletion keeps the nicknames unique.
pub proof fn law_delete_keeps_nicknames_unique(s: Seq<ServerConnection>, nick: Seq<char>)
    requires
        unique_nicknames(s),
    ensures
        unique_nicknames(without_nickname(s, nick)),
    decreases s.len(),
{
    if s.len() > 0 {
        let t = s.drop_last();
        assert forall|i: int, j: int|
            0 <= i < t.len() && 0 <= j < t.len() && i != j implies !eq_ignore_ascii_case_seq(
            #[trigger] t[i].nickname@,
            #[trigger] t[j].nickname@,
        ) by {
            assert(t[i] == s[i] && t[j] == s[j]);
        }
        law_delete_keeps_nicknames_unique(t, nick);
        let w = without_nickname(t, nick);
        let last = s.last();
        if !matches_nickname(last, nick) {
            lemma_without_subset(t, nick);
            let u = w.push(last);
            assert forall|i: int, j: int|
                0 <= i < u.len() && 0 <= j < u.len() && i != j implies !eq_ignore_ascii_case_seq(
                #[trigger] u[i].nickname@,
                #[trigger] u[j].nickname@,
            ) by {
                if i == w.len() {
                    let k = choose|k: int| 0 <= k < t.len() && t[k] == w[j];
                    assert(s[k] == t[k]);
                    assert(s[s.len() - 1] == last);
                    lemma_eq_ignore_ascii_case_equivalence(u[i].nickname@, u[j].nickname@, u[i].nickname@);
                } else if j == w.len() {
                    let k = choose|k: int| 0 <= k < t.len() && t[k] == w[i];
                    assert(s[k] == t[k]);
                    assert(s[s.len() - 1] == last);
                } else {
                    assert(u[i] == w[i] && u[j] == w[j]);
                }
            }
        }
    }
}

/// Every connection that survives a deletion was in the store before.
proof fn lemma_without_subset(s: Seq<ServerConnection>, nick: Seq<char>)
    ensures
        forall|i: int| 0 <= i < without_nickname(s, nick).len() ==> exists|k: int|
            0 <= k < s.len() && s[k] == #[trigger] without_nickname(s, nick)[i],
    decreases s.len(),
{
    if s.len() > 0 {
        let t = s.drop_last();
        lemma_without_subset(t, nick);
        let w = without_nickname(t, nick);
        assert forall|i: int| 0 <= i < without_nickname(s, nick).len() implies exists|k: int|
            0 <= k < s.len() && s[k] == #[trigger] without_nickname(s, nick)[i] by {
            if i < w.len() {
                let k = choose|k: int| 0 <= k < t.len() && t[k] == w[i];
                assert(s[k] == t[k]);
            } else {
                assert(s[s.len() - 1] == s.last());
            }
        }
    }
}

/// The quick commands of `c`, none when the list is absent.
pub open spec fn quick_commands_of(c: ServerConnection) -> Seq<QuickCommand> {
    match c.quick_commands {
        Some(v) => v@,
        None => Seq::empty(),
    }
}

/// `a` and `b` agree on everything but their quick commands.
pub open spec fn same_settings(a: ServerConnection, b: ServerConnection) -> bool {
    &&& a.nickname == b.nickname
    &&& a.host == b.host
    &&& a.port == b.port
    &&& a.username == b.username
    &&& a.password == b.password
    &&& a.ssh_key == b.ssh_key
    &&& a.group == b.group
}

/// `q` is the quick command that `name` names, ASCII case aside.
pub open spec fn names_quick_command(q: QuickCommand, name: Seq<char>) -> bool {
    eq_ignore_ascii_case_seq(q.name@, name)
}

/// Some quick command of `s` answers to `name`.
pub open spec fn has_quick_command(s: Seq<QuickCommand>, name: Seq<char>) -> bool {
    exists|k: int| 0 <= k < s.len() && #[trigger] names_quick_command(s[k], name)
}

/// `k` is the position of the first quick command of `s` that answers to
/// `name`.
pub open spec fn is_first_quick_command(s: Seq<QuickCommand>, name: Seq<char>, k: int) -> bool {
    &&& 0 <= k < s.len()
    &&& names_quick_command(s[k], name)
    &&& forall|j: int| 0 <= j < k ==> !#[trigger] names_quick_command(s[j], name)
}

/// `s` without the quick commands that answer to `name`, the others kept
/// in order.
pub open spec fn without_quick_command(s: Seq<QuickCommand>, name: Seq<char>) -> Seq<QuickCommand>
    decreases s.len(),
{
    if s.len() == 0 {
        Seq::empty()
    } else if names_quick_command(s.last(), name) {
        without_quick_command(s.drop_last(), name)
    } else {
        without_quick_command(s.drop_last(), name).push(s.last())
    }
}

/// `after` is `before` with the connection at `i` replaced by one that has
/// the same settings and the quick commands `qcs`.
pub open spec fn replaced_quick_commands(
    before: Seq<ServerConnection>,
    after: Seq<ServerConnection>,
    i: int,
    qcs: Seq<QuickCommand>,
) -> bool {
    &&& 0 <= i < before.len()
    &&& after.len() == before.len()
    &&& forall|j: int| 0 <= j < before.len() && j != i ==> #[trigger] after[j] == before[j]
    &&& same_settings(after[i], before[i])
    &&& after[i].quick_commands is Some
    &&& quick_commands_of(after[i]) == qcs
}

/// The quick command that the edit gives: `q` with the new name and the new
/// command where they are given.
pub open spec fn edited_quick_command(
    q: QuickCommand,
    new_name: Option<String>,
    new_cmd: Option<String>,
) -> QuickCommand {
    QuickCommand {
        name: match new_name {
            Some(n) => n,
            None => q.name,
        },
        command: match new_cmd {
            Some(c) => c,
            None => q.command,
        },
    }
}

/// Why no quick command could be picked for a server.
#[derive(Clone, Copy, Debug, PartialEq, Eq, Structural)]
pub enum QuickCommandLookupError {
    /// The server has no list of quick commands at all.
    NoQuickCommands,
    /// The server has a list, and no command in it has the name asked for.
    NotFound,
}

/// Replaces the quick commands of the connection at `i` by `qcs`.
fn set_quick_commands(conns: &mut Vec<ServerConnection>, i: usize, qcs: Vec<QuickCommand>)
    requires
        i < old(conns).len(),
    ensures
        replaced_quick_commands(old(conns)@, final(conns)@, i as int, qcs@),
{
    let c = conns.remove(i);
    let ServerConnection { nickname, host, port, username, password, ssh_key, group, quick_commands: _ } = c;
    let c2 = ServerConnection {
        nickname,
        host,
        port,
        username,
        password,
        ssh_key,
        group,
        quick_commands: Some(qcs),
    };
    conns.insert(i, c2);
    assert forall|j: int| 0 <= j < old(conns)@.len() && j != i implies #[trigger] conns@[j] == old(conns)@[j] by {
        if j < i {
            assert(conns@[j] == old(conns)@.remove(i as int)[j]);
        } else {
            assert(conns@[j] == old(conns)@.remove(i as int)[j - 1]);
        }
    }
}

/// A copy of the quick commands `v`, command by command.
pub fn copy_quick_commands(v: &Vec<QuickCommand>) -> (r: Vec<QuickCommand>)
    ensures
        r@ == v@,
{
    let mut r: Vec<QuickCommand> = Vec::new();
    let mut k: usize = 0;
    while k < v.len()
        invariant
            k <= v.len(),
            r@ == v@.subrange(0, k as int),
        decreases v.len() - k,
    {
        let q = QuickCommand { name: v[k].name.clone(), command: v[k].command.clone() };
        r.push(q);
        k = k + 1;
        assert(r@ =~= v@.subrange(0, k as int));
    }
    assert(r@ =~= v@);
    r
}

/// A copy of the quick commands of the connection at `i`, none when it has
/// no list.
fn quick_commands_at(conns: &Vec<ServerConnection>, i: usize) -> (r: Vec<QuickCommand>)
    requires
        i < conns.len(),
    ensures
        r@ == quick_commands_of(conns@[i as int]),
{
    match &conns[i].quick_commands {
        Some(v) => copy_quick_commands(v),
        None => Vec::new(),
    }
}

/// The index of the first quick command of `qcs` that answers to `name`,
/// ASCII case aside.
pub fn find_quick_command_index(qcs: &Vec<QuickCommand>, name: &str) -> (r: Option<usize>)
    ensures
        r is None <==> !has_quick_command(qcs@, name@),
        r matches Some(k) ==> is_first_quick_command(qcs@, name@, k as int),
{
    let mut k: usize = 0;
    while k < qcs.len()
        invariant
            k <= qcs.len(),
            forall|j: int| 0 <= j < k ==> !#[trigger] names_quick_command(qcs@[j], name@),
        decreases qcs.len() - k,
    {
        if eq_ignore_ascii_case(qcs[k].name.as_str(), name) {
            assert(names_quick_command(qcs@[k as int], name@));
            return Some(k);
        }
        k = k + 1;
    }
    None
}

/// Picks, for `termos connect <nickname> -q <name>`, the first quick command
/// of `conn` whose name is `name`, ASCII case aside.
pub fn find_quick_command(conn: &ServerConnection, name: &str) -> (r: Result<usize, QuickCommandLookupError>)
    ensures
        conn.quick_commands is None ==> r == Err::<usize, QuickCommandLookupError>(
            QuickCommandLookupError::NoQuickCommands,
        ),
        conn.quick_commands is Some && !has_quick_command(quick_commands_of(*conn), name@) ==> r
            == Err::<usize, QuickCommandLookupError>(QuickCommandLookupError::NotFound),
        conn.quick_commands is Some && has_quick_command(quick_commands_of(*conn), name@) ==> (
        r matches Ok(k) && is_first_quick_command(quick_commands_of(*conn), name@, k as int)),
{
    match &conn.quick_commands {
        None => Err(QuickCommandLookupError::NoQuickCommands),
        Some(v) => match find_quick_command_index(v, name) {
            Some(k) => Ok(k),
            None => Err(QuickCommandLookupError::NotFound),
        },
    }
}

/// Adds `qc` at the end of the quick commands of the server that answers to
/// `nickname`; an error when there is no such server.
pub fn add_quick_command(conns: &mut Vec<ServerConnection>, nickname: &str, qc: QuickCommand) -> (r: Result<(), String>)
    ensures
        !has_nickname(old(conns)@, nickname@) ==> {
            &&& r matches Err(e) && e@ == server_not_found_message(nickname@)
            &&& final(conns)@ == old(conns)@
        },
        has_nickname(old(conns)@, nickname@) ==> {
            &&& r is Ok
            &&& exists|i: int|
                #![trigger is_first_match(old(conns)@, nickname@, i)]
                is_first_match(old(conns)@, nickname@, i) && replaced_quick_commands(
                    old(conns)@,
                    final(conns)@,
                    i,
                    quick_commands_of(old(conns)@[i]).push(qc),
                )
        },
{
    match find_connection_index(conns, nickname) {
        None => Err(concat3("Server with nickname '", nickname, "' not found.")),
        Some(i) => {
            let mut qcs = quick_commands_at(conns, i);
            qcs.push(qc);
            set_quick_commands(conns, i, qcs);
            assert(is_first_match(old(conns)@, nickname@, i as int));
            Ok(())
        },
    }
}

/// Renames and/or changes the command of the first quick command named
/// `name` (ASCII case aside) of the server that answers to `nickname`; an
/// error when there is no such server or no such command.
pub fn edit_quick_command(
    conns: &mut Vec<ServerConnection>,
    nickname: &str,
    name: &str,
    new_name: Option<String>,
    new_cmd: Option<String>,
) -> (r: Result<(), String>)
    ensures
        !has_nickname(old(conns)@, nickname@) ==> {
            &&& r matches Err(e) && e@ == server_not_found_message(nickname@)
            &&& final(conns)@ == old(conns)@
        },
        has_nickname(old(conns)@, nickname@) ==> exists|i: int|
            #[trigger] is_first_match(old(conns)@, nickname@, i),
        forall|i: int| #[trigger]
            is_first_match(old(conns)@, nickname@, i) ==> {
                &&& !has_quick_command(quick_commands_of(old(conns)@[i]), name@) ==> {
                    &&& r matches Err(e) && e@ == quick_command_not_found_message(name@)
                    &&& final(conns)@ == old(conns)@
                }
                &&& has_quick_command(quick_commands_of(old(conns)@[i]), name@) ==> {
                    &&& r is Ok
                    &&& exists|k: int|
                        #![trigger is_first_quick_command(quick_commands_of(old(conns)@[i]), name@, k)]
                        is_first_quick_command(quick_commands_of(old(conns)@[i]), name@, k)
                            && replaced_quick_commands(
                            old(conns)@,
                            final(conns)@,
                            i,
                            quick_commands_of(old(conns)@[i]).update(
                                k,
                                edited_quick_command(
                                    quick_commands_of(old(conns)@[i])[k],
                                    new_name,
                                    new_cmd,
                                ),
                            ),
                        )
                }
            },
{
    match find_connection_index(conns, nickname) {
        None => Err(concat3("Server with nickname '", nickname, "' not found.")),
        Some(i) => {
            proof {
                lemma_first_match_unique(old(conns)@, nickname@, i as int);
                assert(is_first_match(old(conns)@, nickname@, i as int));
            }
            let mut qcs = quick_commands_at(conns, i);
            match find_quick_command_index(&qcs, name) {
                None => Err(concat3("Quick command '", name, "' not found.")),
                Some(k) => {
                    let ghost before = qcs@;
                    let q = qcs.remove(k);
                    let q2 = QuickCommand {
                        name: match new_name {
                            Some(n) => n,
                            None => q.name,
                        },
                        command: match new_cmd {
                            Some(c) => c,
                            None => q.command,
                        },
                    };
                    qcs.insert(k, q2);
                    assert(qcs@ =~= before.update(k as int, edited_quick_command(before[k as int], new_name, new_cmd)));
                    set_quick_commands(conns, i, qcs);
                    assert(is_first_quick_command(before, name@, k as int));
                    Ok(())
                },
            }
        },
    }
}

/// The first match of a nickname is at one position only.
proof fn lemma_first_match_unique(s: Seq<ServerConnection>, nick: Seq<char>, i: int)
    requires
        is_first_match(s, nick, i),
    ensures
        forall|j: int| #[trigger] is_first_match(s, nick, j) ==> j == i,
{
}

/// Removes every quick command named `name` (ASCII case aside) from the
/// server that answers to `nickname`; an error when there is no such server
/// or no such command.
pub fn delete_quick_command(conns: &mut Vec<ServerConnection>, nickname: &str, name: &str) -> (r: Result<(), String>)
    ensures
        !has_nickname(old(conns)@, nickname@) ==> {
            &&& r matches Err(e) && e@ == server_not_found_message(nickname@)
            &&& final(conns)@ == old(conns)@
        },
        has_nickname(old(conns)@, nickname@) ==> exists|i: int|
            #[trigger] is_first_match(old(conns)@, nickname@, i),
        forall|i: int| #[trigger]
            is_first_match(old(conns)@, nickname@, i) ==> {
                &&& !has_quick_command(quick_commands_of(old(conns)@[i]), name@) ==> {
                    &&& r matches Err(e) && e@ == quick_command_not_found_message(name@)
                    &&& final(conns)@ == old(conns)@
                }
                &&& has_quick_command(quick_commands_of(old(conns)@[i]), name@) ==> {
                    &&& r is Ok
                    &&& replaced_quick_commands(
                        old(conns)@,
                        final(conns)@,
                        i,
                        without_quick_command(quick_commands_of(old(conns)@[i]), name@),
                    )
                }
            },
{
    match find_connection_index(conns, nickname) {
        None => Err(concat3("Server with nickname '", nickname, "' not found.")),
        Some(i) => {
            proof {
                lemma_first_match_unique(old(conns)@, nickname@, i as int);
                assert(is_first_match(old(conns)@, nickname@, i as int));
            }
            let qcs = quick_commands_at(conns, i);
            if find_quick_command_index(&qcs, name).is_none() {
                return Err(concat3("Quick command '", name, "' not found."));
            }
            let kept = without_quick_command_vec(qcs, name);
            set_quick_commands(conns, i, kept);
            Ok(())
        },
    }
}

/// `qcs` without the quick commands that answer to `name`.
fn without_quick_command_vec(qcs: Vec<QuickCommand>, name: &str) -> (r: Vec<QuickCommand>)
    ensures
        r@ == without_quick_command(qcs@, name@),
{
    let ghost s = qcs@;
    let mut rest = qcs;
    let mut kept: Vec<QuickCommand> = Vec::new();
    let n = rest.len();
    let mut i: usize = 0;
    while i < n
        invariant
            n == s.len(),
            i <= n,
            rest@ == s.subrange(i as int, n as int),
            kept@ == without_quick_command(s.take(i as int), name@),
        decreases n - i,
    {
        let q = rest.remove(0);
        assert(rest@ =~= s.subrange(i + 1, n as int));
        assert(s.take(i + 1).drop_last() =~= s.take(i as int));
        if !eq_ignore_ascii_case(q.name.as_str(), name) {
            kept.push(q);
        }
        i = i + 1;
    }
    assert(s.take(n as int) =~= s);
    kept
}

/// An edit that succeeds gives the edited quick command the new command
/// text whenever one is given, and the new name whenever one is given, each
/// independently of the other; what is not given is kept, and the server's
/// other quick commands stay as they were.
pub proof fn law_edit_quick_command_takes_new_values(
    before: Seq<ServerConnection>,
    after: Seq<ServerConnection>,
    i: int,
    k: int,
    name: Seq<char>,
    new_name: Option<String>,
    new_cmd: Option<String>,
)
    requires
        is_first_quick_command(quick_commands_of(before[i]), name, k),
        replaced_quick_commands(
            before,
            after,
            i,
            quick_commands_of(before[i]).update(
                k,
                edited_quick_command(quick_commands_of(before[i])[k], new_name, new_cmd),
            ),
        ),
    ensures
        ({
            let old_qcs = quick_commands_of(before[i]);
            let new_qcs = quick_commands_of(after[i]);
            &&& new_qcs.len() == old_qcs.len()
            &&& new_cmd matches Some(c) ==> new_qcs[k].command == c
            &&& new_cmd is None ==> new_qcs[k].command == old_qcs[k].command
            &&& new_name matches Some(n) ==> new_qcs[k].name == n
            &&& new_name is None ==> new_qcs[k].name == old_qcs[k].name
            &&& forall|j: int| 0 <= j < old_qcs.len() && j != k ==> #[trigger] new_qcs[j] == old_qcs[j]
            &&& new_name matches Some(n) ==> has_quick_command(new_qcs, n@)
        }),
{
    let new_qcs = quick_commands_of(after[i]);
    if let Some(n) = new_name {
        lemma_eq_ignore_ascii_case_equivalence(n@, n@, n@);
        assert(names_quick_command(new_qcs[k], n@));
    }
}

/// After a quick command is added to a server, the server has a quick
/// command of that name.
pub proof fn law_add_quick_command_then_find(qcs: Seq<QuickCommand>, qc: QuickCommand)
    ensures
        has_quick_command(qcs.push(qc), qc.name@),
{
    lemma_eq_ignore_ascii_case_equivalence(qc.name@, qc.name@, qc.name@);
    assert(names_quick_command(qcs.push(qc)[qcs.len() as int], qc.name@));
}

/// After the quick commands of a name are deleted, none of that name is
/// left, and every other one is kept.
pub proof fn law_delete_quick_command_then_find(qcs: Seq<QuickCommand>, name: Seq<char>)
    ensures
        !has_quick_command(without_quick_command(qcs, name), name),
        forall|k: int|
            0 <= k < qcs.len() && !names_quick_command(qcs[k], name) ==> without_quick_command(
                qcs,
                name,
            ).contains(#[trigger] qcs[k]),
    decreases qcs.len(),
{
    if qcs.len() > 0 {
        let t = qcs.drop_last();
        law_delete_quick_command_then_find(t, name);
        let w = without_quick_command(t, name);
        if !names_quick_command(qcs.last(), name) {
            let u = w.push(qcs.last());
            assert forall|k: int| 0 <= k < u.len() implies !#[trigger] names_quick_command(u[k], name) by {
                if k < w.len() {
                    assert(u[k] == w[k]);
                }
            }
            assert(u[w.len() as int] == qcs.last());
        }
        assert forall|k: int|
            0 <= k < qcs.len() && !names_quick_command(qcs[k], name) implies without_quick_command(
            qcs,
            name,
        ).contains(#[trigger] qcs[k]) by {
            if k < qcs.len() - 1 {
                assert(qcs[k] == t[k]);
                let j = choose|j: int| 0 <= j < w.len() && w[j] == t[k];
                if !names_quick_command(qcs.last(), name) {
                    assert(w.push(qcs.last())[j] == w[j]);
                }
            } else {
                assert(w.push(qcs.last())[w.len() as int] == qcs[k]);
            }
        }
    }
}

/// Changing the quick commands of a server changes no nickname: the
/// nicknames stay unique and every nickname finds a server with the same
/// settings as before.
pub proof fn law_quick_command_changes_keep_nicknames(
    before: Seq<ServerConnection>,
    after: Seq<ServerConnection>,
    i: int,
    qcs: Seq<QuickCommand>,
)
    requires
        replaced_quick_commands(before, after, i, qcs),
    ensures
        unique_nicknames(before) ==> unique_nicknames(after),
        forall|nick: Seq<char>|
            #![trigger has_nickname(after, nick)]
            has_nickname(after, nick) == has_nickname(before, nick),
{
    assert forall|j: int| 0 <= j < after.len() implies #[trigger] after[j].nickname == before[j].nickname by {
        if j != i {
            assert(after[j] == before[j]);
        }
    }
    assert forall|nick: Seq<char>|
        #![trigger has_nickname(after, nick)]
        has_nickname(after, nick) == has_nickname(before, nick) by {
        if has_nickname(after, nick) {
            let k = choose|k: int| 0 <= k < after.len() && #[trigger] matches_nickname(after[k], nick);
            assert(after[k].nickname == before[k].nickname);
            assert(matches_nickname(before[k], nick));
        }
        if has_nickname(before, nick) {
            let k = choose|k: int| 0 <= k < before.len() && #[trigger] matches_nickname(before[k], nick);
            assert(after[k].nickname == before[k].nickname);
            assert(matches_nickname(after[k], nick));
        }
    }
    if unique_nicknames(before) {
        assert forall|a: int, b: int|
            0 <= a < after.len() && 0 <= b < after.len() && a != b implies !eq_ignore_ascii_case_seq(
            #[trigger] after[a].nickname@,
            #[trigger] after[b].nickname@,
        ) by {
            assert(after[a].nickname == before[a].nickname);
            assert(after[b].nickname == before[b].nickname);
            assert(!eq_ignore_ascii_case_seq(before[a].nickname@, before[b].nickname@));
        }
    }
}

/// Some connection of `s` other than the one at `i` answers to `nick`.
pub open spec fn has_other_nickname(s: Seq<ServerConnection>, i: int, nick: Seq<char>) -> bool {
    exists|j: int| 0 <= j < s.len() && j != i && #[trigger] matches_nickname(s[j], nick)
}

/// Replaces the server that answers to `nickname` by `conn`, as the edit of
/// a server from the dashboard saves it; an error when there is no such
/// server, or when another server already answers to the nickname of
/// `conn`.
pub fn update_connection(conns: &mut Vec<ServerConnection>, nickname: &str, conn: ServerConnection) -> (r: Result<(), String>)
    ensures
        !has_nickname(old(conns)@, nickname@) ==> {
            &&& r matches Err(e) && e@ == server_not_found_message(nickname@)
            &&& final(conns)@ == old(conns)@
        },
        has_nickname(old(conns)@, nickname@) ==> exists|i: int|
            #[trigger] is_first_match(old(conns)@, nickname@, i),
        forall|i: int| #[trigger]
            is_first_match(old(conns)@, nickname@, i) ==> {
                &&& has_other_nickname(old(conns)@, i, conn.nickname@) ==> {
                    &&& r matches Err(e) && e@ == duplicate_message(conn.nickname@)
                    &&& final(conns)@ == old(conns)@
                }
                &&& !has_other_nickname(old(conns)@, i, conn.nickname@) ==> {
                    &&& r is Ok
                    &&& final(conns)@ == old(conns)@.update(i, conn)
                }
            },
{
    match find_connection_index(conns, nickname) {
        None => Err(concat3("Server with nickname '", nickname, "' not found.")),
        Some(i) => {
            proof {
                lemma_first_match_unique(old(conns)@, nickname@, i as int);
                assert(is_first_match(old(conns)@, nickname@, i as int));
            }
            let mut j: usize = 0;
            while j < conns.len()
                invariant
                    conns@ == old(conns)@,
                    is_first_match(old(conns)@, nickname@, i as int),
                    forall|k: int| #[trigger] is_first_match(old(conns)@, nickname@, k) ==> k == i,
                    i < conns.len(),
                    j <= conns.len(),
                    forall|k: int|
                        0 <= k < j && k != i ==> !#[trigger] matches_nickname(conns@[k], conn.nickname@),
                decreases conns.len() - j,
            {
                if j != i && eq_ignore_ascii_case(conns[j].nickname.as_str(), conn.nickname.as_str()) {
                    assert(matches_nickname(conns@[j as int], conn.nickname@));
                    return Err(concat3("A connection with nickname '", conn.nickname.as_str(), "' already exists."));
                }
                j = j + 1;
            }
            conns.remove(i);
            conns.insert(i, conn);
            assert(conns@ =~= old(conns)@.update(i as int, conn));
            Ok(())
        },
    }
}

} // verus!
