//! The command lines and environments handed to the system `ssh` binary.
//!
//! A password never goes on the command line: `ssh` is told to ask the
//! program itself for it (`SSH_ASKPASS`), and the program answers with the
//! password it finds in its environment.

use vstd::prelude::*;
use crate::storage::ServerConnection;
use crate::text::{decimal, decimal_u16, string_from_chars, concat3};

verus! {

/// The arguments for `ssh` to reach `c`, then run `command` there when one
/// is given (an interactive shell otherwise).
pub open spec fn ssh_args_spec(c: ServerConnection, command: Option<Seq<char>>) -> Seq<Seq<char>> {
    let base = seq![
        "-p"@,
        decimal(c.port as nat),
        "-o"@,
        "ServerAliveInterval=15"@,
        "-o"@,
        "ServerAliveCountMax=3"@,
    ];
    let with_key = match c.ssh_key {
        Some(k) => base + seq!["-i"@, k@],
        None => base,
    };
    let with_target = with_key.push(c.username@ + "@"@ + c.host@);
    match command {
        Some(x) => with_target.push(x),
        None => with_target,
    }
}

/// The text of each string of `v`.
pub open spec fn texts(v: Seq<String>) -> Seq<Seq<char>> {
    v.map_values(|s: String| s@)
}

fn push_text(v: &mut Vec<String>, s: String)
    ensures
        texts(final(v)@) == texts(old(v)@).push(s@),
{
    v.push(s);
    assert(texts(v@) =~= texts(old(v)@).push(s@));
}

/// The arguments for `ssh` to reach `conn`, then run `command` there when
/// one is given.
pub fn ssh_args(conn: &ServerConnection, command: Option<&str>) -> (r: Vec<String>)
    ensures
        texts(r@) == ssh_args_spec(
            *conn,
            match command {
                Some(x) => Some(x@),
                None => None,
            },
        ),
{
    let mut v: Vec<String> = Vec::new();
    assert(texts(v@) =~= Seq::<Seq<char>>::empty());
    push_text(&mut v, String::from_str("-p"));
    push_text(&mut v, string_from_chars(&decimal_u16(conn.port)));
    push_text(&mut v, String::from_str("-o"));
    push_text(&mut v, String::from_str("ServerAliveInterval=15"));
    push_text(&mut v, String::from_str("-o"));
    push_text(&mut v, String::from_str("ServerAliveCountMax=3"));
    let ghost base = texts(v@);
    match &conn.ssh_key {
        Some(k) => {
            push_text(&mut v, String::from_str("-i"));
            push_text(&mut v, k.clone());
            assert(texts(v@) =~= base + seq!["-i"@, k@]);
        },
        None => {},
    }
    push_text(&mut v, concat3(conn.username.as_str(), "@", conn.host.as_str()));
    match command {
        Some(x) => push_text(&mut v, String::from_str(x)),
        None => {},
    }
    v
}

/// The value of an environment variable set for `ssh`.
pub enum EnvValue {
    /// The path of the running program, which `ssh` calls to get the
    /// password.
    CurrentExe,
    Text(String),
}

/// An environment variable set for `ssh`.
pub struct EnvSetting {
    pub name: String,
    pub value: EnvValue,
}

/// A setting by view: its name and its text, none for the program's path.
pub open spec fn setting_view(e: EnvSetting) -> (Seq<char>, Option<Seq<char>>) {
    (
        e.name@,
        match e.value {
            EnvValue::CurrentExe => None,
            EnvValue::Text(s) => Some(s@),
        },
    )
}

/// The environment that hands the password of `c` to `ssh`: nothing when
/// it has none; otherwise the program itself as `SSH_ASKPASS`, forced, the
/// password in `TERMOS_ASKPASS_PASSWORD`, and `DISPLAY` set to `:0` when the
/// environment had no `DISPLAY`.
pub open spec fn askpass_env_spec(c: ServerConnection, display_set: bool) -> Seq<
    (Seq<char>, Option<Seq<char>>),
> {
    match c.password {
        None => Seq::empty(),
        Some(p) => {
            let base = seq![
                ("SSH_ASKPASS"@, None),
                ("SSH_ASKPASS_REQUIRE"@, Some("force"@)),
                ("TERMOS_ASKPASS_PASSWORD"@, Some(p@)),
            ];
            if display_set {
                base
            } else {
                base.push(("DISPLAY"@, Some(":0"@)))
            }
        },
    }
}

fn push_setting(v: &mut Vec<EnvSetting>, name: &str, value: EnvValue)
    ensures
        final(v)@.map_values(|e: EnvSetting| setting_view(e)) == old(v)@.map_values(
            |e: EnvSetting| setting_view(e),
        ).push(
            (
                name@,
                match value {
                    EnvValue::CurrentExe => None,
                    EnvValue::Text(s) => Some(s@),
                },
            ),
        ),
{
    let ghost val = value;
    v.push(EnvSetting { name: String::from_str(name), value });
    assert(v@.map_values(|e: EnvSetting| setting_view(e)) =~= old(v)@.map_values(
        |e: EnvSetting| setting_view(e),
    ).push(setting_view(EnvSetting { name: v@.last().name, value: val })));
}

/// The environment that hands the password of `conn` to `ssh`;
/// `display_set` tells whether `DISPLAY` is set already.
pub fn askpass_env(conn: &ServerConnection, display_set: bool) -> (r: Vec<EnvSetting>)
    ensures
        r@.map_values(|e: EnvSetting| setting_view(e)) == askpass_env_spec(*conn, display_set),
{
    let mut v: Vec<EnvSetting> = Vec::new();
    match &conn.password {
        None => {
            assert(v@.map_values(|e: EnvSetting| setting_view(e)) =~= Seq::<
                (Seq<char>, Option<Seq<char>>),
            >::empty());
        },
        Some(p) => {
            assert(v@.map_values(|e: EnvSetting| setting_view(e)) =~= Seq::<
                (Seq<char>, Option<Seq<char>>),
            >::empty());
            push_setting(&mut v, "SSH_ASKPASS", EnvValue::CurrentExe);
            push_setting(&mut v, "SSH_ASKPASS_REQUIRE", EnvValue::Text(String::from_str("force")));
            push_setting(&mut v, "TERMOS_ASKPASS_PASSWORD", EnvValue::Text(p.clone()));
            if !display_set {
                push_setting(&mut v, "DISPLAY", EnvValue::Text(String::from_str(":0")));
            }
            proof {
                let base = seq![
                    ("SSH_ASKPASS"@, None),
                    ("SSH_ASKPASS_REQUIRE"@, Some("force"@)),
                    ("TERMOS_ASKPASS_PASSWORD"@, Some(p@)),
                ];
                if display_set {
                    assert(v@.map_values(|e: EnvSetting| setting_view(e)) =~= base);
                } else {
                    assert(v@.map_values(|e: EnvSetting| setting_view(e)) =~= base.push(
                        ("DISPLAY"@, Some(":0"@)),
                    ));
                }
            }
        },
    }
    v
}

/// The command line never depends on the password: two connections that
/// differ in nothing else give the same arguments.
pub proof fn law_password_not_in_args(
    a: ServerConnection,
    b: ServerConnection,
    command: Option<Seq<char>>,
)
    requires
        a.nickname == b.nickname,
        a.host == b.host,
        a.port == b.port,
        a.username == b.username,
        a.ssh_key == b.ssh_key,
    ensures
        ssh_args_spec(a, command) == ssh_args_spec(b, command),
{
}

/// A remote command only appends: the arguments for running `x` are those
/// of the interactive shell with `x` added at the end.
pub proof fn law_command_only_appends(c: ServerConnection, x: Seq<char>)
    ensures
        ssh_args_spec(c, Some(x)) == ssh_args_spec(c, None).push(x),
{
}

/// Whatever is run, the port comes first (`-p` and its number), a key file
/// is always passed (`-i` immediately followed by its path) when the server
/// has one, and the target `user@host` comes right after the options,
/// followed only by the remote command when there is one.
pub proof fn law_args_layout(c: ServerConnection, command: Option<Seq<char>>)
    ensures
        ({
            let a = ssh_args_spec(c, command);
            let t = if c.ssh_key is Some { 8int } else { 6int };
            &&& a[0] == "-p"@
            &&& a[1] == decimal(c.port as nat)
            &&& c.ssh_key matches Some(k) ==> a[6] == "-i"@ && a[7] == k@
            &&& a[t] == c.username@ + "@"@ + c.host@
            &&& a.len() == t + 1 + if command is Some { 1int } else { 0int }
            &&& command matches Some(x) ==> a[t + 1] == x
        }),
{
}

/// The spinner frame shown at `step` of the connecting animation.
pub open spec fn frame_spec(k: int) -> Seq<char> {
    if k == 0 {
        "\u{280b}"@
    } else if k == 1 {
        "\u{2819}"@
    } else if k == 2 {
        "\u{2839}"@
    } else if k == 3 {
        "\u{2838}"@
    } else if k == 4 {
        "\u{283c}"@
    } else if k == 5 {
        "\u{2834}"@
    } else if k == 6 {
        "\u{2826}"@
    } else if k == 7 {
        "\u{2827}"@
    } else if k == 8 {
        "\u{2807}"@
    } else {
        "\u{280f}"@
    }
}

/// The number of steps of the connecting animation.
pub const CONNECT_STEPS: usize = 15;

/// The spinner frame of a step: the ten frames in turn.
pub fn connecting_frame(step: usize) -> (r: &'static str)
    ensures
        r@ == frame_spec((step % 10) as int),
{
    let k = step % 10;
    if k == 0 {
        "\u{280b}"
    } else if k == 1 {
        "\u{2819}"
    } else if k == 2 {
        "\u{2839}"
    } else if k == 3 {
        "\u{2838}"
    } else if k == 4 {
        "\u{283c}"
    } else if k == 5 {
        "\u{2834}"
    } else if k == 6 {
        "\u{2826}"
    } else if k == 7 {
        "\u{2827}"
    } else if k == 8 {
        "\u{2807}"
    } else {
        "\u{280f}"
    }
}

/// The status line of a step of the connecting animation.
pub fn connecting_status(step: usize) -> (r: &'static str)
    ensures
        r@ == if step < 5 {
            "Resolving hostname..."@
        } else if step < 10 {
            "Negotiating secure port..."@
        } else {
            "Passing credentials to SSH..."@
        },
{
    if step < 5 {
        "Resolving hostname..."
    } else if step < 10 {
        "Negotiating secure port..."
    } else {
        "Passing credentials to SSH..."
    }
}

} // verus!
