//! The two input forms: the server wizard, which adds or edits a saved
//! connection, and the quick-command wizard.

use vstd::prelude::*;
use crate::tui::form::{form_step, edited_in_place, FormField, FormState, FormStep};
use crate::input::KeyPress;
use crate::storage::{copy_quick_commands, quick_commands_of, QuickCommand, ServerConnection};
use crate::text::{
    decimal, decimal_u16, lemma_decimal_digits, lemma_port_roundtrip, parse_u16, parse_u16_spec,
    string_from_chars, trim, trim_end, trim_start, trimmed, is_white_space, is_digit,
};

verus! {

/// The settings of a connection, its text taken by view.
pub struct SettingsView {
    pub nickname: Seq<char>,
    pub host: Seq<char>,
    pub port: u16,
    pub username: Seq<char>,
    pub password: Option<Seq<char>>,
    pub ssh_key: Option<Seq<char>>,
    pub group: Option<Seq<char>>,
}

/// The text of an optional string.
pub open spec fn opt_view(o: Option<String>) -> Option<Seq<char>> {
    match o {
        Some(s) => Some(s@),
        None => None,
    }
}

/// The text of an optional string, empty when there is none.
pub open spec fn text_or_empty(o: Option<String>) -> Seq<char> {
    match o {
        Some(s) => s@,
        None => Seq::empty(),
    }
}

/// `s`, or nothing when `s` is empty.
pub open spec fn nonempty(s: Seq<char>) -> Option<Seq<char>> {
    if s.len() == 0 {
        None
    } else {
        Some(s)
    }
}

/// The settings of `c`.
pub open spec fn settings_view(c: ServerConnection) -> SettingsView {
    SettingsView {
        nickname: c.nickname@,
        host: c.host@,
        port: c.port,
        username: c.username@,
        password: opt_view(c.password),
        ssh_key: opt_view(c.ssh_key),
        group: opt_view(c.group),
    }
}

/// The texts of the fields of a form.
pub open spec fn field_values(fields: Seq<FormField>) -> Seq<Seq<char>> {
    Seq::new(fields.len(), |i: int| fields[i].value@)
}

/// What the server wizard saves from the texts `v` of its seven fields
/// (nickname, host, port, username, password, key path, group), or the
/// error it shows.
pub open spec fn build_settings(v: Seq<Seq<char>>) -> Result<SettingsView, Seq<char>> {
    let nickname = trim(v[0]);
    let host = trim(v[1]);
    let port = trim(v[2]);
    let username = trim(v[3]);
    if nickname.len() == 0 {
        Err("Nickname cannot be empty."@)
    } else if host.len() == 0 {
        Err("IP / Hostname cannot be empty."@)
    } else if username.len() == 0 {
        Err("Username cannot be empty."@)
    } else {
        match parse_u16_spec(port) {
            None => Err("Invalid port number (1-65535)."@),
            Some(p) => Ok(
                SettingsView {
                    nickname,
                    host,
                    port: p,
                    username,
                    password: nonempty(trim(v[4])),
                    ssh_key: nonempty(trim(v[5])),
                    group: nonempty(trim(v[6])),
                },
            ),
        }
    }
}

/// The quick commands that an edit keeps: those of the edited connection.
pub open spec fn kept_quick_commands(existing: Option<&ServerConnection>) -> Option<
    Seq<QuickCommand>,
> {
    match existing {
        Some(e) => match e.quick_commands {
            Some(v) => Some(v@),
            None => None,
        },
        None => None,
    }
}

/// The list of quick commands of `c`, by view.
pub open spec fn quick_commands_view(c: ServerConnection) -> Option<Seq<QuickCommand>> {
    match c.quick_commands {
        Some(v) => Some(v@),
        None => None,
    }
}

/// The texts the server wizard starts with: those of the connection being
/// edited, or the defaults for a new one.
pub open spec fn server_form_values(existing: Option<&ServerConnection>) -> Seq<Seq<char>> {
    match existing {
        Some(e) => seq![
            e.nickname@,
            e.host@,
            decimal(e.port as nat),
            e.username@,
            text_or_empty(e.password),
            text_or_empty(e.ssh_key),
            text_or_empty(e.group),
        ],
        None => seq![
            Seq::empty(),
            Seq::empty(),
            "22"@,
            "root"@,
            Seq::empty(),
            Seq::empty(),
            Seq::empty(),
        ],
    }
}

/// A fresh form: focus on the first field, no error, every cursor at the
/// end of its text and nothing scrolled.
pub open spec fn fresh_form(f: FormState, values: Seq<Seq<char>>) -> bool {
    &&& f.fields.len() == values.len()
    &&& field_values(f.fields@) == values
    &&& f.active_idx == 0
    &&& f.error_msg is None
    &&& forall|i: int|
        0 <= i < f.fields.len() ==> {
            &&& #[trigger] f.fields@[i].cursor_pos == values[i].len()
            &&& f.fields@[i].scroll_offset == 0
        }
}

fn field(
    label: &'static str,
    value: String,
    is_password: bool,
    placeholder: &'static str,
) -> (f: FormField)
    ensures
        f.label == label,
        f.value == value,
        f.is_password == is_password,
        f.placeholder == placeholder,
        f.cursor_pos == value@.len(),
        f.scroll_offset == 0,
{
    let n = value.as_str().unicode_len();
    FormField { label, value, is_password, placeholder, cursor_pos: n, scroll_offset: 0 }
}

fn text_or_empty_string(o: &Option<String>) -> (r: String)
    ensures
        r@ == text_or_empty(*o),
{
    match o {
        Some(s) => s.clone(),
        None => String::new(),
    }
}

/// The server wizard, filled with `existing` when a connection is edited.
pub fn server_form(existing: Option<&ServerConnection>) -> (f: FormState)
    ensures
        fresh_form(f, server_form_values(existing)),
        f.well_formed(),
        f.cursors_in_text(),
        f.fields.len() == 7,
        f.fields@[0].label == "Nickname",
        f.fields@[1].label == "IP / Hostname",
        f.fields@[2].label == "Port",
        f.fields@[3].label == "Username",
        f.fields@[4].label == "Password (Optional)",
        f.fields@[5].label == "SSH Key Path (Optional)",
        f.fields@[6].label == "Group (Optional)",
        f.fields@[0].placeholder == "e.g. my-server",
        f.fields@[1].placeholder == "e.g. 192.168.1.100",
        f.fields@[2].placeholder == "22",
        f.fields@[3].placeholder == "root",
        f.fields@[4].placeholder == "\u{2022}\u{2022}\u{2022}\u{2022}\u{2022}\u{2022}\u{2022}\u{2022}",
        f.fields@[5].placeholder == "e.g. /home/user/.ssh/id_rsa",
        f.fields@[6].placeholder == "e.g. production",
        forall|i: int| 0 <= i < 7 ==> (#[trigger] f.fields@[i].is_password <==> i == 4),
{
    let (nick, host, port, user, pass, key, grp) = match existing {
        Some(e) => (
            e.nickname.clone(),
            e.host.clone(),
            string_from_chars(&decimal_u16(e.port)),
            e.username.clone(),
            text_or_empty_string(&e.password),
            text_or_empty_string(&e.ssh_key),
            text_or_empty_string(&e.group),
        ),
        None => (
            String::new(),
            String::new(),
            String::from_str("22"),
            String::from_str("root"),
            String::new(),
            String::new(),
            String::new(),
        ),
    };
    let mut fields: Vec<FormField> = Vec::new();
    fields.push(field("Nickname", nick, false, "e.g. my-server"));
    fields.push(field("IP / Hostname", host, false, "e.g. 192.168.1.100"));
    fields.push(field("Port", port, false, "22"));
    fields.push(field("Username", user, false, "root"));
    fields.push(field("Password (Optional)", pass, true, "\u{2022}\u{2022}\u{2022}\u{2022}\u{2022}\u{2022}\u{2022}\u{2022}"));
    fields.push(field("SSH Key Path (Optional)", key, false, "e.g. /home/user/.ssh/id_rsa"));
    fields.push(field("Group (Optional)", grp, false, "e.g. production"));
    let f = FormState { fields, active_idx: 0, error_msg: None };
    assert(field_values(f.fields@) =~= server_form_values(existing));
    f
}

fn optional_text(v: Vec<char>) -> (r: Option<String>)
    ensures
        opt_view(r) == nonempty(v@),
{
    if v.len() == 0 {
        None
    } else {
        Some(string_from_chars(&v))
    }
}

/// Checks the seven fields of the server wizard and builds the connection
/// they describe; an edit keeps the quick commands of `existing`.
pub fn validate_and_build(fields: &[FormField], existing: Option<&ServerConnection>) -> (r: Result<
    ServerConnection,
    String,
>)
    requires
        fields@.len() >= 7,
    ensures
        match r {
            Ok(c) => {
                &&& build_settings(field_values(fields@)) == Ok::<SettingsView, Seq<char>>(
                    settings_view(c),
                )
                &&& quick_commands_view(c) == kept_quick_commands(
                    existing,
                )
            },
            Err(e) => build_settings(field_values(fields@)) == Err::<SettingsView, Seq<char>>(
                e@,
            ),
        },
{
    let ghost v = field_values(fields@);
    let nickname = trimmed(fields[0].value.as_str());
    let host = trimmed(fields[1].value.as_str());
    let port_str = trimmed(fields[2].value.as_str());
    let username = trimmed(fields[3].value.as_str());
    let password = trimmed(fields[4].value.as_str());
    let ssh_key = trimmed(fields[5].value.as_str());
    let group = trimmed(fields[6].value.as_str());
    assert(v[0] == fields@[0].value@ && v[1] == fields@[1].value@ && v[2] == fields@[2].value@
        && v[3] == fields@[3].value@ && v[4] == fields@[4].value@ && v[5] == fields@[5].value@
        && v[6] == fields@[6].value@);
    if nickname.len() == 0 {
        return Err(String::from_str("Nickname cannot be empty."));
    }
    if host.len() == 0 {
        return Err(String::from_str("IP / Hostname cannot be empty."));
    }
    if username.len() == 0 {
        return Err(String::from_str("Username cannot be empty."));
    }
    let port = match parse_u16(&port_str) {
        Some(p) => p,
        None => {
            return Err(String::from_str("Invalid port number (1-65535)."));
        },
    };
    let quick_commands = match existing {
        Some(e) => match &e.quick_commands {
            Some(qs) => Some(copy_quick_commands(qs)),
            None => None,
        },
        None => None,
    };
    Ok(
        ServerConnection {
            nickname: string_from_chars(&nickname),
            host: string_from_chars(&host),
            port,
            username: string_from_chars(&username),
            password: optional_text(password),
            ssh_key: optional_text(ssh_key),
            group: optional_text(group),
            quick_commands,
        },
    )
}

/// Where the server wizard stands after a key press.
pub enum WizardOutcome {
    /// The form stays open.
    Continue,
    /// The form was left without saving.
    Cancelled,
    /// The form was saved as this connection.
    Saved(ServerConnection),
}

/// Reacts to a key press in the server wizard: moves the focus, edits the
/// focused field, or, on Control-S or SAVE, validates the form, saving it
/// or showing the error.
pub fn server_wizard_step(
    form: &mut FormState,
    press: KeyPress,
    existing: Option<&ServerConnection>,
) -> (r: WizardOutcome)
    requires
        old(form).well_formed(),
        old(form).fields.len() == 7,
    ensures
        final(form).well_formed(),
        final(form).fields.len() == 7,
        old(form).cursors_in_text() ==> final(form).cursors_in_text(),
        ({
            let step = form_step(old(form).active_idx as int, 7, press, true);
            let built = build_settings(field_values(old(form).fields@));
            &&& step is Cancel ==> r is Cancelled && *final(form) == *old(form)
            &&& step is Stay ==> r is Continue && edited_in_place(*old(form), *final(form), press.key)
            &&& step is Submit ==> match built {
                Ok(s) => {
                    &&& r matches WizardOutcome::Saved(c) && settings_view(c) == s
                        && quick_commands_view(c) == kept_quick_commands(
                        existing,
                    )
                    &&& *final(form) == *old(form)
                },
                Err(m) => {
                    &&& r is Continue
                    &&& final(form).error_msg matches Some(e) && e@ == m
                    &&& final(form).fields@ == old(form).fields@
                    &&& final(form).active_idx == old(form).active_idx
                },
            }
        }),
{
    match form.handle_key(press, true) {
        FormStep::Stay => WizardOutcome::Continue,
        FormStep::Cancel => WizardOutcome::Cancelled,
        FormStep::Submit => match validate_and_build(form.fields.as_slice(), existing) {
            Ok(c) => WizardOutcome::Saved(c),
            Err(e) => {
                form.error_msg = Some(e);
                WizardOutcome::Continue
            },
        },
    }
}

/// The texts the quick-command wizard starts with.
pub open spec fn quick_command_form_values(existing: Option<&QuickCommand>) -> Seq<Seq<char>> {
    match existing {
        Some(q) => seq![q.name@, q.command@],
        None => seq![Seq::empty(), Seq::empty()],
    }
}

/// The quick-command wizard, filled with `existing` when a command is
/// edited.
pub fn quick_command_form(existing: Option<&QuickCommand>) -> (f: FormState)
    ensures
        fresh_form(f, quick_command_form_values(existing)),
        f.well_formed(),
        f.cursors_in_text(),
        f.fields.len() == 2,
        f.fields@[0].label == "Command Name",
        f.fields@[1].label == "SSH Command",
        f.fields@[0].placeholder == "e.g. Disk Usage",
        f.fields@[1].placeholder == "e.g. df -h",
        !f.fields@[0].is_password && !f.fields@[1].is_password,
{
    let (name, cmd) = match existing {
        Some(q) => (q.name.clone(), q.command.clone()),
        None => (String::new(), String::new()),
    };
    let mut fields: Vec<FormField> = Vec::new();
    fields.push(field("Command Name", name, false, "e.g. Disk Usage"));
    fields.push(field("SSH Command", cmd, false, "e.g. df -h"));
    let f = FormState { fields, active_idx: 0, error_msg: None };
    assert(field_values(f.fields@) =~= quick_command_form_values(existing));
    f
}

/// What the quick-command wizard saves from the texts `v` of its two
/// fields, or the error it shows.
pub open spec fn build_quick_command(v: Seq<Seq<char>>) -> Result<(Seq<char>, Seq<char>), Seq<char>> {
    if trim(v[0]).len() == 0 || trim(v[1]).len() == 0 {
        Err("Fields cannot be empty."@)
    } else {
        Ok((trim(v[0]), trim(v[1])))
    }
}

/// Where the quick-command wizard stands after a key press.
pub enum QuickCommandWizardOutcome {
    Continue,
    Cancelled,
    Saved(QuickCommand),
}

/// Reacts to a key press in the quick-command wizard: moves the focus,
/// edits the focused field, or, on Control-S or SAVE, checks that neither
/// field is blank, saving the command or showing the error.
pub fn quick_command_wizard_step(form: &mut FormState, press: KeyPress) -> (r:
    QuickCommandWizardOutcome)
    requires
        old(form).well_formed(),
        old(form).fields.len() == 2,
    ensures
        final(form).well_formed(),
        final(form).fields.len() == 2,
        old(form).cursors_in_text() ==> final(form).cursors_in_text(),
        ({
            let step = form_step(old(form).active_idx as int, 2, press, true);
            let built = build_quick_command(field_values(old(form).fields@));
            &&& step is Cancel ==> r is Cancelled && *final(form) == *old(form)
            &&& step is Stay ==> r is Continue && edited_in_place(*old(form), *final(form), press.key)
            &&& step is Submit ==> match built {
                Ok((name, command)) => {
                    &&& r matches QuickCommandWizardOutcome::Saved(q) && q.name@ == name
                        && q.command@ == command
                    &&& *final(form) == *old(form)
                },
                Err(m) => {
                    &&& r is Continue
                    &&& final(form).error_msg matches Some(e) && e@ == m
                    &&& final(form).fields@ == old(form).fields@
                    &&& final(form).active_idx == old(form).active_idx
                },
            }
        }),
{
    match form.handle_key(press, true) {
        FormStep::Stay => QuickCommandWizardOutcome::Continue,
        FormStep::Cancel => QuickCommandWizardOutcome::Cancelled,
        FormStep::Submit => {
            let ghost v = field_values(form.fields@);
            let name = trimmed(form.fields[0].value.as_str());
            let command = trimmed(form.fields[1].value.as_str());
            assert(v[0] == form.fields@[0].value@ && v[1] == form.fields@[1].value@);
            if name.len() == 0 || command.len() == 0 {
                form.error_msg = Some(String::from_str("Fields cannot be empty."));
                QuickCommandWizardOutcome::Continue
            } else {
                QuickCommandWizardOutcome::Saved(
                    QuickCommand { name: string_from_chars(&name), command: string_from_chars(&command) },
                )
            }
        },
    }
}

/// `s` has no white space at either end.
pub open spec fn is_trimmed(s: Seq<char>) -> bool {
    s.len() == 0 || (!is_white_space(s[0]) && !is_white_space(s.last()))
}

/// Trimming text with no white space at either end changes nothing.
pub proof fn lemma_trim_trimmed(s: Seq<char>)
    requires
        is_trimmed(s),
    ensures
        trim(s) == s,
{
    assert(trim_start(s) == s);
    assert(trim_end(s) == s);
}

/// The optional text `o` is absent, or present, not blank at its ends and
/// not empty.
pub open spec fn clean_optional(o: Option<String>) -> bool {
    match o {
        Some(s) => s@.len() > 0 && is_trimmed(s@),
        None => true,
    }
}

/// Opening the server wizard on a connection and saving right away gives the
/// same settings back, for a connection whose texts carry no white space at
/// their ends, whose nickname, host and username are not empty, and whose
/// optional texts are not empty when present.
pub proof fn law_edit_wizard_roundtrip(e: &ServerConnection)
    requires
        e.nickname@.len() > 0 && is_trimmed(e.nickname@),
        e.host@.len() > 0 && is_trimmed(e.host@),
        e.username@.len() > 0 && is_trimmed(e.username@),
        clean_optional(e.password),
        clean_optional(e.ssh_key),
        clean_optional(e.group),
    ensures
        build_settings(server_form_values(Some(e))) == Ok::<SettingsView, Seq<char>>(
            settings_view(*e),
        ),
{
    let v = server_form_values(Some(e));
    lemma_trim_trimmed(e.nickname@);
    lemma_trim_trimmed(e.host@);
    lemma_trim_trimmed(e.username@);
    lemma_trim_trimmed(text_or_empty(e.password));
    lemma_trim_trimmed(text_or_empty(e.ssh_key));
    lemma_trim_trimmed(text_or_empty(e.group));
    let d = decimal(e.port as nat);
    lemma_decimal_digits(e.port as nat);
    assert(is_digit(d[0]));
    assert(is_digit(d[d.len() - 1]));
    lemma_trim_trimmed(d);
    lemma_port_roundtrip(e.port);
    assert(v[2] == d);
}

} // verus!
