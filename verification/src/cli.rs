//! The `termos quick-command` subcommands and what each of them leads to.

use vstd::prelude::*;
use crate::storage::QuickCommand;
use crate::tui::qc_manager::QcMode;

verus! {

/// The `quick-command` (`qc`) subcommands as the command line gives them.
pub enum QcCommands {
    /// List quick commands (interactive if the nickname is omitted).
    List { nickname: Option<String> },
    /// Add a quick command (interactive if a parameter is omitted).
    Add { nickname: Option<String>, name: Option<String>, cmd: Option<String> },
    /// Edit a quick command (interactive if the nickname or the name is
    /// omitted).
    Edit {
        nickname: Option<String>,
        name: Option<String>,
        new_name: Option<String>,
        new_cmd: Option<String>,
    },
    /// Delete a quick command (interactive if the nickname or the name is
    /// omitted).
    Delete { nickname: Option<String>, name: Option<String> },
}

/// What a `quick-command` subcommand leads to.
pub enum QcPlan {
    /// Open the quick-command manager.
    Manager { nickname: Option<String>, mode: QcMode },
    /// Add the command to the server directly.
    AddDirect { nickname: String, command: QuickCommand },
    /// Edit the command of the server directly.
    EditDirect {
        nickname: String,
        name: String,
        new_name: Option<String>,
        new_cmd: Option<String>,
    },
    /// Delete the command of the server directly.
    DeleteDirect { nickname: String, name: String },
    /// An edit named neither a new name nor a new command.
    MissingEditValue,
}

/// Decides what a `quick-command` subcommand does: with all its parameters
/// it acts on the store directly, otherwise it opens the manager in the
/// matching mode.
pub fn plan_qc_command(cmd: QcCommands) -> (r: QcPlan)
    ensures
        match cmd {
            QcCommands::List { nickname } => r == QcPlan::Manager { nickname, mode: QcMode::List },
            QcCommands::Add { nickname, name, cmd } => match (nickname, name, cmd) {
                (Some(n), Some(a), Some(c)) => r == QcPlan::AddDirect {
                    nickname: n,
                    command: QuickCommand { name: a, command: c },
                },
                _ => r == QcPlan::Manager { nickname, mode: QcMode::Add },
            },
            QcCommands::Edit { nickname, name, new_name, new_cmd } => match (nickname, name) {
                (Some(n), Some(a)) => if new_name is None && new_cmd is None {
                    r == QcPlan::MissingEditValue
                } else {
                    r == QcPlan::EditDirect { nickname: n, name: a, new_name, new_cmd }
                },
                _ => r == QcPlan::Manager { nickname, mode: QcMode::Edit },
            },
            QcCommands::Delete { nickname, name } => match (nickname, name) {
                (Some(n), Some(a)) => r == QcPlan::DeleteDirect { nickname: n, name: a },
                _ => r == QcPlan::Manager { nickname, mode: QcMode::Delete },
            },
        },
{
    match cmd {
        QcCommands::List { nickname } => QcPlan::Manager { nickname, mode: QcMode::List },
        QcCommands::Add { nickname, name, cmd } => match (nickname, name, cmd) {
            (Some(n), Some(a), Some(c)) => QcPlan::AddDirect {
                nickname: n,
                command: QuickCommand { name: a, command: c },
            },
            (nickname, _, _) => QcPlan::Manager { nickname, mode: QcMode::Add },
        },
        QcCommands::Edit { nickname, name, new_name, new_cmd } => match (nickname, name) {
            (Some(n), Some(a)) => {
                if new_name.is_none() && new_cmd.is_none() {
                    QcPlan::MissingEditValue
                } else {
                    QcPlan::EditDirect { nickname: n, name: a, new_name, new_cmd }
                }
            },
            (nickname, _) => QcPlan::Manager { nickname, mode: QcMode::Edit },
        },
        QcCommands::Delete { nickname, name } => match (nickname, name) {
            (Some(n), Some(a)) => QcPlan::DeleteDirect { nickname: n, name: a },
            (nickname, _) => QcPlan::Manager { nickname, mode: QcMode::Delete },
        },
    }
}

} // verus!
