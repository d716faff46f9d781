use termos::cli::{plan_qc_command, QcCommands, QcPlan};
use termos::ssh::{askpass_env, connecting_frame, connecting_status, ssh_args, EnvValue};
use termos::storage::ServerConnection;
use termos::tui::qc_manager::QcMode;

fn conn() -> ServerConnection {
    ServerConnection {
        nickname: "web".to_string(),
        host: "10.1.2.3".to_string(),
        port: 2222,
        username: "deploy".to_string(),
        password: None,
        ssh_key: None,
        group: None,
        quick_commands: None,
    }
}

fn s(x: &str) -> Option<String> {
    Some(x.to_string())
}

#[test]
fn ssh_arguments_for_a_shell_and_for_a_command() {
    let mut c = conn();
    assert_eq!(
        ssh_args(&c, None),
        vec!["-p", "2222", "-o", "ServerAliveInterval=15", "-o", "ServerAliveCountMax=3", "deploy@10.1.2.3"]
    );
    c.ssh_key = s("/home/u/.ssh/id");
    c.password = s("hunter2");
    let args = ssh_args(&c, Some("df -h"));
    assert_eq!(
        args,
        vec![
            "-p", "2222", "-o", "ServerAliveInterval=15", "-o", "ServerAliveCountMax=3", "-i",
            "/home/u/.ssh/id", "deploy@10.1.2.3", "df -h"
        ]
    );
    assert!(!args.iter().any(|a| a.contains("hunter2")));
}

#[test]
fn the_password_goes_through_the_environment_only() {
    let mut c = conn();
    assert!(askpass_env(&c, false).is_empty());
    c.password = s("pw");
    let env = askpass_env(&c, true);
    let names: Vec<&str> = env.iter().map(|e| e.name.as_str()).collect();
    assert_eq!(names, vec!["SSH_ASKPASS", "SSH_ASKPASS_REQUIRE", "TERMOS_ASKPASS_PASSWORD"]);
    assert!(matches!(env[0].value, EnvValue::CurrentExe));
    assert!(matches!(&env[1].value, EnvValue::Text(t) if t == "force"));
    assert!(matches!(&env[2].value, EnvValue::Text(t) if t == "pw"));
    let env = askpass_env(&c, false);
    assert_eq!(env.len(), 4);
    assert_eq!(env[3].name, "DISPLAY");
    assert!(matches!(&env[3].value, EnvValue::Text(t) if t == ":0"));
}

#[test]
fn the_connecting_animation() {
    assert_eq!(connecting_frame(0), "\u{280b}");
    assert_eq!(connecting_frame(11), "\u{2819}");
    assert_eq!(connecting_frame(9), "\u{280f}");
    assert_eq!(connecting_status(4), "Resolving hostname...");
    assert_eq!(connecting_status(5), "Negotiating secure port...");
    assert_eq!(connecting_status(14), "Passing credentials to SSH...");
}

#[test]
fn quick_command_subcommands_act_directly_only_when_complete() {
    assert!(matches!(
        plan_qc_command(QcCommands::List { nickname: s("web") }),
        QcPlan::Manager { nickname: Some(n), mode: QcMode::List } if n == "web"
    ));
    assert!(matches!(
        plan_qc_command(QcCommands::Add { nickname: s("web"), name: s("d"), cmd: s("df") }),
        QcPlan::AddDirect { nickname, command } if nickname == "web" && command.name == "d" && command.command == "df"
    ));
    assert!(matches!(
        plan_qc_command(QcCommands::Add { nickname: s("web"), name: None, cmd: s("df") }),
        QcPlan::Manager { nickname: Some(_), mode: QcMode::Add }
    ));
    assert!(matches!(
        plan_qc_command(QcCommands::Edit { nickname: s("web"), name: s("d"), new_name: None, new_cmd: None }),
        QcPlan::MissingEditValue
    ));
    assert!(matches!(
        plan_qc_command(QcCommands::Edit { nickname: s("web"), name: s("d"), new_name: None, new_cmd: s("du") }),
        QcPlan::EditDirect { new_cmd: Some(c), new_name: None, .. } if c == "du"
    ));
    assert!(matches!(
        plan_qc_command(QcCommands::Edit { nickname: None, name: s("d"), new_name: s("e"), new_cmd: None }),
        QcPlan::Manager { nickname: None, mode: QcMode::Edit }
    ));
    assert!(matches!(
        plan_qc_command(QcCommands::Delete { nickname: s("web"), name: s("d") }),
        QcPlan::DeleteDirect { nickname, name } if nickname == "web" && name == "d"
    ));
    assert!(matches!(
        plan_qc_command(QcCommands::Delete { nickname: s("web"), name: None }),
        QcPlan::Manager { mode: QcMode::Delete, .. }
    ));
}
