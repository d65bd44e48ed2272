use deskctl::actions::recipe_for;
use deskctl::outcome::settle_action;
use deskctl::outcome::settle_command;
use deskctl::commands::authorize_command;
use deskctl::Action;
use deskctl::DispatchError;
use deskctl::Platform;
use deskctl::outcome::LaunchOutcome;

fn target_actions(name: &str) -> Vec<Action> {
    vec![
        Action::Launch(name.to_string()),
        Action::Activate(name.to_string()),
        Action::Minimize(name.to_string()),
        Action::Maximize(name.to_string()),
        Action::Close(name.to_string()),
        Action::Focus(name.to_string()),
    ]
}

#[test]
fn routing_serves_every_supported_pair() {
    let platforms = [Platform::MacOs, Platform::Windows, Platform::Linux];
    for p in platforms {
        for a in target_actions("App") {
            let r = recipe_for(&a, p);
            assert!(r.is_ok(), "expected a recipe for a supported pair");
        }
        assert!(recipe_for(&Action::ListWindows, p).is_ok());
        match recipe_for(&Action::ListProcesses, p) {
            Err(DispatchError::UnsupportedAction) => {}
            other => panic!("expected UnsupportedAction, got {:?}", other),
        }
    }
}

#[test]
fn launch_recipes_match_table() {
    let mac = recipe_for(&Action::Launch("Firefox".to_string()), Platform::MacOs).unwrap();
    assert_eq!(mac.program, "open");
    assert_eq!(mac.args, vec!["-a".to_string(), "Firefox".to_string()]);

    let win = recipe_for(&Action::Launch("Firefox".to_string()), Platform::Windows).unwrap();
    assert_eq!(win.program, "cmd");
    assert_eq!(
        win.args,
        vec!["/C".to_string(), "start".to_string(), String::new(), "Firefox".to_string()]
    );

    let lin = recipe_for(&Action::Launch("Firefox".to_string()), Platform::Linux).unwrap();
    assert_eq!(lin.program, "xdg-open");
    assert_eq!(lin.args, vec!["Firefox".to_string()]);
}

#[test]
fn linux_recipes_use_wmctrl_and_pkill() {
    let act = recipe_for(&Action::Activate("Code".to_string()), Platform::Linux).unwrap();
    assert_eq!(act.program, "wmctrl");
    assert_eq!(act.args, vec!["-a".to_string(), "Code".to_string()]);

    let min = recipe_for(&Action::Minimize("Code".to_string()), Platform::Linux).unwrap();
    assert_eq!(min.program, "wmctrl");
    assert_eq!(
        min.args,
        vec!["-r".to_string(), "Code".to_string(), "-b".to_string(), "add,hidden".to_string()]
    );

    let max = recipe_for(&Action::Maximize("Code".to_string()), Platform::Linux).unwrap();
    assert_eq!(
        max.args,
        vec![
            "-r".to_string(),
            "Code".to_string(),
            "-b".to_string(),
            "add,maximized_vert,maximized_horz".to_string()
        ]
    );

    let close = recipe_for(&Action::Close("Code".to_string()), Platform::Linux).unwrap();
    assert_eq!(close.program, "pkill");
    assert_eq!(close.args, vec!["Code".to_string()]);

    let list = recipe_for(&Action::ListWindows, Platform::Linux).unwrap();
    assert_eq!(list.program, "wmctrl");
    assert_eq!(list.args, vec!["-l".to_string()]);
}

#[test]
fn windows_close_appends_exe_suffix() {
    let close = recipe_for(&Action::Close("notepad".to_string()), Platform::Windows).unwrap();
    assert_eq!(close.program, "taskkill");
    assert_eq!(
        close.args,
        vec!["/F".to_string(), "/IM".to_string(), "notepad.exe".to_string()]
    );
}

#[test]
fn hostile_target_stays_one_argument() {
    let hostile = "Evil\" to quit -- \"x";
    let r = recipe_for(&Action::Activate(hostile.to_string()), Platform::MacOs).unwrap();
    assert_eq!(r.program, "osascript");
    // The target is the whole final element; the fixed script never
    // mentions it.
    assert_eq!(r.args.last().unwrap(), hostile);
    assert!(!r.args[1].contains(hostile));
}

#[test]
fn allow_listed_command_is_authorized() {
    let r = authorize_command("git".to_string(), vec!["--version".to_string()]);
    let inv = r.expect("git is allow-listed");
    assert_eq!(inv.program, "git");
    assert_eq!(inv.args, vec!["--version".to_string()]);
}

#[test]
fn every_allow_listed_name_passes() {
    for name in ["git", "npm", "ls", "pwd", "echo"] {
        assert!(authorize_command(name.to_string(), Vec::new()).is_ok());
    }
}

#[test]
fn unlisted_command_rejected_without_invocation() {
    let r = authorize_command("rm".to_string(), vec!["-rf".to_string(), "/".to_string()]);
    match r {
        Err(DispatchError::NotPermitted(name)) => assert_eq!(name, "rm"),
        other => panic!("expected NotPermitted, got {:?}", other),
    }
    assert!(authorize_command("curl".to_string(), Vec::new()).is_err());
}

#[test]
fn settle_action_reports_confirmation() {
    let outcome = LaunchOutcome::Exited {
        success: true,
        stdout: String::new(),
        stderr: String::new(),
    };
    let r = settle_action(&Action::Launch("Safari".to_string()), outcome);
    assert_eq!(r.unwrap(), "Opened: Safari");

    let outcome = LaunchOutcome::Exited {
        success: true,
        stdout: String::new(),
        stderr: String::new(),
    };
    let r = settle_action(&Action::Focus("Editor".to_string()), outcome);
    assert_eq!(r.unwrap(), "Focused window: Editor");
}

#[test]
fn settle_action_surfaces_stderr_on_nonzero_exit() {
    let outcome = LaunchOutcome::Exited {
        success: false,
        stdout: String::new(),
        stderr: "no such window".to_string(),
    };
    match settle_action(&Action::Activate("Gone".to_string()), outcome) {
        Err(DispatchError::NonZeroExit(msg)) => assert_eq!(msg, "no such window"),
        other => panic!("expected NonZeroExit, got {:?}", other),
    }
}

#[test]
fn settle_action_surfaces_spawn_failure() {
    let outcome = LaunchOutcome::SpawnFailed("binary not found".to_string());
    match settle_action(&Action::Close("App".to_string()), outcome) {
        Err(DispatchError::LauncherSpawnFailed(msg)) => assert_eq!(msg, "binary not found"),
        other => panic!("expected LauncherSpawnFailed, got {:?}", other),
    }
}

#[test]
fn settle_command_pipes_stdout_through() {
    let outcome = LaunchOutcome::Exited {
        success: true,
        stdout: "git version 2.39.0\n".to_string(),
        stderr: String::new(),
    };
    assert_eq!(settle_command(outcome).unwrap(), "git version 2.39.0\n");

    let outcome = LaunchOutcome::Exited {
        success: false,
        stdout: String::new(),
        stderr: "fatal: not a git repository\n".to_string(),
    };
    match settle_command(outcome) {
        Err(DispatchError::NonZeroExit(msg)) => {
            assert_eq!(msg, "fatal: not a git repository\n")
        }
        other => panic!("expected NonZeroExit, got {:?}", other),
    }
}
