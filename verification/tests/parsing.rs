use deskctl::winlist::parse_window_line;
use deskctl::winlist::parse_window_list;
use deskctl::winlist::settle_window_list;
use deskctl::capture::encode_capture;
use deskctl::sysquery::format_uptime;
use deskctl::sysquery::get_running_processes;
use deskctl::sysquery::get_system_info;
use deskctl::sysquery::get_system_uptime;
use deskctl::sysquery::platform_name;
use deskctl::DispatchError;
use deskctl::Platform;
use deskctl::outcome::LaunchOutcome;

#[test]
fn window_line_sample_fields() {
    let rec = parse_window_line("0x00000001  0 hostname  Terminal — bash");
    assert_eq!(rec.id, "0x00000001");
    assert_eq!(rec.desktop, "0");
    assert_eq!(rec.title, "Terminal — bash");
}

#[test]
fn window_line_malformed_yields_placeholder() {
    let rec = parse_window_line("0x1 0 host");
    assert_eq!(rec.id, "");
    assert_eq!(rec.desktop, "");
    assert_eq!(rec.title, "");

    let rec = parse_window_line("");
    assert_eq!(rec.id, "");
    assert_eq!(rec.title, "");
}

#[test]
fn window_list_parses_each_line_in_order() {
    let out = "0x1 0 host Alpha\n0x2 1 host Beta editor\n";
    let recs = parse_window_list(out);
    assert_eq!(recs.len(), 2);
    assert_eq!(recs[0].id, "0x1");
    assert_eq!(recs[0].desktop, "0");
    assert_eq!(recs[0].title, "Alpha");
    assert_eq!(recs[1].id, "0x2");
    assert_eq!(recs[1].desktop, "1");
    assert_eq!(recs[1].title, "Beta editor");
}

#[test]
fn window_list_keeps_placeholder_for_blank_line() {
    let out = "0x1 0 host Alpha\n\n0x2 1 host Beta";
    let recs = parse_window_list(out);
    assert_eq!(recs.len(), 3);
    assert_eq!(recs[0].title, "Alpha");
    assert_eq!(recs[1].id, "");
    assert_eq!(recs[1].title, "");
    assert_eq!(recs[2].title, "Beta");
}

#[test]
fn settle_window_list_parses_on_success() {
    let outcome = LaunchOutcome::Exited {
        success: true,
        stdout: "0x9 2 host Files\n".to_string(),
        stderr: String::new(),
    };
    let recs = settle_window_list(outcome).unwrap();
    assert_eq!(recs.len(), 1);
    assert_eq!(recs[0].id, "0x9");
    assert_eq!(recs[0].desktop, "2");
    assert_eq!(recs[0].title, "Files");
}

#[test]
fn settle_window_list_surfaces_failures() {
    let outcome = LaunchOutcome::Exited {
        success: false,
        stdout: String::new(),
        stderr: "cannot open display\n".to_string(),
    };
    match settle_window_list(outcome) {
        Err(DispatchError::NonZeroExit(msg)) => assert_eq!(msg, "cannot open display\n"),
        other => panic!("expected NonZeroExit, got {:?}", other),
    }

    let outcome = LaunchOutcome::SpawnFailed("wmctrl missing".to_string());
    match settle_window_list(outcome) {
        Err(DispatchError::LauncherSpawnFailed(msg)) => assert_eq!(msg, "wmctrl missing"),
        other => panic!("expected LauncherSpawnFailed, got {:?}", other),
    }
}

#[test]
fn capture_payload_is_real_base64() {
    assert_eq!(encode_capture(&b"abc".to_vec()).unwrap(), "YWJj");
    assert_eq!(encode_capture(&b"ab".to_vec()).unwrap(), "YWI=");
    assert_eq!(encode_capture(&b"a".to_vec()).unwrap(), "YQ==");
    assert_eq!(encode_capture(&Vec::new()).unwrap(), "");
}

#[test]
fn uptime_breaks_into_hours_and_minutes() {
    assert_eq!(format_uptime(0), (0, 0));
    assert_eq!(format_uptime(59), (0, 0));
    assert_eq!(format_uptime(60), (0, 1));
    assert_eq!(format_uptime(3600), (1, 0));
    assert_eq!(format_uptime(7384), (2, 3));
}

#[test]
fn system_uptime_is_consistent() {
    let (seconds, hours, minutes) = get_system_uptime();
    assert_eq!(hours, seconds / 3600);
    assert_eq!(minutes, (seconds % 3600) / 60);
    assert!(minutes < 60);
}

#[test]
fn system_info_carries_platform_and_arch() {
    let info = get_system_info(Platform::Linux, "x86_64".to_string());
    assert_eq!(info.os, "linux");
    assert_eq!(info.arch, "x86_64");
}

#[test]
fn platform_names_match_the_payload_convention() {
    assert_eq!(platform_name(Platform::MacOs), "macos");
    assert_eq!(platform_name(Platform::Windows), "windows");
    assert_eq!(platform_name(Platform::Linux), "linux");
}

#[test]
fn process_listing_never_fails() {
    assert!(get_running_processes().is_ok());
}

#[test]
fn process_name_list_splits_and_trims() {
    let names =
        deskctl::winlist::parse_process_names("Finder, Safari,  Terminal \n");
    assert_eq!(
        names,
        vec!["Finder".to_string(), "Safari".to_string(), "Terminal".to_string()]
    );
}

#[test]
fn process_name_list_keeps_unseparated_text_whole() {
    let names = deskctl::winlist::parse_process_names("Music,Photos");
    assert_eq!(names, vec!["Music,Photos".to_string()]);

    let names = deskctl::winlist::parse_process_names("");
    assert_eq!(names, vec![String::new()]);
}

#[test]
fn avatar_emotion_confirmation() {
    let r = deskctl::avatar::set_avatar_emotion("optimistic".to_string());
    assert_eq!(r.unwrap(), "Emotion set to: optimistic");
}
