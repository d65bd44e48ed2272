use deskctl::input::drag_path;
use deskctl::input::parse_key;
use deskctl::input::scroll_delta;
use deskctl::input::KeyCode;
use deskctl::DispatchError;

#[test]
fn drag_interpolation_exact_positions() {
    let path = drag_path(0, 0, 100, 0);
    let expected: Vec<(i32, i32)> = vec![
        (10, 0),
        (20, 0),
        (30, 0),
        (40, 0),
        (50, 0),
        (60, 0),
        (70, 0),
        (80, 0),
        (90, 0),
        (100, 0),
    ];
    assert_eq!(path, expected);
}

#[test]
fn drag_step_count_is_always_ten() {
    assert_eq!(drag_path(3, 4, 5, 6).len(), 10);
    assert_eq!(drag_path(0, 0, 0, 0).len(), 10);
    assert_eq!(drag_path(-50, 20, 1000, -300).len(), 10);
}

#[test]
fn drag_lands_exactly_on_the_endpoint() {
    assert_eq!(*drag_path(3, 4, 5, 6).last().unwrap(), (5, 6));
    assert_eq!(*drag_path(100, 0, 0, 0).last().unwrap(), (0, 0));
    assert_eq!(*drag_path(-7, -7, -7, -7).last().unwrap(), (-7, -7));
}

#[test]
fn drag_negative_direction_descends() {
    let path = drag_path(100, 0, 0, 0);
    assert_eq!(path[0], (90, 0));
    assert_eq!(path[4], (50, 0));
    assert_eq!(path[9], (0, 0));
}

#[test]
fn unknown_key_name_is_unsupported() {
    match parse_key("banana") {
        Err(DispatchError::UnsupportedKey(name)) => assert_eq!(name, "banana"),
        other => panic!("expected UnsupportedKey, got {:?}", other),
    }
}

#[test]
fn single_character_always_maps() {
    assert_eq!(parse_key("z").unwrap(), KeyCode::Unicode('z'));
    assert_eq!(parse_key("?").unwrap(), KeyCode::Unicode('?'));
    assert_eq!(parse_key("A").unwrap(), KeyCode::Unicode('A'));
}

#[test]
fn named_keys_map_ignoring_case() {
    assert_eq!(parse_key("ENTER").unwrap(), KeyCode::Return);
    assert_eq!(parse_key("return").unwrap(), KeyCode::Return);
    assert_eq!(parse_key("Esc").unwrap(), KeyCode::Escape);
    assert_eq!(parse_key("pgdown").unwrap(), KeyCode::PageDown);
    assert_eq!(parse_key("command").unwrap(), KeyCode::Meta);
    assert_eq!(parse_key("F12").unwrap(), KeyCode::F12);
    assert_eq!(parse_key("ctrl").unwrap(), KeyCode::Control);
}

#[test]
fn scroll_direction_fixes_the_sign() {
    assert_eq!(scroll_delta("up", 5), -5);
    assert_eq!(scroll_delta("north", 5), -5);
    assert_eq!(scroll_delta("WEST", 7), -7);
    assert_eq!(scroll_delta("left", 7), -7);
    assert_eq!(scroll_delta("down", 5), 5);
    assert_eq!(scroll_delta("east", 3), 3);
    assert_eq!(scroll_delta("diagonal", 9), 9);
}
