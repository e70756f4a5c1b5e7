use tauri_plugin_frame::{
    current_os, has_snap_overlay, snap_overlay_actions, snap_overlay_plan, Error, ErrorKind, InputAction, Key, OsInfo,
    OsVersion,
};

fn windows(major: u64, minor: u64, patch: u64) -> OsInfo {
    OsInfo { windows: true, version: Some(OsVersion { major, minor, patch }) }
}

#[test]
fn windows_11_sequence() {
    let plan = snap_overlay_plan(&windows(10, 0, 22631), 10);
    assert_eq!(
        plan,
        vec![
            InputAction::Press(Key::Meta),
            InputAction::Click(Key::Z),
            InputAction::Release(Key::Meta),
            InputAction::SleepMs(10),
            InputAction::Press(Key::Alt),
            InputAction::SleepMs(50),
            InputAction::Release(Key::Alt),
        ]
    );
    assert_eq!(snap_overlay_plan(&windows(11, 0, 0), 30)[3], InputAction::SleepMs(30));
}

#[test]
fn windows_10_has_no_sequence() {
    assert!(snap_overlay_plan(&windows(10, 0, 19045), 10).is_empty());
    assert!(!has_snap_overlay(&windows(10, 0, 19045)));
    assert!(has_snap_overlay(&windows(10, 0, 22000)));
    assert!(!has_snap_overlay(&windows(10, 0, 21999)));
    assert!(!has_snap_overlay(&windows(6, 1, 7601)));
}

#[test]
fn other_systems_have_no_sequence() {
    let linux = OsInfo { windows: false, version: Some(OsVersion { major: 22, minor: 4, patch: 0 }) };
    assert!(snap_overlay_plan(&linux, 10).is_empty());
    let unknown = OsInfo { windows: true, version: None };
    assert!(snap_overlay_plan(&unknown, 10).is_empty());
}

#[test]
fn actions_follow_the_running_system() {
    let os = current_os();
    assert_eq!(snap_overlay_actions(15), snap_overlay_plan(&os, 15));
}

#[test]
fn error_messages() {
    let e = Error::keystroke_failed(Key::Meta, "no display");
    assert_eq!(e.kind, ErrorKind::KeystrokeFailed(Key::Meta));
    assert_eq!(e.to_message(), "Meta: no display");
    let e = Error::input_backend_unavailable("cannot connect");
    assert_eq!(e.kind, ErrorKind::InputBackendUnavailable);
    assert_eq!(e.to_message(), "cannot connect");
    let e = Error::decoration_toggle_failed("window gone");
    assert_eq!(e.kind, ErrorKind::DecorationToggleFailed);
    assert_eq!(e.message, "window gone");
    assert_eq!(Key::Alt.name(), "Alt");
}
