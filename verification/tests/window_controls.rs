use block_city_adventure::window_controls::{WindowCommand, WindowControlAction, WindowControlState};

#[test]
fn maximize_toggles_and_close_exits() {
    let mut s = WindowControlState::default();
    assert!(!s.maximized);
    assert_eq!(s.press(WindowControlAction::Maximize, true), Some(WindowCommand::Maximize));
    assert!(s.maximized);
    assert_eq!(s.press(WindowControlAction::Maximize, true), Some(WindowCommand::Restore));
    assert!(!s.maximized);
    assert_eq!(s.press(WindowControlAction::Maximize, false), None);
    assert!(!s.maximized);
    assert_eq!(s.press(WindowControlAction::Minimize, true), Some(WindowCommand::Minimize));
    assert_eq!(s.press(WindowControlAction::Minimize, false), None);
    assert_eq!(s.press(WindowControlAction::Close, false), Some(WindowCommand::Exit));
}
