use prop_hunt::camera::{key_axis, CameraMode, CameraRig, CameraSwitch};
use prop_hunt::pause::{
    button_delay_millis, menu_action, on_escape, GameState, MenuAction, MenuEvent, MenuState,
    MenuTransition, PauseState, BUTTON_MILLIS, MENU_BUTTON_COUNT, MENU_DURATION_MILLIS,
    TIMED_BUTTON_COUNT,
};

#[test]
fn pause_then_resume_round_trip() {
    let mut m = MenuState::new();
    assert_eq!(on_escape(m.pause), Some(MenuEvent::Pause));
    let t = m.open().unwrap();
    assert_eq!(t, MenuTransition { after_millis: 600, settle_to: PauseState::Paused });
    assert_eq!(m.pause, PauseState::Transition);
    assert_eq!(m.client, GameState::Paused);
    assert_eq!(on_escape(m.pause), None);
    assert_eq!(m.open(), None);
    assert_eq!(m.close(), None);
    m.settle(t);
    assert_eq!(m.pause, PauseState::Paused);
    assert_eq!(on_escape(m.pause), Some(MenuEvent::Resume));
    let t = m.close().unwrap();
    assert_eq!(t.settle_to, PauseState::Ready);
    assert_eq!(m.client, GameState::Running);
    m.settle(t);
    assert_eq!(m, MenuState::new());
    assert_eq!(PauseState::default(), PauseState::Ready);
    assert_eq!(GameState::default(), GameState::Running);
}

#[test]
fn button_schedule_ends_with_the_menu() {
    assert_eq!(button_delay_millis(0), 0);
    assert_eq!(button_delay_millis(2), 200);
    assert_eq!(button_delay_millis(4), 400);
    assert_eq!(MENU_DURATION_MILLIS, 600);
    assert_eq!(button_delay_millis(TIMED_BUTTON_COUNT - 1) + BUTTON_MILLIS, MENU_DURATION_MILLIS);
    assert_eq!(MENU_BUTTON_COUNT, 5);
    assert_eq!(menu_action(0), Some(MenuAction::Resume));
    assert_eq!(menu_action(1), Some(MenuAction::Settings));
    assert_eq!(menu_action(2), Some(MenuAction::Quit));
    assert_eq!(menu_action(3), Some(MenuAction::Host));
    assert_eq!(menu_action(4), Some(MenuAction::Connect));
    assert_eq!(menu_action(5), None);
    assert_eq!(MenuAction::Host.label(), "Host");
    assert_eq!(MenuAction::Connect.label(), "Connect");
    assert_eq!(MenuAction::Settings.label(), "Settings");
    assert_eq!(MenuAction::Quit.label(), "Quit");
    assert_eq!(MenuAction::Resume.label(), "Resume");
}

#[test]
fn camera_toggle_round_trip() {
    let mut rig = CameraRig::new();
    assert_eq!(rig.toggle(), Some(CameraSwitch::ToFreecam));
    assert_eq!(rig.mode, CameraMode::Freecam);
    assert!(rig.freecam_active && !rig.player_camera_active);
    assert_eq!(rig.toggle(), Some(CameraSwitch::ToPlayer));
    assert_eq!(rig, CameraRig::new());
}

#[test]
fn camera_toggle_ignored_when_inconsistent() {
    let mut rig = CameraRig { mode: CameraMode::Playing, player_camera_active: false, freecam_active: true };
    assert_eq!(rig.toggle(), None);
    let mut rig = CameraRig { mode: CameraMode::Freecam, player_camera_active: true, freecam_active: false };
    assert_eq!(rig.toggle(), None);
    assert_eq!(rig.mode, CameraMode::Freecam);
}

#[test]
fn key_axes() {
    assert_eq!(key_axis(true, false), 1);
    assert_eq!(key_axis(false, true), -1);
    assert_eq!(key_axis(true, true), 0);
    assert_eq!(key_axis(false, false), 0);
}
