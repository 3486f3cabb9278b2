use voxel_game::game::{GameAction, GameEvents, GameFlow, GameStates};

#[derive(Clone, Copy, Debug, PartialEq, Eq)]
enum Screen { Start, Loading, Hud, Pause }

#[derive(Clone, Copy, Debug, PartialEq, Eq)]
enum Cursor { Normal, Disabled }

#[test]
fn loading_then_entering_the_world() {
    let mut flow: GameFlow<Screen, Cursor> = GameFlow::new();
    assert!(flow.state() == GameStates::Playable);
    flow.add_event(GameEvents::LoadChunks);
    let ev = flow.pop_event().unwrap();
    assert_eq!(flow.apply_event(ev, Screen::Loading), GameAction::LoadWorld);
    assert!(flow.state() == GameStates::Loading);
    assert_eq!(flow.pop_event(), Some(GameEvents::ChangeScreen(Screen::Loading)));
    assert!(!flow.finish_loading(3));
    assert_eq!(flow.pop_event(), None);
    assert!(flow.finish_loading(0));
    // the world is entered only when the queued event is handled
    assert!(!flow.is_in_world());
    let ev = flow.pop_event().unwrap();
    assert_eq!(ev, GameEvents::EnterToWorld);
    assert_eq!(flow.pop_event(), None);
    assert_eq!(flow.apply_event(ev, Screen::Loading), GameAction::EnterWorld);
    assert!(flow.is_in_world());
    assert!(!flow.is_paused());
    assert!(flow.state() == GameStates::Playable);
    assert!(!flow.finish_loading(0));
    assert_eq!(flow.pop_event(), None);
}

#[test]
fn events_are_handled_first_in_first_out() {
    let mut flow: GameFlow<Screen, Cursor> = GameFlow::new();
    flow.add_event(GameEvents::ChangeScreen(Screen::Start));
    flow.add_event(GameEvents::SetCursorMode(Cursor::Disabled));
    flow.add_event(GameEvents::QuitGame);
    assert_eq!(flow.pop_event(), Some(GameEvents::ChangeScreen(Screen::Start)));
    let ev = flow.pop_event().unwrap();
    assert_eq!(flow.apply_event(ev, Screen::Loading), GameAction::SetCursor(Cursor::Disabled));
    let ev = flow.pop_event().unwrap();
    assert_eq!(flow.apply_event(ev, Screen::Loading), GameAction::CloseWindow);
    assert_eq!(flow.pop_event(), None);
    let _ = Cursor::Normal;
}

#[test]
fn escape_pauses_from_the_hud_and_resumes_from_the_pause_screen() {
    let mut flow: GameFlow<Screen, Cursor> = GameFlow::new();
    // outside the world: go back, nothing queued
    assert!(flow.on_escape(true, false, Screen::Pause));
    assert_eq!(flow.pop_event(), None);
    flow.apply_event(GameEvents::EnterToWorld, Screen::Loading);
    // on the heads-up display: the pause screen, then the pause, and the pause waits
    assert!(!flow.on_escape(true, false, Screen::Pause));
    assert!(!flow.is_paused());
    assert_eq!(flow.pop_event(), Some(GameEvents::ChangeScreen(Screen::Pause)));
    let ev = flow.pop_event().unwrap();
    assert_eq!(ev, GameEvents::PauseGame);
    assert_eq!(flow.pop_event(), None);
    assert_eq!(flow.apply_event(ev, Screen::Loading), GameAction::Nothing);
    assert!(flow.is_paused());
    // on the pause screen: unpause queued, go back
    assert!(flow.on_escape(false, true, Screen::Pause));
    let ev = flow.pop_event().unwrap();
    assert_eq!(ev, GameEvents::UnpauseGame);
    flow.apply_event(ev, Screen::Loading);
    assert!(!flow.is_paused());
    // another screen in the world: go back, nothing queued
    assert!(flow.on_escape(false, false, Screen::Pause));
    assert_eq!(flow.pop_event(), None);
    assert_eq!(flow.apply_event(GameEvents::LeaveToWorld, Screen::Loading), GameAction::LeaveWorld);
    assert!(!flow.is_in_world());
    let _ = Screen::Hud;
}
