use chefctl::state::{DisplayState, State};

#[test]
fn register_starts_at_init_and_zero() {
    let register = State::new();
    assert_eq!(register.peek(), None);
    assert_eq!(register.phase_label(), "init");
    assert_eq!(register.splay_remaining(), 0);
}

#[test]
fn register_updates_are_independent() {
    let mut register = State::new();
    register.update_splay_countdown(4);
    assert!(register.update_process_state(DisplayState::Waiting).is_ok());
    assert_eq!(register.splay_remaining(), 4);
    assert_eq!(register.peek(), Some(DisplayState::Waiting));
    register.update_splay_countdown(3);
    assert_eq!(register.peek(), Some(DisplayState::Waiting));
}

#[test]
fn register_describes_itself() {
    let mut register = State::new();
    assert_eq!(register.describe(), "Chef Process State: init, Splay Countdown: 0");
    let _ = register.update_process_state(DisplayState::PostRun);
    register.update_splay_countdown(12);
    assert_eq!(register.describe(), "Chef Process State: post-run, Splay Countdown: 12");
}

#[test]
fn display_state_renders_its_name() {
    assert_eq!(DisplayState::PreRun.to_display_string(), "DisplayState(PreRun)");
    assert_eq!(DisplayState::Waiting.to_display_string(), "DisplayState(Waiting)");
    assert_eq!(DisplayState::Running.to_display_string(), "DisplayState(Running)");
    assert_eq!(DisplayState::PostRun.to_display_string(), "DisplayState(PostRun)");
}
