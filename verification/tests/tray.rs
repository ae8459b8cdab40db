use caffeineclipper::tray::{
    Lifecycle, MenuCommand, TrayAction, TrayEvent, WindowState, HIDE_ID, QUIT_EXIT_CODE, QUIT_ID,
};

fn menu(id: &str) -> TrayEvent {
    TrayEvent::MenuItemClick { id: id.to_string() }
}

#[test]
fn process_starts_running_and_visible() {
    assert_eq!(Lifecycle::start(), Lifecycle::Running(WindowState::Visible));
}

#[test]
fn close_request_hides_and_keeps_the_process() {
    for window in [WindowState::Visible, WindowState::Hidden] {
        let (next, action) = Lifecycle::Running(window).step(&TrayEvent::CloseRequested);
        assert_eq!(next, Lifecycle::Running(WindowState::Hidden));
        assert_eq!(action, TrayAction::HideWindow { keep_open: true });
    }
}

#[test]
fn quit_terminates_with_code_zero() {
    for window in [WindowState::Visible, WindowState::Hidden] {
        let (next, action) = Lifecycle::Running(window).step(&menu("quit"));
        assert_eq!(next, Lifecycle::Terminated);
        assert_eq!(action, TrayAction::Exit { code: 0 });
    }
    assert_eq!(QUIT_EXIT_CODE, 0);
}

#[test]
fn hide_from_menu_hides_without_terminating() {
    let (next, action) = Lifecycle::Running(WindowState::Visible).step(&menu("hide"));
    assert_eq!(next, Lifecycle::Running(WindowState::Hidden));
    assert_eq!(action, TrayAction::HideWindow { keep_open: false });
    let (next, action) = Lifecycle::Running(WindowState::Hidden).step(&menu("hide"));
    assert_eq!(next, Lifecycle::Running(WindowState::Hidden));
    assert_eq!(action, TrayAction::HideWindow { keep_open: false });
}

#[test]
fn icon_activation_shows_the_window() {
    for event in [TrayEvent::LeftClick, TrayEvent::DoubleClick] {
        let (next, action) = Lifecycle::Running(WindowState::Hidden).step(&event);
        assert_eq!(next, Lifecycle::Running(WindowState::Visible));
        assert_eq!(action, TrayAction::ShowWindow);
        let (next, action) = Lifecycle::Running(WindowState::Visible).step(&event);
        assert_eq!(next, Lifecycle::Running(WindowState::Visible));
        assert_eq!(action, TrayAction::ShowWindow);
    }
}

#[test]
fn unknown_menu_entries_and_other_events_change_nothing() {
    for window in [WindowState::Visible, WindowState::Hidden] {
        for event in [menu("about"), menu(""), menu("Quit"), menu("quit "), TrayEvent::Other] {
            let (next, action) = Lifecycle::Running(window).step(&event);
            assert_eq!(next, Lifecycle::Running(window));
            assert_eq!(action, TrayAction::Nothing);
        }
    }
}

#[test]
fn a_terminated_process_stays_terminated() {
    for event in [
        TrayEvent::CloseRequested,
        TrayEvent::LeftClick,
        TrayEvent::DoubleClick,
        menu("quit"),
        menu("hide"),
        TrayEvent::Other,
    ] {
        let (next, action) = Lifecycle::Terminated.step(&event);
        assert_eq!(next, Lifecycle::Terminated);
        assert_eq!(action, TrayAction::Nothing);
    }
}

#[test]
fn close_then_activate_then_quit() {
    let state = Lifecycle::start();
    let (state, _) = state.step(&TrayEvent::CloseRequested);
    assert_eq!(state, Lifecycle::Running(WindowState::Hidden));
    let (state, _) = state.step(&TrayEvent::DoubleClick);
    assert_eq!(state, Lifecycle::Running(WindowState::Visible));
    let (state, action) = state.step(&menu("quit"));
    assert_eq!(state, Lifecycle::Terminated);
    assert_eq!(action, TrayAction::Exit { code: 0 });
}

#[test]
fn menu_identifiers_name_their_commands() {
    assert_eq!(QUIT_ID, "quit");
    assert_eq!(HIDE_ID, "hide");
    assert_eq!(MenuCommand::Quit.id(), "quit");
    assert_eq!(MenuCommand::Hide.id(), "hide");
    assert_eq!(MenuCommand::from_id("quit"), Some(MenuCommand::Quit));
    assert_eq!(MenuCommand::from_id("hide"), Some(MenuCommand::Hide));
    assert_eq!(MenuCommand::from_id("show"), None);
    assert_eq!(MenuCommand::from_id("qui"), None);
    assert_eq!(MenuCommand::from_id("hidé"), None);
}
