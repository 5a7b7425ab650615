use dwsh::icon::IconManager;
use dwsh::logout::{
    identify_key, request_for, Event, IpcRequest, Key, Logout, LogoutAction, Message, Named, Task,
};

fn fresh() -> Logout {
    Logout::with_icons(IconManager::with_configured(None))
}

#[test]
fn opens_with_nothing_highlighted() {
    let logout = fresh();
    assert_eq!(logout.focused(), LogoutAction::NoAction);
    assert_eq!(logout.text(), "Daywatch");
    assert_eq!(logout.icon_manager().theme(), "hicolor");
    let opened = Logout::new();
    assert_eq!(opened.focused(), LogoutAction::NoAction);
    assert_eq!(opened.text(), "Daywatch");
}

#[test]
fn labels() {
    assert_eq!(LogoutAction::NoAction.to_string(), "Daywatch");
    assert_eq!(LogoutAction::Poweroff.to_string(), "Power off");
    assert_eq!(LogoutAction::Reboot.to_string(), "Reboot");
    assert_eq!(LogoutAction::Suspend.to_string(), "Suspend");
    assert_eq!(LogoutAction::Logout.to_string(), "Log out");
    assert_eq!(LogoutAction::Lock.to_string(), "Lock screen");
}

#[test]
fn first_selection_highlights_second_confirms() {
    let mut logout = fresh();
    let task = logout.update(Message::SelectAction(LogoutAction::Reboot));
    assert_eq!(task, Task::Nothing);
    assert_eq!(logout.focused(), LogoutAction::Reboot);
    assert_eq!(logout.text(), "Reboot");
    let task = logout.update(Message::SelectAction(LogoutAction::Reboot));
    assert_eq!(task, Task::ExecuteThenExit(LogoutAction::Reboot));
}

#[test]
fn selecting_another_moves_the_highlight() {
    let mut logout = fresh();
    logout.update(Message::SelectAction(LogoutAction::Lock));
    assert_eq!(logout.update(Message::SelectAction(LogoutAction::Suspend)), Task::Nothing);
    assert_eq!(logout.focused(), LogoutAction::Suspend);
    assert_eq!(logout.text(), "Suspend");
}

#[test]
fn escape_deselects_then_quits() {
    let mut logout = fresh();
    logout.update(Message::SelectAction(LogoutAction::Poweroff));
    let escape = Message::IcedEvent(Event::KeyPressed(Key::Named(Named::Escape)));
    let task = logout.update(escape.clone());
    assert_eq!(task, Task::Select(LogoutAction::NoAction));
    assert_eq!(logout.update(Message::SelectAction(LogoutAction::NoAction)), Task::Nothing);
    assert_eq!(logout.focused(), LogoutAction::NoAction);
    assert_eq!(logout.text(), "Daywatch");
    assert_eq!(logout.update(escape), Task::Select(LogoutAction::NoAction));
    assert_eq!(
        logout.update(Message::SelectAction(LogoutAction::NoAction)),
        Task::ExecuteThenExit(LogoutAction::NoAction)
    );
    assert!(request_for(LogoutAction::NoAction).is_none());
}

#[test]
fn keys_select_actions() {
    let key = |s: &str| Key::Character(s.to_string());
    assert_eq!(identify_key(&key("s")), Some(LogoutAction::Poweroff));
    assert_eq!(identify_key(&key("r")), Some(LogoutAction::Reboot));
    assert_eq!(identify_key(&key("e")), Some(LogoutAction::Logout));
    assert_eq!(identify_key(&key("u")), Some(LogoutAction::Suspend));
    assert_eq!(identify_key(&key("l")), Some(LogoutAction::Lock));
    assert_eq!(identify_key(&key("x")), None);
    assert_eq!(identify_key(&key("ss")), None);
    assert_eq!(identify_key(&key("")), None);
    assert_eq!(identify_key(&Key::Named(Named::Escape)), Some(LogoutAction::NoAction));
    assert_eq!(identify_key(&Key::Named(Named::Other)), None);
    assert_eq!(identify_key(&Key::Unidentified), None);
}

#[test]
fn other_events_change_nothing() {
    let mut logout = fresh();
    logout.update(Message::SelectAction(LogoutAction::Lock));
    assert_eq!(logout.update(Message::IcedEvent(Event::Other)), Task::Nothing);
    let task = logout.update(Message::IcedEvent(Event::KeyPressed(Key::Character("q".into()))));
    assert_eq!(task, Task::Nothing);
    assert_eq!(logout.focused(), LogoutAction::Lock);
    assert_eq!(logout.text(), "Lock screen");
}

fn spawned(action: LogoutAction) -> Vec<String> {
    match request_for(action) {
        Some(IpcRequest::Spawn { command }) => command,
        other => panic!("expected a spawn, got {other:?}"),
    }
}

#[test]
fn compositor_requests() {
    assert_eq!(spawned(LogoutAction::Poweroff), vec!["systemctl", "poweroff"]);
    assert_eq!(spawned(LogoutAction::Reboot), vec!["systemctl", "reboot"]);
    assert_eq!(spawned(LogoutAction::Suspend), vec!["systemctl", "suspend"]);
    assert_eq!(spawned(LogoutAction::Lock), vec!["hyprlock"]);
    match request_for(LogoutAction::Logout) {
        Some(IpcRequest::Quit { skip_confirmation }) => assert!(!skip_confirmation),
        other => panic!("expected a quit, got {other:?}"),
    }
}
