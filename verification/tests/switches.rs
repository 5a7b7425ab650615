use dwsh::switches::{Switches, SwitchesAction, SwitchesEvent, SwitchesMsg};

fn args(action: SwitchesAction) -> (bool, Vec<String>) {
    match action {
        SwitchesAction::Query { args } => (true, args),
        SwitchesAction::Run { args } => (false, args),
        other => panic!("expected a systemctl call, got {other:?}"),
    }
}

#[test]
fn opens_idle() {
    let s = Switches::new(true, false);
    assert!(s.is_idle());
    assert!(s.mpd());
    assert!(!s.cava());
    assert!(!s.inhibit());
    assert_eq!(s.inhibit_cookie(), 0);
}

#[test]
fn inhibit_round_trip() {
    let mut s = Switches::new(false, false);
    match s.update(SwitchesEvent::Pressed(SwitchesMsg::Inhibit)) {
        SwitchesAction::Inhibit { reason } => assert_eq!(reason, "Inhibited by dwsh"),
        other => panic!("{other:?}"),
    }
    assert!(!s.is_idle());
    assert!(matches!(s.update(SwitchesEvent::Inhibited(42)), SwitchesAction::Nothing));
    assert!(s.inhibit());
    assert_eq!(s.inhibit_cookie(), 42);
    assert_eq!(s.inhibit_tooltip(), "Inhibited system idle");
    assert_eq!(s.inhibit_icon(), "caffeine-cup-full-symbolic");
    match s.update(SwitchesEvent::Pressed(SwitchesMsg::Inhibit)) {
        SwitchesAction::Uninhibit { cookie } => assert_eq!(cookie, 42),
        other => panic!("{other:?}"),
    }
    assert!(!s.inhibit());
    assert!(s.is_idle());
    assert_eq!(s.inhibit_tooltip(), "This button says Zzz, pretending to sleep");
    assert_eq!(s.inhibit_icon(), "caffeine-cup-empty-symbolic");
}

#[test]
fn mpd_running_is_stopped() {
    let mut s = Switches::new(true, false);
    let (query, a) = args(s.update(SwitchesEvent::Pressed(SwitchesMsg::Mpd)));
    assert!(query);
    assert_eq!(a, vec!["--user", "is-active", "mpd.service"]);
    let (query, a) = args(s.update(SwitchesEvent::UnitActive(true)));
    assert!(!query);
    assert_eq!(
        a,
        vec!["--user", "stop", "mpd-mpris.service", "mpd-notification.service", "mpd.service"]
    );
    let (query, a) = args(s.update(SwitchesEvent::CommandFinished));
    assert!(query);
    assert_eq!(a, vec!["--user", "is-active", "mpd.service"]);
    assert!(matches!(s.update(SwitchesEvent::UnitActive(false)), SwitchesAction::Nothing));
    assert!(!s.mpd());
    assert!(s.is_idle());
    assert_eq!(s.mpd_tooltip(), "MPD is not running");
}

#[test]
fn mpd_stopped_is_started() {
    let mut s = Switches::new(false, false);
    s.update(SwitchesEvent::Pressed(SwitchesMsg::Mpd));
    let (_, a) = args(s.update(SwitchesEvent::UnitActive(false)));
    assert_eq!(
        a,
        vec!["--user", "start", "mpd.service", "mpd-notification.service", "mpd-mpris.service"]
    );
    s.update(SwitchesEvent::CommandFinished);
    s.update(SwitchesEvent::UnitActive(true));
    assert!(s.mpd());
    assert_eq!(s.mpd_tooltip(), "MPD is running");
}

#[test]
fn cava_round_trip() {
    let mut s = Switches::new(false, true);
    let (_, a) = args(s.update(SwitchesEvent::Pressed(SwitchesMsg::Cava)));
    assert_eq!(a, vec!["--user", "is-active", "cava.service"]);
    let (_, a) = args(s.update(SwitchesEvent::UnitActive(true)));
    assert_eq!(a, vec!["--user", "stop", "cava.service"]);
    s.update(SwitchesEvent::CommandFinished);
    s.update(SwitchesEvent::UnitActive(false));
    assert!(!s.cava());
    assert!(!s.mpd());
    s.update(SwitchesEvent::Pressed(SwitchesMsg::Cava));
    let (_, a) = args(s.update(SwitchesEvent::UnitActive(false)));
    assert_eq!(a, vec!["--user", "start", "cava.service"]);
}

#[test]
fn cava_tooltip_follows_mpd() {
    let s = Switches::new(true, false);
    assert_eq!(s.cava_tooltip(), "CAVA is running");
    let s = Switches::new(false, true);
    assert_eq!(s.cava_tooltip(), "CAVA is not running");
}

#[test]
fn presses_while_busy_are_ignored() {
    let mut s = Switches::new(false, false);
    s.update(SwitchesEvent::Pressed(SwitchesMsg::Mpd));
    assert!(matches!(s.update(SwitchesEvent::Pressed(SwitchesMsg::Inhibit)), SwitchesAction::Nothing));
    assert!(matches!(s.update(SwitchesEvent::Inhibited(7)), SwitchesAction::Nothing));
    assert!(matches!(s.update(SwitchesEvent::CommandFinished), SwitchesAction::Nothing));
    assert!(!s.inhibit());
    assert_eq!(s.inhibit_cookie(), 0);
    assert!(!s.is_idle());
}
