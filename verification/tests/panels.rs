use dwsh::calendar::{Calendar, CalendarCmd, ClockTime};
use dwsh::media::{playback_icon_name, PlaybackState};
use dwsh::stats::{
    battery_css_class, battery_state, default_battery_icon, BatteryState, DeviceState,
    WarningLevel,
};
use dwsh::status::{CoffeeAction, StatusToggle, StatusToggles};
use dwsh::systray::{item_action, item_icon, ItemAction, SystrayItemMsg};

#[test]
fn charging_wins_over_warnings() {
    assert_eq!(battery_state(DeviceState::Charging, WarningLevel::Critical), BatteryState::Charging);
    assert_eq!(battery_state(DeviceState::FullyCharged, WarningLevel::Low), BatteryState::Charging);
    assert_eq!(battery_state(DeviceState::Discharging, WarningLevel::Low), BatteryState::Low);
    assert_eq!(battery_state(DeviceState::Discharging, WarningLevel::Critical), BatteryState::Critical);
    assert_eq!(battery_state(DeviceState::Discharging, WarningLevel::Action), BatteryState::Normal);
    assert_eq!(battery_state(DeviceState::PendingCharge, WarningLevel::NoWarning), BatteryState::Normal);
}

#[test]
fn gauge_classes() {
    assert_eq!(battery_css_class(BatteryState::Low), Some("low"));
    assert_eq!(battery_css_class(BatteryState::Critical), Some("crit"));
    assert_eq!(battery_css_class(BatteryState::Charging), Some("charging"));
    assert_eq!(battery_css_class(BatteryState::Normal), None);
    assert_eq!(default_battery_icon(), "battery-symbolic");
}

#[test]
fn playback_button_icon() {
    assert_eq!(playback_icon_name(PlaybackState::Playing), "media-playback-pause-symbolic");
    assert_eq!(playback_icon_name(PlaybackState::Paused), "media-playback-start-symbolic");
    assert_eq!(playback_icon_name(PlaybackState::Stopped), "media-playback-start-symbolic");
}

#[test]
fn calendar_labels() {
    let t = ClockTime { year: 2024, month: 3, day: 5, hour: 7, minute: 9, second: 30 };
    let mut c = Calendar::new(t);
    assert_eq!(c.hour_label(), "07");
    assert_eq!(c.minute_label(), "09");
    assert_eq!(c.weekday_label(), "Tue");
    assert_eq!(c.date_label(), "03/05");
    let later = ClockTime { year: 2025, month: 12, day: 31, hour: 23, minute: 59, second: 0 };
    c.update_cmd(CalendarCmd::UpdateTime(later));
    assert_eq!(c.time(), later);
    assert_eq!(c.hour_label(), "23");
    assert_eq!(c.weekday_label(), "Wed");
    assert_eq!(c.date_label(), "12/31");
}

#[test]
fn calendar_rejected_fields_give_empty_labels() {
    let t = ClockTime { year: 2023, month: 2, day: 29, hour: 1, minute: 2, second: 3 };
    assert_eq!(Calendar::new(t).hour_label(), "");
}

#[test]
fn coffee_round_trip() {
    let mut t = StatusToggles::new();
    match t.update(StatusToggle::SetCoffee(true)) {
        CoffeeAction::Inhibit { reason } => assert_eq!(reason, "inhibited by user"),
        other => panic!("{other:?}"),
    }
    t.inhibited(9);
    assert!(t.coffee());
    match t.update(StatusToggle::SetCoffee(false)) {
        CoffeeAction::Uninhibit { cookie } => assert_eq!(cookie, 9),
        other => panic!("{other:?}"),
    }
    assert!(!t.coffee());
    assert!(matches!(t.update(StatusToggle::SetRotation(true)), CoffeeAction::Nothing));
    assert!(matches!(t.update(StatusToggle::SetOSK(true)), CoffeeAction::Nothing));
    assert!(t.rotation() && t.osk());
}

#[test]
fn tray_item_clicks() {
    assert_eq!(item_action(SystrayItemMsg::LeftClick, true), ItemAction::Activate { x: 0, y: 0 });
    assert_eq!(item_action(SystrayItemMsg::RightClick, true), ItemAction::CloseMenu);
    assert_eq!(item_action(SystrayItemMsg::RightClick, false), ItemAction::OpenMenu);
    assert_eq!(item_icon(&Some("nm-applet".to_string())), "nm-applet");
    assert_eq!(item_icon(&None), "none");
}
