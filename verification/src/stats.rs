//! The battery gauge of the stats panel.

use vstd::prelude::*;

verus! {

/// The state of a battery, as UPower reports it.
#[derive(Clone, Copy, Debug, PartialEq, Eq, Structural)]
pub enum DeviceState {
    Unknown,
    Charging,
    Discharging,
    Empty,
    FullyCharged,
    PendingCharge,
    PendingDischarge,
}

/// How urgently a battery warns, as UPower reports it (`NoWarning` is
/// UPower's "none").
#[derive(Clone, Copy, Debug, PartialEq, Eq, Structural)]
pub enum WarningLevel {
    Unknown,
    NoWarning,
    Discharging,
    Low,
    Critical,
    Action,
}

/// How the battery gauge is drawn.
#[derive(Clone, Copy, Debug, PartialEq, Eq, Structural)]
pub enum BatteryState {
    Charging,
    Normal,
    Low,
    Critical,
}

/// The gauge's state: charging while the battery charges or is full, else
/// low or critical as the battery warns, else normal.
pub open spec fn gauge_state(state: DeviceState, level: WarningLevel) -> BatteryState {
    if state == DeviceState::Charging || state == DeviceState::FullyCharged {
        BatteryState::Charging
    } else if level == WarningLevel::Low {
        BatteryState::Low
    } else if level == WarningLevel::Critical {
        BatteryState::Critical
    } else {
        BatteryState::Normal
    }
}

/// The gauge shows charging exactly while the battery charges or is full;
/// otherwise it is low only when UPower warns low, critical only when it
/// warns critical, and normal whenever it warns neither.
pub proof fn gauge_follows_warnings(state: DeviceState, level: WarningLevel)
    ensures
        gauge_state(state, level) == BatteryState::Charging <==> (state == DeviceState::Charging
            || state == DeviceState::FullyCharged),
        gauge_state(state, level) == BatteryState::Low ==> level == WarningLevel::Low,
        gauge_state(state, level) == BatteryState::Critical ==> level == WarningLevel::Critical,
        state != DeviceState::Charging && state != DeviceState::FullyCharged ==> (
        gauge_state(state, level) == BatteryState::Low <==> level == WarningLevel::Low),
        state != DeviceState::Charging && state != DeviceState::FullyCharged ==> (
        gauge_state(state, level) == BatteryState::Critical <==> level == WarningLevel::Critical),
        state != DeviceState::Charging && state != DeviceState::FullyCharged && level
            != WarningLevel::Low && level != WarningLevel::Critical ==> gauge_state(state, level)
            == BatteryState::Normal,
{
}

/// The gauge's state, as `gauge_state` says.
pub fn battery_state(state: DeviceState, level: WarningLevel) -> (gauge: BatteryState)
    ensures
        gauge == gauge_state(state, level),
{
    if state == DeviceState::Charging || state == DeviceState::FullyCharged {
        BatteryState::Charging
    } else if level == WarningLevel::Low {
        BatteryState::Low
    } else if level == WarningLevel::Critical {
        BatteryState::Critical
    } else {
        BatteryState::Normal
    }
}

/// The style class the gauge carries in a state: `low`, `crit` or
/// `charging`, none while normal.
pub open spec fn gauge_class(state: BatteryState) -> Option<Seq<char>> {
    match state {
        BatteryState::Low => Some("low"@),
        BatteryState::Critical => Some("crit"@),
        BatteryState::Charging => Some("charging"@),
        BatteryState::Normal => None,
    }
}

/// The style class of the gauge, as `gauge_class` says.
pub fn battery_css_class(state: BatteryState) -> (class: Option<&'static str>)
    ensures
        class is Some <==> gauge_class(state) is Some,
        class matches Some(c) ==> c@ == gauge_class(state)->0,
{
    match state {
        BatteryState::Low => Some("low"),
        BatteryState::Critical => Some("crit"),
        BatteryState::Charging => Some("charging"),
        BatteryState::Normal => None,
    }
}

/// The icon shown beside the gauge until the battery names its own.
pub fn default_battery_icon() -> (name: &'static str)
    ensures
        name@ == "battery-symbolic"@,
{
    "battery-symbolic"
}

} // verus!
