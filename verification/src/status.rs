//! The switches of the quick-control status panel: keeping the system
//! awake, auto-rotation and the on-screen keyboard.

use vstd::prelude::*;

verus! {

/// A switch of the status panel set to a value.
#[derive(Clone, Copy, Debug, PartialEq, Eq, Structural)]
pub enum StatusToggle {
    SetCoffee(bool),
    SetRotation(bool),
    SetOSK(bool),
}

/// What setting a switch asks of the runtime.
#[derive(Debug)]
pub enum CoffeeAction {
    /// Nothing.
    Nothing,
    /// Inhibit system idle, giving this reason, and hand the cookie to
    /// `StatusToggles::inhibited`.
    Inhibit { reason: String },
    /// Lift the idle inhibition that has this cookie.
    Uninhibit { cookie: u32 },
}

/// A status-panel action as plain text.
pub enum CoffeeActionView {
    Nothing,
    Inhibit(Seq<char>),
    Uninhibit(u32),
}

impl View for CoffeeAction {
    type V = CoffeeActionView;

    open spec fn view(&self) -> CoffeeActionView {
        match self {
            CoffeeAction::Nothing => CoffeeActionView::Nothing,
            CoffeeAction::Inhibit { reason } => CoffeeActionView::Inhibit(reason@),
            CoffeeAction::Uninhibit { cookie } => CoffeeActionView::Uninhibit(*cookie),
        }
    }
}

/// The switches' values and the cookie of the last idle inhibition.
pub struct StatusTogglesView {
    pub coffee: bool,
    pub inhibit_cookie: u32,
    pub rotation: bool,
    pub osk: bool,
}

/// The reason given for keeping the system awake.
pub open spec fn coffee_reason() -> Seq<char> {
    "inhibited by user"@
}

/// How the switches answer being set. Switching coffee on inhibits idle,
/// switching it off lifts the inhibition of the cookie held; the other
/// switches only take their value.
pub open spec fn toggle_step(v: StatusTogglesView, t: StatusToggle) -> (
    StatusTogglesView,
    CoffeeActionView,
) {
    match t {
        StatusToggle::SetCoffee(on) => (
            StatusTogglesView { coffee: on, ..v },
            if on {
                CoffeeActionView::Inhibit(coffee_reason())
            } else {
                CoffeeActionView::Uninhibit(v.inhibit_cookie)
            },
        ),
        StatusToggle::SetRotation(on) => (
            StatusTogglesView { rotation: on, ..v },
            CoffeeActionView::Nothing,
        ),
        StatusToggle::SetOSK(on) => (StatusTogglesView { osk: on, ..v }, CoffeeActionView::Nothing),
    }
}

/// The switches of the status panel.
pub struct StatusToggles {
    coffee: bool,
    inhibit_cookie: u32,
    rotation: bool,
    osk: bool,
}

impl View for StatusToggles {
    type V = StatusTogglesView;

    closed spec fn view(&self) -> StatusTogglesView {
        StatusTogglesView {
            coffee: self.coffee,
            inhibit_cookie: self.inhibit_cookie,
            rotation: self.rotation,
            osk: self.osk,
        }
    }
}

impl StatusToggles {
    /// All switches off.
    pub fn new() -> (toggles: StatusToggles)
        ensures
            toggles@ == (StatusTogglesView {
                coffee: false,
                inhibit_cookie: 0,
                rotation: false,
                osk: false,
            }),
    {
        StatusToggles { coffee: false, inhibit_cookie: 0, rotation: false, osk: false }
    }

    /// Sets a switch, as `toggle_step` says.
    pub fn update(&mut self, toggle: StatusToggle) -> (action: CoffeeAction)
        ensures
            (final(self)@, action@) == toggle_step(old(self)@, toggle),
    {
        match toggle {
            StatusToggle::SetCoffee(on) => {
                self.coffee = on;
                if on {
                    CoffeeAction::Inhibit { reason: String::from_str("inhibited by user") }
                } else {
                    CoffeeAction::Uninhibit { cookie: self.inhibit_cookie }
                }
            },
            StatusToggle::SetRotation(on) => {
                self.rotation = on;
                CoffeeAction::Nothing
            },
            StatusToggle::SetOSK(on) => {
                self.osk = on;
                CoffeeAction::Nothing
            },
        }
    }

    /// Holds the cookie of the idle inhibition just made.
    pub fn inhibited(&mut self, cookie: u32)
        ensures
            final(self)@ == (StatusTogglesView { inhibit_cookie: cookie, ..old(self)@ }),
    {
        self.inhibit_cookie = cookie;
    }

    /// Whether coffee is on.
    pub fn coffee(&self) -> (b: bool)
        ensures
            b == self@.coffee,
    {
        self.coffee
    }

    /// Whether auto-rotation is on.
    pub fn rotation(&self) -> (b: bool)
        ensures
            b == self@.rotation,
    {
        self.rotation
    }

    /// Whether the on-screen keyboard is on.
    pub fn osk(&self) -> (b: bool)
        ensures
            b == self@.osk,
    {
        self.osk
    }
}

/// Switching coffee on, holding the cookie that comes back, then switching
/// it off lifts exactly that inhibition, and leaves the other switches be.
pub proof fn coffee_round_trip(v: StatusTogglesView, cookie: u32)
    ensures
        ({
            let (v1, a1) = toggle_step(v, StatusToggle::SetCoffee(true));
            let v2 = StatusTogglesView { inhibit_cookie: cookie, ..v1 };
            let (v3, a3) = toggle_step(v2, StatusToggle::SetCoffee(false));
            &&& a1 == CoffeeActionView::Inhibit(coffee_reason())
            &&& v1.coffee
            &&& a3 == CoffeeActionView::Uninhibit(cookie)
            &&& !v3.coffee && v3.rotation == v.rotation && v3.osk == v.osk
        }),
{
}

} // verus!
