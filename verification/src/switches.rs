//! The service switches: idle inhibition, and the MPD and CAVA user
//! services, each toggled by a button.
//!
//! Toggling a service takes three round trips to `systemctl`: asking
//! whether it runs, starting or stopping it, and asking again to show what
//! came of it. The panel is a state machine: `Switches::update` takes an event
//! (a button press, or the answer to what it last asked) and gives what to
//! do next. Its runtime hands it one button press at a time, the next only
//! once `is_idle` holds again, as the toolkit handles one message at a time.

use vstd::prelude::*;

use crate::command::{command_line, words_view};

verus! {

/// The buttons of the panel.
#[derive(Clone, Copy, Debug, PartialEq, Eq, Structural)]
pub enum SwitchesMsg {
    Inhibit,
    Mpd,
    Cava,
}

/// The user services the panel switches.
#[derive(Clone, Copy, Debug, PartialEq, Eq, Structural)]
pub enum Service {
    Mpd,
    Cava,
}

/// What the panel waits for.
#[derive(Clone, Copy, Debug, PartialEq, Eq, Structural)]
pub enum Pending {
    /// Nothing: a button press is next.
    Idle,
    /// The cookie of the idle inhibition it asked for.
    Cookie,
    /// Whether the service runs, before switching it.
    StateBefore(Service),
    /// The start or stop command to finish.
    Switch(Service),
    /// Whether the service runs, after switching it.
    StateAfter(Service),
}

/// What the panel is told.
#[derive(Clone, Copy, Debug, PartialEq, Eq, Structural)]
pub enum SwitchesEvent {
    /// A button was pressed.
    Pressed(SwitchesMsg),
    /// Idle is inhibited; this cookie lifts the inhibition.
    Inhibited(u32),
    /// Whether the unit last asked about is active.
    UnitActive(bool),
    /// The last start or stop command ended, however it ended.
    CommandFinished,
}

/// What the panel asks of its runtime.
#[derive(Debug)]
pub enum SwitchesAction {
    /// Nothing.
    Nothing,
    /// Inhibit system idle, giving this reason, and answer with the cookie.
    Inhibit { reason: String },
    /// Lift the idle inhibition that has this cookie.
    Uninhibit { cookie: u32 },
    /// Run `systemctl` with these arguments, discarding its output, and
    /// answer whether it succeeded (false where it could not run).
    Query { args: Vec<String> },
    /// Run `systemctl` with these arguments and answer once it ends.
    Run { args: Vec<String> },
}

/// A panel action as plain text.
pub enum SwitchesActionView {
    Nothing,
    Inhibit(Seq<char>),
    Uninhibit(u32),
    Query(Seq<Seq<char>>),
    Run(Seq<Seq<char>>),
}

impl View for SwitchesAction {
    type V = SwitchesActionView;

    open spec fn view(&self) -> SwitchesActionView {
        match self {
            SwitchesAction::Nothing => SwitchesActionView::Nothing,
            SwitchesAction::Inhibit { reason } => SwitchesActionView::Inhibit(reason@),
            SwitchesAction::Uninhibit { cookie } => SwitchesActionView::Uninhibit(*cookie),
            SwitchesAction::Query { args } => SwitchesActionView::Query(words_view(args@)),
            SwitchesAction::Run { args } => SwitchesActionView::Run(words_view(args@)),
        }
    }
}

/// The state of the panel.
pub struct SwitchesView {
    pub inhibit: bool,
    pub inhibit_cookie: u32,
    pub mpd: bool,
    pub cava: bool,
    pub pending: Pending,
}

/// The reason given for inhibiting idle.
pub open spec fn inhibit_reason() -> Seq<char> {
    "Inhibited by dwsh"@
}

/// The `systemctl` arguments that ask whether a service runs.
pub open spec fn query_args(service: Service) -> Seq<Seq<char>> {
    match service {
        Service::Mpd => seq!["--user"@, "is-active"@, "mpd.service"@],
        Service::Cava => seq!["--user"@, "is-active"@, "cava.service"@],
    }
}

/// The `systemctl` arguments that stop a running service or start a
/// stopped one. MPD comes with two helper units: they are started after it
/// and stopped before it.
pub open spec fn switch_args(service: Service, running: bool) -> Seq<Seq<char>> {
    match service {
        Service::Mpd => if running {
            seq![
                "--user"@,
                "stop"@,
                "mpd-mpris.service"@,
                "mpd-notification.service"@,
                "mpd.service"@,
            ]
        } else {
            seq![
                "--user"@,
                "start"@,
                "mpd.service"@,
                "mpd-notification.service"@,
                "mpd-mpris.service"@,
            ]
        },
        Service::Cava => if running {
            seq!["--user"@, "stop"@, "cava.service"@]
        } else {
            seq!["--user"@, "start"@, "cava.service"@]
        },
    }
}

/// The panel after it learnt whether `service` runs.
pub open spec fn with_state(v: SwitchesView, service: Service, running: bool) -> SwitchesView {
    match service {
        Service::Mpd => SwitchesView { mpd: running, pending: Pending::Idle, ..v },
        Service::Cava => SwitchesView { cava: running, pending: Pending::Idle, ..v },
    }
}

/// How the panel answers an event. The idle button lifts the inhibition
/// it holds, or asks for one and holds the cookie it gets. A service button
/// asks whether the service runs, stops it if so and starts it if not, then
/// asks again and shows the answer. An event the panel is not waiting for
/// changes nothing.
pub open spec fn switches_step(v: SwitchesView, e: SwitchesEvent) -> (
    SwitchesView,
    SwitchesActionView,
) {
    match (v.pending, e) {
        (Pending::Idle, SwitchesEvent::Pressed(SwitchesMsg::Inhibit)) => if v.inhibit {
            (
                SwitchesView { inhibit: false, ..v },
                SwitchesActionView::Uninhibit(v.inhibit_cookie),
            )
        } else {
            (
                SwitchesView { pending: Pending::Cookie, ..v },
                SwitchesActionView::Inhibit(inhibit_reason()),
            )
        },
        (Pending::Idle, SwitchesEvent::Pressed(SwitchesMsg::Mpd)) => (
            SwitchesView { pending: Pending::StateBefore(Service::Mpd), ..v },
            SwitchesActionView::Query(query_args(Service::Mpd)),
        ),
        (Pending::Idle, SwitchesEvent::Pressed(SwitchesMsg::Cava)) => (
            SwitchesView { pending: Pending::StateBefore(Service::Cava), ..v },
            SwitchesActionView::Query(query_args(Service::Cava)),
        ),
        (Pending::Cookie, SwitchesEvent::Inhibited(cookie)) => (
            SwitchesView { inhibit: true, inhibit_cookie: cookie, pending: Pending::Idle, ..v },
            SwitchesActionView::Nothing,
        ),
        (Pending::StateBefore(s), SwitchesEvent::UnitActive(running)) => (
            SwitchesView { pending: Pending::Switch(s), ..v },
            SwitchesActionView::Run(switch_args(s, running)),
        ),
        (Pending::Switch(s), SwitchesEvent::CommandFinished) => (
            SwitchesView { pending: Pending::StateAfter(s), ..v },
            SwitchesActionView::Query(query_args(s)),
        ),
        (Pending::StateAfter(s), SwitchesEvent::UnitActive(running)) => (
            with_state(v, s, running),
            SwitchesActionView::Nothing,
        ),
        _ => (v, SwitchesActionView::Nothing),
    }
}

/// The panel as it opens: no inhibition, each service shown as found.
pub open spec fn opened(mpd: bool, cava: bool) -> SwitchesView {
    SwitchesView { inhibit: false, inhibit_cookie: 0, mpd, cava, pending: Pending::Idle }
}

/// The service switches panel.
pub struct Switches {
    inhibit: bool,
    inhibit_cookie: u32,
    mpd: bool,
    cava: bool,
    pending: Pending,
}

impl View for Switches {
    type V = SwitchesView;

    closed spec fn view(&self) -> SwitchesView {
        SwitchesView {
            inhibit: self.inhibit,
            inhibit_cookie: self.inhibit_cookie,
            mpd: self.mpd,
            cava: self.cava,
            pending: self.pending,
        }
    }
}

/// The `systemctl` arguments that ask whether a service runs.
pub fn query_command(service: Service) -> (args: Vec<String>)
    ensures
        words_view(args@) == query_args(service),
{
    match service {
        Service::Mpd => {
            let args = command_line(&["--user", "is-active", "mpd.service"]);
            assert(words_view(args@) =~= query_args(service));
            args
        },
        Service::Cava => {
            let args = command_line(&["--user", "is-active", "cava.service"]);
            assert(words_view(args@) =~= query_args(service));
            args
        },
    }
}

/// The `systemctl` arguments that switch a service.
fn switch_command(service: Service, running: bool) -> (args: Vec<String>)
    ensures
        words_view(args@) == switch_args(service, running),
{
    let args = match (service, running) {
        (Service::Mpd, true) => command_line(
            &["--user", "stop", "mpd-mpris.service", "mpd-notification.service", "mpd.service"],
        ),
        (Service::Mpd, false) => command_line(
            &["--user", "start", "mpd.service", "mpd-notification.service", "mpd-mpris.service"],
        ),
        (Service::Cava, true) => command_line(&["--user", "stop", "cava.service"]),
        (Service::Cava, false) => command_line(&["--user", "start", "cava.service"]),
    };
    assert(words_view(args@) =~= switch_args(service, running));
    args
}

impl Switches {
    /// The panel as it opens, showing whether MPD and CAVA were found
    /// running.
    pub fn new(mpd: bool, cava: bool) -> (switches: Switches)
        ensures
            switches@ == opened(mpd, cava),
    {
        Switches { inhibit: false, inhibit_cookie: 0, mpd, cava, pending: Pending::Idle }
    }

    /// Whether the panel waits for nothing, so that a button press is next.
    pub fn is_idle(&self) -> (idle: bool)
        ensures
            idle == (self@.pending == Pending::Idle),
    {
        self.pending == Pending::Idle
    }

    /// Answers an event as `switches_step` says.
    pub fn update(&mut self, event: SwitchesEvent) -> (action: SwitchesAction)
        ensures
            (final(self)@, action@) == switches_step(old(self)@, event),
    {
        match (self.pending, event) {
            (Pending::Idle, SwitchesEvent::Pressed(SwitchesMsg::Inhibit)) => {
                if self.inhibit {
                    self.inhibit = false;
                    SwitchesAction::Uninhibit { cookie: self.inhibit_cookie }
                } else {
                    self.pending = Pending::Cookie;
                    SwitchesAction::Inhibit { reason: String::from_str("Inhibited by dwsh") }
                }
            },
            (Pending::Idle, SwitchesEvent::Pressed(SwitchesMsg::Mpd)) => {
                self.pending = Pending::StateBefore(Service::Mpd);
                SwitchesAction::Query { args: query_command(Service::Mpd) }
            },
            (Pending::Idle, SwitchesEvent::Pressed(SwitchesMsg::Cava)) => {
                self.pending = Pending::StateBefore(Service::Cava);
                SwitchesAction::Query { args: query_command(Service::Cava) }
            },
            (Pending::Cookie, SwitchesEvent::Inhibited(cookie)) => {
                self.inhibit = true;
                self.inhibit_cookie = cookie;
                self.pending = Pending::Idle;
                SwitchesAction::Nothing
            },
            (Pending::StateBefore(s), SwitchesEvent::UnitActive(running)) => {
                self.pending = Pending::Switch(s);
                SwitchesAction::Run { args: switch_command(s, running) }
            },
            (Pending::Switch(s), SwitchesEvent::CommandFinished) => {
                self.pending = Pending::StateAfter(s);
                SwitchesAction::Query { args: query_command(s) }
            },
            (Pending::StateAfter(s), SwitchesEvent::UnitActive(running)) => {
                match s {
                    Service::Mpd => self.mpd = running,
                    Service::Cava => self.cava = running,
                }
                self.pending = Pending::Idle;
                SwitchesAction::Nothing
            },
            _ => SwitchesAction::Nothing,
        }
    }

    /// Whether the panel holds an idle inhibition.
    pub fn inhibit(&self) -> (b: bool)
        ensures
            b == self@.inhibit,
    {
        self.inhibit
    }

    /// The cookie of the inhibition held last.
    pub fn inhibit_cookie(&self) -> (c: u32)
        ensures
            c == self@.inhibit_cookie,
    {
        self.inhibit_cookie
    }

    /// Whether MPD was found running.
    pub fn mpd(&self) -> (b: bool)
        ensures
            b == self@.mpd,
    {
        self.mpd
    }

    /// Whether CAVA was found running.
    pub fn cava(&self) -> (b: bool)
        ensures
            b == self@.cava,
    {
        self.cava
    }

    /// The tooltip of the MPD button.
    pub fn mpd_tooltip(&self) -> (t: String)
        ensures
            t@ == (if self@.mpd {
                "MPD is running"@
            } else {
                "MPD is not running"@
            }),
    {
        if self.mpd {
            String::from_str("MPD is running")
        } else {
            String::from_str("MPD is not running")
        }
    }

    /// The tooltip of the CAVA button. It reads whether MPD runs, not
    /// whether CAVA does.
    pub fn cava_tooltip(&self) -> (t: String)
        ensures
            t@ == (if self@.mpd {
                "CAVA is running"@
            } else {
                "CAVA is not running"@
            }),
    {
        if self.mpd {
            String::from_str("CAVA is running")
        } else {
            String::from_str("CAVA is not running")
        }
    }

    /// The tooltip of the idle button.
    pub fn inhibit_tooltip(&self) -> (t: String)
        ensures
            t@ == (if self@.inhibit {
                "Inhibited system idle"@
            } else {
                "This button says Zzz, pretending to sleep"@
            }),
    {
        if self.inhibit {
            String::from_str("Inhibited system idle")
        } else {
            String::from_str("This button says Zzz, pretending to sleep")
        }
    }

    /// The icon of the idle button.
    pub fn inhibit_icon(&self) -> (t: String)
        ensures
            t@ == (if self@.inhibit {
                "caffeine-cup-full-symbolic"@
            } else {
                "caffeine-cup-empty-symbolic"@
            }),
    {
        if self.inhibit {
            String::from_str("caffeine-cup-full-symbolic")
        } else {
            String::from_str("caffeine-cup-empty-symbolic")
        }
    }
}

/// The button that switches a service.
pub open spec fn button_of(service: Service) -> SwitchesMsg {
    match service {
        Service::Mpd => SwitchesMsg::Mpd,
        Service::Cava => SwitchesMsg::Cava,
    }
}

/// Pressing the idle button twice, with the cookie of the inhibition handed
/// back in between, inhibits idle and then lifts exactly that inhibition,
/// leaving the panel as it was but for the cookie it keeps.
pub proof fn inhibit_round_trip(v: SwitchesView, cookie: u32)
    requires
        v.pending == Pending::Idle,
        !v.inhibit,
    ensures
        ({
            let (v1, a1) = switches_step(v, SwitchesEvent::Pressed(SwitchesMsg::Inhibit));
            let (v2, a2) = switches_step(v1, SwitchesEvent::Inhibited(cookie));
            let (v3, a3) = switches_step(v2, SwitchesEvent::Pressed(SwitchesMsg::Inhibit));
            &&& a1 == SwitchesActionView::Inhibit(inhibit_reason())
            &&& v2.inhibit && v2.inhibit_cookie == cookie && v2.pending == Pending::Idle
            &&& a2 == SwitchesActionView::Nothing
            &&& a3 == SwitchesActionView::Uninhibit(cookie)
            &&& v3 == SwitchesView { inhibit_cookie: cookie, ..v }
        }),
{
}

/// Pressing a service's button, and answering each request in turn, stops
/// the service if it was found running and starts it if not, then shows
/// what the last answer says; nothing else of the panel changes.
pub proof fn service_round_trip(v: SwitchesView, service: Service, before: bool, after: bool)
    requires
        v.pending == Pending::Idle,
    ensures
        ({
            let (v1, a1) = switches_step(v, SwitchesEvent::Pressed(button_of(service)));
            let (v2, a2) = switches_step(v1, SwitchesEvent::UnitActive(before));
            let (v3, a3) = switches_step(v2, SwitchesEvent::CommandFinished);
            let (v4, a4) = switches_step(v3, SwitchesEvent::UnitActive(after));
            &&& a1 == SwitchesActionView::Query(query_args(service))
            &&& a2 == SwitchesActionView::Run(switch_args(service, before))
            &&& switch_args(service, before)[1] == (if before {
                "stop"@
            } else {
                "start"@
            })
            &&& a3 == SwitchesActionView::Query(query_args(service))
            &&& a4 == SwitchesActionView::Nothing
            &&& v4 == with_state(v, service, after)
            &&& v4.inhibit == v.inhibit && v4.inhibit_cookie == v.inhibit_cookie
        }),
{
}

/// While the panel waits for an answer, button presses change nothing.
pub proof fn busy_ignores_presses(v: SwitchesView, m: SwitchesMsg)
    requires
        v.pending != Pending::Idle,
    ensures
        switches_step(v, SwitchesEvent::Pressed(m)) == (v, SwitchesActionView::Nothing),
{
}

/// The panel lifts no inhibition it does not hold, and holds one only
/// after its cookie came back.
pub proof fn inhibition_is_tracked(v: SwitchesView, e: SwitchesEvent)
    ensures
        switches_step(v, e).1 matches SwitchesActionView::Uninhibit(c) ==> v.inhibit && c
            == v.inhibit_cookie && !switches_step(v, e).0.inhibit,
        !v.inhibit && switches_step(v, e).0.inhibit ==> v.pending == Pending::Cookie
            && e == SwitchesEvent::Inhibited(switches_step(v, e).0.inhibit_cookie),
{
}

} // verus!
