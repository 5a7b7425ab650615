//! The logout overlay: which action is highlighted, what the caption reads,
//! which key selects what, and what a confirmed action asks of the compositor.

use vstd::prelude::*;

use crate::command::{command_line, words_view};
use crate::icon::IconManager;

verus! {

/// One of the choices of the logout overlay. `NoAction` stands for "nothing
/// highlighted"; confirming it only closes the overlay.
#[derive(Clone, Copy, Debug, PartialEq, Eq, Structural)]
pub enum LogoutAction {
    NoAction,
    Poweroff,
    Reboot,
    Suspend,
    Logout,
    Lock,
}

impl LogoutAction {
    /// The caption shown under the buttons while this action is highlighted.
    pub open spec fn label(self) -> Seq<char> {
        match self {
            LogoutAction::NoAction => "Daywatch"@,
            LogoutAction::Poweroff => "Power off"@,
            LogoutAction::Reboot => "Reboot"@,
            LogoutAction::Suspend => "Suspend"@,
            LogoutAction::Logout => "Log out"@,
            LogoutAction::Lock => "Lock screen"@,
        }
    }

    /// The caption of this action as a `String`.
    pub fn to_string(&self) -> (s: String)
        ensures
            s@ == self.label(),
    {
        match self {
            LogoutAction::NoAction => String::from_str("Daywatch"),
            LogoutAction::Poweroff => String::from_str("Power off"),
            LogoutAction::Reboot => String::from_str("Reboot"),
            LogoutAction::Suspend => String::from_str("Suspend"),
            LogoutAction::Logout => String::from_str("Log out"),
            LogoutAction::Lock => String::from_str("Lock screen"),
        }
    }
}


/// Names of keys that are not characters; only Escape means anything here.
#[derive(Clone, Copy, Debug, PartialEq, Eq, Structural)]
pub enum Named {
    Escape,
    Other,
}

/// A key as the windowing toolkit reports it.
#[derive(Clone, Debug)]
pub enum Key {
    Named(Named),
    Character(String),
    Unidentified,
}

/// The input events the overlay listens to: key presses, and everything
/// else, which it ignores.
#[derive(Clone, Debug)]
pub enum Event {
    KeyPressed(Key),
    Other,
}

/// What the overlay is told.
#[derive(Clone, Debug)]
pub enum Message {
    SelectAction(LogoutAction),
    IcedEvent(Event),
}

/// What the overlay asks of its runtime after a message.
#[derive(Clone, Copy, Debug, PartialEq, Eq, Structural)]
pub enum Task {
    /// Nothing.
    Nothing,
    /// Feed `Message::SelectAction` with this action back to the overlay.
    Select(LogoutAction),
    /// Carry the action out (see `compositor_request`), then close the overlay.
    ExecuteThenExit(LogoutAction),
}

/// The single character of a key's text, if it has exactly one.
pub open spec fn sole_char(text: Seq<char>) -> Option<char> {
    if text.len() == 1 {
        Some(text[0])
    } else {
        None
    }
}

/// The action a key selects: Escape deselects, and the letters shown in
/// brackets beside each action pick it: power off (s), reboot (r), log out
/// (e), suspend (u), lock screen (l).
pub open spec fn key_action(key: Key) -> Option<LogoutAction> {
    match key {
        Key::Named(Named::Escape) => Some(LogoutAction::NoAction),
        Key::Character(text) => match sole_char(text@) {
            Some('s') => Some(LogoutAction::Poweroff),
            Some('r') => Some(LogoutAction::Reboot),
            Some('l') => Some(LogoutAction::Lock),
            Some('e') => Some(LogoutAction::Logout),
            Some('u') => Some(LogoutAction::Suspend),
            _ => None,
        },
        _ => None,
    }
}

/// The action selected by pressing `key`, if any.
pub fn identify_key(key: &Key) -> (action: Option<LogoutAction>)
    ensures
        action == key_action(*key),
{
    match key {
        Key::Named(Named::Escape) => Some(LogoutAction::NoAction),
        Key::Named(Named::Other) => None,
        Key::Character(text) => {
            let t = text.as_str();
            if t.unicode_len() != 1 {
                return None;
            }
            let c = t.get_char(0);
            if c == 's' {
                Some(LogoutAction::Poweroff)
            } else if c == 'r' {
                Some(LogoutAction::Reboot)
            } else if c == 'l' {
                Some(LogoutAction::Lock)
            } else if c == 'e' {
                Some(LogoutAction::Logout)
            } else if c == 'u' {
                Some(LogoutAction::Suspend)
            } else {
                None
            }
        },
        Key::Unidentified => None,
    }
}

/// What a `Logout` shows: the caption, the highlighted action and the icon
/// theme its buttons are drawn from.
pub struct LogoutView {
    pub text: Seq<char>,
    pub focused: LogoutAction,
    pub theme: Seq<char>,
}

/// The overlay as it opens: nothing highlighted, the caption `Daywatch`.
pub open spec fn opened(theme: Seq<char>) -> LogoutView {
    LogoutView { text: LogoutAction::NoAction.label(), focused: LogoutAction::NoAction, theme }
}

/// How the overlay answers a message. Selecting the highlighted action
/// confirms it: it is carried out and the overlay closes. Selecting another
/// action highlights it and shows its caption. A key that stands for an
/// action selects it; other input is ignored.
pub open spec fn step(v: LogoutView, message: Message) -> (LogoutView, Task) {
    match message {
        Message::SelectAction(a) => if v.focused == a {
            (v, Task::ExecuteThenExit(a))
        } else {
            (LogoutView { text: a.label(), focused: a, ..v }, Task::Nothing)
        },
        Message::IcedEvent(Event::KeyPressed(k)) => (
            v,
            match key_action(k) {
                Some(a) => Task::Select(a),
                None => Task::Nothing,
            },
        ),
        Message::IcedEvent(Event::Other) => (v, Task::Nothing),
    }
}

/// The logout overlay's state.
pub struct Logout {
    icon_manager: IconManager,
    text: String,
    focused: LogoutAction,
}

impl View for Logout {
    type V = LogoutView;

    closed spec fn view(&self) -> LogoutView {
        LogoutView { text: self.text@, focused: self.focused, theme: self.icon_manager.theme_name() }
    }
}

impl Logout {
    /// The overlay as it opens, with the icon manager given.
    pub fn with_icons(icon_manager: IconManager) -> (logout: Logout)
        ensures
            logout@ == opened(icon_manager.theme_name()),
    {
        Logout {
            text: LogoutAction::NoAction.to_string(),
            focused: LogoutAction::NoAction,
            icon_manager,
        }
    }

    /// The overlay as it opens, drawing icons from the user's icon theme.
    pub fn new() -> (logout: Logout)
        ensures
            logout@.text == LogoutAction::NoAction.label(),
            logout@.focused == LogoutAction::NoAction,
    {
        Logout::with_icons(IconManager::new())
    }

    /// Answers a message as `step` says.
    pub fn update(&mut self, message: Message) -> (task: Task)
        ensures
            (final(self)@, task) == step(old(self)@, message),
    {
        match message {
            Message::SelectAction(action) => {
                if self.focused == action {
                    Task::ExecuteThenExit(action)
                } else {
                    self.text = action.to_string();
                    self.focused = action;
                    Task::Nothing
                }
            },
            Message::IcedEvent(Event::KeyPressed(key)) => match identify_key(&key) {
                Some(action) => Task::Select(action),
                None => Task::Nothing,
            },
            Message::IcedEvent(Event::Other) => Task::Nothing,
        }
    }

    /// The caption.
    pub fn text(&self) -> (t: &String)
        ensures
            t@ == self@.text,
    {
        &self.text
    }

    /// The highlighted action.
    pub fn focused(&self) -> (a: LogoutAction)
        ensures
            a == self@.focused,
    {
        self.focused
    }

    /// The icon manager the buttons are drawn with.
    pub fn icon_manager(&self) -> (m: &IconManager)
        ensures
            m.theme_name() == self@.theme,
    {
        &self.icon_manager
    }
}


/// A request to the compositor.
#[derive(Clone, Debug)]
pub enum IpcRequest {
    /// Start the program `command[0]` with the remaining words as arguments.
    Spawn { command: Vec<String> },
    /// End the session.
    Quit { skip_confirmation: bool },
}

/// A compositor request as plain text.
pub enum IpcRequestView {
    Spawn(Seq<Seq<char>>),
    Quit(bool),
}

impl View for IpcRequest {
    type V = IpcRequestView;

    open spec fn view(&self) -> IpcRequestView {
        match self {
            IpcRequest::Spawn { command } => IpcRequestView::Spawn(words_view(command@)),
            IpcRequest::Quit { skip_confirmation } => IpcRequestView::Quit(*skip_confirmation),
        }
    }
}

/// What carrying out a confirmed action asks of the compositor: power off,
/// reboot and suspend through `systemctl`, lock by starting `hyprlock`, log
/// out by quitting the session with its usual confirmation. Confirming
/// `NoAction` asks nothing.
pub open spec fn compositor_request(action: LogoutAction) -> Option<IpcRequestView> {
    match action {
        LogoutAction::NoAction => None,
        LogoutAction::Poweroff => Some(IpcRequestView::Spawn(seq!["systemctl"@, "poweroff"@])),
        LogoutAction::Reboot => Some(IpcRequestView::Spawn(seq!["systemctl"@, "reboot"@])),
        LogoutAction::Suspend => Some(IpcRequestView::Spawn(seq!["systemctl"@, "suspend"@])),
        LogoutAction::Logout => Some(IpcRequestView::Quit(false)),
        LogoutAction::Lock => Some(IpcRequestView::Spawn(seq!["hyprlock"@])),
    }
}

/// The compositor request that carries `action` out.
pub fn request_for(action: LogoutAction) -> (request: Option<IpcRequest>)
    ensures
        request is Some <==> compositor_request(action) is Some,
        request matches Some(r) ==> r@ == compositor_request(action)->0,
{
    match action {
        LogoutAction::NoAction => None,
        LogoutAction::Poweroff => {
            let command = command_line(&["systemctl", "poweroff"]);
            assert(words_view(command@) =~= seq!["systemctl"@, "poweroff"@]);
            Some(IpcRequest::Spawn { command })
        },
        LogoutAction::Reboot => {
            let command = command_line(&["systemctl", "reboot"]);
            assert(words_view(command@) =~= seq!["systemctl"@, "reboot"@]);
            Some(IpcRequest::Spawn { command })
        },
        LogoutAction::Suspend => {
            let command = command_line(&["systemctl", "suspend"]);
            assert(words_view(command@) =~= seq!["systemctl"@, "suspend"@]);
            Some(IpcRequest::Spawn { command })
        },
        LogoutAction::Logout => Some(IpcRequest::Quit { skip_confirmation: false }),
        LogoutAction::Lock => {
            let command = command_line(&["hyprlock"]);
            assert(words_view(command@) =~= seq!["hyprlock"@]);
            Some(IpcRequest::Spawn { command })
        },
    }
}

/// Selecting a button for the first time highlights it and shows its
/// caption without carrying anything out; selecting it again confirms it:
/// the action is carried out and the overlay closes.
pub proof fn select_twice_confirms(v: LogoutView, a: LogoutAction)
    ensures
        v.focused != a ==> step(v, Message::SelectAction(a)).1 == Task::Nothing
            && step(v, Message::SelectAction(a)).0.focused == a
            && step(v, Message::SelectAction(a)).0.text == a.label(),
        step(step(v, Message::SelectAction(a)).0, Message::SelectAction(a)).1
            == Task::ExecuteThenExit(a),
{
}

/// Escape deselects: with an action highlighted, it brings the overlay back
/// to how it opened; pressed again, it closes the overlay, asking nothing of
/// the compositor.
pub proof fn escape_deselects_then_quits(v: LogoutView)
    ensures
        key_action(Key::Named(Named::Escape)) == Some(LogoutAction::NoAction),
        v.focused != LogoutAction::NoAction ==> step(
            v,
            Message::SelectAction(LogoutAction::NoAction),
        ).0 == opened(v.theme),
        step(
            step(v, Message::SelectAction(LogoutAction::NoAction)).0,
            Message::SelectAction(LogoutAction::NoAction),
        ).1 == Task::ExecuteThenExit(LogoutAction::NoAction),
        compositor_request(LogoutAction::NoAction) is None,
{
}

/// Every message leaves the icon theme as it was, and a key press changes
/// nothing but may ask for a selection; only a selection can close the
/// overlay, and only one of the action already highlighted.
pub proof fn only_confirmation_closes(v: LogoutView, m: Message)
    ensures
        step(v, m).0.theme == v.theme,
        step(v, m).1 matches Task::ExecuteThenExit(a) ==> m == Message::SelectAction(a)
            && v.focused == a,
        m is IcedEvent ==> step(v, m).0 == v,
{
}

/// A key that stands for an action asks to select that action, whatever is
/// highlighted, and changes nothing by itself; so pressing the key of the
/// highlighted action, its selection fed back, confirms it.
pub proof fn key_press_selects(v: LogoutView, key: Key)
    ensures
        key_action(key) matches Some(a) ==> step(
            v,
            Message::IcedEvent(Event::KeyPressed(key)),
        ) == (v, Task::Select(a)),
        key_action(key) matches Some(a) ==> (v.focused == a ==> step(
            step(v, Message::IcedEvent(Event::KeyPressed(key))).0,
            Message::SelectAction(a),
        ).1 == Task::ExecuteThenExit(a)),
        key_action(key) is None ==> step(v, Message::IcedEvent(Event::KeyPressed(key))) == (
            v,
            Task::Nothing,
        ),
{
}

/// The caption always names the highlighted action.
pub proof fn caption_names_focus(v: LogoutView, m: Message)
    requires
        v.text == v.focused.label(),
    ensures
        step(v, m).0.text == step(v, m).0.focused.label(),
{
}

} // verus!
