//! Items of the system tray.

use vstd::prelude::*;

verus! {

/// What a tray item is told.
#[derive(Clone, Copy, Debug, PartialEq, Eq, Structural)]
pub enum SystrayItemMsg {
    LeftClick,
    RightClick,
}

/// What a tray item asks of its runtime.
#[derive(Clone, Copy, Debug, PartialEq, Eq, Structural)]
pub enum ItemAction {
    /// Activate the item at these coordinates.
    Activate { x: i32, y: i32 },
    /// Hide the item's menu, which is shown.
    CloseMenu,
    /// Build the item's menu afresh and show it under the item.
    OpenMenu,
}

/// How a tray item answers a click: a left click activates it at the
/// origin; a right click hides its menu where the menu is shown, and shows
/// it otherwise.
pub open spec fn item_response(message: SystrayItemMsg, menu_shown: bool) -> ItemAction {
    match message {
        SystrayItemMsg::LeftClick => ItemAction::Activate { x: 0, y: 0 },
        SystrayItemMsg::RightClick => if menu_shown {
            ItemAction::CloseMenu
        } else {
            ItemAction::OpenMenu
        },
    }
}

/// How a tray item answers a click, as `item_response` says; `menu_shown`
/// says whether its menu is on screen.
pub fn item_action(message: SystrayItemMsg, menu_shown: bool) -> (action: ItemAction)
    ensures
        action == item_response(message, menu_shown),
{
    match message {
        SystrayItemMsg::LeftClick => ItemAction::Activate { x: 0, y: 0 },
        SystrayItemMsg::RightClick => if menu_shown {
            ItemAction::CloseMenu
        } else {
            ItemAction::OpenMenu
        },
    }
}

/// The icon a tray item is drawn with: the one it names, `none` where it
/// names none.
pub fn item_icon(icon_name: &Option<String>) -> (icon: &str)
    ensures
        icon@ == (match icon_name {
            Some(n) => n@,
            None => "none"@,
        }),
{
    match icon_name {
        Some(n) => n.as_str(),
        None => "none",
    }
}

/// A left click activates the item at the origin, whether or not its menu
/// is shown; a right click never activates it, only opens or closes the
/// menu.
pub proof fn left_click_activates(menu_shown: bool)
    ensures
        item_response(SystrayItemMsg::LeftClick, menu_shown) == (ItemAction::Activate { x: 0, y: 0 }),
        !(item_response(SystrayItemMsg::RightClick, menu_shown) is Activate),
{
}

/// Two right clicks in a row, the menu shown between them as the first
/// asked, open the menu and close it again.
pub proof fn right_click_toggles_menu(menu_shown: bool)
    ensures
        !menu_shown ==> item_response(SystrayItemMsg::RightClick, menu_shown) == ItemAction::OpenMenu
            && item_response(SystrayItemMsg::RightClick, true) == ItemAction::CloseMenu,
        menu_shown ==> item_response(SystrayItemMsg::RightClick, menu_shown)
            == ItemAction::CloseMenu && item_response(SystrayItemMsg::RightClick, false)
            == ItemAction::OpenMenu,
{
}

} // verus!
