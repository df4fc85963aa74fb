use vstd::prelude::*;

verus! {

/// A mouse button on the tray icon.
#[derive(Clone, Copy, Debug, PartialEq, Eq, Structural)]
pub enum MouseButton {
    Left,
    Right,
    Middle,
}

/// Whether a click event reports the press or the release of the button.
#[derive(Clone, Copy, Debug, PartialEq, Eq, Structural)]
pub enum MouseButtonState {
    Up,
    Down,
}

/// An event on the tray icon.
#[derive(Clone, Copy, Debug, PartialEq, Eq, Structural)]
pub enum TrayEvent {
    Click { button: MouseButton, button_state: MouseButtonState },
    /// Pointer enter, move and leave, double clicks and the like.
    Other,
}

/// What the tray icon does in answer to an event.
#[derive(Clone, Copy, Debug, PartialEq, Eq, Structural)]
pub enum TrayAction {
    /// Hide the popover panel.
    HidePopover,
    /// Show the popover panel and raise its window above fullscreen apps.
    ShowPopover,
    /// Attach the context menu, pop it up, and detach it again, so that it
    /// never stays attached and swallows the clicks of the left button.
    PopUpMenu,
    Ignore,
}

/// The answer to a tray icon event while the popover is shown or not.
pub open spec fn tray_action_spec(event: TrayEvent, popover_shown: bool) -> TrayAction {
    match event {
        TrayEvent::Click { button: MouseButton::Left, button_state: MouseButtonState::Up } => {
            if popover_shown {
                TrayAction::HidePopover
            } else {
                TrayAction::ShowPopover
            }
        },
        TrayEvent::Click { button: MouseButton::Right, button_state: MouseButtonState::Down } => TrayAction::PopUpMenu,
        _ => TrayAction::Ignore,
    }
}

/// The answer to a tray icon event while the popover is shown or not: the
/// release of the left button toggles the popover, the press of the right
/// button pops up the context menu, and nothing else does anything.
pub fn tray_action(event: TrayEvent, popover_shown: bool) -> (action: TrayAction)
    ensures
        action == tray_action_spec(event, popover_shown),
        event == (TrayEvent::Click { button: MouseButton::Right, button_state: MouseButtonState::Down })
            ==> action == TrayAction::PopUpMenu,
        event == (TrayEvent::Click { button: MouseButton::Left, button_state: MouseButtonState::Up })
            ==> action == (if popover_shown { TrayAction::HidePopover } else { TrayAction::ShowPopover }),
        event != (TrayEvent::Click { button: MouseButton::Right, button_state: MouseButtonState::Down })
            && event != (TrayEvent::Click { button: MouseButton::Left, button_state: MouseButtonState::Up })
            ==> action == TrayAction::Ignore,
{
    match event {
        TrayEvent::Click { button: MouseButton::Left, button_state: MouseButtonState::Up } => {
            if popover_shown {
                TrayAction::HidePopover
            } else {
                TrayAction::ShowPopover
            }
        },
        TrayEvent::Click { button: MouseButton::Right, button_state: MouseButtonState::Down } => TrayAction::PopUpMenu,
        _ => TrayAction::Ignore,
    }
}

/// Whether the popover is shown after `action`, from whether it was before.
pub open spec fn shown_after(action: TrayAction, shown: bool) -> bool {
    match action {
        TrayAction::HidePopover => false,
        TrayAction::ShowPopover => true,
        _ => shown,
    }
}

/// A left click toggles the popover, and two left clicks leave it as it was.
pub proof fn lemma_left_click_toggles(shown: bool)
    ensures
        ({
            let click = TrayEvent::Click { button: MouseButton::Left, button_state: MouseButtonState::Up };
            let once = shown_after(tray_action_spec(click, shown), shown);
            &&& once == !shown
            &&& shown_after(tray_action_spec(click, once), once) == shown
        }),
{
}

/// The press of the right button pops up the context menu whether the
/// popover is shown or not, and never moves the popover.
pub proof fn lemma_right_press_pops_menu(shown: bool)
    ensures
        tray_action_spec(TrayEvent::Click { button: MouseButton::Right, button_state: MouseButtonState::Down }, shown)
            == TrayAction::PopUpMenu,
        tray_action_spec(TrayEvent::Click { button: MouseButton::Right, button_state: MouseButtonState::Down }, shown)
            == tray_action_spec(TrayEvent::Click { button: MouseButton::Right, button_state: MouseButtonState::Down }, !shown),
{
}

/// Events other than the left button's release leave the popover as it was.
pub proof fn lemma_only_left_release_moves_popover(event: TrayEvent, shown: bool)
    requires
        event != (TrayEvent::Click { button: MouseButton::Left, button_state: MouseButtonState::Up }),
    ensures
        shown_after(tray_action_spec(event, shown), shown) == shown,
{
}

/// An item of the context menu.
#[derive(Clone, Copy, Debug, PartialEq, Eq, Structural)]
pub enum MenuItem {
    ShowWindow,
    Quit,
    /// An item this menu does not know.
    Unknown,
}

/// What choosing a menu item does.
#[derive(Clone, Copy, Debug, PartialEq, Eq, Structural)]
pub enum MenuAction {
    /// Show and focus the main window and make the app a regular one, with
    /// a Dock icon.
    RevealMainWindow,
    /// Release the app's resources and exit.
    Quit,
    Ignore,
}

/// The answer to choosing `item` while the main window is visible or not:
/// "Show Window" reveals a hidden window and leaves a visible one alone.
pub fn menu_action(item: MenuItem, window_visible: bool) -> (action: MenuAction)
    ensures
        action == match item {
            MenuItem::ShowWindow => if window_visible {
                MenuAction::Ignore
            } else {
                MenuAction::RevealMainWindow
            },
            MenuItem::Quit => MenuAction::Quit,
            MenuItem::Unknown => MenuAction::Ignore,
        },
{
    match item {
        MenuItem::ShowWindow => {
            if window_visible {
                MenuAction::Ignore
            } else {
                MenuAction::RevealMainWindow
            }
        },
        MenuItem::Quit => MenuAction::Quit,
        MenuItem::Unknown => MenuAction::Ignore,
    }
}

} // verus!
