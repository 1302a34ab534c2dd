//! The tray: what the menu offers, which action an event from the tray asks
//! for, and what that action does to the window and the process.
//!
//! The handler is a function from state and action to next state and effect.
//! The host owns the tray icon, delivers its events here and carries out the
//! effect that comes back.

use vstd::prelude::*;
use crate::text::same_text;

verus! {

/// Identifier of the menu entry that shows the window.
pub const SHOW_ID: &'static str = "show";

/// Identifier of the menu entry that ends the process.
pub const QUIT_ID: &'static str = "quit";

/// Label of the menu entry that shows the window.
pub const SHOW_LABEL: &'static str = "显示窗口";

/// Label of the menu entry that ends the process.
pub const QUIT_LABEL: &'static str = "退出";

/// Tooltip of the tray icon.
pub const TOOLTIP: &'static str = "RelayPulse Monitor";

/// Label of the window that the tray shows.
pub const MAIN_WINDOW: &'static str = "main";

/// Exit code of a process that the tray ends.
pub const EXIT_CODE: i32 = 0;

/// What an event from the tray asks for.
#[derive(Clone, Copy, Debug, PartialEq, Eq, Structural)]
pub enum TrayAction {
    /// Show the main window and give it the input focus.
    Show,
    /// End the process.
    Quit,
}

/// The mouse button of a click on the tray icon.
#[derive(Clone, Copy, Debug, PartialEq, Eq, Structural)]
pub enum MouseButton {
    Left,
    Right,
    Middle,
}

/// Where the window and the process stand.
#[derive(Clone, Copy, Debug, PartialEq, Eq, Structural)]
pub enum ShellState {
    WindowVisible,
    WindowHidden,
    /// The process has been told to end. No event leads out of this state.
    ProcessExiting,
}

/// What the host has to carry out after an event.
#[derive(Clone, Copy, Debug, PartialEq, Eq, Structural)]
pub enum TrayEffect {
    /// Nothing: the event was not recognised, or there is no window to show.
    Nothing,
    /// Make the main window visible and give it the input focus.
    RevealWindow,
    /// End the process with this exit code.
    ExitProcess { code: i32 },
}

/// The state after an event, and the effect to carry out.
#[derive(Clone, Copy, Debug, PartialEq, Eq, Structural)]
pub struct Reaction {
    pub state: ShellState,
    pub effect: TrayEffect,
}

/// The action that the menu entry with identifier `id` asks for, if any.
pub open spec fn menu_action_of(id: Seq<char>) -> Option<TrayAction> {
    if id == SHOW_ID@ {
        Some(TrayAction::Show)
    } else if id == QUIT_ID@ {
        Some(TrayAction::Quit)
    } else {
        None
    }
}

/// The action that a click on the tray icon with `button` asks for, if any.
pub open spec fn click_action_of(button: MouseButton) -> Option<TrayAction> {
    if button == MouseButton::Left {
        Some(TrayAction::Show)
    } else {
        None
    }
}

/// The state that follows `state` when `action` arrives. Quit leads to the
/// exiting state from everywhere; Show makes the window visible if there is
/// one, but leads nowhere once the process is exiting.
pub open spec fn next_state(
    state: ShellState,
    action: Option<TrayAction>,
    window_present: bool,
) -> ShellState {
    match action {
        Some(TrayAction::Quit) => ShellState::ProcessExiting,
        Some(TrayAction::Show) => if window_present && state != ShellState::ProcessExiting {
            ShellState::WindowVisible
        } else {
            state
        },
        None => state,
    }
}

/// The effect that `action` has. It does not depend on the state.
pub open spec fn effect_of(action: Option<TrayAction>, window_present: bool) -> TrayEffect {
    match action {
        Some(TrayAction::Quit) => TrayEffect::ExitProcess { code: EXIT_CODE },
        Some(TrayAction::Show) => if window_present {
            TrayEffect::RevealWindow
        } else {
            TrayEffect::Nothing
        },
        None => TrayEffect::Nothing,
    }
}

/// The identifier of the menu entry that asks for `action`.
pub open spec fn menu_id_of(action: TrayAction) -> Seq<char> {
    match action {
        TrayAction::Show => SHOW_ID@,
        TrayAction::Quit => QUIT_ID@,
    }
}

/// The label of the menu entry that asks for `action`.
pub open spec fn menu_label_of(action: TrayAction) -> Seq<char> {
    match action {
        TrayAction::Show => SHOW_LABEL@,
        TrayAction::Quit => QUIT_LABEL@,
    }
}

/// The entries of the tray menu, from top to bottom.
pub fn menu_actions() -> (entries: Vec<TrayAction>)
    ensures
        entries@ == seq![TrayAction::Show, TrayAction::Quit],
{
    let mut entries: Vec<TrayAction> = Vec::new();
    entries.push(TrayAction::Show);
    entries.push(TrayAction::Quit);
    entries
}

/// The identifier under which the menu offers `action`.
pub fn menu_id(action: TrayAction) -> (id: &'static str)
    ensures
        id@ == menu_id_of(action),
{
    match action {
        TrayAction::Show => SHOW_ID,
        TrayAction::Quit => QUIT_ID,
    }
}

/// The label under which the menu offers `action`.
pub fn menu_label(action: TrayAction) -> (label: &'static str)
    ensures
        label@ == menu_label_of(action),
{
    match action {
        TrayAction::Show => SHOW_LABEL,
        TrayAction::Quit => QUIT_LABEL,
    }
}

/// The action that the menu entry with identifier `id` asks for. An
/// identifier that the menu does not offer asks for none.
pub fn menu_action(id: &str) -> (action: Option<TrayAction>)
    ensures
        action == menu_action_of(id@),
{
    if same_text(id, SHOW_ID) {
        Some(TrayAction::Show)
    } else if same_text(id, QUIT_ID) {
        Some(TrayAction::Quit)
    } else {
        None
    }
}

/// The action that a click on the tray icon asks for: the left button shows
/// the window, the others ask for nothing.
pub fn click_action(button: MouseButton) -> (action: Option<TrayAction>)
    ensures
        action == click_action_of(button),
{
    match button {
        MouseButton::Left => Some(TrayAction::Show),
        _ => None,
    }
}

/// Handles one event. `action` is what the event asks for, `None` for an
/// event that is not recognised; `window_present` says whether the main window
/// exists.
pub fn react(state: ShellState, action: Option<TrayAction>, window_present: bool) -> (reaction:
    Reaction)
    ensures
        reaction.state == next_state(state, action, window_present),
        reaction.effect == effect_of(action, window_present),
{
    match action {
        Some(TrayAction::Quit) => Reaction {
            state: ShellState::ProcessExiting,
            effect: TrayEffect::ExitProcess { code: EXIT_CODE },
        },
        Some(TrayAction::Show) => {
            if !window_present {
                Reaction { state, effect: TrayEffect::Nothing }
            } else {
                match state {
                    ShellState::ProcessExiting => Reaction { state, effect: TrayEffect::RevealWindow },
                    _ => Reaction {
                        state: ShellState::WindowVisible,
                        effect: TrayEffect::RevealWindow,
                    },
                }
            }
        },
        None => Reaction { state, effect: TrayEffect::Nothing },
    }
}

/// An entry of the menu is recognised when its identifier comes back in an
/// event: it asks for the action that it was offered for.
pub proof fn lemma_menu_entries_are_recognised(action: TrayAction)
    ensures
        menu_action_of(menu_id_of(action)) == Some(action),
{
    reveal_strlit("show");
    reveal_strlit("quit");
    assert(SHOW_ID@[0] != QUIT_ID@[0]);
}

/// A left click on the tray icon asks for what the menu's show entry asks for.
pub proof fn lemma_left_click_is_show()
    ensures
        click_action_of(MouseButton::Left) == menu_action_of(SHOW_ID@),
{
}

/// Asking to show a window that does not exist changes nothing and has no
/// effect.
pub proof fn lemma_show_without_window_is_ignored(state: ShellState)
    ensures
        next_state(state, Some(TrayAction::Show), false) == state,
        effect_of(Some(TrayAction::Show), false) == TrayEffect::Nothing,
{
}

/// Quit ends the process with exit code 0 from every state, window or not.
pub proof fn lemma_quit_always_exits(state: ShellState, window_present: bool)
    ensures
        next_state(state, Some(TrayAction::Quit), window_present) == ShellState::ProcessExiting,
        effect_of(Some(TrayAction::Quit), window_present) == (TrayEffect::ExitProcess { code: 0 }),
{
}

/// No event leads out of the exiting state, and only Quit leads into it.
pub proof fn lemma_exiting_is_terminal(
    state: ShellState,
    action: Option<TrayAction>,
    window_present: bool,
)
    ensures
        next_state(ShellState::ProcessExiting, action, window_present)
            == ShellState::ProcessExiting,
        state != ShellState::ProcessExiting && next_state(state, action, window_present)
            == ShellState::ProcessExiting ==> action == Some(TrayAction::Quit),
{
}

} // verus!
