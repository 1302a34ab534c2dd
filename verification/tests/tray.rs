use relaypulse_monitor::text::same_text;
use relaypulse_monitor::tray::{
    click_action, menu_action, menu_actions, menu_id, menu_label, react, MouseButton,
    Reaction, ShellState, TrayAction, TrayEffect, EXIT_CODE, MAIN_WINDOW, QUIT_ID, QUIT_LABEL,
    SHOW_ID, SHOW_LABEL, TOOLTIP,
};

const STATES: [ShellState; 3] =
    [ShellState::WindowVisible, ShellState::WindowHidden, ShellState::ProcessExiting];

#[test]
fn constants_have_their_values() {
    assert_eq!(SHOW_ID, "show");
    assert_eq!(QUIT_ID, "quit");
    assert_eq!(SHOW_LABEL, "显示窗口");
    assert_eq!(QUIT_LABEL, "退出");
    assert_eq!(TOOLTIP, "RelayPulse Monitor");
    assert_eq!(MAIN_WINDOW, "main");
    assert_eq!(EXIT_CODE, 0);
}

#[test]
fn menu_offers_show_then_quit() {
    assert_eq!(menu_actions(), vec![TrayAction::Show, TrayAction::Quit]);
    assert_eq!(menu_id(TrayAction::Show), "show");
    assert_eq!(menu_id(TrayAction::Quit), "quit");
    assert_eq!(menu_label(TrayAction::Show), "显示窗口");
    assert_eq!(menu_label(TrayAction::Quit), "退出");
}

#[test]
fn menu_entries_are_recognised() {
    for action in menu_actions() {
        assert_eq!(menu_action(menu_id(action)), Some(action));
    }
}

#[test]
fn menu_action_knows_show_and_quit() {
    assert_eq!(menu_action("show"), Some(TrayAction::Show));
    assert_eq!(menu_action("quit"), Some(TrayAction::Quit));
}

#[test]
fn menu_action_ignores_other_identifiers() {
    for id in ["", "Show", "QUIT", "show ", " quit", "sho", "quit!", "hide", "退出", "shoW"] {
        assert_eq!(menu_action(id), None);
    }
}

#[test]
fn left_click_asks_to_show() {
    assert_eq!(click_action(MouseButton::Left), Some(TrayAction::Show));
    assert_eq!(click_action(MouseButton::Right), None);
    assert_eq!(click_action(MouseButton::Middle), None);
}

#[test]
fn show_with_a_window_reveals_it() {
    let expected = Reaction { state: ShellState::WindowVisible, effect: TrayEffect::RevealWindow };
    assert_eq!(react(ShellState::WindowHidden, Some(TrayAction::Show), true), expected);
    assert_eq!(react(ShellState::WindowVisible, Some(TrayAction::Show), true), expected);
}

#[test]
fn show_without_a_window_is_a_no_op() {
    for state in STATES {
        let reaction = react(state, Some(TrayAction::Show), false);
        assert_eq!(reaction, Reaction { state, effect: TrayEffect::Nothing });
    }
}

#[test]
fn quit_exits_with_code_0() {
    for state in STATES {
        for window_present in [false, true] {
            let reaction = react(state, Some(TrayAction::Quit), window_present);
            assert_eq!(reaction.state, ShellState::ProcessExiting);
            assert_eq!(reaction.effect, TrayEffect::ExitProcess { code: 0 });
        }
    }
}

#[test]
fn unrecognised_events_are_ignored() {
    for state in STATES {
        for window_present in [false, true] {
            let reaction = react(state, None, window_present);
            assert_eq!(reaction, Reaction { state, effect: TrayEffect::Nothing });
        }
    }
}

#[test]
fn exiting_is_terminal() {
    let reaction = react(ShellState::ProcessExiting, Some(TrayAction::Show), true);
    assert_eq!(reaction.state, ShellState::ProcessExiting);
    assert_eq!(reaction.effect, TrayEffect::RevealWindow);
    let reaction = react(ShellState::ProcessExiting, None, true);
    assert_eq!(reaction.state, ShellState::ProcessExiting);
}

#[test]
fn left_click_acts_like_the_show_entry() {
    for state in STATES {
        for window_present in [false, true] {
            assert_eq!(
                react(state, click_action(MouseButton::Left), window_present),
                react(state, menu_action("show"), window_present)
            );
        }
    }
}

#[test]
fn same_text_compares_characters() {
    assert!(same_text("", ""));
    assert!(same_text("show", "show"));
    assert!(same_text("退出", "退出"));
    assert!(!same_text("show", "shot"));
    assert!(!same_text("show", "sho"));
    assert!(!same_text("", "a"));
    assert!(!same_text("退出", "退"));
    assert!(!same_text("é", "e"));
}
