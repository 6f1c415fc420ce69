use tiger_tui::app_state::{
    AppState, ConnectionField, ConnectionStatus, Screen, StatusLevel, Tab,
};
use tiger_tui::message::{update, update_connection, update_dashboard, Message, CONNECTED_TEXT};

fn default_app() -> AppState {
    AppState::default()
}

fn dashboard_app() -> AppState {
    let mut app = default_app();
    app.screen = Screen::Dashboard;
    app
}

#[test]
fn quit_sets_flag() {
    let mut app = default_app();
    update(&mut app, &Message::Quit);
    assert!(app.should_quit);
}

#[test]
fn connection_focus_cycles() {
    let mut app = default_app();
    assert_eq!(app.connection.focused, ConnectionField::ClusterId);
    update(&mut app, &Message::FocusNext);
    assert_eq!(app.connection.focused, ConnectionField::Address);
    update(&mut app, &Message::FocusNext);
    assert_eq!(app.connection.focused, ConnectionField::ConnectButton);
    update(&mut app, &Message::FocusNext);
    assert_eq!(app.connection.focused, ConnectionField::ClusterId);
}

#[test]
fn connection_char_input_and_backspace() {
    let mut app = default_app();
    // Default cluster_id is "0"
    update(&mut app, &Message::CharInput('1'));
    assert_eq!(app.connection.cluster_id, "01");
    update(&mut app, &Message::Backspace);
    assert_eq!(app.connection.cluster_id, "0");
}

#[test]
fn submit_on_button_transitions_to_dashboard() {
    let mut app = default_app();
    app.connection.focused = ConnectionField::ConnectButton;
    update(&mut app, &Message::Submit);
    assert_eq!(app.screen, Screen::Dashboard);
    assert_eq!(app.connection.status, ConnectionStatus::Connected);
}

#[test]
fn submit_on_input_does_nothing() {
    let mut app = default_app();
    assert_eq!(app.connection.focused, ConnectionField::ClusterId);
    update(&mut app, &Message::Submit);
    assert_eq!(app.screen, Screen::Connection);
}

#[test]
fn dashboard_tab_cycles() {
    let mut app = default_app();
    app.screen = Screen::Dashboard;
    assert_eq!(app.tab, Tab::Accounts);
    update(&mut app, &Message::FocusNext);
    assert_eq!(app.tab, Tab::Transfers);
    update(&mut app, &Message::FocusNext);
    assert_eq!(app.tab, Tab::BalanceSheet);
    update(&mut app, &Message::FocusNext);
    assert_eq!(app.tab, Tab::Accounts);
}

#[test]
fn dashboard_tab_cycles_prev() {
    let mut app = default_app();
    app.screen = Screen::Dashboard;
    update(&mut app, &Message::FocusPrev);
    assert_eq!(app.tab, Tab::BalanceSheet);
}

#[test]
fn connection_focus_cycles_prev() {
    let mut app = default_app();
    update(&mut app, &Message::FocusPrev);
    assert_eq!(app.connection.focused, ConnectionField::ConnectButton);
    update(&mut app, &Message::FocusPrev);
    assert_eq!(app.connection.focused, ConnectionField::Address);
    update(&mut app, &Message::FocusPrev);
    assert_eq!(app.connection.focused, ConnectionField::ClusterId);
}

#[test]
fn focus_next_then_prev_restores_focus() {
    for start in [
        ConnectionField::ClusterId,
        ConnectionField::Address,
        ConnectionField::ConnectButton,
    ] {
        let mut app = default_app();
        app.connection.focused = start;
        update(&mut app, &Message::FocusNext);
        assert_ne!(app.connection.focused, start);
        update(&mut app, &Message::FocusPrev);
        assert_eq!(app.connection.focused, start);
    }
}

#[test]
fn focus_messages_on_connection_screen_leave_the_tab() {
    let mut app = default_app();
    update(&mut app, &Message::FocusNext);
    assert_eq!(app.tab, Tab::Accounts);
    assert_eq!(app.screen, Screen::Connection);
}

#[test]
fn focus_messages_on_dashboard_leave_the_form_focus() {
    let mut app = dashboard_app();
    update(&mut app, &Message::FocusNext);
    assert_eq!(app.connection.focused, ConnectionField::ClusterId);
    assert_eq!(app.screen, Screen::Dashboard);
}

#[test]
fn nine_focus_next_return_to_start() {
    let mut app = default_app();
    app.connection.focused = ConnectionField::Address;
    for _ in 0..9 {
        update(&mut app, &Message::FocusNext);
    }
    assert_eq!(app.connection.focused, ConnectionField::Address);
}

#[test]
fn char_input_goes_to_the_focused_field() {
    let mut app = default_app();
    app.connection.focused = ConnectionField::Address;
    update(&mut app, &Message::CharInput('1'));
    assert_eq!(app.connection.address, "30001");
    assert_eq!(app.connection.cluster_id, "0");
    update(&mut app, &Message::Backspace);
    assert_eq!(app.connection.address, "3000");
    assert_eq!(app.connection.cluster_id, "0");
}

#[test]
fn char_input_keeps_non_ascii_characters_whole() {
    let mut app = default_app();
    update(&mut app, &Message::CharInput('\u{e9}'));
    assert_eq!(app.connection.cluster_id, "0\u{e9}");
    update(&mut app, &Message::Backspace);
    assert_eq!(app.connection.cluster_id, "0");
}

#[test]
fn char_input_and_backspace_on_button_do_nothing() {
    let mut app = default_app();
    app.connection.focused = ConnectionField::ConnectButton;
    update(&mut app, &Message::CharInput('x'));
    assert_eq!(app.connection.cluster_id, "0");
    assert_eq!(app.connection.address, "3000");
    update(&mut app, &Message::Backspace);
    assert_eq!(app.connection.cluster_id, "0");
    assert_eq!(app.connection.address, "3000");
    assert_eq!(app.connection.focused, ConnectionField::ConnectButton);
}

#[test]
fn backspace_on_empty_field_is_a_noop() {
    let mut app = default_app();
    update(&mut app, &Message::Backspace);
    assert_eq!(app.connection.cluster_id, "");
    update(&mut app, &Message::Backspace);
    assert_eq!(app.connection.cluster_id, "");
    assert_eq!(app.connection.cluster_id.len(), 0);
    assert_eq!(app.connection.address, "3000");
    assert_eq!(app.connection.focused, ConnectionField::ClusterId);
    assert_eq!(app.screen, Screen::Connection);
    assert!(!app.should_quit);
    assert!(app.status.is_none());
}

#[test]
fn submit_on_button_sets_a_success_message() {
    let mut app = default_app();
    app.connection.focused = ConnectionField::ConnectButton;
    update(&mut app, &Message::Submit);
    let status = app.status.expect("a status message is set");
    assert_eq!(status.level, StatusLevel::Success);
    assert_eq!(status.text, "Connected (simulated)");
    assert_eq!(status.text, CONNECTED_TEXT);
    assert!(!status.text.is_empty());
    assert_eq!(app.tab, Tab::Accounts);
    assert!(!app.should_quit);
    assert_eq!(app.connection.cluster_id, "0");
    assert_eq!(app.connection.address, "3000");
    assert_eq!(app.connection.focused, ConnectionField::ConnectButton);
}

#[test]
fn submit_on_text_fields_changes_nothing() {
    for field in [ConnectionField::ClusterId, ConnectionField::Address] {
        let mut app = default_app();
        app.connection.focused = field;
        update(&mut app, &Message::Submit);
        assert_eq!(app.screen, Screen::Connection);
        assert_eq!(app.connection.status, ConnectionStatus::Disconnected);
        assert!(app.status.is_none());
        assert_eq!(app.connection.focused, field);
        assert_eq!(app.tab, Tab::Accounts);
        assert!(!app.should_quit);
    }
}

#[test]
fn quit_changes_only_the_flag() {
    for screen in [Screen::Connection, Screen::Dashboard] {
        for field in [
            ConnectionField::ClusterId,
            ConnectionField::Address,
            ConnectionField::ConnectButton,
        ] {
            let mut app = default_app();
            app.screen = screen;
            app.connection.focused = field;
            app.tab = Tab::Transfers;
            update(&mut app, &Message::Quit);
            assert!(app.should_quit);
            assert_eq!(app.screen, screen);
            assert_eq!(app.connection.focused, field);
            assert_eq!(app.tab, Tab::Transfers);
            assert_eq!(app.connection.cluster_id, "0");
            assert_eq!(app.connection.address, "3000");
            assert_eq!(app.connection.status, ConnectionStatus::Disconnected);
            assert!(app.status.is_none());
        }
    }
}

#[test]
fn tick_changes_nothing() {
    for screen in [Screen::Connection, Screen::Dashboard] {
        let mut app = default_app();
        app.screen = screen;
        update(&mut app, &Message::Tick);
        assert_eq!(app.screen, screen);
        assert!(!app.should_quit);
        assert_eq!(app.tab, Tab::Accounts);
        assert_eq!(app.connection.focused, ConnectionField::ClusterId);
        assert_eq!(app.connection.cluster_id, "0");
        assert_eq!(app.connection.address, "3000");
    }
}

#[test]
fn dashboard_ignores_form_messages() {
    let mut app = dashboard_app();
    update(&mut app, &Message::CharInput('7'));
    update(&mut app, &Message::Backspace);
    update(&mut app, &Message::Submit);
    assert_eq!(app.screen, Screen::Dashboard);
    assert_eq!(app.tab, Tab::Accounts);
    assert_eq!(app.connection.cluster_id, "0");
    assert_eq!(app.connection.address, "3000");
    assert_eq!(app.connection.status, ConnectionStatus::Disconnected);
    assert!(app.status.is_none());
}

#[test]
fn screen_handlers_ignore_quit_and_tick() {
    let mut app = default_app();
    update_connection(&mut app, &Message::Quit);
    update_connection(&mut app, &Message::Tick);
    assert!(!app.should_quit);
    update_dashboard(&mut app, &Message::Quit);
    update_dashboard(&mut app, &Message::Submit);
    assert!(!app.should_quit);
    assert_eq!(app.screen, Screen::Connection);
    update_dashboard(&mut app, &Message::FocusNext);
    assert_eq!(app.tab, Tab::Transfers);
    update_connection(&mut app, &Message::FocusNext);
    assert_eq!(app.connection.focused, ConnectionField::Address);
}

#[test]
fn scenario_from_start_to_dashboard() {
    let mut app = default_app();
    assert_eq!(app.connection.cluster_id, "0");
    assert_eq!(app.connection.address, "3000");
    assert_eq!(app.connection.focused, ConnectionField::ClusterId);
    assert_eq!(app.screen, Screen::Connection);
    update(&mut app, &Message::CharInput('1'));
    assert_eq!(app.connection.cluster_id, "01");
    update(&mut app, &Message::Backspace);
    assert_eq!(app.connection.cluster_id, "0");
    update(&mut app, &Message::FocusNext);
    update(&mut app, &Message::FocusNext);
    assert_eq!(app.connection.focused, ConnectionField::ConnectButton);
    update(&mut app, &Message::Submit);
    assert_eq!(app.screen, Screen::Dashboard);
    assert_eq!(app.tab, Tab::Accounts);
}

#[test]
fn status_message_stays_until_replaced() {
    let mut app = default_app();
    app.connection.focused = ConnectionField::ConnectButton;
    update(&mut app, &Message::Submit);
    for msg in [
        Message::Tick,
        Message::FocusNext,
        Message::FocusPrev,
        Message::CharInput('x'),
        Message::Backspace,
        Message::Submit,
        Message::Quit,
    ] {
        update(&mut app, &msg);
        let status = app.status.as_ref().expect("the status message stays");
        assert_eq!(status.text, "Connected (simulated)");
        assert_eq!(status.level, StatusLevel::Success);
        assert_eq!(app.screen, Screen::Dashboard);
        assert_eq!(app.connection.status, ConnectionStatus::Connected);
    }
}

#[test]
fn only_submit_on_the_button_leaves_the_connection_screen() {
    for field in [
        ConnectionField::ClusterId,
        ConnectionField::Address,
        ConnectionField::ConnectButton,
    ] {
        for msg in [
            Message::Tick,
            Message::FocusNext,
            Message::FocusPrev,
            Message::CharInput('x'),
            Message::Backspace,
            Message::Quit,
        ] {
            let mut app = default_app();
            app.connection.focused = field;
            update(&mut app, &msg);
            assert_eq!(app.screen, Screen::Connection);
            assert_eq!(app.connection.status, ConnectionStatus::Disconnected);
            assert!(app.status.is_none());
        }
    }
}

#[test]
fn focus_messages_leave_the_texts() {
    let mut app = default_app();
    for msg in [Message::FocusNext, Message::FocusPrev, Message::Submit, Message::Tick] {
        update(&mut app, &msg);
        assert_eq!(app.connection.cluster_id, "0");
        assert_eq!(app.connection.address, "3000");
    }
}
