use tiger_tui::app_state::{
    AppState, ConnectionField, ConnectionStatus, Screen, StatusLevel, StatusMessage, Tab,
};
use tiger_tui::error::AppError;

#[test]
fn default_state() {
    let app = AppState::default();
    assert_eq!(app.screen, Screen::Connection);
    assert_eq!(app.tab, Tab::Accounts);
    assert!(!app.should_quit);
    assert_eq!(app.connection.cluster_id, "0");
    assert_eq!(app.connection.address, "3000");
    assert_eq!(app.connection.focused, ConnectionField::ClusterId);
    assert_eq!(app.connection.status, ConnectionStatus::Disconnected);
    assert!(app.status.is_none());
}

#[test]
fn tab_ring() {
    assert_eq!(Tab::Accounts.next(), Tab::Transfers);
    assert_eq!(Tab::Transfers.next(), Tab::BalanceSheet);
    assert_eq!(Tab::BalanceSheet.next(), Tab::Accounts);
    assert_eq!(Tab::Accounts.prev(), Tab::BalanceSheet);
    assert_eq!(Tab::Transfers.prev(), Tab::Accounts);
    assert_eq!(Tab::BalanceSheet.prev(), Tab::Transfers);
    for tab in Tab::ALL {
        assert_eq!(tab.next().next().next(), tab);
        assert_eq!(tab.prev().prev().prev(), tab);
        assert_eq!(tab.next().prev(), tab);
        assert_eq!(tab.prev().next(), tab);
        assert_ne!(tab.next(), tab);
    }
}

#[test]
fn tab_index_and_label() {
    assert_eq!(Tab::ALL, [Tab::Accounts, Tab::Transfers, Tab::BalanceSheet]);
    assert_eq!(Tab::Accounts.index(), 0);
    assert_eq!(Tab::Transfers.index(), 1);
    assert_eq!(Tab::BalanceSheet.index(), 2);
    assert_eq!(Tab::Accounts.label(), "Accounts");
    assert_eq!(Tab::Transfers.label(), "Transfers");
    assert_eq!(Tab::BalanceSheet.label(), "Balance Sheet");
    for tab in Tab::ALL {
        assert_eq!(Tab::ALL[tab.index()], tab);
    }
}

#[test]
fn connection_field_ring() {
    assert_eq!(ConnectionField::ClusterId.next(), ConnectionField::Address);
    assert_eq!(ConnectionField::Address.next(), ConnectionField::ConnectButton);
    assert_eq!(ConnectionField::ConnectButton.next(), ConnectionField::ClusterId);
    assert_eq!(ConnectionField::ClusterId.prev(), ConnectionField::ConnectButton);
    assert_eq!(ConnectionField::Address.prev(), ConnectionField::ClusterId);
    assert_eq!(ConnectionField::ConnectButton.prev(), ConnectionField::Address);
    for field in [
        ConnectionField::ClusterId,
        ConnectionField::Address,
        ConnectionField::ConnectButton,
    ] {
        assert_eq!(field.next().next().next(), field);
        assert_eq!(field.prev().prev().prev(), field);
        assert_eq!(field.next().prev(), field);
        assert_eq!(field.prev().next(), field);
    }
}

#[test]
fn only_the_two_fields_are_text_inputs() {
    assert!(ConnectionField::ClusterId.is_text_input());
    assert!(ConnectionField::Address.is_text_input());
    assert!(!ConnectionField::ConnectButton.is_text_input());
}

#[test]
fn status_message_constructors() {
    let info = StatusMessage::info("loading");
    assert_eq!(info.text, "loading");
    assert_eq!(info.level, StatusLevel::Info);
    let success = StatusMessage::success("done");
    assert_eq!(success.text, "done");
    assert_eq!(success.level, StatusLevel::Success);
    let error = StatusMessage::error("");
    assert_eq!(error.text, "");
    assert_eq!(error.level, StatusLevel::Error);
    let owned = String::from("from a string");
    assert_eq!(StatusMessage::info(&owned).text, owned);
}

#[test]
fn status_message_clone_keeps_text_and_level() {
    let message = StatusMessage::success("Connected (simulated)");
    let copy = message.clone();
    assert_eq!(copy.text, message.text);
    assert_eq!(copy.level, message.level);
}

#[test]
fn error_messages() {
    assert_eq!(
        AppError::Connection(String::from("refused")).message(),
        "Connection error: refused"
    );
    assert_eq!(
        AppError::TigerBeetle(String::from("timeout")).message(),
        "TigerBeetle error: timeout"
    );
    assert_eq!(
        AppError::Validation(String::from("bad id")).message(),
        "Validation error: bad id"
    );
    assert_eq!(AppError::Internal(String::from("oops")).message(), "Internal error: oops");
    assert_eq!(AppError::Internal(String::new()).message(), "Internal error: ");
}
