//! Intent messages, the translation of key presses into messages, and the
//! reducer that applies one message to the model.

use vstd::prelude::*;
use crate::app_state::{
    AppState, AppStateView, ConnectionField, ConnectionFormView, ConnectionStatus, Screen,
    StatusLevel, StatusMessage, StatusMessageView,
};
use crate::key::{is_control, KeyCode, KeyEvent};

verus! {

/// One discrete user intent or system occurrence.
#[derive(Debug, Clone, Copy, PartialEq, Eq, Structural)]
pub enum Message {
    Quit,
    Tick,
    FocusNext,
    FocusPrev,
    CharInput(char),
    Backspace,
    Submit,
}

/// Text of the status message that a successful submit sets.
pub const CONNECTED_TEXT: &'static str = "Connected (simulated)";

/// `text` without its last character; the empty text stays empty.
pub open spec fn without_last(text: Seq<char>) -> Seq<char> {
    if text.len() == 0 {
        text
    } else {
        text.drop_last()
    }
}

impl ConnectionFormView {
    /// The form after `c` was typed: `c` is appended to the focused text field;
    /// with the focus on the button nothing changes.
    pub open spec fn type_char(self, c: char) -> ConnectionFormView {
        match self.focused {
            ConnectionField::ClusterId => ConnectionFormView {
                cluster_id: self.cluster_id.push(c),
                ..self
            },
            ConnectionField::Address => ConnectionFormView {
                address: self.address.push(c),
                ..self
            },
            ConnectionField::ConnectButton => self,
        }
    }

    /// The form after one character was erased: the focused text field loses
    /// its last character; an empty field, or the focus on the button, leaves
    /// the form as it is.
    pub open spec fn erase_char(self) -> ConnectionFormView {
        match self.focused {
            ConnectionField::ClusterId => ConnectionFormView {
                cluster_id: without_last(self.cluster_id),
                ..self
            },
            ConnectionField::Address => ConnectionFormView {
                address: without_last(self.address),
                ..self
            },
            ConnectionField::ConnectButton => self,
        }
    }
}

/// What a message does on the connection screen.
pub open spec fn update_connection_spec(s: AppStateView, msg: Message) -> AppStateView {
    match msg {
        Message::CharInput(c) => AppStateView { connection: s.connection.type_char(c), ..s },
        Message::Backspace => AppStateView { connection: s.connection.erase_char(), ..s },
        Message::FocusNext => AppStateView {
            connection: ConnectionFormView { focused: s.connection.focused.next(), ..s.connection },
            ..s
        },
        Message::FocusPrev => AppStateView {
            connection: ConnectionFormView { focused: s.connection.focused.prev(), ..s.connection },
            ..s
        },
        Message::Submit => if s.connection.focused == ConnectionField::ConnectButton {
            AppStateView {
                screen: Screen::Dashboard,
                connection: ConnectionFormView {
                    status: ConnectionStatus::Connected,
                    ..s.connection
                },
                status: Some(
                    StatusMessageView { text: CONNECTED_TEXT@, level: StatusLevel::Success },
                ),
                ..s
            }
        } else {
            s
        },
        Message::Quit | Message::Tick => s,
    }
}

/// What a message does on the dashboard screen.
pub open spec fn update_dashboard_spec(s: AppStateView, msg: Message) -> AppStateView {
    match msg {
        Message::FocusNext => AppStateView { tab: s.tab.next(), ..s },
        Message::FocusPrev => AppStateView { tab: s.tab.prev(), ..s },
        _ => s,
    }
}

/// The state that follows `s` when `msg` is applied: `Quit` raises the
/// termination flag, `Tick` changes nothing, every other message goes to the
/// handler of the active screen.
pub open spec fn update_spec(s: AppStateView, msg: Message) -> AppStateView {
    match msg {
        Message::Quit => AppStateView { should_quit: true, ..s },
        Message::Tick => s,
        _ => match s.screen {
            Screen::Connection => update_connection_spec(s, msg),
            Screen::Dashboard => update_dashboard_spec(s, msg),
        },
    }
}

/// Applies `msg` to the connection screen.
pub fn update_connection(app: &mut AppState, msg: &Message)
    ensures
        final(app)@ == update_connection_spec(old(app)@, *msg),
{
    match msg {
        Message::CharInput(c) => match app.connection.focused {
            ConnectionField::ClusterId => app.connection.cluster_id.push(*c),
            ConnectionField::Address => app.connection.address.push(*c),
            ConnectionField::ConnectButton => {},
        },
        Message::Backspace => match app.connection.focused {
            ConnectionField::ClusterId => {
                app.connection.cluster_id.pop();
            },
            ConnectionField::Address => {
                app.connection.address.pop();
            },
            ConnectionField::ConnectButton => {},
        },
        Message::FocusNext => app.connection.focused = app.connection.focused.next(),
        Message::FocusPrev => app.connection.focused = app.connection.focused.prev(),
        Message::Submit => {
            if app.connection.focused == ConnectionField::ConnectButton {
                app.connection.status = ConnectionStatus::Connected;
                app.screen = Screen::Dashboard;
                app.status = Some(StatusMessage::success(CONNECTED_TEXT));
            }
        },
        _ => {},
    }
}

/// Applies `msg` to the dashboard screen.
pub fn update_dashboard(app: &mut AppState, msg: &Message)
    ensures
        final(app)@ == update_dashboard_spec(old(app)@, *msg),
{
    match msg {
        Message::FocusNext => app.tab = app.tab.next(),
        Message::FocusPrev => app.tab = app.tab.prev(),
        _ => {},
    }
}

/// The reducer: applies `msg` to `app`. It is total, never blocks and never
/// fails; a message without meaning in the current state changes nothing.
pub fn update(app: &mut AppState, msg: &Message)
    ensures
        final(app)@ == update_spec(old(app)@, *msg),
{
    match msg {
        Message::Quit => app.should_quit = true,
        Message::Tick => {},
        _ => match app.screen {
            Screen::Connection => update_connection(app, msg),
            Screen::Dashboard => update_dashboard(app, msg),
        },
    }
}

/// The message for a key on the connection screen. `Tab` and shift-`Tab` move
/// the focus, `Enter` submits, `Esc` quits. While a text field has the focus a
/// printable character is typed into it and `Backspace` erases; while the
/// button has the focus the character `q` quits. Every other key is ignored.
pub open spec fn connection_key_spec(code: KeyCode, focused: ConnectionField) -> Option<Message> {
    match code {
        KeyCode::Tab => Some(Message::FocusNext),
        KeyCode::BackTab => Some(Message::FocusPrev),
        KeyCode::Enter => Some(Message::Submit),
        KeyCode::Esc => Some(Message::Quit),
        KeyCode::Char(c) => if focused.is_text_input() {
            if is_control(c) {
                None
            } else {
                Some(Message::CharInput(c))
            }
        } else if c == 'q' {
            Some(Message::Quit)
        } else {
            None
        },
        KeyCode::Backspace => if focused.is_text_input() {
            Some(Message::Backspace)
        } else {
            None
        },
        _ => None,
    }
}

/// The message for a key on the dashboard screen: `q` and `Esc` quit, `Tab`
/// and shift-`Tab` cycle the tabs. Every other key is ignored.
pub open spec fn dashboard_key_spec(code: KeyCode) -> Option<Message> {
    match code {
        KeyCode::Char(c) => if c == 'q' {
            Some(Message::Quit)
        } else {
            None
        },
        KeyCode::Esc => Some(Message::Quit),
        KeyCode::Tab => Some(Message::FocusNext),
        KeyCode::BackTab => Some(Message::FocusPrev),
        _ => None,
    }
}

/// True for the interrupt combination: the character `c` with the control
/// modifier held.
pub open spec fn is_interrupt(key: KeyEvent) -> bool {
    key.code == KeyCode::Char('c') && key.modifiers.control
}

/// The message that a key press stands for in state `s`, if any. The
/// interrupt combination quits whatever the screen and the focus; every other
/// key is read by the active screen.
pub open spec fn handle_key_spec(key: KeyEvent, s: AppStateView) -> Option<Message> {
    if is_interrupt(key) {
        Some(Message::Quit)
    } else {
        match s.screen {
            Screen::Connection => connection_key_spec(key.code, s.connection.focused),
            Screen::Dashboard => dashboard_key_spec(key.code),
        }
    }
}

/// Translates a key on the connection screen.
pub fn handle_connection_key(key: KeyEvent, app: &AppState) -> (r: Option<Message>)
    ensures
        r == connection_key_spec(key.code, app@.connection.focused),
{
    let editing = app.connection.focused.is_text_input();
    match key.code {
        KeyCode::Tab => Some(Message::FocusNext),
        KeyCode::BackTab => Some(Message::FocusPrev),
        KeyCode::Enter => Some(Message::Submit),
        KeyCode::Esc => Some(Message::Quit),
        KeyCode::Char(c) => {
            if editing {
                if is_control(c) {
                    None
                } else {
                    Some(Message::CharInput(c))
                }
            } else if c == 'q' {
                Some(Message::Quit)
            } else {
                None
            }
        },
        KeyCode::Backspace => {
            if editing {
                Some(Message::Backspace)
            } else {
                None
            }
        },
        _ => None,
    }
}

/// Translates a key on the dashboard screen.
pub fn handle_dashboard_key(key: KeyEvent) -> (r: Option<Message>)
    ensures
        r == dashboard_key_spec(key.code),
{
    match key.code {
        KeyCode::Char(c) => {
            if c == 'q' {
                Some(Message::Quit)
            } else {
                None
            }
        },
        KeyCode::Esc => Some(Message::Quit),
        KeyCode::Tab => Some(Message::FocusNext),
        KeyCode::BackTab => Some(Message::FocusPrev),
        _ => None,
    }
}

/// The translator: maps a key press to the message it stands for in the
/// current state. `None` means that the key is ignored.
pub fn handle_key(key: KeyEvent, app: &AppState) -> (r: Option<Message>)
    ensures
        r == handle_key_spec(key, app@),
{
    if key.code == KeyCode::Char('c') && key.modifiers.control {
        return Some(Message::Quit);
    }
    match app.screen {
        Screen::Connection => handle_connection_key(key, app),
        Screen::Dashboard => handle_dashboard_key(key),
    }
}

} // verus!
