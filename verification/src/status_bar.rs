//! The status bar: on the left the program version or the connection, on the
//! right the current status message or the key hints of the screen.

use vstd::prelude::*;
use crate::app_state::{AppState, AppStateView, ConnectionStatus, Screen, StatusLevel};
use crate::theme::{theme, Span, SpanView, Style};

verus! {

/// Content of the status bar.
#[derive(Debug)]
pub struct StatusBar {
    /// Shown at the left edge.
    pub left: Span,
    /// Shown at the right edge.
    pub right: Span,
}

/// Mathematical value of a [`StatusBar`].
pub struct StatusBarView {
    pub left: SpanView,
    pub right: SpanView,
}

impl View for StatusBar {
    type V = StatusBarView;

    open spec fn view(&self) -> StatusBarView {
        StatusBarView { left: self.left@, right: self.right@ }
    }
}

/// Key hints of the connection screen.
pub const CONNECTION_HINTS: &'static str = "Tab Navigate  Enter Connect  q Quit ";

/// Key hints of the dashboard screen.
pub const DASHBOARD_HINTS: &'static str = "Tab Switch  r Refresh  ? Help  q Quit ";

/// The mark, cluster id and address of an established connection.
pub open spec fn connection_label(cluster_id: Seq<char>, address: Seq<char>) -> Seq<char> {
    " \u{25cf} "@ + cluster_id + ":"@ + address
}

/// Text at the left edge: on the connection screen the program name with
/// `version`, on the dashboard the state of the connection.
pub open spec fn left_text(s: AppStateView, version: Seq<char>) -> Seq<char> {
    match s.screen {
        Screen::Connection => " tiger-tui v"@ + version,
        Screen::Dashboard => match s.connection.status {
            ConnectionStatus::Connected => connection_label(
                s.connection.cluster_id,
                s.connection.address,
            ),
            ConnectionStatus::Connecting => " \u{25cc} Connecting\u{2026}"@,
            ConnectionStatus::Disconnected => " \u{25cb} Disconnected"@,
        },
    }
}

/// Style at the left edge: the success colour for an established connection
/// on the dashboard, the dim colour otherwise.
pub open spec fn left_style(s: AppStateView) -> Style {
    if s.screen == Screen::Dashboard && s.connection.status == ConnectionStatus::Connected {
        Style::foreground(theme().success)
    } else {
        Style::foreground(theme().text_dim)
    }
}

/// Text at the right edge: the status message if there is one, else the key
/// hints of the screen.
pub open spec fn right_text(s: AppStateView) -> Seq<char> {
    match s.status {
        Some(message) => message.text,
        None => match s.screen {
            Screen::Connection => CONNECTION_HINTS@,
            Screen::Dashboard => DASHBOARD_HINTS@,
        },
    }
}

/// The colour that stands for a level.
pub open spec fn level_style(level: StatusLevel) -> Style {
    match level {
        StatusLevel::Info => Style::foreground(theme().info),
        StatusLevel::Success => Style::foreground(theme().success),
        StatusLevel::Warning => Style::foreground(theme().warning),
        StatusLevel::Error => Style::foreground(theme().error),
    }
}

/// Style at the right edge: the colour of the level of the status message,
/// the dim colour for key hints.
pub open spec fn right_style(s: AppStateView) -> Style {
    match s.status {
        Some(message) => level_style(message.level),
        None => Style::foreground(theme().text_dim),
    }
}

/// The status bar of state `s`.
pub open spec fn status_bar_spec(s: AppStateView, version: Seq<char>) -> StatusBarView {
    StatusBarView {
        left: SpanView { text: left_text(s, version), style: left_style(s) },
        right: SpanView { text: right_text(s), style: right_style(s) },
    }
}

/// Builds the mark, cluster id and address of an established connection.
pub fn connection_text(cluster_id: &str, address: &str) -> (r: String)
    ensures
        r@ == connection_label(cluster_id@, address@),
{
    let mut text = " \u{25cf} ".to_owned();
    text.append(cluster_id);
    text.append(":");
    text.append(address);
    text
}

/// Computes the status bar for the current state. `version` is the version of
/// the program, shown on the connection screen.
pub fn render_status_bar(app: &AppState, version: &str) -> (bar: StatusBar)
    ensures
        bar@ == status_bar_spec(app@, version@),
{
    let colors = theme();
    let left_text = match app.screen {
        Screen::Connection => " tiger-tui v".to_owned().concat(version),
        Screen::Dashboard => match app.connection.status {
            ConnectionStatus::Connected => connection_text(
                app.connection.cluster_id.as_str(),
                app.connection.address.as_str(),
            ),
            ConnectionStatus::Connecting => " \u{25cc} Connecting\u{2026}".to_owned(),
            ConnectionStatus::Disconnected => " \u{25cb} Disconnected".to_owned(),
        },
    };
    let connected = match app.screen {
        Screen::Dashboard => match app.connection.status {
            ConnectionStatus::Connected => true,
            _ => false,
        },
        Screen::Connection => false,
    };
    let left_style = if connected {
        Style::fg(colors.success)
    } else {
        Style::fg(colors.text_dim)
    };
    let right = match &app.status {
        Some(message) => {
            let style = match message.level {
                StatusLevel::Info => Style::fg(colors.info),
                StatusLevel::Success => Style::fg(colors.success),
                StatusLevel::Warning => Style::fg(colors.warning),
                StatusLevel::Error => Style::fg(colors.error),
            };
            Span { text: message.text.clone(), style }
        },
        None => {
            let hints = match app.screen {
                Screen::Connection => CONNECTION_HINTS,
                Screen::Dashboard => DASHBOARD_HINTS,
            };
            Span { text: hints.to_owned(), style: Style::fg(colors.text_dim) }
        },
    };
    StatusBar { left: Span { text: left_text, style: left_style }, right }
}

} // verus!
