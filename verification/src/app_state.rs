//! The application model: the single value that describes the whole
//! application at an instant.

use vstd::prelude::*;

verus! {

/// Top-level view mode. Exactly one is active; it selects the key
/// translation and the screen that is drawn.
#[derive(Debug, Clone, Copy, PartialEq, Eq, Structural)]
pub enum Screen {
    Connection,
    Dashboard,
}

/// Section of the dashboard. The three tabs form a ring.
#[derive(Debug, Clone, Copy, PartialEq, Eq, Structural)]
pub enum Tab {
    Accounts,
    Transfers,
    BalanceSheet,
}

impl Tab {
    /// The tabs in display order.
    pub const ALL: [Self; 3] = [Self::Accounts, Self::Transfers, Self::BalanceSheet];

    /// Title of the tab.
    pub open spec fn spec_label(self) -> Seq<char> {
        match self {
            Self::Accounts => "Accounts"@,
            Self::Transfers => "Transfers"@,
            Self::BalanceSheet => "Balance Sheet"@,
        }
    }

    /// Position of the tab in display order.
    pub open spec fn spec_index(self) -> usize {
        match self {
            Self::Accounts => 0,
            Self::Transfers => 1,
            Self::BalanceSheet => 2,
        }
    }

    /// Successor in the ring.
    pub open spec fn spec_next(self) -> Self {
        match self {
            Self::Accounts => Self::Transfers,
            Self::Transfers => Self::BalanceSheet,
            Self::BalanceSheet => Self::Accounts,
        }
    }

    /// Predecessor in the ring.
    pub open spec fn spec_prev(self) -> Self {
        match self {
            Self::Accounts => Self::BalanceSheet,
            Self::Transfers => Self::Accounts,
            Self::BalanceSheet => Self::Transfers,
        }
    }

    pub fn label(self) -> (r: &'static str)
        ensures
            r@ == self.spec_label(),
    {
        match self {
            Self::Accounts => "Accounts",
            Self::Transfers => "Transfers",
            Self::BalanceSheet => "Balance Sheet",
        }
    }

    #[verifier::when_used_as_spec(spec_index)]
    pub fn index(self) -> (r: usize)
        ensures
            r == self.spec_index(),
            r < 3,
            Self::ALL[r as int] == self,
    {
        match self {
            Self::Accounts => 0,
            Self::Transfers => 1,
            Self::BalanceSheet => 2,
        }
    }

    #[verifier::when_used_as_spec(spec_next)]
    pub fn next(self) -> (r: Self)
        ensures
            r == self.spec_next(),
    {
        match self {
            Self::Accounts => Self::Transfers,
            Self::Transfers => Self::BalanceSheet,
            Self::BalanceSheet => Self::Accounts,
        }
    }

    #[verifier::when_used_as_spec(spec_prev)]
    pub fn prev(self) -> (r: Self)
        ensures
            r == self.spec_prev(),
    {
        match self {
            Self::Accounts => Self::BalanceSheet,
            Self::Transfers => Self::Accounts,
            Self::BalanceSheet => Self::Transfers,
        }
    }
}

/// Field of the connection form that has the focus. The three fields form a
/// ring.
#[derive(Debug, Clone, Copy, PartialEq, Eq, Structural)]
pub enum ConnectionField {
    ClusterId,
    Address,
    ConnectButton,
}

impl ConnectionField {
    /// Successor in the focus ring.
    pub open spec fn spec_next(self) -> Self {
        match self {
            Self::ClusterId => Self::Address,
            Self::Address => Self::ConnectButton,
            Self::ConnectButton => Self::ClusterId,
        }
    }

    /// Predecessor in the focus ring.
    pub open spec fn spec_prev(self) -> Self {
        match self {
            Self::ClusterId => Self::ConnectButton,
            Self::Address => Self::ClusterId,
            Self::ConnectButton => Self::Address,
        }
    }

    /// True for the two fields that hold text, false for the button.
    pub open spec fn spec_is_text_input(self) -> bool {
        self == Self::ClusterId || self == Self::Address
    }

    #[verifier::when_used_as_spec(spec_next)]
    pub fn next(self) -> (r: Self)
        ensures
            r == self.spec_next(),
    {
        match self {
            Self::ClusterId => Self::Address,
            Self::Address => Self::ConnectButton,
            Self::ConnectButton => Self::ClusterId,
        }
    }

    #[verifier::when_used_as_spec(spec_prev)]
    pub fn prev(self) -> (r: Self)
        ensures
            r == self.spec_prev(),
    {
        match self {
            Self::ClusterId => Self::ConnectButton,
            Self::Address => Self::ClusterId,
            Self::ConnectButton => Self::Address,
        }
    }

    #[verifier::when_used_as_spec(spec_is_text_input)]
    pub fn is_text_input(self) -> (r: bool)
        ensures
            r == self.spec_is_text_input(),
    {
        match self {
            Self::ClusterId => true,
            Self::Address => true,
            Self::ConnectButton => false,
        }
    }
}

/// Lifecycle of the connection to the backend.
#[derive(Debug, Clone, Copy, PartialEq, Eq, Structural)]
pub enum ConnectionStatus {
    Disconnected,
    Connecting,
    Connected,
}

/// Input state of the connection screen.
#[derive(Debug)]
pub struct ConnectionForm {
    pub cluster_id: String,
    pub address: String,
    pub focused: ConnectionField,
    pub status: ConnectionStatus,
}

/// Mathematical value of a [`ConnectionForm`].
pub struct ConnectionFormView {
    pub cluster_id: Seq<char>,
    pub address: Seq<char>,
    pub focused: ConnectionField,
    pub status: ConnectionStatus,
}

impl View for ConnectionForm {
    type V = ConnectionFormView;

    open spec fn view(&self) -> ConnectionFormView {
        ConnectionFormView {
            cluster_id: self.cluster_id@,
            address: self.address@,
            focused: self.focused,
            status: self.status,
        }
    }
}

/// Severity of a status message.
#[derive(Debug, Clone, Copy, PartialEq, Eq, Structural)]
pub enum StatusLevel {
    Info,
    Success,
    Warning,
    Error,
}

/// Feedback message shown in the status bar.
#[derive(Debug)]
pub struct StatusMessage {
    pub text: String,
    pub level: StatusLevel,
}

/// Mathematical value of a [`StatusMessage`].
pub struct StatusMessageView {
    pub text: Seq<char>,
    pub level: StatusLevel,
}

impl View for StatusMessage {
    type V = StatusMessageView;

    open spec fn view(&self) -> StatusMessageView {
        StatusMessageView { text: self.text@, level: self.level }
    }
}

impl Clone for StatusMessage {
    fn clone(&self) -> (r: Self)
        ensures
            r@ == self@,
    {
        Self { text: self.text.clone(), level: self.level }
    }
}

impl StatusMessage {
    /// A message of level `Info` with the given text.
    pub fn info(text: &str) -> (r: Self)
        ensures
            r@ == (StatusMessageView { text: text@, level: StatusLevel::Info }),
    {
        Self { text: text.to_owned(), level: StatusLevel::Info }
    }

    /// A message of level `Success` with the given text.
    pub fn success(text: &str) -> (r: Self)
        ensures
            r@ == (StatusMessageView { text: text@, level: StatusLevel::Success }),
    {
        Self { text: text.to_owned(), level: StatusLevel::Success }
    }

    /// A message of level `Error` with the given text.
    pub fn error(text: &str) -> (r: Self)
        ensures
            r@ == (StatusMessageView { text: text@, level: StatusLevel::Error }),
    {
        Self { text: text.to_owned(), level: StatusLevel::Error }
    }
}

/// Root state of the application.
#[derive(Debug)]
pub struct AppState {
    pub screen: Screen,
    pub tab: Tab,
    pub should_quit: bool,
    pub connection: ConnectionForm,
    pub status: Option<StatusMessage>,
}

/// Mathematical value of an [`AppState`].
pub struct AppStateView {
    pub screen: Screen,
    pub tab: Tab,
    pub should_quit: bool,
    pub connection: ConnectionFormView,
    pub status: Option<StatusMessageView>,
}

/// Value of an optional status message.
pub open spec fn status_view(status: Option<StatusMessage>) -> Option<StatusMessageView> {
    match status {
        Some(message) => Some(message@),
        None => None,
    }
}

impl View for AppState {
    type V = AppStateView;

    open spec fn view(&self) -> AppStateView {
        AppStateView {
            screen: self.screen,
            tab: self.tab,
            should_quit: self.should_quit,
            connection: self.connection@,
            status: status_view(self.status),
        }
    }
}

impl AppStateView {
    /// The state in which the application starts: the connection screen with
    /// cluster id `0`, address `3000`, the focus on the cluster id, nothing
    /// connected and no status message.
    pub open spec fn initial() -> AppStateView {
        AppStateView {
            screen: Screen::Connection,
            tab: Tab::Accounts,
            should_quit: false,
            connection: ConnectionFormView {
                cluster_id: seq!['0'],
                address: seq!['3', '0', '0', '0'],
                focused: ConnectionField::ClusterId,
                status: ConnectionStatus::Disconnected,
            },
            status: None,
        }
    }
}

impl Default for AppState {
    fn default() -> (r: Self)
        ensures
            r@ == AppStateView::initial(),
    {
        let cluster_id = "0".to_owned();
        let address = "3000".to_owned();
        proof {
            reveal_strlit("0");
            reveal_strlit("3000");
            assert(cluster_id@ =~= seq!['0']);
            assert(address@ =~= seq!['3', '0', '0', '0']);
        }
        Self {
            screen: Screen::Connection,
            tab: Tab::Accounts,
            should_quit: false,
            connection: ConnectionForm {
                cluster_id,
                address,
                focused: ConnectionField::ClusterId,
                status: ConnectionStatus::Disconnected,
            },
            status: None,
        }
    }
}

} // verus!
