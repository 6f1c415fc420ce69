//! The dashboard screen: a title bar, the row of tabs, the content of the
//! selected tab and the status bar.

use vstd::prelude::*;
use crate::app_state::{AppState, AppStateView, Tab};
use crate::status_bar::{
    connection_label, connection_text, render_status_bar, status_bar_spec, StatusBar,
    StatusBarView,
};

verus! {

/// Content of the dashboard screen.
#[derive(Debug)]
pub struct Dashboard {
    /// The connection shown in the title bar.
    pub connection: String,
    /// The titles of the tabs in display order.
    pub tab_titles: Vec<&'static str>,
    /// Position of the selected tab among the titles.
    pub selected: usize,
    /// Title of the content block.
    pub content_title: String,
    /// Text shown inside the content block.
    pub placeholder: &'static str,
    /// The status bar at the bottom.
    pub status_bar: StatusBar,
}

/// Mathematical value of a [`Dashboard`].
pub struct DashboardView {
    pub connection: Seq<char>,
    pub tab_titles: Seq<Seq<char>>,
    pub selected: int,
    pub content_title: Seq<char>,
    pub placeholder: Seq<char>,
    pub status_bar: StatusBarView,
}

impl View for Dashboard {
    type V = DashboardView;

    open spec fn view(&self) -> DashboardView {
        DashboardView {
            connection: self.connection@,
            tab_titles: Seq::new(self.tab_titles@.len(), |i: int| self.tab_titles@[i]@),
            selected: self.selected as int,
            content_title: self.content_title@,
            placeholder: self.placeholder@,
            status_bar: self.status_bar@,
        }
    }
}

/// The text that stands in for the content of a tab.
pub open spec fn placeholder_text(tab: Tab) -> Seq<char> {
    match tab {
        Tab::Accounts => "Accounts table \u{2014} Phase 3"@,
        Tab::Transfers => "Transfers table \u{2014} Phase 3"@,
        Tab::BalanceSheet => "Balance Sheet \u{2014} Phase 3"@,
    }
}

/// The dashboard of state `s`: the connection in the title bar, one title for
/// each tab in display order with the current tab selected, and the label of
/// the current tab as the title of the content block.
pub open spec fn dashboard_spec(s: AppStateView, version: Seq<char>) -> DashboardView {
    DashboardView {
        connection: connection_label(s.connection.cluster_id, s.connection.address) + " "@,
        tab_titles: Seq::new(3, |i: int| Tab::ALL[i].spec_label()),
        selected: s.tab.index() as int,
        content_title: " "@ + s.tab.spec_label() + " "@,
        placeholder: placeholder_text(s.tab),
        status_bar: status_bar_spec(s, version),
    }
}

/// The titles of all tabs in display order.
pub fn tab_titles() -> (titles: Vec<&'static str>)
    ensures
        titles@.len() == 3,
        forall|i: int| 0 <= i < 3 ==> (#[trigger] titles@[i])@ == Tab::ALL[i].spec_label(),
{
    let mut titles: Vec<&'static str> = Vec::new();
    titles.push(Tab::Accounts.label());
    titles.push(Tab::Transfers.label());
    titles.push(Tab::BalanceSheet.label());
    titles
}

/// Computes the dashboard screen for the current state.
pub fn render_dashboard(app: &AppState, version: &str) -> (screen: Dashboard)
    ensures
        screen@ == dashboard_spec(app@, version@),
{
    let mut connection = connection_text(
        app.connection.cluster_id.as_str(),
        app.connection.address.as_str(),
    );
    connection.append(" ");
    let mut content_title = " ".to_owned();
    content_title.append(app.tab.label());
    content_title.append(" ");
    let placeholder = match app.tab {
        Tab::Accounts => "Accounts table \u{2014} Phase 3",
        Tab::Transfers => "Transfers table \u{2014} Phase 3",
        Tab::BalanceSheet => "Balance Sheet \u{2014} Phase 3",
    };
    let screen = Dashboard {
        connection,
        tab_titles: tab_titles(),
        selected: app.tab.index(),
        content_title,
        placeholder,
        status_bar: render_status_bar(app, version),
    };
    assert(screen@.tab_titles =~= dashboard_spec(app@, version@).tab_titles);
    screen
}

} // verus!
