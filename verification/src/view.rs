//! The view dispatcher: selects what is drawn by the active screen.

use vstd::prelude::*;
use crate::app_state::{AppState, AppStateView, Screen};
use crate::connection_view::{
    connection_screen_spec, render_connection, ConnectionScreen, ConnectionScreenView,
};
use crate::dashboard::{dashboard_spec, render_dashboard, Dashboard, DashboardView};

verus! {

/// What one frame shows: the content of the active screen.
#[derive(Debug)]
pub enum Scene {
    Connection(ConnectionScreen),
    Dashboard(Dashboard),
}

/// Mathematical value of a [`Scene`].
pub enum SceneView {
    Connection(ConnectionScreenView),
    Dashboard(DashboardView),
}

impl View for Scene {
    type V = SceneView;

    open spec fn view(&self) -> SceneView {
        match self {
            Scene::Connection(screen) => SceneView::Connection(screen@),
            Scene::Dashboard(screen) => SceneView::Dashboard(screen@),
        }
    }
}

/// The scene of state `s`: the connection screen or the dashboard, whichever
/// is active, computed from `s` alone.
pub open spec fn view_spec(s: AppStateView, version: Seq<char>, width: u16) -> SceneView {
    match s.screen {
        Screen::Connection => SceneView::Connection(connection_screen_spec(s, width)),
        Screen::Dashboard => SceneView::Dashboard(dashboard_spec(s, version)),
    }
}

/// Computes what is drawn for the current state. The state is only read.
/// `version` is the version of the program and `width` the width of the
/// terminal in columns.
pub fn view(app: &AppState, version: &str, width: u16) -> (scene: Scene)
    ensures
        scene@ == view_spec(app@, version@, width),
{
    match app.screen {
        Screen::Connection => Scene::Connection(render_connection(app, width)),
        Screen::Dashboard => Scene::Dashboard(render_dashboard(app, version)),
    }
}

} // verus!
