//! The connection screen: a form with two text fields and a button, centred
//! under the logo.

use vstd::prelude::*;
use crate::app_state::{AppState, AppStateView, ConnectionField};
use crate::theme::{theme, Span, SpanView, Style};

verus! {

/// Width of the form in columns, where the terminal is wide enough.
pub const FORM_WIDTH: u16 = 46;

/// Label of the cluster id field.
pub const CLUSTER_ID_LABEL: &'static str = "Cluster ID";

/// Label of the address field, padded to the width of the other label.
pub const ADDRESS_LABEL: &'static str = "Address   ";

/// Label of the button while it has the focus.
pub const BUTTON_FOCUSED: &'static str = " \u{25b6} Connect ";

/// Label of the button while it does not have the focus.
pub const BUTTON_IDLE: &'static str = "   Connect  ";

/// The block drawn behind the last character of a focused text field.
pub const CURSOR: &'static str = "\u{258c}";

/// One text field of the form as it is drawn.
#[derive(Debug)]
pub struct InputRow {
    pub label: Span,
    pub value: Span,
    /// The cursor, present while the field has the focus.
    pub cursor: Option<Span>,
}

/// Mathematical value of an [`InputRow`].
pub struct InputRowView {
    pub label: SpanView,
    pub value: SpanView,
    pub cursor: Option<SpanView>,
}

impl View for InputRow {
    type V = InputRowView;

    open spec fn view(&self) -> InputRowView {
        InputRowView {
            label: self.label@,
            value: self.value@,
            cursor: match self.cursor {
                Some(span) => Some(span@),
                None => None,
            },
        }
    }
}

/// The form as it is drawn.
#[derive(Debug)]
pub struct Form {
    pub cluster_id: InputRow,
    pub address: InputRow,
    pub button: Span,
}

/// Mathematical value of a [`Form`].
pub struct FormView {
    pub cluster_id: InputRowView,
    pub address: InputRowView,
    pub button: SpanView,
}

impl View for Form {
    type V = FormView;

    open spec fn view(&self) -> FormView {
        FormView { cluster_id: self.cluster_id@, address: self.address@, button: self.button@ }
    }
}

/// Content of the connection screen.
#[derive(Debug)]
pub struct ConnectionScreen {
    pub form: Form,
    /// Width of the form in columns.
    pub form_width: u16,
}

/// Mathematical value of a [`ConnectionScreen`].
pub struct ConnectionScreenView {
    pub form: FormView,
    pub form_width: u16,
}

impl View for ConnectionScreen {
    type V = ConnectionScreenView;

    open spec fn view(&self) -> ConnectionScreenView {
        ConnectionScreenView { form: self.form@, form_width: self.form_width }
    }
}

/// A text field as it is drawn: with the focus the label is highlighted, the
/// value takes the primary text colour and a cursor follows it; without the
/// focus label and value are subdued and there is no cursor.
pub open spec fn input_row_spec(label: Seq<char>, value: Seq<char>, focused: bool) -> InputRowView {
    if focused {
        InputRowView {
            label: SpanView { text: label, style: Style::foreground(theme().accent) },
            value: SpanView { text: value, style: Style::foreground(theme().text) },
            cursor: Some(SpanView { text: CURSOR@, style: Style::foreground(theme().accent) }),
        }
    } else {
        InputRowView {
            label: SpanView { text: label, style: Style::foreground(theme().text_muted) },
            value: SpanView { text: value, style: Style::foreground(theme().text_dim) },
            cursor: None,
        }
    }
}

/// The button as it is drawn: with the focus it is marked and drawn in bold
/// on the accent colour, without the focus it is subdued.
pub open spec fn button_spec(focused: bool) -> SpanView {
    if focused {
        SpanView {
            text: BUTTON_FOCUSED@,
            style: Style { fg: Some(theme().bg), bg: Some(theme().accent), bold: true },
        }
    } else {
        SpanView { text: BUTTON_IDLE@, style: Style::foreground(theme().text_muted) }
    }
}

/// The form of state `s`: each element is drawn focused exactly when the
/// focus is on it.
pub open spec fn form_spec(s: AppStateView) -> FormView {
    FormView {
        cluster_id: input_row_spec(
            CLUSTER_ID_LABEL@,
            s.connection.cluster_id,
            s.connection.focused == ConnectionField::ClusterId,
        ),
        address: input_row_spec(
            ADDRESS_LABEL@,
            s.connection.address,
            s.connection.focused == ConnectionField::Address,
        ),
        button: button_spec(s.connection.focused == ConnectionField::ConnectButton),
    }
}

/// The width of a box of `width` columns centred in `available` columns: the
/// box never exceeds the room there is.
pub open spec fn spec_centered_width(available: u16, width: u16) -> u16 {
    if width <= available {
        width
    } else {
        available
    }
}

/// The connection screen of state `s` on a terminal of `width` columns.
pub open spec fn connection_screen_spec(s: AppStateView, width: u16) -> ConnectionScreenView {
    ConnectionScreenView { form: form_spec(s), form_width: spec_centered_width(width, FORM_WIDTH) }
}

/// Clamps the width of a centred box to the room there is.
#[verifier::when_used_as_spec(spec_centered_width)]
pub fn centered_width(available: u16, width: u16) -> (r: u16)
    ensures
        r == spec_centered_width(available, width),
{
    if width <= available {
        width
    } else {
        available
    }
}

/// Computes one text field of the form.
pub fn render_input_row(label: &str, value: &str, focused: bool) -> (row: InputRow)
    ensures
        row@ == input_row_spec(label@, value@, focused),
{
    let colors = theme();
    if focused {
        InputRow {
            label: Span { text: label.to_owned(), style: Style::fg(colors.accent) },
            value: Span { text: value.to_owned(), style: Style::fg(colors.text) },
            cursor: Some(Span { text: CURSOR.to_owned(), style: Style::fg(colors.accent) }),
        }
    } else {
        InputRow {
            label: Span { text: label.to_owned(), style: Style::fg(colors.text_muted) },
            value: Span { text: value.to_owned(), style: Style::fg(colors.text_dim) },
            cursor: None,
        }
    }
}

/// Computes the form for the current state.
pub fn render_form(app: &AppState) -> (form: Form)
    ensures
        form@ == form_spec(app@),
{
    let colors = theme();
    let focused = app.connection.focused;
    let button = if focused == ConnectionField::ConnectButton {
        Span {
            text: BUTTON_FOCUSED.to_owned(),
            style: Style { fg: Some(colors.bg), bg: Some(colors.accent), bold: true },
        }
    } else {
        Span { text: BUTTON_IDLE.to_owned(), style: Style::fg(colors.text_muted) }
    };
    Form {
        cluster_id: render_input_row(
            CLUSTER_ID_LABEL,
            app.connection.cluster_id.as_str(),
            focused == ConnectionField::ClusterId,
        ),
        address: render_input_row(
            ADDRESS_LABEL,
            app.connection.address.as_str(),
            focused == ConnectionField::Address,
        ),
        button,
    }
}

/// Computes the connection screen for the current state on a terminal of
/// `width` columns.
pub fn render_connection(app: &AppState, width: u16) -> (screen: ConnectionScreen)
    ensures
        screen@ == connection_screen_spec(app@, width),
{
    ConnectionScreen { form: render_form(app), form_width: centered_width(width, FORM_WIDTH) }
}

} // verus!
