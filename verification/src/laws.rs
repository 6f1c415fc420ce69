//! Laws of the focus rings, the reducer and the translator, proved over the
//! spec functions that the contracts of the executable functions use.

use vstd::prelude::*;
use crate::app_state::{
    AppStateView, ConnectionField, ConnectionFormView, ConnectionStatus, Screen, StatusLevel, Tab,
};
use crate::event::{
    forwarded, handle_event_spec, next_action_spec, Action, Event, Outcome, TerminalInput,
};
use crate::key::{spec_is_control, KeyEvent, KeyEventKind};
use crate::message::{handle_key_spec, is_interrupt, update_spec, Message};

verus! {

/// The focus ring of the connection form closes after three steps in either
/// direction, and a step forward undoes a step back.
pub proof fn lemma_focus_ring(field: ConnectionField)
    ensures
        field.next().next().next() == field,
        field.prev().prev().prev() == field,
        field.next().prev() == field,
        field.prev().next() == field,
        field.next() != field,
        field.prev() != field,
{
}

/// The tab ring closes after three steps in either direction, and a step
/// forward undoes a step back.
pub proof fn lemma_tab_ring(tab: Tab)
    ensures
        tab.next().next().next() == tab,
        tab.prev().prev().prev() == tab,
        tab.next().prev() == tab,
        tab.prev().next() == tab,
        tab.next() != tab,
        tab.prev() != tab,
{
}

/// The state after `msg` was applied `n` times in a row to `s`.
pub open spec fn update_repeated(s: AppStateView, msg: Message, n: nat) -> AppStateView
    decreases n,
{
    if n == 0 {
        s
    } else {
        update_spec(update_repeated(s, msg, (n - 1) as nat), msg)
    }
}

/// Three `FocusNext` in a row, or three `FocusPrev`, lead back to the state
/// they started from, on either screen; `FocusPrev` undoes `FocusNext` and the
/// other way round.
pub proof fn lemma_focus_messages_cycle(s: AppStateView)
    ensures
        update_repeated(s, Message::FocusNext, 3) == s,
        update_repeated(s, Message::FocusPrev, 3) == s,
        update_spec(update_spec(s, Message::FocusNext), Message::FocusPrev) == s,
        update_spec(update_spec(s, Message::FocusPrev), Message::FocusNext) == s,
{
    reveal_with_fuel(update_repeated, 4);
    lemma_focus_ring(s.connection.focused);
    lemma_tab_ring(s.tab);
}

/// Any multiple of three `FocusNext`, or of three `FocusPrev`, leads back to
/// the state it started from.
pub proof fn lemma_focus_messages_period(s: AppStateView, rounds: nat)
    ensures
        update_repeated(s, Message::FocusNext, 3 * rounds) == s,
        update_repeated(s, Message::FocusPrev, 3 * rounds) == s,
    decreases rounds,
{
    if rounds > 0 {
        lemma_focus_messages_period(s, (rounds - 1) as nat);
        let n = (3 * (rounds - 1)) as nat;
        let next = Message::FocusNext;
        let prev = Message::FocusPrev;
        reveal_with_fuel(update_repeated, 4);
        lemma_focus_messages_cycle(s);
        assert(update_repeated(s, next, n + 3) == update_spec(
            update_spec(update_spec(update_repeated(s, next, n), next), next),
            next,
        ));
        assert(update_repeated(s, prev, n + 3) == update_spec(
            update_spec(update_spec(update_repeated(s, prev, n), prev), prev),
            prev,
        ));
    }
}

/// Starting from the cluster id, the focus is on the cluster id again after
/// exactly three `FocusNext`, and on another field after one or two.
pub proof fn lemma_focus_returns_to_cluster_id(s: AppStateView)
    requires
        s.screen == Screen::Connection,
        s.connection.focused == ConnectionField::ClusterId,
    ensures
        update_repeated(s, Message::FocusNext, 1).connection.focused == ConnectionField::Address,
        update_repeated(s, Message::FocusNext, 2).connection.focused
            == ConnectionField::ConnectButton,
        update_repeated(s, Message::FocusNext, 3).connection.focused == ConnectionField::ClusterId,
{
    reveal_with_fuel(update_repeated, 4);
}

/// Typing a character and then erasing one restores the state exactly,
/// whatever the screen and the focus.
pub proof fn lemma_char_input_then_backspace(s: AppStateView, c: char)
    ensures
        update_spec(update_spec(s, Message::CharInput(c)), Message::Backspace) == s,
{
    assert(s.connection.cluster_id.push(c).drop_last() =~= s.connection.cluster_id);
    assert(s.connection.address.push(c).drop_last() =~= s.connection.address);
}

impl ConnectionFormView {
    /// The text of the focused field; `None` while the button has the focus.
    pub open spec fn focused_text(self) -> Option<Seq<char>> {
        match self.focused {
            ConnectionField::ClusterId => Some(self.cluster_id),
            ConnectionField::Address => Some(self.address),
            ConnectionField::ConnectButton => None,
        }
    }
}

/// Erasing in an empty text field changes nothing: the field stays empty and
/// the rest of the state is as before.
pub proof fn lemma_backspace_on_empty_field(s: AppStateView)
    requires
        s.connection.focused_text() == Some(Seq::<char>::empty()),
    ensures
        update_spec(s, Message::Backspace) == s,
        update_spec(s, Message::Backspace).connection.focused_text() == Some(Seq::<char>::empty()),
{
}

/// Erasing in a text field that is not empty removes exactly its last
/// character.
pub proof fn lemma_backspace_removes_last(s: AppStateView)
    requires
        s.screen == Screen::Connection,
        s.connection.focused_text() is Some,
        s.connection.focused_text()->0.len() > 0,
    ensures
        update_spec(s, Message::Backspace).connection.focused_text() == Some(
            s.connection.focused_text()->0.drop_last(),
        ),
{
}

/// `Submit` with the focus on the button leads to the dashboard, marks the
/// connection as connected and sets a success message that is not empty. The
/// tab, the termination flag, the two texts and the focus stay as they are.
pub proof fn lemma_submit_on_button(s: AppStateView)
    requires
        s.screen == Screen::Connection,
        s.connection.focused == ConnectionField::ConnectButton,
    ensures
        update_spec(s, Message::Submit).screen == Screen::Dashboard,
        update_spec(s, Message::Submit).connection.status == ConnectionStatus::Connected,
        update_spec(s, Message::Submit).status is Some,
        update_spec(s, Message::Submit).status->0.level == StatusLevel::Success,
        update_spec(s, Message::Submit).status->0.text.len() > 0,
        update_spec(s, Message::Submit).tab == s.tab,
        update_spec(s, Message::Submit).should_quit == s.should_quit,
        update_spec(s, Message::Submit).connection.cluster_id == s.connection.cluster_id,
        update_spec(s, Message::Submit).connection.address == s.connection.address,
        update_spec(s, Message::Submit).connection.focused == s.connection.focused,
{
    reveal_strlit("Connected (simulated)");
}

/// `Submit` with the focus on a text field changes nothing.
pub proof fn lemma_submit_on_text_field(s: AppStateView)
    requires
        s.screen == Screen::Connection,
        s.connection.focused.is_text_input(),
    ensures
        update_spec(s, Message::Submit) == s,
{
}

/// `Quit` raises the termination flag and changes nothing else, whatever the
/// screen and the focus.
pub proof fn lemma_quit_sets_only_the_flag(s: AppStateView)
    ensures
        update_spec(s, Message::Quit).should_quit,
        update_spec(s, Message::Quit).screen == s.screen,
        update_spec(s, Message::Quit).tab == s.tab,
        update_spec(s, Message::Quit).connection == s.connection,
        update_spec(s, Message::Quit).status == s.status,
{
}

/// `Tick` changes nothing.
pub proof fn lemma_tick_is_noop(s: AppStateView)
    ensures
        update_spec(s, Message::Tick) == s,
{
}

/// No message but `Quit` touches the termination flag.
pub proof fn lemma_only_quit_raises_the_flag(s: AppStateView, msg: Message)
    requires
        msg != Message::Quit,
    ensures
        update_spec(s, msg).should_quit == s.should_quit,
{
}

/// True when `msg` is a submit that takes effect in `s`: the connection
/// screen is active and the button has the focus.
pub open spec fn is_effective_submit(s: AppStateView, msg: Message) -> bool {
    msg == Message::Submit && s.screen == Screen::Connection && s.connection.focused
        == ConnectionField::ConnectButton
}

/// The screen, the connection status and the status message change only on a
/// submit that takes effect; a status message once set stays until then.
pub proof fn lemma_only_submit_changes_screen_and_status(s: AppStateView, msg: Message)
    requires
        !is_effective_submit(s, msg),
    ensures
        update_spec(s, msg).screen == s.screen,
        update_spec(s, msg).connection.status == s.connection.status,
        update_spec(s, msg).status == s.status,
{
}

/// No message leads from the dashboard back to the connection screen.
pub proof fn lemma_dashboard_is_never_left(s: AppStateView, msg: Message)
    requires
        s.screen == Screen::Dashboard,
    ensures
        update_spec(s, msg).screen == Screen::Dashboard,
{
}

/// The texts of the connection form change only by typing and erasing on
/// the connection screen.
pub proof fn lemma_only_editing_changes_text(s: AppStateView, msg: Message)
    requires
        s.screen == Screen::Dashboard || !(msg is CharInput || msg is Backspace),
    ensures
        update_spec(s, msg).connection.cluster_id == s.connection.cluster_id,
        update_spec(s, msg).connection.address == s.connection.address,
{
}

/// True when no character of `text` is a control character.
pub open spec fn is_printable_text(text: Seq<char>) -> bool {
    forall|i: int| 0 <= i < text.len() ==> !spec_is_control(#[trigger] text[i])
}

impl AppStateView {
    /// True when neither text field of the connection form holds a control
    /// character.
    pub open spec fn text_is_printable(self) -> bool {
        is_printable_text(self.connection.cluster_id) && is_printable_text(self.connection.address)
    }
}

/// The texts of the initial state are printable.
pub proof fn lemma_initial_text_is_printable()
    ensures
        AppStateView::initial().text_is_printable(),
{
}

/// The translator forwards no control character.
pub proof fn lemma_translator_forwards_printable(key: KeyEvent, s: AppStateView, c: char)
    requires
        handle_key_spec(key, s) == Some(Message::CharInput(c)),
    ensures
        !spec_is_control(c),
        s.screen == Screen::Connection,
        s.connection.focused.is_text_input(),
{
}

/// A message that the translator produced keeps the texts of the connection
/// form free of control characters.
pub proof fn lemma_translated_message_keeps_text_printable(key: KeyEvent, s: AppStateView)
    requires
        s.text_is_printable(),
        handle_key_spec(key, s) is Some,
    ensures
        update_spec(s, handle_key_spec(key, s)->0).text_is_printable(),
{
}

/// The interrupt combination quits on every screen and with every focus.
pub proof fn lemma_interrupt_always_quits(key: KeyEvent, s: AppStateView)
    requires
        is_interrupt(key),
    ensures
        handle_key_spec(key, s) == Some(Message::Quit),
        update_spec(s, handle_key_spec(key, s)->0).should_quit,
{
}

/// Of the key occurrences only presses are forwarded, each as the `Key` event
/// of that key; releases and repeats are filtered out.
pub proof fn lemma_only_presses_are_forwarded(key: KeyEvent)
    ensures
        key.kind == KeyEventKind::Press ==> forwarded(TerminalInput::Key(key)) == Some(
            Event::Key(key),
        ),
        key.kind != KeyEventKind::Press ==> forwarded(TerminalInput::Key(key)) is None,
{
}

/// The polling worker never forwards a `Tick` for something it read, and it
/// sends a `Tick` exactly when a poll ended without a waiting occurrence.
pub proof fn lemma_tick_only_after_idle_poll(outcome: Outcome)
    ensures
        next_action_spec(outcome) == Action::Send(Event::Tick) <==> (outcome is Polled
            && outcome->Polled_0 != Some(true)),
{
}

/// The polling worker stops exactly when a send failed.
pub proof fn lemma_worker_stops_only_on_failed_send(outcome: Outcome)
    ensures
        next_action_spec(outcome) == Action::Stop <==> outcome == Outcome::Sent(false),
{
}

/// A tick and a resize leave the state as it is.
pub proof fn lemma_tick_and_resize_change_nothing(s: AppStateView, width: u16, height: u16)
    ensures
        handle_event_spec(s, Event::Tick) == s,
        handle_event_spec(s, Event::Resize(width, height)) == s,
{
}

/// The main loop raises the termination flag only on a key that the
/// translator reads as `Quit`.
pub proof fn lemma_loop_ends_only_on_quit(s: AppStateView, event: Event)
    requires
        !s.should_quit,
        handle_event_spec(s, event).should_quit,
    ensures
        event is Key,
        handle_key_spec(event->Key_0, s) == Some(Message::Quit),
{
}

/// Whatever event the main loop consumes, the texts of the connection form
/// stay free of control characters.
pub proof fn lemma_event_keeps_text_printable(s: AppStateView, event: Event)
    requires
        s.text_is_printable(),
    ensures
        handle_event_spec(s, event).text_is_printable(),
{
    match event {
        Event::Key(key) => {
            if handle_key_spec(key, s) is Some {
                lemma_translated_message_keeps_text_printable(key, s);
            }
        },
        _ => {},
    }
}

} // verus!
