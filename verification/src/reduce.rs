//! How one event changes the command line and the line buffer.

use crate::chars::string_of;
use crate::cli::Cli;
use crate::event::Event;
use crate::event::Key;
use crate::event::MouseButton;
use crate::event::UserEvent;
use crate::state::last_full_offset;
use crate::state::State;
use crate::state::StateView;
use vstd::prelude::*;

verus! {

/// What the event loop does after an event was applied.
#[derive(Debug, PartialEq, Eq)]
pub struct Reduction {
    /// Whether the loop goes on. It ends on the interrupt key only.
    pub running: bool,
    /// The command to hand to the supervisor, where the event submitted one.
    pub submit: Option<String>,
}

/// The interrupt key: control and `c`.
pub open spec fn quits(evt: Event) -> bool {
    evt == Event::UserEvent(UserEvent::Key(Key::Ctrl('c')))
}

/// Enter, which submits the command as it stands.
pub open spec fn submits(evt: Event) -> bool {
    evt == Event::UserEvent(UserEvent::Key(Key::Char('\r'))) || evt == Event::UserEvent(
        UserEvent::Key(Key::Char('\n')),
    )
}

/// The command after `c` was typed at the cursor.
pub open spec fn typed(command: Seq<char>, cursor: nat, c: char) -> Seq<char> {
    command.insert(cursor as int, c)
}

/// The command after backspace: the character before the cursor is gone,
/// and nothing is where the cursor stands at the start.
pub open spec fn erased(command: Seq<char>, cursor: nat) -> Seq<char> {
    if 0 < cursor <= command.len() {
        command.remove(cursor - 1)
    } else {
        command
    }
}

/// The cursor one step to the left, or where it is at the start.
pub open spec fn cursor_left(cursor: nat) -> nat {
    if cursor == 0 {
        0
    } else {
        (cursor - 1) as nat
    }
}

/// The cursor one step to the right, at most to the end of the command.
pub open spec fn cursor_right(cursor: nat, len: nat) -> nat {
    if cursor + 1 <= len {
        cursor + 1
    } else {
        len
    }
}

/// What a key does to the line buffer and the command.
pub open spec fn reduce_key(state: StateView, command: Seq<char>, key: Key) -> (
    StateView,
    Seq<char>,
) {
    match key {
        Key::Backspace => (
            StateView { cursor: cursor_left(state.cursor), ..state },
            erased(command, state.cursor),
        ),
        Key::Char(c) => if c == '\r' || c == '\n' {
            (StateView { last_sent_command: command, ..state }, command)
        } else {
            (StateView { cursor: state.cursor + 1, ..state }, typed(command, state.cursor, c))
        },
        Key::Right => (
            StateView { cursor: cursor_right(state.cursor, command.len()), ..state },
            command,
        ),
        Key::Left => (StateView { cursor: cursor_left(state.cursor), ..state }, command),
        Key::Ctrl(_) => (state, command),
        Key::Other => (state, command),
    }
}

/// What an event does to the line buffer and the command, with a wheel tick
/// worth `step` lines.
pub open spec fn reduce(state: StateView, command: Seq<char>, evt: Event, step: nat) -> (
    StateView,
    Seq<char>,
) {
    match evt {
        Event::Update => (state, command),
        Event::UserEvent(UserEvent::Key(key)) => reduce_key(state, command, key),
        Event::UserEvent(UserEvent::MousePress(MouseButton::WheelDown)) => (
            state.scrolled_down(step),
            command,
        ),
        Event::UserEvent(UserEvent::MousePress(MouseButton::WheelUp)) => (
            state.scrolled_up(step),
            command,
        ),
        Event::UserEvent(UserEvent::MousePress(MouseButton::Other)) => (state, command),
        Event::UserEvent(UserEvent::Other) => (state, command),
    }
}

/// What a run of events does, applied one after the other from the first.
pub open spec fn reduce_all(
    state: StateView,
    command: Seq<char>,
    events: Seq<Event>,
    step: nat,
) -> (StateView, Seq<char>)
    decreases events.len(),
{
    if events.len() == 0 {
        (state, command)
    } else {
        let before = reduce_all(state, command, events.drop_last(), step);
        reduce(before.0, before.1, events.last(), step)
    }
}

/// Whether `evt` is a turn of the mouse wheel.
pub open spec fn is_wheel(evt: Event) -> bool {
    evt == Event::UserEvent(UserEvent::MousePress(MouseButton::WheelDown)) || evt
        == Event::UserEvent(UserEvent::MousePress(MouseButton::WheelUp))
}

/// Applies a key to the command line.
fn reduce_key_event(key: Key, state: &mut State, command: &mut Vec<char>) -> (outcome: Reduction)
    requires
        old(state).cursor <= old(command)@.len(),
    ensures
        (final(state)@, final(command)@) == reduce_key(old(state)@, old(command)@, key),
        outcome.running == !quits(Event::UserEvent(UserEvent::Key(key))),
        submits(Event::UserEvent(UserEvent::Key(key))) ==> outcome.submit is Some
            && outcome.submit->0@ == old(command)@,
        !submits(Event::UserEvent(UserEvent::Key(key))) ==> outcome.submit is None,
{
    match key {
        Key::Ctrl(c) => {
            return Reduction { running: c != 'c', submit: None };
        },
        Key::Backspace => {
            if state.cursor > 0 {
                command.remove(state.cursor - 1);
                state.cursor -= 1;
            }
        },
        Key::Char(ch) => {
            if ch == '\r' || ch == '\n' {
                state.last_sent_command = string_of(command);
                return Reduction { running: true, submit: Some(string_of(command)) };
            }
            command.insert(state.cursor, ch);
            assert(state.cursor < command.len());
            state.cursor += 1;
        },
        Key::Right => {
            if state.cursor < command.len() {
                state.cursor += 1;
            }
        },
        Key::Left => {
            if state.cursor > 0 {
                state.cursor -= 1;
            }
        },
        Key::Other => {},
    }
    Reduction { running: true, submit: None }
}

/// Applies one event: a key edits the command or moves the cursor, Enter
/// submits the command, the wheel scrolls by `flags.scroll_speed` lines
/// within the pane as it was drawn last, the interrupt key ends the loop,
/// and everything else changes nothing.
pub fn reduce_event(evt: Event, state: &mut State, command: &mut Vec<char>, flags: &Cli) -> (outcome:
    Reduction)
    requires
        old(state).cursor <= old(command)@.len(),
    ensures
        (final(state)@, final(command)@) == reduce(
            old(state)@,
            old(command)@,
            evt,
            flags.scroll_speed as nat,
        ),
        outcome.running == !quits(evt),
        submits(evt) ==> outcome.submit is Some && outcome.submit->0@ == old(command)@,
        !submits(evt) ==> outcome.submit is None,
        final(state).cursor <= final(command)@.len(),
        old(state)@.in_pane() || is_wheel(evt) ==> final(state)@.in_pane(),
{
    match evt {
        Event::Update => {},
        Event::UserEvent(UserEvent::Key(key)) => {
            return reduce_key_event(key, state, command);
        },
        Event::UserEvent(UserEvent::MousePress(MouseButton::WheelDown)) => {
            state.scroll_down(flags.scroll_speed as usize);
        },
        Event::UserEvent(UserEvent::MousePress(MouseButton::WheelUp)) => {
            state.scroll_up(flags.scroll_speed as usize);
        },
        Event::UserEvent(UserEvent::MousePress(MouseButton::Other)) => {},
        Event::UserEvent(UserEvent::Other) => {},
    }
    Reduction { running: true, submit: None }
}

/// What one event keeps: the cursor inside the command, the scroll offset
/// inside the buffer and, if it was there, inside the pane. A turn of the
/// wheel brings the offset into the pane from wherever it stood. No event
/// adds or removes a line or changes the pane's rows.
pub proof fn lemma_reduce_keeps_bounds(state: StateView, command: Seq<char>, evt: Event, step: nat)
    ensures
        state.cursor <= command.len() ==> reduce(state, command, evt, step).0.cursor <= reduce(
            state,
            command,
            evt,
            step,
        ).1.len(),
        state.wf() ==> reduce(state, command, evt, step).0.wf(),
        state.in_pane() ==> reduce(state, command, evt, step).0.in_pane(),
        is_wheel(evt) ==> reduce(state, command, evt, step).0.in_pane(),
        reduce(state, command, evt, step).0.text == state.text,
        reduce(state, command, evt, step).0.rows == state.rows,
{
}

/// After any run of insertions, deletions and moves, and whatever else
/// arrives between them, the cursor is within `[0, len(command)]`.
pub proof fn lemma_cursor_within_command(
    state: StateView,
    command: Seq<char>,
    events: Seq<Event>,
    step: nat,
)
    requires
        state.cursor <= command.len(),
    ensures
        reduce_all(state, command, events, step).0.cursor <= reduce_all(
            state,
            command,
            events,
            step,
        ).1.len(),
    decreases events.len(),
{
    if events.len() > 0 {
        lemma_cursor_within_command(state, command, events.drop_last(), step);
        let before = reduce_all(state, command, events.drop_last(), step);
        lemma_reduce_keeps_bounds(before.0, before.1, events.last(), step);
    }
}

/// After any run of events the scroll offset is within `[0, lines]`, and no
/// event adds or removes a line.
pub proof fn lemma_offset_within_buffer(
    state: StateView,
    command: Seq<char>,
    events: Seq<Event>,
    step: nat,
)
    requires
        state.wf(),
    ensures
        reduce_all(state, command, events, step).0.wf(),
        reduce_all(state, command, events, step).0.text == state.text,
    decreases events.len(),
{
    if events.len() > 0 {
        lemma_offset_within_buffer(state, command, events.drop_last(), step);
        let before = reduce_all(state, command, events.drop_last(), step);
        lemma_reduce_keeps_bounds(before.0, before.1, events.last(), step);
    }
}

/// A scroll offset within `[0, max(0, lines - rows)]` is still there after
/// any run of events, wheel ticks in either direction among them.
pub proof fn lemma_offset_within_pane(
    state: StateView,
    command: Seq<char>,
    events: Seq<Event>,
    step: nat,
)
    requires
        state.in_pane(),
    ensures
        reduce_all(state, command, events, step).0.in_pane(),
        reduce_all(state, command, events, step).0.line <= last_full_offset(
            state.text.len(),
            state.rows,
        ),
        reduce_all(state, command, events, step).0.text == state.text,
        reduce_all(state, command, events, step).0.rows == state.rows,
    decreases events.len(),
{
    if events.len() > 0 {
        lemma_offset_within_pane(state, command, events.drop_last(), step);
        let before = reduce_all(state, command, events.drop_last(), step);
        lemma_reduce_keeps_bounds(before.0, before.1, events.last(), step);
    }
}

/// Wherever the scroll offset stood, after a run of events that ends in a
/// turn of the wheel it is within `[0, max(0, lines - rows)]`.
pub proof fn lemma_wheel_lands_in_pane(
    state: StateView,
    command: Seq<char>,
    events: Seq<Event>,
    step: nat,
)
    requires
        events.len() > 0,
        is_wheel(events.last()),
    ensures
        reduce_all(state, command, events, step).0.in_pane(),
{
    let before = reduce_all(state, command, events.drop_last(), step);
    lemma_reduce_keeps_bounds(before.0, before.1, events.last(), step);
}

/// A wheel tick down from within the pane moves the offset by exactly
/// `step` lines where the pane is still full that far on, and else stops at
/// the last offset at which it is full. Where the buffer does not exceed the
/// pane, the offset stays at zero.
pub proof fn lemma_wheel_down_moves_by_step(state: StateView, step: nat)
    requires
        state.in_pane(),
    ensures
        state.line + step <= state.last_offset() ==> state.scrolled_down(step).line == state.line
            + step,
        state.line + step > state.last_offset() ==> state.scrolled_down(step).line
            == state.last_offset(),
        state.text.len() <= state.rows ==> state.scrolled_down(step).line == 0,
        state.scrolled_down(step).line <= state.text.len(),
{
}

/// A wheel tick up from within the pane moves the offset back by exactly
/// `step` lines, and stops at the first line where fewer lie before it.
pub proof fn lemma_wheel_up_moves_by_step(state: StateView, step: nat)
    requires
        state.in_pane(),
    ensures
        state.line >= step ==> state.scrolled_up(step).line == state.line - step,
        state.line < step ==> state.scrolled_up(step).line == 0,
{
}

} // verus!
