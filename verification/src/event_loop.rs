//! The event loop: what one wake-up does, when the screen is redrawn, and
//! what is painted.

use crate::chars::string_of;
use crate::cli::Cli;
use crate::event::Event;
use crate::failure::Failure;
use crate::reduce::is_wheel;
use crate::reduce::quits;
use crate::reduce::reduce;
use crate::reduce::reduce_event;
use crate::reduce::submits;
use crate::state::lines_of;
use crate::state::text;
use crate::state::State;
use crate::state::StateView;
use crate::throttle::due;
use crate::throttle::Throttle;
use vstd::prelude::*;

verus! {

/// The rows of the region that shows the command, its border included.
pub const COMMAND_ROWS: u16 = 2;

/// The share of the screen's height, in percent, that the region for the
/// output asks for.
pub const CONTENT_PERCENT: u16 = 90;

/// The rows that the border of the output region takes.
pub const BORDER_ROWS: u16 = 2;

/// The terminal row on which the command is typed.
pub const COMMAND_LINE_ROW: u16 = 1;

/// Why the event loop woke up.
#[derive(Clone, Copy, Debug, PartialEq, Eq, Structural)]
pub enum Wake {
    /// An event arrived: input, or the signal that there is new output.
    Event(Event),
    /// Nothing arrived in time.
    Timeout,
    /// A queue that feeds the loop has lost its sender.
    Disconnected,
}

/// What the event loop does after a wake-up.
#[derive(Debug, PartialEq, Eq)]
pub struct Tick {
    /// Whether the loop goes on.
    pub running: bool,
    /// The command to hand to the supervisor, if one was submitted.
    pub submit: Option<String>,
    /// Whether the screen is to be redrawn now.
    pub redraw: bool,
}

/// Handles one wake-up at time `now`.
///
/// An event is applied to the command line and the line buffer. The screen
/// is then redrawn if a refresh interval has passed since the last redraw,
/// however many wake-ups there were in between; it is not redrawn once the
/// interrupt key has ended the loop. A lost sender is fatal.
pub fn event_loop_step(
    wake: Wake,
    state: &mut State,
    command: &mut Vec<char>,
    flags: &Cli,
    throttle: &mut Throttle,
    now: u64,
) -> (result: Result<Tick, Failure>)
    requires
        old(state).cursor <= old(command)@.len(),
    ensures
        final(state).cursor <= final(command)@.len(),
        match wake {
            Wake::Disconnected => {
                &&& result == Err::<Tick, Failure>(Failure::DeadThread)
                &&& *final(state) == *old(state)
                &&& *final(command) == *old(command)
                &&& *final(throttle) == *old(throttle)
            },
            Wake::Timeout => {
                &&& result is Ok
                &&& result->Ok_0.running
                &&& result->Ok_0.submit is None
                &&& result->Ok_0.redraw == due(old(throttle).last, now)
                &&& *final(state) == *old(state)
                &&& *final(command) == *old(command)
            },
            Wake::Event(evt) => {
                &&& result is Ok
                &&& result->Ok_0.running == !quits(evt)
                &&& submits(evt) ==> result->Ok_0.submit is Some && result->Ok_0.submit->0@ == old(
                    command,
                )@
                &&& !submits(evt) ==> result->Ok_0.submit is None
                &&& result->Ok_0.redraw == (!quits(evt) && due(old(throttle).last, now))
                &&& (final(state)@, final(command)@) == reduce(
                    old(state)@,
                    old(command)@,
                    evt,
                    flags.scroll_speed as nat,
                )
                &&& quits(evt) ==> *final(throttle) == *old(throttle)
                &&& old(state)@.in_pane() || is_wheel(evt) ==> final(state)@.in_pane()
            },
        },
        result is Ok && result->Ok_0.redraw ==> final(throttle).last == now,
        result is Ok && !result->Ok_0.redraw ==> *final(throttle) == *old(throttle),
{
    let mut submit: Option<String> = None;
    match wake {
        Wake::Disconnected => {
            return Err(Failure::DeadThread);
        },
        Wake::Timeout => {},
        Wake::Event(evt) => {
            let outcome = reduce_event(evt, state, command, flags);
            if !outcome.running {
                return Ok(Tick { running: false, submit: None, redraw: false });
            }
            submit = outcome.submit;
        },
    }
    let redraw: bool = throttle.ready(now);
    Ok(Tick { running: true, submit, redraw })
}

/// What is painted: the command with the cursor, and the lines of output
/// that fit.
#[derive(Debug, PartialEq, Eq)]
pub struct Frame {
    /// The command as typed so far.
    pub command: String,
    /// Where the terminal's cursor goes: column and row.
    pub cursor: (u16, u16),
    /// The lines of output to show, first to last.
    pub lines: Vec<String>,
}

/// The rows left for lines of output in a region of `height` rows with a
/// border round it.
pub open spec fn rows_within(height: u16) -> nat {
    if height >= BORDER_ROWS {
        (height - BORDER_ROWS) as nat
    } else {
        0
    }
}

/// The column of the terminal's cursor for a cursor `cursor` characters into
/// the command: one to the right, for the border, and at most the last
/// column there can be.
pub open spec fn column_of(cursor: nat) -> u16 {
    if cursor + 1 <= u16::MAX {
        (cursor + 1) as u16
    } else {
        u16::MAX
    }
}

/// The rows left for lines of output in a region of `height` rows.
pub fn content_rows(height: u16) -> (rows: usize)
    ensures
        rows == rows_within(height),
{
    if height >= BORDER_ROWS {
        (height - BORDER_ROWS) as usize
    } else {
        0
    }
}

/// Where the terminal's cursor goes for a cursor `cursor` characters into
/// the command.
pub fn cursor_position(cursor: usize) -> (position: (u16, u16))
    ensures
        position == (column_of(cursor as nat), COMMAND_LINE_ROW),
{
    let column: u16 = if cursor < u16::MAX as usize {
        (cursor + 1) as u16
    } else {
        u16::MAX
    };
    (column, COMMAND_LINE_ROW)
}

/// Prepares one redraw of a screen of `screen.0` rows and `screen.1`
/// columns whose output region is `content_height` rows high: notes the
/// screen's size, settles the scroll offset for the region, and returns what
/// to paint.
pub fn frame(state: &mut State, command: &Vec<char>, screen: (u16, u16), content_height: u16) -> (painted:
    Frame)
    requires
        old(state).text.len() == 0 ==> old(state).line == 0,
    ensures
        final(state)@ == (StateView { size: screen, ..old(state)@.shown(rows_within(content_height)) }),
        final(state).text == old(state).text,
        painted.command@ == command@,
        painted.cursor == (column_of(old(state).cursor as nat), COMMAND_LINE_ROW),
        lines_of(painted.lines@) == old(state)@.window(rows_within(content_height)),
{
    state.size = screen;
    let lines: Vec<String> = text(state, content_rows(content_height));
    Frame { command: string_of(command), cursor: cursor_position(state.cursor), lines }
}

} // verus!
