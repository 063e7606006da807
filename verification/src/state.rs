//! The line buffer: the output lines of the running command, the scroll
//! offset of the pane that shows them, and the cursor of the command line.

use vstd::prelude::*;

verus! {

/// What the screen is drawn from. Every reader and writer works on this one
/// value, under one lock.
#[derive(Debug, PartialEq, Eq)]
pub struct State {
    /// The output lines, oldest first, each ending in a line feed.
    pub text: Vec<String>,
    /// The cursor, as a number of characters from the start of the command.
    pub cursor: usize,
    /// The scroll offset: the index of the first line shown.
    pub line: usize,
    /// The size of the terminal.
    pub size: (u16, u16),
    /// The rows of the pane that shows the output, as it was drawn last;
    /// zero before the first drawing.
    pub rows: usize,
    /// The command that was submitted last.
    pub last_sent_command: String,
}

/// The mathematical value of a [`State`].
pub struct StateView {
    pub text: Seq<Seq<char>>,
    pub cursor: nat,
    pub line: nat,
    pub size: (u16, u16),
    pub rows: nat,
    pub last_sent_command: Seq<char>,
}

/// The lines of `v`, each as its sequence of characters.
pub open spec fn lines_of(v: Seq<String>) -> Seq<Seq<char>> {
    v.map_values(|s: String| s@)
}

/// The smaller of two numbers.
pub open spec fn min_nat(a: nat, b: nat) -> nat {
    if a <= b {
        a
    } else {
        b
    }
}

/// The largest scroll offset at which a pane of `rows` rows is still full:
/// `max(0, lines - rows)`.
pub open spec fn last_full_offset(lines: nat, rows: nat) -> nat {
    if lines >= rows {
        (lines - rows) as nat
    } else {
        0
    }
}

impl View for State {
    type V = StateView;

    open spec fn view(&self) -> StateView {
        StateView {
            text: lines_of(self.text@),
            cursor: self.cursor as nat,
            line: self.line as nat,
            size: self.size,
            rows: self.rows as nat,
            last_sent_command: self.last_sent_command@,
        }
    }
}

impl StateView {
    /// The state a session starts in: no output, everything at zero.
    pub open spec fn initial() -> StateView {
        StateView {
            text: Seq::empty(),
            cursor: 0,
            line: 0,
            size: (0u16, 0u16),
            rows: 0,
            last_sent_command: Seq::empty(),
        }
    }

    /// The scroll offset points at a line or just behind the last one.
    pub open spec fn wf(self) -> bool {
        self.line <= self.text.len()
    }

    /// The buffer emptied for a new command: no lines, scroll offset zero.
    pub open spec fn cleared(self) -> StateView {
        StateView { text: Seq::empty(), line: 0, ..self }
    }

    /// One more line at the end. With scrolling on, the offset follows to
    /// just behind the new last line.
    pub open spec fn appended(self, line: Seq<char>, no_scroll: bool) -> StateView {
        StateView {
            text: self.text.push(line),
            line: if no_scroll {
                self.line
            } else {
                self.text.len() + 1
            },
            ..self
        }
    }

    /// The offset from which a pane of `rows` rows is drawn: an offset behind
    /// the last line is pulled back so that the pane shows the last `rows`
    /// lines; any other offset stays.
    pub open spec fn window_start(self, rows: nat) -> nat {
        if self.line >= self.text.len() && self.text.len() > 0 {
            (self.text.len() - min_nat(rows, self.text.len())) as nat
        } else {
            self.line
        }
    }

    /// The end of the pane drawn from `window_start`: `rows` lines further,
    /// or the end of the buffer.
    pub open spec fn window_end(self, rows: nat) -> nat {
        min_nat(self.window_start(rows) + rows, self.text.len())
    }

    /// The lines that a pane of `rows` rows shows.
    pub open spec fn window(self, rows: nat) -> Seq<Seq<char>> {
        self.text.subrange(self.window_start(rows) as int, self.window_end(rows) as int)
    }

    /// The state after it was drawn into a pane of `rows` rows: the offset
    /// is settled for the pane, and the pane's rows are noted.
    pub open spec fn shown(self, rows: nat) -> StateView {
        StateView { line: self.window_start(rows), rows, ..self }
    }

    /// The largest scroll offset at which the pane, as drawn last, is full.
    pub open spec fn last_offset(self) -> nat {
        last_full_offset(self.text.len(), self.rows)
    }

    /// Whether the scroll offset is within `[0, max(0, lines - rows)]`, so
    /// that the pane is full or shows the whole buffer.
    pub open spec fn in_pane(self) -> bool {
        self.line <= self.last_offset()
    }

    /// The scroll offset pulled back into the pane: an offset past the
    /// last at which the pane is full becomes that one, any other stays.
    pub open spec fn settled(self) -> nat {
        min_nat(self.line, self.last_offset())
    }

    /// One wheel tick down: `step` lines further, at most to the last offset
    /// at which the pane is full.
    pub open spec fn scrolled_down(self, step: nat) -> StateView {
        StateView { line: min_nat(self.line + step, self.last_offset()), ..self }
    }

    /// One wheel tick up: from the offset pulled back into the pane, `step`
    /// lines back, at most to the first line.
    pub open spec fn scrolled_up(self, step: nat) -> StateView {
        StateView { line: (self.settled() - min_nat(self.settled(), step)) as nat, ..self }
    }
}

/// Drawing settles the scroll offset within the buffer, and pulls an offset
/// behind the last line back to the last offset at which the pane is full,
/// `max(0, lines - rows)`. An offset that was within the pane stays where it
/// is. The lines drawn are at most `rows`, and they are the buffer's lines
/// from the settled offset on.
pub proof fn lemma_shown_offset(state: StateView, rows: nat)
    requires
        state.wf(),
    ensures
        state.shown(rows).wf(),
        state.shown(rows).rows == rows,
        state.line >= state.text.len() ==> state.shown(rows).line == last_full_offset(
            state.text.len(),
            rows,
        ),
        state.line >= state.text.len() ==> state.shown(rows).in_pane(),
        state.line < state.text.len() ==> state.shown(rows).line == state.line,
        state.window(rows).len() <= rows,
        forall|i: int|
            0 <= i < state.window(rows).len() ==> state.window(rows)[i] == state.text[state.shown(
                rows,
            ).line + i],
{
}

impl Default for State {
    fn default() -> (state: State)
        ensures
            state@ == StateView::initial(),
    {
        let state = State {
            text: Vec::new(),
            cursor: 0,
            line: 0,
            size: (0, 0),
            rows: 0,
            last_sent_command: String::new(),
        };
        assert(state@.text =~= Seq::empty());
        state
    }
}

impl State {
    /// Empties the buffer for a new command.
    pub fn reset(&mut self)
        ensures
            final(self)@ == old(self)@.cleared(),
    {
        self.line = 0;
        self.text.clear();
        assert(self@.text =~= Seq::empty());
    }

    /// Appends `line` to the buffer and lets the scroll offset follow to
    /// just behind it, unless `no_scroll` is set.
    pub fn append(&mut self, line: String, no_scroll: bool)
        ensures
            final(self)@ == old(self)@.appended(line@, no_scroll),
    {
        let ghost before = self.text@;
        self.text.push(line);
        if !no_scroll {
            self.line = self.text.len();
        }
        assert(lines_of(before.push(line)) =~= lines_of(before).push(line@));
    }

    /// The largest scroll offset at which the pane, as drawn last, is full:
    /// `max(0, lines - rows)`.
    pub fn last_offset(&self) -> (offset: usize)
        ensures
            offset == self@.last_offset(),
    {
        let len: usize = self.text.len();
        if len >= self.rows {
            len - self.rows
        } else {
            0
        }
    }

    /// One wheel tick down by `step` lines. The offset never passes the last
    /// one at which the pane is full, so the last line stays in the pane.
    pub fn scroll_down(&mut self, step: usize)
        ensures
            final(self)@ == old(self)@.scrolled_down(step as nat),
            final(self)@.in_pane(),
    {
        let bound: usize = self.last_offset();
        if self.line >= bound || step >= bound - self.line {
            self.line = bound;
        } else {
            self.line = self.line + step;
        }
    }

    /// One wheel tick up by `step` lines. An offset that stands past the
    /// pane, as it does after new output has arrived, is first pulled back
    /// into it.
    pub fn scroll_up(&mut self, step: usize)
        ensures
            final(self)@ == old(self)@.scrolled_up(step as nat),
            final(self)@.in_pane(),
    {
        let bound: usize = self.last_offset();
        let from: usize = if self.line <= bound {
            self.line
        } else {
            bound
        };
        if from >= step {
            self.line = from - step;
        } else {
            self.line = 0;
        }
    }

    /// Hands the state out and leaves the initial state behind.
    pub fn take(&mut self) -> (taken: State)
        ensures
            taken == *old(self),
            final(self)@ == StateView::initial(),
    {
        let mut taken = State::default();
        std::mem::swap(self, &mut taken);
        taken
    }
}

/// The lines to draw into a pane of `num_lines` rows, and the scroll offset
/// settled for that pane: an offset behind the last line moves back so that
/// the last `num_lines` lines are shown. The pane's rows are noted in the
/// state, where the mouse wheel finds them.
pub fn text(state: &mut State, num_lines: usize) -> (lines: Vec<String>)
    requires
        old(state).text.len() == 0 ==> old(state).line == 0,
    ensures
        final(state)@ == old(state)@.shown(num_lines as nat),
        final(state).text == old(state).text,
        lines_of(lines@) == old(state)@.window(num_lines as nat),
{
    let len: usize = state.text.len();
    let start_line: usize = if state.line >= len && len > 0 {
        if num_lines < len {
            len - num_lines
        } else {
            0
        }
    } else {
        state.line
    };
    state.line = start_line;
    state.rows = num_lines;
    let end_line: usize = if start_line >= len {
        len
    } else if num_lines >= len - start_line {
        len
    } else {
        start_line + num_lines
    };
    let mut lines: Vec<String> = Vec::new();
    let mut i: usize = start_line;
    while i < end_line
        invariant
            start_line <= i <= end_line <= state.text.len(),
            lines@ == state.text@.subrange(start_line as int, i as int),
        decreases end_line - i,
    {
        lines.push(state.text[i].clone());
        assert(state.text@.subrange(start_line as int, i + 1) =~= state.text@.subrange(
            start_line as int,
            i as int,
        ).push(state.text@[i as int]));
        i += 1;
    }
    assert(lines_of(state.text@.subrange(start_line as int, end_line as int)) =~= lines_of(
        state.text@,
    ).subrange(start_line as int, end_line as int));
    lines
}

} // verus!
