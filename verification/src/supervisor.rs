//! The execution supervisor: it takes each submitted command, cancels the
//! pipeline that runs, empties the line buffer and plans the new pipeline;
//! and it decides, line by line, what a pipeline's reader does.

use crate::chars::same_trimmed;
use crate::chars::trimmed;
use crate::cli::Cli;
use crate::failure::shown_inline;
use crate::failure::message_of;
use crate::failure::Failure;
use crate::pipeline::plan_stages;
use crate::pipeline::plan_views;
use crate::pipeline::planned_pipeline;
use crate::pipeline::split_stages;
use crate::pipeline::stages_of;
use crate::pipeline::StageSpec;
use crate::state::State;
use crate::state::StateView;
use crate::throttle::due;
use crate::throttle::Throttle;
use vstd::prelude::*;
use vstd::string::StringExecFns;

verus! {

/// The supervisor's own state. Cancellation tokens are numbered from one in
/// the order in which they are issued, one for each pipeline.
#[derive(Debug, PartialEq, Eq)]
pub struct Supervisor {
    /// The command that was accepted last; empty before the first.
    pub last_command: String,
    /// The number of tokens issued so far, which is also the number of the
    /// token issued last.
    pub issued: u64,
}

/// The mathematical value of a [`Supervisor`].
pub struct SupervisorView {
    pub last_command: Seq<char>,
    pub issued: nat,
}

impl View for Supervisor {
    type V = SupervisorView;

    open spec fn view(&self) -> SupervisorView {
        SupervisorView { last_command: self.last_command@, issued: self.issued as nat }
    }
}

impl SupervisorView {
    /// Whether `command` differs from the command that runs, white space
    /// round the two aside. Only then is it accepted.
    pub open spec fn accepts(self, command: Seq<char>) -> bool {
        trimmed(command) != trimmed(self.last_command)
    }

    /// Whether `token` was issued and is not cancelled: that is the token
    /// issued last, and no other.
    pub open spec fn live(self, token: nat) -> bool {
        0 < token && token == self.issued
    }

    /// Whether `token` was issued before now.
    pub open spec fn was_issued(self, token: nat) -> bool {
        0 < token <= self.issued
    }

    /// The supervisor after it accepted `command`.
    pub open spec fn restarted(self, command: Seq<char>) -> SupervisorView {
        SupervisorView { last_command: command, issued: self.issued + 1 }
    }
}

/// What the supervisor does with a submitted command.
#[derive(Debug, PartialEq, Eq)]
pub enum Submission {
    /// The command is the one that runs: nothing happens.
    Ignored,
    /// The command is new, and the line buffer is empty again. Cancel the
    /// token `cancel`, if there is one, before the buffer is given out of
    /// hand, so that no reader of the old pipeline writes into it; then
    /// start `plan` under the fresh token `token`.
    Restart { cancel: Option<u64>, token: u64, plan: Vec<StageSpec> },
}

impl Supervisor {
    /// A supervisor that has seen no command.
    pub fn new() -> (supervisor: Supervisor)
        ensures
            supervisor@ == (SupervisorView { last_command: Seq::empty(), issued: 0 }),
    {
        Supervisor { last_command: String::new(), issued: 0 }
    }

    /// Takes a submitted command. One that equals the running command after
    /// trimming is ignored, and nothing changes. Any other is accepted: the
    /// token of the running pipeline is to be cancelled, the line buffer is
    /// emptied, and the command's stages are planned under a fresh token.
    pub fn submit(&mut self, command: String, state: &mut State, flags: &Cli) -> (outcome:
        Submission)
        requires
            old(self).issued < u64::MAX,
        ensures
            !old(self)@.accepts(command@) ==> outcome is Ignored && *final(self) == *old(self)
                && *final(state) == *old(state),
            old(self)@.accepts(command@) ==> final(self)@ == old(self)@.restarted(command@)
                && final(state)@ == old(state)@.cleared(),
            old(self)@.accepts(command@) ==> (outcome matches Submission::Restart {
                cancel,
                token,
                plan,
            } && cancel == (if old(self).issued > 0 {
                Some(old(self).issued)
            } else {
                None
            }) && token == old(self).issued + 1 && plan_views(plan@) == planned_pipeline(
                flags.shell@,
                stages_of(command@),
            )),
    {
        if same_trimmed(self.last_command.as_str(), command.as_str()) {
            return Submission::Ignored;
        }
        let cancel: Option<u64> = if self.issued > 0 {
            Some(self.issued)
        } else {
            None
        };
        state.reset();
        let stages: Vec<String> = split_stages(command.as_str());
        let plan: Vec<StageSpec> = plan_stages(flags.shell.as_str(), &stages);
        self.issued = self.issued + 1;
        self.last_command = command;
        Submission::Restart { cancel, token: self.issued, plan }
    }
}

/// Once a new command is accepted, no token issued before it is live, and
/// the one token that is live is the new one: at most one pipeline's reader
/// may append to the line buffer.
pub proof fn lemma_restart_leaves_one_live_token(before: SupervisorView, command: Seq<char>)
    ensures
        forall|token: nat| before.was_issued(token) ==> !before.restarted(command).live(token),
        forall|token: nat|
            before.restarted(command).live(token) <==> token == before.issued + 1,
        forall|a: nat, b: nat| before.live(a) && before.live(b) ==> a == b,
{
}

/// One line as a reader got it, with the token of the reader's pipeline.
pub struct Read {
    pub token: nat,
    pub line: Seq<char>,
}

/// The line buffer after `reads` arrived in this order, each handled by a
/// reader step that finds its token live or cancelled as `supervisor` has it.
pub open spec fn after_reads(
    state: StateView,
    supervisor: SupervisorView,
    reads: Seq<Read>,
    no_scroll: bool,
) -> StateView
    decreases reads.len(),
{
    if reads.len() == 0 {
        state
    } else {
        let before = after_reads(state, supervisor, reads.drop_last(), no_scroll);
        if supervisor.live(reads.last().token) {
            before.appended(reads.last().line.push('\n'), no_scroll)
        } else {
            before
        }
    }
}

/// The lines among `reads` that carry `token`, in order, as the buffer
/// holds them.
pub open spec fn lines_under(reads: Seq<Read>, token: nat) -> Seq<Seq<char>>
    decreases reads.len(),
{
    if reads.len() == 0 {
        Seq::empty()
    } else if reads.last().token == token {
        lines_under(reads.drop_last(), token).push(reads.last().line.push('\n'))
    } else {
        lines_under(reads.drop_last(), token)
    }
}

/// After a new command is accepted, whatever the readers of the old and the
/// new pipeline read, and in whatever order, the buffer holds the lines of
/// the new pipeline and nothing else.
pub proof fn lemma_only_the_new_pipeline_appends(
    state: StateView,
    before: SupervisorView,
    command: Seq<char>,
    reads: Seq<Read>,
    no_scroll: bool,
)
    ensures
        after_reads(state.cleared(), before.restarted(command), reads, no_scroll).text
            == lines_under(reads, before.issued + 1),
    decreases reads.len(),
{
    if reads.len() > 0 {
        lemma_only_the_new_pipeline_appends(state, before, command, reads.drop_last(), no_scroll);
    }
}

/// A command that is the running command again, white space aside, is never
/// accepted; in particular the same command twice in a row is not.
pub proof fn lemma_resubmission_is_ignored(before: SupervisorView, first: Seq<char>, again: Seq<
    char,
>)
    requires
        trimmed(again) == trimmed(first),
    ensures
        !before.restarted(first).accepts(again),
        !before.restarted(first).accepts(first),
{
}

/// What reading a pipeline's output gave.
#[derive(Debug, PartialEq, Eq)]
pub enum Output {
    /// One line, without its line ending.
    Line(String),
    /// The read failed.
    Failed,
    /// The output is at its end: the command is done.
    End,
}

/// What a pipeline's reader does next.
#[derive(Clone, Copy, Debug, PartialEq, Eq, Structural)]
pub enum ReaderAction {
    /// Read the next line; before that, if `notify` is set, tell the event
    /// loop that there is new output.
    Continue { notify: bool },
    /// Tear the pipeline down and end. `failure` names what went wrong,
    /// if anything did.
    Stop { failure: Option<Failure> },
}

/// Decides what a reader does with what it read, at time `now`.
///
/// A line read by a reader whose token is not cancelled is appended to the
/// buffer with a line feed at its end, the scroll offset follows unless
/// `flags.no_scroll` is set, and a notification is due once per refresh
/// interval. A cancelled reader appends nothing and stops, as does one
/// whose output is at its end or failed to be read.
pub fn reader_step(
    output: Output,
    cancelled: bool,
    state: &mut State,
    throttle: &mut Throttle,
    flags: &Cli,
    now: u64,
) -> (action: ReaderAction)
    ensures
        match output {
            Output::Line(line) => if cancelled {
                &&& action == (ReaderAction::Stop { failure: None })
                &&& *final(state) == *old(state)
                &&& *final(throttle) == *old(throttle)
            } else {
                &&& action == (ReaderAction::Continue { notify: due(old(throttle).last, now) })
                &&& final(state)@ == old(state)@.appended(line@.push('\n'), flags.no_scroll)
                &&& final(throttle).last == if due(old(throttle).last, now) {
                    now
                } else {
                    old(throttle).last
                }
            },
            Output::Failed => {
                &&& action == (ReaderAction::Stop { failure: Some(Failure::StreamError) })
                &&& *final(state) == *old(state)
                &&& *final(throttle) == *old(throttle)
            },
            Output::End => {
                &&& action == (ReaderAction::Stop { failure: None })
                &&& *final(state) == *old(state)
                &&& *final(throttle) == *old(throttle)
            },
        },
{
    match output {
        Output::Line(line) => {
            if cancelled {
                return ReaderAction::Stop { failure: None };
            }
            let mut line = line;
            line.push('\n');
            state.append(line, flags.no_scroll);
            let notify: bool = throttle.ready(now);
            ReaderAction::Continue { notify }
        },
        Output::Failed => ReaderAction::Stop { failure: Some(Failure::StreamError) },
        Output::End => ReaderAction::Stop { failure: None },
    }
}

/// How an attempt to queue an update notification ended.
#[derive(Clone, Copy, Debug, PartialEq, Eq, Structural)]
pub enum SendOutcome {
    /// The notification is queued.
    Sent,
    /// The queue is full. The notification is dropped: the line buffer holds
    /// the data, so the redraw is late at worst.
    Full,
    /// Nobody reads the queue any more.
    Disconnected,
}

/// Whether a reader goes on after it tried to notify the event loop. Only a
/// queue that nobody reads stops it; a full queue does not.
pub fn after_notify(outcome: SendOutcome) -> (result: Result<(), Failure>)
    ensures
        outcome == SendOutcome::Disconnected <==> result is Err,
        result is Err ==> result->Err_0 == Failure::Disconnected,
{
    match outcome {
        SendOutcome::Disconnected => Err(Failure::Disconnected),
        _ => Ok(()),
    }
}

/// Shows `failure` in the line buffer, as one line, if it is of a kind that
/// is shown there and the pipeline that failed is not cancelled; otherwise
/// the buffer stays as it is.
pub fn report_failure(failure: Failure, cancelled: bool, state: &mut State, flags: &Cli)
    ensures
        shown_inline(failure) && !cancelled ==> final(state)@ == old(state)@.appended(
            message_of(failure).push('\n'),
            flags.no_scroll,
        ),
        !shown_inline(failure) || cancelled ==> *final(state) == *old(state),
{
    if failure.is_shown_inline() && !cancelled {
        let mut line: String = failure.message();
        line.push('\n');
        state.append(line, flags.no_scroll);
    }
}

} // verus!
