//! The pipeline runner's plan: a command is split into stages on the pipe
//! sign, each stage is one call of the shell, and each stage but the first
//! reads what the stage before it writes.

use crate::chars::chars_of;
use crate::chars::string_of;
use crate::chars::trim;
use crate::chars::trimmed;
use crate::failure::Failure;
use crate::state::lines_of;
use vstd::prelude::*;

verus! {

/// The sign that parts one stage from the next.
pub const PIPE: char = '|';

/// The parts of `s` between the occurrences of `d`, in order. There is one
/// part more than there are occurrences, so an empty `s` has one empty part.
pub open spec fn pieces(s: Seq<char>, d: char) -> Seq<Seq<char>>
    decreases s.len(),
{
    if s.len() == 0 {
        seq![Seq::empty()]
    } else {
        let before = pieces(s.drop_last(), d);
        if s.last() == d {
            before.push(Seq::empty())
        } else {
            before.drop_last().push(before.last().push(s.last()))
        }
    }
}

/// `parts` put together again with `d` between each two.
pub open spec fn joined(parts: Seq<Seq<char>>, d: char) -> Seq<char>
    decreases parts.len(),
{
    if parts.len() == 0 {
        Seq::empty()
    } else if parts.len() == 1 {
        parts[0]
    } else {
        joined(parts.drop_last(), d).push(d) + parts.last()
    }
}

/// The stages of `command`: its parts between pipe signs, each without the
/// white space round it.
pub open spec fn stages_of(command: Seq<char>) -> Seq<Seq<char>> {
    trimmed_parts(pieces(command, PIPE))
}

/// Splitting loses nothing: there is at least one part, no part holds the
/// sign, and the parts joined by the sign are the text that was split.
pub proof fn lemma_pieces_rejoin(s: Seq<char>, d: char)
    ensures
        pieces(s, d).len() >= 1,
        forall|i: int, j: int|
            0 <= i < pieces(s, d).len() && 0 <= j < pieces(s, d)[i].len() ==> pieces(s, d)[i][j]
                != d,
        joined(pieces(s, d), d) == s,
    decreases s.len(),
{
    if s.len() == 0 {
        assert(joined(pieces(s, d), d) =~= s);
    } else {
        lemma_pieces_rejoin(s.drop_last(), d);
        let before = pieces(s.drop_last(), d);
        let now = pieces(s, d);
        if s.last() == d {
            assert(now.drop_last() =~= before);
            assert(joined(now, d) =~= s);
        } else {
            let grown = before.last().push(s.last());
            assert(now.last() == grown);
            assert(now.drop_last() =~= before.drop_last());
            if before.len() == 1 {
                assert(joined(now, d) =~= s);
            } else {
                assert(joined(before, d) == joined(before.drop_last(), d).push(d) + before.last());
                assert(joined(now, d) == joined(before.drop_last(), d).push(d) + grown);
                assert(s =~= s.drop_last().push(s.last()));
                assert(joined(before.drop_last(), d).push(d) + grown =~= (joined(
                    before.drop_last(),
                    d,
                ).push(d) + before.last()).push(s.last()));
            }
        }
    }
}

/// How often `d` occurs in `s`.
pub open spec fn occurrences(s: Seq<char>, d: char) -> nat
    decreases s.len(),
{
    if s.len() == 0 {
        0
    } else {
        occurrences(s.drop_last(), d) + if s.last() == d {
            1nat
        } else {
            0nat
        }
    }
}

/// There is one stage more than there are pipe signs in the command.
pub proof fn lemma_stage_count(command: Seq<char>)
    ensures
        stages_of(command).len() == occurrences(command, PIPE) + 1,
{
    lemma_piece_count(command, PIPE);
}

proof fn lemma_piece_count(s: Seq<char>, d: char)
    ensures
        pieces(s, d).len() == occurrences(s, d) + 1,
    decreases s.len(),
{
    if s.len() > 0 {
        lemma_piece_count(s.drop_last(), d);
    }
}

/// `parts`, each without the white space round it.
pub open spec fn trimmed_parts(parts: Seq<Seq<char>>) -> Seq<Seq<char>> {
    parts.map_values(|part: Seq<char>| trimmed(part))
}

/// Closes a stage: appends the text gathered in `current`, without the
/// white space round it, to `stages`.
fn push_stage(stages: &mut Vec<String>, current: &Vec<char>, Ghost(raw): Ghost<Seq<Seq<char>>>)
    requires
        lines_of(old(stages)@) == trimmed_parts(raw),
    ensures
        lines_of(final(stages)@) == trimmed_parts(raw.push(current@)),
{
    let stage: String = string_of(&trim(current));
    let ghost before = stages@;
    stages.push(stage);
    assert(lines_of(before.push(stage)) =~= lines_of(before).push(stage@));
    assert(trimmed_parts(raw.push(current@)) =~= trimmed_parts(raw).push(trimmed(current@)));
}

/// Splits `command` into its stages.
pub fn split_stages(command: &str) -> (stages: Vec<String>)
    ensures
        lines_of(stages@) == stages_of(command@),
{
    let chars: Vec<char> = chars_of(command);
    let mut stages: Vec<String> = Vec::new();
    let mut current: Vec<char> = Vec::new();
    let ghost mut raw: Seq<Seq<char>> = Seq::empty();
    let mut i: usize = 0;
    assert(chars@.take(0) =~= Seq::empty());
    assert(pieces(chars@.take(0), PIPE) =~= raw.push(current@));
    assert(lines_of(stages@) =~= trimmed_parts(raw));
    while i < chars.len()
        invariant
            i <= chars.len(),
            pieces(chars@.take(i as int), PIPE) == raw.push(current@),
            lines_of(stages@) == trimmed_parts(raw),
        decreases chars.len() - i,
    {
        let c: char = chars[i];
        let ghost prefix = chars@.take(i + 1);
        assert(prefix.drop_last() =~= chars@.take(i as int));
        assert(prefix.last() == c);
        if c == PIPE {
            push_stage(&mut stages, &current, Ghost(raw));
            proof {
                raw = raw.push(current@);
            }
            current = Vec::new();
        } else {
            let ghost old_current = current@;
            current.push(c);
            assert(raw.push(old_current).drop_last() =~= raw);
        }
        i += 1;
    }
    assert(chars@.take(i as int) =~= chars@);
    push_stage(&mut stages, &current, Ghost(raw));
    stages
}

/// Where a stage reads from.
#[derive(Clone, Copy, Debug, PartialEq, Eq, Structural)]
pub enum StdinSource {
    /// A pipe of its own that nothing is written to.
    Pipe,
    /// What the stage with this index writes.
    Stage(usize),
}

/// How one stage is started.
#[derive(Clone, Debug, PartialEq, Eq)]
pub struct StageSpec {
    /// The program and its arguments: the shell, `-c`, and the stage's text.
    pub argv: Vec<String>,
    /// Where the stage reads from.
    pub stdin: StdinSource,
    /// Whether the stage's error output goes where its output goes.
    pub merge_stderr: bool,
    /// Whether the process is kept out of the tool's process group, so that
    /// a signal from the terminal does not reach it.
    pub detached: bool,
}

/// The mathematical value of a [`StageSpec`].
pub struct StageSpecView {
    pub argv: Seq<Seq<char>>,
    pub stdin: StdinSource,
    pub merge_stderr: bool,
    pub detached: bool,
}

impl View for StageSpec {
    type V = StageSpecView;

    open spec fn view(&self) -> StageSpecView {
        StageSpecView {
            argv: lines_of(self.argv@),
            stdin: self.stdin,
            merge_stderr: self.merge_stderr,
            detached: self.detached,
        }
    }
}

/// How the stage at `index` is started: by `shell -c stage`, reading what
/// the stage before it writes (the first from a pipe of its own), with its
/// error output merged into its output, and detached.
pub open spec fn planned_stage(shell: Seq<char>, stage: Seq<char>, index: nat) -> StageSpecView {
    StageSpecView {
        argv: seq![shell, "-c"@, stage],
        stdin: if index == 0 {
            StdinSource::Pipe
        } else {
            StdinSource::Stage((index - 1) as usize)
        },
        merge_stderr: true,
        detached: true,
    }
}

/// The plan for one stage.
fn plan_stage(shell: &str, stage: &String, index: usize) -> (spec: StageSpec)
    ensures
        spec@ == planned_stage(shell@, stage@, index as nat),
{
    let mut argv: Vec<String> = Vec::new();
    argv.push(shell.to_string());
    argv.push("-c".to_string());
    argv.push(stage.clone());
    assert(lines_of(argv@) =~= seq![shell@, "-c"@, stage@]);
    StageSpec {
        argv,
        stdin: if index == 0 {
            StdinSource::Pipe
        } else {
            StdinSource::Stage(index - 1)
        },
        merge_stderr: true,
        detached: true,
    }
}

/// The views of the stages of a plan.
pub open spec fn plan_views(plan: Seq<StageSpec>) -> Seq<StageSpecView> {
    plan.map_values(|stage: StageSpec| stage@)
}

/// The plan for `stages` run by `shell`: stage by stage, in order.
pub open spec fn planned_pipeline(shell: Seq<char>, stages: Seq<Seq<char>>) -> Seq<StageSpecView> {
    Seq::new(stages.len(), |i: int| planned_stage(shell, stages[i], i as nat))
}

/// In a plan every stage but the first reads what the stage just before it
/// writes, and nothing else; the first reads from no stage.
pub proof fn lemma_stages_are_chained(shell: Seq<char>, stages: Seq<Seq<char>>)
    ensures
        planned_pipeline(shell, stages).len() == stages.len(),
        forall|i: int|
            0 < i < stages.len() ==> (#[trigger] planned_pipeline(shell, stages)[i]).stdin
                == StdinSource::Stage((i - 1) as usize),
        stages.len() > 0 ==> planned_pipeline(shell, stages)[0].stdin == StdinSource::Pipe,
        forall|i: int|
            0 <= i < stages.len() ==> (#[trigger] planned_pipeline(shell, stages)[i]).argv
                == seq![shell, "-c"@, stages[i]],
{
}

/// The plan for each of `stages`, in order.
pub fn plan_stages(shell: &str, stages: &Vec<String>) -> (plan: Vec<StageSpec>)
    ensures
        plan_views(plan@) == planned_pipeline(shell@, lines_of(stages@)),
{
    let mut plan: Vec<StageSpec> = Vec::new();
    let mut i: usize = 0;
    while i < stages.len()
        invariant
            i <= stages.len(),
            plan.len() == i,
            forall|k: int|
                0 <= k < i ==> (#[trigger] plan[k])@ == planned_stage(
                    shell@,
                    stages[k]@,
                    k as nat,
                ),
        decreases stages.len() - i,
    {
        plan.push(plan_stage(shell, &stages[i], i));
        i += 1;
    }
    assert(plan_views(plan@) =~= planned_pipeline(shell@, lines_of(stages@)));
    plan
}

/// Plans the pipeline for `stages`, to be run by `shell`: one process per
/// stage, each reading exactly what the one before it writes. A list without
/// stages is refused.
pub fn plan_pipeline(shell: &str, stages: &Vec<String>) -> (plan: Result<Vec<StageSpec>, Failure>)
    ensures
        stages.len() == 0 <==> plan is Err,
        plan is Err ==> plan->Err_0 == Failure::BadCommand,
        plan is Ok ==> plan_views(plan->Ok_0@) == planned_pipeline(shell@, lines_of(stages@)),
{
    if stages.len() == 0 {
        return Err(Failure::BadCommand);
    }
    Ok(plan_stages(shell, stages))
}

/// What to do next while a pipeline is being started.
#[derive(Clone, Copy, Debug, PartialEq, Eq, Structural)]
pub enum LaunchStep {
    /// Start the stage with this index.
    Spawn(usize),
    /// Every stage runs: read the output of the stage with this index.
    Ready(usize),
    /// Give up: stop the stages with an index below `kill`, all of which
    /// run, and report `failure`.
    Abort { kill: usize, failure: Failure },
}

/// The next step for a pipeline of `total` stages of which the first
/// `started` run, where `spawn_failed` says that the stage after them could
/// not be started.
pub open spec fn launch_step(total: nat, started: nat, spawn_failed: bool) -> LaunchStep {
    if total == 0 {
        LaunchStep::Abort { kill: 0, failure: Failure::BadCommand }
    } else if spawn_failed {
        LaunchStep::Abort {
            kill: (if started <= total {
                started
            } else {
                total
            }) as usize,
            failure: Failure::SpawnFailure,
        }
    } else if started >= total {
        LaunchStep::Ready((total - 1) as usize)
    } else {
        LaunchStep::Spawn(started as usize)
    }
}

/// Decides the next step of a launch. Stages are started in order; once
/// one fails, every stage that runs is stopped, so that none is left behind.
pub fn next_launch_step(total: usize, started: usize, spawn_failed: bool) -> (step: LaunchStep)
    ensures
        step == launch_step(total as nat, started as nat, spawn_failed),
{
    if total == 0 {
        LaunchStep::Abort { kill: 0, failure: Failure::BadCommand }
    } else if spawn_failed {
        LaunchStep::Abort {
            kill: if started <= total {
                started
            } else {
                total
            },
            failure: Failure::SpawnFailure,
        }
    } else if started >= total {
        LaunchStep::Ready(total - 1)
    } else {
        LaunchStep::Spawn(started)
    }
}

/// A pipeline that was started, and whether its processes were told to
/// stop yet.
#[derive(Clone, Copy, Debug, PartialEq, Eq, Structural)]
pub struct Pipeline {
    /// The number of stages, each a process.
    pub stages: usize,
    /// Whether the processes are still to be stopped.
    pub live: bool,
}

impl Pipeline {
    /// A pipeline of `stages` running stages.
    pub fn new(stages: usize) -> (pipeline: Pipeline)
        ensures
            pipeline == (Pipeline { stages, live: true }),
    {
        Pipeline { stages, live: true }
    }

    /// Tears the pipeline down: returns the number of stages to stop, from
    /// the first on. That is every stage the first time and none after it,
    /// so that a pipeline is stopped once, on cancellation or at the end of
    /// its output, whichever comes first.
    pub fn teardown(&mut self) -> (kill: usize)
        ensures
            kill == if old(self).live {
                old(self).stages
            } else {
                0
            },
            *final(self) == (Pipeline { stages: old(self).stages, live: false }),
    {
        if self.live {
            self.live = false;
            self.stages
        } else {
            0
        }
    }
}

} // verus!
