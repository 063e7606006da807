use std::io::BufRead;
use std::io::BufReader;
use std::io::Read;

use subprocess::Popen;
use subprocess::PopenConfig;
use subprocess::Redirection;
use testy::next_launch_step;
use testy::reader_step;
use testy::report_failure;
use testy::Cli;
use testy::Failure;
use testy::LaunchStep;
use testy::Output;
use testy::Pipeline;
use testy::ReaderAction;
use testy::StageSpec;
use testy::State;
use testy::StdinSource;
use testy::Submission;
use testy::Supervisor;
use testy::Throttle;

fn spawn(stage: &StageSpec, started: &mut [Popen]) -> Option<Popen> {
    let stdin = match stage.stdin {
        StdinSource::Pipe => Redirection::Pipe,
        StdinSource::Stage(index) => Redirection::File(started[index].stdout.take()?),
    };
    Popen::create(
        &stage.argv,
        PopenConfig {
            stdin,
            stdout: Redirection::Pipe,
            stderr: if stage.merge_stderr { Redirection::Merge } else { Redirection::None },
            detached: stage.detached,
            ..PopenConfig::default()
        },
    )
    .ok()
}

fn stop(stages: &mut [Popen]) {
    for stage in stages.iter_mut() {
        let _ = stage.kill();
        let _ = stage.wait();
    }
}

fn launch(plan: &[StageSpec]) -> Result<(Vec<Popen>, Box<dyn Read>), Failure> {
    let mut started: Vec<Popen> = Vec::new();
    let mut spawn_failed = false;
    loop {
        match next_launch_step(plan.len(), started.len(), spawn_failed) {
            LaunchStep::Spawn(index) => match spawn(&plan[index], &mut started) {
                Some(process) => started.push(process),
                None => spawn_failed = true,
            },
            LaunchStep::Ready(index) => {
                let output = started[index].stdout.take().unwrap();
                return Ok((started, Box::new(output)));
            }
            LaunchStep::Abort { kill, failure } => {
                stop(&mut started[..kill]);
                return Err(failure);
            }
        }
    }
}

fn pump(output: Box<dyn Read>, cancelled: bool, state: &mut State, flags: &Cli) {
    let mut throttle = Throttle::new(0);
    let mut lines = BufReader::new(output).lines();
    let mut now: u64 = 0;
    loop {
        let read = match lines.next() {
            Some(Ok(line)) => Output::Line(line),
            Some(Err(_)) => Output::Failed,
            None => Output::End,
        };
        now += 1_000_000;
        match reader_step(read, cancelled, state, &mut throttle, flags, now) {
            ReaderAction::Continue { .. } => (),
            ReaderAction::Stop { .. } => return,
        }
    }
}

fn plan_of(submission: Submission) -> Vec<StageSpec> {
    match submission {
        Submission::Restart { plan, .. } => plan,
        Submission::Ignored => panic!("the command was ignored"),
    }
}

fn sh() -> Cli {
    Cli { no_scroll: false, shell: "sh".to_string(), scroll_speed: 3 }
}

fn run_to_the_end(command: &str, supervisor: &mut Supervisor, state: &mut State, flags: &Cli) {
    let plan = plan_of(supervisor.submit(command.to_string(), state, flags));
    let (mut stages, output) = launch(&plan).unwrap();
    let mut pipeline = Pipeline::new(stages.len());
    pump(output, false, state, flags);
    let kill = pipeline.teardown();
    stop(&mut stages[..kill]);
}

#[test]
fn echo_a_piped_through_tr_prints_b() {
    let flags = sh();
    let mut supervisor = Supervisor::new();
    let mut state = State::default();
    run_to_the_end("echo a | tr a b", &mut supervisor, &mut state, &flags);
    assert_eq!(state.text, vec!["b\n".to_string()]);
    assert_eq!(state.line, 1);
}

#[test]
fn three_stages_pass_their_output_along_unmodified() {
    let flags = sh();
    let mut supervisor = Supervisor::new();
    let mut state = State::default();
    run_to_the_end("printf 'x y\\nz\\n' | cat | cat", &mut supervisor, &mut state, &flags);
    assert_eq!(state.text, vec!["x y\n".to_string(), "z\n".to_string()]);
}

#[test]
fn error_output_is_merged_into_the_output() {
    let flags = sh();
    let mut supervisor = Supervisor::new();
    let mut state = State::default();
    run_to_the_end("echo oops 1>&2", &mut supervisor, &mut state, &flags);
    assert_eq!(state.text, vec!["oops\n".to_string()]);
}

#[test]
fn submitting_the_same_command_again_starts_nothing() {
    let flags = sh();
    let mut supervisor = Supervisor::new();
    let mut state = State::default();
    run_to_the_end("echo once", &mut supervisor, &mut state, &flags);
    assert_eq!(
        supervisor.submit(" echo once ".to_string(), &mut state, &flags),
        Submission::Ignored
    );
    assert_eq!(state.text, vec!["once\n".to_string()]);
}

#[test]
fn a_new_command_replaces_the_output_of_the_old() {
    let flags = sh();
    let mut supervisor = Supervisor::new();
    let mut state = State::default();
    run_to_the_end("echo one; echo two", &mut supervisor, &mut state, &flags);
    assert_eq!(state.text.len(), 2);
    run_to_the_end("echo three", &mut supervisor, &mut state, &flags);
    assert_eq!(state.text, vec!["three\n".to_string()]);
}

#[test]
fn done_never_appears_when_a_fast_command_follows_a_slow_one() {
    let flags = sh();
    let mut supervisor = Supervisor::new();
    let mut state = State::default();
    let slow = plan_of(supervisor.submit("sleep 5 && echo done".to_string(), &mut state, &flags));
    let (mut slow_stages, slow_output) = launch(&slow).unwrap();
    let mut slow_pipeline = Pipeline::new(slow_stages.len());

    let second = supervisor.submit("echo fast".to_string(), &mut state, &flags);
    assert!(matches!(second, Submission::Restart { cancel: Some(1), token: 2, .. }));
    let (mut fast_stages, fast_output) = launch(&plan_of(second)).unwrap();
    let mut fast_pipeline = Pipeline::new(fast_stages.len());
    pump(fast_output, false, &mut state, &flags);
    let kill = fast_pipeline.teardown();
    stop(&mut fast_stages[..kill]);

    pump(slow_output, true, &mut state, &flags);
    let kill = slow_pipeline.teardown();
    assert_eq!(kill, 1);
    stop(&mut slow_stages[..kill]);

    assert_eq!(state.text, vec!["fast\n".to_string()]);
}

#[test]
fn a_shell_that_does_not_exist_is_a_failure_to_start() {
    let flags = Cli {
        no_scroll: false,
        shell: "/nonexistent/shell-for-this-test".to_string(),
        scroll_speed: 3,
    };
    let mut supervisor = Supervisor::new();
    let mut state = State::default();
    let plan = plan_of(supervisor.submit("echo a | tr a b".to_string(), &mut state, &flags));
    let failure = launch(&plan).err();
    assert_eq!(failure, Some(Failure::SpawnFailure));
    report_failure(failure.unwrap(), false, &mut state, &flags);
    assert_eq!(state.text, vec!["bad command\n".to_string()]);
}

#[test]
fn a_later_stage_that_cannot_start_stops_the_stages_before_it() {
    let good = StageSpec {
        argv: vec!["sh".to_string(), "-c".to_string(), "sleep 30".to_string()],
        stdin: StdinSource::Pipe,
        merge_stderr: true,
        detached: true,
    };
    let bad = StageSpec {
        argv: vec!["/nonexistent/shell-for-this-test".to_string()],
        stdin: StdinSource::Stage(0),
        merge_stderr: true,
        detached: true,
    };
    let failure = launch(&[good, bad]).err();
    assert_eq!(failure, Some(Failure::SpawnFailure));
}
