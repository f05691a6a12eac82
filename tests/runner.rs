use batch_run::interpreter::Language;
use batch_run::runner::{BatchRun, Effect, Event, Outcome, Phase, RunError, Stage};

fn args(v: &[&str]) -> Vec<String> {
    v.iter().map(|s| s.to_string()).collect()
}

/// Drives a run in which every step succeeds and the process exits with
/// `code`; returns the lines written and the final effect.
fn drive_ok(run: &mut BatchRun, code: Option<i32>) -> (Vec<String>, Effect) {
    let mut written = Vec::new();
    let mut eff = run.on_event(Event::Start);
    loop {
        let ev = match eff {
            Effect::CreatePipe => Event::PipeCreated,
            Effect::Spawn(_) => Event::Spawned,
            Effect::Write(t) => {
                written.push(t);
                Event::Written
            }
            Effect::Flush => Event::Flushed,
            Effect::CloseAndWait => Event::Exited(code),
            other => return (written, other),
        };
        eff = run.on_event(ev);
    }
}

#[test]
fn sh_scenario_writes_two_records_then_completes() {
    let mut run = BatchRun::new("while read l; do echo $l; done", Language::Sh, args(&["a", "bb"]));
    assert!(matches!(run.on_event(Event::Start), Effect::CreatePipe));
    match run.on_event(Event::PipeCreated) {
        Effect::Spawn(inv) => {
            assert_eq!(inv.program, "/usr/bin/sh");
            assert_eq!(inv.args, args(&["-c", "while read l; do echo $l; done", "batch-script-sh"]));
        }
        _ => panic!("expected a spawn"),
    }
    match run.on_event(Event::Spawned) {
        Effect::Write(t) => assert_eq!(t, "{\"line\":\"a\",\"idx\":0,\"len\":1,\"reversed\":\"a\"}\n"),
        _ => panic!("expected the first record"),
    }
    match run.on_event(Event::Written) {
        Effect::Write(t) => assert_eq!(t, "{\"line\":\"bb\",\"idx\":1,\"len\":2,\"reversed\":\"bb\"}\n"),
        _ => panic!("expected the second record"),
    }
    assert!(matches!(run.on_event(Event::Written), Effect::Flush));
    assert!(matches!(run.on_event(Event::Flushed), Effect::CloseAndWait));
    assert!(matches!(run.on_event(Event::Exited(Some(0))), Effect::Finish(Outcome::Completed(Some(0)))));
    assert_eq!(run.phase, Phase::Finished);
}

#[test]
fn records_follow_input_order() {
    let input = args(&["x", "yy", "", "zzz", "€"]);
    let mut run = BatchRun::new("cat", Language::Bash, input.clone());
    let (written, last) = drive_ok(&mut run, Some(3));
    assert!(matches!(last, Effect::Finish(Outcome::Completed(Some(3)))));
    assert_eq!(written.len(), input.len());
    for (i, line) in written.iter().enumerate() {
        assert!(line.contains(&format!("\"idx\":{},", i)));
        assert!(line.starts_with(&format!("{{\"line\":\"{}\"", input[i])));
    }
}

#[test]
fn no_arguments_flushes_right_after_spawn() {
    let mut run = BatchRun::new("true", Language::Zsh, Vec::new());
    let (written, last) = drive_ok(&mut run, Some(0));
    assert!(written.is_empty());
    assert!(matches!(last, Effect::Finish(Outcome::Completed(Some(0)))));
}

#[test]
fn missing_interpreter_fails_at_spawning_before_any_write() {
    let mut run = BatchRun::new("print(1)", Language::Python, args(&["a"]));
    assert!(matches!(run.on_event(Event::Start), Effect::CreatePipe));
    match run.on_event(Event::PipeCreated) {
        Effect::Spawn(inv) => assert_eq!(inv.program, "/usr/bin/python"),
        _ => panic!("expected a spawn"),
    }
    match run.on_event(Event::SpawnFailed("No such file or directory".to_string())) {
        Effect::Finish(Outcome::Failed(e)) => {
            assert_eq!(e.stage(), Stage::Spawning);
            assert!(matches!(e, RunError::Spawn(ref d) if d == "No such file or directory"));
        }
        _ => panic!("expected a spawn failure"),
    }
    assert_eq!(run.phase, Phase::Finished);
    assert!(matches!(run.on_event(Event::Written), Effect::Nothing));
}

#[test]
fn pipe_failure_aborts_before_spawn() {
    let mut run = BatchRun::new("cat", Language::Sh, args(&["a"]));
    run.on_event(Event::Start);
    match run.on_event(Event::PipeFailed("too many open files".to_string())) {
        Effect::Finish(Outcome::Failed(e)) => {
            assert_eq!(e.stage(), Stage::Spawning);
            assert!(matches!(e, RunError::ChannelCreation(_)));
        }
        _ => panic!("expected a pipe failure"),
    }
}

#[test]
fn write_failure_stops_streaming() {
    let mut run = BatchRun::new("exit 0", Language::Sh, args(&["a", "b", "c"]));
    run.on_event(Event::Start);
    run.on_event(Event::PipeCreated);
    assert!(matches!(run.on_event(Event::Spawned), Effect::Write(_)));
    match run.on_event(Event::WriteFailed("Broken pipe".to_string())) {
        Effect::Finish(Outcome::Failed(e)) => {
            assert_eq!(e.stage(), Stage::Streaming);
            assert!(matches!(e, RunError::Write(_)));
        }
        _ => panic!("expected a write failure"),
    }
    assert!(matches!(run.on_event(Event::Written), Effect::Nothing));
}

#[test]
fn flush_failure_is_reported() {
    let mut run = BatchRun::new("cat", Language::Sh, Vec::new());
    run.on_event(Event::Start);
    run.on_event(Event::PipeCreated);
    assert!(matches!(run.on_event(Event::Spawned), Effect::Flush));
    match run.on_event(Event::FlushFailed("io".to_string())) {
        Effect::Finish(Outcome::Failed(e)) => assert_eq!(e.stage(), Stage::Draining),
        _ => panic!("expected a flush failure"),
    }
}

#[test]
fn wait_failure_is_reported() {
    let mut run = BatchRun::new("cat", Language::Sh, Vec::new());
    run.on_event(Event::Start);
    run.on_event(Event::PipeCreated);
    run.on_event(Event::Spawned);
    assert!(matches!(run.on_event(Event::Flushed), Effect::CloseAndWait));
    match run.on_event(Event::WaitFailed("interrupted".to_string())) {
        Effect::Finish(Outcome::Failed(e)) => {
            assert_eq!(e.stage(), Stage::Awaiting);
            assert!(matches!(e, RunError::Wait(_)));
        }
        _ => panic!("expected a wait failure"),
    }
}

#[test]
fn out_of_order_event_changes_nothing() {
    let mut run = BatchRun::new("cat", Language::Bash, args(&["a"]));
    assert!(matches!(run.on_event(Event::Flushed), Effect::Nothing));
    assert_eq!(run.phase, Phase::Ready);
    assert_eq!(run.next, 0);
}

#[test]
fn signal_exit_completes_without_code() {
    let mut run = BatchRun::new("kill -9 $$", Language::Bash, Vec::new());
    let (_, last) = drive_ok(&mut run, None);
    assert!(matches!(last, Effect::Finish(Outcome::Completed(None))));
}

#[test]
fn two_runs_with_same_input_stream_the_same() {
    let input = args(&["one", "two", "three"]);
    let mut a = BatchRun::new("cat", Language::Sh, input.clone());
    let mut b = BatchRun::new("cat", Language::Sh, input);
    let (wa, _) = drive_ok(&mut a, Some(0));
    let (wb, _) = drive_ok(&mut b, Some(1));
    assert_eq!(wa, wb);
}

#[test]
fn run_keeps_its_own_copy_of_the_script() {
    let mut script = String::from("echo one");
    let mut run = BatchRun::new(&script, Language::Sh, Vec::new());
    script.push_str("; echo two");
    run.on_event(Event::Start);
    match run.on_event(Event::PipeCreated) {
        Effect::Spawn(inv) => assert_eq!(inv.args[1], "echo one"),
        _ => panic!("expected a spawn"),
    }
}
