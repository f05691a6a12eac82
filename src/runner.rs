use vstd::prelude::*;
use crate::interpreter::{Language, Invocation, program_of, args_of};
use crate::record::{encode_line, record_line, single_line};

verus! {

/// The stages of a batch run, in the order they are passed through.
#[derive(Clone, Copy, Debug, PartialEq, Eq, Structural)]
pub enum Stage {
    Resolving,
    Spawning,
    Streaming,
    Draining,
    Awaiting,
}

/// A failure that ends a batch run, with the operating system's message.
#[derive(Debug)]
pub enum RunError {
    /// The pipe could not be created.
    ChannelCreation(String),
    /// The interpreter process could not be started.
    Spawn(String),
    /// A record or its line terminator could not be written.
    Write(String),
    /// Buffered output could not be flushed before closing the pipe.
    Flush(String),
    /// The process's termination could not be observed.
    Wait(String),
}

impl RunError {
    pub open spec fn spec_stage(&self) -> Stage {
        match self {
            RunError::ChannelCreation(_) => Stage::Spawning,
            RunError::Spawn(_) => Stage::Spawning,
            RunError::Write(_) => Stage::Streaming,
            RunError::Flush(_) => Stage::Draining,
            RunError::Wait(_) => Stage::Awaiting,
        }
    }

    /// The stage at which this failure occurred.
    pub fn stage(&self) -> (r: Stage)
        ensures
            r == self.spec_stage(),
    {
        match self {
            RunError::ChannelCreation(_) => Stage::Spawning,
            RunError::Spawn(_) => Stage::Spawning,
            RunError::Write(_) => Stage::Streaming,
            RunError::Flush(_) => Stage::Draining,
            RunError::Wait(_) => Stage::Awaiting,
        }
    }
}

/// How a batch run ended: the process's exit code (`None` when a signal ended
/// it), or the failure that stopped the run.
#[derive(Debug)]
pub enum Outcome {
    Completed(Option<i32>),
    Failed(RunError),
}

/// What the caller observed after carrying out the last effect.
#[derive(Debug)]
pub enum Event {
    /// Begin the run.
    Start,
    PipeCreated,
    PipeFailed(String),
    Spawned,
    SpawnFailed(String),
    /// The last record line was written in full.
    Written,
    WriteFailed(String),
    Flushed,
    FlushFailed(String),
    Exited(Option<i32>),
    WaitFailed(String),
}

/// What the caller is asked to do next.
pub enum Effect {
    /// Create an anonymous pipe.
    CreatePipe,
    /// Start the process with the pipe's read end as its standard input.
    Spawn(Invocation),
    /// Write these bytes to the pipe's write end.
    Write(String),
    /// Flush the pipe's write end.
    Flush,
    /// Close the pipe's write end, then wait for the process to exit.
    CloseAndWait,
    /// The run is over.
    Finish(Outcome),
    /// The event did not fit the run's phase; nothing to do.
    Nothing,
}

/// Where a batch run stands.
#[derive(Clone, Copy, Debug, PartialEq, Eq, Structural)]
pub enum Phase {
    /// Created, not started.
    Ready,
    /// Waiting for the pipe.
    Piping,
    /// Waiting for the process to start.
    Spawning,
    /// Waiting for the write of record `next`.
    Streaming,
    /// Waiting for the flush.
    Draining,
    /// Waiting for the process to exit.
    Awaiting,
    Finished,
}

/// One execution of a script under an interpreter, fed one record per
/// argument. The caller performs each effect and reports the event.
pub struct BatchRun {
    pub script: String,
    pub language: Language,
    pub args: Vec<String>,
    pub phase: Phase,
    /// The position of the record being written; the number of arguments
    /// once all were written.
    pub next: usize,
}

/// The script, interpreter and arguments of the two runs agree.
pub open spec fn same_input(a: BatchRun, b: BatchRun) -> bool {
    a.script@ == b.script@ && a.language == b.language && a.args@ == b.args@
}

pub open spec fn ends_with(post: BatchRun, eff: Effect, outcome: Outcome) -> bool {
    post.phase == Phase::Finished && eff == Effect::Finish(outcome)
}

/// The step that follows once records `0..k` were written: the record at `k`
/// while one is left, else the flush.
pub open spec fn emits_record(args: Seq<String>, k: nat, post: BatchRun, eff: Effect) -> bool {
    if k < args.len() {
        &&& post.phase == Phase::Streaming
        &&& post.next == k
        &&& (eff matches Effect::Write(t) && t@ == record_line(args[k as int]@, k) && single_line(
            t@,
        ))
    } else {
        post.phase == Phase::Draining && post.next == k && eff == Effect::Flush
    }
}

/// One step of a batch run: from `pre`, on `ev`, to `post`, asking for `eff`.
pub open spec fn transition(pre: BatchRun, ev: Event, post: BatchRun, eff: Effect) -> bool {
    &&& same_input(pre, post)
    &&& match (pre.phase, ev) {
        (Phase::Ready, Event::Start) => post.phase == Phase::Piping && post.next == 0 && eff
            == Effect::CreatePipe,
        (Phase::Piping, Event::PipeCreated) => {
            &&& post.phase == Phase::Spawning
            &&& post.next == 0
            &&& (eff matches Effect::Spawn(inv) && inv.program@ == program_of(pre.language)
                && inv.args_view() == args_of(pre.language, pre.script@))
        },
        (Phase::Piping, Event::PipeFailed(d)) => ends_with(
            post,
            eff,
            Outcome::Failed(RunError::ChannelCreation(d)),
        ),
        (Phase::Spawning, Event::Spawned) => emits_record(pre.args@, 0, post, eff),
        (Phase::Spawning, Event::SpawnFailed(d)) => ends_with(
            post,
            eff,
            Outcome::Failed(RunError::Spawn(d)),
        ),
        (Phase::Streaming, Event::Written) => emits_record(
            pre.args@,
            (pre.next + 1) as nat,
            post,
            eff,
        ),
        (Phase::Streaming, Event::WriteFailed(d)) => ends_with(
            post,
            eff,
            Outcome::Failed(RunError::Write(d)),
        ),
        (Phase::Draining, Event::Flushed) => post.phase == Phase::Awaiting && post.next
            == pre.next && eff == Effect::CloseAndWait,
        (Phase::Draining, Event::FlushFailed(d)) => ends_with(
            post,
            eff,
            Outcome::Failed(RunError::Flush(d)),
        ),
        (Phase::Awaiting, Event::Exited(c)) => ends_with(post, eff, Outcome::Completed(c)),
        (Phase::Awaiting, Event::WaitFailed(d)) => ends_with(
            post,
            eff,
            Outcome::Failed(RunError::Wait(d)),
        ),
        _ => post == pre && eff == Effect::Nothing,
    }
}

impl BatchRun {
    /// The position counter stays within the arguments.
    pub open spec fn wf(&self) -> bool {
        &&& self.next <= self.args@.len()
        &&& self.phase == Phase::Streaming ==> self.next < self.args@.len()
        &&& (self.phase == Phase::Ready || self.phase == Phase::Piping || self.phase
            == Phase::Spawning) ==> self.next == 0
    }

    /// A run of `script` under `language` that will feed it `args`; the
    /// script text is copied, so later edits do not reach the run.
    pub fn new(script: &str, language: Language, args: Vec<String>) -> (r: BatchRun)
        ensures
            r.script@ == script@,
            r.language == language,
            r.args@ == args@,
            r.phase == Phase::Ready,
            r.next == 0,
            r.wf(),
    {
        BatchRun { script: script.to_owned(), language, args, phase: Phase::Ready, next: 0 }
    }

    /// Asks for the record at `k`, or for the flush once all were written.
    fn record_or_flush(&mut self, k: usize) -> (eff: Effect)
        requires
            old(self).wf(),
            k <= old(self).args@.len(),
        ensures
            same_input(*old(self), *final(self)),
            final(self).wf(),
            emits_record(old(self).args@, k as nat, *final(self), eff),
    {
        if k < self.args.len() {
            let t = encode_line(self.args[k].as_str(), k);
            self.phase = Phase::Streaming;
            self.next = k;
            Effect::Write(t)
        } else {
            self.phase = Phase::Draining;
            self.next = k;
            Effect::Flush
        }
    }

    /// Advances the run on `event` and returns what the caller must do next.
    pub fn on_event(&mut self, event: Event) -> (eff: Effect)
        requires
            old(self).wf(),
        ensures
            final(self).wf(),
            transition(*old(self), event, *final(self), eff),
    {
        match (self.phase, event) {
            (Phase::Ready, Event::Start) => {
                self.phase = Phase::Piping;
                Effect::CreatePipe
            },
            (Phase::Piping, Event::PipeCreated) => {
                self.phase = Phase::Spawning;
                Effect::Spawn(self.language.resolve(self.script.as_str()))
            },
            (Phase::Piping, Event::PipeFailed(d)) => {
                self.phase = Phase::Finished;
                Effect::Finish(Outcome::Failed(RunError::ChannelCreation(d)))
            },
            (Phase::Spawning, Event::Spawned) => self.record_or_flush(0),
            (Phase::Spawning, Event::SpawnFailed(d)) => {
                self.phase = Phase::Finished;
                Effect::Finish(Outcome::Failed(RunError::Spawn(d)))
            },
            (Phase::Streaming, Event::Written) => {
                assert(self.next < self.args.len());
                let k = self.next + 1;
                self.record_or_flush(k)
            },
            (Phase::Streaming, Event::WriteFailed(d)) => {
                self.phase = Phase::Finished;
                Effect::Finish(Outcome::Failed(RunError::Write(d)))
            },
            (Phase::Draining, Event::Flushed) => {
                self.phase = Phase::Awaiting;
                Effect::CloseAndWait
            },
            (Phase::Draining, Event::FlushFailed(d)) => {
                self.phase = Phase::Finished;
                Effect::Finish(Outcome::Failed(RunError::Flush(d)))
            },
            (Phase::Awaiting, Event::Exited(c)) => {
                self.phase = Phase::Finished;
                Effect::Finish(Outcome::Completed(c))
            },
            (Phase::Awaiting, Event::WaitFailed(d)) => {
                self.phase = Phase::Finished;
                Effect::Finish(Outcome::Failed(RunError::Wait(d)))
            },
            _ => Effect::Nothing,
        }
    }
}

/// The event reported before step `i` of a run over `n` arguments in which
/// every operation succeeds and the process exits with `code`.
pub open spec fn success_event(i: int, n: int, code: Option<i32>) -> Event {
    if i == 0 {
        Event::Start
    } else if i == 1 {
        Event::PipeCreated
    } else if i == 2 {
        Event::Spawned
    } else if i < n + 3 {
        Event::Written
    } else if i == n + 3 {
        Event::Flushed
    } else {
        Event::Exited(code)
    }
}

/// `runs` and `effs` trace a run from its start in which every operation
/// succeeds: `effs[i]` is what the run asked for on `success_event(i, ..)`.
pub open spec fn success_trace(runs: Seq<BatchRun>, effs: Seq<Effect>, code: Option<i32>) -> bool {
    &&& runs.len() == effs.len() + 1
    &&& effs.len() <= runs[0].args@.len() + 5
    &&& runs[0].phase == Phase::Ready
    &&& runs[0].wf()
    &&& forall|i: int|
        0 <= i < effs.len() ==> #[trigger] transition(
            runs[i],
            success_event(i, runs[0].args@.len() as int, code),
            runs[i + 1],
            effs[i],
        )
}

/// What a run of `run0`'s input in which everything succeeds asks for at
/// step `i`: the pipe, the process, the `N` record lines in input order, the
/// flush, closing and waiting, and last the completion with the exit code.
pub open spec fn success_step(run0: BatchRun, code: Option<i32>, i: int, post: BatchRun, eff: Effect) -> bool {
    let n = run0.args@.len() as int;
    if i == 0 {
        post.phase == Phase::Piping && eff == Effect::CreatePipe
    } else if i == 1 {
        &&& post.phase == Phase::Spawning
        &&& (eff matches Effect::Spawn(inv) && inv.program@ == program_of(run0.language)
            && inv.args_view() == args_of(run0.language, run0.script@))
    } else if i < n + 2 {
        &&& post.phase == Phase::Streaming
        &&& post.next == i - 2
        &&& (eff matches Effect::Write(t) && t@ == record_line(run0.args@[i - 2]@, (i - 2) as nat)
            && single_line(t@))
    } else if i == n + 2 {
        post.phase == Phase::Draining && eff == Effect::Flush
    } else if i == n + 3 {
        post.phase == Phase::Awaiting && eff == Effect::CloseAndWait
    } else {
        post.phase == Phase::Finished && eff == Effect::Finish(Outcome::Completed(code))
    }
}

proof fn lemma_success_step(runs: Seq<BatchRun>, effs: Seq<Effect>, code: Option<i32>, i: int)
    requires
        success_trace(runs, effs, code),
        0 <= i < effs.len(),
    ensures
        same_input(runs[0], runs[i + 1]),
        success_step(runs[0], code, i, runs[i + 1], effs[i]),
    decreases i,
{
    let n = runs[0].args@.len() as int;
    assert(transition(runs[i], success_event(i, n, code), runs[i + 1], effs[i]));
    if i > 0 {
        lemma_success_step(runs, effs, code, i - 1);
    }
}

/// A run in which every operation succeeds writes exactly one record line
/// per argument, in input order, the one at step `2 + k` carrying argument
/// `k` and position `k`; it then flushes, closes and waits, and completes
/// with the process's exit code after exactly `N + 5` steps.
pub proof fn lemma_success_run(runs: Seq<BatchRun>, effs: Seq<Effect>, code: Option<i32>)
    requires
        success_trace(runs, effs, code),
    ensures
        forall|i: int|
            0 <= i < effs.len() ==> success_step(runs[0], code, i, runs[i + 1], #[trigger] effs[i]),
        forall|i: int|
            0 <= i < effs.len() ==> (#[trigger] effs[i] is Write <==> 2 <= i < runs[0].args@.len()
                + 2),
        effs.len() == runs[0].args@.len() + 5 ==> effs.last() == Effect::Finish(
            Outcome::Completed(code),
        ),
{
    assert forall|i: int|
        0 <= i < effs.len() implies success_step(runs[0], code, i, runs[i + 1], #[trigger] effs[i]) by {
        lemma_success_step(runs, effs, code, i);
    }
    if effs.len() == runs[0].args@.len() + 5 {
        lemma_success_step(runs, effs, code, effs.len() - 1);
    }
}

/// Two runs with the same script, interpreter and arguments in which every
/// operation succeeds ask for the same invocation and write the same record
/// lines at the same steps; only their exit codes may differ.
pub proof fn lemma_same_input_same_stream(
    runs1: Seq<BatchRun>,
    effs1: Seq<Effect>,
    code1: Option<i32>,
    runs2: Seq<BatchRun>,
    effs2: Seq<Effect>,
    code2: Option<i32>,
)
    requires
        success_trace(runs1, effs1, code1),
        success_trace(runs2, effs2, code2),
        same_input(runs1[0], runs2[0]),
    ensures
        forall|i: int|
            0 <= i < effs1.len() && i < effs2.len() ==> (#[trigger] effs1[i] is Write
                <==> #[trigger] effs2[i] is Write),
        forall|i: int|
            0 <= i < effs1.len() && i < effs2.len() ==> (#[trigger] effs1[i] matches Effect::Write(
                t1,
            ) ==> (#[trigger] effs2[i] matches Effect::Write(t2) && t1@ == t2@)),
        forall|i: int|
            0 <= i < effs1.len() && i < effs2.len() ==> (#[trigger] effs1[i] matches Effect::Spawn(
                a,
            ) ==> (#[trigger] effs2[i] matches Effect::Spawn(b) && a.program@ == b.program@
                && a.args_view() == b.args_view())),
{
    lemma_success_run(runs1, effs1, code1);
    lemma_success_run(runs2, effs2, code2);
}

} // verus!
