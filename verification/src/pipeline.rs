//! Linear pipelines of graph programs: configuration checks, the wiring plan
//! that connects consecutive stages, and the supervision decisions that pick
//! which failure a pipeline reports.

use vstd::prelude::*;
use vstd::string::*;

use crate::lister::{ListerConfig, ListerError, validation_result};

verus! {

/// A program that can take part in a linear graph pipeline. The trait is
/// sealed: only the configured runner types implement it.
pub trait Sealed {}

/// A built-in program that can participate in a linear graph pipeline.
pub trait PipelineProgram: Sealed {}

/// A program whose output can supply a graph consumer's stdin.
pub trait GraphProducer: PipelineProgram {}

/// A program accepting JSONL graph input from a preceding stage.
pub trait GraphConsumer: PipelineProgram {}

/// The message for a graph format other than `jsonl`.
pub open spec fn format_message(option: Seq<char>, format: Seq<char>) -> Seq<char> {
    "pipeline graph "@ + option + " format must be jsonl, got "@ + format
}

/// A set format that is not `jsonl`.
pub open spec fn not_jsonl(format: Option<&str>) -> bool {
    format matches Some(f) && f@ != "jsonl"@
}

/// Checks explicit graph formats at a pipeline edge: each must be `jsonl` or
/// unset; the input format is checked first.
pub fn graph_formats(input: Option<&str>, output: Option<&str>) -> (r: Option<String>)
    ensures
        not_jsonl(input) ==> (r matches Some(m) && m@ == format_message("input"@, input->Some_0@)),
        !not_jsonl(input) && not_jsonl(output) ==> (r matches Some(m) && m@ == format_message(
            "output"@,
            output->Some_0@,
        )),
        !not_jsonl(input) && !not_jsonl(output) ==> r is None,
{
    match input {
        Some(f) => {
            if !text_eq(f, "jsonl") {
                return Some(format_error("input", f));
            }
        },
        None => {},
    }
    match output {
        Some(f) => {
            if !text_eq(f, "jsonl") {
                return Some(format_error("output", f));
            }
        },
        None => {},
    }
    None
}

/// Compares two texts character by character.
pub fn text_eq(a: &str, b: &str) -> (r: bool)
    ensures
        r == (a@ == b@),
{
    let x = a.as_bytes();
    let y = b.as_bytes();
    proof {
        vstd::utf8::encode_utf8_decode_utf8(a@);
        vstd::utf8::encode_utf8_decode_utf8(b@);
    }
    if x.len() != y.len() {
        return false;
    }
    let n = x.len();
    let mut i: usize = 0;
    while i < n
        invariant
            i <= n,
            n == x@.len(),
            n == y@.len(),
            x@ == a.spec_bytes(),
            y@ == b.spec_bytes(),
            x@.take(i as int) == y@.take(i as int),
        decreases n - i,
    {
        if x[i] != y[i] {
            assert(x@ != y@);
            return false;
        }
        assert(x@.take(i + 1) =~= x@.take(i as int).push(x@[i as int]));
        assert(y@.take(i + 1) =~= y@.take(i as int).push(y@[i as int]));
        i = i + 1;
    }
    assert(x@ =~= x@.take(n as int));
    assert(y@ =~= y@.take(n as int));
    true
}

fn format_error(option: &str, format: &str) -> (r: String)
    ensures
        r@ == format_message(option@, format@),
{
    let mut s = String::from_str("pipeline graph ");
    s.append(option);
    s.append(" format must be jsonl, got ");
    s.append(format);
    s
}

/// A stage's configuration error, detected before anything starts.
#[derive(Debug)]
pub enum StageConfigError {
    /// The lister rejects its pagination or options.
    Lister(ListerError),
    /// A graph format is not `jsonl`; the message says which.
    Format(String),
}

/// What the pipeline learns about a lister stage: its configuration error, if
/// any (validation first, then the output format), and whether its limit
/// makes it a capped source relayed through the runner.
pub fn lister_stage(config: &ListerConfig) -> (r: (Option<StageConfigError>, bool))
    ensures
        !validation_result(config.options, config.capabilities, Ok(())) ==> (r.0 matches Some(
            StageConfigError::Lister(e),
        ) && validation_result(config.options, config.capabilities, Err(e))),
        validation_result(config.options, config.capabilities, Ok(())) ==> (r.0 is None
            <==> !(config.options.output matches Some(f) && f@ != "jsonl"@)),
        validation_result(config.options, config.capabilities, Ok(())) && (
        config.options.output matches Some(f) && f@ != "jsonl"@) ==> (r.0 matches Some(
            StageConfigError::Format(m),
        ) && m@ == format_message("output"@, config.options.output->Some_0@)),
        r.1 == config.options.limit is Some,
{
    let error = match config.validate() {
        Err(e) => Some(StageConfigError::Lister(e)),
        Ok(()) => {
            let output = match &config.options.output {
                Some(s) => Some(s.as_str()),
                None => None,
            };
            match graph_formats(None, output) {
                Some(m) => Some(StageConfigError::Format(m)),
                None => None,
            }
        },
    };
    (error, config.options.limit.is_some())
}

/// What the pipeline checks of one configured stage.
pub struct StageCheck<E> {
    /// A configuration error found when the stage was built.
    pub error: Option<E>,
    /// The stage supplies its own input (only the first stage may).
    pub external_input: bool,
    /// The stage forwards stdout to a writer (only the last stage may).
    pub external_writer: bool,
}

/// Why a stage cannot run in a pipeline.
pub enum StageFault<E> {
    /// The stage's own configuration error.
    Configuration(E),
    /// A piped stage supplies external input.
    ExternalInput,
    /// An intermediate stage forwards stdout to a writer.
    IntermediateWriter,
}

/// A stage at `index` of `n` is misconfigured.
pub open spec fn stage_faulty<E>(s: StageCheck<E>, index: int, n: int) -> bool {
    s.error is Some || (index != 0 && s.external_input) || (index + 1 != n && s.external_writer)
}

/// The fault reported for a faulty stage: its own error first, then external
/// input, then an intermediate writer.
pub open spec fn stage_fault<E>(s: StageCheck<E>, index: int, f: StageFault<E>) -> bool {
    match s.error {
        Some(e) => f == StageFault::<E>::Configuration(e),
        None => if index != 0 && s.external_input {
            f is ExternalInput
        } else {
            f is IntermediateWriter
        },
    }
}

/// The message of a wiring fault.
pub open spec fn wiring_message<E>(f: StageFault<E>) -> Seq<char> {
    match f {
        StageFault::ExternalInput => "piped stages must use Input::Ignored; their input comes from the preceding stage"@,
        StageFault::IntermediateWriter => "an intermediate pipeline stage cannot also forward stdout to an AsyncWrite destination"@,
        StageFault::Configuration(_) => Seq::empty(),
    }
}

impl<E> StageFault<E> {
    /// The message of a wiring fault; a configuration error carries its own.
    pub fn wiring_message(&self) -> (r: Option<String>)
        ensures
            *self is Configuration <==> r is None,
            r matches Some(m) ==> m@ == wiring_message(*self),
    {
        match self {
            StageFault::Configuration(_) => None,
            StageFault::ExternalInput => Some(String::from_str(
                "piped stages must use Input::Ignored; their input comes from the preceding stage",
            )),
            StageFault::IntermediateWriter => Some(String::from_str(
                "an intermediate pipeline stage cannot also forward stdout to an AsyncWrite destination",
            )),
        }
    }
}

/// Validates the whole chain before any process starts: the first faulty
/// stage, in construction order, is reported with its zero-based index.
pub fn validate_stages<E>(stages: Vec<StageCheck<E>>) -> (r: Result<(), (usize, StageFault<E>)>)
    ensures
        match r {
            Ok(()) => forall|i: int|
                0 <= i < stages@.len() ==> !stage_faulty(#[trigger] stages@[i], i, stages@.len() as int),
            Err((index, fault)) => {
                &&& index < stages@.len()
                &&& stage_faulty(stages@[index as int], index as int, stages@.len() as int)
                &&& stage_fault(stages@[index as int], index as int, fault)
                &&& forall|j: int|
                    0 <= j < index ==> !stage_faulty(#[trigger] stages@[j], j, stages@.len() as int)
            },
        },
{
    let ghost all = stages@;
    let n = stages.len();
    let mut index: usize = 0;
    for stage in it: stages
        invariant
            it.seq() == all,
            n == all.len(),
            index == it.index(),
            forall|j: int| 0 <= j < index ==> !stage_faulty(#[trigger] all[j], j, n as int),
    {
        let ghost s = stage;
        assert(s == all[index as int]);
        match stage.error {
            Some(e) => {
                return Err((index, StageFault::Configuration(e)));
            },
            None => {},
        }
        if index != 0 && stage.external_input {
            return Err((index, StageFault::ExternalInput));
        }
        if index + 1 != n && stage.external_writer {
            return Err((index, StageFault::IntermediateWriter));
        }
        index = index + 1;
    }
    Ok(())
}

/// How one native stage is connected.
#[derive(Clone, Copy, Debug, PartialEq, Eq, Structural)]
pub struct StageWiring {
    /// The stage's zero-based index in the pipeline.
    pub index: usize,
    /// Stdin is the read end of a pipe from the preceding native stage.
    pub stdin_from_pipe: bool,
    /// Stdin receives the capped lister's lines through the runner.
    pub stdin_from_relay: bool,
    /// Stdout is the write end of a pipe to the next native stage.
    pub stdout_to_pipe: bool,
    /// The stage's own output policy is kept (only for the last stage);
    /// otherwise it is replaced by `Ignored`.
    pub keeps_output: bool,
}

/// How a pipeline of `n` stages is connected.
pub struct PipelinePlan {
    /// The first stage is a capped lister run by the runner itself.
    pub relayed_source: bool,
    /// The wiring of each native (process) stage, in order.
    pub native: Vec<StageWiring>,
}

/// Consecutive native stages are joined by a pipe and nothing else is: a
/// stage pipes its stdout exactly when another stage follows it, the next
/// stage reads that pipe, only the last stage keeps its own output policy,
/// indexes count every stage, and a relayed source feeds the first native stage.
pub open spec fn pipes_connect(native: Seq<StageWiring>, n: int, relayed: bool) -> bool {
    &&& forall|k: int| 0 <= k < native.len() ==> (#[trigger] native[k]).index == k + n - native.len()
    &&& forall|k: int|
        0 <= k < native.len() ==> (#[trigger] native[k]).stdout_to_pipe == (k + 1 < native.len())
    &&& forall|k: int| 0 <= k < native.len() ==> (#[trigger] native[k]).keeps_output == !native[k].stdout_to_pipe
    &&& forall|k: int| 0 <= k < native.len() ==> (#[trigger] native[k]).stdin_from_pipe == (k > 0)
    &&& forall|k: int|
        0 <= k < native.len() ==> (#[trigger] native[k]).stdin_from_relay == (k == 0 && relayed)
}

/// The wiring of native stage `k` when `base` stages precede the native ones
/// (one for a relayed lister) in a pipeline of `n` stages.
pub open spec fn wiring_of(k: int, base: int, n: int) -> StageWiring {
    StageWiring {
        index: (k + base) as usize,
        stdin_from_pipe: k > 0,
        stdin_from_relay: k == 0 && base == 1,
        stdout_to_pipe: k + base + 1 < n,
        keeps_output: k + base + 1 == n,
    }
}

/// Plans the connections of `n` stages. With a capped lister first, the
/// runner reads its lines and relays them to the next stage (or returns them
/// when the lister is alone); every other edge is an OS pipe between
/// consecutive stages. Only the last stage keeps its output policy.
pub fn plan_pipeline(n: usize, capped_lister_first: bool) -> (r: PipelinePlan)
    requires
        n > 0,
    ensures
        r.relayed_source == capped_lister_first,
        r.native@.len() == n - (if capped_lister_first { 1int } else { 0int }),
        forall|k: int|
            0 <= k < r.native@.len() ==> #[trigger] r.native@[k] == wiring_of(
                k,
                if capped_lister_first { 1int } else { 0int },
                n as int,
            ),
        pipes_connect(r.native@, n as int, capped_lister_first),
{
    let base: usize = if capped_lister_first { 1 } else { 0 };
    let count = n - base;
    let mut native: Vec<StageWiring> = Vec::new();
    let mut k: usize = 0;
    while k < count
        invariant
            k <= count,
            count == n - base,
            base == (if capped_lister_first { 1int } else { 0int }),
            native@.len() == k,
            forall|j: int| 0 <= j < k ==> #[trigger] native@[j] == wiring_of(j, base as int, n as int),
        decreases count - k,
    {
        native.push(StageWiring {
            index: k + base,
            stdin_from_pipe: k > 0,
            stdin_from_relay: k == 0 && base == 1,
            stdout_to_pipe: k + base + 1 < n,
            keeps_output: k + base + 1 == n,
        });
        k = k + 1;
    }
    PipelinePlan { relayed_source: capped_lister_first, native }
}

/// The stage to which a failure is attributed: a failed input source of the
/// first native stage is the relayed lister's failure, not that stage's.
pub fn failure_stage(stage: usize, relay_source: Option<usize>, source_failed: bool) -> (r: usize)
    ensures
        r == if source_failed && relay_source is Some {
            relay_source->Some_0
        } else {
            stage
        },
{
    if source_failed {
        match relay_source {
            Some(s) => s,
            None => stage,
        }
    } else {
        stage
    }
}

/// Picks the stage outcome to take next among those ready: the most
/// downstream one, so that when several outcomes are ready at once a
/// downstream failure is preferred.
pub fn pick_ready(ready: &Vec<bool>) -> (r: Option<usize>)
    ensures
        match r {
            Some(i) => i < ready@.len() && ready@[i as int] && forall|j: int|
                i < j < ready@.len() ==> !ready@[j],
            None => forall|j: int| 0 <= j < ready@.len() ==> !ready@[j],
        },
{
    let mut i = ready.len();
    while i > 0
        invariant
            i <= ready@.len(),
            forall|j: int| i <= j < ready@.len() ==> !ready@[j],
        decreases i,
    {
        if ready[i - 1] {
            return Some(i - 1);
        }
        i = i - 1;
    }
    None
}

/// The supervision state of a running pipeline: the first failure observed,
/// whether the remaining stages were asked to stop, and the last stage's
/// output.
pub struct Supervisor<F> {
    stages: usize,
    failure: Option<F>,
    stop_requested: bool,
    output: Vec<u8>,
}

impl<F> Supervisor<F> {
    /// The number of stages supervised.
    pub closed spec fn stage_count(self) -> nat {
        self.stages as nat
    }

    /// The failure that will be reported.
    pub closed spec fn failure(self) -> Option<F> {
        self.failure
    }

    /// Whether the remaining stages were asked to stop.
    pub closed spec fn stopping(self) -> bool {
        self.stop_requested
    }

    /// The last stage's output so far.
    pub closed spec fn tail_output(self) -> Seq<u8> {
        self.output@
    }

    /// Supervises `stages` stages, none finished yet.
    pub fn new(stages: usize) -> (r: Self)
        ensures
            r.stage_count() == stages,
            r.failure() is None,
            !r.stopping(),
            r.tail_output() == Seq::<u8>::empty(),
    {
        Supervisor { stages, failure: None, stop_requested: false, output: Vec::new() }
    }

    /// Whether stopping was requested.
    pub fn stop_requested(&self) -> (r: bool)
        ensures
            r == self.stopping(),
    {
        self.stop_requested
    }

    /// Records one stage's outcome. The last stage's successful output is
    /// kept; the first failure is kept and stops the other stages; later
    /// failures (often caused by that stop) are ignored.
    pub fn record(&mut self, index: usize, outcome: Result<Vec<u8>, F>)
        ensures
            final(self).stage_count() == old(self).stage_count(),
            match outcome {
                Ok(bytes) => {
                    &&& final(self).failure() == old(self).failure()
                    &&& final(self).stopping() == old(self).stopping()
                    &&& final(self).tail_output() == if index + 1 == old(self).stage_count() {
                        bytes@
                    } else {
                        old(self).tail_output()
                    }
                },
                Err(e) => {
                    &&& final(self).failure() == if old(self).failure() is None {
                        Some(e)
                    } else {
                        old(self).failure()
                    }
                    &&& final(self).stopping() == (old(self).stopping() || old(self).failure() is None)
                    &&& final(self).tail_output() == old(self).tail_output()
                },
            },
    {
        match outcome {
            Ok(bytes) => {
                if index < self.stages && index + 1 == self.stages {
                    self.output = bytes;
                }
            },
            Err(e) => {
                if self.failure.is_none() {
                    self.failure = Some(e);
                    self.stop_requested = true;
                }
            },
        }
    }

    /// Ends supervision: the first failure, or the last stage's output.
    pub fn finish(self) -> (r: Result<Vec<u8>, F>)
        ensures
            match self.failure() {
                Some(e) => r == Err::<Vec<u8>, F>(e),
                None => r matches Ok(out) && out@ == self.tail_output(),
            },
    {
        match self.failure {
            Some(e) => Err(e),
            None => Ok(self.output),
        }
    }
}

/// What happened while streaming the last stage's lines.
pub enum TailEvent<L, E> {
    /// Every stage finished: `Ok` when all succeeded, else the reported failure.
    StagesDone(Result<(), E>),
    /// The next line of the last stage's output.
    Line(L),
    /// Reading the last stage's output failed.
    ReadError(E),
    /// The last stage's output ended.
    End,
}

/// What the stream does next.
pub enum TailAction<L, E> {
    /// Keep reading; nothing to yield.
    Continue,
    /// Yield this line.
    Yield(L),
    /// Stop the other stages, wait for them, then fail with this error.
    CancelAndFail(E),
    /// Fail with this error.
    Fail(E),
    /// Output ended; wait for the stages unless they are already done.
    Finish { wait: bool },
}

/// The tail of a running pipeline: whether every stage has finished.
pub struct TailState {
    /// Every stage has finished successfully.
    pub completed: bool,
}

impl TailState {
    /// Decides the response to one event. Lines are yielded as they arrive;
    /// completion is only noted (and is not awaited again); a stage failure
    /// fails the stream; a read error stops the stages first; at the end the
    /// stages are awaited if they have not finished yet.
    pub fn step<L, E>(&mut self, event: TailEvent<L, E>) -> (r: TailAction<L, E>)
        ensures
            match event {
                TailEvent::StagesDone(Ok(())) => final(self).completed && r is Continue,
                TailEvent::StagesDone(Err(e)) => r == TailAction::<L, E>::Fail(e)
                    && final(self).completed,
                TailEvent::Line(l) => r == TailAction::<L, E>::Yield(l) && final(self).completed
                    == old(self).completed,
                TailEvent::ReadError(e) => r == TailAction::<L, E>::CancelAndFail(e)
                    && final(self).completed == old(self).completed,
                TailEvent::End => r == TailAction::<L, E>::Finish { wait: !old(self).completed }
                    && final(self).completed == old(self).completed,
            },
    {
        match event {
            TailEvent::StagesDone(result) => {
                self.completed = true;
                match result {
                    Ok(()) => TailAction::Continue,
                    Err(e) => TailAction::Fail(e),
                }
            },
            TailEvent::Line(l) => TailAction::Yield(l),
            TailEvent::ReadError(e) => TailAction::CancelAndFail(e),
            TailEvent::End => TailAction::Finish { wait: !self.completed },
        }
    }
}

/// Planning joins every native stage to the next by a pipe: the pipe a stage
/// writes is the one the following stage reads, the last stage writes none and
/// keeps its output policy, and a relayed lister is never one of them.
pub proof fn lemma_plan_joins_consecutive_stages(n: int, relayed: bool, native: Seq<StageWiring>)
    requires
        pipes_connect(native, n, relayed),
        native.len() > 0,
    ensures
        forall|k: int| 0 <= k < native.len() - 1 ==> (#[trigger] native[k]).stdout_to_pipe && native[k + 1].stdin_from_pipe,
        !native.last().stdout_to_pipe && native.last().keeps_output,
        native.last().index + 1 == n,
        forall|k: int| 0 <= k < native.len() ==> !((#[trigger] native[k]).stdout_to_pipe && native[k].keeps_output),
{
    assert(native.last() == native[native.len() - 1]);
}

} // verus!
