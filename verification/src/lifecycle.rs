//! The pipeline of one execution as an explicit state machine: the verified
//! core decides, after each completed side effect, what happens next; the
//! unverified driver only performs the named action and reports how it went.
//! Every stage's failure routes through sandbox disposal, which happens
//! exactly once per execution once the sandbox exists.

use vstd::prelude::*;
use vstd::string::StringSliceAdditionalSpecFns;

use crate::output::ChildResults;
use crate::request::{
    is_empty_digest, Digest, ExecuteProcessRequest, ExecutionError,
    FallibleExecuteProcessResultWithPlatform, Platform,
};
use crate::snapshot::snapshot_plan;
use crate::timeout::{finalize_result, is_timeout_result};

verus! {

/// What the driver reports after performing an action.
#[derive(Debug, Clone, PartialEq, Eq)]
pub enum StepEvent {
    /// The filesystem or store action completed.
    Succeeded,
    /// The filesystem or store action failed, with the offending path and
    /// underlying error in the text.
    Failed(String),
    /// The executable could not be launched.
    SpawnFailed(String),
    /// Reading the child's output pipes failed.
    StreamFailed(String),
    /// The child ran to completion and its output was fully collected.
    ChildExited(ChildResults),
    /// The deadline elapsed before collection finished.
    DeadlineElapsed,
    /// The store produced the snapshot of the declared outputs.
    SnapshotBuilt(Digest),
}

/// Where one execution stands. States carrying data hold what later stages
/// need; `Disposing` holds the outcome that becomes final once the sandbox
/// is gone. The driver consumes each state as it steps.
#[derive(Debug)]
pub enum PipelineState {
    /// Awaiting creation of the temporary sandbox directory.
    CreatingSandbox,
    /// Awaiting materialization of the primary input tree.
    MaterializingInputs,
    /// Awaiting materialization of the local-only, speed-favored input
    /// tree, layered over the primary one.
    MaterializingLocalInputs,
    /// Awaiting the toolchain-home symlink and the pre-created parent
    /// directories of every declared output.
    PreparingWorkdir,
    /// Awaiting the child's collected output, under the deadline.
    Running,
    /// Awaiting the store's snapshot of the declared outputs.
    Snapshotting(ChildResults),
    /// Awaiting sandbox disposal: deletion, or preservation for
    /// inspection, as configured.
    Disposing(Result<FallibleExecuteProcessResultWithPlatform, ExecutionError>),
    /// Done; nothing remains to perform.
    Finished(Result<FallibleExecuteProcessResultWithPlatform, ExecutionError>),
}

/// What the driver must do next in a given state.
#[derive(Debug, Clone, Copy, PartialEq, Eq, Structural)]
pub enum PipelineAction {
    CreateSandbox,
    MaterializeInputs,
    MaterializeLocalInputs,
    PrepareWorkdir,
    RunChild,
    BuildSnapshot,
    Dispose,
    Done,
}

/// A state stripped of its data: what the dispose-exactly-once argument is
/// about.
#[derive(Debug, Clone, Copy, PartialEq, Eq, Structural)]
pub enum Phase {
    CreatingSandbox,
    MaterializingInputs,
    MaterializingLocalInputs,
    PreparingWorkdir,
    Running,
    Snapshotting,
    Disposing,
    Finished,
}

/// The phase a state is in.
pub open spec fn phase(s: PipelineState) -> Phase {
    match s {
        PipelineState::CreatingSandbox => Phase::CreatingSandbox,
        PipelineState::MaterializingInputs => Phase::MaterializingInputs,
        PipelineState::MaterializingLocalInputs => Phase::MaterializingLocalInputs,
        PipelineState::PreparingWorkdir => Phase::PreparingWorkdir,
        PipelineState::Running => Phase::Running,
        PipelineState::Snapshotting(_) => Phase::Snapshotting,
        PipelineState::Disposing(_) => Phase::Disposing,
        PipelineState::Finished(_) => Phase::Finished,
    }
}

/// Whether the request declares any output at all; where it declares none,
/// snapshotting is skipped and the canonical empty digest stands in.
pub open spec fn declares_outputs(req: ExecuteProcessRequest) -> bool {
    req.output_files@.len() > 0 || req.output_directories@.len() > 0
}

/// How phases advance on an event. `d` says whether the request declares
/// outputs. An event a phase does not expect leaves it in place.
pub open spec fn phase_step(d: bool, p: Phase, e: StepEvent) -> Phase {
    match p {
        Phase::CreatingSandbox => match e {
            StepEvent::Succeeded => Phase::MaterializingInputs,
            StepEvent::Failed(_) => Phase::Finished,
            _ => p,
        },
        Phase::MaterializingInputs => match e {
            StepEvent::Succeeded => Phase::MaterializingLocalInputs,
            StepEvent::Failed(_) => Phase::Disposing,
            _ => p,
        },
        Phase::MaterializingLocalInputs => match e {
            StepEvent::Succeeded => Phase::PreparingWorkdir,
            StepEvent::Failed(_) => Phase::Disposing,
            _ => p,
        },
        Phase::PreparingWorkdir => match e {
            StepEvent::Succeeded => Phase::Running,
            StepEvent::Failed(_) => Phase::Disposing,
            _ => p,
        },
        Phase::Running => match e {
            StepEvent::ChildExited(_) => if d {
                Phase::Snapshotting
            } else {
                Phase::Disposing
            },
            StepEvent::DeadlineElapsed => Phase::Disposing,
            StepEvent::SpawnFailed(_) => Phase::Disposing,
            StepEvent::StreamFailed(_) => Phase::Disposing,
            _ => p,
        },
        Phase::Snapshotting => match e {
            StepEvent::SnapshotBuilt(_) => Phase::Disposing,
            StepEvent::Failed(_) => Phase::Disposing,
            _ => p,
        },
        Phase::Disposing => Phase::Finished,
        Phase::Finished => Phase::Finished,
    }
}

/// Whether `res` is the assembly of the child's collected output with this
/// output digest: captured bytes and exit code verbatim, no prior
/// attempts, and the platform the command ran on.
pub open spec fn assembled(
    res: FallibleExecuteProcessResultWithPlatform,
    cr: ChildResults,
    digest: Digest,
    platform: Platform,
) -> bool {
    &&& res.stdout == cr.stdout
    &&& res.stderr == cr.stderr
    &&& res.exit_code == cr.exit_code
    &&& res.output_directory == digest
    &&& res.execution_attempts@.len() == 0
    &&& res.platform == platform
}

/// How a pending outcome becomes the final one when the sandbox is
/// disposed of: an elapsed deadline — recognized by its kind, never by
/// message text — becomes the substitute timeout result; everything else
/// passes through unchanged.
pub open spec fn finalized(
    o: Result<FallibleExecuteProcessResultWithPlatform, ExecutionError>,
    r: Result<FallibleExecuteProcessResultWithPlatform, ExecutionError>,
    timeout_millis: u64,
    desc: &str,
    platform: Platform,
) -> bool {
    match o {
        Ok(res) => r == Ok::<FallibleExecuteProcessResultWithPlatform, ExecutionError>(res),
        Err(e) => match e {
            ExecutionError::TimeoutElapsed => r matches Ok(res) && is_timeout_result(
                res,
                timeout_millis,
                desc.spec_bytes(),
                platform,
            ),
            _ => r == Err::<FallibleExecuteProcessResultWithPlatform, ExecutionError>(e),
        },
    }
}

/// Everything one step of the pipeline may do: which state follows `s` on
/// `e`, and what any data it carries must hold.
pub open spec fn step_spec(
    req: ExecuteProcessRequest,
    desc: &str,
    platform: Platform,
    s: PipelineState,
    e: StepEvent,
    next: PipelineState,
) -> bool {
    match s {
        PipelineState::CreatingSandbox => match e {
            StepEvent::Succeeded => next == PipelineState::MaterializingInputs,
            StepEvent::Failed(m) => next == PipelineState::Finished(
                Err(ExecutionError::SandboxFailure(m)),
            ),
            _ => next == s,
        },
        PipelineState::MaterializingInputs => match e {
            StepEvent::Succeeded => next == PipelineState::MaterializingLocalInputs,
            StepEvent::Failed(m) => next == PipelineState::Disposing(
                Err(ExecutionError::SandboxFailure(m)),
            ),
            _ => next == s,
        },
        PipelineState::MaterializingLocalInputs => match e {
            StepEvent::Succeeded => next == PipelineState::PreparingWorkdir,
            StepEvent::Failed(m) => next == PipelineState::Disposing(
                Err(ExecutionError::SandboxFailure(m)),
            ),
            _ => next == s,
        },
        PipelineState::PreparingWorkdir => match e {
            StepEvent::Succeeded => next == PipelineState::Running,
            StepEvent::Failed(m) => next == PipelineState::Disposing(
                Err(ExecutionError::SandboxFailure(m)),
            ),
            _ => next == s,
        },
        PipelineState::Running => match e {
            StepEvent::ChildExited(cr) => if declares_outputs(req) {
                next == PipelineState::Snapshotting(cr)
            } else {
                next matches PipelineState::Disposing(o) && o matches Ok(res) && assembled(
                    res,
                    cr,
                    res.output_directory,
                    platform,
                ) && is_empty_digest(res.output_directory)
            },
            StepEvent::DeadlineElapsed => next == PipelineState::Disposing(
                Err(ExecutionError::TimeoutElapsed),
            ),
            StepEvent::SpawnFailed(m) => next == PipelineState::Disposing(
                Err(ExecutionError::SpawnFailure(m)),
            ),
            StepEvent::StreamFailed(m) => next == PipelineState::Disposing(
                Err(ExecutionError::StreamFailure(m)),
            ),
            _ => next == s,
        },
        PipelineState::Snapshotting(cr) => match e {
            StepEvent::SnapshotBuilt(d) => next matches PipelineState::Disposing(o)
                && o matches Ok(res) && assembled(res, cr, d, platform),
            StepEvent::Failed(m) => next == PipelineState::Disposing(
                Err(ExecutionError::SnapshotFailure(m)),
            ),
            _ => next == PipelineState::Snapshotting(cr),
        },
        PipelineState::Disposing(o) => next matches PipelineState::Finished(r) && finalized(
            o,
            r,
            req.timeout_millis,
            desc,
            platform,
        ),
        PipelineState::Finished(r) => next == PipelineState::Finished(r),
    }
}

/// One decision of the pipeline: from `state`, on `event`, the next state.
/// The driver performs `next_action` of the result and reports back.
pub fn pipeline_step(
    req: &ExecuteProcessRequest,
    desc: &str,
    platform: Platform,
    state: PipelineState,
    event: StepEvent,
) -> (next: PipelineState)
    requires
        desc@ == req.description@,
    ensures
        step_spec(*req, desc, platform, state, event, next),
        phase(next) == phase_step(declares_outputs(*req), phase(state), event),
{
    match state {
        PipelineState::CreatingSandbox => match event {
            StepEvent::Succeeded => PipelineState::MaterializingInputs,
            StepEvent::Failed(m) => PipelineState::Finished(
                Err(ExecutionError::SandboxFailure(m)),
            ),
            _ => PipelineState::CreatingSandbox,
        },
        PipelineState::MaterializingInputs => match event {
            StepEvent::Succeeded => PipelineState::MaterializingLocalInputs,
            StepEvent::Failed(m) => PipelineState::Disposing(
                Err(ExecutionError::SandboxFailure(m)),
            ),
            _ => PipelineState::MaterializingInputs,
        },
        PipelineState::MaterializingLocalInputs => match event {
            StepEvent::Succeeded => PipelineState::PreparingWorkdir,
            StepEvent::Failed(m) => PipelineState::Disposing(
                Err(ExecutionError::SandboxFailure(m)),
            ),
            _ => PipelineState::MaterializingLocalInputs,
        },
        PipelineState::PreparingWorkdir => match event {
            StepEvent::Succeeded => PipelineState::Running,
            StepEvent::Failed(m) => PipelineState::Disposing(
                Err(ExecutionError::SandboxFailure(m)),
            ),
            _ => PipelineState::PreparingWorkdir,
        },
        PipelineState::Running => match event {
            StepEvent::ChildExited(cr) => {
                let plan = snapshot_plan(&req.output_files, &req.output_directories);
                match plan {
                    crate::snapshot::SnapshotPlan::Empty => {
                        let res = FallibleExecuteProcessResultWithPlatform {
                            stdout: cr.stdout,
                            stderr: cr.stderr,
                            exit_code: cr.exit_code,
                            output_directory: Digest::empty(),
                            execution_attempts: Vec::new(),
                            platform,
                        };
                        PipelineState::Disposing(Ok(res))
                    },
                    crate::snapshot::SnapshotPlan::Expand(_) => PipelineState::Snapshotting(cr),
                }
            },
            StepEvent::DeadlineElapsed => PipelineState::Disposing(
                Err(ExecutionError::TimeoutElapsed),
            ),
            StepEvent::SpawnFailed(m) => PipelineState::Disposing(
                Err(ExecutionError::SpawnFailure(m)),
            ),
            StepEvent::StreamFailed(m) => PipelineState::Disposing(
                Err(ExecutionError::StreamFailure(m)),
            ),
            _ => PipelineState::Running,
        },
        PipelineState::Snapshotting(cr) => match event {
            StepEvent::SnapshotBuilt(d) => {
                let res = FallibleExecuteProcessResultWithPlatform {
                    stdout: cr.stdout,
                    stderr: cr.stderr,
                    exit_code: cr.exit_code,
                    output_directory: d,
                    execution_attempts: Vec::new(),
                    platform,
                };
                PipelineState::Disposing(Ok(res))
            },
            StepEvent::Failed(m) => PipelineState::Disposing(
                Err(ExecutionError::SnapshotFailure(m)),
            ),
            _ => PipelineState::Snapshotting(cr),
        },
        PipelineState::Disposing(o) => PipelineState::Finished(
            finalize_result(o, req.timeout_millis, desc, platform),
        ),
        PipelineState::Finished(r) => PipelineState::Finished(r),
    }
}

/// The action the driver performs in a state.
pub fn next_action(state: &PipelineState) -> (a: PipelineAction)
    ensures
        a == PipelineAction::CreateSandbox <==> phase(*state) == Phase::CreatingSandbox,
        a == PipelineAction::MaterializeInputs <==> phase(*state) == Phase::MaterializingInputs,
        a == PipelineAction::MaterializeLocalInputs <==> phase(*state)
            == Phase::MaterializingLocalInputs,
        a == PipelineAction::PrepareWorkdir <==> phase(*state) == Phase::PreparingWorkdir,
        a == PipelineAction::RunChild <==> phase(*state) == Phase::Running,
        a == PipelineAction::BuildSnapshot <==> phase(*state) == Phase::Snapshotting,
        a == PipelineAction::Dispose <==> phase(*state) == Phase::Disposing,
        a == PipelineAction::Done <==> phase(*state) == Phase::Finished,
{
    match state {
        PipelineState::CreatingSandbox => PipelineAction::CreateSandbox,
        PipelineState::MaterializingInputs => PipelineAction::MaterializeInputs,
        PipelineState::MaterializingLocalInputs => PipelineAction::MaterializeLocalInputs,
        PipelineState::PreparingWorkdir => PipelineAction::PrepareWorkdir,
        PipelineState::Running => PipelineAction::RunChild,
        PipelineState::Snapshotting(_) => PipelineAction::BuildSnapshot,
        PipelineState::Disposing(_) => PipelineAction::Dispose,
        PipelineState::Finished(_) => PipelineAction::Done,
    }
}

/// The empty-output-declaration shortcut: where a request declares no
/// output files and no output directories, a run in which the child exits
/// finishes — after disposal — with the child's captured bytes and exit
/// code verbatim and the canonical empty snapshot digest, whatever the
/// command wrote inside the sandbox; no snapshot is ever requested.
pub proof fn lemma_empty_output_declaration(
    req: ExecuteProcessRequest,
    desc: &str,
    platform: Platform,
    cr: ChildResults,
    s2: PipelineState,
    e2: StepEvent,
    s3: PipelineState,
)
    requires
        !declares_outputs(req),
        step_spec(req, desc, platform, PipelineState::Running, StepEvent::ChildExited(cr), s2),
        step_spec(req, desc, platform, s2, e2, s3),
    ensures
        phase(s2) == Phase::Disposing,
        s3 matches PipelineState::Finished(r) && r matches Ok(res) && assembled(
            res,
            cr,
            res.output_directory,
            platform,
        ) && is_empty_digest(res.output_directory),
{
}

/// The phase reached from `p` after the whole event sequence.
pub open spec fn run_phase(d: bool, p: Phase, events: Seq<StepEvent>) -> Phase
    decreases events.len(),
{
    if events.len() == 0 {
        p
    } else {
        run_phase(d, phase_step(d, p, events[0]), events.drop_first())
    }
}

/// How often a run visits the disposing phase: how often the sandbox is
/// deleted or released.
pub open spec fn dispose_visits(d: bool, p: Phase, events: Seq<StepEvent>) -> nat
    decreases events.len(),
{
    (if p == Phase::Disposing {
        1nat
    } else {
        0nat
    }) + if events.len() == 0 {
        0nat
    } else {
        dispose_visits(d, phase_step(d, p, events[0]), events.drop_first())
    }
}

/// The phases in which the sandbox exists and has not yet been disposed
/// of.
pub open spec fn sandbox_live(p: Phase) -> bool {
    match p {
        Phase::MaterializingInputs => true,
        Phase::MaterializingLocalInputs => true,
        Phase::PreparingWorkdir => true,
        Phase::Running => true,
        Phase::Snapshotting => true,
        _ => false,
    }
}

/// Where a phase stands in the fixed order of one execution.
pub open spec fn stage_index(p: Phase) -> int {
    match p {
        Phase::CreatingSandbox => 0,
        Phase::MaterializingInputs => 1,
        Phase::MaterializingLocalInputs => 2,
        Phase::PreparingWorkdir => 3,
        Phase::Running => 4,
        Phase::Snapshotting => 5,
        Phase::Disposing => 6,
        Phase::Finished => 7,
    }
}

/// The pipeline only moves forward: sandbox creation precedes input
/// materialization, materialization precedes the run, the run precedes
/// snapshotting, and disposal comes after every stage that reads the
/// sandbox — on every path, whatever the events.
pub proof fn lemma_stages_move_forward(d: bool, p: Phase, e: StepEvent)
    ensures
        stage_index(phase_step(d, p, e)) >= stage_index(p),
{
}

/// A finished run stays finished and never disposes again.
pub proof fn lemma_finished_stays(d: bool, events: Seq<StepEvent>)
    ensures
        run_phase(d, Phase::Finished, events) == Phase::Finished,
        dispose_visits(d, Phase::Finished, events) == 0,
    decreases events.len(),
{
    if events.len() > 0 {
        lemma_finished_stays(d, events.drop_first());
    }
}

/// From any phase where the sandbox exists — and from the disposal itself —
/// every run that finishes disposes of the sandbox exactly once.
pub proof fn lemma_dispose_once(d: bool, p: Phase, events: Seq<StepEvent>)
    requires
        sandbox_live(p) || p == Phase::Disposing,
        run_phase(d, p, events) == Phase::Finished,
    ensures
        dispose_visits(d, p, events) == 1,
    decreases events.len(),
{
    if p == Phase::Disposing {
        if events.len() > 0 {
            lemma_finished_stays(d, events.drop_first());
        }
    } else {
        let next = phase_step(d, p, events[0]);
        lemma_dispose_once(d, next, events.drop_first());
    }
}

/// Idempotent cleanup: one whole execution, started where the sandbox is
/// about to be created and run to completion, disposes of its sandbox
/// exactly once on every exit path — normal completion, a failure in any
/// later stage, or a timeout — and not at all where the sandbox never came
/// to exist because its creation was the very failure.
pub proof fn lemma_cleanup_exactly_once(d: bool, events: Seq<StepEvent>)
    requires
        events.len() > 0,
        run_phase(d, Phase::CreatingSandbox, events) == Phase::Finished,
        events[0] == StepEvent::Succeeded || events[0] matches StepEvent::Failed(_),
    ensures
        events[0] == StepEvent::Succeeded ==> dispose_visits(d, Phase::CreatingSandbox, events)
            == 1,
        (events[0] matches StepEvent::Failed(_)) ==> dispose_visits(
            d,
            Phase::CreatingSandbox,
            events,
        ) == 0,
{
    if events[0] == StepEvent::Succeeded {
        lemma_dispose_once(d, Phase::MaterializingInputs, events.drop_first());
    } else {
        lemma_finished_stays(d, events.drop_first());
    }
}

} // verus!
