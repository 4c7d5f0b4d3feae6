//! The backend provisioner: a state machine that turns a resolved
//! benchmark fixture into a ready execution handle for one of three
//! backends.
//!
//! Every backend follows the same two-phase shape: acquire the raw
//! material (compile the source, read the script text, read the
//! bytecode bytes), then hand it to a backend-specific constructor that
//! may fail; the compiled backend adds a third step that spawns the
//! runtime from the emitted artifact. The machine only decides: a
//! driver performs each issued [`Action`] against the external
//! collaborators (compiler, script engine, bytecode sandbox) and feeds
//! the outcome back. Every failure is fatal — the machine aborts with a
//! descriptive note and issues nothing further, because a fixture that
//! cannot be provisioned is a setup bug, not a benchmark data point.

use vstd::prelude::*;

verus! {

/// The optimization level the compiled-module backend builds with;
/// the other backends ignore it.
#[derive(Debug, Clone, Copy, PartialEq, Eq)]
pub enum OptimizationLevel {
    Off,
    Less,
    Standard,
    Aggressive,
}

/// Configuration for a provisioning call; only the compiled-module
/// backend reads it.
#[derive(Debug, Clone, Copy, PartialEq, Eq)]
pub struct CompilationOptions {
    pub optimization_level: OptimizationLevel,
}

/// The three execution backends a fixture can be provisioned for.
#[derive(Debug, Clone, Copy, PartialEq, Eq)]
pub enum BackendKind {
    /// Compile ahead of time, then load the artifact into a native runtime.
    CompiledModule,
    /// Execute the fixture source in an embedded script engine.
    ScriptEngine,
    /// Instantiate the fixture bytes in a sandboxed bytecode runtime.
    BytecodeModule,
}

/// Where one provisioning call stands.
#[derive(Debug, Clone, Copy, PartialEq, Eq)]
pub enum Phase {
    /// Acquiring the raw material: compiling, or reading the fixture file.
    Acquiring,
    /// Handing the material to the backend constructor.
    Producing,
    /// Spawning the native runtime from the emitted artifact
    /// (compiled-module backend only).
    Loading,
    /// A handle is ready; the call is complete.
    Ready,
    /// A fatal fault was recorded; the benchmark run must stop.
    Aborted,
}

/// What the driver must do next against the external collaborators.
#[derive(Debug, Clone, Copy, PartialEq, Eq)]
pub enum Action {
    /// Invoke the compiler on the resolved source with the options.
    CompileSource,
    /// Read the resolved fixture as text.
    ReadTextFile,
    /// Read the resolved fixture as raw bytes.
    ReadBinaryFile,
    /// Ask the compiler to emit a loadable artifact.
    EmitArtifact,
    /// Execute the script text top to bottom in a fresh engine.
    ExecuteScript,
    /// Instantiate the bytecode bytes with an empty import table.
    InstantiateModule,
    /// Hand the artifact to the native loader, spawning an instance.
    SpawnRuntime,
    /// The handle is ready; provisioning is complete.
    Finish,
    /// Abort the benchmark run with the machine's recorded fault.
    AbortRun,
}

/// What a performed action came to.
#[derive(Debug, Clone)]
pub enum StepOutcome {
    /// The action completed as intended.
    Succeeded,
    /// The compiler finished but reported diagnostics; the payload is
    /// the captured diagnostic text, or `None` where the buffer could
    /// not be decoded as text.
    Diagnostics(Option<String>),
    /// The action failed outright (I/O fault, loader or engine error).
    Failed,
}

/// Optional text as the specification reads it.
pub open spec fn opt_text(t: Option<String>) -> Option<Seq<char>> {
    match t {
        None => None,
        Some(s) => Some(s@),
    }
}

/// Whether a machine in this phase still awaits an outcome.
pub open spec fn in_progress_phase(phase: Phase) -> bool {
    phase is Acquiring || phase is Producing || phase is Loading
}

/// The first action of a provisioning call for `kind`.
pub open spec fn acquire_action(kind: BackendKind) -> Action {
    match kind {
        BackendKind::CompiledModule => Action::CompileSource,
        BackendKind::ScriptEngine => Action::ReadTextFile,
        BackendKind::BytecodeModule => Action::ReadBinaryFile,
    }
}

/// The backend-specific constructor step for `kind`.
pub open spec fn produce_action(kind: BackendKind) -> Action {
    match kind {
        BackendKind::CompiledModule => Action::EmitArtifact,
        BackendKind::ScriptEngine => Action::ExecuteScript,
        BackendKind::BytecodeModule => Action::InstantiateModule,
    }
}

/// The phase one step leads to: success advances along the backend's
/// pipeline; any other outcome aborts.
pub open spec fn step_phase(kind: BackendKind, phase: Phase, outcome: StepOutcome) -> Phase {
    match (phase, outcome) {
        (Phase::Acquiring, StepOutcome::Succeeded) => Phase::Producing,
        (Phase::Producing, StepOutcome::Succeeded) => if kind is CompiledModule {
            Phase::Loading
        } else {
            Phase::Ready
        },
        (Phase::Loading, StepOutcome::Succeeded) => Phase::Ready,
        _ => Phase::Aborted,
    }
}

/// The action one step issues.
pub open spec fn step_action(kind: BackendKind, phase: Phase, outcome: StepOutcome) -> Action {
    match (phase, outcome) {
        (Phase::Acquiring, StepOutcome::Succeeded) => produce_action(kind),
        (Phase::Producing, StepOutcome::Succeeded) => if kind is CompiledModule {
            Action::SpawnRuntime
        } else {
            Action::Finish
        },
        (Phase::Loading, StepOutcome::Succeeded) => Action::Finish,
        _ => Action::AbortRun,
    }
}

/// The diagnostic text an abort surfaces: the captured text itself, or
/// a placeholder noting that the buffer could not be decoded.
pub open spec fn rendered_diagnostics(d: Option<Seq<char>>) -> Seq<char> {
    match d {
        Some(t) => t,
        None => "<could not utf8 decode error string>"@,
    }
}

/// The fault recorded when the compiler reported diagnostics.
pub open spec fn compile_error_note(d: Option<Seq<char>>) -> Seq<char> {
    "compiler errors..\n"@ + rendered_diagnostics(d)
}

/// The fault recorded when a step failed outright, by backend and phase.
pub open spec fn failure_note(kind: BackendKind, phase: Phase) -> Seq<char> {
    match (phase, kind) {
        (Phase::Acquiring, BackendKind::CompiledModule) => "failed to invoke the compiler"@,
        (Phase::Acquiring, BackendKind::ScriptEngine) => "failed to read the script fixture"@,
        (Phase::Acquiring, BackendKind::BytecodeModule) => "failed to read the bytecode fixture"@,
        (Phase::Producing, BackendKind::CompiledModule) => "failed to emit a loadable artifact"@,
        (Phase::Producing, BackendKind::ScriptEngine) => "the script failed to execute"@,
        (Phase::Producing, BackendKind::BytecodeModule) =>
            "the bytecode module failed to instantiate"@,
        _ => "failed to spawn the compiled module runtime"@,
    }
}

/// The fault one step records: `None` on success, the rendered
/// diagnostics when the compiler reported any, the phase's failure
/// note otherwise.
pub open spec fn abort_note(kind: BackendKind, phase: Phase, outcome: StepOutcome) -> Option<
    Seq<char>,
> {
    match outcome {
        StepOutcome::Succeeded => None,
        StepOutcome::Diagnostics(d) => Some(compile_error_note(opt_text(d))),
        StepOutcome::Failed => Some(failure_note(kind, phase)),
    }
}

/// One provisioning call: which backend it serves, where it stands,
/// and, once aborted, the fault to surface. Created once per call and
/// never reused — repeating a benchmark means provisioning again.
#[derive(Debug)]
pub struct Provisioner {
    pub kind: BackendKind,
    pub phase: Phase,
    pub fault: Option<String>,
}

impl Provisioner {
    /// A fault is recorded exactly when the machine has aborted.
    pub open spec fn wf(&self) -> bool {
        (self.phase is Aborted) <==> (self.fault is Some)
    }

    /// Whether the machine still awaits an outcome.
    pub open spec fn in_progress(&self) -> bool {
        in_progress_phase(self.phase)
    }

    /// Starts one provisioning call for `kind`, returning the machine
    /// and the first action the driver must perform.
    pub fn begin(kind: BackendKind) -> (r: (Provisioner, Action))
        ensures
            r.0.kind == kind,
            r.0.phase == Phase::Acquiring,
            r.0.fault is None,
            r.0.wf(),
            r.1 == acquire_action(kind),
    {
        let machine = Provisioner { kind, phase: Phase::Acquiring, fault: None };
        let act = match kind {
            BackendKind::CompiledModule => Action::CompileSource,
            BackendKind::ScriptEngine => Action::ReadTextFile,
            BackendKind::BytecodeModule => Action::ReadBinaryFile,
        };
        (machine, act)
    }

    /// Consumes the outcome of the last issued action and returns the
    /// next one: success advances the pipeline until `Finish`; any
    /// failure aborts at once, recording a descriptive fault.
    pub fn step(&mut self, outcome: StepOutcome) -> (act: Action)
        requires
            old(self).wf(),
            old(self).in_progress(),
        ensures
            final(self).kind == old(self).kind,
            final(self).phase == step_phase(old(self).kind, old(self).phase, outcome),
            act == step_action(old(self).kind, old(self).phase, outcome),
            opt_text(final(self).fault) == abort_note(old(self).kind, old(self).phase, outcome),
            final(self).wf(),
    {
        match outcome {
            StepOutcome::Succeeded => {
                match self.phase {
                    Phase::Acquiring => {
                        self.phase = Phase::Producing;
                        match self.kind {
                            BackendKind::CompiledModule => Action::EmitArtifact,
                            BackendKind::ScriptEngine => Action::ExecuteScript,
                            BackendKind::BytecodeModule => Action::InstantiateModule,
                        }
                    },
                    Phase::Producing => {
                        match self.kind {
                            BackendKind::CompiledModule => {
                                self.phase = Phase::Loading;
                                Action::SpawnRuntime
                            },
                            _ => {
                                self.phase = Phase::Ready;
                                Action::Finish
                            },
                        }
                    },
                    _ => {
                        self.phase = Phase::Ready;
                        Action::Finish
                    },
                }
            },
            StepOutcome::Diagnostics(d) => {
                self.phase = Phase::Aborted;
                self.fault = Some(render_compile_failure(d));
                Action::AbortRun
            },
            StepOutcome::Failed => {
                let note = failure_message(self.kind, self.phase);
                self.phase = Phase::Aborted;
                self.fault = Some(note);
                Action::AbortRun
            },
        }
    }
}

/// Renders captured compiler diagnostics into the fatal note an abort
/// surfaces, falling back to a placeholder when the diagnostic buffer
/// could not be decoded as text.
pub fn render_compile_failure(d: Option<String>) -> (r: String)
    ensures
        r@ == compile_error_note(opt_text(d)),
{
    let prefix: String = String::from_str("compiler errors..\n");
    match d {
        Some(text) => prefix.concat(text.as_str()),
        None => prefix.concat("<could not utf8 decode error string>"),
    }
}

/// The failure note for an outright step failure, by backend and phase.
fn failure_message(kind: BackendKind, phase: Phase) -> (r: String)
    ensures
        r@ == failure_note(kind, phase),
{
    match (phase, kind) {
        (Phase::Acquiring, BackendKind::CompiledModule) => String::from_str(
            "failed to invoke the compiler",
        ),
        (Phase::Acquiring, BackendKind::ScriptEngine) => String::from_str(
            "failed to read the script fixture",
        ),
        (Phase::Acquiring, BackendKind::BytecodeModule) => String::from_str(
            "failed to read the bytecode fixture",
        ),
        (Phase::Producing, BackendKind::CompiledModule) => String::from_str(
            "failed to emit a loadable artifact",
        ),
        (Phase::Producing, BackendKind::ScriptEngine) => String::from_str(
            "the script failed to execute",
        ),
        (Phase::Producing, BackendKind::BytecodeModule) => String::from_str(
            "the bytecode module failed to instantiate",
        ),
        _ => String::from_str("failed to spawn the compiled module runtime"),
    }
}

/// The phase a fresh machine for `kind` stands in after consuming
/// `outcomes` one by one; an outcome arriving after the machine has
/// finished or aborted changes nothing.
pub open spec fn phase_after(kind: BackendKind, outcomes: Seq<StepOutcome>) -> Phase
    decreases outcomes.len(),
{
    if outcomes.len() == 0 {
        Phase::Acquiring
    } else {
        let prev = phase_after(kind, outcomes.drop_last());
        if in_progress_phase(prev) {
            step_phase(kind, prev, outcomes.last())
        } else {
            prev
        }
    }
}

/// Every action a fresh machine for `kind` issues along `outcomes`,
/// the initial acquisition included.
pub open spec fn actions_along(kind: BackendKind, outcomes: Seq<StepOutcome>) -> Seq<Action>
    decreases outcomes.len(),
{
    if outcomes.len() == 0 {
        seq![acquire_action(kind)]
    } else {
        let prev = phase_after(kind, outcomes.drop_last());
        if in_progress_phase(prev) {
            actions_along(kind, outcomes.drop_last()).push(
                step_action(kind, prev, outcomes.last()),
            )
        } else {
            actions_along(kind, outcomes.drop_last())
        }
    }
}

/// Law: an abort is final. Once the machine has aborted after some
/// prefix of the outcomes, the remaining outcomes change neither its
/// phase nor the actions it has issued.
pub proof fn lemma_abort_is_terminal(kind: BackendKind, outcomes: Seq<StepOutcome>, n: int)
    requires
        0 <= n <= outcomes.len(),
        phase_after(kind, outcomes.take(n)) == Phase::Aborted,
    ensures
        phase_after(kind, outcomes) == Phase::Aborted,
        actions_along(kind, outcomes) == actions_along(kind, outcomes.take(n)),
    decreases outcomes.len() - n,
{
    if n == outcomes.len() {
        assert(outcomes.take(n) =~= outcomes);
    } else {
        assert(outcomes.take(n + 1).drop_last() =~= outcomes.take(n));
        assert(outcomes.take(n + 1).last() == outcomes[n]);
        assert(phase_after(kind, outcomes.take(n + 1)) == Phase::Aborted);
        lemma_abort_is_terminal(kind, outcomes, n + 1);
    }
}

/// Law: when the compiler reports diagnostics, provisioning a compiled
/// module aborts at once — the machine never requests an artifact and
/// never spawns an instance, whatever outcomes might follow.
pub proof fn lemma_diagnostics_abort_before_artifact(outcomes: Seq<StepOutcome>)
    requires
        outcomes.len() >= 1,
        outcomes[0] is Diagnostics,
    ensures
        phase_after(BackendKind::CompiledModule, outcomes) == Phase::Aborted,
        actions_along(BackendKind::CompiledModule, outcomes) == seq![
            Action::CompileSource,
            Action::AbortRun,
        ],
        forall|i: int|
            0 <= i < actions_along(BackendKind::CompiledModule, outcomes).len()
                ==> actions_along(BackendKind::CompiledModule, outcomes)[i]
                != Action::EmitArtifact && actions_along(BackendKind::CompiledModule, outcomes)[i]
                != Action::SpawnRuntime,
{
    let kind = BackendKind::CompiledModule;
    let empty_trace = Seq::<StepOutcome>::empty();
    let one = outcomes.take(1);
    assert(phase_after(kind, empty_trace) == Phase::Acquiring);
    assert(actions_along(kind, empty_trace) == seq![Action::CompileSource]);
    assert(one.drop_last() =~= empty_trace);
    assert(one.last() == outcomes[0]);
    assert(phase_after(kind, one) == Phase::Aborted);
    assert(actions_along(kind, one) =~= seq![Action::CompileSource, Action::AbortRun]);
    lemma_abort_is_terminal(kind, outcomes, 1);
}

/// Law: provisioning a bytecode module from a readable but corrupt
/// fixture aborts at instantiation, not at file-read time: the
/// successful read advances the machine, the instantiation step is
/// issued, and only its failure aborts the run.
pub proof fn lemma_bytecode_corrupt_aborts_at_instantiation(outcomes: Seq<StepOutcome>)
    requires
        outcomes.len() >= 2,
        outcomes[0] is Succeeded,
        outcomes[1] is Failed,
    ensures
        phase_after(BackendKind::BytecodeModule, outcomes.take(1)) == Phase::Producing,
        phase_after(BackendKind::BytecodeModule, outcomes) == Phase::Aborted,
        actions_along(BackendKind::BytecodeModule, outcomes) == seq![
            Action::ReadBinaryFile,
            Action::InstantiateModule,
            Action::AbortRun,
        ],
{
    let kind = BackendKind::BytecodeModule;
    let empty_trace = Seq::<StepOutcome>::empty();
    let one = outcomes.take(1);
    let two = outcomes.take(2);
    assert(phase_after(kind, empty_trace) == Phase::Acquiring);
    assert(actions_along(kind, empty_trace) == seq![Action::ReadBinaryFile]);
    assert(one.drop_last() =~= empty_trace);
    assert(one.last() == outcomes[0]);
    assert(phase_after(kind, one) == Phase::Producing);
    assert(actions_along(kind, one) =~= seq![Action::ReadBinaryFile, Action::InstantiateModule]);
    assert(two.drop_last() =~= one);
    assert(two.last() == outcomes[1]);
    assert(phase_after(kind, two) == Phase::Aborted);
    assert(actions_along(kind, two) =~= seq![
        Action::ReadBinaryFile,
        Action::InstantiateModule,
        Action::AbortRun,
    ]);
    lemma_abort_is_terminal(kind, outcomes, 2);
}

/// The number of collaborator outcomes a complete provisioning call
/// consumes: three for the compiled backend, two for the others.
pub open spec fn steps_to_ready(kind: BackendKind) -> int {
    if kind is CompiledModule {
        3
    } else {
        2
    }
}

/// The full action sequence of a provisioning call in which every step
/// succeeds.
pub open spec fn success_actions(kind: BackendKind) -> Seq<Action> {
    if kind is CompiledModule {
        seq![Action::CompileSource, Action::EmitArtifact, Action::SpawnRuntime, Action::Finish]
    } else {
        seq![acquire_action(kind), produce_action(kind), Action::Finish]
    }
}

/// Law: success is owed. When every collaborator step succeeds, the
/// machine reaches `Ready` after exactly the backend's number of steps,
/// issuing the backend's full pipeline of actions and nothing else.
pub proof fn lemma_all_success_reaches_ready(kind: BackendKind, outcomes: Seq<StepOutcome>)
    requires
        outcomes.len() == steps_to_ready(kind),
        forall|i: int| 0 <= i < outcomes.len() ==> outcomes[i] is Succeeded,
    ensures
        phase_after(kind, outcomes) == Phase::Ready,
        actions_along(kind, outcomes) == success_actions(kind),
{
    let empty_trace = Seq::<StepOutcome>::empty();
    let one = outcomes.take(1);
    let two = outcomes.take(2);
    assert(phase_after(kind, empty_trace) == Phase::Acquiring);
    assert(actions_along(kind, empty_trace) == seq![acquire_action(kind)]);
    assert(one.drop_last() =~= empty_trace);
    assert(one.last() == outcomes[0]);
    assert(phase_after(kind, one) == Phase::Producing);
    assert(actions_along(kind, one) =~= seq![acquire_action(kind), produce_action(kind)]);
    assert(two.drop_last() =~= one);
    assert(two.last() == outcomes[1]);
    if kind is CompiledModule {
        assert(phase_after(kind, two) == Phase::Loading);
        assert(actions_along(kind, two) =~= seq![
            acquire_action(kind),
            produce_action(kind),
            Action::SpawnRuntime,
        ]);
        assert(outcomes.drop_last() =~= two);
        assert(outcomes.last() == outcomes[2]);
        assert(phase_after(kind, outcomes) == Phase::Ready);
        assert(actions_along(kind, outcomes) =~= success_actions(kind));
    } else {
        assert(outcomes =~= two);
        assert(phase_after(kind, outcomes) == Phase::Ready);
        assert(actions_along(kind, outcomes) =~= success_actions(kind));
    }
}

/// Law: provisioning is repeatable. The machine's behaviour is a pure
/// function of the backend kind and the collaborator outcomes, so two
/// provisioning calls over the same fixture with the same options
/// traverse the same phases and issue the same actions: the two handles
/// are functionally equivalent, and no state is shared between calls.
pub proof fn lemma_provisioning_repeatable(
    kind: BackendKind,
    first: Seq<StepOutcome>,
    second: Seq<StepOutcome>,
)
    requires
        first == second,
    ensures
        phase_after(kind, first) == phase_after(kind, second),
        actions_along(kind, first) == actions_along(kind, second),
{
}

} // verus!
