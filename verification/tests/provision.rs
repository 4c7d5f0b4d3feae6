//! Behaviour of the backend provisioning state machine.

use benchkit::provision::Action;
use benchkit::provision::BackendKind;
use benchkit::provision::Phase;
use benchkit::provision::Provisioner;
use benchkit::provision::StepOutcome;
use benchkit::provision::render_compile_failure;

/// Drives one machine with the given outcomes, collecting every action
/// it issues, the first one included.
fn drive(kind: BackendKind, outcomes: Vec<StepOutcome>) -> (Provisioner, Vec<Action>) {
    let (mut machine, first) = Provisioner::begin(kind);
    let mut actions = vec![first];
    for outcome in outcomes {
        actions.push(machine.step(outcome));
    }
    (machine, actions)
}

#[test]
fn compiled_module_success_pipeline() {
    let (machine, actions) = drive(
        BackendKind::CompiledModule,
        vec![StepOutcome::Succeeded, StepOutcome::Succeeded, StepOutcome::Succeeded],
    );
    assert_eq!(machine.phase, Phase::Ready);
    assert_eq!(machine.fault, None);
    assert_eq!(
        actions,
        vec![
            Action::CompileSource,
            Action::EmitArtifact,
            Action::SpawnRuntime,
            Action::Finish,
        ],
    );
}

#[test]
fn script_engine_success_pipeline() {
    let (machine, actions) = drive(
        BackendKind::ScriptEngine,
        vec![StepOutcome::Succeeded, StepOutcome::Succeeded],
    );
    assert_eq!(machine.phase, Phase::Ready);
    assert_eq!(machine.fault, None);
    assert_eq!(actions, vec![Action::ReadTextFile, Action::ExecuteScript, Action::Finish]);
}

#[test]
fn bytecode_module_success_pipeline() {
    let (machine, actions) = drive(
        BackendKind::BytecodeModule,
        vec![StepOutcome::Succeeded, StepOutcome::Succeeded],
    );
    assert_eq!(machine.phase, Phase::Ready);
    assert_eq!(machine.fault, None);
    assert_eq!(
        actions,
        vec![Action::ReadBinaryFile, Action::InstantiateModule, Action::Finish],
    );
}

#[test]
fn compiler_diagnostics_abort_before_artifact() {
    let (machine, actions) = drive(
        BackendKind::CompiledModule,
        vec![StepOutcome::Diagnostics(Some(String::from("syntax error in fixture")))],
    );
    assert_eq!(machine.phase, Phase::Aborted);
    assert_eq!(
        machine.fault,
        Some(String::from("compiler errors..\nsyntax error in fixture")),
    );
    // The abort precedes any artifact request or spawn.
    assert_eq!(actions, vec![Action::CompileSource, Action::AbortRun]);
    assert!(!actions.contains(&Action::EmitArtifact));
    assert!(!actions.contains(&Action::SpawnRuntime));
}

#[test]
fn undecodable_diagnostics_use_placeholder() {
    let (machine, _) = drive(
        BackendKind::CompiledModule,
        vec![StepOutcome::Diagnostics(None)],
    );
    assert_eq!(
        machine.fault,
        Some(String::from("compiler errors..\n<could not utf8 decode error string>")),
    );
}

#[test]
fn render_compile_failure_keeps_decoded_text() {
    let note = render_compile_failure(Some(String::from("expected `}`")));
    assert_eq!(note, "compiler errors..\nexpected `}`");
    let fallback = render_compile_failure(None);
    assert_eq!(fallback, "compiler errors..\n<could not utf8 decode error string>");
}

#[test]
fn corrupt_bytecode_aborts_at_instantiation() {
    let (machine, actions) = drive(
        BackendKind::BytecodeModule,
        vec![StepOutcome::Succeeded, StepOutcome::Failed],
    );
    assert_eq!(machine.phase, Phase::Aborted);
    // The read succeeded: the machine got as far as instantiation.
    assert_eq!(
        actions,
        vec![Action::ReadBinaryFile, Action::InstantiateModule, Action::AbortRun],
    );
    assert_eq!(
        machine.fault,
        Some(String::from("the bytecode module failed to instantiate")),
    );
}

#[test]
fn missing_bytecode_aborts_at_read() {
    let (machine, actions) = drive(BackendKind::BytecodeModule, vec![StepOutcome::Failed]);
    assert_eq!(machine.phase, Phase::Aborted);
    assert_eq!(actions, vec![Action::ReadBinaryFile, Action::AbortRun]);
    assert_eq!(machine.fault, Some(String::from("failed to read the bytecode fixture")));
}

#[test]
fn compiler_invocation_failure_aborts() {
    let (machine, _) = drive(BackendKind::CompiledModule, vec![StepOutcome::Failed]);
    assert_eq!(machine.fault, Some(String::from("failed to invoke the compiler")));
}

#[test]
fn artifact_emission_failure_aborts() {
    let (machine, _) = drive(
        BackendKind::CompiledModule,
        vec![StepOutcome::Succeeded, StepOutcome::Failed],
    );
    assert_eq!(machine.fault, Some(String::from("failed to emit a loadable artifact")));
}

#[test]
fn runtime_spawn_failure_aborts() {
    let (machine, _) = drive(
        BackendKind::CompiledModule,
        vec![StepOutcome::Succeeded, StepOutcome::Succeeded, StepOutcome::Failed],
    );
    assert_eq!(
        machine.fault,
        Some(String::from("failed to spawn the compiled module runtime")),
    );
}

#[test]
fn script_read_failure_aborts() {
    let (machine, _) = drive(BackendKind::ScriptEngine, vec![StepOutcome::Failed]);
    assert_eq!(machine.fault, Some(String::from("failed to read the script fixture")));
}

#[test]
fn script_execution_failure_aborts() {
    let (machine, _) = drive(
        BackendKind::ScriptEngine,
        vec![StepOutcome::Succeeded, StepOutcome::Failed],
    );
    assert_eq!(machine.fault, Some(String::from("the script failed to execute")));
}

#[test]
fn provisioning_twice_is_equivalent() {
    // Two calls over the same fixture with the same options: the
    // machines are independent values and behave identically.
    for kind in [BackendKind::CompiledModule, BackendKind::ScriptEngine, BackendKind::BytecodeModule]
    {
        let steps = match kind {
            BackendKind::CompiledModule => 3,
            _ => 2,
        };
        let outcomes: Vec<StepOutcome> = (0..steps).map(|_| StepOutcome::Succeeded).collect();
        let (first_machine, first_actions) = drive(kind, outcomes.clone());
        let (second_machine, second_actions) = drive(kind, outcomes);
        assert_eq!(first_actions, second_actions);
        assert_eq!(first_machine.phase, second_machine.phase);
        assert_eq!(first_machine.phase, Phase::Ready);
        assert_eq!(first_machine.fault, second_machine.fault);
    }
}
