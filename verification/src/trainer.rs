//! The state machine that drives one training run.
//!
//! A run probes the compute device, loads an existing checkpoint when
//! one is present, builds the model, loads the dataset, initializes the
//! optimizer, then trains for a fixed number of epochs. Each epoch
//! steps the optimizer once per minibatch, evaluates on the test split
//! and reports the test loss; after the last epoch the parameter store
//! is saved. Every failure is fatal: the machine enters a terminal
//! failed state and asks for nothing further.
//!
//! The machine only decides; it does no outside work itself. A driver
//! performs the action the machine asks for — a tensor-engine call, a
//! filesystem probe, a line of output — and reports the outcome back
//! as an event.

use vstd::prelude::*;

verus! {

/// Number of epochs a run trains for.
pub const EPOCH_COUNT: u64 = 10;

/// Number of samples per training minibatch.
pub const BATCH_SIZE: u64 = 64;

/// The constant learning rate, as the fraction
/// `LEARNING_RATE_NUMER / LEARNING_RATE_DENOM` (0.01); the optimizer
/// is the Adam update rule with this rate for the whole run.
pub const LEARNING_RATE_NUMER: u64 = 1;

/// Denominator of the learning-rate fraction.
pub const LEARNING_RATE_DENOM: u64 = 100;

/// The fixed path of the checkpoint file: read at startup when it
/// exists, overwritten at the end of every completed run.
pub fn checkpoint_path() -> (r: &'static str)
    ensures
        r@ == "model.tch"@,
{
    "model.tch"
}

/// The fixed directory the dataset is read from.
pub fn dataset_dir() -> (r: &'static str)
    ensures
        r@ == "data"@,
{
    "data"
}

/// The epoch number as it appears in the loss line: decimal,
/// right-aligned to a width of three characters.
pub open spec fn epoch_label_spec(epoch: u64) -> Seq<char> {
    if epoch == 1 {
        "  1"@
    } else if epoch == 2 {
        "  2"@
    } else if epoch == 3 {
        "  3"@
    } else if epoch == 4 {
        "  4"@
    } else if epoch == 5 {
        "  5"@
    } else if epoch == 6 {
        "  6"@
    } else if epoch == 7 {
        "  7"@
    } else if epoch == 8 {
        "  8"@
    } else if epoch == 9 {
        "  9"@
    } else {
        " 10"@
    }
}

/// The width-padded epoch number for the loss line
/// `Epoch {n}: loss = {value}`.
pub fn epoch_label(epoch: u64) -> (r: &'static str)
    requires
        1 <= epoch <= EPOCH_COUNT,
    ensures
        r@ == epoch_label_spec(epoch),
{
    match epoch {
        1 => "  1",
        2 => "  2",
        3 => "  3",
        4 => "  4",
        5 => "  5",
        6 => "  6",
        7 => "  7",
        8 => "  8",
        9 => "  9",
        _ => " 10",
    }
}

/// Every epoch label is exactly three characters wide.
pub proof fn lemma_epoch_label_width(epoch: u64)
    ensures
        epoch_label_spec(epoch).len() == 3,
{
    reveal_strlit("  1");
    reveal_strlit("  2");
    reveal_strlit("  3");
    reveal_strlit("  4");
    reveal_strlit("  5");
    reveal_strlit("  6");
    reveal_strlit("  7");
    reveal_strlit("  8");
    reveal_strlit("  9");
    reveal_strlit(" 10");
}

/// The ways a run can fail. Every one of them halts the run; none is
/// retried or recovered.
#[derive(Clone, Copy, Debug, PartialEq, Eq, Structural)]
pub enum ErrorKind {
    /// An existing checkpoint file could not be read or did not match
    /// the declared parameters.
    CheckpointLoad,
    /// The dataset directory was missing or its files were malformed.
    DatasetLoad,
    /// The optimizer rejected its configuration.
    OptimizerInit,
    /// A forward, backward or update operation failed during training.
    TrainStep,
    /// A forward or loss operation failed during evaluation.
    Evaluation,
    /// The checkpoint could not be written at the end of the run.
    CheckpointSave,
}

/// Where a run stands. Phases that carry an `epoch` count it from 1 to
/// `EPOCH_COUNT`.
#[derive(Clone, Copy, Debug, PartialEq, Eq, Structural)]
pub enum Phase {
    /// Ask which compute device is available.
    ProbeDevice,
    /// Ask whether a checkpoint file exists at the fixed path.
    ProbeCheckpoint,
    /// Ask to load the existing checkpoint into the store.
    LoadCheckpoint,
    /// Ask to declare the model's parameters and build the network.
    BuildModel,
    /// Ask to load the dataset splits.
    LoadDataset,
    /// Ask to construct the optimizer over the store.
    InitOptimizer,
    /// Ask for the next minibatch step of this epoch.
    Train { epoch: u64 },
    /// Ask for the evaluation pass on the test split.
    Evaluate { epoch: u64 },
    /// Ask to report this epoch's test loss.
    Report { epoch: u64 },
    /// Ask to write the checkpoint.
    SaveCheckpoint,
    /// The run completed; terminal.
    Done,
    /// The run failed; terminal.
    Failed { error: ErrorKind },
}

/// What the driver reports back after performing an action.
#[derive(Clone, Copy, Debug, PartialEq, Eq, Structural)]
pub enum Event {
    /// The device probe answered; `accelerated` says whether an
    /// accelerated device is present.
    DeviceProbed { accelerated: bool },
    /// The checkpoint probe answered.
    CheckpointProbed { exists: bool },
    /// The checkpoint load finished.
    CheckpointLoaded { ok: bool },
    /// The model was declared and built.
    ModelBuilt,
    /// The dataset load finished.
    DatasetLoaded { ok: bool },
    /// The optimizer construction finished.
    OptimizerInitialized { ok: bool },
    /// One minibatch was trained: forward pass, inverted-pixel target,
    /// binary cross-entropy loss, backward pass and optimizer step.
    BatchStepped { ok: bool },
    /// The epoch's minibatches are exhausted.
    EpochBatchesDone,
    /// The evaluation pass finished: forward pass on the whole test
    /// split, inverted-pixel target, mean-squared-error loss.
    Evaluated { ok: bool },
    /// The epoch's loss line was written.
    Reported,
    /// The checkpoint write finished.
    CheckpointSaved { ok: bool },
}

/// What the machine asks the driver to do next.
#[derive(Clone, Copy, Debug, PartialEq, Eq, Structural)]
pub enum Action {
    /// Probe for an accelerated device and log the choice.
    ProbeDevice,
    /// Check whether the checkpoint file exists.
    ProbeCheckpoint,
    /// Load the checkpoint into the parameter store.
    LoadCheckpoint,
    /// Declare the parameters and build the network.
    BuildModel,
    /// Load the dataset.
    LoadDataset,
    /// Construct the optimizer.
    InitOptimizer,
    /// Train on the next minibatch of this epoch, if one is left.
    TrainNextBatch,
    /// Evaluate on the test split.
    Evaluate,
    /// Print the loss line for this epoch.
    ReportEpoch { epoch: u64 },
    /// Write the checkpoint.
    SaveCheckpoint,
    /// Print the success message and stop.
    ReportSuccess,
    /// Print the error and stop.
    ReportFailure { error: ErrorKind },
}

/// The transition function of the run: the phase that follows `p` on
/// event `ev`. An event that does not answer the current phase leaves
/// the phase unchanged; the terminal phases never change.
pub open spec fn next_phase(p: Phase, ev: Event) -> Phase {
    match (p, ev) {
        (Phase::ProbeDevice, Event::DeviceProbed { .. }) => Phase::ProbeCheckpoint,
        (Phase::ProbeCheckpoint, Event::CheckpointProbed { exists }) => if exists {
            Phase::LoadCheckpoint
        } else {
            Phase::BuildModel
        },
        (Phase::LoadCheckpoint, Event::CheckpointLoaded { ok }) => if ok {
            Phase::BuildModel
        } else {
            Phase::Failed { error: ErrorKind::CheckpointLoad }
        },
        (Phase::BuildModel, Event::ModelBuilt) => Phase::LoadDataset,
        (Phase::LoadDataset, Event::DatasetLoaded { ok }) => if ok {
            Phase::InitOptimizer
        } else {
            Phase::Failed { error: ErrorKind::DatasetLoad }
        },
        (Phase::InitOptimizer, Event::OptimizerInitialized { ok }) => if ok {
            Phase::Train { epoch: 1 }
        } else {
            Phase::Failed { error: ErrorKind::OptimizerInit }
        },
        (Phase::Train { epoch }, Event::BatchStepped { ok }) => if ok {
            Phase::Train { epoch }
        } else {
            Phase::Failed { error: ErrorKind::TrainStep }
        },
        (Phase::Train { epoch }, Event::EpochBatchesDone) => Phase::Evaluate { epoch },
        (Phase::Evaluate { epoch }, Event::Evaluated { ok }) => if ok {
            Phase::Report { epoch }
        } else {
            Phase::Failed { error: ErrorKind::Evaluation }
        },
        (Phase::Report { epoch }, Event::Reported) => if epoch < EPOCH_COUNT {
            Phase::Train { epoch: (epoch + 1) as u64 }
        } else {
            Phase::SaveCheckpoint
        },
        (Phase::SaveCheckpoint, Event::CheckpointSaved { ok }) => if ok {
            Phase::Done
        } else {
            Phase::Failed { error: ErrorKind::CheckpointSave }
        },
        (_, _) => p,
    }
}

/// Whether `(p, ev)` is a successful minibatch step, the one and only
/// transition that runs the optimizer and so mutates the parameter
/// store.
pub open spec fn counts_optimizer_step(p: Phase, ev: Event) -> bool {
    match (p, ev) {
        (Phase::Train { .. }, Event::BatchStepped { ok: true }) => true,
        (_, _) => false,
    }
}

/// The optimizer-step count after the transition `(p, ev)`.
pub open spec fn steps_after(p: Phase, ev: Event, steps: nat) -> nat {
    if counts_optimizer_step(p, ev) {
        steps + 1
    } else {
        steps
    }
}

/// The action the driver should perform in phase `p`.
pub open spec fn action_of(p: Phase) -> Action {
    match p {
        Phase::ProbeDevice => Action::ProbeDevice,
        Phase::ProbeCheckpoint => Action::ProbeCheckpoint,
        Phase::LoadCheckpoint => Action::LoadCheckpoint,
        Phase::BuildModel => Action::BuildModel,
        Phase::LoadDataset => Action::LoadDataset,
        Phase::InitOptimizer => Action::InitOptimizer,
        Phase::Train { .. } => Action::TrainNextBatch,
        Phase::Evaluate { .. } => Action::Evaluate,
        Phase::Report { epoch } => Action::ReportEpoch { epoch },
        Phase::SaveCheckpoint => Action::SaveCheckpoint,
        Phase::Done => Action::ReportSuccess,
        Phase::Failed { error } => Action::ReportFailure { error },
    }
}

/// A phase a run can actually be in: epoch counters stay between 1 and
/// `EPOCH_COUNT`.
pub open spec fn phase_wf(p: Phase) -> bool {
    match p {
        Phase::Train { epoch } => 1 <= epoch <= EPOCH_COUNT,
        Phase::Evaluate { epoch } => 1 <= epoch <= EPOCH_COUNT,
        Phase::Report { epoch } => 1 <= epoch <= EPOCH_COUNT,
        _ => true,
    }
}

/// The driver of one training run.
pub struct Trainer {
    /// Where the run stands.
    pub phase: Phase,
    /// How many optimizer steps have been taken so far.
    pub opt_steps: u64,
}

impl Trainer {
    /// A run about to start: probe the device first; no optimizer step
    /// has been taken.
    pub fn new() -> (t: Trainer)
        ensures
            t.phase == Phase::ProbeDevice,
            t.opt_steps == 0,
    {
        Trainer { phase: Phase::ProbeDevice, opt_steps: 0 }
    }

    /// The action the driver should perform now.
    pub fn current_action(&self) -> (a: Action)
        ensures
            a == action_of(self.phase),
    {
        match self.phase {
            Phase::ProbeDevice => Action::ProbeDevice,
            Phase::ProbeCheckpoint => Action::ProbeCheckpoint,
            Phase::LoadCheckpoint => Action::LoadCheckpoint,
            Phase::BuildModel => Action::BuildModel,
            Phase::LoadDataset => Action::LoadDataset,
            Phase::InitOptimizer => Action::InitOptimizer,
            Phase::Train { .. } => Action::TrainNextBatch,
            Phase::Evaluate { .. } => Action::Evaluate,
            Phase::Report { epoch } => Action::ReportEpoch { epoch },
            Phase::SaveCheckpoint => Action::SaveCheckpoint,
            Phase::Done => Action::ReportSuccess,
            Phase::Failed { error } => Action::ReportFailure { error },
        }
    }

    /// Whether the run has ended, in success or failure.
    pub fn is_finished(&self) -> (r: bool)
        ensures
            r == (self.phase == Phase::Done || self.phase matches Phase::Failed { .. }),
    {
        match self.phase {
            Phase::Done => true,
            Phase::Failed { .. } => true,
            _ => false,
        }
    }

    /// Advance on an event the driver reports. The new phase is exactly
    /// `next_phase`, and the step count grows exactly on a successful
    /// minibatch step.
    pub fn step(&mut self, ev: Event)
        requires
            counts_optimizer_step(old(self).phase, ev) ==> old(self).opt_steps < u64::MAX,
        ensures
            final(self).phase == next_phase(old(self).phase, ev),
            final(self).opt_steps as nat == steps_after(
                old(self).phase,
                ev,
                old(self).opt_steps as nat,
            ),
    {
        let stepped: bool = match (self.phase, ev) {
            (Phase::Train { .. }, Event::BatchStepped { ok: true }) => true,
            (_, _) => false,
        };
        if stepped {
            self.opt_steps = self.opt_steps + 1;
        }
        self.phase = match (self.phase, ev) {
            (Phase::ProbeDevice, Event::DeviceProbed { .. }) => Phase::ProbeCheckpoint,
            (Phase::ProbeCheckpoint, Event::CheckpointProbed { exists }) => if exists {
                Phase::LoadCheckpoint
            } else {
                Phase::BuildModel
            },
            (Phase::LoadCheckpoint, Event::CheckpointLoaded { ok }) => if ok {
                Phase::BuildModel
            } else {
                Phase::Failed { error: ErrorKind::CheckpointLoad }
            },
            (Phase::BuildModel, Event::ModelBuilt) => Phase::LoadDataset,
            (Phase::LoadDataset, Event::DatasetLoaded { ok }) => if ok {
                Phase::InitOptimizer
            } else {
                Phase::Failed { error: ErrorKind::DatasetLoad }
            },
            (Phase::InitOptimizer, Event::OptimizerInitialized { ok }) => if ok {
                Phase::Train { epoch: 1 }
            } else {
                Phase::Failed { error: ErrorKind::OptimizerInit }
            },
            (Phase::Train { epoch }, Event::BatchStepped { ok }) => if ok {
                Phase::Train { epoch }
            } else {
                Phase::Failed { error: ErrorKind::TrainStep }
            },
            (Phase::Train { epoch }, Event::EpochBatchesDone) => Phase::Evaluate { epoch },
            (Phase::Evaluate { epoch }, Event::Evaluated { ok }) => if ok {
                Phase::Report { epoch }
            } else {
                Phase::Failed { error: ErrorKind::Evaluation }
            },
            (Phase::Report { epoch }, Event::Reported) => if epoch < EPOCH_COUNT {
                Phase::Train { epoch: epoch + 1 }
            } else {
                Phase::SaveCheckpoint
            },
            (Phase::SaveCheckpoint, Event::CheckpointSaved { ok }) => if ok {
                Phase::Done
            } else {
                Phase::Failed { error: ErrorKind::CheckpointSave }
            },
            (p, _) => p,
        };
    }
}

/// Epoch counters stay between 1 and `EPOCH_COUNT` across every
/// transition, so a run trains for exactly `EPOCH_COUNT` epochs.
pub proof fn lemma_phase_wf_preserved(p: Phase, ev: Event)
    requires
        phase_wf(p),
    ensures
        phase_wf(next_phase(p, ev)),
{
}

/// A run reaches `Done` only by saving the checkpoint: the only
/// transition into `Done` is a successful save.
pub proof fn lemma_done_only_after_save(p: Phase, ev: Event)
    requires
        next_phase(p, ev) == Phase::Done,
        p != Phase::Done,
    ensures
        p == Phase::SaveCheckpoint,
        ev == (Event::CheckpointSaved { ok: true }),
{
}

/// The checkpoint is saved only once all epochs are over: the only
/// transition into `SaveCheckpoint` is the report of the last epoch.
pub proof fn lemma_save_only_after_last_epoch(p: Phase, ev: Event)
    requires
        phase_wf(p),
        next_phase(p, ev) == Phase::SaveCheckpoint,
        p != Phase::SaveCheckpoint,
    ensures
        p == (Phase::Report { epoch: EPOCH_COUNT }),
        ev == Event::Reported,
{
}

/// An epoch whose training split is empty completes without an
/// optimizer step and without an error: the machine moves straight to
/// the evaluation, which still runs, and the step count is unchanged.
pub proof fn lemma_empty_epoch(epoch: u64, steps: nat)
    ensures
        next_phase(Phase::Train { epoch }, Event::EpochBatchesDone) == (Phase::Evaluate { epoch }),
        steps_after(Phase::Train { epoch }, Event::EpochBatchesDone, steps) == steps,
{
}

/// When no checkpoint exists at the fixed path, the run proceeds with
/// the freshly initialized parameters: no load is asked for and no
/// error arises.
pub proof fn lemma_missing_checkpoint_proceeds()
    ensures
        next_phase(Phase::ProbeCheckpoint, Event::CheckpointProbed { exists: false })
            == Phase::BuildModel,
{
}

/// The parameter store is mutated only by the optimizer: the step
/// count changes only on a successful minibatch step, it then grows by
/// exactly one, and the run stays in the same epoch.
pub proof fn lemma_steps_only_in_training(p: Phase, ev: Event, steps: nat)
    ensures
        steps_after(p, ev, steps) != steps ==> counts_optimizer_step(p, ev) && steps_after(
            p,
            ev,
            steps,
        ) == steps + 1 && next_phase(p, ev) == p,
{
}

/// Success and failure are terminal: no event moves the machine out of
/// `Done` or out of a failed state, so no error is ever recovered.
pub proof fn lemma_terminal_phases(p: Phase, ev: Event)
    requires
        p == Phase::Done || p matches Phase::Failed { .. },
    ensures
        next_phase(p, ev) == p,
{
}

/// The phase a run is in after the machine consumed the events `evs`
/// in order, starting from phase `p`.
pub open spec fn run_phase(p: Phase, evs: Seq<Event>) -> Phase
    decreases evs.len(),
{
    if evs.len() == 0 {
        p
    } else {
        run_phase(next_phase(p, evs[0]), evs.skip(1))
    }
}

/// Whether the transition `(p, ev)` prints an epoch's loss line.
pub open spec fn counted_report(p: Phase, ev: Event) -> bool {
    match (p, ev) {
        (Phase::Report { .. }, Event::Reported) => true,
        (_, _) => false,
    }
}

/// How many epoch loss lines the machine prints while consuming the
/// events `evs` in order, starting from phase `p`.
pub open spec fn count_reports(p: Phase, evs: Seq<Event>) -> nat
    decreases evs.len(),
{
    if evs.len() == 0 {
        0
    } else {
        (if counted_report(p, evs[0]) {
            1nat
        } else {
            0nat
        }) + count_reports(next_phase(p, evs[0]), evs.skip(1))
    }
}

/// How many loss lines a run has printed by the time it stands in
/// phase `p`: none before training starts, one per finished epoch
/// while training, all of them once the checkpoint is being saved.
pub open spec fn reports_inv(p: Phase, reports: nat) -> bool {
    match p {
        Phase::ProbeDevice => reports == 0,
        Phase::ProbeCheckpoint => reports == 0,
        Phase::LoadCheckpoint => reports == 0,
        Phase::BuildModel => reports == 0,
        Phase::LoadDataset => reports == 0,
        Phase::InitOptimizer => reports == 0,
        Phase::Train { epoch } => 1 <= epoch <= EPOCH_COUNT && reports == epoch - 1,
        Phase::Evaluate { epoch } => 1 <= epoch <= EPOCH_COUNT && reports == epoch - 1,
        Phase::Report { epoch } => 1 <= epoch <= EPOCH_COUNT && reports == epoch - 1,
        Phase::SaveCheckpoint => reports == EPOCH_COUNT,
        Phase::Done => reports == EPOCH_COUNT,
        Phase::Failed { .. } => true,
    }
}

/// Every transition preserves the report count invariant.
pub proof fn lemma_reports_inv_preserved(p: Phase, ev: Event, reports: nat)
    requires
        reports_inv(p, reports),
    ensures
        reports_inv(
            next_phase(p, ev),
            reports + (if counted_report(p, ev) {
                1nat
            } else {
                0nat
            }),
        ),
{
}

/// The terminal phases consume any events without moving.
pub proof fn lemma_run_terminal(p: Phase, evs: Seq<Event>)
    requires
        p == Phase::Done || p matches Phase::Failed { .. },
    ensures
        run_phase(p, evs) == p,
    decreases evs.len(),
{
    if evs.len() > 0 {
        lemma_terminal_phases(p, evs[0]);
        lemma_run_terminal(p, evs.skip(1));
    }
}

/// Counting from any phase that satisfies the invariant, a run that
/// ends in `Done` brings the total number of loss lines to exactly
/// `EPOCH_COUNT`.
pub proof fn lemma_reports_in_complete_run(p: Phase, evs: Seq<Event>, reports: nat)
    requires
        reports_inv(p, reports),
        run_phase(p, evs) == Phase::Done,
    ensures
        reports + count_reports(p, evs) == EPOCH_COUNT,
    decreases evs.len(),
{
    if evs.len() == 0 {
    } else {
        let p2 = next_phase(p, evs[0]);
        if p2 matches Phase::Failed { .. } {
            lemma_run_terminal(p2, evs.skip(1));
        }
        lemma_reports_inv_preserved(p, evs[0], reports);
        lemma_reports_in_complete_run(
            p2,
            evs.skip(1),
            reports + (if counted_report(p, evs[0]) {
                1nat
            } else {
                0nat
            }),
        );
    }
}

/// A run trains for exactly `EPOCH_COUNT` epochs: whatever events the
/// driver reports, a run that starts at the beginning and ends in
/// `Done` prints exactly `EPOCH_COUNT` epoch loss lines.
pub proof fn lemma_complete_run_reports_every_epoch(evs: Seq<Event>)
    requires
        run_phase(Phase::ProbeDevice, evs) == Phase::Done,
    ensures
        count_reports(Phase::ProbeDevice, evs) == EPOCH_COUNT,
{
    lemma_reports_in_complete_run(Phase::ProbeDevice, evs, 0);
}

/// Each failure arises exactly at its own stage: the transition into
/// `Failed { error }` is the failing answer of the stage that `error`
/// names.
pub proof fn lemma_error_causes(p: Phase, ev: Event, error: ErrorKind)
    requires
        next_phase(p, ev) == (Phase::Failed { error }),
        !(p matches Phase::Failed { .. }),
    ensures
        error == ErrorKind::CheckpointLoad ==> p == Phase::LoadCheckpoint && ev == (
        Event::CheckpointLoaded { ok: false }),
        error == ErrorKind::DatasetLoad ==> p == Phase::LoadDataset && ev == (
        Event::DatasetLoaded { ok: false }),
        error == ErrorKind::OptimizerInit ==> p == Phase::InitOptimizer && ev == (
        Event::OptimizerInitialized { ok: false }),
        error == ErrorKind::TrainStep ==> (p matches Phase::Train { .. }) && ev == (
        Event::BatchStepped { ok: false }),
        error == ErrorKind::Evaluation ==> (p matches Phase::Evaluate { .. }) && ev == (
        Event::Evaluated { ok: false }),
        error == ErrorKind::CheckpointSave ==> p == Phase::SaveCheckpoint && ev == (
        Event::CheckpointSaved { ok: false }),
{
}

} // verus!
