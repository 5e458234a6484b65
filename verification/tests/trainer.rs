use autoenc::select_device;
use autoenc::trainer::{Action, ErrorKind, Event, Phase, Trainer};
use autoenc::DeviceKind;

fn start_training(exists: bool) -> Trainer {
    let mut t = Trainer::new();
    t.step(Event::DeviceProbed { accelerated: false });
    t.step(Event::CheckpointProbed { exists });
    if exists {
        t.step(Event::CheckpointLoaded { ok: true });
    }
    t.step(Event::ModelBuilt);
    t.step(Event::DatasetLoaded { ok: true });
    t.step(Event::OptimizerInitialized { ok: true });
    t
}

#[test]
fn full_run_reaches_done() {
    let mut t = Trainer::new();
    assert_eq!(t.current_action(), Action::ProbeDevice);
    t.step(Event::DeviceProbed { accelerated: true });
    assert_eq!(t.current_action(), Action::ProbeCheckpoint);
    t.step(Event::CheckpointProbed { exists: false });
    assert_eq!(t.current_action(), Action::BuildModel);
    t.step(Event::ModelBuilt);
    assert_eq!(t.current_action(), Action::LoadDataset);
    t.step(Event::DatasetLoaded { ok: true });
    assert_eq!(t.current_action(), Action::InitOptimizer);
    t.step(Event::OptimizerInitialized { ok: true });
    for epoch in 1..=10u64 {
        assert_eq!(t.phase, Phase::Train { epoch });
        assert_eq!(t.current_action(), Action::TrainNextBatch);
        t.step(Event::BatchStepped { ok: true });
        t.step(Event::BatchStepped { ok: true });
        t.step(Event::EpochBatchesDone);
        assert_eq!(t.current_action(), Action::Evaluate);
        t.step(Event::Evaluated { ok: true });
        assert_eq!(t.current_action(), Action::ReportEpoch { epoch });
        t.step(Event::Reported);
    }
    assert_eq!(t.opt_steps, 20);
    assert_eq!(t.current_action(), Action::SaveCheckpoint);
    t.step(Event::CheckpointSaved { ok: true });
    assert_eq!(t.phase, Phase::Done);
    assert_eq!(t.current_action(), Action::ReportSuccess);
    assert!(t.is_finished());
}

#[test]
fn missing_checkpoint_proceeds_and_saves() {
    // No checkpoint: the run goes straight to building the model,
    // and a checkpoint is written at the end of the run.
    let mut t = Trainer::new();
    t.step(Event::DeviceProbed { accelerated: false });
    t.step(Event::CheckpointProbed { exists: false });
    assert_eq!(t.phase, Phase::BuildModel);
    t.step(Event::ModelBuilt);
    t.step(Event::DatasetLoaded { ok: true });
    t.step(Event::OptimizerInitialized { ok: true });
    for _ in 1..=10u64 {
        t.step(Event::EpochBatchesDone);
        t.step(Event::Evaluated { ok: true });
        t.step(Event::Reported);
    }
    assert_eq!(t.phase, Phase::SaveCheckpoint);
    t.step(Event::CheckpointSaved { ok: true });
    assert_eq!(t.phase, Phase::Done);
}

#[test]
fn existing_checkpoint_is_loaded() {
    let mut t = Trainer::new();
    t.step(Event::DeviceProbed { accelerated: false });
    t.step(Event::CheckpointProbed { exists: true });
    assert_eq!(t.phase, Phase::LoadCheckpoint);
    assert_eq!(t.current_action(), Action::LoadCheckpoint);
    t.step(Event::CheckpointLoaded { ok: true });
    assert_eq!(t.phase, Phase::BuildModel);
}

#[test]
fn empty_training_split_skips_optimizer() {
    // An epoch with zero batches: no optimizer step, no error, and the
    // evaluation still runs.
    let mut t = start_training(false);
    assert_eq!(t.phase, Phase::Train { epoch: 1 });
    t.step(Event::EpochBatchesDone);
    assert_eq!(t.phase, Phase::Evaluate { epoch: 1 });
    assert_eq!(t.opt_steps, 0);
    t.step(Event::Evaluated { ok: true });
    assert_eq!(t.phase, Phase::Report { epoch: 1 });
    t.step(Event::Reported);
    assert_eq!(t.phase, Phase::Train { epoch: 2 });
}

#[test]
fn one_batch_epoch_evaluates_after_one_step() {
    // One training batch and a test split: the first epoch takes
    // exactly one optimizer step, then evaluates on the test split
    // with the post-update parameters and reports epoch 1.
    let mut t = start_training(false);
    t.step(Event::BatchStepped { ok: true });
    assert_eq!(t.phase, Phase::Train { epoch: 1 });
    assert_eq!(t.opt_steps, 1);
    t.step(Event::EpochBatchesDone);
    assert_eq!(t.phase, Phase::Evaluate { epoch: 1 });
    t.step(Event::Evaluated { ok: true });
    assert_eq!(t.current_action(), Action::ReportEpoch { epoch: 1 });
    assert_eq!(t.opt_steps, 1);
}

#[test]
fn checkpoint_load_failure_is_fatal() {
    let mut t = Trainer::new();
    t.step(Event::DeviceProbed { accelerated: false });
    t.step(Event::CheckpointProbed { exists: true });
    t.step(Event::CheckpointLoaded { ok: false });
    assert_eq!(t.phase, Phase::Failed { error: ErrorKind::CheckpointLoad });
    assert_eq!(
        t.current_action(),
        Action::ReportFailure { error: ErrorKind::CheckpointLoad }
    );
    assert!(t.is_finished());
    // Fatal: no event moves the run out of the failed state.
    t.step(Event::ModelBuilt);
    assert_eq!(t.phase, Phase::Failed { error: ErrorKind::CheckpointLoad });
}

#[test]
fn dataset_load_failure_is_fatal() {
    let mut t = Trainer::new();
    t.step(Event::DeviceProbed { accelerated: false });
    t.step(Event::CheckpointProbed { exists: false });
    t.step(Event::ModelBuilt);
    t.step(Event::DatasetLoaded { ok: false });
    assert_eq!(t.phase, Phase::Failed { error: ErrorKind::DatasetLoad });
}

#[test]
fn optimizer_init_failure_is_fatal() {
    let mut t = Trainer::new();
    t.step(Event::DeviceProbed { accelerated: false });
    t.step(Event::CheckpointProbed { exists: false });
    t.step(Event::ModelBuilt);
    t.step(Event::DatasetLoaded { ok: true });
    t.step(Event::OptimizerInitialized { ok: false });
    assert_eq!(t.phase, Phase::Failed { error: ErrorKind::OptimizerInit });
}

#[test]
fn train_step_failure_is_fatal() {
    let mut t = start_training(false);
    t.step(Event::BatchStepped { ok: false });
    assert_eq!(t.phase, Phase::Failed { error: ErrorKind::TrainStep });
    assert_eq!(t.opt_steps, 0);
}

#[test]
fn evaluation_failure_is_fatal() {
    let mut t = start_training(false);
    t.step(Event::EpochBatchesDone);
    t.step(Event::Evaluated { ok: false });
    assert_eq!(t.phase, Phase::Failed { error: ErrorKind::Evaluation });
}

#[test]
fn checkpoint_save_failure_is_fatal() {
    let mut t = start_training(false);
    for _ in 1..=10u64 {
        t.step(Event::EpochBatchesDone);
        t.step(Event::Evaluated { ok: true });
        t.step(Event::Reported);
    }
    t.step(Event::CheckpointSaved { ok: false });
    assert_eq!(t.phase, Phase::Failed { error: ErrorKind::CheckpointSave });
}

#[test]
fn done_is_terminal() {
    let mut t = start_training(false);
    for _ in 1..=10u64 {
        t.step(Event::EpochBatchesDone);
        t.step(Event::Evaluated { ok: true });
        t.step(Event::Reported);
    }
    t.step(Event::CheckpointSaved { ok: true });
    assert_eq!(t.phase, Phase::Done);
    t.step(Event::DeviceProbed { accelerated: true });
    assert_eq!(t.phase, Phase::Done);
    assert_eq!(t.current_action(), Action::ReportSuccess);
}

#[test]
fn device_selection_prefers_acceleration() {
    assert_eq!(select_device(true), DeviceKind::Accelerated);
    assert_eq!(select_device(false), DeviceKind::Standard);
}

#[test]
fn epoch_labels_are_width_padded() {
    assert_eq!(autoenc::trainer::epoch_label(1), "  1");
    assert_eq!(autoenc::trainer::epoch_label(2), "  2");
    assert_eq!(autoenc::trainer::epoch_label(9), "  9");
    assert_eq!(autoenc::trainer::epoch_label(10), " 10");
    for epoch in 1..=10u64 {
        assert_eq!(autoenc::trainer::epoch_label(epoch).len(), 3);
        assert_eq!(
            autoenc::trainer::epoch_label(epoch).trim(),
            format!("{}", epoch)
        );
    }
}

#[test]
fn fixed_paths() {
    assert_eq!(autoenc::trainer::checkpoint_path(), "model.tch");
    assert_eq!(autoenc::trainer::dataset_dir(), "data");
}

#[test]
fn training_constants() {
    assert_eq!(autoenc::trainer::EPOCH_COUNT, 10);
    assert_eq!(autoenc::trainer::BATCH_SIZE, 64);
    assert_eq!(autoenc::trainer::LEARNING_RATE_NUMER, 1);
    assert_eq!(autoenc::trainer::LEARNING_RATE_DENOM, 100);
    // The constant learning rate of the run.
    let lr = autoenc::trainer::LEARNING_RATE_NUMER as f64
        / autoenc::trainer::LEARNING_RATE_DENOM as f64;
    assert!(lr == 0.01);
}
