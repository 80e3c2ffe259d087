//! What the interface does with the progress events of its background runs: each event
//! updates the tab's figures and adds a line to the tab's log.
use vstd::prelude::*;
use crate::text::{aligned_number, decimal, right_aligned, usize_text};
use crate::training::{TrainingEvent, TrainingEventView};
use crate::tui::app::{MAX_LOG_LINES, lemma_trim_log, trim_log, trimmed_log};
use crate::tui::state::{
    RunStatus, TestingTabState, TestingTabView, TrainingTabState, TrainingTabView, log_view,
};
use crate::tui::workers::{TestingEvent, TestingEventView};

verus! {

// ── Training ──

/// The log line a training event adds.
pub open spec fn training_event_line(e: TrainingEventView) -> Seq<char> {
    match e {
        TrainingEventView::Started { dataset_size, num_params } => "Dataset: "@ + decimal(
            dataset_size as nat,
        ) + " images, Params: "@ + decimal(num_params as nat),
        TrainingEventView::EpochStarted { epoch, total_epochs } => "Epoch "@ + decimal(
            epoch as nat,
        ) + "/"@ + decimal(total_epochs as nat) + " started"@,
        TrainingEventView::StepCompleted { epoch, global_step, loss, avg_loss, samples } =>
            "[Epoch "@ + right_aligned(decimal(epoch as nat), 4) + " | Step "@ + right_aligned(
            decimal(global_step as nat),
            6,
        ) + "] loss="@ + loss.text + " avg="@ + avg_loss.text + " samples="@ + decimal(
            samples as nat,
        ),
        TrainingEventView::EpochCompleted { epoch, avg_loss } => "Epoch "@ + decimal(
            epoch as nat,
        ) + " completed, avg_loss="@ + avg_loss.text,
        TrainingEventView::CheckpointSaved { step } => "Checkpoint saved: step="@ + decimal(
            step as nat,
        ),
        TrainingEventView::Completed { total_steps } => "Training completed! Total steps: "@
            + decimal(total_steps as nat),
        TrainingEventView::Error(msg) => "ERROR: "@ + msg,
    }
}

/// The training tab after an event. The events of a run's start (dataset, epoch start) add
/// their line without trimming the log; all others trim it to its newest lines.
pub open spec fn training_event_effect(t: TrainingTabView, e: TrainingEventView) -> TrainingTabView {
    let line = training_event_line(e);
    match e {
        TrainingEventView::Started { dataset_size, num_params } => TrainingTabView {
            dataset_size,
            num_params,
            log: t.log.push(line),
            ..t
        },
        TrainingEventView::EpochStarted { epoch, total_epochs } => TrainingTabView {
            current_epoch: epoch,
            total_epochs,
            log: t.log.push(line),
            ..t
        },
        TrainingEventView::StepCompleted { epoch, global_step, loss, avg_loss, samples } =>
            TrainingTabView {
            current_epoch: epoch,
            global_step,
            current_loss: loss,
            avg_loss,
            samples_seen: samples,
            log: trimmed_log(t.log.push(line)),
            ..t
        },
        TrainingEventView::EpochCompleted { epoch, avg_loss } => TrainingTabView {
            current_epoch: epoch,
            avg_loss,
            log: trimmed_log(t.log.push(line)),
            ..t
        },
        TrainingEventView::CheckpointSaved { .. } => TrainingTabView {
            log: trimmed_log(t.log.push(line)),
            ..t
        },
        TrainingEventView::Completed { .. } => TrainingTabView {
            status: RunStatus::Completed,
            log: trimmed_log(t.log.push(line)),
            ..t
        },
        TrainingEventView::Error(_) => TrainingTabView {
            log: trimmed_log(t.log.push(line)),
            ..t
        },
    }
}

/// Appends `tail` to `text`.
fn append_text(text: &mut String, tail: &str)
    ensures
        final(text)@ == old(text)@ + tail@,
{
    text.append(tail);
}

/// Renders the log line of a training event.
pub fn training_event_text(e: &TrainingEvent) -> (r: String)
    ensures
        r@ == training_event_line(e@),
{
    match e {
        TrainingEvent::Started { dataset_size, num_params } => {
            let mut r = String::from_str("Dataset: ");
            append_text(&mut r, usize_text(*dataset_size).as_str());
            append_text(&mut r, " images, Params: ");
            append_text(&mut r, usize_text(*num_params).as_str());
            r
        },
        TrainingEvent::EpochStarted { epoch, total_epochs } => {
            let mut r = String::from_str("Epoch ");
            append_text(&mut r, usize_text(*epoch).as_str());
            append_text(&mut r, "/");
            append_text(&mut r, usize_text(*total_epochs).as_str());
            append_text(&mut r, " started");
            r
        },
        TrainingEvent::StepCompleted { epoch, global_step, loss, avg_loss, samples } => {
            let mut r = String::from_str("[Epoch ");
            append_text(&mut r, aligned_number(*epoch, 4).as_str());
            append_text(&mut r, " | Step ");
            append_text(&mut r, aligned_number(*global_step, 6).as_str());
            append_text(&mut r, "] loss=");
            append_text(&mut r, loss.text.as_str());
            append_text(&mut r, " avg=");
            append_text(&mut r, avg_loss.text.as_str());
            append_text(&mut r, " samples=");
            append_text(&mut r, usize_text(*samples).as_str());
            r
        },
        TrainingEvent::EpochCompleted { epoch, avg_loss } => {
            let mut r = String::from_str("Epoch ");
            append_text(&mut r, usize_text(*epoch).as_str());
            append_text(&mut r, " completed, avg_loss=");
            append_text(&mut r, avg_loss.text.as_str());
            r
        },
        TrainingEvent::CheckpointSaved { step } => {
            let mut r = String::from_str("Checkpoint saved: step=");
            append_text(&mut r, usize_text(*step).as_str());
            r
        },
        TrainingEvent::Completed { total_steps } => {
            let mut r = String::from_str("Training completed! Total steps: ");
            append_text(&mut r, usize_text(*total_steps).as_str());
            r
        },
        TrainingEvent::Error(msg) => {
            let mut r = String::from_str("ERROR: ");
            append_text(&mut r, msg.as_str());
            r
        },
    }
}

/// Applies one training event to the training tab.
pub fn apply_training_event(t: &mut TrainingTabState, event: TrainingEvent)
    ensures
        final(t)@ == training_event_effect(old(t)@, event@),
{
    let line = training_event_text(&event);
    let ghost before = log_view(t.log@);
    t.log.push(line);
    proof {
        assert(log_view(t.log@) =~= before.push(training_event_line(event@)));
    }
    match event {
        TrainingEvent::Started { dataset_size, num_params } => {
            t.dataset_size = dataset_size;
            t.num_params = num_params;
        },
        TrainingEvent::EpochStarted { epoch, total_epochs } => {
            t.current_epoch = epoch;
            t.total_epochs = total_epochs;
        },
        TrainingEvent::StepCompleted { epoch, global_step, loss, avg_loss, samples } => {
            t.current_epoch = epoch;
            t.global_step = global_step;
            t.current_loss = loss;
            t.avg_loss = avg_loss;
            t.samples_seen = samples;
            trim_rendered(&mut t.log);
        },
        TrainingEvent::EpochCompleted { epoch, avg_loss } => {
            t.current_epoch = epoch;
            t.avg_loss = avg_loss;
            trim_rendered(&mut t.log);
        },
        TrainingEvent::CheckpointSaved { .. } => {
            trim_rendered(&mut t.log);
        },
        TrainingEvent::Completed { .. } => {
            t.status = RunStatus::Completed;
            trim_rendered(&mut t.log);
        },
        TrainingEvent::Error(_) => {
            trim_rendered(&mut t.log);
        },
    }
}

/// `trim_log`, stated over the text of the lines.
fn trim_rendered(log: &mut Vec<String>)
    ensures
        log_view(final(log)@) == trimmed_log(log_view(old(log)@)),
{
    trim_log(log);
    proof {
        assert(log_view(trimmed_log(old(log)@)) =~= trimmed_log(log_view(old(log)@)));
    }
}

// ── Testing ──

/// Whether an item-completed event is logged: every tenth item, and the last one.
pub open spec fn item_logged(completed: usize, total: usize) -> bool {
    completed % 10 == 0 || completed == total
}

/// The testing tab after an event.
pub open spec fn testing_event_effect(t: TestingTabView, e: TestingEventView) -> TestingTabView {
    match e {
        TestingEventView::AutoTestStarted { total_filters, total_checkpoints } => {
            let total = total_filters * total_checkpoints;
            TestingTabView {
                total: total as usize,
                log: t.log.push(
                    "Auto test: "@ + decimal(total_checkpoints as nat) + " checkpoints × "@
                        + decimal(total_filters as nat) + " filters = "@ + decimal(total as nat)
                        + " total"@,
                ),
                ..t
            }
        },
        TestingEventView::AutoTestCheckpointStarted { checkpoint } => TestingTabView {
            current_item: "Checkpoint: "@ + checkpoint,
            log: trimmed_log(t.log.push("Testing checkpoint: "@ + checkpoint)),
            ..t
        },
        TestingEventView::AutoTestItemCompleted { checkpoint, filter, completed, total } =>
            TestingTabView {
            completed,
            total,
            current_item: checkpoint + " / "@ + filter,
            log: if item_logged(completed, total) {
                trimmed_log(
                    t.log.push(
                        "["@ + decimal(completed as nat) + "/"@ + decimal(total as nat) + "] "@
                            + checkpoint + " "@ + filter,
                    ),
                )
            } else {
                t.log
            },
            ..t
        },
        TestingEventView::AutoTestCompleted => TestingTabView {
            status: RunStatus::Completed,
            log: t.log.push("Auto test completed!"@),
            ..t
        },
        TestingEventView::DirectInferenceStarted => TestingTabView {
            log: t.log.push("Running inference..."@),
            ..t
        },
        TestingEventView::DirectInferenceCompleted { output_path } => TestingTabView {
            status: RunStatus::Completed,
            completed: 1,
            total: 1,
            log: t.log.push("Inference completed! Output: "@ + output_path),
            ..t
        },
        TestingEventView::Error(msg) => TestingTabView {
            log: trimmed_log(t.log.push("ERROR: "@ + msg)),
            ..t
        },
        TestingEventView::Log(msg) => TestingTabView { log: trimmed_log(t.log.push(msg)), ..t },
    }
}

/// Applies one testing event to the testing tab.
pub fn apply_testing_event(t: &mut TestingTabState, event: TestingEvent)
    requires
        event matches TestingEvent::AutoTestStarted { total_filters, total_checkpoints }
            ==> total_filters * total_checkpoints <= usize::MAX,
    ensures
        final(t)@ == testing_event_effect(old(t)@, event@),
{
    let ghost before = log_view(t.log@);
    match event {
        TestingEvent::AutoTestStarted { total_filters, total_checkpoints } => {
            t.total = total_filters * total_checkpoints;
            let mut line = String::from_str("Auto test: ");
            append_text(&mut line, usize_text(total_checkpoints).as_str());
            append_text(&mut line, " checkpoints × ");
            append_text(&mut line, usize_text(total_filters).as_str());
            append_text(&mut line, " filters = ");
            append_text(&mut line, usize_text(t.total).as_str());
            append_text(&mut line, " total");
            let ghost l = line@;
            t.log.push(line);
            proof {
                assert(log_view(t.log@) =~= before.push(l));
            }
        },
        TestingEvent::AutoTestCheckpointStarted { checkpoint } => {
            let mut item = String::from_str("Checkpoint: ");
            append_text(&mut item, checkpoint.as_str());
            t.current_item = item;
            let mut line = String::from_str("Testing checkpoint: ");
            append_text(&mut line, checkpoint.as_str());
            let ghost l = line@;
            t.log.push(line);
            proof {
                assert(log_view(t.log@) =~= before.push(l));
            }
            trim_rendered(&mut t.log);
        },
        TestingEvent::AutoTestItemCompleted { checkpoint, filter, completed, total } => {
            t.completed = completed;
            t.total = total;
            let mut item = checkpoint.clone();
            append_text(&mut item, " / ");
            append_text(&mut item, filter.as_str());
            t.current_item = item;
            if completed % 10 == 0 || completed == total {
                let mut line = String::from_str("[");
                append_text(&mut line, usize_text(completed).as_str());
                append_text(&mut line, "/");
                append_text(&mut line, usize_text(total).as_str());
                append_text(&mut line, "] ");
                append_text(&mut line, checkpoint.as_str());
                append_text(&mut line, " ");
                append_text(&mut line, filter.as_str());
                let ghost l = line@;
                t.log.push(line);
                proof {
                    assert(log_view(t.log@) =~= before.push(l));
                }
                trim_rendered(&mut t.log);
            }
        },
        TestingEvent::AutoTestCompleted => {
            t.status = RunStatus::Completed;
            t.log.push(String::from_str("Auto test completed!"));
            proof {
                assert(log_view(t.log@) =~= before.push("Auto test completed!"@));
            }
        },
        TestingEvent::DirectInferenceStarted => {
            t.log.push(String::from_str("Running inference..."));
            proof {
                assert(log_view(t.log@) =~= before.push("Running inference..."@));
            }
        },
        TestingEvent::DirectInferenceCompleted { output_path } => {
            t.status = RunStatus::Completed;
            t.completed = 1;
            t.total = 1;
            let mut line = String::from_str("Inference completed! Output: ");
            append_text(&mut line, output_path.as_str());
            let ghost l = line@;
            t.log.push(line);
            proof {
                assert(log_view(t.log@) =~= before.push(l));
            }
        },
        TestingEvent::Error(msg) => {
            let mut line = String::from_str("ERROR: ");
            append_text(&mut line, msg.as_str());
            let ghost l = line@;
            t.log.push(line);
            proof {
                assert(log_view(t.log@) =~= before.push(l));
            }
            trim_rendered(&mut t.log);
        },
        TestingEvent::Log(msg) => {
            let ghost l = msg@;
            t.log.push(msg);
            proof {
                assert(log_view(t.log@) =~= before.push(l));
            }
            trim_rendered(&mut t.log);
        },
    }
}

// ── Laws of the progress figures ──

/// A training event sets exactly the figures it carries and leaves the form alone: `Started`
/// the dataset size and parameter count; `EpochStarted` the epoch and the epoch count;
/// `StepCompleted` the epoch, step, loss, average loss and samples; `EpochCompleted` the
/// epoch and the average loss; `Completed` marks the run complete. The log's newest line is the
/// event's line.
pub proof fn lemma_training_event_figures(t: TrainingTabView, e: TrainingEventView)
    ensures
        ({
            let t1 = training_event_effect(t, e);
            &&& t1.dataset_size == match e {
                TrainingEventView::Started { dataset_size, .. } => dataset_size,
                _ => t.dataset_size,
            }
            &&& t1.num_params == match e {
                TrainingEventView::Started { num_params, .. } => num_params,
                _ => t.num_params,
            }
            &&& t1.current_epoch == match e {
                TrainingEventView::EpochStarted { epoch, .. } => epoch,
                TrainingEventView::StepCompleted { epoch, .. } => epoch,
                TrainingEventView::EpochCompleted { epoch, .. } => epoch,
                _ => t.current_epoch,
            }
            &&& t1.total_epochs == match e {
                TrainingEventView::EpochStarted { total_epochs, .. } => total_epochs,
                _ => t.total_epochs,
            }
            &&& t1.global_step == match e {
                TrainingEventView::StepCompleted { global_step, .. } => global_step,
                _ => t.global_step,
            }
            &&& t1.current_loss == match e {
                TrainingEventView::StepCompleted { loss, .. } => loss,
                _ => t.current_loss,
            }
            &&& t1.avg_loss == match e {
                TrainingEventView::StepCompleted { avg_loss, .. } => avg_loss,
                TrainingEventView::EpochCompleted { avg_loss, .. } => avg_loss,
                _ => t.avg_loss,
            }
            &&& t1.samples_seen == match e {
                TrainingEventView::StepCompleted { samples, .. } => samples,
                _ => t.samples_seen,
            }
            &&& t1.status == if e is Completed {
                RunStatus::Completed
            } else {
                t.status
            }
            &&& t1.focused_field == t.focused_field
            &&& t1.checkpoint_dir == t.checkpoint_dir
            &&& t1.dataset_dir == t.dataset_dir
            &&& t1.num_epochs == t.num_epochs
            &&& t1.crop_size == t.crop_size
            &&& t1.full_resolution == t.full_resolution
            &&& t1.use_camera_filters == t.use_camera_filters
            &&& t1.log.len() > 0
            &&& t1.log.last() == training_event_line(e)
        }),
{
    let l = t.log.push(training_event_line(e));
    lemma_trim_log(l);
}

/// A testing event sets exactly the figures it carries: `AutoTestStarted` the total (filters
/// × checkpoints); `AutoTestCheckpointStarted` the current item; `AutoTestItemCompleted` the
/// completed count, the total and the current item; `DirectInferenceCompleted` one of one
/// done; the two completion events mark the run complete. The mode and the form stay as they
/// are.
pub proof fn lemma_testing_event_figures(t: TestingTabView, e: TestingEventView)
    ensures
        ({
            let t1 = testing_event_effect(t, e);
            &&& t1.completed == match e {
                TestingEventView::AutoTestItemCompleted { completed, .. } => completed,
                TestingEventView::DirectInferenceCompleted { .. } => 1,
                _ => t.completed,
            }
            &&& match e {
                TestingEventView::AutoTestStarted { total_filters, total_checkpoints } =>
                    total_filters * total_checkpoints <= usize::MAX ==> t1.total == total_filters
                    * total_checkpoints,
                TestingEventView::AutoTestItemCompleted { total, .. } => t1.total == total,
                TestingEventView::DirectInferenceCompleted { .. } => t1.total == 1,
                _ => t1.total == t.total,
            }
            &&& t1.current_item == match e {
                TestingEventView::AutoTestCheckpointStarted { checkpoint } => "Checkpoint: "@
                    + checkpoint,
                TestingEventView::AutoTestItemCompleted { checkpoint, filter, .. } => checkpoint
                    + " / "@ + filter,
                _ => t.current_item,
            }
            &&& t1.status == if e is AutoTestCompleted || e is DirectInferenceCompleted {
                RunStatus::Completed
            } else {
                t.status
            }
            &&& t1.mode == t.mode
            &&& t1.focused_field == t.focused_field
            &&& t1.test_image == t.test_image
            &&& t1.checkpoint_path == t.checkpoint_path
            &&& t1.output_dir == t.output_dir
            &&& t1.main_image == t.main_image
            &&& t1.reference_image == t.reference_image
            &&& t1.output_path == t.output_path
            &&& (e matches TestingEventView::Error(msg) ==> t1.log.last() == "ERROR: "@ + msg)
            &&& (e matches TestingEventView::Log(msg) ==> t1.log.last() == msg)
            &&& (e is AutoTestCompleted ==> t1.log.last() == "Auto test completed!"@)
            &&& (e matches TestingEventView::DirectInferenceCompleted { output_path }
                ==> t1.log.last() == "Inference completed! Output: "@ + output_path)
        }),
{
    match e {
        TestingEventView::Error(msg) => lemma_trim_log(t.log.push("ERROR: "@ + msg)),
        TestingEventView::Log(msg) => lemma_trim_log(t.log.push(msg)),
        _ => {},
    }
}

// ── Laws of the progress logs ──

/// A training event adds at most one line to the training log; every event but those that
/// open a run (`Started`, `EpochStarted`) leaves at most `MAX_LOG_LINES` lines.
pub proof fn lemma_training_log_bounded(t: TrainingTabView, e: TrainingEventView)
    ensures
        training_event_effect(t, e).log.len() <= t.log.len() + 1,
        !(e is Started || e is EpochStarted) ==> training_event_effect(t, e).log.len()
            <= MAX_LOG_LINES,
{
    lemma_trim_log(t.log.push(training_event_line(e)));
}

/// A testing event adds at most one line to the testing log. The events that log progress,
/// messages and errors leave at most `MAX_LOG_LINES` lines; an item event that is not logged
/// leaves the log as it was.
pub proof fn lemma_testing_log_bounded(t: TestingTabView, e: TestingEventView)
    ensures
        testing_event_effect(t, e).log.len() <= t.log.len() + 1,
        (e is AutoTestCheckpointStarted || e is Error || e is Log) ==> testing_event_effect(
            t,
            e,
        ).log.len() <= MAX_LOG_LINES,
        (e matches TestingEventView::AutoTestItemCompleted { completed, total, .. } && item_logged(
            completed,
            total,
        )) ==> testing_event_effect(t, e).log.len() <= MAX_LOG_LINES,
        (e matches TestingEventView::AutoTestItemCompleted { completed, total, .. } && !item_logged(
            completed,
            total,
        )) ==> testing_event_effect(t, e).log == t.log,
{
    match e {
        TestingEventView::AutoTestCheckpointStarted { checkpoint } => {
            lemma_trim_log(t.log.push("Testing checkpoint: "@ + checkpoint));
        },
        TestingEventView::AutoTestItemCompleted { checkpoint, filter, completed, total } => {
            lemma_trim_log(
                t.log.push(
                    "["@ + decimal(completed as nat) + "/"@ + decimal(total as nat) + "] "@
                        + checkpoint + " "@ + filter,
                ),
            );
        },
        TestingEventView::Error(msg) => {
            lemma_trim_log(t.log.push("ERROR: "@ + msg));
        },
        TestingEventView::Log(msg) => {
            lemma_trim_log(t.log.push(msg));
        },
        _ => {},
    }
}

} // verus!
