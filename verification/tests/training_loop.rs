use upscaler::training_loop::{training_step, StepOutcome, TrainingAction, TrainingLoop};

fn names(actions: &[TrainingAction]) -> Vec<String> {
    actions
        .iter()
        .map(|a| match a {
            TrainingAction::SendEpochStarted { epoch, total_epochs } => format!("start {}/{}", epoch, total_epochs),
            TrainingAction::ReportStep { epoch, global_step, samples } => {
                format!("report {} {} {}", epoch, global_step, samples)
            }
            TrainingAction::SendError(t) => format!("error {}", t),
            TrainingAction::SaveCheckpoint { step } => format!("save {}", step),
            TrainingAction::SendCheckpointSaved { step } => format!("saved {}", step),
            TrainingAction::SendEpochCompleted { epoch } => format!("end {}", epoch),
            TrainingAction::SendCompleted { total_steps } => format!("completed {}", total_steps),
        })
        .collect()
}

// Drives a run, answering each request with the next of `failures` for steps (true = the crop
// failed), never cancelling.
fn drive(epochs: usize, steps: usize, every: usize, failures: &[bool]) -> Vec<String> {
    let mut run = TrainingLoop::new(epochs, steps, every);
    let mut log = Vec::new();
    let mut k = 0;
    while !run.is_done() {
        let outcome = if run.wants_step() {
            let failed = failures.get(k).copied().unwrap_or(false);
            k += 1;
            if failed {
                StepOutcome::CropFailed("bad.png".into())
            } else {
                StepOutcome::Trained
            }
        } else {
            StepOutcome::Proceed
        };
        log.extend(names(&training_step(&mut run, outcome)));
    }
    log
}

#[test]
fn a_run_follows_the_schedule() {
    let log = drive(2, 3, 2, &[false, true, false, false, false, false]);
    assert_eq!(
        log,
        vec![
            "start 1/2",
            "report 1 1 1",
            "error 跳过: bad.png",
            "save 2",
            "saved 2",
            "end 1",
            "save 2",
            "start 2/2",
            "save 4",
            "saved 4",
            "end 2",
            "save 5",
            "completed 5",
        ]
    );
}

#[test]
fn reports_every_fiftieth_step() {
    let log = drive(1, 120, 100, &[]);
    let reports: Vec<&String> = log.iter().filter(|l| l.starts_with("report")).collect();
    assert_eq!(reports, vec!["report 1 1 1", "report 1 50 50", "report 1 100 100"]);
    assert!(log.contains(&"saved 100".to_string()));
    assert_eq!(log.last().unwrap(), "completed 120");
}

#[test]
fn an_empty_run_completes_at_once() {
    assert_eq!(drive(0, 10, 5, &[]), vec!["completed 0"]);
    assert_eq!(drive(1, 0, 5, &[]), vec!["start 1/1", "end 1", "save 0", "completed 0"]);
}

#[test]
fn cancelling_stops_without_more_events() {
    let mut run = TrainingLoop::new(3, 4, 2);
    assert!(run.checks_cancel());
    let a = training_step(&mut run, StepOutcome::Proceed);
    assert_eq!(names(&a), vec!["start 1/3"]);
    let a = training_step(&mut run, StepOutcome::Trained);
    assert_eq!(names(&a), vec!["report 1 1 1"]);
    assert!(run.checks_cancel());
    let a = training_step(&mut run, StepOutcome::Cancelled);
    assert!(a.is_empty());
    assert!(run.is_done());
}
