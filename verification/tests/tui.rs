use upscaler::training::{Loss, TrainingEvent};
use upscaler::tui::app::{
    settings_field_next, settings_field_prev, test_field_label, test_field_next, test_field_prev,
    test_field_value, train_field_label, train_field_next, train_field_prev, train_field_value,
    trim_log, AppAction, KeyInput, MAX_LOG_LINES,
};
use upscaler::tui::progress::{apply_testing_event, apply_training_event};
use upscaler::tui::state::{
    AppState, Backend, InputMode, RunStatus, SettingsField, Tab, TestField, TestingMode,
    TestingTabState, TrainField, TrainingTabState,
};
use upscaler::tui::workers::{
    auto_test_inputs, filter_name, format_panic, log_line, reference_size_matches, AutoTestCounter, PanicPayload,
    TestingEvent,
};
use upscaler::augmentation::CameraFilter;

fn press(state: &mut AppState, keys: &[KeyInput]) -> AppAction {
    let mut last = AppAction::Nothing;
    for k in keys {
        last = state.handle_key(*k);
    }
    last
}

fn typed(s: &str) -> Vec<KeyInput> {
    s.chars().map(KeyInput::Char).collect()
}

#[test]
fn defaults() {
    let s = AppState::default();
    assert_eq!(s.active_tab, Tab::Training);
    assert_eq!(s.input_mode, InputMode::Normal);
    assert_eq!(s.training.crop_size, "256");
    assert_eq!(s.training.checkpoint_interval, "500");
    assert!(s.training.use_camera_filters);
    assert_eq!(s.training.current_loss.bits, 0);
    assert_eq!(s.training.current_loss.text, "0.000000");
    assert_eq!(s.testing.output_path, "output.png");
    assert_eq!(s.testing.mode, TestingMode::AutoTest);
    assert_eq!(s.settings.training_backend, Backend::Wgpu);
    assert_eq!(s.settings.inference_backend, Backend::Wgpu);
}

#[test]
fn backend_cycle_and_labels() {
    let mut b = Backend::NdArray;
    let mut seen = vec![];
    for _ in 0..4 {
        seen.push(b.label());
        assert_eq!(b.next().prev(), b);
        b = b.next();
    }
    assert_eq!(b, Backend::NdArray);
    assert_eq!(seen, vec!["NdArray (CPU)", "Wgpu (WebGPU)", "Cuda (NVIDIA)", "Vulkan"]);
    assert_eq!(Backend::NdArray.prev(), Backend::Vulkan);
}

#[test]
fn train_field_navigation_wraps() {
    assert_eq!(train_field_next(TrainField::CheckpointDir), TrainField::ResumeCheckpoint);
    assert_eq!(train_field_prev(TrainField::CheckpointDir), TrainField::StartButton);
    assert_eq!(train_field_next(TrainField::StartButton), TrainField::CheckpointDir);
    let mut f = TrainField::Seed;
    for _ in 0..13 {
        f = train_field_next(f);
    }
    assert_eq!(f, TrainField::Seed);
    assert_eq!(train_field_label(TrainField::StepsPerEpoch), "Steps/Epoch");
    assert_eq!(train_field_label(TrainField::StartButton), "");
    let t = TrainingTabState::default();
    assert_eq!(train_field_value(&t, TrainField::DatasetDir), "./dataset");
    assert_eq!(train_field_value(&t, TrainField::FullResolution), "");
}

#[test]
fn test_field_navigation_depends_on_mode() {
    assert_eq!(test_field_next(TestField::ModeSwitch, TestingMode::AutoTest), TestField::TestImage);
    assert_eq!(
        test_field_next(TestField::ModeSwitch, TestingMode::DirectInference),
        TestField::MainImage
    );
    assert_eq!(test_field_prev(TestField::ModeSwitch, TestingMode::AutoTest), TestField::StartButton);
    assert_eq!(
        test_field_next(TestField::OutputPath, TestingMode::DirectInference),
        TestField::StartButton
    );
    // a field the mode does not show moves as if it were the mode switch
    assert_eq!(test_field_next(TestField::MainImage, TestingMode::AutoTest), TestField::TestImage);
    assert_eq!(test_field_prev(TestField::MainImage, TestingMode::AutoTest), TestField::StartButton);
    assert_eq!(test_field_label(TestField::ReferenceImage), "Reference");
    let t = TestingTabState::default();
    assert_eq!(test_field_value(&t, TestField::CheckpointPath), "checkpoints");
    assert_eq!(test_field_value(&t, TestField::ModeSwitch), "");
}

#[test]
fn settings_fields_alternate() {
    assert_eq!(settings_field_next(SettingsField::TrainingBackend), SettingsField::InferenceBackend);
    assert_eq!(settings_field_prev(SettingsField::TrainingBackend), SettingsField::InferenceBackend);
    assert_eq!(settings_field_next(SettingsField::InferenceBackend), SettingsField::TrainingBackend);
}

#[test]
fn trim_log_keeps_newest_lines() {
    let mut log: Vec<String> = (0..505).map(|i| i.to_string()).collect();
    trim_log(&mut log);
    assert_eq!(log.len(), MAX_LOG_LINES);
    assert_eq!(log[0], "5");
    assert_eq!(log[499], "504");
    let mut short: Vec<String> = vec!["a".into(), "b".into()];
    trim_log(&mut short);
    assert_eq!(short, vec!["a", "b"]);
}

#[test]
fn tab_key_cycles_tabs() {
    let mut s = AppState::default();
    press(&mut s, &[KeyInput::Tab]);
    assert_eq!(s.active_tab, Tab::Testing);
    press(&mut s, &[KeyInput::Tab]);
    assert_eq!(s.active_tab, Tab::Settings);
    press(&mut s, &[KeyInput::Tab]);
    assert_eq!(s.active_tab, Tab::Training);
}

#[test]
fn commands_switch_tabs_and_quit() {
    let mut s = AppState::default();
    press(&mut s, &[KeyInput::Char('/')]);
    assert_eq!(s.input_mode, InputMode::Command);
    press(&mut s, &typed("  TeSt "));
    press(&mut s, &[KeyInput::Enter]);
    assert_eq!(s.input_mode, InputMode::Normal);
    assert_eq!(s.input_buffer, "");
    assert_eq!(s.active_tab, Tab::Testing);
    press(&mut s, &[KeyInput::Char('/')]);
    press(&mut s, &typed("settingz"));
    press(&mut s, &[KeyInput::Backspace, KeyInput::Char('s'), KeyInput::Enter]);
    assert_eq!(s.active_tab, Tab::Settings);
    press(&mut s, &[KeyInput::Char('/'), KeyInput::Char('x'), KeyInput::Esc]);
    assert_eq!(s.input_mode, InputMode::Normal);
    assert!(!s.should_quit);
    press(&mut s, &[KeyInput::Char('/'), KeyInput::Char('q'), KeyInput::Enter]);
    assert!(s.should_quit);
}

#[test]
fn editing_a_training_field() {
    let mut s = AppState::default();
    press(&mut s, &[KeyInput::Down, KeyInput::Down]);
    assert_eq!(s.training.focused_field, TrainField::CropSize);
    press(&mut s, &[KeyInput::Enter]);
    assert_eq!(s.input_mode, InputMode::EditingField);
    assert_eq!(s.editing_field_label, "Crop Size");
    assert_eq!(s.input_buffer, "256");
    press(&mut s, &[KeyInput::Backspace, KeyInput::Backspace, KeyInput::Backspace]);
    press(&mut s, &typed("128"));
    press(&mut s, &[KeyInput::Enter]);
    assert_eq!(s.training.crop_size, "128");
    assert_eq!(s.input_mode, InputMode::Normal);
    // Esc discards an edit
    press(&mut s, &[KeyInput::Enter, KeyInput::Char('9'), KeyInput::Esc]);
    assert_eq!(s.training.crop_size, "128");
}

#[test]
fn toggles_on_the_training_tab() {
    let mut s = AppState::default();
    s.training.focused_field = TrainField::FullResolution;
    press(&mut s, &[KeyInput::Char(' ')]);
    assert!(s.training.full_resolution);
    press(&mut s, &[KeyInput::Enter]);
    assert!(!s.training.full_resolution);
    press(&mut s, &[KeyInput::Down, KeyInput::Char(' ')]);
    assert!(!s.training.use_camera_filters);
}

#[test]
fn starting_training_parses_fields() {
    let mut s = AppState::default();
    s.training.crop_size = "abc".into();
    s.training.num_epochs = "7".into();
    s.training.seed = "+9".into();
    s.training.log.push("old".into());
    s.training.focused_field = TrainField::StartButton;
    let action = press(&mut s, &[KeyInput::Enter]);
    match action {
        AppAction::StartTraining(l) => {
            assert_eq!(l.crop_main_size, 256);
            assert_eq!(l.num_epochs, 7);
            assert_eq!(l.steps_per_epoch, 1000);
            assert_eq!(l.checkpoint_every_steps, 500);
            assert_eq!(l.seed, 9);
            assert_eq!(l.learning_rate, "0.0001");
            assert_eq!(l.dataset_dir, "./dataset");
            assert!(l.use_camera_filters);
        }
        other => panic!("unexpected action {:?}", other),
    }
    assert_eq!(s.training.status, RunStatus::Running);
    assert_eq!(s.training.log, vec!["Training started..."]);
    assert_eq!(s.training.total_epochs, 7);
    // keys are ignored while the run goes on
    let again = press(&mut s, &[KeyInput::Enter, KeyInput::Up]);
    assert!(matches!(again, AppAction::Nothing));
    assert_eq!(s.training.focused_field, TrainField::StartButton);
}

#[test]
fn starting_tests_needs_paths() {
    let mut s = AppState::default();
    s.active_tab = Tab::Testing;
    s.testing.focused_field = TestField::StartButton;
    let a = press(&mut s, &[KeyInput::Enter]);
    assert!(matches!(a, AppAction::Nothing));
    assert_eq!(s.testing.log, vec!["ERROR: Test image path is required"]);
    assert_eq!(s.testing.status, RunStatus::Idle);
    s.testing.test_image = "in.png".into();
    s.settings.inference_backend = Backend::NdArray;
    let a = press(&mut s, &[KeyInput::Enter]);
    match a {
        AppAction::StartAutoTest { test_image, checkpoint_path, output_dir, backend } => {
            assert_eq!(test_image, "in.png");
            assert_eq!(checkpoint_path, "checkpoints");
            assert_eq!(output_dir, "test_output");
            assert_eq!(backend, Backend::NdArray);
        }
        other => panic!("unexpected action {:?}", other),
    }
    assert_eq!(s.testing.status, RunStatus::Running);
    assert_eq!(s.testing.current_item, "Initializing...");
    assert_eq!(s.testing.log, vec!["Auto test started..."]);
}

#[test]
fn direct_inference_mode() {
    let mut s = AppState::default();
    s.active_tab = Tab::Testing;
    press(&mut s, &[KeyInput::Right]);
    assert_eq!(s.testing.mode, TestingMode::DirectInference);
    press(&mut s, &[KeyInput::Char(' ')]);
    assert_eq!(s.testing.mode, TestingMode::AutoTest);
    press(&mut s, &[KeyInput::Enter]);
    assert_eq!(s.testing.mode, TestingMode::DirectInference);
    s.testing.focused_field = TestField::StartButton;
    s.testing.main_image = "m.png".into();
    let a = press(&mut s, &[KeyInput::Enter]);
    assert!(matches!(a, AppAction::Nothing));
    assert_eq!(
        s.testing.log.last().unwrap(),
        "ERROR: Main and reference image paths are required"
    );
    s.testing.reference_image = "r.png".into();
    let a = press(&mut s, &[KeyInput::Enter]);
    assert!(matches!(a, AppAction::StartDirectInference { .. }));
    assert_eq!(s.testing.total, 1);
}

#[test]
fn settings_change_backends() {
    let mut s = AppState::default();
    press(&mut s, &[KeyInput::Tab, KeyInput::Tab]);
    press(&mut s, &[KeyInput::Right]);
    assert_eq!(s.settings.training_backend, Backend::Cuda);
    press(&mut s, &[KeyInput::Down, KeyInput::Left, KeyInput::Left]);
    assert_eq!(s.settings.inference_backend, Backend::Vulkan);
    assert_eq!(s.settings.training_backend, Backend::Cuda);
}

fn loss(bits: u32, text: &str) -> Loss {
    Loss { bits, text: text.into() }
}

#[test]
fn training_events_update_the_tab() {
    let mut t = TrainingTabState::default();
    apply_training_event(&mut t, TrainingEvent::Started { dataset_size: 12, num_params: 3456 });
    apply_training_event(&mut t, TrainingEvent::EpochStarted { epoch: 1, total_epochs: 100 });
    apply_training_event(
        &mut t,
        TrainingEvent::StepCompleted {
            epoch: 1,
            global_step: 50,
            loss: loss(0x3c000000, "0.007812"),
            avg_loss: loss(0x3d000000, "0.031250"),
            samples: 50,
        },
    );
    apply_training_event(&mut t, TrainingEvent::EpochCompleted { epoch: 1, avg_loss: loss(1, "0.100000") });
    apply_training_event(&mut t, TrainingEvent::CheckpointSaved { step: 50 });
    apply_training_event(&mut t, TrainingEvent::Error("disk".into()));
    apply_training_event(&mut t, TrainingEvent::Completed { total_steps: 50 });
    assert_eq!(t.dataset_size, 12);
    assert_eq!(t.num_params, 3456);
    assert_eq!(t.global_step, 50);
    assert_eq!(t.current_loss.bits, 0x3c000000);
    assert_eq!(t.avg_loss.text, "0.100000");
    assert_eq!(t.status, RunStatus::Completed);
    assert_eq!(
        t.log,
        vec![
            "Dataset: 12 images, Params: 3456",
            "Epoch 1/100 started",
            "[Epoch    1 | Step     50] loss=0.007812 avg=0.031250 samples=50",
            "Epoch 1 completed, avg_loss=0.100000",
            "Checkpoint saved: step=50",
            "ERROR: disk",
            "Training completed! Total steps: 50",
        ]
    );
}

#[test]
fn training_log_is_trimmed() {
    let mut t = TrainingTabState::default();
    for i in 0..600 {
        apply_training_event(&mut t, TrainingEvent::CheckpointSaved { step: i });
    }
    assert_eq!(t.log.len(), 500);
    assert_eq!(t.log[0], "Checkpoint saved: step=100");
    // the start of a run adds its line without trimming
    apply_training_event(&mut t, TrainingEvent::EpochStarted { epoch: 2, total_epochs: 3 });
    assert_eq!(t.log.len(), 501);
    apply_training_event(&mut t, TrainingEvent::Error("x".into()));
    assert_eq!(t.log.len(), 500);
    assert_eq!(t.log[0], "Checkpoint saved: step=102");
}

#[test]
fn testing_events_update_the_tab() {
    let mut t = TestingTabState::default();
    apply_testing_event(&mut t, TestingEvent::AutoTestStarted { total_filters: 16, total_checkpoints: 3 });
    assert_eq!(t.total, 48);
    assert_eq!(t.log.last().unwrap(), "Auto test: 3 checkpoints × 16 filters = 48 total");
    apply_testing_event(&mut t, TestingEvent::AutoTestCheckpointStarted { checkpoint: "model_step_500".into() });
    assert_eq!(t.current_item, "Checkpoint: model_step_500");
    let before = t.log.len();
    apply_testing_event(
        &mut t,
        TestingEvent::AutoTestItemCompleted {
            checkpoint: "model_step_500".into(),
            filter: "warm".into(),
            completed: 2,
            total: 48,
        },
    );
    assert_eq!(t.log.len(), before);
    assert_eq!(t.current_item, "model_step_500 / warm");
    apply_testing_event(
        &mut t,
        TestingEvent::AutoTestItemCompleted {
            checkpoint: "model_step_500".into(),
            filter: "cool".into(),
            completed: 10,
            total: 48,
        },
    );
    assert_eq!(t.log.last().unwrap(), "[10/48] model_step_500 cool");
    apply_testing_event(&mut t, TestingEvent::Log("note".into()));
    apply_testing_event(&mut t, TestingEvent::Error("bad".into()));
    apply_testing_event(&mut t, TestingEvent::AutoTestCompleted);
    assert_eq!(t.status, RunStatus::Completed);
    assert_eq!(t.log[t.log.len() - 3..], ["note", "ERROR: bad", "Auto test completed!"]);

    let mut d = TestingTabState::default();
    apply_testing_event(&mut d, TestingEvent::DirectInferenceStarted);
    apply_testing_event(&mut d, TestingEvent::DirectInferenceCompleted { output_path: "o.png".into() });
    assert_eq!(d.completed, 1);
    assert_eq!(d.total, 1);
    assert_eq!(d.log, vec!["Running inference...", "Inference completed! Output: o.png"]);
}

#[test]
fn worker_helpers() {
    assert_eq!(log_line(0, "start"), "[00:00:00] start");
    assert_eq!(log_line(3600 * 25 + 61, "x"), "[01:01:01] x");
    assert_eq!(log_line(86399, ""), "[23:59:59] ");
    assert_eq!(format_panic(&PanicPayload::Str("boom".into())), "boom");
    assert_eq!(format_panic(&PanicPayload::Text("bang".into())), "bang");
    assert_eq!(format_panic(&PanicPayload::Opaque), "unknown panic");
    assert_eq!(filter_name(CameraFilter::ToyCamera), "toycamera");
    assert_eq!(filter_name(CameraFilter::Original), "original");
    for f in CameraFilter::all() {
        assert_eq!(filter_name(*f), format!("{:?}", f).to_lowercase());
    }
    assert!(reference_size_matches(256, 256, 1024, 1024));
    assert!(!reference_size_matches(256, 256, 1024, 1023));
}

#[test]
fn auto_test_counter_reaches_total_when_a_checkpoint_fails() {
    let mut c = AutoTestCounter::new(3, 16);
    assert_eq!(c.total(), 48);
    assert_eq!(c.skip_checkpoint(), 16);
    for i in 0..16 {
        assert_eq!(c.item_done(), 17 + i);
    }
    assert_eq!(c.finished_checkpoints, 2);
    assert_eq!(c.finished_filters, 0);
    for _ in 0..15 {
        c.item_done();
    }
    assert_eq!(c.finished_filters, 15);
    assert_eq!(c.item_done(), 48);
    assert_eq!(c.finished_checkpoints, 3);
    assert_eq!(c.completed, c.total());
}

fn launch_with(crop: &str, steps: &str, seed: &str) -> (u32, usize, u64) {
    let mut s = AppState::default();
    s.training.crop_size = crop.into();
    s.training.steps_per_epoch = steps.into();
    s.training.seed = seed.into();
    match s.start_training() {
        AppAction::StartTraining(l) => (l.crop_main_size, l.steps_per_epoch, l.seed),
        other => panic!("unexpected action {:?}", other),
    }
}

#[test]
fn training_fields_parse_as_unsigned_integers() {
    assert_eq!(launch_with("128", "1000", "42"), (128, 1000, 42));
    assert_eq!(launch_with("+12", "+3", "+0"), (12, 3, 0));
    // refused texts fall back to the defaults
    assert_eq!(launch_with("", " 1", "-1"), (256, 1000, 42));
    assert_eq!(launch_with("4294967296", "1e3", "18446744073709551616"), (256, 1000, 42));
    assert_eq!(launch_with("4294967295", "0", "18446744073709551615"), (u32::MAX, 0, u64::MAX));
}

#[test]
fn navigation_shortcuts() {
    let mut s = AppState::default();
    press(&mut s, &[KeyInput::Char('2')]);
    assert_eq!(s.active_tab, Tab::Testing);
    press(&mut s, &[KeyInput::Char('1')]);
    assert_eq!(s.active_tab, Tab::Training);
    assert!(!s.should_quit);
    press(&mut s, &[KeyInput::Char('q')]);
    assert!(s.should_quit);
    let mut s = AppState::default();
    s.active_tab = Tab::Settings;
    press(&mut s, &[KeyInput::Esc]);
    assert!(s.should_quit);
    assert_eq!(s.active_tab, Tab::Settings);
    // in the command line the same keys are text
    let mut s = AppState::default();
    press(&mut s, &[KeyInput::Char('/'), KeyInput::Char('q'), KeyInput::Char('2')]);
    assert_eq!(s.input_buffer, "q2");
    assert!(!s.should_quit);
    press(&mut s, &[KeyInput::Esc]);
    assert!(!s.should_quit);
    assert_eq!(s.input_mode, InputMode::Normal);
}

#[test]
fn auto_test_inputs_have_the_inference_sizes() {
    let img = upscaler::pixels::PixelImage::new(8, 4);
    let (reference, main) = auto_test_inputs(&img);
    assert_eq!(reference.dimensions(), (1024, 1024));
    assert_eq!(main.dimensions(), (256, 256));
    assert_eq!(main.as_raw().len(), 256 * 256 * 3);
    // a black image stays black
    assert!(main.as_raw().iter().all(|&v| v == 0));
}
