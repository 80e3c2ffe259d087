use upscaler::training::{checkpoint_file_name, Loss};
use upscaler::tui::display::{
    bottom_bar_text, button_text, count_text, current_item_text, dataset_text, epoch_text,
    input_field_text, log_window_start, loss_text, mode_line, status_bar_text, status_line,
    tab_index, testing_button_label, toggle_text, training_button_label,
};
use upscaler::tui::state::{Backend, InputMode, RunStatus, Tab, TestingMode};
use upscaler::tui::workers::{inference_runtime, InferenceRuntime};

#[test]
fn status_and_bottom_bars() {
    assert_eq!(status_bar_text(Tab::Training, RunStatus::Running, RunStatus::Idle), " Training...  |  Log: upscaler.log ");
    assert_eq!(status_bar_text(Tab::Testing, RunStatus::Running, RunStatus::Completed), " Testing Complete  |  Log: upscaler.log ");
    assert!(status_bar_text(Tab::Settings, RunStatus::Idle, RunStatus::Idle).contains("←→:Backend"));
    assert_eq!(bottom_bar_text(InputMode::Command, "qu", "", Tab::Training, RunStatus::Idle, RunStatus::Idle), " /qu");
    assert_eq!(
        bottom_bar_text(InputMode::EditingField, "256", "Crop Size", Tab::Training, RunStatus::Idle, RunStatus::Idle),
        " Crop Size: 256"
    );
    assert_eq!(tab_index(Tab::Settings), 2);
}

#[test]
fn captions() {
    assert_eq!(status_line(RunStatus::Completed), " Status: Completed ✓");
    assert_eq!(training_button_label(RunStatus::Idle), "▶ Start Training");
    assert_eq!(testing_button_label(TestingMode::DirectInference, RunStatus::Running), "● Running...");
    assert_eq!(testing_button_label(TestingMode::AutoTest, RunStatus::Running), "● Testing...");
    assert_eq!(mode_line(TestingMode::AutoTest), " Mode: Auto Test (all checkpoints × 16 filters)");
    assert_eq!(input_field_text("Seed", "42", true), " ▶ Seed: 42");
    assert_eq!(input_field_text("Resume Ckpt", "", false), "   Resume Ckpt: (empty)");
    assert_eq!(toggle_text("Full Resolution", true), " Full Resolution: [■] ON ");
    assert_eq!(toggle_text("Camera Filters", false), " Camera Filters: [ ] OFF");
    assert_eq!(button_text("go"), " [ go ] ");
    assert_eq!(current_item_text("a / b"), " Current: a / b");
}

#[test]
fn progress_figures() {
    assert_eq!(dataset_text(0, 7), " Dataset: N/A");
    assert_eq!(dataset_text(3, 1200), " Dataset: 3 images, Params: 1200");
    assert_eq!(epoch_text(2, 100), " Epoch: 2 / 100");
    assert_eq!(count_text(" Global Step: ", 12), " Global Step: 12");
    let l = Loss { bits: 0, text: "0.000000".into() };
    assert_eq!(loss_text(" Loss: ", &l), " Loss: 0.000000");
    assert_eq!(log_window_start(10, 4), 6);
    assert_eq!(log_window_start(3, 4), 0);
}

#[test]
fn checkpoint_names_and_runtimes() {
    assert_eq!(checkpoint_file_name(500), "model_step_500.bin");
    assert_eq!(inference_runtime(Backend::NdArray), InferenceRuntime::Cpu);
    assert_eq!(inference_runtime(Backend::Vulkan), InferenceRuntime::Gpu);
    assert_eq!(inference_runtime(Backend::Cuda), InferenceRuntime::Gpu);
}
