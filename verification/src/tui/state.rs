//! State of the terminal interface.
use vstd::prelude::*;
use crate::training::{Loss, LossView, zero_loss};

verus! {

#[derive(Debug, Clone, Copy, PartialEq, Eq, Structural)]
pub enum Tab {
    Training,
    Testing,
    Settings,
}

#[derive(Debug, Clone, Copy, PartialEq, Eq, Structural)]
pub enum TestingMode {
    AutoTest,
    DirectInference,
}

#[derive(Debug, Clone, Copy, PartialEq, Eq, Structural)]
pub enum RunStatus {
    Idle,
    Running,
    Completed,
}

/// Input mode.
#[derive(Debug, Clone, Copy, PartialEq, Eq, Structural)]
pub enum InputMode {
    /// Navigation: arrows and Tab move the focus, `/` opens the command line, Enter edits.
    Normal,
    /// Editing a field: the bottom bar shows the text; Enter confirms, Esc cancels.
    EditingField,
    /// Command line: the bottom bar shows a `/` prompt; Enter runs it, Esc cancels.
    Command,
}

#[derive(Debug, Clone, Copy, PartialEq, Eq, Structural)]
pub enum TrainField {
    CheckpointDir,
    ResumeCheckpoint,
    CropSize,
    DatasetDir,
    StepsPerEpoch,
    Epochs,
    LearningRate,
    WeightDecay,
    RefNoise,
    Seed,
    FullResolution,
    CameraFilters,
    StartButton,
}

#[derive(Debug, Clone, Copy, PartialEq, Eq, Structural)]
pub enum TestField {
    ModeSwitch,
    TestImage,
    CheckpointPath,
    OutputDir,
    MainImage,
    ReferenceImage,
    OutputPath,
    StartButton,
}

/// Available compute back ends.
#[derive(Debug, Clone, Copy, PartialEq, Eq, Structural)]
pub enum Backend {
    NdArray,
    Wgpu,
    Cuda,
    Vulkan,
}

pub open spec fn backend_label(b: Backend) -> Seq<char> {
    match b {
        Backend::NdArray => "NdArray (CPU)"@,
        Backend::Wgpu => "Wgpu (WebGPU)"@,
        Backend::Cuda => "Cuda (NVIDIA)"@,
        Backend::Vulkan => "Vulkan"@,
    }
}

/// The back ends in selection order; `next` and `prev` walk it cyclically.
pub open spec fn backend_order() -> Seq<Backend> {
    seq![Backend::NdArray, Backend::Wgpu, Backend::Cuda, Backend::Vulkan]
}

pub open spec fn backend_next(b: Backend) -> Backend {
    match b {
        Backend::NdArray => Backend::Wgpu,
        Backend::Wgpu => Backend::Cuda,
        Backend::Cuda => Backend::Vulkan,
        Backend::Vulkan => Backend::NdArray,
    }
}

pub open spec fn backend_prev(b: Backend) -> Backend {
    match b {
        Backend::NdArray => Backend::Vulkan,
        Backend::Wgpu => Backend::NdArray,
        Backend::Cuda => Backend::Wgpu,
        Backend::Vulkan => Backend::Cuda,
    }
}

impl Backend {
    pub fn label(&self) -> (r: &'static str)
        ensures
            r@ == backend_label(*self),
    {
        match self {
            Backend::NdArray => "NdArray (CPU)",
            Backend::Wgpu => "Wgpu (WebGPU)",
            Backend::Cuda => "Cuda (NVIDIA)",
            Backend::Vulkan => "Vulkan",
        }
    }

    pub fn next(&self) -> (r: Self)
        ensures
            r == backend_next(*self),
    {
        match self {
            Backend::NdArray => Backend::Wgpu,
            Backend::Wgpu => Backend::Cuda,
            Backend::Cuda => Backend::Vulkan,
            Backend::Vulkan => Backend::NdArray,
        }
    }

    pub fn prev(&self) -> (r: Self)
        ensures
            r == backend_prev(*self),
    {
        match self {
            Backend::NdArray => Backend::Vulkan,
            Backend::Wgpu => Backend::NdArray,
            Backend::Cuda => Backend::Wgpu,
            Backend::Vulkan => Backend::Cuda,
        }
    }
}

/// `next` and `prev` undo each other, `next` steps one place along the selection order, and
/// four steps in either direction come back to the start.
pub proof fn lemma_backend_cycle(b: Backend)
    ensures
        backend_prev(backend_next(b)) == b,
        backend_next(backend_prev(b)) == b,
        backend_next(backend_next(backend_next(backend_next(b)))) == b,
        backend_prev(backend_prev(backend_prev(backend_prev(b)))) == b,
        forall|i: int|
            0 <= i < 4 && #[trigger] backend_order()[i] == b ==> backend_next(b)
                == backend_order()[(i + 1) % 4],
{
}

#[derive(Debug, Clone, Copy, PartialEq, Eq, Structural)]
pub enum SettingsField {
    TrainingBackend,
    InferenceBackend,
}

/// The log lines of a tab, as text.
pub open spec fn log_view(log: Seq<String>) -> Seq<Seq<char>> {
    log.map_values(|s: String| s@)
}

#[derive(Debug, Clone)]
pub struct TrainingTabState {
    pub status: RunStatus,
    pub focused_field: TrainField,
    pub checkpoint_dir: String,
    pub resume_checkpoint: String,
    pub crop_size: String,
    pub dataset_dir: String,
    pub steps_per_epoch: String,
    pub num_epochs: String,
    pub learning_rate: String,
    pub weight_decay: String,
    pub ref_noise: String,
    pub seed: String,
    pub full_resolution: bool,
    pub use_camera_filters: bool,
    pub checkpoint_interval: String,
    pub current_epoch: usize,
    pub total_epochs: usize,
    pub global_step: usize,
    pub current_loss: Loss,
    pub avg_loss: Loss,
    pub samples_seen: usize,
    pub dataset_size: usize,
    pub num_params: usize,
    pub log: Vec<String>,
}

/// The training tab as plain values.
#[verifier::ext_equal]
pub struct TrainingTabView {
    pub status: RunStatus,
    pub focused_field: TrainField,
    pub checkpoint_dir: Seq<char>,
    pub resume_checkpoint: Seq<char>,
    pub crop_size: Seq<char>,
    pub dataset_dir: Seq<char>,
    pub steps_per_epoch: Seq<char>,
    pub num_epochs: Seq<char>,
    pub learning_rate: Seq<char>,
    pub weight_decay: Seq<char>,
    pub ref_noise: Seq<char>,
    pub seed: Seq<char>,
    pub full_resolution: bool,
    pub use_camera_filters: bool,
    pub checkpoint_interval: Seq<char>,
    pub current_epoch: usize,
    pub total_epochs: usize,
    pub global_step: usize,
    pub current_loss: LossView,
    pub avg_loss: LossView,
    pub samples_seen: usize,
    pub dataset_size: usize,
    pub num_params: usize,
    pub log: Seq<Seq<char>>,
}

impl View for TrainingTabState {
    type V = TrainingTabView;

    open spec fn view(&self) -> TrainingTabView {
        TrainingTabView {
            status: self.status,
            focused_field: self.focused_field,
            checkpoint_dir: self.checkpoint_dir@,
            resume_checkpoint: self.resume_checkpoint@,
            crop_size: self.crop_size@,
            dataset_dir: self.dataset_dir@,
            steps_per_epoch: self.steps_per_epoch@,
            num_epochs: self.num_epochs@,
            learning_rate: self.learning_rate@,
            weight_decay: self.weight_decay@,
            ref_noise: self.ref_noise@,
            seed: self.seed@,
            full_resolution: self.full_resolution,
            use_camera_filters: self.use_camera_filters,
            checkpoint_interval: self.checkpoint_interval@,
            current_epoch: self.current_epoch,
            total_epochs: self.total_epochs,
            global_step: self.global_step,
            current_loss: self.current_loss@,
            avg_loss: self.avg_loss@,
            samples_seen: self.samples_seen,
            dataset_size: self.dataset_size,
            num_params: self.num_params,
            log: log_view(self.log@),
        }
    }
}

pub open spec fn default_training_view() -> TrainingTabView {
    TrainingTabView {
        status: RunStatus::Idle,
        focused_field: TrainField::CheckpointDir,
        checkpoint_dir: "checkpoints"@,
        resume_checkpoint: Seq::empty(),
        crop_size: "256"@,
        dataset_dir: "./dataset"@,
        steps_per_epoch: "1000"@,
        num_epochs: "100"@,
        learning_rate: "0.0001"@,
        weight_decay: "0.0001"@,
        ref_noise: "0.02"@,
        seed: "42"@,
        full_resolution: false,
        use_camera_filters: true,
        checkpoint_interval: "500"@,
        current_epoch: 0,
        total_epochs: 0,
        global_step: 0,
        current_loss: zero_loss(),
        avg_loss: zero_loss(),
        samples_seen: 0,
        dataset_size: 0,
        num_params: 0,
        log: Seq::empty(),
    }
}

impl Default for TrainingTabState {
    fn default() -> (r: Self)
        ensures
            r@ == default_training_view(),
    {
        let r = TrainingTabState {
            status: RunStatus::Idle,
            focused_field: TrainField::CheckpointDir,
            checkpoint_dir: String::from_str("checkpoints"),
            resume_checkpoint: String::new(),
            crop_size: String::from_str("256"),
            dataset_dir: String::from_str("./dataset"),
            steps_per_epoch: String::from_str("1000"),
            num_epochs: String::from_str("100"),
            learning_rate: String::from_str("0.0001"),
            weight_decay: String::from_str("0.0001"),
            ref_noise: String::from_str("0.02"),
            seed: String::from_str("42"),
            full_resolution: false,
            use_camera_filters: true,
            checkpoint_interval: String::from_str("500"),
            current_epoch: 0,
            total_epochs: 0,
            global_step: 0,
            current_loss: Loss::zero(),
            avg_loss: Loss::zero(),
            samples_seen: 0,
            dataset_size: 0,
            num_params: 0,
            log: Vec::new(),
        };
        proof {
            assert(log_view(r.log@) =~= Seq::empty());
        }
        r
    }
}

#[derive(Debug, Clone)]
pub struct TestingTabState {
    pub mode: TestingMode,
    pub status: RunStatus,
    pub focused_field: TestField,
    pub test_image: String,
    pub checkpoint_path: String,
    pub output_dir: String,
    pub main_image: String,
    pub reference_image: String,
    pub output_path: String,
    pub completed: usize,
    pub total: usize,
    pub current_item: String,
    pub log: Vec<String>,
}

/// The testing tab as plain values.
#[verifier::ext_equal]
pub struct TestingTabView {
    pub mode: TestingMode,
    pub status: RunStatus,
    pub focused_field: TestField,
    pub test_image: Seq<char>,
    pub checkpoint_path: Seq<char>,
    pub output_dir: Seq<char>,
    pub main_image: Seq<char>,
    pub reference_image: Seq<char>,
    pub output_path: Seq<char>,
    pub completed: usize,
    pub total: usize,
    pub current_item: Seq<char>,
    pub log: Seq<Seq<char>>,
}

impl View for TestingTabState {
    type V = TestingTabView;

    open spec fn view(&self) -> TestingTabView {
        TestingTabView {
            mode: self.mode,
            status: self.status,
            focused_field: self.focused_field,
            test_image: self.test_image@,
            checkpoint_path: self.checkpoint_path@,
            output_dir: self.output_dir@,
            main_image: self.main_image@,
            reference_image: self.reference_image@,
            output_path: self.output_path@,
            completed: self.completed,
            total: self.total,
            current_item: self.current_item@,
            log: log_view(self.log@),
        }
    }
}

pub open spec fn default_testing_view() -> TestingTabView {
    TestingTabView {
        mode: TestingMode::AutoTest,
        status: RunStatus::Idle,
        focused_field: TestField::ModeSwitch,
        test_image: Seq::empty(),
        checkpoint_path: "checkpoints"@,
        output_dir: "test_output"@,
        main_image: Seq::empty(),
        reference_image: Seq::empty(),
        output_path: "output.png"@,
        completed: 0,
        total: 0,
        current_item: Seq::empty(),
        log: Seq::empty(),
    }
}

impl Default for TestingTabState {
    fn default() -> (r: Self)
        ensures
            r@ == default_testing_view(),
    {
        let r = TestingTabState {
            mode: TestingMode::AutoTest,
            status: RunStatus::Idle,
            focused_field: TestField::ModeSwitch,
            test_image: String::new(),
            checkpoint_path: String::from_str("checkpoints"),
            output_dir: String::from_str("test_output"),
            main_image: String::new(),
            reference_image: String::new(),
            output_path: String::from_str("output.png"),
            completed: 0,
            total: 0,
            current_item: String::new(),
            log: Vec::new(),
        };
        proof {
            assert(log_view(r.log@) =~= Seq::empty());
        }
        r
    }
}

#[derive(Debug, Clone, Copy, PartialEq, Eq, Structural)]
pub struct SettingsTabState {
    pub focused_field: SettingsField,
    pub training_backend: Backend,
    pub inference_backend: Backend,
}

impl Default for SettingsTabState {
    fn default() -> (r: Self)
        ensures
            r == (SettingsTabState {
                focused_field: SettingsField::TrainingBackend,
                training_backend: Backend::Wgpu,
                inference_backend: Backend::Wgpu,
            }),
    {
        SettingsTabState {
            focused_field: SettingsField::TrainingBackend,
            training_backend: Backend::Wgpu,
            inference_backend: Backend::Wgpu,
        }
    }
}

#[derive(Debug, Clone)]
pub struct AppState {
    pub active_tab: Tab,
    pub should_quit: bool,
    pub input_mode: InputMode,
    pub input_buffer: String,
    /// Label of the field being edited, shown in the bottom bar.
    pub editing_field_label: String,
    pub training: TrainingTabState,
    pub testing: TestingTabState,
    pub settings: SettingsTabState,
}

/// The whole interface state as plain values.
#[verifier::ext_equal]
pub struct AppStateView {
    pub active_tab: Tab,
    pub should_quit: bool,
    pub input_mode: InputMode,
    pub input_buffer: Seq<char>,
    pub editing_field_label: Seq<char>,
    pub training: TrainingTabView,
    pub testing: TestingTabView,
    pub settings: SettingsTabState,
}

impl View for AppState {
    type V = AppStateView;

    open spec fn view(&self) -> AppStateView {
        AppStateView {
            active_tab: self.active_tab,
            should_quit: self.should_quit,
            input_mode: self.input_mode,
            input_buffer: self.input_buffer@,
            editing_field_label: self.editing_field_label@,
            training: self.training@,
            testing: self.testing@,
            settings: self.settings,
        }
    }
}

pub open spec fn default_app_view() -> AppStateView {
    AppStateView {
        active_tab: Tab::Training,
        should_quit: false,
        input_mode: InputMode::Normal,
        input_buffer: Seq::empty(),
        editing_field_label: Seq::empty(),
        training: default_training_view(),
        testing: default_testing_view(),
        settings: SettingsTabState {
            focused_field: SettingsField::TrainingBackend,
            training_backend: Backend::Wgpu,
            inference_backend: Backend::Wgpu,
        },
    }
}

impl Default for AppState {
    fn default() -> (r: Self)
        ensures
            r@ == default_app_view(),
    {
        AppState {
            active_tab: Tab::Training,
            should_quit: false,
            input_mode: InputMode::Normal,
            input_buffer: String::new(),
            editing_field_label: String::new(),
            training: TrainingTabState::default(),
            testing: TestingTabState::default(),
            settings: SettingsTabState::default(),
        }
    }
}

} // verus!
