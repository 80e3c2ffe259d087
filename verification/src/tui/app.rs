//! Key handling of the terminal interface (vim-like modes):
//!   Normal:       arrows navigate, Tab or `1`/`2` switch tabs, `q` or Esc quits, `/` opens the
//!                 command line, Enter edits or starts;
//!   Command:      the bottom bar shows a `/` prompt, Esc cancels, Enter runs the command;
//!   EditingField: the bottom bar shows the field's name, Esc cancels, Enter confirms.
//!
//! Each handler changes the state and returns the work that the caller has to start.
use vstd::prelude::*;
use crate::text::{
    text_eq, lowercase_text, lowercased, parse_u32, parse_u64, parse_unsigned, parse_usize, parsed_or, lemma_parse_unsigned_range, pop_char,
    push_char, trim_text, trimmed,
};
use crate::training::{Loss, zero_loss};
use crate::tui::state::{
    AppState, AppStateView, Backend, InputMode, RunStatus, SettingsField, SettingsTabState, Tab,
    TestField, TestingMode, TestingTabState, TestingTabView, TrainField, TrainingTabState,
    TrainingTabView, backend_next, backend_prev, log_view,
};

verus! {

/// Largest number of log lines a tab keeps after trimming.
pub const MAX_LOG_LINES: usize = 500;

// ── Field navigation ──

/// The training form's fields, top to bottom.
pub open spec fn train_field_order() -> Seq<TrainField> {
    seq![
        TrainField::CheckpointDir,
        TrainField::ResumeCheckpoint,
        TrainField::CropSize,
        TrainField::DatasetDir,
        TrainField::StepsPerEpoch,
        TrainField::Epochs,
        TrainField::LearningRate,
        TrainField::WeightDecay,
        TrainField::RefNoise,
        TrainField::Seed,
        TrainField::FullResolution,
        TrainField::CameraFilters,
        TrainField::StartButton,
    ]
}

/// Index of `f` in `train_field_order()`.
pub open spec fn train_field_pos(f: TrainField) -> int {
    match f {
        TrainField::CheckpointDir => 0,
        TrainField::ResumeCheckpoint => 1,
        TrainField::CropSize => 2,
        TrainField::DatasetDir => 3,
        TrainField::StepsPerEpoch => 4,
        TrainField::Epochs => 5,
        TrainField::LearningRate => 6,
        TrainField::WeightDecay => 7,
        TrainField::RefNoise => 8,
        TrainField::Seed => 9,
        TrainField::FullResolution => 10,
        TrainField::CameraFilters => 11,
        TrainField::StartButton => 12,
    }
}

/// The field below `f`, wrapping from the last to the first.
pub open spec fn spec_train_field_next(f: TrainField) -> TrainField {
    train_field_order()[(train_field_pos(f) + 1) % 13]
}

/// The field above `f`, wrapping from the first to the last.
pub open spec fn spec_train_field_prev(f: TrainField) -> TrainField {
    train_field_order()[(train_field_pos(f) + 12) % 13]
}

fn train_fields() -> (r: &'static [TrainField])
    ensures
        r@ == train_field_order(),
{
    let r: &'static [TrainField] = &[
        TrainField::CheckpointDir,
        TrainField::ResumeCheckpoint,
        TrainField::CropSize,
        TrainField::DatasetDir,
        TrainField::StepsPerEpoch,
        TrainField::Epochs,
        TrainField::LearningRate,
        TrainField::WeightDecay,
        TrainField::RefNoise,
        TrainField::Seed,
        TrainField::FullResolution,
        TrainField::CameraFilters,
        TrainField::StartButton,
    ];
    r
}

/// Index of the first occurrence of `f`, or 0 when it does not occur.
fn train_field_position(fields: &[TrainField], f: TrainField) -> (r: usize)
    ensures
        (exists|i: int| 0 <= i < fields@.len() && fields@[i] == f) ==> r < fields@.len()
            && fields@[r as int] == f && forall|j: int| 0 <= j < r ==> fields@[j] != f,
        !(exists|i: int| 0 <= i < fields@.len() && fields@[i] == f) ==> r == 0,
{
    let mut i: usize = 0;
    while i < fields.len()
        invariant
            i <= fields@.len(),
            forall|j: int| 0 <= j < i ==> fields@[j] != f,
        decreases fields@.len() - i,
    {
        if fields[i] == f {
            return i;
        }
        i = i + 1;
    }
    0
}

proof fn lemma_train_pos(f: TrainField)
    ensures
        0 <= train_field_pos(f) < 13,
        train_field_order()[train_field_pos(f)] == f,
        forall|j: int| 0 <= j < train_field_pos(f) ==> train_field_order()[j] != f,
{
}

pub fn train_field_next(f: TrainField) -> (r: TrainField)
    ensures
        r == spec_train_field_next(f),
{
    let fields = train_fields();
    proof {
        lemma_train_pos(f);
    }
    let pos = train_field_position(fields, f);
    fields[(pos + 1) % fields.len()]
}

pub fn train_field_prev(f: TrainField) -> (r: TrainField)
    ensures
        r == spec_train_field_prev(f),
{
    let fields = train_fields();
    proof {
        lemma_train_pos(f);
    }
    let pos = train_field_position(fields, f);
    fields[(pos + fields.len() - 1) % fields.len()]
}

/// Moving down then up (or up then down) returns to the same field, and thirteen moves in one
/// direction visit every field once and come back.
pub proof fn lemma_train_field_cycle(f: TrainField)
    ensures
        spec_train_field_prev(spec_train_field_next(f)) == f,
        spec_train_field_next(spec_train_field_prev(f)) == f,
        forall|k: int|
            0 <= k < 13 ==> #[trigger] train_field_order()[(train_field_pos(f) + k) % 13]
                == train_field_order()[(train_field_pos(f) + k) % 13],
{
    lemma_train_pos(f);
    lemma_train_pos(spec_train_field_next(f));
    lemma_train_pos(spec_train_field_prev(f));
}

pub open spec fn train_field_label_text(f: TrainField) -> Seq<char> {
    match f {
        TrainField::CheckpointDir => "Checkpoint Dir"@,
        TrainField::ResumeCheckpoint => "Resume Ckpt"@,
        TrainField::CropSize => "Crop Size"@,
        TrainField::DatasetDir => "Dataset Dir"@,
        TrainField::StepsPerEpoch => "Steps/Epoch"@,
        TrainField::Epochs => "Epochs"@,
        TrainField::LearningRate => "Learning Rate"@,
        TrainField::WeightDecay => "Weight Decay"@,
        TrainField::RefNoise => "Ref Noise"@,
        TrainField::Seed => "Seed"@,
        _ => ""@,
    }
}

pub fn train_field_label(f: TrainField) -> (r: &'static str)
    ensures
        r@ == train_field_label_text(f),
{
    match f {
        TrainField::CheckpointDir => "Checkpoint Dir",
        TrainField::ResumeCheckpoint => "Resume Ckpt",
        TrainField::CropSize => "Crop Size",
        TrainField::DatasetDir => "Dataset Dir",
        TrainField::StepsPerEpoch => "Steps/Epoch",
        TrainField::Epochs => "Epochs",
        TrainField::LearningRate => "Learning Rate",
        TrainField::WeightDecay => "Weight Decay",
        TrainField::RefNoise => "Ref Noise",
        TrainField::Seed => "Seed",
        _ => "",
    }
}

/// The text of a training field (empty for the toggles and the button).
pub open spec fn train_field_text(t: TrainingTabView, f: TrainField) -> Seq<char> {
    match f {
        TrainField::CheckpointDir => t.checkpoint_dir,
        TrainField::ResumeCheckpoint => t.resume_checkpoint,
        TrainField::CropSize => t.crop_size,
        TrainField::DatasetDir => t.dataset_dir,
        TrainField::StepsPerEpoch => t.steps_per_epoch,
        TrainField::Epochs => t.num_epochs,
        TrainField::LearningRate => t.learning_rate,
        TrainField::WeightDecay => t.weight_decay,
        TrainField::RefNoise => t.ref_noise,
        TrainField::Seed => t.seed,
        _ => Seq::empty(),
    }
}

pub fn train_field_value(t: &TrainingTabState, f: TrainField) -> (r: &str)
    ensures
        r@ == train_field_text(t@, f),
{
    match f {
        TrainField::CheckpointDir => t.checkpoint_dir.as_str(),
        TrainField::ResumeCheckpoint => t.resume_checkpoint.as_str(),
        TrainField::CropSize => t.crop_size.as_str(),
        TrainField::DatasetDir => t.dataset_dir.as_str(),
        TrainField::StepsPerEpoch => t.steps_per_epoch.as_str(),
        TrainField::Epochs => t.num_epochs.as_str(),
        TrainField::LearningRate => t.learning_rate.as_str(),
        TrainField::WeightDecay => t.weight_decay.as_str(),
        TrainField::RefNoise => t.ref_noise.as_str(),
        TrainField::Seed => t.seed.as_str(),
        _ => {
            proof {
                reveal_strlit("");
            }
            ""
        },
    }
}

/// The testing form's fields in auto-test mode.
pub open spec fn auto_test_order() -> Seq<TestField> {
    seq![
        TestField::ModeSwitch,
        TestField::TestImage,
        TestField::CheckpointPath,
        TestField::OutputDir,
        TestField::StartButton,
    ]
}

/// The testing form's fields in direct-inference mode.
pub open spec fn direct_inference_order() -> Seq<TestField> {
    seq![
        TestField::ModeSwitch,
        TestField::MainImage,
        TestField::ReferenceImage,
        TestField::CheckpointPath,
        TestField::OutputPath,
        TestField::StartButton,
    ]
}

pub open spec fn test_field_order(mode: TestingMode) -> Seq<TestField> {
    match mode {
        TestingMode::AutoTest => auto_test_order(),
        TestingMode::DirectInference => direct_inference_order(),
    }
}

/// Index of `f` in the mode's field list; a field the mode does not show counts as the first.
pub open spec fn test_field_pos(f: TestField, mode: TestingMode) -> int {
    match mode {
        TestingMode::AutoTest => match f {
            TestField::TestImage => 1,
            TestField::CheckpointPath => 2,
            TestField::OutputDir => 3,
            TestField::StartButton => 4,
            _ => 0,
        },
        TestingMode::DirectInference => match f {
            TestField::MainImage => 1,
            TestField::ReferenceImage => 2,
            TestField::CheckpointPath => 3,
            TestField::OutputPath => 4,
            TestField::StartButton => 5,
            _ => 0,
        },
    }
}

/// `f` is one of the fields the mode shows.
pub open spec fn test_field_shown(f: TestField, mode: TestingMode) -> bool {
    test_field_order(mode).contains(f)
}

pub open spec fn spec_test_field_next(f: TestField, mode: TestingMode) -> TestField {
    let n = test_field_order(mode).len() as int;
    test_field_order(mode)[(test_field_pos(f, mode) + 1) % n]
}

pub open spec fn spec_test_field_prev(f: TestField, mode: TestingMode) -> TestField {
    let n = test_field_order(mode).len() as int;
    test_field_order(mode)[(test_field_pos(f, mode) + n - 1) % n]
}

fn test_fields(mode: TestingMode) -> (r: &'static [TestField])
    ensures
        r@ == test_field_order(mode),
{
    match mode {
        TestingMode::AutoTest => {
            let r: &'static [TestField] = &[
                TestField::ModeSwitch,
                TestField::TestImage,
                TestField::CheckpointPath,
                TestField::OutputDir,
                TestField::StartButton,
            ];
            r
        },
        TestingMode::DirectInference => {
            let r: &'static [TestField] = &[
                TestField::ModeSwitch,
                TestField::MainImage,
                TestField::ReferenceImage,
                TestField::CheckpointPath,
                TestField::OutputPath,
                TestField::StartButton,
            ];
            r
        },
    }
}

fn test_field_position(fields: &[TestField], f: TestField) -> (r: usize)
    ensures
        (exists|i: int| 0 <= i < fields@.len() && fields@[i] == f) ==> r < fields@.len()
            && fields@[r as int] == f && forall|j: int| 0 <= j < r ==> fields@[j] != f,
        !(exists|i: int| 0 <= i < fields@.len() && fields@[i] == f) ==> r == 0,
{
    let mut i: usize = 0;
    while i < fields.len()
        invariant
            i <= fields@.len(),
            forall|j: int| 0 <= j < i ==> fields@[j] != f,
        decreases fields@.len() - i,
    {
        if fields[i] == f {
            return i;
        }
        i = i + 1;
    }
    0
}

proof fn lemma_test_pos(f: TestField, mode: TestingMode)
    ensures
        0 <= test_field_pos(f, mode) < test_field_order(mode).len(),
        test_field_shown(f, mode) ==> test_field_order(mode)[test_field_pos(f, mode)] == f
            && forall|j: int|
            0 <= j < test_field_pos(f, mode) ==> test_field_order(mode)[j] != f,
        !test_field_shown(f, mode) ==> test_field_pos(f, mode) == 0 && !(exists|i: int|
            0 <= i < test_field_order(mode).len() && test_field_order(mode)[i] == f),
{
    if test_field_shown(f, mode) {
        let i = choose|i: int| 0 <= i < test_field_order(mode).len() && test_field_order(mode)[i] == f;
    } else {
        assert(f == TestField::ModeSwitch ==> test_field_order(mode)[0] == f);
        match mode {
            TestingMode::AutoTest => {
                assert(f != TestField::TestImage && f != TestField::CheckpointPath && f
                    != TestField::OutputDir && f != TestField::StartButton && f
                    != TestField::ModeSwitch) by {
                    if f == TestField::TestImage { assert(auto_test_order()[1] == f); }
                    if f == TestField::CheckpointPath { assert(auto_test_order()[2] == f); }
                    if f == TestField::OutputDir { assert(auto_test_order()[3] == f); }
                    if f == TestField::StartButton { assert(auto_test_order()[4] == f); }
                    if f == TestField::ModeSwitch { assert(auto_test_order()[0] == f); }
                }
            },
            TestingMode::DirectInference => {
                assert(f != TestField::MainImage && f != TestField::ReferenceImage && f
                    != TestField::CheckpointPath && f != TestField::OutputPath && f
                    != TestField::StartButton && f != TestField::ModeSwitch) by {
                    if f == TestField::MainImage { assert(direct_inference_order()[1] == f); }
                    if f == TestField::ReferenceImage { assert(direct_inference_order()[2] == f); }
                    if f == TestField::CheckpointPath { assert(direct_inference_order()[3] == f); }
                    if f == TestField::OutputPath { assert(direct_inference_order()[4] == f); }
                    if f == TestField::StartButton { assert(direct_inference_order()[5] == f); }
                    if f == TestField::ModeSwitch { assert(direct_inference_order()[0] == f); }
                }
            },
        }
    }
}

pub fn test_field_prev(f: TestField, mode: TestingMode) -> (r: TestField)
    ensures
        r == spec_test_field_prev(f, mode),
{
    let fields = test_fields(mode);
    proof {
        lemma_test_pos(f, mode);
    }
    let pos = test_field_position(fields, f);
    fields[(pos + fields.len() - 1) % fields.len()]
}

pub fn test_field_next(f: TestField, mode: TestingMode) -> (r: TestField)
    ensures
        r == spec_test_field_next(f, mode),
{
    let fields = test_fields(mode);
    proof {
        lemma_test_pos(f, mode);
    }
    let pos = test_field_position(fields, f);
    fields[(pos + 1) % fields.len()]
}

/// For a field the mode shows, moving down then up (or up then down) returns to it; a field
/// the mode does not show moves as if it were the mode switch.
pub proof fn lemma_test_field_cycle(f: TestField, mode: TestingMode)
    ensures
        test_field_shown(f, mode) ==> spec_test_field_prev(spec_test_field_next(f, mode), mode)
            == f,
        test_field_shown(f, mode) ==> spec_test_field_next(spec_test_field_prev(f, mode), mode)
            == f,
        !test_field_shown(f, mode) ==> spec_test_field_next(f, mode) == spec_test_field_next(
            TestField::ModeSwitch,
            mode,
        ),
{
    lemma_test_pos(f, mode);
    let n = test_field_order(mode).len() as int;
    let p = test_field_pos(f, mode);
    let up = (p + 1) % n;
    let down = (p + n - 1) % n;
    lemma_test_order_pos(mode, up);
    lemma_test_order_pos(mode, down);
    lemma_cyclic_step(p, n);
}

/// One step forward and one step back around a cycle of five or six places cancel.
proof fn lemma_cyclic_step(p: int, n: int)
    requires
        0 <= p < n,
        n == 5 || n == 6,
    ensures
        ((p + 1) % n + n - 1) % n == p,
        ((p + n - 1) % n + 1) % n == p,
{
    if n == 5 {
        if p == 0 {} else if p == 1 {} else if p == 2 {} else if p == 3 {} else {}
    } else {
        if p == 0 {} else if p == 1 {} else if p == 2 {} else if p == 3 {} else if p == 4 {} else {}
    }
}

/// Each field of a mode's list sits at the index `test_field_pos` gives.
proof fn lemma_test_order_pos(mode: TestingMode, k: int)
    requires
        0 <= k < test_field_order(mode).len(),
    ensures
        test_field_pos(test_field_order(mode)[k], mode) == k,
{
    match mode {
        TestingMode::AutoTest => {
            if k == 0 {} else if k == 1 {} else if k == 2 {} else if k == 3 {} else {}
        },
        TestingMode::DirectInference => {
            if k == 0 {} else if k == 1 {} else if k == 2 {} else if k == 3 {} else if k == 4 {} else {}
        },
    }
}

pub open spec fn test_field_label_text(f: TestField) -> Seq<char> {
    match f {
        TestField::TestImage => "Test Image"@,
        TestField::CheckpointPath => "Checkpoint"@,
        TestField::OutputDir => "Output Dir"@,
        TestField::MainImage => "Main Image"@,
        TestField::ReferenceImage => "Reference"@,
        TestField::OutputPath => "Output Path"@,
        _ => ""@,
    }
}

pub fn test_field_label(f: TestField) -> (r: &'static str)
    ensures
        r@ == test_field_label_text(f),
{
    match f {
        TestField::TestImage => "Test Image",
        TestField::CheckpointPath => "Checkpoint",
        TestField::OutputDir => "Output Dir",
        TestField::MainImage => "Main Image",
        TestField::ReferenceImage => "Reference",
        TestField::OutputPath => "Output Path",
        _ => "",
    }
}

/// The text of a testing field (empty for the mode switch and the button).
pub open spec fn test_field_text(t: TestingTabView, f: TestField) -> Seq<char> {
    match f {
        TestField::TestImage => t.test_image,
        TestField::CheckpointPath => t.checkpoint_path,
        TestField::OutputDir => t.output_dir,
        TestField::MainImage => t.main_image,
        TestField::ReferenceImage => t.reference_image,
        TestField::OutputPath => t.output_path,
        _ => Seq::empty(),
    }
}

pub fn test_field_value(t: &TestingTabState, f: TestField) -> (r: &str)
    ensures
        r@ == test_field_text(t@, f),
{
    match f {
        TestField::TestImage => t.test_image.as_str(),
        TestField::CheckpointPath => t.checkpoint_path.as_str(),
        TestField::OutputDir => t.output_dir.as_str(),
        TestField::MainImage => t.main_image.as_str(),
        TestField::ReferenceImage => t.reference_image.as_str(),
        TestField::OutputPath => t.output_path.as_str(),
        _ => {
            proof {
                reveal_strlit("");
            }
            ""
        },
    }
}

pub open spec fn spec_settings_field_other(f: SettingsField) -> SettingsField {
    match f {
        SettingsField::TrainingBackend => SettingsField::InferenceBackend,
        SettingsField::InferenceBackend => SettingsField::TrainingBackend,
    }
}

fn settings_fields() -> (r: &'static [SettingsField])
    ensures
        r@ == seq![SettingsField::TrainingBackend, SettingsField::InferenceBackend],
{
    let r: &'static [SettingsField] = &[
        SettingsField::TrainingBackend,
        SettingsField::InferenceBackend,
    ];
    r
}

fn settings_field_position(fields: &[SettingsField], f: SettingsField) -> (r: usize)
    ensures
        (exists|i: int| 0 <= i < fields@.len() && fields@[i] == f) ==> r < fields@.len()
            && fields@[r as int] == f && forall|j: int| 0 <= j < r ==> fields@[j] != f,
        !(exists|i: int| 0 <= i < fields@.len() && fields@[i] == f) ==> r == 0,
{
    let mut i: usize = 0;
    while i < fields.len()
        invariant
            i <= fields@.len(),
            forall|j: int| 0 <= j < i ==> fields@[j] != f,
        decreases fields@.len() - i,
    {
        if fields[i] == f {
            return i;
        }
        i = i + 1;
    }
    0
}

/// With two settings fields, moving up or down switches to the other one.
pub fn settings_field_prev(f: SettingsField) -> (r: SettingsField)
    ensures
        r == spec_settings_field_other(f),
{
    let fields = settings_fields();
    proof {
        if f == SettingsField::InferenceBackend {
            assert(fields@[1] == f);
        } else {
            assert(fields@[0] == f);
        }
    }
    let pos = settings_field_position(fields, f);
    fields[(pos + fields.len() - 1) % fields.len()]
}

pub fn settings_field_next(f: SettingsField) -> (r: SettingsField)
    ensures
        r == spec_settings_field_other(f),
{
    let fields = settings_fields();
    proof {
        if f == SettingsField::InferenceBackend {
            assert(fields@[1] == f);
        } else {
            assert(fields@[0] == f);
        }
    }
    let pos = settings_field_position(fields, f);
    fields[(pos + 1) % fields.len()]
}

/// The newest `MAX_LOG_LINES` lines of `lines`.
pub open spec fn trimmed_log<T>(lines: Seq<T>) -> Seq<T> {
    if lines.len() > MAX_LOG_LINES {
        lines.subrange(lines.len() - MAX_LOG_LINES, lines.len() as int)
    } else {
        lines
    }
}

/// Drops the oldest lines until at most `MAX_LOG_LINES` are left.
pub fn trim_log(log: &mut Vec<String>)
    ensures
        final(log)@ == trimmed_log(old(log)@),
{
    while log.len() > MAX_LOG_LINES
        invariant
            trimmed_log(log@) == trimmed_log(old(log)@),
        decreases log@.len(),
    {
        let ghost before = log@;
        log.remove(0);
        proof {
            assert(log@ == before.subrange(1, before.len() as int));
            assert(trimmed_log(log@) =~= trimmed_log(before));
        }
    }
}

/// Trimming leaves at most `MAX_LOG_LINES` lines, keeps the newest ones in order, and changes
/// nothing when there are few enough.
pub proof fn lemma_trim_log<T>(lines: Seq<T>)
    ensures
        trimmed_log(lines).len() <= MAX_LOG_LINES,
        trimmed_log(lines).len() == if lines.len() > MAX_LOG_LINES {
            MAX_LOG_LINES as int
        } else {
            lines.len() as int
        },
        forall|i: int|
            0 <= i < trimmed_log(lines).len() ==> #[trigger] trimmed_log(lines)[i] == lines[i
                + lines.len() - trimmed_log(lines).len()],
        lines.len() <= MAX_LOG_LINES ==> trimmed_log(lines) == lines,
{
}

/// Trimming commutes with rendering the lines as text.
pub proof fn lemma_trim_log_view(log: Seq<String>)
    ensures
        log_view(trimmed_log(log)) == trimmed_log(log_view(log)),
{
    assert(log_view(trimmed_log(log)) =~= trimmed_log(log_view(log)));
}

// ── Keys and the work they start ──

/// A key press, as the key handling tells them apart.
#[derive(Debug, Clone, Copy, PartialEq, Eq, Structural)]
pub enum KeyInput {
    Char(char),
    Tab,
    Esc,
    Enter,
    Backspace,
    Up,
    Down,
    Left,
    Right,
    Other,
}

/// A training run requested from the training tab. The counts are parsed here (falling back
/// to their defaults when a field does not parse); the three real-valued settings stay text.
#[derive(Debug, Clone)]
pub struct TrainingLaunch {
    pub num_epochs: usize,
    pub steps_per_epoch: usize,
    pub crop_main_size: u32,
    pub checkpoint_every_steps: usize,
    pub seed: u64,
    pub learning_rate: String,
    pub weight_decay: String,
    pub ref_noise: String,
    pub checkpoint_dir: String,
    pub dataset_dir: String,
    pub resume_checkpoint: String,
    pub full_resolution: bool,
    pub use_camera_filters: bool,
}

#[verifier::ext_equal]
pub struct TrainingLaunchView {
    pub num_epochs: usize,
    pub steps_per_epoch: usize,
    pub crop_main_size: u32,
    pub checkpoint_every_steps: usize,
    pub seed: u64,
    pub learning_rate: Seq<char>,
    pub weight_decay: Seq<char>,
    pub ref_noise: Seq<char>,
    pub checkpoint_dir: Seq<char>,
    pub dataset_dir: Seq<char>,
    pub resume_checkpoint: Seq<char>,
    pub full_resolution: bool,
    pub use_camera_filters: bool,
}

impl View for TrainingLaunch {
    type V = TrainingLaunchView;

    open spec fn view(&self) -> TrainingLaunchView {
        TrainingLaunchView {
            num_epochs: self.num_epochs,
            steps_per_epoch: self.steps_per_epoch,
            crop_main_size: self.crop_main_size,
            checkpoint_every_steps: self.checkpoint_every_steps,
            seed: self.seed,
            learning_rate: self.learning_rate@,
            weight_decay: self.weight_decay@,
            ref_noise: self.ref_noise@,
            checkpoint_dir: self.checkpoint_dir@,
            dataset_dir: self.dataset_dir@,
            resume_checkpoint: self.resume_checkpoint@,
            full_resolution: self.full_resolution,
            use_camera_filters: self.use_camera_filters,
        }
    }
}

/// Work a key press asks the caller to start.
#[derive(Debug, Clone)]
pub enum AppAction {
    Nothing,
    StartTraining(TrainingLaunch),
    StartAutoTest {
        test_image: String,
        checkpoint_path: String,
        output_dir: String,
        backend: Backend,
    },
    StartDirectInference {
        main_image: String,
        reference_image: String,
        checkpoint_path: String,
        output_path: String,
        backend: Backend,
    },
}

#[verifier::ext_equal]
pub enum ActionView {
    Nothing,
    StartTraining(TrainingLaunchView),
    StartAutoTest {
        test_image: Seq<char>,
        checkpoint_path: Seq<char>,
        output_dir: Seq<char>,
        backend: Backend,
    },
    StartDirectInference {
        main_image: Seq<char>,
        reference_image: Seq<char>,
        checkpoint_path: Seq<char>,
        output_path: Seq<char>,
        backend: Backend,
    },
}

impl View for AppAction {
    type V = ActionView;

    open spec fn view(&self) -> ActionView {
        match self {
            AppAction::Nothing => ActionView::Nothing,
            AppAction::StartTraining(l) => ActionView::StartTraining(l@),
            AppAction::StartAutoTest { test_image, checkpoint_path, output_dir, backend } =>
                ActionView::StartAutoTest {
                test_image: test_image@,
                checkpoint_path: checkpoint_path@,
                output_dir: output_dir@,
                backend: *backend,
            },
            AppAction::StartDirectInference {
                main_image,
                reference_image,
                checkpoint_path,
                output_path,
                backend,
            } => ActionView::StartDirectInference {
                main_image: main_image@,
                reference_image: reference_image@,
                checkpoint_path: checkpoint_path@,
                output_path: output_path@,
                backend: *backend,
            },
        }
    }
}

// ── The transitions, as plain values ──

/// The run that the training tab's fields describe.
pub open spec fn training_launch(t: TrainingTabView) -> TrainingLaunchView {
    TrainingLaunchView {
        num_epochs: parsed_or(t.num_epochs, usize::MAX as int, 100) as usize,
        steps_per_epoch: parsed_or(t.steps_per_epoch, usize::MAX as int, 1000) as usize,
        crop_main_size: parsed_or(t.crop_size, u32::MAX as int, 256) as u32,
        checkpoint_every_steps: parsed_or(t.checkpoint_interval, usize::MAX as int, 500) as usize,
        seed: parsed_or(t.seed, u64::MAX as int, 42) as u64,
        learning_rate: t.learning_rate,
        weight_decay: t.weight_decay,
        ref_noise: t.ref_noise,
        checkpoint_dir: t.checkpoint_dir,
        dataset_dir: t.dataset_dir,
        resume_checkpoint: t.resume_checkpoint,
        full_resolution: t.full_resolution,
        use_camera_filters: t.use_camera_filters,
    }
}

/// The training tab once a run has been started: progress reset, log restarted.
pub open spec fn training_started(t: TrainingTabView) -> TrainingTabView {
    TrainingTabView {
        status: RunStatus::Running,
        log: seq!["Training started..."@],
        current_epoch: 0,
        total_epochs: training_launch(t).num_epochs,
        global_step: 0,
        current_loss: zero_loss(),
        avg_loss: zero_loss(),
        samples_seen: 0,
        ..t
    }
}

/// The testing tab's response to its start button, and the run it requests, if any.
pub open spec fn testing_start(t: TestingTabView, backend: Backend) -> (TestingTabView, ActionView) {
    match t.mode {
        TestingMode::AutoTest => if t.test_image.len() == 0 {
            (
                TestingTabView { log: t.log.push("ERROR: Test image path is required"@), ..t },
                ActionView::Nothing,
            )
        } else if t.checkpoint_path.len() == 0 {
            (
                TestingTabView { log: t.log.push("ERROR: Checkpoint path is required"@), ..t },
                ActionView::Nothing,
            )
        } else {
            (
                TestingTabView {
                    status: RunStatus::Running,
                    log: seq!["Auto test started..."@],
                    completed: 0,
                    total: 0,
                    current_item: "Initializing..."@,
                    ..t
                },
                ActionView::StartAutoTest {
                    test_image: t.test_image,
                    checkpoint_path: t.checkpoint_path,
                    output_dir: t.output_dir,
                    backend,
                },
            )
        },
        TestingMode::DirectInference => if t.main_image.len() == 0 || t.reference_image.len()
            == 0 {
            (
                TestingTabView {
                    log: t.log.push("ERROR: Main and reference image paths are required"@),
                    ..t
                },
                ActionView::Nothing,
            )
        } else if t.checkpoint_path.len() == 0 {
            (
                TestingTabView { log: t.log.push("ERROR: Checkpoint path is required"@), ..t },
                ActionView::Nothing,
            )
        } else {
            (
                TestingTabView {
                    status: RunStatus::Running,
                    log: seq!["Direct inference started..."@],
                    completed: 0,
                    total: 1,
                    current_item: "Running inference..."@,
                    ..t
                },
                ActionView::StartDirectInference {
                    main_image: t.main_image,
                    reference_image: t.reference_image,
                    checkpoint_path: t.checkpoint_path,
                    output_path: t.output_path,
                    backend,
                },
            )
        },
    }
}

/// Leaves the bottom-bar input: back to navigation, input text cleared.
pub open spec fn leave_input(s: AppStateView) -> AppStateView {
    AppStateView { input_mode: InputMode::Normal, input_buffer: Seq::empty(), ..s }
}

/// The training tab with `value` written to its focused text field.
pub open spec fn training_written(t: TrainingTabView, value: Seq<char>) -> TrainingTabView {
    match t.focused_field {
        TrainField::CheckpointDir => TrainingTabView { checkpoint_dir: value, ..t },
        TrainField::ResumeCheckpoint => TrainingTabView { resume_checkpoint: value, ..t },
        TrainField::CropSize => TrainingTabView { crop_size: value, ..t },
        TrainField::DatasetDir => TrainingTabView { dataset_dir: value, ..t },
        TrainField::StepsPerEpoch => TrainingTabView { steps_per_epoch: value, ..t },
        TrainField::Epochs => TrainingTabView { num_epochs: value, ..t },
        TrainField::LearningRate => TrainingTabView { learning_rate: value, ..t },
        TrainField::WeightDecay => TrainingTabView { weight_decay: value, ..t },
        TrainField::RefNoise => TrainingTabView { ref_noise: value, ..t },
        TrainField::Seed => TrainingTabView { seed: value, ..t },
        _ => t,
    }
}

/// The testing tab with `value` written to its focused text field.
pub open spec fn testing_written(t: TestingTabView, value: Seq<char>) -> TestingTabView {
    match t.focused_field {
        TestField::TestImage => TestingTabView { test_image: value, ..t },
        TestField::CheckpointPath => TestingTabView { checkpoint_path: value, ..t },
        TestField::OutputDir => TestingTabView { output_dir: value, ..t },
        TestField::MainImage => TestingTabView { main_image: value, ..t },
        TestField::ReferenceImage => TestingTabView { reference_image: value, ..t },
        TestField::OutputPath => TestingTabView { output_path: value, ..t },
        _ => t,
    }
}

/// What a command typed after `/` does.
pub open spec fn command_effect(s: AppStateView, cmd: Seq<char>) -> AppStateView {
    if cmd == "quit"@ || cmd == "q"@ {
        AppStateView { should_quit: true, ..s }
    } else if cmd == "train"@ {
        AppStateView { active_tab: Tab::Training, ..s }
    } else if cmd == "test"@ {
        AppStateView { active_tab: Tab::Testing, ..s }
    } else if cmd == "settings"@ {
        AppStateView { active_tab: Tab::Settings, ..s }
    } else {
        s
    }
}

/// The text being typed after a Backspace.
pub open spec fn backspaced(b: Seq<char>) -> Seq<char> {
    if b.len() > 0 {
        b.drop_last()
    } else {
        b
    }
}

pub open spec fn toggled_mode(m: TestingMode) -> TestingMode {
    match m {
        TestingMode::AutoTest => TestingMode::DirectInference,
        TestingMode::DirectInference => TestingMode::AutoTest,
    }
}

pub open spec fn next_tab(t: Tab) -> Tab {
    match t {
        Tab::Training => Tab::Testing,
        Tab::Testing => Tab::Settings,
        Tab::Settings => Tab::Training,
    }
}

/// A navigation-mode key on the training tab.
pub open spec fn training_key(s: AppStateView, key: KeyInput) -> (AppStateView, ActionView) {
    let t = s.training;
    if t.status == RunStatus::Running {
        (s, ActionView::Nothing)
    } else {
        match key {
            KeyInput::Up => (
                AppStateView {
                    training: TrainingTabView {
                        focused_field: spec_train_field_prev(t.focused_field),
                        ..t
                    },
                    ..s
                },
                ActionView::Nothing,
            ),
            KeyInput::Down => (
                AppStateView {
                    training: TrainingTabView {
                        focused_field: spec_train_field_next(t.focused_field),
                        ..t
                    },
                    ..s
                },
                ActionView::Nothing,
            ),
            KeyInput::Enter => match t.focused_field {
                TrainField::StartButton => (
                    AppStateView { training: training_started(t), ..s },
                    ActionView::StartTraining(training_launch(t)),
                ),
                TrainField::FullResolution => (
                    AppStateView {
                        training: TrainingTabView { full_resolution: !t.full_resolution, ..t },
                        ..s
                    },
                    ActionView::Nothing,
                ),
                TrainField::CameraFilters => (
                    AppStateView {
                        training: TrainingTabView {
                            use_camera_filters: !t.use_camera_filters,
                            ..t
                        },
                        ..s
                    },
                    ActionView::Nothing,
                ),
                _ => (
                    AppStateView {
                        editing_field_label: train_field_label_text(t.focused_field),
                        input_buffer: train_field_text(t, t.focused_field),
                        input_mode: InputMode::EditingField,
                        ..s
                    },
                    ActionView::Nothing,
                ),
            },
            KeyInput::Char(c) => if c == ' ' && t.focused_field == TrainField::FullResolution {
                (
                    AppStateView {
                        training: TrainingTabView { full_resolution: !t.full_resolution, ..t },
                        ..s
                    },
                    ActionView::Nothing,
                )
            } else if c == ' ' && t.focused_field == TrainField::CameraFilters {
                (
                    AppStateView {
                        training: TrainingTabView {
                            use_camera_filters: !t.use_camera_filters,
                            ..t
                        },
                        ..s
                    },
                    ActionView::Nothing,
                )
            } else {
                (s, ActionView::Nothing)
            },
            _ => (s, ActionView::Nothing),
        }
    }
}

/// A navigation-mode key on the testing tab.
pub open spec fn testing_key(s: AppStateView, key: KeyInput) -> (AppStateView, ActionView) {
    let t = s.testing;
    let f = t.focused_field;
    if t.status == RunStatus::Running {
        (s, ActionView::Nothing)
    } else {
        match key {
            KeyInput::Up => (
                AppStateView {
                    testing: TestingTabView {
                        focused_field: spec_test_field_prev(f, t.mode),
                        ..t
                    },
                    ..s
                },
                ActionView::Nothing,
            ),
            KeyInput::Down => (
                AppStateView {
                    testing: TestingTabView {
                        focused_field: spec_test_field_next(f, t.mode),
                        ..t
                    },
                    ..s
                },
                ActionView::Nothing,
            ),
            KeyInput::Left | KeyInput::Right => if f == TestField::ModeSwitch {
                (
                    AppStateView { testing: TestingTabView { mode: toggled_mode(t.mode), ..t }, ..s },
                    ActionView::Nothing,
                )
            } else {
                (s, ActionView::Nothing)
            },
            KeyInput::Enter => match f {
                TestField::StartButton => {
                    let (t2, a) = testing_start(t, s.settings.inference_backend);
                    (AppStateView { testing: t2, ..s }, a)
                },
                TestField::ModeSwitch => (
                    AppStateView { testing: TestingTabView { mode: toggled_mode(t.mode), ..t }, ..s },
                    ActionView::Nothing,
                ),
                _ => (
                    AppStateView {
                        editing_field_label: test_field_label_text(f),
                        input_buffer: test_field_text(t, f),
                        input_mode: InputMode::EditingField,
                        ..s
                    },
                    ActionView::Nothing,
                ),
            },
            KeyInput::Char(c) => if c == ' ' && f == TestField::ModeSwitch {
                (
                    AppStateView { testing: TestingTabView { mode: toggled_mode(t.mode), ..t }, ..s },
                    ActionView::Nothing,
                )
            } else {
                (s, ActionView::Nothing)
            },
            _ => (s, ActionView::Nothing),
        }
    }
}

/// A navigation-mode key on the settings tab.
pub open spec fn settings_key(s: AppStateView, key: KeyInput) -> AppStateView {
    let st = s.settings;
    match key {
        KeyInput::Up | KeyInput::Down => AppStateView {
            settings: SettingsTabState {
                focused_field: spec_settings_field_other(st.focused_field),
                ..st
            },
            ..s
        },
        KeyInput::Left => match st.focused_field {
            SettingsField::TrainingBackend => AppStateView {
                settings: SettingsTabState {
                    training_backend: backend_prev(st.training_backend),
                    ..st
                },
                ..s
            },
            SettingsField::InferenceBackend => AppStateView {
                settings: SettingsTabState {
                    inference_backend: backend_prev(st.inference_backend),
                    ..st
                },
                ..s
            },
        },
        KeyInput::Right => match st.focused_field {
            SettingsField::TrainingBackend => AppStateView {
                settings: SettingsTabState {
                    training_backend: backend_next(st.training_backend),
                    ..st
                },
                ..s
            },
            SettingsField::InferenceBackend => AppStateView {
                settings: SettingsTabState {
                    inference_backend: backend_next(st.inference_backend),
                    ..st
                },
                ..s
            },
        },
        _ => s,
    }
}

/// A key in navigation mode.
pub open spec fn normal_key(s: AppStateView, key: KeyInput) -> (AppStateView, ActionView) {
    if key == KeyInput::Char('/') {
        (
            AppStateView { input_mode: InputMode::Command, input_buffer: Seq::empty(), ..s },
            ActionView::Nothing,
        )
    } else {
        match key {
            KeyInput::Tab => (
                AppStateView { active_tab: next_tab(s.active_tab), ..s },
                ActionView::Nothing,
            ),
            KeyInput::Esc | KeyInput::Char('q') => (
                AppStateView { should_quit: true, ..s },
                ActionView::Nothing,
            ),
            KeyInput::Char('1') => (
                AppStateView { active_tab: Tab::Training, ..s },
                ActionView::Nothing,
            ),
            KeyInput::Char('2') => (
                AppStateView { active_tab: Tab::Testing, ..s },
                ActionView::Nothing,
            ),
            _ => match s.active_tab {
                Tab::Training => training_key(s, key),
                Tab::Testing => testing_key(s, key),
                Tab::Settings => (settings_key(s, key), ActionView::Nothing),
            },
        }
    }
}

/// A key on the command line.
pub open spec fn command_key(s: AppStateView, key: KeyInput) -> AppStateView {
    match key {
        KeyInput::Esc => leave_input(s),
        KeyInput::Enter => command_effect(leave_input(s), lowercased(trimmed(s.input_buffer))),
        KeyInput::Backspace => AppStateView { input_buffer: backspaced(s.input_buffer), ..s },
        KeyInput::Char(c) => AppStateView { input_buffer: s.input_buffer.push(c), ..s },
        _ => s,
    }
}

/// A key while editing a field.
pub open spec fn editing_key(s: AppStateView, key: KeyInput) -> AppStateView {
    match key {
        KeyInput::Esc => leave_input(s),
        KeyInput::Enter => match s.active_tab {
            Tab::Training => AppStateView {
                training: training_written(s.training, s.input_buffer),
                ..leave_input(s)
            },
            Tab::Testing => AppStateView {
                testing: testing_written(s.testing, s.input_buffer),
                ..leave_input(s)
            },
            Tab::Settings => leave_input(s),
        },
        KeyInput::Backspace => AppStateView { input_buffer: backspaced(s.input_buffer), ..s },
        KeyInput::Char(c) => AppStateView { input_buffer: s.input_buffer.push(c), ..s },
        _ => s,
    }
}

/// A key press in whatever mode the interface is in.
pub open spec fn key_step(s: AppStateView, key: KeyInput) -> (AppStateView, ActionView) {
    match s.input_mode {
        InputMode::Normal => normal_key(s, key),
        InputMode::Command => (command_key(s, key), ActionView::Nothing),
        InputMode::EditingField => (editing_key(s, key), ActionView::Nothing),
    }
}

impl AppState {
    /// Handles one key press; returns the work to start, if any.
    pub fn handle_key(&mut self, key: KeyInput) -> (r: AppAction)
        ensures
            (final(self)@, r@) == key_step(old(self)@, key),
    {
        match self.input_mode {
            InputMode::Normal => self.handle_normal_key(key),
            InputMode::Command => {
                self.handle_command_key(key);
                AppAction::Nothing
            },
            InputMode::EditingField => {
                self.handle_editing_key(key);
                AppAction::Nothing
            },
        }
    }

    pub fn handle_normal_key(&mut self, key: KeyInput) -> (r: AppAction)
        ensures
            (final(self)@, r@) == normal_key(old(self)@, key),
    {
        if key == KeyInput::Char('/') {
            self.input_mode = InputMode::Command;
            self.input_buffer = String::new();
            return AppAction::Nothing;
        }
        match key {
            KeyInput::Tab => {
                self.active_tab = match self.active_tab {
                    Tab::Training => Tab::Testing,
                    Tab::Testing => Tab::Settings,
                    Tab::Settings => Tab::Training,
                };
                AppAction::Nothing
            },
            KeyInput::Esc | KeyInput::Char('q') => {
                self.should_quit = true;
                AppAction::Nothing
            },
            KeyInput::Char('1') => {
                self.active_tab = Tab::Training;
                AppAction::Nothing
            },
            KeyInput::Char('2') => {
                self.active_tab = Tab::Testing;
                AppAction::Nothing
            },
            _ => match self.active_tab {
                Tab::Training => self.handle_training_normal(key),
                Tab::Testing => self.handle_testing_normal(key),
                Tab::Settings => {
                    self.handle_settings_normal(key);
                    AppAction::Nothing
                },
            },
        }
    }

    pub fn handle_command_key(&mut self, key: KeyInput)
        ensures
            final(self)@ == command_key(old(self)@, key),
    {
        match key {
            KeyInput::Esc => {
                self.input_mode = InputMode::Normal;
                self.input_buffer = String::new();
            },
            KeyInput::Enter => {
                let cmd = lowercase_text(trim_text(self.input_buffer.as_str()));
                self.input_mode = InputMode::Normal;
                self.input_buffer = String::new();
                self.execute_command(cmd.as_str());
            },
            KeyInput::Backspace => {
                let _ = pop_char(&mut self.input_buffer);
            },
            KeyInput::Char(c) => {
                push_char(&mut self.input_buffer, c);
            },
            _ => {},
        }
    }

    pub fn execute_command(&mut self, cmd: &str)
        ensures
            final(self)@ == command_effect(old(self)@, cmd@),
    {
        if text_eq(cmd, "quit") || text_eq(cmd, "q") {
            self.should_quit = true;
        } else if text_eq(cmd, "train") {
            self.active_tab = Tab::Training;
        } else if text_eq(cmd, "test") {
            self.active_tab = Tab::Testing;
        } else if text_eq(cmd, "settings") {
            self.active_tab = Tab::Settings;
        }
    }

    pub fn handle_editing_key(&mut self, key: KeyInput)
        ensures
            final(self)@ == editing_key(old(self)@, key),
    {
        match key {
            KeyInput::Esc => {
                self.input_mode = InputMode::Normal;
                self.input_buffer = String::new();
            },
            KeyInput::Enter => {
                let value = self.input_buffer.clone();
                self.input_mode = InputMode::Normal;
                self.input_buffer = String::new();
                match self.active_tab {
                    Tab::Training => self.write_training_field(value),
                    Tab::Testing => self.write_testing_field(value),
                    Tab::Settings => {},
                }
            },
            KeyInput::Backspace => {
                let _ = pop_char(&mut self.input_buffer);
            },
            KeyInput::Char(c) => {
                push_char(&mut self.input_buffer, c);
            },
            _ => {},
        }
    }

    pub fn handle_training_normal(&mut self, key: KeyInput) -> (r: AppAction)
        ensures
            (final(self)@, r@) == training_key(old(self)@, key),
    {
        if self.training.status == RunStatus::Running {
            return AppAction::Nothing;
        }
        match key {
            KeyInput::Up => {
                self.training.focused_field = train_field_prev(self.training.focused_field);
                AppAction::Nothing
            },
            KeyInput::Down => {
                self.training.focused_field = train_field_next(self.training.focused_field);
                AppAction::Nothing
            },
            KeyInput::Enter => match self.training.focused_field {
                TrainField::StartButton => self.start_training(),
                TrainField::FullResolution => {
                    self.training.full_resolution = !self.training.full_resolution;
                    AppAction::Nothing
                },
                TrainField::CameraFilters => {
                    self.training.use_camera_filters = !self.training.use_camera_filters;
                    AppAction::Nothing
                },
                f => {
                    let label = train_field_label(f);
                    self.editing_field_label = String::from_str(label);
                    let value = String::from_str(train_field_value(&self.training, f));
                    self.input_buffer = value;
                    self.input_mode = InputMode::EditingField;
                    AppAction::Nothing
                },
            },
            KeyInput::Char(c) => {
                if c == ' ' {
                    match self.training.focused_field {
                        TrainField::FullResolution => {
                            self.training.full_resolution = !self.training.full_resolution;
                        },
                        TrainField::CameraFilters => {
                            self.training.use_camera_filters = !self.training.use_camera_filters;
                        },
                        _ => {},
                    }
                }
                AppAction::Nothing
            },
            _ => AppAction::Nothing,
        }
    }

    pub fn write_training_field(&mut self, value: String)
        ensures
            final(self)@ == (AppStateView {
                training: training_written(old(self)@.training, value@),
                ..old(self)@
            }),
    {
        let t = &mut self.training;
        match t.focused_field {
            TrainField::CheckpointDir => t.checkpoint_dir = value,
            TrainField::ResumeCheckpoint => t.resume_checkpoint = value,
            TrainField::CropSize => t.crop_size = value,
            TrainField::DatasetDir => t.dataset_dir = value,
            TrainField::StepsPerEpoch => t.steps_per_epoch = value,
            TrainField::Epochs => t.num_epochs = value,
            TrainField::LearningRate => t.learning_rate = value,
            TrainField::WeightDecay => t.weight_decay = value,
            TrainField::RefNoise => t.ref_noise = value,
            TrainField::Seed => t.seed = value,
            _ => {},
        }
    }

    pub fn handle_testing_normal(&mut self, key: KeyInput) -> (r: AppAction)
        ensures
            (final(self)@, r@) == testing_key(old(self)@, key),
    {
        if self.testing.status == RunStatus::Running {
            return AppAction::Nothing;
        }
        match key {
            KeyInput::Up => {
                self.testing.focused_field = test_field_prev(
                    self.testing.focused_field,
                    self.testing.mode,
                );
                AppAction::Nothing
            },
            KeyInput::Down => {
                self.testing.focused_field = test_field_next(
                    self.testing.focused_field,
                    self.testing.mode,
                );
                AppAction::Nothing
            },
            KeyInput::Left | KeyInput::Right => {
                if self.testing.focused_field == TestField::ModeSwitch {
                    self.testing.mode = toggle_mode(self.testing.mode);
                }
                AppAction::Nothing
            },
            KeyInput::Enter => match self.testing.focused_field {
                TestField::StartButton => self.start_testing(),
                TestField::ModeSwitch => {
                    self.testing.mode = toggle_mode(self.testing.mode);
                    AppAction::Nothing
                },
                f => {
                    let label = test_field_label(f);
                    self.editing_field_label = String::from_str(label);
                    let value = String::from_str(test_field_value(&self.testing, f));
                    self.input_buffer = value;
                    self.input_mode = InputMode::EditingField;
                    AppAction::Nothing
                },
            },
            KeyInput::Char(c) => {
                if c == ' ' && self.testing.focused_field == TestField::ModeSwitch {
                    self.testing.mode = toggle_mode(self.testing.mode);
                }
                AppAction::Nothing
            },
            _ => AppAction::Nothing,
        }
    }

    pub fn write_testing_field(&mut self, value: String)
        ensures
            final(self)@ == (AppStateView {
                testing: testing_written(old(self)@.testing, value@),
                ..old(self)@
            }),
    {
        let t = &mut self.testing;
        match t.focused_field {
            TestField::TestImage => t.test_image = value,
            TestField::CheckpointPath => t.checkpoint_path = value,
            TestField::OutputDir => t.output_dir = value,
            TestField::MainImage => t.main_image = value,
            TestField::ReferenceImage => t.reference_image = value,
            TestField::OutputPath => t.output_path = value,
            _ => {},
        }
    }

    pub fn handle_settings_normal(&mut self, key: KeyInput)
        ensures
            final(self)@ == settings_key(old(self)@, key),
    {
        let s = &mut self.settings;
        match key {
            KeyInput::Up => s.focused_field = settings_field_prev(s.focused_field),
            KeyInput::Down => s.focused_field = settings_field_next(s.focused_field),
            KeyInput::Left => match s.focused_field {
                SettingsField::TrainingBackend => s.training_backend = s.training_backend.prev(),
                SettingsField::InferenceBackend => s.inference_backend = s.inference_backend.prev(),
            },
            KeyInput::Right => match s.focused_field {
                SettingsField::TrainingBackend => s.training_backend = s.training_backend.next(),
                SettingsField::InferenceBackend => s.inference_backend = s.inference_backend.next(),
            },
            _ => {},
        }
    }

    /// Starts a training run with the fields as they are.
    pub fn start_training(&mut self) -> (r: AppAction)
        ensures
            final(self)@ == (AppStateView {
                training: training_started(old(self)@.training),
                ..old(self)@
            }),
            r@ == ActionView::StartTraining(training_launch(old(self)@.training)),
    {
        let t = &self.training;
        let crop_main_size: u32 = match parse_u32(t.crop_size.as_str()) {
            Some(v) => v,
            None => 256,
        };
        let steps_per_epoch: usize = match parse_usize(t.steps_per_epoch.as_str()) {
            Some(v) => v,
            None => 1000,
        };
        let num_epochs: usize = match parse_usize(t.num_epochs.as_str()) {
            Some(v) => v,
            None => 100,
        };
        let seed: u64 = match parse_u64(t.seed.as_str()) {
            Some(v) => v,
            None => 42,
        };
        let checkpoint_every_steps: usize = match parse_usize(t.checkpoint_interval.as_str()) {
            Some(v) => v,
            None => 500,
        };
        let launch = TrainingLaunch {
            num_epochs,
            steps_per_epoch,
            crop_main_size,
            checkpoint_every_steps,
            seed,
            learning_rate: t.learning_rate.clone(),
            weight_decay: t.weight_decay.clone(),
            ref_noise: t.ref_noise.clone(),
            checkpoint_dir: t.checkpoint_dir.clone(),
            dataset_dir: t.dataset_dir.clone(),
            resume_checkpoint: t.resume_checkpoint.clone(),
            full_resolution: t.full_resolution,
            use_camera_filters: t.use_camera_filters,
        };
        let t = &mut self.training;
        t.status = RunStatus::Running;
        t.log.clear();
        t.log.push(String::from_str("Training started..."));
        t.current_epoch = 0;
        t.total_epochs = num_epochs;
        t.global_step = 0;
        t.current_loss = Loss::zero();
        t.avg_loss = Loss::zero();
        t.samples_seen = 0;
        proof {
            assert(log_view(t.log@) =~= seq!["Training started..."@]);
        }
        AppAction::StartTraining(launch)
    }

    /// Starts the selected kind of test run, or logs why it cannot start.
    pub fn start_testing(&mut self) -> (r: AppAction)
        ensures
            ({
                let (t2, a) = testing_start(old(self)@.testing, old(self)@.settings.inference_backend);
                final(self)@ == (AppStateView { testing: t2, ..old(self)@ }) && r@ == a
            }),
    {
        let backend = self.settings.inference_backend;
        let t = &mut self.testing;
        let ghost old_log = log_view(t.log@);
        match t.mode {
            TestingMode::AutoTest => {
                if t.test_image.as_str().is_empty() {
                    t.log.push(String::from_str("ERROR: Test image path is required"));
                    proof {
                        assert(log_view(t.log@) =~= old_log.push("ERROR: Test image path is required"@));
                    }
                    return AppAction::Nothing;
                }
                if t.checkpoint_path.as_str().is_empty() {
                    t.log.push(String::from_str("ERROR: Checkpoint path is required"));
                    proof {
                        assert(log_view(t.log@) =~= old_log.push("ERROR: Checkpoint path is required"@));
                    }
                    return AppAction::Nothing;
                }
                t.status = RunStatus::Running;
                t.log.clear();
                t.log.push(String::from_str("Auto test started..."));
                t.completed = 0;
                t.total = 0;
                t.current_item = String::from_str("Initializing...");
                proof {
                    assert(log_view(t.log@) =~= seq!["Auto test started..."@]);
                }
                AppAction::StartAutoTest {
                    test_image: t.test_image.clone(),
                    checkpoint_path: t.checkpoint_path.clone(),
                    output_dir: t.output_dir.clone(),
                    backend,
                }
            },
            TestingMode::DirectInference => {
                if t.main_image.as_str().is_empty() || t.reference_image.as_str().is_empty() {
                    t.log.push(String::from_str("ERROR: Main and reference image paths are required"));
                    proof {
                        assert(log_view(t.log@) =~= old_log.push(
                            "ERROR: Main and reference image paths are required"@,
                        ));
                    }
                    return AppAction::Nothing;
                }
                if t.checkpoint_path.as_str().is_empty() {
                    t.log.push(String::from_str("ERROR: Checkpoint path is required"));
                    proof {
                        assert(log_view(t.log@) =~= old_log.push("ERROR: Checkpoint path is required"@));
                    }
                    return AppAction::Nothing;
                }
                t.status = RunStatus::Running;
                t.log.clear();
                t.log.push(String::from_str("Direct inference started..."));
                t.completed = 0;
                t.total = 1;
                t.current_item = String::from_str("Running inference...");
                proof {
                    assert(log_view(t.log@) =~= seq!["Direct inference started..."@]);
                }
                AppAction::StartDirectInference {
                    main_image: t.main_image.clone(),
                    reference_image: t.reference_image.clone(),
                    checkpoint_path: t.checkpoint_path.clone(),
                    output_path: t.output_path.clone(),
                    backend,
                }
            },
        }
    }
}

// ── Laws of the key handling ──

/// A text field of the training form (the ones that open the editor).
pub open spec fn is_train_text_field(f: TrainField) -> bool {
    train_field_pos(f) < 10
}

/// Three presses of Tab in navigation mode come back to the same tab and change nothing else.
pub proof fn lemma_tab_cycles(s: AppStateView)
    requires
        s.input_mode == InputMode::Normal,
    ensures
        ({
            let s1 = key_step(s, KeyInput::Tab).0;
            let s2 = key_step(s1, KeyInput::Tab).0;
            let s3 = key_step(s2, KeyInput::Tab).0;
            s1.active_tab == next_tab(s.active_tab) && s3 == s
        }),
{
    let s1 = key_step(s, KeyInput::Tab).0;
    let s2 = key_step(s1, KeyInput::Tab).0;
    let s3 = key_step(s2, KeyInput::Tab).0;
    assert(s3 =~= s);
}

/// The keys that act the same on every tab in navigation mode: Tab, `1` and `2` switch tabs,
/// `q` and Esc quit, `/` opens the command line.
pub open spec fn is_global_key(key: KeyInput) -> bool {
    key == KeyInput::Tab || key == KeyInput::Char('/') || key == KeyInput::Esc || key
        == KeyInput::Char('q') || key == KeyInput::Char('1') || key == KeyInput::Char('2')
}

/// In navigation mode `q` and Esc quit, `1` shows the training tab and `2` the testing tab;
/// nothing else changes and no work starts.
pub proof fn lemma_shortcuts(s: AppStateView)
    requires
        s.input_mode == InputMode::Normal,
    ensures
        key_step(s, KeyInput::Char('q')) == (AppStateView { should_quit: true, ..s }, ActionView::Nothing),
        key_step(s, KeyInput::Esc) == (AppStateView { should_quit: true, ..s }, ActionView::Nothing),
        key_step(s, KeyInput::Char('1')) == (AppStateView { active_tab: Tab::Training, ..s }, ActionView::Nothing),
        key_step(s, KeyInput::Char('2')) == (AppStateView { active_tab: Tab::Testing, ..s }, ActionView::Nothing),
{
}

/// While a training run is going, navigation keys on the training tab change nothing and start
/// nothing (only the global keys still act, as they do on every tab).
pub proof fn lemma_running_training_ignores_keys(s: AppStateView, key: KeyInput)
    requires
        s.input_mode == InputMode::Normal,
        s.active_tab == Tab::Training,
        s.training.status == RunStatus::Running,
        !is_global_key(key),
    ensures
        key_step(s, key) == (s, ActionView::Nothing),
{
}

/// While a test run is going, navigation keys on the testing tab change nothing and start
/// nothing.
pub proof fn lemma_running_testing_ignores_keys(s: AppStateView, key: KeyInput)
    requires
        s.input_mode == InputMode::Normal,
        s.active_tab == Tab::Testing,
        s.testing.status == RunStatus::Running,
        !is_global_key(key),
    ensures
        key_step(s, key) == (s, ActionView::Nothing),
{
}

/// Enter on a text field of the idle training tab opens the editor with the field's text;
/// confirming it unchanged leaves the form as it was, and Esc discards the edit.
pub proof fn lemma_edit_roundtrip(s: AppStateView)
    requires
        s.input_mode == InputMode::Normal,
        s.active_tab == Tab::Training,
        s.training.status != RunStatus::Running,
        is_train_text_field(s.training.focused_field),
    ensures
        ({
            let s1 = key_step(s, KeyInput::Enter).0;
            &&& s1.input_mode == InputMode::EditingField
            &&& s1.input_buffer == train_field_text(s.training, s.training.focused_field)
            &&& s1.editing_field_label == train_field_label_text(s.training.focused_field)
            &&& key_step(s1, KeyInput::Enter).0.training == s.training
            &&& key_step(s1, KeyInput::Enter).0.input_mode == InputMode::Normal
            &&& key_step(s1, KeyInput::Esc).0.training == s.training
            &&& key_step(s1, KeyInput::Esc).0.input_mode == InputMode::Normal
        }),
{
    let s1 = key_step(s, KeyInput::Enter).0;
    assert(key_step(s1, KeyInput::Enter).0.training =~= s.training);
}

/// Confirming an edit on the training tab writes the typed text to the focused text field: the
/// field then reads back exactly that text, and no other field changes.
pub proof fn lemma_edit_writes_field(s: AppStateView, f: TrainField)
    requires
        s.input_mode == InputMode::EditingField,
        s.active_tab == Tab::Training,
        is_train_text_field(s.training.focused_field),
    ensures
        train_field_text(key_step(s, KeyInput::Enter).0.training, s.training.focused_field)
            == s.input_buffer,
        f != s.training.focused_field ==> train_field_text(
            key_step(s, KeyInput::Enter).0.training,
            f,
        ) == train_field_text(s.training, f),
{
}

/// Typing a character and deleting it again leaves the bottom-bar input as it was.
pub proof fn lemma_backspace_undoes_typing(s: AppStateView, c: char)
    requires
        s.input_mode == InputMode::Command || s.input_mode == InputMode::EditingField,
    ensures
        key_step(key_step(s, KeyInput::Char(c)).0, KeyInput::Backspace).0 == s,
{
    let s1 = key_step(s, KeyInput::Char(c)).0;
    assert(s1.input_buffer.drop_last() =~= s.input_buffer);
    assert(key_step(s1, KeyInput::Backspace).0 =~= s);
}

/// On the settings tab, Right then Left gives back the same back end.
pub proof fn lemma_backend_right_left(s: AppStateView)
    requires
        s.input_mode == InputMode::Normal,
        s.active_tab == Tab::Settings,
    ensures
        key_step(key_step(s, KeyInput::Right).0, KeyInput::Left).0 == s,
{
    let s2 = key_step(key_step(s, KeyInput::Right).0, KeyInput::Left).0;
    assert(s2 =~= s);
}

/// The start button of an idle training tab starts exactly the run its fields describe and
/// puts the tab in the running state with a fresh one-line log.
pub proof fn lemma_start_training(s: AppStateView)
    requires
        s.input_mode == InputMode::Normal,
        s.active_tab == Tab::Training,
        s.training.status != RunStatus::Running,
        s.training.focused_field == TrainField::StartButton,
    ensures
        key_step(s, KeyInput::Enter).1 == ActionView::StartTraining(training_launch(s.training)),
        key_step(s, KeyInput::Enter).0.training.status == RunStatus::Running,
        key_step(s, KeyInput::Enter).0.training.log.len() == 1,
{
}

/// A test run never starts without the paths it needs: the tab only logs an error.
pub proof fn lemma_testing_needs_paths(t: TestingTabView, b: Backend)
    requires
        t.checkpoint_path.len() == 0 || (t.mode == TestingMode::AutoTest && t.test_image.len()
            == 0) || (t.mode == TestingMode::DirectInference && (t.main_image.len() == 0
            || t.reference_image.len() == 0)),
    ensures
        testing_start(t, b).1 == ActionView::Nothing,
        testing_start(t, b).0.status == t.status,
        testing_start(t, b).0.log.len() == t.log.len() + 1,
{
}

/// Switching the testing mode twice gives back the same mode.
pub proof fn lemma_mode_toggle_involution(m: TestingMode)
    ensures
        toggled_mode(toggled_mode(m)) == m,
{
}

// ── Laws of the command line and of starting runs ──

/// A command changes only what it names: `quit` and `q` (and nothing else) make the interface
/// quit; `train`, `test` and `settings` (and nothing else) show their tab; the forms, the
/// settings and the input state stay as they are.
pub proof fn lemma_command_effect(s: AppStateView, cmd: Seq<char>)
    ensures
        command_effect(s, cmd).should_quit == (s.should_quit || cmd == "quit"@ || cmd == "q"@),
        command_effect(s, cmd).active_tab == if cmd == "train"@ {
            Tab::Training
        } else if cmd == "test"@ {
            Tab::Testing
        } else if cmd == "settings"@ {
            Tab::Settings
        } else {
            s.active_tab
        },
        cmd == "train"@ ==> command_effect(s, cmd).active_tab == Tab::Training,
        cmd == "test"@ ==> command_effect(s, cmd).active_tab == Tab::Testing,
        cmd == "settings"@ ==> command_effect(s, cmd).active_tab == Tab::Settings,
        command_effect(s, cmd).training == s.training,
        command_effect(s, cmd).testing == s.testing,
        command_effect(s, cmd).settings == s.settings,
        command_effect(s, cmd).input_mode == s.input_mode,
        command_effect(s, cmd).input_buffer == s.input_buffer,
{
    reveal_strlit("quit");
    reveal_strlit("q");
    reveal_strlit("train");
    reveal_strlit("test");
    reveal_strlit("settings");
    // the quitting words differ from the tab names in their first letter
    assert("quit"@[0] != "train"@[0] && "quit"@[0] != "test"@[0] && "quit"@[0] != "settings"@[0]);
    assert("q"@[0] != "train"@[0] && "q"@[0] != "test"@[0] && "q"@[0] != "settings"@[0]);
    // and the tab names from each other
    assert("test"@[1] != "train"@[1] && "settings"@[0] != "train"@[0] && "settings"@[0]
        != "test"@[0]);
}

/// Enter on the command line runs the typed text, trimmed and in lower case: `quit` or `q`
/// quits, `train`, `test` and `settings` switch tabs; the command line closes and empties,
/// and no run starts.
pub proof fn lemma_command_line_enter(s: AppStateView)
    requires
        s.input_mode == InputMode::Command,
    ensures
        ({
            let cmd = lowercased(trimmed(s.input_buffer));
            let (s1, a) = key_step(s, KeyInput::Enter);
            &&& a == ActionView::Nothing
            &&& s1.input_mode == InputMode::Normal
            &&& s1.input_buffer.len() == 0
            &&& s1.should_quit == (s.should_quit || cmd == "quit"@ || cmd == "q"@)
            &&& (cmd == "train"@ ==> s1.active_tab == Tab::Training)
            &&& (cmd == "test"@ ==> s1.active_tab == Tab::Testing)
            &&& (cmd == "settings"@ ==> s1.active_tab == Tab::Settings)
            &&& (cmd != "train"@ && cmd != "test"@ && cmd != "settings"@ ==> s1.active_tab
                == s.active_tab)
            &&& s1.training == s.training
            &&& s1.testing == s.testing
            &&& s1.settings == s.settings
        }),
{
    let cmd = lowercased(trimmed(s.input_buffer));
    lemma_command_effect(leave_input(s), cmd);
}

/// The start button of a testing form whose paths are filled in starts a run on exactly the
/// form's paths, in their roles, with the inference back end of the settings, and marks the tab
/// running: the automatic test on the test image, checkpoints and output directory; direct
/// inference on the main image, the reference image, the checkpoint and the output path.
pub proof fn lemma_start_testing_uses_the_form(t: TestingTabView, b: Backend)
    ensures
        t.mode == TestingMode::AutoTest && t.test_image.len() > 0 && t.checkpoint_path.len() > 0
            ==> testing_start(t, b).1 == (ActionView::StartAutoTest {
            test_image: t.test_image,
            checkpoint_path: t.checkpoint_path,
            output_dir: t.output_dir,
            backend: b,
        }),
        t.mode == TestingMode::DirectInference && t.main_image.len() > 0
            && t.reference_image.len() > 0 && t.checkpoint_path.len() > 0 ==> testing_start(
            t,
            b,
        ).1 == (ActionView::StartDirectInference {
            main_image: t.main_image,
            reference_image: t.reference_image,
            checkpoint_path: t.checkpoint_path,
            output_path: t.output_path,
            backend: b,
        }),
        testing_start(t, b).1 != ActionView::Nothing ==> testing_start(t, b).0.status
            == RunStatus::Running && testing_start(t, b).0.completed == 0,
        testing_start(t, b).1 == ActionView::Nothing ==> testing_start(t, b).0.status == t.status,
        testing_start(t, b).0.mode == t.mode,
        testing_start(t, b).0.main_image == t.main_image,
        testing_start(t, b).0.reference_image == t.reference_image,
        testing_start(t, b).0.test_image == t.test_image,
        testing_start(t, b).0.checkpoint_path == t.checkpoint_path,
{
}

/// The same, through the keys: Enter on the start button of an idle testing tab.
pub proof fn lemma_start_button_starts_the_test(s: AppStateView)
    requires
        s.input_mode == InputMode::Normal,
        s.active_tab == Tab::Testing,
        s.testing.status != RunStatus::Running,
        s.testing.focused_field == TestField::StartButton,
    ensures
        key_step(s, KeyInput::Enter).1 == testing_start(s.testing, s.settings.inference_backend).1,
        key_step(s, KeyInput::Enter).0.testing == testing_start(
            s.testing,
            s.settings.inference_backend,
        ).0,
{
}

/// The run a training form starts takes every setting from its own field: each count is the
/// field's unsigned value when the field parses and its default otherwise (100 epochs, 1000
/// steps, 256 pixels, a checkpoint every 500 steps, seed 42); the texts and both toggles are
/// copied as they are.
pub proof fn lemma_training_launch_fields(t: TrainingTabView)
    ensures
        ({
            let l = training_launch(t);
            &&& l.num_epochs == match parse_unsigned(t.num_epochs, usize::MAX as int) {
                Some(v) => v,
                None => 100,
            }
            &&& l.steps_per_epoch == match parse_unsigned(t.steps_per_epoch, usize::MAX as int) {
                Some(v) => v,
                None => 1000,
            }
            &&& l.crop_main_size == match parse_unsigned(t.crop_size, u32::MAX as int) {
                Some(v) => v,
                None => 256,
            }
            &&& l.checkpoint_every_steps == match parse_unsigned(
                t.checkpoint_interval,
                usize::MAX as int,
            ) {
                Some(v) => v,
                None => 500,
            }
            &&& l.seed == match parse_unsigned(t.seed, u64::MAX as int) {
                Some(v) => v,
                None => 42,
            }
            &&& l.full_resolution == t.full_resolution
            &&& l.use_camera_filters == t.use_camera_filters
            &&& l.learning_rate == t.learning_rate
            &&& l.weight_decay == t.weight_decay
            &&& l.ref_noise == t.ref_noise
            &&& l.checkpoint_dir == t.checkpoint_dir
            &&& l.dataset_dir == t.dataset_dir
            &&& l.resume_checkpoint == t.resume_checkpoint
        }),
{
    lemma_parse_unsigned_range(t.num_epochs, usize::MAX as int);
    lemma_parse_unsigned_range(t.steps_per_epoch, usize::MAX as int);
    lemma_parse_unsigned_range(t.crop_size, u32::MAX as int);
    lemma_parse_unsigned_range(t.checkpoint_interval, usize::MAX as int);
    lemma_parse_unsigned_range(t.seed, u64::MAX as int);
}

/// Enter on the start button of an idle training tab starts the run of its fields
/// (`lemma_training_launch_fields`): the full-resolution flag is the Full Resolution toggle
/// and the filter flag is the Camera Filters toggle.
pub proof fn lemma_start_button_starts_training(s: AppStateView)
    requires
        s.input_mode == InputMode::Normal,
        s.active_tab == Tab::Training,
        s.training.status != RunStatus::Running,
        s.training.focused_field == TrainField::StartButton,
    ensures
        key_step(s, KeyInput::Enter).1 == ActionView::StartTraining(training_launch(s.training)),
        training_launch(s.training).full_resolution == s.training.full_resolution,
        training_launch(s.training).use_camera_filters == s.training.use_camera_filters,
        key_step(s, KeyInput::Enter).0.training.status == RunStatus::Running,
{
}

/// The other testing mode.
pub fn toggle_mode(m: TestingMode) -> (r: TestingMode)
    ensures
        r == toggled_mode(m),
{
    match m {
        TestingMode::AutoTest => TestingMode::DirectInference,
        TestingMode::DirectInference => TestingMode::AutoTest,
    }
}

} // verus!
