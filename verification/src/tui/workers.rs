//! The values and decisions of the background work: progress events of a test run, the log
//! line format, panic messages, and the checks a test run makes before it starts.
use vstd::prelude::*;
use crate::augmentation::CameraFilter;
use crate::pixels::{PixelImage, lanczos3_resized};
use crate::text::{decimal, usize_text};

verus! {

/// Progress events of a test run.
#[derive(Debug, Clone)]
pub enum TestingEvent {
    AutoTestStarted { total_filters: usize, total_checkpoints: usize },
    AutoTestCheckpointStarted { checkpoint: String },
    AutoTestItemCompleted { checkpoint: String, filter: String, completed: usize, total: usize },
    AutoTestCompleted,
    DirectInferenceStarted,
    DirectInferenceCompleted { output_path: String },
    Log(String),
    Error(String),
}

/// A testing event as plain values.
#[verifier::ext_equal]
pub enum TestingEventView {
    AutoTestStarted { total_filters: usize, total_checkpoints: usize },
    AutoTestCheckpointStarted { checkpoint: Seq<char> },
    AutoTestItemCompleted {
        checkpoint: Seq<char>,
        filter: Seq<char>,
        completed: usize,
        total: usize,
    },
    AutoTestCompleted,
    DirectInferenceStarted,
    DirectInferenceCompleted { output_path: Seq<char> },
    Log(Seq<char>),
    Error(Seq<char>),
}

impl View for TestingEvent {
    type V = TestingEventView;

    open spec fn view(&self) -> TestingEventView {
        match self {
            TestingEvent::AutoTestStarted { total_filters, total_checkpoints } =>
                TestingEventView::AutoTestStarted {
                total_filters: *total_filters,
                total_checkpoints: *total_checkpoints,
            },
            TestingEvent::AutoTestCheckpointStarted { checkpoint } =>
                TestingEventView::AutoTestCheckpointStarted { checkpoint: checkpoint@ },
            TestingEvent::AutoTestItemCompleted { checkpoint, filter, completed, total } =>
                TestingEventView::AutoTestItemCompleted {
                checkpoint: checkpoint@,
                filter: filter@,
                completed: *completed,
                total: *total,
            },
            TestingEvent::AutoTestCompleted => TestingEventView::AutoTestCompleted,
            TestingEvent::DirectInferenceStarted => TestingEventView::DirectInferenceStarted,
            TestingEvent::DirectInferenceCompleted { output_path } =>
                TestingEventView::DirectInferenceCompleted { output_path: output_path@ },
            TestingEvent::Log(m) => TestingEventView::Log(m@),
            TestingEvent::Error(m) => TestingEventView::Error(m@),
        }
    }
}

// ── Log file lines ──

/// `n` (below 100) as two digits, with a leading zero when needed.
pub open spec fn two_digits(n: nat) -> Seq<char> {
    if n < 10 {
        seq!['0'] + decimal(n)
    } else {
        decimal(n)
    }
}

/// Wall-clock time of day (hours, minutes, seconds, in UTC) of `secs` seconds since the epoch.
pub open spec fn clock_of(secs: nat) -> (nat, nat, nat) {
    ((secs / 3600) % 24, (secs / 60) % 60, secs % 60)
}

/// A log-file line: `[hh:mm:ss] message`.
pub open spec fn log_file_line(secs: nat, msg: Seq<char>) -> Seq<char> {
    let (h, m, s) = clock_of(secs);
    "["@ + two_digits(h) + ":"@ + two_digits(m) + ":"@ + two_digits(s) + "] "@ + msg
}

/// `n` (below 100) as two digits.
pub fn two_digit_text(n: u64) -> (r: String)
    requires
        n < 100,
    ensures
        r@ == two_digits(n as nat),
{
    let digits = usize_text(n as usize);
    if n < 10 {
        let mut r = String::from_str("0");
        r.append(digits.as_str());
        proof {
            reveal_strlit("0");
        }
        r
    } else {
        digits
    }
}

/// The line written to the log file for `msg` at `secs` seconds since the epoch.
pub fn log_line(secs: u64, msg: &str) -> (r: String)
    ensures
        r@ == log_file_line(secs as nat, msg@),
{
    let h: u64 = (secs / 3600) % 24;
    let m: u64 = (secs / 60) % 60;
    let s: u64 = secs % 60;
    let mut line = String::from_str("[");
    line.append(two_digit_text(h).as_str());
    line.append(":");
    line.append(two_digit_text(m).as_str());
    line.append(":");
    line.append(two_digit_text(s).as_str());
    line.append("] ");
    line.append(msg);
    line
}

// ── Panic messages ──

/// The payload of a caught panic, as far as its message is concerned.
#[derive(Debug, Clone)]
pub enum PanicPayload {
    /// The panic carried a `&'static str`.
    Str(String),
    /// The panic carried a `String`.
    Text(String),
    /// The panic carried something else.
    Opaque,
}

pub open spec fn panic_message(p: PanicPayload) -> Seq<char> {
    match p {
        PanicPayload::Str(s) => s@,
        PanicPayload::Text(s) => s@,
        PanicPayload::Opaque => "unknown panic"@,
    }
}

/// The message of a caught panic: its text, or `unknown panic`.
pub fn format_panic(info: &PanicPayload) -> (r: String)
    ensures
        r@ == panic_message(*info),
{
    match info {
        PanicPayload::Str(s) => s.clone(),
        PanicPayload::Text(s) => s.clone(),
        PanicPayload::Opaque => String::from_str("unknown panic"),
    }
}

// ── Back ends ──

/// The runtime an inference back end runs on: the GPU runtime serves WGPU, Vulkan and CUDA,
/// the CPU runtime serves NdArray.
#[derive(Debug, Clone, Copy, PartialEq, Eq, Structural)]
pub enum InferenceRuntime {
    Gpu,
    Cpu,
}

pub open spec fn runtime_of(b: crate::tui::state::Backend) -> InferenceRuntime {
    match b {
        crate::tui::state::Backend::NdArray => InferenceRuntime::Cpu,
        _ => InferenceRuntime::Gpu,
    }
}

pub fn inference_runtime(b: crate::tui::state::Backend) -> (r: InferenceRuntime)
    ensures
        r == runtime_of(b),
{
    match b {
        crate::tui::state::Backend::Wgpu | crate::tui::state::Backend::Vulkan
        | crate::tui::state::Backend::Cuda => InferenceRuntime::Gpu,
        crate::tui::state::Backend::NdArray => InferenceRuntime::Cpu,
    }
}

// ── Checks and names of a test run ──

/// Lower-case name of a filter, as its output directory is named.
pub open spec fn filter_dir_name(f: CameraFilter) -> Seq<char> {
    match f {
        CameraFilter::Original => "original"@,
        CameraFilter::Warm => "warm"@,
        CameraFilter::Cool => "cool"@,
        CameraFilter::Vivid => "vivid"@,
        CameraFilter::Fade => "fade"@,
        CameraFilter::Mono => "mono"@,
        CameraFilter::Noir => "noir"@,
        CameraFilter::Chrome => "chrome"@,
        CameraFilter::Sepia => "sepia"@,
        CameraFilter::ToyCamera => "toycamera"@,
        CameraFilter::Grain => "grain"@,
        CameraFilter::SoftFocus => "softfocus"@,
        CameraFilter::Underexpose => "underexpose"@,
        CameraFilter::Overexpose => "overexpose"@,
        CameraFilter::Invert => "invert"@,
        CameraFilter::Posterize => "posterize"@,
    }
}

/// The filter's variant name in lower case (the directory a test run writes its results to).
pub fn filter_name(f: CameraFilter) -> (r: &'static str)
    ensures
        r@ == filter_dir_name(f),
{
    match f {
        CameraFilter::Original => "original",
        CameraFilter::Warm => "warm",
        CameraFilter::Cool => "cool",
        CameraFilter::Vivid => "vivid",
        CameraFilter::Fade => "fade",
        CameraFilter::Mono => "mono",
        CameraFilter::Noir => "noir",
        CameraFilter::Chrome => "chrome",
        CameraFilter::Sepia => "sepia",
        CameraFilter::ToyCamera => "toycamera",
        CameraFilter::Grain => "grain",
        CameraFilter::SoftFocus => "softfocus",
        CameraFilter::Underexpose => "underexpose",
        CameraFilter::Overexpose => "overexpose",
        CameraFilter::Invert => "invert",
        CameraFilter::Posterize => "posterize",
    }
}

/// The inputs of an automatic test, made from the test image with the Lanczos3 filter: the
/// reference at 1024 × 1024 and the main image at 256 × 256. Returns `(reference, main)`.
pub fn auto_test_inputs(img: &PixelImage) -> (r: (PixelImage, PixelImage))
    requires
        img.wf(),
        img.spec_width() as int * 1024 * 16 <= isize::MAX,
    ensures
        r.0.wf(),
        r.0.spec_width() == 1024,
        r.0.spec_height() == 1024,
        r.0@ == lanczos3_resized(img@, img.spec_width(), img.spec_height(), 1024, 1024),
        r.1.wf(),
        r.1.spec_width() == 256,
        r.1.spec_height() == 256,
        r.1@ == lanczos3_resized(img@, img.spec_width(), img.spec_height(), 256, 256),
{
    let reference = img.resize(1024, 1024);
    let main = img.resize(256, 256);
    (reference, main)
}

/// Direct inference needs a reference exactly four times the main image in each dimension.
pub fn reference_size_matches(main_w: u32, main_h: u32, ref_w: u32, ref_h: u32) -> (r: bool)
    requires
        main_w as int * 4 <= u32::MAX,
        main_h as int * 4 <= u32::MAX,
    ensures
        r == (ref_w == main_w as int * 4 && ref_h == main_h as int * 4),
{
    let expected_w: u32 = main_w * 4;
    let expected_h: u32 = main_h * 4;
    !(ref_w != expected_w || ref_h != expected_h)
}

/// Progress of an automatic test, which runs every filter on every checkpoint in turn and
/// counts a result as completed whether or not it could be produced.
#[derive(Debug, Clone, Copy)]
pub struct AutoTestCounter {
    pub checkpoints: usize,
    pub filters: usize,
    /// Checkpoints whose results are all counted.
    pub finished_checkpoints: usize,
    /// Filters counted for the checkpoint under way.
    pub finished_filters: usize,
    /// Results counted so far.
    pub completed: usize,
}

impl AutoTestCounter {
    /// Number of results the run produces: one per checkpoint and filter.
    pub open spec fn total_spec(self) -> int {
        self.checkpoints * self.filters
    }

    pub open spec fn wf(self) -> bool {
        &&& self.checkpoints * self.filters <= usize::MAX
        &&& self.finished_checkpoints <= self.checkpoints
        &&& (self.finished_filters < self.filters || self.finished_filters == 0)
        &&& (self.finished_checkpoints == self.checkpoints ==> self.finished_filters == 0)
        &&& self.completed == self.finished_checkpoints * self.filters + self.finished_filters
    }

    /// Every checkpoint is through.
    pub open spec fn is_done(self) -> bool {
        self.finished_checkpoints == self.checkpoints
    }

    /// A run over `checkpoints` checkpoints and `filters` filters, nothing counted yet.
    pub fn new(checkpoints: usize, filters: usize) -> (r: Self)
        requires
            checkpoints * filters <= usize::MAX,
        ensures
            r.wf(),
            r.checkpoints == checkpoints,
            r.filters == filters,
            r.finished_checkpoints == 0,
            r.finished_filters == 0,
            r.completed == 0,
    {
        proof {
            assert(0 * filters == 0) by (nonlinear_arith);
        }
        AutoTestCounter {
            checkpoints,
            filters,
            finished_checkpoints: 0,
            finished_filters: 0,
            completed: 0,
        }
    }

    /// Number of results the run produces.
    pub fn total(&self) -> (r: usize)
        requires
            self.wf(),
        ensures
            r == self.total_spec(),
    {
        self.checkpoints * self.filters
    }

    /// A checkpoint that could not be loaded: all of its filters count as done.
    /// Returns the new count.
    pub fn skip_checkpoint(&mut self) -> (r: usize)
        requires
            old(self).wf(),
            !old(self).is_done(),
            old(self).finished_filters == 0,
        ensures
            final(self).wf(),
            final(self).checkpoints == old(self).checkpoints,
            final(self).filters == old(self).filters,
            final(self).finished_checkpoints == old(self).finished_checkpoints + 1,
            final(self).finished_filters == 0,
            final(self).completed == old(self).completed + old(self).filters,
            r == final(self).completed,
    {
        proof {
            lemma_next_checkpoint_fits(self.finished_checkpoints, self.checkpoints, self.filters);
        }
        self.completed = self.completed + self.filters;
        self.finished_checkpoints = self.finished_checkpoints + 1;
        self.completed
    }

    /// One filter of the checkpoint under way is through, its result saved or not.
    /// Returns the new count.
    pub fn item_done(&mut self) -> (r: usize)
        requires
            old(self).wf(),
            !old(self).is_done(),
            old(self).filters > 0,
        ensures
            final(self).wf(),
            final(self).checkpoints == old(self).checkpoints,
            final(self).filters == old(self).filters,
            final(self).completed == old(self).completed + 1,
            old(self).finished_filters + 1 == old(self).filters ==> {
                &&& final(self).finished_checkpoints == old(self).finished_checkpoints + 1
                &&& final(self).finished_filters == 0
            },
            old(self).finished_filters + 1 < old(self).filters ==> {
                &&& final(self).finished_checkpoints == old(self).finished_checkpoints
                &&& final(self).finished_filters == old(self).finished_filters + 1
            },
            r == final(self).completed,
    {
        proof {
            lemma_next_checkpoint_fits(self.finished_checkpoints, self.checkpoints, self.filters);
        }
        self.completed = self.completed + 1;
        if self.finished_filters + 1 == self.filters {
            self.finished_checkpoints = self.finished_checkpoints + 1;
            self.finished_filters = 0;
        } else {
            self.finished_filters = self.finished_filters + 1;
        }
        self.completed
    }
}

/// With `done < checkpoints`, one more checkpoint's results still fit in the total.
proof fn lemma_next_checkpoint_fits(done: usize, checkpoints: usize, filters: usize)
    requires
        done < checkpoints,
    ensures
        done * filters + filters <= checkpoints * filters,
        (done + 1) * filters == done * filters + filters,
{
    assert((done + 1) * filters <= checkpoints * filters) by (nonlinear_arith)
        requires
            done + 1 <= checkpoints,
    ;
    assert((done + 1) * filters == done * filters + filters) by (nonlinear_arith);
}

/// However many checkpoints fail to load, the count of an automatic test never passes its
/// total, and it reaches the total once every checkpoint is through; with at least one filter,
/// reaching the total means every checkpoint is through.
pub proof fn lemma_auto_test_count(c: AutoTestCounter)
    requires
        c.wf(),
    ensures
        c.completed <= c.total_spec(),
        c.is_done() ==> c.completed == c.total_spec(),
        c.filters > 0 && c.completed == c.total_spec() ==> c.is_done(),
{
    if c.finished_checkpoints < c.checkpoints {
        lemma_next_checkpoint_fits(c.finished_checkpoints, c.checkpoints, c.filters);
    }
}

} // verus!
