//! Training-side values that the interface and the training loop exchange, and the training
//! loop's integer decisions.
use vstd::prelude::*;
use crate::pixels::{PixelImage, crop_of, flip_of, lanczos3_resized, raster_len};
use crate::text::{
    ascii_lowered, eq_ignore_ascii_case, lowercase_text, lowercased, parse_u32, parse_u64, parse_usize, parsed_or, text_eq,
};

verus! {

/// A loss value: the bit pattern of the `f32` the training loop computed, together with its
/// rendering to six decimals (`{:.6}`), which the log lines quote.
#[derive(Clone, Debug)]
pub struct Loss {
    pub bits: u32,
    pub text: String,
}

/// The loss as plain values: bit pattern and rendered text.
#[verifier::ext_equal]
pub struct LossView {
    pub bits: u32,
    pub text: Seq<char>,
}

impl View for Loss {
    type V = LossView;

    open spec fn view(&self) -> LossView {
        LossView { bits: self.bits, text: self.text@ }
    }
}

/// The loss `0.0`: all bits clear, rendered as `0.000000`.
pub open spec fn zero_loss() -> LossView {
    LossView { bits: 0, text: "0.000000"@ }
}

impl Loss {
    /// The loss `0.0`.
    pub fn zero() -> (r: Loss)
        ensures
            r@ == zero_loss(),
    {
        Loss { bits: 0, text: String::from_str("0.000000") }
    }
}

/// Progress events sent by the training loop.
#[derive(Clone, Debug)]
pub enum TrainingEvent {
    Started { dataset_size: usize, num_params: usize },
    EpochStarted { epoch: usize, total_epochs: usize },
    StepCompleted { epoch: usize, global_step: usize, loss: Loss, avg_loss: Loss, samples: usize },
    EpochCompleted { epoch: usize, avg_loss: Loss },
    CheckpointSaved { step: usize },
    Completed { total_steps: usize },
    Error(String),
}

/// A training event as plain values.
#[verifier::ext_equal]
pub enum TrainingEventView {
    Started { dataset_size: usize, num_params: usize },
    EpochStarted { epoch: usize, total_epochs: usize },
    StepCompleted {
        epoch: usize,
        global_step: usize,
        loss: LossView,
        avg_loss: LossView,
        samples: usize,
    },
    EpochCompleted { epoch: usize, avg_loss: LossView },
    CheckpointSaved { step: usize },
    Completed { total_steps: usize },
    Error(Seq<char>),
}

impl View for TrainingEvent {
    type V = TrainingEventView;

    open spec fn view(&self) -> TrainingEventView {
        match self {
            TrainingEvent::Started { dataset_size, num_params } => TrainingEventView::Started {
                dataset_size: *dataset_size,
                num_params: *num_params,
            },
            TrainingEvent::EpochStarted { epoch, total_epochs } =>
                TrainingEventView::EpochStarted { epoch: *epoch, total_epochs: *total_epochs },
            TrainingEvent::StepCompleted { epoch, global_step, loss, avg_loss, samples } =>
                TrainingEventView::StepCompleted {
                epoch: *epoch,
                global_step: *global_step,
                loss: loss@,
                avg_loss: avg_loss@,
                samples: *samples,
            },
            TrainingEvent::EpochCompleted { epoch, avg_loss } => TrainingEventView::EpochCompleted {
                epoch: *epoch,
                avg_loss: avg_loss@,
            },
            TrainingEvent::CheckpointSaved { step } => TrainingEventView::CheckpointSaved {
                step: *step,
            },
            TrainingEvent::Completed { total_steps } => TrainingEventView::Completed {
                total_steps: *total_steps,
            },
            TrainingEvent::Error(m) => TrainingEventView::Error(m@),
        }
    }
}

// ── Cropping a training pair ──

/// Where a training pair can be cut from a high-resolution image: the reference window is
/// `ref_size` square (four times the main crop), and its top-left corner may lie anywhere in
/// `0..=max_x` × `0..=max_y`.
#[derive(Debug, Clone, Copy, PartialEq, Eq, Structural)]
pub struct CropPlan {
    pub ref_size: u32,
    pub max_x: u32,
    pub max_y: u32,
}

/// Plans the crop of a `main_size` main image (and its 4× reference) from an image of
/// `img_w` × `img_h`; `None` when the image is smaller than the reference window.
pub fn plan_crop(img_w: u32, img_h: u32, main_size: u32) -> (r: Option<CropPlan>)
    requires
        main_size as int * 4 <= u32::MAX,
    ensures
        r is Some <==> (img_w >= main_size as int * 4 && img_h >= main_size as int * 4),
        r matches Some(p) ==> p.ref_size == main_size as int * 4 && p.max_x == img_w - p.ref_size
            && p.max_y == img_h - p.ref_size,
{
    let ref_size: u32 = main_size * 4;
    if img_w < ref_size || img_h < ref_size {
        return None;
    }
    Some(CropPlan { ref_size, max_x: img_w - ref_size, max_y: img_h - ref_size })
}

/// Any corner the plan allows keeps the reference window inside the image.
pub proof fn lemma_crop_inside(img_w: u32, img_h: u32, p: CropPlan, x: u32, y: u32)
    requires
        p.max_x == img_w - p.ref_size,
        p.max_y == img_h - p.ref_size,
        x <= p.max_x,
        y <= p.max_y,
    ensures
        x + p.ref_size <= img_w,
        y + p.ref_size <= img_h,
{
}

/// Cuts a training pair out of a high-resolution image: the reference is the
/// `4 * main_size` square window at (`x`, `y`), which also serves as the training target, and
/// the main image is that window downscaled to `main_size` with the Lanczos3 filter.
/// Returns `(main, reference)`.
pub fn crop_pair(img: &PixelImage, main_size: u32, x: u32, y: u32) -> (r: (PixelImage, PixelImage))
    requires
        img.wf(),
        main_size as int * 4 <= u32::MAX,
        x + main_size as int * 4 <= img.spec_width(),
        y + main_size as int * 4 <= img.spec_height(),
        main_size as int * main_size as int * 64 <= isize::MAX,
    ensures
        crop_of(r.1, *img, x, y, (main_size * 4) as u32),
        r.0.wf(),
        r.0.spec_width() == main_size,
        r.0.spec_height() == main_size,
        r.0@ == lanczos3_resized(
            r.1@,
            (main_size * 4) as u32,
            (main_size * 4) as u32,
            main_size,
            main_size,
        ),
{
    let ref_size: u32 = main_size * 4;
    let reference = img.crop(x, y, ref_size);
    proof {
        assert(raster_len(main_size, main_size) <= isize::MAX) by (nonlinear_arith)
            requires
                main_size as int * main_size as int * 64 <= isize::MAX,
        ;
        assert(ref_size as int * main_size as int * 16 <= isize::MAX) by (nonlinear_arith)
            requires
                ref_size == main_size as int * 4,
                main_size as int * main_size as int * 64 <= isize::MAX,
        ;
    }
    let main = reference.resize(main_size, main_size);
    (main, reference)
}

/// Mirrors the main image and the reference of a training pair alike: left to right when
/// `horizontal` is set, top to bottom when `vertical` is set. Returns `(main, reference)`.
pub fn flip_pair(main: &PixelImage, reference: &PixelImage, horizontal: bool, vertical: bool) -> (r:
    (PixelImage, PixelImage))
    requires
        main.wf(),
        reference.wf(),
    ensures
        flip_of(r.0, *main, horizontal, vertical),
        flip_of(r.1, *reference, horizontal, vertical),
{
    (main.flip(horizontal, vertical), reference.flip(horizontal, vertical))
}

// ── Checkpoint files ──

/// Name of the checkpoint file saved after `step` steps: `model_step_<step>.bin`.
pub open spec fn checkpoint_file(step: nat) -> Seq<char> {
    "model_step_"@ + crate::text::decimal(step) + ".bin"@
}

pub fn checkpoint_file_name(step: usize) -> (r: String)
    ensures
        r@ == checkpoint_file(step as nat),
{
    let mut r = String::from_str("model_step_");
    r.append(crate::text::usize_text(step).as_str());
    r.append(".bin");
    r
}

// ── Which files count ──

/// The file extensions the dataset takes images from: `png`, `jpg` and `jpeg`, in any letter
/// case.
pub open spec fn dataset_extension(ext: Seq<char>) -> bool {
    let e = ascii_lowered(ext);
    e == "png"@ || e == "jpg"@ || e == "jpeg"@
}

/// Whether a file with extension `ext` is a dataset image.
pub fn is_dataset_extension(ext: &str) -> (r: bool)
    ensures
        r == dataset_extension(ext@),
{
    proof {
        reveal_strlit("png");
        reveal_strlit("jpg");
        reveal_strlit("jpeg");
        assert(ascii_lowered("png"@) =~= "png"@);
        assert(ascii_lowered("jpg"@) =~= "jpg"@);
        assert(ascii_lowered("jpeg"@) =~= "jpeg"@);
    }
    eq_ignore_ascii_case(ext, "png") || eq_ignore_ascii_case(ext, "jpg") || eq_ignore_ascii_case(
        ext,
        "jpeg",
    )
}

/// Whether a directory entry with extension `ext` (none when its name has none) is a dataset
/// image.
pub open spec fn image_entry(ext: Option<String>) -> bool {
    match ext {
        Some(e) => dataset_extension(e@),
        None => false,
    }
}

/// The positions of the dataset images among the files of a directory, given each file's
/// extension: exactly the positions whose extension is `png`, `jpg` or `jpeg` in any letter
/// case, in increasing order.
pub fn dataset_images(extensions: &Vec<Option<String>>) -> (r: Vec<usize>)
    ensures
        forall|k: int| 0 <= k < r@.len() ==> #[trigger] r@[k] < extensions@.len(),
        forall|k: int, l: int| 0 <= k < l < r@.len() ==> r@[k] < r@[l],
        forall|i: int|
            0 <= i < extensions@.len() ==> (image_entry(#[trigger] extensions@[i]) <==> r@.contains(
                i as usize,
            )),
{
    let n: usize = extensions.len();
    let mut r: Vec<usize> = Vec::new();
    for i in 0..n
        invariant
            n == extensions@.len(),
            forall|k: int| 0 <= k < r@.len() ==> #[trigger] r@[k] < i,
            forall|k: int, l: int| 0 <= k < l < r@.len() ==> r@[k] < r@[l],
            forall|j: int|
                0 <= j < i ==> (image_entry(#[trigger] extensions@[j]) <==> r@.contains(
                    j as usize,
                )),
    {
        let keep: bool = match &extensions[i] {
            Some(e) => is_dataset_extension(e.as_str()),
            None => false,
        };
        let ghost before = r@;
        if keep {
            r.push(i);
        }
        proof {
            assert forall|j: int|
                0 <= j < i + 1 implies (image_entry(#[trigger] extensions@[j]) <==> r@.contains(
                j as usize,
            )) by {
                if j < i {
                    if keep {
                        assert(r@.contains(j as usize) ==> before.contains(j as usize) || j
                            as usize == i) by {
                            if r@.contains(j as usize) {
                                let k = choose|k: int| 0 <= k < r@.len() && r@[k] == j as usize;
                                if k < before.len() {
                                    assert(before[k] == r@[k]);
                                }
                            }
                        }
                        if before.contains(j as usize) {
                            let k = choose|k: int| 0 <= k < before.len() && before[k] == j as usize;
                            assert(r@[k] == j as usize);
                        }
                    }
                } else {
                    if keep {
                        assert(r@[r@.len() - 1] == i);
                    } else {
                        assert(!before.contains(i)) by {
                            if before.contains(i) {
                                let k = choose|k: int| 0 <= k < before.len() && before[k] == i;
                                assert(before[k] < i);
                            }
                        }
                    }
                }
            }
        }
    }
    r
}

/// Checkpoint files are those with the extension `bin`.
pub fn is_checkpoint_extension(ext: &str) -> (r: bool)
    ensures
        r == (ext@ == "bin"@),
{
    text_eq(ext, "bin")
}

// ── Settings given as text ──

/// The integer and switch settings of a training run; the real-valued ones are read apart.
#[derive(Debug, Clone, Copy, PartialEq, Eq, Structural)]
pub struct RunCounts {
    pub num_epochs: usize,
    pub steps_per_epoch: usize,
    pub crop_main_size: u32,
    pub full_resolution: bool,
    pub seed: u64,
}

/// An optional setting: the value its text parses to, or `default` when it is absent or does
/// not parse.
pub open spec fn setting_or(text: Option<Seq<char>>, max: int, default: int) -> int {
    match text {
        Some(s) => parsed_or(s, max, default),
        None => default,
    }
}

/// A switch is on when it reads `1`, or `true` in any letter case.
pub open spec fn switch_on(text: Seq<char>) -> bool {
    text == "1"@ || lowercased(text) == "true"@
}

pub open spec fn text_view(text: Option<&str>) -> Option<Seq<char>> {
    match text {
        Some(s) => Some(s@),
        None => None,
    }
}

/// The settings of a run: each one given as text overrides its default when it parses (a
/// switch is read as on or off whenever it is given).
pub open spec fn run_counts_of(
    epochs: Option<Seq<char>>,
    steps: Option<Seq<char>>,
    crop: Option<Seq<char>>,
    full_res: Option<Seq<char>>,
    seed: Option<Seq<char>>,
    defaults: RunCounts,
) -> RunCounts {
    RunCounts {
        num_epochs: setting_or(epochs, usize::MAX as int, defaults.num_epochs as int) as usize,
        steps_per_epoch: setting_or(steps, usize::MAX as int, defaults.steps_per_epoch as int)
            as usize,
        crop_main_size: setting_or(crop, u32::MAX as int, defaults.crop_main_size as int) as u32,
        full_resolution: match full_res {
            Some(s) => switch_on(s),
            None => defaults.full_resolution,
        },
        seed: setting_or(seed, u64::MAX as int, defaults.seed as int) as u64,
    }
}

fn usize_setting(text: Option<&str>, default: usize) -> (r: usize)
    ensures
        r == setting_or(text_view(text), usize::MAX as int, default as int),
{
    match text {
        Some(s) => match parse_usize(s) {
            Some(v) => v,
            None => default,
        },
        None => default,
    }
}

/// Reads the integer and switch settings of a training run from their texts (as the
/// environment gives them), keeping the defaults where a text is absent or does not parse.
pub fn run_counts(
    epochs: Option<&str>,
    steps: Option<&str>,
    crop: Option<&str>,
    full_res: Option<&str>,
    seed: Option<&str>,
    defaults: RunCounts,
) -> (r: RunCounts)
    ensures
        r == run_counts_of(
            text_view(epochs),
            text_view(steps),
            text_view(crop),
            text_view(full_res),
            text_view(seed),
            defaults,
        ),
{
    let num_epochs = usize_setting(epochs, defaults.num_epochs);
    let steps_per_epoch = usize_setting(steps, defaults.steps_per_epoch);
    let crop_main_size: u32 = match crop {
        Some(s) => match parse_u32(s) {
            Some(v) => v,
            None => defaults.crop_main_size,
        },
        None => defaults.crop_main_size,
    };
    let full_resolution: bool = match full_res {
        Some(s) => text_eq(s, "1") || text_eq(lowercase_text(s).as_str(), "true"),
        None => defaults.full_resolution,
    };
    let seed: u64 = match seed {
        Some(s) => match parse_u64(s) {
            Some(v) => v,
            None => defaults.seed,
        },
        None => defaults.seed,
    };
    RunCounts { num_epochs, steps_per_epoch, crop_main_size, full_resolution, seed }
}

// ── The training loop's schedule ──

/// Side of the main image a training step uses: 1024 in full-resolution mode, else the crop
/// size.
pub fn effective_main_size(full_resolution: bool, crop_main_size: u32) -> (r: u32)
    ensures
        r == if full_resolution { 1024 } else { crop_main_size },
{
    if full_resolution {
        1024
    } else {
        crop_main_size
    }
}

/// Whether a step's loss is reported: the first step and every fiftieth.
pub fn should_report_step(global_step: usize) -> (r: bool)
    ensures
        r == (global_step % 50 == 0 || global_step == 1),
{
    global_step % 50 == 0 || global_step == 1
}

/// Whether a checkpoint is saved after a step: every `every` steps.
pub fn should_checkpoint(global_step: usize, every: usize) -> (r: bool)
    requires
        every > 0,
    ensures
        r == (global_step % every == 0 && global_step > 0),
{
    global_step % every == 0 && global_step > 0
}

// ── Pixel layout of tensors ──

/// The planar (channel-major) order of an interleaved RGB raster of `wh` pixels: byte `k` of
/// the result is channel `k / wh` of pixel `k % wh`.
pub open spec fn planar(pixels: Seq<u8>, wh: int) -> Seq<u8> {
    Seq::new(pixels.len(), |k: int| pixels[(k % wh) * 3 + k / wh])
}

/// Reorders an interleaved RGB raster (`HWC`) into planes (`CHW`): all red values row by row,
/// then all green, then all blue.
pub fn planar_channels(pixels: &Vec<u8>, width: u32, height: u32) -> (r: Vec<u8>)
    requires
        pixels@.len() == width as int * height as int * 3,
    ensures
        r@ == planar(pixels@, width as int * height as int),
        forall|c: int, y: int, x: int|
            0 <= c < 3 && 0 <= y < height && 0 <= x < width ==> #[trigger] r@[c * (
            width as int * height as int) + y * width + x] == pixels@[(y * width + x) * 3 + c],
{
    let n: usize = pixels.len();
    let ghost wh: int = width as int * height as int;
    let mut out: Vec<u8> = Vec::new();
    if n == 0 {
        proof {
            assert(out@ =~= planar(pixels@, wh));
            assert forall|c: int, y: int, x: int|
                0 <= c < 3 && 0 <= y < height && 0 <= x < width implies #[trigger] out@[c * wh + y
                * width + x] == pixels@[(y * width + x) * 3 + c] by {
                assert(wh == 0);
                assert(width as int * height as int >= 1) by (nonlinear_arith)
                    requires
                        0 <= y < height,
                        0 <= x < width,
                ;
            }
        }
        return out;
    }
    let count: usize = n / 3;
    let mut k: usize = 0;
    while k < n
        invariant
            n == pixels@.len(),
            n == wh * 3,
            count == wh,
            wh > 0,
            k <= n,
            out@.len() == k,
            forall|j: int| 0 <= j < k ==> out@[j] == pixels@[(j % wh) * 3 + j / wh],
        decreases n - k,
    {
        let p: usize = k % count;
        let c: usize = k / count;
        proof {
            assert(c < 3) by (nonlinear_arith)
                requires
                    c == k / count,
                    k < count * 3,
                    count > 0,
            ;
            assert(p * 3 + c < n) by (nonlinear_arith)
                requires
                    p < count,
                    c < 3,
                    n == count * 3,
            ;
        }
        out.push(pixels[p * 3 + c]);
        k = k + 1;
    }
    proof {
        assert(out@ =~= planar(pixels@, wh));
        assert forall|c: int, y: int, x: int|
            0 <= c < 3 && 0 <= y < height && 0 <= x < width implies #[trigger] out@[c * wh + y
            * width + x] == pixels@[(y * width + x) * 3 + c] by {
            let q = y * width + x;
            assert(0 <= q < wh) by (nonlinear_arith)
                requires
                    q == y * width + x,
                    0 <= y < height,
                    0 <= x < width,
                    wh == width as int * height as int,
            ;
            let k = c * wh + q;
            assert(0 <= k < n) by (nonlinear_arith)
                requires
                    k == c * wh + q,
                    0 <= q < wh,
                    0 <= c < 3,
                    n == wh * 3,
            ;
            vstd::arithmetic::div_mod::lemma_fundamental_div_mod_converse(k, wh, c, q);
        }
    }
    out
}

} // verus!
