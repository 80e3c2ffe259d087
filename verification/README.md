# upscaler

A reference-guided 4× image upsampler: a network that enlarges an edited 1024×1024 image to
4096×4096 while borrowing high-frequency detail from the unedited high-resolution photo, with
its self-supervised training loop, camera-filter augmentation and a terminal interface for
training and testing.

## Layout

- `src/` — the verified library (Verus):
  - `pixels.rs` — the RGB raster type, with crop, flip and the Lanczos3 resampling of the
    `image` crate;
  - `augmentation.rs` — the filter catalogue and the integer filters (warm, cool, grain,
    invert, mono), the choice of random filters, with their laws;
  - `training.rs` — training events, the cutting and flipping of a training pair, crop
    planning, the dataset's file rule, settings given as text, checkpoint names, the report and
    checkpoint predicates and the HWC→CHW reordering of pixels;
  - `training_loop.rs` — the training loop's decisions as a state machine (epochs, steps,
    skipped crops, cancellation, reports, checkpoints, completion), with a law over whole runs;
  - `model.rs` — the configurations of the network's blocks and the channel widths they imply;
  - `text.rs` — decimal rendering, alignment, ASCII case folding and parsing of unsigned
    integers;
  - `tui/` — the interface's state, its key handling (a state machine over views, with its
    laws), the progress events, the texts it displays and the accounting of test runs.
- `app/` — ordinary Rust around it: the burn model and tensors, the floating-point filters,
  image files, the training steps themselves (network, optimiser, losses), threads and the
  ratatui/crossterm drawing and event loop.
- `tests/` — tests of the library on concrete values.
