//! The text the screens show: status lines, button captions, field lines and the visible
//! part of a log. Drawing them is left to the caller.
use vstd::prelude::*;
use crate::text::{decimal, usize_text};
use crate::tui::state::{AppStateView, InputMode, RunStatus, Tab, TestingMode};

verus! {

/// Index of the highlighted tab in the tab bar.
pub open spec fn tab_position(t: Tab) -> usize {
    match t {
        Tab::Training => 0,
        Tab::Testing => 1,
        Tab::Settings => 2,
    }
}

pub fn tab_index(t: Tab) -> (r: usize)
    ensures
        r == tab_position(t),
{
    match t {
        Tab::Training => 0,
        Tab::Testing => 1,
        Tab::Settings => 2,
    }
}

/// The help text of the status bar in navigation mode.
pub open spec fn status_bar_line(tab: Tab, training: RunStatus, testing: RunStatus) -> Seq<char> {
    match tab {
        Tab::Training => match training {
            RunStatus::Idle =>
                " ↑↓:Navigate  Enter:Edit  Space:Toggle  Tab:Switch  /:Command  /quit:Exit  |  Log: upscaler.log "@,
            RunStatus::Running => " Training...  |  Log: upscaler.log "@,
            RunStatus::Completed => " Training Complete  |  Log: upscaler.log "@,
        },
        Tab::Testing => match testing {
            RunStatus::Idle =>
                " ↑↓:Navigate  ←→:Mode  Enter:Edit/Run  Space:Toggle  Tab:Switch  /:Command  /quit:Exit  |  Log: upscaler.log "@,
            RunStatus::Running => " Testing...  |  Log: upscaler.log "@,
            RunStatus::Completed => " Testing Complete  |  Log: upscaler.log "@,
        },
        Tab::Settings =>
            " ↑↓:Navigate  ←→:Backend  Tab:Switch  /:Command  /quit:Exit  |  Log: upscaler.log "@,
    }
}

pub fn status_bar_text(tab: Tab, training: RunStatus, testing: RunStatus) -> (r: &'static str)
    ensures
        r@ == status_bar_line(tab, training, testing),
{
    match tab {
        Tab::Training => match training {
            RunStatus::Idle =>
                " ↑↓:Navigate  Enter:Edit  Space:Toggle  Tab:Switch  /:Command  /quit:Exit  |  Log: upscaler.log ",
            RunStatus::Running => " Training...  |  Log: upscaler.log ",
            RunStatus::Completed => " Training Complete  |  Log: upscaler.log ",
        },
        Tab::Testing => match testing {
            RunStatus::Idle =>
                " ↑↓:Navigate  ←→:Mode  Enter:Edit/Run  Space:Toggle  Tab:Switch  /:Command  /quit:Exit  |  Log: upscaler.log ",
            RunStatus::Running => " Testing...  |  Log: upscaler.log ",
            RunStatus::Completed => " Testing Complete  |  Log: upscaler.log ",
        },
        Tab::Settings =>
            " ↑↓:Navigate  ←→:Backend  Tab:Switch  /:Command  /quit:Exit  |  Log: upscaler.log ",
    }
}

/// What the bottom bar shows: the command line, the field being edited, or (in navigation
/// mode) the status help.
pub open spec fn bottom_bar_line(s: AppStateView) -> Seq<char> {
    match s.input_mode {
        InputMode::Command => " /"@ + s.input_buffer,
        InputMode::EditingField => " "@ + s.editing_field_label + ": "@ + s.input_buffer,
        InputMode::Normal => status_bar_line(s.active_tab, s.training.status, s.testing.status),
    }
}

/// The bottom bar's text for the state.
pub fn bottom_bar_text(
    mode: InputMode,
    input_buffer: &str,
    editing_field_label: &str,
    tab: Tab,
    training: RunStatus,
    testing: RunStatus,
) -> (r: String)
    ensures
        r@ == match mode {
            InputMode::Command => " /"@ + input_buffer@,
            InputMode::EditingField => " "@ + editing_field_label@ + ": "@ + input_buffer@,
            InputMode::Normal => status_bar_line(tab, training, testing),
        },
{
    match mode {
        InputMode::Command => {
            let mut r = String::from_str(" /");
            r.append(input_buffer);
            r
        },
        InputMode::EditingField => {
            let mut r = String::from_str(" ");
            r.append(editing_field_label);
            r.append(": ");
            r.append(input_buffer);
            r
        },
        InputMode::Normal => String::from_str(status_bar_text(tab, training, testing)),
    }
}

/// `Idle`, `Running...` or `Completed ✓`.
pub open spec fn run_status_word(s: RunStatus) -> Seq<char> {
    match s {
        RunStatus::Idle => "Idle"@,
        RunStatus::Running => "Running..."@,
        RunStatus::Completed => "Completed ✓"@,
    }
}

/// The status line of a progress panel: ` Status: ` and the run's state.
pub fn status_line(s: RunStatus) -> (r: String)
    ensures
        r@ == " Status: "@ + run_status_word(s),
{
    let mut r = String::from_str(" Status: ");
    let w = match s {
        RunStatus::Idle => "Idle",
        RunStatus::Running => "Running...",
        RunStatus::Completed => "Completed ✓",
    };
    r.append(w);
    r
}

pub open spec fn training_button_caption(s: RunStatus) -> Seq<char> {
    match s {
        RunStatus::Idle => "▶ Start Training"@,
        RunStatus::Running => "● Training..."@,
        RunStatus::Completed => "✓ Complete"@,
    }
}

/// Caption of the training tab's start button.
pub fn training_button_label(s: RunStatus) -> (r: &'static str)
    ensures
        r@ == training_button_caption(s),
{
    match s {
        RunStatus::Idle => "▶ Start Training",
        RunStatus::Running => "● Training...",
        RunStatus::Completed => "✓ Complete",
    }
}

pub open spec fn testing_button_caption(mode: TestingMode, s: RunStatus) -> Seq<char> {
    match (mode, s) {
        (TestingMode::AutoTest, RunStatus::Idle) => "▶ Run Auto Test"@,
        (TestingMode::AutoTest, RunStatus::Running) => "● Testing..."@,
        (TestingMode::DirectInference, RunStatus::Idle) => "▶ Run Inference"@,
        (TestingMode::DirectInference, RunStatus::Running) => "● Running..."@,
        (_, RunStatus::Completed) => "✓ Complete"@,
    }
}

/// Caption of the testing tab's start button, which depends on the mode.
pub fn testing_button_label(mode: TestingMode, s: RunStatus) -> (r: &'static str)
    ensures
        r@ == testing_button_caption(mode, s),
{
    match mode {
        TestingMode::AutoTest => match s {
            RunStatus::Idle => "▶ Run Auto Test",
            RunStatus::Running => "● Testing...",
            RunStatus::Completed => "✓ Complete",
        },
        TestingMode::DirectInference => match s {
            RunStatus::Idle => "▶ Run Inference",
            RunStatus::Running => "● Running...",
            RunStatus::Completed => "✓ Complete",
        },
    }
}

pub open spec fn mode_caption(mode: TestingMode) -> Seq<char> {
    match mode {
        TestingMode::AutoTest => "Auto Test (all checkpoints × 16 filters)"@,
        TestingMode::DirectInference => "Direct Inference (no filters)"@,
    }
}

/// The mode line of the testing progress panel.
pub fn mode_line(mode: TestingMode) -> (r: String)
    ensures
        r@ == " Mode: "@ + mode_caption(mode),
{
    let mut r = String::from_str(" Mode: ");
    r.append(
        match mode {
            TestingMode::AutoTest => "Auto Test (all checkpoints × 16 filters)",
            TestingMode::DirectInference => "Direct Inference (no filters)",
        },
    );
    r
}

/// A form line: a cursor mark when focused, the label, and the value or `(empty)`.
pub open spec fn input_field_line(label: Seq<char>, value: Seq<char>, focused: bool) -> Seq<char> {
    " "@ + (if focused { "▶"@ } else { " "@ }) + " "@ + label + ": "@ + (if value.len() == 0 {
        "(empty)"@
    } else {
        value
    })
}

pub fn input_field_text(label: &str, value: &str, focused: bool) -> (r: String)
    ensures
        r@ == input_field_line(label@, value@, focused),
{
    let mut r = String::from_str(" ");
    r.append(if focused { "▶" } else { " " });
    r.append(" ");
    r.append(label);
    r.append(": ");
    if value.is_empty() {
        r.append("(empty)");
    } else {
        r.append(value);
    }
    r
}

/// A toggle line: ` label: [■] ON ` or ` label: [ ] OFF`.
pub open spec fn toggle_line(label: Seq<char>, value: bool) -> Seq<char> {
    " "@ + label + ": "@ + (if value { "[■] ON "@ } else { "[ ] OFF"@ })
}

pub fn toggle_text(label: &str, value: bool) -> (r: String)
    ensures
        r@ == toggle_line(label@, value),
{
    let mut r = String::from_str(" ");
    r.append(label);
    r.append(": ");
    r.append(if value { "[■] ON " } else { "[ ] OFF" });
    r
}

/// A button caption in brackets.
pub fn button_text(label: &str) -> (r: String)
    ensures
        r@ == " [ "@ + label@ + " ] "@,
{
    let mut r = String::from_str(" [ ");
    r.append(label);
    r.append(" ] ");
    r
}

/// The first log line that fits in a window `height` lines tall, showing the newest lines.
pub fn log_window_start(len: usize, height: usize) -> (r: usize)
    ensures
        r == if len > height { len - height } else { 0 },
        r <= len,
        len - r <= height,
{
    if len > height {
        len - height
    } else {
        0
    }
}

/// The figures of the training progress panel.
pub open spec fn dataset_line(dataset_size: usize, num_params: usize) -> Seq<char> {
    if dataset_size > 0 {
        " Dataset: "@ + decimal(dataset_size as nat) + " images, Params: "@ + decimal(
            num_params as nat,
        )
    } else {
        " Dataset: N/A"@
    }
}

pub fn dataset_text(dataset_size: usize, num_params: usize) -> (r: String)
    ensures
        r@ == dataset_line(dataset_size, num_params),
{
    if dataset_size > 0 {
        let mut r = String::from_str(" Dataset: ");
        r.append(usize_text(dataset_size).as_str());
        r.append(" images, Params: ");
        r.append(usize_text(num_params).as_str());
        r
    } else {
        String::from_str(" Dataset: N/A")
    }
}

pub fn epoch_text(current: usize, total: usize) -> (r: String)
    ensures
        r@ == " Epoch: "@ + decimal(current as nat) + " / "@ + decimal(total as nat),
{
    let mut r = String::from_str(" Epoch: ");
    r.append(usize_text(current).as_str());
    r.append(" / ");
    r.append(usize_text(total).as_str());
    r
}

/// ` caption` followed by a count, as in ` Global Step: 12` or ` Samples: 40`.
pub fn count_text(caption: &str, n: usize) -> (r: String)
    ensures
        r@ == caption@ + decimal(n as nat),
{
    let mut r = String::from_str("");
    r.append(caption);
    r.append(usize_text(n).as_str());
    proof {
        reveal_strlit("");
    }
    r
}

/// ` caption` followed by a loss to six decimals, as in ` Loss: 0.012345`.
pub fn loss_text(caption: &str, loss: &crate::training::Loss) -> (r: String)
    ensures
        r@ == caption@ + loss@.text,
{
    let mut r = String::from_str("");
    r.append(caption);
    r.append(loss.text.as_str());
    proof {
        reveal_strlit("");
    }
    r
}

/// The current-item line of the testing progress panel.
pub fn current_item_text(item: &str) -> (r: String)
    ensures
        r@ == " Current: "@ + item@,
{
    let mut r = String::from_str(" Current: ");
    r.append(item);
    r
}

} // verus!
