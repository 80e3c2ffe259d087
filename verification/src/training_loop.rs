//! The decisions of the training loop, as a state machine: the caller runs the steps (the
//! network, the losses, the files) and tells the machine how each went; the machine answers
//! with the events to send and the checkpoints to save, in order.
use vstd::prelude::*;
use crate::training::{should_checkpoint, should_report_step};

verus! {

/// Where the loop stands.
#[derive(Debug, Clone, Copy, PartialEq, Eq, Structural)]
pub enum LoopPhase {
    /// Before an epoch (or, once every epoch is through, before the end).
    EpochStart,
    /// Inside an epoch.
    InEpoch,
    /// The run is over: completed or cancelled.
    Done,
}

/// The state of a training run.
#[derive(Debug, Clone, Copy, PartialEq, Eq, Structural)]
pub struct TrainingLoop {
    pub num_epochs: usize,
    pub steps_per_epoch: usize,
    pub checkpoint_every: usize,
    /// Epochs finished (the current one, counted from zero, while inside an epoch).
    pub epoch: usize,
    /// Steps attempted in the current epoch, failed ones included.
    pub step: usize,
    /// Steps that trained the network, over the whole run.
    pub global_step: usize,
    pub phase: LoopPhase,
}

/// How the loop's last request went.
#[derive(Debug, Clone)]
pub enum StepOutcome {
    /// The run was cancelled.
    Cancelled,
    /// Nothing to run: go on.
    Proceed,
    /// No training pair could be cut; the message says why.
    CropFailed(String),
    /// The network took one optimisation step.
    Trained,
}

#[verifier::ext_equal]
pub enum StepOutcomeView {
    Cancelled,
    Proceed,
    CropFailed(Seq<char>),
    Trained,
}

impl View for StepOutcome {
    type V = StepOutcomeView;

    open spec fn view(&self) -> StepOutcomeView {
        match self {
            StepOutcome::Cancelled => StepOutcomeView::Cancelled,
            StepOutcome::Proceed => StepOutcomeView::Proceed,
            StepOutcome::CropFailed(m) => StepOutcomeView::CropFailed(m@),
            StepOutcome::Trained => StepOutcomeView::Trained,
        }
    }
}

/// What the caller has to do, in order. The losses that some events carry are the caller's.
#[derive(Debug, Clone)]
pub enum TrainingAction {
    /// Send `EpochStarted` (and start summing the epoch's losses afresh).
    SendEpochStarted { epoch: usize, total_epochs: usize },
    /// Send `StepCompleted` with the step's loss and the epoch's average.
    ReportStep { epoch: usize, global_step: usize, samples: usize },
    /// Send `Error` with this text.
    SendError(String),
    /// Save the network as `model_step_<step>.bin` and as the latest model.
    SaveCheckpoint { step: usize },
    /// Send `CheckpointSaved`.
    SendCheckpointSaved { step: usize },
    /// Send `EpochCompleted` with the epoch's average loss.
    SendEpochCompleted { epoch: usize },
    /// Send `Completed`.
    SendCompleted { total_steps: usize },
}

#[verifier::ext_equal]
pub enum TrainingActionView {
    SendEpochStarted { epoch: usize, total_epochs: usize },
    ReportStep { epoch: usize, global_step: usize, samples: usize },
    SendError(Seq<char>),
    SaveCheckpoint { step: usize },
    SendCheckpointSaved { step: usize },
    SendEpochCompleted { epoch: usize },
    SendCompleted { total_steps: usize },
}

impl View for TrainingAction {
    type V = TrainingActionView;

    open spec fn view(&self) -> TrainingActionView {
        match self {
            TrainingAction::SendEpochStarted { epoch, total_epochs } =>
                TrainingActionView::SendEpochStarted { epoch: *epoch, total_epochs: *total_epochs },
            TrainingAction::ReportStep { epoch, global_step, samples } =>
                TrainingActionView::ReportStep {
                epoch: *epoch,
                global_step: *global_step,
                samples: *samples,
            },
            TrainingAction::SendError(m) => TrainingActionView::SendError(m@),
            TrainingAction::SaveCheckpoint { step } => TrainingActionView::SaveCheckpoint {
                step: *step,
            },
            TrainingAction::SendCheckpointSaved { step } =>
                TrainingActionView::SendCheckpointSaved { step: *step },
            TrainingAction::SendEpochCompleted { epoch } =>
                TrainingActionView::SendEpochCompleted { epoch: *epoch },
            TrainingAction::SendCompleted { total_steps } => TrainingActionView::SendCompleted {
                total_steps: *total_steps,
            },
        }
    }
}

pub open spec fn actions_view(a: Seq<TrainingAction>) -> Seq<TrainingActionView> {
    a.map_values(|x: TrainingAction| x@)
}

impl TrainingLoop {
    pub open spec fn wf(self) -> bool {
        &&& self.num_epochs * self.steps_per_epoch <= usize::MAX
        &&& self.epoch <= self.num_epochs
        &&& self.step <= self.steps_per_epoch
        &&& self.global_step <= self.epoch * self.steps_per_epoch + self.step
        &&& (self.phase is InEpoch ==> self.epoch < self.num_epochs)
        &&& (self.phase is EpochStart ==> self.step == 0)
    }

    /// The loop wants a training step run next.
    pub open spec fn step_wanted(self) -> bool {
        self.phase is InEpoch && self.step < self.steps_per_epoch
    }

    /// The loop looks at the cancel flag before what comes next: before each epoch and before
    /// each step.
    pub open spec fn cancel_checked(self) -> bool {
        self.step_wanted() || (self.phase is EpochStart && self.epoch < self.num_epochs)
    }

    /// An outcome the caller can report in this state: a cancellation where the flag is
    /// looked at, a step's result where a step was wanted (a trained step needing a positive
    /// checkpoint interval), and `Proceed` elsewhere, until the run is over.
    pub open spec fn fits(self, o: StepOutcomeView) -> bool {
        match o {
            StepOutcomeView::Cancelled => self.cancel_checked(),
            StepOutcomeView::Proceed => !(self.phase is Done) && !self.step_wanted(),
            StepOutcomeView::CropFailed(_) => self.step_wanted(),
            StepOutcomeView::Trained => self.step_wanted() && self.checkpoint_every > 0,
        }
    }
}

/// The reports and checkpoints after the run's `g`-th trained step: a progress report at the
/// first step and every fiftieth (its sample count is the number of trained steps), and a
/// checkpoint every `every` steps.
pub open spec fn step_actions(epoch: usize, g: usize, every: usize) -> Seq<TrainingActionView> {
    (if g % 50 == 0 || g == 1 {
        seq![TrainingActionView::ReportStep { epoch: (epoch + 1) as usize, global_step: g, samples: g }]
    } else {
        Seq::empty()
    }) + (if g % every == 0 && g > 0 {
        seq![
            TrainingActionView::SaveCheckpoint { step: g },
            TrainingActionView::SendCheckpointSaved { step: g },
        ]
    } else {
        Seq::empty()
    })
}

/// One move of the loop: the next state and the actions, in order.
/// - A cancellation ends the run at once, with nothing more sent or saved.
/// - Before an epoch: `EpochStarted`, or, once every epoch is through, `Completed`.
/// - A failed crop is skipped with an error event; it counts as a step of the epoch but not
///   as a trained step.
/// - A trained step may be reported and may save a checkpoint (`step_actions`).
/// - After the epoch's last step: `EpochCompleted`, then a checkpoint.
pub open spec fn training_step_of(s: TrainingLoop, o: StepOutcomeView) -> (
    TrainingLoop,
    Seq<TrainingActionView>,
) {
    match s.phase {
        LoopPhase::Done => (s, Seq::empty()),
        LoopPhase::EpochStart => match o {
            StepOutcomeView::Cancelled => (TrainingLoop { phase: LoopPhase::Done, ..s }, Seq::empty()),
            _ => if s.epoch < s.num_epochs {
                (
                    TrainingLoop { phase: LoopPhase::InEpoch, step: 0, ..s },
                    seq![
                        TrainingActionView::SendEpochStarted {
                            epoch: (s.epoch + 1) as usize,
                            total_epochs: s.num_epochs,
                        },
                    ],
                )
            } else {
                (
                    TrainingLoop { phase: LoopPhase::Done, ..s },
                    seq![TrainingActionView::SendCompleted { total_steps: s.global_step }],
                )
            },
        },
        LoopPhase::InEpoch => match o {
            StepOutcomeView::Cancelled => (TrainingLoop { phase: LoopPhase::Done, ..s }, Seq::empty()),
            StepOutcomeView::CropFailed(m) => (
                TrainingLoop { step: (s.step + 1) as usize, ..s },
                seq![TrainingActionView::SendError("跳过: "@ + m)],
            ),
            StepOutcomeView::Trained => {
                let g = (s.global_step + 1) as usize;
                (
                    TrainingLoop { step: (s.step + 1) as usize, global_step: g, ..s },
                    step_actions(s.epoch, g, s.checkpoint_every),
                )
            },
            StepOutcomeView::Proceed => (
                TrainingLoop { phase: LoopPhase::EpochStart, epoch: (s.epoch + 1) as usize, step: 0, ..s },
                seq![
                    TrainingActionView::SendEpochCompleted { epoch: (s.epoch + 1) as usize },
                    TrainingActionView::SaveCheckpoint { step: s.global_step },
                ],
            ),
        },
    }
}

proof fn lemma_step_keeps_wf(s: TrainingLoop, o: StepOutcomeView)
    requires
        s.wf(),
        s.fits(o),
    ensures
        training_step_of(s, o).0.wf(),
        s.step_wanted() ==> s.global_step + 1 <= usize::MAX,
{
    let n = s.num_epochs as int;
    let t = s.steps_per_epoch as int;
    let e = s.epoch as int;
    if s.phase is InEpoch {
        assert((e + 1) * t <= n * t) by (nonlinear_arith)
            requires
                e + 1 <= n,
                0 <= t,
        ;
        assert((e + 1) * t == e * t + t) by (nonlinear_arith);
    }
}

impl TrainingLoop {
    /// A run of `num_epochs` epochs of `steps_per_epoch` steps, saving a checkpoint every
    /// `checkpoint_every` trained steps, before its first epoch.
    pub fn new(num_epochs: usize, steps_per_epoch: usize, checkpoint_every: usize) -> (r: Self)
        requires
            num_epochs * steps_per_epoch <= usize::MAX,
        ensures
            r.wf(),
            r == (TrainingLoop {
                num_epochs,
                steps_per_epoch,
                checkpoint_every,
                epoch: 0,
                step: 0,
                global_step: 0,
                phase: LoopPhase::EpochStart,
            }),
    {
        proof {
            assert(0 * steps_per_epoch == 0) by (nonlinear_arith);
        }
        TrainingLoop {
            num_epochs,
            steps_per_epoch,
            checkpoint_every,
            epoch: 0,
            step: 0,
            global_step: 0,
            phase: LoopPhase::EpochStart,
        }
    }

    pub fn wants_step(&self) -> (r: bool)
        ensures
            r == self.step_wanted(),
    {
        self.phase == LoopPhase::InEpoch && self.step < self.steps_per_epoch
    }

    pub fn checks_cancel(&self) -> (r: bool)
        ensures
            r == self.cancel_checked(),
    {
        self.wants_step() || (self.phase == LoopPhase::EpochStart && self.epoch < self.num_epochs)
    }

    pub fn is_done(&self) -> (r: bool)
        ensures
            r == (self.phase is Done),
    {
        self.phase == LoopPhase::Done
    }
}

/// Advances the loop by one outcome and returns what the caller has to do, in order.
pub fn training_step(s: &mut TrainingLoop, outcome: StepOutcome) -> (r: Vec<TrainingAction>)
    requires
        old(s).wf(),
        old(s).fits(outcome@),
    ensures
        final(s).wf(),
        (*final(s), actions_view(r@)) == training_step_of(*old(s), outcome@),
{
    proof {
        lemma_step_keeps_wf(*s, outcome@);
    }
    let ghost before = *s;
    let mut r: Vec<TrainingAction> = Vec::new();
    match s.phase {
        LoopPhase::Done => {},
        LoopPhase::EpochStart => match outcome {
            StepOutcome::Cancelled => {
                s.phase = LoopPhase::Done;
            },
            _ => {
                if s.epoch < s.num_epochs {
                    s.phase = LoopPhase::InEpoch;
                    s.step = 0;
                    r.push(
                        TrainingAction::SendEpochStarted {
                            epoch: s.epoch + 1,
                            total_epochs: s.num_epochs,
                        },
                    );
                } else {
                    s.phase = LoopPhase::Done;
                    r.push(TrainingAction::SendCompleted { total_steps: s.global_step });
                }
            },
        },
        LoopPhase::InEpoch => match outcome {
            StepOutcome::Cancelled => {
                s.phase = LoopPhase::Done;
            },
            StepOutcome::CropFailed(m) => {
                s.step = s.step + 1;
                let mut text = String::from_str("跳过: ");
                text.append(m.as_str());
                r.push(TrainingAction::SendError(text));
            },
            StepOutcome::Trained => {
                s.step = s.step + 1;
                s.global_step = s.global_step + 1;
                let g = s.global_step;
                if should_report_step(g) {
                    r.push(
                        TrainingAction::ReportStep { epoch: s.epoch + 1, global_step: g, samples: g },
                    );
                }
                if should_checkpoint(g, s.checkpoint_every) {
                    r.push(TrainingAction::SaveCheckpoint { step: g });
                    r.push(TrainingAction::SendCheckpointSaved { step: g });
                }
            },
            StepOutcome::Proceed => {
                let done_epoch = s.epoch + 1;
                s.phase = LoopPhase::EpochStart;
                s.epoch = done_epoch;
                s.step = 0;
                r.push(TrainingAction::SendEpochCompleted { epoch: done_epoch });
                r.push(TrainingAction::SaveCheckpoint { step: s.global_step });
            },
        },
    }
    proof {
        assert(actions_view(r@) =~= training_step_of(before, outcome@).1);
    }
    r
}

// ── Whole runs ──

/// The outcomes `os` reported one after another from `s`: the state reached and all the
/// actions, in order.
pub open spec fn run_of(s: TrainingLoop, os: Seq<StepOutcomeView>) -> (
    TrainingLoop,
    Seq<TrainingActionView>,
)
    decreases os.len(),
{
    if os.len() == 0 {
        (s, Seq::empty())
    } else {
        let (s1, a1) = training_step_of(s, os[0]);
        let (s2, a2) = run_of(s1, os.drop_first());
        (s2, a1 + a2)
    }
}

/// Every outcome of `os` fits the state it is reported in, and none is a cancellation.
pub open spec fn uncancelled_run(s: TrainingLoop, os: Seq<StepOutcomeView>) -> bool
    decreases os.len(),
{
    os.len() == 0 || (s.fits(os[0]) && !(os[0] is Cancelled) && uncancelled_run(
        training_step_of(s, os[0]).0,
        os.drop_first(),
    ))
}

/// Number of `EpochStarted` events among `a`.
pub open spec fn count_started(a: Seq<TrainingActionView>) -> nat
    decreases a.len(),
{
    if a.len() == 0 {
        0
    } else {
        count_started(a.drop_last()) + if a.last() is SendEpochStarted {
            1nat
        } else {
            0nat
        }
    }
}

/// Number of `CheckpointSaved` events among `a`.
pub open spec fn count_saved(a: Seq<TrainingActionView>) -> nat
    decreases a.len(),
{
    if a.len() == 0 {
        0
    } else {
        count_saved(a.drop_last()) + if a.last() is SendCheckpointSaved {
            1nat
        } else {
            0nat
        }
    }
}

/// Epochs not yet started.
pub open spec fn epochs_left(s: TrainingLoop) -> int {
    match s.phase {
        LoopPhase::EpochStart => s.num_epochs - s.epoch,
        LoopPhase::InEpoch => s.num_epochs - s.epoch - 1,
        LoopPhase::Done => 0,
    }
}

proof fn lemma_counts_add(a: Seq<TrainingActionView>, b: Seq<TrainingActionView>)
    ensures
        count_started(a + b) == count_started(a) + count_started(b),
        count_saved(a + b) == count_saved(a) + count_saved(b),
    decreases b.len(),
{
    if b.len() == 0 {
        assert(a + b =~= a);
    } else {
        lemma_counts_add(a, b.drop_last());
        assert((a + b).drop_last() =~= a + b.drop_last());
    }
}

proof fn lemma_counts_one(x: TrainingActionView)
    ensures
        count_started(seq![x]) == if x is SendEpochStarted { 1nat } else { 0nat },
        count_saved(seq![x]) == if x is SendCheckpointSaved { 1nat } else { 0nat },
{
    assert(seq![x].drop_last() =~= Seq::<TrainingActionView>::empty());
    assert(seq![x].last() == x);
    assert(count_started(Seq::<TrainingActionView>::empty()) == 0);
    assert(count_saved(Seq::<TrainingActionView>::empty()) == 0);
}

proof fn lemma_counts_two(x: TrainingActionView, y: TrainingActionView)
    ensures
        count_started(seq![x, y]) == count_started(seq![x]) + count_started(seq![y]),
        count_saved(seq![x, y]) == count_saved(seq![x]) + count_saved(seq![y]),
{
    lemma_counts_add(seq![x], seq![y]);
    assert(seq![x] + seq![y] =~= seq![x, y]);
}

/// One trained step passes a multiple of `k` exactly when the step count reaches one.
proof fn lemma_multiples_step(g: int, k: int)
    requires
        0 <= g,
        0 < k,
    ensures
        (g + 1) / k - g / k == if (g + 1) % k == 0 { 1int } else { 0int },
{
    let q = g / k;
    let r = g % k;
    vstd::arithmetic::div_mod::lemma_fundamental_div_mod(g, k);
    if r + 1 < k {
        vstd::arithmetic::div_mod::lemma_fundamental_div_mod_converse(g + 1, k, q, r + 1);
    } else {
        assert(g + 1 == (q + 1) * k) by (nonlinear_arith)
            requires
                g == k * q + r,
                r + 1 == k,
        ;
        vstd::arithmetic::div_mod::lemma_fundamental_div_mod_converse(g + 1, k, q + 1, 0);
    }
}

/// What a single move contributes to the counts.
proof fn lemma_step_counts(s: TrainingLoop, o: StepOutcomeView)
    requires
        s.wf(),
        s.fits(o),
        !(o is Cancelled),
        s.checkpoint_every > 0,
    ensures
        ({
            let (s1, a1) = training_step_of(s, o);
            &&& count_started(a1) + epochs_left(s1) == epochs_left(s)
            &&& count_saved(a1) == (s1.global_step as int) / (s.checkpoint_every as int) - (
                s.global_step as int) / (s.checkpoint_every as int)
            &&& s.global_step <= s1.global_step
            &&& forall|i: int|
                0 <= i < a1.len() && #[trigger] a1[i] is SendCheckpointSaved ==> {
                    &&& s.global_step < a1[i]->SendCheckpointSaved_step <= s1.global_step
                    &&& a1[i]->SendCheckpointSaved_step % s.checkpoint_every == 0
                }
        }),
{
    let (s1, a1) = training_step_of(s, o);
    let k = s.checkpoint_every;
    lemma_step_keeps_wf(s, o);
    match s.phase {
        LoopPhase::EpochStart => {
            if s.epoch < s.num_epochs {
                lemma_counts_one(a1[0]);
                assert(a1 =~= seq![a1[0]]);
            } else {
                lemma_counts_one(a1[0]);
                assert(a1 =~= seq![a1[0]]);
            }
        },
        LoopPhase::InEpoch => match o {
            StepOutcomeView::CropFailed(m) => {
                lemma_counts_one(a1[0]);
                assert(a1 =~= seq![a1[0]]);
            },
            StepOutcomeView::Trained => {
                let g = (s.global_step + 1) as usize;
                let e = (s.epoch + 1) as usize;
                let rep = TrainingActionView::ReportStep { epoch: e, global_step: g, samples: g };
                let save = TrainingActionView::SaveCheckpoint { step: g };
                let saved = TrainingActionView::SendCheckpointSaved { step: g };
                let p1: Seq<TrainingActionView> = if g % 50 == 0 || g == 1 {
                    seq![rep]
                } else {
                    Seq::empty()
                };
                let p2: Seq<TrainingActionView> = if g % k == 0 && g > 0 {
                    seq![save, saved]
                } else {
                    Seq::empty()
                };
                assert(a1 == p1 + p2);
                lemma_counts_add(p1, p2);
                lemma_counts_one(rep);
                lemma_counts_one(save);
                lemma_counts_one(saved);
                lemma_counts_two(save, saved);
                lemma_multiples_step(s.global_step as int, k as int);
            },
            StepOutcomeView::Proceed => {
                let x = a1[0];
                let y = a1[1];
                lemma_counts_one(x);
                lemma_counts_one(y);
                lemma_counts_two(x, y);
                assert(a1 =~= seq![x, y]);
            },
            StepOutcomeView::Cancelled => {},
        },
        LoopPhase::Done => {},
    }
}

/// A run that nobody cancels, followed until it is over: it sends one `EpochStarted` for each
/// epoch it had left; every `CheckpointSaved` it sends is at a trained step that is a
/// multiple of the checkpoint interval, and there are as many as such multiples among its
/// trained steps; it ends with `Completed`, carrying the number of trained steps, once every
/// epoch is through.
pub proof fn lemma_uncancelled_run(s: TrainingLoop, os: Seq<StepOutcomeView>)
    requires
        s.wf(),
        s.checkpoint_every > 0,
        !(s.phase is Done),
        uncancelled_run(s, os),
        run_of(s, os).0.phase is Done,
    ensures
        ({
            let (f, a) = run_of(s, os);
            let k = s.checkpoint_every as int;
            &&& count_started(a) == epochs_left(s)
            &&& count_saved(a) == (f.global_step as int) / k - (s.global_step as int) / k
            &&& forall|i: int|
                0 <= i < a.len() && #[trigger] a[i] is SendCheckpointSaved ==> {
                    &&& s.global_step < a[i]->SendCheckpointSaved_step <= f.global_step
                    &&& a[i]->SendCheckpointSaved_step % s.checkpoint_every == 0
                }
            &&& a.len() > 0
            &&& a.last() == TrainingActionView::SendCompleted { total_steps: f.global_step }
            &&& f.epoch == s.num_epochs
            &&& s.global_step <= f.global_step
        }),
    decreases os.len(),
{
    let o = os[0];
    let (s1, a1) = training_step_of(s, o);
    let rest = os.drop_first();
    let (f, a2) = run_of(s1, rest);
    lemma_step_keeps_wf(s, o);
    lemma_step_counts(s, o);
    lemma_counts_add(a1, a2);
    assert(uncancelled_run(s1, rest));
    if s1.phase is Done {
        if rest.len() > 0 {
            assert(!s1.fits(rest[0]));
        }
        assert(rest.len() == 0);
        assert(run_of(s1, rest) == (s1, Seq::<TrainingActionView>::empty()));
        assert(a2 =~= Seq::<TrainingActionView>::empty());
        assert(a1 + a2 =~= a1);
    } else {
        lemma_uncancelled_run(s1, rest);
        assert((a1 + a2).last() == a2.last());
        assert forall|i: int|
            0 <= i < (a1 + a2).len() && #[trigger] (a1 + a2)[i] is SendCheckpointSaved implies {
                &&& s.global_step < (a1 + a2)[i]->SendCheckpointSaved_step <= f.global_step
                &&& (a1 + a2)[i]->SendCheckpointSaved_step % s.checkpoint_every == 0
            } by {
            if i < a1.len() {
                assert((a1 + a2)[i] == a1[i]);
            } else {
                assert((a1 + a2)[i] == a2[i - a1.len()]);
            }
        }
    }
}

/// From the start, a run that nobody cancels sends `num_epochs` `EpochStarted` events, one
/// `CheckpointSaved` for each multiple of the checkpoint interval among its trained steps, and
/// ends with `Completed` carrying the number of trained steps.
pub proof fn lemma_full_run(
    num_epochs: usize,
    steps_per_epoch: usize,
    checkpoint_every: usize,
    os: Seq<StepOutcomeView>,
)
    requires
        num_epochs * steps_per_epoch <= usize::MAX,
        checkpoint_every > 0,
        ({
            let s = TrainingLoop {
                num_epochs,
                steps_per_epoch,
                checkpoint_every,
                epoch: 0,
                step: 0,
                global_step: 0,
                phase: LoopPhase::EpochStart,
            };
            uncancelled_run(s, os) && run_of(s, os).0.phase is Done
        }),
    ensures
        ({
            let s = TrainingLoop {
                num_epochs,
                steps_per_epoch,
                checkpoint_every,
                epoch: 0,
                step: 0,
                global_step: 0,
                phase: LoopPhase::EpochStart,
            };
            let (f, a) = run_of(s, os);
            &&& count_started(a) == num_epochs
            &&& count_saved(a) == (f.global_step as int) / (checkpoint_every as int)
            &&& forall|i: int|
                0 <= i < a.len() && #[trigger] a[i] is SendCheckpointSaved ==> {
                    &&& 0 < a[i]->SendCheckpointSaved_step <= f.global_step
                    &&& a[i]->SendCheckpointSaved_step % checkpoint_every == 0
                }
            &&& a.len() > 0
            &&& a.last() == TrainingActionView::SendCompleted { total_steps: f.global_step }
        }),
{
    let s = TrainingLoop {
        num_epochs,
        steps_per_epoch,
        checkpoint_every,
        epoch: 0,
        step: 0,
        global_step: 0,
        phase: LoopPhase::EpochStart,
    };
    assert(0 * steps_per_epoch == 0) by (nonlinear_arith);
    lemma_uncancelled_run(s, os);
    assert(0int / (checkpoint_every as int) == 0);
}

} // verus!
