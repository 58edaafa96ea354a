use std::collections::VecDeque;
use vstd::prelude::*;
use crate::globals::Signals;

verus! {

/// What the simulation loop has to do in answer to the pending signals, in
/// this order: reshuffle the interaction table, start over `resets` times,
/// quit, then re-apply the particle damping.
#[derive(Clone, Copy, Debug, PartialEq, Eq, Structural)]
pub struct SignalActions {
    pub shuffle_interactions: bool,
    pub resets: u8,
    pub quit: bool,
    pub update_damping: bool,
}

/// The signals left pending once `pending` has been handled: every request is
/// consumed but the quit flag, which is passed on as it was.
pub open spec fn consumed(pending: Signals) -> Signals {
    Signals {
        start_new_sim: false,
        quit: pending.quit,
        restart: false,
        shuffle_interactions: false,
        particles_new_settings: false,
    }
}

/// The number of times the simulation starts over for `pending`: once for a
/// new-simulation request and once more for a restart request.
pub open spec fn reset_count(pending: Signals) -> int {
    (if pending.start_new_sim { 1int } else { 0int }) + (if pending.restart { 1int } else { 0int })
}

/// The actions owed for `pending` when the simulation's own quit flag is
/// `own_quit`. Starting over clears the simulation's own signals, so the quit
/// flag counts only when no reset happens first.
pub open spec fn planned_actions(pending: Signals, own_quit: bool) -> SignalActions {
    SignalActions {
        shuffle_interactions: pending.shuffle_interactions,
        resets: reset_count(pending) as u8,
        quit: own_quit && reset_count(pending) == 0,
        update_damping: pending.particles_new_settings,
    }
}

/// Decides how the simulation answers the signals that the user interface
/// left pending (`pending`), given the simulation's own quit flag, and returns
/// the signals to store back with the actions to perform.
pub fn signals_check(pending: Signals, own_quit: bool) -> (r: (Signals, SignalActions))
    ensures
        r.0 == consumed(pending),
        r.1 == planned_actions(pending, own_quit),
        r.1.resets == (if pending.start_new_sim { 1int } else { 0int }) + (if pending.restart {
            1int
        } else {
            0int
        }),
        r.1.shuffle_interactions == pending.shuffle_interactions,
        r.1.update_damping == pending.particles_new_settings,
        r.1.quit == (own_quit && !pending.start_new_sim && !pending.restart),
{
    let mut signals = pending;
    let mut actions = SignalActions {
        shuffle_interactions: false,
        resets: 0,
        quit: false,
        update_damping: false,
    };
    let mut quit_flag = own_quit;
    if signals.shuffle_interactions {
        signals.shuffle_interactions = false;
        actions.shuffle_interactions = true;
    }
    if signals.start_new_sim {
        signals.start_new_sim = false;
        actions.resets = actions.resets + 1;
        quit_flag = false;
    }
    if signals.restart {
        actions.resets = actions.resets + 1;
        quit_flag = false;
        signals.restart = false;
    }
    if quit_flag {
        actions.quit = true;
    }
    if signals.particles_new_settings {
        signals.particles_new_settings = false;
        actions.update_damping = true;
    }
    (signals, actions)
}

/// Number of frame-rate samples that the monitor averages over.
pub const FPS_WINDOW: usize = 30;

/// The sum of `s`.
pub open spec fn seq_sum(s: Seq<i32>) -> int
    decreases s.len(),
{
    if s.len() == 0 {
        0
    } else {
        seq_sum(s.drop_last()) + s.last()
    }
}

/// Every partial sum of `s`, taken from the front, fits in an `i32`.
pub open spec fn sums_fit_i32(s: Seq<i32>) -> bool {
    forall|k: int| 0 <= k <= s.len() ==> i32::MIN <= #[trigger] seq_sum(s.take(k)) <= i32::MAX
}

/// Integer division rounding towards zero, as Rust divides.
pub open spec fn div_toward_zero(a: int, b: int) -> int {
    if a >= 0 {
        a / b
    } else {
        -((-a) / b)
    }
}

/// The last `FPS_WINDOW` frame-rate samples, oldest first.
pub struct FpsHistory {
    samples: VecDeque<i32>,
}

impl View for FpsHistory {
    type V = Seq<i32>;

    closed spec fn view(&self) -> Seq<i32> {
        self.samples@
    }
}

impl FpsHistory {
    #[verifier::type_invariant]
    spec fn window_full(self) -> bool {
        self.samples@.len() == FPS_WINDOW
    }

    /// A window filled with samples of 30 frames per second.
    pub fn new() -> (h: Self)
        ensures
            h@ == Seq::new(FPS_WINDOW as nat, |i: int| 30i32),
    {
        let mut samples: VecDeque<i32> = VecDeque::new();
        let mut i: usize = 0;
        while i < FPS_WINDOW
            invariant
                i <= FPS_WINDOW,
                samples@ == Seq::new(i as nat, |j: int| 30i32),
            decreases FPS_WINDOW - i,
        {
            samples.push_back(30);
            i = i + 1;
            assert(samples@ =~= Seq::new(i as nat, |j: int| 30i32));
        }
        FpsHistory { samples }
    }

    /// The window always holds `FPS_WINDOW` samples.
    pub fn len(&self) -> (n: usize)
        ensures
            n == self@.len(),
            n == FPS_WINDOW,
    {
        proof {
            use_type_invariant(self);
        }
        self.samples.len()
    }

    /// Appends the newest sample and forgets the oldest.
    pub fn record(&mut self, fps: i32)
        ensures
            final(self)@ == old(self)@.drop_first().push(fps),
    {
        proof {
            use_type_invariant(&*self);
        }
        let mut samples = self.samples.clone();
        assert(samples@ =~= self.samples@);
        samples.push_back(fps);
        samples.pop_front();
        assert(samples@ =~= old(self)@.drop_first().push(fps));
        *self = FpsHistory { samples };
    }

    /// Whether every partial sum of the window fits in an `i32`, which is
    /// what `average` needs.
    pub fn sums_fit(&self) -> (b: bool)
        ensures
            b == sums_fit_i32(self@),
    {
        proof {
            use_type_invariant(self);
        }
        let n = self.samples.len();
        let mut sum: i64 = 0;
        let mut i: usize = 0;
        assert(self@.take(0) =~= Seq::<i32>::empty());
        while i < n
            invariant
                n == self@.len(),
                n == FPS_WINDOW,
                i <= n,
                sum == seq_sum(self@.take(i as int)),
                forall|k: int| 0 <= k <= i ==> i32::MIN <= #[trigger] seq_sum(self@.take(k)) <= i32::MAX,
            decreases n - i,
        {
            assert(self@.take(i as int + 1).drop_last() =~= self@.take(i as int));
            sum = sum + self.samples[i] as i64;
            assert(sum == seq_sum(self@.take(i as int + 1)));
            if sum < i32::MIN as i64 || sum > i32::MAX as i64 {
                assert(!(i32::MIN <= seq_sum(self@.take(i as int + 1)) <= i32::MAX));
                return false;
            }
            i = i + 1;
        }
        assert(self@.take(n as int) =~= self@);
        true
    }

    /// The mean of the window, rounded towards zero.
    pub fn average(&self) -> (avg: i32)
        requires
            sums_fit_i32(self@),
        ensures
            avg == div_toward_zero(seq_sum(self@), FPS_WINDOW as int),
    {
        proof {
            use_type_invariant(self);
        }
        let n = self.samples.len();
        let mut sum: i32 = 0;
        let mut i: usize = 0;
        while i < n
            invariant
                n == self@.len(),
                n == FPS_WINDOW,
                i <= n,
                sums_fit_i32(self@),
                sum == seq_sum(self@.take(i as int)),
            decreases n - i,
        {
            assert(self@.take(i as int + 1).drop_last() =~= self@.take(i as int));
            assert(i32::MIN <= seq_sum(self@.take(i as int + 1)) <= i32::MAX);
            sum = sum + self.samples[i];
            i = i + 1;
        }
        assert(self@.take(n as int) =~= self@);
        sum / (n as i32)
    }
}

} // verus!

verus! {

/// Every request is answered once: the signals stored back after a check
/// hold no request but quit, and checking them again asks for no reshuffle,
/// no reset and no damping update.
pub proof fn law_signals_consumed_once(pending: Signals, own_quit: bool)
    ensures
        !consumed(pending).start_new_sim,
        !consumed(pending).restart,
        !consumed(pending).shuffle_interactions,
        !consumed(pending).particles_new_settings,
        consumed(pending).quit == pending.quit,
        !planned_actions(consumed(pending), own_quit).shuffle_interactions,
        planned_actions(consumed(pending), own_quit).resets == 0,
        !planned_actions(consumed(pending), own_quit).update_damping,
        consumed(consumed(pending)) == consumed(pending),
{
}

/// What each pending request leads to: one start-over for a new-simulation
/// request and one more for a restart request, and no other request starts the
/// simulation over; a reshuffle exactly when one is asked for; a damping update
/// exactly when the particle settings changed; quitting only on the
/// simulation's own quit flag with no start-over in the same check. The
/// signals stored back keep only the quit request.
pub proof fn law_answer_of_each_request(pending: Signals, own_quit: bool)
    ensures
        planned_actions(pending, own_quit).resets as int == (if pending.start_new_sim {
            1int
        } else {
            0int
        }) + (if pending.restart { 1int } else { 0int }),
        !pending.start_new_sim && !pending.restart ==> planned_actions(pending, own_quit).resets
            == 0,
        planned_actions(pending, own_quit).shuffle_interactions == pending.shuffle_interactions,
        planned_actions(pending, own_quit).update_damping == pending.particles_new_settings,
        planned_actions(pending, own_quit).quit == (own_quit && !pending.start_new_sim
            && !pending.restart),
        !consumed(pending).start_new_sim && !consumed(pending).restart
            && !consumed(pending).shuffle_interactions && !consumed(pending).particles_new_settings
            && consumed(pending).quit == pending.quit,
{
}

/// With no request pending, the check asks for nothing but what the
/// simulation's own quit flag asks for, and stores nothing new.
pub proof fn law_idle_signals(pending: Signals, own_quit: bool)
    requires
        pending.is_idle(),
    ensures
        planned_actions(pending, own_quit) == (SignalActions {
            shuffle_interactions: false,
            resets: 0,
            quit: own_quit,
            update_damping: false,
        }),
        consumed(pending) == pending,
{
}

/// A quit request of the simulation is dropped whenever the simulation starts
/// over in the same check.
pub proof fn law_reset_cancels_quit(pending: Signals, own_quit: bool)
    requires
        pending.start_new_sim || pending.restart,
    ensures
        !planned_actions(pending, own_quit).quit,
        planned_actions(pending, own_quit).resets >= 1,
{
}

/// The window after recording each of `samples` in turn.
pub open spec fn after_records(window: Seq<i32>, samples: Seq<i32>) -> Seq<i32>
    decreases samples.len(),
{
    if samples.len() == 0 {
        window
    } else {
        after_records(window, samples.drop_last()).drop_first().push(samples.last())
    }
}

/// Recording keeps the window at its size, and the window holds the most
/// recent samples: once at least as many samples as the window holds have
/// been recorded, it is exactly the last of them, oldest first.
pub proof fn law_window_holds_latest(window: Seq<i32>, samples: Seq<i32>)
    requires
        window.len() == FPS_WINDOW,
    ensures
        after_records(window, samples).len() == FPS_WINDOW,
        after_records(window, samples) == (window + samples).subrange(
            samples.len() as int,
            samples.len() + FPS_WINDOW,
        ),
        samples.len() >= FPS_WINDOW ==> after_records(window, samples) == samples.subrange(
            samples.len() - FPS_WINDOW,
            samples.len() as int,
        ),
    decreases samples.len(),
{
    if samples.len() > 0 {
        let rest = samples.drop_last();
        law_window_holds_latest(window, rest);
        assert((window + samples).subrange(samples.len() as int, samples.len() + FPS_WINDOW)
            =~= (window + rest).subrange(rest.len() as int, rest.len() + FPS_WINDOW).drop_first().push(
            samples.last(),
        ));
    }
    if samples.len() >= FPS_WINDOW {
        assert((window + samples).subrange(samples.len() as int, samples.len() + FPS_WINDOW)
            =~= samples.subrange(samples.len() - FPS_WINDOW, samples.len() as int));
    }
}

/// The sum of `n` copies of `c`.
proof fn lemma_sum_constant(n: nat, c: i32)
    ensures
        seq_sum(Seq::new(n, |i: int| c)) == n * c,
    decreases n,
{
    let s = Seq::new(n, |i: int| c);
    if n > 0 {
        lemma_sum_constant((n - 1) as nat, c);
        assert(s.drop_last() =~= Seq::new((n - 1) as nat, |i: int| c));
        assert(s.last() == c);
        assert(n * c == (n - 1) * c + c) by (nonlinear_arith);
        assert(seq_sum(s) == seq_sum(s.drop_last()) + s.last());
    } else {
        assert(n * c == 0) by (nonlinear_arith)
            requires
                n == 0,
        ;
    }
}

/// A window in which every sample is `c` averages to `c`.
pub proof fn law_average_of_steady_rate(c: i32)
    ensures
        seq_sum(Seq::new(FPS_WINDOW as nat, |i: int| c)) == FPS_WINDOW * c,
        div_toward_zero(seq_sum(Seq::new(FPS_WINDOW as nat, |i: int| c)), FPS_WINDOW as int) == c,
{
    lemma_sum_constant(FPS_WINDOW as nat, c);
    let s = FPS_WINDOW * c;
    if c >= 0 {
        assert(s / 30 == c) by (nonlinear_arith)
            requires
                s == 30 * c,
        ;
    } else {
        assert((-s) / 30 == -c) by (nonlinear_arith)
            requires
                s == 30 * c,
        ;
    }
}

} // verus!

verus! {

/// The dots of the background grid, column by column: for each column `x` in
/// `0..=col_num` and each row `y` in `0..=row_num`, the point
/// `(x * cell_size, y * cell_size)`.
pub fn grid_points(col_num: u32, row_num: u32, cell_size: u32) -> (pts: Vec<(u32, u32)>)
    requires
        col_num < u32::MAX,
        row_num < u32::MAX,
        col_num * cell_size <= u32::MAX,
        row_num * cell_size <= u32::MAX,
        (col_num + 1) * (row_num + 1) <= usize::MAX,
    ensures
        pts@.len() == (col_num + 1) * (row_num + 1),
        forall|x: int, y: int|
            0 <= x <= col_num && 0 <= y <= row_num ==> #[trigger] pts@[x * (row_num + 1) + y] == (
            (x * cell_size) as u32,
            (y * cell_size) as u32,
        ),
{
    let rows = row_num as usize + 1;
    let mut pts: Vec<(u32, u32)> = Vec::new();
    let mut x: u32 = 0;
    while x < col_num + 1
        invariant
            x <= col_num + 1,
            col_num < u32::MAX,
            row_num < u32::MAX,
            col_num * cell_size <= u32::MAX,
            row_num * cell_size <= u32::MAX,
            (col_num + 1) * (row_num + 1) <= usize::MAX,
            rows == row_num + 1,
            pts@.len() == x * rows,
            forall|i: int, j: int|
                0 <= i < x && 0 <= j <= row_num ==> #[trigger] pts@[i * rows + j] == (
                (i * cell_size) as u32,
                (j * cell_size) as u32,
            ),
        decreases col_num + 1 - x,
    {
        assert(x * cell_size <= col_num * cell_size) by (nonlinear_arith)
            requires
                x <= col_num,
        ;
        let px = x * cell_size;
        let mut y: u32 = 0;
        while y < row_num + 1
            invariant
                x <= col_num,
                y <= row_num + 1,
                row_num < u32::MAX,
                row_num * cell_size <= u32::MAX,
                (col_num + 1) * (row_num + 1) <= usize::MAX,
                rows == row_num + 1,
                px == x * cell_size,
                pts@.len() == x * rows + y,
                forall|i: int, j: int|
                    0 <= i < x && 0 <= j <= row_num ==> #[trigger] pts@[i * rows + j] == (
                    (i * cell_size) as u32,
                    (j * cell_size) as u32,
                ),
                forall|j: int| 0 <= j < y ==> #[trigger] pts@[x * rows + j] == (px, (j * cell_size) as u32),
            decreases row_num + 1 - y,
        {
            assert(y * cell_size <= row_num * cell_size) by (nonlinear_arith)
                requires
                    y <= row_num,
            ;
            assert(x * rows + y < (col_num + 1) * (row_num + 1)) by (nonlinear_arith)
                requires
                    x <= col_num,
                    y <= row_num,
                    rows == row_num + 1,
            ;
            let ghost before = pts@;
            pts.push((px, y * cell_size));
            proof {
                assert forall|i: int, j: int|
                    0 <= i < x && 0 <= j <= row_num implies #[trigger] pts@[i * rows + j] == (
                    (i * cell_size) as u32,
                    (j * cell_size) as u32,
                ) by {
                    assert(i * rows + j < x * rows) by (nonlinear_arith)
                        requires
                            i < x,
                            j < rows,
                    ;
                    assert(pts@[i * rows + j] == before[i * rows + j]);
                }
            }
            y = y + 1;
        }
        proof {
            assert(pts@.len() == (x + 1) * rows) by (nonlinear_arith)
                requires
                    pts@.len() == x * rows + rows,
            ;
        }
        x = x + 1;
    }
    pts
}

} // verus!
