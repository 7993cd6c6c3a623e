//! Six-step commutation patterns for the TMC6300 three-phase gate driver.

use vstd::prelude::*;

verus! {

/// One six-step commutation pattern: which high-side and low-side switch of
/// each phase (U, V, W) is driven.
#[derive(Clone, Copy, Debug)]
pub struct CommutationStep {
    pub name: &'static str,
    pub uh: bool,
    pub ul: bool,
    pub vh: bool,
    pub vl: bool,
    pub wh: bool,
    pub wl: bool,
}

/// Number of patterns in one electrical revolution.
pub const SIX_STEP_LEN: usize = 6;

/// The high-side phase and the low-side phase that pattern `i` (taken modulo six)
/// connects, phases numbered U = 0, V = 1, W = 2: U+V-, U+W-, V+W-, V+U-, W+U-,
/// W+V-.
pub open spec fn six_step_phases(i: int) -> (int, int) {
    let k = i % 6;
    if k == 0 {
        (0, 1)
    } else if k == 1 {
        (0, 2)
    } else if k == 2 {
        (1, 2)
    } else if k == 3 {
        (1, 0)
    } else if k == 4 {
        (2, 0)
    } else {
        (2, 1)
    }
}

/// The label of pattern `i` (taken modulo six).
pub open spec fn six_step_name(i: int) -> &'static str {
    let k = i % 6;
    if k == 0 {
        "U+ V-"
    } else if k == 1 {
        "U+ W-"
    } else if k == 2 {
        "V+ W-"
    } else if k == 3 {
        "V+ U-"
    } else if k == 4 {
        "W+ U-"
    } else {
        "W+ V-"
    }
}

impl CommutationStep {
    /// The six switch levels in pin order `[uh, ul, vh, vl, wh, wl]`.
    pub open spec fn spec_levels(self) -> Seq<bool> {
        seq![self.uh, self.ul, self.vh, self.vl, self.wh, self.wl]
    }

    /// Level of the high-side (`low == false`) or low-side switch of phase `p`.
    pub open spec fn switch(self, p: int, low: bool) -> bool {
        self.spec_levels()[2 * p + if low { 1int } else { 0int }]
    }

    /// The pattern drives exactly the high side of phase `hi` and the low side of
    /// phase `lo`, and nothing else.
    pub open spec fn drives(self, hi: int, lo: int) -> bool {
        forall|p: int, low: bool|
            0 <= p < 3 ==> #[trigger] self.switch(p, low) == (if low { p == lo } else { p == hi })
    }

    /// Pin levels to drive for this pattern, in the order `uh, ul, vh, vl, wh, wl`.
    pub fn levels(&self) -> (levels: [bool; 6])
        ensures
            levels@ == self.spec_levels(),
    {
        let levels = [self.uh, self.ul, self.vh, self.vl, self.wh, self.wl];
        assert(levels@ =~= self.spec_levels());
        levels
    }
}

/// Builds the pattern that drives the high side of `hi` and the low side of `lo`.
fn make_step(name: &'static str, hi: u8, lo: u8) -> (step: CommutationStep)
    requires
        hi < 3,
        lo < 3,
    ensures
        step.name == name,
        step.drives(hi as int, lo as int),
{
    let step = CommutationStep {
        name,
        uh: hi == 0,
        ul: lo == 0,
        vh: hi == 1,
        vl: lo == 1,
        wh: hi == 2,
        wl: lo == 2,
    };
    assert forall|p: int, low: bool| 0 <= p < 3 implies #[trigger] step.switch(p, low) == (if low {
        p == lo
    } else {
        p == hi
    }) by {
        if p == 0 {
        } else if p == 1 {
        } else {
        }
    }
    step
}

/// The six commutation patterns of one electrical revolution, in order.
pub fn six_step_commutation() -> (steps: [CommutationStep; 6])
    ensures
        forall|i: int|
            0 <= i < 6 ==> #[trigger] steps@[i].drives(six_step_phases(i).0, six_step_phases(i).1)
                && steps@[i].name == six_step_name(i),
{
    [
        make_step("U+ V-", 0, 1),
        make_step("U+ W-", 0, 2),
        make_step("V+ W-", 1, 2),
        make_step("V+ U-", 1, 0),
        make_step("W+ U-", 2, 0),
        make_step("W+ V-", 2, 1),
    ]
}

/// The pattern for an ever-increasing step counter: the table entry at `index`
/// taken modulo the table length.
pub fn commutation_step(index: usize) -> (step: CommutationStep)
    ensures
        step.drives(six_step_phases(index as int).0, six_step_phases(index as int).1),
        step.name == six_step_name(index as int),
{
    let steps = six_step_commutation();
    let k = index % SIX_STEP_LEN;
    assert(k as int == (index as int) % 6);
    assert(steps@[k as int].drives(six_step_phases(k as int).0, six_step_phases(k as int).1));
    steps[k]
}

/// Number of commutation patterns in one electrical revolution.
pub fn commutation_step_count() -> (n: usize)
    ensures
        n == 6,
{
    SIX_STEP_LEN
}

/// No commutation pattern ever closes both switches of one phase (which would
/// short the supply), and every pattern closes exactly one high-side and exactly
/// one low-side switch.
pub proof fn lemma_commutation_never_shorts_a_phase(step: CommutationStep, index: int)
    requires
        index >= 0,
        step.drives(six_step_phases(index).0, six_step_phases(index).1),
    ensures
        forall|p: int| 0 <= p < 3 ==> !(#[trigger] step.switch(p, false) && step.switch(p, true)),
        exists|p: int| 0 <= p < 3 && #[trigger] step.switch(p, false),
        exists|p: int| 0 <= p < 3 && #[trigger] step.switch(p, true),
        forall|p: int, q: int|
            0 <= p < 3 && 0 <= q < 3 && #[trigger] step.switch(p, false) && #[trigger] step.switch(
                q,
                false,
            ) ==> p == q,
        forall|p: int, q: int|
            0 <= p < 3 && 0 <= q < 3 && #[trigger] step.switch(p, true) && #[trigger] step.switch(
                q,
                true,
            ) ==> p == q,
{
    let (hi, lo) = six_step_phases(index);
    assert(step.switch(hi, false));
    assert(step.switch(lo, true));
}

/// Successive patterns (including the wrap from the last back to the first)
/// keep one of the two active phases and move the other: exactly one of the
/// high-side phase and the low-side phase changes per step.
pub proof fn lemma_successive_steps_move_one_phase(index: int)
    requires
        index >= 0,
    ensures
        (six_step_phases(index).0 == six_step_phases(index + 1).0) != (six_step_phases(index).1
            == six_step_phases(index + 1).1),
{
    assert((index + 1) % 6 == (index % 6 + 1) % 6);
}

/// The pattern sequence repeats every six steps.
pub proof fn lemma_commutation_period(index: int)
    requires
        index >= 0,
    ensures
        six_step_phases(index + 6) == six_step_phases(index),
        six_step_name(index + 6) == six_step_name(index),
{
    assert((index + 6) % 6 == index % 6);
}

} // verus!
