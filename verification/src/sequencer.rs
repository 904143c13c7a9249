//! The duty-cycle sequencer: the per-tick state machine that turns the live
//! step list into hardware commands.
//!
//! Each tick selects a duty from a snapshot of the step list, resolves the
//! sign into a magnitude and a direction-pin level, and advances the
//! cursor. A one-step list freezes the output, an empty list holds the
//! previous magnitude, and a cursor past the end of a shrunken list wraps
//! to the front. The hardware edge applies the returned command and sleeps
//! for the configured interval; none of that lives here.

use vstd::prelude::*;

verus! {

/// The sequencer's private cursor: the index into the current step list,
/// the magnitude last applied to the output channels, and the level the
/// direction pin was last driven to (`true` means reverse).
pub struct Sequencer {
    /// Zero-based index into the current step list.
    pub index: usize,
    /// Magnitude of the last applied duty.
    pub last_duty: u32,
    /// Level of the direction pin: `true` is the reverse level.
    pub reverse: bool,
}

/// What one tick asks the hardware edge to do: apply `duty` to both output
/// channels and, when `pin_change` is set, drive the direction pin to that
/// level first. `pin_change` is `None` whenever the pin already holds the
/// right level, so same-sign ticks never rewrite the pin.
#[derive(Clone, Copy, Debug, PartialEq, Eq)]
pub struct TickCommand {
    /// Duty magnitude for both output channels.
    pub duty: u32,
    /// `Some(level)` exactly when the direction pin must change.
    pub pin_change: Option<bool>,
}

/// The signed duty a tick selects: the sole step of a one-step list, the
/// step under the cursor (wrapped to the front if the list shrank below
/// it), or the previous magnitude when the list is empty.
pub open spec fn spec_selected_duty(s: Sequencer, steps: Seq<i32>) -> int {
    if steps.len() == 1 {
        steps[0] as int
    } else if steps.len() > 1 {
        if s.index >= steps.len() {
            steps[0] as int
        } else {
            steps[s.index as int] as int
        }
    } else {
        s.last_duty as int
    }
}

/// The cursor after a tick: one past the selected step when the list has
/// more than one entry, unchanged otherwise.
pub open spec fn spec_next_index(s: Sequencer, steps: Seq<i32>) -> int {
    if steps.len() > 1 {
        if s.index >= steps.len() {
            1
        } else {
            s.index + 1
        }
    } else {
        s.index as int
    }
}

/// The direction-pin level after a tick: reverse exactly when the selected
/// duty is negative.
pub open spec fn spec_tick_reverse(s: Sequencer, steps: Seq<i32>) -> bool {
    spec_selected_duty(s, steps) < 0
}

/// Absolute value of a selected duty.
pub open spec fn duty_magnitude(d: int) -> int {
    if d < 0 {
        -d
    } else {
        d
    }
}

/// The whole cursor after one tick against a snapshot.
pub open spec fn spec_tick_state(s: Sequencer, steps: Seq<i32>) -> Sequencer {
    Sequencer {
        index: spec_next_index(s, steps) as usize,
        last_duty: duty_magnitude(spec_selected_duty(s, steps)) as u32,
        reverse: spec_tick_reverse(s, steps),
    }
}

/// The cursor after `n` ticks, each against the same snapshot.
pub open spec fn spec_run(s: Sequencer, steps: Seq<i32>, n: nat) -> Sequencer
    decreases n,
{
    if n == 0 {
        s
    } else {
        spec_tick_state(spec_run(s, steps, (n - 1) as nat), steps)
    }
}

impl Sequencer {
    /// The initial cursor: index 0, duty 0, direction forward.
    pub fn new() -> (s: Self)
        ensures
            s.index == 0,
            s.last_duty == 0,
            s.reverse == false,
    {
        Sequencer { index: 0, last_duty: 0, reverse: false }
    }

    /// Run one tick against a snapshot of the step list: selects the duty,
    /// resolves sign and direction, advances the cursor, and returns the
    /// command for the hardware edge.
    pub fn tick(&mut self, steps: &Vec<i32>) -> (cmd: TickCommand)
        ensures
            *final(self) == spec_tick_state(*old(self), steps@),
            cmd.duty == final(self).last_duty,
            cmd.pin_change == (if final(self).reverse == old(self).reverse {
                None::<bool>
            } else {
                Some(final(self).reverse)
            }),
    {
        let n: usize = steps.len();
        let magnitude: u32;
        let neg: bool;
        if n == 0 {
            magnitude = self.last_duty;
            neg = false;
        } else {
            if n > 1 && self.index >= n {
                self.index = 0;
            }
            let d: i32 = if n == 1 {
                steps[0]
            } else {
                steps[self.index]
            };
            if d < 0 {
                neg = true;
                magnitude = (-(d as i64)) as u32;
            } else {
                neg = false;
                magnitude = d as u32;
            }
        }
        let pin_change: Option<bool> = if neg != self.reverse {
            Some(neg)
        } else {
            None
        };
        self.reverse = neg;
        self.last_duty = magnitude;
        if n > 1 {
            self.index = self.index + 1;
        }
        TickCommand { duty: magnitude, pin_change }
    }
}

/// Single-step freeze: with exactly one step, every tick selects that step
/// and the cursor never advances, so the output is that step's magnitude
/// indefinitely.
pub proof fn lemma_single_step_freeze(s: Sequencer, steps: Seq<i32>)
    requires
        steps.len() == 1,
    ensures
        spec_selected_duty(s, steps) == steps[0] as int,
        spec_next_index(s, steps) == s.index,
{
}

/// Empty-list hold: with no steps, a tick re-applies the previous
/// magnitude, keeps it as the last duty, leaves the cursor alone, and
/// drives forward (the held magnitude is never negative).
pub proof fn lemma_empty_list_hold(s: Sequencer, steps: Seq<i32>)
    requires
        steps.len() == 0,
    ensures
        spec_selected_duty(s, steps) == s.last_duty as int,
        duty_magnitude(spec_selected_duty(s, steps)) == s.last_duty as int,
        spec_next_index(s, steps) == s.index,
        !spec_tick_reverse(s, steps),
{
}

/// Shrink-wrap: when the list shrank below the cursor, the next tick wraps
/// to the front instead of indexing out of bounds, and the cursor lands
/// just past the front.
pub proof fn lemma_shrink_wraps(s: Sequencer, steps: Seq<i32>)
    requires
        steps.len() > 1,
        s.index >= steps.len(),
    ensures
        spec_selected_duty(s, steps) == steps[0] as int,
        spec_next_index(s, steps) == 1,
{
}

/// Single-step freeze, indefinitely: however many ticks run against the
/// same one-step snapshot, every one of them applies that step's magnitude
/// and the cursor stays where it began.
pub proof fn lemma_single_step_freeze_forever(s: Sequencer, steps: Seq<i32>, n: nat)
    requires
        steps.len() == 1,
        n >= 1,
    ensures
        spec_run(s, steps, n).last_duty == duty_magnitude(steps[0] as int),
        spec_run(s, steps, n).index == s.index,
        spec_run(s, steps, n).reverse == (steps[0] < 0),
    decreases n,
{
    if n == 1 {
        assert(spec_run(s, steps, 0) == s);
        assert(spec_run(s, steps, 1) == spec_tick_state(s, steps));
        assert(spec_tick_state(s, steps).index == s.index);
    } else {
        lemma_single_step_freeze_forever(s, steps, (n - 1) as nat);
        assert(spec_run(s, steps, n) == spec_tick_state(spec_run(s, steps, (n - 1) as nat), steps));
        assert(spec_tick_state(spec_run(s, steps, (n - 1) as nat), steps).index == s.index);
    }
}

/// Empty-list hold, indefinitely: however many ticks run against an empty
/// snapshot, the last applied magnitude and the cursor never change, so
/// the output holds until the list becomes non-empty.
pub proof fn lemma_empty_list_hold_forever(s: Sequencer, steps: Seq<i32>, n: nat)
    requires
        steps.len() == 0,
    ensures
        spec_run(s, steps, n).last_duty == s.last_duty,
        spec_run(s, steps, n).index == s.index,
    decreases n,
{
    if n > 0 {
        lemma_empty_list_hold_forever(s, steps, (n - 1) as nat);
    }
}

/// Direction idempotence: if a tick left the pin at the level its selected
/// duty's sign asked for, and the next tick selects a duty of the same
/// sign, the next tick asks for no pin change.
pub proof fn lemma_same_sign_keeps_pin(
    first: Sequencer,
    steps1: Seq<i32>,
    second: Sequencer,
    steps2: Seq<i32>,
)
    requires
        second.reverse == spec_tick_reverse(first, steps1),
        (spec_selected_duty(second, steps2) < 0) == (spec_selected_duty(first, steps1) < 0),
    ensures
        spec_tick_reverse(second, steps2) == second.reverse,
{
}

} // verus!
