//! Press-and-hold gesture recognition.
//!
//! Each tick the machine consumes one debounced pointer sample and a frame
//! delta, and walks a small state machine: pressing the button starts a hold,
//! holding for a threshold's worth of accumulated time fires a single
//! pick-up animation request and arms a drag, and from then on every held
//! tick turns the cursor's travel since the drag started into a window move
//! request. Releasing the button cancels everything, from any state.
//!
//! Times are accumulated frame deltas in milliseconds; coordinates are
//! window-local pixels.

use crate::animation::{PlayAnimationEvent, RepeatMode};
use crate::window::{MoveWindowEvent, Point};
use vstd::prelude::*;

verus! {

/// The discrete phases of the press-and-hold gesture. Exactly one is active
/// at a time; drag-origin data exists only while actually dragging.
#[derive(Clone, Copy, PartialEq, Eq, Structural, Debug)]
pub enum GestureState {
    /// Button up, nothing in progress.
    NotHolding,
    /// Button down for `elapsed` milliseconds, threshold not yet reached.
    Holding { elapsed: u64 },
    /// The hold threshold was reached; the next held tick starts a drag.
    ReadyToDrag,
    /// Dragging: the window follows the cursor's travel since these origins.
    Dragging { initial_cursor: Point, initial_window: Point },
}

/// One tick's debounced pointer input, as the host engine reports it.
///
/// `cursor` and `window_pos` are `None` when the cursor is outside the
/// window or the window position is not yet known.
#[derive(Clone, Copy, Debug)]
pub struct PointerSample {
    /// The button is down at this tick.
    pub pressed: bool,
    /// The button went down since the previous tick.
    pub just_pressed: bool,
    /// The button went up since the previous tick.
    pub just_released: bool,
    /// Cursor position in window-local coordinates, if available.
    pub cursor: Option<Point>,
    /// The window's current position, if known.
    pub window_pos: Option<Point>,
}

/// An unavailable position falls back to the origin when a capture needs
/// one.
pub open spec fn point_or_origin(c: Option<Point>) -> Point {
    match c {
        Some(p) => p,
        None => Point { x: 0, y: 0 },
    }
}

/// What one tick does, as a function of the state before it: the state after
/// the tick, whether the single pick-up animation request fires, and the
/// move request emitted, if any.
///
/// The rules are evaluated in this order within one tick, each seeing the
/// state the previous rule left:
/// 1. a fresh press (re)starts a hold with the timer at zero;
/// 2. a held tick during a hold advances the timer by `delta`; reaching
///    `threshold` moves to [`GestureState::ReadyToDrag`] and fires the
///    pick-up request;
/// 3. a held tick while ready to drag captures the current cursor and window
///    positions and starts dragging;
/// 4. a held tick while dragging emits a move request for
///    `initial_window + (cursor - initial_cursor)`, unless the cursor is
///    unavailable this tick, which means no movement this tick;
/// 5. a release, last, cancels everything back to
///    [`GestureState::NotHolding`], whatever the earlier rules did.
pub open spec fn tick_spec(s: GestureState, threshold: u64, input: PointerSample, delta: u64) -> (
    GestureState,
    bool,
    Option<MoveWindowEvent>,
) {
    let held = if input.just_pressed {
        GestureState::Holding { elapsed: 0 }
    } else {
        s
    };
    let (timed, fires) = match held {
        GestureState::Holding { elapsed } => if input.pressed {
            if elapsed + delta >= threshold {
                (GestureState::ReadyToDrag, true)
            } else {
                (GestureState::Holding { elapsed: (elapsed + delta) as u64 }, false)
            }
        } else {
            (held, false)
        },
        _ => (held, false),
    };
    let captured = if input.pressed && timed is ReadyToDrag {
        GestureState::Dragging {
            initial_cursor: point_or_origin(input.cursor),
            initial_window: point_or_origin(input.window_pos),
        }
    } else {
        timed
    };
    let moved = match captured {
        GestureState::Dragging { initial_cursor, initial_window } => match input.cursor {
            Some(c) => if input.pressed {
                Some(
                    MoveWindowEvent {
                        x: (initial_window.x + c.x - initial_cursor.x) as i64,
                        y: (initial_window.y + c.y - initial_cursor.y) as i64,
                    },
                )
            } else {
                None
            },
            None => None,
        },
        _ => None,
    };
    let settled = if input.just_released {
        GestureState::NotHolding
    } else {
        captured
    };
    (settled, fires, moved)
}

/// The hold timer's current value: zero outside a hold, the accumulated time
/// during one, and capped at the threshold once it has been reached.
pub open spec fn spec_hold_elapsed(s: GestureState, threshold: u64) -> u64 {
    match s {
        GestureState::NotHolding => 0,
        GestureState::Holding { elapsed } => elapsed,
        GestureState::ReadyToDrag => threshold,
        GestureState::Dragging { .. } => threshold,
    }
}

/// Converts per-tick pointer samples into animation and window-move
/// requests, around a hold timer with a fixed threshold.
pub struct GestureStateMachine {
    /// The phase the gesture is in.
    pub state: GestureState,
    /// Hold time, in milliseconds, needed to arm a drag.
    pub threshold: u64,
    /// The clip requested, once per hold, when the threshold is reached.
    pub pickup_clip: String,
}

impl GestureStateMachine {
    /// Well-formedness: the threshold is positive and an in-progress hold has
    /// not yet reached it.
    pub open spec fn wf(self) -> bool {
        &&& self.threshold > 0
        &&& self.state matches GestureState::Holding { elapsed } ==> elapsed < self.threshold
    }

    /// A machine at rest. `threshold` is the hold time in milliseconds that
    /// arms a drag; `pickup_clip` is the clip played once when it is reached.
    pub fn new(threshold: u64, pickup_clip: String) -> (r: GestureStateMachine)
        requires
            threshold > 0,
        ensures
            r.state is NotHolding,
            r.threshold == threshold,
            r.pickup_clip == pickup_clip,
            r.wf(),
    {
        GestureStateMachine { state: GestureState::NotHolding, threshold, pickup_clip }
    }

    /// The hold timer's current value, capped at the threshold.
    pub fn hold_elapsed(&self) -> (r: u64)
        ensures
            r == spec_hold_elapsed(self.state, self.threshold),
    {
        match self.state {
            GestureState::NotHolding => 0,
            GestureState::Holding { elapsed } => elapsed,
            GestureState::ReadyToDrag => self.threshold,
            GestureState::Dragging { .. } => self.threshold,
        }
    }

    /// Runs one tick of the gesture over `input`, with `delta` milliseconds
    /// elapsed since the previous tick. Returns the pick-up animation
    /// request, fired exactly when the hold reaches the threshold, and the
    /// move request a dragging tick emits; the new state, and both outputs,
    /// are exactly [`tick_spec`] of the old state.
    pub fn tick(&mut self, input: PointerSample, delta: u64) -> (r: (
        Option<PlayAnimationEvent>,
        Option<MoveWindowEvent>,
    ))
        requires
            old(self).wf(),
        ensures
            final(self).wf(),
            final(self).threshold == old(self).threshold,
            final(self).pickup_clip == old(self).pickup_clip,
            (final(self).state, r.0 is Some, r.1) == tick_spec(
                old(self).state,
                old(self).threshold,
                input,
                delta,
            ),
            r.0 matches Some(e) ==> e.animation_name == old(self).pickup_clip && e.repeat
                == RepeatMode::PlayOnce,
    {
        let mut play: Option<PlayAnimationEvent> = None;
        let mut moved: Option<MoveWindowEvent> = None;

        if input.just_pressed {
            self.state = GestureState::Holding { elapsed: 0 };
        }

        if input.pressed {
            if let GestureState::Holding { elapsed } = self.state {
                if delta >= self.threshold - elapsed {
                    self.state = GestureState::ReadyToDrag;
                    play = Some(
                        PlayAnimationEvent {
                            animation_name: self.pickup_clip.clone(),
                            repeat: RepeatMode::PlayOnce,
                        },
                    );
                } else {
                    self.state = GestureState::Holding { elapsed: elapsed + delta };
                }
            }
        }

        if input.pressed {
            if let GestureState::ReadyToDrag = self.state {
                let initial_cursor = match input.cursor {
                    Some(p) => p,
                    None => Point { x: 0, y: 0 },
                };
                let initial_window = match input.window_pos {
                    Some(p) => p,
                    None => Point { x: 0, y: 0 },
                };
                self.state = GestureState::Dragging { initial_cursor, initial_window };
            }
        }

        if input.pressed {
            if let GestureState::Dragging { initial_cursor, initial_window } = self.state {
                if let Some(c) = input.cursor {
                    let x: i64 = (initial_window.x as i64) + (c.x as i64) - (initial_cursor.x
                        as i64);
                    let y: i64 = (initial_window.y as i64) + (c.y as i64) - (initial_cursor.y
                        as i64);
                    moved = Some(MoveWindowEvent { x, y });
                }
            }
        }

        if input.just_released {
            self.state = GestureState::NotHolding;
        }

        (play, moved)
    }
}

/// A sample that keeps holding the button: pressed, with no edge this tick.
pub open spec fn held_sample(input: PointerSample) -> bool {
    input.pressed && !input.just_pressed && !input.just_released
}

/// The state after running the machine over a sequence of ticks, each a
/// pointer sample paired with its frame delta, together with how many times
/// the pick-up animation request fired along the way.
pub open spec fn run_ticks(s: GestureState, threshold: u64, steps: Seq<(PointerSample, u64)>) -> (
    GestureState,
    int,
)
    decreases steps.len(),
{
    if steps.len() == 0 {
        (s, 0)
    } else {
        let t = tick_spec(s, threshold, steps[0].0, steps[0].1);
        let rest = run_ticks(t.0, threshold, steps.drop_first());
        (rest.0, rest.1 + if t.1 {
            1int
        } else {
            0int
        })
    }
}

/// The total time a sequence of ticks delivers.
pub open spec fn sum_deltas(steps: Seq<(PointerSample, u64)>) -> int
    decreases steps.len(),
{
    if steps.len() == 0 {
        0
    } else {
        steps[0].1 + sum_deltas(steps.drop_first())
    }
}

/// Every tick of the sequence keeps holding the button.
pub open spec fn all_held(steps: Seq<(PointerSample, u64)>) -> bool {
    forall|i: int| 0 <= i < steps.len() ==> held_sample((#[trigger] steps[i]).0)
}

proof fn lemma_sum_deltas_nonneg(steps: Seq<(PointerSample, u64)>)
    ensures
        sum_deltas(steps) >= 0,
    decreases steps.len(),
{
    if steps.len() > 0 {
        lemma_sum_deltas_nonneg(steps.drop_first());
    }
}

/// Once dragging, held ticks stay dragging and never fire the pick-up
/// request again.
proof fn lemma_dragging_absorbs(s: GestureState, threshold: u64, steps: Seq<(PointerSample, u64)>)
    requires
        s is Dragging,
        all_held(steps),
    ensures
        run_ticks(s, threshold, steps).0 == s,
        run_ticks(s, threshold, steps).1 == 0,
    decreases steps.len(),
{
    if steps.len() > 0 {
        let t = tick_spec(s, threshold, steps[0].0, steps[0].1);
        assert(t.0 == s && !t.1);
        lemma_dragging_absorbs(s, threshold, steps.drop_first());
    }
}

/// From a hold with `elapsed` accumulated, a run of held ticks fires the
/// pick-up request exactly once if the accumulated time reaches the
/// threshold and never otherwise; reaching it leaves the machine dragging,
/// falling short leaves it holding the accumulated total.
proof fn lemma_hold_run(elapsed: u64, threshold: u64, steps: Seq<(PointerSample, u64)>)
    requires
        threshold > 0,
        elapsed < threshold,
        all_held(steps),
    ensures
        run_ticks(GestureState::Holding { elapsed }, threshold, steps).1 == if elapsed
            + sum_deltas(steps) >= threshold {
            1int
        } else {
            0int
        },
        elapsed + sum_deltas(steps) >= threshold ==> run_ticks(
            GestureState::Holding { elapsed },
            threshold,
            steps,
        ).0 is Dragging,
        elapsed + sum_deltas(steps) < threshold ==> run_ticks(
            GestureState::Holding { elapsed },
            threshold,
            steps,
        ).0 == (GestureState::Holding { elapsed: (elapsed + sum_deltas(steps)) as u64 }),
    decreases steps.len(),
{
    let s = GestureState::Holding { elapsed };
    if steps.len() == 0 {
    } else {
        let d0 = steps[0].1;
        let t = tick_spec(s, threshold, steps[0].0, d0);
        let rest = steps.drop_first();
        if elapsed + d0 >= threshold {
            assert(t.0 is Dragging && t.1);
            lemma_dragging_absorbs(t.0, threshold, rest);
            lemma_sum_deltas_nonneg(rest);
        } else {
            assert(t.0 == (GestureState::Holding { elapsed: (elapsed + d0) as u64 }) && !t.1);
            lemma_hold_run((elapsed + d0) as u64, threshold, rest);
        }
    }
}

/// Monotonic hold law: pressing the button and then holding it through a run
/// of ticks fires the pick-up animation request exactly once if the
/// delivered frame deltas add up to at least the threshold — the hold armed
/// a drag — and never fires it otherwise, in which case the machine is still
/// holding exactly the accumulated time.
pub proof fn lemma_hold_monotonic(threshold: u64, steps: Seq<(PointerSample, u64)>)
    requires
        threshold > 0,
        steps.len() > 0,
        steps[0].0.pressed && steps[0].0.just_pressed && !steps[0].0.just_released,
        forall|i: int| 1 <= i < steps.len() ==> held_sample((#[trigger] steps[i]).0),
    ensures
        run_ticks(GestureState::NotHolding, threshold, steps).1 == if sum_deltas(steps)
            >= threshold {
            1int
        } else {
            0int
        },
        sum_deltas(steps) >= threshold ==> run_ticks(
            GestureState::NotHolding,
            threshold,
            steps,
        ).0 is Dragging,
        sum_deltas(steps) < threshold ==> run_ticks(GestureState::NotHolding, threshold, steps).0
            == (GestureState::Holding { elapsed: sum_deltas(steps) as u64 }),
{
    let d0 = steps[0].1;
    let t = tick_spec(GestureState::NotHolding, threshold, steps[0].0, d0);
    let rest = steps.drop_first();
    assert(all_held(rest)) by {
        assert(forall|j: int| 0 <= j < rest.len() ==> #[trigger] rest[j] == steps[j + 1]);
    }
    if d0 >= threshold {
        assert(t.0 is Dragging && t.1);
        lemma_dragging_absorbs(t.0, threshold, rest);
        lemma_sum_deltas_nonneg(rest);
    } else {
        assert(t.0 == (GestureState::Holding { elapsed: d0 }) && !t.1);
        lemma_hold_run(d0, threshold, rest);
    }
}

/// Release cancels law: whatever state the gesture is in, a tick whose input
/// reports a release ends in [`GestureState::NotHolding`] with the hold
/// timer back at zero.
pub proof fn lemma_release_cancels(s: GestureState, threshold: u64, input: PointerSample, delta: u64)
    requires
        input.just_released,
    ensures
        tick_spec(s, threshold, input, delta).0 is NotHolding,
        spec_hold_elapsed(tick_spec(s, threshold, input, delta).0, threshold) == 0,
{
}

} // verus!
