use vstd::prelude::*;

use crate::input::PointerEvent;
use crate::math::{clamp_spec, clamp_wide};

verus! {

/// Full deflection of the lever, in millionths.
pub const POSITION_SCALE: i64 = 1_000_000;

/// Deflection past which a move counts as a throw, in millionths.
pub const THRESHOLD: i64 = 900_000;

/// Default drag sensitivity: millionths of deflection per thousandth of a pixel
/// of upward motion (half a percent of full deflection per pixel).
pub const DEFAULT_SENSITIVITY: i64 = 5;

/// A notification that the lever sends to its listeners.
#[derive(Clone, Copy, Debug, PartialEq, Eq, Structural)]
pub enum LeverSignal {
    LeverUp,
    LeverDown,
}

/// Where a drag of `dy` takes a lever at `pos`.
pub open spec fn dragged_position(pos: int, sensitivity: int, dy: int) -> int {
    clamp_spec(pos - sensitivity * dy, -POSITION_SCALE as int, POSITION_SCALE as int)
}

/// The threshold crossed on a move from `from` to `to`, if any; an upward
/// crossing is tested first.
pub open spec fn crossing(from: int, to: int) -> Option<LeverSignal> {
    if from < THRESHOLD && to >= THRESHOLD {
        Some(LeverSignal::LeverUp)
    } else if from > -THRESHOLD && to <= -THRESHOLD {
        Some(LeverSignal::LeverDown)
    } else {
        None
    }
}

/// A lever dragged by the pointer, with a position between full down and full up.
#[derive(Clone, Copy, Debug)]
pub struct Lever {
    sensitivity: i64,
    is_held: bool,
    position: i64,
}

impl Lever {
    pub closed spec fn pos(self) -> int {
        self.position as int
    }

    pub closed spec fn held(self) -> bool {
        self.is_held
    }

    pub closed spec fn sens(self) -> int {
        self.sensitivity as int
    }

    /// The position stays within full deflection.
    pub open spec fn wf(self) -> bool {
        -POSITION_SCALE <= self.pos() <= POSITION_SCALE
    }

    /// A lever at rest in the middle, not held, with the given sensitivity.
    pub fn new(sensitivity: i64) -> (r: Lever)
        ensures
            r.wf(),
            r.pos() == 0,
            !r.held(),
            r.sens() == sensitivity,
    {
        Lever { sensitivity, is_held: false, position: 0 }
    }

    pub fn position(&self) -> (r: i64)
        ensures
            r == self.pos(),
    {
        self.position
    }

    pub fn is_held(&self) -> (r: bool)
        ensures
            r == self.held(),
    {
        self.is_held
    }

    pub fn sensitivity(&self) -> (r: i64)
        ensures
            r == self.sens(),
    {
        self.sensitivity
    }

    /// An event over the lever's hit area: a left press takes hold of the lever.
    pub fn on_area_event(&mut self, event: PointerEvent)
        ensures
            final(self).pos() == old(self).pos(),
            final(self).sens() == old(self).sens(),
            final(self).held() == (old(self).held() || event.is_left_press()),
    {
        if event.left_pressed() && !self.is_held {
            self.is_held = true;
        }
    }

    /// An event anywhere. While held, a motion moves the lever and may cross a
    /// threshold, and a left release lets go; while not held, nothing changes.
    pub fn input(&mut self, event: PointerEvent) -> (r: Option<LeverSignal>)
        requires
            old(self).wf(),
        ensures
            final(self).wf(),
            final(self).sens() == old(self).sens(),
            !old(self).held() ==> final(self).pos() == old(self).pos() && !final(self).held()
                && r == None::<LeverSignal>,
            old(self).held() ==> match event {
                PointerEvent::Motion { dy } => {
                    let p = dragged_position(old(self).pos(), old(self).sens(), dy as int);
                    &&& final(self).pos() == p
                    &&& final(self).held()
                    &&& r == crossing(old(self).pos(), p)
                },
                _ => {
                    &&& final(self).pos() == old(self).pos()
                    &&& final(self).held() == !event.is_left_release()
                    &&& r == None::<LeverSignal>
                },
            },
    {
        if !self.is_held {
            return None;
        }
        match event {
            PointerEvent::Motion { dy } => {
                let s = self.sensitivity as i128;
                let d = dy as i128;
                proof {
                    assert(-0x4000_0000_0000_0000_0000_0000_0000_0000 <= s * d
                        <= 0x4000_0000_0000_0000_0000_0000_0000_0000) by (nonlinear_arith)
                        requires
                            -0x8000_0000_0000_0000 <= s < 0x8000_0000_0000_0000,
                            -0x8000_0000_0000_0000 <= d < 0x8000_0000_0000_0000,
                    ;
                }
                let newpos = clamp_wide(self.position as i128 - s * d, -POSITION_SCALE, POSITION_SCALE);
                let signal = if self.position < THRESHOLD && newpos >= THRESHOLD {
                    Some(LeverSignal::LeverUp)
                } else if self.position > -THRESHOLD && newpos <= -THRESHOLD {
                    Some(LeverSignal::LeverDown)
                } else {
                    None
                };
                self.position = newpos;
                signal
            },
            _ => {
                if event.left_released() {
                    self.is_held = false;
                }
                None
            },
        }
    }
}

} // verus!
