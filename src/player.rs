use vstd::prelude::*;

use crate::math::{clamp_spec, clamp_wide};

verus! {

/// The narrowest field of view, in thousandths of a degree.
pub const ZOOM_MIN: i64 = 5_000;

/// Default widest field of view, in thousandths of a degree.
pub const DEFAULT_BASE_FOV: i64 = 75_000;

/// Default change of field of view per zoom action, in thousandths of a degree.
pub const DEFAULT_ZOOM_STEP: i64 = 5_000;

/// How the pointer is held by the window.
#[derive(Clone, Copy, Debug, PartialEq, Eq, Structural)]
pub enum CursorMode {
    Free,
    Confined,
    Captured,
}

/// The named actions that one input event triggers.
#[derive(Clone, Copy, Debug, PartialEq, Eq, Structural)]
pub struct PrecisionInput {
    pub precision_pressed: bool,
    pub precision_released: bool,
    pub zoom_in_pressed: bool,
    pub zoom_out_pressed: bool,
}

/// The field of view that a request of `fov` gives under `base_fov`.
pub open spec fn bounded_fov(fov: int, base_fov: int) -> int {
    clamp_spec(fov, ZOOM_MIN as int, base_fov)
}

/// The player's view: a normal mode that looks around with the pointer, and a
/// precision mode that confines the pointer and can zoom.
#[derive(Clone, Copy, Debug)]
pub struct Player {
    fov: i64,
    base_fov: i64,
    zoom_step: i64,
    in_precision_mode: bool,
}

impl Player {
    pub closed spec fn fov_spec(self) -> int {
        self.fov as int
    }

    pub closed spec fn base(self) -> int {
        self.base_fov as int
    }

    pub closed spec fn step(self) -> int {
        self.zoom_step as int
    }

    pub closed spec fn precise(self) -> bool {
        self.in_precision_mode
    }

    /// The field of view lies between the narrowest and the base one.
    pub open spec fn wf(self) -> bool {
        ZOOM_MIN <= self.fov_spec() <= self.base()
    }

    /// The field of view after a zoom by `delta` from `fov`.
    pub open spec fn zoomed(self, fov: int, delta: int) -> int {
        bounded_fov(fov + delta, self.base())
    }

    /// A player in normal mode, at its base field of view.
    pub fn new(base_fov: i64, zoom_step: i64) -> (r: Player)
        requires
            base_fov >= ZOOM_MIN,
        ensures
            r.wf(),
            r.fov_spec() == base_fov,
            r.base() == base_fov,
            r.step() == zoom_step,
            !r.precise(),
    {
        Player { fov: base_fov, base_fov, zoom_step, in_precision_mode: false }
    }

    pub fn fov(&self) -> (r: i64)
        ensures
            r == self.fov_spec(),
    {
        self.fov
    }

    pub fn base_fov(&self) -> (r: i64)
        ensures
            r == self.base(),
    {
        self.base_fov
    }

    pub fn zoom_step(&self) -> (r: i64)
        ensures
            r == self.step(),
    {
        self.zoom_step
    }

    /// Whether precision mode is on; outside it the pointer turns the view.
    pub fn in_precision_mode(&self) -> (r: bool)
        ensures
            r == self.precise(),
    {
        self.in_precision_mode
    }

    /// Sets the field of view, bounded to the narrowest and the base one.
    pub fn set_fov(&mut self, fov: i64)
        requires
            old(self).wf(),
        ensures
            final(self).wf(),
            final(self).fov_spec() == bounded_fov(fov as int, old(self).base()),
            ZOOM_MIN <= final(self).fov_spec() <= old(self).base(),
            final(self).base() == old(self).base(),
            final(self).step() == old(self).step(),
            final(self).precise() == old(self).precise(),
    {
        self.fov = clamp_wide(fov as i128, ZOOM_MIN, self.base_fov);
    }

    /// Narrows the field of view by one zoom step.
    pub fn zoom_in(&mut self)
        requires
            old(self).wf(),
        ensures
            final(self).wf(),
            final(self).fov_spec() == old(self).zoomed(old(self).fov_spec(), -old(self).step()),
            final(self).base() == old(self).base(),
            final(self).step() == old(self).step(),
            final(self).precise() == old(self).precise(),
    {
        self.fov = clamp_wide(self.fov as i128 - self.zoom_step as i128, ZOOM_MIN, self.base_fov);
    }

    /// Widens the field of view by one zoom step.
    pub fn zoom_out(&mut self)
        requires
            old(self).wf(),
        ensures
            final(self).wf(),
            final(self).fov_spec() == old(self).zoomed(old(self).fov_spec(), old(self).step()),
            final(self).base() == old(self).base(),
            final(self).step() == old(self).step(),
            final(self).precise() == old(self).precise(),
    {
        self.fov = clamp_wide(self.fov as i128 + self.zoom_step as i128, ZOOM_MIN, self.base_fov);
    }

    /// Turns precision mode on; the pointer is to be confined to the window.
    pub fn enter_precision_mode(&mut self) -> (r: CursorMode)
        ensures
            final(self).precise(),
            final(self).fov_spec() == old(self).fov_spec(),
            final(self).base() == old(self).base(),
            final(self).step() == old(self).step(),
            r == CursorMode::Confined,
    {
        self.in_precision_mode = true;
        CursorMode::Confined
    }

    /// Turns precision mode off and restores the base field of view; the
    /// pointer is to be captured again.
    pub fn exit_precision_mode(&mut self) -> (r: CursorMode)
        requires
            old(self).wf(),
        ensures
            final(self).wf(),
            !final(self).precise(),
            final(self).fov_spec() == old(self).base(),
            final(self).base() == old(self).base(),
            final(self).step() == old(self).step(),
            r == CursorMode::Captured,
    {
        self.in_precision_mode = false;
        let base = self.base_fov;
        self.set_fov(base);
        CursorMode::Captured
    }

    /// One input event: the precision action turns the mode on when pressed
    /// and off when released; then, in precision mode, zoom in takes
    /// precedence over zoom out. Returns the cursor mode to set, if it changes.
    pub fn handle_precision_mode(&mut self, a: PrecisionInput) -> (r: Option<CursorMode>)
        requires
            old(self).wf(),
        ensures
            final(self).wf(),
            final(self).base() == old(self).base(),
            final(self).step() == old(self).step(),
            ({
                let entered = a.precision_pressed && !old(self).precise();
                let exited = !entered && a.precision_released && old(self).precise();
                let precise = if entered { true } else if exited { false } else { old(self).precise() };
                let fov = if exited { old(self).base() } else { old(self).fov_spec() };
                &&& final(self).precise() == precise
                &&& final(self).fov_spec() == if !precise {
                    fov
                } else if a.zoom_in_pressed {
                    old(self).zoomed(fov, -old(self).step())
                } else if a.zoom_out_pressed {
                    old(self).zoomed(fov, old(self).step())
                } else {
                    fov
                }
                &&& r == if entered {
                    Some(CursorMode::Confined)
                } else if exited {
                    Some(CursorMode::Captured)
                } else {
                    None
                }
            }),
    {
        let mut change: Option<CursorMode> = None;
        if a.precision_pressed && !self.in_precision_mode {
            change = Some(self.enter_precision_mode());
        } else if a.precision_released && self.in_precision_mode {
            change = Some(self.exit_precision_mode());
        }
        if !self.in_precision_mode {
            return change;
        }
        if a.zoom_in_pressed {
            self.zoom_in();
        } else if a.zoom_out_pressed {
            self.zoom_out();
        }
        change
    }
}

/// Whatever field of view is asked for, the one set lies between the
/// narrowest and the base one, and asking for the base one gives it exactly.
pub proof fn lemma_fov_bounded(base_fov: int, requested: int)
    requires
        base_fov >= ZOOM_MIN,
    ensures
        ZOOM_MIN <= bounded_fov(requested, base_fov) <= base_fov,
        bounded_fov(base_fov, base_fov) == base_fov,
{
}

} // verus!
