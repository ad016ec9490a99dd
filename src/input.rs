use vstd::prelude::*;

verus! {

/// A pointer event as the controllers see it.
#[derive(Clone, Copy, Debug, PartialEq, Eq, Structural)]
pub enum PointerEvent {
    /// A pointer button changed state; `left` tells whether it is the left button.
    Button { left: bool, pressed: bool },
    /// The pointer moved; `dy` is the vertical motion in thousandths of a pixel,
    /// positive downward.
    Motion { dy: i64 },
    /// Any other input.
    Other,
}

impl PointerEvent {
    pub open spec fn is_left_press(self) -> bool {
        self == (PointerEvent::Button { left: true, pressed: true })
    }

    pub open spec fn is_left_release(self) -> bool {
        self == (PointerEvent::Button { left: true, pressed: false })
    }

    /// Whether this is a press of the left button.
    pub fn left_pressed(&self) -> (r: bool)
        ensures
            r == self.is_left_press(),
    {
        match self {
            PointerEvent::Button { left, pressed } => *left && *pressed,
            _ => false,
        }
    }

    /// Whether this is a release of the left button.
    pub fn left_released(&self) -> (r: bool)
        ensures
            r == self.is_left_release(),
    {
        match self {
            PointerEvent::Button { left, pressed } => *left && !*pressed,
            _ => false,
        }
    }
}

} // verus!
