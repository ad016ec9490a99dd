use vstd::prelude::*;

use crate::input::PointerEvent;

verus! {

/// A notification that the button sends to its listeners.
#[derive(Clone, Copy, Debug, PartialEq, Eq, Structural)]
pub enum ButtonSignal {
    ButtonPressed,
    ButtonReleased,
}

/// The animation that the button asks its animation player to run.
#[derive(Clone, Copy, Debug, PartialEq, Eq, Structural)]
pub enum AnimationCue {
    Press,
    Release,
}

/// What one transition of the button asks of the outside: one notification and one animation.
#[derive(Clone, Copy, Debug, PartialEq, Eq, Structural)]
pub struct ButtonEffect {
    pub signal: ButtonSignal,
    pub cue: AnimationCue,
}

/// The effect of `press`. The notification is the one named for the opposite
/// transition, as listeners of this button have always received it.
pub open spec fn press_effect() -> ButtonEffect {
    ButtonEffect { signal: ButtonSignal::ButtonReleased, cue: AnimationCue::Press }
}

/// The effect of `release`, paired with `press_effect` in the same way.
pub open spec fn release_effect() -> ButtonEffect {
    ButtonEffect { signal: ButtonSignal::ButtonPressed, cue: AnimationCue::Release }
}

/// What a button holds: whether it is a toggle, and whether it is pressed.
#[derive(Clone, Copy, Debug, PartialEq, Eq, Structural)]
pub struct ButtonState {
    pub is_toggle: bool,
    pub is_pressed: bool,
}

impl ButtonState {
    /// The state after `press`.
    pub open spec fn pressed_state(self) -> ButtonState {
        ButtonState { is_pressed: true, ..self }
    }

    /// The state after `release`.
    pub open spec fn released_state(self) -> ButtonState {
        ButtonState { is_pressed: false, ..self }
    }

    /// The state after an event over the hit area.
    pub open spec fn after_hitbox(self, e: PointerEvent) -> ButtonState {
        if !e.is_left_press() {
            self
        } else if self.is_toggle && self.is_pressed {
            self.released_state()
        } else {
            self.pressed_state()
        }
    }

    /// The effect of an event over the hit area.
    pub open spec fn hitbox_effect(self, e: PointerEvent) -> Option<ButtonEffect> {
        if !e.is_left_press() {
            None
        } else if self.is_toggle && self.is_pressed {
            Some(release_effect())
        } else if !self.is_pressed {
            Some(press_effect())
        } else {
            None
        }
    }

    /// Whether an event anywhere lets go of the button.
    pub open spec fn lets_go(self, e: PointerEvent) -> bool {
        e.is_left_release() && self.is_pressed && !self.is_toggle
    }
}

/// A button that is either momentary or a toggle.
#[derive(Clone, Copy, Debug, PartialEq, Eq)]
pub struct PushButton {
    toggle: bool,
    is_pressed: bool,
}

impl View for PushButton {
    type V = ButtonState;

    closed spec fn view(&self) -> ButtonState {
        ButtonState { is_toggle: self.toggle, is_pressed: self.is_pressed }
    }
}

impl PushButton {
    /// A released button, toggle or momentary as asked.
    pub fn new(toggle: bool) -> (r: PushButton)
        ensures
            r@ == (ButtonState { is_toggle: toggle, is_pressed: false }),
    {
        PushButton { toggle, is_pressed: false }
    }

    pub fn is_toggle(&self) -> (r: bool)
        ensures
            r == self@.is_toggle,
    {
        self.toggle
    }

    pub fn is_pressed(&self) -> (r: bool)
        ensures
            r == self@.is_pressed,
    {
        self.is_pressed
    }

    /// Presses the button; the caller sends the returned notification and plays the cue.
    pub fn press(&mut self) -> (r: ButtonEffect)
        ensures
            final(self)@ == old(self)@.pressed_state(),
            r == press_effect(),
    {
        self.is_pressed = true;
        ButtonEffect { signal: ButtonSignal::ButtonReleased, cue: AnimationCue::Press }
    }

    /// Releases the button; the caller sends the returned notification and plays the cue.
    pub fn release(&mut self) -> (r: ButtonEffect)
        ensures
            final(self)@ == old(self)@.released_state(),
            r == release_effect(),
    {
        self.is_pressed = false;
        ButtonEffect { signal: ButtonSignal::ButtonPressed, cue: AnimationCue::Release }
    }

    /// An event over the button's hit area. A left press flips a toggle button
    /// and presses a released momentary one; every other event changes nothing.
    pub fn on_hitbox_event(&mut self, event: PointerEvent) -> (r: Option<ButtonEffect>)
        ensures
            final(self)@ == old(self)@.after_hitbox(event),
            r == old(self)@.hitbox_effect(event),
    {
        if event.left_pressed() {
            if self.toggle {
                if self.is_pressed {
                    return Some(self.release());
                } else {
                    return Some(self.press());
                }
            } else if !self.is_pressed {
                return Some(self.press());
            }
        }
        None
    }

    /// An event anywhere. A left release lets go of a pressed momentary button,
    /// even when the pointer has left the hit area; every other event changes nothing.
    pub fn input(&mut self, event: PointerEvent) -> (r: Option<ButtonEffect>)
        ensures
            old(self)@.lets_go(event) ==> final(self)@ == old(self)@.released_state()
                && r == Some(release_effect()),
            !old(self)@.lets_go(event) ==> final(self)@ == old(self)@ && r == None::<ButtonEffect>,
    {
        if event.left_released() && self.is_pressed && !self.toggle {
            Some(self.release())
        } else {
            None
        }
    }
}

/// Releasing a released button leaves it as it was, and releasing twice is
/// releasing once; each release still sends its own notification.
pub proof fn lemma_release_idempotent(b: ButtonState)
    ensures
        !b.is_pressed ==> b.released_state() == b,
        b.released_state().released_state() == b.released_state(),
{
}

/// On a toggle button, a left press over the hit area flips it and a second
/// one flips it back; any other event leaves it as it was.
pub proof fn lemma_toggle_round_trip(b: ButtonState, e: PointerEvent)
    requires
        b.is_toggle,
    ensures
        e.is_left_press() ==> b.after_hitbox(e).is_pressed == !b.is_pressed,
        e.is_left_press() ==> b.after_hitbox(e).after_hitbox(e) == b,
        !e.is_left_press() ==> b.after_hitbox(e) == b,
{
}

} // verus!
