//! Push buttons and toggle buttons.
//!
//! A button is active while the primary pointer button or the space key is
//! held down on it. Releasing it raises a one-shot `clicked` flag and, on a
//! toggle button, offers the opposite of the shown toggle state in a one-shot
//! slot. The button never flips its shown toggle state by itself: the owner
//! reads the offered state and confirms it with `set_toggle_state`.

use vstd::prelude::*;

use crate::input::PRIMARY_BUTTON;

verus! {

/// An input event as a button sees it.
#[derive(Clone, Copy, PartialEq, Eq, Structural, Debug)]
pub enum ButtonEvent {
    /// The pointer moved over the button.
    PointerMove,
    /// A pointer button, given by its number, went down.
    PointerPress(u32),
    /// A pointer button, given by its number, went up.
    PointerRelease(u32),
    /// A key went down; the character it types, if any.
    KeyPress(Option<char>),
    /// A key went up; the character it types, if any.
    KeyRelease(Option<char>),
    /// Any other event.
    Other,
}

/// The abstract state of a button.
pub struct ButtonState {
    pub text: Seq<char>,
    pub clicked: bool,
    pub active: bool,
    pub toggle_state: Option<bool>,
    pub changed_toggle_state: Option<bool>,
}

pub open spec fn is_space(c: Option<char>) -> bool {
    c == Some(' ')
}

/// An event that holds a button down: the primary pointer button or the space key.
pub open spec fn is_press(ev: ButtonEvent) -> bool {
    ev == ButtonEvent::PointerPress(PRIMARY_BUTTON) || ev == ButtonEvent::KeyPress(Some(' '))
}

/// An event that lets a button go: the primary pointer button or the space key.
pub open spec fn is_release(ev: ButtonEvent) -> bool {
    ev == ButtonEvent::PointerRelease(PRIMARY_BUTTON) || ev == ButtonEvent::KeyRelease(Some(' '))
}

/// Whether a button consumes the event.
pub open spec fn handles(ev: ButtonEvent) -> bool {
    match ev {
        ButtonEvent::PointerMove => true,
        ButtonEvent::PointerPress(b) => b == PRIMARY_BUTTON,
        ButtonEvent::PointerRelease(b) => b == PRIMARY_BUTTON,
        ButtonEvent::KeyPress(c) => is_space(c),
        ButtonEvent::KeyRelease(c) => is_space(c),
        ButtonEvent::Other => false,
    }
}

pub open spec fn opposite(t: Option<bool>) -> Option<bool> {
    match t {
        Some(b) => Some(!b),
        None => None,
    }
}

impl ButtonState {
    /// Held down: active, nothing else changes.
    pub open spec fn pressed(self) -> ButtonState {
        ButtonState { active: true, ..self }
    }

    /// Let go: no longer active, clicked, and the opposite toggle state offered.
    pub open spec fn released(self) -> ButtonState {
        ButtonState {
            clicked: true,
            active: false,
            changed_toggle_state: opposite(self.toggle_state),
            ..self
        }
    }

    /// The state after the event.
    pub open spec fn on_event(self, ev: ButtonEvent) -> ButtonState {
        match ev {
            ButtonEvent::PointerPress(b) => if b == PRIMARY_BUTTON {
                self.pressed()
            } else {
                self
            },
            ButtonEvent::PointerRelease(b) => if b == PRIMARY_BUTTON {
                self.released()
            } else {
                self
            },
            ButtonEvent::KeyPress(c) => if is_space(c) {
                self.pressed()
            } else {
                self
            },
            ButtonEvent::KeyRelease(c) => if is_space(c) {
                self.released()
            } else {
                self
            },
            _ => self,
        }
    }

    /// The state after the `clicked` flag has been read.
    pub open spec fn clicked_read(self) -> ButtonState {
        ButtonState { clicked: false, ..self }
    }

    /// The state after the offered toggle state has been taken.
    pub open spec fn changed_toggle_state_read(self) -> ButtonState {
        ButtonState { changed_toggle_state: None, ..self }
    }

    /// The state after the owner confirmed a toggle state.
    pub open spec fn toggle_state_set(self, new_state: bool) -> ButtonState {
        if self.toggle_state is Some {
            ButtonState { toggle_state: Some(new_state), ..self }
        } else {
            self
        }
    }
}

pub struct Button {
    text: String,
    clicked: bool,
    active: bool,
    toggle_state: Option<bool>,
    changed_toggle_state: Option<bool>,
}

impl View for Button {
    type V = ButtonState;

    closed spec fn view(&self) -> ButtonState {
        ButtonState {
            text: self.text@,
            clicked: self.clicked,
            active: self.active,
            toggle_state: self.toggle_state,
            changed_toggle_state: self.changed_toggle_state,
        }
    }
}

impl Button {
    /// A plain push button with the given label.
    pub fn new(text: &str) -> (b: Button)
        ensures
            b@ == (ButtonState {
                text: text@,
                clicked: false,
                active: false,
                toggle_state: None,
                changed_toggle_state: None,
            }),
    {
        Button {
            text: text.to_owned(),
            clicked: false,
            active: false,
            toggle_state: None,
            changed_toggle_state: None,
        }
    }

    /// A toggle button with the given label, initially off.
    pub fn new_toggle_button(text: &str) -> (b: Button)
        ensures
            b@ == (ButtonState {
                text: text@,
                clicked: false,
                active: false,
                toggle_state: Some(false),
                changed_toggle_state: None,
            }),
    {
        let mut btn = Self::new(text);
        btn.toggle_state = Some(false);
        btn
    }

    pub fn text(&self) -> (r: &str)
        ensures
            r@ == self@.text,
    {
        self.text.as_str()
    }

    /// Whether the button is held down.
    pub fn is_active(&self) -> (r: bool)
        ensures
            r == self@.active,
    {
        self.active
    }

    /// Whether the button was clicked since the last call; clears the flag.
    pub fn clicked(&mut self) -> (r: bool)
        ensures
            r == old(self)@.clicked,
            final(self)@ == old(self)@.clicked_read(),
    {
        let clicked = self.clicked;
        self.clicked = false;
        clicked
    }

    /// The shown toggle state; `None` for a plain push button.
    pub fn toggle_state(&self) -> (r: Option<bool>)
        ensures
            r == self@.toggle_state,
    {
        self.toggle_state
    }

    /// The toggle state offered by the last release, if not taken yet; clears it.
    pub fn changed_toggle_state(&mut self) -> (r: Option<bool>)
        ensures
            r == old(self)@.changed_toggle_state,
            final(self)@ == old(self)@.changed_toggle_state_read(),
    {
        self.changed_toggle_state.take()
    }

    /// Shows the given toggle state; a plain push button stays as it is.
    pub fn set_toggle_state(&mut self, new_state: bool)
        ensures
            final(self)@ == old(self)@.toggle_state_set(new_state),
    {
        if self.toggle_state.is_some() {
            self.toggle_state = Some(new_state);
        }
    }

    fn press(&mut self)
        ensures
            final(self)@ == old(self)@.pressed(),
    {
        self.active = true;
    }

    fn release(&mut self)
        ensures
            final(self)@ == old(self)@.released(),
    {
        self.clicked = true;
        self.active = false;
        self.changed_toggle_state = match self.toggle_state {
            Some(ts) => Some(!ts),
            None => None,
        };
    }

    /// Reacts to an input event; returns whether the button consumed it.
    pub fn event(&mut self, ev: ButtonEvent) -> (processed: bool)
        ensures
            processed == handles(ev),
            final(self)@ == old(self)@.on_event(ev),
    {
        match ev {
            ButtonEvent::PointerMove => true,
            ButtonEvent::PointerPress(b) => {
                if b == PRIMARY_BUTTON {
                    self.press();
                    true
                } else {
                    false
                }
            },
            ButtonEvent::PointerRelease(b) => {
                if b == PRIMARY_BUTTON {
                    self.release();
                    true
                } else {
                    false
                }
            },
            ButtonEvent::KeyPress(c) => {
                if c == Some(' ') {
                    self.press();
                    true
                } else {
                    false
                }
            },
            ButtonEvent::KeyRelease(c) => {
                if c == Some(' ') {
                    self.release();
                    true
                } else {
                    false
                }
            },
            ButtonEvent::Other => false,
        }
    }
}

/// A press, pointer moves, and a release give exactly one click: the button is
/// active from the press until the release and not after it, the first read of
/// `clicked` after the release sees the click, and a second read does not.
pub proof fn lemma_press_release_clicks_once(s: ButtonState, press: ButtonEvent, release: ButtonEvent)
    requires
        !s.active,
        is_press(press),
        is_release(release),
    ensures
        s.on_event(press).active,
        s.on_event(press).on_event(ButtonEvent::PointerMove) == s.on_event(press),
        !s.on_event(press).on_event(release).active,
        s.on_event(press).on_event(release).clicked,
        !s.on_event(press).on_event(release).clicked_read().clicked,
        !s.on_event(press).on_event(release).clicked_read().active,
{
}

/// Releasing a toggle button that shows `false` offers `true`, leaves the shown
/// state alone, and confirming `true` afterwards shows `true`.
pub proof fn lemma_toggle_release_offers_opposite(s: ButtonState, release: ButtonEvent)
    requires
        s.toggle_state == Some(false),
        is_release(release),
    ensures
        s.on_event(release).changed_toggle_state == Some(true),
        s.on_event(release).toggle_state == Some(false),
        s.on_event(release).toggle_state_set(true).toggle_state == Some(true),
{
}

} // verus!
