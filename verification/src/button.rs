use vstd::prelude::*;

verus! {

/// The events that a button reacts to, reduced to what it looks at.
#[derive(Clone, Copy, PartialEq, Eq, Debug)]
pub enum ButtonEvent {
    /// The pointer moved over the button.
    MouseMove,
    /// A mouse button was released over the button.
    MouseButtonRelease,
    /// A key was released; the character it produced, if any.
    KeyRelease(Option<char>),
    /// Any other event.
    Other,
}

/// A push button or a toggle button with a text label.
///
/// A toggle button does not flip its own state when clicked: it reports the
/// state that it asks for, and takes a state only when it is set from outside
/// (by the host echoing the port value back).
pub struct Button {
    text: String,
    min_width: i32,
    min_height: i32,
    clicked: bool,
    toggle_state: Option<bool>,
    changed_toggle_state: Option<bool>,
}

impl Button {
    /// The label.
    pub closed spec fn label(self) -> Seq<char> {
        self.text@
    }

    /// The minimum size (width, height) in pixels.
    pub closed spec fn min_extent(self) -> (i32, i32) {
        (self.min_width, self.min_height)
    }

    /// Whether the button has ever been clicked.
    pub closed spec fn was_clicked(self) -> bool {
        self.clicked
    }

    /// `None` for a push button; the state shown, for a toggle button.
    pub closed spec fn toggle(self) -> Option<bool> {
        self.toggle_state
    }

    /// The state that a click has asked for and that nobody has picked up yet.
    pub closed spec fn pending_toggle(self) -> Option<bool> {
        self.changed_toggle_state
    }

    /// The button after a click: it remembers the click, and a toggle button
    /// asks for the opposite of the state it shows.
    pub closed spec fn clicked_by_mouse(self) -> Button {
        Button {
            text: self.text,
            min_width: self.min_width,
            min_height: self.min_height,
            clicked: true,
            toggle_state: self.toggle_state,
            changed_toggle_state: match self.toggle_state {
                Some(s) => Some(!s),
                None => None,
            },
        }
    }

    /// The button after the state asked for has been picked up.
    pub closed spec fn without_pending(self) -> Button {
        Button {
            text: self.text,
            min_width: self.min_width,
            min_height: self.min_height,
            clicked: self.clicked,
            toggle_state: self.toggle_state,
            changed_toggle_state: None,
        }
    }

    /// The button after its state has been set from outside.
    pub closed spec fn with_toggle_state(self, new_state: bool) -> Button {
        Button {
            text: self.text,
            min_width: self.min_width,
            min_height: self.min_height,
            clicked: self.clicked,
            toggle_state: match self.toggle_state {
                Some(_) => Some(new_state),
                None => None,
            },
            changed_toggle_state: self.changed_toggle_state,
        }
    }

    /// A push button with the label `text`, whose label measures
    /// `min_width` by `min_height` pixels.
    pub fn new(text: &str, min_width: i32, min_height: i32) -> (b: Box<Button>)
        ensures
            b.label() == text@,
            b.min_extent() == (min_width, min_height),
            !b.was_clicked(),
            b.toggle() is None,
            b.pending_toggle() is None,
    {
        Box::new(
            Button {
                text: text.to_owned(),
                min_width,
                min_height,
                clicked: false,
                toggle_state: None,
                changed_toggle_state: None,
            },
        )
    }

    /// A toggle button with the label `text`, in state `toggle_state`.
    pub fn new_toggle_button(text: &str, toggle_state: bool, min_width: i32, min_height: i32) -> (b:
        Box<Button>)
        ensures
            b.label() == text@,
            b.min_extent() == (min_width, min_height),
            !b.was_clicked(),
            b.toggle() == Some(toggle_state),
            b.pending_toggle() is None,
    {
        let mut btn = Self::new(text, min_width, min_height);
        btn.toggle_state = Some(toggle_state);
        btn
    }

    /// The label.
    pub fn text(&self) -> (t: &str)
        ensures
            t@ == self.label(),
    {
        self.text.as_str()
    }

    /// The minimum size (width, height) in pixels.
    pub fn min_size(&self) -> (s: (i32, i32))
        ensures
            s == self.min_extent(),
    {
        (self.min_width, self.min_height)
    }

    /// Whether the button is drawn lit: a toggle button that is on.
    pub fn is_lit(&self) -> (b: bool)
        ensures
            b == (self.toggle() == Some(true)),
    {
        match self.toggle_state {
            Some(s) => s,
            None => false,
        }
    }

    /// A button takes the keyboard focus.
    pub fn takes_focus(&self) -> (b: bool)
        ensures
            b,
    {
        true
    }

    /// Reacts to an event and says whether it was processed. Releasing a
    /// mouse button clicks the button: a toggle button then asks for the
    /// opposite of its state. Pointer motion and the space key are processed
    /// without effect; everything else is passed on.
    pub fn event(&mut self, ev: ButtonEvent) -> (processed: bool)
        ensures
            processed == match ev {
                ButtonEvent::MouseMove => true,
                ButtonEvent::MouseButtonRelease => true,
                ButtonEvent::KeyRelease(c) => c == Some(' '),
                ButtonEvent::Other => false,
            },
            final(self).label() == old(self).label(),
            final(self).min_extent() == old(self).min_extent(),
            final(self).toggle() == old(self).toggle(),
            ev == ButtonEvent::MouseButtonRelease ==> *final(self) == old(self).clicked_by_mouse(),
            ev != ButtonEvent::MouseButtonRelease ==> *final(self) == *old(self),
            ev == ButtonEvent::MouseButtonRelease ==> final(self).was_clicked(),
            ev == ButtonEvent::MouseButtonRelease ==> final(self).pending_toggle() == match old(self).toggle() {
                Some(s) => Some(!s),
                None => None,
            },
            ev != ButtonEvent::MouseButtonRelease ==> final(self).was_clicked() == old(self).was_clicked(),
            ev != ButtonEvent::MouseButtonRelease ==> final(self).pending_toggle() == old(self).pending_toggle(),
    {
        match ev {
            ButtonEvent::MouseMove => true,
            ButtonEvent::MouseButtonRelease => {
                self.clicked = true;
                self.changed_toggle_state =
                    match self.toggle_state {
                        Some(ts) => Some(!ts),
                        None => None,
                    };
                true
            },
            ButtonEvent::KeyRelease(c) => {
                match c {
                    Some(ch) => ch == ' ',
                    None => false,
                }
            },
            ButtonEvent::Other => false,
        }
    }

    /// Picks up the state that a click has asked for, if any; a second call
    /// returns `None` until the next click.
    pub fn changed_toggle_state(&mut self) -> (c: Option<bool>)
        ensures
            c == old(self).pending_toggle(),
            *final(self) == old(self).without_pending(),
            final(self).pending_toggle() is None,
            final(self).toggle() == old(self).toggle(),
            final(self).was_clicked() == old(self).was_clicked(),
            final(self).label() == old(self).label(),
            final(self).min_extent() == old(self).min_extent(),
    {
        self.changed_toggle_state.take()
    }

    /// Sets the state of a toggle button; a push button stays a push button.
    pub fn set_toggle_state(&mut self, new_state: bool)
        ensures
            *final(self) == old(self).with_toggle_state(new_state),
            final(self).toggle() == if old(self).toggle() is Some {
                Some(new_state)
            } else {
                None
            },
            final(self).pending_toggle() == old(self).pending_toggle(),
            final(self).was_clicked() == old(self).was_clicked(),
            final(self).label() == old(self).label(),
            final(self).min_extent() == old(self).min_extent(),
    {
        if self.toggle_state.is_some() {
            self.toggle_state = Some(new_state)
        }
    }
}

/// The toggle cycle: a click on a toggle button asks for the opposite of its
/// state, and once that request is picked up and echoed back through
/// `set_toggle_state`, the button shows the opposite state and has nothing
/// pending. The click itself does not change the state shown.
pub proof fn toggle_round_trip(b: Button, s: bool)
    requires
        b.toggle() == Some(s),
    ensures
        b.clicked_by_mouse().toggle() == Some(s),
        b.clicked_by_mouse().pending_toggle() == Some(!s),
        b.clicked_by_mouse().without_pending().with_toggle_state(!s).toggle() == Some(!s),
        b.clicked_by_mouse().without_pending().with_toggle_state(!s).pending_toggle() is None,
{
}

/// A push button never becomes a toggle button and never asks for a state.
pub proof fn push_button_stays_push_button(b: Button, new_state: bool)
    requires
        b.toggle() is None,
    ensures
        b.clicked_by_mouse().toggle() is None,
        b.clicked_by_mouse().pending_toggle() is None,
        b.with_toggle_state(new_state).toggle() is None,
{
}

/// A request is picked up once: picking up again finds nothing.
pub proof fn pending_state_is_taken_once(b: Button)
    ensures
        b.without_pending().pending_toggle() is None,
        b.without_pending().without_pending() == b.without_pending(),
{
}

/// Setting the state from outside does not touch a pending request, so a
/// click that has not been picked up yet is not lost.
pub proof fn set_state_keeps_pending_request(b: Button, new_state: bool)
    ensures
        b.with_toggle_state(new_state).pending_toggle() == b.pending_toggle(),
{
}

} // verus!
