use vstd::prelude::*;

verus! {

/// The background widget of the user interface. It catches the tab key and
/// remembers that the keyboard focus is to move on to the next widget.
pub struct RootWidget {
    focus_next: bool,
}

impl RootWidget {
    /// Whether a move of the focus has been asked for and not picked up yet.
    pub closed spec fn focus_requested(self) -> bool {
        self.focus_next
    }

    /// The widget after an event (see `event`).
    pub closed spec fn after_event(self, key_press: Option<char>) -> RootWidget {
        RootWidget { focus_next: self.focus_next || key_press == Some('\t') }
    }

    /// The widget after a pending focus move has been picked up.
    pub closed spec fn after_focus_taken(self) -> RootWidget {
        RootWidget { focus_next: false }
    }

    /// A root widget with no focus move pending.
    pub fn new() -> (w: RootWidget)
        ensures
            !w.focus_requested(),
    {
        RootWidget { focus_next: false }
    }

    /// Reacts to an event and says whether it was processed. `key_press` is
    /// the character of a key press, or `None` for any other event. The tab
    /// key asks for the focus to move on; everything else is passed on.
    pub fn event(&mut self, key_press: Option<char>) -> (processed: bool)
        ensures
            processed == (key_press == Some('\t')),
            final(self).focus_requested() == (old(self).focus_requested() || processed),
            *final(self) == old(self).after_event(key_press),
    {
        match key_press {
            Some(c) => {
                if c == '\t' {
                    self.focus_next = true;
                    true
                } else {
                    false
                }
            },
            None => false,
        }
    }

    /// Picks up a pending focus move: returns whether one was asked for, and
    /// clears it.
    pub fn focus_next(&mut self) -> (f: bool)
        ensures
            f == old(self).focus_requested(),
            !final(self).focus_requested(),
            *final(self) == old(self).after_focus_taken(),
    {
        let f = self.focus_next;
        self.focus_next = false;
        f
    }
}

impl Default for RootWidget {
    fn default() -> (w: RootWidget)
        ensures
            !w.focus_requested(),
    {
        RootWidget::new()
    }
}

/// A tab press moves the focus exactly once: the next pick-up reports it and
/// the one after does not. Several tab presses before a pick-up count as one.
pub proof fn tab_moves_focus_once(w: RootWidget, other: Option<char>)
    requires
        other != Some('\t'),
    ensures
        w.after_event(Some('\t')).focus_requested(),
        w.after_event(Some('\t')).after_event(Some('\t')) == w.after_event(Some('\t')),
        !w.after_event(Some('\t')).after_focus_taken().focus_requested(),
        w.after_event(other) == w,
{
}

} // verus!
