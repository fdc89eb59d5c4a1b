use vstd::prelude::*;

verus! {

/// The URIDs of the two message types that the user interface sends to the
/// plugin: it has opened, or it is closing.
#[derive(Clone, Copy, PartialEq, Eq, Debug)]
pub struct UiUrids {
    pub ui_on: u32,
    pub ui_off: u32,
}

impl UiUrids {
    /// The message type that the user interface sends when it opens
    /// (`open`) or closes.
    pub open spec fn state_message(self, open: bool) -> u32 {
        if open {
            self.ui_on
        } else {
            self.ui_off
        }
    }

    /// The type of the message that tells the plugin that the user interface
    /// has opened (`open`) or is closing.
    pub fn ui_state_message(&self, open: bool) -> (otype: u32)
        ensures
            otype == self.state_message(open),
    {
        if open {
            self.ui_on
        } else {
            self.ui_off
        }
    }
}

/// What a single control message does to the user interface's state: an
/// object message of type `ui_on` opens it, one of type `ui_off` closes it,
/// and every other message (`None` stands for a message that is no object)
/// leaves it as it was. The `ui_on` test comes first.
pub open spec fn ui_active_after_message(active: bool, message: Option<u32>, urids: UiUrids) -> bool {
    if message == Some(urids.ui_on) {
        true
    } else if message == Some(urids.ui_off) {
        false
    } else {
        active
    }
}

/// The state of the user interface after a sequence of control messages:
/// the last message that opens or closes it decides; when there is none,
/// the state is unchanged.
pub open spec fn ui_active_after(active: bool, messages: Seq<Option<u32>>, urids: UiUrids) -> bool
    decreases messages.len(),
{
    if messages.len() == 0 {
        active
    } else {
        ui_active_after_message(
            ui_active_after(active, messages.drop_last(), urids),
            messages.last(),
            urids,
        )
    }
}

/// The control state `(ui open, sample rate sent)` after one processing
/// cycle with the given control messages.
pub open spec fn after_cycle(state: (bool, bool), messages: Seq<Option<u32>>, urids: UiUrids) -> (
    bool,
    bool,
) {
    let active = ui_active_after(state.0, messages, urids);
    (active, state.1 || active)
}

/// Whether a processing cycle with the given control messages sends the
/// sample rate to the user interface.
pub open spec fn cycle_sends(state: (bool, bool), messages: Seq<Option<u32>>, urids: UiUrids) -> bool {
    ui_active_after(state.0, messages, urids) && !state.1
}

/// The control state after a sequence of processing cycles, each with its
/// own control messages.
pub open spec fn after_cycles(
    state: (bool, bool),
    cycles: Seq<Seq<Option<u32>>>,
    urids: UiUrids,
) -> (bool, bool)
    decreases cycles.len(),
{
    if cycles.len() == 0 {
        state
    } else {
        after_cycle(after_cycles(state, cycles.drop_last(), urids), cycles.last(), urids)
    }
}

/// How many of a sequence of processing cycles send the sample rate.
pub open spec fn notifications_sent(
    state: (bool, bool),
    cycles: Seq<Seq<Option<u32>>>,
    urids: UiUrids,
) -> nat
    decreases cycles.len(),
{
    if cycles.len() == 0 {
        0
    } else {
        notifications_sent(state, cycles.drop_last(), urids) + if cycle_sends(
            after_cycles(state, cycles.drop_last(), urids),
            cycles.last(),
            urids,
        ) {
            1nat
        } else {
            0nat
        }
    }
}

/// The handshake: the message that the user interface sends when it opens
/// makes the plugin consider it open, and the one it sends when it closes
/// makes the plugin consider it closed, whatever the plugin thought before.
/// This needs the two message types to be different URIDs.
pub proof fn ui_messages_set_plugin_state(active: bool, open: bool, urids: UiUrids)
    requires
        urids.ui_on != urids.ui_off,
    ensures
        ui_active_after_message(active, Some(urids.state_message(open)), urids) == open,
        ui_active_after(active, seq![Some(urids.state_message(open))], urids) == open,
{
    assert(seq![Some(urids.state_message(open))].drop_last() =~= Seq::<Option<u32>>::empty());
}

/// One message: `ui_on` opens the user interface, `ui_off` closes it (when it
/// is a different URID), and any other message, object or not, leaves the
/// state as it was. Handling one message is the same as handling the batch
/// that holds only it.
pub proof fn single_message_effect(active: bool, message: Option<u32>, urids: UiUrids)
    ensures
        message == Some(urids.ui_on) ==> ui_active_after_message(active, message, urids),
        message == Some(urids.ui_off) && urids.ui_off != urids.ui_on ==> !ui_active_after_message(
            active,
            message,
            urids,
        ),
        message != Some(urids.ui_on) && message != Some(urids.ui_off) ==> ui_active_after_message(
            active,
            message,
            urids,
        ) == active,
        ui_active_after(active, seq![message], urids) == ui_active_after_message(
            active,
            message,
            urids,
        ),
        message != Some(urids.ui_on) && message != Some(urids.ui_off) ==> ui_active_after(
            active,
            seq![message],
            urids,
        ) == active,
{
    let batch = seq![message];
    assert(batch.drop_last() =~= Seq::<Option<u32>>::empty());
    assert(ui_active_after(active, batch.drop_last(), urids) == active);
    assert(batch.last() == message);
    assert(ui_active_after(active, batch, urids) == ui_active_after_message(
        ui_active_after(active, batch.drop_last(), urids),
        batch.last(),
        urids,
    ));
}

/// Control messages may be split across processing cycles in any way: the
/// user interface's state after two batches is that after their
/// concatenation.
pub proof fn messages_split_across_cycles(
    active: bool,
    first: Seq<Option<u32>>,
    second: Seq<Option<u32>>,
    urids: UiUrids,
)
    ensures
        ui_active_after(active, first + second, urids) == ui_active_after(
            ui_active_after(active, first, urids),
            second,
            urids,
        ),
    decreases second.len(),
{
    if second.len() == 0 {
        assert(first + second =~= first);
    } else {
        assert((first + second).drop_last() =~= first + second.drop_last());
        assert((first + second).last() == second.last());
        messages_split_across_cycles(active, first, second.drop_last(), urids);
    }
}

/// Messages that neither open nor close the user interface leave its state
/// as it was.
pub proof fn other_messages_change_nothing(
    active: bool,
    messages: Seq<Option<u32>>,
    urids: UiUrids,
)
    requires
        forall|k: int|
            0 <= k < messages.len() ==> messages[k] != Some(urids.ui_on) && messages[k] != Some(
                urids.ui_off,
            ),
    ensures
        ui_active_after(active, messages, urids) == active,
    decreases messages.len(),
{
    if messages.len() > 0 {
        let rest = messages.drop_last();
        assert forall|k: int| 0 <= k < rest.len() implies rest[k] != Some(urids.ui_on)
            && rest[k] != Some(urids.ui_off) by {
            assert(rest[k] == messages[k]);
        }
        assert(messages.last() == messages[messages.len() - 1]);
        other_messages_change_nothing(active, rest, urids);
    }
}

/// The last message that opens or closes the user interface decides its
/// state, whatever came before it.
pub proof fn last_switch_decides(
    active: bool,
    before: Seq<Option<u32>>,
    switch: Option<u32>,
    after: Seq<Option<u32>>,
    urids: UiUrids,
)
    requires
        switch == Some(urids.ui_on) || switch == Some(urids.ui_off),
        forall|k: int|
            0 <= k < after.len() ==> after[k] != Some(urids.ui_on) && after[k] != Some(
                urids.ui_off,
            ),
    ensures
        ui_active_after(active, before + seq![switch] + after, urids) == (switch == Some(
            urids.ui_on,
        )),
{
    messages_split_across_cycles(active, before + seq![switch], after, urids);
    messages_split_across_cycles(active, before, seq![switch], urids);
    assert(seq![switch].drop_last() =~= Seq::<Option<u32>>::empty());
    other_messages_change_nothing(
        ui_active_after(active, before + seq![switch], urids),
        after,
        urids,
    );
}

/// Over any sequence of processing cycles, the sample rate is sent at most
/// once: exactly once when the user interface has been open at the end of
/// some cycle and nothing had been sent before, and never again after that,
/// even when the interface closes and opens again.
pub proof fn sample_rate_sent_at_most_once(
    state: (bool, bool),
    cycles: Seq<Seq<Option<u32>>>,
    urids: UiUrids,
)
    ensures
        state.1 ==> after_cycles(state, cycles, urids).1,
        notifications_sent(state, cycles, urids) == if after_cycles(state, cycles, urids).1
            && !state.1 {
            1nat
        } else {
            0nat
        },
        notifications_sent(state, cycles, urids) <= 1,
    decreases cycles.len(),
{
    if cycles.len() > 0 {
        sample_rate_sent_at_most_once(state, cycles.drop_last(), urids);
    }
}

/// The control state of the amplifier: whether its user interface is open,
/// and whether the interface has already been told the sample rate.
pub struct Amp {
    ui_active: bool,
    ui_notified: bool,
}

impl Amp {
    /// Whether the plugin considers its user interface open.
    pub closed spec fn active(self) -> bool {
        self.ui_active
    }

    /// Whether the sample rate has been sent to the user interface.
    pub closed spec fn notified(self) -> bool {
        self.ui_notified
    }

    /// A fresh plugin: no user interface open, nothing sent yet.
    pub fn new() -> (a: Amp)
        ensures
            !a.active(),
            !a.notified(),
    {
        Amp { ui_active: false, ui_notified: false }
    }

    /// Whether the plugin considers its user interface open.
    pub fn is_ui_active(&self) -> (b: bool)
        ensures
            b == self.active(),
    {
        self.ui_active
    }

    /// Whether the sample rate has been sent to the user interface.
    pub fn is_ui_notified(&self) -> (b: bool)
        ensures
            b == self.notified(),
    {
        self.ui_notified
    }

    /// Handles one control message; `message` is the type of an object
    /// message, or `None` for any other message.
    pub fn handle_message(&mut self, message: Option<u32>, urids: UiUrids)
        ensures
            final(self).active() == ui_active_after_message(old(self).active(), message, urids),
            message == Some(urids.ui_on) ==> final(self).active(),
            message == Some(urids.ui_off) && urids.ui_off != urids.ui_on ==> !final(self).active(),
            message != Some(urids.ui_on) && message != Some(urids.ui_off) ==> final(self).active()
                == old(self).active(),
            final(self).notified() == old(self).notified(),
    {
        match message {
            Some(otype) => {
                if otype == urids.ui_on {
                    self.ui_active = true;
                } else if otype == urids.ui_off {
                    self.ui_active = false;
                }
            },
            None => {},
        }
    }

    /// Handles the control messages of one processing cycle, in order.
    pub fn handle_messages(&mut self, messages: &Vec<Option<u32>>, urids: UiUrids)
        ensures
            final(self).active() == ui_active_after(old(self).active(), messages@, urids),
            final(self).notified() == old(self).notified(),
    {
        let n = messages.len();
        let mut i: usize = 0;
        while i < n
            invariant
                n == messages.len(),
                i <= n,
                self.active() == ui_active_after(old(self).active(), messages@.take(i as int), urids),
                self.notified() == old(self).notified(),
            decreases n - i,
        {
            assert(messages@.take(i + 1).drop_last() =~= messages@.take(i as int));
            self.handle_message(messages[i], urids);
            i = i + 1;
        }
        assert(messages@.take(n as int) =~= messages@);
    }

    /// Decides whether the sample rate is to be sent to the user interface
    /// now: it is when the interface is open and has not been told yet.
    /// Once sent, it is never sent again.
    pub fn claim_notification(&mut self) -> (send: bool)
        ensures
            send == (old(self).active() && !old(self).notified()),
            final(self).active() == old(self).active(),
            final(self).notified() == (old(self).notified() || old(self).active()),
    {
        if self.ui_active && !self.ui_notified {
            self.ui_notified = true;
            true
        } else {
            false
        }
    }

    /// The control part of one processing cycle: handles the cycle's control
    /// messages, then says whether the sample rate is to be sent to the user
    /// interface in this cycle.
    pub fn run(&mut self, messages: &Vec<Option<u32>>, urids: UiUrids) -> (send: bool)
        ensures
            (final(self).active(), final(self).notified()) == after_cycle(
                (old(self).active(), old(self).notified()),
                messages@,
                urids,
            ),
            send == cycle_sends((old(self).active(), old(self).notified()), messages@, urids),
            final(self).active() == ui_active_after(old(self).active(), messages@, urids),
            send == (final(self).active() && !old(self).notified()),
            final(self).notified() == (old(self).notified() || final(self).active()),
    {
        self.handle_messages(messages, urids);
        self.claim_notification()
    }
}

} // verus!
