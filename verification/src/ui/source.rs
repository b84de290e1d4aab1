//! The event source: what to ask of the transport, and what a received
//! command means.
//!
//! The transport itself is not reached from here. Its owner asks
//! [`next_action`] what to do, does it, and hands each command that it
//! receives to [`receive`].

use vstd::prelude::*;
use crate::ui::buttons::{classify, get_button_event, held_after, ButtonsState, Event};

verus! {

/// The tag of a command that reports the buttons.
pub const BUTTON_PUSH_TAG: u8 = 0x05;

/// What the event source asks of the transport next.
#[derive(Clone, Copy, Debug, PartialEq, Eq)]
pub enum SourceAction {
    /// Tell the host that the device is ready.
    SendStatus,
    /// Wait for one command.
    Receive,
    /// Nothing is outstanding: give up without an event.
    GiveUp,
}

/// What a received command was.
#[derive(Clone, Copy, Debug, PartialEq, Eq)]
pub enum Delivery {
    /// Not a report of the buttons: the source goes on waiting.
    Ignored,
    /// A report of the buttons, with the event that it means, if any. The
    /// source returns it at once, also where it is `None`.
    Button(Option<Event>),
}

/// The action that follows from whether a status is outstanding. At the
/// `first` question of a call a missing status is sent; later a missing
/// status ends the call.
pub open spec fn spec_next_action(first: bool, status_sent: bool) -> SourceAction {
    if status_sent {
        SourceAction::Receive
    } else if first {
        SourceAction::SendStatus
    } else {
        SourceAction::GiveUp
    }
}

/// Whether the command reports the buttons.
pub open spec fn is_button_push(command: [u8; 4]) -> bool {
    command[0] == BUTTON_PUSH_TAG
}

/// The levels of the two buttons in a command that reports them: bits 1 and
/// 2 of its last byte.
pub open spec fn button_levels(command: [u8; 4]) -> u8 {
    (command[3] >> 1) & 3
}

/// What `command` is when `held` is the mask of the buttons held so far.
pub open spec fn spec_receive(held: u8, command: [u8; 4]) -> Delivery {
    if is_button_push(command) {
        Delivery::Button(classify(held, button_levels(command)))
    } else {
        Delivery::Ignored
    }
}

/// The mask of the buttons held once `command` was received.
pub open spec fn held_after_command(held: u8, command: [u8; 4]) -> u8 {
    if is_button_push(command) {
        held_after(held, button_levels(command))
    } else {
        held
    }
}

/// Decides what to ask of the transport. `first` is true for the first
/// question of a call of the event source, `status_sent` is what the
/// transport says of an outstanding status.
pub fn next_action(first: bool, status_sent: bool) -> (action: SourceAction)
    ensures
        action == spec_next_action(first, status_sent),
{
    if status_sent {
        SourceAction::Receive
    } else if first {
        SourceAction::SendStatus
    } else {
        SourceAction::GiveUp
    }
}

/// Takes one command from the transport: keeps it in the buffer and, where
/// it reports the buttons, turns their levels into an event.
pub fn receive(buttons: &mut ButtonsState, command: [u8; 4]) -> (delivery: Delivery)
    ensures
        delivery == spec_receive(old(buttons).button_mask, command),
        final(buttons).cmd_buffer == command,
        final(buttons).button_mask == held_after_command(old(buttons).button_mask, command),
        old(buttons).button_mask <= 3 ==> final(buttons).button_mask <= 3,
{
    buttons.cmd_buffer = command;
    let tag: u8 = command[0];
    if tag == BUTTON_PUSH_TAG {
        let byte: u8 = command[3];
        let button_info: u8 = (byte >> 1) & 3;
        assert((byte >> 1) & 3 <= 3) by (bit_vector);
        Delivery::Button(get_button_event(buttons, button_info))
    } else {
        Delivery::Ignored
    }
}

/// Runs the event source over the commands that the transport delivers, in
/// order, while a status is outstanding. Commands that do not report the
/// buttons are skipped; the first that does ends the call with its event,
/// also where that is `None`. Returns the event and the number of commands
/// that were taken.
pub fn get_event(buttons: &mut ButtonsState, commands: &[[u8; 4]]) -> (r: (Option<Event>, usize))
    ensures
        r.1 <= commands@.len(),
        forall|j: int| 0 <= j < r.1 - 1 ==> !is_button_push(#[trigger] commands@[j]),
        r.1 == 0 ==> commands@.len() == 0 && *final(buttons) == *old(buttons),
        r.1 > 0 ==> final(buttons).cmd_buffer == commands@[r.1 - 1],
        r.1 > 0 && is_button_push(commands@[r.1 - 1]) ==> {
            &&& r.0 == classify(old(buttons).button_mask, button_levels(commands@[r.1 - 1]))
            &&& final(buttons).button_mask == held_after(
                old(buttons).button_mask,
                button_levels(commands@[r.1 - 1]),
            )
        },
        !(r.1 > 0 && is_button_push(commands@[r.1 - 1])) ==> {
            &&& r.1 == commands@.len()
            &&& r.0 is None
            &&& final(buttons).button_mask == old(buttons).button_mask
        },
        old(buttons).button_mask <= 3 ==> final(buttons).button_mask <= 3,
{
    let mut i: usize = 0;
    while i < commands.len()
        invariant
            i <= commands@.len(),
            forall|j: int| 0 <= j < i ==> !is_button_push(#[trigger] commands@[j]),
            i == 0 ==> *buttons == *old(buttons),
            i > 0 ==> buttons.cmd_buffer == commands@[i - 1],
            buttons.button_mask == old(buttons).button_mask,
        decreases commands@.len() - i,
    {
        let delivery = receive(buttons, commands[i]);
        i += 1;
        match delivery {
            Delivery::Button(event) => {
                return (event, i);
            },
            Delivery::Ignored => {},
        }
    }
    (None, i)
}

} // verus!
