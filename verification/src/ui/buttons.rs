//! The two buttons: what is held, and the events that a change of it means.

use vstd::prelude::*;

verus! {

/// What the user did with the buttons.
#[derive(Clone, Copy, Debug, PartialEq, Eq)]
pub enum Event {
    LeftButtonPress,
    RightButtonPress,
    BothButtonsPress,
    LeftButtonRelease,
    RightButtonRelease,
    BothButtonsRelease,
}

/// Keeps track of the buttons between two reports.
///
/// In `button_mask` bit 0 stands for the left button and bit 1 for the right
/// one; a bit is set from the moment its button goes down until both buttons
/// are up again. `cmd_buffer` holds the command that was received last.
#[derive(Clone, Copy, Debug, PartialEq, Eq)]
pub struct ButtonsState {
    pub button_mask: u8,
    pub cmd_buffer: [u8; 4],
}

/// The event that a report of the levels `new` means when `old` was held.
///
/// A press is reported when a single button goes down from rest, and whenever
/// both buttons are reported down. A release is reported when both buttons
/// are up, and names everything that was held since the last rest.
pub open spec fn classify(old: u8, new: u8) -> Option<Event> {
    if new == 3 {
        Some(Event::BothButtonsPress)
    } else if old == 0 && new == 1 {
        Some(Event::LeftButtonPress)
    } else if old == 0 && new == 2 {
        Some(Event::RightButtonPress)
    } else if new == 0 && old == 1 {
        Some(Event::LeftButtonRelease)
    } else if new == 0 && old == 2 {
        Some(Event::RightButtonRelease)
    } else if new == 0 && old == 3 {
        Some(Event::BothButtonsRelease)
    } else {
        None
    }
}

/// What is held after a report of the levels `new` when `old` was held:
/// nothing once both buttons are up, else all that was down since the last
/// rest.
pub open spec fn held_after(old: u8, new: u8) -> u8 {
    if new == 0 {
        0
    } else {
        old | new
    }
}

/// Whether the event is one of the three releases.
pub open spec fn is_release(event: Option<Event>) -> bool {
    ||| event == Some(Event::LeftButtonRelease)
    ||| event == Some(Event::RightButtonRelease)
    ||| event == Some(Event::BothButtonsRelease)
}

impl ButtonsState {
    /// The state at rest: no button held, an empty buffer.
    pub fn new() -> (state: ButtonsState)
        ensures
            state.button_mask == 0,
            state.cmd_buffer@ == seq![0u8, 0u8, 0u8, 0u8],
    {
        ButtonsState { button_mask: 0, cmd_buffer: [0u8; 4] }
    }
}

impl Default for ButtonsState {
    fn default() -> (state: ButtonsState)
        ensures
            state.button_mask == 0,
            state.cmd_buffer@ == seq![0u8, 0u8, 0u8, 0u8],
    {
        ButtonsState::new()
    }
}

/// Tells a press from a release: takes the newly reported levels, returns
/// the event that they mean and records what is held from now on.
pub fn get_button_event(buttons: &mut ButtonsState, new: u8) -> (event: Option<Event>)
    ensures
        event == classify(old(buttons).button_mask, new),
        final(buttons).button_mask == held_after(old(buttons).button_mask, new),
        final(buttons).cmd_buffer == old(buttons).cmd_buffer,
        is_release(event) ==> final(buttons).button_mask == 0,
        old(buttons).button_mask <= 3 && new <= 3 ==> final(buttons).button_mask <= 3,
{
    let held: u8 = buttons.button_mask;
    assert(held <= 3 && new <= 3 ==> held | new <= 3) by (bit_vector);
    buttons.button_mask = held | new;
    if new == 3 {
        Some(Event::BothButtonsPress)
    } else if new == 0 {
        buttons.button_mask = 0;
        if held == 1 {
            Some(Event::LeftButtonRelease)
        } else if held == 2 {
            Some(Event::RightButtonRelease)
        } else if held == 3 {
            Some(Event::BothButtonsRelease)
        } else {
            None
        }
    } else if held == 0 && new == 1 {
        Some(Event::LeftButtonPress)
    } else if held == 0 && new == 2 {
        Some(Event::RightButtonPress)
    } else {
        None
    }
}

/// A release is reported exactly when both buttons are up after one or both
/// were held, and after it nothing is held.
pub proof fn lemma_release_resets(old: u8, new: u8)
    ensures
        is_release(classify(old, new)) <==> new == 0 && 1 <= old <= 3,
        is_release(classify(old, new)) ==> held_after(old, new) == 0,
        new == 0 ==> held_after(old, new) == 0,
{
}

/// A report of both buttons down means a press of both whatever was held
/// before, so also when both were held already: the event comes again with
/// every such report, and the mask of what is held stays as it is.
pub proof fn lemma_both_press_repeats(old: u8)
    ensures
        classify(old, 3) == Some(Event::BothButtonsPress),
        classify(held_after(old, 3), 3) == Some(Event::BothButtonsPress),
        held_after(held_after(old, 3), 3) == held_after(old, 3),
        old <= 3 ==> held_after(old, 3) == 3,
{
    assert((old | 3) | 3 == old | 3) by (bit_vector);
    assert(old <= 3 ==> old | 3 == 3) by (bit_vector);
}

/// What is held after the reports of `news`, one after the other, when
/// `old` was held before the first.
pub open spec fn held_after_all(old: u8, news: Seq<u8>) -> u8
    decreases news.len(),
{
    if news.len() == 0 {
        old
    } else {
        held_after(held_after_all(old, news.drop_last()), news.last())
    }
}

/// However often both buttons were reported down in a row, the next such
/// report is a press of both again, and both are held after each.
pub proof fn lemma_both_held_stays(old: u8, n: nat)
    requires
        old <= 3,
    ensures
        classify(held_after_all(old, Seq::new(n, |i: int| 3u8)), 3) == Some(
            Event::BothButtonsPress,
        ),
        n > 0 ==> held_after_all(old, Seq::new(n, |i: int| 3u8)) == 3,
        held_after_all(old, Seq::new(n, |i: int| 3u8)) <= 3,
    decreases n,
{
    if n > 0 {
        let news = Seq::new(n, |i: int| 3u8);
        assert(news.drop_last() =~= Seq::new((n - 1) as nat, |i: int| 3u8));
        lemma_both_held_stays(old, (n - 1) as nat);
        lemma_both_press_repeats(held_after_all(old, news.drop_last()));
    }
}

/// What is held, for masks of two bits, without bit operations: nothing
/// after a report of no button, the reported buttons where nothing was held
/// or the same buttons were, else both.
pub proof fn lemma_held_two_bits(old: u8, new: u8)
    requires
        old <= 3,
        new <= 3,
    ensures
        held_after(old, new) <= 3,
        held_after(old, new) == if new == 0 {
            0u8
        } else if old == 0 || old == new {
            new
        } else {
            3u8
        },
{
    assert(old <= 3 && new <= 3 ==> (old | new) == if old == 0 || old == new {
        new
    } else if new == 0 {
        old
    } else {
        3u8
    }) by (bit_vector);
}

} // verus!
