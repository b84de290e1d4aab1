//! A short message that stays until a button is released.

use vstd::prelude::*;
use crate::bagls::{plain_label, Draw, DrawView, LabelLine};
use crate::ui::buttons::{is_release, Event};
use crate::ui::widget::{lemma_play_ends, play, spec_play, Reaction, Widget};

verus! {

/// Shows a message in the middle of the screen and waits for any button to be
/// released.
pub struct SingleMessage<'a> {
    message: &'a str,
}

impl<'a> SingleMessage<'a> {
    /// A screen for `message`.
    pub fn new(message: &'a str) -> (m: Self)
        ensures
            m.message() == message@,
    {
        SingleMessage { message }
    }

    /// The text of the message.
    pub closed spec fn message(&self) -> Seq<char> {
        self.message@
    }

    /// The command that puts the message on an empty screen.
    pub fn show(&self) -> (d: Draw<'a>)
        ensures
            d@ == plain_label(self.message()).display(),
    {
        LabelLine::new().text(self.message).display()
    }

    /// Shows the message and feeds `events` to it in order. The result is
    /// `Some` once a release of any kind was among them; nothing but the
    /// message is ever drawn.
    pub fn show_and_wait(&self, events: &[Option<Event>]) -> (r: Reaction<'a, ()>)
        ensures
            r.painted() == spec_play(*self, events@).painted,
            r.result == spec_play(*self, events@).result,
            r.painted() == seq![plain_label(self.message()).display()],
            r.result is Some <==> exists|i: int|
                0 <= i < events@.len() && is_release(#[trigger] events@[i]),
    {
        proof {
            lemma_waits_for_release(*self, events@);
        }
        play(self, events).1
    }
}

impl<'a> Widget<'a> for SingleMessage<'a> {
    type State = ();

    type Output = ();

    open spec fn ready(&self) -> bool {
        true
    }

    open spec fn valid(&self, state: ()) -> bool {
        true
    }

    open spec fn spec_start(&self) -> () {
        ()
    }

    open spec fn spec_start_draws(&self) -> Seq<DrawView> {
        seq![plain_label(self.message()).display()]
    }

    open spec fn spec_start_result(&self) -> Option<()> {
        None
    }

    open spec fn spec_next(&self, state: (), event: Option<Event>) -> () {
        ()
    }

    open spec fn spec_draws(&self, state: (), event: Option<Event>) -> Seq<DrawView> {
        seq![]
    }

    open spec fn spec_result(&self, state: (), event: Option<Event>) -> Option<()> {
        if is_release(event) {
            Some(())
        } else {
            None
        }
    }

    fn is_ready(&self) -> (b: bool) {
        true
    }

    proof fn lemma_start_valid(&self) {
    }

    proof fn lemma_next_valid(&self, state: (), event: Option<Event>) {
    }

    fn start(&self) -> (r: ((), Reaction<'a, ()>)) {
        let mut draws: Vec<Draw<'a>> = Vec::new();
        draws.push(self.show());
        let r = Reaction { draws, result: None };
        assert(r.painted() =~= self.spec_start_draws());
        ((), r)
    }

    fn step(&self, state: &mut (), event: Option<Event>) -> (r: Reaction<'a, ()>) {
        let result = match event {
            Some(Event::LeftButtonRelease)
            | Some(Event::RightButtonRelease)
            | Some(Event::BothButtonsRelease) => Some(()),
            _ => None,
        };
        let r = Reaction { draws: Vec::new(), result };
        assert(r.painted() =~= self.spec_draws(*old(state), event));
        r
    }
}

/// A message is left by a release of any kind and by nothing else, and
/// whatever the events, nothing but the message is drawn.
pub proof fn lemma_waits_for_release(m: SingleMessage, events: Seq<Option<Event>>)
    ensures
        spec_play(m, events).painted == seq![plain_label(m.message()).display()],
        spec_play(m, events).result is Some <==> exists|i: int|
            0 <= i < events.len() && is_release(#[trigger] events[i]),
    decreases events.len(),
{
    lemma_play_ends(m, events, |e: Option<Event>| is_release(e));
    if events.len() > 0 {
        lemma_waits_for_release(m, events.drop_last());
        assert(spec_play(m, events).painted =~= seq![plain_label(m.message()).display()]);
    }
}

/// A press of any kind, and a call of the event source that came back
/// without an event, never takes the message away; a release of both buttons
/// does.
pub proof fn lemma_presses_do_not_end(m: SingleMessage, event: Option<Event>)
    requires
        event != Some(Event::LeftButtonRelease),
        event != Some(Event::RightButtonRelease),
    ensures
        m.spec_result((), event) is Some <==> event == Some(Event::BothButtonsRelease),
{
}

/// Shows `message` and feeds `events` to it in order, as
/// [`SingleMessage::show_and_wait`] does.
pub fn popup<'a>(message: &'a str, events: &[Option<Event>]) -> (r: Reaction<'a, ()>)
    ensures
        r.painted() == seq![plain_label(message@).display()],
        r.result is Some <==> exists|i: int|
            0 <= i < events@.len() && is_release(#[trigger] events@[i]),
{
    SingleMessage::new(message).show_and_wait(events)
}

} // verus!
