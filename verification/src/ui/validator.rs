//! A dialog with two choices: the message, which stands for "yes", and
//! "Cancel".

use vstd::prelude::*;
use crate::bagls::{arrow_draw, plain_label, Arrow, Direction, Draw, DrawView, LabelLine, LabelLineView};
use crate::ui::buttons::Event;
use crate::ui::widget::{lemma_play_ends, play, spec_play, Reaction, Widget};

verus! {

/// Shows a message above the word "Cancel" and lets the user pick one of the
/// two. The left button picks the message, the right one "Cancel"; both
/// buttons together confirm the pick.
pub struct Validator<'a> {
    message: &'a str,
}

impl<'a> Validator<'a> {
    /// A dialog that asks for `message`.
    pub fn new(message: &'a str) -> (v: Self)
        ensures
            v.message() == message@,
    {
        Validator { message }
    }

    /// The text that stands for "yes".
    pub closed spec fn message(&self) -> Seq<char> {
        self.message@
    }

    /// The line for "Cancel", lower on the screen.
    pub open spec fn cancel_line() -> LabelLineView {
        plain_label("Cancel"@).dims(128, 11).pos(0, 26)
    }

    /// The line for the message, above the other.
    pub open spec fn yes_line(&self) -> LabelLineView {
        plain_label(self.message()).dims(128, 11).pos(0, 12)
    }

    /// Starts the dialog and feeds it `events` in order. The result is the
    /// user's pick, `true` for the message and `false` for "Cancel", once both
    /// buttons were released together; `None` while the dialog is still open.
    pub fn ask(&self, events: &[Option<Event>]) -> (r: Reaction<'a, bool>)
        ensures
            r.painted() == spec_play(*self, events@).painted,
            r.result == spec_play(*self, events@).result,
            r.result is Some <==> exists|i: int|
                0 <= i < events@.len() && #[trigger] events@[i] == Some(Event::BothButtonsRelease),
    {
        proof {
            lemma_both_release_answers(*self, events@);
        }
        play(self, events).1
    }
}

impl<'a> Widget<'a> for Validator<'a> {
    /// The current pick: `true` for the message.
    type State = bool;

    type Output = bool;

    open spec fn ready(&self) -> bool {
        true
    }

    open spec fn valid(&self, state: bool) -> bool {
        true
    }

    open spec fn spec_start(&self) -> bool {
        true
    }

    open spec fn spec_start_draws(&self) -> Seq<DrawView> {
        seq![Self::cancel_line().display(), self.yes_line().bold().paint()]
    }

    open spec fn spec_start_result(&self) -> Option<bool> {
        None
    }

    open spec fn spec_next(&self, state: bool, event: Option<Event>) -> bool {
        match event {
            Some(Event::LeftButtonRelease) => true,
            Some(Event::RightButtonRelease) => false,
            _ => state,
        }
    }

    open spec fn spec_draws(&self, state: bool, event: Option<Event>) -> Seq<DrawView> {
        match event {
            Some(Event::LeftButtonPress) => seq![arrow_draw(false, Direction::Up, false)],
            Some(Event::RightButtonPress) => seq![arrow_draw(false, Direction::Down, false)],
            Some(Event::LeftButtonRelease) => seq![
                Self::cancel_line().display(),
                self.yes_line().bold().paint(),
            ],
            Some(Event::RightButtonRelease) => seq![
                Self::cancel_line().bold().display(),
                self.yes_line().paint(),
            ],
            Some(Event::BothButtonsPress) => if state {
                seq![self.yes_line().bold().display()]
            } else {
                seq![Self::cancel_line().bold().display()]
            },
            Some(Event::BothButtonsRelease) | None => seq![],
        }
    }

    open spec fn spec_result(&self, state: bool, event: Option<Event>) -> Option<bool> {
        match event {
            Some(Event::BothButtonsRelease) => Some(state),
            _ => None,
        }
    }

    fn is_ready(&self) -> (b: bool) {
        true
    }

    proof fn lemma_start_valid(&self) {
    }

    proof fn lemma_next_valid(&self, state: bool, event: Option<Event>) {
    }

    fn start(&self) -> (r: (bool, Reaction<'a, bool>)) {
        let cancel = LabelLine::new().dims(128, 11).pos(0, 26).text("Cancel");
        let yes = LabelLine::new().dims(128, 11).pos(0, 12).text(self.message);
        let mut draws: Vec<Draw<'a>> = Vec::new();
        draws.push(cancel.display());
        draws.push(yes.bold().paint());
        let r = Reaction { draws, result: None };
        assert(r.painted() =~= self.spec_start_draws());
        (true, r)
    }

    fn step(&self, state: &mut bool, event: Option<Event>) -> (r: Reaction<'a, bool>) {
        let cancel = LabelLine::new().dims(128, 11).pos(0, 26).text("Cancel");
        let yes = LabelLine::new().dims(128, 11).pos(0, 12).text(self.message);
        let mut draws: Vec<Draw<'a>> = Vec::new();
        let mut result: Option<bool> = None;
        match event {
            Some(Event::LeftButtonPress) => {
                draws.push(Arrow::new(Direction::Up).paint());
            },
            Some(Event::RightButtonPress) => {
                draws.push(Arrow::new(Direction::Down).paint());
            },
            Some(Event::LeftButtonRelease) => {
                *state = true;
                draws.push(cancel.display());
                draws.push(yes.bold().paint());
            },
            Some(Event::RightButtonRelease) => {
                *state = false;
                draws.push(cancel.bold().display());
                draws.push(yes.paint());
            },
            Some(Event::BothButtonsPress) => {
                if *state {
                    draws.push(yes.bold().display());
                } else {
                    draws.push(cancel.bold().display());
                }
            },
            Some(Event::BothButtonsRelease) => {
                result = Some(*state);
            },
            None => {},
        }
        let r = Reaction { draws, result };
        assert(r.painted() =~= self.spec_draws(*old(state), event));
        r
    }
}

/// The dialog is left by a release of both buttons and by nothing else.
pub proof fn lemma_both_release_answers(v: Validator, events: Seq<Option<Event>>)
    ensures
        spec_play(v, events).result is Some <==> exists|i: int|
            0 <= i < events.len() && #[trigger] events[i] == Some(Event::BothButtonsRelease),
{
    lemma_play_ends(v, events, |e: Option<Event>| e == Some(Event::BothButtonsRelease));
}

} // verus!
