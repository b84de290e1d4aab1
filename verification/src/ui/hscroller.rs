//! A row of prepared panes, one on the screen at a time.

use vstd::prelude::*;
use crate::bagls::{arrow_draw, Arrow, Bagl, Direction, Draw, DrawView};
use crate::ui::buttons::Event;
use crate::ui::cursor::{back, forward, spec_back, spec_forward};
use crate::ui::menu::Menu;
use crate::ui::widget::{lemma_play_ends, lemma_play_valid, play, spec_play, Reaction, Widget};

verus! {

/// Shows one of a number of panes and lets the user go from one to the next.
/// The left and the right button change the pane, both buttons together
/// leave.
pub struct HScroller<'a> {
    screens: &'a [Bagl<'a>],
}

impl<'a> HScroller<'a> {
    /// A scroller over `screens`.
    pub fn new(screens: &'a [Bagl<'a>]) -> (s: Self)
        ensures
            s.screens() == screens@,
    {
        HScroller { screens }
    }

    /// The panes, in order.
    pub closed spec fn screens(&self) -> Seq<Bagl<'a>> {
        self.screens@
    }

    /// The command that paints the pane at `index` over what is on the
    /// screen.
    pub open spec fn pane(&self, index: int) -> DrawView {
        DrawView { erase: false, bagl: self.screens()[index]@ }
    }

    /// What a step back to `index` shows: a right arrow on an empty screen, a
    /// left arrow unless `index` is the first pane, then the pane.
    pub open spec fn back_draws(&self, index: int) -> Seq<DrawView> {
        if index != 0 {
            seq![
                arrow_draw(true, Direction::Right, false),
                arrow_draw(false, Direction::Left, false),
                self.pane(index),
            ]
        } else {
            seq![arrow_draw(true, Direction::Right, false), self.pane(index)]
        }
    }

    /// What a step on to `index` shows: a left arrow on an empty screen, a
    /// right arrow unless `index` is the last pane, then the pane.
    pub open spec fn forward_draws(&self, index: int) -> Seq<DrawView> {
        if index != self.screens().len() - 1 {
            seq![
                arrow_draw(true, Direction::Left, false),
                arrow_draw(false, Direction::Right, false),
                self.pane(index),
            ]
        } else {
            seq![arrow_draw(true, Direction::Left, false), self.pane(index)]
        }
    }

    /// Starts the scroller and feeds it `events` in order. The result is
    /// `Some` once both buttons were released together.
    pub fn event_loop(&self, events: &[Option<Event>]) -> (r: Reaction<'a, ()>)
        requires
            self.ready(),
        ensures
            r.painted() == spec_play(*self, events@).painted,
            r.result == spec_play(*self, events@).result,
            r.result is Some <==> exists|i: int|
                0 <= i < events@.len() && #[trigger] events@[i] == Some(Event::BothButtonsRelease),
    {
        proof {
            lemma_only_both_release_ends(*self, events@);
        }
        play(self, events).1
    }
}

impl<'a> Widget<'a> for HScroller<'a> {
    /// The index of the pane that is shown.
    type State = usize;

    type Output = ();

    /// There is at least one pane.
    open spec fn ready(&self) -> bool {
        self.screens().len() >= 1
    }

    open spec fn valid(&self, state: usize) -> bool {
        state < self.screens().len()
    }

    open spec fn spec_start(&self) -> usize {
        0
    }

    open spec fn spec_start_draws(&self) -> Seq<DrawView> {
        seq![arrow_draw(true, Direction::Right, false), self.pane(0)]
    }

    open spec fn spec_start_result(&self) -> Option<()> {
        None
    }

    open spec fn spec_next(&self, state: usize, event: Option<Event>) -> usize {
        match event {
            Some(Event::LeftButtonRelease) => spec_back(state as int) as usize,
            Some(Event::RightButtonRelease) => spec_forward(
                state as int,
                self.screens().len() as int,
            ) as usize,
            _ => state,
        }
    }

    /// A press of one button emphasizes its arrow. A release of one button
    /// draws the arrows and the pane for the cursor as it then stands, also
    /// where it has not moved.
    open spec fn spec_draws(&self, state: usize, event: Option<Event>) -> Seq<DrawView> {
        match event {
            Some(Event::LeftButtonPress) => seq![arrow_draw(false, Direction::Left, true)],
            Some(Event::RightButtonPress) => seq![arrow_draw(false, Direction::Right, true)],
            Some(Event::LeftButtonRelease) => self.back_draws(self.spec_next(state, event) as int),
            Some(Event::RightButtonRelease) => self.forward_draws(
                self.spec_next(state, event) as int,
            ),
            _ => seq![],
        }
    }

    open spec fn spec_result(&self, state: usize, event: Option<Event>) -> Option<()> {
        match event {
            Some(Event::BothButtonsRelease) => Some(()),
            _ => None,
        }
    }

    fn is_ready(&self) -> (b: bool) {
        self.screens.len() >= 1
    }

    proof fn lemma_start_valid(&self) {
    }

    proof fn lemma_next_valid(&self, state: usize, event: Option<Event>) {
    }

    fn start(&self) -> (r: (usize, Reaction<'a, ()>)) {
        let mut draws: Vec<Draw<'a>> = Vec::new();
        draws.push(Arrow::new(Direction::Right).display());
        draws.push(self.screens[0].paint());
        let r = Reaction { draws, result: None };
        assert(r.painted() =~= self.spec_start_draws());
        (0, r)
    }

    fn step(&self, state: &mut usize, event: Option<Event>) -> (r: Reaction<'a, ()>) {
        let index: usize = *state;
        let mut draws: Vec<Draw<'a>> = Vec::new();
        let mut result: Option<()> = None;
        match event {
            Some(Event::LeftButtonPress) => {
                draws.push(Arrow::new(Direction::Left).bold().paint());
            },
            Some(Event::RightButtonPress) => {
                draws.push(Arrow::new(Direction::Right).bold().paint());
            },
            Some(Event::LeftButtonRelease) => {
                let cur_idx: usize = back(index);
                *state = cur_idx;
                draws.push(Arrow::new(Direction::Right).display());
                if cur_idx != 0 {
                    draws.push(Arrow::new(Direction::Left).paint());
                }
                draws.push(self.screens[cur_idx].paint());
            },
            Some(Event::RightButtonRelease) => {
                let last_item: usize = self.screens.len() - 1;
                let cur_idx: usize = forward(index, self.screens.len());
                *state = cur_idx;
                draws.push(Arrow::new(Direction::Left).display());
                if cur_idx != last_item {
                    draws.push(Arrow::new(Direction::Right).paint());
                }
                draws.push(self.screens[cur_idx].paint());
            },
            Some(Event::BothButtonsRelease) => {
                result = Some(());
            },
            _ => {},
        }
        let r = Reaction { draws, result };
        assert(r.painted() =~= self.spec_draws(index, event));
        r
    }
}

/// A scroller is left by a release of both buttons and by nothing else.
pub proof fn lemma_only_both_release_ends(s: HScroller, events: Seq<Option<Event>>)
    ensures
        spec_play(s, events).result is Some <==> exists|i: int|
            0 <= i < events.len() && #[trigger] events[i] == Some(Event::BothButtonsRelease),
{
    lemma_play_ends(s, events, |e: Option<Event>| e == Some(Event::BothButtonsRelease));
}

/// Whatever the events, the cursor stays on one of the panes.
pub proof fn lemma_pane_in_range(s: HScroller, events: Seq<Option<Event>>)
    requires
        s.ready(),
    ensures
        0 <= spec_play(s, events).state < s.screens().len(),
{
    lemma_play_valid(s, events);
}

/// The cursor of a scroller moves as the cursor of a menu with as many
/// labels does.
pub proof fn lemma_moves_like_menu(s: HScroller, menu: Menu, index: usize, event: Option<Event>)
    requires
        s.screens().len() == menu.panels().len(),
    ensures
        s.spec_next(index, event) == menu.spec_next(index, event),
{
}

/// With a single pane no event moves the cursor.
pub proof fn lemma_lone_pane(s: HScroller, event: Option<Event>)
    requires
        s.screens().len() == 1,
    ensures
        s.spec_next(0, event) == 0,
        s.spec_result(0, event) is Some <==> event == Some(Event::BothButtonsRelease),
{
}

} // verus!
