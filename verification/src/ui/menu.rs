//! A list of labels, two of them on the screen at a time, with a cursor on
//! one of them.

use vstd::prelude::*;
use crate::bagls::{arrow_draw, plain_label, views, Arrow, Direction, Draw, DrawView, LabelLine, LabelLineView};
use crate::ui::buttons::Event;
use crate::ui::cursor::{back, forward, spec_back, spec_forward};
use crate::ui::widget::{
    lemma_play_ends, lemma_play_valid, play, repeated, spec_play, Reaction, Widget,
};

verus! {

/// Lets the user pick one of at least two labels. The labels are shown in
/// pairs, the one under the cursor emphasized; the left button moves the
/// cursor up, the right one down, both together pick.
pub struct Menu<'a> {
    panels: &'a [&'a str],
}

/// The upper line of the screen, with the text of a label.
pub open spec fn top_line(text: Seq<char>) -> LabelLineView {
    plain_label(text).dims(128, 11).pos(0, 12)
}

/// The lower line of the screen, with the text of a label.
pub open spec fn bottom_line(text: Seq<char>) -> LabelLineView {
    plain_label(text).dims(128, 11).pos(0, 26)
}

impl<'a> Menu<'a> {
    /// A menu over `panels`.
    pub fn new(panels: &'a [&'a str]) -> (m: Self)
        ensures
            m.panels() == panels@,
    {
        Menu { panels }
    }

    /// The labels, in order.
    pub closed spec fn panels(&self) -> Seq<&'a str> {
        self.panels@
    }

    /// The labels can be counted in a `usize`.
    pub proof fn lemma_panels_fit(self)
        ensures
            self.panels().len() <= usize::MAX,
    {
        assert(vstd::slice::spec_slice_len(self.panels) == self.panels@.len());
    }

    /// The index of the upper label of the pair that holds `index`.
    pub open spec fn pair_of(index: int) -> int {
        (index / 2) * 2
    }

    /// The screen for a cursor at `index`: both arrows, then the pair of
    /// labels that holds `index`, the one at `index` emphasized. The last pair
    /// of an odd number of labels has no lower label.
    pub open spec fn pair_draws(&self, index: int) -> Seq<DrawView> {
        let a = Self::pair_of(index);
        let top = top_line(self.panels()[a]@);
        let arrows = seq![
            arrow_draw(true, Direction::Up, false),
            arrow_draw(false, Direction::Down, false),
        ];
        if a + 1 < self.panels().len() {
            let bottom = bottom_line(self.panels()[a + 1]@);
            if index == a {
                arrows + seq![top.bold().paint(), bottom.paint()]
            } else {
                arrows + seq![top.paint(), bottom.bold().paint()]
            }
        } else {
            arrows + seq![top.bold().paint()]
        }
    }

    /// The commands that draw the screen for a cursor at `index`.
    pub fn draw_pair(&self, index: usize) -> (draws: Vec<Draw<'a>>)
        requires
            index < self.panels().len(),
        ensures
            views(draws@) == self.pair_draws(index as int),
    {
        let bot = LabelLine::new().dims(128, 11).pos(0, 26);
        let top = LabelLine::new().dims(128, 11).pos(0, 12);
        let mut draws: Vec<Draw<'a>> = Vec::new();
        draws.push(Arrow::new(Direction::Up).display());
        draws.push(Arrow::new(Direction::Down).paint());
        let a: usize = (index / 2) * 2;
        let newtop: &'a str = self.panels[a];
        if index % 2 == 0 {
            draws.push(top.text(newtop).bold().paint());
            if a + 1 < self.panels.len() {
                draws.push(bot.text(self.panels[a + 1]).paint());
            }
        } else {
            draws.push(top.text(newtop).paint());
            draws.push(bot.text(self.panels[a + 1]).bold().paint());
        }
        assert(views(draws@) =~= self.pair_draws(index as int));
        draws
    }

    /// Starts the menu and feeds it `events` in order. The result is the index
    /// under the cursor once both buttons were released together; `None`
    /// while the menu is still open.
    pub fn show(&self, events: &[Option<Event>]) -> (r: Reaction<'a, usize>)
        requires
            self.ready(),
        ensures
            r.painted() == spec_play(*self, events@).painted,
            r.result == spec_play(*self, events@).result,
            r.result matches Some(index) ==> index < self.panels().len(),
            r.result is Some <==> exists|i: int|
                0 <= i < events@.len() && #[trigger] events@[i] == Some(Event::BothButtonsRelease),
    {
        proof {
            lemma_cursor_in_range(*self, events@);
            lemma_both_release_picks(*self, events@);
        }
        play(self, events).1
    }
}

impl<'a> Widget<'a> for Menu<'a> {
    /// The index under the cursor.
    type State = usize;

    type Output = usize;

    /// There are at least two labels.
    open spec fn ready(&self) -> bool {
        self.panels().len() >= 2
    }

    open spec fn valid(&self, state: usize) -> bool {
        state < self.panels().len()
    }

    open spec fn spec_start(&self) -> usize {
        0
    }

    open spec fn spec_start_draws(&self) -> Seq<DrawView> {
        seq![
            bottom_line(self.panels()[1]@).display(),
            top_line(self.panels()[0]@).bold().paint(),
            arrow_draw(false, Direction::Up, false),
            arrow_draw(false, Direction::Down, false),
        ]
    }

    open spec fn spec_start_result(&self) -> Option<usize> {
        None
    }

    open spec fn spec_next(&self, state: usize, event: Option<Event>) -> usize {
        match event {
            Some(Event::LeftButtonRelease) => spec_back(state as int) as usize,
            Some(Event::RightButtonRelease) => spec_forward(
                state as int,
                self.panels().len() as int,
            ) as usize,
            _ => state,
        }
    }

    /// A press of one button emphasizes its arrow. A release of one button,
    /// and a press of both, draws the screen anew for the cursor as it then
    /// stands.
    open spec fn spec_draws(&self, state: usize, event: Option<Event>) -> Seq<DrawView> {
        match event {
            Some(Event::LeftButtonPress) => seq![arrow_draw(false, Direction::Up, true)],
            Some(Event::RightButtonPress) => seq![arrow_draw(false, Direction::Down, true)],
            Some(Event::BothButtonsRelease) | None => seq![],
            _ => self.pair_draws(self.spec_next(state, event) as int),
        }
    }

    open spec fn spec_result(&self, state: usize, event: Option<Event>) -> Option<usize> {
        match event {
            Some(Event::BothButtonsRelease) => Some(state),
            _ => None,
        }
    }

    fn is_ready(&self) -> (b: bool) {
        self.panels.len() >= 2
    }

    proof fn lemma_start_valid(&self) {
    }

    proof fn lemma_next_valid(&self, state: usize, event: Option<Event>) {
    }

    fn start(&self) -> (r: (usize, Reaction<'a, usize>)) {
        let bot = LabelLine::new().dims(128, 11).pos(0, 26);
        let top = LabelLine::new().dims(128, 11).pos(0, 12);
        let mut draws: Vec<Draw<'a>> = Vec::new();
        draws.push(bot.text(self.panels[1]).display());
        draws.push(top.text(self.panels[0]).bold().paint());
        draws.push(Arrow::new(Direction::Up).paint());
        draws.push(Arrow::new(Direction::Down).paint());
        let r = Reaction { draws, result: None };
        assert(r.painted() =~= self.spec_start_draws());
        (0, r)
    }

    fn step(&self, state: &mut usize, event: Option<Event>) -> (r: Reaction<'a, usize>) {
        let index: usize = *state;
        let mut draws: Vec<Draw<'a>> = Vec::new();
        let mut result: Option<usize> = None;
        match event {
            Some(Event::LeftButtonPress) => {
                draws.push(Arrow::new(Direction::Up).bold().paint());
            },
            Some(Event::RightButtonPress) => {
                draws.push(Arrow::new(Direction::Down).bold().paint());
            },
            Some(Event::BothButtonsRelease) => {
                result = Some(index);
            },
            Some(x) => {
                match x {
                    Event::LeftButtonRelease => {
                        *state = back(index);
                    },
                    Event::RightButtonRelease => {
                        *state = forward(index, self.panels.len());
                    },
                    _ => {},
                }
                draws = self.draw_pair(*state);
            },
            None => {},
        }
        let r = Reaction { draws, result };
        assert(r.painted() =~= self.spec_draws(index, event));
        r
    }
}

/// Whatever the events, the cursor stays on one of the labels.
pub proof fn lemma_cursor_in_range(menu: Menu, events: Seq<Option<Event>>)
    requires
        menu.ready(),
    ensures
        0 <= spec_play(menu, events).state < menu.panels().len(),
        spec_play(menu, events).result matches Some(index) ==> index < menu.panels().len(),
    decreases events.len(),
{
    lemma_play_valid(menu, events);
    if events.len() > 0 {
        lemma_cursor_in_range(menu, events.drop_last());
    }
}

/// The menu is left by a release of both buttons and by nothing else.
pub proof fn lemma_both_release_picks(menu: Menu, events: Seq<Option<Event>>)
    ensures
        spec_play(menu, events).result is Some <==> exists|i: int|
            0 <= i < events.len() && #[trigger] events[i] == Some(Event::BothButtonsRelease),
{
    lemma_play_ends(menu, events, |e: Option<Event>| e == Some(Event::BothButtonsRelease));
}

/// After `n` releases of the right button and nothing else the cursor is at
/// `n`, or at the last label if there are not that many.
pub proof fn lemma_right_releases(menu: Menu, n: nat)
    requires
        menu.ready(),
    ensures
        spec_play(menu, repeated(Some(Event::RightButtonRelease), n)).result is None,
        spec_play(menu, repeated(Some(Event::RightButtonRelease), n)).state == vstd::math::min(
            n as int,
            menu.panels().len() - 1,
        ),
    decreases n,
{
    menu.lemma_panels_fit();
    if n > 0 {
        let events = repeated(Some(Event::RightButtonRelease), n);
        assert(events.drop_last() =~= repeated(Some(Event::RightButtonRelease), (n - 1) as nat));
        lemma_right_releases(menu, (n - 1) as nat);
    }
}

/// After `n` releases of the left button and nothing else the cursor is
/// still at the first label.
pub proof fn lemma_left_releases(menu: Menu, n: nat)
    requires
        menu.ready(),
    ensures
        spec_play(menu, repeated(Some(Event::LeftButtonRelease), n)).result is None,
        spec_play(menu, repeated(Some(Event::LeftButtonRelease), n)).state == 0,
    decreases n,
{
    if n > 0 {
        let events = repeated(Some(Event::LeftButtonRelease), n);
        assert(events.drop_last() =~= repeated(Some(Event::LeftButtonRelease), (n - 1) as nat));
        lemma_left_releases(menu, (n - 1) as nat);
    }
}

} // verus!
