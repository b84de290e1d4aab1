//! A message over several pages, followed by a page to confirm it and a
//! page to cancel.

use vstd::prelude::*;
use crate::bagls::{arrow_draw, icon_draw, plain_label, views, Arrow, Direction, Draw, DrawView, Icon, Icons, LabelLine};
use crate::ui::buttons::Event;
use crate::ui::cursor::{back, forward, spec_back, spec_forward};
use crate::ui::widget::{lemma_play_valid, play, spec_play, Reaction, Widget};

verus! {

/// Pages through the strings of a message, one per page, then through a
/// confirmation page and a cancel page. Both buttons together answer on the
/// last two pages and do nothing on the others.
pub struct MessageValidator<'a> {
    /// Strings displayed in the pages. One string per page. Can be empty.
    message: &'a [&'a str],
    /// Strings displayed in the confirmation page: none, one or two lines
    /// beside the icon.
    confirm: &'a [&'a str],
    /// Strings displayed in the cancel page: none, one or two lines beside
    /// the icon.
    cancel: &'a [&'a str],
}

/// What an answer page shows: the icon, and beside it the first one or two
/// of `strings`, if there are any.
pub open spec fn icon_and_text(icon: Icons, strings: Seq<&str>) -> Seq<DrawView> {
    if strings.len() == 0 {
        seq![icon_draw(true, icon, 16, 12)]
    } else if strings.len() == 1 {
        seq![icon_draw(true, icon, 16, 12), plain_label(strings[0]@).pos(0, 20).paint()]
    } else {
        seq![
            icon_draw(true, icon, 16, 12),
            plain_label(strings[0]@).pos(0, 13).paint(),
            plain_label(strings[1]@).pos(0, 26).paint(),
        ]
    }
}

/// The left arrow, on every page but the first.
pub open spec fn left_arrow_from(page: int) -> Seq<DrawView> {
    if page > 0 {
        seq![arrow_draw(false, Direction::Left, false)]
    } else {
        seq![]
    }
}

impl<'a> MessageValidator<'a> {
    /// A flow over the pages of `message`, with the strings of its two
    /// answer pages.
    pub fn new(message: &'a [&'a str], confirm: &'a [&'a str], cancel: &'a [&'a str]) -> (v: Self)
        ensures
            v.message() == message@,
            v.confirm() == confirm@,
            v.cancel() == cancel@,
    {
        MessageValidator { message, confirm, cancel }
    }

    /// The strings of the message pages.
    pub closed spec fn message(&self) -> Seq<&'a str> {
        self.message@
    }

    /// The strings of the confirmation page.
    pub closed spec fn confirm(&self) -> Seq<&'a str> {
        self.confirm@
    }

    /// The strings of the cancel page.
    pub closed spec fn cancel(&self) -> Seq<&'a str> {
        self.cancel@
    }

    /// The number of pages: those of the message and the two answer pages.
    pub open spec fn page_count(&self) -> int {
        self.message().len() as int + 2
    }

    /// The page on which both buttons answer `true`.
    pub open spec fn confirm_page(&self) -> int {
        self.page_count() - 2
    }

    /// The page on which both buttons answer `false`.
    pub open spec fn cancel_page(&self) -> int {
        self.page_count() - 1
    }

    /// What `page` shows. A message page shows its string and a right arrow,
    /// the confirmation page its icon, its strings and a right arrow, the
    /// cancel page its icon and its strings; every page but the first has a
    /// left arrow.
    pub open spec fn page_draws(&self, page: int) -> Seq<DrawView> {
        if page == self.confirm_page() {
            icon_and_text(Icons::CheckBadge, self.confirm()) + seq![
                arrow_draw(false, Direction::Right, false),
            ] + left_arrow_from(page)
        } else if page == self.cancel_page() {
            icon_and_text(Icons::CrossBadge, self.cancel()) + left_arrow_from(page)
        } else {
            seq![
                plain_label(self.message()[page]@).display(),
                arrow_draw(false, Direction::Right, false),
            ] + left_arrow_from(page)
        }
    }

    /// The commands that draw `page`.
    pub fn draw_page(&self, page: usize) -> (draws: Vec<Draw<'a>>)
        requires
            self.ready(),
            page < self.page_count(),
        ensures
            views(draws@) == self.page_draws(page as int),
    {
        let mut draws: Vec<Draw<'a>> = Vec::new();
        let pages: usize = self.message.len();
        if page == pages {
            draw_icon_and_text(&mut draws, Icons::CheckBadge, self.confirm);
            draws.push(Arrow::new(Direction::Right).paint());
        } else if page == pages + 1 {
            draw_icon_and_text(&mut draws, Icons::CrossBadge, self.cancel);
        } else {
            draws.push(LabelLine::new().text(self.message[page]).display());
            draws.push(Arrow::new(Direction::Right).paint());
        }
        if page > 0 {
            draws.push(Arrow::new(Direction::Left).paint());
        }
        assert(views(draws@) =~= self.page_draws(page as int));
        draws
    }

    /// Starts the flow and feeds it `events` in order. The result is `true`
    /// once both buttons were released on the confirmation page, `false` once
    /// they were released on the cancel page, and `None` while the flow is
    /// still open.
    pub fn ask(&self, events: &[Option<Event>]) -> (r: Reaction<'a, bool>)
        requires
            self.ready(),
        ensures
            r.painted() == spec_play(*self, events@).painted,
            r.result == spec_play(*self, events@).result,
    {
        play(self, events).1
    }
}

/// Adds to `draws` what an answer page shows.
fn draw_icon_and_text<'a>(draws: &mut Vec<Draw<'a>>, icon: Icons, strings: &'a [&'a str])
    ensures
        final(draws)@ == old(draws)@ + final(draws)@.skip(old(draws)@.len() as int),
        views(final(draws)@.skip(old(draws)@.len() as int)) == icon_and_text(icon, strings@),
{
    let ghost before = draws@;
    draws.push(Icon::new(icon).pos(16, 12).display());
    if strings.len() == 1 {
        draws.push(LabelLine::new().text(strings[0]).pos(0, 20).paint());
    } else if strings.len() >= 2 {
        draws.push(LabelLine::new().text(strings[0]).pos(0, 13).paint());
        draws.push(LabelLine::new().text(strings[1]).pos(0, 26).paint());
    }
    assert(draws@ =~= before + draws@.skip(before.len() as int));
    assert(views(draws@.skip(before.len() as int)) =~= icon_and_text(icon, strings@));
}

impl<'a> Widget<'a> for MessageValidator<'a> {
    /// The page that is shown.
    type State = usize;

    type Output = bool;

    /// The pages can be counted.
    open spec fn ready(&self) -> bool {
        self.page_count() <= usize::MAX
    }

    open spec fn valid(&self, state: usize) -> bool {
        state < self.page_count()
    }

    open spec fn spec_start(&self) -> usize {
        0
    }

    open spec fn spec_start_draws(&self) -> Seq<DrawView> {
        self.page_draws(0)
    }

    open spec fn spec_start_result(&self) -> Option<bool> {
        None
    }

    open spec fn spec_next(&self, state: usize, event: Option<Event>) -> usize {
        match event {
            Some(Event::LeftButtonRelease) => spec_back(state as int) as usize,
            Some(Event::RightButtonRelease) => spec_forward(
                state as int,
                self.page_count(),
            ) as usize,
            _ => state,
        }
    }

    /// A page is drawn when the cursor has moved to it, and only then.
    open spec fn spec_draws(&self, state: usize, event: Option<Event>) -> Seq<DrawView> {
        if self.spec_next(state, event) != state {
            self.page_draws(self.spec_next(state, event) as int)
        } else {
            seq![]
        }
    }

    open spec fn spec_result(&self, state: usize, event: Option<Event>) -> Option<bool> {
        if event == Some(Event::BothButtonsRelease) && state == self.confirm_page() {
            Some(true)
        } else if event == Some(Event::BothButtonsRelease) && state == self.cancel_page() {
            Some(false)
        } else {
            None
        }
    }

    fn is_ready(&self) -> (b: bool) {
        self.message.len() <= usize::MAX - 2
    }

    proof fn lemma_start_valid(&self) {
    }

    proof fn lemma_next_valid(&self, state: usize, event: Option<Event>) {
    }

    fn start(&self) -> (r: (usize, Reaction<'a, bool>)) {
        (0, Reaction { draws: self.draw_page(0), result: None })
    }

    fn step(&self, state: &mut usize, event: Option<Event>) -> (r: Reaction<'a, bool>) {
        let page_count: usize = self.message.len() + 2;
        let page: usize = *state;
        let mut draws: Vec<Draw<'a>> = Vec::new();
        let mut result: Option<bool> = None;
        match event {
            Some(Event::LeftButtonRelease) => {
                *state = back(page);
            },
            Some(Event::RightButtonRelease) => {
                *state = forward(page, page_count);
            },
            Some(Event::BothButtonsRelease) => {
                if page == page_count - 2 {
                    result = Some(true);
                } else if page == page_count - 1 {
                    result = Some(false);
                }
            },
            _ => {},
        }
        if *state != page {
            draws = self.draw_page(*state);
        }
        let r = Reaction { draws, result };
        assert(r.painted() =~= self.spec_draws(page, event));
        r
    }
}

/// Both buttons answer on the two last pages and nowhere else: `true` on the
/// confirmation page, `false` on the cancel page. On a message page their
/// release changes nothing and draws nothing.
pub proof fn lemma_answers_on_last_pages(v: MessageValidator, page: usize, event: Option<Event>)
    requires
        v.ready(),
        v.valid(page),
    ensures
        v.spec_result(page, event) is Some <==> event == Some(Event::BothButtonsRelease) && page
            >= v.message().len(),
        v.spec_result(page, event) == Some(true) <==> event == Some(Event::BothButtonsRelease)
            && page == v.message().len(),
        v.spec_result(page, event) == Some(false) <==> event == Some(Event::BothButtonsRelease)
            && page == v.message().len() + 1,
        event == Some(Event::BothButtonsRelease) ==> v.spec_next(page, event) == page
            && v.spec_draws(page, event) == Seq::<DrawView>::empty(),
{
}

/// Whatever the events, the page that is shown is one of the pages.
pub proof fn lemma_page_in_range(v: MessageValidator, events: Seq<Option<Event>>)
    requires
        v.ready(),
    ensures
        0 <= spec_play(v, events).state < v.page_count(),
{
    lemma_play_valid(v, events);
}

} // verus!
