//! A text that is too long for one screen, shown in chunks of a fixed
//! number of characters.

use vstd::prelude::*;
use crate::bagls::{arrow_draw, plain_label, views, Arrow, Direction, Draw, DrawView, LabelLine};
use crate::ui::buttons::Event;
use crate::ui::cursor::{back, forward, spec_back, spec_forward};
use crate::ui::widget::{
    lemma_play_ends, lemma_play_finished, lemma_play_valid, play, spec_play, Reaction, Widget,
};

verus! {

/// The number of characters on one page.
pub const CHAR_N: usize = 16;

/// The number of pages that a text of `len` characters takes: `len / CHAR_N`,
/// rounded up.
pub open spec fn spec_page_count(len: int) -> int {
    (len + CHAR_N - 1) / (CHAR_N as int)
}

/// Splits a message over several pages of `CHAR_N` characters. The left and
/// the right button turn the pages, both buttons together leave.
pub struct MessageScroller<'a> {
    message: &'a str,
    /// The number of characters of `message`.
    chars: usize,
}

impl<'a> MessageScroller<'a> {
    #[verifier::type_invariant]
    spec fn counted(self) -> bool {
        self.chars == self.message@.len()
    }

    /// A scroller over `message`.
    pub fn new(message: &'a str) -> (s: Self)
        ensures
            s.message() == message@,
    {
        MessageScroller { message, chars: message.unicode_len() }
    }

    /// The characters of the message.
    pub closed spec fn message(&self) -> Seq<char> {
        self.message@
    }

    /// The number of pages.
    pub open spec fn page_count(&self) -> int {
        spec_page_count(self.message().len() as int)
    }

    /// The characters on `page`: `CHAR_N` of them, fewer on the last page.
    pub open spec fn chunk(&self, page: int) -> Seq<char> {
        self.message().subrange(
            page * CHAR_N,
            vstd::math::min(page * CHAR_N + CHAR_N, self.message().len() as int),
        )
    }

    /// What `page` shows: its characters, a left arrow unless it is the first
    /// page, and a right arrow unless it is the last.
    pub open spec fn page_draws(&self, page: int) -> Seq<DrawView> {
        seq![plain_label(self.chunk(page)).display()] + (if page > 0 {
            seq![arrow_draw(false, Direction::Left, false)]
        } else {
            seq![]
        }) + (if page + 1 < self.page_count() {
            seq![arrow_draw(false, Direction::Right, false)]
        } else {
            seq![]
        })
    }

    /// The number of pages.
    pub fn count_pages(&self) -> (n: usize)
        ensures
            n == self.page_count(),
    {
        proof {
            use_type_invariant(self);
        }
        if self.chars % CHAR_N == 0 {
            self.chars / CHAR_N
        } else {
            self.chars / CHAR_N + 1
        }
    }

    /// The commands that draw `page`.
    pub fn draw_page(&self, page: usize) -> (draws: Vec<Draw<'a>>)
        requires
            self.valid(page),
        ensures
            views(draws@) == self.page_draws(page as int),
    {
        proof {
            use_type_invariant(self);
        }
        let page_count: usize = self.count_pages();
        let start: usize = page * CHAR_N;
        let end: usize = if self.chars - start < CHAR_N {
            self.chars
        } else {
            start + CHAR_N
        };
        let chunk: &'a str = self.message.substring_char(start, end);
        let mut draws: Vec<Draw<'a>> = Vec::new();
        draws.push(LabelLine::new().text(chunk).display());
        if page > 0 {
            draws.push(Arrow::new(Direction::Left).paint());
        }
        if page_count > 0 && page < page_count - 1 {
            draws.push(Arrow::new(Direction::Right).paint());
        }
        assert(views(draws@) =~= self.page_draws(page as int));
        draws
    }

    /// Starts the scroller and feeds it `events` in order. An empty message
    /// has no page: nothing is drawn and the result is `Some` at once. Else
    /// the result is `Some` once both buttons were released together.
    pub fn event_loop(&self, events: &[Option<Event>]) -> (r: Reaction<'a, ()>)
        ensures
            r.painted() == spec_play(*self, events@).painted,
            r.result == spec_play(*self, events@).result,
            r.result is Some <==> self.message().len() == 0 || exists|i: int|
                0 <= i < events@.len() && #[trigger] events@[i] == Some(Event::BothButtonsRelease),
    {
        proof {
            if self.message().len() == 0 {
                assert(events@.take(0) =~= Seq::<Option<Event>>::empty());
                lemma_play_finished(*self, events@, 0);
            } else {
                lemma_scroller_ends(*self, events@);
            }
        }
        play(self, events).1
    }
}

impl<'a> Widget<'a> for MessageScroller<'a> {
    /// The page that is shown.
    type State = usize;

    type Output = ();

    open spec fn ready(&self) -> bool {
        true
    }

    /// The page is one of the pages; without any page it is 0.
    open spec fn valid(&self, state: usize) -> bool {
        state == 0 || state < self.page_count()
    }

    open spec fn spec_start(&self) -> usize {
        0
    }

    open spec fn spec_start_draws(&self) -> Seq<DrawView> {
        if self.page_count() == 0 {
            seq![]
        } else {
            self.page_draws(0)
        }
    }

    open spec fn spec_start_result(&self) -> Option<()> {
        if self.page_count() == 0 {
            Some(())
        } else {
            None
        }
    }

    open spec fn spec_next(&self, state: usize, event: Option<Event>) -> usize {
        match event {
            Some(Event::LeftButtonRelease) => spec_back(state as int) as usize,
            Some(Event::RightButtonRelease) => spec_forward(
                state as int,
                self.page_count(),
            ) as usize,
            _ => state,
        }
    }

    /// A press of one button emphasizes its arrow. A release of one button
    /// draws the page on which the cursor then stands, also where it has not
    /// moved: that takes the emphasized arrow away.
    open spec fn spec_draws(&self, state: usize, event: Option<Event>) -> Seq<DrawView> {
        match event {
            Some(Event::LeftButtonPress) => seq![arrow_draw(false, Direction::Left, true)],
            Some(Event::RightButtonPress) => seq![arrow_draw(false, Direction::Right, true)],
            Some(Event::LeftButtonRelease) | Some(Event::RightButtonRelease) => self.page_draws(
                self.spec_next(state, event) as int,
            ),
            _ => seq![],
        }
    }

    open spec fn spec_result(&self, state: usize, event: Option<Event>) -> Option<()> {
        match event {
            Some(Event::BothButtonsRelease) => Some(()),
            _ => None,
        }
    }

    fn is_ready(&self) -> (b: bool) {
        true
    }

    proof fn lemma_start_valid(&self) {
    }

    proof fn lemma_next_valid(&self, state: usize, event: Option<Event>) {
    }

    fn start(&self) -> (r: (usize, Reaction<'a, ()>)) {
        if self.count_pages() == 0 {
            let r = Reaction { draws: Vec::new(), result: Some(()) };
            assert(r.painted() =~= self.spec_start_draws());
            (0, r)
        } else {
            (0, Reaction { draws: self.draw_page(0), result: None })
        }
    }

    fn step(&self, state: &mut usize, event: Option<Event>) -> (r: Reaction<'a, ()>) {
        let page: usize = *state;
        let mut draws: Vec<Draw<'a>> = Vec::new();
        let mut result: Option<()> = None;
        match event {
            Some(Event::LeftButtonPress) => {
                draws.push(Arrow::new(Direction::Left).bold().paint());
            },
            Some(Event::RightButtonPress) => {
                draws.push(Arrow::new(Direction::Right).bold().paint());
            },
            Some(Event::LeftButtonRelease) => {
                *state = back(page);
                draws = self.draw_page(*state);
            },
            Some(Event::RightButtonRelease) => {
                *state = forward(page, self.count_pages());
                draws = self.draw_page(*state);
            },
            Some(Event::BothButtonsRelease) => {
                result = Some(());
            },
            _ => {},
        }
        let r = Reaction { draws, result };
        assert(r.painted() =~= self.spec_draws(page, event));
        r
    }
}

/// The pages are as many as it takes to hold `len` characters, and no more:
/// all but the last are full, and the last is not empty.
pub proof fn lemma_page_count(len: int)
    requires
        0 <= len,
    ensures
        spec_page_count(len) == 0 <==> len == 0,
        len > 0 ==> (spec_page_count(len) - 1) * CHAR_N < len <= spec_page_count(len) * CHAR_N,
{
}

/// The pages of a message hold all of its characters, each once and in
/// order: page `i` of a message of `len` characters starts at `i * CHAR_N`,
/// is full unless it is the last, and is never empty.
pub proof fn lemma_pages_cover(s: MessageScroller, page: int)
    requires
        0 <= page < s.page_count(),
    ensures
        0 < s.chunk(page).len() <= CHAR_N,
        page + 1 < s.page_count() ==> s.chunk(page).len() == CHAR_N,
        page + 1 == s.page_count() ==> s.chunk(page).len() == s.message().len() - page * CHAR_N,
        forall|i: int|
            0 <= i < s.chunk(page).len() ==> s.chunk(page)[i] == s.message()[page * CHAR_N + i],
{
}

/// The first page has no left arrow and the last page no right arrow; every
/// other page has both.
pub proof fn lemma_page_arrows(s: MessageScroller, page: int)
    requires
        0 <= page < s.page_count(),
    ensures
        s.page_draws(page).contains(arrow_draw(false, Direction::Left, false)) <==> page > 0,
        s.page_draws(page).contains(arrow_draw(false, Direction::Right, false)) <==> page + 1
            < s.page_count(),
{
    let draws = s.page_draws(page);
    let left = arrow_draw(false, Direction::Left, false);
    let right = arrow_draw(false, Direction::Right, false);
    assert(draws[0] != left && draws[0] != right);
    if page > 0 {
        assert(draws[1] == left);
    }
    if page + 1 < s.page_count() {
        assert(draws[draws.len() - 1] == right);
    }
}

/// Whatever the events, the page that is shown is one of the pages.
pub proof fn lemma_page_in_range(s: MessageScroller, events: Seq<Option<Event>>)
    requires
        s.message().len() > 0,
    ensures
        0 <= spec_play(s, events).state < s.page_count(),
{
    lemma_play_valid(s, events);
}

/// A scroller over a message that is not empty is left by a release of both
/// buttons and by nothing else.
pub proof fn lemma_scroller_ends(s: MessageScroller, events: Seq<Option<Event>>)
    requires
        s.message().len() > 0,
    ensures
        spec_play(s, events).result is Some <==> exists|i: int|
            0 <= i < events.len() && #[trigger] events[i] == Some(Event::BothButtonsRelease),
{
    lemma_play_ends(s, events, |e: Option<Event>| e == Some(Event::BothButtonsRelease));
}

} // verus!
