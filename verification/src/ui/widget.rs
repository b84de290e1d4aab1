//! What the screens have in common: each is a state machine that is started
//! once and then fed one event after the other.

use vstd::prelude::*;
use crate::bagls::{views, Draw, DrawView};
use crate::ui::buttons::Event;

verus! {

/// What a screen answers to its start or to one event: the commands to send
/// to the display, in order, and the result once the user has finished.
pub struct Reaction<'a, R> {
    pub draws: Vec<Draw<'a>>,
    pub result: Option<R>,
}

impl<'a, R> Reaction<'a, R> {
    /// The drawing commands as contracts see them.
    pub open spec fn painted(&self) -> Seq<DrawView> {
        views(self.draws@)
    }
}

/// A screen that is driven by button events.
///
/// `start` gives the first state and the first picture. `step` takes the
/// state and what the event source returned, moves the state and says what to
/// draw; while its `result` is `None` the screen waits for the next event.
pub trait Widget<'a>: Sized {
    /// What the screen remembers between two events.
    type State;

    /// What the screen hands back when the user has finished.
    type Output;

    /// Whether the screen can be shown at all with the data it was made of.
    spec fn ready(&self) -> bool;

    /// Whether `state` is one that this screen can be in.
    spec fn valid(&self, state: Self::State) -> bool;

    /// The state in which the screen starts.
    spec fn spec_start(&self) -> Self::State;

    /// What is drawn when the screen starts.
    spec fn spec_start_draws(&self) -> Seq<DrawView>;

    /// The result of a screen that has nothing to wait for, else `None`.
    spec fn spec_start_result(&self) -> Option<Self::Output>;

    /// The state after `event` was seen in `state`.
    spec fn spec_next(&self, state: Self::State, event: Option<Event>) -> Self::State;

    /// What is drawn when `event` is seen in `state`.
    spec fn spec_draws(&self, state: Self::State, event: Option<Event>) -> Seq<DrawView>;

    /// The result if `event` ends the screen in `state`, else `None`.
    spec fn spec_result(&self, state: Self::State, event: Option<Event>) -> Option<Self::Output>;

    /// Tells whether the screen can be shown with the data it was made of.
    fn is_ready(&self) -> (b: bool)
        ensures
            b == self.ready(),
    ;

    /// The screen starts in a state it can be in.
    proof fn lemma_start_valid(&self)
        requires
            self.ready(),
        ensures
            self.valid(self.spec_start()),
    ;

    /// No event takes the screen out of the states it can be in.
    proof fn lemma_next_valid(&self, state: Self::State, event: Option<Event>)
        requires
            self.ready(),
            self.valid(state),
        ensures
            self.valid(self.spec_next(state, event)),
    ;

    /// Starts the screen.
    fn start(&self) -> (r: (Self::State, Reaction<'a, Self::Output>))
        requires
            self.ready(),
        ensures
            r.0 == self.spec_start(),
            self.valid(r.0),
            r.1.painted() == self.spec_start_draws(),
            r.1.result == self.spec_start_result(),
    ;

    /// Reacts to what the event source returned.
    fn step(&self, state: &mut Self::State, event: Option<Event>) -> (r: Reaction<
        'a,
        Self::Output,
    >)
        requires
            self.ready(),
            self.valid(*old(state)),
        ensures
            *final(state) == self.spec_next(*old(state), event),
            self.valid(*final(state)),
            r.painted() == self.spec_draws(*old(state), event),
            r.result == self.spec_result(*old(state), event),
    ;
}

/// Where a screen stands after a run of events: its state, all that was
/// drawn, and the result if the run has ended it.
pub struct Trace<S, R> {
    pub state: S,
    pub painted: Seq<DrawView>,
    pub result: Option<R>,
}

/// Where the screen `w` stands after it was started and has seen `events` in
/// order. Events that come after the one that ended the screen change nothing.
pub open spec fn spec_play<'a, W: Widget<'a>>(w: W, events: Seq<Option<Event>>) -> Trace<
    W::State,
    W::Output,
>
    decreases events.len(),
{
    if events.len() == 0 {
        Trace {
            state: w.spec_start(),
            painted: w.spec_start_draws(),
            result: w.spec_start_result(),
        }
    } else {
        let before = spec_play(w, events.drop_last());
        if before.result is Some {
            before
        } else {
            Trace {
                state: w.spec_next(before.state, events.last()),
                painted: before.painted + w.spec_draws(before.state, events.last()),
                result: w.spec_result(before.state, events.last()),
            }
        }
    }
}

/// The run that holds `event` `n` times and nothing else.
pub open spec fn repeated(event: Option<Event>, n: nat) -> Seq<Option<Event>> {
    Seq::new(n, |i: int| event)
}

/// Whatever the events, a screen stays in the states it can be in.
pub proof fn lemma_play_valid<'a, W: Widget<'a>>(w: W, events: Seq<Option<Event>>)
    requires
        w.ready(),
    ensures
        w.valid(spec_play(w, events).state),
    decreases events.len(),
{
    if events.len() == 0 {
        w.lemma_start_valid();
    } else {
        lemma_play_valid(w, events.drop_last());
        let before = spec_play(w, events.drop_last());
        if before.result is None {
            w.lemma_next_valid(before.state, events.last());
        }
    }
}

/// Once a run has ended the screen, a longer run ends it in the same way.
pub proof fn lemma_play_finished<'a, W: Widget<'a>>(
    w: W,
    events: Seq<Option<Event>>,
    n: int,
)
    requires
        0 <= n <= events.len(),
        spec_play(w, events.take(n)).result is Some,
    ensures
        spec_play(w, events) == spec_play(w, events.take(n)),
    decreases events.len(),
{
    if n == events.len() {
        assert(events.take(n) =~= events);
    } else {
        assert(events.drop_last().take(n) =~= events.take(n));
        lemma_play_finished(w, events.drop_last(), n);
    }
}

/// Where a screen ends on the events that `ends` picks, whatever its state,
/// a run has ended it exactly if one of its events is among them.
pub proof fn lemma_play_ends<'a, W: Widget<'a>>(
    w: W,
    events: Seq<Option<Event>>,
    ends: spec_fn(Option<Event>) -> bool,
)
    requires
        w.spec_start_result() is None,
        forall|s: W::State, e: Option<Event>| #[trigger] w.spec_result(s, e) is Some <==> ends(e),
    ensures
        spec_play(w, events).result is Some <==> exists|i: int|
            0 <= i < events.len() && ends(#[trigger] events[i]),
    decreases events.len(),
{
    if events.len() > 0 {
        let shorter = events.drop_last();
        lemma_play_ends(w, shorter, ends);
        let before = spec_play(w, shorter);
        if before.result is Some {
            let i = choose|i: int| 0 <= i < shorter.len() && ends(#[trigger] shorter[i]);
            assert(ends(events[i]));
        } else if ends(events.last()) {
            assert(ends(events[events.len() - 1]));
            assert(w.spec_result(before.state, events.last()) is Some);
        } else {
            assert(w.spec_result(before.state, events.last()) is None);
            assert forall|i: int| 0 <= i < events.len() implies !ends(#[trigger] events[i]) by {
                if i < shorter.len() {
                    assert(shorter[i] == events[i]);
                }
            }
        }
    }
}

/// Starts the screen and feeds it `events` in order, up to the one that ends
/// it. Returns the state it is left in, everything that it drew, and its
/// result if it has ended.
pub fn play<'a, W: Widget<'a>>(w: &W, events: &[Option<Event>]) -> (r: (
    W::State,
    Reaction<'a, W::Output>,
))
    requires
        w.ready(),
    ensures
        r.0 == spec_play(*w, events@).state,
        r.1.painted() == spec_play(*w, events@).painted,
        r.1.result == spec_play(*w, events@).result,
{
    let (mut state, mut all) = w.start();
    let mut i: usize = 0;
    assert(events@.take(0) =~= Seq::<Option<Event>>::empty());
    while i < events.len() && all.result.is_none()
        invariant
            i <= events.len(),
            w.ready(),
            w.valid(state),
            state == spec_play(*w, events@.take(i as int)).state,
            all.painted() == spec_play(*w, events@.take(i as int)).painted,
            all.result == spec_play(*w, events@.take(i as int)).result,
        decreases events.len() - i,
    {
        let ghost before = all.draws@;
        let mut r = w.step(&mut state, events[i]);
        let ghost added = r.draws@;
        all.draws.append(&mut r.draws);
        all.result = r.result;
        proof {
            assert(events@.take(i + 1).drop_last() =~= events@.take(i as int));
            assert(events@.take(i + 1).last() == events@[i as int]);
            assert(views(before + added) =~= views(before) + views(added));
        }
        i += 1;
    }
    proof {
        if i < events.len() {
            lemma_play_finished(*w, events@, i as int);
        } else {
            assert(events@.take(i as int) =~= events@);
        }
    }
    (state, all)
}

} // verus!
