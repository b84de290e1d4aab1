use nanos_ui::bagls::{Arrow, Bagl, Direction, Draw, LabelLine};
use nanos_ui::ui::buttons::Event;
use nanos_ui::ui::message_scroller::{MessageScroller, CHAR_N};
use nanos_ui::ui::widget::{play, Widget};

const TEXT: &str = "0123456789abcdefGHIJKLMNOPQRSTUVz";

fn chunk(text: &'static str) -> Draw<'static> {
    Draw {
        erase: true,
        bagl: Bagl::LabelLine(LabelLine { text, bold: false, dims: None, pos: None }),
    }
}

fn arrow(direction: Direction, bold: bool) -> Draw<'static> {
    Draw { erase: false, bagl: Bagl::Arrow(Arrow { direction, bold }) }
}

#[test]
fn scroller_chunks_hold_sixteen_characters() {
    assert_eq!(CHAR_N, 16);
}

#[test]
fn scroller_counts_pages_rounding_up() {
    assert_eq!(TEXT.len(), 33);
    assert_eq!(MessageScroller::new(TEXT).count_pages(), 3);
    assert_eq!(MessageScroller::new("").count_pages(), 0);
    assert_eq!(MessageScroller::new("a").count_pages(), 1);
    assert_eq!(MessageScroller::new(&TEXT[..16]).count_pages(), 1);
    assert_eq!(MessageScroller::new(&TEXT[..17]).count_pages(), 2);
    assert_eq!(MessageScroller::new(&TEXT[..32]).count_pages(), 2);
}

#[test]
fn scroller_draws_each_page_with_its_arrows() {
    let s = MessageScroller::new(TEXT);
    assert_eq!(s.draw_page(0), vec![chunk("0123456789abcdef"), arrow(Direction::Right, false)]);
    assert_eq!(
        s.draw_page(1),
        vec![
            chunk("GHIJKLMNOPQRSTUV"),
            arrow(Direction::Left, false),
            arrow(Direction::Right, false),
        ]
    );
    assert_eq!(s.draw_page(2), vec![chunk("z"), arrow(Direction::Left, false)]);
}

#[test]
fn scroller_with_one_page_has_no_arrow() {
    let s = MessageScroller::new("short");
    let (page, first) = s.start();
    assert_eq!(page, 0);
    assert_eq!(first.result, None);
    assert_eq!(first.draws, vec![chunk("short")]);
}

#[test]
fn scroller_without_text_ends_at_once() {
    let s = MessageScroller::new("");
    let (page, first) = s.start();
    assert_eq!(page, 0);
    assert_eq!(first.result, Some(()));
    assert_eq!(first.draws, vec![]);
    let r = s.event_loop(&[Some(Event::RightButtonRelease)]);
    assert_eq!(r.result, Some(()));
    assert_eq!(r.draws, vec![]);
}

#[test]
fn scroller_counts_characters_not_bytes() {
    let text = "ééééééééééééééééé";
    assert_eq!(text.chars().count(), 17);
    let s = MessageScroller::new(text);
    assert_eq!(s.count_pages(), 2);
    assert_eq!(
        s.draw_page(0),
        vec![chunk("éééééééééééééééé"), arrow(Direction::Right, false)]
    );
    assert_eq!(s.draw_page(1), vec![chunk("é"), arrow(Direction::Left, false)]);
}

#[test]
fn scroller_redraws_on_a_release_that_does_not_move() {
    let s = MessageScroller::new(TEXT);
    let mut page: usize = 0;
    let r = s.step(&mut page, Some(Event::LeftButtonRelease));
    assert_eq!(page, 0);
    assert_eq!(r.draws, s.draw_page(0));
    let mut page: usize = 2;
    let r = s.step(&mut page, Some(Event::RightButtonRelease));
    assert_eq!(page, 2);
    assert_eq!(r.draws, s.draw_page(2));
    assert_eq!(r.result, None);
}

#[test]
fn scroller_turns_pages() {
    let s = MessageScroller::new(TEXT);
    let mut page: usize = 0;
    let r = s.step(&mut page, Some(Event::RightButtonRelease));
    assert_eq!(page, 1);
    assert_eq!(r.draws, s.draw_page(1));
    s.step(&mut page, Some(Event::RightButtonRelease));
    assert_eq!(page, 2);
    let r = s.step(&mut page, Some(Event::LeftButtonRelease));
    assert_eq!(page, 1);
    assert_eq!(r.draws, s.draw_page(1));
    let events = [Some(Event::RightButtonRelease); 9];
    assert_eq!(play(&s, &events).0, 2);
}

#[test]
fn scroller_presses_emphasize_an_arrow() {
    let s = MessageScroller::new(TEXT);
    let mut page: usize = 1;
    let r = s.step(&mut page, Some(Event::LeftButtonPress));
    assert_eq!(r.draws, vec![arrow(Direction::Left, true)]);
    let r = s.step(&mut page, Some(Event::RightButtonPress));
    assert_eq!(r.draws, vec![arrow(Direction::Right, true)]);
    let r = s.step(&mut page, Some(Event::BothButtonsPress));
    assert_eq!(r.draws, vec![]);
    let r = s.step(&mut page, None);
    assert_eq!(r.draws, vec![]);
    assert_eq!((page, r.result), (1, None));
}

#[test]
fn scroller_ends_on_both_release_only() {
    let s = MessageScroller::new(TEXT);
    let right = Some(Event::RightButtonRelease);
    let left = Some(Event::LeftButtonRelease);
    assert_eq!(s.event_loop(&[right, left, right, None]).result, None);
    let r = s.event_loop(&[right, Some(Event::BothButtonsRelease), right]);
    assert_eq!(r.result, Some(()));
    assert_eq!(r.draws.len(), 2 + 3);
}
