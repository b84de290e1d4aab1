use nanos_ui::bagls::{Arrow, Bagl, Direction, Draw, LabelLine};
use nanos_ui::ui::buttons::Event;
use nanos_ui::ui::menu::Menu;
use nanos_ui::ui::widget::{play, Widget};

const PANELS: [&str; 5] = ["zero", "one", "two", "three", "four"];

fn top(text: &'static str, bold: bool) -> Draw<'static> {
    Draw {
        erase: false,
        bagl: Bagl::LabelLine(LabelLine { text, bold, dims: Some((128, 11)), pos: Some((0, 12)) }),
    }
}

fn bottom(text: &'static str, bold: bool) -> Draw<'static> {
    Draw {
        erase: false,
        bagl: Bagl::LabelLine(LabelLine { text, bold, dims: Some((128, 11)), pos: Some((0, 26)) }),
    }
}

fn arrow(erase: bool, direction: Direction, bold: bool) -> Draw<'static> {
    Draw { erase, bagl: Bagl::Arrow(Arrow { direction, bold }) }
}

#[test]
fn menu_needs_two_panels() {
    assert!(!Menu::new(&[]).is_ready());
    assert!(!Menu::new(&["one"]).is_ready());
    assert!(Menu::new(&["one", "two"]).is_ready());
    assert!(Menu::new(&PANELS).is_ready());
}

#[test]
fn menu_starts_on_the_first_panel() {
    let menu = Menu::new(&PANELS);
    let (index, first) = menu.start();
    assert_eq!(index, 0);
    assert_eq!(first.result, None);
    assert_eq!(
        first.draws,
        vec![
            Draw {
                erase: true,
                bagl: Bagl::LabelLine(LabelLine {
                    text: "one",
                    bold: false,
                    dims: Some((128, 11)),
                    pos: Some((0, 26)),
                }),
            },
            top("zero", true),
            arrow(false, Direction::Up, false),
            arrow(false, Direction::Down, false),
        ]
    );
}

#[test]
fn menu_cursor_stops_at_the_last_panel() {
    let menu = Menu::new(&PANELS);
    let events = [Some(Event::RightButtonRelease); 10];
    let (index, r) = play(&menu, &events);
    assert_eq!(index, 4);
    assert_eq!(r.result, None);
    let mut events = events.to_vec();
    events.push(Some(Event::BothButtonsRelease));
    assert_eq!(menu.show(&events).result, Some(4));
}

#[test]
fn menu_cursor_stops_at_the_first_panel() {
    let menu = Menu::new(&PANELS);
    let mut index: usize = 1;
    menu.step(&mut index, Some(Event::LeftButtonRelease));
    assert_eq!(index, 0);
    menu.step(&mut index, Some(Event::LeftButtonRelease));
    assert_eq!(index, 0);
    let events = [Some(Event::LeftButtonRelease); 7];
    assert_eq!(play(&menu, &events).0, 0);
}

#[test]
fn menu_moves_one_panel_per_release() {
    let menu = Menu::new(&PANELS);
    let right = Some(Event::RightButtonRelease);
    let left = Some(Event::LeftButtonRelease);
    let both = Some(Event::BothButtonsRelease);
    assert_eq!(menu.show(&[both]).result, Some(0));
    assert_eq!(menu.show(&[right, both]).result, Some(1));
    assert_eq!(menu.show(&[right, right, right, both]).result, Some(3));
    assert_eq!(menu.show(&[right, right, left, both]).result, Some(1));
    assert_eq!(menu.show(&[right, right, left]).result, None);
}

#[test]
fn menu_draws_the_pair_that_holds_the_cursor() {
    let menu = Menu::new(&PANELS);
    let arrows = vec![arrow(true, Direction::Up, false), arrow(false, Direction::Down, false)];
    let mut index: usize = 0;
    let r = menu.step(&mut index, Some(Event::RightButtonRelease));
    assert_eq!(r.draws[..2], arrows[..]);
    assert_eq!(r.draws[2..], [top("zero", false), bottom("one", true)]);
    let r = menu.step(&mut index, Some(Event::RightButtonRelease));
    assert_eq!(r.draws[..2], arrows[..]);
    assert_eq!(r.draws[2..], [top("two", true), bottom("three", false)]);
    let r = menu.step(&mut index, Some(Event::RightButtonRelease));
    assert_eq!(r.draws[2..], [top("two", false), bottom("three", true)]);
    assert_eq!(menu.draw_pair(1), vec![arrows[0], arrows[1], top("zero", false), bottom("one", true)]);
}

#[test]
fn menu_last_pair_of_an_odd_list_has_no_lower_label() {
    let menu = Menu::new(&PANELS);
    let mut index: usize = 3;
    let r = menu.step(&mut index, Some(Event::RightButtonRelease));
    assert_eq!(index, 4);
    assert_eq!(
        r.draws,
        vec![
            arrow(true, Direction::Up, false),
            arrow(false, Direction::Down, false),
            top("four", true),
        ]
    );
}

#[test]
fn menu_presses_emphasize_an_arrow() {
    let menu = Menu::new(&PANELS);
    let mut index: usize = 2;
    let r = menu.step(&mut index, Some(Event::LeftButtonPress));
    assert_eq!(r.draws, vec![arrow(false, Direction::Up, true)]);
    assert_eq!((index, r.result), (2, None));
    let r = menu.step(&mut index, Some(Event::RightButtonPress));
    assert_eq!(r.draws, vec![arrow(false, Direction::Down, true)]);
    assert_eq!((index, r.result), (2, None));
}

#[test]
fn menu_both_press_redraws_without_moving() {
    let menu = Menu::new(&PANELS);
    let mut index: usize = 2;
    let r = menu.step(&mut index, Some(Event::BothButtonsPress));
    assert_eq!((index, r.result), (2, None));
    assert_eq!(r.draws, menu.draw_pair(2));
    let r = menu.step(&mut index, None);
    assert_eq!((index, r.result), (2, None));
    assert_eq!(r.draws, vec![]);
}

#[test]
fn menu_both_release_returns_the_index() {
    let menu = Menu::new(&PANELS);
    for start in 0usize..5 {
        let mut index = start;
        let r = menu.step(&mut index, Some(Event::BothButtonsRelease));
        assert_eq!(r.result, Some(start));
        assert_eq!(r.draws, vec![]);
        assert_eq!(index, start);
    }
}
