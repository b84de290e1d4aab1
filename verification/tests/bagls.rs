use nanos_ui::bagls::{Arrow, Bagl, Direction, Draw, Icon, Icons, LabelLine};

#[test]
fn a_new_label_is_empty_and_plain() {
    assert_eq!(LabelLine::new(), LabelLine { text: "", bold: false, dims: None, pos: None });
}

#[test]
fn label_builders_set_one_field_each() {
    let line = LabelLine::new().text("abc").dims(128, 11).pos(0, 26);
    assert_eq!(
        line,
        LabelLine { text: "abc", bold: false, dims: Some((128, 11)), pos: Some((0, 26)) }
    );
    assert_eq!(
        line.bold(),
        LabelLine { text: "abc", bold: true, dims: Some((128, 11)), pos: Some((0, 26)) }
    );
    assert_eq!(line.text("x").text, "x");
}

#[test]
fn display_erases_and_paint_does_not() {
    let line = LabelLine::new().text("abc");
    assert_eq!(line.display(), Draw { erase: true, bagl: Bagl::LabelLine(line) });
    assert_eq!(line.paint(), Draw { erase: false, bagl: Bagl::LabelLine(line) });
    let icon = Icon::new(Icons::CheckBadge).pos(16, 12);
    assert_eq!(icon, Icon { icon: Icons::CheckBadge, pos: Some((16, 12)) });
    assert_eq!(icon.display(), Draw { erase: true, bagl: Bagl::Icon(icon) });
    assert_eq!(icon.paint(), Draw { erase: false, bagl: Bagl::Icon(icon) });
    let arrow = Arrow::new(Direction::Left);
    assert_eq!(arrow, Arrow { direction: Direction::Left, bold: false });
    assert_eq!(arrow.bold(), Arrow { direction: Direction::Left, bold: true });
    assert_eq!(arrow.display(), Draw { erase: true, bagl: Bagl::Arrow(arrow) });
    assert_eq!(arrow.paint(), Draw { erase: false, bagl: Bagl::Arrow(arrow) });
    assert_eq!(Bagl::Icon(icon).display(), icon.display());
    assert_eq!(Bagl::Arrow(arrow).paint(), arrow.paint());
}

#[test]
fn a_new_icon_has_no_place_of_its_own() {
    assert_eq!(Icon::new(Icons::CrossBadge), Icon { icon: Icons::CrossBadge, pos: None });
}
