//! What can be put on the display: text lines, icons and arrows, and the
//! commands that draw them.
//!
//! The types are plain descriptions. A [`Draw`] says which element goes to the
//! display and whether the screen is erased first; sending it is the caller's
//! business. Contracts speak of the views of these types, in which a text is
//! the sequence of its characters.

use vstd::prelude::*;

verus! {

/// The way an arrow points.
#[derive(Clone, Copy, Debug, PartialEq, Eq)]
pub enum Direction {
    Up,
    Down,
    Left,
    Right,
}

/// The named icons.
#[derive(Clone, Copy, Debug, PartialEq, Eq)]
pub enum Icons {
    CheckBadge,
    CrossBadge,
}

/// An arrow at the edge of the screen, plain or emphasized.
#[derive(Clone, Copy, Debug, PartialEq, Eq)]
pub struct Arrow {
    pub direction: Direction,
    pub bold: bool,
}

/// A named icon. Where `pos` is `None` the display's own placement applies.
#[derive(Clone, Copy, Debug, PartialEq, Eq)]
pub struct Icon {
    pub icon: Icons,
    pub pos: Option<(i16, i16)>,
}

/// One line of text. Where `dims` or `pos` is `None` the display's own
/// placement applies.
#[derive(Clone, Copy, Debug, PartialEq, Eq)]
pub struct LabelLine<'a> {
    pub text: &'a str,
    pub bold: bool,
    pub dims: Option<(u16, u16)>,
    pub pos: Option<(i16, i16)>,
}

/// An element of the display.
#[derive(Clone, Copy, Debug, PartialEq, Eq)]
pub enum Bagl<'a> {
    LabelLine(LabelLine<'a>),
    Icon(Icon),
    Arrow(Arrow),
}

/// A drawing command: the element, and whether the screen is erased before
/// the element is painted.
#[derive(Clone, Copy, Debug, PartialEq, Eq)]
pub struct Draw<'a> {
    pub erase: bool,
    pub bagl: Bagl<'a>,
}

/// A text line as contracts see it.
pub struct LabelLineView {
    pub text: Seq<char>,
    pub bold: bool,
    pub dims: Option<(u16, u16)>,
    pub pos: Option<(i16, i16)>,
}

/// A display element as contracts see it.
pub enum BaglView {
    LabelLine(LabelLineView),
    Icon(Icon),
    Arrow(Arrow),
}

/// A drawing command as contracts see it.
pub struct DrawView {
    pub erase: bool,
    pub bagl: BaglView,
}

impl<'a> View for LabelLine<'a> {
    type V = LabelLineView;

    open spec fn view(&self) -> LabelLineView {
        LabelLineView { text: self.text@, bold: self.bold, dims: self.dims, pos: self.pos }
    }
}

impl<'a> View for Bagl<'a> {
    type V = BaglView;

    open spec fn view(&self) -> BaglView {
        match *self {
            Bagl::LabelLine(l) => BaglView::LabelLine(l@),
            Bagl::Icon(i) => BaglView::Icon(i),
            Bagl::Arrow(a) => BaglView::Arrow(a),
        }
    }
}

impl<'a> View for Draw<'a> {
    type V = DrawView;

    open spec fn view(&self) -> DrawView {
        DrawView { erase: self.erase, bagl: self.bagl@ }
    }
}

/// The views of a sequence of drawing commands, in the same order.
pub open spec fn views<'a>(draws: Seq<Draw<'a>>) -> Seq<DrawView> {
    Seq::new(draws.len(), |i: int| draws[i]@)
}

/// A text line without emphasis and without a placement of its own.
pub open spec fn plain_label(text: Seq<char>) -> LabelLineView {
    LabelLineView { text, bold: false, dims: None, pos: None }
}

impl LabelLineView {
    /// The same line with the given size.
    pub open spec fn dims(self, w: u16, h: u16) -> LabelLineView {
        LabelLineView { dims: Some((w, h)), ..self }
    }

    /// The same line at the given position.
    pub open spec fn pos(self, x: i16, y: i16) -> LabelLineView {
        LabelLineView { pos: Some((x, y)), ..self }
    }

    /// The same line, emphasized.
    pub open spec fn bold(self) -> LabelLineView {
        LabelLineView { bold: true, ..self }
    }

    /// The command that erases the screen and paints this line.
    pub open spec fn display(self) -> DrawView {
        DrawView { erase: true, bagl: BaglView::LabelLine(self) }
    }

    /// The command that paints this line over what is on the screen.
    pub open spec fn paint(self) -> DrawView {
        DrawView { erase: false, bagl: BaglView::LabelLine(self) }
    }
}

/// The command that paints an arrow; `erase` says whether the screen is
/// erased first.
pub open spec fn arrow_draw(erase: bool, direction: Direction, bold: bool) -> DrawView {
    DrawView { erase, bagl: BaglView::Arrow(Arrow { direction, bold }) }
}

/// The command that paints an icon with its upper left corner at `x`, `y`;
/// `erase` says whether the screen is erased first.
pub open spec fn icon_draw(erase: bool, icon: Icons, x: i16, y: i16) -> DrawView {
    DrawView { erase, bagl: BaglView::Icon(Icon { icon, pos: Some((x, y)) }) }
}

impl Arrow {
    /// A plain arrow.
    pub fn new(direction: Direction) -> (a: Arrow)
        ensures
            a == (Arrow { direction, bold: false }),
    {
        Arrow { direction, bold: false }
    }

    /// The same arrow, emphasized.
    pub fn bold(self) -> (a: Arrow)
        ensures
            a == (Arrow { direction: self.direction, bold: true }),
    {
        Arrow { direction: self.direction, bold: true }
    }

    /// The command that erases the screen and paints this arrow.
    pub fn display<'a>(self) -> (d: Draw<'a>)
        ensures
            d@ == arrow_draw(true, self.direction, self.bold),
    {
        Draw { erase: true, bagl: Bagl::Arrow(self) }
    }

    /// The command that paints this arrow over what is on the screen.
    pub fn paint<'a>(self) -> (d: Draw<'a>)
        ensures
            d@ == arrow_draw(false, self.direction, self.bold),
    {
        Draw { erase: false, bagl: Bagl::Arrow(self) }
    }
}

impl Icon {
    /// The icon without a placement of its own.
    pub fn new(icon: Icons) -> (i: Icon)
        ensures
            i == (Icon { icon, pos: None }),
    {
        Icon { icon, pos: None }
    }

    /// The same icon with its upper left corner at `x`, `y`.
    pub fn pos(self, x: i16, y: i16) -> (i: Icon)
        ensures
            i == (Icon { icon: self.icon, pos: Some((x, y)) }),
    {
        Icon { icon: self.icon, pos: Some((x, y)) }
    }

    /// The command that erases the screen and paints this icon.
    pub fn display<'a>(self) -> (d: Draw<'a>)
        ensures
            d@ == (DrawView { erase: true, bagl: BaglView::Icon(self) }),
    {
        Draw { erase: true, bagl: Bagl::Icon(self) }
    }

    /// The command that paints this icon over what is on the screen.
    pub fn paint<'a>(self) -> (d: Draw<'a>)
        ensures
            d@ == (DrawView { erase: false, bagl: BaglView::Icon(self) }),
    {
        Draw { erase: false, bagl: Bagl::Icon(self) }
    }
}

impl<'a> LabelLine<'a> {
    /// An empty line without emphasis and without a placement of its own.
    pub fn new() -> (l: LabelLine<'a>)
        ensures
            l@ == plain_label(""@),
    {
        LabelLine { text: "", bold: false, dims: None, pos: None }
    }

    /// The same line with the given size.
    pub fn dims(self, w: u16, h: u16) -> (l: LabelLine<'a>)
        ensures
            l@ == self@.dims(w, h),
            l.text == self.text,
    {
        LabelLine { text: self.text, bold: self.bold, dims: Some((w, h)), pos: self.pos }
    }

    /// The same line at the given position.
    pub fn pos(self, x: i16, y: i16) -> (l: LabelLine<'a>)
        ensures
            l@ == self@.pos(x, y),
            l.text == self.text,
    {
        LabelLine { text: self.text, bold: self.bold, dims: self.dims, pos: Some((x, y)) }
    }

    /// The same line with another text.
    pub fn text(self, text: &'a str) -> (l: LabelLine<'a>)
        ensures
            l@ == (LabelLineView { text: text@, ..self@ }),
            l.text == text,
    {
        LabelLine { text, bold: self.bold, dims: self.dims, pos: self.pos }
    }

    /// The same line, emphasized.
    pub fn bold(self) -> (l: LabelLine<'a>)
        ensures
            l@ == self@.bold(),
            l.text == self.text,
    {
        LabelLine { text: self.text, bold: true, dims: self.dims, pos: self.pos }
    }

    /// The command that erases the screen and paints this line.
    pub fn display(self) -> (d: Draw<'a>)
        ensures
            d@ == self@.display(),
    {
        Draw { erase: true, bagl: Bagl::LabelLine(self) }
    }

    /// The command that paints this line over what is on the screen.
    pub fn paint(self) -> (d: Draw<'a>)
        ensures
            d@ == self@.paint(),
    {
        Draw { erase: false, bagl: Bagl::LabelLine(self) }
    }
}

impl<'a> Bagl<'a> {
    /// The command that erases the screen and paints this element.
    pub fn display(self) -> (d: Draw<'a>)
        ensures
            d@ == (DrawView { erase: true, bagl: self@ }),
    {
        Draw { erase: true, bagl: self }
    }

    /// The command that paints this element over what is on the screen.
    pub fn paint(self) -> (d: Draw<'a>)
        ensures
            d@ == (DrawView { erase: false, bagl: self@ }),
    {
        Draw { erase: false, bagl: self }
    }
}

} // verus!
