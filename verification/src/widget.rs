//! The title-bar and decoration-button widgets.
//!
//! Both are rebuilt every frame and discarded after it.  `TitleBar`
//! is configured through a builder and then run once for the frame:
//! given a snapshot of what the host sensed, it yields the geometry to
//! paint and the window-manager intents to send.  `Decoration` is one
//! circular control button; it issues no command itself, the caller
//! reads the reported click.

use vstd::prelude::*;

use crate::geometry::Point;
use crate::geometry::Rect;
use crate::intent::Intent;
use crate::intent::close_maximize_minimize;
use crate::intent::spec_decoration_intents;
use crate::intent::spec_gesture_intents;
use crate::intent::title_bar_intents;
use crate::layout::Align;
use crate::layout::ButtonRow;
use crate::layout::DECORATION_SIZE;
use crate::layout::MIN_DECORATED_WIDTH;
use crate::layout::TITLE_BAR_HEIGHT;
use crate::layout::decoration_row;
use crate::layout::separator_endpoints;
use crate::layout::spec_decoration_row;
use crate::layout::spec_separator;
use crate::layout::spec_title_bar_rect;
use crate::layout::title_bar_rect;

verus! {

/// An opaque sRGB colour, one channel per field.
#[derive(Clone, Copy, Debug, PartialEq, Eq, Structural)]
pub struct Color {
    pub red: u8,
    pub green: u8,
    pub blue: u8,
}

/// The warm red of the close button.
pub open spec fn close_color() -> Color {
    Color { red: 255, green: 97, blue: 87 }
}

/// The amber of the minimize button.
pub open spec fn minimize_color() -> Color {
    Color { red: 255, green: 193, blue: 47 }
}

/// The green of the maximize button.
pub open spec fn maximize_color() -> Color {
    Color { red: 42, green: 203, blue: 66 }
}

/// One circular window-control button: a flat-coloured, fixed-size
/// clickable region.
#[derive(Clone, Copy, Debug, PartialEq, Eq, Structural)]
pub struct Decoration {
    color: Color,
}

/// How to paint one decoration button: its square region filled in the
/// button's colour, with corners rounded by at least half the side so
/// that the square renders as a circle.
#[derive(Clone, Copy, Debug, PartialEq, Eq, Structural)]
pub struct CircleFill {
    pub region: Rect,
    pub corner_radius: i32,
    pub color: Color,
}

impl Decoration {
    /// The button's fill colour.
    pub closed spec fn spec_color(self) -> Color {
        self.color
    }

    /// A button of an arbitrary colour.
    pub fn new(color: Color) -> (d: Decoration)
        ensures
            d.spec_color() == color,
    {
        Decoration { color }
    }

    /// The close button, in its conventional warm red.
    pub fn close() -> (d: Decoration)
        ensures
            d.spec_color() == close_color(),
    {
        Decoration::new(Color { red: 255, green: 97, blue: 87 })
    }

    /// The maximize button, in its conventional green.
    pub fn maximize() -> (d: Decoration)
        ensures
            d.spec_color() == maximize_color(),
    {
        Decoration::new(Color { red: 42, green: 203, blue: 66 })
    }

    /// The minimize button, in its conventional amber.
    pub fn minimize() -> (d: Decoration)
        ensures
            d.spec_color() == minimize_color(),
    {
        Decoration::new(Color { red: 255, green: 193, blue: 47 })
    }

    /// How to paint this button into its allocated region: the whole
    /// region, filled in the button's colour, rounded into a circle.
    pub fn paint(&self, region: &Rect) -> (p: CircleFill)
        requires
            region.wf(),
            region.width() == DECORATION_SIZE,
            region.height() == DECORATION_SIZE,
        ensures
            p.region == *region,
            p.color == self.spec_color(),
            2 * p.corner_radius >= region.width(),
    {
        CircleFill { region: *region, corner_radius: 50, color: self.color }
    }
}

impl Default for Decoration {
    /// A button with every colour channel at zero.
    fn default() -> (d: Decoration)
        ensures
            d.spec_color() == (Color { red: 0, green: 0, blue: 0 }),
    {
        Decoration { color: Color { red: 0, green: 0, blue: 0 } }
    }
}

/// Per-frame configuration of the title-bar strip, built up in
/// builder style and consumed by [`TitleBar::frame`].
#[derive(Debug)]
pub struct TitleBar {
    text: Option<String>,
    decorations: bool,
    align: Align,
}

/// Everything the host sensed on the strip during one frame, read
/// once at frame start.
#[derive(Clone, Copy, Debug)]
pub struct FrameInput {
    /// The window's drawable content rectangle.
    pub content: Rect,
    /// The maximized flag the window manager reported at frame start.
    pub maximized: bool,
    /// The bare strip (outside the buttons, which consume their own
    /// clicks first) was double-clicked.
    pub double_clicked: bool,
    /// A primary-button drag began on the bare strip.
    pub drag_started: bool,
    /// The close button was clicked.
    pub close_clicked: bool,
    /// The minimize button was clicked.
    pub minimize_clicked: bool,
    /// The maximize button was clicked.
    pub maximize_clicked: bool,
}

/// The maximized flag as the strip observes it: what the host's
/// window manager reported at frame start, or `false` where it
/// reported nothing.
pub fn observed_maximized(reported: Option<bool>) -> (m: bool)
    ensures
        m == (match reported {
            Some(b) => b,
            None => false,
        }),
{
    match reported {
        Some(b) => b,
        None => false,
    }
}

/// What one frame of the title bar asks of the host: the geometry to
/// paint and the intents to send, in order.
#[derive(Debug)]
pub struct FrameOutput {
    /// The strip itself; also the region to sense clicks and drags on.
    pub title_bar: Rect,
    /// The configured title text, drawn as a single line.
    pub title: String,
    /// Where the title goes: centred on this point.
    pub title_anchor: Point,
    /// The separator stroke along the strip's bottom edge.
    pub separator: (Point, Point),
    /// The three decoration-button regions.
    pub buttons: ButtonRow,
    /// The window-manager intents this frame gives rise to.
    pub intents: Vec<Intent>,
}

impl TitleBar {
    /// The configured title text, as a sequence of characters.
    pub closed spec fn spec_text(self) -> Option<Seq<char>> {
        match self.text {
            Some(t) => Some(t@),
            None => None,
        }
    }

    /// Whether the decoration-button row is part of the configuration.
    pub closed spec fn spec_decorations(self) -> bool {
        self.decorations
    }

    /// Which edge the decoration-button row hugs.
    pub closed spec fn spec_align(self) -> Align {
        self.align
    }

    /// Whether a title has been configured, which [`TitleBar::frame`]
    /// requires.
    pub fn has_text(&self) -> (b: bool)
        ensures
            b == (self.spec_text() is Some),
    {
        self.text.is_some()
    }

    /// The recorded decoration choice.
    pub fn decorations(&self) -> (b: bool)
        ensures
            b == self.spec_decorations(),
    {
        self.decorations
    }

    /// The configured alignment of the decoration-button row.
    pub fn align(&self) -> (a: Align)
        ensures
            a == self.spec_align(),
    {
        self.align
    }

    /// A title bar with the given title, decorations shown, and the
    /// button row leading.
    pub fn new(text: String) -> (t: TitleBar)
        ensures
            t.spec_text() == Some(text@),
            t.spec_decorations(),
            t.spec_align() == Align::Leading,
    {
        TitleBar::with_text(Some(text))
    }

    /// A title bar with an optional title, decorations shown, and the
    /// button row leading.  [`TitleBar::frame`] insists on a title, so
    /// a caller passing `None` must set one before running the frame.
    pub fn with_text(text: Option<String>) -> (t: TitleBar)
        ensures
            t.spec_text() == (match text {
                Some(s) => Some(s@),
                None => None::<Seq<char>>,
            }),
            t.spec_decorations(),
            t.spec_align() == Align::Leading,
    {
        TitleBar { text, decorations: true, align: Align::Leading }
    }

    /// Record whether the decoration buttons are wanted.  The choice
    /// is kept in the configuration for the embedding application to
    /// read; [`TitleBar::frame`] lays the row out either way.
    pub fn show_decorations(self, decorations: bool) -> (t: TitleBar)
        ensures
            t.spec_text() == self.spec_text(),
            t.spec_decorations() == decorations,
            t.spec_align() == self.spec_align(),
    {
        TitleBar { decorations, ..self }
    }

    /// Choose which edge the decoration-button row hugs.
    pub fn align_decorations(self, align: Align) -> (t: TitleBar)
        ensures
            t.spec_text() == self.spec_text(),
            t.spec_decorations() == self.spec_decorations(),
            t.spec_align() == align,
    {
        TitleBar { align, ..self }
    }

    /// Run one frame of the title bar over the host's snapshot.
    ///
    /// The strip keeps the content rectangle's top edge and width and
    /// is `TITLE_BAR_HEIGHT` units tall; the title is centred in it;
    /// the separator runs along its bottom edge, inset one unit from
    /// each corner; the buttons sit as the configured alignment says.
    /// The intents are the gesture intents of the bare strip followed
    /// by the click intents of the button row, every maximize toggle
    /// negating the maximized flag of the snapshot.
    ///
    /// A title must have been configured, and the content rectangle
    /// must be well formed, leave the strip's far edge representable,
    /// and be wide enough to hold the inset button row.
    pub fn frame(self, input: &FrameInput) -> (out: FrameOutput)
        requires
            self.spec_text() is Some,
            input.content.wf(),
            input.content.min.y + TITLE_BAR_HEIGHT <= i32::MAX,
            input.content.width() >= MIN_DECORATED_WIDTH,
        ensures
            out.title_bar == spec_title_bar_rect(input.content),
            out.title@ == self.spec_text().unwrap(),
            out.title_anchor == spec_title_bar_rect(input.content).spec_center(),
            out.separator == spec_separator(spec_title_bar_rect(input.content)),
            out.buttons == spec_decoration_row(
                spec_title_bar_rect(input.content),
                self.spec_align(),
            ),
            out.intents@ == spec_gesture_intents(
                input.double_clicked,
                input.drag_started,
                input.maximized,
            ) + spec_decoration_intents(
                input.close_clicked,
                input.minimize_clicked,
                input.maximize_clicked,
                input.maximized,
            ),
    {
        let bar = title_bar_rect(&input.content);
        let title = self.text.unwrap();
        let title_anchor = bar.center();
        let separator = separator_endpoints(&bar);
        let buttons = decoration_row(&bar, self.align);
        let mut intents = title_bar_intents(
            input.double_clicked,
            input.drag_started,
            input.maximized,
        );
        let mut clicks = close_maximize_minimize(
            input.close_clicked,
            input.minimize_clicked,
            input.maximize_clicked,
            input.maximized,
        );
        intents.append(&mut clicks);
        FrameOutput { title_bar: bar, title, title_anchor, separator, buttons, intents }
    }
}

impl Default for TitleBar {
    /// No title, no decorations, button row leading: the neutral
    /// configuration, which must still be given a title before a
    /// frame is run.
    fn default() -> (t: TitleBar)
        ensures
            t.spec_text() is None,
            !t.spec_decorations(),
            t.spec_align() == Align::Leading,
    {
        TitleBar { text: None, decorations: false, align: Align::Leading }
    }
}

/// The custom title bar interface: a surface that can run one
/// title-bar strip per frame.  The embedding application implements
/// this for whatever hands it frames.
pub trait CustomTitleBar {
    /// Run a default title bar for the current frame and report what
    /// it asked for, or `None` when the surface cannot host the strip.
    fn title_bar(&mut self) -> Option<FrameOutput>;
}

} // verus!
