//! Geometry of the title-bar strip: the strip itself, its separator
//! stroke and the row of three decoration buttons.

use vstd::prelude::*;

use crate::geometry::Point;
use crate::geometry::Rect;

verus! {

/// Height of the title-bar strip, in units.
pub const TITLE_BAR_HEIGHT: i32 = 32;

/// Side length of a decoration button's square region, in units.
pub const DECORATION_SIZE: i32 = 12;

/// Gap between consecutive decoration buttons, in units.
pub const DECORATION_GAP: i32 = 8;

/// Inset of the button row from the near vertical edge of the strip,
/// in units.
pub const ROW_INSET: i32 = 8;

/// The narrowest strip that can hold the inset row of three buttons.
pub const MIN_DECORATED_WIDTH: i32 = ROW_INSET + 3 * DECORATION_SIZE + 2 * DECORATION_GAP;

/// Margin shaved off each side of the window's remaining content area,
/// in units.
pub const CONTENT_MARGIN: i32 = 4;

/// Horizontal placement of the decoration-button row inside the strip.
#[derive(Clone, Copy, Debug, PartialEq, Eq, Structural)]
pub enum Align {
    /// The row hugs the left edge of the strip; its buttons read
    /// close, minimize, maximize from left to right.
    Leading,
    /// The mirror image of `Leading`: the row hugs the right edge.
    Trailing,
}

/// The strip keeps the content rectangle's top edge and width and has
/// the fixed height `TITLE_BAR_HEIGHT`.
pub open spec fn spec_title_bar_rect(content: Rect) -> Rect {
    Rect {
        min: content.min,
        max: Point { x: content.max.x, y: (content.min.y + TITLE_BAR_HEIGHT) as i32 },
    }
}

/// The title-bar strip carved out of `content`: same top edge, same
/// width, `TITLE_BAR_HEIGHT` units tall.
pub fn title_bar_rect(content: &Rect) -> (bar: Rect)
    requires
        content.wf(),
        content.min.y + TITLE_BAR_HEIGHT <= i32::MAX,
    ensures
        bar == spec_title_bar_rect(*content),
        bar.wf(),
        bar.min == content.min,
        bar.max.x == content.max.x,
        bar.width() == content.width(),
        bar.height() == TITLE_BAR_HEIGHT,
{
    Rect {
        min: content.min,
        max: Point { x: content.max.x, y: content.min.y + TITLE_BAR_HEIGHT },
    }
}

/// Endpoints of the separator stroke: on the strip's bottom edge,
/// inset one unit from each bottom corner.
pub open spec fn spec_separator(bar: Rect) -> (Point, Point) {
    (
        Point { x: (bar.min.x + 1) as i32, y: bar.max.y },
        Point { x: (bar.max.x - 1) as i32, y: bar.max.y },
    )
}

/// The separator stroke under the title, from one unit right of the
/// strip's bottom-left corner to one unit left of its bottom-right
/// corner.  The strip must be at least two units wide so the inset
/// endpoints do not cross.
pub fn separator_endpoints(bar: &Rect) -> (ends: (Point, Point))
    requires
        bar.wf(),
        bar.width() >= 2,
    ensures
        ends == spec_separator(*bar),
        ends.0.x == bar.min.x + 1,
        ends.1.x == bar.max.x - 1,
        ends.0.y == bar.max.y,
        ends.1.y == bar.max.y,
        ends.0.x <= ends.1.x,
{
    (
        Point { x: bar.min.x + 1, y: bar.max.y },
        Point { x: bar.max.x - 1, y: bar.max.y },
    )
}

/// The three decoration-button regions of one strip, named after the
/// command each button issues.
#[derive(Clone, Copy, Debug, PartialEq, Eq, Structural)]
pub struct ButtonRow {
    pub close: Rect,
    pub minimize: Rect,
    pub maximize: Rect,
}

/// A `DECORATION_SIZE`-square region whose left edge sits at `left`,
/// centred vertically in `bar` (rounded upwards when the leftover
/// space is odd).
pub open spec fn spec_button_at(bar: Rect, left: int) -> Rect {
    let top = bar.min.y + (bar.height() - DECORATION_SIZE) / 2;
    Rect {
        min: Point { x: left as i32, y: top as i32 },
        max: Point { x: (left + DECORATION_SIZE) as i32, y: (top + DECORATION_SIZE) as i32 },
    }
}

/// Where the three buttons sit in `bar`: inset `ROW_INSET` from the
/// near edge, `DECORATION_GAP` apart, in the order close, minimize,
/// maximize walking away from that edge.
pub open spec fn spec_decoration_row(bar: Rect, align: Align) -> ButtonRow {
    let step = DECORATION_SIZE + DECORATION_GAP;
    match align {
        Align::Leading => ButtonRow {
            close: spec_button_at(bar, bar.min.x + ROW_INSET),
            minimize: spec_button_at(bar, bar.min.x + ROW_INSET + step),
            maximize: spec_button_at(bar, bar.min.x + ROW_INSET + 2 * step),
        },
        Align::Trailing => ButtonRow {
            close: spec_button_at(bar, bar.max.x - ROW_INSET - DECORATION_SIZE),
            minimize: spec_button_at(bar, bar.max.x - ROW_INSET - DECORATION_SIZE - step),
            maximize: spec_button_at(bar, bar.max.x - ROW_INSET - DECORATION_SIZE - 2 * step),
        },
    }
}

/// One button region: a `DECORATION_SIZE`-square at `left`, centred
/// vertically in `bar`.
fn button_at(bar: &Rect, left: i32) -> (b: Rect)
    requires
        bar.wf(),
        bar.height() >= DECORATION_SIZE,
        bar.min.x <= left,
        left + DECORATION_SIZE <= bar.max.x,
    ensures
        b == spec_button_at(*bar, left as int),
        b.wf(),
        b.width() == DECORATION_SIZE,
        b.height() == DECORATION_SIZE,
{
    let spare: i32 = (((bar.max.y - bar.min.y - DECORATION_SIZE) as u32) / 2) as i32;
    let top: i32 = bar.min.y + spare;
    Rect {
        min: Point { x: left, y: top },
        max: Point { x: left + DECORATION_SIZE, y: top + DECORATION_SIZE },
    }
}

/// Lay out the decoration-button row inside `bar`.
///
/// Every button region is exactly `DECORATION_SIZE` by
/// `DECORATION_SIZE` units.  For `Align::Leading` the buttons read
/// close, minimize, maximize from left to right, `DECORATION_GAP`
/// apart, with the close button `ROW_INSET` units from the left edge;
/// for `Align::Trailing` the row is mirrored.  The strip must be wide
/// and tall enough to hold the row.
pub fn decoration_row(bar: &Rect, align: Align) -> (row: ButtonRow)
    requires
        bar.wf(),
        bar.height() >= DECORATION_SIZE,
        bar.width() >= MIN_DECORATED_WIDTH,
    ensures
        row == spec_decoration_row(*bar, align),
        row.close.width() == DECORATION_SIZE && row.close.height() == DECORATION_SIZE,
        row.minimize.width() == DECORATION_SIZE && row.minimize.height() == DECORATION_SIZE,
        row.maximize.width() == DECORATION_SIZE && row.maximize.height() == DECORATION_SIZE,
        row.close.wf() && row.minimize.wf() && row.maximize.wf(),
        row.close.min.y == row.minimize.min.y && row.minimize.min.y == row.maximize.min.y,
        row.close.min.y == bar.min.y + (bar.height() - DECORATION_SIZE) / 2,
        align is Leading ==> {
            &&& row.close.min.x == bar.min.x + ROW_INSET
            &&& row.minimize.min.x == row.close.max.x + DECORATION_GAP
            &&& row.maximize.min.x == row.minimize.max.x + DECORATION_GAP
            &&& row.maximize.max.x <= bar.max.x
        },
        align is Trailing ==> {
            &&& row.close.max.x == bar.max.x - ROW_INSET
            &&& row.minimize.max.x == row.close.min.x - DECORATION_GAP
            &&& row.maximize.max.x == row.minimize.min.x - DECORATION_GAP
            &&& bar.min.x <= row.maximize.min.x
        },
{
    let step: i32 = DECORATION_SIZE + DECORATION_GAP;
    match align {
        Align::Leading => {
            let first: i32 = bar.min.x + ROW_INSET;
            ButtonRow {
                close: button_at(bar, first),
                minimize: button_at(bar, first + step),
                maximize: button_at(bar, first + 2 * step),
            }
        },
        Align::Trailing => {
            let first: i32 = bar.max.x - ROW_INSET - DECORATION_SIZE;
            ButtonRow {
                close: button_at(bar, first),
                minimize: button_at(bar, first - step),
                maximize: button_at(bar, first - 2 * step),
            }
        },
    }
}

/// The window area left under the strip: the content rectangle with
/// the strip removed from its top, then shrunk by `CONTENT_MARGIN`
/// units on every side.
pub open spec fn spec_content_area(content: Rect) -> Rect {
    Rect {
        min: Point {
            x: (content.min.x + CONTENT_MARGIN) as i32,
            y: (content.min.y + TITLE_BAR_HEIGHT + CONTENT_MARGIN) as i32,
        },
        max: Point {
            x: (content.max.x - CONTENT_MARGIN) as i32,
            y: (content.max.y - CONTENT_MARGIN) as i32,
        },
    }
}

/// The area left for the window's own contents once the strip and a
/// margin are taken off.  The content rectangle must leave room for
/// both, so that the result is well formed.
pub fn content_area(content: &Rect) -> (area: Rect)
    requires
        content.wf(),
        content.width() >= 2 * CONTENT_MARGIN,
        content.height() >= TITLE_BAR_HEIGHT + 2 * CONTENT_MARGIN,
    ensures
        area == spec_content_area(*content),
        area.wf(),
        area.min.y == spec_title_bar_rect(*content).max.y + CONTENT_MARGIN,
{
    Rect {
        min: Point {
            x: content.min.x + CONTENT_MARGIN,
            y: content.min.y + TITLE_BAR_HEIGHT + CONTENT_MARGIN,
        },
        max: Point {
            x: content.max.x - CONTENT_MARGIN,
            y: content.max.y - CONTENT_MARGIN,
        },
    }
}

} // verus!
