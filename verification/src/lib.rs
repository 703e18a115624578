//! Window-chrome widgets for applications that draw their own title bar.
//!
//! The crate computes the geometry of a fixed-height title-bar strip
//! (its rectangle, separator line and the row of close / minimize /
//! maximize buttons) and translates the gestures sensed on that strip
//! into window-manager intents.  All coordinates are whole units; the
//! embedding application maps them onto its renderer.

mod geometry;
mod intent;
mod layout;
mod widget;

pub use geometry::Point;
pub use geometry::Rect;
pub use intent::Intent;
pub use intent::close_maximize_minimize;
pub use intent::count_intent;
pub use intent::lemma_close_click_closes_once;
pub use intent::lemma_double_click_toggles_snapshot;
pub use intent::lemma_frame_close_once;
pub use intent::lemma_maximize_click_toggles_snapshot;
pub use intent::spec_decoration_intents;
pub use intent::spec_gesture_intents;
pub use intent::title_bar_intents;
pub use layout::Align;
pub use layout::ButtonRow;
pub use layout::CONTENT_MARGIN;
pub use layout::DECORATION_GAP;
pub use layout::DECORATION_SIZE;
pub use layout::MIN_DECORATED_WIDTH;
pub use layout::ROW_INSET;
pub use layout::TITLE_BAR_HEIGHT;
pub use layout::content_area;
pub use layout::decoration_row;
pub use layout::separator_endpoints;
pub use layout::title_bar_rect;
pub use widget::CircleFill;
pub use widget::Color;
pub use widget::CustomTitleBar;
pub use widget::Decoration;
pub use widget::FrameInput;
pub use widget::FrameOutput;
pub use widget::TitleBar;
pub use widget::close_color;
pub use widget::maximize_color;
pub use widget::minimize_color;
pub use widget::observed_maximized;
