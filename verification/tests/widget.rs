use egui_title_bars::Align;
use egui_title_bars::Color;
use egui_title_bars::Decoration;
use egui_title_bars::FrameInput;
use egui_title_bars::Intent;
use egui_title_bars::Point;
use egui_title_bars::Rect;
use egui_title_bars::TitleBar;

fn rect(x0: i32, y0: i32, x1: i32, y1: i32) -> Rect {
    Rect {
        min: Point { x: x0, y: y0 },
        max: Point { x: x1, y: y1 },
    }
}

fn quiet_input(content: Rect, maximized: bool) -> FrameInput {
    FrameInput {
        content,
        maximized,
        double_clicked: false,
        drag_started: false,
        close_clicked: false,
        minimize_clicked: false,
        maximize_clicked: false,
    }
}

#[test]
fn decoration_colors_follow_the_desktop_convention() {
    let red = Color { red: 255, green: 97, blue: 87 };
    let amber = Color { red: 255, green: 193, blue: 47 };
    let green = Color { red: 42, green: 203, blue: 66 };
    assert_eq!(Decoration::close(), Decoration::new(red));
    assert_eq!(Decoration::minimize(), Decoration::new(amber));
    assert_eq!(Decoration::maximize(), Decoration::new(green));
}

#[test]
fn decoration_paints_its_region_as_a_circle() {
    let region = rect(8, 10, 20, 22);
    let paint = Decoration::close().paint(&region);
    assert_eq!(paint.region, region);
    assert_eq!(paint.color, Color { red: 255, green: 97, blue: 87 });
    assert!(2 * paint.corner_radius >= region.max.x - region.min.x);
}

#[test]
fn default_decoration_is_black() {
    assert_eq!(
        Decoration::default(),
        Decoration::new(Color { red: 0, green: 0, blue: 0 })
    );
}

#[test]
fn frame_lays_out_strip_separator_and_buttons() {
    let out = TitleBar::new(String::from("a window"))
        .frame(&quiet_input(rect(0, 0, 400, 100), false));
    assert_eq!(out.title_bar, rect(0, 0, 400, 32));
    assert_eq!(out.title, "a window");
    assert_eq!(out.title_anchor, Point { x: 200, y: 16 });
    assert_eq!(out.separator.0, Point { x: 1, y: 32 });
    assert_eq!(out.separator.1, Point { x: 399, y: 32 });
    assert_eq!(out.buttons.close, rect(8, 10, 20, 22));
    assert_eq!(out.buttons.minimize, rect(28, 10, 40, 22));
    assert_eq!(out.buttons.maximize, rect(48, 10, 60, 22));
    assert!(out.intents.is_empty());
}

#[test]
fn frame_mirrors_the_row_for_trailing_alignment() {
    let out = TitleBar::new(String::from("t"))
        .align_decorations(Align::Trailing)
        .frame(&quiet_input(rect(0, 0, 400, 100), false));
    assert_eq!(out.buttons.close, rect(380, 10, 392, 22));
    assert_eq!(out.buttons.minimize, rect(360, 10, 372, 22));
    assert_eq!(out.buttons.maximize, rect(340, 10, 352, 22));
}

#[test]
fn frame_reports_gestures_before_button_clicks() {
    let mut input = quiet_input(rect(0, 0, 400, 100), false);
    input.double_clicked = true;
    input.close_clicked = true;
    let out = TitleBar::new(String::from("t")).frame(&input);
    assert_eq!(out.intents, vec![Intent::SetMaximized(true), Intent::Close]);
}

#[test]
fn frame_toggle_uses_the_flag_observed_at_frame_start() {
    // Maximized when the frame began: both the double click and the
    // maximize button ask to leave that state, each against the same
    // snapshot.
    let mut input = quiet_input(rect(0, 0, 400, 100), true);
    input.double_clicked = true;
    input.maximize_clicked = true;
    let out = TitleBar::new(String::from("t")).frame(&input);
    assert_eq!(
        out.intents,
        vec![Intent::SetMaximized(false), Intent::SetMaximized(false)]
    );
}

#[test]
fn builders_chain_and_keep_earlier_choices() {
    let out = TitleBar::with_text(Some(String::from("kept")))
        .show_decorations(false)
        .align_decorations(Align::Trailing)
        .frame(&quiet_input(rect(0, 0, 400, 100), false));
    assert_eq!(out.title, "kept");
    // Trailing alignment chosen after the decoration flag still holds.
    assert_eq!(out.buttons.close, rect(380, 10, 392, 22));
}

#[test]
fn configuration_getters_report_the_builder_choices() {
    let bar = TitleBar::new(String::from("t"));
    assert!(bar.has_text());
    assert!(bar.decorations());
    assert_eq!(bar.align(), Align::Leading);
    let bar = bar.show_decorations(false).align_decorations(Align::Trailing);
    assert!(!bar.decorations());
    assert_eq!(bar.align(), Align::Trailing);
    assert!(!TitleBar::with_text(None).has_text());
}

#[test]
fn default_title_bar_is_bare() {
    let bar = TitleBar::default();
    assert!(!bar.has_text());
    assert!(!bar.decorations());
    assert_eq!(bar.align(), Align::Leading);
}

#[test]
fn an_unreported_maximized_flag_counts_as_not_maximized() {
    assert!(!egui_title_bars::observed_maximized(None));
    assert!(egui_title_bars::observed_maximized(Some(true)));
    assert!(!egui_title_bars::observed_maximized(Some(false)));
}

#[test]
fn frame_accepts_an_offset_content_rectangle() {
    let out = TitleBar::new(String::from("t"))
        .frame(&quiet_input(rect(100, 50, 300, 250), false));
    assert_eq!(out.title_bar, rect(100, 50, 300, 82));
    assert_eq!(out.separator.0, Point { x: 101, y: 82 });
    assert_eq!(out.separator.1, Point { x: 299, y: 82 });
    assert_eq!(out.buttons.close, rect(108, 60, 120, 72));
}
