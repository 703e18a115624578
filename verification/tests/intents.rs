use egui_title_bars::Intent;
use egui_title_bars::close_maximize_minimize;
use egui_title_bars::title_bar_intents;

#[test]
fn close_click_yields_exactly_one_close_intent() {
    // Whatever the maximized flag and the other buttons report, one
    // close click means one close intent.
    for maximized in [false, true] {
        for minimize in [false, true] {
            for maximize in [false, true] {
                let intents = close_maximize_minimize(true, minimize, maximize, maximized);
                let closes = intents.iter().filter(|i| **i == Intent::Close).count();
                assert_eq!(closes, 1);
            }
        }
    }
}

#[test]
fn no_close_click_yields_no_close_intent() {
    for maximized in [false, true] {
        let intents = close_maximize_minimize(false, true, true, maximized);
        assert!(!intents.contains(&Intent::Close));
    }
}

#[test]
fn minimize_click_asks_to_minimize() {
    let intents = close_maximize_minimize(false, true, false, false);
    assert_eq!(intents, vec![Intent::SetMinimized(true)]);
}

#[test]
fn maximize_click_toggles_the_snapshot_flag() {
    // Maximized at frame start: the click asks to leave that state.
    let intents = close_maximize_minimize(false, false, true, true);
    assert_eq!(intents, vec![Intent::SetMaximized(false)]);
    // Not maximized at frame start: the click asks to enter it.
    let intents = close_maximize_minimize(false, false, true, false);
    assert_eq!(intents, vec![Intent::SetMaximized(true)]);
}

#[test]
fn button_intents_come_in_drawing_order() {
    let intents = close_maximize_minimize(true, true, true, false);
    assert_eq!(
        intents,
        vec![
            Intent::Close,
            Intent::SetMinimized(true),
            Intent::SetMaximized(true),
        ]
    );
}

#[test]
fn double_click_toggles_the_snapshot_flag() {
    let intents = title_bar_intents(true, false, true);
    assert_eq!(intents, vec![Intent::SetMaximized(false)]);
    let intents = title_bar_intents(true, false, false);
    assert_eq!(intents, vec![Intent::SetMaximized(true)]);
}

#[test]
fn drag_start_begins_a_window_move() {
    let intents = title_bar_intents(false, true, false);
    assert_eq!(intents, vec![Intent::StartDrag]);
}

#[test]
fn a_quiet_frame_asks_for_nothing() {
    assert!(title_bar_intents(false, false, true).is_empty());
    assert!(close_maximize_minimize(false, false, false, true).is_empty());
}

#[test]
fn double_click_and_drag_report_in_gesture_order() {
    let intents = title_bar_intents(true, true, false);
    assert_eq!(intents, vec![Intent::SetMaximized(true), Intent::StartDrag]);
}
