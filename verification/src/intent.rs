//! Window-manager intents and the rules that turn the gestures sensed
//! on the strip into them.
//!
//! An intent is fire-and-forget: the widget only requests a change,
//! the host window manager applies it.  The maximized flag is the one
//! piece of window state the rules read, and it is a snapshot taken at
//! frame start, so every toggle issued during a frame negates the
//! pre-click value.

use vstd::prelude::*;

verus! {

/// A command for the host window manager.
#[derive(Clone, Copy, Debug, PartialEq, Eq, Structural)]
pub enum Intent {
    /// Close the window.
    Close,
    /// Give the window's minimized state this value.
    SetMinimized(bool),
    /// Give the window's maximized state this value.
    SetMaximized(bool),
    /// Begin an interactive window move.
    StartDrag,
}

/// How often `what` occurs in `s`.
pub open spec fn count_intent(s: Seq<Intent>, what: Intent) -> int
    decreases s.len(),
{
    if s.len() == 0 {
        0
    } else {
        count_intent(s.drop_last(), what) + if s.last() == what { 1int } else { 0int }
    }
}

/// Counting distributes over concatenation.
proof fn lemma_count_intent_add(a: Seq<Intent>, b: Seq<Intent>, what: Intent)
    ensures
        count_intent(a + b, what) == count_intent(a, what) + count_intent(b, what),
    decreases b.len(),
{
    if b.len() == 0 {
        assert(a + b =~= a);
    } else {
        lemma_count_intent_add(a, b.drop_last(), what);
        assert((a + b).drop_last() =~= a + b.drop_last());
    }
}

/// The intents issued for the gestures sensed on the bare strip: a
/// double click asks to give the maximized state the negation of the
/// flag observed at frame start, and a primary-button drag start asks
/// to begin a window move, in that order.
pub open spec fn spec_gesture_intents(
    double_clicked: bool,
    drag_started: bool,
    maximized: bool,
) -> Seq<Intent> {
    let on_double: Seq<Intent> = if double_clicked {
        seq![Intent::SetMaximized(!maximized)]
    } else {
        Seq::empty()
    };
    let on_drag: Seq<Intent> = if drag_started {
        seq![Intent::StartDrag]
    } else {
        Seq::empty()
    };
    on_double + on_drag
}

/// The intents issued for the clicks sensed on the button row, in the
/// order the buttons are drawn: close asks to close the window,
/// minimize asks to minimize it, and maximize asks to give the
/// maximized state the negation of the flag observed at frame start.
pub open spec fn spec_decoration_intents(
    close_clicked: bool,
    minimize_clicked: bool,
    maximize_clicked: bool,
    maximized: bool,
) -> Seq<Intent> {
    let on_close: Seq<Intent> = if close_clicked {
        seq![Intent::Close]
    } else {
        Seq::empty()
    };
    let on_minimize: Seq<Intent> = if minimize_clicked {
        seq![Intent::SetMinimized(true)]
    } else {
        Seq::empty()
    };
    let on_maximize: Seq<Intent> = if maximize_clicked {
        seq![Intent::SetMaximized(!maximized)]
    } else {
        Seq::empty()
    };
    on_close + on_minimize + on_maximize
}

/// Translate the gestures sensed on the bare strip.
pub fn title_bar_intents(
    double_clicked: bool,
    drag_started: bool,
    maximized: bool,
) -> (r: Vec<Intent>)
    ensures
        r@ == spec_gesture_intents(double_clicked, drag_started, maximized),
        double_clicked ==> r@.contains(Intent::SetMaximized(!maximized)),
{
    let mut r: Vec<Intent> = Vec::new();
    if double_clicked {
        r.push(Intent::SetMaximized(!maximized));
    }
    if drag_started {
        r.push(Intent::StartDrag);
    }
    proof {
        assert(r@ =~= spec_gesture_intents(double_clicked, drag_started, maximized));
        if double_clicked {
            assert(r@[0] == Intent::SetMaximized(!maximized));
        }
    }
    r
}

/// Translate the clicks sensed on the button row.
pub fn close_maximize_minimize(
    close_clicked: bool,
    minimize_clicked: bool,
    maximize_clicked: bool,
    maximized: bool,
) -> (r: Vec<Intent>)
    ensures
        r@ == spec_decoration_intents(
            close_clicked,
            minimize_clicked,
            maximize_clicked,
            maximized,
        ),
        close_clicked ==> r@.contains(Intent::Close),
        maximize_clicked ==> r@.contains(Intent::SetMaximized(!maximized)),
{
    let mut r: Vec<Intent> = Vec::new();
    if close_clicked {
        r.push(Intent::Close);
    }
    if minimize_clicked {
        r.push(Intent::SetMinimized(true));
    }
    if maximize_clicked {
        r.push(Intent::SetMaximized(!maximized));
    }
    proof {
        assert(r@ =~= spec_decoration_intents(
            close_clicked,
            minimize_clicked,
            maximize_clicked,
            maximized,
        ));
        if close_clicked {
            assert(r@[0] == Intent::Close);
        }
        if maximize_clicked {
            assert(r@[r@.len() - 1] == Intent::SetMaximized(!maximized));
        }
    }
    r
}

/// Counting an intent in a sequence of length at most one is a case
/// split the solver can make on its own once the definition is
/// unrolled far enough.
proof fn lemma_count_intent_short(s: Seq<Intent>, what: Intent)
    requires
        s.len() <= 1,
    ensures
        count_intent(s, what) == if s.len() == 1 && s[0] == what { 1int } else { 0int },
{
    reveal_with_fuel(count_intent, 2);
    if s.len() == 1 {
        assert(s.last() == s[0]);
        assert(s.drop_last().len() == 0);
    }
}

/// Counting over the decoration intents comes down to the three
/// single-button sequences.
proof fn lemma_count_decoration(
    close_clicked: bool,
    minimize_clicked: bool,
    maximize_clicked: bool,
    maximized: bool,
    what: Intent,
)
    ensures
        count_intent(
            spec_decoration_intents(close_clicked, minimize_clicked, maximize_clicked, maximized),
            what,
        ) == count_intent(if close_clicked { seq![Intent::Close] } else { Seq::empty() }, what)
            + count_intent(
                if minimize_clicked { seq![Intent::SetMinimized(true)] } else { Seq::empty() },
                what,
            )
            + count_intent(
                if maximize_clicked { seq![Intent::SetMaximized(!maximized)] } else { Seq::empty() },
                what,
            ),
{
    let on_close: Seq<Intent> = if close_clicked { seq![Intent::Close] } else { Seq::empty() };
    let on_minimize: Seq<Intent> = if minimize_clicked {
        seq![Intent::SetMinimized(true)]
    } else {
        Seq::empty()
    };
    let on_maximize: Seq<Intent> = if maximize_clicked {
        seq![Intent::SetMaximized(!maximized)]
    } else {
        Seq::empty()
    };
    lemma_count_intent_add(on_close + on_minimize, on_maximize, what);
    lemma_count_intent_add(on_close, on_minimize, what);
}

/// A click on the close button yields exactly one close-window intent,
/// and no close-window intent is issued without it, whatever the other
/// buttons and the maximized flag were.
pub proof fn lemma_close_click_closes_once(
    close_clicked: bool,
    minimize_clicked: bool,
    maximize_clicked: bool,
    maximized: bool,
)
    ensures
        count_intent(
            spec_decoration_intents(close_clicked, minimize_clicked, maximize_clicked, maximized),
            Intent::Close,
        ) == if close_clicked { 1int } else { 0int },
{
    lemma_count_decoration(close_clicked, minimize_clicked, maximize_clicked, maximized, Intent::Close);
    lemma_count_intent_short(
        if close_clicked { seq![Intent::Close] } else { Seq::empty() },
        Intent::Close,
    );
    lemma_count_intent_short(
        if minimize_clicked { seq![Intent::SetMinimized(true)] } else { Seq::empty() },
        Intent::Close,
    );
    lemma_count_intent_short(
        if maximize_clicked { seq![Intent::SetMaximized(!maximized)] } else { Seq::empty() },
        Intent::Close,
    );
}

/// A click on the maximize button toggles against the snapshot: it
/// yields exactly one intent that gives the maximized state the
/// negation of the flag observed at frame start, and no intent that
/// would set it back to the observed value.
pub proof fn lemma_maximize_click_toggles_snapshot(
    close_clicked: bool,
    minimize_clicked: bool,
    maximized: bool,
)
    ensures
        count_intent(
            spec_decoration_intents(close_clicked, minimize_clicked, true, maximized),
            Intent::SetMaximized(!maximized),
        ) == 1,
        count_intent(
            spec_decoration_intents(close_clicked, minimize_clicked, true, maximized),
            Intent::SetMaximized(maximized),
        ) == 0,
{
    let toggled = Intent::SetMaximized(!maximized);
    let kept = Intent::SetMaximized(maximized);
    let on_close: Seq<Intent> = if close_clicked { seq![Intent::Close] } else { Seq::empty() };
    let on_minimize: Seq<Intent> = if minimize_clicked {
        seq![Intent::SetMinimized(true)]
    } else {
        Seq::empty()
    };
    lemma_count_decoration(close_clicked, minimize_clicked, true, maximized, toggled);
    lemma_count_decoration(close_clicked, minimize_clicked, true, maximized, kept);
    lemma_count_intent_short(on_close, toggled);
    lemma_count_intent_short(on_minimize, toggled);
    lemma_count_intent_short(seq![toggled], toggled);
    lemma_count_intent_short(on_close, kept);
    lemma_count_intent_short(on_minimize, kept);
    lemma_count_intent_short(seq![toggled], kept);
}

/// Over a whole frame — the gesture intents of the bare strip
/// followed by the click intents of the button row — a close click
/// still yields exactly one close-window intent, and nothing else
/// ever yields one, whatever the gestures, the other buttons and the
/// maximized flag were.
pub proof fn lemma_frame_close_once(
    double_clicked: bool,
    drag_started: bool,
    close_clicked: bool,
    minimize_clicked: bool,
    maximize_clicked: bool,
    maximized: bool,
)
    ensures
        count_intent(
            spec_gesture_intents(double_clicked, drag_started, maximized)
                + spec_decoration_intents(
                close_clicked,
                minimize_clicked,
                maximize_clicked,
                maximized,
            ),
            Intent::Close,
        ) == if close_clicked { 1int } else { 0int },
{
    let gestures = spec_gesture_intents(double_clicked, drag_started, maximized);
    let clicks = spec_decoration_intents(
        close_clicked,
        minimize_clicked,
        maximize_clicked,
        maximized,
    );
    lemma_count_intent_add(gestures, clicks, Intent::Close);
    lemma_close_click_closes_once(close_clicked, minimize_clicked, maximize_clicked, maximized);
    let on_double: Seq<Intent> = if double_clicked {
        seq![Intent::SetMaximized(!maximized)]
    } else {
        Seq::empty()
    };
    let on_drag: Seq<Intent> = if drag_started { seq![Intent::StartDrag] } else { Seq::empty() };
    lemma_count_intent_add(on_double, on_drag, Intent::Close);
    lemma_count_intent_short(on_double, Intent::Close);
    lemma_count_intent_short(on_drag, Intent::Close);
}

/// A double click on the bare strip toggles against the snapshot in
/// the same way: exactly one intent carrying the negated flag, none
/// carrying the observed one.
pub proof fn lemma_double_click_toggles_snapshot(drag_started: bool, maximized: bool)
    ensures
        count_intent(
            spec_gesture_intents(true, drag_started, maximized),
            Intent::SetMaximized(!maximized),
        ) == 1,
        count_intent(
            spec_gesture_intents(true, drag_started, maximized),
            Intent::SetMaximized(maximized),
        ) == 0,
{
    let toggled = Intent::SetMaximized(!maximized);
    let kept = Intent::SetMaximized(maximized);
    let on_drag: Seq<Intent> = if drag_started { seq![Intent::StartDrag] } else { Seq::empty() };
    lemma_count_intent_add(seq![toggled], on_drag, toggled);
    lemma_count_intent_add(seq![toggled], on_drag, kept);
    lemma_count_intent_short(seq![toggled], toggled);
    lemma_count_intent_short(on_drag, toggled);
    lemma_count_intent_short(seq![toggled], kept);
    lemma_count_intent_short(on_drag, kept);
}

} // verus!
