//! When the windows are painted again. Times are nanoseconds on one clock.
use vstd::prelude::*;

verus! {

/// What is known of a window.
#[derive(Clone, Copy, Debug, PartialEq, Eq, Structural)]
pub struct WindowClock {
    pub visible: bool,
    /// When the window wants to be painted next, if at all.
    pub next_repaint: Option<u64>,
}

/// What to do about a window before waiting.
#[derive(Clone, Copy, Debug, PartialEq, Eq, Structural)]
pub struct WindowPlan {
    /// When the window wants to be painted next after this.
    pub next_repaint: Option<u64>,
    /// Paint it now.
    pub redraw: bool,
}

/// What to do before waiting for events.
#[derive(Clone, Copy, Debug, PartialEq, Eq, Structural)]
pub struct WaitPlan {
    pub main: Option<WindowPlan>,
    pub popup: Option<WindowPlan>,
    /// When to wake up without an event; `None` to wait for one.
    pub wake: Option<u64>,
}

/// The earlier of two times.
pub open spec fn sooner(a: Option<u64>, b: Option<u64>) -> Option<u64> {
    match (a, b) {
        (Some(x), Some(y)) => Some(if x <= y {
            x
        } else {
            y
        }),
        (Some(x), None) => Some(x),
        (None, y) => y,
    }
}

/// The earlier of two times.
pub fn earlier_of(a: Option<u64>, b: Option<u64>) -> (r: Option<u64>)
    ensures
        r == sooner(a, b),
{
    match (a, b) {
        (Some(x), Some(y)) => if x <= y {
            Some(x)
        } else {
            Some(y)
        },
        (Some(x), None) => Some(x),
        (None, y) => y,
    }
}

/// A window asked to be painted at `at`. The earliest wish counts, and a visible window whose
/// time has come is painted at once; a hidden one only when it is shown.
pub fn request(w: WindowClock, at: u64, now: u64) -> (r: WindowPlan)
    ensures
        r == (WindowPlan {
            next_repaint: sooner(w.next_repaint, Some(at)),
            redraw: at <= now && w.visible,
        }),
{
    WindowPlan {
        next_repaint: earlier_of(w.next_repaint, Some(at)),
        redraw: at <= now && w.visible,
    }
}

/// What to do about a window before waiting: a hidden one is left alone, one whose time has come
/// is painted, and any other keeps its time.
pub open spec fn plan_for(w: WindowClock, now: u64) -> WindowPlan {
    match w.next_repaint {
        Some(at) if w.visible && at <= now => WindowPlan { next_repaint: None, redraw: true },
        Some(at) if w.visible => WindowPlan { next_repaint: Some(at), redraw: false },
        _ => WindowPlan { next_repaint: None, redraw: false },
    }
}

/// The time a window still waits for.
pub open spec fn pending(w: Option<WindowClock>, now: u64) -> Option<u64> {
    match w {
        Some(c) => plan_for(c, now).next_repaint,
        None => None,
    }
}

/// What to do about each window.
pub open spec fn plan_for_window(w: Option<WindowClock>, now: u64) -> Option<WindowPlan> {
    match w {
        Some(c) => Some(plan_for(c, now)),
        None => None,
    }
}

fn plan_window(w: WindowClock, now: u64) -> (r: WindowPlan)
    ensures
        r == plan_for(w, now),
{
    match w.next_repaint {
        Some(at) => if !w.visible {
            WindowPlan { next_repaint: None, redraw: false }
        } else if at <= now {
            WindowPlan { next_repaint: None, redraw: true }
        } else {
            WindowPlan { next_repaint: Some(at), redraw: false }
        },
        None => WindowPlan { next_repaint: None, redraw: false },
    }
}

/// What to do before waiting for events.
pub fn about_to_wait(main: Option<WindowClock>, popup: Option<WindowClock>, now: u64) -> (r: WaitPlan)
    ensures
        r == (WaitPlan {
            main: plan_for_window(main, now),
            popup: plan_for_window(popup, now),
            wake: sooner(pending(main, now), pending(popup, now)),
        }),
{
    let main = match main {
        Some(c) => Some(plan_window(c, now)),
        None => None,
    };
    let popup = match popup {
        Some(c) => Some(plan_window(c, now)),
        None => None,
    };
    let first = match main {
        Some(p) => p.next_repaint,
        None => None,
    };
    let second = match popup {
        Some(p) => p.next_repaint,
        None => None,
    };
    WaitPlan { main, popup, wake: earlier_of(first, second) }
}

/// The program never waits for a time that has passed, so it never spins; and it never wakes up
/// for a window that is hidden.
pub proof fn law_waiting_does_not_spin(main: Option<WindowClock>, popup: Option<WindowClock>, now: u64)
    ensures
        sooner(pending(main, now), pending(popup, now)) matches Some(at) ==> at > now,
        (main matches Some(m) ==> !m.visible) && (popup matches Some(p) ==> !p.visible) ==> sooner(
            pending(main, now),
            pending(popup, now),
        ) is None,
{
}

/// No wish is lost: whenever a visible window waits for a time, it is painted now or the program
/// wakes up by then.
pub proof fn law_every_wish_is_met(w: WindowClock, other: Option<WindowClock>, at: u64, now: u64)
    requires
        w.visible,
        w.next_repaint == Some(at),
    ensures
        !plan_for(w, now).redraw ==> (sooner(pending(Some(w), now), pending(other, now)) matches Some(
            wake,
        ) && wake <= at),
{
}

/// A visible window is painted exactly when its time has come, and its wish is then met; until
/// then it keeps its time. A hidden window, and one without a wish, is left alone.
pub proof fn law_windows_are_painted_on_time(w: WindowClock, now: u64)
    ensures
        plan_for(w, now).redraw <==> w.visible && (w.next_repaint matches Some(at) && at <= now),
        plan_for(w, now).redraw ==> plan_for(w, now).next_repaint is None,
        w.visible && (w.next_repaint matches Some(at) && at > now) ==> plan_for(w, now).next_repaint
            == w.next_repaint,
        !w.visible ==> plan_for(w, now).next_repaint is None,
{
}

/// The earlier of two times is one of them and not later than either; a time beats none.
pub proof fn law_the_earlier_time_counts(a: Option<u64>, b: Option<u64>)
    ensures
        a matches Some(x) ==> sooner(a, b) is Some && sooner(a, b)->0 <= x,
        b matches Some(y) ==> sooner(a, b) is Some && sooner(a, b)->0 <= y,
        sooner(a, b) == a || sooner(a, b) == b,
        sooner(a, b) == sooner(b, a),
{
}

/// Each window's plan is its own, and the program wakes for whichever is due first.
pub proof fn law_windows_do_not_disturb_each_other(
    main: WindowClock,
    popup: WindowClock,
    now: u64,
)
    ensures
        plan_for_window(Some(main), now) == Some(plan_for(main, now)),
        plan_for_window(None, now) is None,
        pending(Some(main), now) == plan_for(main, now).next_repaint,
        pending(None, now) is None,
        main.visible && (main.next_repaint matches Some(at) && at > now) ==> sooner(
            pending(Some(main), now),
            pending(Some(popup), now),
        ) is Some,
{
}

} // verus!
