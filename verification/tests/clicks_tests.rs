use core_cube::clicks::{ClickClassifier, ClickEvent, DOUBLE_CLICK_WINDOW_MS, LONG_PRESS_WINDOW_MS};
use core_cube::codec::{ButtonEvent, ButtonStatus};

fn press(time: u64) -> ButtonEvent {
    ButtonEvent { time, button: ButtonStatus::Press }
}

fn release(time: u64) -> ButtonEvent {
    ButtonEvent { time, button: ButtonStatus::Release }
}

#[test]
fn default_windows() {
    let c = ClickClassifier::new(0);
    assert_eq!(c.double_click_window, DOUBLE_CLICK_WINDOW_MS);
    assert_eq!(c.long_press_window, LONG_PRESS_WINDOW_MS);
    assert_eq!(DOUBLE_CLICK_WINDOW_MS, 500);
    assert_eq!(LONG_PRESS_WINDOW_MS, 1500);
}

#[test]
fn single_click_emitted_exactly_once() {
    // Press then release within 50 ms, then nothing past the double-click
    // window: exactly one Single.
    let mut c = ClickClassifier::new(900);
    let history = vec![press(1000), release(1040)];
    // Still inside the window: nothing yet.
    assert_eq!(c.classify_clicks(&history, 1100), ClickEvent::Nothing);
    assert_eq!(c.last_click_cursor, 900);
    // Window elapsed: the Single fires and consumes both events.
    assert_eq!(c.classify_clicks(&history, 1600), ClickEvent::Single);
    assert_eq!(c.last_click_cursor, 1041);
    // Nothing more from the same events.
    assert_eq!(c.classify_clicks(&history, 1700), ClickEvent::Nothing);
}

#[test]
fn double_click_never_preceded_by_single() {
    let mut c = ClickClassifier::new(900);
    // First pair arrives; the window is still open, so no Single fires.
    let first_pair = vec![press(1000), release(1050)];
    assert_eq!(c.classify_clicks(&first_pair, 1200), ClickEvent::Nothing);
    // The second pair lands inside the window: one Double, at once.
    let both_pairs = vec![press(1000), release(1050), press(1200), release(1250)];
    assert_eq!(c.classify_clicks(&both_pairs, 1300), ClickEvent::Double);
    assert_eq!(c.last_click_cursor, 1251);
    // Nothing more from the same events.
    assert_eq!(c.classify_clicks(&both_pairs, 2500), ClickEvent::Nothing);
}

#[test]
fn long_press_emitted_exactly_once() {
    let mut c = ClickClassifier::new(900);
    let history = vec![press(1000)];
    // Held, but the long-press window has not elapsed.
    assert_eq!(c.classify_clicks(&history, 2000), ClickEvent::Nothing);
    // Held past the window: one LongPress.
    assert_eq!(c.classify_clicks(&history, 2500), ClickEvent::LongPress);
    assert_eq!(c.last_click_cursor, 1001);
    assert_eq!(c.classify_clicks(&history, 2600), ClickEvent::Nothing);
}

#[test]
fn leading_release_is_dropped_as_artifact() {
    let mut c = ClickClassifier::new(900);
    let history = vec![release(1000)];
    assert_eq!(c.classify_clicks(&history, 1100), ClickEvent::Nothing);
    // The artifact is consumed: the cursor moved just past it.
    assert_eq!(c.last_click_cursor, 1001);
}

#[test]
fn empty_history_advances_cursor_to_now() {
    let mut c = ClickClassifier::new(900);
    let history: Vec<ButtonEvent> = vec![];
    assert_eq!(c.classify_clicks(&history, 1234), ClickEvent::Nothing);
    assert_eq!(c.last_click_cursor, 1234);
}

#[test]
fn cursor_never_moves_backward() {
    // A press polled at its own millisecond matures into a LongPress and is
    // consumed; a second poll at the same instant must not pull the cursor
    // back over it, and no later poll may emit the same press again.
    let mut c = ClickClassifier::new(0);
    let history = vec![press(1600)];
    assert_eq!(c.classify_clicks(&history, 1600), ClickEvent::LongPress);
    assert_eq!(c.last_click_cursor, 1601);
    assert_eq!(c.classify_clicks(&history, 1600), ClickEvent::Nothing);
    assert_eq!(c.last_click_cursor, 1601);
    assert_eq!(c.classify_clicks(&history, 3200), ClickEvent::Nothing);
    assert_eq!(c.last_click_cursor, 3200);
}

#[test]
fn noise_emits_no_more_than_input_pairs() {
    // Rapid alternating noise, polled often: emissions never outnumber the
    // press/release pairs fed in.
    let mut c = ClickClassifier::new(0);
    let mut history: Vec<ButtonEvent> = Vec::new();
    let mut emitted = 0usize;
    let mut pairs = 0usize;
    let mut t = 10u64;
    for round in 0..20u64 {
        history.push(press(t));
        history.push(release(t + 5));
        pairs += 1;
        t += 10;
        let now = t + (round % 3) * 7;
        if c.classify_clicks(&history, now) != ClickEvent::Nothing {
            emitted += 1;
        }
    }
    // Drain what is still pending.
    let now = t + 1000;
    if c.classify_clicks(&history, now) != ClickEvent::Nothing {
        emitted += 1;
    }
    assert!(emitted <= pairs);
}
