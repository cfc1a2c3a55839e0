//! Button-click classification: turning the timestamped press/release stream
//! into discrete click events.
//!
//! Classification is deferred: a lone press becomes a long press only once
//! the long-press window has elapsed, a complete press/release pair becomes a
//! single click only once the double-click window has elapsed without a
//! second press, and three or more events inside the window become a double
//! click at once. The classifier keeps one cursor into the history; consumed
//! events fall behind the cursor and are never revisited.

use vstd::prelude::*;

use crate::codec::{ButtonEvent, ButtonStatus};

verus! {

/// A discrete click, classified from the raw press/release stream.
#[derive(Debug, Copy, Clone, PartialEq, Eq, Structural)]
pub enum ClickEvent {
    Nothing,
    Single,
    Double,
    LongPress,
}

/// Default width of the double-click window, in milliseconds.
pub const DOUBLE_CLICK_WINDOW_MS: u64 = 500;

/// Default width of the long-press window, in milliseconds.
pub const LONG_PRESS_WINDOW_MS: u64 = 1500;

/// Classifier state: the cursor into the event history and the two
/// configured windows. Events with a timestamp below the cursor are consumed
/// and never looked at again.
#[derive(Debug, Copy, Clone, PartialEq, Eq, Structural)]
pub struct ClickClassifier {
    pub last_click_cursor: u64,
    pub double_click_window: u64,
    pub long_press_window: u64,
}

/// A press at the given time.
pub open spec fn press_at(t: u64) -> ButtonEvent {
    ButtonEvent { time: t, button: ButtonStatus::Press }
}

/// A release at the given time.
pub open spec fn release_at(t: u64) -> ButtonEvent {
    ButtonEvent { time: t, button: ButtonStatus::Release }
}

/// The history arrives in order: timestamps never decrease.
pub open spec fn events_sorted(s: Seq<ButtonEvent>) -> bool {
    forall|i: int, j: int| 0 <= i <= j < s.len() ==> (#[trigger] s[i]).time <= (#[trigger] s[j]).time
}

/// How many leading events lie behind the cursor and are discarded.
pub open spec fn stale_prefix(s: Seq<ButtonEvent>, cursor: u64) -> int
    decreases s.len(),
{
    if s.len() == 0 {
        0
    } else if s[0].time >= cursor {
        0
    } else {
        1 + stale_prefix(s.drop_first(), cursor)
    }
}

/// The stale prefix is a prefix: everything before it is behind the cursor
/// and the first event after it (if any) is not.
pub proof fn lemma_stale_prefix_bounds(s: Seq<ButtonEvent>, cursor: u64)
    ensures
        0 <= stale_prefix(s, cursor) <= s.len(),
        forall|k: int| 0 <= k < stale_prefix(s, cursor) ==> (#[trigger] s[k]).time < cursor,
        stale_prefix(s, cursor) < s.len() ==> s[stale_prefix(s, cursor)].time >= cursor,
    decreases s.len(),
{
    if s.len() > 0 && s[0].time < cursor {
        lemma_stale_prefix_bounds(s.drop_first(), cursor);
        assert forall|k: int| 0 <= k < stale_prefix(s, cursor) implies (#[trigger] s[k]).time
            < cursor by {
            if k > 0 {
                assert(s.drop_first()[k - 1] == s[k]);
            }
        }
        if stale_prefix(s, cursor) < s.len() {
            assert(s.drop_first()[stale_prefix(s, cursor) - 1] == s[stale_prefix(s, cursor)]);
        }
    }
}

/// A scan that stops at the first event at or past the cursor has found the
/// stale prefix.
pub proof fn lemma_stale_prefix_is_first(s: Seq<ButtonEvent>, cursor: u64, i: int)
    requires
        0 <= i <= s.len(),
        forall|k: int| 0 <= k < i ==> (#[trigger] s[k]).time < cursor,
        i < s.len() ==> s[i].time >= cursor,
    ensures
        stale_prefix(s, cursor) == i,
    decreases i,
{
    if i > 0 {
        lemma_stale_prefix_is_first(s.drop_first(), cursor, i - 1);
    }
}

/// When every event lies behind the cursor, the whole history is stale.
pub proof fn lemma_all_stale(s: Seq<ButtonEvent>, cursor: u64)
    requires
        forall|k: int| 0 <= k < s.len() ==> (#[trigger] s[k]).time < cursor,
    ensures
        stale_prefix(s, cursor) == s.len(),
    decreases s.len(),
{
    if s.len() > 0 {
        lemma_all_stale(s.drop_first(), cursor);
    }
}

/// Classifies the events left after discarding the stale prefix and a
/// leading release artifact; `cursor` is the cursor as adjusted by those
/// steps. One still-open press matures into a long press once its window
/// elapses; a complete pair matures into a single click once the double-click
/// window elapses; three or more events are a double click at once. While a
/// window is still open, nothing is emitted and the cursor stays.
pub open spec fn classify_tail(dw: u64, lw: u64, cursor: int, rem: Seq<ButtonEvent>, now: u64) -> (
    ClickEvent,
    int,
) {
    if rem.len() == 0 {
        (ClickEvent::Nothing, cursor)
    } else if rem.len() == 1 {
        if now - cursor > lw {
            (ClickEvent::LongPress, rem[0].time + 1)
        } else {
            (ClickEvent::Nothing, cursor)
        }
    } else if rem.len() == 2 {
        if now - cursor > dw {
            (ClickEvent::Single, rem[1].time + 1)
        } else {
            (ClickEvent::Nothing, cursor)
        }
    } else {
        (ClickEvent::Double, rem[rem.len() - 1].time + 1)
    }
}

/// One classification step: the click it emits and where the cursor moves.
/// Events behind the cursor are discarded; an empty remainder advances the
/// cursor to `now` — clamped so that the cursor never moves backward and no
/// consumed event is ever revisited; a leading release is the artifact of an
/// already-consumed press and is dropped, the cursor advancing just past it.
pub open spec fn classify_model(
    dw: u64,
    lw: u64,
    cursor: u64,
    history: Seq<ButtonEvent>,
    now: u64,
) -> (ClickEvent, int) {
    let live = history.subrange(stale_prefix(history, cursor), history.len() as int);
    if live.len() == 0 {
        (
            ClickEvent::Nothing,
            if now > cursor {
                now as int
            } else {
                cursor as int
            },
        )
    } else if live[0].button == ButtonStatus::Release {
        classify_tail(dw, lw, live[0].time + 1, live.drop_first(), now)
    } else {
        classify_tail(dw, lw, cursor as int, live, now)
    }
}

impl ClickClassifier {
    /// A classifier whose cursor starts at the given time, with the
    /// default windows.
    pub fn new(start: u64) -> (r: Self)
        ensures
            r.last_click_cursor == start,
            r.double_click_window == DOUBLE_CLICK_WINDOW_MS,
            r.long_press_window == LONG_PRESS_WINDOW_MS,
    {
        ClickClassifier {
            last_click_cursor: start,
            double_click_window: DOUBLE_CLICK_WINDOW_MS,
            long_press_window: LONG_PRESS_WINDOW_MS,
        }
    }

    /// A classifier with caller-chosen windows.
    pub fn with_windows(start: u64, double_click_window: u64, long_press_window: u64) -> (r: Self)
        ensures
            r.last_click_cursor == start,
            r.double_click_window == double_click_window,
            r.long_press_window == long_press_window,
    {
        ClickClassifier { last_click_cursor: start, double_click_window, long_press_window }
    }

    /// Classifies the button history as of `now` and advances the cursor,
    /// exactly as `classify_model` gives.
    pub fn classify_clicks(&mut self, history: &Vec<ButtonEvent>, now: u64) -> (e: ClickEvent)
        requires
            events_sorted(history@),
            forall|i: int| 0 <= i < history@.len() ==> (#[trigger] history@[i]).time <= now,
            now < u64::MAX,
        ensures
            final(self).double_click_window == old(self).double_click_window,
            final(self).long_press_window == old(self).long_press_window,
            ({
                let (ev, c2) = classify_model(
                    old(self).double_click_window,
                    old(self).long_press_window,
                    old(self).last_click_cursor,
                    history@,
                    now,
                );
                e == ev && final(self).last_click_cursor == c2
            }),
    {
        let cursor = self.last_click_cursor;
        let n_total = history.len();
        let mut start: usize = 0;
        while start < n_total && history[start].time < cursor
            invariant
                n_total == history@.len(),
                start <= n_total,
                forall|k: int| 0 <= k < start ==> (#[trigger] history@[k]).time < cursor,
            decreases n_total - start,
        {
            start = start + 1;
        }
        proof {
            lemma_stale_prefix_is_first(history@, cursor, start as int);
        }
        let ghost live = history@.subrange(start as int, history@.len() as int);
        if start == n_total {
            if now > cursor {
                self.last_click_cursor = now;
            }
            return ClickEvent::Nothing;
        }
        let mut begin = start;
        let mut cur: u64 = cursor;
        let first = history[begin];
        if matches!(first.button, ButtonStatus::Release) {
            cur = first.time + 1;
            begin = begin + 1;
        }
        let ghost rem = history@.subrange(begin as int, history@.len() as int);
        proof {
            if begin > start {
                assert(rem =~= live.drop_first());
            } else {
                assert(rem =~= live);
            }
        }
        let n = n_total - begin;
        if n == 0 {
            self.last_click_cursor = cur;
            ClickEvent::Nothing
        } else if n == 1 {
            if now > cur && now - cur > self.long_press_window {
                self.last_click_cursor = history[begin].time + 1;
                ClickEvent::LongPress
            } else {
                self.last_click_cursor = cur;
                ClickEvent::Nothing
            }
        } else if n == 2 {
            if now > cur && now - cur > self.double_click_window {
                self.last_click_cursor = history[begin + 1].time + 1;
                ClickEvent::Single
            } else {
                self.last_click_cursor = cur;
                ClickEvent::Nothing
            }
        } else {
            self.last_click_cursor = history[n_total - 1].time + 1;
            ClickEvent::Double
        }
    }
}

/// One press and its release, then quiet past the double-click window, yield
/// exactly one single click: the step that sees the elapsed window emits
/// `Single` and consumes both events, and a later step over the same history
/// emits nothing more.
pub proof fn lemma_single_click(
    dw: u64,
    lw: u64,
    cursor: u64,
    t0: u64,
    t1: u64,
    now: u64,
    later: u64,
)
    requires
        cursor <= t0 <= t1 <= now,
        now < u64::MAX,
        t1 - t0 <= 50,
        now - cursor > dw,
    ensures
        ({
            let s = seq![press_at(t0), release_at(t1)];
            let (e, c2) = classify_model(dw, lw, cursor, s, now);
            &&& e == ClickEvent::Single
            &&& c2 == t1 + 1
            &&& classify_model(dw, lw, (t1 + 1) as u64, s, later).0 == ClickEvent::Nothing
        }),
{
    let s = seq![press_at(t0), release_at(t1)];
    assert(stale_prefix(s, cursor) == 0);
    assert(s.subrange(0, 2) =~= s);
    lemma_all_stale(s, (t1 + 1) as u64);
    assert(s.subrange(2, 2) =~= Seq::<ButtonEvent>::empty());
}

/// Press and release twice inside the double-click window yield exactly one
/// double click and never a single click first: a poll before the second
/// press, while the window is still open, emits nothing; the poll that sees
/// all four events emits `Double` and consumes them; and a later poll emits
/// nothing more.
pub proof fn lemma_double_click(
    dw: u64,
    lw: u64,
    cursor: u64,
    t0: u64,
    t1: u64,
    t2: u64,
    t3: u64,
    mid: u64,
    now: u64,
    later: u64,
)
    requires
        cursor <= t0 <= t1 <= t2 <= t3 <= now,
        now < u64::MAX,
        t3 - t0 <= dw,
        t1 <= mid,
        mid - cursor <= dw,
    ensures
        classify_model(dw, lw, cursor, seq![press_at(t0), release_at(t1)], mid).0
            == ClickEvent::Nothing,
        ({
            let s = seq![press_at(t0), release_at(t1), press_at(t2), release_at(t3)];
            let (e, c2) = classify_model(dw, lw, cursor, s, now);
            &&& e == ClickEvent::Double
            &&& c2 == t3 + 1
            &&& classify_model(dw, lw, (t3 + 1) as u64, s, later).0 == ClickEvent::Nothing
        }),
{
    let pair = seq![press_at(t0), release_at(t1)];
    assert(stale_prefix(pair, cursor) == 0);
    assert(pair.subrange(0, 2) =~= pair);
    let s = seq![press_at(t0), release_at(t1), press_at(t2), release_at(t3)];
    assert(stale_prefix(s, cursor) == 0);
    assert(s.subrange(0, 4) =~= s);
    lemma_all_stale(s, (t3 + 1) as u64);
    assert(s.subrange(4, 4) =~= Seq::<ButtonEvent>::empty());
}

/// A lone press held past the long-press window yields exactly one long
/// press: the step that sees the elapsed window emits `LongPress` and
/// consumes the press, and a later step emits nothing more.
pub proof fn lemma_long_press(dw: u64, lw: u64, cursor: u64, t0: u64, now: u64, later: u64)
    requires
        cursor <= t0 <= now,
        now < u64::MAX,
        now - cursor > lw,
    ensures
        ({
            let s = seq![press_at(t0)];
            let (e, c2) = classify_model(dw, lw, cursor, s, now);
            &&& e == ClickEvent::LongPress
            &&& c2 == t0 + 1
            &&& classify_model(dw, lw, (t0 + 1) as u64, s, later).0 == ClickEvent::Nothing
        }),
{
    let s = seq![press_at(t0)];
    assert(stale_prefix(s, cursor) == 0);
    assert(s.subrange(0, 1) =~= s);
    lemma_all_stale(s, (t0 + 1) as u64);
    assert(s.subrange(1, 1) =~= Seq::<ButtonEvent>::empty());
}

/// No spurious emissions: a step that emits anything consumes at least one
/// not-yet-consumed event (the new cursor moves strictly past it), a single
/// or double click consumes at least a full press/release pair — two events
/// — and the cursor never moves backward, whatever `now` is.
pub proof fn lemma_emission_consumes(
    dw: u64,
    lw: u64,
    cursor: u64,
    s: Seq<ButtonEvent>,
    now: u64,
)
    requires
        events_sorted(s),
    ensures
        ({
            let (e, c2) = classify_model(dw, lw, cursor, s, now);
            &&& e != ClickEvent::Nothing ==> exists|i: int|
                0 <= i < s.len() && cursor <= (#[trigger] s[i]).time < c2
            &&& (e == ClickEvent::Single || e == ClickEvent::Double) ==> exists|i: int, j: int|
                j == i + 1 && 0 <= i && j < s.len() && cursor <= (#[trigger] s[i]).time && (
                #[trigger] s[j]).time < c2
            &&& c2 >= cursor
        }),
{
    let sp = stale_prefix(s, cursor);
    lemma_stale_prefix_bounds(s, cursor);
    let live = s.subrange(sp, s.len() as int);
    let (e, c2) = classify_model(dw, lw, cursor, s, now);
    if live.len() > 0 {
        assert(s[sp].time >= cursor);
        // The consumed events lie in the live suffix: name each witness
        // index, settle its bounds by sortedness, and let the two
        // existentials follow.
        let b: int = if live[0].button == ButtonStatus::Release {
            sp + 1
        } else {
            sp
        };
        let n = s.len() as int;
        if e != ClickEvent::Nothing {
            if e == ClickEvent::LongPress {
                assert(s[b] == live[b - sp]);
                assert(s[sp].time <= s[b].time);
                assert(cursor <= s[b].time < c2);
            } else if e == ClickEvent::Single {
                assert(s[b] == live[b - sp] && s[b + 1] == live[b + 1 - sp]);
                assert(s[sp].time <= s[b].time && s[b].time <= s[b + 1].time);
                assert(cursor <= s[b].time && cursor <= s[b + 1].time < c2);
            } else {
                assert(s[n - 2] == live[n - 2 - sp] && s[n - 1] == live[n - 1 - sp]);
                assert(s[sp].time <= s[n - 2].time && s[n - 2].time <= s[n - 1].time);
                assert(cursor <= s[n - 2].time && cursor <= s[n - 1].time < c2);
            }
        }
    }
}

/// Alternating press/release noise: every event is a press or a release, and
/// no two neighbours are alike.
pub open spec fn alternating(s: Seq<ButtonEvent>) -> bool {
    &&& forall|i: int|
        0 <= i < s.len() ==> ((#[trigger] s[i]).button == ButtonStatus::Press || s[i].button
            == ButtonStatus::Release)
    &&& forall|i: int, j: int|
        j == i + 1 && 0 <= i && j < s.len() ==> (#[trigger] s[i]).button != (#[trigger] s[j]).button
}

/// How many presses at or past a time bound the history holds.
pub open spec fn press_count_from(s: Seq<ButtonEvent>, c: int) -> int
    decreases s.len(),
{
    if s.len() == 0 {
        0
    } else {
        press_count_from(s.drop_last(), c) + if s.last().button == ButtonStatus::Press
            && s.last().time >= c {
            1int
        } else {
            0int
        }
    }
}

/// The press count is a count.
pub proof fn lemma_press_count_nonneg(s: Seq<ButtonEvent>, c: int)
    ensures
        press_count_from(s, c) >= 0,
    decreases s.len(),
{
    if s.len() > 0 {
        lemma_press_count_nonneg(s.drop_last(), c);
    }
}

/// Raising the time bound never finds more presses.
pub proof fn lemma_press_count_monotone(s: Seq<ButtonEvent>, c: int, c2: int)
    requires
        c <= c2,
    ensures
        press_count_from(s, c2) <= press_count_from(s, c),
    decreases s.len(),
{
    if s.len() > 0 {
        lemma_press_count_monotone(s.drop_last(), c, c2);
    }
}

proof fn lemma_press_count_window(s: Seq<ButtonEvent>, c: int, c2: int, p: int)
    requires
        0 <= p < s.len(),
        s[p].button == ButtonStatus::Press,
        c <= s[p].time < c2,
    ensures
        press_count_from(s, c) >= 1 + press_count_from(s, c2),
    decreases s.len(),
{
    if p == s.len() - 1 {
        lemma_press_count_monotone(s.drop_last(), c, c2);
    } else {
        assert(s.drop_last()[p] == s[p]);
        lemma_press_count_window(s.drop_last(), c, c2, p);
    }
}

/// Under alternating noise, an emitting step consumes a press: the count of
/// presses at or past the cursor drops by at least one as the cursor moves.
pub proof fn lemma_emission_consumes_press(
    dw: u64,
    lw: u64,
    cursor: u64,
    s: Seq<ButtonEvent>,
    now: u64,
)
    requires
        events_sorted(s),
        alternating(s),
    ensures
        ({
            let (e, c2) = classify_model(dw, lw, cursor, s, now);
            e != ClickEvent::Nothing ==> press_count_from(s, cursor as int) >= 1
                + press_count_from(s, c2)
        }),
{
    let sp = stale_prefix(s, cursor);
    lemma_stale_prefix_bounds(s, cursor);
    let live = s.subrange(sp, s.len() as int);
    let (e, c2) = classify_model(dw, lw, cursor, s, now);
    if live.len() > 0 && e != ClickEvent::Nothing {
        assert(cursor <= s[sp].time);
        // The witness press: the first live event, or — when that is a
        // release artifact — its successor, which alternation makes a press.
        let p: int = if s[sp].button == ButtonStatus::Press {
            sp
        } else {
            sp + 1
        };
        if s[sp].button != ButtonStatus::Press {
            assert(live[0] == s[sp]);
            // An emitting step leaves at least one event past the artifact.
            assert(live.drop_first().len() >= 1);
            assert(live.drop_first()[0] == s[sp + 1]);
            assert(s[sp].button != s[sp + 1].button);
            assert(s[p].button == ButtonStatus::Press);
        }
        assert(s[sp].time <= s[p].time);
        // Whichever click fired, the new cursor lies past every consumed
        // event, the witness press among them.
        let n = s.len() as int;
        if e == ClickEvent::Double {
            assert(s[p].time <= s[n - 1].time);
            assert(s[p].time < c2);
        } else if e == ClickEvent::Single {
            assert(s[p].time <= s[p + 1].time);
            assert(s[p].time < c2);
        } else {
            assert(s[p].time < c2);
        }
        lemma_press_count_window(s, cursor as int, c2, p);
    }
}

/// The cursor a step leaves behind never falls back and still fits the
/// machine word.
pub proof fn lemma_cursor_advances(dw: u64, lw: u64, cursor: u64, s: Seq<ButtonEvent>, now: u64)
    requires
        events_sorted(s),
        forall|i: int| 0 <= i < s.len() ==> (#[trigger] s[i]).time < u64::MAX,
    ensures
        ({
            let (e, c2) = classify_model(dw, lw, cursor, s, now);
            cursor <= c2 <= u64::MAX
        }),
{
    lemma_emission_consumes(dw, lw, cursor, s, now);
    let sp = stale_prefix(s, cursor);
    lemma_stale_prefix_bounds(s, cursor);
    let live = s.subrange(sp, s.len() as int);
    let (e, c2) = classify_model(dw, lw, cursor, s, now);
    if live.len() > 0 {
        // Every cursor a nonempty step can leave is an event time plus one,
        // or the old cursor itself.
        let n = s.len() as int;
        assert(live[0] == s[sp] && live.last() == s[n - 1]);
        if live.len() >= 2 {
            assert(live[1] == s[sp + 1]);
        }
        if live.len() >= 3 {
            assert(live[2] == s[sp + 2]);
        }
    }
}

/// The classifier run over a whole polling session: how many clicks the
/// given poll times emit from the given history, the cursor carried from
/// step to step.
pub open spec fn run_emissions(
    dw: u64,
    lw: u64,
    cursor: u64,
    s: Seq<ButtonEvent>,
    polls: Seq<u64>,
) -> int
    decreases polls.len(),
{
    if polls.len() == 0 {
        0
    } else {
        let (e, c2) = classify_model(dw, lw, cursor, s, polls[0]);
        (if e == ClickEvent::Nothing {
            0int
        } else {
            1int
        }) + run_emissions(dw, lw, c2 as u64, s, polls.drop_first())
    }
}

/// The noise bound over a whole run: under alternating press/release noise,
/// any sequence of polls emits no more clicks than the history holds presses
/// at or past the starting cursor — never more outputs than input
/// press/release pairs.
pub proof fn lemma_noise_run_bound(
    dw: u64,
    lw: u64,
    cursor: u64,
    s: Seq<ButtonEvent>,
    polls: Seq<u64>,
)
    requires
        events_sorted(s),
        alternating(s),
        forall|i: int| 0 <= i < s.len() ==> (#[trigger] s[i]).time < u64::MAX,
    ensures
        run_emissions(dw, lw, cursor, s, polls) <= press_count_from(s, cursor as int),
    decreases polls.len(),
{
    if polls.len() == 0 {
        lemma_press_count_nonneg(s, cursor as int);
    } else {
        let (e, c2) = classify_model(dw, lw, cursor, s, polls[0]);
        lemma_cursor_advances(dw, lw, cursor, s, polls[0]);
        lemma_noise_run_bound(dw, lw, c2 as u64, s, polls.drop_first());
        if e == ClickEvent::Nothing {
            lemma_press_count_monotone(s, cursor as int, c2);
        } else {
            lemma_emission_consumes_press(dw, lw, cursor, s, polls[0]);
        }
    }
}

} // verus!
