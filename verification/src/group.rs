//! Group driver decisions: weighted-random and playlist action choice, and
//! the synchronized tick over all cubes of a group.
//!
//! A tick queries every cube's current directive, carries out those that are
//! ready, and reports whether every cube has exhausted its action in the same
//! tick (only then does the group pick the next one; an actor that finishes
//! early idles while the rest play out) together with how long to wait: the largest
//! step duration across the group, so the whole group advances in lockstep at
//! the pace of its slowest actor. The waiting and the writes themselves are
//! the caller's: this module only decides.

use vstd::prelude::*;

use rand::Rng;

use crate::sequencer::{
    CubeAction, CubeCommand, CubeInfo, ControlModel, MatConfig, apply_control, cube_control_model,
    cube_wf, get_cube_control_data, lemma_table_payload_wf, mat_wf, move_frame_of_payload,
    move_to_frame_of_payload, opt_frame_view, term_of,
};

verus! {

/// How many rows the fixed choreography playlist has.
pub const PLAYLIST_LEN: usize = 16;

/// Sum of the first `i` weights.
pub open spec fn cum(s: Seq<u64>, i: int) -> int
    decreases i,
{
    if i <= 0 {
        0
    } else {
        cum(s, i - 1) + s[i - 1]
    }
}

/// The running cumulative sum never decreases.
pub proof fn lemma_cum_monotone(s: Seq<u64>, i: int, j: int)
    requires
        0 <= i <= j,
    ensures
        cum(s, i) <= cum(s, j),
    decreases j - i,
{
    if i < j {
        lemma_cum_monotone(s, i, j - 1);
    }
}

/// Walks the weights in table order and returns the first index whose
/// cumulative sum exceeds the draw. The result's window `[cum(i), cum(i+1))`
/// pins it down exactly; the window holds `weights[i]` integers, so a uniform
/// draw selects index `i` with chance `weights[i] / total` — no floating
/// point anywhere.
pub fn select_weighted(weights: &Vec<u64>, draw: u64) -> (i: usize)
    requires
        weights@.len() > 0,
        cum(weights@, weights@.len() as int) <= u64::MAX,
        draw < cum(weights@, weights@.len() as int),
    ensures
        i < weights@.len(),
        cum(weights@, i as int) <= draw < cum(weights@, i as int + 1),
{
    let mut sum: u64 = 0;
    let mut num: usize = 0;
    while num < weights.len()
        invariant
            num <= weights@.len(),
            sum == cum(weights@, num as int),
            draw >= sum,
            cum(weights@, weights@.len() as int) <= u64::MAX,
            draw < cum(weights@, weights@.len() as int),
        decreases weights@.len() - num,
    {
        proof {
            lemma_cum_monotone(weights@, num as int + 1, weights@.len() as int);
        }
        sum = sum + weights[num];
        if draw < sum {
            return num;
        }
        num = num + 1;
    }
    proof {
        assert(false);
    }
    vstd::pervasive::unreached()
}

/// Each weight's window is exactly that weight wide.
pub proof fn lemma_weighted_window_width(s: Seq<u64>, i: int)
    requires
        0 <= i < s.len(),
    ensures
        cum(s, i + 1) - cum(s, i) == s[i],
{
}

/// The windows are disjoint: a draw selects at most one index.
pub proof fn lemma_weighted_selection_unique(s: Seq<u64>, i: int, j: int, d: int)
    requires
        0 <= i < s.len(),
        0 <= j < s.len(),
        cum(s, i) <= d < cum(s, i + 1),
        cum(s, j) <= d < cum(s, j + 1),
    ensures
        i == j,
{
    if i < j {
        lemma_cum_monotone(s, i + 1, j);
    }
    if j < i {
        lemma_cum_monotone(s, j + 1, i);
    }
}

proof fn lemma_weighted_covers_upto(s: Seq<u64>, d: int, n: int)
    requires
        0 <= n <= s.len(),
        0 <= d < cum(s, n),
    ensures
        exists|i: int| 0 <= i < n && #[trigger] cum(s, i) <= d < cum(s, i + 1),
    decreases n,
{
    if d >= cum(s, n - 1) {
        assert(cum(s, n - 1) <= d < cum(s, n));
    } else {
        lemma_weighted_covers_upto(s, d, n - 1);
    }
}

/// The windows cover every draw below the total: a draw selects at least one
/// index. With uniqueness and width this makes the weighted choice exact.
pub proof fn lemma_weighted_covers(s: Seq<u64>, d: int)
    requires
        0 <= d < cum(s, s.len() as int),
    ensures
        exists|i: int| 0 <= i < s.len() && #[trigger] cum(s, i) <= d < cum(s, i + 1),
{
    lemma_weighted_covers_upto(s, d, s.len() as int);
}

/// The randomly chosen dance action for a given draw below 30: the weights
/// 4, 4, 4, 3, 5, 5 and 5 of the seven table entries partition the draws.
pub open spec fn weighted_action_of(draw: u64) -> CubeAction {
    if draw < 4 {
        CubeAction::SwingR
    } else if draw < 8 {
        CubeAction::SwingL
    } else if draw < 12 {
        CubeAction::Step2
    } else if draw < 15 {
        CubeAction::Step4
    } else if draw < 20 {
        CubeAction::StepRL2
    } else if draw < 25 {
        CubeAction::RollingR
    } else {
        CubeAction::RollingL
    }
}

/// Whether an action stands in the random-choice table.
pub open spec fn in_random_table(a: CubeAction) -> bool {
    ||| a == CubeAction::SwingR
    ||| a == CubeAction::SwingL
    ||| a == CubeAction::Step2
    ||| a == CubeAction::Step4
    ||| a == CubeAction::StepRL2
    ||| a == CubeAction::RollingR
    ||| a == CubeAction::RollingL
}

/// Maps a draw below the weight total to its dance action by walking the
/// weight table.
pub fn pick_action(draw: u64) -> (a: CubeAction)
    requires
        draw < 30,
    ensures
        a == weighted_action_of(draw),
{
    let weights: Vec<u64> = vec![4, 4, 4, 3, 5, 5, 5];
    proof {
        let s = weights@;
        assert(s =~= seq![4u64, 4, 4, 3, 5, 5, 5]);
        assert(cum(s, 0) == 0);
        assert(cum(s, 1) == 4);
        assert(cum(s, 2) == 8);
        assert(cum(s, 3) == 12);
        assert(cum(s, 4) == 15);
        assert(cum(s, 5) == 20);
        assert(cum(s, 6) == 25);
        assert(cum(s, 7) == 30);
    }
    let i = select_weighted(&weights, draw);
    match i {
        0 => CubeAction::SwingR,
        1 => CubeAction::SwingL,
        2 => CubeAction::Step2,
        3 => CubeAction::Step4,
        4 => CubeAction::StepRL2,
        5 => CubeAction::RollingR,
        _ => CubeAction::RollingL,
    }
}

/// Relies on rand::thread_rng and rand::Rng::gen_range: a draw from the
/// thread-local generator, uniform over `[0, n)`; a nonempty range never
/// panics.
#[verifier::external_body]
fn random_below(n: u64) -> (r: u64)
    requires
        n > 0,
    ensures
        r < n,
{
    rand::thread_rng().gen_range(0..n)
}

/// Chooses the group's next dance action at random, weighted as the table
/// gives. Every outcome is one of the seven table entries.
pub fn get_next_cube_action() -> (a: CubeAction)
    ensures
        in_random_table(a),
{
    let draw = random_below(30);
    let a = pick_action(draw);
    proof {
        assert(in_random_table(weighted_action_of(draw)));
    }
    a
}

/// The fixed choreography playlist: sixteen rows, one per scene, with the
/// cubes alternating between the row's two columns.
pub open spec fn playlist_action(row: int, col: int) -> CubeAction
    recommends
        0 <= row < 16,
        col == 0 || col == 1,
{
    if row == 0 {
        CubeAction::GetReady
    } else if row == 1 {
        CubeAction::Circle1
    } else if row == 2 {
        CubeAction::HomePosition
    } else if row == 3 {
        CubeAction::Circle2
    } else if row == 4 {
        CubeAction::HomePosition
    } else if row == 5 {
        if col == 0 {
            CubeAction::SwingR
        } else {
            CubeAction::SwingL
        }
    } else if row == 6 {
        CubeAction::Step2
    } else if row == 7 {
        CubeAction::RollingR
    } else if row == 8 {
        CubeAction::RollingL
    } else if row == 9 {
        CubeAction::HomePosition
    } else if row == 10 {
        CubeAction::StepRL2
    } else if row == 11 {
        CubeAction::Step8
    } else if row == 12 {
        if col == 0 {
            CubeAction::RollingL
        } else {
            CubeAction::RollingR
        }
    } else if row == 13 {
        if col == 0 {
            CubeAction::RollingR
        } else {
            CubeAction::RollingL
        }
    } else if row == 14 {
        CubeAction::HomePosition
    } else {
        CubeAction::ByeBye
    }
}

/// Looks one playlist entry up; a cube in an even slot dances the first
/// column, one in an odd slot the second.
pub fn playlist_entry(row: usize, col: usize) -> (a: CubeAction)
    requires
        row < PLAYLIST_LEN,
    ensures
        a == playlist_action(row as int, (col % 2) as int),
{
    let c = col % 2;
    if row == 0 {
        CubeAction::GetReady
    } else if row == 1 {
        CubeAction::Circle1
    } else if row == 2 {
        CubeAction::HomePosition
    } else if row == 3 {
        CubeAction::Circle2
    } else if row == 4 {
        CubeAction::HomePosition
    } else if row == 5 {
        if c == 0 {
            CubeAction::SwingR
        } else {
            CubeAction::SwingL
        }
    } else if row == 6 {
        CubeAction::Step2
    } else if row == 7 {
        CubeAction::RollingR
    } else if row == 8 {
        CubeAction::RollingL
    } else if row == 9 {
        CubeAction::HomePosition
    } else if row == 10 {
        CubeAction::StepRL2
    } else if row == 11 {
        CubeAction::Step8
    } else if row == 12 {
        if c == 0 {
            CubeAction::RollingL
        } else {
            CubeAction::RollingR
        }
    } else if row == 13 {
        if c == 0 {
            CubeAction::RollingR
        } else {
            CubeAction::RollingL
        }
    } else if row == 14 {
        CubeAction::HomePosition
    } else {
        CubeAction::ByeBye
    }
}

/// How the tick leaves one cube: a spent or skipped action leaves it
/// untouched, otherwise its directive is carried out.
pub open spec fn tick_cube(cube: CubeInfo, maxd: u64, mat: MatConfig, default_term_ms: u64) -> CubeInfo {
    match cube_control_model(cube, maxd, mat) {
        None => cube,
        Some(m) => applied_cube(cube, m, default_term_ms, mat.enable),
    }
}

/// How carrying a directive out changes a cube.
pub open spec fn applied_cube(
    cube: CubeInfo,
    m: ControlModel,
    default_term_ms: u64,
    mat_enable: bool,
) -> CubeInfo {
    if m.command == CubeCommand::End {
        CubeInfo { step_count: 0, action_term: 0, ..cube }
    } else if m.command == CubeCommand::MoveTo && !mat_enable {
        cube
    } else {
        CubeInfo {
            step_count: (cube.step_count + 1) as usize,
            action_term: term_of(m, default_term_ms),
            ..cube
        }
    }
}

/// The frame the tick writes for one cube, if its directive produces one.
pub open spec fn tick_frame(cube: CubeInfo, maxd: u64, mat: MatConfig) -> Option<Seq<u8>> {
    match cube_control_model(cube, maxd, mat) {
        None => None,
        Some(m) => {
            if m.command == CubeCommand::Move {
                Some(move_frame_of_payload(m.data->0))
            } else if m.command == CubeCommand::MoveTo && mat.enable {
                Some(move_to_frame_of_payload(m.data->0))
            } else {
                None
            }
        },
    }
}

/// The largest step duration across a group of cubes.
pub open spec fn max_term(s: Seq<CubeInfo>) -> u64
    decreases s.len(),
{
    if s.len() == 0 {
        0
    } else {
        let rest = max_term(s.drop_last());
        if s.last().action_term > rest {
            s.last().action_term
        } else {
            rest
        }
    }
}

/// The group waits for its slowest actor and no longer: the tick's wait
/// bounds every cube's step duration and equals one of them — never their
/// sum.
pub proof fn lemma_max_term_is_slowest(s: Seq<CubeInfo>)
    ensures
        forall|i: int| 0 <= i < s.len() ==> s[i].action_term <= max_term(s),
        s.len() > 0 ==> exists|i: int| 0 <= i < s.len() && max_term(s) == s[i].action_term,
    decreases s.len(),
{
    if s.len() > 0 {
        lemma_max_term_is_slowest(s.drop_last());
        assert forall|i: int| 0 <= i < s.len() implies s[i].action_term <= max_term(s) by {
            if i < s.len() - 1 {
                assert(s.drop_last()[i] == s[i]);
            }
        }
        if max_term(s) == s.last().action_term {
            assert(max_term(s) == s[s.len() - 1].action_term);
        } else {
            let j = choose|j: int|
                0 <= j < s.drop_last().len() && max_term(s.drop_last()) == s.drop_last()[j].action_term;
            assert(max_term(s) == s[j].action_term);
        }
    }
}

/// What one synchronized tick decided: the frame to write for each cube (in
/// slot order), whether every cube has exhausted its action this tick, and
/// how long the group is to wait before the next tick.
pub struct TickOutcome {
    pub frames: Vec<Option<Vec<u8>>>,
    pub action_end: bool,
    pub sleep_ms: u64,
}

/// One cube's share of a tick: carries its directive out, or leaves it
/// untouched when the action is spent. Returns the frame to write and
/// whether the action was spent.
#[verifier::rlimit(60)]
fn tick_one(cube: &mut CubeInfo, max_duration: u64, mat: &MatConfig, default_term_ms: u64) -> (r:
    (Option<Vec<u8>>, bool))
    requires
        max_duration <= 255,
        mat_wf(*mat),
        cube_wf(*old(cube)),
        old(cube).step_count < usize::MAX,
    ensures
        *final(cube) == tick_cube(*old(cube), max_duration, *mat, default_term_ms),
        opt_frame_view(r.0) == tick_frame(*old(cube), max_duration, *mat),
        r.1 == (cube_control_model(*old(cube), max_duration, *mat) is None),
{
    let snapshot: CubeInfo = *cube;
    let control = get_cube_control_data(&snapshot, max_duration, mat);
    match control {
        Some(c) => {
            proof {
                lemma_table_payload_wf(snapshot, max_duration, *mat);
            }
            let frame = apply_control(cube, &c, default_term_ms, mat.enable);
            (frame, false)
        },
        None => (None, true),
    }
}

/// One synchronized tick: queries every cube's directive, carries out those
/// that are ready, and reports the wait — the largest step duration across
/// the group, so the group advances at the pace of its slowest actor. Only
/// when every cube's action is spent in the same tick does `action_end`
/// hold; the caller then selects the group's next action instead of waiting.
/// A cube whose action is spent while others still dance idles untouched.
pub fn group_tick(
    cubes: &mut Vec<CubeInfo>,
    max_duration: u64,
    mat: &MatConfig,
    default_term_ms: u64,
) -> (r: TickOutcome)
    requires
        max_duration <= 255,
        mat_wf(*mat),
        forall|i: int| 0 <= i < old(cubes)@.len() ==> cube_wf(#[trigger] old(cubes)@[i]),
        forall|i: int| 0 <= i < old(cubes)@.len() ==> (#[trigger] old(cubes)@[i]).step_count
            < usize::MAX,
    ensures
        final(cubes)@.len() == old(cubes)@.len(),
        forall|i: int| 0 <= i < old(cubes)@.len() ==> final(cubes)@[i] == tick_cube(
            #[trigger] old(cubes)@[i],
            max_duration,
            *mat,
            default_term_ms,
        ),
        r.frames@.len() == old(cubes)@.len(),
        forall|i: int| 0 <= i < old(cubes)@.len() ==> opt_frame_view(#[trigger] r.frames@[i])
            == tick_frame(old(cubes)@[i], max_duration, *mat),
        r.action_end == forall|i: int| 0 <= i < old(cubes)@.len() ==> cube_control_model(
            #[trigger] old(cubes)@[i],
            max_duration,
            *mat,
        ) is None,
        r.sleep_ms == max_term(final(cubes)@),
{
    let ghost orig = cubes@;
    let mut frames: Vec<Option<Vec<u8>>> = Vec::new();
    let mut action_end: bool = true;
    let mut i: usize = 0;
    while i < cubes.len()
        invariant
            cubes@.len() == orig.len(),
            i <= orig.len(),
            max_duration <= 255,
            mat_wf(*mat),
            forall|j: int| 0 <= j < orig.len() ==> cube_wf(#[trigger] orig[j]),
            forall|j: int| 0 <= j < orig.len() ==> (#[trigger] orig[j]).step_count < usize::MAX,
            forall|j: int| i <= j < orig.len() ==> cubes@[j] == orig[j],
            forall|j: int| 0 <= j < i ==> cubes@[j] == tick_cube(
                #[trigger] orig[j],
                max_duration,
                *mat,
                default_term_ms,
            ),
            frames@.len() == i,
            forall|j: int| 0 <= j < i ==> opt_frame_view(#[trigger] frames@[j]) == tick_frame(
                orig[j],
                max_duration,
                *mat,
            ),
            action_end == forall|j: int| 0 <= j < i ==> cube_control_model(
                #[trigger] orig[j],
                max_duration,
                *mat,
            ) is None,
        decreases orig.len() - i,
    {
        let mut cube_i = cubes[i];
        proof {
            assert(cubes@[i as int] == orig[i as int]);
            assert(cube_wf(orig[i as int]));
            assert(orig[i as int].step_count < usize::MAX);
        }
        let (frame, spent) = tick_one(&mut cube_i, max_duration, mat, default_term_ms);
        cubes.set(i, cube_i);
        frames.push(frame);
        if !spent {
            action_end = false;
        }
        proof {
            assert(cubes@[i as int] == tick_cube(orig[i as int], max_duration, *mat, default_term_ms));
            assert(opt_frame_view(frames@[i as int]) == tick_frame(orig[i as int], max_duration, *mat));
            assert(spent == (cube_control_model(orig[i as int], max_duration, *mat) is None));
        }
        i = i + 1;
    }
    let mut sleep_ms: u64 = 0;
    let mut k: usize = 0;
    while k < cubes.len()
        invariant
            k <= cubes@.len(),
            sleep_ms == max_term(cubes@.subrange(0, k as int)),
        decreases cubes@.len() - k,
    {
        let ghost pre = cubes@.subrange(0, k as int);
        let t = cubes[k].action_term;
        if t > sleep_ms {
            sleep_ms = t;
        }
        proof {
            assert(cubes@.subrange(0, k as int + 1).drop_last() =~= pre);
            assert(cubes@.subrange(0, k as int + 1).last() == cubes@[k as int]);
        }
        k = k + 1;
    }
    proof {
        assert(cubes@.subrange(0, cubes@.len() as int) =~= cubes@);
    }
    TickOutcome { frames, action_end, sleep_ms }
}

/// Puts the whole group on one action, each cube starting at its first step.
pub fn group_set_action(cubes: &mut Vec<CubeInfo>, action: CubeAction)
    ensures
        final(cubes)@.len() == old(cubes)@.len(),
        forall|i: int| 0 <= i < old(cubes)@.len() ==> final(cubes)@[i] == (CubeInfo {
            action,
            step_count: 0,
            ..(#[trigger] old(cubes)@[i])
        }),
{
    let ghost orig = cubes@;
    let mut i: usize = 0;
    while i < cubes.len()
        invariant
            cubes@.len() == orig.len(),
            i <= orig.len(),
            forall|j: int| i <= j < orig.len() ==> cubes@[j] == orig[j],
            forall|j: int| 0 <= j < i ==> cubes@[j] == (CubeInfo {
                action,
                step_count: 0,
                ..(#[trigger] orig[j])
            }),
        decreases orig.len() - i,
    {
        let mut cube_i = cubes[i];
        cube_i.action = action;
        cube_i.step_count = 0;
        cubes.set(i, cube_i);
        i = i + 1;
    }
}

/// Moves the group to the next playlist row. Returns whether the playlist
/// still runs; when it does, every cube takes its column of the new row and
/// starts that action's first step. Past the last row the group is left as
/// it stands.
pub fn advance_playlist(cubes: &mut Vec<CubeInfo>, action_count: &mut usize) -> (running: bool)
    requires
        *old(action_count) < PLAYLIST_LEN,
    ensures
        *final(action_count) == *old(action_count) + 1,
        running == (*old(action_count) + 1 < PLAYLIST_LEN),
        final(cubes)@.len() == old(cubes)@.len(),
        running ==> forall|i: int| 0 <= i < old(cubes)@.len() ==> final(cubes)@[i] == (CubeInfo {
            action: playlist_action(*old(action_count) + 1, i % 2),
            step_count: 0,
            ..(#[trigger] old(cubes)@[i])
        }),
        !running ==> final(cubes)@ == old(cubes)@,
{
    *action_count = *action_count + 1;
    let row = *action_count;
    if row >= PLAYLIST_LEN {
        return false;
    }
    let ghost orig = cubes@;
    let mut i: usize = 0;
    while i < cubes.len()
        invariant
            row < PLAYLIST_LEN,
            cubes@.len() == orig.len(),
            i <= orig.len(),
            forall|j: int| i <= j < orig.len() ==> cubes@[j] == orig[j],
            forall|j: int| 0 <= j < i ==> cubes@[j] == (CubeInfo {
                action: playlist_action(row as int, j % 2),
                step_count: 0,
                ..(#[trigger] orig[j])
            }),
        decreases orig.len() - i,
    {
        let mut cube_i = cubes[i];
        cube_i.action = playlist_entry(row, i);
        cube_i.step_count = 0;
        cubes.set(i, cube_i);
        i = i + 1;
    }
    true
}

/// Milliseconds of one tick for a musical tempo (beats per minute), as the
/// driver derives it. A zero tempo has no tick; a tempo too large to scale
/// overflows the machine word and is rejected the same way.
pub open spec fn term_ms_of_tempo(tempo: u64) -> Option<u64> {
    if tempo == 0 || tempo > u64::MAX as int / 1000 {
        None
    } else {
        Some(((1000 * 1000) as int / (tempo * 1000 as int / 60)) as u64)
    }
}

/// Derives the tick duration in milliseconds from a tempo in beats per
/// minute.
pub fn tempo_to_term_ms(tempo: u64) -> (r: Option<u64>)
    ensures
        r == term_ms_of_tempo(tempo),
{
    if tempo == 0 || tempo > u64::MAX / 1000 {
        return None;
    }
    let scaled = tempo * 1000 / 60;
    Some(1000000 / scaled)
}

/// The per-step motor running cap in deciseconds for a tick duration, kept
/// inside the 8-bit wire field.
pub fn max_duration_of_term(term_ms: u64) -> (r: u64)
    ensures
        r == (term_ms / 10) as u64 & 0xff,
        r <= 255,
{
    let q = term_ms / 10;
    let r = q & 0xff;
    proof {
        assert(q & 0xff <= 255) by (bit_vector);
    }
    r
}

} // verus!
