use core_cube::group::{
    advance_playlist, get_next_cube_action, group_set_action, group_tick, max_duration_of_term,
    pick_action, playlist_entry, select_weighted, tempo_to_term_ms, PLAYLIST_LEN,
};
use core_cube::sequencer::{CubeAction, CubeInfo, MatConfig, MOTOR_FW, MOTOR_RV};

fn no_mat() -> MatConfig {
    MatConfig { enable: false, offset_x: 0, offset_y: 0 }
}

#[test]
fn weighted_windows_are_exact() {
    // Weights 4, 4, 4, 3, 5, 5, 5 over a total of 30: counting the draws
    // that pick each action gives back the weights themselves, so the
    // empirical frequency of action i converges to weight[i] / 30.
    let expected = [
        (CubeAction::SwingR, 4),
        (CubeAction::SwingL, 4),
        (CubeAction::Step2, 4),
        (CubeAction::Step4, 3),
        (CubeAction::StepRL2, 5),
        (CubeAction::RollingR, 5),
        (CubeAction::RollingL, 5),
    ];
    for (action, weight) in expected {
        let hits = (0u64..30).filter(|&d| pick_action(d) == action).count();
        assert_eq!(hits, weight, "draw window of {:?}", action);
    }
}

#[test]
fn weighted_walk_picks_first_window_past_draw() {
    let weights: Vec<u64> = vec![4, 4, 4, 3, 5, 5, 5];
    assert_eq!(select_weighted(&weights, 0), 0);
    assert_eq!(select_weighted(&weights, 3), 0);
    assert_eq!(select_weighted(&weights, 4), 1);
    assert_eq!(select_weighted(&weights, 11), 2);
    assert_eq!(select_weighted(&weights, 12), 3);
    assert_eq!(select_weighted(&weights, 14), 3);
    assert_eq!(select_weighted(&weights, 15), 4);
    assert_eq!(select_weighted(&weights, 29), 6);
}

#[test]
fn random_choice_follows_the_weights() {
    // 3000 draws: every action must appear, with frequencies near its
    // weight / 30 share. The tolerance is generous; a generator stuck on one
    // value fails far outside it.
    let n = 3000usize;
    let mut counts = std::collections::HashMap::new();
    for _ in 0..n {
        *counts.entry(format!("{:?}", get_next_cube_action())).or_insert(0usize) += 1;
    }
    let expected = [
        ("SwingR", 4u64),
        ("SwingL", 4),
        ("Step2", 4),
        ("Step4", 3),
        ("StepRL2", 5),
        ("RollingR", 5),
        ("RollingL", 5),
    ];
    let mut total = 0usize;
    for (name, weight) in expected {
        let got = *counts.get(name).unwrap_or(&0);
        total += got;
        let want = n as u64 * weight / 30;
        assert!(
            (got as i64 - want as i64).unsigned_abs() < 150,
            "{} drawn {} times, expected about {}",
            name,
            got,
            want
        );
    }
    assert_eq!(total, n);
}

#[test]
fn group_sleeps_for_the_slowest_actor() {
    // Two actors whose last steps ran 300 ms and 700 ms: the group waits
    // 700 ms — the maximum, not the sum and not the shorter one.
    let mut cubes = vec![
        CubeInfo { id: 0, action: CubeAction::Step2, step_count: 99, action_term: 300 },
        CubeInfo { id: 1, action: CubeAction::Step2, step_count: 99, action_term: 700 },
    ];
    let out = group_tick(&mut cubes, 60, &no_mat(), 600);
    assert!(out.action_end);
    assert_eq!(out.sleep_ms, 700);
    assert_ne!(out.sleep_ms, 300);
    assert_ne!(out.sleep_ms, 1000);
}

#[test]
fn group_waits_for_every_actor_to_end() {
    // One actor still dancing, one spent: the dancer gets its frame, the
    // spent one idles untouched, and — since not every actor has ended —
    // the tick does NOT ask for the next action; the group sleeps instead.
    let mut cubes = vec![
        CubeInfo { id: 0, action: CubeAction::Step2, step_count: 0, action_term: 0 },
        CubeInfo { id: 1, action: CubeAction::Step2, step_count: 4, action_term: 123 },
    ];
    let out = group_tick(&mut cubes, 60, &no_mat(), 600);
    assert!(!out.action_end);
    assert_eq!(out.frames.len(), 2);
    assert_eq!(
        out.frames[0],
        Some(vec![0x02, 0x01, MOTOR_FW, 20, 0x02, MOTOR_FW, 20, 48])
    );
    assert_eq!(out.frames[1], None);
    assert_eq!(cubes[0].step_count, 1);
    assert_eq!(cubes[0].action_term, 600);
    assert_eq!(cubes[1].step_count, 4);
    assert_eq!(cubes[1].action_term, 123);
    // Once the dancer is spent too, the same tick reports the end for all.
    cubes[0].step_count = 4;
    let done = group_tick(&mut cubes, 60, &no_mat(), 600);
    assert!(done.action_end);
    assert_eq!(done.frames, vec![None, None]);
}

#[test]
fn group_tick_runs_a_whole_step2() {
    let mut cubes = vec![
        CubeInfo { id: 0, action: CubeAction::Step2, step_count: 0, action_term: 0 },
        CubeInfo { id: 1, action: CubeAction::Step2, step_count: 0, action_term: 0 },
    ];
    let mat = no_mat();
    for step in 0..4usize {
        let out = group_tick(&mut cubes, 60, &mat, 600);
        assert!(!out.action_end, "step {} must not end the action", step);
        let dir = if step == 0 || step == 3 { MOTOR_FW } else { MOTOR_RV };
        for f in &out.frames {
            assert_eq!(f.as_ref().unwrap()[2], dir);
        }
        assert_eq!(out.sleep_ms, 600);
    }
    let out = group_tick(&mut cubes, 60, &mat, 600);
    assert!(out.action_end);
}

#[test]
fn group_set_action_resets_steps() {
    let mut cubes = vec![
        CubeInfo { id: 0, action: CubeAction::Step2, step_count: 4, action_term: 10 },
        CubeInfo { id: 1, action: CubeAction::Step8, step_count: 2, action_term: 20 },
    ];
    group_set_action(&mut cubes, CubeAction::RollingL);
    assert_eq!(cubes[0].action, CubeAction::RollingL);
    assert_eq!(cubes[1].action, CubeAction::RollingL);
    assert_eq!(cubes[0].step_count, 0);
    assert_eq!(cubes[1].step_count, 0);
    assert_eq!(cubes[0].action_term, 10);
    assert_eq!(cubes[1].id, 1);
}

#[test]
fn playlist_rows_and_columns() {
    assert_eq!(playlist_entry(0, 0), CubeAction::GetReady);
    assert_eq!(playlist_entry(1, 1), CubeAction::Circle1);
    assert_eq!(playlist_entry(5, 0), CubeAction::SwingR);
    assert_eq!(playlist_entry(5, 1), CubeAction::SwingL);
    assert_eq!(playlist_entry(5, 2), CubeAction::SwingR);
    assert_eq!(playlist_entry(12, 0), CubeAction::RollingL);
    assert_eq!(playlist_entry(12, 1), CubeAction::RollingR);
    assert_eq!(playlist_entry(13, 0), CubeAction::RollingR);
    assert_eq!(playlist_entry(15, 1), CubeAction::ByeBye);
}

#[test]
fn playlist_advances_and_stops_at_the_end() {
    let mut cubes = vec![
        CubeInfo { id: 0, action: CubeAction::GetReady, step_count: 3, action_term: 0 },
        CubeInfo { id: 1, action: CubeAction::GetReady, step_count: 3, action_term: 0 },
    ];
    let mut count = 0usize;
    assert!(advance_playlist(&mut cubes, &mut count));
    assert_eq!(count, 1);
    assert_eq!(cubes[0].action, CubeAction::Circle1);
    assert_eq!(cubes[1].action, CubeAction::Circle1);
    assert_eq!(cubes[0].step_count, 0);
    // Run the playlist out.
    while count + 1 < PLAYLIST_LEN {
        assert!(advance_playlist(&mut cubes, &mut count));
    }
    assert_eq!(cubes[0].action, CubeAction::ByeBye);
    assert!(!advance_playlist(&mut cubes, &mut count));
    assert_eq!(count, PLAYLIST_LEN);
    // Past the end the group is left as it stands.
    assert_eq!(cubes[0].action, CubeAction::ByeBye);
}

#[test]
fn tempo_gives_tick_duration() {
    // 120 beats a minute: 2000 beat-milliseconds a second scaled to a
    // 500 ms tick, as the driver computes it.
    assert_eq!(tempo_to_term_ms(120), Some(500));
    assert_eq!(tempo_to_term_ms(60), Some(1000));
    assert_eq!(tempo_to_term_ms(100), Some(600));
    assert_eq!(tempo_to_term_ms(0), None);
}

#[test]
fn max_duration_keeps_to_the_wire_field() {
    assert_eq!(max_duration_of_term(600), 60);
    assert_eq!(max_duration_of_term(0), 0);
    // 5000 ms / 10 = 500 deciseconds; only the low byte travels.
    assert_eq!(max_duration_of_term(5000), 244);
    assert!(max_duration_of_term(u64::MAX) <= 255);
}
