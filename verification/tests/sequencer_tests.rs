use core_cube::sequencer::{
    apply_control, get_cube_control_data, CubeAction, CubeCommand, CubeControl, CubeInfo,
    MatConfig, MOTOR_FW, MOTOR_RV,
};

fn cube(action: CubeAction, step_count: usize) -> CubeInfo {
    CubeInfo { id: 0, action, step_count, action_term: 0 }
}

fn no_mat() -> MatConfig {
    MatConfig { enable: false, offset_x: 0, offset_y: 0 }
}

fn control_at(action: CubeAction, step: usize, maxd: u64) -> Option<CubeControl> {
    get_cube_control_data(&cube(action, step), maxd, &no_mat())
}

#[test]
fn step2_alternates_and_ends_at_four() {
    // Steps 0 and 3 drive both motors forward, 1 and 2 both in reverse;
    // the action ends exactly at step 4 and nowhere earlier.
    let maxd = 60u64;
    let motor_duration = ((maxd * 4) / 5) as u8;
    for step in 0..4usize {
        let c = control_at(CubeAction::Step2, step, maxd).unwrap();
        assert_eq!(c.command, CubeCommand::Move);
        let dir = if step == 0 || step == 3 { MOTOR_FW } else { MOTOR_RV };
        assert_eq!(c.data.unwrap(), vec![dir, 20, dir, 20, motor_duration]);
    }
    assert!(control_at(CubeAction::Step2, 4, maxd).is_none());
    assert!(control_at(CubeAction::Step2, 100, maxd).is_none());
}

#[test]
fn swing_mirrors_left_and_right() {
    let r0 = control_at(CubeAction::SwingR, 0, 60).unwrap().data.unwrap();
    let l0 = control_at(CubeAction::SwingL, 0, 60).unwrap().data.unwrap();
    assert_eq!(r0, vec![MOTOR_FW, 20, MOTOR_RV, 20, 48]);
    assert_eq!(l0, vec![MOTOR_RV, 20, MOTOR_FW, 20, 48]);
}

#[test]
fn rolling_spins_then_rests() {
    let c0 = control_at(CubeAction::RollingR, 0, 60).unwrap();
    assert_eq!(c0.command, CubeCommand::Move);
    assert_eq!(c0.data.unwrap(), vec![MOTOR_FW, 37, MOTOR_RV, 37, 240]);
    for step in 1..4usize {
        let c = control_at(CubeAction::RollingR, step, 60).unwrap();
        assert_eq!(c.command, CubeCommand::Nothing);
        assert!(c.data.is_none());
    }
    assert!(control_at(CubeAction::RollingR, 4, 60).is_none());
    // The cap: four ticks of 80 would be 320, clipped to the wire field.
    let fast = control_at(CubeAction::RollingL, 0, 80).unwrap();
    assert_eq!(fast.data.unwrap(), vec![MOTOR_RV, 37, MOTOR_FW, 37, 255]);
}

#[test]
fn circles_drive_only_their_lead_cube() {
    let lead = get_cube_control_data(
        &CubeInfo { id: 0, action: CubeAction::Circle1, step_count: 0, action_term: 0 },
        60,
        &no_mat(),
    )
    .unwrap();
    assert_eq!(lead.term_ms, Some(7500));
    assert_eq!(lead.data.unwrap(), vec![MOTOR_FW, 42, MOTOR_FW, 50, 0]);
    let idle = get_cube_control_data(
        &CubeInfo { id: 1, action: CubeAction::Circle1, step_count: 0, action_term: 0 },
        60,
        &no_mat(),
    )
    .unwrap();
    assert_eq!(idle.data.unwrap(), vec![MOTOR_FW, 0, MOTOR_FW, 0, 0]);
    let second = get_cube_control_data(
        &CubeInfo { id: 1, action: CubeAction::Circle2, step_count: 0, action_term: 0 },
        60,
        &no_mat(),
    )
    .unwrap();
    assert_eq!(second.term_ms, Some(7400));
    assert_eq!(second.data.unwrap(), vec![MOTOR_FW, 50, MOTOR_FW, 42, 0]);
}

#[test]
fn get_ready_without_mat_walks_and_turns() {
    let c0 = control_at(CubeAction::GetReady, 0, 60).unwrap();
    assert_eq!(c0.command, CubeCommand::Move);
    assert_eq!(c0.term_ms, Some(3000));
    assert_eq!(c0.data.unwrap(), vec![MOTOR_FW, 30, MOTOR_FW, 30, 0]);
    let c1 = control_at(CubeAction::GetReady, 1, 60).unwrap();
    assert_eq!(c1.data.unwrap(), vec![MOTOR_RV, 15, MOTOR_FW, 15, 55]);
    let c2 = control_at(CubeAction::GetReady, 2, 60).unwrap();
    assert_eq!(c2.command, CubeCommand::Nothing);
    assert_eq!(c2.term_ms, Some(2000));
    assert!(control_at(CubeAction::GetReady, 3, 60).is_none());
}

#[test]
fn home_position_without_mat_is_skipped() {
    assert!(control_at(CubeAction::HomePosition, 0, 60).is_none());
    assert!(control_at(CubeAction::ByeBye, 0, 60).is_none());
}

#[test]
fn get_ready_on_mat_is_one_absolute_move() {
    let mat = MatConfig { enable: true, offset_x: 503, offset_y: 0 };
    let c = get_cube_control_data(
        &CubeInfo { id: 0, action: CubeAction::GetReady, step_count: 0, action_term: 0 },
        60,
        &mat,
    )
    .unwrap();
    assert_eq!(c.command, CubeCommand::MoveTo);
    assert_eq!(c.term_ms, Some(4000));
    // x = 503 + 200 = 703, y = 0 + 190, heading 90.
    assert_eq!(c.data.unwrap(), vec![4, 0, 80, 3, 191, 2, 190, 0, 90, 0]);
    assert!(
        get_cube_control_data(
            &CubeInfo { id: 0, action: CubeAction::GetReady, step_count: 1, action_term: 0 },
            60,
            &mat,
        )
        .is_none()
    );
}

#[test]
fn byebye_on_mat_shivers_then_leaves() {
    let mat = MatConfig { enable: true, offset_x: 0, offset_y: 0 };
    let at = |id: usize, step: usize| {
        get_cube_control_data(
            &CubeInfo { id, action: CubeAction::ByeBye, step_count: step, action_term: 0 },
            60,
            &mat,
        )
    };
    // Even steps up to 19 shiver forward, odd ones back.
    let c0 = at(0, 0).unwrap();
    assert_eq!(c0.term_ms, Some(100));
    assert_eq!(c0.data.unwrap(), vec![MOTOR_FW, 30, MOTOR_FW, 30, 0]);
    let c1 = at(0, 19).unwrap();
    assert_eq!(c1.data.unwrap(), vec![MOTOR_RV, 30, MOTOR_RV, 30, 0]);
    // Step 21 stops, step 22 runs for the edge: cube 0 to (80, 70).
    let stop = at(0, 21).unwrap();
    assert_eq!(stop.term_ms, Some(30));
    let run = at(0, 22).unwrap();
    assert_eq!(run.command, CubeCommand::MoveTo);
    assert_eq!(run.term_ms, Some(5000));
    assert_eq!(run.data.unwrap(), vec![4, 0, 80, 3, 80, 0, 70, 0, 14, 1]);
    // Cube 3 heads for the far corner (420, 430).
    let far = at(3, 22).unwrap();
    assert_eq!(far.data.unwrap(), vec![4, 0, 80, 3, 164, 1, 174, 1, 14, 1]);
    assert!(at(0, 23).is_none());
}

#[test]
fn apply_move_emits_frame_and_advances() {
    let mut c = cube(CubeAction::Step2, 0);
    let control = control_at(CubeAction::Step2, 0, 60).unwrap();
    let frame = apply_control(&mut c, &control, 600, false).unwrap();
    assert_eq!(frame, vec![0x02, 0x01, MOTOR_FW, 20, 0x02, MOTOR_FW, 20, 48]);
    assert_eq!(c.step_count, 1);
    assert_eq!(c.action_term, 600);
}

#[test]
fn apply_move_keeps_term_override() {
    let mut c = cube(CubeAction::Circle1, 0);
    let control = control_at(CubeAction::Circle1, 0, 60).unwrap();
    let frame = apply_control(&mut c, &control, 600, false).unwrap();
    assert_eq!(frame, vec![0x02, 0x01, MOTOR_FW, 42, 0x02, MOTOR_FW, 50, 0]);
    assert_eq!(c.action_term, 7500);
}

#[test]
fn apply_move_to_encodes_position_frame() {
    let mat = MatConfig { enable: true, offset_x: 503, offset_y: 0 };
    let mut c = CubeInfo { id: 0, action: CubeAction::GetReady, step_count: 0, action_term: 0 };
    let control = get_cube_control_data(&c, 60, &mat).unwrap();
    let frame = apply_control(&mut c, &control, 600, true).unwrap();
    assert_eq!(frame, vec![0x03, 0x00, 4, 0, 80, 3, 0x00, 191, 2, 190, 0, 90, 0]);
    assert_eq!(c.step_count, 1);
    assert_eq!(c.action_term, 4000);
}

#[test]
fn apply_move_to_without_mat_changes_nothing() {
    let mat = MatConfig { enable: true, offset_x: 0, offset_y: 0 };
    let before = CubeInfo { id: 0, action: CubeAction::GetReady, step_count: 0, action_term: 17 };
    let mut c = before;
    let control = get_cube_control_data(&c, 60, &mat).unwrap();
    let frame = apply_control(&mut c, &control, 600, false);
    assert!(frame.is_none());
    assert_eq!(c, before);
}

#[test]
fn apply_end_resets_step_and_term() {
    let mut c = CubeInfo { id: 2, action: CubeAction::Step2, step_count: 9, action_term: 450 };
    let control = CubeControl { command: CubeCommand::End, term_ms: None, data: None };
    let frame = apply_control(&mut c, &control, 600, false);
    assert!(frame.is_none());
    assert_eq!(c.step_count, 0);
    assert_eq!(c.action_term, 0);
    assert_eq!(c.action, CubeAction::Step2);
}

#[test]
fn apply_nothing_only_waits() {
    let mut c = cube(CubeAction::RollingR, 1);
    let control = control_at(CubeAction::RollingR, 1, 60).unwrap();
    let frame = apply_control(&mut c, &control, 600, false);
    assert!(frame.is_none());
    assert_eq!(c.step_count, 2);
    assert_eq!(c.action_term, 600);
}
