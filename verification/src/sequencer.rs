//! Choreography sequencer: one timed state machine per cube.
//!
//! A step of the machine maps the cube's current action and step counter to a
//! `CubeControl` directive. `apply_control` then turns a directive into the
//! wire frame to write (through the codec) and advances the cube's step
//! counter and timing. `None` from the table means the action is exhausted
//! (or skipped): the driver must pick the next action.

use vstd::prelude::*;

use crate::codec::{move_frame, move_to_frame, encode_move, encode_move_to};

verus! {

/// Wire byte for a motor running forward.
pub const MOTOR_FW: u8 = 0x01;

/// Wire byte for a motor running in reverse.
pub const MOTOR_RV: u8 = 0x02;

/// How many cubes one group may hold.
pub const SUPPORTED_MAX_CUBES: usize = 4;

/// Duration of one circling action, in milliseconds.
pub const CIRCLE_TERM_MS: u64 = 7500;

/// A choreography primitive.
#[derive(Debug, Copy, Clone, PartialEq, Eq, Structural)]
pub enum CubeAction {
    SwingR,
    SwingL,
    Step2,
    Step4,
    Step8,
    StepRL2,
    RollingR,
    RollingL,
    GetReady,
    HomePosition,
    ByeBye,
    Circle1,
    Circle2,
}

/// What a step of an action asks the driver to do.
#[derive(Debug, Copy, Clone, PartialEq, Eq, Structural)]
pub enum CubeCommand {
    Move,
    MoveTo,
    Nothing,
    End,
}

/// The directive one step produces: a command, an optional duration override
/// in milliseconds (`None` means the driver's default tick), and the raw
/// payload bytes the command consumes.
#[derive(Debug)]
pub struct CubeControl {
    pub command: CubeCommand,
    pub term_ms: Option<u64>,
    pub data: Option<Vec<u8>>,
}

/// The mathematical shape of a `CubeControl`: the payload as a sequence.
pub struct ControlModel {
    pub command: CubeCommand,
    pub term_ms: Option<u64>,
    pub data: Option<Seq<u8>>,
}

impl View for CubeControl {
    type V = ControlModel;

    open spec fn view(&self) -> ControlModel {
        ControlModel {
            command: self.command,
            term_ms: self.term_ms,
            data: match self.data {
                Some(v) => Some(v@),
                None => None,
            },
        }
    }
}

/// The view of an optional directive.
pub open spec fn opt_control_view(r: Option<CubeControl>) -> Option<ControlModel> {
    match r {
        Some(c) => Some(c@),
        None => None,
    }
}

/// One controlled cube: its slot in the group, its current action, the step
/// counter inside that action, and the duration of the last issued step in
/// milliseconds. The BLE handle that carries its frames lives with the
/// transport binding, keyed by `id`.
#[derive(Debug, Copy, Clone, PartialEq, Eq, Structural)]
pub struct CubeInfo {
    pub id: usize,
    pub action: CubeAction,
    pub step_count: usize,
    pub action_term: u64,
}

/// Mat capability: whether absolute-position commands may be used, and where
/// on the mat this choreography's origin lies.
#[derive(Debug, Copy, Clone, PartialEq, Eq, Structural)]
pub struct MatConfig {
    pub enable: bool,
    pub offset_x: u16,
    pub offset_y: u16,
}

/// The mat origin leaves room for every choreography offset inside the
/// 16-bit wire coordinates (up to 420 is added to x, up to 430 to y).
pub open spec fn mat_wf(mat: MatConfig) -> bool {
    mat.offset_x <= 65115 && mat.offset_y <= 65105
}

/// A cube's slot lies inside the supported group size.
pub open spec fn cube_wf(cube: CubeInfo) -> bool {
    cube.id < SUPPORTED_MAX_CUBES
}

/// Motor running time of one step, derived from the tick duration: four
/// fifths of it, in deciseconds.
pub open spec fn motor_duration_of(max_duration: u64) -> u8
    recommends
        max_duration <= 255,
{
    ((max_duration * 4) / 5) as u8
}

/// Full running time used by the rolling actions: four ticks, capped at the
/// 8-bit wire field.
pub open spec fn full_time_of(max_duration: u64) -> u8
    recommends
        max_duration <= 255,
{
    if max_duration * 4 < 255 {
        (max_duration * 4) as u8
    } else {
        255
    }
}

/// A `Move` directive over the raw five-byte motor payload.
pub open spec fn move_model(data: Seq<u8>, term_ms: Option<u64>) -> ControlModel {
    ControlModel { command: CubeCommand::Move, term_ms, data: Some(data) }
}

/// A `MoveTo` directive over the raw ten-byte position payload.
pub open spec fn move_to_model(data: Seq<u8>, term_ms: Option<u64>) -> ControlModel {
    ControlModel { command: CubeCommand::MoveTo, term_ms, data: Some(data) }
}

/// A `Nothing` directive: hold still for the step's duration.
pub open spec fn nothing_model(term_ms: Option<u64>) -> ControlModel {
    ControlModel { command: CubeCommand::Nothing, term_ms, data: None }
}

/// The `End` directive: the action has exhausted its steps.
pub open spec fn end_model() -> ControlModel {
    ControlModel { command: CubeCommand::End, term_ms: None, data: None }
}

/// Swing right: lean right twice, then left twice, then end.
pub open spec fn swing_r_model(step: usize, maxd: u64) -> ControlModel {
    let md = motor_duration_of(maxd);
    if step == 0 || step == 3 {
        move_model(seq![MOTOR_FW, 20u8, MOTOR_RV, 20u8, md], None)
    } else if step == 1 || step == 2 {
        move_model(seq![MOTOR_RV, 20u8, MOTOR_FW, 20u8, md], None)
    } else {
        end_model()
    }
}

/// Swing left: the mirror of swing right.
pub open spec fn swing_l_model(step: usize, maxd: u64) -> ControlModel {
    let md = motor_duration_of(maxd);
    if step == 0 || step == 3 {
        move_model(seq![MOTOR_RV, 20u8, MOTOR_FW, 20u8, md], None)
    } else if step == 1 || step == 2 {
        move_model(seq![MOTOR_FW, 20u8, MOTOR_RV, 20u8, md], None)
    } else {
        end_model()
    }
}

/// Two-beat step: forward, two in reverse, forward again, then end.
pub open spec fn step2_model(step: usize, maxd: u64) -> ControlModel {
    let md = motor_duration_of(maxd);
    if step == 0 || step == 3 {
        move_model(seq![MOTOR_FW, 20u8, MOTOR_FW, 20u8, md], None)
    } else if step == 1 || step == 2 {
        move_model(seq![MOTOR_RV, 20u8, MOTOR_RV, 20u8, md], None)
    } else {
        end_model()
    }
}

/// Four-beat step: two beats forward, two in reverse.
pub open spec fn step4_model(step: usize, maxd: u64) -> ControlModel {
    let md = motor_duration_of(maxd);
    if step == 0 || step == 1 {
        move_model(seq![MOTOR_FW, 20u8, MOTOR_FW, 20u8, md], None)
    } else if step == 2 || step == 3 {
        move_model(seq![MOTOR_RV, 20u8, MOTOR_RV, 20u8, md], None)
    } else {
        end_model()
    }
}

/// Eight-beat step: four beats forward, four in reverse.
pub open spec fn step8_model(step: usize, maxd: u64) -> ControlModel {
    let md = motor_duration_of(maxd);
    if step <= 3 {
        move_model(seq![MOTOR_FW, 20u8, MOTOR_FW, 20u8, md], None)
    } else if step <= 7 {
        move_model(seq![MOTOR_RV, 20u8, MOTOR_RV, 20u8, md], None)
    } else {
        end_model()
    }
}

/// Stepping while turning: four beats forward with alternating wheel bias,
/// then four in reverse.
pub open spec fn step_rl2_model(step: usize, maxd: u64) -> ControlModel {
    let md = motor_duration_of(maxd);
    if step == 0 || step == 3 {
        move_model(seq![MOTOR_FW, 20u8, MOTOR_FW, 10u8, md], None)
    } else if step == 1 || step == 2 {
        move_model(seq![MOTOR_FW, 10u8, MOTOR_FW, 20u8, md], None)
    } else if step == 4 || step == 7 {
        move_model(seq![MOTOR_RV, 10u8, MOTOR_RV, 20u8, md], None)
    } else if step == 5 || step == 6 {
        move_model(seq![MOTOR_RV, 20u8, MOTOR_RV, 10u8, md], None)
    } else {
        end_model()
    }
}

/// Roll right: one long spin, then three quiet beats.
pub open spec fn rolling_r_model(step: usize, maxd: u64) -> ControlModel {
    let ft = full_time_of(maxd);
    if step == 0 {
        move_model(seq![MOTOR_FW, 37u8, MOTOR_RV, 37u8, ft], None)
    } else if step <= 3 {
        nothing_model(None)
    } else {
        end_model()
    }
}

/// Roll left: the mirror of roll right.
pub open spec fn rolling_l_model(step: usize, maxd: u64) -> ControlModel {
    let ft = full_time_of(maxd);
    if step == 0 {
        move_model(seq![MOTOR_RV, 37u8, MOTOR_FW, 37u8, ft], None)
    } else if step <= 3 {
        nothing_model(None)
    } else {
        end_model()
    }
}

/// First circling figure: the lead cube arcs, the others hold still.
pub open spec fn circle1_model(step: usize, id: usize) -> ControlModel {
    let speed_l: u8 = if id == 0 { 42 } else { 0 };
    let speed_r: u8 = if id == 0 { 50 } else { 0 };
    if step == 0 {
        move_model(seq![MOTOR_FW, speed_l, MOTOR_FW, speed_r, 0u8], Some(CIRCLE_TERM_MS))
    } else {
        end_model()
    }
}

/// Second circling figure: the second cube arcs the other way round.
pub open spec fn circle2_model(step: usize, id: usize) -> ControlModel {
    let speed_l: u8 = if id == 1 { 50 } else { 0 };
    let speed_r: u8 = if id == 1 { 42 } else { 0 };
    if step == 0 {
        move_model(seq![MOTOR_FW, speed_l, MOTOR_FW, speed_r, 0u8], Some((CIRCLE_TERM_MS - 100) as u64))
    } else {
        end_model()
    }
}

/// The mat x coordinate a cube lines up on, by its slot in the group.
pub open spec fn lineup_x(id: usize, mat: MatConfig) -> int {
    if id % 4 == 0 {
        mat.offset_x + 200
    } else if id % 4 == 1 {
        mat.offset_x + 300
    } else if id % 4 == 2 {
        mat.offset_x + 140
    } else {
        mat.offset_x + 360
    }
}

/// The mat y coordinate a cube lines up on: a base row for the action plus a
/// little depth per pair of cubes.
pub open spec fn lineup_y(id: usize, base: int, mat: MatConfig) -> int {
    mat.offset_y + base + (id / 2) * 30
}

/// Get-ready and home-position figures. With a mat both are one
/// absolute-position step; without one, home position is skipped outright and
/// get-ready becomes a short relative walk and turn.
pub open spec fn ready_home_model(
    action: CubeAction,
    step: usize,
    id: usize,
    mat: MatConfig,
) -> Option<ControlModel> {
    if !mat.enable {
        if action == CubeAction::HomePosition {
            None
        } else if step == 0 {
            Some(move_model(seq![MOTOR_FW, 30u8, MOTOR_FW, 30u8, 0u8], Some(3000)))
        } else if step == 1 {
            Some(move_model(seq![MOTOR_RV, 15u8, MOTOR_FW, 15u8, 55u8], None))
        } else if step == 2 {
            Some(nothing_model(Some(2000)))
        } else {
            None
        }
    } else {
        let x = lineup_x(id, mat);
        let y = lineup_y(id, if action == CubeAction::GetReady { 190 } else { 210 }, mat);
        let speed: u8 = if action == CubeAction::GetReady { 80 } else { 30 };
        let term: u64 = if action == CubeAction::GetReady { 4000 } else { 400 };
        let moving_type: u8 = if action == CubeAction::GetReady { 3 } else { 0 };
        if step == 0 {
            Some(move_to_model(
                seq![
                    4u8,
                    0u8,
                    speed,
                    moving_type,
                    (x % 256) as u8,
                    (x / 256) as u8,
                    (y % 256) as u8,
                    (y / 256) as u8,
                    90u8,
                    0u8,
                ],
                Some(term),
            ))
        } else {
            None
        }
    }
}

/// The farewell figure: a short shiver (forward, back, stop) repeated over
/// twenty steps, then a run to the mat's edge. Needs the mat; skipped
/// without one.
pub open spec fn byebye_model(step: usize, id: usize, mat: MatConfig) -> Option<ControlModel> {
    if !mat.enable {
        None
    } else {
        let state: int = if step <= 19 {
            step as int % 2
        } else {
            step - 19
        };
        let x = if id % 2 == 0 {
            mat.offset_x + 80
        } else {
            mat.offset_x + 420
        };
        let y = if id % 4 == 0 || id % 4 == 1 {
            mat.offset_y + 70
        } else {
            mat.offset_y + 430
        };
        if state == 0 {
            Some(move_model(seq![MOTOR_FW, 30u8, MOTOR_FW, 30u8, 0u8], Some(100)))
        } else if state == 1 {
            Some(move_model(seq![MOTOR_RV, 30u8, MOTOR_RV, 30u8, 0u8], Some(100)))
        } else if state == 2 {
            Some(move_model(seq![MOTOR_RV, 0u8, MOTOR_RV, 0u8, 0u8], Some(30)))
        } else if state == 3 {
            Some(move_to_model(
                seq![
                    4u8,
                    0u8,
                    80u8,
                    3u8,
                    (x % 256) as u8,
                    (x / 256) as u8,
                    (y % 256) as u8,
                    (y / 256) as u8,
                    14u8,
                    1u8,
                ],
                Some(5000),
            ))
        } else {
            None
        }
    }
}

/// Wraps a table row: an `End` row means the action is exhausted and yields
/// no directive.
pub open spec fn wrap_model(m: ControlModel) -> Option<ControlModel> {
    if m.command == CubeCommand::End {
        None
    } else {
        Some(m)
    }
}

/// The whole transition table: what directive the cube's current action and
/// step counter produce, or `None` when the action is exhausted or skipped.
/// Opaque: reason about it through the per-action rows above, or reveal it.
#[verifier::opaque]
pub open spec fn cube_control_model(cube: CubeInfo, maxd: u64, mat: MatConfig) -> Option<
    ControlModel,
> {
    match cube.action {
        CubeAction::SwingR => wrap_model(swing_r_model(cube.step_count, maxd)),
        CubeAction::SwingL => wrap_model(swing_l_model(cube.step_count, maxd)),
        CubeAction::Step2 => wrap_model(step2_model(cube.step_count, maxd)),
        CubeAction::Step4 => wrap_model(step4_model(cube.step_count, maxd)),
        CubeAction::Step8 => wrap_model(step8_model(cube.step_count, maxd)),
        CubeAction::StepRL2 => wrap_model(step_rl2_model(cube.step_count, maxd)),
        CubeAction::RollingR => wrap_model(rolling_r_model(cube.step_count, maxd)),
        CubeAction::RollingL => wrap_model(rolling_l_model(cube.step_count, maxd)),
        CubeAction::GetReady => ready_home_model(
            CubeAction::GetReady,
            cube.step_count,
            cube.id,
            mat,
        ),
        CubeAction::HomePosition => ready_home_model(
            CubeAction::HomePosition,
            cube.step_count,
            cube.id,
            mat,
        ),
        CubeAction::ByeBye => byebye_model(cube.step_count, cube.id, mat),
        CubeAction::Circle1 => wrap_model(circle1_model(cube.step_count, cube.id)),
        CubeAction::Circle2 => wrap_model(circle2_model(cube.step_count, cube.id)),
    }
}

fn exec_motor_duration(maxd: u64) -> (r: u8)
    requires
        maxd <= 255,
    ensures
        r == motor_duration_of(maxd),
{
    ((maxd * 4) / 5) as u8
}

fn exec_move(d1: u8, s1: u8, d2: u8, s2: u8, dur: u8, term_ms: Option<u64>) -> (r: CubeControl)
    ensures
        r@ == move_model(seq![d1, s1, d2, s2, dur], term_ms),
{
    let data: Vec<u8> = vec![d1, s1, d2, s2, dur];
    proof {
        assert(data@ =~= seq![d1, s1, d2, s2, dur]);
    }
    CubeControl { command: CubeCommand::Move, term_ms, data: Some(data) }
}

fn exec_swing_r(step: usize, maxd: u64) -> (r: CubeControl)
    requires
        maxd <= 255,
    ensures
        r@ == swing_r_model(step, maxd),
{
    let md = exec_motor_duration(maxd);
    if step == 0 || step == 3 {
        exec_move(MOTOR_FW, 20, MOTOR_RV, 20, md, None)
    } else if step == 1 || step == 2 {
        exec_move(MOTOR_RV, 20, MOTOR_FW, 20, md, None)
    } else {
        CubeControl { command: CubeCommand::End, term_ms: None, data: None }
    }
}

fn exec_swing_l(step: usize, maxd: u64) -> (r: CubeControl)
    requires
        maxd <= 255,
    ensures
        r@ == swing_l_model(step, maxd),
{
    let md = exec_motor_duration(maxd);
    if step == 0 || step == 3 {
        exec_move(MOTOR_RV, 20, MOTOR_FW, 20, md, None)
    } else if step == 1 || step == 2 {
        exec_move(MOTOR_FW, 20, MOTOR_RV, 20, md, None)
    } else {
        CubeControl { command: CubeCommand::End, term_ms: None, data: None }
    }
}

fn exec_step2(step: usize, maxd: u64) -> (r: CubeControl)
    requires
        maxd <= 255,
    ensures
        r@ == step2_model(step, maxd),
{
    let md = exec_motor_duration(maxd);
    if step == 0 || step == 3 {
        exec_move(MOTOR_FW, 20, MOTOR_FW, 20, md, None)
    } else if step == 1 || step == 2 {
        exec_move(MOTOR_RV, 20, MOTOR_RV, 20, md, None)
    } else {
        CubeControl { command: CubeCommand::End, term_ms: None, data: None }
    }
}

fn exec_step4(step: usize, maxd: u64) -> (r: CubeControl)
    requires
        maxd <= 255,
    ensures
        r@ == step4_model(step, maxd),
{
    let md = exec_motor_duration(maxd);
    if step == 0 || step == 1 {
        exec_move(MOTOR_FW, 20, MOTOR_FW, 20, md, None)
    } else if step == 2 || step == 3 {
        exec_move(MOTOR_RV, 20, MOTOR_RV, 20, md, None)
    } else {
        CubeControl { command: CubeCommand::End, term_ms: None, data: None }
    }
}

fn exec_step8(step: usize, maxd: u64) -> (r: CubeControl)
    requires
        maxd <= 255,
    ensures
        r@ == step8_model(step, maxd),
{
    let md = exec_motor_duration(maxd);
    if step <= 3 {
        exec_move(MOTOR_FW, 20, MOTOR_FW, 20, md, None)
    } else if step <= 7 {
        exec_move(MOTOR_RV, 20, MOTOR_RV, 20, md, None)
    } else {
        CubeControl { command: CubeCommand::End, term_ms: None, data: None }
    }
}

fn exec_step_rl2(step: usize, maxd: u64) -> (r: CubeControl)
    requires
        maxd <= 255,
    ensures
        r@ == step_rl2_model(step, maxd),
{
    let md = exec_motor_duration(maxd);
    if step == 0 || step == 3 {
        exec_move(MOTOR_FW, 20, MOTOR_FW, 10, md, None)
    } else if step == 1 || step == 2 {
        exec_move(MOTOR_FW, 10, MOTOR_FW, 20, md, None)
    } else if step == 4 || step == 7 {
        exec_move(MOTOR_RV, 10, MOTOR_RV, 20, md, None)
    } else if step == 5 || step == 6 {
        exec_move(MOTOR_RV, 20, MOTOR_RV, 10, md, None)
    } else {
        CubeControl { command: CubeCommand::End, term_ms: None, data: None }
    }
}

fn exec_rolling(step: usize, maxd: u64, right: bool) -> (r: CubeControl)
    requires
        maxd <= 255,
    ensures
        right ==> r@ == rolling_r_model(step, maxd),
        !right ==> r@ == rolling_l_model(step, maxd),
{
    let ft: u8 = if maxd * 4 < 255 {
        (maxd * 4) as u8
    } else {
        255
    };
    if step == 0 {
        if right {
            exec_move(MOTOR_FW, 37, MOTOR_RV, 37, ft, None)
        } else {
            exec_move(MOTOR_RV, 37, MOTOR_FW, 37, ft, None)
        }
    } else if step <= 3 {
        CubeControl { command: CubeCommand::Nothing, term_ms: None, data: None }
    } else {
        CubeControl { command: CubeCommand::End, term_ms: None, data: None }
    }
}

fn exec_circle(step: usize, id: usize, second: bool) -> (r: CubeControl)
    ensures
        !second ==> r@ == circle1_model(step, id),
        second ==> r@ == circle2_model(step, id),
{
    let lead: bool = if second {
        id == 1
    } else {
        id == 0
    };
    let speed_l: u8 = if lead {
        if second { 50 } else { 42 }
    } else {
        0
    };
    let speed_r: u8 = if lead {
        if second { 42 } else { 50 }
    } else {
        0
    };
    let term: u64 = if second {
        CIRCLE_TERM_MS - 100
    } else {
        CIRCLE_TERM_MS
    };
    if step == 0 {
        exec_move(MOTOR_FW, speed_l, MOTOR_FW, speed_r, 0, Some(term))
    } else {
        CubeControl { command: CubeCommand::End, term_ms: None, data: None }
    }
}

fn exec_ready_home(action: CubeAction, step: usize, id: usize, mat: &MatConfig) -> (r: Option<
    CubeControl,
>)
    requires
        action == CubeAction::GetReady || action == CubeAction::HomePosition,
        id < SUPPORTED_MAX_CUBES,
        mat_wf(*mat),
    ensures
        opt_control_view(r) == ready_home_model(action, step, id, *mat),
{
    let get_ready = matches!(action, CubeAction::GetReady);
    if !mat.enable {
        if !get_ready {
            return None;
        }
        if step == 0 {
            Some(exec_move(MOTOR_FW, 30, MOTOR_FW, 30, 0, Some(3000)))
        } else if step == 1 {
            Some(exec_move(MOTOR_RV, 15, MOTOR_FW, 15, 55, None))
        } else if step == 2 {
            Some(CubeControl { command: CubeCommand::Nothing, term_ms: Some(2000), data: None })
        } else {
            None
        }
    } else {
        if step != 0 {
            return None;
        }
        let x: u32 = if id % 4 == 0 {
            mat.offset_x as u32 + 200
        } else if id % 4 == 1 {
            mat.offset_x as u32 + 300
        } else if id % 4 == 2 {
            mat.offset_x as u32 + 140
        } else {
            mat.offset_x as u32 + 360
        };
        let base: u32 = if get_ready {
            190
        } else {
            210
        };
        let y: u32 = mat.offset_y as u32 + base + ((id as u32) / 2) * 30;
        let speed: u8 = if get_ready {
            80
        } else {
            30
        };
        let term: u64 = if get_ready {
            4000
        } else {
            400
        };
        let moving_type: u8 = if get_ready {
            3
        } else {
            0
        };
        let data: Vec<u8> = vec![
            4,
            0,
            speed,
            moving_type,
            (x % 256) as u8,
            (x / 256) as u8,
            (y % 256) as u8,
            (y / 256) as u8,
            90,
            0,
        ];
        let c = CubeControl { command: CubeCommand::MoveTo, term_ms: Some(term), data: Some(data) };
        proof {
            let m = ready_home_model(action, step, id, *mat);
            assert(c@.data->0 =~= m->0.data->0);
        }
        Some(c)
    }
}

fn exec_byebye(step: usize, id: usize, mat: &MatConfig) -> (r: Option<CubeControl>)
    requires
        id < SUPPORTED_MAX_CUBES,
        mat_wf(*mat),
    ensures
        opt_control_view(r) == byebye_model(step, id, *mat),
{
    if !mat.enable {
        return None;
    }
    let state: usize = if step <= 19 {
        step % 2
    } else {
        step - 19
    };
    if state == 0 {
        Some(exec_move(MOTOR_FW, 30, MOTOR_FW, 30, 0, Some(100)))
    } else if state == 1 {
        Some(exec_move(MOTOR_RV, 30, MOTOR_RV, 30, 0, Some(100)))
    } else if state == 2 {
        Some(exec_move(MOTOR_RV, 0, MOTOR_RV, 0, 0, Some(30)))
    } else if state == 3 {
        let x: u32 = if id % 2 == 0 {
            mat.offset_x as u32 + 80
        } else {
            mat.offset_x as u32 + 420
        };
        let y: u32 = if id % 4 == 0 || id % 4 == 1 {
            mat.offset_y as u32 + 70
        } else {
            mat.offset_y as u32 + 430
        };
        let data: Vec<u8> = vec![
            4,
            0,
            80,
            3,
            (x % 256) as u8,
            (x / 256) as u8,
            (y % 256) as u8,
            (y / 256) as u8,
            14,
            1,
        ];
        let c = CubeControl {
            command: CubeCommand::MoveTo,
            term_ms: Some(5000),
            data: Some(data),
        };
        proof {
            let m = byebye_model(step, id, *mat);
            assert(c@.data->0 =~= m->0.data->0);
        }
        Some(c)
    } else {
        None
    }
}

/// One step of the per-cube state machine: the directive for the cube's
/// current action and step counter, exactly as the transition table gives it,
/// or `None` when the action is exhausted (the driver must pick the next
/// action) or skipped for want of a mat.
pub fn get_cube_control_data(cube: &CubeInfo, max_duration: u64, mat: &MatConfig) -> (r: Option<
    CubeControl,
>)
    requires
        max_duration <= 255,
        cube_wf(*cube),
        mat_wf(*mat),
    ensures
        opt_control_view(r) == cube_control_model(*cube, max_duration, *mat),
{
    proof {
        reveal(cube_control_model);
    }
    let control: CubeControl = match cube.action {
        CubeAction::SwingR => exec_swing_r(cube.step_count, max_duration),
        CubeAction::SwingL => exec_swing_l(cube.step_count, max_duration),
        CubeAction::Step2 => exec_step2(cube.step_count, max_duration),
        CubeAction::Step4 => exec_step4(cube.step_count, max_duration),
        CubeAction::Step8 => exec_step8(cube.step_count, max_duration),
        CubeAction::StepRL2 => exec_step_rl2(cube.step_count, max_duration),
        CubeAction::RollingR => exec_rolling(cube.step_count, max_duration, true),
        CubeAction::RollingL => exec_rolling(cube.step_count, max_duration, false),
        CubeAction::GetReady => {
            return exec_ready_home(CubeAction::GetReady, cube.step_count, cube.id, mat);
        },
        CubeAction::HomePosition => {
            return exec_ready_home(CubeAction::HomePosition, cube.step_count, cube.id, mat);
        },
        CubeAction::ByeBye => {
            return exec_byebye(cube.step_count, cube.id, mat);
        },
        CubeAction::Circle1 => exec_circle(cube.step_count, cube.id, false),
        CubeAction::Circle2 => exec_circle(cube.step_count, cube.id, true),
    };
    match control.command {
        CubeCommand::End => None,
        _ => Some(control),
    }
}

/// The duration a directive assigns to its step: its own override, or the
/// driver's default tick.
pub open spec fn term_of(m: ControlModel, default_term_ms: u64) -> u64 {
    match m.term_ms {
        Some(t) => t,
        None => default_term_ms,
    }
}

/// A directive's payload carries what its command consumes: five bytes for a
/// relative move, ten for an absolute one.
pub open spec fn control_payload_wf(m: ControlModel) -> bool {
    &&& m.command == CubeCommand::Move ==> (m.data matches Some(d) && d.len() == 5)
    &&& m.command == CubeCommand::MoveTo ==> (m.data matches Some(d) && d.len() == 10)
}

/// Every row of the transition table carries a well-formed payload.
pub proof fn lemma_table_payload_wf(cube: CubeInfo, maxd: u64, mat: MatConfig)
    ensures
        cube_control_model(cube, maxd, mat) matches Some(m) ==> control_payload_wf(m),
{
    reveal(cube_control_model);
}

/// The view of an optional frame.
pub open spec fn opt_frame_view(o: Option<Vec<u8>>) -> Option<Seq<u8>> {
    match o {
        Some(v) => Some(v@),
        None => None,
    }
}

/// The motor frame a `Move` payload encodes to.
pub open spec fn move_frame_of_payload(d: Seq<u8>) -> Seq<u8>
    recommends
        d.len() == 5,
{
    move_frame(d[0], d[1], d[2], d[3], d[4])
}

/// The position frame a `MoveTo` payload encodes to; bytes 4 to 9 hold x, y
/// and heading already split little-endian.
pub open spec fn move_to_frame_of_payload(d: Seq<u8>) -> Seq<u8>
    recommends
        d.len() == 10,
{
    move_to_frame(
        d[0],
        d[1],
        d[2],
        d[3],
        (d[4] + 256 * d[5]) as u16,
        (d[6] + 256 * d[7]) as u16,
        (d[8] + 256 * d[9]) as u16,
    )
}

/// Carries a directive out on one cube: advances the step counter, records
/// the step's duration, and hands back the motor frame to write, if the
/// command produces one. An absolute-position command without a mat changes
/// nothing. An `End` directive resets the step counter for the next action.
pub fn apply_control(
    cube: &mut CubeInfo,
    control: &CubeControl,
    default_term_ms: u64,
    mat_enable: bool,
) -> (frame: Option<Vec<u8>>)
    requires
        control_payload_wf(control@),
        old(cube).step_count < usize::MAX,
    ensures
        final(cube).id == old(cube).id,
        final(cube).action == old(cube).action,
        control@.command == CubeCommand::End ==> {
            &&& final(cube).step_count == 0
            &&& final(cube).action_term == 0
            &&& frame is None
        },
        control@.command == CubeCommand::Nothing ==> {
            &&& final(cube).step_count == old(cube).step_count + 1
            &&& final(cube).action_term == term_of(control@, default_term_ms)
            &&& frame is None
        },
        control@.command == CubeCommand::Move ==> {
            &&& final(cube).step_count == old(cube).step_count + 1
            &&& final(cube).action_term == term_of(control@, default_term_ms)
            &&& opt_frame_view(frame) == Some(move_frame_of_payload(control@.data->0))
        },
        control@.command == CubeCommand::MoveTo && mat_enable ==> {
            &&& final(cube).step_count == old(cube).step_count + 1
            &&& final(cube).action_term == term_of(control@, default_term_ms)
            &&& opt_frame_view(frame) == Some(move_to_frame_of_payload(control@.data->0))
        },
        control@.command == CubeCommand::MoveTo && !mat_enable ==> {
            &&& *final(cube) == *old(cube)
            &&& frame is None
        },
{
    match control.command {
        CubeCommand::Move => {
            let frame = match &control.data {
                Some(d) => encode_move(d[0], d[1], d[2], d[3], d[4]),
                None => {
                    proof {
                        assert(false);
                    }
                    vstd::pervasive::unreached()
                },
            };
            cube.step_count = cube.step_count + 1;
            cube.action_term = match control.term_ms {
                Some(t) => t,
                None => default_term_ms,
            };
            Some(frame)
        },
        CubeCommand::MoveTo => {
            if !mat_enable {
                return None;
            }
            let frame = match &control.data {
                Some(d) => {
                    let x: u16 = d[4] as u16 + 256 * (d[5] as u16);
                    let y: u16 = d[6] as u16 + 256 * (d[7] as u16);
                    let deg: u16 = d[8] as u16 + 256 * (d[9] as u16);
                    encode_move_to(d[0], d[1], d[2], d[3], x, y, deg)
                },
                None => {
                    proof {
                        assert(false);
                    }
                    vstd::pervasive::unreached()
                },
            };
            cube.step_count = cube.step_count + 1;
            cube.action_term = match control.term_ms {
                Some(t) => t,
                None => default_term_ms,
            };
            Some(frame)
        },
        CubeCommand::End => {
            cube.step_count = 0;
            cube.action_term = 0;
            None
        },
        CubeCommand::Nothing => {
            cube.step_count = cube.step_count + 1;
            cube.action_term = match control.term_ms {
                Some(t) => t,
                None => default_term_ms,
            };
            None
        },
    }
}

/// Two-beat step, spelled out: the first and fourth beats drive both motors
/// forward, the second and third both in reverse, and the action ends exactly
/// at the fifth step — never earlier.
pub proof fn lemma_step2_alternates(step: usize, maxd: u64)
    ensures
        (step == 0 || step == 3) ==> step2_model(step, maxd) == move_model(
            seq![MOTOR_FW, 20u8, MOTOR_FW, 20u8, motor_duration_of(maxd)],
            None,
        ),
        (step == 1 || step == 2) ==> step2_model(step, maxd) == move_model(
            seq![MOTOR_RV, 20u8, MOTOR_RV, 20u8, motor_duration_of(maxd)],
            None,
        ),
        step < 4 ==> step2_model(step, maxd).command == CubeCommand::Move,
        step >= 4 ==> step2_model(step, maxd).command == CubeCommand::End,
{
}

} // verus!
