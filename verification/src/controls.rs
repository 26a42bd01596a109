//! The decisions of the camera and locomotion controllers.
//!
//! Angles and velocities are integrated by the caller. What is decided here
//! is what comes before the arithmetic: whether input is taken at all this
//! tick, along which axes the player wants to move and at which pace, and
//! which case of the vertical motion model applies.

use vstd::prelude::*;
use crate::state::{GameModel, GameState};

verus! {

/// What the camera does with the look input of one tick.
#[derive(Clone, Copy, Debug, PartialEq, Eq, Structural)]
pub enum LookAction {
    /// Drop the queued look deltas; yaw and pitch stay as they are.
    Discard,
    /// Accumulate the queued look deltas into yaw and pitch.
    Apply,
}

/// The movement keys as held this tick.
#[derive(Clone, Copy, Debug, PartialEq, Eq, Structural)]
pub struct MoveKeys {
    pub forward: bool,
    pub back: bool,
    pub left: bool,
    pub right: bool,
    pub run: bool,
    pub jump: bool,
}

/// What the physics side reported of the player after the previous tick.
#[derive(Clone, Copy, Debug, PartialEq, Eq, Structural)]
pub struct Footing {
    pub grounded: bool,
    pub sliding_down_slope: bool,
}

/// The target horizontal speed.
#[derive(Clone, Copy, Debug, PartialEq, Eq, Structural)]
pub enum Pace {
    Walk,
    Run,
}

/// The case of the vertical motion model that applies this tick.
#[derive(Clone, Copy, Debug, PartialEq, Eq, Structural)]
pub enum Vertical {
    /// On the ground, no jump: the vertical velocity is carried over.
    Carry,
    /// On the ground, jump held: the vertical velocity is set to the jump
    /// speed.
    Jump,
    /// In the air: gravity accumulates, scaled by whether the player is
    /// rising and damped while sliding down a slope.
    Gravity { rising: bool, sliding: bool },
}

/// What the locomotion controller does in one tick.
#[derive(Clone, Copy, Debug, PartialEq, Eq, Structural)]
pub struct MovePlan {
    /// The coefficient of the camera's forward basis vector in the wanted
    /// direction: 1, 0 or -1.
    pub forward: i8,
    /// The coefficient of the camera's right basis vector: 1, 0 or -1.
    pub right: i8,
    pub pace: Pace,
    pub vertical: Vertical,
}

/// Look input is taken unless the game is paused.
pub open spec fn look_action(m: GameModel) -> LookAction {
    if m.paused {
        LookAction::Discard
    } else {
        LookAction::Apply
    }
}

/// One axis of the wanted direction: each of the two opposed keys that is
/// held adds its unit, so both or neither give 0.
pub open spec fn axis(plus: bool, minus: bool) -> int {
    (if plus { 1int } else { 0int }) - (if minus { 1int } else { 0int })
}

/// The vertical case: a jump needs ground under the player, and gravity
/// acts only in the air.
pub open spec fn vertical_case(jump: bool, footing: Footing, rising: bool) -> Vertical {
    if footing.grounded {
        if jump {
            Vertical::Jump
        } else {
            Vertical::Carry
        }
    } else {
        Vertical::Gravity { rising, sliding: footing.sliding_down_slope }
    }
}

/// The plan of one tick: none while the game is paused or a dialog is
/// active, otherwise the wanted direction, the pace and the vertical case.
pub open spec fn move_plan(m: GameModel, keys: MoveKeys, footing: Footing, rising: bool) -> Option<
    MovePlan,
> {
    if m.paused || m.dialog is Some {
        None
    } else {
        Some(
            MovePlan {
                forward: axis(keys.forward, keys.back) as i8,
                right: axis(keys.right, keys.left) as i8,
                pace: if keys.run {
                    Pace::Run
                } else {
                    Pace::Walk
                },
                vertical: vertical_case(keys.jump, footing, rising),
            },
        )
    }
}

/// Decides what becomes of this tick's look input.
pub fn camera_control(state: &GameState) -> (action: LookAction)
    ensures
        action == look_action(state@),
{
    if state.paused() {
        LookAction::Discard
    } else {
        LookAction::Apply
    }
}

/// One axis of the wanted direction from its two keys.
fn axis_of(plus: bool, minus: bool) -> (a: i8)
    ensures
        a == axis(plus, minus),
{
    let p: i8 = if plus { 1 } else { 0 };
    let m: i8 = if minus { 1 } else { 0 };
    p - m
}

/// Decides what the locomotion controller does this tick. `rising` says
/// whether the player's vertical velocity is above zero.
pub fn player_controls(state: &GameState, keys: MoveKeys, footing: Footing, rising: bool) -> (plan:
    Option<MovePlan>)
    ensures
        plan == move_plan(state@, keys, footing, rising),
{
    if state.paused() || state.in_dialog() {
        return None;
    }
    let vertical = if footing.grounded {
        if keys.jump {
            Vertical::Jump
        } else {
            Vertical::Carry
        }
    } else {
        Vertical::Gravity { rising, sliding: footing.sliding_down_slope }
    };
    Some(
        MovePlan {
            forward: axis_of(keys.forward, keys.back),
            right: axis_of(keys.right, keys.left),
            pace: if keys.run {
                Pace::Run
            } else {
                Pace::Walk
            },
            vertical,
        },
    )
}

/// While the game is paused the look input is dropped, whatever it holds:
/// the decision reads nothing but the pause flag.
pub proof fn lemma_pause_freezes_look(m: GameModel)
    ensures
        m.paused ==> look_action(m) == LookAction::Discard,
        !m.paused ==> look_action(m) == LookAction::Apply,
{
}

/// A jump needs ground: in the air the jump key changes nothing about the
/// plan, and no plan for an airborne player is a jump.
pub proof fn lemma_jump_requires_grounded(
    m: GameModel,
    keys: MoveKeys,
    footing: Footing,
    rising: bool,
)
    requires
        !footing.grounded,
    ensures
        move_plan(m, MoveKeys { jump: true, ..keys }, footing, rising) == move_plan(
            m,
            MoveKeys { jump: false, ..keys },
            footing,
            rising,
        ),
        move_plan(m, keys, footing, rising) matches Some(plan) ==> plan.vertical
            != Vertical::Jump,
{
}

/// Pause and dialog freeze locomotion: there is a plan exactly when the
/// game runs and no dialog is active.
pub proof fn lemma_movement_gate(m: GameModel, keys: MoveKeys, footing: Footing, rising: bool)
    ensures
        move_plan(m, keys, footing, rising) is None <==> (m.paused || m.dialog is Some),
{
}

/// Opposed keys cancel, and each axis is -1, 0 or 1.
pub proof fn lemma_axis_range(plus: bool, minus: bool)
    ensures
        -1 <= axis(plus, minus) <= 1,
        plus == minus ==> axis(plus, minus) == 0,
        axis(minus, plus) == -axis(plus, minus),
{
}

} // verus!
