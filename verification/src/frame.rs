//! One simulated frame: collision update, then movement, then shooting.

use vstd::prelude::*;
use crate::camera::Camera;
use crate::collision::{flag_after, CollisionState, ContactEvent};
use crate::input::{FireTrigger, Keys, Mouse};
use crate::player::{horizontal_speed_is_bounded, moved, player_movement, Player};
use crate::shooting::{after_shot, fired_bullet, shoot, Aim, Bullet, RecoilGate};
use crate::vector::COORD_MAX;

verus! {

/// Everything the input devices report for one frame.
#[derive(Clone, Copy, Debug, PartialEq, Eq, Structural)]
pub struct FrameInput {
    pub keys: Keys,
    pub mouse: Mouse,
}

/// The state that the rules carry from frame to frame. It is passed in by
/// reference, so several simulations can run side by side.
#[derive(Clone, Copy, Debug, PartialEq, Eq, Structural)]
pub struct Simulation {
    pub collision: CollisionState,
    pub trigger: FireTrigger,
    pub gate: RecoilGate,
}

impl Simulation {
    /// A simulation at start-up: touching, trigger up.
    pub fn new(gate: RecoilGate) -> (sim: Simulation)
        ensures
            sim.collision.flag,
            !sim.trigger.held,
            sim.gate == gate,
    {
        Simulation { collision: CollisionState::new(), trigger: FireTrigger::new(), gate }
    }
}

/// Runs one frame on `player`.
///
/// The contact notifications are consumed first; movement and the recoil gate
/// then go by the flag they leave. Shooting sees the player as movement left
/// it, and a bullet is spawned exactly on a fire edge.
pub fn tick(
    sim: &mut Simulation,
    player: &mut Player,
    input: &FrameInput,
    cam: &Camera,
    aim: &Aim,
    contacts: &[ContactEvent],
) -> (spawned: Option<Bullet>)
    requires
        cam.wf(),
        aim.wf(),
        old(player).transform.translation.in_range(),
        -COORD_MAX <= old(player).velocity.linvel.y <= COORD_MAX,
    ensures
        final(sim).collision.flag == flag_after(old(sim).collision.flag, contacts@),
        final(sim).trigger.held == input.mouse.fire,
        final(sim).gate == old(sim).gate,
        ({
            let colliding = final(sim).collision.flag;
            let fire_edge = FireTrigger::is_edge(old(sim).trigger.held, input.mouse.fire);
            let walked = moved(old(player)@, input.keys, input.mouse, *cam, colliding);
            &&& final(player)@ == after_shot(walked, *aim, fire_edge, old(sim).gate, colliding)
            &&& match spawned {
                Some(bullet) => fire_edge && bullet@ == fired_bullet(walked, *aim),
                None => !fire_edge,
            }
        }),
{
    player_movement(&input.keys, &input.mouse, cam, player, &mut sim.collision, contacts);
    proof {
        horizontal_speed_is_bounded(
            old(player)@,
            input.keys,
            input.mouse,
            *cam,
            sim.collision.flag,
        );
    }
    let fire_edge = sim.trigger.rising_edge(input.mouse.fire);
    shoot(player, aim, fire_edge, sim.gate, sim.collision.is_colliding())
}

} // verus!
