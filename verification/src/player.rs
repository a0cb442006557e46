//! The movement controller: from keys, camera and collision flag to the
//! player's velocity and facing.

use vstd::prelude::*;
use crate::camera::Camera;
use crate::collision::{flag_after, CollisionState, ContactEvent};
use crate::input::{Keys, Mouse};
use crate::vector::{Quat, Vec3, Vector, UNIT};

verus! {

/// Speed factor while touching, one axis held.
pub const GROUNDED_SPEED: i64 = 4;

/// Speed factor while touching, both axes held.
pub const GROUNDED_DIAGONAL_SPEED: i64 = 3;

/// Speed factor while airborne, one axis held.
pub const AIRBORNE_SPEED: i64 = 8;

/// Speed factor while airborne, both axes held.
pub const AIRBORNE_DIAGONAL_SPEED: i64 = 6;

/// Vertical velocity that a jump sets: three and a half units upward.
pub const JUMP_SPEED: i64 = 3_500_000;

/// Position and orientation of a body.
#[derive(Clone, Copy, Debug, PartialEq, Eq, Structural)]
pub struct Transform {
    pub translation: Vec3,
    pub rotation: Quat,
}

/// Linear and angular velocity of a body.
#[derive(Clone, Copy, Debug, PartialEq, Eq, Structural)]
pub struct Velocity {
    pub linvel: Vec3,
    pub angvel: Vec3,
}

/// The one player body.
#[derive(Clone, Copy, Debug, PartialEq, Eq, Structural)]
pub struct Player {
    pub transform: Transform,
    pub velocity: Velocity,
}

/// What a [`Player`] stands for.
pub ghost struct PlayerState {
    pub translation: Vector,
    pub rotation: Quat,
    pub linvel: Vector,
    pub angvel: Vector,
}

impl View for Player {
    type V = PlayerState;

    open spec fn view(&self) -> PlayerState {
        PlayerState {
            translation: self.transform.translation@,
            rotation: self.transform.rotation,
            linvel: self.velocity.linvel@,
            angvel: self.velocity.angvel@,
        }
    }
}

impl Player {
    /// A player at rest at `translation`, facing the way an unturned camera
    /// does.
    pub fn at(translation: Vec3) -> (player: Player)
        ensures
            player@ == (PlayerState {
                translation: translation@,
                rotation: Quat { x: 0, y: 0, z: 0, w: UNIT },
                linvel: Vector::zero(),
                angvel: Vector::zero(),
            }),
    {
        Player {
            transform: Transform { translation, rotation: Quat::identity() },
            velocity: Velocity { linvel: Vec3::zero(), angvel: Vec3::zero() },
        }
    }
}

/// The sum of the camera's basis vectors for the keys held, flattened onto
/// the ground plane. It is not normalised: two perpendicular keys give a
/// longer vector than one.
pub open spec fn key_direction(keys: Keys, cam: Camera) -> Vector {
    let forward = if keys.forward { cam.forward@ } else { Vector::zero() };
    let back = if keys.back { cam.spec_back() } else { Vector::zero() };
    let left = if keys.left { cam.spec_left() } else { Vector::zero() };
    let right = if keys.right { cam.right@ } else { Vector::zero() };
    forward.plus(back).plus(left).plus(right).planar()
}

/// The speed table.
pub open spec fn spec_speed_multiplier(colliding: bool, diagonal: bool) -> i64 {
    if colliding {
        if diagonal { GROUNDED_DIAGONAL_SPEED } else { GROUNDED_SPEED }
    } else {
        if diagonal { AIRBORNE_DIAGONAL_SPEED } else { AIRBORNE_SPEED }
    }
}

/// The player after one frame of the movement rule, given the collision flag
/// that holds on that frame.
///
/// Horizontal velocity is the key direction times the speed factor. Vertical
/// velocity is replaced by [`JUMP_SPEED`] when jump is held while touching
/// and kept otherwise. The facing follows the camera's yaw. Position and spin
/// are not the rule's to change.
pub open spec fn moved(
    player: PlayerState,
    keys: Keys,
    mouse: Mouse,
    cam: Camera,
    colliding: bool,
) -> PlayerState {
    let planar = key_direction(keys, cam).scaled(
        spec_speed_multiplier(colliding, keys.spec_diagonal()) as int,
    );
    PlayerState {
        translation: player.translation,
        rotation: cam.rotation.spec_yaw_only(),
        linvel: Vector {
            x: planar.x,
            y: if colliding && mouse.jump { JUMP_SPEED as int } else { player.linvel.y },
            z: planar.z,
        },
        angvel: player.angvel,
    }
}

/// Movement is planar: whatever keys are held and wherever the camera looks,
/// the direction has no vertical part.
pub proof fn direction_is_planar(keys: Keys, cam: Camera)
    ensures
        key_direction(keys, cam).y == 0,
        key_direction(keys, cam) == key_direction(keys, cam).planar(),
{
}

/// Opposing keys cancel: a pair held together moves the player no more than
/// the pair released, and forward with back alone is the zero vector.
pub proof fn opposing_keys_cancel(keys: Keys, cam: Camera)
    ensures
        keys.forward && keys.back ==> key_direction(keys, cam) == key_direction(
            Keys { forward: false, back: false, ..keys },
            cam,
        ),
        keys.left && keys.right ==> key_direction(keys, cam) == key_direction(
            Keys { left: false, right: false, ..keys },
            cam,
        ),
        keys.forward && keys.back && !keys.left && !keys.right ==> key_direction(keys, cam)
            == Vector::zero(),
        !keys.forward && !keys.back && keys.left && keys.right ==> key_direction(keys, cam)
            == Vector::zero(),
{
}

/// One key of each axis gives the plain vector sum of the two basis vectors,
/// not a normalised diagonal: its squared length is that of the sum, and
/// where the two are perpendicular on the ground it is the two squared
/// lengths added, longer than either alone.
pub proof fn diagonal_is_vector_sum(keys: Keys, cam: Camera)
    requires
        keys.forward != keys.back,
        keys.left != keys.right,
    ensures
        ({
            let along = if keys.forward { cam.forward@ } else { cam.spec_back() };
            let across = if keys.right { cam.right@ } else { cam.spec_left() };
            let direction = key_direction(keys, cam);
            &&& direction == along.plus(across).planar()
            &&& direction.planar_norm_squared() == along.planar_norm_squared()
                + across.planar_norm_squared() + 2 * along.planar_dot(across)
            &&& along.planar_dot(across) == 0 ==> direction.planar_norm_squared()
                == along.planar_norm_squared() + across.planar_norm_squared()
        }),
{
    let along = if keys.forward { cam.forward@ } else { cam.spec_back() };
    let across = if keys.right { cam.right@ } else { cam.spec_left() };
    let (ax, az, cx, cz) = (along.x, along.z, across.x, across.z);
    assert((ax + cx) * (ax + cx) + (az + cz) * (az + cz) == (ax * ax + az * az) + (cx * cx + cz
        * cz) + 2 * (ax * cx + az * cz)) by (nonlinear_arith);
}

/// Horizontal velocity is the key direction times the factor of the speed
/// table, component by component, so the speed is the direction's length
/// times that factor: four while touching and eight while airborne with one
/// axis held, three and six with both.
pub proof fn speed_scales_direction(
    player: PlayerState,
    keys: Keys,
    mouse: Mouse,
    cam: Camera,
    colliding: bool,
)
    ensures
        ({
            let direction = key_direction(keys, cam);
            let velocity = moved(player, keys, mouse, cam, colliding).linvel;
            let factor = spec_speed_multiplier(colliding, keys.spec_diagonal()) as int;
            &&& velocity.x == direction.x * factor
            &&& velocity.z == direction.z * factor
            &&& velocity.planar_norm_squared() == factor * factor
                * direction.planar_norm_squared()
            &&& colliding && !keys.spec_diagonal() ==> factor == 4
            &&& !colliding && !keys.spec_diagonal() ==> factor == 8
            &&& colliding && keys.spec_diagonal() ==> factor == 3
            &&& !colliding && keys.spec_diagonal() ==> factor == 6
        }),
{
    let d = key_direction(keys, cam);
    let m = spec_speed_multiplier(colliding, keys.spec_diagonal()) as int;
    let (dx, dz) = (d.x, d.z);
    assert((dx * m) * (dx * m) + (dz * m) * (dz * m) == m * m * (dx * dx + dz * dz))
        by (nonlinear_arith);
}

/// A jump sets the vertical velocity to [`JUMP_SPEED`], whatever it was, and
/// only while touching; otherwise the vertical velocity is left alone. The
/// jump is a set, not a push: a second frame of it changes nothing more.
pub proof fn jump_needs_contact(
    player: PlayerState,
    keys: Keys,
    mouse: Mouse,
    cam: Camera,
    colliding: bool,
)
    ensures
        ({
            let after = moved(player, keys, mouse, cam, colliding);
            &&& mouse.jump && colliding ==> after.linvel.y == JUMP_SPEED
            &&& !(mouse.jump && colliding) ==> after.linvel.y == player.linvel.y
            &&& moved(after, keys, mouse, cam, colliding) == after
        }),
{
}

/// Under a well-formed camera no key combination asks for more than two
/// units along an axis, so the horizontal speed stays within sixteen.
pub proof fn horizontal_speed_is_bounded(
    player: PlayerState,
    keys: Keys,
    mouse: Mouse,
    cam: Camera,
    colliding: bool,
)
    requires
        cam.wf(),
    ensures
        key_direction(keys, cam).within(2 * UNIT),
        -16 * UNIT <= moved(player, keys, mouse, cam, colliding).linvel.x <= 16 * UNIT,
        -16 * UNIT <= moved(player, keys, mouse, cam, colliding).linvel.z <= 16 * UNIT,
{
    let d = key_direction(keys, cam);
    let m = spec_speed_multiplier(colliding, keys.spec_diagonal()) as int;
    let b = 2 * UNIT;
    assert(-8 * b <= d.x * m <= 8 * b) by (nonlinear_arith)
        requires
            -b <= d.x <= b,
            0 <= m <= 8,
            0 <= b,
    ;
    assert(-8 * b <= d.z * m <= 8 * b) by (nonlinear_arith)
        requires
            -b <= d.z <= b,
            0 <= m <= 8,
            0 <= b,
    ;
}

#[verifier::when_used_as_spec(spec_speed_multiplier)]
pub fn speed_multiplier(colliding: bool, diagonal: bool) -> (factor: i64)
    ensures
        factor == spec_speed_multiplier(colliding, diagonal),
{
    if colliding {
        if diagonal { GROUNDED_DIAGONAL_SPEED } else { GROUNDED_SPEED }
    } else {
        if diagonal { AIRBORNE_DIAGONAL_SPEED } else { AIRBORNE_SPEED }
    }
}

/// The camera-relative direction that the held keys ask for.
pub fn direction_sync(keys: &Keys, cam: &Camera) -> (direction: Vec3)
    requires
        cam.wf(),
    ensures
        direction@ == key_direction(*keys, *cam),
        direction.y == 0,
        direction@.within(2 * UNIT),
{
    let mut direction = Vec3::zero();
    if keys.forward {
        direction = direction.plus(cam.forward);
    }
    if keys.back {
        direction = direction.plus(cam.back());
    }
    if keys.left {
        direction = direction.plus(cam.left());
    }
    if keys.right {
        direction = direction.plus(cam.right);
    }
    direction.y = 0;
    direction
}

/// One frame of the movement controller.
///
/// The frame's contact notifications are consumed first, so the speed table
/// and the jump go by the flag as it stands after them.
pub fn player_movement(
    keys: &Keys,
    mouse: &Mouse,
    cam: &Camera,
    player: &mut Player,
    collision: &mut CollisionState,
    collision_events: &[ContactEvent],
)
    requires
        cam.wf(),
    ensures
        final(collision).flag == flag_after(old(collision).flag, collision_events@),
        final(player)@ == moved(old(player)@, *keys, *mouse, *cam, final(collision).flag),
{
    let movement = direction_sync(keys, cam);
    collision.observe(collision_events);
    let collision_flag = collision.is_colliding();
    let factor = speed_multiplier(collision_flag, keys.diagonal());
    player.velocity.linvel.x = movement.x * factor;
    player.velocity.linvel.z = movement.z * factor;
    if collision_flag && mouse.jump {
        player.velocity.linvel.y = JUMP_SPEED;
    }
    player.transform.rotation = cam.rotation.yaw_only();
}

} // verus!
