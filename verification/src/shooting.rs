//! The shooting controller: what a shot spawns and what it does to the
//! shooter.

use vstd::prelude::*;
use crate::player::{Player, PlayerState};
use crate::vector::{Vec3, Vector, UNIT};

verus! {

/// Height at or below which the position gate lets recoil through: two units.
pub const RECOIL_HEIGHT_LIMIT: i64 = 2_000_000;

/// Restitution coefficient of a bullet: seven tenths.
pub const BULLET_RESTITUTION: i64 = 700_000;

/// Density of a bullet, twenty units, so that it pushes lighter bodies aside.
pub const BULLET_DENSITY: i64 = 20_000_000;

/// Dominance group of a bullet, above the default group of other bodies.
pub const BULLET_DOMINANCE: i8 = 10;

/// Gravity scale of a bullet: none, it flies straight.
pub const BULLET_GRAVITY_SCALE: i64 = 0;

/// The rule that decides whether a shot pushes the shooter back.
#[derive(Clone, Copy, Debug, PartialEq, Eq, Structural)]
pub enum RecoilGate {
    /// Recoil while the player is at or below [`RECOIL_HEIGHT_LIMIT`].
    PositionThreshold,
    /// Recoil while the collision flag is set.
    CollisionFlag,
}

/// The three muzzle vectors of one frame, each already turned by the camera's
/// orientation.
#[derive(Clone, Copy, Debug, PartialEq, Eq, Structural)]
pub struct Aim {
    /// From the player's position to where the bullet appears.
    pub muzzle_offset: Vec3,
    /// What a shot adds to the shooter's velocity.
    pub recoil: Vec3,
    /// The bullet's initial velocity.
    pub muzzle_velocity: Vec3,
}

impl Aim {
    /// The vectors that take part in a sum are in range.
    pub open spec fn wf(self) -> bool {
        &&& self.muzzle_offset.in_range()
        &&& self.recoil.in_range()
    }

    /// Tests [`Aim::wf`].
    pub fn is_wf(&self) -> (ok: bool)
        ensures
            ok == self.wf(),
    {
        self.muzzle_offset.is_in_range() && self.recoil.is_in_range()
    }

    /// The muzzle vectors in the camera's own frame, before any turning:
    /// half a unit up and one ahead, ten units backwards, and one right, one
    /// up and forty ahead. This is also the aim under an unturned camera.
    pub fn local() -> (aim: Aim)
        ensures
            aim.wf(),
            aim.muzzle_offset@ == (Vector { x: 0, y: UNIT / 2, z: -UNIT }),
            aim.recoil@ == (Vector { x: 0, y: 0, z: 10 * UNIT }),
            aim.muzzle_velocity@ == (Vector { x: UNIT as int, y: UNIT as int, z: -40 * UNIT }),
    {
        Aim {
            muzzle_offset: Vec3 { x: 0, y: UNIT / 2, z: -UNIT },
            recoil: Vec3 { x: 0, y: 0, z: 10 * UNIT },
            muzzle_velocity: Vec3 { x: UNIT, y: UNIT, z: -40 * UNIT },
        }
    }
}

/// A projectile as it is handed to the physics: created on a fire edge, never
/// reused.
#[derive(Clone, Copy, Debug, PartialEq, Eq, Structural)]
pub struct Bullet {
    pub position: Vec3,
    pub linvel: Vec3,
    pub angvel: Vec3,
    pub gravity_scale: i64,
    pub restitution: i64,
    pub density: i64,
    pub dominance: i8,
}

/// What a [`Bullet`] stands for.
pub ghost struct BulletState {
    pub position: Vector,
    pub linvel: Vector,
    pub angvel: Vector,
    pub gravity_scale: int,
    pub restitution: int,
    pub density: int,
    pub dominance: int,
}

impl View for Bullet {
    type V = BulletState;

    open spec fn view(&self) -> BulletState {
        BulletState {
            position: self.position@,
            linvel: self.linvel@,
            angvel: self.angvel@,
            gravity_scale: self.gravity_scale as int,
            restitution: self.restitution as int,
            density: self.density as int,
            dominance: self.dominance as int,
        }
    }
}

/// Whether `gate` lets recoil through for this player on this frame.
pub open spec fn recoil_applies(gate: RecoilGate, player: PlayerState, colliding: bool) -> bool {
    match gate {
        RecoilGate::PositionThreshold => player.translation.y <= RECOIL_HEIGHT_LIMIT,
        RecoilGate::CollisionFlag => colliding,
    }
}

/// The bullet that a shot by `player` under `aim` spawns. Its velocity is the
/// muzzle velocity alone: nothing of the shooter's own velocity is inherited.
pub open spec fn fired_bullet(player: PlayerState, aim: Aim) -> BulletState {
    BulletState {
        position: player.translation.plus(aim.muzzle_offset@),
        linvel: aim.muzzle_velocity@,
        angvel: Vector::zero(),
        gravity_scale: BULLET_GRAVITY_SCALE as int,
        restitution: BULLET_RESTITUTION as int,
        density: BULLET_DENSITY as int,
        dominance: BULLET_DOMINANCE as int,
    }
}

/// The player after a frame of the shooting rule. Only a shot on which
/// recoil applies changes anything, and it adds the recoil to the linear
/// velocity.
pub open spec fn after_shot(
    player: PlayerState,
    aim: Aim,
    fire_edge: bool,
    gate: RecoilGate,
    colliding: bool,
) -> PlayerState {
    if fire_edge && recoil_applies(gate, player, colliding) {
        PlayerState { linvel: player.linvel.plus(aim.recoil@), ..player }
    } else {
        player
    }
}

/// Recoil is conditional: the shooter's velocity changes, by exactly the
/// recoil vector, only on a fire edge on which recoil applies. Under
/// [`RecoilGate::PositionThreshold`] that is a player at or below
/// [`RECOIL_HEIGHT_LIMIT`], under [`RecoilGate::CollisionFlag`] a player that
/// is touching. Nothing else about the player changes, and
/// the bullet is the same either way.
pub proof fn recoil_is_gated(
    player: PlayerState,
    aim: Aim,
    fire_edge: bool,
    gate: RecoilGate,
    colliding: bool,
)
    ensures
        ({
            let after = after_shot(player, aim, fire_edge, gate, colliding);
            let open = recoil_applies(gate, player, colliding);
            &&& fire_edge && open ==> after.linvel == player.linvel.plus(aim.recoil@)
            &&& !(fire_edge && open) ==> after == player
            &&& after.translation == player.translation
            &&& after.rotation == player.rotation
            &&& after.angvel == player.angvel
            &&& gate == RecoilGate::PositionThreshold ==> (open <==> player.translation.y <= 2
                * UNIT)
            &&& gate == RecoilGate::CollisionFlag ==> (open <==> colliding)
        }),
{
}

/// One frame of the shooting controller. `fire_edge` says whether fire went
/// from up to down on this frame.
pub fn shoot(
    player: &mut Player,
    aim: &Aim,
    fire_edge: bool,
    gate: RecoilGate,
    colliding: bool,
) -> (spawned: Option<Bullet>)
    requires
        aim.wf(),
        old(player).transform.translation.in_range(),
        old(player).velocity.linvel.in_range(),
    ensures
        final(player)@ == after_shot(old(player)@, *aim, fire_edge, gate, colliding),
        match spawned {
            Some(bullet) => fire_edge && bullet@ == fired_bullet(old(player)@, *aim),
            None => !fire_edge,
        },
{
    if !fire_edge {
        return None;
    }
    let position = player.transform.translation.plus(aim.muzzle_offset);
    let pushed = match gate {
        RecoilGate::PositionThreshold => player.transform.translation.y <= RECOIL_HEIGHT_LIMIT,
        RecoilGate::CollisionFlag => colliding,
    };
    if pushed {
        player.velocity.linvel = player.velocity.linvel.plus(aim.recoil);
    }
    Some(
        Bullet {
            position,
            linvel: aim.muzzle_velocity,
            angvel: Vec3::zero(),
            gravity_scale: BULLET_GRAVITY_SCALE,
            restitution: BULLET_RESTITUTION,
            density: BULLET_DENSITY,
            dominance: BULLET_DOMINANCE,
        },
    )
}

} // verus!
