//! The singleton assumption made explicit: the rules act on exactly one
//! player and exactly one camera, found once before the first frame.

use vstd::prelude::*;

verus! {

/// What a handle is expected to name.
#[derive(Clone, Copy, Debug, PartialEq, Eq, Structural)]
pub enum Role {
    Player,
    Camera,
}

/// A broken assumption about the scene. It is a configuration error: the
/// frame update must stop on it, not guess.
#[derive(Clone, Copy, Debug, PartialEq, Eq, Structural)]
pub enum PreconditionError {
    /// `found` bodies carry `role` where exactly one must.
    ExpectedSingleton { role: Role, found: usize },
}

/// The handles of the one player and the one camera.
#[derive(Clone, Copy, Debug, PartialEq, Eq, Structural)]
pub struct Scene {
    pub player: u64,
    pub camera: u64,
}

/// The only handle among `candidates`, or the error that says how many there
/// were.
pub fn expect_singleton(role: Role, candidates: &[u64]) -> (found: Result<u64, PreconditionError>)
    ensures
        candidates@.len() == 1 ==> found == Ok::<u64, PreconditionError>(candidates@[0]),
        candidates@.len() != 1 ==> found == Err::<u64, PreconditionError>(
            PreconditionError::ExpectedSingleton { role, found: candidates@.len() as usize },
        ),
{
    if candidates.len() == 1 {
        Ok(candidates[0])
    } else {
        Err(PreconditionError::ExpectedSingleton { role, found: candidates.len() })
    }
}

impl Scene {
    /// Resolves both handles. The camera is looked for first, so where both
    /// are wrong the error names the camera.
    pub fn resolve(players: &[u64], cameras: &[u64]) -> (scene: Result<Scene, PreconditionError>)
        ensures
            cameras@.len() != 1 ==> scene == Err::<Scene, PreconditionError>(
                PreconditionError::ExpectedSingleton {
                    role: Role::Camera,
                    found: cameras@.len() as usize,
                },
            ),
            cameras@.len() == 1 && players@.len() != 1 ==> scene == Err::<Scene, PreconditionError>(
                PreconditionError::ExpectedSingleton {
                    role: Role::Player,
                    found: players@.len() as usize,
                },
            ),
            cameras@.len() == 1 && players@.len() == 1 ==> scene == Ok::<Scene, PreconditionError>(
                Scene { player: players@[0], camera: cameras@[0] },
            ),
    {
        let camera = match expect_singleton(Role::Camera, cameras) {
            Ok(handle) => handle,
            Err(e) => {
                return Err(e);
            },
        };
        let player = match expect_singleton(Role::Player, players) {
            Ok(handle) => handle,
            Err(e) => {
                return Err(e);
            },
        };
        Ok(Scene { player, camera })
    }
}

} // verus!
