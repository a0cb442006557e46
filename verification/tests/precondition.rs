use player_rules::precondition::{expect_singleton, PreconditionError, Role, Scene};

#[test]
fn exactly_one_candidate_is_the_singleton() {
    assert_eq!(expect_singleton(Role::Player, &[42]), Ok(42));
    assert_eq!(expect_singleton(Role::Camera, &[7]), Ok(7));
}

#[test]
fn no_candidate_is_an_error() {
    assert_eq!(
        expect_singleton(Role::Player, &[]),
        Err(PreconditionError::ExpectedSingleton { role: Role::Player, found: 0 })
    );
}

#[test]
fn several_candidates_are_an_error() {
    assert_eq!(
        expect_singleton(Role::Camera, &[1, 2, 3]),
        Err(PreconditionError::ExpectedSingleton { role: Role::Camera, found: 3 })
    );
    assert_eq!(
        expect_singleton(Role::Player, &[5, 5]),
        Err(PreconditionError::ExpectedSingleton { role: Role::Player, found: 2 })
    );
}

#[test]
fn a_scene_needs_one_player_and_one_camera() {
    assert_eq!(Scene::resolve(&[11], &[22]), Ok(Scene { player: 11, camera: 22 }));
}

#[test]
fn a_missing_camera_is_reported_first() {
    assert_eq!(
        Scene::resolve(&[], &[]),
        Err(PreconditionError::ExpectedSingleton { role: Role::Camera, found: 0 })
    );
    assert_eq!(
        Scene::resolve(&[1, 2], &[3, 4]),
        Err(PreconditionError::ExpectedSingleton { role: Role::Camera, found: 2 })
    );
}

#[test]
fn a_duplicated_player_is_reported() {
    assert_eq!(
        Scene::resolve(&[1, 2], &[3]),
        Err(PreconditionError::ExpectedSingleton { role: Role::Player, found: 2 })
    );
    assert_eq!(
        Scene::resolve(&[], &[3]),
        Err(PreconditionError::ExpectedSingleton { role: Role::Player, found: 0 })
    );
}
