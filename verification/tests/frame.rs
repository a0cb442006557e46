use player_rules::camera::Camera;
use player_rules::collision::ContactEvent;
use player_rules::frame::{tick, FrameInput, Simulation};
use player_rules::input::{FireTrigger, Keys, Mouse};
use player_rules::player::{Player, JUMP_SPEED};
use player_rules::shooting::{Aim, RecoilGate};
use player_rules::vector::{Vec3, UNIT};

fn input(forward: bool, jump: bool, fire: bool) -> FrameInput {
    FrameInput {
        keys: Keys { forward, back: false, left: false, right: false },
        mouse: Mouse { jump, fire },
    }
}

#[test]
fn a_new_simulation_is_touching_with_the_trigger_up() {
    let sim = Simulation::new(RecoilGate::CollisionFlag);
    assert!(sim.collision.flag);
    assert!(!sim.trigger.held);
    assert_eq!(sim.gate, RecoilGate::CollisionFlag);
    assert!(!FireTrigger::new().held);
}

#[test]
fn the_trigger_fires_on_the_rising_edge_only() {
    let mut trigger = FireTrigger::new();
    assert!(!trigger.rising_edge(false));
    assert!(trigger.rising_edge(true));
    assert!(trigger.held);
    assert!(!trigger.rising_edge(true));
    assert!(!trigger.rising_edge(true));
    assert!(!trigger.rising_edge(false));
    assert!(!trigger.held);
    assert!(trigger.rising_edge(true));
}

#[test]
fn fire_held_over_two_frames_spawns_once() {
    let mut sim = Simulation::new(RecoilGate::PositionThreshold);
    let mut player = Player::at(Vec3::new(0, UNIT, 0));
    let cam = Camera::identity();
    let aim = Aim::local();
    let first = tick(&mut sim, &mut player, &input(false, false, true), &cam, &aim, &[]);
    let second = tick(&mut sim, &mut player, &input(false, false, true), &cam, &aim, &[]);
    assert!(first.is_some());
    assert!(second.is_none());
    let third = tick(&mut sim, &mut player, &input(false, false, false), &cam, &aim, &[]);
    let fourth = tick(&mut sim, &mut player, &input(false, false, true), &cam, &aim, &[]);
    assert!(third.is_none());
    assert!(fourth.is_some());
}

#[test]
fn shooting_sees_the_player_as_movement_left_it() {
    let mut sim = Simulation::new(RecoilGate::PositionThreshold);
    let mut player = Player::at(Vec3::new(UNIT, UNIT, UNIT));
    player.velocity.linvel = Vec3::new(9 * UNIT, 0, 9 * UNIT);
    let spawned = tick(
        &mut sim,
        &mut player,
        &input(true, true, true),
        &Camera::identity(),
        &Aim::local(),
        &[],
    );
    assert_eq!(player.velocity.linvel, Vec3::new(0, JUMP_SPEED, -4 * UNIT + 10 * UNIT));
    let bullet = spawned.unwrap();
    assert_eq!(bullet.position, Vec3::new(UNIT, 1_500_000, 0));
    assert_eq!(bullet.linvel, Vec3::new(UNIT, UNIT, -40 * UNIT));
}

#[test]
fn contacts_come_before_movement_and_recoil() {
    let mut sim = Simulation::new(RecoilGate::CollisionFlag);
    let mut player = Player::at(Vec3::new(0, UNIT, 0));
    let spawned = tick(
        &mut sim,
        &mut player,
        &input(true, true, true),
        &Camera::identity(),
        &Aim::local(),
        &[ContactEvent::Started, ContactEvent::Stopped],
    );
    assert!(!sim.collision.flag);
    assert!(spawned.is_some());
    assert_eq!(player.velocity.linvel, Vec3::new(0, 0, -8 * UNIT));

    let spawned = tick(
        &mut sim,
        &mut player,
        &input(true, false, false),
        &Camera::identity(),
        &Aim::local(),
        &[ContactEvent::Started],
    );
    assert!(sim.collision.flag);
    assert!(spawned.is_none());
    assert_eq!(player.velocity.linvel, Vec3::new(0, 0, -4 * UNIT));
}

#[test]
fn the_flag_carries_over_to_the_next_frame() {
    let mut sim = Simulation::new(RecoilGate::PositionThreshold);
    let mut player = Player::at(Vec3::new(0, UNIT, 0));
    let cam = Camera::identity();
    let aim = Aim::local();
    tick(&mut sim, &mut player, &input(true, false, false), &cam, &aim, &[ContactEvent::Stopped]);
    tick(&mut sim, &mut player, &input(true, false, false), &cam, &aim, &[]);
    assert!(!sim.collision.flag);
    assert_eq!(player.velocity.linvel, Vec3::new(0, 0, -8 * UNIT));
}

#[test]
fn two_simulations_do_not_share_state() {
    let mut a = Simulation::new(RecoilGate::PositionThreshold);
    let mut b = Simulation::new(RecoilGate::PositionThreshold);
    let mut pa = Player::at(Vec3::new(0, UNIT, 0));
    let mut pb = Player::at(Vec3::new(0, UNIT, 0));
    let cam = Camera::identity();
    let aim = Aim::local();
    tick(&mut a, &mut pa, &input(false, false, true), &cam, &aim, &[ContactEvent::Stopped]);
    assert!(!a.collision.flag);
    assert!(b.collision.flag);
    let spawned = tick(&mut b, &mut pb, &input(false, false, true), &cam, &aim, &[]);
    assert!(spawned.is_some());
}
