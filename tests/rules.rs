use unfair_advantage::advantage::{Advantage, EnemyAdvantage, PlayerAdvantage};
use unfair_advantage::collision::{
    check_collisions, CollisionEvent, Contact, PlayerCollision, PlayerCollisionEventType,
};
use unfair_advantage::enemy::{enemy_move, Borders, Direction, EnemyAnimation, Position};
use unfair_advantage::game::{EntityKind, GameState, GameWorld, Hit, HitTime, Hp};
use unfair_advantage::hud::{advantage_label, hp_is_low};
use unfair_advantage::player::{player_move, Jump, PlayerInput};
use unfair_advantage::tilemap::{LayerTiles, MapDescription, MapObject, ObjectGroup, ObjectShape, TileLayer};
use unfair_advantage::clock::SessionClock;

const BITE: Advantage = Advantage::EnemyAdvantage(EnemyAdvantage::DoubleBite);
const SPEED: Advantage = Advantage::EnemyAdvantage(EnemyAdvantage::DoubleSpeed);
const DOUBLE_HP: Advantage = Advantage::PlayerAdvantage(PlayerAdvantage::DoubleInitialHp);
const DOUBLE_JUMP: Advantage = Advantage::PlayerAdvantage(PlayerAdvantage::DoubleJump);

fn started(other: u64) -> PlayerCollision {
    PlayerCollision { player: 1, other, event_type: PlayerCollisionEventType::Started, ground_contact: false }
}

fn stopped(other: u64) -> PlayerCollision {
    PlayerCollision { player: 1, other, event_type: PlayerCollisionEventType::Stopped, ground_contact: false }
}

fn contact(entity: u64, normals_up: Vec<i32>) -> Contact {
    Contact { entity, normals_up }
}

fn level(tag: &str) -> MapDescription {
    MapDescription {
        width: 2,
        height: 1,
        layers: vec![TileLayer { name: "collision".to_string(), tiles: LayerTiles::Finite(vec![vec![0, 3]]) }],
        object_groups: vec![ObjectGroup {
            objects: vec![
                MapObject { obj_type: "player_start".to_string(), x: 0, y: 0, width: 0, height: 0, shape: ObjectShape::Rect },
                MapObject { obj_type: tag.to_string(), x: 4, y: 0, width: 2, height: 2, shape: ObjectShape::Rect },
            ],
        }],
    }
}

#[test]
fn random_advantage_is_uniform() {
    let all = Advantage::all();
    let mut counts = [0u32; 4];
    for _ in 0..4000 {
        let a = Advantage::random();
        let i = all.iter().position(|b| *b == a).unwrap();
        counts[i] += 1;
    }
    for c in counts {
        assert!(c > 850 && c < 1150, "count {c}");
    }
}

#[test]
fn advantage_effects() {
    assert_eq!(BITE.bite_strength(), 3);
    assert_eq!(SPEED.bite_strength(), 1);
    assert_eq!(DOUBLE_HP.pickup_value(), 2);
    assert_eq!(BITE.pickup_value(), 1);
    assert_eq!(SPEED.enemy_speed(), 170);
    assert_eq!(DOUBLE_JUMP.enemy_speed(), 100);
    assert_eq!(DOUBLE_JUMP.max_jumps(), 2);
    assert_eq!(DOUBLE_HP.max_jumps(), 1);
    assert!(DOUBLE_JUMP.favours_player());
    assert!(!BITE.favours_player());
}

#[test]
fn dispatch_checks_both_orderings() {
    let events = vec![
        CollisionEvent::Started(contact(1, vec![950]), contact(7, vec![])),
        CollisionEvent::Stopped(contact(8, vec![1000]), contact(1, vec![100, 899])),
        CollisionEvent::Started(contact(5, vec![]), contact(6, vec![])),
        CollisionEvent::Stopped(contact(9, vec![]), contact(1, vec![0, 900])),
    ];
    let out = check_collisions(&events, 1);
    assert_eq!(
        out,
        vec![
            PlayerCollision { player: 1, other: 7, event_type: PlayerCollisionEventType::Started, ground_contact: true },
            PlayerCollision { player: 1, other: 8, event_type: PlayerCollisionEventType::Stopped, ground_contact: false },
            PlayerCollision { player: 1, other: 9, event_type: PlayerCollisionEventType::Stopped, ground_contact: true },
        ]
    );
}

#[test]
fn ground_contact_resets_jumps() {
    let mut w = GameWorld::new(DOUBLE_JUMP, 5, 1, false, 0);
    w.jump = Jump(2);
    let c = PlayerCollision { ground_contact: true, ..started(42) };
    w.handle_player_collision(c, 10);
    assert_eq!(w.jump, Jump(0));
}

#[test]
fn continuous_bites_kill() {
    let mut w = GameWorld::new(BITE, 5, 1, false, 0);
    w.register(7, EntityKind::Enemy);
    w.handle_player_collision(started(7), 0);
    assert_eq!(w.hit, Hit(true));
    let mut bites = 0;
    let mut last = w.hp;
    for t in [100, 200, 300, 400, 500, 600, 700, 800, 900] {
        w.check_hits(t);
        if w.hp != last {
            bites += 1;
            last = w.hp;
        }
        if t == 300 {
            assert_eq!(w.hp, Hp(2));
        }
    }
    assert_eq!(bites, 2);
    assert_eq!(w.hp, Hp(0));
    assert_eq!(w.state, GameState::Died);
}

#[test]
fn damage_once_per_interval() {
    let mut w = GameWorld::new(SPEED, 20, 1, false, 0);
    w.register(7, EntityKind::Enemy);
    w.handle_player_collision(started(7), 1000);
    w.check_hits(1299);
    assert_eq!(w.hp, Hp(20));
    w.check_hits(1300);
    assert_eq!(w.hp, Hp(19));
    assert_eq!(w.hit_time, HitTime(1300));
    w.check_hits(1599);
    assert_eq!(w.hp, Hp(19));
    w.check_hits(1600);
    assert_eq!(w.hp, Hp(18));
    w.handle_player_collision(stopped(7), 1650);
    w.check_hits(5000);
    assert_eq!(w.hp, Hp(18));
}

#[test]
fn pickup_heals_and_despawns() {
    let mut w = GameWorld::new(DOUBLE_HP, 5, 1, false, 0);
    w.register(11, EntityKind::Star);
    let out = w.handle_player_collision(started(11), 0);
    assert_eq!(w.hp, Hp(7));
    assert_eq!(out.despawn, Some(11));
    assert_eq!(w.kind_of(11), None);
    let again = w.handle_player_collision(started(11), 5);
    assert_eq!(again.despawn, None);
    assert_eq!(w.hp, Hp(7));
}

#[test]
fn pickup_without_bonus_heals_one() {
    let mut w = GameWorld::new(BITE, 5, 1, false, 0);
    w.register(11, EntityKind::Star);
    w.register(12, EntityKind::Enemy);
    w.handle_player_collision(started(11), 0);
    assert_eq!(w.hp, Hp(6));
    assert_eq!(w.kind_of(12), Some(EntityKind::Enemy));
}

#[test]
fn goal_wins_without_level_advance() {
    let mut w = GameWorld::new(BITE, 5, 2, false, 0);
    assert!(w.load_initial_map(&level("goal")).is_ok());
    w.register(20, EntityKind::Goal);
    let out = w.handle_player_collision(started(20), 0);
    assert_eq!(out.change_map, None);
    assert_eq!(w.state, GameState::Won);
    w.register(7, EntityKind::Enemy);
    w.handle_player_collision(started(7), 0);
    w.check_hits(10_000);
    assert_eq!(w.hp, Hp(5));
    assert_eq!(w.state, GameState::Won);
}

#[test]
fn goal_advances_level() {
    let mut w = GameWorld::new(BITE, 5, 2, true, 0);
    let first = w.load_initial_map(&level("goal")).unwrap();
    assert_eq!(first.sprites.len(), 1);
    w.register(20, EntityKind::Goal);
    w.register(21, EntityKind::Enemy);
    let out = w.handle_player_collision(started(20), 0);
    assert_eq!(out.change_map, Some(1));
    assert_eq!(w.state, GameState::InGame);
    let second = w.change_map(&level("star"), 1).unwrap();
    assert_eq!(w.map.index, 1);
    assert_eq!(w.kind_of(20), None);
    assert_eq!(w.kind_of(21), None);
    assert!(w.entities.is_empty());
    assert_eq!(second.spawns.len(), 2);
    assert_eq!(w.collision.width, 2);
    w.register(30, EntityKind::Goal);
    let out = w.handle_player_collision(started(30), 0);
    assert_eq!(out.change_map, Some(0));
}

#[test]
fn failed_level_load_keeps_old_map() {
    let mut w = GameWorld::new(BITE, 5, 2, true, 0);
    w.load_initial_map(&level("goal")).unwrap();
    let mut bad = level("goal");
    bad.object_groups.clear();
    assert!(w.change_map(&bad, 1).is_err());
    assert_eq!(w.map.index, 0);
}

#[test]
fn enemy_turns_at_bound() {
    let borders = Borders::around(100);
    assert_eq!((borders.left, borders.right), (30, 170));
    let enemy = Position { x: 170, y: 0 };
    let player = Position { x: 200, y: 0 };
    let near = Position { x: 190, y: 10 };
    let step = enemy_move(enemy, Direction::Right, borders, near, true, &BITE);
    assert_eq!(step.direction, Direction::Left);
    assert_eq!(step.animation, Some(EnemyAnimation::SwimLeft));
    assert_eq!(step.velocity_x, 100);
    let step = enemy_move(enemy, Direction::Right, borders, player, false, &SPEED);
    assert_eq!(step.direction, Direction::Left);
    assert_eq!(step.velocity_x, 170);
    let step = enemy_move(Position { x: 30, y: 0 }, Direction::Left, borders, player, false, &BITE);
    assert_eq!(step.direction, Direction::Right);
    assert_eq!(step.velocity_x, -100);
}

#[test]
fn enemy_faces_player_in_sight() {
    let borders = Borders::around(100);
    let enemy = Position { x: 100, y: 0 };
    let bite = enemy_move(enemy, Direction::Left, borders, Position { x: 140, y: 20 }, true, &BITE);
    assert_eq!(bite.direction, Direction::Right);
    assert_eq!(bite.animation, Some(EnemyAnimation::BiteRight));
    let look = enemy_move(enemy, Direction::Right, borders, Position { x: 40, y: -20 }, true, &BITE);
    assert_eq!(look.direction, Direction::Left);
    assert_eq!(look.animation, Some(EnemyAnimation::SwimLeft));
    let far = enemy_move(enemy, Direction::Right, borders, Position { x: 140, y: 70 }, true, &BITE);
    assert_eq!(far.direction, Direction::Right);
    assert_eq!(far.animation, None);
}

#[test]
fn double_jump_allows_two_jumps() {
    let press = PlayerInput { jump_pressed: true, left: false, right: true, down: false };
    let mut jump = Jump(0);
    let m = player_move(press, &mut jump, &DOUBLE_JUMP);
    assert_eq!((m.velocity_x, m.velocity_y, m.animate), (Some(200), Some(600), true));
    let m = player_move(press, &mut jump, &DOUBLE_JUMP);
    assert_eq!((m.velocity_y, m.animate, jump), (Some(600), false, Jump(2)));
    let m = player_move(press, &mut jump, &DOUBLE_JUMP);
    assert_eq!((m.velocity_y, jump), (None, Jump(2)));
    let mut single = Jump(1);
    let m = player_move(press, &mut single, &BITE);
    assert_eq!((m.velocity_y, single), (None, Jump(1)));
    let dive = PlayerInput { jump_pressed: false, left: true, right: false, down: true };
    let m = player_move(dive, &mut single, &BITE);
    assert_eq!((m.velocity_x, m.velocity_y), (Some(-200), Some(-400)));
}

#[test]
fn hud_texts() {
    assert_eq!(advantage_label(&DOUBLE_JUMP), "Double Jump");
    assert_eq!(advantage_label(&DOUBLE_HP), "Double HP");
    assert_eq!(advantage_label(&BITE), "Painful bites");
    assert_eq!(advantage_label(&SPEED), "Fast enemies");
    assert!(hp_is_low(&Hp(9)));
    assert!(!hp_is_low(&Hp(10)));
}

#[test]
fn clock_moves_forward() {
    let clock = SessionClock::start();
    let a = clock.now_ms();
    let b = clock.now_ms();
    assert!(a <= b);
    assert!(a < 10_000);
}

#[test]
fn clock_drives_damage_checks() {
    let clock = SessionClock::start();
    let mut w = GameWorld::new(BITE, 5, 1, false, 0);
    w.register(7, EntityKind::Enemy);
    w.handle_player_collision(started(7), clock.now_ms());
    w.check_hits_now(&clock);
    assert_eq!(w.hp, Hp(5));
}
