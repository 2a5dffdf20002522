use engine::bullet::Bullet;
use engine::enemies::{Enemy1, Enemy2};
use engine::enemy_spawner::{spawn_height, spawn_wave, time_target, EnemySpawner};
use engine::engine::{Engine, InputEvent};
use engine::entity::{Entity, EntityEvent, GameState};
use engine::geometry::{boxes_overlap, clamp_to, EntityState, Hitbox};
use engine::keyboard::{Key, KeyboardState};
use engine::player::Player;
use engine::time::{has_elapsed_at, since_at};
use engine::you_lost::{get_initial_state, YouLost};

const W: i64 = 1_800_000;
const H: i64 = 600_000;

fn state(x: i64, y: i64, left: i64, right: i64, top: i64, bottom: i64) -> EntityState {
    EntityState { active: true, hitbox: Hitbox { left, right, top, bottom }, x, y }
}

fn names(engine: &Engine) -> Vec<String> {
    engine.entities.iter().map(|w| w.name.clone()).collect()
}

fn player_health(engine: &Engine, i: usize) -> u64 {
    match &engine.entities[i].entity {
        Entity::Player(p) => p.health,
        _ => panic!("not a player"),
    }
}

#[test]
fn edges_are_reset_by_frame_start_but_held_keys_stay() {
    let mut k = KeyboardState::new();
    k.set_keydown(Key::A);
    assert!(k.is_keydown(Key::A));
    assert!(k.is_pressed_this_frame(Key::A));
    k.frame_start();
    assert!(k.is_keydown(Key::A));
    assert!(!k.is_pressed_this_frame(Key::A));
    k.set_keydown(Key::A);
    assert!(!k.is_pressed_this_frame(Key::A));
    k.clear_keydown(Key::A);
    assert!(!k.is_keydown(Key::A));
    assert!(k.is_released_this_frame(Key::A));
    k.frame_start();
    assert!(!k.is_released_this_frame(Key::A));
}

#[test]
fn releasing_a_key_that_was_not_held_records_the_edge() {
    let mut k = KeyboardState::new();
    k.clear_keydown(Key::Space);
    assert!(k.is_released_this_frame(Key::Space));
    assert!(!k.is_keydown(Key::Space));
    k.set_keydown(Key::Other(42));
    assert!(k.is_keydown(Key::Other(42)));
    assert!(!k.is_keydown(Key::Other(43)));
}

#[test]
fn overlap_is_symmetric() {
    let a = state(0, 0, 5, 5, 5, 5);
    let b = state(9, 0, 5, 5, 5, 5);
    let c = state(11, 0, 5, 5, 5, 5);
    let d = state(0, 20, 1, 1, 1, 1);
    assert!(boxes_overlap(&a, &b) && boxes_overlap(&b, &a));
    assert!(boxes_overlap(&a, &state(10, 0, 5, 5, 5, 5)));
    assert!(!boxes_overlap(&a, &c) && !boxes_overlap(&c, &a));
    assert!(!boxes_overlap(&a, &d) && !boxes_overlap(&d, &a));
}

#[test]
fn overlap_handles_extreme_coordinates() {
    let a = state(i64::MAX, i64::MIN, i64::MAX, i64::MAX, i64::MAX, i64::MAX);
    let b = state(i64::MIN, i64::MAX, 0, 0, 0, 0);
    assert_eq!(boxes_overlap(&a, &b), boxes_overlap(&b, &a));
}

#[test]
fn enemy_bullet_never_hits_enemy_side_even_on_overlap() {
    let mut engine = Engine::new(W, H, vec![]);
    engine.register_entity(Entity::Bullet(Bullet::new(500_000, 300_000, false)));
    engine.register_entity(Entity::Enemy1(Enemy1::new(500_000, 300_000, 10)));
    let (first, rest) = engine.entities.split_at_mut(1);
    let events = Engine::check_collision_between(&mut first[0], &mut rest[0]);
    assert!(events.is_empty());
    assert!(first[0].state.active);
    let events = Engine::check_collision_between(&mut rest[0], &mut first[0]);
    assert!(events.is_empty());
    assert!(first[0].state.active);
    assert!(rest[0].state.active);
    match &rest[0].entity {
        Entity::Enemy1(e) => assert_eq!(e.health, 10),
        _ => panic!("not an enemy"),
    }
}

#[test]
fn enemy_bullet_hits_the_player() {
    let mut engine = Engine::new(W, H, vec![]);
    engine.register_entity(Entity::Bullet(Bullet::new(58_000, 300_000, false)));
    engine.register_entity(Entity::Player(Player::new()));
    let (first, rest) = engine.entities.split_at_mut(1);
    let events = Engine::check_collision_between(&mut first[0], &mut rest[0]);
    assert!(events.is_empty());
    assert!(!first[0].state.active);
}

#[test]
fn clear_then_spawn_keeps_only_the_later_spawn() {
    let mut engine = Engine::new(W, H, vec![]);
    engine.register_entity(Entity::Enemy1(Enemy1::new(0, 0, 3)));
    engine.handle_event(vec![
        EntityEvent::SpawnEntity(Entity::Bullet(Bullet::new(0, 0, true))),
        EntityEvent::ClearAllEntities,
        EntityEvent::SpawnEntity(Entity::Player(Player::new())),
    ]);
    assert_eq!(names(&engine), vec!["Player".to_string()]);
    assert_eq!(engine.entities[0].state.x, 58_000);
    assert_eq!(engine.entities[0].state.y, 300_000);
}

#[test]
fn entity_spent_in_its_own_update_still_collides_that_frame() {
    let mut engine = Engine::new(W, H, vec![]);
    engine.register_entity(Entity::Bullet(Bullet::new(1_800_000, 300_000, true)));
    engine.register_entity(Entity::Enemy1(Enemy1::new(1_810_000, 300_000, 10)));
    engine.update_entities_with(16);
    assert_eq!(names(&engine), vec!["Enemy type 1".to_string()]);
    match &engine.entities[0].entity {
        Entity::Enemy1(e) => assert_eq!(e.health, 5),
        _ => panic!("not an enemy"),
    }
    assert_eq!(engine.entities[0].state.x, 1_810_000 - 300 * 16);
}

#[test]
fn bullet_strikes_player_once() {
    let mut engine = Engine::new(W, H, vec![]);
    engine.register_entity(Entity::Bullet(Bullet::new(100_000, 50_000, false)));
    engine.register_entity(Entity::Player(Player::new()));
    engine.entities[1].state.x = 98_000;
    engine.entities[1].state.y = 52_000;
    assert_eq!(engine.entities[0].state.hitbox, Hitbox { left: 6_000, right: 6_000, top: 6_000, bottom: 6_000 });
    assert_eq!(engine.entities[1].state.hitbox, Hitbox { left: 58_000, right: 40_000, top: 29_000, bottom: 29_000 });
    let b = &engine.entities[0];
    let p = &engine.entities[1];
    assert!(b.entity.intersects_with(&b.state, &p.entity, &p.state));
    engine.check_collisions();
    assert!(!engine.entities[0].state.active);
    assert!(engine.entities[1].state.active);
    assert_eq!(player_health(&engine, 1), 9);
    engine.prune_inactive();
    assert_eq!(names(&engine), vec!["Player".to_string()]);
}

#[test]
fn pruning_twice_changes_nothing_more() {
    let mut engine = Engine::new(W, H, vec![]);
    engine.register_entity(Entity::Bullet(Bullet::new(0, 0, true)));
    engine.register_entity(Entity::Player(Player::new()));
    engine.register_entity(Entity::Bullet(Bullet::new(5, 5, false)));
    engine.entities[0].state.active = false;
    engine.prune_inactive();
    let once = names(&engine);
    assert_eq!(once, vec!["Player".to_string(), "Bullet".to_string()]);
    engine.prune_inactive();
    assert_eq!(names(&engine), once);
}

#[test]
fn last_player_health_brings_the_defeat_screen() {
    let mut p = Player::new();
    p.health = 1;
    let mut s = state(0, 0, 1, 1, 1, 1);
    let mut other = state(0, 0, 1, 1, 1, 1);
    let events = p.collided(&mut s, &mut other);
    assert_eq!(p.health, 0);
    assert!(!s.active && !other.active);
    assert_eq!(events.len(), 1);
    assert!(matches!(events[0], EntityEvent::SpawnEntity(Entity::YouLost(_))));
    let mut other = state(0, 0, 1, 1, 1, 1);
    let events = p.collided(&mut s, &mut other);
    assert!(events.is_empty());
    assert_eq!(p.health, 0);
    assert!(!other.active);
}

#[test]
fn enemy_health_is_counted_in_fifths() {
    let mut e = Enemy2::new(0, 0, 7);
    let mut s = state(0, 0, 1, 1, 1, 1);
    e.collided(&mut s);
    assert_eq!(e.health, 2);
    assert!(s.active);
    e.collided(&mut s);
    assert!(!s.active);
    let e1 = Enemy1::new(0, 0, 4);
    assert_eq!(e1.bullet_target_time, 2_500_000);
    assert_eq!(e1.bullet_recharge_counter, 1_250_000);
}

#[test]
fn clock_checks_at_given_instants() {
    let mut t: u64 = 1000;
    assert!(!has_elapsed_at(&mut t, 500, 1500));
    assert_eq!(t, 1000);
    assert!(has_elapsed_at(&mut t, 500, 1501));
    assert_eq!(t, 1500);
    assert!(!has_elapsed_at(&mut t, u64::MAX, 10));
    let mut r: u64 = 100;
    assert_eq!(since_at(&mut r, 160), 60);
    assert_eq!(r, 160);
    assert_eq!(since_at(&mut r, 150), 0);
    assert_eq!(r, 150);
}

#[test]
fn clamp_lets_the_upper_bound_win() {
    let mut v: i64 = 5;
    clamp_to(&mut v, 10, 20);
    assert_eq!(v, 10);
    clamp_to(&mut v, 30, 20);
    assert_eq!(v, 20);
}

#[test]
fn player_steers_and_fires() {
    let mut k = KeyboardState::new();
    k.set_keydown(Key::D);
    k.set_keydown(Key::S);
    let path = vec![];
    let ctx = GameState { delta_time: 10, keyboard: &k, screen_width: W, screen_height: H, loop_path: &path };
    let mut p = Player::new();
    let mut s = p.get_initial_state(H);
    let events = p.update(&ctx, &mut s);
    assert_eq!(s.x, 58_000 + 1_500);
    assert_eq!(s.y, 300_000 + 2_000);
    assert_eq!(p.last_bullet_time, 200);
    assert_eq!(p.last_bullet_position_index, 1);
    assert_eq!(events.len(), 1);
    match &events[0] {
        EntityEvent::SpawnEntity(Entity::Bullet(b)) => {
            assert_eq!((b.start_x, b.start_y, b.is_player_bullet), (59_500 - 10_000, 302_000 - 25_000, true));
        }
        _ => panic!("not a bullet"),
    }
    let events = p.update(&ctx, &mut s);
    assert!(events.is_empty());
    assert_eq!(p.last_bullet_time, 190);
}

#[test]
fn player_stays_on_screen() {
    let mut k = KeyboardState::new();
    k.set_keydown(Key::A);
    k.set_keydown(Key::W);
    let path = vec![];
    let ctx = GameState { delta_time: 2000, keyboard: &k, screen_width: W, screen_height: H, loop_path: &path };
    let mut p = Player::new();
    let mut s = p.get_initial_state(H);
    p.update(&ctx, &mut s);
    assert_eq!((s.x, s.y), (58_000, 29_000));
}

#[test]
fn spawner_draws_become_intervals_heights_and_waves() {
    assert_eq!(time_target(3, 0), 5_000_000);
    assert_eq!(time_target(3, u32::MAX), 9_999_999);
    assert_eq!(time_target(13, 0), 4_900_000);
    assert_eq!(time_target(10_000, 0), 1_000);
    assert_eq!(spawn_height(H, 0x8000_0000), 300_000);
    assert_eq!(spawn_height(-5, 0x8000_0000), 0);
    let wave = spawn_wave(3, W, 300_000, 1);
    assert_eq!(wave.len(), 3);
    for (k, ev) in wave.iter().enumerate() {
        match ev {
            EntityEvent::SpawnEntity(Entity::Enemy2(e)) => {
                assert_eq!(e.start_x, W + 100_000 * k as i64);
                assert_eq!(e.start_y, 300_000);
                assert_eq!(e.health, 3);
            }
            _ => panic!("not the looping kind"),
        }
    }
    let wave = spawn_wave(4, W, 0, 0);
    assert_eq!(wave.len(), 4);
    assert!(matches!(wave[0], EntityEvent::SpawnEntity(Entity::Enemy1(_))));
}

#[test]
fn spawner_waits_for_its_first_wave() {
    let k = KeyboardState::new();
    let path = vec![];
    let ctx = GameState { delta_time: 2999, keyboard: &k, screen_width: W, screen_height: H, loop_path: &path };
    let mut sp = EnemySpawner::new();
    let mut s = EntityState::default();
    assert!(sp.update(&ctx, &mut s).is_empty());
    assert_eq!(sp.time_counter, 2_999_000);
    let ctx = GameState { delta_time: 2, keyboard: &k, screen_width: W, screen_height: H, loop_path: &path };
    let events = sp.update(&ctx, &mut s);
    assert_eq!(events.len(), 3);
    assert_eq!(sp.enemy_amount_to_spawn, 4);
    assert!(sp.time_counter <= sp.target_time_counter);
}

#[test]
fn defeat_screen_restarts_on_space() {
    let mut k = KeyboardState::new();
    let path = vec![];
    let mut y = YouLost::new();
    let mut s = EntityState::default();
    let ctx = GameState { delta_time: 1, keyboard: &k, screen_width: W, screen_height: H, loop_path: &path };
    assert!(y.update(&ctx, &mut s).is_empty());
    assert!(s.active);
    k.set_keydown(Key::Space);
    let ctx = GameState { delta_time: 1, keyboard: &k, screen_width: W, screen_height: H, loop_path: &path };
    let events = y.update(&ctx, &mut s);
    assert!(!s.active);
    assert_eq!(events.len(), 3);
    assert!(matches!(events[0], EntityEvent::ClearAllEntities));
    assert!(matches!(events[1], EntityEvent::SpawnEntity(Entity::EnemySpawner(_))));
    assert!(matches!(events[2], EntityEvent::SpawnEntity(Entity::Player(_))));
    assert_eq!(get_initial_state().len(), 2);
}

#[test]
fn restart_through_the_engine_replaces_everything() {
    let mut engine = Engine::new(W, H, vec![]);
    engine.register_entity(Entity::YouLost(YouLost::new()));
    engine.register_entity(Entity::Bullet(Bullet::new(400_000, 100_000, true)));
    engine.handle_input(InputEvent::KeyPressed(Key::Space));
    engine.update_entities_with(0);
    assert_eq!(names(&engine), vec!["Enemy spawner".to_string(), "Player".to_string()]);
}

#[test]
fn escape_and_close_stop_the_engine() {
    let mut engine = Engine::new(W, H, vec![]);
    engine.handle_input(InputEvent::KeyPressed(Key::A));
    assert!(engine.running && engine.keyboard.is_keydown(Key::A));
    engine.frame_start();
    assert!(!engine.keyboard.is_pressed_this_frame(Key::A));
    engine.handle_input(InputEvent::KeyReleased(Key::A));
    assert!(!engine.keyboard.is_keydown(Key::A));
    engine.handle_input(InputEvent::KeyPressed(Key::Escape));
    assert!(!engine.running);
    let mut engine = Engine::new(W, H, vec![]);
    engine.handle_input(InputEvent::CloseRequested);
    assert!(!engine.running);
}

#[test]
fn looping_enemy_follows_the_path() {
    let k = KeyboardState::new();
    let path: Vec<(i64, i64)> = (0..6284).map(|a| (a as i64, 100_000)).collect();
    let ctx = GameState { delta_time: 10, keyboard: &k, screen_width: W, screen_height: H, loop_path: &path };
    let mut e = Enemy2::new(1_000_000, 100_000, 3);
    let mut s = e.get_initial_state(H);
    assert_eq!(e.loop_direction, -1);
    e.update(&ctx, &mut s);
    assert_eq!(e.loop_angle, 40);
    assert_eq!((e.loop_center_x, e.loop_center_y), (1_000_000, 200_000));
    assert_eq!((s.x, s.y), (1_000_000 - 40, 200_000 - 100_000));
}

#[test]
fn bullets_leave_the_screen() {
    let k = KeyboardState::new();
    let path = vec![];
    let ctx = GameState { delta_time: 10, keyboard: &k, screen_width: W, screen_height: H, loop_path: &path };
    let mut b = Bullet::new(2_000, 0, false);
    let mut s = b.get_initial_state();
    b.update(&ctx, &mut s);
    assert_eq!(s.x, 1_000);
    assert!(s.active);
    b.update(&ctx, &mut s);
    b.update(&ctx, &mut s);
    assert!(s.active);
    for _ in 0..6 {
        b.update(&ctx, &mut s);
    }
    assert!(!s.active);
}

#[test]
fn a_due_wave_for_given_draws() {
    let mut sp = EnemySpawner::new();
    sp.time_counter = 3_500_000;
    let events = sp.wave_step(W, H, 0x4000_0000, 2);
    assert_eq!(sp.time_counter, 500_000);
    assert_eq!(sp.enemy_amount_to_spawn, 4);
    assert_eq!(sp.target_time_counter, 3_000_000);
    assert_eq!(events.len(), 3);
    for (k, ev) in events.iter().enumerate() {
        match ev {
            EntityEvent::SpawnEntity(Entity::Enemy1(e)) => {
                assert_eq!((e.start_x, e.start_y, e.health), (W + 100_000 * k as i64, 150_000, 3));
            }
            _ => panic!("not the drifting kind"),
        }
    }
    sp.generate_time_target();
    assert!(sp.target_time_counter >= 4_990_000 && sp.target_time_counter < 9_980_000);
}

#[test]
fn overdue_spawner_sends_every_due_wave() {
    let k = KeyboardState::new();
    let path = vec![];
    let ctx = GameState { delta_time: 20_000, keyboard: &k, screen_width: W, screen_height: H, loop_path: &path };
    let mut sp = EnemySpawner::new();
    sp.target_time_counter = 1_000;
    let mut s = EntityState::default();
    let events = sp.update(&ctx, &mut s);
    let waves = sp.enemy_amount_to_spawn - 3;
    assert!(waves >= 2);
    let expected: u32 = (0..waves).map(|w| 3 + w).sum();
    assert_eq!(events.len(), expected as usize);
    assert!(sp.target_time_counter >= 1_000);
    assert!(sp.time_counter <= sp.target_time_counter);
    assert_eq!(s, EntityState::default());
}

#[test]
fn defeat_screen_survives_a_clear_with_its_name() {
    let mut engine = Engine::new(W, H, vec![]);
    engine.register_entity(Entity::Player(Player::new()));
    engine.handle_event(vec![
        EntityEvent::SpawnEntity(Entity::Bullet(Bullet::new(0, 0, true))),
        EntityEvent::ClearAllEntities,
        EntityEvent::SpawnEntity(Entity::YouLost(YouLost::new())),
    ]);
    assert_eq!(names(&engine), vec!["You lost!".to_string()]);
}
