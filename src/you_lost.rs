use vstd::prelude::*;
use crate::entity::{Entity, EntityEvent, GameState};
use crate::enemy_spawner::{EnemySpawner, fresh_spawner};
use crate::geometry::EntityState;
use crate::keyboard::Key;
use crate::player::{Player, fresh_player};

verus! {

/// Width of the defeat banner, in pixels.
pub const WIDTH: i64 = 128;

/// Height of the defeat banner, in pixels.
pub const HEIGHT: i64 = 64;

/// The defeat screen, which restarts the game when space is pressed.
pub struct YouLost {}

/// The game's starting roster: an enemy spawner and the player.
pub fn get_initial_state() -> (r: Vec<Entity>)
    ensures
        r@.len() == 2,
        r@[0] matches Entity::EnemySpawner(sp) && fresh_spawner(sp),
        r@[1] == Entity::Player(fresh_player()),
{
    let spawner = EnemySpawner::new();
    let player = Player::new();
    vec![Entity::EnemySpawner(spawner), Entity::Player(player)]
}

/// When space went down this frame the screen is spent and asks for a new
/// game: everything is cleared, then the starting roster is spawned.
/// Otherwise nothing happens.
pub open spec fn restart_stepped(s: EntityState, ctx: GameState, s2: EntityState, evs: Seq<EntityEvent>) -> bool {
    if ctx.keyboard@.pressed.contains(Key::Space) {
        &&& s2 == (EntityState { active: false, ..s })
        &&& evs.len() == 3
        &&& evs[0] == EntityEvent::ClearAllEntities
        &&& evs[1] matches EntityEvent::SpawnEntity(Entity::EnemySpawner(sp)) && fresh_spawner(sp)
        &&& evs[2] == EntityEvent::SpawnEntity(Entity::Player(fresh_player()))
    } else {
        s2 == s && evs.len() == 0
    }
}

impl YouLost {
    pub fn new() -> (r: YouLost)
        ensures
            r == (YouLost {}),
    {
        YouLost {}
    }

    /// Watches for the restart key.
    pub fn update(&mut self, game_state: &GameState, state: &mut EntityState) -> (r: Vec<EntityEvent>)
        ensures
            restart_stepped(*old(state), *game_state, *final(state), r@),
    {
        if game_state.keyboard.is_pressed_this_frame(Key::Space) {
            state.active = false;
            let mut roster = get_initial_state();
            let player = roster.pop().unwrap();
            let spawner = roster.pop().unwrap();
            vec![EntityEvent::ClearAllEntities, EntityEvent::SpawnEntity(spawner), EntityEvent::SpawnEntity(player)]
        } else {
            Vec::new()
        }
    }
}

} // verus!
