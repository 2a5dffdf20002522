use vstd::prelude::*;
use crate::bullet::Bullet;
use crate::entity::{Entity, EntityEvent, GameState};
use crate::geometry::{
    advance, advanced, clamp_i64, clamp_to, clamped, CollisionLayer, EntityState, Hitbox, SUBPIXELS,
};
use crate::keyboard::Key;
use crate::you_lost::YouLost;

verus! {

/// Milliseconds between two shots of the player.
pub const PLAYER_FIRE_INTERVAL: u64 = 200;

/// Width of the player's sprite, in pixels.
pub const WIDTH: i64 = 128;

/// Height of the player's sprite, in pixels.
pub const HEIGHT: i64 = 64;

/// Horizontal speed, in sub-pixels per millisecond.
pub const HORIZONTAL_SPEED: i64 = 150;

/// Vertical speed, in sub-pixels per millisecond.
pub const VERTICAL_SPEED: i64 = 200;

/// Health of a new player.
pub const MAX_HEALTH: u64 = 10;

/// The player's ship.
pub struct Player {
    /// Milliseconds left until the next shot.
    pub last_bullet_time: u64,
    /// Which of the two guns fires next.
    pub last_bullet_position_index: u8,
    pub health: u64,
    pub max_health: u64,
}

/// The player's hitbox.
pub open spec fn player_hitbox() -> Hitbox {
    Hitbox { left: PLAYER_LEFT, top: PLAYER_TOP, right: PLAYER_RIGHT, bottom: PLAYER_BOTTOM }
}

/// The player's hitbox margins, in sub-pixels.
pub const PLAYER_LEFT: i64 = 58 * SUBPIXELS;

pub const PLAYER_RIGHT: i64 = 40 * SUBPIXELS;

pub const PLAYER_TOP: i64 = 29 * SUBPIXELS;

pub const PLAYER_BOTTOM: i64 = 29 * SUBPIXELS;

/// Where a gun sits relative to the ship's anchor: the first above it, the
/// second below.
pub open spec fn fire_point(index: u8) -> (int, int) {
    if index == 0 {
        (-10 * SUBPIXELS, -25 * SUBPIXELS)
    } else {
        (-10 * SUBPIXELS, 25 * SUBPIXELS)
    }
}

/// Minus one, zero or one: the net direction of two opposite keys.
pub open spec fn axis(held: Set<Key>, minus: Key, plus: Key) -> int {
    (if held.contains(minus) {
        -1int
    } else {
        0int
    }) + (if held.contains(plus) {
        1int
    } else {
        0int
    })
}

/// A player at full health, ready to fire.
pub open spec fn fresh_player() -> Player {
    Player { last_bullet_time: 0, last_bullet_position_index: 0, health: MAX_HEALTH, max_health: MAX_HEALTH }
}

fn axis_of(game_state: &GameState, minus: Key, plus: Key) -> (r: i64)
    ensures
        r == axis(game_state.keyboard@.held, minus, plus),
{
    let mut r: i64 = 0;
    if game_state.keyboard.is_keydown(minus) {
        r = r - 1;
    }
    if game_state.keyboard.is_keydown(plus) {
        r = r + 1;
    }
    r
}

impl Player {
    pub fn new() -> (r: Player)
        ensures
            r == fresh_player(),
    {
        Player { last_bullet_time: 0, last_bullet_position_index: 0, health: MAX_HEALTH, max_health: MAX_HEALTH }
    }

    /// The player starts at the left edge, halfway down the screen.
    pub open spec fn initial(screen_height: i64) -> EntityState {
        EntityState {
            active: true,
            hitbox: player_hitbox(),
            x: player_hitbox().left,
            y: half(screen_height),
        }
    }

    pub fn get_initial_state(&self, screen_height: i64) -> (r: EntityState)
        ensures
            r == Self::initial(screen_height),
    {
        let hitbox = Hitbox { left: PLAYER_LEFT, top: PLAYER_TOP, right: PLAYER_RIGHT, bottom: PLAYER_BOTTOM };
        let y = if screen_height >= 0 {
            screen_height / 2
        } else {
            (-((-(screen_height as i128)) / 2)) as i64
        };
        EntityState { x: hitbox.left, y, hitbox, active: true }
    }

    /// One frame of steering: A and D move left and right, W and S up and
    /// down; the anchor then stays where the hitbox fits on the screen.
    pub open spec fn steered(s: EntityState, ctx: GameState) -> EntityState {
        let held = ctx.keyboard@.held;
        let x = advanced(s.x, axis(held, Key::A, Key::D) * HORIZONTAL_SPEED, ctx.delta_time);
        let y = advanced(s.y, axis(held, Key::W, Key::S) * VERTICAL_SPEED, ctx.delta_time);
        EntityState {
            x: clamped(x, s.hitbox.left, clamp_i64(ctx.screen_width - s.hitbox.right)),
            y: clamped(y, s.hitbox.top, clamp_i64(ctx.screen_height - s.hitbox.bottom)),
            ..s
        }
    }

    /// One frame of the player: steer, then fire from the next gun when the
    /// interval has run out, else count it down.
    pub open spec fn updated(self, s: EntityState, ctx: GameState) -> (Player, EntityState, Seq<EntityEvent>) {
        let s2 = Self::steered(s, ctx);
        if self.last_bullet_time < ctx.delta_time {
            let p = fire_point(self.last_bullet_position_index);
            let bullet = Bullet {
                start_x: clamp_i64(s2.x + p.0),
                start_y: clamp_i64(s2.y + p.1),
                is_player_bullet: true,
            };
            (
                Player {
                    last_bullet_time: PLAYER_FIRE_INTERVAL,
                    last_bullet_position_index: ((self.last_bullet_position_index + 1) % 2) as u8,
                    ..self
                },
                s2,
                seq![EntityEvent::SpawnEntity(Entity::Bullet(bullet))],
            )
        } else {
            (
                Player { last_bullet_time: (self.last_bullet_time - ctx.delta_time) as u64, ..self },
                s2,
                Seq::empty(),
            )
        }
    }

    pub fn update(&mut self, game_state: &GameState, state: &mut EntityState) -> (r: Vec<EntityEvent>)
        ensures
            (*final(self), *final(state), r@) == old(self).updated(*old(state), *game_state),
    {
        let x = axis_of(game_state, Key::A, Key::D);
        let y = axis_of(game_state, Key::W, Key::S);
        state.x = advance(state.x, x * HORIZONTAL_SPEED, game_state.delta_time);
        state.y = advance(state.y, y * VERTICAL_SPEED, game_state.delta_time);
        let max_x = clamp_wide(game_state.screen_width as i128 - state.hitbox.right as i128);
        let max_y = clamp_wide(game_state.screen_height as i128 - state.hitbox.bottom as i128);
        clamp_to(&mut state.x, state.hitbox.left, max_x);
        clamp_to(&mut state.y, state.hitbox.top, max_y);

        let mut result = Vec::new();
        if self.last_bullet_time < game_state.delta_time {
            self.last_bullet_time = PLAYER_FIRE_INTERVAL;
            let (px, py) = if self.last_bullet_position_index == 0 {
                (-10 * SUBPIXELS, -25 * SUBPIXELS)
            } else {
                (-10 * SUBPIXELS, 25 * SUBPIXELS)
            };
            self.last_bullet_position_index = ((self.last_bullet_position_index as u16 + 1) % 2) as u8;
            let bullet = Bullet::new(
                clamp_wide(state.x as i128 + px as i128),
                clamp_wide(state.y as i128 + py as i128),
                true,
            );
            result.push(EntityEvent::SpawnEntity(Entity::Bullet(bullet)));
        } else {
            self.last_bullet_time = self.last_bullet_time - game_state.delta_time;
        }
        result
    }

    /// Struck by an enemy: the other party is spent and the player loses one
    /// health; at zero the player is gone and the defeat screen appears. A
    /// player already at zero only spends the other party.
    pub open spec fn struck(self, s: EntityState, other: EntityState) -> (Player, EntityState, EntityState, Seq<EntityEvent>) {
        let other2 = EntityState { active: false, ..other };
        if self.health == 0 {
            (self, s, other2, Seq::empty())
        } else if self.health == 1 {
            (
                Player { health: 0, ..self },
                EntityState { active: false, ..s },
                other2,
                seq![EntityEvent::SpawnEntity(Entity::YouLost(YouLost {}))],
            )
        } else {
            (Player { health: (self.health - 1) as u64, ..self }, s, other2, Seq::empty())
        }
    }

    pub fn collided(&mut self, self_state: &mut EntityState, other_state: &mut EntityState) -> (r: Vec<EntityEvent>)
        ensures
            (*final(self), *final(self_state), *final(other_state), r@) == old(self).struck(
                *old(self_state),
                *old(other_state),
            ),
    {
        other_state.active = false;
        if self.health == 0 {
            return Vec::new();
        }
        self.health = self.health - 1;
        if self.health == 0 {
            self_state.active = false;
            let you_lost = YouLost::new();
            vec![EntityEvent::SpawnEntity(Entity::YouLost(you_lost))]
        } else {
            Vec::new()
        }
    }

    pub fn collision_layers(&self) -> (r: Option<CollisionLayer>)
        ensures
            r == Some(CollisionLayer::Player),
    {
        Some(CollisionLayer::Player)
    }

    pub fn collides_with_layers(&self) -> (r: Vec<CollisionLayer>)
        ensures
            r@ == seq![CollisionLayer::Enemy],
    {
        vec![CollisionLayer::Enemy]
    }
}

/// Half a length, rounded towards zero.
pub open spec fn half(v: i64) -> i64 {
    if v >= 0 {
        (v / 2) as i64
    } else {
        (-((-v) / 2)) as i64
    }
}

/// A wide integer held to the range of `i64`.
pub fn clamp_wide(v: i128) -> (r: i64)
    ensures
        r == clamp_i64(v as int),
{
    if v < i64::MIN as i128 {
        i64::MIN
    } else if v > i64::MAX as i128 {
        i64::MAX
    } else {
        v as i64
    }
}

} // verus!
