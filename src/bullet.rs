use vstd::prelude::*;
use crate::entity::{EntityEvent, GameState};
use crate::geometry::{advanced, advance, EntityState, Hitbox, CollisionLayer, SUBPIXELS};

verus! {

/// Width of the bullet sprite, in pixels.
pub const WIDTH: i64 = 16;

/// Height of the bullet sprite, in pixels.
pub const HEIGHT: i64 = 16;

/// Speed of a player's bullet to the right, in sub-pixels per millisecond.
pub const PLAYER_BULLET_SPEED: i64 = 500;

/// Speed of an enemy's bullet to the left, in sub-pixels per millisecond.
pub const ENEMY_BULLET_SPEED: i64 = 100;

/// Each margin of a bullet's hitbox.
pub const BULLET_MARGIN: i64 = 6 * SUBPIXELS;

/// A bullet flying straight across the screen.
pub struct Bullet {
    pub start_x: i64,
    pub start_y: i64,
    pub is_player_bullet: bool,
}

impl Bullet {
    pub fn new(x: i64, y: i64, is_player_bullet: bool) -> (r: Bullet)
        ensures
            r == (Bullet { start_x: x, start_y: y, is_player_bullet }),
    {
        Bullet { start_x: x, start_y: y, is_player_bullet }
    }

    /// A player's bullet is on the player's side, an enemy's on the enemy's.
    pub open spec fn layer(self) -> CollisionLayer {
        if self.is_player_bullet {
            CollisionLayer::Player
        } else {
            CollisionLayer::Enemy
        }
    }

    /// The side a bullet hits: the other one.
    pub open spec fn target(self) -> CollisionLayer {
        if self.is_player_bullet {
            CollisionLayer::Enemy
        } else {
            CollisionLayer::Player
        }
    }

    pub fn collision_layers(&self) -> (r: Option<CollisionLayer>)
        ensures
            r == Some(self.layer()),
    {
        Some(if self.is_player_bullet { CollisionLayer::Player } else { CollisionLayer::Enemy })
    }

    pub fn collides_with_layers(&self) -> (r: Vec<CollisionLayer>)
        ensures
            r@ == seq![self.target()],
    {
        if self.is_player_bullet {
            vec![CollisionLayer::Enemy]
        } else {
            vec![CollisionLayer::Player]
        }
    }

    /// Where a bullet starts: its start point, with six pixels on every side.
    pub open spec fn initial(self) -> EntityState {
        EntityState {
            active: true,
            hitbox: Hitbox {
                left: BULLET_MARGIN,
                right: BULLET_MARGIN,
                top: BULLET_MARGIN,
                bottom: BULLET_MARGIN,
            },
            x: self.start_x,
            y: self.start_y,
        }
    }

    pub fn get_initial_state(&self) -> (r: EntityState)
        ensures
            r == self.initial(),
    {
        let hitbox = Hitbox {
            left: BULLET_MARGIN,
            top: BULLET_MARGIN,
            right: BULLET_MARGIN,
            bottom: BULLET_MARGIN,
        };
        EntityState { x: self.start_x, y: self.start_y, hitbox, active: true }
    }

    /// One frame of flight: a player's bullet moves right and is spent once its
    /// left edge has passed the right of the screen; an enemy's moves left and
    /// is spent once its right edge has passed the left of the screen.
    pub open spec fn moved(self, s: EntityState, ctx: GameState) -> EntityState {
        if self.is_player_bullet {
            let x = advanced(s.x, PLAYER_BULLET_SPEED as int, ctx.delta_time);
            EntityState {
                x,
                active: if x - s.hitbox.left > ctx.screen_width { false } else { s.active },
                ..s
            }
        } else {
            let x = advanced(s.x, -ENEMY_BULLET_SPEED as int, ctx.delta_time);
            EntityState {
                x,
                active: if x + s.hitbox.right < 0 { false } else { s.active },
                ..s
            }
        }
    }

    pub fn update(&mut self, game_state: &GameState, state: &mut EntityState) -> (r: Vec<
        EntityEvent,
    >)
        ensures
            *final(self) == *old(self),
            *final(state) == old(self).moved(*old(state), *game_state),
            r@ == Seq::<EntityEvent>::empty(),
    {
        if self.is_player_bullet {
            state.x = advance(state.x, PLAYER_BULLET_SPEED, game_state.delta_time);
            if state.x as i128 - state.hitbox.left as i128 > game_state.screen_width as i128 {
                state.active = false;
            }
        } else {
            state.x = advance(state.x, -ENEMY_BULLET_SPEED, game_state.delta_time);
            if (state.x as i128) + (state.hitbox.right as i128) < 0 {
                state.active = false;
            }
        }
        Vec::new()
    }

    /// A bullet that hits something is spent.
    pub fn collided(&mut self, state: &mut EntityState, _other_state: &mut EntityState) -> (r: Vec<
        EntityEvent,
    >)
        ensures
            *final(self) == *old(self),
            *final(state) == (EntityState { active: false, ..*old(state) }),
            *final(_other_state) == *old(_other_state),
            r@ == Seq::<EntityEvent>::empty(),
    {
        state.active = false;
        Vec::new()
    }
}

} // verus!
