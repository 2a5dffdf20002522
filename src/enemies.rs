use vstd::prelude::*;
use crate::bullet::Bullet;
use crate::entity::{Entity, EntityEvent, GameState};
use crate::geometry::{advance, advanced, clamp_i64, CollisionLayer, EntityState, Hitbox, SUBPIXELS};
use crate::player::clamp_wide;

verus! {

/// Leftward speed of an enemy, in sub-pixels per millisecond.
pub const ENEMY_SPEED: i64 = 300;

/// Vertical drift of the first kind of enemy in the middle third of the
/// screen, in sub-pixels per millisecond.
pub const DRIFT_SPEED: i64 = 100;

/// Radius of the second kind's loop, in sub-pixels.
pub const LOOP_RADIUS: i64 = 100 * SUBPIXELS;

/// Milliradians the second kind turns per millisecond in its loop.
pub const LOOP_TURN_RATE: i64 = 4;

/// The first angle, in milliradians, at or past a full turn.
pub const FULL_TURN: i64 = 6284;

/// Health is kept in fifths: a wave of strength `factor` gives each enemy
/// `factor / 5` health, stored as `factor`.
pub const HEALTH_UNIT: u32 = 5;

/// An enemy's hitbox.
pub open spec fn enemy_hitbox() -> Hitbox {
    Hitbox { left: ENEMY_SIDE, top: ENEMY_END, right: ENEMY_SIDE, bottom: ENEMY_END }
}

/// An enemy's left and right hitbox margins, in sub-pixels.
pub const ENEMY_SIDE: i64 = 25 * SUBPIXELS;

/// An enemy's top and bottom hitbox margins, in sub-pixels.
pub const ENEMY_END: i64 = 40 * SUBPIXELS;

pub fn make_enemy_hitbox() -> (r: Hitbox)
    ensures
        r == enemy_hitbox(),
{
    Hitbox { left: ENEMY_SIDE, top: ENEMY_END, right: ENEMY_SIDE, bottom: ENEMY_END }
}

/// Microseconds between two shots of an enemy of a wave of strength `factor`:
/// ten seconds shared among the strength; never for strength zero.
pub open spec fn bullet_period(factor: u32) -> u64 {
    if factor == 0 {
        u64::MAX
    } else {
        (10_000_000int / (factor as int)) as u64
    }
}

/// Milliseconds as microseconds, held to the range of `u64`.
pub open spec fn micros(dt: u64) -> u64 {
    if dt * 1000 > u64::MAX {
        u64::MAX
    } else {
        (dt * 1000) as u64
    }
}

/// A sum held to the range of `u64`.
pub open spec fn sat_add(a: u64, b: u64) -> u64 {
    if a + b > u64::MAX {
        u64::MAX
    } else {
        (a + b) as u64
    }
}

pub fn to_micros(dt: u64) -> (r: u64)
    ensures
        r == micros(dt),
{
    if dt > u64::MAX / 1000 {
        u64::MAX
    } else {
        dt * 1000
    }
}

pub fn add_saturating(a: u64, b: u64) -> (r: u64)
    ensures
        r == sat_add(a, b),
{
    if a > u64::MAX - b {
        u64::MAX
    } else {
        a + b
    }
}

/// The gun's clock after `dt` milliseconds: the new counter, and whether a shot
/// is fired, which takes one period off the counter.
pub open spec fn recharged(counter: u64, period: u64, dt: u64) -> (u64, bool) {
    let c = sat_add(counter, micros(dt));
    if c > period {
        ((c - period) as u64, true)
    } else {
        (c, false)
    }
}

fn recharge(counter: u64, period: u64, dt: u64) -> (r: (u64, bool))
    ensures
        r == recharged(counter, period, dt),
{
    let c = add_saturating(counter, to_micros(dt));
    if c > period {
        (c - period, true)
    } else {
        (c, false)
    }
}

/// The events of a gun after a frame: one enemy bullet at the enemy's anchor
/// when it fires.
pub open spec fn gun_events(fired: bool, s: EntityState) -> Seq<EntityEvent> {
    if fired {
        seq![EntityEvent::SpawnEntity(Entity::Bullet(Bullet { start_x: s.x, start_y: s.y, is_player_bullet: false }))]
    } else {
        Seq::empty()
    }
}

fn fire_events(fired: bool, s: &EntityState) -> (r: Vec<EntityEvent>)
    ensures
        r@ == gun_events(fired, *s),
{
    let mut result = Vec::new();
    if fired {
        result.push(EntityEvent::SpawnEntity(Entity::Bullet(Bullet::new(s.x, s.y, false))));
    }
    result
}

/// Minus one, zero or one, by the sign of `v`.
pub open spec fn sign(v: i64) -> int {
    if v > 0 {
        1
    } else if v < 0 {
        -1
    } else {
        0
    }
}

/// `v` turned by the sign of `dir`: kept, negated, or zero.
pub open spec fn toward(dir: i64, v: i64) -> int {
    if dir > 0 {
        v as int
    } else if dir < 0 {
        -v
    } else {
        0
    }
}

/// Whether `x` lies strictly inside the middle third of `width`.
pub open spec fn in_middle_third(x: i64, width: i64) -> bool {
    3 * x > width && 3 * x < 2 * width
}

/// An enemy's health after a hit: at one or less it is gone, else it loses one.
pub open spec fn hit(health: u32, s: EntityState) -> (u32, EntityState) {
    if health <= HEALTH_UNIT {
        (health, EntityState { active: false, ..s })
    } else {
        ((health - HEALTH_UNIT) as u32, s)
    }
}

/// An enemy that flies left, drifting up or down in the middle third of the
/// screen, and fires at a steady rate.
pub struct Enemy1 {
    pub start_x: i64,
    pub start_y: i64,
    pub health: u32,
    pub diagonal_direction: i64,
    pub bullet_target_time: u64,
    pub bullet_recharge_counter: u64,
}

impl Enemy1 {
    pub fn new(x: i64, y: i64, factor: u32) -> (r: Enemy1)
        ensures
            r == Self::made(x, y, factor),
    {
        let bullet_target_time = if factor == 0 { u64::MAX } else { 10_000_000 / factor as u64 };
        Enemy1 {
            start_x: x,
            start_y: y,
            health: factor,
            diagonal_direction: 0,
            bullet_target_time,
            bullet_recharge_counter: bullet_target_time / 2,
        }
    }

    /// A new enemy of a wave of strength `factor`, its gun half charged.
    pub open spec fn made(x: i64, y: i64, factor: u32) -> Enemy1 {
        Enemy1 {
            start_x: x,
            start_y: y,
            health: factor,
            diagonal_direction: 0,
            bullet_target_time: bullet_period(factor),
            bullet_recharge_counter: (bullet_period(factor) / 2) as u64,
        }
    }

    /// Placed at its start point; it drifts up when it starts in the lower half
    /// of the screen and down otherwise.
    pub open spec fn initial(self, screen_height: i64) -> (Enemy1, EntityState) {
        (
            Enemy1 { diagonal_direction: if 2 * self.start_y > screen_height { -1i64 } else { 1i64 }, ..self },
            EntityState { active: true, hitbox: enemy_hitbox(), x: self.start_x, y: self.start_y },
        )
    }

    pub fn get_initial_state(&mut self, screen_height: i64) -> (r: EntityState)
        ensures
            (*final(self), r) == old(self).initial(screen_height),
    {
        self.diagonal_direction = if 2 * (self.start_y as i128) > screen_height as i128 { -1 } else { 1 };
        EntityState { x: self.start_x, y: self.start_y, hitbox: make_enemy_hitbox(), active: true }
    }

    pub open spec fn updated(self, s: EntityState, ctx: GameState) -> (Enemy1, EntityState, Seq<EntityEvent>) {
        let x = advanced(s.x, -ENEMY_SPEED as int, ctx.delta_time);
        let y = if in_middle_third(x, ctx.screen_width) {
            advanced(s.y, sign(self.diagonal_direction) * DRIFT_SPEED, ctx.delta_time)
        } else {
            s.y
        };
        let s2 = EntityState { x, y, ..s };
        let g = recharged(self.bullet_recharge_counter, self.bullet_target_time, ctx.delta_time);
        (Enemy1 { bullet_recharge_counter: g.0, ..self }, s2, gun_events(g.1, s2))
    }

    pub fn update(&mut self, game_state: &GameState, state: &mut EntityState) -> (r: Vec<EntityEvent>)
        ensures
            (*final(self), *final(state), r@) == old(self).updated(*old(state), *game_state),
    {
        state.x = advance(state.x, -ENEMY_SPEED, game_state.delta_time);
        let x3 = 3 * state.x as i128;
        let w = game_state.screen_width as i128;
        if x3 > w && x3 < 2 * w {
            let d: i64 = if self.diagonal_direction > 0 { 1 } else if self.diagonal_direction < 0 { -1 } else { 0 };
            state.y = advance(state.y, d * DRIFT_SPEED, game_state.delta_time);
        }
        let (c, fired) = recharge(self.bullet_recharge_counter, self.bullet_target_time, game_state.delta_time);
        self.bullet_recharge_counter = c;
        fire_events(fired, state)
    }

    pub fn collided(&mut self, self_state: &mut EntityState) -> (r: Vec<EntityEvent>)
        ensures
            (final(self).health, *final(self_state)) == hit(old(self).health, *old(self_state)),
            *final(self) == (Enemy1 { health: final(self).health, ..*old(self) }),
            r@ == Seq::<EntityEvent>::empty(),
    {
        if self.health <= HEALTH_UNIT {
            self_state.active = false;
        } else {
            self.health = self.health - HEALTH_UNIT;
        }
        Vec::new()
    }
}

/// The loop path at an angle in milliradians: the entry for the angle within
/// one stored turn, or nothing for an empty path or a negative angle.
pub open spec fn path_at(path: Seq<(i64, i64)>, angle: i64) -> (i64, i64) {
    if path.len() == 0 || angle < 0 {
        (0, 0)
    } else {
        path[(angle as int) % (path.len() as int)]
    }
}

fn path_lookup(path: &Vec<(i64, i64)>, angle: i64) -> (r: (i64, i64))
    ensures
        r == path_at(path@, angle),
{
    if path.len() == 0 || angle < 0 {
        (0, 0)
    } else {
        let i = (angle as u64 % path.len() as u64) as usize;
        path[i]
    }
}

/// An enemy that flies left until two thirds of the screen, flies one full
/// loop there, then goes on to the left; it fires at a steady rate.
pub struct Enemy2 {
    pub start_x: i64,
    pub start_y: i64,
    pub health: u32,
    /// Milliradians turned so far in the loop.
    pub loop_angle: i64,
    pub loop_center_x: i64,
    pub loop_center_y: i64,
    pub loop_direction: i64,
    pub bullet_target_time: u64,
    pub bullet_recharge_counter: u64,
}

impl Enemy2 {
    pub fn new(x: i64, y: i64, factor: u32) -> (r: Enemy2)
        ensures
            r == Self::made(x, y, factor),
    {
        let bullet_target_time = if factor == 0 { u64::MAX } else { 10_000_000 / factor as u64 };
        Enemy2 {
            start_x: x,
            start_y: y,
            health: factor,
            loop_angle: 0,
            loop_center_x: 0,
            loop_center_y: 0,
            loop_direction: 0,
            bullet_target_time,
            bullet_recharge_counter: bullet_target_time / 2,
        }
    }

    /// A new enemy of a wave of strength `factor`, its gun half charged.
    pub open spec fn made(x: i64, y: i64, factor: u32) -> Enemy2 {
        Enemy2 {
            start_x: x,
            start_y: y,
            health: factor,
            loop_angle: 0,
            loop_center_x: 0,
            loop_center_y: 0,
            loop_direction: 0,
            bullet_target_time: bullet_period(factor),
            bullet_recharge_counter: (bullet_period(factor) / 2) as u64,
        }
    }

    /// Placed at its start point; the loop bends away from the nearer edge.
    pub open spec fn initial(self, screen_height: i64) -> (Enemy2, EntityState) {
        (
            Enemy2 { loop_direction: if 2 * self.start_y < screen_height { -1i64 } else { 1i64 }, ..self },
            EntityState { active: true, hitbox: enemy_hitbox(), x: self.start_x, y: self.start_y },
        )
    }

    pub fn get_initial_state(&mut self, screen_height: i64) -> (r: EntityState)
        ensures
            (*final(self), r) == old(self).initial(screen_height),
    {
        self.loop_direction = if 2 * (self.start_y as i128) < screen_height as i128 { -1 } else { 1 };
        EntityState { x: self.start_x, y: self.start_y, hitbox: make_enemy_hitbox(), active: true }
    }

    /// Whether the enemy flies its loop this frame.
    pub open spec fn looping(self, s: EntityState, ctx: GameState) -> bool {
        let done = self.loop_angle >= FULL_TURN || self.loop_angle <= -FULL_TURN;
        (3 * s.x < 2 * ctx.screen_width || self.loop_angle != 0) && !done
    }

    /// The motion of one frame, before the gun.
    pub open spec fn moved(self, s: EntityState, ctx: GameState) -> (Enemy2, EntityState) {
        if self.looping(s, ctx) {
            let dir = sign(self.loop_direction);
            let cx = if self.loop_angle == 0 { s.x } else { self.loop_center_x };
            let cy = if self.loop_angle == 0 { clamp_i64(s.y - dir * LOOP_RADIUS) } else { self.loop_center_y };
            let angle = clamp_i64(self.loop_angle + LOOP_TURN_RATE * ctx.delta_time);
            let p = path_at(ctx.loop_path@, angle);
            (
                Enemy2 { loop_center_x: cx, loop_center_y: cy, loop_angle: angle, ..self },
                EntityState { x: clamp_i64(cx - p.0), y: clamp_i64(cy + toward(self.loop_direction, p.1)), ..s },
            )
        } else {
            (self, EntityState { x: advanced(s.x, -ENEMY_SPEED as int, ctx.delta_time), ..s })
        }
    }

    pub open spec fn updated(self, s: EntityState, ctx: GameState) -> (Enemy2, EntityState, Seq<EntityEvent>) {
        let (e, s2) = self.moved(s, ctx);
        let g = recharged(e.bullet_recharge_counter, e.bullet_target_time, ctx.delta_time);
        (Enemy2 { bullet_recharge_counter: g.0, ..e }, s2, gun_events(g.1, s2))
    }

    pub fn update(&mut self, game_state: &GameState, state: &mut EntityState) -> (r: Vec<EntityEvent>)
        ensures
            (*final(self), *final(state), r@) == old(self).updated(*old(state), *game_state),
    {
        let loop_is_done = self.loop_angle >= FULL_TURN || self.loop_angle <= -FULL_TURN;
        let is_in_loop = (3 * (state.x as i128) < 2 * (game_state.screen_width as i128) || self.loop_angle != 0)
            && !loop_is_done;
        if is_in_loop {
            let dir: i64 = if self.loop_direction > 0 { 1 } else if self.loop_direction < 0 { -1 } else { 0 };
            if self.loop_angle == 0 {
                self.loop_center_x = state.x;
                self.loop_center_y = clamp_wide(state.y as i128 - (dir as i128) * (LOOP_RADIUS as i128));
            }
            self.loop_angle = clamp_wide(
                self.loop_angle as i128 + (LOOP_TURN_RATE as i128) * (game_state.delta_time as i128),
            );
            let (sn, cs) = path_lookup(game_state.loop_path, self.loop_angle);
            state.x = clamp_wide(self.loop_center_x as i128 - sn as i128);
            let dy: i128 = if dir > 0 {
                cs as i128
            } else if dir < 0 {
                -(cs as i128)
            } else {
                0
            };
            state.y = clamp_wide(self.loop_center_y as i128 + dy);
        } else {
            state.x = advance(state.x, -ENEMY_SPEED, game_state.delta_time);
        }
        let (c, fired) = recharge(self.bullet_recharge_counter, self.bullet_target_time, game_state.delta_time);
        self.bullet_recharge_counter = c;
        fire_events(fired, state)
    }

    pub fn collided(&mut self, self_state: &mut EntityState) -> (r: Vec<EntityEvent>)
        ensures
            (final(self).health, *final(self_state)) == hit(old(self).health, *old(self_state)),
            *final(self) == (Enemy2 { health: final(self).health, ..*old(self) }),
            r@ == Seq::<EntityEvent>::empty(),
    {
        if self.health <= HEALTH_UNIT {
            self_state.active = false;
        } else {
            self.health = self.health - HEALTH_UNIT;
        }
        Vec::new()
    }
}

/// Enemies are on the enemy side and hit the player's side.
pub fn enemy_layer() -> (r: Option<CollisionLayer>)
    ensures
        r == Some(CollisionLayer::Enemy),
{
    Some(CollisionLayer::Enemy)
}

pub fn enemy_targets() -> (r: Vec<CollisionLayer>)
    ensures
        r@ == seq![CollisionLayer::Player],
{
    vec![CollisionLayer::Player]
}

} // verus!
