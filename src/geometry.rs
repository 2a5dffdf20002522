use vstd::prelude::*;

verus! {

/// Positions, lengths and speeds are kept in sub-pixel units: this many make
/// one pixel, so that slow movement accumulates between frames.
pub const SUBPIXELS: i64 = 1000;

/// A collision tag: which side an entity is on.
#[derive(PartialEq, Eq, Structural, Clone, Copy, Debug, Hash)]
pub enum CollisionLayer {
    Player,
    Enemy,
}

/// Four margins measured from an entity's anchor point.
#[derive(PartialEq, Eq, Structural, Clone, Copy, Debug)]
pub struct Hitbox {
    pub left: i64,
    pub right: i64,
    pub top: i64,
    pub bottom: i64,
}

impl Hitbox {
    /// Margins are never negative.
    pub open spec fn wf(self) -> bool {
        self.left >= 0 && self.right >= 0 && self.top >= 0 && self.bottom >= 0
    }
}

impl Default for Hitbox {
    fn default() -> (r: Hitbox)
        ensures
            r == (Hitbox { left: 0, right: 0, top: 0, bottom: 0 }),
    {
        Hitbox { left: 0, right: 0, top: 0, bottom: 0 }
    }
}

/// The spatial and lifecycle record of an entity.
#[derive(PartialEq, Eq, Structural, Clone, Copy, Debug)]
pub struct EntityState {
    pub active: bool,
    pub hitbox: Hitbox,
    pub x: i64,
    pub y: i64,
}

/// The default record: active, at the origin, with an empty hitbox.
pub open spec fn default_state() -> EntityState {
    EntityState { active: true, hitbox: Hitbox { left: 0, right: 0, top: 0, bottom: 0 }, x: 0, y: 0 }
}

impl Default for EntityState {
    fn default() -> (r: EntityState)
        ensures
            r == default_state(),
    {
        EntityState { active: true, hitbox: Hitbox::default(), x: 0, y: 0 }
    }
}

/// Axis-aligned overlap of two hitboxes: they overlap unless one lies
/// strictly to one side of the other along either axis.
pub open spec fn overlaps(a: EntityState, b: EntityState) -> bool {
    !(a.x - a.hitbox.left > b.x + b.hitbox.right) && !(a.x + a.hitbox.right < b.x - b.hitbox.left)
        && !(a.y - a.hitbox.top > b.y + b.hitbox.bottom) && !(a.y + a.hitbox.bottom < b.y
        - b.hitbox.top)
}

/// Overlap is symmetric: `overlaps(a, b)` and `overlaps(b, a)` agree for
/// every two records.
pub proof fn lemma_overlaps_symmetric(a: EntityState, b: EntityState)
    ensures
        overlaps(a, b) == overlaps(b, a),
{
}

/// The overlap test on two records.
pub fn boxes_overlap(a: &EntityState, b: &EntityState) -> (r: bool)
    ensures
        r == overlaps(*a, *b),
{
    let (ax, ay, bx, by) = (a.x as i128, a.y as i128, b.x as i128, b.y as i128);
    let (al, ar, at, ab) = (
        a.hitbox.left as i128,
        a.hitbox.right as i128,
        a.hitbox.top as i128,
        a.hitbox.bottom as i128,
    );
    let (bl, br, bt, bb) = (
        b.hitbox.left as i128,
        b.hitbox.right as i128,
        b.hitbox.top as i128,
        b.hitbox.bottom as i128,
    );
    if ax - al > bx + br {
        return false;
    }
    if ax + ar < bx - bl {
        return false;
    }
    if ay - at > by + bb {
        return false;
    }
    if ay + ab < by - bt {
        return false;
    }
    true
}

/// An integer held to the range of `i64`.
pub open spec fn clamp_i64(v: int) -> i64 {
    if v < i64::MIN {
        i64::MIN
    } else if v > i64::MAX {
        i64::MAX
    } else {
        v as i64
    }
}

/// The largest speed, in sub-pixels per millisecond, that `advance` takes.
pub const MAX_SPEED: i64 = 1_000_000;

/// A coordinate after moving at `speed` units per millisecond for `dt`
/// milliseconds, held to the range of `i64`.
pub open spec fn advanced(x: i64, speed: int, dt: u64) -> i64 {
    clamp_i64(x + speed * dt)
}

pub fn advance(x: i64, speed: i64, dt: u64) -> (r: i64)
    requires
        -MAX_SPEED <= speed <= MAX_SPEED,
    ensures
        r == advanced(x, speed as int, dt),
{
    let s = speed as i128;
    let d = dt as i128;
    assert(-1_000_000 * 0x1_0000_0000_0000_0000 <= s * d <= 1_000_000 * 0x1_0000_0000_0000_0000)
        by (nonlinear_arith)
        requires
            -1_000_000 <= s <= 1_000_000,
            0 <= d < 0x1_0000_0000_0000_0000,
    ;
    let v = x as i128 + s * d;
    if v < i64::MIN as i128 {
        i64::MIN
    } else if v > i64::MAX as i128 {
        i64::MAX
    } else {
        v as i64
    }
}

/// A value moved into `[min, max]` as the clamp of the game does it: first
/// raised to `min`, then lowered to `max`, so `max` wins when `min > max`.
pub open spec fn clamped(v: i64, min: i64, max: i64) -> i64 {
    let raised = if v < min { min } else { v };
    if raised > max { max } else { raised }
}

pub fn clamp_to(value: &mut i64, min: i64, max: i64)
    ensures
        *final(value) == clamped(*old(value), min, max),
{
    if *value < min {
        *value = min;
    }
    if *value > max {
        *value = max;
    }
}

} // verus!
