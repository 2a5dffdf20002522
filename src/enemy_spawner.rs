use vstd::prelude::*;
use rand::rngs::StdRng;
use crate::enemies::{Enemy1, Enemy2};
use crate::entity::{Entity, EntityEvent, GameState};
use crate::enemies::{add_saturating, micros, sat_add, to_micros};
use crate::geometry::{clamp_i64, EntityState, SUBPIXELS};
use crate::player::clamp_wide;

verus! {

/// rand's seeded generator `rand::rngs::StdRng`, carried as an opaque value.
#[verifier::external_type_specification]
#[verifier::external_body]
pub struct ExStdRng(rand::rngs::StdRng);

/// Relies on `rand::SeedableRng::seed_from_u64` for `StdRng`: a generator
/// seeded from the number. Nothing is stated of its stream.
#[verifier::external_body]
fn seeded_rng(seed: u64) -> StdRng {
    <StdRng as rand::SeedableRng>::seed_from_u64(seed)
}

/// Relies on `rand::RngCore::next_u32` for `StdRng`: the next number of the
/// stream, one call of which is what drawing a `u32` or an `f32` in [0, 1)
/// takes. Nothing is stated of the number.
#[verifier::external_body]
fn next_u32(rng: &mut StdRng) -> u32 {
    rand::RngCore::next_u32(rng)
}

/// Milliseconds before the first wave.
pub const FIRST_WAVE_MS: u64 = 3000;

/// Number of enemies in the first wave.
pub const FIRST_WAVE_SIZE: u32 = 3;

/// Horizontal distance between two enemies of a wave, in sub-pixels.
pub const WAVE_SPACING: i64 = 100 * SUBPIXELS;

/// Sends ever larger waves of enemies in from the right at random heights and
/// random intervals.
pub struct EnemySpawner {
    /// Microseconds counted towards the next wave.
    pub time_counter: u64,
    /// Microseconds from one wave to the next.
    pub target_time_counter: u64,
    pub enemy_amount_to_spawn: u32,
    pub rng: StdRng,
}

/// A spawner as it starts: no time counted, three seconds to the first wave
/// of three.
pub open spec fn fresh_spawner(sp: EnemySpawner) -> bool {
    sp.time_counter == 0 && sp.target_time_counter == FIRST_WAVE_MS * 1000 && sp.enemy_amount_to_spawn
        == FIRST_WAVE_SIZE
}

/// The shortest wait, in milliseconds, before a wave of `amount`: five seconds,
/// ten milliseconds less for each enemy past the third, and at least one.
pub open spec fn wave_base_ms(amount: u32) -> int {
    let f = 5000 - (amount - 3) * 10;
    if f < 1 {
        1
    } else {
        f
    }
}

/// The fraction in [0, 1) that a drawn number stands for, as its top 24 bits
/// over 2^24, applied to `v`.
pub open spec fn scaled_by_draw(v: int, draw: u32) -> int {
    v * (draw as int / 256) / 16_777_216
}

/// Microseconds to the next wave after a wave of `amount`: the base wait plus
/// up to the same again, by the draw.
pub open spec fn wave_interval(amount: u32, draw: u32) -> u64 {
    (wave_base_ms(amount) * 1000 + scaled_by_draw(wave_base_ms(amount) * 1000, draw)) as u64
}

/// The interval that follows a wave of `amount` for a drawn number.
pub fn time_target(amount: u32, draw: u32) -> (r: u64)
    ensures
        r == wave_interval(amount, draw),
        r >= 1000,
{
    let f: u64 = if amount <= 3 {
        5000 + (3 - amount as u64) * 10
    } else if amount as u64 >= 503 {
        1
    } else {
        5000 - (amount as u64 - 3) * 10
    };
    let base = f * 1000;
    let frac = (draw / 256) as u64;
    assert(base * frac <= 5030 * 1000 * 16_777_216) by (nonlinear_arith)
        requires
            base <= 5030 * 1000,
            frac < 16_777_216,
    ;
    assert(base * frac / 16_777_216 <= base) by (nonlinear_arith)
        requires
            frac < 16_777_216,
    ;
    base + base * frac / 16_777_216
}

/// The height of a wave for a drawn number: that fraction of the screen's
/// height, or zero on a screen of no height.
pub open spec fn wave_height(screen_height: i64, draw: u32) -> i64 {
    if screen_height <= 0 {
        0
    } else {
        scaled_by_draw(screen_height as int, draw) as i64
    }
}

pub fn spawn_height(screen_height: i64, draw: u32) -> (r: i64)
    ensures
        r == wave_height(screen_height, draw),
{
    if screen_height <= 0 {
        0
    } else {
        let h = screen_height as u128;
        let frac = (draw / 256) as u128;
        assert(h * frac <= 0x8000_0000_0000_0000 * 16_777_216) by (nonlinear_arith)
            requires
                h <= 0x8000_0000_0000_0000,
                frac < 16_777_216,
        ;
        assert(h * frac / 16_777_216 <= h) by (nonlinear_arith)
            requires
                frac < 16_777_216,
        ;
        (h * frac / 16_777_216) as i64
    }
}

/// One enemy of a wave: the kind drawn as two is the looping kind, the other
/// draws give the drifting kind.
pub open spec fn wave_enemy(kind_draw: u32, x: i64, y: i64, amount: u32) -> Entity {
    if kind_draw % 3 + 1 == 2 {
        Entity::Enemy2(Enemy2::made(x, y, amount))
    } else {
        Entity::Enemy1(Enemy1::made(x, y, amount))
    }
}

/// Where the `k`-th enemy of a wave enters: at the right edge, each next one a
/// spacing further right.
pub open spec fn wave_x(screen_width: i64, k: int) -> i64 {
    clamp_i64(screen_width + k * WAVE_SPACING)
}

/// The spawn events of one wave of `amount` enemies of the drawn kind at
/// `height`.
pub open spec fn wave_events(amount: u32, screen_width: i64, height: i64, kind_draw: u32) -> Seq<EntityEvent> {
    Seq::new(
        amount as nat,
        |k: int| EntityEvent::SpawnEntity(wave_enemy(kind_draw, wave_x(screen_width, k), height, amount)),
    )
}

/// One wave for given draws.
pub fn spawn_wave(amount: u32, screen_width: i64, height: i64, kind_draw: u32) -> (r: Vec<EntityEvent>)
    ensures
        r@ == wave_events(amount, screen_width, height, kind_draw),
{
    let mut result: Vec<EntityEvent> = Vec::new();
    let mut x = screen_width;
    let mut k: u32 = 0;
    while k < amount
        invariant
            0 <= k <= amount,
            x == wave_x(screen_width, k as int),
            result@ =~= wave_events(amount, screen_width, height, kind_draw).take(k as int),
        decreases amount - k,
    {
        let enemy = if kind_draw % 3 + 1 == 2 {
            Entity::Enemy2(Enemy2::new(x, height, amount))
        } else {
            Entity::Enemy1(Enemy1::new(x, height, amount))
        };
        result.push(EntityEvent::SpawnEntity(enemy));
        proof {
            assert(wave_events(amount, screen_width, height, kind_draw).take(k + 1) =~= wave_events(
                amount,
                screen_width,
                height,
                kind_draw,
            ).take(k as int).push(EntityEvent::SpawnEntity(enemy)));
        }
        assert((k as int + 1) * WAVE_SPACING == k as int * WAVE_SPACING + WAVE_SPACING && k as int
            * WAVE_SPACING >= 0) by (nonlinear_arith)
            requires
                k >= 0,
                WAVE_SPACING > 0,
        ;
        x = clamp_wide(x as i128 + WAVE_SPACING as i128);
        k = k + 1;
    }
    proof {
        assert(wave_events(amount, screen_width, height, kind_draw).take(amount as int) =~= wave_events(
            amount,
            screen_width,
            height,
            kind_draw,
        ));
    }
    result
}

/// Whether an event spawns an enemy of either kind.
pub open spec fn spawns_enemy(ev: EntityEvent) -> bool {
    ev matches EntityEvent::SpawnEntity(e) && (e is Enemy1 || e is Enemy2)
}

/// The size of the wave after `waves` waves that started at `amount`: one
/// more each time, up to the largest `u32`.
pub open spec fn amount_after(amount: u32, waves: nat) -> u32
    decreases waves,
{
    if waves == 0 {
        amount
    } else {
        let before = amount_after(amount, (waves - 1) as nat);
        if before < u32::MAX {
            (before + 1) as u32
        } else {
            before
        }
    }
}

/// How many enemies `waves` waves that started at `amount` bring in all.
pub open spec fn enemies_in_waves(amount: u32, waves: nat) -> nat
    decreases waves,
{
    if waves == 0 {
        0
    } else {
        enemies_in_waves(amount, (waves - 1) as nat) + amount_after(amount, (waves - 1) as nat) as nat
    }
}

/// The events of successive waves, the first of size `amount`, each at the
/// height drawn with the first number of its pair and of the kind drawn with
/// the second.
pub open spec fn waves_events(
    amount: u32,
    screen_width: i64,
    screen_height: i64,
    draws: Seq<(u32, u32)>,
) -> Seq<EntityEvent>
    decreases draws.len(),
{
    if draws.len() == 0 {
        Seq::empty()
    } else {
        let k = draws.len() - 1;
        waves_events(amount, screen_width, screen_height, draws.drop_last()) + wave_events(
            amount_after(amount, k as nat),
            screen_width,
            wave_height(screen_height, draws.last().0),
            draws.last().1,
        )
    }
}

/// Whether a wave is due after counting `dt` milliseconds.
pub open spec fn wave_due(sp: EnemySpawner, dt: u64) -> bool {
    sp.target_time_counter > 0 && sat_add(sp.time_counter, micros(dt)) > sp.target_time_counter
}

/// What holds of a spawner's frame whatever numbers are drawn. When no wave
/// is due only the time is counted and nothing is spawned. When one is due,
/// one or more waves enter, each one larger than the one before, and the
/// events are exactly those waves for some drawn heights and kinds, so their
/// number is the sum of the wave sizes; the next interval is at least a
/// millisecond and the counter ends within it. Every event spawns an enemy.
pub open spec fn spawner_stepped(sp: EnemySpawner, ctx: GameState, sp2: EnemySpawner, evs: Seq<EntityEvent>) -> bool {
    &&& !wave_due(sp, ctx.delta_time) ==> {
        &&& sp2.time_counter == sat_add(sp.time_counter, micros(ctx.delta_time))
        &&& sp2.target_time_counter == sp.target_time_counter
        &&& sp2.enemy_amount_to_spawn == sp.enemy_amount_to_spawn
        &&& evs.len() == 0
    }
    &&& wave_due(sp, ctx.delta_time) ==> exists|draws: Seq<(u32, u32)>|
        {
            &&& draws.len() >= 1
            &&& sp2.enemy_amount_to_spawn == amount_after(sp.enemy_amount_to_spawn, draws.len())
            &&& evs == waves_events(sp.enemy_amount_to_spawn, ctx.screen_width, ctx.screen_height, draws)
            &&& evs.len() == enemies_in_waves(sp.enemy_amount_to_spawn, draws.len())
            &&& evs.take(sp.enemy_amount_to_spawn as int) == wave_events(
                sp.enemy_amount_to_spawn,
                ctx.screen_width,
                wave_height(ctx.screen_height, draws[0].0),
                draws[0].1,
            )
            &&& sp2.target_time_counter >= 1000
            &&& sp2.time_counter <= sp2.target_time_counter
        }
    &&& sp2.enemy_amount_to_spawn >= sp.enemy_amount_to_spawn
    &&& forall|i: int| 0 <= i < evs.len() ==> spawns_enemy(#[trigger] evs[i])
}

proof fn lemma_first_wave_fits(amount: u32, waves: nat)
    requires
        waves >= 1,
    ensures
        enemies_in_waves(amount, waves) >= amount,
    decreases waves,
{
    if waves > 1 {
        lemma_first_wave_fits(amount, (waves - 1) as nat);
    }
}

impl EnemySpawner {
    pub fn new() -> (r: EnemySpawner)
        ensures
            fresh_spawner(r),
    {
        EnemySpawner {
            time_counter: 0,
            target_time_counter: FIRST_WAVE_MS * 1000,
            enemy_amount_to_spawn: FIRST_WAVE_SIZE,
            rng: seeded_rng(0),
        }
    }

    /// Draws the interval to the next wave.
    pub fn generate_time_target(&mut self)
        ensures
            final(self).time_counter == old(self).time_counter,
            final(self).enemy_amount_to_spawn == old(self).enemy_amount_to_spawn,
            exists|d: u32| final(self).target_time_counter == wave_interval(old(self).enemy_amount_to_spawn, d),
            final(self).target_time_counter >= 1000,
    {
        let draw = next_u32(&mut self.rng);
        self.target_time_counter = time_target(self.enemy_amount_to_spawn, draw);
    }

    /// One due wave for given draws: one interval is taken off the counter,
    /// the wave enters at the drawn height with the drawn kind, and the next
    /// wave is one larger (up to the largest `u32`). The interval to the next
    /// wave is drawn afterwards (see `generate_time_target`).
    pub fn wave_step(
        &mut self,
        screen_width: i64,
        screen_height: i64,
        height_draw: u32,
        kind_draw: u32,
    ) -> (r: Vec<EntityEvent>)
        requires
            old(self).time_counter >= old(self).target_time_counter,
        ensures
            final(self).time_counter == old(self).time_counter - old(self).target_time_counter,
            final(self).enemy_amount_to_spawn == if old(self).enemy_amount_to_spawn < u32::MAX {
                (old(self).enemy_amount_to_spawn + 1) as u32
            } else {
                u32::MAX
            },
            final(self).target_time_counter == old(self).target_time_counter,
            final(self).rng == old(self).rng,
            r@ == wave_events(
                old(self).enemy_amount_to_spawn,
                screen_width,
                wave_height(screen_height, height_draw),
                kind_draw,
            ),
    {
        self.time_counter = self.time_counter - self.target_time_counter;
        let height = spawn_height(screen_height, height_draw);
        let wave = spawn_wave(self.enemy_amount_to_spawn, screen_width, height, kind_draw);
        if self.enemy_amount_to_spawn < u32::MAX {
            self.enemy_amount_to_spawn = self.enemy_amount_to_spawn + 1;
        }
        wave
    }

    /// Counts the frame's time; each time the interval has run out, one wave
    /// enters, the next is one larger, and a new interval is drawn. When no
    /// wave is due only the time is counted.
    pub fn update(&mut self, game_state: &GameState, state: &mut EntityState) -> (r: Vec<EntityEvent>)
        ensures
            *final(state) == *old(state),
            spawner_stepped(*old(self), *game_state, *final(self), r@),
    {
        self.time_counter = add_saturating(self.time_counter, to_micros(game_state.delta_time));
        let ghost a0 = old(self).enemy_amount_to_spawn;
        let ghost w = game_state.screen_width;
        let ghost h = game_state.screen_height;
        let ghost mut draws: Seq<(u32, u32)> = Seq::empty();
        let mut result: Vec<EntityEvent> = Vec::new();
        while self.target_time_counter > 0 && self.time_counter > self.target_time_counter
            invariant
                *state == *old(state),
                w == game_state.screen_width,
                h == game_state.screen_height,
                a0 == old(self).enemy_amount_to_spawn,
                draws.len() == 0 ==> {
                    &&& self.time_counter == sat_add(old(self).time_counter, micros(game_state.delta_time))
                    &&& self.target_time_counter == old(self).target_time_counter
                },
                draws.len() >= 1 ==> {
                    &&& wave_due(*old(self), game_state.delta_time)
                    &&& self.target_time_counter >= 1000
                    &&& result@.take(a0 as int) == wave_events(a0, w, wave_height(h, draws[0].0), draws[0].1)
                },
                self.enemy_amount_to_spawn == amount_after(a0, draws.len()),
                result@ == waves_events(a0, w, h, draws),
                result@.len() == enemies_in_waves(a0, draws.len()),
                self.enemy_amount_to_spawn >= old(self).enemy_amount_to_spawn,
                forall|i: int| 0 <= i < result@.len() ==> spawns_enemy(#[trigger] result@[i]),
            decreases self.time_counter,
        {
            assert(draws.len() == 0 ==> wave_due(*old(self), game_state.delta_time));
            let height_draw = next_u32(&mut self.rng);
            let kind_draw = next_u32(&mut self.rng);
            let ghost before = result@;
            let mut wave = self.wave_step(game_state.screen_width, game_state.screen_height, height_draw, kind_draw);
            assert(forall|i: int| 0 <= i < wave@.len() ==> spawns_enemy(#[trigger] wave@[i]));
            let ghost wave_seq = wave@;
            result.append(&mut wave);
            proof {
                let next = draws.push((height_draw, kind_draw));
                assert(next.drop_last() =~= draws);
                assert(wave_seq.len() == amount_after(a0, draws.len()));
                if draws.len() == 0 {
                    assert(before.len() == 0);
                    assert(result@ =~= wave_seq);
                    assert(result@.take(a0 as int) =~= wave_seq);
                } else {
                    assert(before.len() >= a0) by {
                        lemma_first_wave_fits(a0, draws.len());
                    }
                    assert(result@.take(a0 as int) =~= before.take(a0 as int));
                }
                assert(next[0] == (if draws.len() == 0 { (height_draw, kind_draw) } else { draws[0] }));
                draws = next;
            }
            self.generate_time_target();
        }
        assert(draws.len() == 0 ==> result@.len() == 0 && self.enemy_amount_to_spawn == a0);
        result
    }
}

} // verus!
