use vstd::prelude::*;
use crate::entity::{
    collide_of, fires, initial_of, layer_of, name_of, targets_of, update_rel, Entity, EntityEvent, GameState,
};
use crate::geometry::{overlaps, CollisionLayer};
use crate::geometry::EntityState;
use crate::keyboard::{Key, KeyboardState};
use crate::time;
use crate::you_lost::YouLost;

verus! {

broadcast use vstd::seq_lib::lemma_seq_contains_after_push;

/// An entity with its record and its name, as the registry holds it.
pub struct EntityWrapper {
    pub entity: Entity,
    pub state: EntityState,
    pub name: String,
}

/// An entity with its record and its name, as the contracts see a registry
/// slot.
pub type Slot = (Entity, EntityState, Seq<char>);

/// The slot an entity gets when it is registered on a screen of the given
/// height: its first record, and its name.
pub open spec fn registered(e: Entity, screen_height: i64) -> Slot {
    (initial_of(e, screen_height).0, initial_of(e, screen_height).1, name_of(e))
}

impl EntityWrapper {
    /// Wraps an entity as the engine registers it: its first record is made
    /// once, on the engine's screen, and its name is read once.
    pub fn new(entity: Entity, engine: &Engine) -> (r: EntityWrapper)
        ensures
            (r.entity, r.state) == initial_of(entity, engine.height),
            r.name@ == name_of(entity),
    {
        let mut entity = entity;
        let state = entity.get_initial_state(engine.height);
        let name = entity.identifying_string();
        EntityWrapper { state, name, entity }
    }
}

/// The registry after a batch of events, applied in order: a spawn appends
/// the registered entity, a clear empties the registry.
pub open spec fn apply_events(live: Seq<Slot>, evs: Seq<EntityEvent>, screen_height: i64) -> Seq<Slot>
    decreases evs.len(),
{
    if evs.len() == 0 {
        live
    } else {
        let before = apply_events(live, evs.drop_last(), screen_height);
        match evs.last() {
            EntityEvent::ClearAllEntities => Seq::empty(),
            EntityEvent::SpawnEntity(e) => before.push(registered(e, screen_height)),
        }
    }
}

/// One directed test: `a` attacks `b` when it fires, and its response may
/// change its own slot and the defender's record.
pub open spec fn hit_step(live: Seq<Slot>, a: int, b: int) -> (Seq<Slot>, Seq<EntityEvent>) {
    let (ae, as_, an) = live[a];
    let (de, ds, dn) = live[b];
    if fires(ae, as_, de, ds) {
        let (ae2, as2, ds2, evs) = collide_of(ae, as_, ds);
        (live.update(a, (ae2, as2, an)).update(b, (de, ds2, dn)), evs)
    } else {
        (live, Seq::empty())
    }
}

/// One pair: first `a` attacks `b`, then `b` attacks `a`.
pub open spec fn pair_step(live: Seq<Slot>, a: int, b: int) -> (Seq<Slot>, Seq<EntityEvent>) {
    let (l1, e1) = hit_step(live, a, b);
    let (l2, e2) = hit_step(l1, b, a);
    (l2, e1 + e2)
}

/// The collision pass up to the pair `(a, b)`: every pair of an earlier first
/// index, and the pairs `(a, c)` with `c < b`, each in order.
pub open spec fn row_upto(live0: Seq<Slot>, a: int, b: int) -> (Seq<Slot>, Seq<EntityEvent>)
    decreases a, b,
{
    if a < 0 || (a == 0 && b <= 1) {
        (live0, Seq::empty())
    } else if b > a + 1 {
        let (l, e) = row_upto(live0, a, b - 1);
        let (l2, e2) = pair_step(l, a, b - 1);
        (l2, e + e2)
    } else {
        row_upto(live0, a - 1, live0.len() as int)
    }
}

/// The collision pass over every unordered pair `i < j`, in order of `i`
/// then `j`: the slots after it and the events it produced.
pub open spec fn collision_pass(live: Seq<Slot>) -> (Seq<Slot>, Seq<EntityEvent>) {
    if live.len() == 0 {
        (live, Seq::empty())
    } else {
        row_upto(live, live.len() - 1, live.len() as int)
    }
}

/// The registry without its inactive entities, in order.
pub open spec fn pruned(live: Seq<Slot>) -> Seq<Slot>
    decreases live.len(),
{
    if live.len() == 0 {
        live
    } else {
        let rest = pruned(live.drop_last());
        if live.last().1.active {
            rest.push(live.last())
        } else {
            rest
        }
    }
}

/// What the update pass does: every slot updated in turn, its name kept, its
/// events gathered in order of the slots.
pub open spec fn updated_all(live: Seq<Slot>, ctx: GameState, live2: Seq<Slot>, evs: Seq<EntityEvent>) -> bool {
    &&& live2.len() == live.len()
    &&& forall|i: int| 0 <= i < live.len() ==> #[trigger] live2[i].2 == live[i].2
    &&& exists|parts: Seq<Seq<EntityEvent>>|
        {
            &&& parts.len() == live.len()
            &&& evs == parts.flatten()
            &&& forall|i: int|
                0 <= i < live.len() ==> update_rel(
                    #[trigger] live[i].0,
                    live[i].1,
                    ctx,
                    live2[i].0,
                    live2[i].1,
                    parts[i],
                )
        }
}

/// The rest of a frame once the entities have been updated: the update
/// events applied, the collision pass over what is then live, its events
/// applied, and the inactive entities dropped.
pub open spec fn frame_end(updated: Seq<Slot>, evs: Seq<EntityEvent>, screen_height: i64) -> Seq<Slot> {
    let live = apply_events(updated, evs, screen_height);
    let (hit, evs2) = collision_pass(live);
    pruned(apply_events(hit, evs2, screen_height))
}

/// Collision filtering is directional: an attacker on side `l` hits a
/// defender exactly when the defender can be hit by `l` and the two boxes
/// overlap; an entity on no side hits nothing.
pub proof fn lemma_directional_filter(att: Entity, s: EntityState, def: Entity, ds: EntityState, l: CollisionLayer)
    ensures
        layer_of(att) == Some(l) ==> (fires(att, s, def, ds) <==> (targets_of(def).contains(l) && overlaps(s, ds))),
        layer_of(att) is None ==> !fires(att, s, def, ds),
{
}

/// A clear discards everything registered before it in the same batch, the
/// registry's earlier content included, and a spawn after it survives:
/// spawning `x`, clearing and spawning `y` leaves exactly `y`.
pub proof fn lemma_clear_then_spawn(live: Seq<Slot>, x: Entity, y: Entity, screen_height: i64)
    ensures
        apply_events(
            live,
            seq![EntityEvent::SpawnEntity(x), EntityEvent::ClearAllEntities, EntityEvent::SpawnEntity(y)],
            screen_height,
        ) == seq![registered(y, screen_height)],
{
    let evs = seq![EntityEvent::SpawnEntity(x), EntityEvent::ClearAllEntities, EntityEvent::SpawnEntity(y)];
    assert(evs.drop_last() =~= seq![EntityEvent::SpawnEntity(x), EntityEvent::ClearAllEntities]);
    assert(evs.drop_last().drop_last() =~= seq![EntityEvent::SpawnEntity(x)]);
    assert(evs.drop_last().drop_last().drop_last() =~= Seq::<EntityEvent>::empty());
    assert(apply_events(live, evs.drop_last().drop_last().drop_last(), screen_height) == live);
    assert(apply_events(live, evs.drop_last().drop_last(), screen_height) == live.push(
        registered(x, screen_height),
    ));
    assert(apply_events(live, evs.drop_last(), screen_height) == Seq::<Slot>::empty());
    assert(Seq::<Slot>::empty().push(registered(y, screen_height)) =~= seq![registered(y, screen_height)]);
}

/// A batch without a clear only appends: every slot that was there, active
/// or not, stays at its index. So an entity that made itself inactive in its
/// own update is still there for the collision pass of the same frame.
pub proof fn lemma_updated_slots_reach_collisions(mid: Seq<Slot>, evs: Seq<EntityEvent>, screen_height: i64)
    requires
        forall|i: int| 0 <= i < evs.len() ==> !(#[trigger] evs[i] is ClearAllEntities),
    ensures
        apply_events(mid, evs, screen_height).len() >= mid.len(),
        forall|i: int| 0 <= i < mid.len() ==> #[trigger] apply_events(mid, evs, screen_height)[i] == mid[i],
    decreases evs.len(),
{
    if evs.len() > 0 {
        let pre = evs.drop_last();
        assert(!(evs[evs.len() - 1] is ClearAllEntities));
        assert forall|i: int| 0 <= i < pre.len() implies !(#[trigger] pre[i] is ClearAllEntities) by {
            assert(pre[i] == evs[i]);
        }
        lemma_updated_slots_reach_collisions(mid, pre, screen_height);
    }
}

proof fn lemma_hit_keeps_spent(live: Seq<Slot>, a: int, b: int)
    requires
        0 <= a < live.len(),
        0 <= b < live.len(),
        a != b,
    ensures
        hit_step(live, a, b).0.len() == live.len(),
        forall|i: int|
            0 <= i < live.len() && !live[i].1.active ==> !(#[trigger] hit_step(live, a, b).0[i]).1.active,
{
}

proof fn lemma_row_keeps_spent(live0: Seq<Slot>, a: int, b: int)
    requires
        a < live0.len(),
        b <= live0.len(),
    ensures
        row_upto(live0, a, b).0.len() == live0.len(),
        forall|i: int|
            0 <= i < live0.len() && !live0[i].1.active ==> !(#[trigger] row_upto(live0, a, b).0[i]).1.active,
    decreases a, b,
{
    if a < 0 || (a == 0 && b <= 1) {
    } else if b > a + 1 {
        lemma_row_keeps_spent(live0, a, b - 1);
        let l = row_upto(live0, a, b - 1).0;
        lemma_hit_keeps_spent(l, a, b - 1);
        let l1 = hit_step(l, a, b - 1).0;
        lemma_hit_keeps_spent(l1, b - 1, a);
    } else {
        lemma_row_keeps_spent(live0, a - 1, live0.len() as int);
    }
}

/// No collision response makes an entity active again: a slot that enters
/// the collision pass inactive leaves it inactive, and pruning then drops it.
pub proof fn lemma_collisions_keep_spent(live: Seq<Slot>, i: int)
    requires
        0 <= i < live.len(),
        !live[i].1.active,
    ensures
        collision_pass(live).0.len() == live.len(),
        !collision_pass(live).0[i].1.active,
{
    lemma_row_keeps_spent(live, live.len() - 1, live.len() as int);
}

/// Only active entities are left after pruning, which happens once the
/// collision pass is over.
pub proof fn lemma_pruned_all_active(live: Seq<Slot>)
    ensures
        forall|i: int| 0 <= i < pruned(live).len() ==> (#[trigger] pruned(live)[i]).1.active,
        pruned(live).len() <= live.len(),
    decreases live.len(),
{
    if live.len() > 0 {
        lemma_pruned_all_active(live.drop_last());
    }
}

/// Pruning twice leaves what pruning once left.
pub proof fn lemma_pruned_idempotent(live: Seq<Slot>)
    ensures
        pruned(pruned(live)) == pruned(live),
    decreases live.len(),
{
    if live.len() > 0 {
        let rest = pruned(live.drop_last());
        lemma_pruned_idempotent(live.drop_last());
        if live.last().1.active {
            assert(rest.push(live.last()).drop_last() =~= rest);
        }
    }
}

/// Pruning waits for the end of the frame: when the update events hold no
/// clear, an entity that made itself inactive in its own update is in the
/// registry the collision pass runs over, at its index, still inactive after
/// the pass, and gone from the registry at the end of the frame, which holds
/// only active entities.
pub proof fn lemma_spent_entity_collides_then_leaves(
    mid: Seq<Slot>,
    evs: Seq<EntityEvent>,
    screen_height: i64,
    i: int,
)
    requires
        forall|j: int| 0 <= j < evs.len() ==> !(#[trigger] evs[j] is ClearAllEntities),
        0 <= i < mid.len(),
        !mid[i].1.active,
    ensures
        apply_events(mid, evs, screen_height)[i] == mid[i],
        !collision_pass(apply_events(mid, evs, screen_height)).0[i].1.active,
        forall|j: int|
            0 <= j < frame_end(mid, evs, screen_height).len() ==> (#[trigger] frame_end(
                mid,
                evs,
                screen_height,
            )[j]).1.active,
{
    lemma_updated_slots_reach_collisions(mid, evs, screen_height);
    let live = apply_events(mid, evs, screen_height);
    lemma_collisions_keep_spent(live, i);
    let (hit, evs2) = collision_pass(live);
    lemma_pruned_all_active(apply_events(hit, evs2, screen_height));
}

/// An input event from the window.
pub enum InputEvent {
    CloseRequested,
    KeyPressed(Key),
    KeyReleased(Key),
}

/// The simulation: the input state, the clock's reference point and the live
/// entities.
pub struct Engine {
    pub keyboard: KeyboardState,
    pub running: bool,
    pub render_hitboxes: bool,
    pub last_update_time: u64,
    pub entities: Vec<EntityWrapper>,
    pub width: i64,
    pub height: i64,
    /// One turn of the enemies' loop path (see `GameState::loop_path`).
    pub loop_path: Vec<(i64, i64)>,
}

fn reversed<T>(v: Vec<T>) -> (r: Vec<T>)
    ensures
        r@.len() == v@.len(),
        forall|j: int| 0 <= j < v@.len() ==> #[trigger] r@[j] == v@[v@.len() - 1 - j],
{
    let ghost orig = v@;
    let mut v = v;
    let mut r: Vec<T> = Vec::new();
    while v.len() > 0
        invariant
            v@ == orig.take(v@.len() as int),
            r@.len() + v@.len() == orig.len(),
            forall|j: int| 0 <= j < r@.len() ==> #[trigger] r@[j] == orig[orig.len() - 1 - j],
        decreases v.len(),
    {
        let x = v.pop().unwrap();
        r.push(x);
        proof {
            assert(v@ =~= orig.take(v@.len() as int));
        }
    }
    r
}

fn placeholder() -> (r: EntityWrapper) {
    EntityWrapper { entity: Entity::YouLost(YouLost::new()), state: EntityState::default(), name: String::new() }
}

impl Engine {
    /// The live entities with their records, in order.
    pub open spec fn live(self) -> Seq<Slot> {
        Seq::new(
            self.entities@.len(),
            |i: int| (self.entities@[i].entity, self.entities@[i].state, self.entities@[i].name@),
        )
    }

    /// The context an update sees in a frame of `dt` milliseconds.
    pub open spec fn frame_context(&self, dt: u64) -> GameState {
        GameState {
            delta_time: dt,
            keyboard: &self.keyboard,
            screen_width: self.width,
            screen_height: self.height,
            loop_path: &self.loop_path,
        }
    }

    /// Everything but the live entities is as it was.
    pub open spec fn same_setting(self, other: Engine) -> bool {
        &&& self.keyboard == other.keyboard
        &&& self.running == other.running
        &&& self.render_hitboxes == other.render_hitboxes
        &&& self.last_update_time == other.last_update_time
        &&& self.width == other.width
        &&& self.height == other.height
        &&& self.loop_path == other.loop_path
    }

    /// An engine for a screen of the given size, with no entities, running,
    /// its clock read now.
    pub fn new(width: i64, height: i64, loop_path: Vec<(i64, i64)>) -> (r: Engine)
        ensures
            r.live().len() == 0,
            r.running,
            !r.render_hitboxes,
            r.width == width,
            r.height == height,
            r.loop_path@ == loop_path@,
            r.keyboard@.held == Set::<Key>::empty(),
            r.keyboard@.pressed == Set::<Key>::empty(),
            r.keyboard@.released == Set::<Key>::empty(),
    {
        Engine {
            keyboard: KeyboardState::new(),
            running: true,
            render_hitboxes: false,
            last_update_time: time::get(),
            entities: Vec::new(),
            width,
            height,
            loop_path,
        }
    }

    /// Registers an entity: its wrapper is appended.
    pub fn register_entity(&mut self, entity: Entity)
        ensures
            final(self).live() == old(self).live().push(registered(entity, old(self).height)),
            final(self).entities@.last().name@ == name_of(entity),
            final(self).same_setting(*old(self)),
    {
        let wrapper = EntityWrapper::new(entity, self);
        self.entities.push(wrapper);
        proof {
            assert(self.live() =~= old(self).live().push(registered(entity, old(self).height)));
        }
    }

    /// Applies a batch of events in order.
    pub fn handle_event(&mut self, events: Vec<EntityEvent>)
        ensures
            final(self).live() == apply_events(old(self).live(), events@, old(self).height),
            final(self).same_setting(*old(self)),
    {
        let ghost evs = events@;
        let n = events.len();
        let mut rev = reversed(events);
        while rev.len() > 0
            invariant
                rev@.len() <= n,
                n == evs.len(),
                forall|j: int| 0 <= j < rev@.len() ==> #[trigger] rev@[j] == evs[n - 1 - j],
                self.live() == apply_events(old(self).live(), evs.take(n - rev@.len()), old(self).height),
                self.same_setting(*old(self)),
            decreases rev.len(),
        {
            let k = n - rev.len();
            let ev = rev.pop().unwrap();
            assert(ev == evs[k as int]);
            assert(evs.take(k + 1).drop_last() =~= evs.take(k as int));
            match ev {
                EntityEvent::SpawnEntity(entity) => {
                    self.register_entity(entity);
                },
                EntityEvent::ClearAllEntities => {
                    self.entities.clear();
                    assert(self.live() =~= Seq::<Slot>::empty());
                },
            }
        }
        assert(evs.take(n as int) =~= evs);
    }

    /// The directed test of slot `a` against slot `b`.
    fn check_directed(&mut self, a: usize, b: usize) -> (r: Vec<EntityEvent>)
        requires
            a < old(self).entities@.len(),
            b < old(self).entities@.len(),
            a != b,
        ensures
            (final(self).live(), r@) == hit_step(old(self).live(), a as int, b as int),
            final(self).entities@.len() == old(self).entities@.len(),
            final(self).same_setting(*old(self)),
    {
        let ghost live0 = self.live();
        let mut second = placeholder();
        std::mem::swap(&mut self.entities[b], &mut second);
        let ghost first0 = self.entities@[a as int];
        let ghost second0 = second;
        let r = Self::check_collision_between(&mut self.entities[a], &mut second);
        let ghost first1 = self.entities@[a as int];
        let ghost second1 = second;
        std::mem::swap(&mut self.entities[b], &mut second);
        proof {
            assert(live0[a as int] == (first0.entity, first0.state, first0.name@));
            assert(live0[b as int] == (second0.entity, second0.state, second0.name@));
            if fires(first0.entity, first0.state, second0.entity, second0.state) {
                assert(self.live() =~= live0.update(a as int, (first1.entity, first1.state, first1.name@)).update(
                    b as int,
                    (second0.entity, second1.state, second1.name@),
                ));
            } else {
                assert(self.live() =~= live0);
            }
        }
        r
    }

    /// One pair of slots, tested in both directions.
    fn check_pair(&mut self, a: usize, b: usize) -> (r: Vec<EntityEvent>)
        requires
            a < old(self).entities@.len(),
            b < old(self).entities@.len(),
            a != b,
        ensures
            (final(self).live(), r@) == pair_step(old(self).live(), a as int, b as int),
            final(self).entities@.len() == old(self).entities@.len(),
            final(self).same_setting(*old(self)),
    {
        let mut events = self.check_directed(a, b);
        let mut back = self.check_directed(b, a);
        events.append(&mut back);
        events
    }

    /// The collision pass over every pair of live entities, its events then
    /// applied.
    pub fn check_collisions(&mut self)
        ensures
            final(self).live() == apply_events(
                collision_pass(old(self).live()).0,
                collision_pass(old(self).live()).1,
                old(self).height,
            ),
            final(self).same_setting(*old(self)),
    {
        let ghost live0 = self.live();
        let n = self.entities.len();
        let mut events: Vec<EntityEvent> = Vec::new();
        if n > 0 {
            let mut i: usize = 1;
            while i < n
                invariant
                    1 <= i <= n,
                    n == self.entities@.len(),
                    n == live0.len(),
                    (self.live(), events@) == row_upto(live0, i - 1, i as int),
                    self.same_setting(*old(self)),
                decreases n - i,
            {
                let mut b: usize = i;
                while b < n
                    invariant
                        1 <= i <= b <= n,
                        n == self.entities@.len(),
                        n == live0.len(),
                        (self.live(), events@) == row_upto(live0, i - 1, b as int),
                        self.same_setting(*old(self)),
                    decreases n - b,
                {
                    let mut step = self.check_pair(i - 1, b);
                    events.append(&mut step);
                    b = b + 1;
                }
                i = i + 1;
            }
        }
        self.handle_event(events);
    }

    /// Drops every inactive entity; the others keep their order.
    pub fn prune_inactive(&mut self)
        ensures
            final(self).live() == pruned(old(self).live()),
            final(self).same_setting(*old(self)),
    {
        let ghost live0 = self.live();
        let mut all: Vec<EntityWrapper> = Vec::new();
        std::mem::swap(&mut all, &mut self.entities);
        let n = all.len();
        let ghost orig = all@;
        assert(self.live() =~= pruned(live0.take(0)));
        let mut rev = reversed(all);
        while rev.len() > 0
            invariant
                rev@.len() <= n,
                n == orig.len(),
                n == live0.len(),
                forall|j: int| 0 <= j < rev@.len() ==> #[trigger] rev@[j] == orig[n - 1 - j],
                forall|j: int| 0 <= j < n ==> #[trigger] live0[j] == (orig[j].entity, orig[j].state, orig[j].name@),
                self.live() == pruned(live0.take(n - rev@.len())),
                self.same_setting(*old(self)),
            decreases rev.len(),
        {
            let k = n - rev.len();
            let w = rev.pop().unwrap();
            assert(w == orig[k as int]);
            assert(live0.take(k + 1).drop_last() =~= live0.take(k as int));
            if w.state.active {
                let ghost before = self.live();
                self.entities.push(w);
                assert(self.live() =~= before.push(live0[k as int]));
            }
        }
        assert(live0.take(n as int) =~= live0);
    }

    /// Runs every live entity's update once, in order, and gathers the events.
    fn update_pass(&mut self, delta_time: u64) -> (r: Vec<EntityEvent>)
        ensures
            updated_all(old(self).live(), old(self).frame_context(delta_time), final(self).live(), r@),
            final(self).same_setting(*old(self)),
    {
        let n = self.entities.len();
        let ghost live0 = self.live();
        let ghost ctx0 = self.frame_context(delta_time);
        let ghost mut parts: Seq<Seq<EntityEvent>> = Seq::empty();
        let mut events: Vec<EntityEvent> = Vec::new();
        let mut i: usize = 0;
        while i < n
            invariant
                0 <= i <= n,
                n == self.entities@.len(),
                n == live0.len(),
                parts.len() == i,
                events@ == parts.flatten(),
                ctx0 == self.frame_context(delta_time),
                forall|j: int|
                    0 <= j < i ==> update_rel(
                        #[trigger] live0[j].0,
                        live0[j].1,
                        ctx0,
                        self.live()[j].0,
                        self.live()[j].1,
                        parts[j],
                    ),
                forall|j: int| i <= j < n ==> #[trigger] self.live()[j] == live0[j],
                forall|j: int| 0 <= j < i ==> #[trigger] self.live()[j].2 == live0[j].2,
                self.same_setting(*old(self)),
            decreases n - i,
        {
            let ghost live_before = self.live();
            let ctx = GameState {
                delta_time,
                keyboard: &self.keyboard,
                screen_width: self.width,
                screen_height: self.height,
                loop_path: &self.loop_path,
            };
            let w = &mut self.entities[i];
            let mut evs = w.entity.update(&ctx, &mut w.state);
            proof {
                assert(ctx == ctx0);
                parts.lemma_flatten_push(evs@);
                let ghost parts_before = parts;
                parts = parts.push(evs@);
                assert forall|j: int| 0 <= j < n && j != i implies #[trigger] self.live()[j] == live_before[j] by {
                }
                assert forall|j: int| 0 <= j < i + 1 implies update_rel(
                    #[trigger] live0[j].0,
                    live0[j].1,
                    ctx0,
                    self.live()[j].0,
                    self.live()[j].1,
                    parts[j],
                ) by {
                    if j < i {
                        assert(parts[j] == parts_before[j]);
                        assert(self.live()[j] == live_before[j]);
                    } else {
                        assert(live_before[j] == live0[j]);
                    }
                }
                assert(self.live()[i as int].2 == live_before[i as int].2);
                assert forall|j: int| 0 <= j < i + 1 implies #[trigger] self.live()[j].2 == live0[j].2 by {
                    if j < i {
                        assert(self.live()[j] == live_before[j]);
                    }
                }
            }
            events.append(&mut evs);
            i = i + 1;
        }
        events
    }

    /// One frame of simulation for `delta_time` milliseconds: every entity
    /// updates, the update events are applied, the collision pass runs over
    /// what is then live, its events are applied, and only then are the
    /// inactive entities dropped.
    pub fn update_entities_with(&mut self, delta_time: u64)
        ensures
            exists|mid: Seq<Slot>, evs: Seq<EntityEvent>|
                updated_all(old(self).live(), old(self).frame_context(delta_time), mid, evs)
                    && final(self).live() == frame_end(mid, evs, old(self).height),
            final(self).same_setting(*old(self)),
    {
        let events = self.update_pass(delta_time);
        let ghost mid = self.live();
        let ghost evs = events@;
        self.handle_event(events);
        self.check_collisions();
        self.prune_inactive();
        assert(updated_all(old(self).live(), old(self).frame_context(delta_time), mid, evs));
        assert(self.live() == frame_end(mid, evs, old(self).height));
    }

    /// One frame of simulation for the time since the previous one, by the
    /// clock.
    pub fn update_entities(&mut self)
        ensures
            exists|mid: Seq<Slot>, evs: Seq<EntityEvent>|
                updated_all(
                    old(self).live(),
                    old(self).frame_context(time::elapsed(old(self).last_update_time, final(self).last_update_time)),
                    mid,
                    evs,
                ) && final(self).live() == frame_end(mid, evs, old(self).height),
            final(self).keyboard == old(self).keyboard,
            final(self).running == old(self).running,
            final(self).render_hitboxes == old(self).render_hitboxes,
            final(self).width == old(self).width,
            final(self).height == old(self).height,
            final(self).loop_path == old(self).loop_path,
    {
        let delta_time = time::since(&mut self.last_update_time);
        self.update_entities_with(delta_time);
    }

    /// The start of a frame: this frame's input edges are forgotten.
    pub fn frame_start(&mut self)
        ensures
            final(self).keyboard@ == crate::keyboard::key_step(old(self).keyboard@, crate::keyboard::KeyInput::FrameStart),
            final(self).live() == old(self).live(),
            final(self).running == old(self).running,
    {
        self.keyboard.frame_start();
    }

    /// Takes one input event: a close request or the escape key stops the
    /// engine; any other key going down or up is recorded.
    pub fn handle_input(&mut self, event: InputEvent)
        ensures
            final(self).live() == old(self).live(),
            match event {
                InputEvent::CloseRequested => !final(self).running && final(self).keyboard == old(self).keyboard,
                InputEvent::KeyPressed(Key::Escape) => !final(self).running && final(self).keyboard == old(self).keyboard,
                InputEvent::KeyPressed(k) => final(self).running == old(self).running && final(self).keyboard@
                    == crate::keyboard::key_step(old(self).keyboard@, crate::keyboard::KeyInput::Down(k)),
                InputEvent::KeyReleased(k) => final(self).running == old(self).running && final(self).keyboard@
                    == crate::keyboard::key_step(old(self).keyboard@, crate::keyboard::KeyInput::Up(k)),
            },
    {
        match event {
            InputEvent::CloseRequested | InputEvent::KeyPressed(Key::Escape) => {
                self.running = false;
            },
            InputEvent::KeyPressed(code) => self.keyboard.set_keydown(code),
            InputEvent::KeyReleased(code) => self.keyboard.clear_keydown(code),
        }
    }

    /// One directed test between two wrappers: when `first` hits `second`,
    /// `first` responds, which may change its own entity and record and the
    /// record of `second`.
    pub fn check_collision_between(first: &mut EntityWrapper, second: &mut EntityWrapper) -> (r: Vec<EntityEvent>)
        ensures
            final(first).name == old(first).name,
            final(second).name == old(second).name,
            final(second).entity == old(second).entity,
            fires(old(first).entity, old(first).state, old(second).entity, old(second).state) ==> ((
                final(first).entity,
                final(first).state,
                final(second).state,
                r@,
            ) == collide_of(old(first).entity, old(first).state, old(second).state)),
            !fires(old(first).entity, old(first).state, old(second).entity, old(second).state) ==> (
                *final(first) == *old(first) && final(second).state == old(second).state && r@.len() == 0),
    {
        if let Some(layer) = first.entity.collision_layers() {
            let targets = second.entity.collides_with_layers();
            let mut found = false;
            let mut i: usize = 0;
            while i < targets.len()
                invariant
                    0 <= i <= targets.len(),
                    found == targets@.take(i as int).contains(layer),
                decreases targets.len() - i,
            {
                assert(targets@.take(i + 1) =~= targets@.take(i as int).push(targets@[i as int]));
                if targets[i] == layer {
                    found = true;
                }
                i = i + 1;
            }
            assert(targets@.take(i as int) =~= targets@);
            if found && first.entity.intersects_with(&first.state, &second.entity, &second.state) {
                return first.entity.collided(&mut first.state, &mut second.state);
            }
        }
        Vec::new()
    }
}

} // verus!
