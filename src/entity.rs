use vstd::prelude::*;
use crate::bullet::Bullet;
use crate::enemies::{enemy_layer, enemy_targets, hit, Enemy1, Enemy2};
use crate::enemy_spawner::{spawner_stepped, EnemySpawner};
use crate::geometry::{boxes_overlap, default_state, overlaps, CollisionLayer, EntityState};
use crate::keyboard::KeyboardState;
use crate::player::Player;
use crate::you_lost::{restart_stepped, YouLost};

verus! {

/// What an entity's update sees of the frame.
pub struct GameState<'a> {
    /// Milliseconds since the previous frame.
    pub delta_time: u64,
    pub keyboard: &'a KeyboardState,
    pub screen_width: i64,
    pub screen_height: i64,
    /// One turn of the enemies' loop path: for each milliradian of angle, the
    /// sine and cosine of that angle times the loop radius, in sub-pixels.
    pub loop_path: &'a Vec<(i64, i64)>,
}

/// Every kind of entity in the game.
pub enum Entity {
    Bullet(Bullet),
    Player(Player),
    Enemy1(Enemy1),
    Enemy2(Enemy2),
    EnemySpawner(EnemySpawner),
    YouLost(YouLost),
}

/// A change to the set of live entities, asked for by an entity's callback and
/// applied once the pass that ran the callback is over.
pub enum EntityEvent {
    ClearAllEntities,
    SpawnEntity(Entity),
}

/// Keys of the sprites the game draws.
#[derive(PartialEq, Eq, Structural, Clone, Copy, Debug, Hash)]
pub enum GraphicsEnum {
    Bullet,
    Player,
    Enemy1,
    Enemy2,
    Enemy3,
    YouLost,
}

/// A type whose values name loaded graphics.
pub trait TGraphicIndex {
}

impl TGraphicIndex for GraphicsEnum {
}

/// The side an entity is on, if any.
pub open spec fn layer_of(e: Entity) -> Option<CollisionLayer> {
    match e {
        Entity::Bullet(b) => Some(b.layer()),
        Entity::Player(_) => Some(CollisionLayer::Player),
        Entity::Enemy1(_) => Some(CollisionLayer::Enemy),
        Entity::Enemy2(_) => Some(CollisionLayer::Enemy),
        _ => None,
    }
}

/// The sides an entity can be hit by.
pub open spec fn targets_of(e: Entity) -> Seq<CollisionLayer> {
    match e {
        Entity::Bullet(b) => seq![b.target()],
        Entity::Player(_) => seq![CollisionLayer::Enemy],
        Entity::Enemy1(_) => seq![CollisionLayer::Player],
        Entity::Enemy2(_) => seq![CollisionLayer::Player],
        _ => Seq::empty(),
    }
}

/// An entity's name.
pub open spec fn name_of(e: Entity) -> Seq<char> {
    match e {
        Entity::Bullet(_) => "Bullet"@,
        Entity::Player(_) => "Player"@,
        Entity::Enemy1(_) => "Enemy type 1"@,
        Entity::Enemy2(_) => "Enemy type 2"@,
        Entity::EnemySpawner(_) => "Enemy spawner"@,
        Entity::YouLost(_) => "You lost!"@,
    }
}

/// An entity and its first record, once registered on a screen of the given
/// height.
pub open spec fn initial_of(e: Entity, screen_height: i64) -> (Entity, EntityState) {
    match e {
        Entity::Bullet(b) => (e, b.initial()),
        Entity::Player(_) => (e, Player::initial(screen_height)),
        Entity::Enemy1(en) => (Entity::Enemy1(en.initial(screen_height).0), en.initial(screen_height).1),
        Entity::Enemy2(en) => (Entity::Enemy2(en.initial(screen_height).0), en.initial(screen_height).1),
        _ => (e, default_state()),
    }
}

/// What a hit does, with `att` hitting from `s` a defender at `other`: the
/// attacker, both records and the events.
pub open spec fn collide_of(att: Entity, s: EntityState, other: EntityState) -> (Entity, EntityState, EntityState, Seq<EntityEvent>) {
    match att {
        Entity::Bullet(_) => (att, EntityState { active: false, ..s }, other, Seq::empty()),
        Entity::Player(p) => {
            let (after, s2, o2, evs) = p.struck(s, other);
            (Entity::Player(after), s2, o2, evs)
        },
        Entity::Enemy1(en) => (Entity::Enemy1(Enemy1 { health: hit(en.health, s).0, ..en }), hit(en.health, s).1, other, Seq::empty()),
        Entity::Enemy2(en) => (Entity::Enemy2(Enemy2 { health: hit(en.health, s).0, ..en }), hit(en.health, s).1, other, Seq::empty()),
        _ => (att, s, other, Seq::empty()),
    }
}

/// Whether `att` at `s` hits `def` at `ds`: the attacker is on a side that
/// the defender can be hit by, and the boxes overlap.
pub open spec fn fires(att: Entity, s: EntityState, def: Entity, ds: EntityState) -> bool {
    match layer_of(att) {
        Some(l) => targets_of(def).contains(l) && overlaps(s, ds),
        None => false,
    }
}

/// What one frame's update does to an entity: exactly its motion for the
/// kinds that draw no numbers, and what holds whatever is drawn for the
/// spawner and the defeat screen.
pub open spec fn update_rel(e: Entity, s: EntityState, ctx: GameState, e2: Entity, s2: EntityState, evs: Seq<EntityEvent>) -> bool {
    match e {
        Entity::Bullet(b) => e2 == e && s2 == b.moved(s, ctx) && evs == Seq::<EntityEvent>::empty(),
        Entity::Player(p) => {
            let (after, t, ev) = p.updated(s, ctx);
            e2 == Entity::Player(after) && s2 == t && evs == ev
        },
        Entity::Enemy1(en) => {
            let (en2, t, ev) = en.updated(s, ctx);
            e2 == Entity::Enemy1(en2) && s2 == t && evs == ev
        },
        Entity::Enemy2(en) => {
            let (en2, t, ev) = en.updated(s, ctx);
            e2 == Entity::Enemy2(en2) && s2 == t && evs == ev
        },
        Entity::EnemySpawner(sp) => s2 == s && (e2 matches Entity::EnemySpawner(sp2) && spawner_stepped(sp, ctx, sp2, evs)),
        Entity::YouLost(_) => e2 == e && restart_stepped(s, ctx, s2, evs),
    }
}

impl Entity {
    /// Runs one frame of this entity's behaviour on its record.
    pub fn update(&mut self, game_state: &GameState, state: &mut EntityState) -> (r: Vec<EntityEvent>)
        ensures
            update_rel(*old(self), *old(state), *game_state, *final(self), *final(state), r@),
    {
        match self {
            Entity::Bullet(b) => b.update(game_state, state),
            Entity::Player(p) => p.update(game_state, state),
            Entity::Enemy1(en) => en.update(game_state, state),
            Entity::Enemy2(en) => en.update(game_state, state),
            Entity::EnemySpawner(sp) => sp.update(game_state, state),
            Entity::YouLost(y) => y.update(game_state, state),
        }
    }

    pub fn identifying_string(&self) -> (r: String)
        ensures
            r@ == name_of(*self),
    {
        match self {
            Entity::Bullet(_) => {
                proof { reveal_strlit("Bullet"); }
                "Bullet".to_owned()
            },
            Entity::Player(_) => {
                proof { reveal_strlit("Player"); }
                "Player".to_owned()
            },
            Entity::Enemy1(_) => {
                proof { reveal_strlit("Enemy type 1"); }
                "Enemy type 1".to_owned()
            },
            Entity::Enemy2(_) => {
                proof { reveal_strlit("Enemy type 2"); }
                "Enemy type 2".to_owned()
            },
            Entity::EnemySpawner(_) => {
                proof { reveal_strlit("Enemy spawner"); }
                "Enemy spawner".to_owned()
            },
            Entity::YouLost(_) => {
                proof { reveal_strlit("You lost!"); }
                "You lost!".to_owned()
            },
        }
    }

    /// No entity of the game names a sprite to draw for it by default.
    pub fn default_graphic(&self) -> (r: Option<GraphicsEnum>)
        ensures
            r is None,
    {
        None
    }

    pub fn collision_layers(&self) -> (r: Option<CollisionLayer>)
        ensures
            r == layer_of(*self),
    {
        match self {
            Entity::Bullet(b) => b.collision_layers(),
            Entity::Player(p) => p.collision_layers(),
            Entity::Enemy1(_) => enemy_layer(),
            Entity::Enemy2(_) => enemy_layer(),
            _ => None,
        }
    }

    pub fn collides_with_layers(&self) -> (r: Vec<CollisionLayer>)
        ensures
            r@ == targets_of(*self),
    {
        match self {
            Entity::Bullet(b) => b.collides_with_layers(),
            Entity::Player(p) => p.collides_with_layers(),
            Entity::Enemy1(_) => enemy_targets(),
            Entity::Enemy2(_) => enemy_targets(),
            _ => Vec::new(),
        }
    }

    pub fn get_initial_state(&mut self, screen_height: i64) -> (r: EntityState)
        ensures
            (*final(self), r) == initial_of(*old(self), screen_height),
    {
        match self {
            Entity::Bullet(b) => b.get_initial_state(),
            Entity::Player(p) => p.get_initial_state(screen_height),
            Entity::Enemy1(en) => en.get_initial_state(screen_height),
            Entity::Enemy2(en) => en.get_initial_state(screen_height),
            _ => EntityState::default(),
        }
    }

    /// The default overlap test between this entity at `self_state` and
    /// another at `other_state`.
    pub fn intersects_with(&self, self_state: &EntityState, _other: &Entity, other_state: &EntityState) -> (r: bool)
        ensures
            r == overlaps(*self_state, *other_state),
    {
        boxes_overlap(self_state, other_state)
    }

    /// Runs this entity's response to hitting a defender whose record is
    /// `other_state`.
    pub fn collided(&mut self, self_state: &mut EntityState, other_state: &mut EntityState) -> (r: Vec<EntityEvent>)
        ensures
            (*final(self), *final(self_state), *final(other_state), r@) == collide_of(
                *old(self),
                *old(self_state),
                *old(other_state),
            ),
    {
        match self {
            Entity::Bullet(b) => b.collided(self_state, other_state),
            Entity::Player(p) => p.collided(self_state, other_state),
            Entity::Enemy1(en) => en.collided(self_state),
            Entity::Enemy2(en) => en.collided(self_state),
            _ => Vec::new(),
        }
    }
}

} // verus!
