//! The simulation driver: owns the insertion-ordered entity collection and
//! runs the fixed per-frame pipeline — input dispatch, per-entity update,
//! spawn-event application, pairwise collision, stable compaction, render,
//! and the timed enemy spawn.

use vstd::prelude::*;
use crate::enemy::{Enemy, SPAWN_INSET, ENEMY_SPEED, ENEMY_SPEED_JITTER};
use crate::entity::{Entity, EntityBase, EntityEvent, InputEvent, Rect};
use crate::player::Player;
use crate::texture::{ComponentTexture, DrawCmd};

verus! {

/// Least number of frames between two timed enemy spawns.
pub const SPAWN_DELAY_BASE: u32 = 30;

/// The random addition to the spawn delay lies in `[0, SPAWN_DELAY_JITTER)`.
pub const SPAWN_DELAY_JITTER: u32 = 60;

/// Whether an event carries a well-formed bullet (trivially true otherwise).
pub open spec fn event_wf(ev: EntityEvent) -> bool {
    match ev {
        EntityEvent::SpawnBullet(b) => b.wf(),
        EntityEvent::Empty => true,
    }
}

/// Every entity of the collection is well-formed.
pub open spec fn entities_wf(s: Seq<Entity>) -> bool {
    forall|i: int| 0 <= i < s.len() ==> (#[trigger] s[i]).wf()
}

/// Every event of a batch is well-formed.
pub open spec fn events_wf(s: Seq<EntityEvent>) -> bool {
    forall|i: int| 0 <= i < s.len() ==> event_wf(#[trigger] s[i])
}

/// The collection after every entity took its own frame step.
pub open spec fn updated_entities(s: Seq<Entity>, now: u64) -> Seq<Entity> {
    s.map_values(|e: Entity| e.spec_update(now).0)
}

/// The events the entities emitted during that step, in entity order.
pub open spec fn update_events(s: Seq<Entity>, now: u64) -> Seq<EntityEvent> {
    s.map_values(|e: Entity| e.spec_update(now).1)
}

/// The new entities a batch of events asks for, in event order.
pub open spec fn spawned_entities(events: Seq<EntityEvent>) -> Seq<Entity>
    decreases events.len(),
{
    if events.len() == 0 {
        Seq::empty()
    } else {
        let rest = spawned_entities(events.drop_last());
        match events.last() {
            EntityEvent::SpawnBullet(b) => rest.push(Entity::Bullet(b)),
            EntityEvent::Empty => rest,
        }
    }
}

/// The collection after one input event reached every entity.
pub open spec fn dispatched_entities(s: Seq<Entity>, event: InputEvent) -> Seq<Entity> {
    s.map_values(|e: Entity| e.spec_handle_event(event))
}

/// The collection after a whole batch of input events, dispatched in order.
pub open spec fn dispatched_all(s: Seq<Entity>, events: Seq<InputEvent>) -> Seq<Entity>
    decreases events.len(),
{
    if events.len() == 0 {
        s
    } else {
        dispatched_entities(dispatched_all(s, events.drop_last()), events.last())
    }
}

/// The surviving entities, in their original relative order: compaction is
/// a stable filter on liveness, never a reorder.
pub open spec fn compact(s: Seq<Entity>) -> Seq<Entity> {
    s.filter(|e: Entity| e.alive())
}

/// The collection after every entity rendered (animation counters advance).
pub open spec fn rendered_entities(s: Seq<Entity>) -> Seq<Entity> {
    s.map_values(|e: Entity| e.spec_rendered())
}

/// All drawing requests of one frame, in entity order.
pub open spec fn render_cmds_of(s: Seq<Entity>) -> Seq<DrawCmd>
    decreases s.len(),
{
    if s.len() == 0 {
        Seq::empty()
    } else {
        render_cmds_of(s.drop_last()) + s.last().spec_render_cmds()
    }
}

/// Strict axis-aligned rectangle overlap of two bodies: on both axes the
/// larger start lies strictly below the smaller end, so touching edges do
/// not count as a collision.
pub open spec fn boxes_overlap(a: EntityBase, b: EntityBase) -> bool {
    &&& (if a.x > b.x {
        a.x as int
    } else {
        b.x as int
    }) < (if a.x + a.width < b.x + b.width {
        a.x + a.width
    } else {
        b.x + b.width
    })
    &&& (if a.y > b.y {
        a.y as int
    } else {
        b.y as int
    }) < (if a.y + a.height < b.y + b.height {
        a.y + a.height
    } else {
        b.y + b.height
    })
}

/// The collision rule: a hit is only ever recorded between an enemy ship
/// and a player bullet, in either order. Same-side pairs, ship pairs and
/// bullet pairs never hit.
pub open spec fn hit_rule(a: Entity, b: Entity) -> bool {
    ||| (!a.spec_is_bullet() && a.spec_is_enemy() && b.spec_is_bullet() && b.spec_is_player())
    ||| (a.spec_is_bullet() && a.spec_is_player() && !b.spec_is_bullet() && b.spec_is_enemy())
}

/// Whether two entities are a hit candidate regardless of liveness: the
/// rule holds, both expose a body, and the bodies strictly overlap.
pub open spec fn could_hit(a: Entity, b: Entity) -> bool {
    &&& hit_rule(a, b)
    &&& a.spec_body() is Some
    &&& b.spec_body() is Some
    &&& boxes_overlap(a.spec_body()->Some_0, b.spec_body()->Some_0)
}

/// Whether processing the ordered pair `(i, j)` of the scan records a hit:
/// both slots still alive, the rule holds, both expose a body, and the
/// bodies strictly overlap.
pub open spec fn pair_hits(s: Seq<Entity>, i: int, j: int) -> bool {
    &&& 0 <= i < j < s.len()
    &&& s[i].alive() && s[j].alive()
    &&& could_hit(s[i], s[j])
}

/// The collection after the scan processed the pair `(i, j)`: both
/// participants flagged invalid on a hit, untouched otherwise.
pub open spec fn collide_step(s: Seq<Entity>, i: int, j: int) -> Seq<Entity> {
    if pair_hits(s, i, j) {
        s.update(i, s[i].killed()).update(j, s[j].killed())
    } else {
        s
    }
}

/// The collection after the scan processed the pairs `(i, i+1) .. (i, j-1)`.
pub open spec fn collide_row(s: Seq<Entity>, i: int, j: int) -> Seq<Entity>
    decreases j - i,
{
    if j <= i + 1 {
        s
    } else {
        collide_step(collide_row(s, i, j - 1), i, j - 1)
    }
}

/// The collection after the scan processed every pair with first index
/// below `i`, rows running to `n`.
pub open spec fn collide_upto(s: Seq<Entity>, n: int, i: int) -> Seq<Entity>
    decreases i,
{
    if i <= 0 {
        s
    } else {
        collide_row(collide_upto(s, n, i - 1), i - 1, n)
    }
}

/// One whole collision pass: every unordered pair processed once, in scan
/// order, against the liveness flags as they stand mid-pass.
pub open spec fn collision_pass(s: Seq<Entity>) -> Seq<Entity> {
    collide_upto(s, s.len() as int, s.len() as int)
}

/// Processing one pair preserves the collection's length.
pub proof fn lemma_collide_step_len(s: Seq<Entity>, i: int, j: int)
    ensures
        collide_step(s, i, j).len() == s.len(),
{
}

/// Processing one row preserves the collection's length.
pub proof fn lemma_collide_row_len(s: Seq<Entity>, i: int, j: int)
    ensures
        collide_row(s, i, j).len() == s.len(),
    decreases j - i,
{
    if j <= i + 1 {
    } else {
        lemma_collide_row_len(s, i, j - 1);
        lemma_collide_step_len(collide_row(s, i, j - 1), i, j - 1);
    }
}

/// The whole pass preserves the collection's length.
pub proof fn lemma_collide_upto_len(s: Seq<Entity>, n: int, i: int)
    ensures
        collide_upto(s, n, i).len() == s.len(),
    decreases i,
{
    if i <= 0 {
    } else {
        lemma_collide_upto_len(s, n, i - 1);
        lemma_collide_row_len(collide_upto(s, n, i - 1), i - 1, n);
    }
}

pub struct Simulation {
    pub entities: Vec<Entity>,
    /// Frames left until the next timed enemy spawn.
    pub enemy_spawn_time: u32,
    pub viewport: Rect,
    /// Templates for the shared visual resources of spawned enemies: every
    /// enemy gets its own animation counters over the same image data.
    pub enemy_engine_texture: ComponentTexture,
    pub enemy_body_texture: ComponentTexture,
    pub enemy_projectile_texture: ComponentTexture,
    /// False once the quit signal arrived; the terminal state.
    pub running: bool,
}

impl Simulation {
    pub open spec fn wf(self) -> bool {
        &&& self.viewport.wf()
        &&& self.viewport.h >= 2 * SPAWN_INSET
        &&& entities_wf(self.entities@)
        &&& self.enemy_engine_texture.wf()
        &&& self.enemy_body_texture.wf()
        &&& self.enemy_projectile_texture.wf()
    }

    /// Everything but the entity collection and the spawn countdown.
    pub open spec fn same_config(self, other: Simulation) -> bool {
        &&& self.viewport == other.viewport
        &&& self.enemy_engine_texture == other.enemy_engine_texture
        &&& self.enemy_body_texture == other.enemy_body_texture
        &&& self.enemy_projectile_texture == other.enemy_projectile_texture
    }

    /// A fresh simulation: the player alone, running, with a random initial
    /// spawn countdown below `SPAWN_DELAY_JITTER` (possibly zero, in which
    /// case the first timed-spawn check already constructs an enemy).
    pub fn new(
        viewport: Rect,
        player: Player,
        enemy_engine_texture: ComponentTexture,
        enemy_body_texture: ComponentTexture,
        enemy_projectile_texture: ComponentTexture,
    ) -> (s: Simulation)
        requires
            viewport.wf(),
            viewport.h >= 2 * SPAWN_INSET,
            player.wf(),
            enemy_engine_texture.wf(),
            enemy_body_texture.wf(),
            enemy_projectile_texture.wf(),
        ensures
            s.wf(),
            s.entities@ =~= seq![Entity::Player(player)],
            s.enemy_spawn_time < SPAWN_DELAY_JITTER,
            s.viewport == viewport,
            s.enemy_engine_texture == enemy_engine_texture,
            s.enemy_body_texture == enemy_body_texture,
            s.enemy_projectile_texture == enemy_projectile_texture,
            s.running,
    {
        let mut entities: Vec<Entity> = Vec::new();
        entities.push(Entity::Player(player));
        let enemy_spawn_time = rand::random::<u32>() % SPAWN_DELAY_JITTER;
        proof {
            vstd::arithmetic::div_mod::lemma_mod_bound(
                enemy_spawn_time as int,
                SPAWN_DELAY_JITTER as int,
            );
        }
        Simulation {
            entities,
            enemy_spawn_time,
            viewport,
            enemy_engine_texture,
            enemy_body_texture,
            enemy_projectile_texture,
            running: true,
        }
    }

    /// Stop the simulation: the one transition to the terminal state, taken
    /// on the quit signal.
    pub fn terminate(&mut self)
        ensures
            *final(self) == (Simulation { running: false, ..*old(self) }),
    {
        self.running = false;
    }

    /// Dispatch one input event to every entity, in collection order.
    pub fn handle_event(&mut self, event: InputEvent)
        requires
            old(self).wf(),
        ensures
            final(self).wf(),
            final(self).entities@ == dispatched_entities(old(self).entities@, event),
            final(self).same_config(*old(self)),
            final(self).enemy_spawn_time == old(self).enemy_spawn_time,
            final(self).running == old(self).running,
    {
        let ghost orig = self.entities@;
        let n = self.entities.len();
        let mut i: usize = 0;
        while i < n
            invariant
                i <= n,
                n == self.entities@.len(),
                n == orig.len(),
                entities_wf(self.entities@),
                forall|j: int| 0 <= j < i ==> self.entities@[j] == (#[trigger] orig[j]).spec_handle_event(event),
                forall|j: int| i <= j < n ==> self.entities@[j] == #[trigger] orig[j],
                self.same_config(*old(self)),
                self.enemy_spawn_time == old(self).enemy_spawn_time,
                self.running == old(self).running,
            decreases n - i,
        {
            self.entities[i].handle_event(event);
            i += 1;
        }
        proof {
            assert(self.entities@ =~= dispatched_entities(orig, event));
        }
    }

    /// Call `update` on every entity in collection order, collecting each
    /// entity's event.
    pub fn update(&mut self, now: u64) -> (events: Vec<EntityEvent>)
        requires
            old(self).wf(),
        ensures
            final(self).wf(),
            final(self).entities@ == updated_entities(old(self).entities@, now),
            events@ == update_events(old(self).entities@, now),
            events_wf(events@),
            final(self).same_config(*old(self)),
            final(self).enemy_spawn_time == old(self).enemy_spawn_time,
            final(self).running == old(self).running,
    {
        let ghost orig = self.entities@;
        let mut events: Vec<EntityEvent> = Vec::new();
        let n = self.entities.len();
        let mut i: usize = 0;
        while i < n
            invariant
                i <= n,
                n == self.entities@.len(),
                n == orig.len(),
                events@.len() == i,
                entities_wf(self.entities@),
                forall|j: int| 0 <= j < i ==> self.entities@[j] == (#[trigger] orig[j]).spec_update(now).0,
                forall|j: int| 0 <= j < i ==> events@[j] == (#[trigger] orig[j]).spec_update(now).1,
                forall|j: int| 0 <= j < i ==> event_wf(#[trigger] events@[j]),
                forall|j: int| i <= j < n ==> self.entities@[j] == #[trigger] orig[j],
                self.same_config(*old(self)),
                self.enemy_spawn_time == old(self).enemy_spawn_time,
                self.running == old(self).running,
            decreases n - i,
        {
            let ev = self.entities[i].update(now);
            events.push(ev);
            i += 1;
        }
        proof {
            assert(self.entities@ =~= updated_entities(orig, now));
            assert(events@ =~= update_events(orig, now));
        }
        events
    }

    /// Materialize a batch of spawn events: each requested bullet is
    /// appended to the collection, in the order the events were collected.
    pub fn apply_events(&mut self, events: &Vec<EntityEvent>)
        requires
            old(self).wf(),
            events_wf(events@),
        ensures
            final(self).wf(),
            final(self).entities@ == old(self).entities@ + spawned_entities(events@),
            final(self).same_config(*old(self)),
            final(self).enemy_spawn_time == old(self).enemy_spawn_time,
            final(self).running == old(self).running,
    {
        let ghost orig = self.entities@;
        let n = events.len();
        let mut i: usize = 0;
        while i < n
            invariant
                i <= n,
                n == events@.len(),
                events_wf(events@),
                entities_wf(self.entities@),
                self.entities@ == orig + spawned_entities(events@.take(i as int)),
                self.same_config(*old(self)),
                self.enemy_spawn_time == old(self).enemy_spawn_time,
                self.running == old(self).running,
            decreases n - i,
        {
            proof {
                lemma_spawned_take_step(events@, i as int);
            }
            match events[i] {
                EntityEvent::SpawnBullet(b) => {
                    self.entities.push(Entity::Bullet(b));
                }
                EntityEvent::Empty => {}
            }
            i += 1;
        }
        proof {
            assert(events@.take(n as int) =~= events@);
        }
    }

    /// The pairwise collision scan. Each unordered pair is looked at once,
    /// in order; a pair is skipped when either slot was already invalid
    /// (including slots invalidated earlier in this same pass); on a hit
    /// both bodies are flagged invalid. No health, no damage: any recorded
    /// contact is lethal to both participants.
    pub fn handle_collision(&mut self)
        requires
            old(self).wf(),
        ensures
            final(self).wf(),
            final(self).entities@ == collision_pass(old(self).entities@),
            final(self).entities@.len() == old(self).entities@.len(),
            final(self).same_config(*old(self)),
            final(self).enemy_spawn_time == old(self).enemy_spawn_time,
            final(self).running == old(self).running,
    {
        let ghost orig = self.entities@;
        let size = self.entities.len();
        let mut i: usize = 0;
        while i < size
            invariant
                i <= size,
                size == orig.len(),
                size == self.entities@.len(),
                entities_wf(self.entities@),
                self.entities@ == collide_upto(orig, size as int, i as int),
                self.same_config(*old(self)),
                self.enemy_spawn_time == old(self).enemy_spawn_time,
                self.running == old(self).running,
            decreases size - i,
        {
            let mut j: usize = i + 1;
            while j < size
                invariant
                    i < j <= size,
                    i < size,
                    size == orig.len(),
                    size == self.entities@.len(),
                    entities_wf(self.entities@),
                    self.entities@ == collide_row(
                        collide_upto(orig, size as int, i as int),
                        i as int,
                        j as int,
                    ),
                    self.same_config(*old(self)),
                    self.enemy_spawn_time == old(self).enemy_spawn_time,
                    self.running == old(self).running,
                decreases size - j,
            {
                let ghost prev = self.entities@;
                let e1 = self.entities[i];
                let e2 = self.entities[j];
                if e1.valid() && e2.valid() {
                    let rule = !e1.is_bullet() && e1.is_enemy() && e2.is_bullet() && e2.is_player()
                        || e1.is_bullet() && e1.is_player() && !e2.is_bullet() && e2.is_enemy();
                    if rule {
                        if let Some(b1) = e1.base() {
                            if let Some(b2) = e2.base() {
                                let start_x = if b1.x > b2.x {
                                    b1.x
                                } else {
                                    b2.x
                                };
                                let end_x = if b1.x + b1.width < b2.x + b2.width {
                                    b1.x + b1.width
                                } else {
                                    b2.x + b2.width
                                };
                                let start_y = if b1.y > b2.y {
                                    b1.y
                                } else {
                                    b2.y
                                };
                                let end_y = if b1.y + b1.height < b2.y + b2.height {
                                    b1.y + b1.height
                                } else {
                                    b2.y + b2.height
                                };
                                if start_x < end_x && start_y < end_y {
                                    self.entities[i].set_dead();
                                    self.entities[j].set_dead();
                                }
                            }
                        }
                    }
                }
                proof {
                    assert(self.entities@ == collide_step(prev, i as int, j as int));
                    assert(collide_row(
                        collide_upto(orig, size as int, i as int),
                        i as int,
                        j as int + 1,
                    ) == collide_step(prev, i as int, j as int));
                }
                j += 1;
            }
            proof {
                assert(collide_upto(orig, size as int, i as int + 1) == collide_row(
                    collide_upto(orig, size as int, i as int),
                    i as int,
                    size as int,
                ));
            }
            i += 1;
        }
    }

    /// The compaction pass: drop every slot whose entity is no longer
    /// alive, keeping the survivors in their original relative order.
    pub fn clear(&mut self)
        requires
            old(self).wf(),
        ensures
            final(self).wf(),
            final(self).entities@ == compact(old(self).entities@),
            forall|k: int|
                0 <= k < final(self).entities@.len()
                    ==> (#[trigger] final(self).entities@[k]).alive(),
            final(self).same_config(*old(self)),
            final(self).enemy_spawn_time == old(self).enemy_spawn_time,
            final(self).running == old(self).running,
    {
        broadcast use vstd::seq_lib::group_filter_ensures;

        let n = self.entities.len();
        let mut kept: Vec<Entity> = Vec::new();
        let mut i: usize = 0;
        while i < n
            invariant
                i <= n,
                n == self.entities@.len(),
                self.entities@ == old(self).entities@,
                entities_wf(self.entities@),
                entities_wf(kept@),
                kept@ == compact(self.entities@.take(i as int)),
                *self == *old(self),
            decreases n - i,
        {
            proof {
                lemma_compact_take_step(self.entities@, i as int);
            }
            let e = self.entities[i];
            if e.valid() {
                kept.push(e);
            }
            i += 1;
        }
        proof {
            assert(self.entities@.take(n as int) =~= self.entities@);
        }
        self.entities = kept;
    }

    /// Render every entity in collection order, collecting the drawing
    /// requests. Only animation counters change; liveness is untouched.
    pub fn render(&mut self) -> (cmds: Vec<DrawCmd>)
        requires
            old(self).wf(),
        ensures
            final(self).wf(),
            final(self).entities@ == rendered_entities(old(self).entities@),
            cmds@ == render_cmds_of(old(self).entities@),
            forall|k: int|
                0 <= k < final(self).entities@.len()
                    ==> (#[trigger] final(self).entities@[k]).alive()
                        == old(self).entities@[k].alive(),
            final(self).same_config(*old(self)),
            final(self).enemy_spawn_time == old(self).enemy_spawn_time,
            final(self).running == old(self).running,
    {
        let ghost orig = self.entities@;
        let mut cmds: Vec<DrawCmd> = Vec::new();
        let n = self.entities.len();
        let mut i: usize = 0;
        while i < n
            invariant
                i <= n,
                n == self.entities@.len(),
                n == orig.len(),
                entities_wf(self.entities@),
                cmds@ == render_cmds_of(orig.take(i as int)),
                forall|j: int| 0 <= j < i ==> self.entities@[j] == (#[trigger] orig[j]).spec_rendered(),
                forall|j: int| 0 <= j < i ==> (#[trigger] self.entities@[j]).alive() == orig[j].alive(),
                forall|j: int| i <= j < n ==> self.entities@[j] == #[trigger] orig[j],
                self.same_config(*old(self)),
                self.enemy_spawn_time == old(self).enemy_spawn_time,
                self.running == old(self).running,
            decreases n - i,
        {
            proof {
                lemma_render_cmds_take_step(orig, i as int);
            }
            let mut sub = self.entities[i].render();
            cmds.append(&mut sub);
            i += 1;
        }
        proof {
            assert(orig.take(n as int) =~= orig);
            assert(self.entities@ =~= rendered_entities(orig));
        }
        cmds
    }

    /// The timed enemy spawn: the countdown ticks once per frame; on expiry
    /// a fresh enemy is appended and the countdown is reseeded to a random
    /// value in `[SPAWN_DELAY_BASE, SPAWN_DELAY_BASE + SPAWN_DELAY_JITTER)`.
    /// A countdown already at zero spawns on the very first check.
    pub fn spawn_enemy(&mut self, now: u64)
        requires
            old(self).wf(),
        ensures
            final(self).wf(),
            final(self).same_config(*old(self)),
            final(self).running == old(self).running,
            old(self).enemy_spawn_time > 1 ==> {
                &&& final(self).entities@ == old(self).entities@
                &&& final(self).enemy_spawn_time == old(self).enemy_spawn_time - 1
            },
            old(self).enemy_spawn_time <= 1 ==> {
                &&& final(self).entities@.len() == old(self).entities@.len() + 1
                &&& final(self).entities@.drop_last() == old(self).entities@
                &&& final(self).entities@.last() is Enemy
                &&& spawned_enemy_ok(
                    final(self).entities@.last()->Enemy_0,
                    old(self).viewport,
                    now,
                    old(self).enemy_engine_texture,
                    old(self).enemy_body_texture,
                    old(self).enemy_projectile_texture,
                )
                &&& SPAWN_DELAY_BASE <= final(self).enemy_spawn_time
                    < SPAWN_DELAY_BASE + SPAWN_DELAY_JITTER
            },
    {
        let ticked = if self.enemy_spawn_time > 0 {
            self.enemy_spawn_time - 1
        } else {
            0
        };
        if ticked == 0 {
            let enemy = Enemy::new(
                self.viewport,
                now,
                self.enemy_engine_texture,
                self.enemy_body_texture,
                self.enemy_projectile_texture,
            );
            self.entities.push(Entity::Enemy(enemy));
            let reseed = rand::random::<u32>() % SPAWN_DELAY_JITTER;
            proof {
                vstd::arithmetic::div_mod::lemma_mod_bound(
                    reseed as int,
                    SPAWN_DELAY_JITTER as int,
                );
            }
            self.enemy_spawn_time = SPAWN_DELAY_BASE + reseed;
            proof {
                assert(self.entities@.drop_last() =~= old(self).entities@);
            }
        } else {
            self.enemy_spawn_time = ticked;
        }
    }

    /// One whole frame, in the fixed pipeline order: (1) dispatch the
    /// pending input events in order, cutting the frame short on a quit
    /// signal; (2) update every entity, collecting its event; (3) append
    /// the spawned bullets, so they take part in collision this same frame;
    /// (4) the collision pass; (5) the compaction pass, so entities
    /// invalidated during collision never render this frame; (6) render,
    /// returning the frame's drawing requests in order; (7) the timed
    /// enemy spawn.
    pub fn step_frame(&mut self, events: &Vec<InputEvent>, now: u64) -> (cmds: Vec<DrawCmd>)
        requires
            old(self).wf(),
        ensures
            final(self).wf(),
            final(self).same_config(*old(self)),
            (exists|k: int| 0 <= k < events@.len() && (#[trigger] events@[k]) is Quit) ==> {
                &&& !final(self).running
                &&& cmds@ == Seq::<DrawCmd>::empty()
                &&& final(self).enemy_spawn_time == old(self).enemy_spawn_time
                &&& exists|k: int|
                    {
                        &&& 0 <= k < events@.len()
                        &&& (#[trigger] events@[k]) is Quit
                        &&& forall|j: int| 0 <= j < k ==> !((#[trigger] events@[j]) is Quit)
                        &&& final(self).entities@ == dispatched_all(
                            old(self).entities@,
                            events@.take(k),
                        )
                    }
            },
            (forall|k: int| 0 <= k < events@.len() ==> !((#[trigger] events@[k]) is Quit)) ==> {
                &&& final(self).running == old(self).running
                &&& cmds@ == render_cmds_of(frame_survivors(old(self).entities@, events@, now))
                &&& (old(self).enemy_spawn_time > 1 ==> {
                    &&& final(self).entities@ == rendered_entities(
                        frame_survivors(old(self).entities@, events@, now),
                    )
                    &&& final(self).enemy_spawn_time == old(self).enemy_spawn_time - 1
                })
                &&& (old(self).enemy_spawn_time <= 1 ==> {
                    &&& final(self).entities@.drop_last() == rendered_entities(
                        frame_survivors(old(self).entities@, events@, now),
                    )
                    &&& final(self).entities@.len() == rendered_entities(
                        frame_survivors(old(self).entities@, events@, now),
                    ).len() + 1
                    &&& final(self).entities@.last() is Enemy
                    &&& spawned_enemy_ok(
                        final(self).entities@.last()->Enemy_0,
                        old(self).viewport,
                        now,
                        old(self).enemy_engine_texture,
                        old(self).enemy_body_texture,
                        old(self).enemy_projectile_texture,
                    )
                    &&& SPAWN_DELAY_BASE <= final(self).enemy_spawn_time
                        < SPAWN_DELAY_BASE + SPAWN_DELAY_JITTER
                })
                &&& forall|k: int|
                    0 <= k < final(self).entities@.len()
                        ==> (#[trigger] final(self).entities@[k]).alive()
            },
    {
        let n = events.len();
        let mut i: usize = 0;
        while i < n
            invariant
                i <= n,
                n == events@.len(),
                self.wf(),
                self.entities@ == dispatched_all(old(self).entities@, events@.take(i as int)),
                forall|j: int| 0 <= j < i ==> !((#[trigger] events@[j]) is Quit),
                self.same_config(*old(self)),
                self.enemy_spawn_time == old(self).enemy_spawn_time,
                self.running == old(self).running,
            decreases n - i,
        {
            proof {
                lemma_dispatched_take_step(old(self).entities@, events@, i as int);
            }
            let ev = events[i];
            match ev {
                InputEvent::Quit => {
                    self.terminate();
                    return Vec::new();
                }
                _ => {
                    self.handle_event(ev);
                }
            }
            i += 1;
        }
        proof {
            assert(events@.take(n as int) =~= events@);
        }
        let entity_events = self.update(now);
        self.apply_events(&entity_events);
        self.handle_collision();
        self.clear();
        let ghost survivors = self.entities@;
        let cmds = self.render();
        let ghost rendered = self.entities@;
        self.spawn_enemy(now);
        proof {
            assert(survivors == frame_survivors(old(self).entities@, events@, now));
            assert(rendered == rendered_entities(
                frame_survivors(old(self).entities@, events@, now),
            ));
            assert(forall|k: int|
                0 <= k < rendered.len() ==> (#[trigger] rendered[k]).alive());
            assert forall|k: int|
                0 <= k < self.entities@.len() implies (#[trigger] self.entities@[k]).alive() by {
                if self.entities@.len() == rendered.len() + 1 {
                    if k < rendered.len() {
                        assert(self.entities@[k] == self.entities@.drop_last()[k]);
                    } else {
                        assert(self.entities@[k] == self.entities@.last());
                    }
                }
            }
        }
        cmds
    }
}

/// The entities surviving one frame's core pipeline — input dispatch,
/// update, spawn application, collision, compaction — before rendering.
pub open spec fn frame_survivors(s: Seq<Entity>, events: Seq<InputEvent>, now: u64) -> Seq<
    Entity,
> {
    let dispatched = dispatched_all(s, events);
    let with_spawns = updated_entities(dispatched, now) + spawned_entities(
        update_events(dispatched, now),
    );
    compact(collision_pass(with_spawns))
}

/// Unfolding step for `dispatched_all` over a growing prefix.
pub proof fn lemma_dispatched_take_step(s: Seq<Entity>, events: Seq<InputEvent>, i: int)
    requires
        0 <= i < events.len(),
    ensures
        dispatched_all(s, events.take(i + 1)) == dispatched_entities(
            dispatched_all(s, events.take(i)),
            events[i],
        ),
{
    assert(events.take(i + 1).drop_last() =~= events.take(i));
    assert(events.take(i + 1).last() == events[i]);
}

/// The collision rule is symmetric: an enemy ship against a player bullet
/// hits exactly when the player bullet against the enemy ship does.
pub proof fn lemma_hit_rule_symmetric(a: Entity, b: Entity)
    ensures
        hit_rule(a, b) == hit_rule(b, a),
{
}

/// Strict rectangle overlap is symmetric in the two bodies.
pub proof fn lemma_overlap_symmetric(a: EntityBase, b: EntityBase)
    ensures
        boxes_overlap(a, b) == boxes_overlap(b, a),
{
}

/// No entity ever collides with itself.
pub proof fn lemma_no_self_collision(e: Entity)
    ensures
        !hit_rule(e, e),
{
}

/// Two entities of the same side — two enemies, two player bullets, an
/// enemy and its own bullet — never satisfy the collision rule.
pub proof fn lemma_no_same_side_collision(a: Entity, b: Entity)
    requires
        (a.spec_is_enemy() && b.spec_is_enemy()) || (a.spec_is_player() && b.spec_is_player()),
    ensures
        !hit_rule(a, b),
{
}

/// For an overlapping enemy/player-bullet pair (either order), one
/// collision pass flags both invalid: any recorded contact is lethal to
/// both participants in the same pass.
pub proof fn lemma_collision_pair_lethal(s: Seq<Entity>)
    requires
        s.len() == 2,
        s[0].alive() && s[1].alive(),
        hit_rule(s[0], s[1]),
        s[0].spec_body() is Some && s[1].spec_body() is Some,
        boxes_overlap(s[0].spec_body()->Some_0, s[1].spec_body()->Some_0),
    ensures
        !collision_pass(s)[0].alive(),
        !collision_pass(s)[1].alive(),
{
    assert(pair_hits(s, 0, 1));
    assert(collide_upto(s, 2, 0) == s);
    assert(collide_row(s, 0, 1) == s);
    assert(collide_row(s, 0, 2) == collide_step(s, 0, 1));
    assert(collide_upto(s, 2, 1) == collide_row(s, 0, 2));
    assert(collide_row(collide_upto(s, 2, 1), 1, 2) == collide_upto(s, 2, 1));
    assert(collide_upto(s, 2, 2) == collide_row(collide_upto(s, 2, 1), 1, 2));
    assert(collision_pass(s) == collide_step(s, 0, 1));
    assert(!s[0].killed().alive());
    assert(!s[1].killed().alive());
}

/// A same-side pair — two enemies, or two player bullets — passes through
/// a collision pass untouched, overlapping or not.
pub proof fn lemma_same_side_pass_harmless(s: Seq<Entity>)
    requires
        s.len() == 2,
        (s[0].spec_is_enemy() && s[1].spec_is_enemy()) || (s[0].spec_is_player()
            && s[1].spec_is_player()),
    ensures
        collision_pass(s) == s,
{
    lemma_no_same_side_collision(s[0], s[1]);
    assert(!pair_hits(s, 0, 1));
    assert(collide_upto(s, 2, 0) == s);
    assert(collide_row(s, 0, 1) == s);
    assert(collide_row(s, 0, 2) == collide_step(s, 0, 1));
    assert(collide_upto(s, 2, 1) == collide_row(s, 0, 2));
    assert(collide_row(collide_upto(s, 2, 1), 1, 2) == collide_upto(s, 2, 1));
    assert(collide_upto(s, 2, 2) == collide_row(collide_upto(s, 2, 1), 1, 2));
}

/// The scan never pairs a slot with itself: an entity cannot invalidate
/// itself.
pub proof fn lemma_scan_never_pairs_self(s: Seq<Entity>, i: int)
    ensures
        !pair_hits(s, i, i),
{
}

/// One row of the scan leaves a collection without qualifying pairs alone.
proof fn lemma_no_hits_row_identity(s: Seq<Entity>, i: int, j: int)
    requires
        forall|a: int, b: int| !pair_hits(s, a, b),
    ensures
        collide_row(s, i, j) == s,
    decreases j - i,
{
    if j <= i + 1 {
    } else {
        lemma_no_hits_row_identity(s, i, j - 1);
    }
}

/// The scanned rows leave a collection without qualifying pairs alone.
proof fn lemma_no_hits_upto_identity(s: Seq<Entity>, n: int, i: int)
    requires
        forall|a: int, b: int| !pair_hits(s, a, b),
    ensures
        collide_upto(s, n, i) == s,
    decreases i,
{
    if i <= 0 {
    } else {
        lemma_no_hits_upto_identity(s, n, i - 1);
        lemma_no_hits_row_identity(s, i - 1, n);
    }
}

/// A collection holding no qualifying pair — no live, overlapping pair of
/// an enemy ship and a player bullet — passes through a whole collision
/// pass untouched, whatever else it holds.
pub proof fn lemma_no_hits_pass_identity(s: Seq<Entity>)
    requires
        forall|a: int, b: int| !pair_hits(s, a, b),
    ensures
        collision_pass(s) == s,
{
    lemma_no_hits_upto_identity(s, s.len() as int, s.len() as int);
}

/// Being a hit candidate is symmetric in the two entities.
pub proof fn lemma_could_hit_symmetric(a: Entity, b: Entity)
    ensures
        could_hit(a, b) == could_hit(b, a),
{
}

/// Flagging an entity invalid changes nothing a hit candidacy reads: sides,
/// body exposure and coordinates all stay as they were.
proof fn lemma_killed_keeps_could_hit(a: Entity, b: Entity)
    ensures
        could_hit(a, b.killed()) == could_hit(a, b),
{
}

/// One scan step neither touches a slot the rule pairs with nothing
/// overlapping, nor creates a new counterpart for it.
proof fn lemma_unpaired_step(s: Seq<Entity>, i: int, j: int, k: int)
    requires
        0 <= k < s.len(),
        forall|m: int| 0 <= m < s.len() && m != k ==> !could_hit(s[k], #[trigger] s[m]),
    ensures
        collide_step(s, i, j)[k] == s[k],
        forall|m: int|
            0 <= m < s.len() && m != k ==> !could_hit(
                collide_step(s, i, j)[k],
                #[trigger] collide_step(s, i, j)[m],
            ),
{
    if pair_hits(s, i, j) {
        lemma_could_hit_symmetric(s[i], s[j]);
        assert(k != i && k != j);
        assert forall|m: int|
            0 <= m < s.len() && m != k implies !could_hit(
            collide_step(s, i, j)[k],
            #[trigger] collide_step(s, i, j)[m],
        ) by {
            lemma_killed_keeps_could_hit(s[k], s[m]);
        }
    }
}

/// One scanned row leaves such a slot alone.
proof fn lemma_unpaired_row(s: Seq<Entity>, i: int, j: int, k: int)
    requires
        0 <= k < s.len(),
        forall|m: int| 0 <= m < s.len() && m != k ==> !could_hit(s[k], #[trigger] s[m]),
    ensures
        collide_row(s, i, j)[k] == s[k],
        forall|m: int|
            0 <= m < s.len() && m != k ==> !could_hit(
                collide_row(s, i, j)[k],
                #[trigger] collide_row(s, i, j)[m],
            ),
    decreases j - i,
{
    lemma_collide_row_len(s, i, j);
    if j <= i + 1 {
    } else {
        lemma_unpaired_row(s, i, j - 1, k);
        lemma_collide_row_len(s, i, j - 1);
        lemma_unpaired_step(collide_row(s, i, j - 1), i, j - 1, k);
    }
}

/// The scanned rows leave such a slot alone.
proof fn lemma_unpaired_upto(s: Seq<Entity>, n: int, i: int, k: int)
    requires
        0 <= k < s.len(),
        forall|m: int| 0 <= m < s.len() && m != k ==> !could_hit(s[k], #[trigger] s[m]),
    ensures
        collide_upto(s, n, i)[k] == s[k],
        forall|m: int|
            0 <= m < s.len() && m != k ==> !could_hit(
                collide_upto(s, n, i)[k],
                #[trigger] collide_upto(s, n, i)[m],
            ),
    decreases i,
{
    lemma_collide_upto_len(s, n, i);
    if i <= 0 {
    } else {
        lemma_unpaired_upto(s, n, i - 1, k);
        lemma_collide_upto_len(s, n, i - 1);
        lemma_unpaired_row(collide_upto(s, n, i - 1), i - 1, n, k);
    }
}

/// Only recorded hits kill: an entity that the rule pairs with nothing
/// overlapping in the collection — any enemy among enemies, any player
/// bullet among player bullets, the player's ship always — comes out of a
/// whole collision pass exactly as it went in.
pub proof fn lemma_unpaired_entity_unscathed(s: Seq<Entity>, k: int)
    requires
        0 <= k < s.len(),
        forall|m: int| 0 <= m < s.len() && m != k ==> !could_hit(s[k], #[trigger] s[m]),
    ensures
        collision_pass(s).len() == s.len(),
        collision_pass(s)[k] == s[k],
{
    lemma_collide_upto_len(s, s.len() as int, s.len() as int);
    lemma_unpaired_upto(s, s.len() as int, s.len() as int, k);
}

/// Processing one pair never revives a dead slot.
pub proof fn lemma_collide_step_monotone(s: Seq<Entity>, i: int, j: int, k: int)
    requires
        0 <= k < s.len(),
        !s[k].alive(),
    ensures
        !collide_step(s, i, j)[k].alive(),
{
    if pair_hits(s, i, j) {
        assert(k != i && k != j);
    }
}

/// Processing one row never revives a dead slot.
pub proof fn lemma_collide_row_monotone(s: Seq<Entity>, i: int, j: int, k: int)
    requires
        0 <= k < s.len(),
        !s[k].alive(),
    ensures
        !collide_row(s, i, j)[k].alive(),
    decreases j - i,
{
    if j <= i + 1 {
    } else {
        lemma_collide_row_monotone(s, i, j - 1, k);
        lemma_collide_row_len(s, i, j - 1);
        lemma_collide_step_monotone(collide_row(s, i, j - 1), i, j - 1, k);
    }
}

/// The rows processed so far never revive a dead slot.
pub proof fn lemma_collide_upto_monotone(s: Seq<Entity>, n: int, i: int, k: int)
    requires
        0 <= k < s.len(),
        !s[k].alive(),
    ensures
        !collide_upto(s, n, i)[k].alive(),
    decreases i,
{
    if i <= 0 {
    } else {
        lemma_collide_upto_monotone(s, n, i - 1, k);
        lemma_collide_upto_len(s, n, i - 1);
        lemma_collide_row_monotone(collide_upto(s, n, i - 1), i - 1, n, k);
    }
}

/// Liveness is monotonic through the collision pass: a slot that entered
/// the pass dead is still dead when the pass ends. Together with the
/// compaction law below, a dead entity can never be observed again.
pub proof fn lemma_collision_pass_monotone(s: Seq<Entity>, k: int)
    requires
        0 <= k < s.len(),
        !s[k].alive(),
    ensures
        collision_pass(s).len() == s.len(),
        !collision_pass(s)[k].alive(),
{
    lemma_collide_upto_len(s, s.len() as int, s.len() as int);
    lemma_collide_upto_monotone(s, s.len() as int, s.len() as int, k);
}

/// After compaction nothing dead remains: every surviving slot is alive,
/// so the render and update sets of the next frame never observe an entity
/// whose liveness flag was cleared.
pub proof fn lemma_compaction_removes_dead(s: Seq<Entity>)
    ensures
        forall|k: int| 0 <= k < compact(s).len() ==> (#[trigger] compact(s)[k]).alive(),
{
    broadcast use vstd::seq_lib::group_filter_ensures;

}

/// Compaction distributes over concatenation: the survivors of a front
/// part stand, in order, before the survivors of a back part. Compaction
/// never reorders surviving entities relative to each other.
pub proof fn lemma_compaction_preserves_order(a: Seq<Entity>, b: Seq<Entity>)
    ensures
        compact(a + b) == compact(a) + compact(b),
{
    broadcast use Seq::filter_distributes_over_add;

}

/// What holds of every freshly spawned enemy, whatever the random draws
/// were: placed at the right edge, vertical position clamped into the inset
/// band, drifting left within the speed band, alive, firing clock started
/// at `now`, animating fresh handles on the shared enemy sheets.
pub open spec fn spawned_enemy_ok(
    e: Enemy,
    viewport: Rect,
    now: u64,
    engine_texture: ComponentTexture,
    body_texture: ComponentTexture,
    projectile_texture: ComponentTexture,
) -> bool {
    &&& e.wf()
    &&& e.base.x == viewport.x + viewport.w
    &&& SPAWN_INSET <= e.base.y <= viewport.h - SPAWN_INSET
    &&& -(ENEMY_SPEED + ENEMY_SPEED_JITTER) < e.base.dx <= -ENEMY_SPEED
    &&& e.base.dy == 0
    &&& e.base.valid
    &&& e.base.viewport == viewport
    &&& e.firing_ticks == now
    &&& e.engine_texture == engine_texture
    &&& e.body_texture == body_texture
    &&& e.projectile_texture == projectile_texture
}

/// Unfolding step for `compact` over a growing prefix.
pub proof fn lemma_compact_take_step(s: Seq<Entity>, i: int)
    requires
        0 <= i < s.len(),
    ensures
        compact(s.take(i + 1)) == if s[i].alive() {
            compact(s.take(i)).push(s[i])
        } else {
            compact(s.take(i))
        },
{
    reveal(Seq::filter);
    assert(s.take(i + 1).drop_last() =~= s.take(i));
    assert(s.take(i + 1).last() == s[i]);
}

/// Unfolding step for `render_cmds_of` over a growing prefix.
pub proof fn lemma_render_cmds_take_step(s: Seq<Entity>, i: int)
    requires
        0 <= i < s.len(),
    ensures
        render_cmds_of(s.take(i + 1)) == render_cmds_of(s.take(i)) + s[i].spec_render_cmds(),
{
    assert(s.take(i + 1).drop_last() =~= s.take(i));
    assert(s.take(i + 1).last() == s[i]);
}

/// Unfolding step for `spawned_entities` over a growing prefix.
pub proof fn lemma_spawned_take_step(events: Seq<EntityEvent>, i: int)
    requires
        0 <= i < events.len(),
    ensures
        spawned_entities(events.take(i + 1)) == match events[i] {
            EntityEvent::SpawnBullet(b) => spawned_entities(events.take(i)).push(Entity::Bullet(b)),
            EntityEvent::Empty => spawned_entities(events.take(i)),
        },
{
    assert(events.take(i + 1).drop_last() =~= events.take(i));
    assert(events.take(i + 1).last() == events[i]);
}

} // verus!
