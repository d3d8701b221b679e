use vstd::prelude::*;

use crate::animation::{ticked, update_animation, Animation};
use crate::geometry::Point;
use crate::motion::{
    in_world, integrate_spec, keyboard_move_player, move_enemy, player_stepped, Bounds, Enemy,
    Player, PlayerInput, PlayerTextureAtlas,
};

verus! {

/// The three kinds of enemy, each with its own sprite sheet.
#[derive(Clone, Copy, Debug, PartialEq, Eq, Structural)]
pub enum EnemyKind {
    Fly,
    Swim,
    Walk,
}

/// What an actor is, with what drives its movement.
#[derive(Clone, Copy, Debug, PartialEq, Eq, Structural)]
pub enum ActorKind {
    Player(Player),
    Enemy(EnemyKind, Enemy),
}

/// A movable, animated entity of the world.
#[derive(Clone, Copy)]
pub struct Actor {
    pub id: u64,
    pub kind: ActorKind,
    pub position: Point,
    pub animation: Animation,
}

impl Actor {
    pub open spec fn wf(&self) -> bool {
        &&& self.animation.wf()
        &&& in_world(self.position)
        &&& self.kind matches ActorKind::Enemy(_, e) ==> e.wf()
    }

    pub open spec fn is_player(&self) -> bool {
        self.kind is Player
    }

    pub open spec fn is_enemy(&self) -> bool {
        self.kind is Enemy
    }
}

/// Why an actor was not created.
#[derive(Clone, Copy, Debug, PartialEq, Eq, Structural)]
pub enum SpawnError {
    /// The world already holds as many actors as it has room for.
    SpawnCapacityExceeded,
    /// Every id has been handed out.
    IdsExhausted,
}

/// An actor after one step of enemy motion: an enemy moves and is dropped
/// once it leaves `bounds`; the player is left as it is.
pub open spec fn moved_actor(a: Actor, delta: nat, bounds: Bounds) -> Option<Actor> {
    match a.kind {
        ActorKind::Enemy(_, e) => {
            let (x, y) = integrate_spec(a.position, e.direction, e.speed as int, delta as int);
            if bounds.holds(x, y) {
                Some(Actor { position: Point { x: x as i64, y: y as i64 }, ..a })
            } else {
                None
            }
        },
        ActorKind::Player(_) => Some(a),
    }
}

/// An enemy at rest inside the field stays where it is, and stays alive,
/// however long the step.
pub proof fn lemma_resting_enemy_stays(a: Actor, delta: nat, bounds: Bounds)
    requires
        a.kind matches ActorKind::Enemy(_, e) && e.speed == 0,
        bounds.holds(a.position.x as int, a.position.y as int),
    ensures
        moved_actor(a, delta, bounds) == Some(a),
{
    if let ActorKind::Enemy(_, e) = a.kind {
        assert(e.direction.x * 0 * delta == 0) by (nonlinear_arith);
        assert(e.direction.y * 0 * delta == 0) by (nonlinear_arith);
    }
}

/// The actors of `s`, in order, after one step of enemy motion.
pub open spec fn move_all(s: Seq<Actor>, delta: nat, bounds: Bounds) -> Seq<Actor>
    decreases s.len(),
{
    if s.len() == 0 {
        Seq::empty()
    } else {
        let rest = move_all(s.drop_last(), delta, bounds);
        match moved_actor(s.last(), delta, bounds) {
            Some(a) => rest.push(a),
            None => rest,
        }
    }
}

/// `w1` is `w0` after one step of enemy motion.
pub open spec fn enemies_moved(w0: World, w1: World, delta: nat, bounds: Bounds) -> bool {
    &&& w1.wf()
    &&& w1.actors_spec() == move_all(w0.actors_spec(), delta, bounds)
    &&& w1.next_id_spec() == w0.next_id_spec()
    &&& w1.capacity_spec() == w0.capacity_spec()
}

/// `w1` is `w0` with every animation clock run for `delta` milliseconds.
pub open spec fn animations_ticked(w0: World, w1: World, delta: nat) -> bool {
    &&& w1.wf()
    &&& w1.next_id_spec() == w0.next_id_spec()
    &&& w1.capacity_spec() == w0.capacity_spec()
    &&& w1.actors_spec().len() == w0.actors_spec().len()
    &&& forall|i: int|
        0 <= i < w0.actors_spec().len() ==> {
            let (a, b) = (#[trigger] w0.actors_spec()[i], w1.actors_spec()[i]);
            &&& b.id == a.id
            &&& b.kind == a.kind
            &&& b.position == a.position
            &&& ticked(a.animation, delta, b.animation)
        }
}

/// `w1` is `w0` after one tick of keyboard control of its player actors.
pub open spec fn players_moved(
    w0: World,
    w1: World,
    input: PlayerInput,
    delta: int,
    assets: PlayerTextureAtlas,
    bounds: Bounds,
) -> bool {
    &&& w1.wf()
    &&& w1.next_id_spec() == w0.next_id_spec()
    &&& w1.capacity_spec() == w0.capacity_spec()
    &&& w1.actors_spec().len() == w0.actors_spec().len()
    &&& forall|i: int|
        0 <= i < w0.actors_spec().len() ==> {
            let (a, b) = (#[trigger] w0.actors_spec()[i], w1.actors_spec()[i]);
            &&& b.id == a.id
            &&& b.kind == a.kind
            &&& a.kind is Enemy ==> b == a
            &&& a.kind matches ActorKind::Player(p) ==> player_stepped(
                input,
                delta,
                p,
                assets,
                bounds,
                a.position,
                a.animation,
                b.position,
                b.animation,
            )
        }
}

/// The registry of live actors. Ids are handed out in increasing order and
/// never reused, so the id of a despawned actor is never found again.
pub struct World {
    actors: Vec<Actor>,
    next_id: u64,
    capacity: usize,
}

impl World {
    pub closed spec fn actors_spec(&self) -> Seq<Actor> {
        self.actors@
    }

    pub closed spec fn next_id_spec(&self) -> u64 {
        self.next_id
    }

    pub closed spec fn capacity_spec(&self) -> nat {
        self.capacity as nat
    }

    pub open spec fn wf(&self) -> bool {
        &&& self.actors_spec().len() <= self.capacity_spec()
        &&& forall|i: int| 0 <= i < self.actors_spec().len() ==> #[trigger] self.actors_spec()[i].wf()
        &&& forall|i: int|
            0 <= i < self.actors_spec().len() ==> #[trigger] self.actors_spec()[i].id < self.next_id_spec()
        &&& forall|i: int, j: int|
            0 <= i < j < self.actors_spec().len() ==> #[trigger] self.actors_spec()[i].id
                < #[trigger] self.actors_spec()[j].id
    }

    /// Whether an actor with this id is alive.
    pub open spec fn alive(&self, id: u64) -> bool {
        exists|i: int| 0 <= i < self.actors_spec().len() && #[trigger] self.actors_spec()[i].id == id
    }

    /// An empty world with room for `capacity` actors.
    pub fn new(capacity: usize) -> (r: World)
        ensures
            r.wf(),
            r.actors_spec() == Seq::<Actor>::empty(),
            r.capacity_spec() == capacity,
            r.next_id_spec() == 0,
    {
        World { actors: Vec::new(), next_id: 0, capacity }
    }

    pub fn len(&self) -> (r: usize)
        ensures
            r == self.actors_spec().len(),
    {
        self.actors.len()
    }

    pub fn actor(&self, i: usize) -> (r: &Actor)
        requires
            i < self.actors_spec().len(),
        ensures
            *r == self.actors_spec()[i as int],
    {
        &self.actors[i]
    }

    /// Where the live actor with this id stands; `None` when no live actor has it.
    pub fn find(&self, id: u64) -> (r: Option<usize>)
        requires
            self.wf(),
        ensures
            r matches Some(i) ==> i < self.actors_spec().len() && self.actors_spec()[i as int].id == id,
            r is None <==> !self.alive(id),
    {
        let mut i: usize = 0;
        while i < self.actors.len()
            invariant
                i <= self.actors_spec().len(),
                forall|k: int| 0 <= k < i ==> #[trigger] self.actors_spec()[k].id != id,
            decreases self.actors_spec().len() - i,
        {
            if self.actors[i].id == id {
                return Some(i);
            }
            i = i + 1;
        }
        None
    }

    /// Despawns every actor.
    pub fn clear_entities(&mut self)
        requires
            old(self).wf(),
        ensures
            final(self).wf(),
            final(self).actors_spec() == Seq::<Actor>::empty(),
            final(self).next_id_spec() == old(self).next_id_spec(),
            final(self).capacity_spec() == old(self).capacity_spec(),
    {
        self.actors = Vec::new();
    }

    /// Adds an actor under the next free id, unless the world is full.
    pub fn spawn(&mut self, kind: ActorKind, position: Point, animation: Animation) -> (r: Result<u64, SpawnError>)
        requires
            old(self).wf(),
            animation.wf(),
            in_world(position),
            kind matches ActorKind::Enemy(_, e) ==> e.wf(),
        ensures
            final(self).wf(),
            final(self).capacity_spec() == old(self).capacity_spec(),
            old(self).actors_spec().len() >= old(self).capacity_spec() ==> r == Err::<u64, SpawnError>(
                SpawnError::SpawnCapacityExceeded,
            ),
            old(self).actors_spec().len() < old(self).capacity_spec() && old(self).next_id_spec() == u64::MAX
                ==> r == Err::<u64, SpawnError>(SpawnError::IdsExhausted),
            r is Err ==> *final(self) == *old(self),
            r is Ok <==> (old(self).actors_spec().len() < old(self).capacity_spec() && old(self).next_id_spec()
                < u64::MAX),
            r matches Ok(id) ==> {
                &&& id == old(self).next_id_spec()
                &&& final(self).next_id_spec() == id + 1
                &&& final(self).actors_spec() == old(self).actors_spec().push(
                    Actor { id, kind, position, animation },
                )
            },
    {
        if self.actors.len() >= self.capacity {
            return Err(SpawnError::SpawnCapacityExceeded);
        }
        if self.next_id == u64::MAX {
            return Err(SpawnError::IdsExhausted);
        }
        let id: u64 = self.next_id;
        self.actors.push(Actor { id, kind, position, animation });
        self.next_id = id + 1;
        Ok(id)
    }

    /// Moves every enemy one step and despawns those that leave `bounds`.
    pub fn move_enemies(&mut self, delta: u32, bounds: &Bounds)
        requires
            old(self).wf(),
            bounds.wf(),
        ensures
            enemies_moved(*old(self), *final(self), delta as nat, *bounds),
    {
        let ghost before = self.actors@;
        let mut kept: Vec<Actor> = Vec::new();
        let n: usize = self.actors.len();
        let mut i: usize = 0;
        while i < n
            invariant
                n == before.len(),
                self.actors@ == before,
                old(self).wf(),
                bounds.wf(),
                *old(self) == *self,
                i <= n,
                kept@ == move_all(before.take(i as int), delta as nat, *bounds),
                kept@.len() <= i,
                forall|k: int| 0 <= k < kept@.len() ==> #[trigger] kept@[k].wf(),
                forall|k: int| 0 <= k < kept@.len() ==> exists|m: int| 0 <= m < i && #[trigger] kept@[k].id == before[m].id,
                forall|k: int, l: int| 0 <= k < l < kept@.len() ==> #[trigger] kept@[k].id < #[trigger] kept@[l].id,
                forall|k: int| 0 <= k < kept@.len() && i < n ==> #[trigger] kept@[k].id < before[i as int].id,
            decreases n - i,
        {
            let a: Actor = self.actors[i];
            assert(before.take(i as int + 1).drop_last() == before.take(i as int));
            assert(before.take(i as int + 1).last() == a);
            assert(a.wf());
            match a.kind {
                ActorKind::Enemy(_, e) => {
                    match move_enemy(a.position, &e, delta, bounds) {
                        Some(p) => {
                            let moved = Actor { position: p, ..a };
                            assert(moved.wf());
                            kept.push(moved);
                        },
                        None => {},
                    }
                },
                ActorKind::Player(_) => {
                    kept.push(a);
                },
            }
            i = i + 1;
        }
        assert(before.take(n as int) == before);
        self.actors = kept;
    }

    /// Runs every actor's animation clock for `delta` milliseconds.
    pub fn update_animations(&mut self, delta: u32)
        requires
            old(self).wf(),
        ensures
            animations_ticked(*old(self), *final(self), delta as nat),
    {
        let n: usize = self.actors.len();
        let mut i: usize = 0;
        while i < n
            invariant
                n == old(self).actors_spec().len(),
                n == self.actors@.len(),
                i <= n,
                old(self).wf(),
                self.next_id == old(self).next_id_spec(),
                self.capacity == old(self).capacity_spec(),
                forall|k: int| i <= k < n ==> #[trigger] self.actors@[k] == old(self).actors_spec()[k],
                forall|k: int|
                    0 <= k < i ==> {
                        let (a, b) = (#[trigger] old(self).actors_spec()[k], self.actors@[k]);
                        &&& b.id == a.id
                        &&& b.kind == a.kind
                        &&& b.position == a.position
                        &&& ticked(a.animation, delta as nat, b.animation)
                    },
            decreases n - i,
        {
            let mut a: Actor = self.actors[i];
            assert(old(self).actors_spec()[i as int].wf());
            update_animation(&mut a.animation, delta);
            self.actors.set(i, a);
            i = i + 1;
        }
        assert forall|k: int| 0 <= k < n implies #[trigger] self.actors@[k].wf() by {
            assert(old(self).actors_spec()[k].wf());
        }
        assert forall|k: int| 0 <= k < n implies #[trigger] self.actors@[k].id < self.next_id by {
            assert(old(self).actors_spec()[k].wf());
        }
        assert forall|k: int, l: int| 0 <= k < l < n implies #[trigger] self.actors@[k].id
            < #[trigger] self.actors@[l].id by {
            assert(old(self).actors_spec()[k].id < old(self).actors_spec()[l].id);
        }
    }

    /// Applies one tick of keyboard control to every player actor; enemies
    /// are left as they are.
    pub fn move_player(&mut self, input: PlayerInput, delta: u32, assets: &PlayerTextureAtlas, bounds: &Bounds)
        requires
            old(self).wf(),
            assets.wf(),
            bounds.wf(),
        ensures
            players_moved(*old(self), *final(self), input, delta as int, *assets, *bounds),
    {
        let n: usize = self.actors.len();
        let mut i: usize = 0;
        while i < n
            invariant
                n == old(self).actors_spec().len(),
                n == self.actors@.len(),
                i <= n,
                old(self).wf(),
                assets.wf(),
                bounds.wf(),
                self.next_id == old(self).next_id_spec(),
                self.capacity == old(self).capacity_spec(),
                forall|k: int| i <= k < n ==> #[trigger] self.actors@[k] == old(self).actors_spec()[k],
                forall|k: int|
                    0 <= k < i ==> {
                        let (a, b) = (#[trigger] old(self).actors_spec()[k], self.actors@[k]);
                        &&& b.id == a.id
                        &&& b.kind == a.kind
                        &&& a.kind is Enemy ==> b == a
                        &&& a.kind matches ActorKind::Player(p) ==> player_stepped(
                            input,
                            delta as int,
                            p,
                            *assets,
                            *bounds,
                            a.position,
                            a.animation,
                            b.position,
                            b.animation,
                        )
                    },
            decreases n - i,
        {
            let mut a: Actor = self.actors[i];
            assert(old(self).actors_spec()[i as int].wf());
            match a.kind {
                ActorKind::Player(p) => {
                    keyboard_move_player(input, delta, &p, assets, bounds, &mut a.position, &mut a.animation);
                    self.actors.set(i, a);
                },
                ActorKind::Enemy(_, _) => {},
            }
            i = i + 1;
        }
        assert forall|k: int| 0 <= k < n implies #[trigger] self.actors@[k].wf() by {
            assert(old(self).actors_spec()[k].wf());
        }
        assert forall|k: int| 0 <= k < n implies #[trigger] self.actors@[k].id < self.next_id by {
            assert(old(self).actors_spec()[k].wf());
        }
        assert forall|k: int, l: int| 0 <= k < l < n implies #[trigger] self.actors@[k].id
            < #[trigger] self.actors@[l].id by {
            assert(old(self).actors_spec()[k].id < old(self).actors_spec()[l].id);
        }
    }
}

} // verus!
