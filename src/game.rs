use vstd::prelude::*;

use crate::motion::{Bounds, PlayerInput, PlayerTextureAtlas};
use crate::path::Path;
use crate::spawn::{
    player_from, spawn_enemy, spawn_player, spawner_ticked, EnemyTextureAtlas, ENEMY_SPAWN_MS,
};
use crate::state::{check_transition, transition_allowed, GameState, StateError};
use crate::timer::Timer;
use crate::world::{animations_ticked, enemies_moved, players_moved, ActorKind, SpawnError, World};

verus! {

/// Emitted once when the player is struck; the audio system plays its cue.
#[derive(Clone, Copy, Debug, PartialEq, Eq, Structural)]
pub struct GameOverEvent;

/// A notification of the physics engine about two bodies, by actor id.
#[derive(Clone, Copy, Debug, PartialEq, Eq, Structural)]
pub enum CollisionEvent {
    Started(u64, u64),
    Stopped(u64, u64),
}

pub open spec fn is_live_player(w: World, id: u64) -> bool {
    exists|i: int| 0 <= i < w.actors_spec().len() && #[trigger] w.actors_spec()[i].id == id && w.actors_spec()[i].is_player()
}

pub open spec fn is_live_enemy(w: World, id: u64) -> bool {
    exists|i: int| 0 <= i < w.actors_spec().len() && #[trigger] w.actors_spec()[i].id == id && w.actors_spec()[i].is_enemy()
}

/// A collision that starts between the live player and a live enemy. Stop
/// events, and events naming bodies that are not live actors, are dropped.
pub open spec fn strikes(w: World, e: CollisionEvent) -> bool {
    match e {
        CollisionEvent::Started(a, b) => (is_live_player(w, a) && is_live_enemy(w, b)) || (is_live_enemy(w, a)
            && is_live_player(w, b)),
        CollisionEvent::Stopped(_, _) => false,
    }
}

pub open spec fn any_strike(w: World, events: Seq<CollisionEvent>) -> bool {
    exists|i: int| 0 <= i < events.len() && strikes(w, #[trigger] events[i])
}

/// 0 for no live actor with this id, 1 for the player, 2 for an enemy.
fn body_class(world: &World, id: u64) -> (r: u8)
    requires
        world.wf(),
    ensures
        r == 1 <==> is_live_player(*world, id),
        r == 2 <==> is_live_enemy(*world, id),
{
    match world.find(id) {
        Some(i) => {
            let a = world.actor(i);
            proof {
                assert forall|k: int| 0 <= k < world.actors_spec().len() && #[trigger] world.actors_spec()[k].id == id
                    implies k == i by {
                    if k < i {
                        assert(world.actors_spec()[k].id < world.actors_spec()[i as int].id);
                    } else if k > i {
                        assert(world.actors_spec()[i as int].id < world.actors_spec()[k].id);
                    }
                }
            }
            match a.kind {
                ActorKind::Player(_) => 1,
                ActorKind::Enemy(_, _) => 2,
            }
        },
        None => 0,
    }
}

/// Whether the batch of collision events holds a strike of the player by an enemy.
pub fn collision_event(world: &World, events: &Vec<CollisionEvent>) -> (r: bool)
    requires
        world.wf(),
    ensures
        r == any_strike(*world, events@),
{
    let mut i: usize = 0;
    while i < events.len()
        invariant
            world.wf(),
            i <= events@.len(),
            forall|k: int| 0 <= k < i ==> !strikes(*world, #[trigger] events@[k]),
        decreases events@.len() - i,
    {
        match events[i] {
            CollisionEvent::Started(a, b) => {
                let ca = body_class(world, a);
                let cb = body_class(world, b);
                if (ca == 1 && cb == 2) || (ca == 2 && cb == 1) {
                    assert(strikes(*world, events@[i as int]));
                    return true;
                }
            },
            CollisionEvent::Stopped(_, _) => {},
        }
        i = i + 1;
    }
    false
}

/// What a tick produced besides the new state of the game.
#[derive(Clone, Copy, Debug, PartialEq, Eq, Structural)]
pub struct TickReport {
    /// The id of the enemy spawned this tick, if any.
    pub spawned: Option<u64>,
    /// Set when the player was struck this tick.
    pub game_over: Option<GameOverEvent>,
}

/// The id of the enemy a spawner tick made, if it made one.
pub open spec fn spawned_id(res: Result<Option<u64>, SpawnError>) -> Option<u64> {
    match res {
        Ok(Some(id)) => Some(id),
        _ => None,
    }
}

/// What the rest of a playing tick makes of `g0` once its world has become
/// `w`: a strike ends the round and nothing spawns; otherwise the spawner runs
/// on `w` and the id of any enemy it made is reported.
pub open spec fn played_on(g0: Game, w: World, g1: Game, events: Seq<CollisionEvent>, delta: nat, r: TickReport) -> bool {
    if any_strike(w, events) {
        &&& r == TickReport { spawned: None, game_over: Some(GameOverEvent) }
        &&& g1.state == GameState::Menu
        &&& g1.world == w
        &&& g1.enemy_timer == g0.enemy_timer
    } else {
        &&& r.game_over is None
        &&& g1.state == GameState::Playing
        &&& exists|res: Result<Option<u64>, SpawnError>|
            #[trigger] spawner_ticked(w, g0.enemy_timer, g0.path, g0.enemy_assets, delta, g1.world, g1.enemy_timer, res)
            && r.spawned == spawned_id(res)
    }
}

/// The whole simulation: the active state, the actors, and what drives them.
pub struct Game {
    pub state: GameState,
    pub world: World,
    pub enemy_timer: Timer,
    pub path: Path,
    pub player_assets: PlayerTextureAtlas,
    pub enemy_assets: EnemyTextureAtlas,
    pub enemy_bounds: Bounds,
    pub player_bounds: Bounds,
}

impl Game {
    pub open spec fn wf(&self) -> bool {
        &&& self.world.wf()
        &&& self.enemy_timer.wf()
        &&& self.path.wf()
        &&& self.player_assets.wf()
        &&& self.enemy_assets.wf()
        &&& self.enemy_bounds.wf()
        &&& self.player_bounds.wf()
    }

    /// A game in `Loading`, with no actors, room for `capacity` of them, and
    /// the default fields and spawn interval.
    pub fn new(path: Path, player_assets: PlayerTextureAtlas, enemy_assets: EnemyTextureAtlas, capacity: usize) -> (r: Game)
        requires
            path.wf(),
            player_assets.wf(),
            enemy_assets.wf(),
        ensures
            r.wf(),
            r.state == GameState::Loading,
            r.world.actors_spec().len() == 0,
            r.world.capacity_spec() == capacity,
            r.world.next_id_spec() == 0,
            r.enemy_timer.duration_spec() == ENEMY_SPAWN_MS,
            r.enemy_timer.elapsed_spec() == 0,
            r.path == path,
            r.player_assets == player_assets,
            r.enemy_assets == enemy_assets,
            r.enemy_bounds == Bounds::enemy_field_spec(),
            r.player_bounds == Bounds::player_field_spec(),
    {
        Game {
            state: GameState::Loading,
            world: World::new(capacity),
            enemy_timer: Timer::from_millis(ENEMY_SPAWN_MS),
            path,
            player_assets,
            enemy_assets,
            enemy_bounds: Bounds::enemy_field(),
            player_bounds: Bounds::player_field(),
        }
    }

    /// Asks for state `to`. A request outside the transition table is refused
    /// and changes nothing; a request for the active state changes nothing.
    /// Entering `Playing` despawns every actor and then spawns a fresh player,
    /// so that right after it the player is the only actor (when the world
    /// has room for one and ids are left).
    pub fn request_transition(&mut self, to: GameState) -> (r: Result<bool, StateError>)
        requires
            old(self).wf(),
        ensures
            final(self).wf(),
            !transition_allowed(old(self).state, to) ==> r == Err::<bool, StateError>(StateError::InvalidStateTransition),
            transition_allowed(old(self).state, to) ==> r == Ok::<bool, StateError>(old(self).state != to),
            r != Ok::<bool, StateError>(true) ==> *final(self) == *old(self),
            r == Ok::<bool, StateError>(true) ==> {
                &&& final(self).state == to
                &&& final(self).enemy_timer == old(self).enemy_timer
                &&& final(self).path == old(self).path
                &&& final(self).player_assets == old(self).player_assets
                &&& final(self).enemy_assets == old(self).enemy_assets
                &&& final(self).enemy_bounds == old(self).enemy_bounds
                &&& final(self).player_bounds == old(self).player_bounds
                &&& final(self).world.capacity_spec() == old(self).world.capacity_spec()
                &&& to != GameState::Playing ==> final(self).world == old(self).world
                &&& to == GameState::Playing ==> {
                    &&& !(old(self).world.capacity_spec() >= 1 && old(self).world.next_id_spec() < u64::MAX)
                        ==> final(self).world.actors_spec().len() == 0
                    &&& (old(self).world.capacity_spec() >= 1 && old(self).world.next_id_spec() < u64::MAX) ==> {
                        &&& final(self).world.actors_spec().len() == 1
                        &&& player_from(final(self).world.actors_spec()[0], old(self).player_assets)
                    }
                }
            },
    {
        let r = check_transition(self.state, to);
        if let Ok(true) = r {
            self.state = to;
            if to == GameState::Playing {
                self.world.clear_entities();
                let _ = spawn_player(&mut self.world, &self.player_assets);
            }
        }
        r
    }

    /// Consumes one tick's batch of collision events: while playing, a strike
    /// of the player by an enemy, however many the batch holds, emits one
    /// `GameOverEvent` and moves the game to `Menu`.
    pub fn handle_collisions(&mut self, events: &Vec<CollisionEvent>) -> (r: Option<GameOverEvent>)
        requires
            old(self).wf(),
        ensures
            final(self).wf(),
            r is Some <==> (old(self).state == GameState::Playing && any_strike(old(self).world, events@)),
            r is Some ==> *final(self) == (Game { state: GameState::Menu, ..*old(self) }),
            r is None ==> *final(self) == *old(self),
    {
        if self.state == GameState::Playing && collision_event(&self.world, events) {
            let _ = self.request_transition(GameState::Menu);
            Some(GameOverEvent)
        } else {
            None
        }
    }

    /// One simulation tick of `delta` milliseconds. Outside `Playing` nothing
    /// happens. While playing: the player follows `input`, enemies move and
    /// leave once out of the field, animation clocks advance, collision events
    /// are consumed, and, if the round goes on, the spawner runs.
    pub fn tick(
        &mut self,
        delta: u32,
        input: PlayerInput,
        events: &Vec<CollisionEvent>,
        rng: &mut rand::rngs::StdRng,
    ) -> (r: TickReport)
        requires
            old(self).wf(),
        ensures
            final(self).wf(),
            old(self).state != GameState::Playing ==> {
                &&& *final(self) == *old(self)
                &&& r == TickReport { spawned: None, game_over: None }
            },
            old(self).state == GameState::Playing ==> {
                &&& final(self).path == old(self).path
                &&& final(self).player_assets == old(self).player_assets
                &&& final(self).enemy_assets == old(self).enemy_assets
                &&& final(self).enemy_bounds == old(self).enemy_bounds
                &&& final(self).player_bounds == old(self).player_bounds
                &&& exists|w1: World, w2: World, w3: World|
                    #![trigger players_moved(old(self).world, w1, input, delta as int, old(self).player_assets, old(self).player_bounds), enemies_moved(w1, w2, delta as nat, old(self).enemy_bounds), animations_ticked(w2, w3, delta as nat)]
                    {
                        &&& players_moved(old(self).world, w1, input, delta as int, old(self).player_assets, old(self).player_bounds)
                        &&& enemies_moved(w1, w2, delta as nat, old(self).enemy_bounds)
                        &&& animations_ticked(w2, w3, delta as nat)
                        &&& played_on(*old(self), w3, *final(self), events@, delta as nat, r)
                    }
            },
    {
        if self.state != GameState::Playing {
            return TickReport { spawned: None, game_over: None };
        }
        let ghost g0 = *self;
        self.world.move_player(input, delta, &self.player_assets, &self.player_bounds);
        let ghost w1 = self.world;
        self.world.move_enemies(delta, &self.enemy_bounds);
        let ghost w2 = self.world;
        self.world.update_animations(delta);
        let ghost w3 = self.world;
        let game_over = self.handle_collisions(events);
        if game_over.is_some() {
            let r = TickReport { spawned: None, game_over };
            assert(any_strike(w3, events@));
            assert(game_over == Some(GameOverEvent));
            assert(self.world == w3);
            assert(played_on(g0, w3, *self, events@, delta as nat, r));
            return r;
        }
        let res = spawn_enemy(
            &mut self.world,
            &mut self.enemy_timer,
            &self.path,
            &self.enemy_assets,
            rng,
            delta,
        );
        let spawned = match res {
            Ok(id) => id,
            Err(_) => None,
        };
        let r = TickReport { spawned, game_over: None };
        assert(spawner_ticked(w3, g0.enemy_timer, g0.path, g0.enemy_assets, delta as nat, self.world, self.enemy_timer, res));
        assert(played_on(g0, w3, *self, events@, delta as nat, r));
        r
    }
}

} // verus!
