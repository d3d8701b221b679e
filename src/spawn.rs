use vstd::prelude::*;

use crate::animation::{fresh, Animation, AppearanceHandle};
use crate::geometry::{is_isqrt, norm_squared, normalize, normalized, Point, DIR_SCALE};
use crate::motion::{Enemy, Player, PlayerTextureAtlas};
use crate::path::{DirectedLineSegment, Path, SAMPLE_RESOLUTION};
use crate::random::gen_range_u64;
use crate::timer::{periods_finished, remainder_after, Timer};
use crate::world::{Actor, ActorKind, EnemyKind, SpawnError, World};

verus! {

/// Milliseconds between two enemy spawns.
pub const ENEMY_SPAWN_MS: u32 = 500;

/// Milliseconds per animation frame of an enemy (three frames a second).
pub const ENEMY_FRAME_MS: u32 = 333;

/// Milliseconds per animation frame of the player (five frames a second).
pub const PLAYER_FRAME_MS: u32 = 200;

/// The player's speed in pixels per second.
pub const PLAYER_SPEED: u16 = 400;

/// Enemy speeds are drawn from `[MIN_ENEMY_SPEED, MAX_ENEMY_SPEED)` pixels per second.
pub const MIN_ENEMY_SPEED: u16 = 100;

pub const MAX_ENEMY_SPEED: u16 = 300;

/// A launch direction is `CONE_SCALE` parts of the inward normal plus `j` parts
/// of the edge direction, `j` in `[-CONE_SCALE, CONE_SCALE]`: the edge
/// direction turned by an angle between -135 and -45 degrees.
pub const CONE_SCALE: i64 = 1000;

/// The enemies' three sprite sheets.
#[derive(Clone, Copy, Debug, PartialEq, Eq, Structural)]
pub struct EnemyTextureAtlas {
    pub fly: AppearanceHandle,
    pub swim: AppearanceHandle,
    pub walk: AppearanceHandle,
}

pub open spec fn kind_of(i: int) -> EnemyKind {
    if i == 0 {
        EnemyKind::Fly
    } else if i == 1 {
        EnemyKind::Swim
    } else {
        EnemyKind::Walk
    }
}

impl EnemyTextureAtlas {
    pub open spec fn wf(&self) -> bool {
        self.fly.wf() && self.swim.wf() && self.walk.wf()
    }

    pub open spec fn sheet_of(&self, kind: EnemyKind) -> AppearanceHandle {
        match kind {
            EnemyKind::Fly => self.fly,
            EnemyKind::Swim => self.swim,
            EnemyKind::Walk => self.walk,
        }
    }

    /// The kind with index `i` (fly, swim, walk) and its sheet.
    pub fn pick(&self, i: u64) -> (r: (EnemyKind, AppearanceHandle))
        requires
            i < 3,
        ensures
            r.0 == kind_of(i as int),
            r.1 == self.sheet_of(r.0),
    {
        if i == 0 {
            (EnemyKind::Fly, self.fly)
        } else if i == 1 {
            (EnemyKind::Swim, self.swim)
        } else {
            (EnemyKind::Walk, self.walk)
        }
    }

    /// A kind drawn from `rng`, with its sheet.
    pub fn random(&self, rng: &mut rand::rngs::StdRng) -> (r: (EnemyKind, AppearanceHandle))
        ensures
            r.1 == self.sheet_of(r.0),
    {
        let i: u64 = gen_range_u64(rng, 0, 3);
        self.pick(i)
    }
}

/// `CONE_SCALE` parts of the normal of `d` (turned by -90 degrees) plus `j`
/// parts of `d` itself.
pub open spec fn launch_vector(d: Point, j: int) -> (int, int) {
    (
        CONE_SCALE * d.y + j * d.x,
        j * d.y - CONE_SCALE * d.x,
    )
}

/// The launch direction for the segment with vector `d` and cone offset `j`.
pub open spec fn launch_direction_spec(d: Point, j: int, dir: Point) -> bool {
    let (x, y) = launch_vector(d, j);
    let v = Point { x: x as i64, y: y as i64 };
    exists|len: int| is_isqrt(norm_squared(v), len) && dir == normalized(v, len)
}

/// The direction in which an enemy leaves segment `seg`: the edge direction
/// turned by an angle between -135 and -45 degrees, as `j` runs from
/// `-CONE_SCALE` to `CONE_SCALE`, scaled to length about `DIR_SCALE`.
pub fn launch_direction(seg: &DirectedLineSegment, j: i64) -> (r: Point)
    requires
        seg.wf(),
        -CONE_SCALE <= j <= CONE_SCALE,
    ensures
        launch_direction_spec(seg.delta(), j as int, r),
        -DIR_SCALE <= r.x <= DIR_SCALE,
        -DIR_SCALE <= r.y <= DIR_SCALE,
{
    let d = seg.delta_vector();
    let (dx, dy) = (d.x, d.y);
    assert(-0x40000000000 <= j * dx <= 0x40000000000) by (nonlinear_arith)
        requires
            -1000 <= j <= 1000,
            -0x80000000 <= dx <= 0x80000000,
    ;
    assert(-0x40000000000 <= j * dy <= 0x40000000000) by (nonlinear_arith)
        requires
            -1000 <= j <= 1000,
            -0x80000000 <= dy <= 0x80000000,
    ;
    let x: i64 = CONE_SCALE * dy + j * dx;
    let y: i64 = j * dy - CONE_SCALE * dx;
    proof {
        let (xi, yi, di, ei, ji) = (x as int, y as int, dx as int, dy as int, j as int);
        let (dd, ee, jj, de) = (di * di, ei * ei, ji * ji, di * ei);
        assert(xi * xi == 1000000 * ee + 2000 * (ji * de) + jj * dd) by (nonlinear_arith)
            requires
                xi == 1000 * ei + ji * di,
                dd == di * di,
                ee == ei * ei,
                jj == ji * ji,
                de == di * ei,
        ;
        assert(yi * yi == 1000000 * dd - 2000 * (ji * de) + jj * ee) by (nonlinear_arith)
            requires
                yi == ji * ei - 1000 * di,
                dd == di * di,
                ee == ei * ei,
                jj == ji * ji,
                de == di * ei,
        ;
        assert(dd + ee > 0) by (nonlinear_arith)
            requires
                di != 0 || ei != 0,
                dd == di * di,
                ee == ei * ei,
        ;
        assert(jj * dd >= 0 && jj * ee >= 0) by (nonlinear_arith)
            requires
                jj == ji * ji,
                dd == di * di,
                ee == ei * ei,
        ;
        assert(xi * xi + yi * yi > 0);
        assert(xi != 0 || yi != 0) by (nonlinear_arith)
            requires
                xi * xi + yi * yi > 0,
        ;
    }
    let v = Point { x, y };
    let r = normalize(v);
    assert(v == Point { x: launch_vector(d, j as int).0 as i64, y: launch_vector(d, j as int).1 as i64 });
    r
}

/// `a` is the enemy made from segment `seg` at parameter `u`, cone offset
/// `j`, speed `speed` and kind index `k`.
pub open spec fn enemy_from(
    a: Actor,
    seg: DirectedLineSegment,
    u: int,
    j: int,
    speed: int,
    k: int,
    assets: EnemyTextureAtlas,
) -> bool {
    &&& a.position == seg.point_at_spec(u)
    &&& a.kind matches ActorKind::Enemy(kind, e) && {
        &&& kind == kind_of(k)
        &&& e.speed == speed
        &&& launch_direction_spec(seg.delta(), j, e.direction)
        &&& fresh(a.animation, ENEMY_FRAME_MS as nat, assets.sheet_of(kind))
    }
}

/// `w1` and `r` are the outcome of an attempt to add to `w0` an actor of which
/// `made` holds: on success it is appended under the next id, on failure
/// nothing changes.
pub open spec fn spawned(w0: World, w1: World, r: Result<u64, SpawnError>, made: spec_fn(Actor) -> bool) -> bool {
    &&& w1.wf()
    &&& w1.capacity_spec() == w0.capacity_spec()
    &&& (r is Ok <==> (w0.actors_spec().len() < w0.capacity_spec() && w0.next_id_spec() < u64::MAX))
    &&& w0.actors_spec().len() >= w0.capacity_spec() ==> r == Err::<u64, SpawnError>(SpawnError::SpawnCapacityExceeded)
    &&& (w0.actors_spec().len() < w0.capacity_spec() && w0.next_id_spec() == u64::MAX) ==> r == Err::<u64, SpawnError>(
        SpawnError::IdsExhausted,
    )
    &&& r is Err ==> w1 == w0
    &&& r matches Ok(id) ==> {
        &&& id == w0.next_id_spec()
        &&& w1.next_id_spec() == id + 1
        &&& w1.actors_spec().len() == w0.actors_spec().len() + 1
        &&& w1.actors_spec().drop_last() == w0.actors_spec()
        &&& w1.actors_spec().last().id == id
        &&& made(w1.actors_spec().last())
    }
}

/// Adds the enemy made from the given draws: position `u / SAMPLE_RESOLUTION`
/// along `seg`, launch cone offset `j`, `speed`, and kind index `k`.
pub fn spawn_enemy_at(
    world: &mut World,
    seg: &DirectedLineSegment,
    u: i64,
    j: i64,
    speed: u16,
    k: u64,
    assets: &EnemyTextureAtlas,
) -> (r: Result<u64, SpawnError>)
    requires
        old(world).wf(),
        seg.wf(),
        0 <= u <= SAMPLE_RESOLUTION,
        -CONE_SCALE <= j <= CONE_SCALE,
        k < 3,
        assets.wf(),
    ensures
        spawned(*old(world), *final(world), r, |a: Actor| enemy_from(a, *seg, u as int, j as int, speed as int, k as int, *assets)),
{
    let position = seg.point_at(u);
    let direction = launch_direction(seg, j);
    let (kind, sheet) = assets.pick(k);
    let animation = Animation::new(ENEMY_FRAME_MS, sheet);
    let ghost w0 = *world;
    let r = world.spawn(ActorKind::Enemy(kind, Enemy { direction, speed }), position, animation);
    proof {
        if r is Ok {
            assert(world.actors_spec().drop_last() == w0.actors_spec());
        }
    }
    r
}

/// `w1`, `t1` and `r` are what one tick of the enemy spawner makes of
/// `w0` and `t0`: see `spawn_enemy`.
pub open spec fn spawner_ticked(
    w0: World,
    t0: Timer,
    path: Path,
    assets: EnemyTextureAtlas,
    delta: nat,
    w1: World,
    t1: Timer,
    r: Result<Option<u64>, SpawnError>,
) -> bool {
    &&& t1.wf()
    &&& t1.duration_spec() == t0.duration_spec()
    &&& t1.elapsed_spec() == remainder_after(t0.elapsed_spec(), t0.duration_spec(), delta)
    &&& periods_finished(t0.elapsed_spec(), t0.duration_spec(), delta) == 0 ==> {
        &&& r == Ok::<Option<u64>, SpawnError>(None)
        &&& w1 == w0
    }
    &&& periods_finished(t0.elapsed_spec(), t0.duration_spec(), delta) > 0 ==> {
        let res = match r {
            Ok(Some(id)) => Ok(id),
            Ok(None) => Err(SpawnError::IdsExhausted),
            Err(e) => Err(e),
        };
        &&& !(r matches Ok(None))
        &&& spawned(w0, w1, res, |a: Actor|
            exists|i: int, seg: DirectedLineSegment, u: int, j: int, speed: int, k: int|
                #![trigger enemy_from(a, seg, u, j, speed, k, assets), path.points()[i]]
                0 <= i < path.points().len()
                && seg.begin_spec() == path.points()[i]
                && seg.end_spec() == path.points()[(i + 1) % path.points().len() as int]
                && 0 <= u <= SAMPLE_RESOLUTION
                && -CONE_SCALE <= j <= CONE_SCALE
                && MIN_ENEMY_SPEED <= speed < MAX_ENEMY_SPEED
                && 0 <= k < 3
                && enemy_from(a, seg, u, j, speed, k, assets))
    }
}

/// One tick of the enemy spawner: the timer runs for `delta` milliseconds and,
/// if at least one period finished, one enemy is made from fresh draws of
/// `rng` on a random edge of `path`. `Ok(None)` when the timer did not fire;
/// an error when the world had no room, in which case nothing changes and the
/// next firing tries again.
pub fn spawn_enemy(
    world: &mut World,
    timer: &mut Timer,
    path: &Path,
    assets: &EnemyTextureAtlas,
    rng: &mut rand::rngs::StdRng,
    delta: u32,
) -> (r: Result<Option<u64>, SpawnError>)
    requires
        old(world).wf(),
        old(timer).wf(),
        path.wf(),
        assets.wf(),
    ensures
        spawner_ticked(*old(world), *old(timer), *path, *assets, delta as nat, *final(world), *final(timer), r),
{
    let fired: u64 = timer.tick(delta);
    if fired == 0 {
        return Ok(None);
    }
    let seg = path.random_segment(rng);
    let u: u64 = gen_range_u64(rng, 0, SAMPLE_RESOLUTION as u64 + 1);
    let j: u64 = gen_range_u64(rng, 0, 2 * CONE_SCALE as u64 + 1);
    let speed: u64 = gen_range_u64(rng, MIN_ENEMY_SPEED as u64, MAX_ENEMY_SPEED as u64);
    let k: u64 = gen_range_u64(rng, 0, 3);
    let r = spawn_enemy_at(world, &seg, u as i64, j as i64 - CONE_SCALE, speed as u16, k, assets);
    match r {
        Ok(id) => Ok(Some(id)),
        Err(e) => Err(e),
    }
}

/// `a` is a freshly made player: at the origin, at `PLAYER_SPEED`, showing
/// the `up` sheet from its first frame.
pub open spec fn player_from(a: Actor, assets: PlayerTextureAtlas) -> bool {
    &&& a.position == Point { x: 0, y: 0 }
    &&& a.kind == ActorKind::Player(Player { speed: PLAYER_SPEED })
    &&& fresh(a.animation, PLAYER_FRAME_MS as nat, assets.up)
}

/// Adds a fresh player to the world.
pub fn spawn_player(world: &mut World, assets: &PlayerTextureAtlas) -> (r: Result<u64, SpawnError>)
    requires
        old(world).wf(),
        assets.wf(),
    ensures
        spawned(*old(world), *final(world), r, |a: Actor| player_from(a, *assets)),
{
    let animation = Animation::new(PLAYER_FRAME_MS, assets.up);
    let ghost w0 = *world;
    let r = world.spawn(ActorKind::Player(Player { speed: PLAYER_SPEED }), Point { x: 0, y: 0 }, animation);
    proof {
        if r is Ok {
            assert(world.actors_spec().drop_last() == w0.actors_spec());
        }
    }
    r
}

} // verus!
