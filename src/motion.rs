use vstd::prelude::*;

use crate::animation::{switched_to, Animation, AppearanceHandle};
use crate::geometry::{trunc_div, Point, DIR_SCALE};

verus! {

/// Positions handled by the motion code stay within this distance of the
/// origin on each axis, so that no step overflows.
pub const WORLD_LIMIT: i64 = 0x4000000000000; // 2^50

/// How far (in thousandths of a pixel) a direction component `c` carries an
/// actor moving at `speed` pixels per second during `delta` milliseconds.
pub open spec fn displacement(c: int, speed: int, delta: int) -> int {
    trunc_div(c * speed * delta, DIR_SCALE as int)
}

pub open spec fn in_world(p: Point) -> bool {
    -WORLD_LIMIT <= p.x <= WORLD_LIMIT && -WORLD_LIMIT <= p.y <= WORLD_LIMIT
}

/// The farthest one step can carry an actor along one axis: full speed
/// (`u16::MAX` pixels per second) for the longest tick (`u32::MAX` ms).
pub const MAX_STEP: i64 = 281_470_681_677_825;

/// Moves coordinate `c` along direction component `dir` at `speed` for `delta` ms.
fn axis_step(c: i64, dir: i64, speed: u16, delta: u32) -> (r: i64)
    requires
        -WORLD_LIMIT <= c <= WORLD_LIMIT,
        -DIR_SCALE <= dir <= DIR_SCALE,
    ensures
        r == c + displacement(dir as int, speed as int, delta as int),
        c - MAX_STEP <= r <= c + MAX_STEP,
{
    assert(-65_535_000 <= dir * speed <= 65_535_000) by (nonlinear_arith)
        requires
            -1000 <= dir <= 1000,
            0 <= speed <= 65535,
    ;
    let p1: i128 = dir as i128 * speed as i128;
    assert(-1000 * MAX_STEP <= p1 * delta <= 1000 * MAX_STEP) by (nonlinear_arith)
        requires
            -65_535_000 <= p1 <= 65_535_000,
            0 <= delta <= 0xffffffff,
    ;
    let prod: i128 = p1 * delta as i128;
    let d: i128 = if prod >= 0 {
        (prod as u128 / 1000) as i128
    } else {
        -(((-prod) as u128 / 1000) as i128)
    };
    (c as i128 + d) as i64
}

/// `position` after moving along `direction` at `speed` for `delta` ms.
pub open spec fn integrate_spec(position: Point, direction: Point, speed: int, delta: int) -> (int, int) {
    (
        position.x + displacement(direction.x as int, speed, delta),
        position.y + displacement(direction.y as int, speed, delta),
    )
}

/// `position + direction * speed * delta`, each axis rounded toward zero.
pub fn integrate(position: Point, direction: Point, speed: u16, delta: u32) -> (r: Point)
    requires
        in_world(position),
        -DIR_SCALE <= direction.x <= DIR_SCALE,
        -DIR_SCALE <= direction.y <= DIR_SCALE,
    ensures
        (r.x as int, r.y as int) == integrate_spec(position, direction, speed as int, delta as int),
{
    Point {
        x: axis_step(position.x, direction.x, speed, delta),
        y: axis_step(position.y, direction.y, speed, delta),
    }
}

/// An axis-aligned rectangle of the play field.
#[derive(Clone, Copy, Debug, PartialEq, Eq, Structural)]
pub struct Bounds {
    pub min_x: i64,
    pub max_x: i64,
    pub min_y: i64,
    pub max_y: i64,
}

impl Bounds {
    pub open spec fn wf(&self) -> bool {
        &&& -WORLD_LIMIT <= self.min_x <= self.max_x <= WORLD_LIMIT
        &&& -WORLD_LIMIT <= self.min_y <= self.max_y <= WORLD_LIMIT
    }

    /// Inside the closed rectangle: its edges count as inside.
    pub open spec fn holds(&self, x: int, y: int) -> bool {
        self.min_x <= x <= self.max_x && self.min_y <= y <= self.max_y
    }

    pub open spec fn enemy_field_spec() -> Bounds {
        Bounds { min_x: -250_000i64, max_x: 250_000, min_y: -400_000i64, max_y: 400_000 }
    }

    pub open spec fn player_field_spec() -> Bounds {
        Bounds { min_x: -200_000i64, max_x: 200_000, min_y: -360_000i64, max_y: 360_000 }
    }

    /// The field in which enemies live: 250 pixels either side, 400 up and down.
    pub fn enemy_field() -> (r: Bounds)
        ensures
            r.wf(),
            r == Bounds::enemy_field_spec(),
    {
        Bounds { min_x: -250_000, max_x: 250_000, min_y: -400_000, max_y: 400_000 }
    }

    /// The area the player is kept within: 200 pixels either side, 360 up and down.
    pub fn player_field() -> (r: Bounds)
        ensures
            r.wf(),
            r == Bounds::player_field_spec(),
    {
        Bounds { min_x: -200_000, max_x: 200_000, min_y: -360_000, max_y: 360_000 }
    }

    pub fn contains(&self, p: Point) -> (r: bool)
        ensures
            r == self.holds(p.x as int, p.y as int),
    {
        self.min_x <= p.x && p.x <= self.max_x && self.min_y <= p.y && p.y <= self.max_y
    }

    /// The point of the closed rectangle nearest to `p`, axis by axis.
    pub fn clamp(&self, p: Point) -> (r: Point)
        requires
            self.wf(),
        ensures
            r.x == clamp_spec(p.x as int, self.min_x as int, self.max_x as int),
            r.y == clamp_spec(p.y as int, self.min_y as int, self.max_y as int),
    {
        let x: i64 = if p.x < self.min_x {
            self.min_x
        } else if p.x > self.max_x {
            self.max_x
        } else {
            p.x
        };
        let y: i64 = if p.y < self.min_y {
            self.min_y
        } else if p.y > self.max_y {
            self.max_y
        } else {
            p.y
        };
        Point { x, y }
    }
}

pub open spec fn clamp_spec(v: int, lo: int, hi: int) -> int {
    if v < lo {
        lo
    } else if v > hi {
        hi
    } else {
        v
    }
}

/// What moves an enemy: a direction of length about `DIR_SCALE` and a speed
/// in pixels per second.
#[derive(Clone, Copy, Debug, PartialEq, Eq, Structural)]
pub struct Enemy {
    pub direction: Point,
    pub speed: u16,
}

impl Enemy {
    pub open spec fn wf(&self) -> bool {
        &&& -DIR_SCALE <= self.direction.x <= DIR_SCALE
        &&& -DIR_SCALE <= self.direction.y <= DIR_SCALE
    }
}

/// The player's speed in pixels per second.
#[derive(Clone, Copy, Debug, PartialEq, Eq, Structural)]
pub struct Player {
    pub speed: u16,
}

/// Moves an enemy one step; `None` when the new position has left `bounds`,
/// which means the enemy is to be despawned.
pub fn move_enemy(position: Point, enemy: &Enemy, delta: u32, bounds: &Bounds) -> (r: Option<Point>)
    requires
        in_world(position),
        enemy.wf(),
    ensures
        ({
            let (x, y) = integrate_spec(position, enemy.direction, enemy.speed as int, delta as int);
            &&& bounds.holds(x, y) ==> r == Some(Point { x: x as i64, y: y as i64 })
            &&& !bounds.holds(x, y) ==> r.is_none()
        }),
        r matches Some(p) ==> bounds.holds(p.x as int, p.y as int),
{
    let next: Point = integrate(position, enemy.direction, enemy.speed, delta);
    if bounds.contains(next) {
        Some(next)
    } else {
        None
    }
}

/// Which of the four arrow keys are held down this tick.
#[derive(Clone, Copy, Debug, PartialEq, Eq, Structural)]
pub struct PlayerInput {
    pub up: bool,
    pub down: bool,
    pub left: bool,
    pub right: bool,
}

pub open spec fn axis_of(plus: bool, minus: bool) -> int {
    (if plus { 1int } else { 0int }) - (if minus { 1int } else { 0int })
}

/// The player's movement this tick, in thousandths of a pixel per axis.
pub open spec fn player_movement(input: PlayerInput, speed: int, delta: int) -> (int, int) {
    (
        axis_of(input.right, input.left) * speed * delta,
        axis_of(input.up, input.down) * speed * delta,
    )
}

/// A key axis (-1, 0 or 1) carries the player `axis * speed * delta`
/// thousandths of a pixel: the rounding in `displacement` is exact here.
proof fn lemma_unit_axis_displacement(axis: int, speed: int, delta: int)
    requires
        -1 <= axis <= 1,
        0 <= speed,
        0 <= delta,
    ensures
        displacement(axis * DIR_SCALE, speed, delta) == axis * speed * delta,
{
    let sd = speed * delta;
    assert(sd >= 0) by (nonlinear_arith)
        requires
            0 <= speed,
            0 <= delta,
            sd == speed * delta,
    ;
    assert(axis * 1000 * speed * delta == (axis * sd) * 1000) by (nonlinear_arith)
        requires
            sd == speed * delta,
    ;
    assert(axis * speed * delta == axis * sd) by (nonlinear_arith)
        requires
            sd == speed * delta,
    ;
    if axis == 1 {
        assert((sd * 1000) / 1000 == sd);
    } else if axis == -1 {
        assert(((-sd) * 1000 == -(sd * 1000)));
        assert((sd * 1000) / 1000 == sd);
    } else {
        assert(axis * sd == 0);
    }
}

/// The player's two sprite sheets: facing up and walking sideways.
#[derive(Clone, Copy, Debug, PartialEq, Eq, Structural)]
pub struct PlayerTextureAtlas {
    pub up: AppearanceHandle,
    pub walk: AppearanceHandle,
}

impl PlayerTextureAtlas {
    pub open spec fn wf(&self) -> bool {
        self.up.wf() && self.walk.wf()
    }
}

fn axis(plus: bool, minus: bool) -> (r: i64)
    ensures
        r == axis_of(plus, minus),
{
    let p: i64 = if plus { 1 } else { 0 };
    let m: i64 = if minus { 1 } else { 0 };
    p - m
}

/// The player at `pos1` with `anim1` is the player at `pos0` with `anim0`
/// after one tick of control by `input`: see `keyboard_move_player`.
pub open spec fn player_stepped(
    input: PlayerInput,
    delta: int,
    player: Player,
    assets: PlayerTextureAtlas,
    bounds: Bounds,
    pos0: Point,
    anim0: Animation,
    pos1: Point,
    anim1: Animation,
) -> bool {
    &&& anim1.wf()
    &&& in_world(pos1)
    &&& anim1.clock() == anim0.clock()
    &&& ({
        let (mx, my) = player_movement(input, player.speed as int, delta);
        if mx == 0 && my == 0 {
            &&& pos1 == pos0
            &&& !anim1.playing()
            &&& anim1.flipped_x() == anim0.flipped_x()
            &&& anim1.flipped_y() == anim0.flipped_y()
            &&& anim1.same_progress(anim0)
        } else {
            &&& pos1.x == clamp_spec(pos0.x + mx, bounds.min_x as int, bounds.max_x as int)
            &&& pos1.y == clamp_spec(pos0.y + my, bounds.min_y as int, bounds.max_y as int)
            &&& anim1.playing()
            &&& mx == 0 ==> {
                &&& switched_to(anim0, assets.up, anim1)
                &&& anim1.flipped_y() == (my < 0)
                &&& anim1.flipped_x() == anim0.flipped_x()
            }
            &&& mx != 0 ==> {
                &&& switched_to(anim0, assets.walk, anim1)
                &&& !anim1.flipped_y()
                &&& anim1.flipped_x() == (mx < 0)
            }
        }
    })
}

/// One tick of player control. Without movement the animation stops and the
/// player stays put. Otherwise the animation plays, vertical movement shows the
/// `up` sheet flipped when heading down, sideways movement shows the `walk`
/// sheet flipped when heading left, and the player moves, kept within `bounds`.
pub fn keyboard_move_player(
    input: PlayerInput,
    delta: u32,
    player: &Player,
    assets: &PlayerTextureAtlas,
    bounds: &Bounds,
    position: &mut Point,
    animation: &mut Animation,
)
    requires
        old(animation).wf(),
        assets.wf(),
        bounds.wf(),
        in_world(*old(position)),
    ensures
        player_stepped(input, delta as int, *player, *assets, *bounds, *old(position), *old(animation), *final(position), *final(animation)),
{
    let ax: i64 = axis(input.right, input.left);
    let ay: i64 = axis(input.up, input.down);
    let mx: i64 = axis_step(0, ax * DIR_SCALE, player.speed, delta);
    let my: i64 = axis_step(0, ay * DIR_SCALE, player.speed, delta);
    proof {
        lemma_unit_axis_displacement(ax as int, player.speed as int, delta as int);
        lemma_unit_axis_displacement(ay as int, player.speed as int, delta as int);
    }
    if mx == 0 && my == 0 {
        animation.stop();
    } else {
        animation.play();
        if mx == 0 {
            animation.update_texture_atlas(&assets.up);
            animation.flip_y(my < 0);
        } else {
            animation.update_texture_atlas(&assets.walk);
            animation.flip_y(false);
            animation.flip_x(mx < 0);
        }
        let moved = Point { x: position.x + mx, y: position.y + my };
        *position = bounds.clamp(moved);
    }
}

} // verus!
