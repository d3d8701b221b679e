use vstd::prelude::*;

use crate::timer::{lemma_tick_additive, periods_finished, remainder_after, Timer};

verus! {

/// An opaque sprite-sheet token handed over by the asset system, with the
/// number of frames that the sheet holds.
#[derive(Clone, Copy, Debug, PartialEq, Eq, Structural)]
pub struct AppearanceHandle {
    pub id: u64,
    pub frame_count: usize,
}

impl AppearanceHandle {
    pub open spec fn wf(&self) -> bool {
        self.frame_count > 0
    }
}

/// The frame shown after a clock that stood at `frame`, with `elapsed`
/// milliseconds accumulated, runs for `delta` more milliseconds.
pub open spec fn frame_after(frame: nat, count: nat, elapsed: nat, interval: nat, delta: nat) -> nat {
    (frame + periods_finished(elapsed, interval, delta)) % count
}

/// `after` shows `h` as `before` switched to it would: the sheet is replaced
/// only when its id differs, and then the frame index is reduced modulo the
/// new frame count.
pub open spec fn switched_to(before: Animation, h: AppearanceHandle, after: Animation) -> bool {
    if before.appearance().id == h.id {
        after.appearance() == before.appearance() && after.frame() == before.frame()
    } else {
        after.appearance() == h && after.frame() == before.frame() % (h.frame_count as nat)
    }
}

/// `a` is a clock just made by `Animation::new(interval, h)`.
pub open spec fn fresh(a: Animation, interval: nat, h: AppearanceHandle) -> bool {
    &&& a.wf()
    &&& a.playing()
    &&& !a.flipped_x()
    &&& !a.flipped_y()
    &&& a.appearance() == h
    &&& a.frame() == 0
    &&& a.clock().duration_spec() == interval
    &&& a.clock().elapsed_spec() == 0
}

/// Per-actor animation clock: it steps through the frames of the current
/// appearance, one frame per interval, while it plays.
///
/// A change of appearance keeps the clock running and keeps the frame index,
/// reduced modulo the new sheet's frame count so that it always names a frame
/// of the sheet shown.
#[derive(Clone, Copy)]
pub struct Animation {
    play: bool,
    timer: Timer,
    flip_x: bool,
    flip_y: bool,
    texture_atlas: AppearanceHandle,
    frame_index: usize,
}

impl Animation {
    pub closed spec fn playing(&self) -> bool {
        self.play
    }

    pub closed spec fn clock(&self) -> Timer {
        self.timer
    }

    pub closed spec fn flipped_x(&self) -> bool {
        self.flip_x
    }

    pub closed spec fn flipped_y(&self) -> bool {
        self.flip_y
    }

    pub closed spec fn appearance(&self) -> AppearanceHandle {
        self.texture_atlas
    }

    pub closed spec fn frame(&self) -> nat {
        self.frame_index as nat
    }

    /// Same clock, appearance and frame: the parts that `play`, `stop` and the
    /// flips leave alone.
    pub open spec fn same_progress(&self, other: Animation) -> bool {
        &&& self.clock() == other.clock()
        &&& self.appearance() == other.appearance()
        &&& self.frame() == other.frame()
    }

    pub open spec fn wf(&self) -> bool {
        &&& self.clock().wf()
        &&& self.appearance().wf()
        &&& self.frame() < self.appearance().frame_count
    }

    /// A playing clock on frame 0 of `texture_atlas`, advancing every
    /// `interval` milliseconds.
    pub fn new(interval: u32, texture_atlas: AppearanceHandle) -> (r: Animation)
        requires
            interval > 0,
            texture_atlas.wf(),
        ensures
            fresh(r, interval as nat, texture_atlas),
    {
        Animation {
            play: true,
            timer: Timer::from_millis(interval),
            flip_x: false,
            flip_y: false,
            texture_atlas,
            frame_index: 0,
        }
    }

    /// Switches to `texture_atlas` unless it is the appearance already shown.
    pub fn update_texture_atlas(&mut self, texture_atlas: &AppearanceHandle)
        requires
            old(self).wf(),
            texture_atlas.wf(),
        ensures
            final(self).wf(),
            final(self).playing() == old(self).playing(),
            final(self).clock() == old(self).clock(),
            final(self).flipped_x() == old(self).flipped_x(),
            final(self).flipped_y() == old(self).flipped_y(),
            old(self).appearance().id == texture_atlas.id ==> *final(self) == *old(self),
            switched_to(*old(self), *texture_atlas, *final(self)),
    {
        if self.texture_atlas.id != texture_atlas.id {
            self.texture_atlas = *texture_atlas;
            self.frame_index = self.frame_index % texture_atlas.frame_count;
        }
    }

    pub fn play(&mut self)
        ensures
            final(self).playing(),
            final(self).flipped_x() == old(self).flipped_x(),
            final(self).flipped_y() == old(self).flipped_y(),
            final(self).same_progress(*old(self)),
    {
        self.play = true;
    }

    pub fn flip_x(&mut self, b: bool)
        ensures
            final(self).flipped_x() == b,
            final(self).playing() == old(self).playing(),
            final(self).flipped_y() == old(self).flipped_y(),
            final(self).same_progress(*old(self)),
    {
        self.flip_x = b;
    }

    pub fn flip_y(&mut self, b: bool)
        ensures
            final(self).flipped_y() == b,
            final(self).playing() == old(self).playing(),
            final(self).flipped_x() == old(self).flipped_x(),
            final(self).same_progress(*old(self)),
    {
        self.flip_y = b;
    }

    pub fn stop(&mut self)
        ensures
            !final(self).playing(),
            final(self).flipped_x() == old(self).flipped_x(),
            final(self).flipped_y() == old(self).flipped_y(),
            final(self).same_progress(*old(self)),
    {
        self.play = false;
    }

    pub fn is_playing(&self) -> (r: bool)
        ensures
            r == self.playing(),
    {
        self.play
    }

    pub fn frame_index(&self) -> (r: usize)
        ensures
            r == self.frame(),
    {
        self.frame_index
    }

    pub fn current_appearance(&self) -> (r: AppearanceHandle)
        ensures
            r == self.appearance(),
    {
        self.texture_atlas
    }

    pub fn is_flipped_x(&self) -> (r: bool)
        ensures
            r == self.flipped_x(),
    {
        self.flip_x
    }

    pub fn is_flipped_y(&self) -> (r: bool)
        ensures
            r == self.flipped_y(),
    {
        self.flip_y
    }
}

/// `after` is `before` run for `delta` milliseconds.
pub open spec fn ticked(before: Animation, delta: nat, after: Animation) -> bool {
    &&& after.wf()
    &&& after.playing() == before.playing()
    &&& after.appearance() == before.appearance()
    &&& after.flipped_x() == before.flipped_x()
    &&& after.flipped_y() == before.flipped_y()
    &&& after.clock().duration_spec() == before.clock().duration_spec()
    &&& !before.playing() ==> after == before
    &&& before.playing() ==> {
        &&& after.frame() == frame_after(
            before.frame(),
            before.appearance().frame_count as nat,
            before.clock().elapsed_spec(),
            before.clock().duration_spec(),
            delta,
        )
        &&& after.clock().elapsed_spec() == remainder_after(
            before.clock().elapsed_spec(),
            before.clock().duration_spec(),
            delta,
        )
    }
}

/// Advances a playing clock by `delta` milliseconds: every full interval that
/// passes moves the frame on by one, wrapping round the sheet; a stopped clock
/// is left as it is.
pub fn update_animation(animation: &mut Animation, delta: u32)
    requires
        old(animation).wf(),
    ensures
        ticked(*old(animation), delta as nat, *final(animation)),
{
    if animation.play {
        let finished: u64 = animation.timer.tick(delta);
        let count: usize = animation.texture_atlas.frame_count;
        let step: u128 = finished as u128 % (count as u128);
        let next: u128 = (animation.frame_index as u128 + step) % (count as u128);
        proof {
            vstd::arithmetic::div_mod::lemma_add_mod_noop_right(
                animation.frame_index as int,
                finished as int,
                count as int,
            );
        }
        animation.frame_index = next as usize;
    }
}

/// Running a clock for `d1` and then for `d2` milliseconds shows the same
/// frame, with the same time carried over, as running it for `d1 + d2`.
pub proof fn lemma_animation_sum_invariant(
    frame: nat,
    count: nat,
    elapsed: nat,
    interval: nat,
    d1: nat,
    d2: nat,
)
    requires
        0 < count,
        0 < interval,
        elapsed < interval,
    ensures
        frame_after(
            frame_after(frame, count, elapsed, interval, d1),
            count,
            remainder_after(elapsed, interval, d1),
            interval,
            d2,
        ) == frame_after(frame, count, elapsed, interval, d1 + d2),
        remainder_after(remainder_after(elapsed, interval, d1), interval, d2) == remainder_after(
            elapsed,
            interval,
            d1 + d2,
        ),
{
    lemma_tick_additive(elapsed, interval, d1, d2);
    let k1 = periods_finished(elapsed, interval, d1) as int;
    let k2 = periods_finished(remainder_after(elapsed, interval, d1), interval, d2) as int;
    vstd::arithmetic::div_mod::lemma_add_mod_noop_right(k2, frame + k1, count as int);
}

/// A clock that starts a period afresh and runs for `k` whole intervals, in
/// one tick or in any number of them, moves on by exactly `k` frames modulo
/// the frame count.
pub proof fn lemma_whole_intervals_advance(frame: nat, count: nat, interval: nat, k: nat)
    requires
        0 < count,
        0 < interval,
    ensures
        frame_after(frame, count, 0, interval, k * interval) == (frame + k) % count,
        remainder_after(0, interval, k * interval) == 0,
{
    vstd::arithmetic::div_mod::lemma_div_multiples_vanish(k as int, interval as int);
    vstd::arithmetic::div_mod::lemma_mod_multiples_basic(k as int, interval as int);
    assert(k * interval == interval * k) by (nonlinear_arith);
}

/// For a well-formed clock, running `d1` then `d2` milliseconds and running
/// `d1 + d2` at once end on the same frame with the same time carried over.
pub proof fn lemma_ticked_sum_invariant(a: Animation, b: Animation, c: Animation, whole: Animation, d1: nat, d2: nat)
    requires
        a.wf(),
        ticked(a, d1, b),
        ticked(b, d2, c),
        ticked(a, d1 + d2, whole),
    ensures
        c.frame() == whole.frame(),
        c.clock().elapsed_spec() == whole.clock().elapsed_spec(),
        c.playing() == whole.playing(),
        c.appearance() == whole.appearance(),
{
    if a.playing() {
        lemma_animation_sum_invariant(
            a.frame(),
            a.appearance().frame_count as nat,
            a.clock().elapsed_spec(),
            a.clock().duration_spec(),
            d1,
            d2,
        );
    }
}

/// The sum of a list of tick lengths.
pub open spec fn total(ds: Seq<nat>) -> nat
    decreases ds.len(),
{
    if ds.len() == 0 {
        0
    } else {
        total(ds.drop_last()) + ds.last()
    }
}

/// `states` is a run of a clock: `states[i + 1]` is `states[i]` ticked by `ds[i]`.
pub open spec fn tick_run(states: Seq<Animation>, ds: Seq<nat>) -> bool {
    &&& states.len() == ds.len() + 1
    &&& forall|i: int| 0 <= i < ds.len() ==> ticked(#[trigger] states[i], ds[i], states[i + 1])
}

/// After the first `k` ticks of a run, the clock stands where one tick by
/// their total would have put it.
proof fn lemma_run_prefix(states: Seq<Animation>, ds: Seq<nat>, k: int)
    requires
        states[0].wf(),
        tick_run(states, ds),
        0 <= k <= ds.len(),
    ensures
        states[k].playing() == states[0].playing(),
        states[k].appearance() == states[0].appearance(),
        states[k].clock().duration_spec() == states[0].clock().duration_spec(),
        !states[0].playing() ==> states[k] == states[0],
        states[0].playing() ==> {
            &&& states[k].frame() == frame_after(
                states[0].frame(),
                states[0].appearance().frame_count as nat,
                states[0].clock().elapsed_spec(),
                states[0].clock().duration_spec(),
                total(ds.take(k)),
            )
            &&& states[k].clock().elapsed_spec() == remainder_after(
                states[0].clock().elapsed_spec(),
                states[0].clock().duration_spec(),
                total(ds.take(k)),
            )
        },
    decreases k,
{
    let a = states[0];
    let count = a.appearance().frame_count as nat;
    let e0 = a.clock().elapsed_spec();
    let dur = a.clock().duration_spec();
    if k == 0 {
        assert(ds.take(0).len() == 0);
        vstd::arithmetic::div_mod::lemma_basic_div(e0 as int, dur as int);
        vstd::arithmetic::div_mod::lemma_small_mod(e0, dur);
        vstd::arithmetic::div_mod::lemma_small_mod(a.frame(), count);
    } else {
        lemma_run_prefix(states, ds, k - 1);
        assert(ds.take(k).drop_last() == ds.take(k - 1));
        assert(ds.take(k).last() == ds[k - 1]);
        assert(ticked(states[k - 1], ds[k - 1], states[k]));
        if a.playing() {
            lemma_animation_sum_invariant(a.frame(), count, e0, dur, total(ds.take(k - 1)), ds[k - 1]);
        }
    }
}

/// Sum-invariance over any split: a clock ticked by `ds[0]`, `ds[1]`, ... in
/// turn ends on the same frame, with the same time carried over, as the clock
/// ticked once by their total. When it starts a period afresh and the total is
/// `k` whole intervals, that frame is `k` frames on, modulo the frame count.
pub proof fn lemma_ticked_any_split(states: Seq<Animation>, ds: Seq<nat>, whole: Animation, k: nat)
    requires
        states[0].wf(),
        tick_run(states, ds),
        ticked(states[0], total(ds), whole),
    ensures
        states.last().frame() == whole.frame(),
        states.last().clock().elapsed_spec() == whole.clock().elapsed_spec(),
        states.last().playing() == whole.playing(),
        states.last().appearance() == whole.appearance(),
        states[0].playing() && states[0].clock().elapsed_spec() == 0 && total(ds) == k
            * states[0].clock().duration_spec() ==> states.last().frame() == (states[0].frame() + k)
            % (states[0].appearance().frame_count as nat),
{
    lemma_run_prefix(states, ds, ds.len() as int);
    assert(ds.take(ds.len() as int) == ds);
    assert(states.last() == states[ds.len() as int]);
    let a = states[0];
    if a.playing() && a.clock().elapsed_spec() == 0 && total(ds) == k * a.clock().duration_spec() {
        lemma_whole_intervals_advance(a.frame(), a.appearance().frame_count as nat, a.clock().duration_spec(), k);
    }
}

} // verus!
