//! The pipe ring: a fixed-capacity circular buffer of obstacle pairs that
//! scrolls left in lock-step and recycles the leftmost pair to the right of
//! the farthest one, simulating infinite scrolling without allocation.
use vstd::prelude::*;

use crate::geometry::{rect_in_range, rects_overlap, Rect, RectV};
use crate::rng::{advanced_rng, rng_wf, sample_of, seeded_rng, Rng};
use crate::{COORD_LIMIT, DT_MAX, SCALE, SCREEN_HEIGHT, SCREEN_WIDTH};

verus! {

/// Width of every pipe, in steps (100 screen units).
pub const PIPE_WIDTH: i64 = 1_000_000;

/// Vertical gap between the upper and lower pipe of a pair, in steps
/// (200 screen units).
pub const PIPE_GAP: i64 = 2_000_000;

/// Horizontal distance between consecutive pairs, in steps (350 screen
/// units: 250 of daylight plus one pipe width).
pub const PIPE_DISTANCE: i64 = 3_500_000;

/// Horizontal scroll speed, in steps per millisecond (300 units/s).
pub const PIPE_SPEED: i64 = 3_000;

/// Least height the sampler may give the upper pipe, in screen units.
pub const TOP_HEIGHT_MIN: u32 = 100;

/// One past the greatest height the sampler may give the upper pipe, in
/// screen units. The greatest sample plus the gap still leaves 100 units for
/// the lower pipe, so a sampled pair always fits on screen; the constants
/// enforce this at construction time, there is no runtime clamping.
pub const TOP_HEIGHT_MAX: u32 = 300;

/// Where a freshly built ring places its leftmost pair: just past the right
/// screen edge.
pub const FIRST_PIPE_X: i64 = SCREEN_WIDTH;

/// A pair whose x has fallen below this threshold is fully offscreen with
/// half a pipe width to spare (one and a half widths left of the edge) and
/// is recycled.
pub const RECYCLE_X: i64 = -1_500_000;

/// Upper bound on the ring capacity, so that the x coordinate of the
/// farthest pair stays small.
pub const MAX_CAPACITY: usize = 10_000;

/// Mathematical state of one pipe: upper-left corner and vertical extent;
/// the width is the fixed constant.
pub ghost struct PipeV {
    pub x: int,
    pub y: int,
    pub h: int,
}

/// Mathematical state of a pair: its upper and lower pipe.
pub ghost struct PairV {
    pub up: PipeV,
    pub down: PipeV,
}

/// Mathematical state of the ring: the pairs in buffer order, the index of
/// the logically leftmost pair, and the random source.
pub ghost struct PipesV {
    pub head: int,
    pub pairs: Seq<PairV>,
    pub rng: Rng,
}

/// One obstacle column: upper-left corner at `(x, y)`, extending `height`
/// steps down and one pipe width right.
#[derive(Clone, Copy, Debug, PartialEq, Eq, Structural)]
pub struct Pipe {
    pub x: i64,
    pub y: i64,
    pub height: i64,
}

/// One upper and one lower pipe sharing an x coordinate, forming one
/// passable gap.
#[derive(Clone, Copy, Debug, PartialEq, Eq, Structural)]
pub struct Pair {
    pub up: Pipe,
    pub down: Pipe,
}

/// The pipe ring: a fixed-capacity circular buffer of pairs, recycled in
/// place, with `head` naming the currently leftmost pair.
#[derive(Debug, PartialEq, Eq)]
pub struct Pipes {
    pub head: usize,
    pub rng: Rng,
    pub pipes: Vec<Pair>,
}

impl View for Pipe {
    type V = PipeV;

    open spec fn view(&self) -> PipeV {
        PipeV { x: self.x as int, y: self.y as int, h: self.height as int }
    }
}

impl View for Pair {
    type V = PairV;

    open spec fn view(&self) -> PairV {
        PairV { up: self.up@, down: self.down@ }
    }
}

impl View for Pipes {
    type V = PipesV;

    open spec fn view(&self) -> PipesV {
        PipesV {
            head: self.head as int,
            pairs: self.pipes@.map_values(|p: Pair| p@),
            rng: self.rng,
        }
    }
}

/// The rectangle a pipe covers.
pub open spec fn pipe_rect(p: PipeV) -> RectV {
    RectV { x: p.x, y: p.y, w: PIPE_WIDTH as int, h: p.h }
}

/// Vertical geometry of a well-formed pair: the pipes share their x, the
/// upper pipe starts at the top edge with a sampled height, and the lower
/// pipe starts one gap below it and runs to the bottom edge.
pub open spec fn pair_geometry_wf(p: PairV) -> bool {
    &&& p.up.x == p.down.x
    &&& p.up.y == 0
    &&& TOP_HEIGHT_MIN * SCALE <= p.up.h < TOP_HEIGHT_MAX * SCALE
    &&& p.down.y == p.up.h + PIPE_GAP
    &&& p.up.h + PIPE_GAP + p.down.h == SCREEN_HEIGHT
}

/// The pair both of whose pipes sit at `x`, with the upper pipe `sample`
/// screen units tall.
pub open spec fn fresh_pair(x: int, sample: u32) -> PairV {
    PairV {
        up: PipeV { x, y: 0, h: sample * SCALE },
        down: PipeV {
            x,
            y: sample * SCALE + PIPE_GAP,
            h: SCREEN_HEIGHT - (sample * SCALE + PIPE_GAP),
        },
    }
}

/// Buffer index of the `i`-th pair in ring order, counting from the head
/// and wrapping around once.
pub open spec fn ring_index(p: PipesV, i: int) -> int {
    if p.head + i < p.pairs.len() {
        p.head + i
    } else {
        p.head + i - p.pairs.len()
    }
}

/// The `i`-th pair in ring order, starting at the head.
pub open spec fn pair_at(p: PipesV, i: int) -> PairV {
    p.pairs[ring_index(p, i)]
}

/// The x coordinate of the leftmost (head) pair.
pub open spec fn front_x(p: PipesV) -> int {
    pair_at(p, 0).up.x
}

/// Ring invariant: the capacity is fixed and positive, the head is in
/// range, every pair is vertically well formed, and in ring order the pairs
/// sit at strictly increasing x, exactly one inter-pipe distance apart,
/// with the head pair within the horizontal window the simulation keeps.
pub open spec fn pipes_wf(p: PipesV) -> bool {
    &&& 1 <= p.pairs.len() <= MAX_CAPACITY
    &&& 0 <= p.head < p.pairs.len()
    &&& forall|j: int| 0 <= j < p.pairs.len() ==> pair_geometry_wf(#[trigger] p.pairs[j])
    &&& forall|i: int|
        0 <= i < p.pairs.len() ==> (#[trigger] pair_at(p, i)).up.x == front_x(p) + i
            * PIPE_DISTANCE
    &&& -COORD_LIMIT <= front_x(p) <= FIRST_PIPE_X
    &&& rng_wf(p.rng)
}

/// The pairs a respawn lays out from generator `rng`: the `j`-th sits at
/// `FIRST_PIPE_X + j * PIPE_DISTANCE` with a freshly sampled height, and the
/// generator advances once per pair.
pub open spec fn built_pairs(rng: Rng, count: nat) -> (Seq<PairV>, Rng)
    decreases count,
{
    if count == 0 {
        (Seq::empty(), rng)
    } else {
        let prev = built_pairs(rng, (count - 1) as nat);
        let sample = sample_of(prev.1, TOP_HEIGHT_MIN, TOP_HEIGHT_MAX);
        (
            prev.0.push(fresh_pair(FIRST_PIPE_X + (count - 1) * PIPE_DISTANCE, sample)),
            advanced_rng(prev.1, TOP_HEIGHT_MIN, TOP_HEIGHT_MAX),
        )
    }
}

/// The ring after every pair is respawned at the initial offscreen
/// positions: head back at the start, pairs laid out by `built_pairs`.
pub open spec fn pipes_respawned_all(rng: Rng, count: nat) -> PipesV {
    PipesV { head: 0, pairs: built_pairs(rng, count).0, rng: built_pairs(rng, count).1 }
}

/// In a well-formed ring every pair's x lies between the head pair's x and
/// the head pair's x plus the full span of the ring, and the two pipes of a
/// pair share their x.
pub proof fn lemma_wf_x_bounds(p: PipesV)
    requires
        pipes_wf(p),
    ensures
        forall|j: int|
            0 <= j < p.pairs.len() ==> front_x(p) <= (#[trigger] p.pairs[j]).up.x <= front_x(p) + (
            p.pairs.len() - 1) * PIPE_DISTANCE,
        forall|j: int|
            0 <= j < p.pairs.len() ==> (#[trigger] p.pairs[j]).down.x == p.pairs[j].up.x,
{
    let len = p.pairs.len() as int;
    assert forall|j: int| 0 <= j < len implies front_x(p) <= (#[trigger] p.pairs[j]).up.x <= front_x(
        p,
    ) + (len - 1) * PIPE_DISTANCE && p.pairs[j].down.x == p.pairs[j].up.x by {
        let i = if j >= p.head {
            j - p.head
        } else {
            j + len - p.head
        };
        assert(ring_index(p, i) == j);
        assert(pair_at(p, i).up.x == front_x(p) + i * PIPE_DISTANCE);
        assert(0 * PIPE_DISTANCE <= i * PIPE_DISTANCE <= (len - 1) * PIPE_DISTANCE);
        assert(pair_geometry_wf(p.pairs[j]));
    }
}

/// Builds the executable pair `fresh_pair(x, sample)` describes.
fn make_pair(x: i64, sample: u32) -> (p: Pair)
    requires
        TOP_HEIGHT_MIN <= sample < TOP_HEIGHT_MAX,
        -COORD_LIMIT <= x <= COORD_LIMIT,
    ensures
        p@ == fresh_pair(x as int, sample),
        pair_geometry_wf(p@),
{
    let top_h: i64 = (sample as i64) * SCALE;
    Pair {
        up: Pipe { x, y: 0, height: top_h },
        down: Pipe { x, y: top_h + PIPE_GAP, height: SCREEN_HEIGHT - (top_h + PIPE_GAP) },
    }
}

impl Pipe {
    /// Samples a fresh pair at the initial offscreen position: the upper
    /// pipe's height is drawn from the fixed range, the lower pipe fills the
    /// screen below the gap.
    pub fn new_pair(rng: &mut Rng) -> (r: (Pipe, Pipe))
        requires
            rng_wf(*old(rng)),
        ensures
            (PairV { up: r.0@, down: r.1@ }) == fresh_pair(
                FIRST_PIPE_X as int,
                sample_of(*old(rng), TOP_HEIGHT_MIN, TOP_HEIGHT_MAX),
            ),
            pair_geometry_wf(PairV { up: r.0@, down: r.1@ }),
            *final(rng) == advanced_rng(*old(rng), TOP_HEIGHT_MIN, TOP_HEIGHT_MAX),
            rng_wf(*final(rng)),
    {
        let sample: u32 = rng.sample(TOP_HEIGHT_MIN, TOP_HEIGHT_MAX);
        let pair = make_pair(FIRST_PIPE_X, sample);
        (pair.up, pair.down)
    }

    /// The rectangle this pipe covers. Pure query.
    pub fn position(&self) -> (r: Rect)
        ensures
            r@ == pipe_rect(self@),
    {
        Rect { x: self.x, y: self.y, w: PIPE_WIDTH, h: self.height }
    }

    /// The pipe's horizontal position.
    pub fn get_x(&self) -> (r: i64)
        ensures
            r == self.x,
    {
        self.x
    }

    /// Moves the pipe to horizontal position `x`.
    pub fn set_x(&mut self, x: i64)
        ensures
            final(self)@ == (PipeV { x: x as int, ..old(self)@ }),
    {
        self.x = x;
    }
}

impl Pipes {
    /// Builds a ring of `capacity` pairs from `seed`: freshly sampled
    /// heights, strictly increasing offscreen-right positions spaced by the
    /// inter-pipe distance, starting just past the right screen edge.
    pub fn new(seed: u64, capacity: usize) -> (r: Pipes)
        requires
            1 <= capacity <= MAX_CAPACITY,
        ensures
            r@ == pipes_respawned_all(seeded_rng(seed), capacity as nat),
            pipes_wf(r@),
            r@.pairs.len() == capacity,
    {
        let mut pipes: Vec<Pair> = Vec::new();
        let mut i: usize = 0;
        while i < capacity
            invariant
                0 <= i <= capacity <= MAX_CAPACITY,
                pipes@.len() == i,
            decreases capacity - i,
        {
            pipes.push(make_pair(FIRST_PIPE_X, TOP_HEIGHT_MIN));
            i = i + 1;
        }
        let mut r = Pipes { head: 0, rng: Rng::new(seed), pipes };
        r.respawn_all();
        r
    }

    /// Respawns every pair in buffer order at the initial offscreen
    /// positions, using and advancing the current random source, and resets
    /// the head.
    fn respawn_all(&mut self)
        requires
            1 <= old(self)@.pairs.len() <= MAX_CAPACITY,
            rng_wf(old(self).rng),
        ensures
            final(self)@ == pipes_respawned_all(old(self).rng, old(self)@.pairs.len()),
            pipes_wf(final(self)@),
            final(self)@.pairs.len() == old(self)@.pairs.len(),
    {
        let ghost rng0 = self.rng;
        let ghost count = self@.pairs.len();
        let len: usize = self.pipes.len();
        let mut i: usize = 0;
        while i < len
            invariant
                0 <= i <= len,
                len == self.pipes@.len(),
                1 <= len <= MAX_CAPACITY,
                count == len as nat,
                self.rng == built_pairs(rng0, i as nat).1,
                rng_wf(self.rng),
                forall|j: int|
                    0 <= j < i ==> (#[trigger] self.pipes@[j])@ == built_pairs(rng0, count).0[j],
                forall|j: int|
                    0 <= j < i ==> pair_geometry_wf((#[trigger] self.pipes@[j])@),
                forall|j: int|
                    0 <= j < i ==> (#[trigger] self.pipes@[j])@.up.x == FIRST_PIPE_X + j
                        * PIPE_DISTANCE,
            decreases len - i,
        {
            proof {
                lemma_built_pairs_len(rng0, i as nat);
                lemma_built_pairs_len(rng0, (i + 1) as nat);
                // `built_pairs` at i + 1 extends the prefix at i by one pair.
                assert(built_pairs(rng0, (i + 1) as nat).0 == built_pairs(rng0, i as nat).0.push(
                    fresh_pair(
                        FIRST_PIPE_X + (i as int) * PIPE_DISTANCE,
                        sample_of(built_pairs(rng0, i as nat).1, TOP_HEIGHT_MIN, TOP_HEIGHT_MAX),
                    ),
                ));
                lemma_built_pairs_prefix(rng0, (i + 1) as nat, count);
                assert(0 <= (i as int) * PIPE_DISTANCE <= (MAX_CAPACITY - 1) * PIPE_DISTANCE);
            }
            let sample: u32 = self.rng.sample(TOP_HEIGHT_MIN, TOP_HEIGHT_MAX);
            let x: i64 = FIRST_PIPE_X + (i as i64) * PIPE_DISTANCE;
            let pair = make_pair(x, sample);
            self.pipes.set(i, pair);
            i = i + 1;
        }
        self.head = 0;
        proof {
            lemma_built_pairs_len(rng0, count);
            assert(self@.pairs =~= built_pairs(rng0, count).0);
            assert(self@ == pipes_respawned_all(rng0, count));
            lemma_respawned_all_wf(self@, rng0, count);
        }
    }

    /// Advances the ring by `dt` milliseconds of frame time: every pair
    /// slides left in lock-step; then, if the head pair has scrolled fully
    /// offscreen, it is respawned past the farthest pair and the head
    /// advances. At most one respawn happens per call.
    pub fn update(&mut self, dt: u64)
        requires
            pipes_wf(old(self)@),
            dt <= DT_MAX,
        ensures
            final(self)@ == pipes_stepped(old(self)@, dt as int),
            pipes_wf(final(self)@),
    {
        let ghost p0 = self@;
        proof {
            lemma_wf_x_bounds(p0);
        }
        let step: i64 = dt as i64;
        let raw: i64 = PIPE_SPEED * step;
        let len: usize = self.pipes.len();
        let fx: i64 = self.pipes[self.head].up.x;
        proof {
            assert(ring_index(p0, 0) == p0.head);
            assert(fx == front_x(p0));
        }
        let delta: i64 = if fx - raw >= -COORD_LIMIT {
            raw
        } else {
            fx + COORD_LIMIT
        };
        let mut i: usize = 0;
        while i < len
            invariant
                0 <= i <= len,
                len == self.pipes@.len(),
                len == p0.pairs.len(),
                1 <= len <= MAX_CAPACITY,
                self.head as int == p0.head,
                0 <= p0.head < len,
                self.rng == p0.rng,
                delta == move_delta(p0, dt as int),
                0 <= delta <= FIRST_PIPE_X + COORD_LIMIT,
                -COORD_LIMIT <= front_x(p0) <= FIRST_PIPE_X,
                front_x(p0) - delta >= -COORD_LIMIT,
                forall|j: int|
                    0 <= j < len ==> front_x(p0) <= (#[trigger] p0.pairs[j]).up.x <= front_x(p0) + (
                    len - 1) * PIPE_DISTANCE,
                forall|j: int|
                    0 <= j < len ==> (#[trigger] p0.pairs[j]).down.x == p0.pairs[j].up.x,
                forall|j: int|
                    0 <= j < i ==> (#[trigger] self.pipes@[j])@ == pair_shifted(
                        p0.pairs[j],
                        delta as int,
                    ),
                forall|j: int| i <= j < len ==> (#[trigger] self.pipes@[j])@ == p0.pairs[j],
            decreases len - i,
        {
            let mut pr: Pair = self.pipes[i];
            pr.up.x = pr.up.x - delta;
            pr.down.x = pr.down.x - delta;
            self.pipes.set(i, pr);
            i = i + 1;
        }
        let ghost moved = pipes_moved(p0, dt as int);
        proof {
            assert(self@.pairs =~= moved.pairs);
            assert(self@ == moved);
        }
        let fx2: i64 = self.pipes[self.head].up.x;
        proof {
            assert(ring_index(moved, 0) == p0.head);
            assert(fx2 == front_x(moved));
        }
        if fx2 < RECYCLE_X {
            let back_idx: usize = if self.head == 0 {
                len - 1
            } else {
                self.head - 1
            };
            let bx: i64 = self.pipes[back_idx].up.x;
            proof {
                assert(ring_index(moved, len - 1) == back_idx as int);
                assert(bx == pair_at(moved, len - 1).up.x);
                assert(moved.pairs[back_idx as int] == pair_shifted(p0.pairs[back_idx as int],
                move_delta(p0, dt as int)));
                assert(0 <= (len - 1) * PIPE_DISTANCE <= (MAX_CAPACITY - 1) * PIPE_DISTANCE);
            }
            let sample: u32 = self.rng.sample(TOP_HEIGHT_MIN, TOP_HEIGHT_MAX);
            let pr = make_pair(bx + PIPE_DISTANCE, sample);
            self.pipes.set(self.head, pr);
            self.head = if self.head + 1 < len {
                self.head + 1
            } else {
                0
            };
            proof {
                assert(self@.pairs =~= pipes_stepped(p0, dt as int).pairs);
                assert(self@ == pipes_stepped(p0, dt as int));
                lemma_stepped_wf(p0, dt as int);
            }
        } else {
            proof {
                assert(self@ == pipes_stepped(p0, dt as int));
                lemma_stepped_wf(p0, dt as int);
            }
        }
    }

    /// Whether `rect` overlaps any of the ring's pipes with positive area.
    /// Pure query.
    pub fn is_colliding(&self, rect: &Rect) -> (r: bool)
        requires
            pipes_wf(self@),
            rect_in_range(rect@),
        ensures
            r == pipes_collide(self@, rect@),
    {
        proof {
            lemma_wf_x_bounds(self@);
        }
        let len: usize = self.pipes.len();
        let mut i: usize = 0;
        while i < len
            invariant
                0 <= i <= len,
                len == self.pipes@.len(),
                pipes_wf(self@),
                rect_in_range(rect@),
                forall|j: int|
                    0 <= j < len ==> front_x(self@) <= (#[trigger] self@.pairs[j]).up.x <= front_x(
                    self@) + (len - 1) * PIPE_DISTANCE,
                forall|j: int|
                    0 <= j < len ==> (#[trigger] self@.pairs[j]).down.x == self@.pairs[j].up.x,
                forall|j: int|
                    0 <= j < i ==> !rects_overlap(pipe_rect((#[trigger] self@.pairs[j]).up), rect@)
                        && !rects_overlap(pipe_rect(self@.pairs[j].down), rect@),
            decreases len - i,
        {
            let pr: Pair = self.pipes[i];
            let up_rect: Rect = pr.up.position();
            let down_rect: Rect = pr.down.position();
            proof {
                assert(pair_geometry_wf(self@.pairs[i as int]));
                assert(0 <= (len - 1) * PIPE_DISTANCE <= (MAX_CAPACITY - 1) * PIPE_DISTANCE);
            }
            if up_rect.overlaps(rect) || down_rect.overlaps(rect) {
                proof {
                    assert(0 <= i < self@.pairs.len() && (rects_overlap(
                        pipe_rect(self@.pairs[i as int].up),
                        rect@,
                    ) || rects_overlap(pipe_rect(self@.pairs[i as int].down), rect@)));
                }
                return true;
            }
            i = i + 1;
        }
        false
    }

    /// The rectangles of all pipes, two per pair: for an even index the
    /// upper pipe of the pair at half that index, for an odd one its lower
    /// pipe. Used for rendering and, separately, for collision testing.
    pub fn bounding_boxes(&self) -> (r: Vec<Rect>)
        requires
            pipes_wf(self@),
        ensures
            r@.len() == 2 * self@.pairs.len(),
            forall|k: int|
                0 <= k < r@.len() ==> (#[trigger] r@[k])@ == (if k % 2 == 0 {
                    pipe_rect(self@.pairs[k / 2].up)
                } else {
                    pipe_rect(self@.pairs[k / 2].down)
                }),
    {
        let mut out: Vec<Rect> = Vec::new();
        let len: usize = self.pipes.len();
        let mut i: usize = 0;
        while i < len
            invariant
                0 <= i <= len,
                len == self.pipes@.len(),
                out@.len() == 2 * i,
                forall|k: int|
                    0 <= k < 2 * i ==> (#[trigger] out@[k])@ == (if k % 2 == 0 {
                        pipe_rect(self@.pairs[k / 2].up)
                    } else {
                        pipe_rect(self@.pairs[k / 2].down)
                    }),
            decreases len - i,
        {
            let pr: Pair = self.pipes[i];
            out.push(pr.up.position());
            out.push(pr.down.position());
            i = i + 1;
        }
        out
    }

    /// Respawns every pair at the initial offscreen positions, keeping the
    /// current random source, and resets the head: a new round with the
    /// same generator stream.
    pub fn clear(&mut self)
        requires
            pipes_wf(old(self)@),
        ensures
            final(self)@ == pipes_respawned_all(old(self)@.rng, old(self)@.pairs.len()),
            pipes_wf(final(self)@),
    {
        self.respawn_all();
    }

    /// Re-seeds the random source and respawns every pair at the initial
    /// offscreen positions: equivalent to reconstruction with the same
    /// capacity.
    pub fn reset(&mut self, seed: u64)
        requires
            pipes_wf(old(self)@),
        ensures
            final(self)@ == pipes_respawned_all(seeded_rng(seed), old(self)@.pairs.len()),
            pipes_wf(final(self)@),
    {
        self.rng = Rng::new(seed);
        self.respawn_all();
    }

    /// The ring's fixed capacity.
    pub fn len(&self) -> (n: usize)
        ensures
            n == self@.pairs.len(),
    {
        self.pipes.len()
    }

    /// The pair `i` steps from the head in ring order. The index wraps
    /// around the ring — the modular arithmetic is internal, so any index
    /// is in range.
    pub fn get(&self, i: usize) -> (r: &Pair)
        requires
            pipes_wf(self@),
        ensures
            r@ == pair_at(self@, (i as int) % (self@.pairs.len() as int)),
    {
        let len: usize = self.pipes.len();
        let j: usize = i % len;
        let k: usize = if self.head + j < len {
            self.head + j
        } else {
            self.head + j - len
        };
        proof {
            assert(ring_index(self@, (i as int) % (self@.pairs.len() as int)) == k as int);
        }
        &self.pipes[k]
    }

    /// The logically leftmost pair: the next one to be recycled.
    pub fn front(&self) -> (r: &Pair)
        requires
            pipes_wf(self@),
        ensures
            r@ == pair_at(self@, 0),
    {
        self.get(0)
    }

    /// The logically rightmost (farthest) pair.
    pub fn back(&self) -> (r: &Pair)
        requires
            pipes_wf(self@),
        ensures
            r@ == pair_at(self@, self@.pairs.len() - 1),
    {
        proof {
            let n = self@.pairs.len() as int;
            assert((n - 1) % n == n - 1) by (nonlinear_arith)
                requires
                    1 <= n,
            ;
        }
        self.get(self.pipes.len() - 1)
    }
}

/// How far every pair slides left in `dt` milliseconds: the scroll speed
/// times the elapsed time, capped so that the head pair never passes the
/// coordinate sentinel.
pub open spec fn move_delta(p: PipesV, dt: int) -> int {
    if front_x(p) - PIPE_SPEED * dt >= -COORD_LIMIT {
        PIPE_SPEED * dt
    } else {
        front_x(p) + COORD_LIMIT
    }
}

/// `p` slid left by `delta`; the vertical geometry is untouched.
pub open spec fn pair_shifted(p: PairV, delta: int) -> PairV {
    PairV {
        up: PipeV { x: p.up.x - delta, ..p.up },
        down: PipeV { x: p.down.x - delta, ..p.down },
    }
}

/// The ring after every pair slid left in lock-step for `dt` milliseconds.
pub open spec fn pipes_moved(p: PipesV, dt: int) -> PipesV {
    PipesV { pairs: p.pairs.map_values(|q: PairV| pair_shifted(q, move_delta(p, dt))), ..p }
}

/// One frame of the ring: every pair slides left in lock-step; then, if the
/// head pair has scrolled fully offscreen, it alone is respawned one
/// inter-pipe distance right of the farthest pair with a freshly sampled
/// height, and the head advances circularly. At most one respawn happens per
/// frame — a simplifying policy, not a correctness requirement; an
/// implementation could loop until caught up instead.
pub open spec fn pipes_stepped(p: PipesV, dt: int) -> PipesV {
    let len = p.pairs.len() as int;
    let moved = pipes_moved(p, dt);
    if front_x(moved) < RECYCLE_X {
        let sample = sample_of(p.rng, TOP_HEIGHT_MIN, TOP_HEIGHT_MAX);
        let newx = pair_at(moved, len - 1).up.x + PIPE_DISTANCE;
        PipesV {
            head: if p.head + 1 < len {
                p.head + 1
            } else {
                0
            },
            pairs: moved.pairs.update(p.head, fresh_pair(newx, sample)),
            rng: advanced_rng(p.rng, TOP_HEIGHT_MIN, TOP_HEIGHT_MAX),
        }
    } else {
        moved
    }
}

/// `rect` overlaps some pipe of the ring with positive area.
pub open spec fn pipes_collide(p: PipesV, r: RectV) -> bool {
    exists|i: int|
        0 <= i < p.pairs.len() && (rects_overlap(pipe_rect((#[trigger] p.pairs[i]).up), r)
            || rects_overlap(pipe_rect(p.pairs[i].down), r))
}

/// The ring after the frames of `dts`, oldest first.
pub open spec fn pipes_run(p: PipesV, dts: Seq<int>) -> PipesV
    decreases dts.len(),
{
    if dts.len() == 0 {
        p
    } else {
        pipes_run(pipes_stepped(p, dts[0]), dts.subrange(1, dts.len() as int))
    }
}

/// One frame keeps the ring well formed, whatever the frame time. The
/// sampled height is named, not known, at the spec level, so its range —
/// guaranteed by the sampler at every call site — is a premise here.
pub proof fn lemma_stepped_wf(p: PipesV, dt: int)
    requires
        pipes_wf(p),
        0 <= dt <= DT_MAX,
        front_x(pipes_moved(p, dt)) < RECYCLE_X ==> TOP_HEIGHT_MIN <= sample_of(
            p.rng,
            TOP_HEIGHT_MIN,
            TOP_HEIGHT_MAX,
        ) < TOP_HEIGHT_MAX,
    ensures
        pipes_wf(pipes_stepped(p, dt)),
{
    let len = p.pairs.len() as int;
    let d = move_delta(p, dt);
    let moved = pipes_moved(p, dt);
    assert(0 <= PIPE_SPEED * dt);
    assert(moved.pairs.len() == len);
    assert forall|i: int| 0 <= i < len implies (#[trigger] pair_at(moved, i)) == pair_shifted(
        pair_at(p, i),
        d,
    ) by {
        assert(ring_index(moved, i) == ring_index(p, i));
        assert(0 <= ring_index(p, i) < len);
    }
    assert(front_x(moved) == front_x(p) - d);
    assert(-COORD_LIMIT <= front_x(moved) <= front_x(p));
    assert forall|j: int| 0 <= j < len implies pair_geometry_wf(#[trigger] moved.pairs[j]) by {
        assert(pair_geometry_wf(p.pairs[j]));
    }
    if front_x(moved) < RECYCLE_X {
        let s = pipes_stepped(p, dt);
        let sample = sample_of(p.rng, TOP_HEIGHT_MIN, TOP_HEIGHT_MAX);
        let newx = pair_at(moved, len - 1).up.x + PIPE_DISTANCE;
        assert(pair_geometry_wf(fresh_pair(newx, sample)));
        assert(s.pairs.len() == len);
        assert(0 <= s.head < len);
        assert(pair_at(moved, len - 1).up.x == front_x(moved) + (len - 1) * PIPE_DISTANCE);
        // In ring order the new state reads as the old one shifted by one
        // pair, with the fresh pair appearing at the far end.
        assert forall|i: int| 0 <= i < len implies (#[trigger] pair_at(s, i)) == (if i < len - 1 {
            pair_at(moved, i + 1)
        } else {
            fresh_pair(newx, sample)
        }) by {
            if i < len - 1 {
                assert(ring_index(s, i) == ring_index(moved, i + 1));
                assert(ring_index(moved, i + 1) != p.head);
                assert(0 <= ring_index(moved, i + 1) < len);
            } else {
                assert(ring_index(s, i) == p.head);
            }
        }
        assert(front_x(s) == front_x(moved) + PIPE_DISTANCE);
        assert forall|i: int| 0 <= i < len implies (#[trigger] pair_at(s, i)).up.x == front_x(s) + i
            * PIPE_DISTANCE by {
            if i < len - 1 {
                assert(pair_at(moved, i + 1).up.x == front_x(moved) + (i + 1) * PIPE_DISTANCE);
            }
        }
        assert forall|j: int| 0 <= j < len implies pair_geometry_wf(#[trigger] s.pairs[j]) by {
            if j != p.head {
                assert(s.pairs[j] == moved.pairs[j]);
            }
        }
        assert(-COORD_LIMIT <= front_x(s) <= FIRST_PIPE_X);
    } else {
        assert(pipes_stepped(p, dt) == moved);
        assert forall|i: int| 0 <= i < len implies (#[trigger] pair_at(moved, i)).up.x == front_x(
            moved,
        ) + i * PIPE_DISTANCE by {
            assert(pair_at(p, i).up.x == front_x(p) + i * PIPE_DISTANCE);
        }
    }
}

/// A respawn lays out as many pairs as asked for.
proof fn lemma_built_pairs_len(rng: Rng, count: nat)
    ensures
        built_pairs(rng, count).0.len() == count,
    decreases count,
{
    if count > 0 {
        lemma_built_pairs_len(rng, (count - 1) as nat);
    }
}

/// A prefix of the pairs a respawn lays out agrees with the full layout.
proof fn lemma_built_pairs_prefix(rng: Rng, upto: nat, count: nat)
    requires
        upto <= count,
    ensures
        forall|j: int|
            0 <= j < upto ==> built_pairs(rng, count).0[j] == built_pairs(rng, upto).0[j],
        built_pairs(rng, count).0.len() == count,
    decreases count,
{
    lemma_built_pairs_len(rng, upto);
    lemma_built_pairs_len(rng, count);
    if count > 0 {
        lemma_built_pairs_prefix(rng, if upto < count { upto } else { (count - 1) as nat }, (count
            - 1) as nat);
    }
}

/// Within every pair of a well-formed ring the lower pipe starts exactly
/// one gap below the upper pipe's bottom, and the two heights together with
/// the gap tile the screen height. Every operation of the ring ensures
/// well-formedness, so this holds at every frame.
pub proof fn lemma_pair_vertical_geometry(p: PipesV, j: int)
    requires
        pipes_wf(p),
        0 <= j < p.pairs.len(),
    ensures
        p.pairs[j].down.y - (p.pairs[j].up.y + p.pairs[j].up.h) == PIPE_GAP,
        p.pairs[j].up.h + PIPE_GAP + p.pairs[j].down.h == SCREEN_HEIGHT,
{
    assert(pair_geometry_wf(p.pairs[j]));
}

/// Read in ring order from the head, a well-formed ring's pairs sit at
/// strictly increasing x, consecutive ones exactly one inter-pipe distance
/// apart. Construction, every frame and every respawn ensure
/// well-formedness, so this holds at every frame.
pub proof fn lemma_ring_spacing(p: PipesV)
    requires
        pipes_wf(p),
    ensures
        forall|i: int|
            0 <= i < p.pairs.len() - 1 ==> (#[trigger] pair_at(p, i + 1)).up.x == pair_at(
                p,
                i,
            ).up.x + PIPE_DISTANCE,
        forall|i: int|
            0 <= i < p.pairs.len() - 1 ==> pair_at(p, i).up.x < (#[trigger] pair_at(p, i + 1)).up.x,
{
    assert forall|i: int| 0 <= i < p.pairs.len() - 1 implies (#[trigger] pair_at(p, i + 1)).up.x
        == pair_at(p, i).up.x + PIPE_DISTANCE && pair_at(p, i).up.x < pair_at(p, i + 1).up.x by {
        assert(pair_at(p, i).up.x == front_x(p) + i * PIPE_DISTANCE);
        assert(pair_at(p, i + 1).up.x == front_x(p) + (i + 1) * PIPE_DISTANCE);
    }
}

/// Determinism: from equal states — same seed, same positions — the same
/// sequence of frame times yields identical rings, bit for bit. Each
/// executable operation ensures it equals this functional model, so two
/// independent runs with equal seeds and frame times coincide.
pub proof fn lemma_run_deterministic(p1: PipesV, p2: PipesV, dts1: Seq<int>, dts2: Seq<int>)
    requires
        p1 == p2,
        dts1 == dts2,
    ensures
        pipes_run(p1, dts1) == pipes_run(p2, dts2),
{
}

/// A fully respawned ring is well formed, provided each of its pairs is,
/// which the sampler's range guarantees at the call sites.
proof fn lemma_respawned_all_wf(p: PipesV, rng: Rng, count: nat)
    requires
        p == pipes_respawned_all(rng, count),
        1 <= count <= MAX_CAPACITY,
        rng_wf(p.rng),
        forall|j: int| 0 <= j < count ==> pair_geometry_wf(#[trigger] p.pairs[j]),
        forall|j: int|
            0 <= j < count ==> (#[trigger] p.pairs[j]).up.x == FIRST_PIPE_X + j * PIPE_DISTANCE,
        p.pairs.len() == count,
    ensures
        pipes_wf(p),
{
    assert forall|i: int| 0 <= i < p.pairs.len() implies (#[trigger] pair_at(p, i)).up.x == front_x(
        p,
    ) + i * PIPE_DISTANCE by {
        assert(ring_index(p, i) == i);
        assert(ring_index(p, 0) == 0);
    }
    assert(ring_index(p, 0) == 0);
    assert(front_x(p) == FIRST_PIPE_X + 0 * PIPE_DISTANCE);
}

} // verus!
