use crate::random::{draw_below, reseed};
use crate::sparkle::{Point, Sparkle, CANVAS_HEIGHT, CANVAS_WIDTH};
use vstd::prelude::*;

verus! {

/// How many sparkles a scene holds.
pub const SPARKLE_COUNT: usize = 500;

/// The seed a scene starts its generator with.
pub const DEFAULT_SEED: u64 = 0;

/// Smallest radius, in millipixels (half a pixel).
pub const RADIUS_MIN: u32 = 500;

/// Radii lie in `[RADIUS_MIN, RADIUS_MIN + RADIUS_SPAN)`: up to three pixels.
pub const RADIUS_SPAN: u32 = 2500;

/// The base drift rate, in thousandths of the unit rate (2.0).
pub const BASE_SPEED: u32 = 2000;

/// Each sparkle's speed is the base rate times a jitter factor in
/// `[1.0, 1.5)`, drawn in thousandths: `1000 + j` with `j < JITTER_SPAN`.
pub const JITTER_SPAN: u32 = 500;

/// Initial phases lie in `[0, PHASE_SPAN)` microseconds (90 seconds), so that
/// the sparkles do not pulse in step.
pub const PHASE_SPAN: u64 = 90_000_000;

/// The sparkle made from five draws: position, radius offset, speed jitter
/// and phase.
pub open spec fn sparkle_of_draws(x: u64, y: u64, radius: u32, jitter: u32, cycle: u64) -> Sparkle {
    Sparkle {
        position: Point { x, y },
        speed: (BASE_SPEED as int * (1000 + jitter as int) / 1000) as u32,
        cycle,
        radius: (RADIUS_MIN + radius) as u32,
    }
}

/// A sparkle as a fresh scene makes them: on the canvas, with radius in
/// `[0.5, 3.0)` pixels, speed in `[2.0, 3.0)` and phase below 90 seconds.
pub open spec fn freshly_made(s: Sparkle) -> bool {
    &&& s.wf()
    &&& RADIUS_MIN <= s.radius < RADIUS_MIN + RADIUS_SPAN
    &&& BASE_SPEED <= s.speed < BASE_SPEED + BASE_SPEED * JITTER_SPAN / 1000
    &&& s.cycle < PHASE_SPAN
}

pub open spec fn all_on_canvas(s: Seq<Sparkle>) -> bool {
    forall|i: int| 0 <= i < s.len() ==> #[trigger] s[i].wf()
}

/// Every sparkle one frame of `delta` microseconds later, in the same order.
pub open spec fn field_stepped(s: Seq<Sparkle>, delta: u32) -> Seq<Sparkle> {
    Seq::new(s.len(), |i: int| s[i].stepped(delta))
}

/// The sparkles after one frame for each delta of `deltas`, in order.
pub open spec fn replayed(s: Seq<Sparkle>, deltas: Seq<u32>) -> Seq<Sparkle>
    decreases deltas.len(),
{
    if deltas.len() == 0 {
        s
    } else {
        field_stepped(replayed(s, deltas.drop_last()), deltas.last())
    }
}

impl Sparkle {
    /// Builds a sparkle from raw draws, each below its span.
    pub fn from_draws(x: u64, y: u64, radius: u32, jitter: u32, cycle: u64) -> (s: Sparkle)
        requires
            x < CANVAS_WIDTH,
            y < CANVAS_HEIGHT,
            radius < RADIUS_SPAN,
            jitter < JITTER_SPAN,
            cycle < PHASE_SPAN,
        ensures
            s == sparkle_of_draws(x, y, radius, jitter, cycle),
            freshly_made(s),
    {
        let speed: u32 = BASE_SPEED * (1000 + jitter) / 1000;
        Sparkle { position: Point { x, y }, speed, cycle, radius: RADIUS_MIN + radius }
    }
}

/// The fixed population of sparkles.
pub struct SparkleField {
    sparkles: Vec<Sparkle>,
}

impl View for SparkleField {
    type V = Seq<Sparkle>;

    closed spec fn view(&self) -> Seq<Sparkle> {
        self.sparkles@
    }
}

impl SparkleField {
    pub open spec fn wf(&self) -> bool {
        all_on_canvas(self@)
    }

    /// `count` new sparkles, drawn from the shared generator reseeded with
    /// `seed`: x, then y, radius, speed jitter and phase for each in turn.
    pub fn spawn(count: usize, seed: u64) -> (f: SparkleField)
        ensures
            f@.len() == count,
            forall|i: int| 0 <= i < count ==> freshly_made(#[trigger] f@[i]),
            f.wf(),
    {
        reseed(seed);
        let mut sparkles: Vec<Sparkle> = Vec::new();
        let mut i: usize = 0;
        while i < count
            invariant
                i <= count,
                sparkles@.len() == i,
                forall|k: int| 0 <= k < i ==> freshly_made(#[trigger] sparkles@[k]),
            decreases count - i,
        {
            let x = draw_below(CANVAS_WIDTH);
            let y = draw_below(CANVAS_HEIGHT);
            let radius = draw_below(RADIUS_SPAN as u64) as u32;
            let jitter = draw_below(JITTER_SPAN as u64) as u32;
            let cycle = draw_below(PHASE_SPAN);
            sparkles.push(Sparkle::from_draws(x, y, radius, jitter, cycle));
            i = i + 1;
        }
        SparkleField { sparkles }
    }

    /// A field of the given sparkles, or `None` where one lies off the canvas.
    pub fn from_sparkles(sparkles: Vec<Sparkle>) -> (r: Option<SparkleField>)
        ensures
            r is Some <==> all_on_canvas(sparkles@),
            r matches Some(f) ==> f@ == sparkles@ && f.wf(),
    {
        let mut i: usize = 0;
        while i < sparkles.len()
            invariant
                i <= sparkles@.len(),
                all_on_canvas(sparkles@.take(i as int)),
            decreases sparkles@.len() - i,
        {
            let p = sparkles[i].position;
            if p.x >= CANVAS_WIDTH || p.y >= CANVAS_HEIGHT {
                assert(!sparkles@[i as int].wf());
                return None;
            }
            assert(sparkles@.take(i as int + 1)[i as int] == sparkles@[i as int]);
            i = i + 1;
        }
        assert(sparkles@.take(i as int) =~= sparkles@);
        Some(SparkleField { sparkles })
    }

    /// Moves every sparkle by one frame of `delta` microseconds.
    pub fn update(&mut self, delta: u32)
        requires
            old(self).wf(),
        ensures
            final(self)@ == field_stepped(old(self)@, delta),
            final(self).wf(),
    {
        let ghost start = self@;
        let mut i: usize = 0;
        while i < self.sparkles.len()
            invariant
                i <= self@.len(),
                self@.len() == start.len(),
                all_on_canvas(start),
                forall|k: int| 0 <= k < i ==> self@[k] == #[trigger] start[k].stepped(delta),
                forall|k: int| i <= k < self@.len() ==> self@[k] == #[trigger] start[k],
                forall|k: int| 0 <= k < i ==> #[trigger] self@[k].wf(),
            decreases self@.len() - i,
        {
            let mut s = self.sparkles[i];
            assert(start[i as int].wf());
            s.advance(delta);
            self.sparkles.set(i, s);
            i = i + 1;
        }
        assert(self@ =~= field_stepped(start, delta));
    }

    /// Moves every sparkle by one frame for each delta of `deltas`, in order.
    pub fn replay(&mut self, deltas: &Vec<u32>)
        requires
            old(self).wf(),
        ensures
            final(self)@ == replayed(old(self)@, deltas@),
            final(self).wf(),
    {
        let ghost start = self@;
        let mut i: usize = 0;
        while i < deltas.len()
            invariant
                i <= deltas@.len(),
                self.wf(),
                self@ == replayed(start, deltas@.take(i as int)),
            decreases deltas@.len() - i,
        {
            self.update(deltas[i]);
            assert(deltas@.take(i as int + 1).drop_last() =~= deltas@.take(i as int));
            i = i + 1;
        }
        assert(deltas@.take(i as int) =~= deltas@);
    }

    /// How many sparkles the field holds.
    pub fn len(&self) -> (n: usize)
        ensures
            n == self@.len(),
    {
        self.sparkles.len()
    }

    /// The sparkles, in creation order.
    pub fn sparkles(&self) -> (v: &Vec<Sparkle>)
        ensures
            v@ == self@,
    {
        &self.sparkles
    }
}

} // verus!
