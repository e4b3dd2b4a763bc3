use vstd::arithmetic::div_mod::lemma_fundamental_div_mod_converse;
use vstd::prelude::*;

verus! {

/// Nanopixels in one pixel.
pub const NANOS_PER_PIXEL: u64 = 1_000_000_000;

/// Canvas width in nanopixels (1920 pixels).
pub const CANVAS_WIDTH: u64 = 1_920_000_000_000;

/// Canvas height in nanopixels (1080 pixels).
pub const CANVAS_HEIGHT: u64 = 1_080_000_000_000;

/// Vertical drift per unit of speed and time: a sparkle of speed 1000
/// (the base rate) falls 10 pixels per second.
pub const FALL_FACTOR: u64 = 10;

/// Horizontal drift per unit of speed and time: one fifth of the fall rate,
/// to the left.
pub const SLIDE_FACTOR: u64 = 2;

/// A point on the canvas, in nanopixels.
#[derive(Clone, Copy, Debug, PartialEq, Eq, Structural)]
pub struct Point {
    pub x: u64,
    pub y: u64,
}

/// One particle of the field.
#[derive(Clone, Copy, Debug, PartialEq, Eq, Structural)]
pub struct Sparkle {
    /// Where it is, in nanopixels.
    pub position: Point,
    /// Drift rate, in thousandths of the base rate.
    pub speed: u32,
    /// Twinkle phase, in microseconds; it only grows.
    pub cycle: u64,
    /// Drawn radius, in millipixels.
    pub radius: u32,
}

/// Vertical distance covered in `delta` microseconds at `speed`, in nanopixels.
pub open spec fn fall_distance(speed: u32, delta: u32) -> int {
    speed as int * delta as int * FALL_FACTOR as int
}

/// Horizontal distance covered in `delta` microseconds at `speed`, in nanopixels.
pub open spec fn slide_distance(speed: u32, delta: u32) -> int {
    speed as int * delta as int * SLIDE_FACTOR as int
}

/// The phase after `delta` more microseconds; it stops at the largest `u64`.
pub open spec fn phase_after(cycle: u64, delta: u32) -> u64 {
    if cycle as int + delta as int > u64::MAX as int {
        u64::MAX
    } else {
        (cycle + delta) as u64
    }
}

impl Point {
    /// On the canvas: `0 <= x < width` and `0 <= y < height`.
    pub open spec fn on_canvas(self) -> bool {
        self.x < CANVAS_WIDTH && self.y < CANVAS_HEIGHT
    }
}

impl Sparkle {
    pub open spec fn wf(self) -> bool {
        self.position.on_canvas()
    }

    /// The sparkle one frame of `delta` microseconds later: the phase grows by
    /// `delta`, the sparkle moves down and left, and each coordinate that left
    /// the canvas re-enters from the opposite edge.
    pub open spec fn stepped(self, delta: u32) -> Sparkle {
        Sparkle {
            position: Point {
                x: ((self.position.x as int - slide_distance(self.speed, delta)) % (
                CANVAS_WIDTH as int)) as u64,
                y: ((self.position.y as int + fall_distance(self.speed, delta)) % (
                CANVAS_HEIGHT as int)) as u64,
            },
            speed: self.speed,
            cycle: phase_after(self.cycle, delta),
            radius: self.radius,
        }
    }

    /// Moves the sparkle by one frame of `delta` microseconds.
    ///
    /// Edges are handled by repeated correction: while the sparkle is below
    /// the bottom edge it is lifted by the canvas height, and while it is left
    /// of the left edge it is shifted by the canvas width.
    pub fn advance(&mut self, delta: u32)
        requires
            old(self).wf(),
        ensures
            *final(self) == old(self).stepped(delta),
            final(self).wf(),
    {
        self.cycle = self.cycle.saturating_add(delta as u64);

        let speed: u128 = self.speed as u128;
        let time: u128 = delta as u128;
        assert(speed * time <= 0xffff_ffff * 0xffff_ffff) by (nonlinear_arith)
            requires
                speed <= 0xffff_ffff,
                time <= 0xffff_ffff,
        ;
        let rate: u128 = speed * time;
        assert(rate * FALL_FACTOR <= 0xffff_ffff_ffff_ffff * 10);
        assert(rate * SLIDE_FACTOR <= 0xffff_ffff_ffff_ffff * 2);
        let fall: u128 = rate * FALL_FACTOR as u128;
        let slide: u128 = rate * SLIDE_FACTOR as u128;

        let y0: u128 = self.position.y as u128 + fall;
        let mut y: u128 = y0;
        let ghost mut lifts: int = 0;
        while y >= CANVAS_HEIGHT as u128
            invariant
                y as int == y0 as int - lifts * CANVAS_HEIGHT as int,
            decreases y,
        {
            y = y - CANVAS_HEIGHT as u128;
            proof {
                lifts = lifts + 1;
            }
        }
        proof {
            lemma_fundamental_div_mod_converse(y0 as int, CANVAS_HEIGHT as int, lifts, y as int);
        }

        let x0: i128 = self.position.x as i128 - slide as i128;
        let mut x: i128 = x0;
        let ghost mut shifts: int = 0;
        while x < 0
            invariant
                x < CANVAS_WIDTH,
                x as int == x0 as int + shifts * CANVAS_WIDTH as int,
            decreases CANVAS_WIDTH - x,
        {
            x = x + CANVAS_WIDTH as i128;
            proof {
                shifts = shifts + 1;
            }
        }
        proof {
            lemma_fundamental_div_mod_converse(x0 as int, CANVAS_WIDTH as int, -shifts, x as int);
        }

        self.position = Point { x: x as u64, y: y as u64 };
    }
}

} // verus!
