use vstd::prelude::*;

verus! {

/// The largest span `draw_below` accepts: 2^53, the last integer below which
/// every integer is exact as an `f64`, which the generator computes in.
pub const MAX_DRAW_SPAN: u64 = 9_007_199_254_740_992;

/// Relies on quad_rand::srand (re-exported as macroquad::rand::srand): it
/// resets the shared generator to a state fixed by `seed`.
#[verifier::external_body]
pub(crate) fn reseed(seed: u64) {
    macroquad::rand::srand(seed)
}

/// Relies on quad_rand::gen_range for `u64` with a low end of 0: it scales a
/// 32-bit draw, taken as a fraction in [0, 1), by `span` and truncates, so the
/// result lies below `span` while `span` is exact as an `f64`.
#[verifier::external_body]
pub(crate) fn draw_below(span: u64) -> (r: u64)
    requires
        0 < span <= MAX_DRAW_SPAN,
    ensures
        r < span,
{
    macroquad::rand::gen_range(0u64, span)
}

} // verus!
