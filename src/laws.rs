use crate::field::{all_on_canvas, field_stepped, replayed};
use crate::scene::{no_tint_key, tint_after, tint_after_frames, KeyPresses, Tint};
use crate::sparkle::{Sparkle, CANVAS_HEIGHT, CANVAS_WIDTH};
use vstd::arithmetic::div_mod::lemma_mod_bound;
use vstd::prelude::*;

verus! {

/// One frame keeps a sparkle on the canvas.
pub proof fn lemma_step_stays_on_canvas(s: Sparkle, delta: u32)
    requires
        s.wf(),
    ensures
        s.stepped(delta).wf(),
{
    lemma_mod_bound(
        s.position.x as int - crate::sparkle::slide_distance(s.speed, delta),
        CANVAS_WIDTH as int,
    );
    lemma_mod_bound(
        s.position.y as int + crate::sparkle::fall_distance(s.speed, delta),
        CANVAS_HEIGHT as int,
    );
}

/// Replaying any sequence of frames neither adds nor removes a sparkle.
pub proof fn lemma_replay_keeps_population(s: Seq<Sparkle>, deltas: Seq<u32>)
    ensures
        replayed(s, deltas).len() == s.len(),
    decreases deltas.len(),
{
    if deltas.len() > 0 {
        lemma_replay_keeps_population(s, deltas.drop_last());
    }
}

/// After every frame of any sequence, every sparkle lies on the canvas:
/// `0 <= x < width` and `0 <= y < height`.
pub proof fn lemma_replay_stays_on_canvas(s: Seq<Sparkle>, deltas: Seq<u32>)
    requires
        all_on_canvas(s),
    ensures
        all_on_canvas(replayed(s, deltas)),
    decreases deltas.len(),
{
    if deltas.len() > 0 {
        let before = replayed(s, deltas.drop_last());
        lemma_replay_stays_on_canvas(s, deltas.drop_last());
        assert forall|i: int| 0 <= i < field_stepped(before, deltas.last()).len() implies
            #[trigger] field_stepped(before, deltas.last())[i].wf() by {
            assert(before[i].wf());
            lemma_step_stays_on_canvas(before[i], deltas.last());
        }
    }
}

/// Over any sequence of frames each sparkle's phase never decreases, and its
/// speed and radius stay as they were made.
pub proof fn lemma_replay_phase_never_drops(s: Seq<Sparkle>, deltas: Seq<u32>)
    ensures
        forall|i: int|
            0 <= i < s.len() ==> {
                &&& s[i].cycle <= #[trigger] replayed(s, deltas)[i].cycle
                &&& replayed(s, deltas)[i].speed == s[i].speed
                &&& replayed(s, deltas)[i].radius == s[i].radius
            },
    decreases deltas.len(),
{
    lemma_replay_keeps_population(s, deltas);
    if deltas.len() > 0 {
        lemma_replay_phase_never_drops(s, deltas.drop_last());
        lemma_replay_keeps_population(s, deltas.drop_last());
        let before = replayed(s, deltas.drop_last());
        assert forall|i: int| 0 <= i < s.len() implies {
            &&& s[i].cycle <= #[trigger] replayed(s, deltas)[i].cycle
            &&& replayed(s, deltas)[i].speed == s[i].speed
            &&& replayed(s, deltas)[i].radius == s[i].radius
        } by {
            assert(s[i].cycle <= before[i].cycle);
        }
    }
}

/// Replaying one sequence of frames from equal starting sparkles gives equal
/// sparkles after every frame: a run is fixed by its start and its deltas.
pub proof fn lemma_replay_reproducible(a: Seq<Sparkle>, b: Seq<Sparkle>, deltas: Seq<u32>)
    requires
        a == b,
    ensures
        forall|n: int|
            0 <= n <= deltas.len() ==> #[trigger] replayed(a, deltas.take(n)) == replayed(
                b,
                deltas.take(n),
            ),
{
}

/// The last frame that pressed a tint key decides the tint: the frames after
/// it, however many, press none and leave it as that frame set it.
pub proof fn lemma_last_tint_key_wins(start: Tint, frames: Seq<KeyPresses>, n: int)
    requires
        0 <= n < frames.len(),
        forall|k: int| n < k < frames.len() ==> no_tint_key(#[trigger] frames[k]),
    ensures
        tint_after_frames(start, frames) == tint_after(
            tint_after_frames(start, frames.take(n)),
            frames[n],
        ),
    decreases frames.len(),
{
    if n == frames.len() - 1 {
        assert(frames.drop_last() =~= frames.take(n));
    } else {
        let shorter = frames.drop_last();
        assert(no_tint_key(frames[frames.len() - 1]));
        assert forall|k: int| n < k < shorter.len() implies no_tint_key(#[trigger] shorter[k]) by {
            assert(shorter[k] == frames[k]);
        }
        lemma_last_tint_key_wins(start, shorter, n);
        assert(shorter.take(n) =~= frames.take(n));
    }
}

} // verus!
