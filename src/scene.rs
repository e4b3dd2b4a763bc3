use crate::field::{field_stepped, freshly_made, SparkleField, DEFAULT_SEED, SPARKLE_COUNT};
use vstd::prelude::*;

verus! {

/// The shared colour the sparkles are drawn in.
#[derive(Clone, Copy, Debug, PartialEq, Eq, Structural)]
pub enum Tint {
    Red,
    Green,
    Blue,
    White,
}

/// The keys pressed during one frame.
#[derive(Clone, Copy, Debug, PartialEq, Eq, Structural)]
pub struct KeyPresses {
    pub quit: bool,
    pub red: bool,
    pub green: bool,
    pub blue: bool,
    pub white: bool,
}

/// Whether the animation still runs.
#[derive(Clone, Copy, Debug, PartialEq, Eq, Structural)]
pub enum LoopState {
    Running,
    Terminated,
}

/// What the caller does after a frame's decisions.
#[derive(Clone, Copy, Debug, PartialEq, Eq, Structural)]
pub enum FrameAction {
    /// Clear the canvas, draw every sparkle and present the frame.
    Draw,
    /// Stop: nothing more is updated or drawn.
    Quit,
}

impl Tint {
    /// The tint's red, green and blue channels, each 0 or 255.
    pub open spec fn spec_rgb(self) -> (u8, u8, u8) {
        match self {
            Tint::Red => (255, 0, 0),
            Tint::Green => (0, 255, 0),
            Tint::Blue => (0, 0, 255),
            Tint::White => (255, 255, 255),
        }
    }

    pub fn rgb(&self) -> (c: (u8, u8, u8))
        ensures
            c == self.spec_rgb(),
    {
        match self {
            Tint::Red => (255, 0, 0),
            Tint::Green => (0, 255, 0),
            Tint::Blue => (0, 0, 255),
            Tint::White => (255, 255, 255),
        }
    }
}

/// The tint after a frame's key presses: the first pressed tint key of red,
/// green, blue and white replaces it; with none pressed it stays.
pub open spec fn tint_after(current: Tint, keys: KeyPresses) -> Tint {
    if keys.red {
        Tint::Red
    } else if keys.green {
        Tint::Green
    } else if keys.blue {
        Tint::Blue
    } else if keys.white {
        Tint::White
    } else {
        current
    }
}

/// No tint key was pressed.
pub open spec fn no_tint_key(keys: KeyPresses) -> bool {
    !keys.red && !keys.green && !keys.blue && !keys.white
}

/// The tint after one frame's key presses for each entry of `frames`, in order.
pub open spec fn tint_after_frames(current: Tint, frames: Seq<KeyPresses>) -> Tint
    decreases frames.len(),
{
    if frames.len() == 0 {
        current
    } else {
        tint_after(tint_after_frames(current, frames.drop_last()), frames.last())
    }
}

pub fn select_tint(current: Tint, keys: KeyPresses) -> (t: Tint)
    ensures
        t == tint_after(current, keys),
{
    if keys.red {
        Tint::Red
    } else if keys.green {
        Tint::Green
    } else if keys.blue {
        Tint::Blue
    } else if keys.white {
        Tint::White
    } else {
        current
    }
}

/// The whole animation state: the sparkles, the tint and whether it runs.
pub struct Scene {
    field: SparkleField,
    tint: Tint,
    state: LoopState,
}

impl Scene {
    pub closed spec fn spec_field(&self) -> SparkleField {
        self.field
    }

    pub closed spec fn spec_tint(&self) -> Tint {
        self.tint
    }

    pub closed spec fn spec_state(&self) -> LoopState {
        self.state
    }

    pub open spec fn wf(&self) -> bool {
        self.spec_field().wf()
    }

    /// A running scene of `count` fresh sparkles drawn with `seed`, tinted
    /// white.
    pub fn new(count: usize, seed: u64) -> (s: Scene)
        ensures
            s.wf(),
            s.spec_field()@.len() == count,
            forall|i: int| 0 <= i < count ==> freshly_made(#[trigger] s.spec_field()@[i]),
            s.spec_tint() == Tint::White,
            s.spec_state() == LoopState::Running,
    {
        Scene { field: SparkleField::spawn(count, seed), tint: Tint::White, state: LoopState::Running }
    }

    /// The standard scene: five hundred sparkles from seed 0.
    pub fn standard() -> (s: Scene)
        ensures
            s.wf(),
            s.spec_field()@.len() == SPARKLE_COUNT,
            forall|i: int| 0 <= i < SPARKLE_COUNT ==> freshly_made(#[trigger] s.spec_field()@[i]),
            s.spec_tint() == Tint::White,
            s.spec_state() == LoopState::Running,
    {
        Scene::new(SPARKLE_COUNT, DEFAULT_SEED)
    }

    /// Applies a frame's key presses to the tint. The sparkles are not
    /// touched.
    pub fn handle_keys(&mut self, keys: KeyPresses)
        ensures
            final(self).spec_tint() == tint_after(old(self).spec_tint(), keys),
            final(self).spec_field() == old(self).spec_field(),
            final(self).spec_state() == old(self).spec_state(),
    {
        self.tint = select_tint(self.tint, keys);
    }

    /// Runs one frame's decisions, given the keys pressed and the elapsed
    /// `delta` microseconds. A running scene takes the tint keys, then stops
    /// for good if quit was pressed; otherwise every sparkle moves and the
    /// frame is to be drawn. A stopped scene does nothing.
    pub fn frame(&mut self, keys: KeyPresses, delta: u32) -> (a: FrameAction)
        requires
            old(self).wf(),
        ensures
            final(self).wf(),
            old(self).spec_state() == LoopState::Terminated ==> {
                &&& a == FrameAction::Quit
                &&& final(self).spec_tint() == old(self).spec_tint()
                &&& final(self).spec_field()@ == old(self).spec_field()@
                &&& final(self).spec_state() == LoopState::Terminated
            },
            old(self).spec_state() == LoopState::Running ==> {
                &&& final(self).spec_tint() == tint_after(old(self).spec_tint(), keys)
                &&& keys.quit ==> {
                    &&& a == FrameAction::Quit
                    &&& final(self).spec_field()@ == old(self).spec_field()@
                    &&& final(self).spec_state() == LoopState::Terminated
                }
                &&& !keys.quit ==> {
                    &&& a == FrameAction::Draw
                    &&& final(self).spec_field()@ == field_stepped(old(self).spec_field()@, delta)
                    &&& final(self).spec_state() == LoopState::Running
                }
            },
    {
        if self.state == LoopState::Terminated {
            return FrameAction::Quit;
        }
        self.handle_keys(keys);
        if keys.quit {
            self.state = LoopState::Terminated;
            return FrameAction::Quit;
        }
        self.field.update(delta);
        FrameAction::Draw
    }

    pub fn tint(&self) -> (t: Tint)
        ensures
            t == self.spec_tint(),
    {
        self.tint
    }

    pub fn state(&self) -> (s: LoopState)
        ensures
            s == self.spec_state(),
    {
        self.state
    }

    pub fn field(&self) -> (f: &SparkleField)
        ensures
            *f == self.spec_field(),
    {
        &self.field
    }
}

} // verus!
