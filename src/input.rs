use vstd::prelude::*;

use crate::camera::CameraMovement;

verus! {

/// Which of the keys that the frame loop polls are held down.
#[derive(PartialEq, Eq, Structural, Clone, Copy, Debug)]
pub struct KeyState {
    pub escape: bool,
    pub w: bool,
    pub s: bool,
    pub a: bool,
    pub d: bool,
}

/// What one frame's key state asks for: whether to close the window, and the
/// camera movements to apply, in order.
pub struct FrameInput {
    pub close: bool,
    pub moves: Vec<CameraMovement>,
}

/// The movements that held keys ask for: `W` forward, `S` backward, `A` left,
/// `D` right, in that order, each at most once.
pub open spec fn held_moves(keys: KeyState) -> Seq<CameraMovement> {
    let w = if keys.w { seq![CameraMovement::FORWARD] } else { Seq::empty() };
    let s = if keys.s { seq![CameraMovement::BACKWARD] } else { Seq::empty() };
    let a = if keys.a { seq![CameraMovement::LEFT] } else { Seq::empty() };
    let d = if keys.d { seq![CameraMovement::RIGHT] } else { Seq::empty() };
    w + s + a + d
}

/// Turns one frame's polled key state into a close request (escape) and the
/// camera movements of the held movement keys.
pub fn process_inputs(keys: &KeyState) -> (r: FrameInput)
    ensures
        r.close == keys.escape,
        r.moves@ == held_moves(*keys),
{
    let mut moves: Vec<CameraMovement> = Vec::new();
    if keys.w {
        moves.push(CameraMovement::FORWARD);
    }
    if keys.s {
        moves.push(CameraMovement::BACKWARD);
    }
    if keys.a {
        moves.push(CameraMovement::LEFT);
    }
    if keys.d {
        moves.push(CameraMovement::RIGHT);
    }
    assert(moves@ =~= held_moves(*keys));
    FrameInput { close: keys.escape, moves }
}

/// The state of the frame loop. `ShouldClose` is terminal.
#[derive(PartialEq, Eq, Structural, Clone, Copy, Debug)]
pub enum LoopState {
    Running,
    ShouldClose,
}

impl LoopState {
    /// The state after a frame in which escape was or was not held and the
    /// window system did or did not ask to close.
    pub fn next(self, escape: bool, close_requested: bool) -> (r: LoopState)
        ensures
            r == LoopState::ShouldClose <==> (self == LoopState::ShouldClose || escape
                || close_requested),
    {
        if escape || close_requested {
            LoopState::ShouldClose
        } else {
            self
        }
    }

    pub fn is_running(self) -> (r: bool)
        ensures
            r <==> self == LoopState::Running,
    {
        self == LoopState::Running
    }
}

} // verus!
