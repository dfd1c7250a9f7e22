use vstd::prelude::*;

verus! {

/// Snapshot of all player inputs for a single frame.
#[derive(Debug, Clone, Copy, Default, PartialEq, Eq, Structural)]
pub struct InputSnapshot {
    pub move_left: bool,
    pub move_right: bool,
    pub pause: bool,
    pub launch: bool,
    pub quit: bool,
}

/// Input port: reads player input for the current frame.
///
/// Implementations read a keyboard, a script or a test fixture.
pub trait InputProvider {
    fn snapshot(&self) -> InputSnapshot;
}

} // verus!
