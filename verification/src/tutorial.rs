//! The hints that a tutorial area shows on screen.

use vstd::prelude::*;

verus! {

/// Which hint a tutorial area shows.
#[derive(PartialEq, Eq, Structural, Copy, Clone, Debug)]
pub enum TutorialKind {
    Move,
    Jump,
    Duck,
}

impl Default for TutorialKind {
    fn default() -> (kind: Self)
        ensures
            kind == TutorialKind::Move,
    {
        TutorialKind::Move
    }
}

impl TutorialKind {
    /// The text drawn in the middle of the screen for this hint.
    pub fn text(&self) -> (text: &'static str)
        ensures
            *self == TutorialKind::Move ==> text@ == "foo"@,
            *self == TutorialKind::Jump ==> text@ == "bar"@,
            *self == TutorialKind::Duck ==> text@ == "baz"@,
    {
        match self {
            TutorialKind::Move => "foo",
            TutorialKind::Jump => "bar",
            TutorialKind::Duck => "baz",
        }
    }
}

} // verus!
