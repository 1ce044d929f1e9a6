//! The lifecycle state of a task.

use vstd::prelude::*;

verus! {

/// Where a task stands. Any state may be set directly; [`TaskState::next`]
/// is the linear progression for callers that want one.
#[derive(Clone, Copy, Debug, PartialEq, Eq, Structural)]
pub enum TaskState {
    New,
    Going,
    Done,
}

impl TaskState {
    /// The state that follows `self` in the progression
    /// `New`, `Going`, `Done`; `Done` is terminal.
    pub open spec fn spec_next(self) -> TaskState {
        match self {
            TaskState::New => TaskState::Going,
            TaskState::Going => TaskState::Done,
            TaskState::Done => TaskState::Done,
        }
    }

    /// The name under which the state is written on the wire.
    pub open spec fn spec_name(self) -> Seq<char> {
        match self {
            TaskState::New => "New"@,
            TaskState::Going => "Going"@,
            TaskState::Done => "Done"@,
        }
    }

    /// The name under which the state is written on the wire.
    pub fn name(self) -> (name: &'static str)
        ensures
            name@ == self.spec_name(),
    {
        match self {
            TaskState::New => "New",
            TaskState::Going => "Going",
            TaskState::Done => "Done",
        }
    }

    /// Advances one step along the progression.
    #[verifier::when_used_as_spec(spec_next)]
    pub fn next(self) -> (r: TaskState)
        ensures
            r == self.spec_next(),
    {
        match self {
            TaskState::New => TaskState::Going,
            TaskState::Going => TaskState::Done,
            TaskState::Done => TaskState::Done,
        }
    }
}

} // verus!
