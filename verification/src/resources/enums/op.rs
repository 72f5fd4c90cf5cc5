//! The operations of a JSON patch.

use vstd::prelude::*;

verus! {

/// What one item of a patch does to the document.
#[derive(Copy, Clone, Debug, PartialEq, Eq, Structural)]
pub enum Op {
    Add,
    Remove,
    Replace,
    Move,
    Copy,
    Test,
}

impl Op {
    /// The name of the operation on the wire.
    pub open spec fn name(self) -> Seq<char> {
        match self {
            Op::Add => "add"@,
            Op::Remove => "remove"@,
            Op::Replace => "replace"@,
            Op::Move => "move"@,
            Op::Copy => "copy"@,
            Op::Test => "test"@,
        }
    }

    /// The name of the operation on the wire.
    pub fn as_str(self) -> (r: &'static str)
        ensures
            r@ == self.name(),
    {
        match self {
            Op::Add => "add",
            Op::Remove => "remove",
            Op::Replace => "replace",
            Op::Move => "move",
            Op::Copy => "copy",
            Op::Test => "test",
        }
    }
}

} // verus!
