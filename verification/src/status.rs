use vstd::prelude::*;

verus! {

/// The presence status that VRChat reports for a user.
///
/// Users are ordered by status in the order in which the variants are
/// declared: `JoinMe` first, `Offline` last.
#[derive(Clone, Copy, Debug, PartialEq, Eq, Structural)]
pub enum Status {
    JoinMe,
    Active,
    AskMe,
    Busy,
    Offline,
}

/// The position of a status in the order of the variants.
pub open spec fn rank(s: Status) -> nat {
    match s {
        Status::JoinMe => 0,
        Status::Active => 1,
        Status::AskMe => 2,
        Status::Busy => 3,
        Status::Offline => 4,
    }
}

impl Status {
    /// The position of this status in the order of the variants.
    pub fn rank(&self) -> (r: u8)
        ensures
            r == rank(*self),
    {
        match self {
            Status::JoinMe => 0,
            Status::Active => 1,
            Status::AskMe => 2,
            Status::Busy => 3,
            Status::Offline => 4,
        }
    }
}

impl Default for Status {
    fn default() -> (r: Status)
        ensures
            r == Status::Offline,
    {
        Status::Offline
    }
}

} // verus!
