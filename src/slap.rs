use vstd::prelude::*;

verus! {

/// Who ends up slapped.
#[derive(Clone, Copy, PartialEq, Eq, Structural, Debug)]
pub enum SlapOutcome {
    /// The invoker asked to slap themselves.
    Yourself,
    /// The target is the bot, which slaps the invoker back.
    Returned,
    /// The target is slapped.
    Target,
}

/// Slaps someone with a large trout.
#[derive(Debug, Default)]
pub struct Slap {}

impl Slap {
    /// Decides the slap from the user ids involved.
    pub fn outcome(target: u64, invoker: u64, bot: u64) -> (r: SlapOutcome)
        ensures
            target == invoker ==> r == SlapOutcome::Yourself,
            target != invoker && target == bot ==> r == SlapOutcome::Returned,
            target != invoker && target != bot ==> r == SlapOutcome::Target,
    {
        if target == invoker {
            SlapOutcome::Yourself
        } else if target == bot {
            SlapOutcome::Returned
        } else {
            SlapOutcome::Target
        }
    }
}

} // verus!
