use vstd::prelude::*;

verus! {

/// The choices that a deployment makes once for all its campaigns.
#[derive(Clone, Copy, Debug, PartialEq, Eq, Structural)]
pub struct Policy {
    /// Refuse a contribution that would lift the campaign's total above its
    /// hard cap.
    pub enforce_hard_cap: bool,
    /// Let contributors claim only after the authority has withdrawn.
    pub claim_requires_unlock: bool,
}

impl Policy {
    /// The policy that enforces neither: the hard cap only sizes the token
    /// supply, and claims do not wait for the withdrawal.
    pub fn lenient() -> (p: Policy)
        ensures
            p == (Policy { enforce_hard_cap: false, claim_requires_unlock: false }),
    {
        Policy { enforce_hard_cap: false, claim_requires_unlock: false }
    }
}

impl Default for Policy {
    fn default() -> (p: Policy)
        ensures
            p == (Policy { enforce_hard_cap: false, claim_requires_unlock: false }),
    {
        Policy::lenient()
    }
}

} // verus!
