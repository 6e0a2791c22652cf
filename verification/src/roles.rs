//! Role tags and the composite role predicate that authorises a capability
//! reversal.

use vstd::prelude::*;

verus! {

/// A role tag that a requester may hold.
#[derive(Debug, Clone, Copy, PartialEq, Eq, Structural)]
pub enum Role {
    Mentor,
    Teacher,
    Learner,
    Operator,
    Regulator,
    System,
    Host,
    OrganicCpuOwner,
    SovereignKernel,
    NeuromorphSovereign,
}

/// The role tags held by a requester, and the number of independent
/// regulator signatures observed for the decision at hand.
#[derive(Debug, Clone, PartialEq, Eq)]
pub struct RoleSet {
    pub roles: Vec<Role>,
    pub regulator_quorum: u8,
}

impl RoleSet {
    /// The set holds role `r`.
    pub open spec fn holds(&self, r: Role) -> bool {
        self.roles@.contains(r)
    }

    /// Host, organic-CPU owner and sovereign kernel are all held, and the
    /// regulator quorum reaches `required_reg_quorum`.
    pub open spec fn sovereign_quorum(&self, required_reg_quorum: u8) -> bool {
        &&& self.holds(Role::Host)
        &&& self.holds(Role::OrganicCpuOwner)
        &&& self.holds(Role::SovereignKernel)
        &&& self.regulator_quorum >= required_reg_quorum
    }

    /// Whether the set holds role `r`.
    pub fn has(&self, r: Role) -> (res: bool)
        ensures
            res == self.holds(r),
    {
        let mut i: usize = 0;
        while i < self.roles.len()
            invariant
                i <= self.roles@.len(),
                forall|k: int| 0 <= k < i ==> self.roles@[k] != r,
            decreases self.roles@.len() - i,
        {
            if self.roles[i] == r {
                return true;
            }
            i += 1;
        }
        false
    }

    /// The composite predicate: every required role tag is held and the
    /// regulator quorum is at least `required_reg_quorum`.
    pub fn neuromorph_god_satisfied(&self, required_reg_quorum: u8) -> (res: bool)
        ensures
            res == self.sovereign_quorum(required_reg_quorum),
    {
        self.has(Role::Host) && self.has(Role::OrganicCpuOwner) && self.has(Role::SovereignKernel)
            && self.regulator_quorum >= required_reg_quorum
    }
}

/// What a capability reversal needs from its requester: the composite role
/// predicate, an explicit reversal order, and proof that no safer alternative
/// exists.
pub open spec fn reversal_authorised(
    roles: &RoleSet,
    required_reg_quorum: u8,
    explicit_reversal_order: bool,
    no_safer_alternative: bool,
) -> bool {
    roles.sovereign_quorum(required_reg_quorum) && explicit_reversal_order && no_safer_alternative
}

/// Whether a requester with these roles and flags may revert a capability.
pub fn can_revert_capability(
    roles: &RoleSet,
    required_reg_quorum: u8,
    explicit_reversal_order: bool,
    no_safer_alternative: bool,
) -> (res: bool)
    ensures
        res == reversal_authorised(
            roles,
            required_reg_quorum,
            explicit_reversal_order,
            no_safer_alternative,
        ),
{
    roles.neuromorph_god_satisfied(required_reg_quorum) && explicit_reversal_order
        && no_safer_alternative
}

} // verus!
