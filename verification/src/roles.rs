use vstd::prelude::*;

verus! {

/// The three agent roles in a ternary system.
#[derive(Debug, Clone, Copy, PartialEq, Eq, Hash, Structural)]
pub enum AgentRole {
    /// The agent that initiates interactions.
    Initiator,
    /// The agent that responds to interactions.
    Responder,
    /// The agent that mediates between initiator and responder.
    Mediator,
}

/// The three roles in their fixed order.
pub open spec fn all_roles() -> Seq<AgentRole> {
    seq![AgentRole::Initiator, AgentRole::Responder, AgentRole::Mediator]
}

/// The name of a role, as text.
pub open spec fn role_name(role: AgentRole) -> Seq<char> {
    match role {
        AgentRole::Initiator => "Initiator"@,
        AgentRole::Responder => "Responder"@,
        AgentRole::Mediator => "Mediator"@,
    }
}

impl AgentRole {
    /// Returns all three roles, in the order initiator, responder, mediator.
    pub fn all() -> (roles: &'static [AgentRole])
        ensures
            roles@ == all_roles(),
    {
        &[AgentRole::Initiator, AgentRole::Responder, AgentRole::Mediator]
    }

    /// Returns the name of the role.
    pub fn name(&self) -> (s: &'static str)
        ensures
            s@ == role_name(*self),
    {
        match self {
            AgentRole::Initiator => "Initiator",
            AgentRole::Responder => "Responder",
            AgentRole::Mediator => "Mediator",
        }
    }
}

/// Every role occurs exactly once among all roles.
pub proof fn lemma_all_roles_complete(role: AgentRole)
    ensures
        all_roles().contains(role),
        forall|i: int, j: int|
            0 <= i < j < all_roles().len() ==> all_roles()[i] != all_roles()[j],
{
    let s = all_roles();
    match role {
        AgentRole::Initiator => assert(s[0] == role),
        AgentRole::Responder => assert(s[1] == role),
        AgentRole::Mediator => assert(s[2] == role),
    }
}

/// Two different roles have different names.
pub proof fn lemma_role_names_distinct(a: AgentRole, b: AgentRole)
    requires
        a != b,
    ensures
        role_name(a) != role_name(b),
{
    reveal_strlit("Initiator");
    reveal_strlit("Responder");
    reveal_strlit("Mediator");
    assert(role_name(a)[0] != role_name(b)[0]);
}

} // verus!
