use vstd::prelude::*;

verus! {

/// The five conservation laws for ternary agent systems.
#[derive(Debug, Clone, Copy, PartialEq, Eq, Structural)]
pub enum BaselineLaw {
    /// Law 1: Conservation of total interaction count.
    InteractionConservation,
    /// Law 2: Conservation of role balance (1:1:1 ratio).
    RoleBalance,
    /// Law 3: Conservation of avoidance symmetry.
    AvoidanceSymmetry,
    /// Law 4: Conservation of energy-equivalent (convergence rate scales with population).
    ConvergenceScaling,
    /// Law 5: Conservation of metric bounds (all values within expected range).
    MetricBounds,
}

/// The five laws in their fixed order.
pub open spec fn all_laws() -> Seq<BaselineLaw> {
    seq![
        BaselineLaw::InteractionConservation,
        BaselineLaw::RoleBalance,
        BaselineLaw::AvoidanceSymmetry,
        BaselineLaw::ConvergenceScaling,
        BaselineLaw::MetricBounds,
    ]
}

/// The name of a law, as text.
pub open spec fn law_name(law: BaselineLaw) -> Seq<char> {
    match law {
        BaselineLaw::InteractionConservation => "InteractionConservation"@,
        BaselineLaw::RoleBalance => "RoleBalance"@,
        BaselineLaw::AvoidanceSymmetry => "AvoidanceSymmetry"@,
        BaselineLaw::ConvergenceScaling => "ConvergenceScaling"@,
        BaselineLaw::MetricBounds => "MetricBounds"@,
    }
}

impl BaselineLaw {
    /// Returns all five baseline laws.
    pub fn all() -> (laws: [BaselineLaw; 5])
        ensures
            laws@ == all_laws(),
    {
        [
            BaselineLaw::InteractionConservation,
            BaselineLaw::RoleBalance,
            BaselineLaw::AvoidanceSymmetry,
            BaselineLaw::ConvergenceScaling,
            BaselineLaw::MetricBounds,
        ]
    }

    /// Returns the name of this law.
    pub fn name(&self) -> (s: &'static str)
        ensures
            s@ == law_name(*self),
    {
        match self {
            BaselineLaw::InteractionConservation => "InteractionConservation",
            BaselineLaw::RoleBalance => "RoleBalance",
            BaselineLaw::AvoidanceSymmetry => "AvoidanceSymmetry",
            BaselineLaw::ConvergenceScaling => "ConvergenceScaling",
            BaselineLaw::MetricBounds => "MetricBounds",
        }
    }
}

/// Every law occurs exactly once in the list of all laws.
pub proof fn lemma_all_laws_complete(law: BaselineLaw)
    ensures
        all_laws().contains(law),
        forall|i: int, j: int|
            0 <= i < j < all_laws().len() ==> all_laws()[i] != all_laws()[j],
{
    match law {
        BaselineLaw::InteractionConservation => assert(all_laws()[0] == law),
        BaselineLaw::RoleBalance => assert(all_laws()[1] == law),
        BaselineLaw::AvoidanceSymmetry => assert(all_laws()[2] == law),
        BaselineLaw::ConvergenceScaling => assert(all_laws()[3] == law),
        BaselineLaw::MetricBounds => assert(all_laws()[4] == law),
    }
}

/// Two different laws have different names.
pub proof fn lemma_law_names_distinct(a: BaselineLaw, b: BaselineLaw)
    requires
        a != b,
    ensures
        law_name(a) != law_name(b),
{
    reveal_strlit("InteractionConservation");
    reveal_strlit("RoleBalance");
    reveal_strlit("AvoidanceSymmetry");
    reveal_strlit("ConvergenceScaling");
    reveal_strlit("MetricBounds");
    assert(law_name(a).len() != law_name(b).len());
}

} // verus!
