//! The schema version in force, and the render policy that goes with it.

use vstd::prelude::*;

verus! {

/// The revision of the wire schema that client and service agree on.
#[derive(Debug, Clone, Copy, PartialEq, Eq, Hash, Structural)]
pub enum SchemaVersion {
    /// Records carry `description`; lines are styled by command category.
    Early,
    /// Records carry `generalDescription`; lines are styled by field.
    Later,
}

/// How an envelope is turned into styled lines.
#[derive(Debug, Clone, Copy, PartialEq, Eq, Hash, Structural)]
pub enum RenderPolicy {
    /// Every line takes the style of the command category.
    CategoryCentric,
    /// The actor label, the narrative and the extra detail each take a fixed
    /// style of their own.
    AttributionCentric,
}

impl SchemaVersion {
    /// The render policy that goes with the version.
    pub open spec fn spec_policy(self) -> RenderPolicy {
        match self {
            SchemaVersion::Early => RenderPolicy::CategoryCentric,
            SchemaVersion::Later => RenderPolicy::AttributionCentric,
        }
    }

    /// The render policy that goes with the version.
    #[verifier::when_used_as_spec(spec_policy)]
    pub fn policy(self) -> (policy: RenderPolicy)
        ensures
            policy == self.spec_policy(),
    {
        match self {
            SchemaVersion::Early => RenderPolicy::CategoryCentric,
            SchemaVersion::Later => RenderPolicy::AttributionCentric,
        }
    }
}

} // verus!
