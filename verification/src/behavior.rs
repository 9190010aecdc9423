//! Behavior categories.

use vstd::prelude::*;

verus! {

/// The kind of behavior that a script gives to an entity.
///
/// The set of categories is closed; scripts are cached per entity and per
/// category.
#[derive(Clone, Copy, Debug, PartialEq, Eq, Hash, Structural)]
pub enum BehaviorType {
    Combat,
}

impl BehaviorType {
    /// The number under which this category is stored. Distinct categories
    /// have distinct numbers.
    pub open spec fn spec_code(self) -> u8 {
        match self {
            BehaviorType::Combat => 0,
        }
    }

    /// The number under which this category is stored.
    #[verifier::when_used_as_spec(spec_code)]
    pub fn code(self) -> (c: u8)
        ensures
            c == self.spec_code(),
    {
        match self {
            BehaviorType::Combat => 0,
        }
    }

    /// Two categories with the same code are the same category.
    pub proof fn code_is_injective(a: BehaviorType, b: BehaviorType)
        ensures
            a.spec_code() == b.spec_code() <==> a == b,
    {
    }
}

} // verus!
