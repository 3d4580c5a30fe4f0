//! Integer comparison predicates and the backend's codes for them.

use vstd::prelude::*;
use vstd::std_specs::convert::FromSpecImpl;

verus! {

/// The comparisons that the layer offers.
#[derive(Clone, Copy, Hash, PartialEq, Eq, Structural, PartialOrd, Ord, Debug)]
#[non_exhaustive]
pub enum ICmp {
    /// Equal.
    Eq,
    /// Unsigned less than.
    Lt,
    /// Signed less than.
    Lts,
}

/// The backend's comparison predicates, all of them, in the backend's order.
#[derive(Clone, Copy, Hash, PartialEq, Eq, Structural, Debug)]
pub enum LLVMIntPredicate {
    LLVMIntEQ,
    LLVMIntNE,
    LLVMIntUGT,
    LLVMIntUGE,
    LLVMIntULT,
    LLVMIntULE,
    LLVMIntSGT,
    LLVMIntSGE,
    LLVMIntSLT,
    LLVMIntSLE,
}

impl LLVMIntPredicate {
    /// The number that the backend's C interface gives the predicate.
    pub open spec fn code_of(self) -> u32 {
        match self {
            LLVMIntPredicate::LLVMIntEQ => 32,
            LLVMIntPredicate::LLVMIntNE => 33,
            LLVMIntPredicate::LLVMIntUGT => 34,
            LLVMIntPredicate::LLVMIntUGE => 35,
            LLVMIntPredicate::LLVMIntULT => 36,
            LLVMIntPredicate::LLVMIntULE => 37,
            LLVMIntPredicate::LLVMIntSGT => 38,
            LLVMIntPredicate::LLVMIntSGE => 39,
            LLVMIntPredicate::LLVMIntSLT => 40,
            LLVMIntPredicate::LLVMIntSLE => 41,
        }
    }

    /// The number that the backend's C interface gives the predicate.
    pub fn code(self) -> (c: u32)
        ensures
            c == self.code_of(),
    {
        match self {
            LLVMIntPredicate::LLVMIntEQ => 32,
            LLVMIntPredicate::LLVMIntNE => 33,
            LLVMIntPredicate::LLVMIntUGT => 34,
            LLVMIntPredicate::LLVMIntUGE => 35,
            LLVMIntPredicate::LLVMIntULT => 36,
            LLVMIntPredicate::LLVMIntULE => 37,
            LLVMIntPredicate::LLVMIntSGT => 38,
            LLVMIntPredicate::LLVMIntSGE => 39,
            LLVMIntPredicate::LLVMIntSLT => 40,
            LLVMIntPredicate::LLVMIntSLE => 41,
        }
    }
}

/// The backend's predicate for each comparison of the layer.
pub open spec fn native(a: ICmp) -> LLVMIntPredicate {
    match a {
        ICmp::Eq => LLVMIntPredicate::LLVMIntEQ,
        ICmp::Lt => LLVMIntPredicate::LLVMIntULT,
        ICmp::Lts => LLVMIntPredicate::LLVMIntSLT,
    }
}

impl From<ICmp> for LLVMIntPredicate {
    fn from(a: ICmp) -> (p: Self) {
        match a {
            ICmp::Eq => LLVMIntPredicate::LLVMIntEQ,
            ICmp::Lt => LLVMIntPredicate::LLVMIntULT,
            ICmp::Lts => LLVMIntPredicate::LLVMIntSLT,
        }
    }
}

impl FromSpecImpl<ICmp> for LLVMIntPredicate {
    open spec fn obeys_from_spec() -> bool {
        true
    }

    open spec fn from_spec(a: ICmp) -> Self {
        native(a)
    }
}

/// Two comparisons with the same backend predicate, or with the same backend
/// code, are the same comparison.
pub proof fn lemma_native_injective(a: ICmp, b: ICmp)
    ensures
        native(a) == native(b) ==> a == b,
        native(a).code_of() == native(b).code_of() ==> a == b,
{
}

/// Only the predicates for equal, unsigned less and signed less are ever
/// produced, under the codes 32, 36 and 40, and each of the three is produced
/// by one comparison.
pub proof fn lemma_native_range(a: ICmp)
    ensures
        native(a) == LLVMIntPredicate::LLVMIntEQ || native(a) == LLVMIntPredicate::LLVMIntULT
            || native(a) == LLVMIntPredicate::LLVMIntSLT,
        native(a).code_of() == 32 || native(a).code_of() == 36 || native(a).code_of() == 40,
        native(ICmp::Eq) == LLVMIntPredicate::LLVMIntEQ,
        native(ICmp::Lt) == LLVMIntPredicate::LLVMIntULT,
        native(ICmp::Lts) == LLVMIntPredicate::LLVMIntSLT,
{
}

} // verus!
