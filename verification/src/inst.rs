//! The table of instructions: which there are, what each takes and whether it
//! gives a value.

use vstd::prelude::*;

verus! {

/// The instructions that a builder can append.
#[derive(Clone, Copy, Debug, PartialEq, Eq, Structural)]
pub enum Inst {
    Alloca,
    Load2,
    StructGEP2,
    Store,
    Add,
    And,
    Neg,
    Not,
    TruncOrBitCast,
    Mul,
    Or,
    Sub,
    Xor,
    ICmp,
    Br,
    CondBr,
    Call2,
    GEP2,
}

/// The kinds of parameters that instructions take.
#[derive(Clone, Copy, Debug, PartialEq, Eq, Structural)]
pub enum Param {
    /// A type handle.
    Type,
    /// A handle of a plain value.
    Value,
    /// A basic block handle.
    Block,
    /// A field index.
    Index,
    /// A comparison predicate.
    Predicate,
    /// The name of the result.
    Name,
    /// A list of handles of plain values.
    Values,
}

impl Inst {
    /// The parameters of the instruction, in the backend's order.
    pub open spec fn params_of(self) -> Seq<Param> {
        match self {
            Inst::Alloca => seq![Param::Type, Param::Name],
            Inst::Load2 => seq![Param::Type, Param::Value, Param::Name],
            Inst::StructGEP2 => seq![Param::Type, Param::Value, Param::Index, Param::Name],
            Inst::Store => seq![Param::Value, Param::Value],
            Inst::Add | Inst::And | Inst::Mul | Inst::Or | Inst::Sub | Inst::Xor => seq![
                Param::Value,
                Param::Value,
                Param::Name,
            ],
            Inst::Neg | Inst::Not => seq![Param::Value, Param::Name],
            Inst::TruncOrBitCast => seq![Param::Value, Param::Type, Param::Name],
            Inst::ICmp => seq![Param::Predicate, Param::Value, Param::Value, Param::Name],
            Inst::Br => seq![Param::Block],
            Inst::CondBr => seq![Param::Value, Param::Block, Param::Block],
            Inst::Call2 | Inst::GEP2 => seq![
                Param::Type,
                Param::Value,
                Param::Values,
                Param::Name,
            ],
        }
    }

    /// Whether the instruction gives a value.
    pub open spec fn has_result_spec(self) -> bool {
        !(self == Inst::Store || self == Inst::Br || self == Inst::CondBr)
    }

    /// The parameters of the instruction, in the backend's order.
    pub fn params(self) -> (ps: Vec<Param>)
        ensures
            ps@ == self.params_of(),
    {
        match self {
            Inst::Alloca => vec![Param::Type, Param::Name],
            Inst::Load2 => vec![Param::Type, Param::Value, Param::Name],
            Inst::StructGEP2 => vec![Param::Type, Param::Value, Param::Index, Param::Name],
            Inst::Store => vec![Param::Value, Param::Value],
            Inst::Add | Inst::And | Inst::Mul | Inst::Or | Inst::Sub | Inst::Xor => vec![
                Param::Value,
                Param::Value,
                Param::Name,
            ],
            Inst::Neg | Inst::Not => vec![Param::Value, Param::Name],
            Inst::TruncOrBitCast => vec![Param::Value, Param::Type, Param::Name],
            Inst::ICmp => vec![Param::Predicate, Param::Value, Param::Value, Param::Name],
            Inst::Br => vec![Param::Block],
            Inst::CondBr => vec![Param::Value, Param::Block, Param::Block],
            Inst::Call2 | Inst::GEP2 => vec![
                Param::Type,
                Param::Value,
                Param::Values,
                Param::Name,
            ],
        }
    }

    /// Whether the instruction gives a value.
    #[verifier::when_used_as_spec(has_result_spec)]
    pub fn has_result(self) -> (b: bool)
        ensures
            b == self.has_result_spec(),
    {
        match self {
            Inst::Store | Inst::Br | Inst::CondBr => false,
            _ => true,
        }
    }
}

} // verus!
