//! The failures of the three stages. Each is an ordinary value that the
//! stage hands back to its caller; none is recovered inside the library.

use vstd::prelude::*;
use crate::encoding::Slot;
use crate::operand::{Namespace, OperandType};

verus! {

/// Why an instruction could not be built from its tokens.
#[derive(Debug, Clone, PartialEq, Eq)]
pub enum InstructionReadError {
    /// The number of operand tokens is not the number of positions of the
    /// template.
    InvalidArgumentCount { expected: usize, found: usize },
    /// The token at `index` is not an operand of the kind that the
    /// template expects there.
    InvalidOperand { index: usize, token: String, kind: OperandType },
    /// The operand at `index` matched its template, but the position must
    /// hold a register and it holds something else.
    ExpectedRegister { index: usize },
    /// Modifiers were left after the condition and the flag-setting
    /// modifier had been taken out; they are listed in the order in which
    /// they were given.
    UnknownModifiers(Vec<String>),
}

/// Why an instruction could not be linked.
#[derive(Debug, Clone, PartialEq, Eq)]
pub enum AssemblyParseError {
    /// The table of `namespace` has no entry for `name`.
    LabelNotFound { name: String, namespace: Namespace },
}

/// Why an instruction could not be lowered.
#[derive(Debug, Clone, Copy, PartialEq, Eq, Structural)]
pub enum EncodingError {
    /// The operand at `position`, counted from zero, is a label that was
    /// never resolved.
    UnresolvedLabel { position: usize },
    /// The operand meant for `slot` names a register that the machine
    /// does not have.
    RegisterOutOfRange { slot: Slot },
    /// The operand meant for `slot` carries a number that is too wide for
    /// the immediate field of the chosen layout.
    ImmediateOutOfRange { slot: Slot },
}

/// The mathematical value of an [`InstructionReadError`].
pub enum ReadErrorModel {
    InvalidArgumentCount { expected: usize, found: usize },
    InvalidOperand { index: usize, token: Seq<char>, kind: OperandType },
    ExpectedRegister { index: usize },
    UnknownModifiers(Seq<Seq<char>>),
}

/// The mathematical value of an [`AssemblyParseError`].
pub enum LinkErrorModel {
    LabelNotFound { name: Seq<char>, namespace: Namespace },
}

/// The contents of a sequence of strings, in order.
pub open spec fn texts(strings: Seq<String>) -> Seq<Seq<char>> {
    Seq::new(strings.len(), |i: int| strings[i]@)
}

impl View for InstructionReadError {
    type V = ReadErrorModel;

    open spec fn view(&self) -> ReadErrorModel {
        match *self {
            InstructionReadError::InvalidArgumentCount { expected, found } => {
                ReadErrorModel::InvalidArgumentCount { expected, found }
            },
            InstructionReadError::InvalidOperand { index, token, kind } => {
                ReadErrorModel::InvalidOperand { index, token: token@, kind }
            },
            InstructionReadError::ExpectedRegister { index } => {
                ReadErrorModel::ExpectedRegister { index }
            },
            InstructionReadError::UnknownModifiers(left) => {
                ReadErrorModel::UnknownModifiers(texts(left@))
            },
        }
    }
}

impl View for AssemblyParseError {
    type V = LinkErrorModel;

    open spec fn view(&self) -> LinkErrorModel {
        match *self {
            AssemblyParseError::LabelNotFound { name, namespace } => {
                LinkErrorModel::LabelNotFound { name: name@, namespace }
            },
        }
    }
}

} // verus!
