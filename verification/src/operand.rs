//! The operand model: what an operand position of an instruction can hold
//! before and after its labels have been resolved.

use vstd::prelude::*;
use crate::error::{EncodingError, InstructionReadError, ReadErrorModel};

verus! {

/// Number of general-purpose registers. Register `r0` always reads as
/// zero and stands for "no register" in an address.
pub const REGISTER_COUNT: u8 = 16;

/// A general-purpose register, named by its index.
#[derive(Debug, Clone, Copy, PartialEq, Eq, Structural)]
pub struct RegisterOperand {
    pub index: u8,
}

/// The memory region that an address refers to.
#[derive(Debug, Clone, Copy, PartialEq, Eq, Structural)]
pub enum MemoryKind {
    Stack,
    Code,
}

/// A memory reference: the sum of a base register and a constant offset
/// within one region.
#[derive(Debug, Clone, Copy, PartialEq, Eq, Structural)]
pub struct MemoryOperand {
    pub kind: MemoryKind,
    pub base: RegisterOperand,
    pub offset: u64,
}

/// The symbol table in which a label is looked up.
#[derive(Debug, Clone, Copy, PartialEq, Eq, Structural)]
pub enum Namespace {
    /// Labels of functions; they resolve to program-counter values.
    Function,
    /// Labels of the constant pool; they resolve to offsets in it.
    Constant,
    /// Labels of global variables; they resolve to data offsets.
    Global,
}

/// A symbolic reference that has not been resolved yet.
#[derive(Debug, Clone, PartialEq, Eq)]
pub struct LabelOperand {
    pub name: String,
    pub namespace: Namespace,
}

/// An operand in its most general form.
#[derive(Debug, Clone, PartialEq, Eq)]
pub enum FullOperand {
    Register(RegisterOperand),
    Immediate(u64),
    Memory(MemoryOperand),
    Label(LabelOperand),
}

/// An operand that holds no label: the only form that can be lowered.
#[derive(Debug, Clone, Copy, PartialEq, Eq, Structural)]
pub enum GenericOperand {
    Register(RegisterOperand),
    Immediate(u64),
    Memory(MemoryOperand),
}

/// The kind of operand that a position of an instruction admits.
#[derive(Debug, Clone, Copy, PartialEq, Eq, Structural)]
pub enum OperandType {
    Register,
    Immediate,
    Memory,
    /// A register, an immediate or a memory reference.
    Full,
    Label,
}

/// The mathematical value of a [`LabelOperand`].
pub struct LabelModel {
    pub name: Seq<char>,
    pub namespace: Namespace,
}

/// The mathematical value of a [`FullOperand`].
pub enum OperandModel {
    Register(RegisterOperand),
    Immediate(u64),
    Memory(MemoryOperand),
    Label(LabelModel),
}

impl View for LabelOperand {
    type V = LabelModel;

    open spec fn view(&self) -> LabelModel {
        LabelModel { name: self.name@, namespace: self.namespace }
    }
}

impl View for FullOperand {
    type V = OperandModel;

    open spec fn view(&self) -> OperandModel {
        match *self {
            FullOperand::Register(r) => OperandModel::Register(r),
            FullOperand::Immediate(v) => OperandModel::Immediate(v),
            FullOperand::Memory(m) => OperandModel::Memory(m),
            FullOperand::Label(l) => OperandModel::Label(l@),
        }
    }
}

impl OperandModel {
    /// Whether the operand is a label that still awaits resolution.
    pub open spec fn is_label(self) -> bool {
        self is Label
    }

    /// The operand as a register, where it is one.
    pub open spec fn register(self) -> Option<RegisterOperand> {
        match self {
            OperandModel::Register(r) => Some(r),
            _ => None,
        }
    }

    /// The operand without the label case, where it holds no label.
    pub open spec fn generic(self) -> Option<GenericOperand> {
        match self {
            OperandModel::Register(r) => Some(GenericOperand::Register(r)),
            OperandModel::Immediate(v) => Some(GenericOperand::Immediate(v)),
            OperandModel::Memory(m) => Some(GenericOperand::Memory(m)),
            OperandModel::Label(_) => None,
        }
    }
}

/// The views of a sequence of operands, in order.
pub open spec fn operand_models(operands: Seq<FullOperand>) -> Seq<OperandModel> {
    Seq::new(operands.len(), |i: int| operands[i]@)
}

impl LabelOperand {
    /// A copy of the label.
    pub fn duplicate(&self) -> (copy: LabelOperand)
        ensures
            copy@ == self@,
    {
        LabelOperand { name: self.name.clone(), namespace: self.namespace }
    }
}

impl FullOperand {
    /// A copy of the operand.
    pub fn duplicate(&self) -> (copy: FullOperand)
        ensures
            copy@ == self@,
    {
        match self {
            FullOperand::Register(r) => FullOperand::Register(*r),
            FullOperand::Immediate(v) => FullOperand::Immediate(*v),
            FullOperand::Memory(m) => FullOperand::Memory(*m),
            FullOperand::Label(l) => FullOperand::Label(l.duplicate()),
        }
    }

    /// The operand as a register. `position` is the place of the operand
    /// in its instruction and is reported where the operand is anything
    /// else.
    pub fn as_register_operand(&self, position: usize) -> (result: Result<
        RegisterOperand,
        InstructionReadError,
    >)
        ensures
            match self@.register() {
                Some(r) => result == Ok::<RegisterOperand, InstructionReadError>(r),
                None => result is Err && result->Err_0@ == (ReadErrorModel::ExpectedRegister {
                    index: position,
                }),
            },
    {
        match self {
            FullOperand::Register(r) => Ok(*r),
            _ => Err(InstructionReadError::ExpectedRegister { index: position }),
        }
    }

    /// The operand without the label case. `position` is the place of the
    /// operand in its instruction and is reported where the operand is
    /// still a label.
    pub fn as_generic_operand(&self, position: usize) -> (result: Result<
        GenericOperand,
        EncodingError,
    >)
        ensures
            result == (match self@.generic() {
                Some(g) => Ok::<GenericOperand, EncodingError>(g),
                None => Err(EncodingError::UnresolvedLabel { position }),
            }),
    {
        match self {
            FullOperand::Register(r) => Ok(GenericOperand::Register(*r)),
            FullOperand::Immediate(v) => Ok(GenericOperand::Immediate(*v)),
            FullOperand::Memory(m) => Ok(GenericOperand::Memory(*m)),
            FullOperand::Label(_) => Err(EncodingError::UnresolvedLabel { position }),
        }
    }
}

} // verus!
