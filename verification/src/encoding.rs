//! The binary opcode record and the lowering of operands into its slots.
//!
//! The record is the same for every layout of the machine word; a layout
//! decides how wide its fields are. An instruction is lowered for exactly
//! one layout, chosen by type: a record is generic over the width of the
//! instruction word in bytes and over the layout that belongs to it.

use vstd::prelude::*;
use core::marker::PhantomData;
use crate::condition::Condition;
use crate::error::EncodingError;
use crate::operand::{GenericOperand, MemoryKind, RegisterOperand, REGISTER_COUNT};

verus! {

/// A layout of the instruction word of `N` bytes.
pub trait VmEncodingMode<const N: usize>: Sized {
    /// The largest number that the immediate field of an operand slot
    /// can carry.
    spec fn immediate_limit() -> u64;

    /// The largest number that the immediate field of an operand slot
    /// can carry.
    fn max_immediate() -> (limit: u64)
        ensures
            limit == Self::immediate_limit(),
    ;
}

/// The layout that the machine executes: words of eight bytes with
/// immediates of sixteen bits.
#[derive(Debug, Clone, Copy, PartialEq, Eq)]
pub struct EncodingModeProduction;

/// A roomy layout for experiments: words of sixteen bytes with immediates
/// of sixty-four bits.
#[derive(Debug, Clone, Copy, PartialEq, Eq)]
pub struct EncodingModeTesting;

impl VmEncodingMode<8> for EncodingModeProduction {
    open spec fn immediate_limit() -> u64 {
        0xffff
    }

    fn max_immediate() -> (limit: u64) {
        0xffff
    }
}

impl VmEncodingMode<16> for EncodingModeTesting {
    open spec fn immediate_limit() -> u64 {
        u64::MAX
    }

    fn max_immediate() -> (limit: u64) {
        u64::MAX
    }
}

/// The variants of the addition family.
#[derive(Debug, Clone, Copy, PartialEq, Eq, Structural)]
pub enum AddOpcode {
    Add,
}

/// The opcode identifier together with its sub-variant.
#[derive(Debug, Clone, Copy, PartialEq, Eq, Structural)]
pub enum Opcode {
    /// The opcode of a record that no instruction has been lowered into.
    Invalid,
    Add(AddOpcode),
}

/// How the register and the immediate of an operand slot are combined
/// into an operand.
#[derive(Debug, Clone, Copy, PartialEq, Eq, Structural)]
pub enum Addressing {
    /// The value of the register; the immediate is zero.
    RegisterOnly,
    /// The immediate itself; the register is `r0`.
    ImmediateOnly,
    /// The stack cell at the register plus the immediate.
    Stack,
    /// The code-page word at the register plus the immediate.
    Code,
}

/// Number of flag bits in a record.
pub const NUM_FLAGS: usize = 2;

/// Index of the flag bit that makes an instruction update the status
/// flags.
pub const SET_FLAGS_FLAG_IDX: usize = 0;

/// Index of the flag bit that makes an instruction swap its two sources.
pub const SWAP_OPERANDS_FLAG_IDX: usize = 1;

/// The operand slots of a record that hold a checked value.
#[derive(Debug, Clone, Copy, PartialEq, Eq, Structural)]
pub enum Slot {
    /// The first source: addressing, register and immediate.
    Src0,
    /// The second source: a register.
    Src1,
    /// The destination: addressing, register and immediate.
    Dst0,
}

/// The opcode, the addressing of the two full slots and the flag bits.
#[derive(Debug, Clone, Copy, PartialEq, Eq)]
pub struct OpcodeVariant {
    pub opcode: Opcode,
    pub src0_operand_type: Addressing,
    pub dst0_operand_type: Addressing,
    pub flags: [bool; NUM_FLAGS],
}

/// The binary opcode record of one instruction.
#[derive(Debug, PartialEq, Eq)]
pub struct DecodedOpcode<const N: usize, E: VmEncodingMode<N>> {
    pub variant: OpcodeVariant,
    pub condition: Condition,
    pub src0_reg_idx: u8,
    pub src1_reg_idx: u8,
    pub dst0_reg_idx: u8,
    /// The immediate of the first source.
    pub imm_0: u64,
    /// The immediate of the destination.
    pub imm_1: u64,
    pub mode: PhantomData<E>,
}

/// The addressing of the slot that holds `operand`.
pub open spec fn addressing_of(operand: GenericOperand) -> Addressing {
    match operand {
        GenericOperand::Register(_) => Addressing::RegisterOnly,
        GenericOperand::Immediate(_) => Addressing::ImmediateOnly,
        GenericOperand::Memory(m) => match m.kind {
            MemoryKind::Stack => Addressing::Stack,
            MemoryKind::Code => Addressing::Code,
        },
    }
}

/// The register index of the slot that holds `operand`.
pub open spec fn register_index_of(operand: GenericOperand) -> u8 {
    match operand {
        GenericOperand::Register(r) => r.index,
        GenericOperand::Immediate(_) => 0,
        GenericOperand::Memory(m) => m.base.index,
    }
}

/// The immediate of the slot that holds `operand`.
pub open spec fn immediate_of(operand: GenericOperand) -> u64 {
    match operand {
        GenericOperand::Register(_) => 0,
        GenericOperand::Immediate(v) => v,
        GenericOperand::Memory(m) => m.offset,
    }
}

/// Why `operand` cannot be held by the full slot `slot` of a record of
/// the layout `E`, if it cannot. The register is checked first.
pub open spec fn full_slot_error<const N: usize, E: VmEncodingMode<N>>(
    operand: GenericOperand,
    slot: Slot,
) -> Option<EncodingError> {
    if register_index_of(operand) >= REGISTER_COUNT {
        Some(EncodingError::RegisterOutOfRange { slot })
    } else if immediate_of(operand) > E::immediate_limit() {
        Some(EncodingError::ImmediateOutOfRange { slot })
    } else {
        None
    }
}

/// Why `register` cannot be held by the register slot, if it cannot.
pub open spec fn register_slot_error(register: RegisterOperand) -> Option<EncodingError> {
    if register.index >= REGISTER_COUNT {
        Some(EncodingError::RegisterOutOfRange { slot: Slot::Src1 })
    } else {
        None
    }
}

/// The full slot that `is_dst` selects.
pub open spec fn full_slot(is_dst: bool) -> Slot {
    if is_dst {
        Slot::Dst0
    } else {
        Slot::Src0
    }
}

/// The record without an instruction: no opcode, the condition "always",
/// every slot a register slot that holds `r0`, no flag set.
pub open spec fn blank_record<const N: usize, E: VmEncodingMode<N>>() -> DecodedOpcode<N, E> {
    DecodedOpcode {
        variant: OpcodeVariant {
            opcode: Opcode::Invalid,
            src0_operand_type: Addressing::RegisterOnly,
            dst0_operand_type: Addressing::RegisterOnly,
            flags: [false, false],
        },
        condition: Condition::Always,
        src0_reg_idx: 0,
        src1_reg_idx: 0,
        dst0_reg_idx: 0,
        imm_0: 0,
        imm_1: 0,
        mode: PhantomData,
    }
}

/// `record` with `operand` in the full slot that `is_dst` selects.
pub open spec fn with_full_operand<const N: usize, E: VmEncodingMode<N>>(
    record: DecodedOpcode<N, E>,
    operand: GenericOperand,
    is_dst: bool,
) -> DecodedOpcode<N, E> {
    if is_dst {
        DecodedOpcode {
            variant: OpcodeVariant { dst0_operand_type: addressing_of(operand), ..record.variant },
            dst0_reg_idx: register_index_of(operand),
            imm_1: immediate_of(operand),
            ..record
        }
    } else {
        DecodedOpcode {
            variant: OpcodeVariant { src0_operand_type: addressing_of(operand), ..record.variant },
            src0_reg_idx: register_index_of(operand),
            imm_0: immediate_of(operand),
            ..record
        }
    }
}

impl<const N: usize, E: VmEncodingMode<N>> Default for DecodedOpcode<N, E> {
    /// The record without an instruction.
    fn default() -> (record: Self)
        ensures
            record == blank_record::<N, E>(),
    {
        let record = DecodedOpcode {
            variant: OpcodeVariant {
                opcode: Opcode::Invalid,
                src0_operand_type: Addressing::RegisterOnly,
                dst0_operand_type: Addressing::RegisterOnly,
                flags: [false; NUM_FLAGS],
            },
            condition: Condition::Always,
            src0_reg_idx: 0,
            src1_reg_idx: 0,
            dst0_reg_idx: 0,
            imm_0: 0,
            imm_1: 0,
            mode: PhantomData,
        };
        assert(record.variant.flags =~= blank_record::<N, E>().variant.flags);
        record
    }
}

/// Splits an operand into the addressing, the register index and the
/// immediate of the slot that will hold it.
fn slot_fields(operand: &GenericOperand) -> (fields: (Addressing, u8, u64))
    ensures
        fields == (addressing_of(*operand), register_index_of(*operand), immediate_of(*operand)),
{
    match operand {
        GenericOperand::Register(r) => (Addressing::RegisterOnly, r.index, 0),
        GenericOperand::Immediate(v) => (Addressing::ImmediateOnly, 0, *v),
        GenericOperand::Memory(m) => match m.kind {
            MemoryKind::Stack => (Addressing::Stack, m.base.index, m.offset),
            MemoryKind::Code => (Addressing::Code, m.base.index, m.offset),
        },
    }
}

/// Places `operand` into the first source slot of `opcode`, or into its
/// destination slot where `is_dst` is set. The two never meet in one
/// slot, so one routine serves both. An operand that the layout cannot
/// hold is refused, and the record stays as it was.
pub fn set_src0_or_dst0_full_operand<const N: usize, E: VmEncodingMode<N>>(
    operand: &GenericOperand,
    opcode: &mut DecodedOpcode<N, E>,
    is_dst: bool,
) -> (result: Result<(), EncodingError>)
    ensures
        match full_slot_error::<N, E>(*operand, full_slot(is_dst)) {
            Some(e) => result == Err::<(), EncodingError>(e) && *final(opcode) == *old(opcode),
            None => result is Ok && *final(opcode) == with_full_operand(
                *old(opcode),
                *operand,
                is_dst,
            ),
        },
{
    let (addressing, register, immediate) = slot_fields(operand);
    let slot = if is_dst {
        Slot::Dst0
    } else {
        Slot::Src0
    };
    if register >= REGISTER_COUNT {
        return Err(EncodingError::RegisterOutOfRange { slot });
    }
    if immediate > E::max_immediate() {
        return Err(EncodingError::ImmediateOutOfRange { slot });
    }
    if is_dst {
        opcode.variant.dst0_operand_type = addressing;
        opcode.dst0_reg_idx = register;
        opcode.imm_1 = immediate;
    } else {
        opcode.variant.src0_operand_type = addressing;
        opcode.src0_reg_idx = register;
        opcode.imm_0 = immediate;
    }
    Ok(())
}

/// Places `register` into the register slot of the second source. A
/// register that the machine does not have is refused, and the record
/// stays as it was.
pub fn set_register_operand<const N: usize, E: VmEncodingMode<N>>(
    register: &RegisterOperand,
    opcode: &mut DecodedOpcode<N, E>,
) -> (result: Result<(), EncodingError>)
    ensures
        match register_slot_error(*register) {
            Some(e) => result == Err::<(), EncodingError>(e) && *final(opcode) == *old(opcode),
            None => result is Ok && *final(opcode) == (DecodedOpcode {
                src1_reg_idx: register.index,
                ..*old(opcode)
            }),
        },
{
    if register.index >= REGISTER_COUNT {
        return Err(EncodingError::RegisterOutOfRange { slot: Slot::Src1 });
    }
    opcode.src1_reg_idx = register.index;
    Ok(())
}

} // verus!
