//! The arithmetic addition instruction.
//!
//! Written `add[.condition][.set_flags] source_1, source_2, destination`.
//! The first source and the destination are full operands and the second
//! source is a register. The first source may instead be a label, which
//! linking replaces by the offset that the label stands for.

use vstd::prelude::*;
use crate::condition::{flags_token, Condition, ConditionCase, SetFlags};
use crate::encoding::{
    addressing_of,
    full_slot_error,
    immediate_of,
    register_index_of,
    register_slot_error,
    set_register_operand,
    set_src0_or_dst0_full_operand,
    AddOpcode,
    DecodedOpcode,
    Opcode,
    OpcodeVariant,
    Slot,
    VmEncodingMode,
    SET_FLAGS_FLAG_IDX,
};
use crate::error::{
    AssemblyParseError,
    EncodingError,
    InstructionReadError,
    LinkErrorModel,
    ReadErrorModel,
};
use crate::link::{link_operand, linked_operand};
use crate::matcher::{
    lemma_match_ok,
    match_template,
    parse_canonical_operands_sequence,
    token_texts,
};
use crate::modifiers::{
    chosen_condition,
    leftover,
    lemma_flags_survive_condition,
    pick_condition,
    pick_setting_flags,
    ModifierSet,
};
use crate::operand::{operand_models, FullOperand, OperandModel, OperandType, RegisterOperand};
use crate::symbols::SymbolTable;

verus! {

/// The arithmetic addition instruction.
#[derive(Debug, Clone, PartialEq)]
pub struct Add {
    /// Condition for execution.
    pub condition: ConditionCase,
    /// Whether the status flags are updated.
    pub set_flags_option: SetFlags,
    /// The first operand.
    pub source_1: FullOperand,
    /// The second operand.
    pub source_2: RegisterOperand,
    /// The destination operand.
    pub destination: FullOperand,
}

/// The mathematical value of an [`Add`].
pub struct AddModel {
    pub condition: ConditionCase,
    pub set_flags_option: SetFlags,
    pub source_1: OperandModel,
    pub source_2: RegisterOperand,
    pub destination: OperandModel,
}

impl View for Add {
    type V = AddModel;

    open spec fn view(&self) -> AddModel {
        AddModel {
            condition: self.condition,
            set_flags_option: self.set_flags_option,
            source_1: self.source_1@,
            source_2: self.source_2,
            destination: self.destination@,
        }
    }
}

/// The kinds of the operands in the usual form of the instruction.
pub open spec fn primary_template() -> Seq<OperandType> {
    seq![OperandType::Full, OperandType::Register, OperandType::Full]
}

/// The kinds of the operands in the form whose first source is a label.
pub open spec fn label_template() -> Seq<OperandType> {
    seq![OperandType::Label, OperandType::Register, OperandType::Full]
}

/// The operands that `tokens` denote: those of the usual form where the
/// tokens match it as a whole, else whatever the form with a label
/// yields. The usual form always comes first.
pub open spec fn matched_add_operands(tokens: Seq<Seq<char>>) -> Result<
    Seq<OperandModel>,
    ReadErrorModel,
> {
    match match_template(tokens, primary_template()) {
        Ok(operands) => Ok(operands),
        Err(_) => match_template(tokens, label_template()),
    }
}

/// The instruction that the modifiers and the operand tokens denote, or
/// the reason why they denote none. Operands are judged before
/// modifiers.
pub open spec fn built_add(modifiers: Seq<Seq<char>>, tokens: Seq<Seq<char>>) -> Result<
    AddModel,
    ReadErrorModel,
> {
    match matched_add_operands(tokens) {
        Err(e) => Err(e),
        Ok(operands) => match operands[1].register() {
            None => Err(ReadErrorModel::ExpectedRegister { index: 1 }),
            Some(source_2) => if leftover(modifiers).len() > 0 {
                Err(ReadErrorModel::UnknownModifiers(leftover(modifiers)))
            } else {
                Ok(
                    AddModel {
                        condition: ConditionCase(
                            match chosen_condition(modifiers) {
                                Some(c) => c,
                                None => Condition::Always,
                            },
                        ),
                        set_flags_option: SetFlags(modifiers.contains(flags_token())),
                        source_1: operands[0],
                        source_2,
                        destination: operands[2],
                    },
                )
            },
        },
    }
}

/// `operand` after linking: resolved where linking it succeeds, and as it
/// was where linking it fails.
pub open spec fn resolved_or_same(
    operand: OperandModel,
    functions: Map<Seq<char>, u64>,
    constants: Map<Seq<char>, u64>,
    globals: Map<Seq<char>, u64>,
) -> OperandModel {
    match linked_operand(operand, functions, constants, globals) {
        Ok(linked) => linked,
        Err(_) => operand,
    }
}

/// The label that stops the linking of `add`: that of the first source
/// where it has no entry, else that of the destination where it has
/// none.
pub open spec fn link_error(
    add: AddModel,
    functions: Map<Seq<char>, u64>,
    constants: Map<Seq<char>, u64>,
    globals: Map<Seq<char>, u64>,
) -> Option<LinkErrorModel> {
    match linked_operand(add.source_1, functions, constants, globals) {
        Err(e) => Some(e),
        Ok(_) => match linked_operand(add.destination, functions, constants, globals) {
            Err(e) => Some(e),
            Ok(_) => None,
        },
    }
}

/// `add` as linking leaves it. The first source is linked before the
/// destination, and the destination is only looked at where the first
/// source could be linked.
pub open spec fn after_link(
    add: AddModel,
    functions: Map<Seq<char>, u64>,
    constants: Map<Seq<char>, u64>,
    globals: Map<Seq<char>, u64>,
) -> AddModel {
    match linked_operand(add.source_1, functions, constants, globals) {
        Err(_) => add,
        Ok(source_1) => AddModel {
            source_1,
            destination: resolved_or_same(add.destination, functions, constants, globals),
            ..add
        },
    }
}

/// The record that `add` is lowered into for the layout `E`, or the
/// reason why it cannot be lowered. The operands are judged in their
/// order, and of one operand the label before the register and the
/// register before the immediate.
pub open spec fn encoded_add<const N: usize, E: VmEncodingMode<N>>(add: AddModel) -> Result<
    DecodedOpcode<N, E>,
    EncodingError,
> {
    match add.source_1.generic() {
        None => Err(EncodingError::UnresolvedLabel { position: 0 }),
        Some(source_1) => match full_slot_error::<N, E>(source_1, Slot::Src0) {
            Some(e) => Err(e),
            None => match register_slot_error(add.source_2) {
                Some(e) => Err(e),
                None => match add.destination.generic() {
                    None => Err(EncodingError::UnresolvedLabel { position: 2 }),
                    Some(destination) => match full_slot_error::<N, E>(destination, Slot::Dst0) {
                        Some(e) => Err(e),
                        None => Ok(
                            DecodedOpcode {
                                variant: OpcodeVariant {
                                    opcode: Opcode::Add(AddOpcode::Add),
                                    src0_operand_type: addressing_of(source_1),
                                    dst0_operand_type: addressing_of(destination),
                                    flags: [add.set_flags_option.0, false],
                                },
                                condition: add.condition.0,
                                src0_reg_idx: register_index_of(source_1),
                                src1_reg_idx: add.source_2.index,
                                dst0_reg_idx: register_index_of(destination),
                                imm_0: immediate_of(source_1),
                                imm_1: immediate_of(destination),
                                mode: core::marker::PhantomData,
                            },
                        ),
                    },
                },
            },
        },
    }
}

impl Add {
    /// Total number of arguments in canonical form.
    pub const NUM_ARGUMENTS: usize = 3;

    /// Builds the instruction from its modifiers and its operand tokens.
    pub fn build_from_parts(modifiers: ModifierSet, operands: Vec<&str>) -> (result: Result<
        Self,
        InstructionReadError,
    >)
        ensures
            match result {
                Ok(add) => built_add(modifiers@, token_texts(operands@)) == Ok::<
                    AddModel,
                    ReadErrorModel,
                >(add@),
                Err(e) => built_add(modifiers@, token_texts(operands@)) == Err::<
                    AddModel,
                    ReadErrorModel,
                >(e@),
            },
    {
        let mut modifiers = modifiers;
        let ghost given = modifiers@;
        let ghost tokens = token_texts(operands@);
        let primary = [OperandType::Full, OperandType::Register];
        let with_label = [OperandType::Label, OperandType::Register];
        let destinations = [OperandType::Full];
        proof {
            assert(primary@ + destinations@ =~= primary_template());
            assert(with_label@ + destinations@ =~= label_template());
        }
        let mut matched = match parse_canonical_operands_sequence(
            &operands,
            primary.as_slice(),
            destinations.as_slice(),
        ) {
            Ok(matched) => matched,
            Err(_) => match parse_canonical_operands_sequence(
                &operands,
                with_label.as_slice(),
                destinations.as_slice(),
            ) {
                Ok(matched) => matched,
                Err(e) => {
                    return Err(e);
                },
            },
        };
        let ghost models = matched_add_operands(tokens)->Ok_0;
        proof {
            assert(models == operand_models(matched@));
            if match_template(tokens, primary_template()) is Ok {
                lemma_match_ok(tokens, primary_template(), models);
            } else {
                lemma_match_ok(tokens, label_template(), models);
            }
        }
        assert(models[0] == matched@[0]@ && models[1] == matched@[1]@ && models[2] == matched@[2]@);
        let destination = matched.pop().unwrap();
        let second = matched.pop().unwrap();
        let source_1 = matched.pop().unwrap();
        let source_2 = match second.as_register_operand(1) {
            Ok(register) => register,
            Err(e) => {
                return Err(e);
            },
        };
        let condition = pick_condition(&mut modifiers);
        let set_flags_option = pick_setting_flags(&mut modifiers);
        proof {
            lemma_flags_survive_condition(given);
        }
        if !modifiers.is_empty() {
            return Err(InstructionReadError::UnknownModifiers(modifiers.into_tokens()));
        }
        Ok(Add { condition, set_flags_option, source_1, source_2, destination })
    }

    /// Resolves the labels of the instruction against the symbol tables:
    /// first that of the first source, then that of the destination. The
    /// first label without an entry stops linking and is reported; what
    /// was resolved before it stays resolved.
    pub fn link(
        &mut self,
        functions: &SymbolTable,
        constants: &SymbolTable,
        globals: &SymbolTable,
    ) -> (result: Result<(), AssemblyParseError>)
        ensures
            final(self)@ == after_link(old(self)@, functions@, constants@, globals@),
            match link_error(old(self)@, functions@, constants@, globals@) {
                Some(e) => result is Err && result->Err_0@ == e,
                None => result is Ok,
            },
    {
        match link_operand(&mut self.source_1, functions, constants, globals) {
            Ok(()) => {},
            Err(e) => {
                return Err(e);
            },
        }
        match link_operand(&mut self.destination, functions, constants, globals) {
            Ok(()) => {},
            Err(e) => {
                return Err(e);
            },
        }
        Ok(())
    }

    /// Lowers the instruction into the binary opcode record of the layout
    /// `E`.
    pub fn encode<const N: usize, E: VmEncodingMode<N>>(self) -> (result: Result<
        DecodedOpcode<N, E>,
        EncodingError,
    >)
        ensures
            result == encoded_add::<N, E>(self@),
    {
        let mut new: DecodedOpcode<N, E> = DecodedOpcode::default();
        new.variant.opcode = Opcode::Add(AddOpcode::Add);
        let source_1 = match self.source_1.as_generic_operand(0) {
            Ok(operand) => operand,
            Err(e) => {
                return Err(e);
            },
        };
        match set_src0_or_dst0_full_operand(&source_1, &mut new, false) {
            Ok(()) => {},
            Err(e) => {
                return Err(e);
            },
        }
        match set_register_operand(&self.source_2, &mut new) {
            Ok(()) => {},
            Err(e) => {
                return Err(e);
            },
        }
        let destination = match self.destination.as_generic_operand(2) {
            Ok(operand) => operand,
            Err(e) => {
                return Err(e);
            },
        };
        match set_src0_or_dst0_full_operand(&destination, &mut new, true) {
            Ok(()) => {},
            Err(e) => {
                return Err(e);
            },
        }
        new.condition = self.condition.0;
        new.variant.flags[SET_FLAGS_FLAG_IDX] = self.set_flags_option.0;
        proof {
            let expected = encoded_add::<N, E>(self@)->Ok_0;
            assert(new.variant.flags =~= expected.variant.flags);
        }
        Ok(new)
    }
}

impl<const N: usize, E: VmEncodingMode<N>> TryFrom<Add> for DecodedOpcode<N, E> {
    type Error = EncodingError;

    /// Lowers the instruction, as [`Add::encode`] does.
    fn try_from(value: Add) -> (result: Result<Self, EncodingError>) {
        value.encode()
    }
}

impl<const N: usize, E: VmEncodingMode<N>> vstd::std_specs::convert::TryFromSpecImpl<Add> for DecodedOpcode<N, E> {
    open spec fn obeys_try_from_spec() -> bool {
        true
    }

    open spec fn try_from_spec(value: Add) -> Result<Self, EncodingError> {
        encoded_add::<N, E>(value@)
    }
}

} // verus!
