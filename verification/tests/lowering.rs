use core::marker::PhantomData;
use vm_assembly::add::Add;
use vm_assembly::condition::{Condition, ConditionCase, SetFlags};
use vm_assembly::encoding::{
    set_register_operand, set_src0_or_dst0_full_operand, AddOpcode, Addressing, DecodedOpcode,
    EncodingModeProduction, EncodingModeTesting, Opcode, OpcodeVariant, Slot, VmEncodingMode,
    NUM_FLAGS,
};
use vm_assembly::error::{AssemblyParseError, EncodingError};
use vm_assembly::link::link_operand;
use vm_assembly::operand::{
    FullOperand, GenericOperand, LabelOperand, MemoryKind, MemoryOperand, Namespace,
    RegisterOperand,
};
use vm_assembly::symbols::SymbolTable;

fn register(index: u8) -> FullOperand {
    FullOperand::Register(RegisterOperand { index })
}

fn label(name: &str, namespace: Namespace) -> FullOperand {
    FullOperand::Label(LabelOperand { name: name.to_string(), namespace })
}

fn add_of(source_1: FullOperand, source_2: u8, destination: FullOperand) -> Add {
    Add {
        condition: ConditionCase(Condition::Le),
        set_flags_option: SetFlags(true),
        source_1,
        source_2: RegisterOperand { index: source_2 },
        destination,
    }
}

fn tables() -> (SymbolTable, SymbolTable, SymbolTable) {
    let mut functions = SymbolTable::new();
    functions.insert("f", 100);
    functions.insert("shared", 1);
    let mut constants = SymbolTable::new();
    constants.insert("c", 200);
    constants.insert("shared", 2);
    let mut globals = SymbolTable::new();
    globals.insert("g", 300);
    globals.insert("shared", 3);
    (functions, constants, globals)
}

#[test]
fn blank_record_holds_no_instruction() {
    let record: DecodedOpcode<8, EncodingModeProduction> = DecodedOpcode::default();
    assert_eq!(
        record,
        DecodedOpcode {
            variant: OpcodeVariant {
                opcode: Opcode::Invalid,
                src0_operand_type: Addressing::RegisterOnly,
                dst0_operand_type: Addressing::RegisterOnly,
                flags: [false; NUM_FLAGS],
            },
            condition: Condition::Always,
            src0_reg_idx: 0,
            src1_reg_idx: 0,
            dst0_reg_idx: 0,
            imm_0: 0,
            imm_1: 0,
            mode: PhantomData,
        }
    );
}

#[test]
fn layouts_differ_in_their_immediate_width() {
    assert_eq!(<EncodingModeProduction as VmEncodingMode<8>>::max_immediate(), 65535);
    assert_eq!(<EncodingModeTesting as VmEncodingMode<16>>::max_immediate(), u64::MAX);
}

#[test]
fn add_lowers_into_the_whole_record() {
    let add = add_of(
        FullOperand::Memory(MemoryOperand {
            kind: MemoryKind::Code,
            base: RegisterOperand { index: 4 },
            offset: 65535,
        }),
        6,
        FullOperand::Immediate(9),
    );
    let record: DecodedOpcode<8, EncodingModeProduction> = add.encode().unwrap();
    assert_eq!(
        record,
        DecodedOpcode {
            variant: OpcodeVariant {
                opcode: Opcode::Add(AddOpcode::Add),
                src0_operand_type: Addressing::Code,
                dst0_operand_type: Addressing::ImmediateOnly,
                flags: [true, false],
            },
            condition: Condition::Le,
            src0_reg_idx: 4,
            src1_reg_idx: 6,
            dst0_reg_idx: 0,
            imm_0: 65535,
            imm_1: 9,
            mode: PhantomData,
        }
    );
}

#[test]
fn try_from_lowers_as_encode_does() {
    let add = add_of(register(1), 2, register(3));
    let by_method: DecodedOpcode<16, EncodingModeTesting> = add.clone().encode().unwrap();
    let by_trait = DecodedOpcode::<16, EncodingModeTesting>::try_from(add).unwrap();
    assert_eq!(by_trait, by_method);
    let unresolved = add_of(label("f", Namespace::Function), 2, register(3));
    assert_eq!(
        DecodedOpcode::<16, EncodingModeTesting>::try_from(unresolved),
        Err(EncodingError::UnresolvedLabel { position: 0 })
    );
}

#[test]
fn unresolved_operands_cannot_be_lowered() {
    let first = add_of(label("f", Namespace::Function), 2, register(3));
    let refused: Result<DecodedOpcode<8, EncodingModeProduction>, EncodingError> = first.encode();
    assert_eq!(refused, Err(EncodingError::UnresolvedLabel { position: 0 }));
    let last = add_of(register(1), 2, label("g", Namespace::Global));
    let refused: Result<DecodedOpcode<8, EncodingModeProduction>, EncodingError> = last.encode();
    assert_eq!(refused, Err(EncodingError::UnresolvedLabel { position: 2 }));
    assert_eq!(
        label("g", Namespace::Global).as_generic_operand(7),
        Err(EncodingError::UnresolvedLabel { position: 7 })
    );
    assert_eq!(
        FullOperand::Immediate(3).as_generic_operand(7),
        Ok(GenericOperand::Immediate(3))
    );
}

#[test]
fn values_that_do_not_fit_are_refused_in_operand_order() {
    type Narrow = Result<DecodedOpcode<8, EncodingModeProduction>, EncodingError>;
    let refused: Narrow = add_of(register(16), 16, FullOperand::Immediate(65536)).encode();
    assert_eq!(refused, Err(EncodingError::RegisterOutOfRange { slot: Slot::Src0 }));
    let refused: Narrow = add_of(register(15), 16, FullOperand::Immediate(65536)).encode();
    assert_eq!(refused, Err(EncodingError::RegisterOutOfRange { slot: Slot::Src1 }));
    let refused: Narrow = add_of(register(15), 15, FullOperand::Immediate(65536)).encode();
    assert_eq!(refused, Err(EncodingError::ImmediateOutOfRange { slot: Slot::Dst0 }));
    let refused: Narrow = add_of(FullOperand::Immediate(65536), 15, register(16)).encode();
    assert_eq!(refused, Err(EncodingError::ImmediateOutOfRange { slot: Slot::Src0 }));
    let refused: Narrow = add_of(register(1), 2, label("g", Namespace::Global)).encode();
    assert_eq!(refused, Err(EncodingError::UnresolvedLabel { position: 2 }));
    let far = FullOperand::Memory(MemoryOperand {
        kind: MemoryKind::Stack,
        base: RegisterOperand { index: 200 },
        offset: u64::MAX,
    });
    let refused: Narrow = add_of(register(1), 2, far).encode();
    assert_eq!(refused, Err(EncodingError::RegisterOutOfRange { slot: Slot::Dst0 }));
}

#[test]
fn full_operand_goes_to_the_slot_that_the_flag_selects() {
    let operand = GenericOperand::Memory(MemoryOperand {
        kind: MemoryKind::Stack,
        base: RegisterOperand { index: 5 },
        offset: 77,
    });
    let mut record: DecodedOpcode<8, EncodingModeProduction> = DecodedOpcode::default();
    assert_eq!(set_src0_or_dst0_full_operand(&operand, &mut record, false), Ok(()));
    assert_eq!(record.variant.src0_operand_type, Addressing::Stack);
    assert_eq!(record.src0_reg_idx, 5);
    assert_eq!(record.imm_0, 77);
    assert_eq!(record.variant.dst0_operand_type, Addressing::RegisterOnly);
    assert_eq!(record.dst0_reg_idx, 0);
    assert_eq!(record.imm_1, 0);

    let mut record: DecodedOpcode<8, EncodingModeProduction> = DecodedOpcode::default();
    assert_eq!(set_src0_or_dst0_full_operand(&operand, &mut record, true), Ok(()));
    assert_eq!(record.variant.dst0_operand_type, Addressing::Stack);
    assert_eq!(record.dst0_reg_idx, 5);
    assert_eq!(record.imm_1, 77);
    assert_eq!(record.variant.src0_operand_type, Addressing::RegisterOnly);
    assert_eq!(record.src0_reg_idx, 0);
    assert_eq!(record.imm_0, 0);
}

#[test]
fn refused_operand_leaves_the_record_alone() {
    let mut record: DecodedOpcode<8, EncodingModeProduction> = DecodedOpcode::default();
    let wide = GenericOperand::Immediate(65536);
    assert_eq!(
        set_src0_or_dst0_full_operand(&wide, &mut record, true),
        Err(EncodingError::ImmediateOutOfRange { slot: Slot::Dst0 })
    );
    assert_eq!(
        set_register_operand(&RegisterOperand { index: 16 }, &mut record),
        Err(EncodingError::RegisterOutOfRange { slot: Slot::Src1 })
    );
    assert_eq!(record, DecodedOpcode::default());
    assert_eq!(set_register_operand(&RegisterOperand { index: 15 }, &mut record), Ok(()));
    assert_eq!(record.src1_reg_idx, 15);
}

#[test]
fn each_namespace_has_its_own_table() {
    let (functions, constants, globals) = tables();
    for (namespace, offset) in
        [(Namespace::Function, 1), (Namespace::Constant, 2), (Namespace::Global, 3)]
    {
        let mut operand = label("shared", namespace);
        assert_eq!(link_operand(&mut operand, &functions, &constants, &globals), Ok(()));
        assert_eq!(operand, FullOperand::Immediate(offset));
    }
    let mut operand = label("c", Namespace::Function);
    assert_eq!(
        link_operand(&mut operand, &functions, &constants, &globals),
        Err(AssemblyParseError::LabelNotFound {
            name: "c".to_string(),
            namespace: Namespace::Function,
        })
    );
    assert_eq!(operand, label("c", Namespace::Function));
}

#[test]
fn operands_without_label_pass_through_linking() {
    let (functions, constants, globals) = tables();
    for given in [
        register(3),
        FullOperand::Immediate(5),
        FullOperand::Memory(MemoryOperand {
            kind: MemoryKind::Stack,
            base: RegisterOperand { index: 1 },
            offset: 2,
        }),
    ] {
        let mut operand = given.clone();
        assert_eq!(link_operand(&mut operand, &functions, &constants, &globals), Ok(()));
        assert_eq!(operand, given);
    }
}

#[test]
fn destination_label_is_linked_after_the_first_source() {
    let (functions, constants, globals) = tables();
    let mut add = add_of(label("c", Namespace::Constant), 2, label("g", Namespace::Global));
    assert_eq!(add.link(&functions, &constants, &globals), Ok(()));
    assert_eq!(add.source_1, FullOperand::Immediate(200));
    assert_eq!(add.destination, FullOperand::Immediate(300));
    assert_eq!(add.condition, ConditionCase(Condition::Le));
    assert_eq!(add.set_flags_option, SetFlags(true));
    assert_eq!(add.source_2, RegisterOperand { index: 2 });
}

#[test]
fn missing_destination_label_keeps_the_resolved_source() {
    let (functions, constants, globals) = tables();
    let mut add = add_of(label("f", Namespace::Function), 2, label("f", Namespace::Global));
    assert_eq!(
        add.link(&functions, &constants, &globals),
        Err(AssemblyParseError::LabelNotFound {
            name: "f".to_string(),
            namespace: Namespace::Global,
        })
    );
    assert_eq!(add.source_1, FullOperand::Immediate(100));
    assert_eq!(add.destination, label("f", Namespace::Global));
}

#[test]
fn missing_source_label_is_reported_before_the_destination() {
    let (functions, constants, globals) = tables();
    let mut add = add_of(label("x", Namespace::Constant), 2, label("y", Namespace::Global));
    let before = add.clone();
    assert_eq!(
        add.link(&functions, &constants, &globals),
        Err(AssemblyParseError::LabelNotFound {
            name: "x".to_string(),
            namespace: Namespace::Constant,
        })
    );
    assert_eq!(add, before);
}

#[test]
fn symbol_table_replaces_and_reports_the_old_offset() {
    let mut table = SymbolTable::new();
    assert_eq!(table.get("a"), None);
    assert!(!table.contains("a"));
    assert_eq!(table.insert("a", 1), None);
    assert_eq!(table.insert("b", 2), None);
    assert_eq!(table.insert("a", 3), Some(1));
    assert_eq!(table.get("a"), Some(3));
    assert_eq!(table.get("b"), Some(2));
    assert!(table.contains("b"));
    assert_eq!(table.get(""), None);
}
