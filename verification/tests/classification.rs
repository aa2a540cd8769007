use vm_assembly::add::Add;
use vm_assembly::classify::classify_operand;
use vm_assembly::error::InstructionReadError;
use vm_assembly::matcher::parse_canonical_operands_sequence;
use vm_assembly::modifiers::ModifierSet;
use vm_assembly::operand::{
    FullOperand, LabelOperand, MemoryKind, MemoryOperand, Namespace, OperandType, RegisterOperand,
};
use vm_assembly::text::{chars_of, holds_name, find_char, has_prefix, read_decimal};

fn register(index: u8) -> FullOperand {
    FullOperand::Register(RegisterOperand { index })
}

fn memory(kind: MemoryKind, base: u8, offset: u64) -> FullOperand {
    FullOperand::Memory(MemoryOperand { kind, base: RegisterOperand { index: base }, offset })
}

fn label(name: &str, namespace: Namespace) -> FullOperand {
    FullOperand::Label(LabelOperand { name: name.to_string(), namespace })
}

#[test]
fn registers_run_from_r0_to_r15() {
    assert_eq!(classify_operand("r0", OperandType::Register), Some(register(0)));
    assert_eq!(classify_operand("r7", OperandType::Register), Some(register(7)));
    assert_eq!(classify_operand("r15", OperandType::Register), Some(register(15)));
    assert_eq!(classify_operand("r16", OperandType::Register), None);
    assert_eq!(classify_operand("r", OperandType::Register), None);
    assert_eq!(classify_operand("R1", OperandType::Register), None);
    assert_eq!(classify_operand("r1x", OperandType::Register), None);
    assert_eq!(classify_operand("r-1", OperandType::Register), None);
    assert_eq!(classify_operand("", OperandType::Register), None);
    assert_eq!(classify_operand("7", OperandType::Register), None);
}

#[test]
fn register_index_may_have_leading_zeros() {
    assert_eq!(classify_operand("r07", OperandType::Register), Some(register(7)));
    assert_eq!(classify_operand("r0015", OperandType::Register), Some(register(15)));
}

#[test]
fn immediates_are_decimal_and_fit_in_64_bits() {
    assert_eq!(classify_operand("0", OperandType::Immediate), Some(FullOperand::Immediate(0)));
    assert_eq!(classify_operand("42", OperandType::Immediate), Some(FullOperand::Immediate(42)));
    assert_eq!(classify_operand("007", OperandType::Immediate), Some(FullOperand::Immediate(7)));
    assert_eq!(
        classify_operand("18446744073709551615", OperandType::Immediate),
        Some(FullOperand::Immediate(u64::MAX))
    );
    assert_eq!(classify_operand("18446744073709551616", OperandType::Immediate), None);
    assert_eq!(classify_operand("99999999999999999999999", OperandType::Immediate), None);
    assert_eq!(classify_operand("", OperandType::Immediate), None);
    assert_eq!(classify_operand("4a", OperandType::Immediate), None);
    assert_eq!(classify_operand("-4", OperandType::Immediate), None);
    assert_eq!(classify_operand("0x10", OperandType::Immediate), None);
    assert_eq!(classify_operand("r1", OperandType::Immediate), None);
    assert_eq!(classify_operand("\u{0664}", OperandType::Immediate), None);
}

#[test]
fn memory_references_name_region_base_and_offset() {
    assert_eq!(
        classify_operand("stack[r1+4]", OperandType::Memory),
        Some(memory(MemoryKind::Stack, 1, 4))
    );
    assert_eq!(
        classify_operand("stack[r3]", OperandType::Memory),
        Some(memory(MemoryKind::Stack, 3, 0))
    );
    assert_eq!(
        classify_operand("stack[12]", OperandType::Memory),
        Some(memory(MemoryKind::Stack, 0, 12))
    );
    assert_eq!(
        classify_operand("code[r15+65536]", OperandType::Memory),
        Some(memory(MemoryKind::Code, 15, 65536))
    );
    assert_eq!(
        classify_operand("code[0]", OperandType::Memory),
        Some(memory(MemoryKind::Code, 0, 0))
    );
}

#[test]
fn malformed_memory_references_are_refused() {
    for token in [
        "stack[]",
        "stack[",
        "stack",
        "stack[r1",
        "stack[r1+]",
        "stack[+4]",
        "stack[4+r1]",
        "stack[r1+4+5]",
        "stack[r1 + 4]",
        "stack[r16]",
        "stack[r1+18446744073709551616]",
        "heap[r1]",
        "code[r1]]",
        "Stack[r1]",
        "r1",
        "4",
        "",
    ] {
        assert_eq!(classify_operand(token, OperandType::Memory), None, "{}", token);
    }
}

#[test]
fn labels_carry_the_namespace_of_their_sigil() {
    assert_eq!(
        classify_operand("@main", OperandType::Label),
        Some(label("main", Namespace::Function))
    );
    assert_eq!(
        classify_operand("%CPI0_1", OperandType::Label),
        Some(label("CPI0_1", Namespace::Constant))
    );
    assert_eq!(
        classify_operand("$counter.low", OperandType::Label),
        Some(label("counter.low", Namespace::Global))
    );
    assert_eq!(classify_operand("@r1", OperandType::Label), Some(label("r1", Namespace::Function)));
    assert_eq!(classify_operand("@", OperandType::Label), None);
    assert_eq!(classify_operand("", OperandType::Label), None);
    assert_eq!(classify_operand("main", OperandType::Label), None);
    assert_eq!(classify_operand("#main", OperandType::Label), None);
    assert_eq!(classify_operand("@ma in", OperandType::Label), None);
    assert_eq!(classify_operand("@ma-in", OperandType::Label), None);
    assert_eq!(classify_operand("@caf\u{e9}", OperandType::Label), None);
}

#[test]
fn full_operand_is_register_immediate_or_memory_but_no_label() {
    assert_eq!(classify_operand("r4", OperandType::Full), Some(register(4)));
    assert_eq!(classify_operand("17", OperandType::Full), Some(FullOperand::Immediate(17)));
    assert_eq!(
        classify_operand("code[r2+1]", OperandType::Full),
        Some(memory(MemoryKind::Code, 2, 1))
    );
    assert_eq!(classify_operand("@main", OperandType::Full), None);
    assert_eq!(classify_operand("%pi", OperandType::Full), None);
    assert_eq!(classify_operand("$g", OperandType::Full), None);
    assert_eq!(classify_operand("r16", OperandType::Full), None);
    assert_eq!(classify_operand("", OperandType::Full), None);
}

#[test]
fn matcher_classifies_every_position() {
    let matched = parse_canonical_operands_sequence(
        &vec!["@f", "r2", "stack[1]", "9"],
        &[OperandType::Label, OperandType::Register],
        &[OperandType::Memory, OperandType::Immediate],
    );
    assert_eq!(
        matched,
        Ok(vec![
            label("f", Namespace::Function),
            register(2),
            memory(MemoryKind::Stack, 0, 1),
            FullOperand::Immediate(9),
        ])
    );
    assert_eq!(parse_canonical_operands_sequence(&vec![], &[], &[]), Ok(vec![]));
}

#[test]
fn matcher_reports_the_first_token_that_does_not_fit() {
    let result = parse_canonical_operands_sequence(
        &vec!["r1", "oops", "also-bad"],
        &[OperandType::Full, OperandType::Register],
        &[OperandType::Full],
    );
    assert_eq!(
        result,
        Err(InstructionReadError::InvalidOperand {
            index: 1,
            token: "oops".to_string(),
            kind: OperandType::Register,
        })
    );
}

#[test]
fn matcher_reports_a_wrong_number_of_tokens() {
    let result = parse_canonical_operands_sequence(
        &vec!["r1", "r2"],
        &[OperandType::Full, OperandType::Register],
        &[OperandType::Full],
    );
    assert_eq!(result, Err(InstructionReadError::InvalidArgumentCount { expected: 3, found: 2 }));
}

#[test]
fn add_reports_a_wrong_number_of_tokens() {
    let none = ModifierSet::new();
    assert_eq!(
        Add::build_from_parts(none, vec!["r1", "r2", "r3", "r4"]),
        Err(InstructionReadError::InvalidArgumentCount { expected: 3, found: 4 })
    );
    let none = ModifierSet::new();
    assert_eq!(
        Add::build_from_parts(none, vec![]),
        Err(InstructionReadError::InvalidArgumentCount { expected: 3, found: 0 })
    );
}

#[test]
fn add_reports_what_the_label_form_missed_when_both_forms_fail() {
    // The second token is no register, so the usual form fails; the form
    // with a label then fails on the first token already.
    let none = ModifierSet::new();
    assert_eq!(
        Add::build_from_parts(none, vec!["r1", "5", "r3"]),
        Err(InstructionReadError::InvalidOperand {
            index: 0,
            token: "r1".to_string(),
            kind: OperandType::Label,
        })
    );
    let none = ModifierSet::new();
    assert_eq!(
        Add::build_from_parts(none, vec!["@f", "r2", "@g"]),
        Err(InstructionReadError::InvalidOperand {
            index: 2,
            token: "@g".to_string(),
            kind: OperandType::Full,
        })
    );
}

#[test]
fn operands_are_judged_before_modifiers() {
    let modifiers = ModifierSet::from_tokens(vec![".unknown"]);
    assert_eq!(
        Add::build_from_parts(modifiers, vec!["r1", "r2"]),
        Err(InstructionReadError::InvalidArgumentCount { expected: 3, found: 2 })
    );
}

#[test]
fn usual_form_wins_where_it_matches() {
    let none = ModifierSet::new();
    let add = Add::build_from_parts(none, vec!["r1", "r2", "r3"]).unwrap();
    assert_eq!(add.source_1, register(1));
}

#[test]
fn constant_and_global_labels_are_accepted_as_first_source() {
    let none = ModifierSet::new();
    let add = Add::build_from_parts(none, vec!["%pi", "r2", "r3"]).unwrap();
    assert_eq!(add.source_1, label("pi", Namespace::Constant));
    let none = ModifierSet::new();
    let add = Add::build_from_parts(none, vec!["$total", "r2", "r3"]).unwrap();
    assert_eq!(add.source_1, label("total", Namespace::Global));
}

#[test]
fn coercion_to_register_refuses_anything_else() {
    assert_eq!(register(5).as_register_operand(1), Ok(RegisterOperand { index: 5 }));
    assert_eq!(
        FullOperand::Immediate(5).as_register_operand(1),
        Err(InstructionReadError::ExpectedRegister { index: 1 })
    );
    assert_eq!(
        memory(MemoryKind::Stack, 1, 0).as_register_operand(4),
        Err(InstructionReadError::ExpectedRegister { index: 4 })
    );
    assert_eq!(
        label("f", Namespace::Function).as_register_operand(0),
        Err(InstructionReadError::ExpectedRegister { index: 0 })
    );
}

#[test]
fn duplicate_copies_an_operand() {
    let given = label("f", Namespace::Global);
    assert_eq!(given.duplicate(), given);
    assert_eq!(register(3).duplicate(), register(3));
}

#[test]
fn decimal_reader_reads_a_range() {
    let chars = chars_of("ab1234cd");
    assert_eq!(chars.len(), 8);
    assert_eq!(read_decimal(&chars, 2, 6), Some(1234));
    assert_eq!(read_decimal(&chars, 2, 3), Some(1));
    assert_eq!(read_decimal(&chars, 2, 2), None);
    assert_eq!(read_decimal(&chars, 1, 6), None);
    assert_eq!(read_decimal(&chars, 2, 7), None);
}

#[test]
fn find_char_returns_the_first_occurrence_in_the_range() {
    let chars = chars_of("a+b+c");
    assert_eq!(find_char(&chars, 0, 5, '+'), Some(1));
    assert_eq!(find_char(&chars, 2, 5, '+'), Some(3));
    assert_eq!(find_char(&chars, 4, 5, '+'), None);
    assert_eq!(find_char(&chars, 0, 1, '+'), None);
    assert_eq!(find_char(&chars, 0, 0, 'a'), None);
}

#[test]
fn names_are_letters_digits_underscores_and_dots() {
    let chars = chars_of("@a_b.C9!");
    assert!(holds_name(&chars, 1, 7));
    assert!(!holds_name(&chars, 0, 7));
    assert!(!holds_name(&chars, 1, 8));
    assert!(!holds_name(&chars, 1, 1));
}

#[test]
fn prefix_test_compares_leading_characters() {
    let chars = chars_of("stack[r1]");
    assert!(has_prefix(&chars, "stack["));
    assert!(has_prefix(&chars, ""));
    assert!(has_prefix(&chars, "stack[r1]"));
    assert!(!has_prefix(&chars, "stack[r1]]"));
    assert!(!has_prefix(&chars, "code["));
}
