//! The textual forms of operands, and the classification of one operand
//! token against the kind that its position expects.
//!
//! | kind      | form                                   | examples              |
//! |-----------|----------------------------------------|-----------------------|
//! | register  | `r` and a decimal index below sixteen  | `r0`, `r7`, `r15`     |
//! | immediate | a decimal number that fits in 64 bits  | `0`, `42`             |
//! | memory    | region, `[`, address, `]`              | `stack[r1+4]`         |
//! | label     | namespace sigil and a name             | `@loop`, `%pi`, `$g`  |
//!
//! The regions are `stack` and `code`. An address is a register, a
//! number, or a register and a number joined by `+`; a missing register is
//! `r0` and a missing number is zero. The sigils are `@` for a function,
//! `%` for an entry of the constant pool and `$` for a global variable. A
//! name is a non-empty run of ASCII letters, digits, underscores and dots.
//! No form contains blanks. A full operand is a register, an immediate or
//! a memory reference; a label is never one.

use vstd::prelude::*;
use vstd::string::*;
use crate::operand::{
    FullOperand,
    LabelModel,
    LabelOperand,
    MemoryKind,
    MemoryOperand,
    Namespace,
    OperandModel,
    OperandType,
    RegisterOperand,
    REGISTER_COUNT,
};
use crate::text::{
    chars_of,
    find_char,
    has_prefix,
    holds_name,
    is_name,
    parse_decimal,
    position_of,
    read_decimal,
};

verus! {

/// The register that `t` names.
pub open spec fn register_of(t: Seq<char>) -> Option<RegisterOperand> {
    if t.len() > 0 && t[0] == 'r' {
        match parse_decimal(t.skip(1)) {
            Some(index) => if index < REGISTER_COUNT {
                Some(RegisterOperand { index: index as u8 })
            } else {
                None
            },
            None => None,
        }
    } else {
        None
    }
}

/// The base register and the offset that the address `t` is made of.
pub open spec fn address_of(t: Seq<char>) -> Option<(RegisterOperand, u64)> {
    match position_of(t, '+') {
        Some(p) => match (register_of(t.take(p)), parse_decimal(t.skip(p + 1))) {
            (Some(base), Some(offset)) => Some((base, offset)),
            _ => None,
        },
        None => match register_of(t) {
            Some(base) => Some((base, 0u64)),
            None => match parse_decimal(t) {
                Some(offset) => Some((RegisterOperand { index: 0 }, offset)),
                None => None,
            },
        },
    }
}

/// The characters that open a reference into the region `kind`.
pub open spec fn memory_prefix(kind: MemoryKind) -> Seq<char> {
    match kind {
        MemoryKind::Stack => "stack["@,
        MemoryKind::Code => "code["@,
    }
}

/// The reference into the region `kind` that `t` writes.
pub open spec fn memory_in(kind: MemoryKind, t: Seq<char>) -> Option<MemoryOperand> {
    let prefix = memory_prefix(kind);
    if prefix.is_prefix_of(t) && prefix.len() < t.len() && t.last() == ']' {
        match address_of(t.subrange(prefix.len() as int, t.len() - 1)) {
            Some((base, offset)) => Some(MemoryOperand { kind, base, offset }),
            None => None,
        }
    } else {
        None
    }
}

/// The memory reference that `t` writes.
pub open spec fn memory_of(t: Seq<char>) -> Option<MemoryOperand> {
    match memory_in(MemoryKind::Stack, t) {
        Some(m) => Some(m),
        None => memory_in(MemoryKind::Code, t),
    }
}

/// The namespace that a sigil selects.
pub open spec fn namespace_of(sigil: char) -> Option<Namespace> {
    if sigil == '@' {
        Some(Namespace::Function)
    } else if sigil == '%' {
        Some(Namespace::Constant)
    } else if sigil == '$' {
        Some(Namespace::Global)
    } else {
        None
    }
}

/// The label that `t` writes.
pub open spec fn label_of(t: Seq<char>) -> Option<LabelModel> {
    if t.len() > 0 && is_name(t.skip(1)) {
        match namespace_of(t[0]) {
            Some(namespace) => Some(LabelModel { name: t.skip(1), namespace }),
            None => None,
        }
    } else {
        None
    }
}

/// The full operand that `t` writes: a register, else an immediate, else
/// a memory reference.
pub open spec fn full_of(t: Seq<char>) -> Option<OperandModel> {
    match register_of(t) {
        Some(r) => Some(OperandModel::Register(r)),
        None => match parse_decimal(t) {
            Some(v) => Some(OperandModel::Immediate(v)),
            None => match memory_of(t) {
                Some(m) => Some(OperandModel::Memory(m)),
                None => None,
            },
        },
    }
}

/// The operand that the token `t` denotes where an operand of kind
/// `expected` is wanted, or `None` where `t` is not of that kind.
pub open spec fn classify(expected: OperandType, t: Seq<char>) -> Option<OperandModel> {
    match expected {
        OperandType::Register => match register_of(t) {
            Some(r) => Some(OperandModel::Register(r)),
            None => None,
        },
        OperandType::Immediate => match parse_decimal(t) {
            Some(v) => Some(OperandModel::Immediate(v)),
            None => None,
        },
        OperandType::Memory => match memory_of(t) {
            Some(m) => Some(OperandModel::Memory(m)),
            None => None,
        },
        OperandType::Full => full_of(t),
        OperandType::Label => match label_of(t) {
            Some(l) => Some(OperandModel::Label(l)),
            None => None,
        },
    }
}

/// Reads the register named by `chars[from..to]`.
fn read_register(chars: &Vec<char>, from: usize, to: usize) -> (register: Option<RegisterOperand>)
    requires
        from <= to <= chars@.len(),
    ensures
        register == register_of(chars@.subrange(from as int, to as int)),
{
    if from == to || chars[from] != 'r' {
        return None;
    }
    assert(chars@.subrange(from as int, to as int).skip(1) =~= chars@.subrange(
        from + 1,
        to as int,
    ));
    match read_decimal(chars, from + 1, to) {
        Some(index) => if index < REGISTER_COUNT as u64 {
            Some(RegisterOperand { index: index as u8 })
        } else {
            None
        },
        None => None,
    }
}

/// Reads the address written in `chars[from..to]`.
fn read_address(chars: &Vec<char>, from: usize, to: usize) -> (address: Option<
    (RegisterOperand, u64),
>)
    requires
        from <= to <= chars@.len(),
    ensures
        address == address_of(chars@.subrange(from as int, to as int)),
{
    let ghost t = chars@.subrange(from as int, to as int);
    match find_char(chars, from, to, '+') {
        Some(plus) => {
            proof {
                crate::text::lemma_position_of(t, '+');
                assert(t.take(plus - from) =~= chars@.subrange(from as int, plus as int));
                assert(t.skip(plus - from + 1) =~= chars@.subrange(plus + 1, to as int));
            }
            match read_register(chars, from, plus) {
                Some(base) => match read_decimal(chars, plus + 1, to) {
                    Some(offset) => Some((base, offset)),
                    None => None,
                },
                None => None,
            }
        },
        None => match read_register(chars, from, to) {
            Some(base) => Some((base, 0)),
            None => match read_decimal(chars, from, to) {
                Some(offset) => Some((RegisterOperand { index: 0 }, offset)),
                None => None,
            },
        },
    }
}

/// The characters that open a reference into the region `kind`.
fn opening(kind: MemoryKind) -> (prefix: &'static str)
    ensures
        prefix@ == memory_prefix(kind),
{
    match kind {
        MemoryKind::Stack => "stack[",
        MemoryKind::Code => "code[",
    }
}

/// Reads `chars` as a reference into the region `kind`.
fn read_memory_in(kind: MemoryKind, chars: &Vec<char>) -> (memory: Option<MemoryOperand>)
    ensures
        memory == memory_in(kind, chars@),
{
    let prefix = opening(kind);
    let start: usize = prefix.unicode_len();
    let end: usize = chars.len();
    if !has_prefix(chars, prefix) || start >= end || chars[end - 1] != ']' {
        return None;
    }
    match read_address(chars, start, end - 1) {
        Some((base, offset)) => Some(MemoryOperand { kind, base, offset }),
        None => None,
    }
}

/// Reads `chars` as a memory reference.
fn read_memory(chars: &Vec<char>) -> (memory: Option<MemoryOperand>)
    ensures
        memory == memory_of(chars@),
{
    match read_memory_in(MemoryKind::Stack, chars) {
        Some(m) => Some(m),
        None => read_memory_in(MemoryKind::Code, chars),
    }
}

/// Reads the namespace that a sigil selects.
fn read_namespace(sigil: char) -> (namespace: Option<Namespace>)
    ensures
        namespace == namespace_of(sigil),
{
    if sigil == '@' {
        Some(Namespace::Function)
    } else if sigil == '%' {
        Some(Namespace::Constant)
    } else if sigil == '$' {
        Some(Namespace::Global)
    } else {
        None
    }
}

/// Reads `token`, whose characters are `chars`, as a label.
fn read_label(token: &str, chars: &Vec<char>) -> (label: Option<LabelOperand>)
    requires
        chars@ == token@,
    ensures
        match label {
            Some(l) => label_of(token@) == Some(l@),
            None => label_of(token@) is None,
        },
{
    let end: usize = chars.len();
    if end == 0 || !holds_name(chars, 1, end) {
        return None;
    }
    match read_namespace(chars[0]) {
        Some(namespace) => {
            let name = token.substring_char(1, end).to_owned();
            Some(LabelOperand { name, namespace })
        },
        None => None,
    }
}

/// Reads `chars` as a full operand.
fn read_full(chars: &Vec<char>) -> (operand: Option<FullOperand>)
    ensures
        match operand {
            Some(o) => full_of(chars@) == Some(o@),
            None => full_of(chars@) is None,
        },
{
    let end: usize = chars.len();
    assert(chars@.subrange(0, end as int) =~= chars@);
    match read_register(chars, 0, end) {
        Some(r) => Some(FullOperand::Register(r)),
        None => match read_decimal(chars, 0, end) {
            Some(v) => Some(FullOperand::Immediate(v)),
            None => match read_memory(chars) {
                Some(m) => Some(FullOperand::Memory(m)),
                None => None,
            },
        },
    }
}

/// Classifies one operand token against the kind that its position
/// expects.
pub fn classify_operand(token: &str, expected: OperandType) -> (operand: Option<FullOperand>)
    ensures
        match operand {
            Some(o) => classify(expected, token@) == Some(o@),
            None => classify(expected, token@) is None,
        },
{
    let chars = chars_of(token);
    let end: usize = chars.len();
    assert(chars@.subrange(0, end as int) =~= chars@);
    match expected {
        OperandType::Register => match read_register(&chars, 0, end) {
            Some(r) => Some(FullOperand::Register(r)),
            None => None,
        },
        OperandType::Immediate => match read_decimal(&chars, 0, end) {
            Some(v) => Some(FullOperand::Immediate(v)),
            None => None,
        },
        OperandType::Memory => match read_memory(&chars) {
            Some(m) => Some(FullOperand::Memory(m)),
            None => None,
        },
        OperandType::Full => read_full(&chars),
        OperandType::Label => match read_label(token, &chars) {
            Some(l) => Some(FullOperand::Label(l)),
            None => None,
        },
    }
}

} // verus!
