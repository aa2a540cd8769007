//! Instruction model, linking and binary lowering for a register-machine
//! assembler.
//!
//! An instruction travels through three stages. Its operand and modifier
//! tokens are classified into a typed record, the symbolic labels of the
//! record are resolved against the symbol tables of the program, and the
//! resolved record is lowered into a fixed-width opcode record.

pub mod add;
pub mod classify;
pub mod condition;
pub mod encoding;
pub mod error;
pub mod laws;
pub mod link;
pub mod matcher;
pub mod modifiers;
pub mod operand;
pub mod symbols;
pub mod text;
