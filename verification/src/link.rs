//! Resolution of one operand against the symbol tables.
//!
//! The tables are complete before the first operand is linked, and
//! linking only reads them, so labels may be used before the place in the
//! program that defines them.

use vstd::prelude::*;
use crate::error::{AssemblyParseError, LinkErrorModel};
use crate::operand::{FullOperand, Namespace, OperandModel};
use crate::symbols::SymbolTable;

verus! {

/// The table in which labels of `namespace` are looked up.
pub open spec fn table_for(
    namespace: Namespace,
    functions: Map<Seq<char>, u64>,
    constants: Map<Seq<char>, u64>,
    globals: Map<Seq<char>, u64>,
) -> Map<Seq<char>, u64> {
    match namespace {
        Namespace::Function => functions,
        Namespace::Constant => constants,
        Namespace::Global => globals,
    }
}

/// The outcome of linking one operand. A label becomes the immediate
/// that its table gives for its name; anything else stays as it is.
pub open spec fn linked_operand(
    operand: OperandModel,
    functions: Map<Seq<char>, u64>,
    constants: Map<Seq<char>, u64>,
    globals: Map<Seq<char>, u64>,
) -> Result<OperandModel, LinkErrorModel> {
    match operand {
        OperandModel::Label(label) => {
            let table = table_for(label.namespace, functions, constants, globals);
            if table.contains_key(label.name) {
                Ok(OperandModel::Immediate(table[label.name]))
            } else {
                Err(
                    LinkErrorModel::LabelNotFound {
                        name: label.name,
                        namespace: label.namespace,
                    },
                )
            }
        },
        _ => Ok(operand),
    }
}

/// Resolves `operand` in place. Where its label has no entry, the operand
/// is left as it was and the label is reported.
pub fn link_operand(
    operand: &mut FullOperand,
    functions: &SymbolTable,
    constants: &SymbolTable,
    globals: &SymbolTable,
) -> (result: Result<(), AssemblyParseError>)
    ensures
        match linked_operand(old(operand)@, functions@, constants@, globals@) {
            Ok(linked) => result is Ok && final(operand)@ == linked,
            Err(e) => result is Err && result->Err_0@ == e && final(operand)@ == old(operand)@,
        },
{
    let resolved: Result<u64, AssemblyParseError> = match operand {
        FullOperand::Label(label) => {
            let table = match label.namespace {
                Namespace::Function => functions,
                Namespace::Constant => constants,
                Namespace::Global => globals,
            };
            match table.get(label.name.as_str()) {
                Some(offset) => Ok(offset),
                None => Err(
                    AssemblyParseError::LabelNotFound {
                        name: label.name.clone(),
                        namespace: label.namespace,
                    },
                ),
            }
        },
        _ => {
            return Ok(());
        },
    };
    match resolved {
        Ok(offset) => {
            *operand = FullOperand::Immediate(offset);
            Ok(())
        },
        Err(e) => Err(e),
    }
}

} // verus!
