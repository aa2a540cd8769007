//! The execution condition and the flag-setting option of an instruction,
//! and the modifier tokens that select them.

use vstd::prelude::*;

verus! {

/// The predicate over the status flags under which an instruction runs.
#[derive(Debug, Clone, Copy, PartialEq, Eq, Structural)]
pub enum Condition {
    Always,
    Gt,
    Lt,
    Eq,
    Ge,
    Le,
    Ne,
    GtOrLt,
}

/// The execution condition of an instruction as it was read from its
/// modifiers. It never changes once the instruction is built.
#[derive(Debug, Clone, Copy, PartialEq, Eq, Structural)]
pub struct ConditionCase(pub Condition);

/// Whether an instruction updates the status flags.
#[derive(Debug, Clone, Copy, PartialEq, Eq, Structural)]
pub struct SetFlags(pub bool);

/// Number of conditions.
pub const CONDITION_COUNT: usize = 8;

/// The conditions in the order in which their modifiers are looked for.
pub open spec fn all_conditions() -> Seq<Condition> {
    seq![
        Condition::Always,
        Condition::Gt,
        Condition::Lt,
        Condition::Eq,
        Condition::Ge,
        Condition::Le,
        Condition::Ne,
        Condition::GtOrLt,
    ]
}

/// The modifier token that selects the condition `c`.
pub open spec fn condition_token(c: Condition) -> Seq<char> {
    match c {
        Condition::Always => ".cond.always"@,
        Condition::Gt => ".cond.gt"@,
        Condition::Lt => ".cond.lt"@,
        Condition::Eq => ".cond.eq"@,
        Condition::Ge => ".cond.ge"@,
        Condition::Le => ".cond.le"@,
        Condition::Ne => ".cond.ne"@,
        Condition::GtOrLt => ".cond.gtlt"@,
    }
}

/// The modifier token that asks for the status flags to be updated.
pub open spec fn flags_token() -> Seq<char> {
    ".set_flags"@
}

/// Whether `t` is the modifier token of some condition.
pub open spec fn is_condition_token(t: Seq<char>) -> bool {
    exists|c: Condition| t == #[trigger] condition_token(c)
}

/// Whether `t` is a modifier token that the library knows.
pub open spec fn is_known_modifier(t: Seq<char>) -> bool {
    is_condition_token(t) || t == flags_token()
}

/// The modifier tokens among `tokens` that the library does not know, in
/// their order.
pub open spec fn unknown_modifiers(tokens: Seq<Seq<char>>) -> Seq<Seq<char>> {
    tokens.filter(|t: Seq<char>| !is_known_modifier(t))
}

impl Default for ConditionCase {
    /// The condition of an instruction that names none: it always runs.
    fn default() -> (case: ConditionCase)
        ensures
            case == ConditionCase(Condition::Always),
    {
        ConditionCase(Condition::Always)
    }
}

impl Default for SetFlags {
    /// The option of an instruction that does not ask for flags: they are
    /// left alone.
    fn default() -> (option: SetFlags)
        ensures
            option == SetFlags(false),
    {
        SetFlags(false)
    }
}

/// The conditions in the order in which their modifiers are looked for.
pub fn conditions() -> (list: [Condition; CONDITION_COUNT])
    ensures
        list@ == all_conditions(),
{
    let list = [
        Condition::Always,
        Condition::Gt,
        Condition::Lt,
        Condition::Eq,
        Condition::Ge,
        Condition::Le,
        Condition::Ne,
        Condition::GtOrLt,
    ];
    assert(list@ =~= all_conditions());
    list
}

/// The modifier token that selects the condition `c`.
pub fn condition_text(c: Condition) -> (text: &'static str)
    ensures
        text@ == condition_token(c),
{
    match c {
        Condition::Always => ".cond.always",
        Condition::Gt => ".cond.gt",
        Condition::Lt => ".cond.lt",
        Condition::Eq => ".cond.eq",
        Condition::Ge => ".cond.ge",
        Condition::Le => ".cond.le",
        Condition::Ne => ".cond.ne",
        Condition::GtOrLt => ".cond.gtlt",
    }
}

/// The modifier token that asks for the status flags to be updated.
pub fn flags_text() -> (text: &'static str)
    ensures
        text@ == flags_token(),
{
    ".set_flags"
}

} // verus!
