//! What holds of the stages taken together.

use vstd::prelude::*;
use crate::add::{
    after_link,
    built_add,
    encoded_add,
    label_template,
    link_error,
    matched_add_operands,
    primary_template,
    AddModel,
};
use crate::classify::{classify, label_of};
use crate::condition::{
    all_conditions,
    condition_token,
    flags_token,
    is_condition_token,
    is_known_modifier,
    unknown_modifiers,
    Condition,
};
use crate::encoding::{
    addressing_of,
    immediate_of,
    register_index_of,
    AddOpcode,
    Addressing,
    Opcode,
    VmEncodingMode,
};
use crate::error::{LinkErrorModel, ReadErrorModel};
use crate::link::table_for;
use crate::matcher::{lemma_match_ok, match_template};
use crate::modifiers::{chosen_condition, distinct, first_listed, leftover, without};
use crate::operand::{OperandModel, OperandType, REGISTER_COUNT};

verus! {

/// A register that a token names is one that the machine has, and so is
/// the base register of a memory reference that a token writes.
pub proof fn lemma_classified_registers_exist(expected: OperandType, t: Seq<char>)
    requires
        classify(expected, t) is Some,
    ensures
        match classify(expected, t)->Some_0 {
            OperandModel::Register(r) => r.index < REGISTER_COUNT,
            OperandModel::Memory(m) => m.base.index < REGISTER_COUNT,
            _ => true,
        },
        expected == OperandType::Register ==> classify(expected, t)->Some_0 is Register,
        expected == OperandType::Label ==> classify(expected, t)->Some_0 is Label,
        expected == OperandType::Full ==> !(classify(expected, t)->Some_0 is Label),
{
}

/// A label is no full operand.
pub proof fn lemma_label_is_no_full_operand(t: Seq<char>)
    requires
        label_of(t) is Some,
    ensures
        classify(OperandType::Full, t) is None,
{
    reveal_strlit("stack[");
    reveal_strlit("code[");
    if "stack["@.is_prefix_of(t) {
        assert(t[0] == "stack["@[0]);
    }
    if "code["@.is_prefix_of(t) {
        assert(t[0] == "code["@[0]);
    }
}

/// The whole pipeline on the usual form of the instruction. Where the
/// three tokens are a full operand, a register and a full operand, the
/// modifiers hold nothing but at most one condition and the flag-setting
/// modifier, and the immediates of the two full operands fit the layout,
/// then building succeeds, linking succeeds against any tables and
/// changes nothing, and lowering succeeds. The record carries the first
/// source in its first source slot, the register in its register slot,
/// the destination in its destination slot, the condition that the
/// modifiers select and the flag bit that they ask for.
pub proof fn lemma_pipeline_succeeds<const N: usize, E: VmEncodingMode<N>>(
    modifiers: Seq<Seq<char>>,
    tokens: Seq<Seq<char>>,
    functions: Map<Seq<char>, u64>,
    constants: Map<Seq<char>, u64>,
    globals: Map<Seq<char>, u64>,
)
    requires
        match_template(tokens, primary_template()) is Ok,
        leftover(modifiers).len() == 0,
        immediate_of(classify(OperandType::Full, tokens[0])->Some_0.generic()->Some_0)
            <= E::immediate_limit(),
        immediate_of(classify(OperandType::Full, tokens[2])->Some_0.generic()->Some_0)
            <= E::immediate_limit(),
    ensures
        tokens.len() == 3,
        built_add(modifiers, tokens) is Ok,
        ({
            let add = built_add(modifiers, tokens)->Ok_0;
            let source_1 = classify(OperandType::Full, tokens[0])->Some_0;
            let source_2 = classify(OperandType::Register, tokens[1])->Some_0;
            let destination = classify(OperandType::Full, tokens[2])->Some_0;
            let record = encoded_add::<N, E>(add)->Ok_0;
            &&& add.source_1 == source_1
            &&& OperandModel::Register(add.source_2) == source_2
            &&& add.destination == destination
            &&& link_error(add, functions, constants, globals) is None
            &&& after_link(add, functions, constants, globals) == add
            &&& encoded_add::<N, E>(add) is Ok
            &&& record.variant.opcode == Opcode::Add(AddOpcode::Add)
            &&& source_1.generic() is Some
            &&& record.variant.src0_operand_type == addressing_of(source_1.generic()->Some_0)
            &&& record.src0_reg_idx == register_index_of(source_1.generic()->Some_0)
            &&& record.imm_0 == immediate_of(source_1.generic()->Some_0)
            &&& record.src1_reg_idx == add.source_2.index
            &&& destination.generic() is Some
            &&& record.variant.dst0_operand_type == addressing_of(destination.generic()->Some_0)
            &&& record.dst0_reg_idx == register_index_of(destination.generic()->Some_0)
            &&& record.imm_1 == immediate_of(destination.generic()->Some_0)
            &&& record.condition == (match chosen_condition(modifiers) {
                Some(c) => c,
                None => Condition::Always,
            })
            &&& record.variant.flags[0] == modifiers.contains(flags_token())
        }),
{
    let template = primary_template();
    let operands = match_template(tokens, template)->Ok_0;
    lemma_match_ok(tokens, template, operands);
    assert(template[0] == OperandType::Full);
    assert(template[1] == OperandType::Register);
    assert(template[2] == OperandType::Full);
    assert(classify(template[0], tokens[0]) == Some(operands[0]));
    assert(classify(template[1], tokens[1]) == Some(operands[1]));
    assert(classify(template[2], tokens[2]) == Some(operands[2]));
    lemma_classified_registers_exist(OperandType::Full, tokens[0]);
    lemma_classified_registers_exist(OperandType::Register, tokens[1]);
    lemma_classified_registers_exist(OperandType::Full, tokens[2]);
}

/// The form with a label. Where the first token is a label, the usual
/// form does not match; and whenever an instruction is built from such
/// tokens, its first source is that label, unresolved.
pub proof fn lemma_label_fallback(modifiers: Seq<Seq<char>>, tokens: Seq<Seq<char>>)
    requires
        tokens.len() > 0,
        label_of(tokens[0]) is Some,
    ensures
        match_template(tokens, primary_template()) is Err,
        matched_add_operands(tokens) == match_template(tokens, label_template()),
        match_template(tokens, label_template()) is Ok && leftover(modifiers).len() == 0
            ==> built_add(modifiers, tokens) is Ok,
        built_add(modifiers, tokens) is Ok ==> built_add(modifiers, tokens)->Ok_0.source_1
            == OperandModel::Label(label_of(tokens[0])->Some_0),
{
    let primary = primary_template();
    lemma_label_is_no_full_operand(tokens[0]);
    assert(primary[0] == OperandType::Full);
    if match_template(tokens, primary) is Ok {
        lemma_match_ok(tokens, primary, match_template(tokens, primary)->Ok_0);
        assert(classify(primary[0], tokens[0]) is Some);
    }
    let alternate = label_template();
    if match_template(tokens, alternate) is Ok {
        let operands = match_template(tokens, alternate)->Ok_0;
        lemma_match_ok(tokens, alternate, operands);
        assert(alternate[0] == OperandType::Label);
        assert(alternate[1] == OperandType::Register);
        assert(classify(alternate[0], tokens[0]) == Some(operands[0]));
        assert(classify(alternate[1], tokens[1]) == Some(operands[1]));
        lemma_classified_registers_exist(OperandType::Register, tokens[1]);
    }
}

/// The whole pipeline on the form with a label. Where the first token
/// is a label that its table holds, the other two tokens are a register
/// and a full operand, the modifiers hold nothing but at most one
/// condition and the flag-setting modifier, and the offset of the label
/// and the immediate of the destination fit the layout, then building,
/// linking and lowering succeed. Linking turns the first source into the
/// offset of the label, and the record carries that offset as the
/// immediate of its first source slot.
pub proof fn lemma_pipeline_resolves_label<const N: usize, E: VmEncodingMode<N>>(
    modifiers: Seq<Seq<char>>,
    tokens: Seq<Seq<char>>,
    functions: Map<Seq<char>, u64>,
    constants: Map<Seq<char>, u64>,
    globals: Map<Seq<char>, u64>,
)
    requires
        tokens.len() > 0,
        label_of(tokens[0]) is Some,
        match_template(tokens, label_template()) is Ok,
        leftover(modifiers).len() == 0,
        ({
            let label = label_of(tokens[0])->Some_0;
            let table = table_for(label.namespace, functions, constants, globals);
            table.contains_key(label.name) && table[label.name] <= E::immediate_limit()
        }),
        immediate_of(classify(OperandType::Full, tokens[2])->Some_0.generic()->Some_0)
            <= E::immediate_limit(),
    ensures
        tokens.len() == 3,
        built_add(modifiers, tokens) is Ok,
        ({
            let add = built_add(modifiers, tokens)->Ok_0;
            let label = label_of(tokens[0])->Some_0;
            let offset = table_for(label.namespace, functions, constants, globals)[label.name];
            let linked = after_link(add, functions, constants, globals);
            let destination = classify(OperandType::Full, tokens[2])->Some_0;
            let record = encoded_add::<N, E>(linked)->Ok_0;
            &&& add.source_1 == OperandModel::Label(label)
            &&& link_error(add, functions, constants, globals) is None
            &&& linked.source_1 == OperandModel::Immediate(offset)
            &&& linked.source_2 == add.source_2
            &&& linked.destination == destination
            &&& linked.condition == add.condition
            &&& linked.set_flags_option == add.set_flags_option
            &&& encoded_add::<N, E>(linked) is Ok
            &&& record.variant.src0_operand_type == Addressing::ImmediateOnly
            &&& record.src0_reg_idx == 0
            &&& record.imm_0 == offset
            &&& record.src1_reg_idx == add.source_2.index
            &&& destination.generic() is Some
            &&& record.variant.dst0_operand_type == addressing_of(destination.generic()->Some_0)
            &&& record.dst0_reg_idx == register_index_of(destination.generic()->Some_0)
            &&& record.imm_1 == immediate_of(destination.generic()->Some_0)
            &&& record.condition == add.condition.0
            &&& record.variant.flags[0] == add.set_flags_option.0
        }),
{
    lemma_label_fallback(modifiers, tokens);
    let template = label_template();
    let operands = match_template(tokens, template)->Ok_0;
    lemma_match_ok(tokens, template, operands);
    assert(template[0] == OperandType::Label);
    assert(template[1] == OperandType::Register);
    assert(template[2] == OperandType::Full);
    assert(classify(template[0], tokens[0]) == Some(operands[0]));
    assert(classify(template[1], tokens[1]) == Some(operands[1]));
    assert(classify(template[2], tokens[2]) == Some(operands[2]));
    lemma_classified_registers_exist(OperandType::Register, tokens[1]);
    lemma_classified_registers_exist(OperandType::Full, tokens[2]);
}

/// Every condition is one of those that extraction looks for.
pub proof fn lemma_all_conditions_listed(c: Condition)
    ensures
        all_conditions().contains(c),
{
    let list = all_conditions();
    match c {
        Condition::Always => assert(list[0] == c),
        Condition::Gt => assert(list[1] == c),
        Condition::Lt => assert(list[2] == c),
        Condition::Eq => assert(list[3] == c),
        Condition::Ge => assert(list[4] == c),
        Condition::Le => assert(list[5] == c),
        Condition::Ne => assert(list[6] == c),
        Condition::GtOrLt => assert(list[7] == c),
    }
}

/// The condition that `first_listed` finds has its modifier among the
/// tokens, and it finds none only where no candidate has.
pub proof fn lemma_first_listed(tokens: Seq<Seq<char>>, candidates: Seq<Condition>)
    ensures
        match first_listed(tokens, candidates) {
            Some(c) => candidates.contains(c) && tokens.contains(condition_token(c)),
            None => forall|c: Condition|
                candidates.contains(c) ==> !tokens.contains(#[trigger] condition_token(c)),
        },
    decreases candidates.len(),
{
    if candidates.len() > 0 {
        let rest = candidates.skip(1);
        lemma_first_listed(tokens, rest);
        if tokens.contains(condition_token(candidates[0])) {
            assert(candidates[0] == candidates[0]);
        } else {
            match first_listed(tokens, rest) {
                Some(c) => {
                    let i = choose|i: int| 0 <= i < rest.len() && rest[i] == c;
                    assert(candidates[i + 1] == c);
                },
                None => {
                    assert forall|c: Condition| candidates.contains(c) implies !tokens.contains(
                        #[trigger] condition_token(c),
                    ) by {
                        let i = choose|i: int| 0 <= i < candidates.len() && candidates[i] == c;
                        if i > 0 {
                            assert(rest[i - 1] == c);
                        }
                    }
                },
            }
        }
    }
}

/// Where `a` and `b` are the only known modifiers among `tokens`, taking
/// both out leaves the unknown ones.
proof fn lemma_without_two(tokens: Seq<Seq<char>>, a: Seq<char>, b: Seq<char>)
    requires
        forall|i: int|
            0 <= i < tokens.len() ==> (is_known_modifier(#[trigger] tokens[i]) <==> tokens[i] == a
                || tokens[i] == b),
    ensures
        without(without(tokens, a), b) == unknown_modifiers(tokens),
    decreases tokens.len(),
{
    reveal_with_fuel(Seq::filter, 2);
    if tokens.len() > 0 {
        let front = tokens.drop_last();
        let last = tokens.last();
        assert forall|i: int| 0 <= i < front.len() implies (is_known_modifier(#[trigger] front[i])
            <==> front[i] == a || front[i] == b) by {
            assert(front[i] == tokens[i]);
        }
        lemma_without_two(front, a, b);
        assert(last == tokens[tokens.len() - 1]);
        if last != a {
            let kept = without(front, a);
            assert(without(tokens, a) == kept.push(last));
            assert(kept.push(last).drop_last() =~= kept);
            assert(kept.push(last).last() == last);
        }
    }
}

/// Where `b` is the only known modifier among `tokens`, taking it out
/// leaves the unknown ones.
proof fn lemma_without_one(tokens: Seq<Seq<char>>, b: Seq<char>)
    requires
        forall|i: int|
            0 <= i < tokens.len() ==> (is_known_modifier(#[trigger] tokens[i]) <==> tokens[i]
                == b),
    ensures
        without(tokens, b) == unknown_modifiers(tokens),
    decreases tokens.len(),
{
    reveal_with_fuel(Seq::filter, 2);
    if tokens.len() > 0 {
        let front = tokens.drop_last();
        assert forall|i: int| 0 <= i < front.len() implies (is_known_modifier(#[trigger] front[i])
            <==> front[i] == b) by {
            assert(front[i] == tokens[i]);
        }
        lemma_without_one(front, b);
        assert(tokens.last() == tokens[tokens.len() - 1]);
    }
}

/// Where the modifiers hold the tokens of at most one condition, what
/// extraction leaves of them is exactly the tokens that the library does
/// not know, in their order.
pub proof fn lemma_leftover_is_unknown(modifiers: Seq<Seq<char>>)
    requires
        forall|i: int, j: int|
            0 <= i < modifiers.len() && 0 <= j < modifiers.len() && is_condition_token(
                modifiers[i],
            ) && is_condition_token(modifiers[j]) ==> modifiers[i] == modifiers[j],
    ensures
        leftover(modifiers) == unknown_modifiers(modifiers),
{
    lemma_first_listed(modifiers, all_conditions());
    match chosen_condition(modifiers) {
        Some(c) => {
            let a = condition_token(c);
            let at = choose|k: int| 0 <= k < modifiers.len() && modifiers[k] == a;
            assert forall|i: int| 0 <= i < modifiers.len() implies (is_known_modifier(
                #[trigger] modifiers[i],
            ) <==> modifiers[i] == a || modifiers[i] == flags_token()) by {
                if is_condition_token(modifiers[i]) {
                    assert(is_condition_token(modifiers[at]));
                }
            }
            lemma_without_two(modifiers, a, flags_token());
        },
        None => {
            assert forall|i: int| 0 <= i < modifiers.len() implies (is_known_modifier(
                #[trigger] modifiers[i],
            ) <==> modifiers[i] == flags_token()) by {
                if is_condition_token(modifiers[i]) {
                    let c = choose|c: Condition| modifiers[i] == condition_token(c);
                    lemma_all_conditions_listed(c);
                    assert(modifiers.contains(condition_token(c)));
                }
            }
            lemma_without_one(modifiers, flags_token());
        },
    }
}

/// A token is among the unknown modifiers of `tokens` where it is among
/// `tokens` and is not known, and nowhere else.
pub proof fn lemma_unknown_contains(tokens: Seq<Seq<char>>, t: Seq<char>)
    ensures
        unknown_modifiers(tokens).contains(t) <==> tokens.contains(t) && !is_known_modifier(t),
    decreases tokens.len(),
{
    reveal_with_fuel(Seq::filter, 2);
    if tokens.len() > 0 {
        let front = tokens.drop_last();
        let last = tokens.last();
        lemma_unknown_contains(front, t);
        let kept = unknown_modifiers(front);
        assert(tokens[tokens.len() - 1] == last);
        if tokens.contains(t) {
            let i = choose|i: int| 0 <= i < tokens.len() && tokens[i] == t;
            if i < front.len() {
                assert(front[i] == t);
            }
        }
        if front.contains(t) {
            let i = choose|i: int| 0 <= i < front.len() && front[i] == t;
            assert(tokens[i] == t);
        }
        if !is_known_modifier(last) {
            assert(unknown_modifiers(tokens) == kept.push(last));
            if kept.contains(t) {
                let i = choose|i: int| 0 <= i < kept.len() && kept[i] == t;
                assert(kept.push(last)[i] == t);
            }
            assert(kept.push(last)[kept.len() as int] == last);
        } else {
            assert(unknown_modifiers(tokens) == kept);
        }
    }
}

/// Unknown modifiers fail construction. Where the operand tokens denote
/// operands, the modifiers hold the tokens of at most one condition, and
/// some modifier is not known to the library, building fails and
/// reports exactly the unknown modifiers, in their order.
pub proof fn lemma_unknown_modifiers_rejected(modifiers: Seq<Seq<char>>, tokens: Seq<Seq<char>>)
    requires
        matched_add_operands(tokens) is Ok,
        forall|i: int, j: int|
            0 <= i < modifiers.len() && 0 <= j < modifiers.len() && is_condition_token(
                modifiers[i],
            ) && is_condition_token(modifiers[j]) ==> modifiers[i] == modifiers[j],
        exists|i: int| 0 <= i < modifiers.len() && !is_known_modifier(modifiers[i]),
    ensures
        built_add(modifiers, tokens) == Err::<AddModel, ReadErrorModel>(
            ReadErrorModel::UnknownModifiers(unknown_modifiers(modifiers)),
        ),
        forall|t: Seq<char>|
            unknown_modifiers(modifiers).contains(t) <==> modifiers.contains(t)
                && !is_known_modifier(t),
{
    lemma_leftover_is_unknown(modifiers);
    let unknown = unknown_modifiers(modifiers);
    assert forall|t: Seq<char>| unknown.contains(t) <==> modifiers.contains(t)
        && !is_known_modifier(t) by {
        lemma_unknown_contains(modifiers, t);
    }
    let i = choose|i: int| 0 <= i < modifiers.len() && !is_known_modifier(modifiers[i]);
    assert(modifiers.contains(modifiers[i]));
    assert(unknown.contains(modifiers[i]));
    assert(unknown.len() > 0);
    // The operands are in order, so the modifiers decide.
    let operands = matched_add_operands(tokens)->Ok_0;
    if match_template(tokens, primary_template()) is Ok {
        lemma_match_ok(tokens, primary_template(), operands);
        assert(primary_template()[1] == OperandType::Register);
        assert(classify(primary_template()[1], tokens[1]) == Some(operands[1]));
    } else {
        lemma_match_ok(tokens, label_template(), operands);
        assert(label_template()[1] == OperandType::Register);
        assert(classify(label_template()[1], tokens[1]) == Some(operands[1]));
    }
    lemma_classified_registers_exist(OperandType::Register, tokens[1]);
}

/// A label without an entry stops linking. Where the first source is a
/// label that its table does not hold, linking fails, names that label
/// and leaves the instruction as it was. Where the first source can be
/// linked and the destination is a label that its table does not hold,
/// linking fails and names the label of the destination. Either way the
/// instruction still holds a label and cannot be lowered.
pub proof fn lemma_missing_label_stops_link<const N: usize, E: VmEncodingMode<N>>(
    add: AddModel,
    functions: Map<Seq<char>, u64>,
    constants: Map<Seq<char>, u64>,
    globals: Map<Seq<char>, u64>,
)
    ensures
        match add.source_1 {
            OperandModel::Label(l) if !table_for(
                l.namespace,
                functions,
                constants,
                globals,
            ).contains_key(l.name) => {
                &&& link_error(add, functions, constants, globals) == Some(
                    LinkErrorModel::LabelNotFound { name: l.name, namespace: l.namespace },
                )
                &&& after_link(add, functions, constants, globals) == add
            },
            _ => match add.destination {
                OperandModel::Label(l) if !table_for(
                    l.namespace,
                    functions,
                    constants,
                    globals,
                ).contains_key(l.name) => {
                    &&& link_error(add, functions, constants, globals) == Some(
                        LinkErrorModel::LabelNotFound { name: l.name, namespace: l.namespace },
                    )
                    &&& after_link(add, functions, constants, globals).destination
                        == add.destination
                },
                _ => link_error(add, functions, constants, globals) is None,
            },
        },
        link_error(add, functions, constants, globals) is Some ==> encoded_add::<N, E>(
            after_link(add, functions, constants, globals),
        ) is Err,
        link_error(add, functions, constants, globals) is None ==> {
            let linked = after_link(add, functions, constants, globals);
            !linked.source_1.is_label() && !linked.destination.is_label()
        },
{
}

/// Linking an instruction that holds no label succeeds and changes
/// nothing, whatever the tables hold. So linking a second time, after a
/// first time that succeeded, is without effect.
pub proof fn lemma_link_idempotent(
    add: AddModel,
    functions: Map<Seq<char>, u64>,
    constants: Map<Seq<char>, u64>,
    globals: Map<Seq<char>, u64>,
)
    ensures
        !add.source_1.is_label() && !add.destination.is_label() ==> {
            &&& link_error(add, functions, constants, globals) is None
            &&& after_link(add, functions, constants, globals) == add
        },
        link_error(add, functions, constants, globals) is None ==> {
            let linked = after_link(add, functions, constants, globals);
            &&& link_error(linked, functions, constants, globals) is None
            &&& after_link(linked, functions, constants, globals) == linked
        },
{
}

/// A set made from tokens holds each of them once: `distinct` leaves no
/// repetition, loses no token and adds none, and changes nothing where
/// nothing is repeated.
pub proof fn lemma_distinct(tokens: Seq<Seq<char>>)
    ensures
        distinct(tokens).no_duplicates(),
        forall|x: Seq<char>| distinct(tokens).contains(x) <==> tokens.contains(x),
        tokens.no_duplicates() ==> distinct(tokens) == tokens,
    decreases tokens.len(),
{
    if tokens.len() > 0 {
        let front = tokens.drop_last();
        let before = distinct(front);
        lemma_distinct(front);
        assert(front.push(tokens.last()) =~= tokens);
        assert forall|x: Seq<char>| distinct(tokens).contains(x) <==> tokens.contains(x) by {
            if tokens.contains(x) {
                let i = choose|i: int| 0 <= i < tokens.len() && tokens[i] == x;
                if i < front.len() {
                    assert(front[i] == x);
                }
            }
            if front.contains(x) {
                let i = choose|i: int| 0 <= i < front.len() && front[i] == x;
                assert(tokens[i] == x);
            }
            if before.contains(x) && !before.contains(tokens.last()) {
                let i = choose|i: int| 0 <= i < before.len() && before[i] == x;
                assert(before.push(tokens.last())[i] == x);
            }
            if !before.contains(tokens.last()) {
                assert(before.push(tokens.last())[before.len() as int] == tokens.last());
            }
            assert(tokens[tokens.len() - 1] == tokens.last());
        }
        if tokens.no_duplicates() {
            assert(front.no_duplicates());
            assert(!front.contains(tokens.last())) by {
                if front.contains(tokens.last()) {
                    let i = choose|i: int| 0 <= i < front.len() && front[i] == tokens.last();
                    assert(tokens[i] == tokens[tokens.len() - 1]);
                }
            }
        }
    }
}

} // verus!
