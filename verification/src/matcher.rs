//! The canonical operand matcher: classifies the operand tokens of an
//! instruction, position by position, against a template of operand
//! kinds.
//!
//! A template is matched as a whole or not at all. A token list that has
//! the wrong length matches nothing; otherwise the first token that is
//! not of the kind expected at its position is reported.

use vstd::prelude::*;
use vstd::string::*;
use crate::classify::{classify, classify_operand};
use crate::error::{InstructionReadError, ReadErrorModel};
use crate::operand::{operand_models, FullOperand, OperandModel, OperandType};

verus! {

/// The contents of a sequence of tokens, in order.
pub open spec fn token_texts(tokens: Seq<&str>) -> Seq<Seq<char>> {
    Seq::new(tokens.len(), |i: int| tokens[i]@)
}

/// Whether position `i` is the first at which a token is not of the kind
/// that the template expects.
pub open spec fn is_first_mismatch(
    tokens: Seq<Seq<char>>,
    template: Seq<OperandType>,
    i: int,
) -> bool {
    &&& 0 <= i < tokens.len()
    &&& classify(template[i], tokens[i]) is None
    &&& forall|j: int| 0 <= j < i ==> (#[trigger] classify(template[j], tokens[j])) is Some
}

/// Whether every token is of the kind that the template expects at its
/// position.
pub open spec fn all_match(tokens: Seq<Seq<char>>, template: Seq<OperandType>) -> bool {
    forall|j: int| 0 <= j < tokens.len() ==> (#[trigger] classify(template[j], tokens[j])) is Some
}

/// The operands that the tokens denote under the template, position by
/// position.
pub open spec fn matched_operands(
    tokens: Seq<Seq<char>>,
    template: Seq<OperandType>,
) -> Seq<OperandModel> {
    Seq::new(tokens.len(), |i: int| classify(template[i], tokens[i])->Some_0)
}

/// The outcome of matching `tokens` against `template`.
pub open spec fn match_template(tokens: Seq<Seq<char>>, template: Seq<OperandType>) -> Result<
    Seq<OperandModel>,
    ReadErrorModel,
> {
    if tokens.len() != template.len() {
        Err(
            ReadErrorModel::InvalidArgumentCount {
                expected: template.len() as usize,
                found: tokens.len() as usize,
            },
        )
    } else if all_match(tokens, template) {
        Ok(matched_operands(tokens, template))
    } else {
        let i = choose|i: int| is_first_mismatch(tokens, template, i);
        Err(
            ReadErrorModel::InvalidOperand {
                index: i as usize,
                token: tokens[i],
                kind: template[i],
            },
        )
    }
}

/// A first mismatch decides the outcome of the match.
pub proof fn lemma_first_mismatch(tokens: Seq<Seq<char>>, template: Seq<OperandType>, i: int)
    requires
        tokens.len() == template.len(),
        is_first_mismatch(tokens, template, i),
    ensures
        match_template(tokens, template) == Err::<Seq<OperandModel>, ReadErrorModel>(
            ReadErrorModel::InvalidOperand {
                index: i as usize,
                token: tokens[i],
                kind: template[i],
            },
        ),
{
    let k = choose|k: int| is_first_mismatch(tokens, template, k);
    assert(classify(template[i], tokens[i]) is None);
    assert(k == i) by {
        if k < i {
            assert(classify(template[k], tokens[k]) is Some);
        }
        if i < k {
            assert(classify(template[i], tokens[i]) is Some);
        }
    }
}

/// A successful match has classified every token.
pub proof fn lemma_match_ok(
    tokens: Seq<Seq<char>>,
    template: Seq<OperandType>,
    operands: Seq<OperandModel>,
)
    requires
        match_template(tokens, template) == Ok::<Seq<OperandModel>, ReadErrorModel>(operands),
    ensures
        tokens.len() == template.len(),
        operands.len() == tokens.len(),
        forall|i: int|
            0 <= i < tokens.len() ==> (#[trigger] classify(template[i], tokens[i])) == Some(
                operands[i],
            ),
{
    assert(all_match(tokens, template));
    assert(operands == matched_operands(tokens, template));
}

/// Matches the operand tokens of an instruction against the kinds
/// expected of its source positions followed by those expected of its
/// destination positions. The number of positions must itself be a
/// number that the machine can hold.
pub fn parse_canonical_operands_sequence(
    operands: &Vec<&str>,
    sources: &[OperandType],
    destinations: &[OperandType],
) -> (result: Result<Vec<FullOperand>, InstructionReadError>)
    requires
        sources@.len() + destinations@.len() <= usize::MAX,
    ensures
        match result {
            Ok(matched) => match_template(token_texts(operands@), sources@ + destinations@) == Ok::<
                Seq<OperandModel>,
                ReadErrorModel,
            >(operand_models(matched@)),
            Err(e) => match_template(token_texts(operands@), sources@ + destinations@) == Err::<
                Seq<OperandModel>,
                ReadErrorModel,
            >(e@),
        },
{
    let ghost tokens = token_texts(operands@);
    let ghost template = sources@ + destinations@;
    let expected: usize = sources.len() + destinations.len();
    if operands.len() != expected {
        return Err(
            InstructionReadError::InvalidArgumentCount { expected, found: operands.len() },
        );
    }
    let mut matched: Vec<FullOperand> = Vec::new();
    let mut i: usize = 0;
    while i < operands.len()
        invariant
            tokens == token_texts(operands@),
            template == sources@ + destinations@,
            tokens.len() == template.len(),
            i <= operands@.len(),
            matched@.len() == i,
            forall|j: int|
                0 <= j < i ==> (#[trigger] classify(template[j], tokens[j])) == Some(matched@[j]@),
        decreases operands@.len() - i,
    {
        let kind = if i < sources.len() {
            sources[i]
        } else {
            destinations[i - sources.len()]
        };
        assert(kind == template[i as int]);
        let token: &str = operands[i];
        assert(token@ == tokens[i as int]);
        match classify_operand(token, kind) {
            Some(operand) => {
                matched.push(operand);
            },
            None => {
                proof {
                    lemma_first_mismatch(tokens, template, i as int);
                }
                return Err(
                    InstructionReadError::InvalidOperand {
                        index: i,
                        token: String::from_str(token),
                        kind,
                    },
                );
            },
        }
        i += 1;
    }
    assert(operand_models(matched@) =~= matched_operands(tokens, template));
    Ok(matched)
}

} // verus!
