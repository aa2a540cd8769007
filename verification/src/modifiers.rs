//! The modifier tokens of an instruction, and the extraction of the
//! execution condition and the flag-setting option from them.
//!
//! Extraction consumes: what it recognises leaves the set, and whatever is
//! left when both extractions are done was not understood. The condition
//! is taken first. At most one condition is taken; where several are
//! present, it is the one that comes first in the order of
//! [`all_conditions`], whatever the order of the set, and the others stay
//! behind.

use vstd::prelude::*;
use vstd::string::*;
use crate::condition::{
    all_conditions,
    condition_text,
    condition_token,
    conditions,
    flags_text,
    flags_token,
    Condition,
    ConditionCase,
    SetFlags,
};
use crate::error::texts;
use crate::matcher::token_texts;

verus! {

/// `tokens` without every occurrence of `t`.
pub open spec fn without(tokens: Seq<Seq<char>>, t: Seq<char>) -> Seq<Seq<char>> {
    tokens.filter(|x: Seq<char>| x != t)
}

/// `tokens` without the repetitions: of several equal tokens the first
/// stays.
pub open spec fn distinct(tokens: Seq<Seq<char>>) -> Seq<Seq<char>>
    decreases tokens.len(),
{
    if tokens.len() == 0 {
        tokens
    } else {
        let before = distinct(tokens.drop_last());
        if before.contains(tokens.last()) {
            before
        } else {
            before.push(tokens.last())
        }
    }
}

/// The first of `candidates` whose modifier token is among `tokens`.
pub open spec fn first_listed(tokens: Seq<Seq<char>>, candidates: Seq<Condition>) -> Option<
    Condition,
>
    decreases candidates.len(),
{
    if candidates.len() == 0 {
        None
    } else if tokens.contains(condition_token(candidates[0])) {
        Some(candidates[0])
    } else {
        first_listed(tokens, candidates.skip(1))
    }
}

/// The condition that extraction takes from `tokens`, if they hold one.
pub open spec fn chosen_condition(tokens: Seq<Seq<char>>) -> Option<Condition> {
    first_listed(tokens, all_conditions())
}

/// What extraction of the condition leaves of `tokens`.
pub open spec fn after_condition(tokens: Seq<Seq<char>>) -> Seq<Seq<char>> {
    match chosen_condition(tokens) {
        Some(c) => without(tokens, condition_token(c)),
        None => tokens,
    }
}

/// What extraction of the condition and then of the flag-setting
/// modifier leaves of `tokens`.
pub open spec fn leftover(tokens: Seq<Seq<char>>) -> Seq<Seq<char>> {
    without(after_condition(tokens), flags_token())
}

/// A token of `without(tokens, t)` is a token of `tokens` other than `t`,
/// and the other way round.
pub proof fn lemma_without_contains(tokens: Seq<Seq<char>>, t: Seq<char>, x: Seq<char>)
    ensures
        without(tokens, t).contains(x) <==> tokens.contains(x) && x != t,
    decreases tokens.len(),
{
    reveal_with_fuel(Seq::filter, 2);
    if tokens.len() > 0 {
        let front = tokens.drop_last();
        lemma_without_contains(front, t, x);
        let kept = without(front, t);
        if tokens.contains(x) {
            let i = choose|i: int| 0 <= i < tokens.len() && tokens[i] == x;
            if i < front.len() {
                assert(front[i] == x);
            }
        }
        if front.contains(x) {
            let i = choose|i: int| 0 <= i < front.len() && front[i] == x;
            assert(tokens[i] == x);
        }
        if tokens.last() != t {
            assert(without(tokens, t) == kept.push(tokens.last()));
            if kept.contains(x) {
                let i = choose|i: int| 0 <= i < kept.len() && kept[i] == x;
                assert(kept.push(tokens.last())[i] == x);
            }
            if x == tokens.last() {
                assert(kept.push(tokens.last())[kept.len() as int] == x);
                assert(tokens[tokens.len() - 1] == x);
            }
        } else {
            assert(without(tokens, t) == kept);
        }
    }
}

/// Taking out a token that is not there changes nothing.
pub proof fn lemma_without_absent(tokens: Seq<Seq<char>>, t: Seq<char>)
    requires
        !tokens.contains(t),
    ensures
        without(tokens, t) == tokens,
    decreases tokens.len(),
{
    reveal_with_fuel(Seq::filter, 2);
    if tokens.len() > 0 {
        let front = tokens.drop_last();
        assert(!front.contains(t)) by {
            if front.contains(t) {
                let i = choose|i: int| 0 <= i < front.len() && front[i] == t;
                assert(tokens[i] == t);
            }
        }
        assert(tokens.last() != t) by {
            assert(tokens[tokens.len() - 1] == tokens.last());
        }
        lemma_without_absent(front, t);
        assert(front.push(tokens.last()) =~= tokens);
    }
}

/// Where no token occurs twice, taking out the token at index `i` is
/// deleting that index.
pub proof fn lemma_without_at(tokens: Seq<Seq<char>>, i: int)
    requires
        tokens.no_duplicates(),
        0 <= i < tokens.len(),
    ensures
        without(tokens, tokens[i]) == tokens.remove(i),
    decreases tokens.len(),
{
    reveal_with_fuel(Seq::filter, 2);
    let t = tokens[i];
    let front = tokens.drop_last();
    if i == tokens.len() - 1 {
        assert(!front.contains(t)) by {
            if front.contains(t) {
                let j = choose|j: int| 0 <= j < front.len() && front[j] == t;
                assert(tokens[j] == t);
            }
        }
        lemma_without_absent(front, t);
        assert(tokens.remove(i) =~= front);
    } else {
        assert(tokens.last() == tokens[tokens.len() - 1]);
        assert(front[i] == t);
        lemma_without_at(front, i);
        assert(front.remove(i).push(tokens.last()) =~= tokens.remove(i));
    }
}

/// The flag-setting modifier is the modifier of no condition.
pub proof fn lemma_flags_token_is_no_condition(c: Condition)
    ensures
        condition_token(c) != flags_token(),
{
    reveal_strlit(".set_flags");
    reveal_strlit(".cond.always");
    reveal_strlit(".cond.gt");
    reveal_strlit(".cond.lt");
    reveal_strlit(".cond.eq");
    reveal_strlit(".cond.ge");
    reveal_strlit(".cond.le");
    reveal_strlit(".cond.ne");
    reveal_strlit(".cond.gtlt");
    assert(flags_token()[1] == 's');
    assert(condition_token(c)[1] == 'c');
}

/// Taking the condition out of the modifiers neither removes nor adds
/// the flag-setting modifier.
pub proof fn lemma_flags_survive_condition(tokens: Seq<Seq<char>>)
    ensures
        after_condition(tokens).contains(flags_token()) == tokens.contains(flags_token()),
{
    match chosen_condition(tokens) {
        Some(c) => {
            lemma_flags_token_is_no_condition(c);
            lemma_without_contains(tokens, condition_token(c), flags_token());
        },
        None => {},
    }
}

/// A set of modifier tokens that remembers the order in which they were
/// put in. No token occurs in it twice.
#[derive(Debug, PartialEq, Eq)]
pub struct ModifierSet {
    tokens: Vec<String>,
}

impl View for ModifierSet {
    type V = Seq<Seq<char>>;

    closed spec fn view(&self) -> Seq<Seq<char>> {
        texts(self.tokens@)
    }
}

impl ModifierSet {
    #[verifier::type_invariant]
    spec fn no_repetition(&self) -> bool {
        texts(self.tokens@).no_duplicates()
    }

    /// The empty set.
    pub fn new() -> (set: ModifierSet)
        ensures
            set@ == Seq::<Seq<char>>::empty(),
    {
        let set = ModifierSet { tokens: Vec::new() };
        assert(set@ =~= Seq::<Seq<char>>::empty());
        set
    }

    /// The set of the given tokens. Where a token is given more than
    /// once, the first occurrence decides its place.
    pub fn from_tokens(tokens: Vec<&str>) -> (set: ModifierSet)
        ensures
            set@ == distinct(token_texts(tokens@)),
    {
        let ghost given = token_texts(tokens@);
        let mut set = ModifierSet::new();
        let mut i: usize = 0;
        while i < tokens.len()
            invariant
                given == token_texts(tokens@),
                i <= tokens@.len(),
                set@ == distinct(given.take(i as int)),
            decreases tokens@.len() - i,
        {
            assert(given.take(i + 1).drop_last() =~= given.take(i as int));
            assert(given.take(i + 1).last() == tokens@[i as int]@);
            set.insert(tokens[i]);
            i += 1;
        }
        assert(given.take(i as int) =~= given);
        set
    }

    /// Number of tokens. No token is counted twice, as none occurs twice.
    pub fn len(&self) -> (n: usize)
        ensures
            n == self@.len(),
            self@.no_duplicates(),
    {
        proof {
            use_type_invariant(self);
        }
        self.tokens.len()
    }

    /// Whether the set holds no token.
    pub fn is_empty(&self) -> (empty: bool)
        ensures
            empty == (self@.len() == 0),
    {
        self.tokens.len() == 0
    }

    /// The index of `token` in the set.
    fn position(&self, token: &str) -> (found: Option<usize>)
        ensures
            match found {
                Some(i) => i < self@.len() && self@[i as int] == token@,
                None => !self@.contains(token@),
            },
    {
        let needle = String::from_str(token);
        let mut i: usize = 0;
        while i < self.tokens.len()
            invariant
                needle@ == token@,
                i <= self.tokens@.len(),
                forall|j: int| 0 <= j < i ==> self@[j] != token@,
            decreases self.tokens@.len() - i,
        {
            if self.tokens[i] == needle {
                return Some(i);
            }
            i += 1;
        }
        None
    }

    /// Whether `token` is in the set.
    pub fn contains(&self, token: &str) -> (found: bool)
        ensures
            found == self@.contains(token@),
    {
        self.position(token).is_some()
    }

    /// Puts `token` into the set, behind the tokens that are there, unless
    /// the set holds it already. Returns whether the set has grown.
    pub fn insert(&mut self, token: &str) -> (added: bool)
        ensures
            added == !old(self)@.contains(token@),
            final(self)@ == (if added {
                old(self)@.push(token@)
            } else {
                old(self)@
            }),
    {
        proof {
            use_type_invariant(&*self);
        }
        match self.position(token) {
            Some(_) => false,
            None => {
                let ghost before = self@;
                let mut tokens: Vec<String> = Vec::new();
                core::mem::swap(&mut tokens, &mut self.tokens);
                tokens.push(String::from_str(token));
                assert(texts(tokens@) =~= before.push(token@));
                self.tokens = tokens;
                true
            },
        }
    }

    /// Takes `token` out of the set. Returns whether the set held it.
    pub fn remove(&mut self, token: &str) -> (removed: bool)
        ensures
            removed == old(self)@.contains(token@),
            final(self)@ == without(old(self)@, token@),
    {
        proof {
            use_type_invariant(&*self);
        }
        let ghost before = self@;
        match self.position(token) {
            Some(i) => {
                proof {
                    lemma_without_at(before, i as int);
                }
                let mut tokens: Vec<String> = Vec::new();
                core::mem::swap(&mut tokens, &mut self.tokens);
                tokens.remove(i);
                assert(texts(tokens@) =~= before.remove(i as int));
                self.tokens = tokens;
                true
            },
            None => {
                proof {
                    lemma_without_absent(before, token@);
                }
                false
            },
        }
    }

    /// The tokens of the set, in the order in which they were put in.
    pub fn into_tokens(self) -> (tokens: Vec<String>)
        ensures
            texts(tokens@) == self@,
    {
        self.tokens
    }
}

/// Takes the condition modifier out of `modifiers` and returns the
/// condition that it selects, or the condition "always" where there is
/// none.
pub fn pick_condition(modifiers: &mut ModifierSet) -> (case: ConditionCase)
    ensures
        case == ConditionCase(
            match chosen_condition(old(modifiers)@) {
                Some(c) => c,
                None => Condition::Always,
            },
        ),
        final(modifiers)@ == after_condition(old(modifiers)@),
{
    let list = conditions();
    let ghost tokens = modifiers@;
    assert(all_conditions().skip(0) =~= all_conditions());
    let mut i: usize = 0;
    while i < list.len()
        invariant
            list@ == all_conditions(),
            tokens == old(modifiers)@,
            tokens == modifiers@,
            i <= list@.len(),
            chosen_condition(tokens) == first_listed(tokens, all_conditions().skip(i as int)),
        decreases list@.len() - i,
    {
        let candidate = list[i];
        assert(all_conditions().skip(i as int)[0] == candidate);
        assert(all_conditions().skip(i as int).skip(1) =~= all_conditions().skip(i + 1));
        if modifiers.remove(condition_text(candidate)) {
            return ConditionCase(candidate);
        }
        proof {
            lemma_without_absent(tokens, condition_token(candidate));
        }
        i += 1;
    }
    ConditionCase::default()
}

/// Takes the flag-setting modifier out of `modifiers` and returns whether
/// it was there.
pub fn pick_setting_flags(modifiers: &mut ModifierSet) -> (option: SetFlags)
    ensures
        option == SetFlags(old(modifiers)@.contains(flags_token())),
        final(modifiers)@ == without(old(modifiers)@, flags_token()),
{
    if modifiers.remove(flags_text()) {
        SetFlags(true)
    } else {
        SetFlags::default()
    }
}

} // verus!
