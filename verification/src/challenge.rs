//! The challenge of a strict alarm: digits to read, and the answer to type
//! back in one of several numeral scripts.

use rand::Rng;
use vstd::prelude::*;
use vstd::string::StrSliceExecFns;
use vstd::string::StringExecFns;

verus! {

/// How many digits a challenge has.
pub const CHALLENGE_LENGTH: usize = 30;

/// How many numeral scripts there are to choose from.
pub const SCRIPT_COUNT: usize = 4;

/// How many numbers a script has glyphs for: zero to ten.
pub const NUMBER_COUNT: usize = 11;

/// How the numbers zero to ten are shown in a challenge: ten digits, and X
/// for ten.
pub open spec fn symbols() -> Seq<char> {
    "0123456789X"@
}

/// The glyphs of a numeral script, for the numbers zero to ten.
pub open spec fn glyphs(script: int) -> Seq<char> {
    if script == 0 {
        "零一二三四五六七八九十"@
    } else if script == 1 {
        "〇一二三四五六七八九十"@
    } else if script == 2 {
        "零壹贰叁肆伍陆柒捌玖拾"@
    } else {
        "洞幺两三四五六拐怕勾叉"@
    }
}

/// The digits shown for a sequence of numbers.
pub open spec fn challenge_digits(numbers: Seq<usize>) -> Seq<char> {
    Seq::new(numbers.len(), |i: int| symbols()[numbers[i] as int])
}

/// The answer to a sequence of numbers in a script: the glyph of each number.
pub open spec fn challenge_answer(script: int, numbers: Seq<usize>) -> Seq<char> {
    Seq::new(numbers.len(), |i: int| glyphs(script)[numbers[i] as int])
}

/// A challenge.
#[derive(Clone, Debug, PartialEq, Eq)]
pub struct Challenge {
    /// The digits to read.
    pub digits: String,
    /// The text that answers the challenge.
    pub answer: String,
    /// The glyphs of the script in which the answer is to be typed.
    pub script: String,
}

impl Challenge {
    /// The challenge is the one for the numbers `numbers` in the script `script`.
    pub open spec fn is_for(&self, script: int, numbers: Seq<usize>) -> bool {
        &&& self.digits@ == challenge_digits(numbers)
        &&& self.answer@ == challenge_answer(script, numbers)
        &&& self.script@ == glyphs(script)
    }

    /// The challenge is one that `generate_strict_challenge` can come up
    /// with: `CHALLENGE_LENGTH` numbers from zero to ten, in one of the scripts.
    pub open spec fn wf(&self) -> bool {
        exists|script: int, numbers: Seq<usize>|
            {
                &&& 0 <= script < SCRIPT_COUNT
                &&& numbers.len() == CHALLENGE_LENGTH
                &&& forall|i: int| 0 <= i < numbers.len() ==> numbers[i] < NUMBER_COUNT
                &&& #[trigger] self.is_for(script, numbers)
            }
    }
}

/// The glyphs of a numeral script.
pub fn script_glyphs(script: usize) -> (text: &'static str)
    requires
        script < SCRIPT_COUNT,
    ensures
        text@ == glyphs(script as int),
        text@.len() == NUMBER_COUNT,
{
    proof {
        reveal_strlit("零一二三四五六七八九十");
        reveal_strlit("〇一二三四五六七八九十");
        reveal_strlit("零壹贰叁肆伍陆柒捌玖拾");
        reveal_strlit("洞幺两三四五六拐怕勾叉");
    }
    if script == 0 {
        "零一二三四五六七八九十"
    } else if script == 1 {
        "〇一二三四五六七八九十"
    } else if script == 2 {
        "零壹贰叁肆伍陆柒捌玖拾"
    } else {
        "洞幺两三四五六拐怕勾叉"
    }
}

/// The challenge for the numbers `numbers` in the script `script`.
pub fn build_challenge(script: usize, numbers: &Vec<usize>) -> (challenge: Challenge)
    requires
        script < SCRIPT_COUNT,
        forall|i: int| 0 <= i < numbers.len() ==> numbers[i] < NUMBER_COUNT,
    ensures
        challenge.is_for(script as int, numbers@),
        challenge.digits@.len() == numbers.len(),
        challenge.answer@.len() == numbers.len(),
{
    let shown = "0123456789X";
    proof {
        reveal_strlit("0123456789X");
    }
    let script_text = script_glyphs(script);
    let mut digits = String::new();
    let mut answer = String::new();
    let mut i: usize = 0;
    while i < numbers.len()
        invariant
            i <= numbers.len(),
            script < SCRIPT_COUNT,
            shown@ == symbols(),
            shown@.len() == NUMBER_COUNT,
            script_text@ == glyphs(script as int),
            script_text@.len() == NUMBER_COUNT,
            forall|j: int| 0 <= j < numbers.len() ==> numbers[j] < NUMBER_COUNT,
            digits@ == challenge_digits(numbers@.take(i as int)),
            answer@ == challenge_answer(script as int, numbers@.take(i as int)),
        decreases numbers.len() - i,
    {
        let number = numbers[i];
        digits.append(shown.substring_char(number, number + 1));
        answer.append(script_text.substring_char(number, number + 1));
        assert(digits@ =~= challenge_digits(numbers@.take(i + 1)));
        assert(answer@ =~= challenge_answer(script as int, numbers@.take(i + 1)));
        i += 1;
    }
    assert(numbers@.take(i as int) =~= numbers@);
    Challenge { digits, answer, script: script_text.to_owned() }
}

/// Calls `rand::Rng::gen_range` on `rand::thread_rng()` with the bounds 0
/// and `bound`: the result is a number from 0 up to, not including, `bound`.
/// The call panics on an empty range, which `requires` leaves out.
#[verifier::external_body]
fn random_below(bound: usize) -> (n: usize)
    requires
        bound > 0,
    ensures
        n < bound,
{
    rand::thread_rng().gen_range(0, bound)
}

/// A fresh challenge: a script and `CHALLENGE_LENGTH` numbers from zero to
/// ten, all drawn at random.
pub fn generate_strict_challenge() -> (challenge: Challenge)
    ensures
        challenge.wf(),
        challenge.digits@.len() == CHALLENGE_LENGTH,
        challenge.answer@.len() == CHALLENGE_LENGTH,
{
    let script = random_below(SCRIPT_COUNT);
    let mut numbers: Vec<usize> = Vec::new();
    while numbers.len() < CHALLENGE_LENGTH
        invariant
            numbers.len() <= CHALLENGE_LENGTH,
            forall|i: int| 0 <= i < numbers.len() ==> numbers[i] < NUMBER_COUNT,
        decreases CHALLENGE_LENGTH - numbers.len(),
    {
        let number = random_below(NUMBER_COUNT);
        numbers.push(number);
    }
    let challenge = build_challenge(script, &numbers);
    assert(challenge.is_for(script as int, numbers@));
    challenge
}

} // verus!
