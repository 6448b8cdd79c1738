//! Text as sequences of characters: white space, searching, and numbers
//! in decimal.

use vstd::prelude::*;
use vstd::string::StrSliceExecFns;
use vstd::string::StringExecFns;

verus! {

/// White space: the characters that Unicode gives the property White_Space.
pub open spec fn is_space(c: char) -> bool {
    let n = c as u32;
    ||| 0x09 <= n <= 0x0D
    ||| n == 0x20
    ||| n == 0x85
    ||| n == 0xA0
    ||| n == 0x1680
    ||| 0x2000 <= n <= 0x200A
    ||| n == 0x2028
    ||| n == 0x2029
    ||| n == 0x202F
    ||| n == 0x205F
    ||| n == 0x3000
}

/// Whether a character is white space.
pub fn char_is_space(c: char) -> (space: bool)
    ensures
        space == is_space(c),
{
    let n = c as u32;
    (0x09 <= n && n <= 0x0D) || n == 0x20 || n == 0x85 || n == 0xA0 || n == 0x1680 || (0x2000 <= n
        && n <= 0x200A) || n == 0x2028 || n == 0x2029 || n == 0x202F || n == 0x205F || n == 0x3000
}

/// The text without the white space it starts with.
pub open spec fn trim_start(s: Seq<char>) -> Seq<char>
    decreases s.len(),
{
    if s.len() > 0 && is_space(s[0]) {
        trim_start(s.skip(1))
    } else {
        s
    }
}

/// The text without the white space it ends with.
pub open spec fn trim_end(s: Seq<char>) -> Seq<char>
    decreases s.len(),
{
    if s.len() > 0 && is_space(s.last()) {
        trim_end(s.drop_last())
    } else {
        s
    }
}

/// The text without the white space at either end.
pub open spec fn trimmed(s: Seq<char>) -> Seq<char> {
    trim_end(trim_start(s))
}

/// The place of the first white space in `s`.
pub open spec fn first_space(s: Seq<char>) -> Option<int>
    decreases s.len(),
{
    if s.len() == 0 {
        None
    } else if is_space(s[0]) {
        Some(0)
    } else {
        match first_space(s.skip(1)) {
            Some(k) => Some(k + 1),
            None => None,
        }
    }
}

/// The place of the first `wanted` in `s`.
pub open spec fn first_char(s: Seq<char>, wanted: char) -> Option<int>
    decreases s.len(),
{
    if s.len() == 0 {
        None
    } else if s[0] == wanted {
        Some(0)
    } else {
        match first_char(s.skip(1), wanted) {
            Some(k) => Some(k + 1),
            None => None,
        }
    }
}

/// `first_space` finds the least place that holds white space.
pub proof fn lemma_first_space(s: Seq<char>)
    ensures
        match first_space(s) {
            Some(k) => 0 <= k < s.len() && is_space(s[k]) && forall|j: int|
                0 <= j < k ==> !is_space(#[trigger] s[j]),
            None => forall|j: int| 0 <= j < s.len() ==> !is_space(#[trigger] s[j]),
        },
    decreases s.len(),
{
    if s.len() > 0 && !is_space(s[0]) {
        let rest = s.skip(1);
        lemma_first_space(rest);
        match first_space(rest) {
            Some(k) => {
                assert forall|j: int| 0 <= j < k + 1 implies !is_space(#[trigger] s[j]) by {
                    if j > 0 {
                        assert(s[j] == rest[j - 1]);
                    }
                }
            },
            None => {
                assert forall|j: int| 0 <= j < s.len() implies !is_space(#[trigger] s[j]) by {
                    if j > 0 {
                        assert(s[j] == rest[j - 1]);
                    }
                }
            },
        }
    }
}

/// `first_char` finds the least place that holds `wanted`.
pub proof fn lemma_first_char(s: Seq<char>, wanted: char)
    ensures
        match first_char(s, wanted) {
            Some(k) => 0 <= k < s.len() && s[k] == wanted && forall|j: int|
                0 <= j < k ==> #[trigger] s[j] != wanted,
            None => forall|j: int| 0 <= j < s.len() ==> #[trigger] s[j] != wanted,
        },
    decreases s.len(),
{
    if s.len() > 0 && s[0] != wanted {
        let rest = s.skip(1);
        lemma_first_char(rest, wanted);
        match first_char(rest, wanted) {
            Some(k) => {
                assert forall|j: int| 0 <= j < k + 1 implies #[trigger] s[j] != wanted by {
                    if j > 0 {
                        assert(s[j] == rest[j - 1]);
                    }
                }
            },
            None => {
                assert forall|j: int| 0 <= j < s.len() implies #[trigger] s[j] != wanted by {
                    if j > 0 {
                        assert(s[j] == rest[j - 1]);
                    }
                }
            },
        }
    }
}

/// `trim_start` cuts at the first character that is not white space.
pub proof fn lemma_trim_start(s: Seq<char>, k: int)
    requires
        0 <= k <= s.len(),
        forall|j: int| 0 <= j < k ==> is_space(#[trigger] s[j]),
        k < s.len() ==> !is_space(s[k]),
    ensures
        trim_start(s) == s.skip(k),
    decreases k,
{
    if k == 0 {
        assert(s.skip(0) =~= s);
    } else {
        let rest = s.skip(1);
        assert forall|j: int| 0 <= j < k - 1 implies is_space(#[trigger] rest[j]) by {
            assert(rest[j] == s[j + 1]);
        }
        lemma_trim_start(rest, k - 1);
        assert(rest.skip(k - 1) =~= s.skip(k));
    }
}

/// `trim_end` cuts behind the last character that is not white space.
pub proof fn lemma_trim_end(s: Seq<char>, k: int)
    requires
        0 <= k <= s.len(),
        forall|j: int| k <= j < s.len() ==> is_space(#[trigger] s[j]),
        k > 0 ==> !is_space(s[k - 1]),
    ensures
        trim_end(s) == s.take(k),
    decreases s.len() - k,
{
    if k == s.len() {
        assert(s.take(k) =~= s);
    } else {
        let rest = s.drop_last();
        lemma_trim_end(rest, k);
        assert(rest.take(k) =~= s.take(k));
    }
}

/// The characters of a text.
pub fn chars_of(s: &str) -> (chars: Vec<char>)
    ensures
        chars@ == s@,
{
    let mut chars: Vec<char> = Vec::new();
    for c in it: s.chars()
        invariant
            chars@.len() == it.index(),
            forall|j: int| 0 <= j < chars@.len() ==> chars@[j] == it.seq()[j],
    {
        chars.push(c);
    }
    assert(chars@ =~= s@);
    chars
}

/// Whether two texts are the same, character for character.
pub fn same_text(a: &str, b: &str) -> (same: bool)
    ensures
        same == (a@ == b@),
{
    let x = chars_of(a);
    let y = chars_of(b);
    if x.len() != y.len() {
        return false;
    }
    let mut i: usize = 0;
    while i < x.len()
        invariant
            i <= x.len(),
            x.len() == y.len(),
            x@ == a@,
            y@ == b@,
            forall|j: int| 0 <= j < i ==> x@[j] == y@[j],
        decreases x.len() - i,
    {
        if x[i] != y[i] {
            assert(a@[i as int] != b@[i as int]);
            return false;
        }
        i += 1;
    }
    assert(x@ =~= y@);
    true
}

/// The bounds of `chars[from..to]` without the white space at either end.
pub fn trim_bounds(chars: &Vec<char>, from: usize, to: usize) -> (bounds: (usize, usize))
    requires
        from <= to <= chars.len(),
    ensures
        from <= bounds.0 <= bounds.1 <= to,
        chars@.subrange(bounds.0 as int, bounds.1 as int) == trimmed(
            chars@.subrange(from as int, to as int),
        ),
{
    let ghost whole = chars@.subrange(from as int, to as int);
    let mut start = from;
    while start < to && char_is_space(chars[start])
        invariant
            from <= start <= to <= chars.len(),
            forall|j: int| from <= j < start ==> is_space(#[trigger] chars@[j]),
        decreases to - start,
    {
        start += 1;
    }
    let mut end = to;
    while end > start && char_is_space(chars[end - 1])
        invariant
            start <= end <= to <= chars.len(),
            forall|j: int| end <= j < to ==> is_space(#[trigger] chars@[j]),
        decreases end - start,
    {
        end -= 1;
    }
    proof {
        assert forall|j: int| 0 <= j < start - from implies is_space(#[trigger] whole[j]) by {
            assert(whole[j] == chars@[from + j]);
        }
        lemma_trim_start(whole, start - from);
        let rest = whole.skip(start - from);
        assert(rest =~= chars@.subrange(start as int, to as int));
        assert forall|j: int| end - start <= j < rest.len() implies is_space(#[trigger] rest[j]) by {
            assert(rest[j] == chars@[start + j]);
        }
        lemma_trim_end(rest, end - start);
        assert(rest.take(end - start) =~= chars@.subrange(start as int, end as int));
    }
    (start, end)
}

/// The place in `chars[from..to]` of the first white space, counted from `from`.
pub fn find_space(chars: &Vec<char>, from: usize, to: usize) -> (found: Option<usize>)
    requires
        from <= to <= chars.len(),
    ensures
        found matches Some(k) ==> k < to - from,
        (match found {
            Some(k) => Some(k as int),
            None => None,
        }) == first_space(chars@.subrange(from as int, to as int)),
{
    let ghost part = chars@.subrange(from as int, to as int);
    let mut i = from;
    while i < to
        invariant
            from <= i <= to <= chars.len(),
            part == chars@.subrange(from as int, to as int),
            forall|j: int| 0 <= j < i - from ==> !is_space(#[trigger] part[j]),
        decreases to - i,
    {
        if char_is_space(chars[i]) {
            proof {
                assert(is_space(part[i - from]));
                lemma_first_space(part);
            }
            return Some(i - from);
        }
        i += 1;
    }
    proof {
        lemma_first_space(part);
    }
    None
}

/// The place in `chars[from..to]` of the first `wanted`, counted from `from`.
pub fn find_char(chars: &Vec<char>, from: usize, to: usize, wanted: char) -> (found: Option<
    usize,
>)
    requires
        from <= to <= chars.len(),
    ensures
        found matches Some(k) ==> k < to - from,
        (match found {
            Some(k) => Some(k as int),
            None => None,
        }) == first_char(chars@.subrange(from as int, to as int), wanted),
{
    let ghost part = chars@.subrange(from as int, to as int);
    let mut i = from;
    while i < to
        invariant
            from <= i <= to <= chars.len(),
            part == chars@.subrange(from as int, to as int),
            forall|j: int| 0 <= j < i - from ==> #[trigger] part[j] != wanted,
        decreases to - i,
    {
        if chars[i] == wanted {
            proof {
                assert(part[i - from] == wanted);
                lemma_first_char(part, wanted);
            }
            return Some(i - from);
        }
        i += 1;
    }
    proof {
        lemma_first_char(part, wanted);
    }
    None
}

/// The ten digits.
pub open spec fn digits() -> Seq<char> {
    "0123456789"@
}

/// Whether a character is one of the ten digits.
pub open spec fn is_digit(c: char) -> bool {
    0x30 <= c as u32 <= 0x39
}

/// The number a digit stands for.
pub open spec fn digit_of(c: char) -> int {
    c as u32 - 0x30
}

/// Whether a text is made of digits only.
pub open spec fn all_digits(s: Seq<char>) -> bool {
    forall|i: int| 0 <= i < s.len() ==> is_digit(#[trigger] s[i])
}

/// The number that a text of digits stands for in decimal.
pub open spec fn value_of(s: Seq<char>) -> int
    decreases s.len(),
{
    if s.len() == 0 {
        0
    } else {
        value_of(s.drop_last()) * 10 + digit_of(s.last())
    }
}

/// The number written by a non-empty text of digits, if it is at most `max`.
pub open spec fn number_of(s: Seq<char>, max: int) -> Option<int> {
    if s.len() > 0 && all_digits(s) && value_of(s) <= max {
        Some(value_of(s))
    } else {
        None
    }
}

/// The number written by a text without a sign or with a plus sign in
/// front, if it is at most `max`.
pub open spec fn unsigned_of(s: Seq<char>, max: int) -> Option<int> {
    if s.len() > 0 && s[0] == '+' {
        number_of(s.skip(1), max)
    } else {
        number_of(s, max)
    }
}

/// The number written by a text with or without a sign in front, if it
/// lies between `min` and `max`; `min` is at most 0.
pub open spec fn signed_of(s: Seq<char>, min: int, max: int) -> Option<int> {
    if s.len() > 0 && s[0] == '-' {
        match number_of(s.skip(1), -min) {
            Some(n) => Some(-n),
            None => None,
        }
    } else {
        unsigned_of(s, max)
    }
}

/// A number written by digits is never negative.
pub proof fn lemma_value_not_negative(s: Seq<char>)
    requires
        all_digits(s),
    ensures
        value_of(s) >= 0,
    decreases s.len(),
{
    if s.len() > 0 {
        assert(is_digit(s.last()));
        assert forall|i: int| 0 <= i < s.drop_last().len() implies is_digit(
            #[trigger] s.drop_last()[i],
        ) by {
            assert(s.drop_last()[i] == s[i]);
        }
        lemma_value_not_negative(s.drop_last());
    }
}

/// More digits behind a number never make it smaller.
pub proof fn lemma_value_grows(s: Seq<char>, k: int)
    requires
        all_digits(s),
        0 <= k <= s.len(),
    ensures
        value_of(s.take(k)) <= value_of(s),
    decreases s.len() - k,
{
    if k == s.len() {
        assert(s.take(k) =~= s);
    } else {
        let rest = s.drop_last();
        assert forall|i: int| 0 <= i < rest.len() implies is_digit(#[trigger] rest[i]) by {
            assert(rest[i] == s[i]);
        }
        lemma_value_grows(rest, k);
        assert(rest.take(k) =~= s.take(k));
        lemma_value_not_negative(rest);
        assert(is_digit(s.last()));
    }
}

/// Reads `chars[from..to]` as a number written by digits alone.
pub fn parse_digits(chars: &Vec<char>, from: usize, to: usize, max: u64) -> (number: Option<u64>)
    requires
        from <= to <= chars.len(),
    ensures
        (match number {
            Some(n) => Some(n as int),
            None => None,
        }) == number_of(chars@.subrange(from as int, to as int), max as int),
{
    let ghost part = chars@.subrange(from as int, to as int);
    if from == to {
        return None;
    }
    let mut value: u64 = 0;
    let mut i = from;
    while i < to
        invariant
            from <= i <= to <= chars.len(),
            part == chars@.subrange(from as int, to as int),
            all_digits(part.take(i - from)),
            value == value_of(part.take(i - from)),
            value <= max,
        decreases to - i,
    {
        let c = chars[i];
        let code = c as u32;
        proof {
            assert(part[i - from] == c);
            assert(part.take(i - from + 1).drop_last() =~= part.take(i - from));
        }
        if code < 0x30 || code > 0x39 {
            assert(!is_digit(part[i - from]));
            return None;
        }
        assert(all_digits(part.take(i - from + 1))) by {
            assert forall|j: int| 0 <= j < i - from + 1 implies is_digit(
                #[trigger] part.take(i - from + 1)[j],
            ) by {
                if j < i - from {
                    assert(part.take(i - from)[j] == part.take(i - from + 1)[j]);
                }
            }
        }
        let wide: u128 = value as u128 * 10 + (code - 0x30) as u128;
        if wide > max as u128 {
            proof {
                if all_digits(part) {
                    lemma_value_grows(part, i - from + 1);
                }
            }
            return None;
        }
        value = wide as u64;
        i += 1;
    }
    assert(part.take(i - from) =~= part);
    Some(value)
}

/// Reads `chars[from..to]` as a number without a sign or with a plus sign,
/// as `usize::from_str` does.
pub fn parse_unsigned(chars: &Vec<char>, from: usize, to: usize, max: u64) -> (number: Option<
    u64,
>)
    requires
        from <= to <= chars.len(),
    ensures
        (match number {
            Some(n) => Some(n as int),
            None => None,
        }) == unsigned_of(chars@.subrange(from as int, to as int), max as int),
{
    let ghost part = chars@.subrange(from as int, to as int);
    if from < to && chars[from] == '+' {
        assert(part[0] == '+');
        assert(part.skip(1) =~= chars@.subrange(from + 1, to as int));
        parse_digits(chars, from + 1, to, max)
    } else {
        assert(from < to ==> part[0] == chars@[from as int]);
        parse_digits(chars, from, to, max)
    }
}

/// Reads `chars[from..to]` as a number of 32 bits with or without a sign,
/// as `i32::from_str` does.
pub fn parse_number(chars: &Vec<char>, from: usize, to: usize) -> (number: Option<i32>)
    requires
        from <= to <= chars.len(),
    ensures
        (match number {
            Some(n) => Some(n as int),
            None => None,
        }) == signed_of(chars@.subrange(from as int, to as int), i32::MIN as int, i32::MAX as int),
{
    let ghost part = chars@.subrange(from as int, to as int);
    if from < to && chars[from] == '-' {
        assert(part[0] == '-');
        assert(part.skip(1) =~= chars@.subrange(from + 1, to as int));
        match parse_digits(chars, from + 1, to, 0x8000_0000) {
            Some(n) => {
                if n == 0x8000_0000 {
                    Some(i32::MIN)
                } else {
                    Some(-(n as i32))
                }
            },
            None => None,
        }
    } else {
        assert(from < to ==> part[0] == chars@[from as int]);
        match parse_unsigned(chars, from, to, 0x7fff_ffff) {
            Some(n) => Some(n as i32),
            None => None,
        }
    }
}

/// Reads a text as the number of an alarm, as `usize::from_str` does.
pub fn parse_index(text: &str) -> (index: Option<usize>)
    ensures
        (match index {
            Some(n) => Some(n as int),
            None => None,
        }) == unsigned_of(text@, usize::MAX as int),
{
    let chars = chars_of(text);
    assert(chars@.subrange(0, chars@.len() as int) =~= text@);
    match parse_unsigned(&chars, 0, chars.len(), usize::MAX as u64) {
        Some(n) => Some(n as usize),
        None => None,
    }
}

/// A number in decimal, without leading zeros.
pub open spec fn decimal(n: nat) -> Seq<char>
    decreases n,
{
    if n < 10 {
        seq![digits()[n as int]]
    } else {
        decimal(n / 10).push(digits()[(n % 10) as int])
    }
}

/// A number in decimal, with a minus sign in front if it is negative.
pub open spec fn signed_decimal(n: int) -> Seq<char> {
    if n < 0 {
        seq!['-'] + decimal((-n) as nat)
    } else {
        decimal(n as nat)
    }
}

/// Writes a number in decimal at the end of `out`.
pub fn append_decimal(out: &mut String, n: u64)
    ensures
        final(out)@ == old(out)@ + decimal(n as nat),
    decreases n,
{
    let shown = "0123456789";
    proof {
        reveal_strlit("0123456789");
    }
    if n >= 10 {
        append_decimal(out, n / 10);
    }
    let d = (n % 10) as usize;
    out.append(shown.substring_char(d, d + 1));
    assert(final(out)@ =~= old(out)@ + decimal(n as nat));
}

/// Writes a number in decimal at the end of `out`, with a minus sign in
/// front if it is negative.
pub fn append_signed_decimal(out: &mut String, n: i64)
    ensures
        final(out)@ == old(out)@ + signed_decimal(n as int),
{
    if n < 0 {
        out.append("-");
        proof {
            reveal_strlit("-");
        }
        let magnitude: u64 = if n == i64::MIN {
            0x8000_0000_0000_0000
        } else {
            (-n) as u64
        };
        append_decimal(out, magnitude);
        assert(final(out)@ =~= old(out)@ + signed_decimal(n as int));
    } else {
        append_decimal(out, n as u64);
    }
}

/// How many units of 16 bits a character takes in UTF-16: two for a
/// character beyond the basic plane, one for any other.
pub open spec fn utf16_width(c: char) -> nat {
    if c as u32 >= 0x10000 {
        2
    } else {
        1
    }
}

/// The length of a text in UTF-16, in units of 16 bits.
pub open spec fn utf16_len(s: Seq<char>) -> nat
    decreases s.len(),
{
    if s.len() == 0 {
        0
    } else {
        utf16_len(s.drop_last()) + utf16_width(s.last())
    }
}

/// A length as 64 bits hold it: lengths beyond that read as the largest
/// number of 64 bits.
pub open spec fn clip(n: nat) -> u64 {
    if n <= u64::MAX {
        n as u64
    } else {
        u64::MAX
    }
}

/// The length of a text in UTF-16, in units of 16 bits.
pub fn utf16_units(s: &str) -> (units: u64)
    ensures
        units == clip(utf16_len(s@)),
{
    let chars = chars_of(s);
    let mut units: u128 = 0;
    let mut i: usize = 0;
    while i < chars.len()
        invariant
            i <= chars.len(),
            units == utf16_len(chars@.take(i as int)),
            units <= 2 * i,
        decreases chars.len() - i,
    {
        assert(chars@.take(i + 1).drop_last() =~= chars@.take(i as int));
        if chars[i] as u32 >= 0x10000 {
            units += 2;
        } else {
            units += 1;
        }
        i += 1;
    }
    assert(chars@.take(i as int) =~= chars@);
    if units > u64::MAX as u128 {
        u64::MAX
    } else {
        units as u64
    }
}

} // verus!
