//! Scanning of header text: whitespace, prefixes and separators.

use vstd::prelude::*;
use vstd::string::StrSliceExecFns;
use vstd::string::StringExecFns;

verus! {

/// The characters with the Unicode property `White_Space`.
pub open spec fn spec_is_whitespace(c: char) -> bool {
    let u = c as u32;
    (0x09 <= u <= 0x0D) || u == 0x20 || u == 0x85 || u == 0xA0 || u == 0x1680 || (0x2000 <= u
        <= 0x200A) || u == 0x2028 || u == 0x2029 || u == 0x202F || u == 0x205F || u == 0x3000
}

/// Whether `c` is white space.
pub fn is_whitespace(c: char) -> (b: bool)
    ensures
        b == spec_is_whitespace(c),
{
    let u: u32 = c as u32;
    (0x09 <= u && u <= 0x0D) || u == 0x20 || u == 0x85 || u == 0xA0 || u == 0x1680 || (0x2000 <= u
        && u <= 0x200A) || u == 0x2028 || u == 0x2029 || u == 0x202F || u == 0x205F || u == 0x3000
}

/// `s` without its leading white space.
pub open spec fn spec_trim_start(s: Seq<char>) -> Seq<char>
    decreases s.len(),
{
    if s.len() > 0 && spec_is_whitespace(s[0]) {
        spec_trim_start(s.drop_first())
    } else {
        s
    }
}

/// `s` without its trailing white space.
pub open spec fn spec_trim_end(s: Seq<char>) -> Seq<char>
    decreases s.len(),
{
    if s.len() > 0 && spec_is_whitespace(s.last()) {
        spec_trim_end(s.drop_last())
    } else {
        s
    }
}

/// `s` without leading and trailing white space.
pub open spec fn spec_trim(s: Seq<char>) -> Seq<char> {
    spec_trim_end(spec_trim_start(s))
}

/// The position of the first `c` in `s`, or the length of `s` when `c` does
/// not occur.
pub open spec fn spec_find(s: Seq<char>, c: char) -> int
    decreases s.len(),
{
    if s.len() == 0 || s[0] == c {
        0
    } else {
        1 + spec_find(s.drop_first(), c)
    }
}

/// A position with no `c` before it, and `c` at it unless it is the end, is
/// the one `spec_find` returns.
pub proof fn lemma_find_unique(s: Seq<char>, c: char, at: int)
    requires
        0 <= at <= s.len(),
        forall|k: int| 0 <= k < at ==> s[k] != c,
        at < s.len() ==> s[at] == c,
    ensures
        spec_find(s, c) == at,
    decreases s.len(),
{
    if s.len() == 0 || s[0] == c {
    } else {
        let rest = s.drop_first();
        assert forall|k: int| 0 <= k < at - 1 implies rest[k] != c by {
            assert(rest[k] == s[k + 1]);
        }
        if at < s.len() {
            assert(rest[at - 1] == s[at]);
        }
        lemma_find_unique(rest, c, at - 1);
    }
}

/// The characters of `s`, one by one.
pub fn chars_of(s: &str) -> (chars: Vec<char>)
    ensures
        chars@ == s@,
{
    let mut chars: Vec<char> = Vec::new();
    for c in it: s.chars()
        invariant
            chars@ == s@.take(it.index() as int),
            it.seq() == s@,
    {
        chars.push(c);
    }
    chars
}

/// Trims the stretch `from..to` of `chars`: the bounds of what is left.
pub fn trim_range(chars: &Vec<char>, from: usize, to: usize) -> (bounds: (usize, usize))
    requires
        from <= to <= chars@.len(),
    ensures
        from <= bounds.0 <= bounds.1 <= to,
        chars@.subrange(bounds.0 as int, bounds.1 as int) == spec_trim(
            chars@.subrange(from as int, to as int),
        ),
{
    let mut start: usize = from;
    while start < to && is_whitespace(chars[start])
        invariant
            from <= start <= to <= chars@.len(),
            spec_trim_start(chars@.subrange(from as int, to as int)) == spec_trim_start(
                chars@.subrange(start as int, to as int),
            ),
        decreases to - start,
    {
        proof {
            let here = chars@.subrange(start as int, to as int);
            assert(here[0] == chars@[start as int]);
            assert(here.drop_first() =~= chars@.subrange(start as int + 1, to as int));
        }
        start = start + 1;
    }
    proof {
        let here = chars@.subrange(start as int, to as int);
        if start < to {
            assert(here[0] == chars@[start as int]);
        }
        assert(spec_trim_start(here) == here);
    }
    let mut end: usize = to;
    while start < end && is_whitespace(chars[end - 1])
        invariant
            start <= end <= to <= chars@.len(),
            spec_trim_end(chars@.subrange(start as int, to as int)) == spec_trim_end(
                chars@.subrange(start as int, end as int),
            ),
        decreases end - start,
    {
        proof {
            let here = chars@.subrange(start as int, end as int);
            assert(here.last() == chars@[end as int - 1]);
            assert(here.drop_last() =~= chars@.subrange(start as int, end as int - 1));
        }
        end = end - 1;
    }
    proof {
        let here = chars@.subrange(start as int, end as int);
        if start < end {
            assert(here.last() == chars@[end as int - 1]);
        }
        assert(spec_trim_end(here) == here);
    }
    (start, end)
}

/// Finds the first `c` in the stretch `from..to` of `chars`; `to` when there
/// is none.
pub fn find_in(chars: &Vec<char>, c: char, from: usize, to: usize) -> (at: usize)
    requires
        from <= to <= chars@.len(),
    ensures
        from <= at <= to,
        at - from == spec_find(chars@.subrange(from as int, to as int), c),
{
    let mut at: usize = from;
    while at < to && chars[at] != c
        invariant
            from <= at <= to <= chars@.len(),
            forall|k: int| from <= k < at ==> chars@[k] != c,
        decreases to - at,
    {
        at = at + 1;
    }
    proof {
        let here = chars@.subrange(from as int, to as int);
        assert forall|k: int| 0 <= k < at - from implies here[k] != c by {
            assert(here[k] == chars@[from + k]);
        }
        if at < to {
            assert(here[at - from] == chars@[at as int]);
        }
        lemma_find_unique(here, c, at - from);
    }
    at
}

/// Whether the stretch `from..to` of `chars` spells `word`.
pub fn range_equals(chars: &Vec<char>, from: usize, to: usize, word: &Vec<char>) -> (same: bool)
    requires
        from <= to <= chars@.len(),
    ensures
        same == (chars@.subrange(from as int, to as int) == word@),
{
    if to - from != word.len() {
        return false;
    }
    let mut i: usize = 0;
    while i < word.len()
        invariant
            from <= to <= chars@.len(),
            to - from == word@.len(),
            0 <= i <= word@.len(),
            forall|k: int| 0 <= k < i ==> chars@[from + k] == word@[k],
        decreases word@.len() - i,
    {
        if chars[from + i] != word[i] {
            proof {
                assert(chars@.subrange(from as int, to as int)[i as int] == chars@[from + i]);
            }
            return false;
        }
        i = i + 1;
    }
    proof {
        assert(chars@.subrange(from as int, to as int) =~= word@);
    }
    true
}

/// Whether `chars` begins with `word`.
pub fn starts_with(chars: &Vec<char>, word: &Vec<char>) -> (yes: bool)
    ensures
        yes == word@.is_prefix_of(chars@),
{
    if word.len() > chars.len() {
        return false;
    }
    let same = range_equals(chars, 0, word.len(), word);
    proof {
        if same {
            assert(chars@.subrange(0, word@.len() as int) == word@);
            assert(word@.is_prefix_of(chars@));
        } else if word@.is_prefix_of(chars@) {
            assert(chars@.subrange(0, word@.len() as int) =~= word@);
        }
    }
    same
}

/// Whether two strings hold the same text.
pub fn str_equal(a: &str, b: &str) -> (same: bool)
    ensures
        same == (a@ == b@),
{
    let left = chars_of(a);
    let right = chars_of(b);
    proof {
        assert(left@.subrange(0, left@.len() as int) =~= left@);
    }
    range_equals(&left, 0, left.len(), &right)
}

/// `s` without leading and trailing white space.
pub fn trim(s: &str) -> (trimmed: &str)
    ensures
        trimmed@ == spec_trim(s@),
{
    let chars = chars_of(s);
    let (from, to) = trim_range(&chars, 0, chars.len());
    proof {
        assert(chars@.subrange(0, chars@.len() as int) =~= chars@);
    }
    s.substring_char(from, to)
}

/// The character of a decimal digit.
pub open spec fn spec_digit(d: int) -> char {
    seq!['0', '1', '2', '3', '4', '5', '6', '7', '8', '9'][d]
}

/// The decimal notation of a natural number, without leading zeros.
pub open spec fn spec_decimal_nat(n: nat) -> Seq<char>
    decreases n,
{
    if n < 10 {
        seq![spec_digit(n as int)]
    } else {
        spec_decimal_nat(n / 10).push(spec_digit((n % 10) as int))
    }
}

/// The decimal notation of an integer, with a minus sign if it is negative.
pub open spec fn spec_decimal(n: int) -> Seq<char> {
    if n < 0 {
        seq!['-'] + spec_decimal_nat((-n) as nat)
    } else {
        spec_decimal_nat(n as nat)
    }
}

/// The text of one decimal digit.
fn digit_text(d: u8) -> (text: &'static str)
    requires
        d < 10,
    ensures
        text@ == seq![spec_digit(d as int)],
{
    proof {
        reveal_strlit("0");
        reveal_strlit("1");
        reveal_strlit("2");
        reveal_strlit("3");
        reveal_strlit("4");
        reveal_strlit("5");
        reveal_strlit("6");
        reveal_strlit("7");
        reveal_strlit("8");
        reveal_strlit("9");
    }
    let text = if d == 0 {
        "0"
    } else if d == 1 {
        "1"
    } else if d == 2 {
        "2"
    } else if d == 3 {
        "3"
    } else if d == 4 {
        "4"
    } else if d == 5 {
        "5"
    } else if d == 6 {
        "6"
    } else if d == 7 {
        "7"
    } else if d == 8 {
        "8"
    } else {
        "9"
    };
    assert(text@ =~= seq![spec_digit(d as int)]);
    text
}

/// Writes a natural number in decimal notation.
pub fn decimal_nat(n: u128) -> (text: String)
    ensures
        text@ == spec_decimal_nat(n as nat),
    decreases n,
{
    if n < 10 {
        String::from_str(digit_text(n as u8))
    } else {
        let front = decimal_nat(n / 10);
        let last = digit_text((n % 10) as u8);
        let text = front.concat(last);
        proof {
            assert(text@ =~= spec_decimal_nat((n / 10) as nat).push(spec_digit((n % 10) as int)));
        }
        text
    }
}

/// Writes an integer in decimal notation.
pub fn decimal(n: i128) -> (text: String)
    ensures
        text@ == spec_decimal(n as int),
{
    if n < 0 {
        let magnitude: u128 = ((-(n + 1)) as u128) + 1;
        proof {
            reveal_strlit("-");
            assert("-"@ =~= seq!['-']);
        }
        String::from_str("-").concat(decimal_nat(magnitude).as_str())
    } else {
        decimal_nat(n as u128)
    }
}

} // verus!
