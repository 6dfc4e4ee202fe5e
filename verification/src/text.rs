//! The user's selection input: a line of text that should hold the number
//! of a script, possibly surrounded by whitespace.

use vstd::prelude::*;

verus! {

/// The whitespace that selection input may carry around the number: space,
/// tab, carriage return and line feed.
pub open spec fn is_space_char(c: char) -> bool {
    c == ' ' || c == '\t' || c == '\r' || c == '\n'
}

/// A decimal digit.
pub open spec fn is_digit_char(c: char) -> bool {
    48 <= c as u32 <= 57
}

/// The input with its leading whitespace dropped.
pub open spec fn trim_front(s: Seq<char>) -> Seq<char>
    decreases s.len(),
{
    if s.len() > 0 && is_space_char(s[0]) {
        trim_front(s.subrange(1, s.len() as int))
    } else {
        s
    }
}

/// The input with its trailing whitespace dropped.
pub open spec fn trim_back(s: Seq<char>) -> Seq<char>
    decreases s.len(),
{
    if s.len() > 0 && is_space_char(s.last()) {
        trim_back(s.drop_last())
    } else {
        s
    }
}

/// The input with whitespace dropped on both sides.
pub open spec fn trimmed(s: Seq<char>) -> Seq<char> {
    trim_back(trim_front(s))
}

/// Every character is a digit.
pub open spec fn all_digits(s: Seq<char>) -> bool {
    forall|i: int| 0 <= i < s.len() ==> is_digit_char(s[i])
}

/// The number that a digit string writes in decimal.
pub open spec fn digits_value(s: Seq<char>) -> int
    decreases s.len(),
{
    if s.len() == 0 {
        0
    } else {
        10 * digits_value(s.drop_last()) + (s.last() as u32 - 48)
    }
}

/// What a line of selection input means: `Some(n)` when, after trimming
/// whitespace, the line is one or more decimal digits whose value fits in
/// the machine's word, and `None` otherwise.
pub open spec fn spec_parse_index(s: Seq<char>) -> Option<u64> {
    let t = trimmed(s);
    if t.len() > 0 && all_digits(t) && digits_value(t) <= u64::MAX {
        Some(digits_value(t) as u64)
    } else {
        None
    }
}

/// When the first `a` characters are whitespace and the next one is not,
/// trimming the front keeps exactly the suffix from `a` on.
proof fn lemma_trim_front_range(s: Seq<char>, a: int)
    requires
        0 <= a <= s.len(),
        forall|j: int| 0 <= j < a ==> is_space_char(s[j]),
        a < s.len() ==> !is_space_char(s[a]),
    ensures
        trim_front(s) == s.subrange(a, s.len() as int),
    decreases a,
{
    if a == 0 {
        assert(s.subrange(0, s.len() as int) =~= s);
    } else {
        let rest = s.subrange(1, s.len() as int);
        lemma_trim_front_range(rest, a - 1);
        assert(rest.subrange(a - 1, rest.len() as int) =~= s.subrange(a, s.len() as int));
    }
}

/// When everything from `b` on is whitespace and the character before `b`
/// is not, trimming the back keeps exactly the prefix up to `b`.
proof fn lemma_trim_back_range(s: Seq<char>, b: int)
    requires
        0 <= b <= s.len(),
        forall|j: int| b <= j < s.len() ==> is_space_char(s[j]),
        b > 0 ==> !is_space_char(s[b - 1]),
    ensures
        trim_back(s) == s.subrange(0, b),
    decreases s.len() - b,
{
    if b == s.len() {
        assert(s.subrange(0, b) =~= s);
    } else {
        lemma_trim_back_range(s.drop_last(), b);
        assert(s.drop_last().subrange(0, b) =~= s.subrange(0, b));
    }
}

/// The value a digit string writes never shrinks when more digits follow:
/// each prefix writes at most the whole string's value.
proof fn lemma_digits_prefix_le(s: Seq<char>, k: int)
    requires
        all_digits(s),
        0 <= k <= s.len(),
    ensures
        0 <= digits_value(s.subrange(0, k)),
        digits_value(s.subrange(0, k)) <= digits_value(s),
    decreases s.len() - k,
{
    if k == s.len() {
        assert(s.subrange(0, k) =~= s);
        lemma_digits_nonneg(s.subrange(0, k));
    } else {
        lemma_digits_prefix_le(s, k + 1);
        let shorter = s.subrange(0, k);
        let longer = s.subrange(0, k + 1);
        assert(longer.drop_last() =~= shorter);
        lemma_digits_nonneg(shorter);
        assert(digits_value(longer) == 10 * digits_value(shorter) + (s[k] as u32 - 48));
    }
}

/// A digit string never writes a negative number.
proof fn lemma_digits_nonneg(s: Seq<char>)
    requires
        all_digits(s),
    ensures
        digits_value(s) >= 0,
    decreases s.len(),
{
    if s.len() > 0 {
        lemma_digits_nonneg(s.drop_last());
    }
}

/// Whether a character is whitespace around selection input.
fn char_is_space(c: char) -> (r: bool)
    ensures
        r == is_space_char(c),
{
    c == ' ' || c == '\t' || c == '\r' || c == '\n'
}

/// Reads a line of selection input as the number of a script. Whitespace
/// around the number is ignored; anything that is not one or more decimal
/// digits, or a value too large for the machine's word, reads as nothing.
pub fn parse_index(s: &str) -> (r: Option<u64>)
    ensures
        r == spec_parse_index(s@),
{
    let n = s.unicode_len();
    let mut a: usize = 0;
    while a < n && char_is_space(s.get_char(a))
        invariant
            0 <= a <= n,
            n == s@.len(),
            forall|j: int| 0 <= j < a ==> is_space_char(s@[j]),
        decreases n - a,
    {
        a = a + 1;
    }
    let mut b: usize = n;
    while b > a && char_is_space(s.get_char(b - 1))
        invariant
            a <= b <= n,
            n == s@.len(),
            forall|j: int| b <= j < n ==> is_space_char(s@[j]),
        decreases b,
    {
        b = b - 1;
    }
    proof {
        lemma_trim_front_range(s@, a as int);
        let front = s@.subrange(a as int, n as int);
        lemma_trim_back_range(front, b - a);
        assert(front.subrange(0, b - a) =~= s@.subrange(a as int, b as int));
    }
    let ghost t = trimmed(s@);
    assert(t == s@.subrange(a as int, b as int));
    if a == b {
        assert(t.len() == 0);
        return None;
    }
    let mut acc: u64 = 0;
    let mut i: usize = a;
    while i < b
        invariant
            a <= i <= b <= n,
            n == s@.len(),
            a < b,
            t == trimmed(s@),
            t == s@.subrange(a as int, b as int),
            forall|j: int| a <= j < i ==> is_digit_char(s@[j]),
            acc == digits_value(s@.subrange(a as int, i as int)),
        decreases b - i,
    {
        let c = s.get_char(i);
        let code = c as u32;
        if !(48 <= code && code <= 57) {
            proof {
                assert(t[i - a] == s@[i as int]);
                assert(!all_digits(t)) by {
                    assert(0 <= i - a < t.len() && !is_digit_char(t[i - a]));
                }
            }
            return None;
        }
        let d: u64 = (code - 48) as u64;
        let ghost prefix = s@.subrange(a as int, i as int);
        let ghost next = s@.subrange(a as int, i + 1 as int);
        assert(next.drop_last() =~= prefix);
        assert(next.last() == s@[i as int]);
        let stretched = match acc.checked_mul(10) {
            Some(v) => v.checked_add(d),
            None => None,
        };
        match stretched {
            Some(v) => {
                acc = v;
            },
            None => {
                proof {
                    assert(digits_value(next) > u64::MAX);
                    if all_digits(t) {
                        assert forall|j: int| a <= j < b implies is_digit_char(s@[j]) by {
                            assert(t[j - a] == s@[j]);
                        }
                        lemma_digits_prefix_le_general(s@, a as int, i + 1, b as int);
                    }
                }
                return None;
            },
        }
        i = i + 1;
    }
    assert(t =~= s@.subrange(a as int, b as int));
    assert(all_digits(t)) by {
        assert(forall|j: int| 0 <= j < t.len() ==> t[j] == s@[a + j]);
    }
    assert(acc == digits_value(t));
    Some(acc)
}

/// Like `lemma_digits_prefix_le`, but inside a window of a longer string:
/// the value written by the digits from `a` to `k` is at most the value
/// written by the digits from `a` to `b`.
proof fn lemma_digits_prefix_le_general(s: Seq<char>, a: int, k: int, b: int)
    requires
        0 <= a <= k <= b <= s.len(),
        forall|j: int| a <= j < b ==> is_digit_char(s[j]),
    ensures
        digits_value(s.subrange(a, k)) <= digits_value(s.subrange(a, b)),
    decreases b - k,
{
    let whole = s.subrange(a, b);
    assert(all_digits(whole));
    lemma_digits_prefix_le(whole, k - a);
    assert(whole.subrange(0, k - a) =~= s.subrange(a, k));
}

} // verus!
