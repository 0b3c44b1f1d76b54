//! String helpers over the character view of `str`: comparison, trimming,
//! searching and decimal numbers.

use vstd::prelude::*;
use vstd::string::*;

verus! {

/// Unicode's `White_Space` property: the characters that trimming removes.
pub open spec fn is_space(c: char) -> bool {
    let n = c as u32;
    ||| 0x09 <= n <= 0x0D
    ||| n == 0x20
    ||| n == 0x85
    ||| n == 0xA0
    ||| n == 0x1680
    ||| 0x2000 <= n <= 0x200A
    ||| n == 0x2028
    ||| n == 0x2029
    ||| n == 0x202F
    ||| n == 0x205F
    ||| n == 0x3000
}

/// The first index at or after `i` that holds no white space, or the length.
pub open spec fn skip_spaces(s: Seq<char>, i: int) -> int
    decreases s.len() - i,
{
    if 0 <= i < s.len() && is_space(s[i]) {
        skip_spaces(s, i + 1)
    } else {
        i
    }
}

/// The end of the text once trailing white space is cut, never before `from`.
pub open spec fn cut_spaces(s: Seq<char>, from: int, j: int) -> int
    decreases j,
{
    if 0 <= from < j <= s.len() && is_space(s[j - 1]) {
        cut_spaces(s, from, j - 1)
    } else {
        j
    }
}

/// `s` without leading and trailing white space.
pub open spec fn trimmed(s: Seq<char>) -> Seq<char> {
    let a = skip_spaces(s, 0);
    s.subrange(a, cut_spaces(s, a, s.len() as int))
}

/// The first index at or after `i` that holds `c`, or the length.
pub open spec fn index_of(s: Seq<char>, c: char, i: int) -> int
    decreases s.len() - i,
{
    if 0 <= i < s.len() && s[i] != c {
        index_of(s, c, i + 1)
    } else {
        i
    }
}

/// Whether `c` is an ASCII digit.
pub open spec fn is_digit(c: char) -> bool {
    '0' <= c <= '9'
}

/// The number that an ASCII digit writes.
pub open spec fn digit_value(c: char) -> nat {
    (c as u32 - '0' as u32) as nat
}

/// The first index at or after `i` that holds no ASCII digit, or the length.
pub open spec fn skip_digits(s: Seq<char>, i: int) -> int
    decreases s.len() - i,
{
    if 0 <= i < s.len() && is_digit(s[i]) {
        skip_digits(s, i + 1)
    } else {
        i
    }
}

/// Whether `s` is a non-empty run of ASCII digits.
pub open spec fn is_number(s: Seq<char>) -> bool {
    s.len() > 0 && forall|i: int| 0 <= i < s.len() ==> is_digit(#[trigger] s[i])
}

/// The number that a run of ASCII digits writes in base ten.
pub open spec fn decimal_value(s: Seq<char>) -> nat
    decreases s.len(),
{
    if s.len() == 0 {
        0
    } else {
        10 * decimal_value(s.drop_last()) + digit_value(s.last())
    }
}

/// The search for `c` ends inside the text: at the first `c`, or at the
/// end where there is none.
pub proof fn lemma_index_of_bounds(s: Seq<char>, c: char, i: int)
    requires
        0 <= i <= s.len(),
    ensures
        i <= index_of(s, c, i) <= s.len(),
        index_of(s, c, i) < s.len() ==> s[index_of(s, c, i)] == c,
        forall|k: int| i <= k < index_of(s, c, i) ==> s[k] != c,
    decreases s.len() - i,
{
    if i < s.len() && s[i] != c {
        lemma_index_of_bounds(s, c, i + 1);
    }
}

/// Where no character from `i` on is `c`, the search for `c` ends at the
/// end of the text.
pub proof fn lemma_index_of_none(s: Seq<char>, c: char, i: int)
    requires
        0 <= i <= s.len(),
        forall|k: int| i <= k < s.len() ==> s[k] != c,
    ensures
        index_of(s, c, i) == s.len(),
    decreases s.len() - i,
{
    if i < s.len() {
        lemma_index_of_none(s, c, i + 1);
    }
}

/// The run of digits from `i` holds digits only and ends before the first
/// character that is none.
pub proof fn lemma_skip_digits_bounds(s: Seq<char>, i: int)
    requires
        0 <= i <= s.len(),
    ensures
        i <= skip_digits(s, i) <= s.len(),
        forall|k: int| i <= k < skip_digits(s, i) ==> is_digit(s[k]),
        skip_digits(s, i) < s.len() ==> !is_digit(s[skip_digits(s, i)]),
    decreases s.len() - i,
{
    if i < s.len() && is_digit(s[i]) {
        lemma_skip_digits_bounds(s, i + 1);
    }
}

/// Whether `c` is white space.
pub fn char_is_space(c: char) -> (r: bool)
    ensures
        r == is_space(c),
{
    let n: u32 = c as u32;
    (0x09 <= n && n <= 0x0D) || n == 0x20 || n == 0x85 || n == 0xA0 || n == 0x1680 || (0x2000 <= n
        && n <= 0x200A) || n == 0x2028 || n == 0x2029 || n == 0x202F || n == 0x205F || n == 0x3000
}

/// Whether `c` is an ASCII digit.
pub fn char_is_digit(c: char) -> (r: bool)
    ensures
        r == is_digit(c),
{
    let n: u32 = c as u32;
    0x30 <= n && n <= 0x39
}

/// Whether two strings hold the same characters.
pub fn str_eq(a: &str, b: &str) -> (r: bool)
    ensures
        r == (a@ == b@),
{
    let n: usize = a.unicode_len();
    if n != b.unicode_len() {
        return false;
    }
    let mut i: usize = 0;
    while i < n
        invariant
            n == a@.len(),
            n == b@.len(),
            i <= n,
            forall|k: int| 0 <= k < i ==> a@[k] == b@[k],
        decreases n - i,
    {
        if a.get_char(i) != b.get_char(i) {
            return false;
        }
        i += 1;
    }
    assert(a@ =~= b@);
    true
}

/// Whether `text` is one of the accepted spellings `names`.
pub open spec fn accepts(names: Seq<&str>, text: Seq<char>) -> bool {
    exists|k: int| 0 <= k < names.len() && (#[trigger] names[k])@ == text
}

/// Whether `text` is one of `names`.
pub fn is_one_of(text: &str, names: &[&str]) -> (r: bool)
    ensures
        r == accepts(names@, text@),
{
    let mut i: usize = 0;
    while i < names.len()
        invariant
            i <= names@.len(),
            forall|k: int| 0 <= k < i ==> (#[trigger] names@[k])@ != text@,
        decreases names@.len() - i,
    {
        if str_eq(text, names[i]) {
            return true;
        }
        i += 1;
    }
    false
}

/// The characters of a text that may be missing.
pub open spec fn chars_of(text: Option<String>) -> Option<Seq<char>> {
    match text {
        Some(t) => Some(t@),
        None => None,
    }
}

/// `text` without the white space at its two ends.
pub fn trim(text: &str) -> (r: &str)
    ensures
        r@ == trimmed(text@),
{
    let n: usize = text.unicode_len();
    let mut a: usize = 0;
    while a < n && char_is_space(text.get_char(a))
        invariant
            n == text@.len(),
            a <= n,
            skip_spaces(text@, 0) == skip_spaces(text@, a as int),
        decreases n - a,
    {
        a += 1;
    }
    let mut b: usize = n;
    while a < b && char_is_space(text.get_char(b - 1))
        invariant
            n == text@.len(),
            a <= b <= n,
            cut_spaces(text@, a as int, n as int) == cut_spaces(text@, a as int, b as int),
        decreases b,
    {
        b -= 1;
    }
    text.substring_char(a, b)
}

/// The position of the first `c` at or after `from`; the length of `text`
/// where there is none, and `from` itself where it lies behind the end.
pub fn find_char_from(text: &str, c: char, from: usize) -> (r: usize)
    ensures
        r == index_of(text@, c, from as int),
        from <= r,
        from <= text@.len() ==> r <= text@.len(),
{
    let n: usize = text.unicode_len();
    if from >= n {
        return from;
    }
    let mut i: usize = from;
    while i < n && text.get_char(i) != c
        invariant
            n == text@.len(),
            from <= i <= n,
            index_of(text@, c, from as int) == index_of(text@, c, i as int),
        decreases n - i,
    {
        i += 1;
    }
    i
}

/// The length of the run of ASCII digits that `text` begins with.
pub fn count_digits(text: &str) -> (r: usize)
    ensures
        r == skip_digits(text@, 0),
        r <= text@.len(),
{
    let n: usize = text.unicode_len();
    let mut i: usize = 0;
    while i < n && char_is_digit(text.get_char(i))
        invariant
            n == text@.len(),
            i <= n,
            skip_digits(text@, 0) == skip_digits(text@, i as int),
        decreases n - i,
    {
        i += 1;
    }
    i
}

/// Reads `text` as a decimal number of at most `limit`.
pub fn parse_decimal(text: &str, limit: u64) -> (r: Option<u64>)
    ensures
        (r is Some) <==> (is_number(text@) && decimal_value(text@) <= limit),
        r matches Some(v) ==> v == decimal_value(text@),
{
    let n: usize = text.unicode_len();
    if n == 0 {
        return None;
    }
    let mut value: u64 = 0;
    let mut over: bool = false;
    let mut i: usize = 0;
    while i < n
        invariant
            n == text@.len(),
            i <= n,
            forall|k: int| 0 <= k < i ==> is_digit(#[trigger] text@[k]),
            over ==> decimal_value(text@.take(i as int)) > limit,
            !over ==> value == decimal_value(text@.take(i as int)) && value <= limit,
        decreases n - i,
    {
        let c: char = text.get_char(i);
        if !char_is_digit(c) {
            return None;
        }
        let d: u64 = (c as u32 - 0x30) as u64;
        assert(d == digit_value(c));
        assert(text@.take(i + 1).drop_last() =~= text@.take(i as int));
        assert(text@.take(i + 1).last() == c);
        if !over {
            if value > (u64::MAX - d) / 10 {
                over = true;
            } else {
                value = value * 10 + d;
                if value > limit {
                    over = true;
                }
            }
        }
        i += 1;
    }
    assert(text@.take(n as int) =~= text@);
    if over {
        None
    } else {
        Some(value)
    }
}

/// The character that writes a digit.
pub open spec fn digit_char(d: nat) -> char {
    if d == 0 {
        '0'
    } else if d == 1 {
        '1'
    } else if d == 2 {
        '2'
    } else if d == 3 {
        '3'
    } else if d == 4 {
        '4'
    } else if d == 5 {
        '5'
    } else if d == 6 {
        '6'
    } else if d == 7 {
        '7'
    } else if d == 8 {
        '8'
    } else {
        '9'
    }
}

/// A number written in base ten, without leading zeros.
pub open spec fn decimal_digits(n: nat) -> Seq<char>
    decreases n,
{
    if n < 10 {
        seq![digit_char(n)]
    } else {
        decimal_digits(n / 10).push(digit_char(n % 10))
    }
}

/// The text of one digit.
fn digit_text(d: usize) -> (r: &'static str)
    requires
        d < 10,
    ensures
        r@ == seq![digit_char(d as nat)],
{
    proof {
        reveal_strlit("0");
        reveal_strlit("1");
        reveal_strlit("2");
        reveal_strlit("3");
        reveal_strlit("4");
        reveal_strlit("5");
        reveal_strlit("6");
        reveal_strlit("7");
        reveal_strlit("8");
        reveal_strlit("9");
    }
    let r: &'static str = if d == 0 {
        "0"
    } else if d == 1 {
        "1"
    } else if d == 2 {
        "2"
    } else if d == 3 {
        "3"
    } else if d == 4 {
        "4"
    } else if d == 5 {
        "5"
    } else if d == 6 {
        "6"
    } else if d == 7 {
        "7"
    } else if d == 8 {
        "8"
    } else {
        "9"
    };
    assert(r@ =~= seq![digit_char(d as nat)]);
    r
}

/// Writes `n` in base ten.
pub fn decimal(n: usize) -> (r: String)
    ensures
        r@ == decimal_digits(n as nat),
    decreases n,
{
    if n < 10 {
        String::from_str(digit_text(n))
    } else {
        let mut text: String = decimal(n / 10);
        text.append(digit_text(n % 10));
        assert(text@ =~= decimal_digits(n as nat));
        text
    }
}

} // verus!
