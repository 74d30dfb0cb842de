//! Text building blocks: decimal numerals, quoted strings and
//! space-separated words.
use vstd::prelude::*;
use vstd::string::*;

verus! {

/// Comparing two string slices with `eq` compares their characters.
pub assume_specification[ <str as PartialEq>::eq ](a: &str, b: &str) -> (r: bool)
    ensures
        r == (a@ == b@),
;

/// The character that writes the digit `d`.
pub open spec fn digit_char(d: int) -> char {
    if d == 0 {
        '0'
    } else if d == 1 {
        '1'
    } else if d == 2 {
        '2'
    } else if d == 3 {
        '3'
    } else if d == 4 {
        '4'
    } else if d == 5 {
        '5'
    } else if d == 6 {
        '6'
    } else if d == 7 {
        '7'
    } else if d == 8 {
        '8'
    } else {
        '9'
    }
}

/// The decimal numeral of a natural number, without leading zeros.
pub open spec fn decimal_nat(n: nat) -> Seq<char>
    decreases n,
{
    if n < 10 {
        seq![digit_char(n as int)]
    } else {
        decimal_nat(n / 10).push(digit_char((n % 10) as int))
    }
}

/// The decimal numeral of an integer: a minus sign in front of negative
/// values, no sign otherwise.
pub open spec fn decimal(i: int) -> Seq<char> {
    if i < 0 {
        seq!['-'] + decimal_nat((-i) as nat)
    } else {
        decimal_nat(i as nat)
    }
}

/// What `{:?}` prints for a string: the string in double quotes with its
/// special characters escaped.
pub uninterp spec fn quoted(s: Seq<char>) -> Seq<char>;

/// Calls `format!("{:?}", s)`, the `Debug` rendering of `str` in std. The
/// result is a function of the characters of `s` alone; nothing more is
/// claimed of it.
#[verifier::external_body]
pub(crate) fn quote(s: &str) -> (r: String)
    ensures
        r@ == quoted(s@),
{
    format!("{:?}", s)
}

fn digit_str(d: u64) -> (r: &'static str)
    requires
        d < 10,
    ensures
        r@ == seq![digit_char(d as int)],
{
    proof {
        reveal_strlit("0");
        reveal_strlit("1");
        reveal_strlit("2");
        reveal_strlit("3");
        reveal_strlit("4");
        reveal_strlit("5");
        reveal_strlit("6");
        reveal_strlit("7");
        reveal_strlit("8");
        reveal_strlit("9");
    }
    let r = if d == 0 {
        "0"
    } else if d == 1 {
        "1"
    } else if d == 2 {
        "2"
    } else if d == 3 {
        "3"
    } else if d == 4 {
        "4"
    } else if d == 5 {
        "5"
    } else if d == 6 {
        "6"
    } else if d == 7 {
        "7"
    } else if d == 8 {
        "8"
    } else {
        "9"
    };
    assert(r@ =~= seq![digit_char(d as int)]);
    r
}

/// Writes a natural number in decimal.
pub fn nat_to_string(n: u64) -> (r: String)
    ensures
        r@ == decimal_nat(n as nat),
    decreases n,
{
    if n < 10 {
        digit_str(n).to_string()
    } else {
        let mut s = nat_to_string(n / 10);
        s.append(digit_str(n % 10));
        assert(s@ =~= decimal_nat(n as nat));
        s
    }
}

/// Writes an integer in decimal.
pub fn int_to_string(i: i64) -> (r: String)
    ensures
        r@ == decimal(i as int),
{
    if i < 0 {
        let magnitude: u64 = if i == i64::MIN {
            9223372036854775808u64
        } else {
            (-i) as u64
        };
        proof {
            reveal_strlit("-");
        }
        let mut s = "-".to_string();
        s.append(nat_to_string(magnitude).as_str());
        assert(s@ =~= decimal(i as int));
        s
    } else {
        nat_to_string(i as u64)
    }
}

/// Two words with a space between them.
pub open spec fn words2(a: Seq<char>, b: Seq<char>) -> Seq<char> {
    a + seq![' '] + b
}

/// Three words with single spaces between them.
pub open spec fn words3(a: Seq<char>, b: Seq<char>, c: Seq<char>) -> Seq<char> {
    words2(a, b) + seq![' '] + c
}

/// Four words with single spaces between them.
pub open spec fn words4(a: Seq<char>, b: Seq<char>, c: Seq<char>, d: Seq<char>) -> Seq<char> {
    words3(a, b, c) + seq![' '] + d
}

/// Five words with single spaces between them.
pub open spec fn words5(
    a: Seq<char>,
    b: Seq<char>,
    c: Seq<char>,
    d: Seq<char>,
    e: Seq<char>,
) -> Seq<char> {
    words4(a, b, c, d) + seq![' '] + e
}

/// Appends a space and `word` to `line`.
pub fn push_word(line: &mut String, word: &str)
    ensures
        final(line)@ == old(line)@ + seq![' '] + word@,
{
    proof {
        reveal_strlit(" ");
    }
    line.append(" ");
    line.append(word);
    assert(line@ =~= old(line)@ + seq![' '] + word@);
}

/// The concatenation of two texts as a new string.
pub fn concat2(a: &str, b: &str) -> (r: String)
    ensures
        r@ == a@ + b@,
{
    let mut s = a.to_string();
    s.append(b);
    s
}

/// The digit that a character writes, if it writes one.
pub open spec fn digit_value(c: char) -> Option<int> {
    if c == '0' {
        Some(0)
    } else if c == '1' {
        Some(1)
    } else if c == '2' {
        Some(2)
    } else if c == '3' {
        Some(3)
    } else if c == '4' {
        Some(4)
    } else if c == '5' {
        Some(5)
    } else if c == '6' {
        Some(6)
    } else if c == '7' {
        Some(7)
    } else if c == '8' {
        Some(8)
    } else if c == '9' {
        Some(9)
    } else {
        None
    }
}

/// The number that a text of one or more digits writes in decimal. An
/// empty text, and one that holds anything but digits, writes none.
pub open spec fn digits_value(s: Seq<char>) -> Option<int>
    decreases s.len(),
{
    if s.len() == 0 {
        None
    } else if s.len() == 1 {
        digit_value(s[0])
    } else {
        match (digits_value(s.drop_last()), digit_value(s.last())) {
            (Some(high), Some(low)) => Some(high * 10 + low),
            _ => None,
        }
    }
}

/// The integer that a text writes: digits, with `+` or `-` in front of
/// them or nothing.
pub open spec fn integer_value(s: Seq<char>) -> Option<int> {
    if s.len() > 0 && s[0] == '-' {
        match digits_value(s.skip(1)) {
            Some(v) => Some(-v),
            None => None,
        }
    } else if s.len() > 0 && s[0] == '+' {
        digits_value(s.skip(1))
    } else {
        digits_value(s)
    }
}

/// The natural number that a text writes: digits, with `+` in front of
/// them or nothing.
pub open spec fn natural_value(s: Seq<char>) -> Option<int> {
    if s.len() > 0 && s[0] == '+' {
        digits_value(s.skip(1))
    } else {
        digits_value(s)
    }
}

/// A text of digits writes no less than its beginnings do, and is no text
/// of digits if one of its beginnings is none.
proof fn lemma_digits_prefix(s: Seq<char>, k: int, m: int)
    requires
        1 <= k <= m <= s.len(),
    ensures
        digits_value(s.take(k)) is None ==> digits_value(s.take(m)) is None,
        digits_value(s.take(m)) matches Some(whole) ==> digits_value(s.take(k)) matches Some(part)
            && 0 <= part <= whole,
    decreases m,
{
    if k < m {
        lemma_digits_prefix(s, k, m - 1);
        assert(s.take(m).drop_last() =~= s.take(m - 1));
    } else {
        lemma_digits_nonnegative(s.take(k));
    }
}

/// A text of digits writes no negative number.
proof fn lemma_digits_nonnegative(s: Seq<char>)
    ensures
        digits_value(s) matches Some(v) ==> v >= 0,
    decreases s.len(),
{
    if s.len() > 1 {
        lemma_digits_nonnegative(s.drop_last());
    }
}

/// The digit that a character writes, if it writes one.
fn digit_of(c: char) -> (r: Option<u8>)
    ensures
        match r {
            Some(d) => digit_value(c) == Some(d as int),
            None => digit_value(c) is None,
        },
{
    if c == '0' {
        Some(0)
    } else if c == '1' {
        Some(1)
    } else if c == '2' {
        Some(2)
    } else if c == '3' {
        Some(3)
    } else if c == '4' {
        Some(4)
    } else if c == '5' {
        Some(5)
    } else if c == '6' {
        Some(6)
    } else if c == '7' {
        Some(7)
    } else if c == '8' {
        Some(8)
    } else if c == '9' {
        Some(9)
    } else {
        None
    }
}

/// Reads the digits of `s` from the character at `start` on. Gives the
/// number that they write if it is at most `limit`, and nothing if it is
/// more, or if what stands there is no text of digits.
fn parse_digits(s: &str, start: usize, limit: u64) -> (r: Option<u64>)
    requires
        start <= s@.len(),
        limit <= 0xffff_ffff,
    ensures
        r matches Some(v) ==> v <= limit,
        match digits_value(s@.skip(start as int)) {
            Some(v) => if v <= limit {
                r == Some(v as u64)
            } else {
                r is None
            },
            None => r is None,
        },
{
    let ghost digits = s@.skip(start as int);
    let length = s.unicode_len();
    if start == length {
        return None;
    }
    let mut value: u64 = 0;
    let mut i: usize = start;
    while i < length
        invariant
            start <= i <= length,
            length == s@.len(),
            digits == s@.skip(start as int),
            value <= limit <= 0xffff_ffff,
            i > start ==> digits_value(digits.take(i - start)) == Some(value as int),
            i == start ==> value == 0,
        decreases length - i,
    {
        let c = s.get_char(i);
        proof {
            assert(digits.take(i + 1 - start).drop_last() =~= digits.take(i - start));
            assert(digits.take(i + 1 - start).last() == c);
            lemma_digits_prefix(digits, i + 1 - start, digits.len() as int);
            assert(digits.take(digits.len() as int) =~= digits);
        }
        match digit_of(c) {
            None => {
                return None;
            },
            Some(d) => {
                value = value * 10 + d as u64;
                if value > limit {
                    return None;
                }
            },
        }
        i += 1;
    }
    assert(digits.take(i - start) =~= digits);
    Some(value)
}

/// Reads an integer of 32 bits written in decimal: digits, with `+` or `-`
/// in front of them or nothing. Nothing else is one, and no number out of
/// the range.
pub fn parse_i32(s: &str) -> (r: Option<i32>)
    ensures
        r == match integer_value(s@) {
            Some(v) => if i32::MIN <= v <= i32::MAX {
                Some(v as i32)
            } else {
                None
            },
            None => None,
        },
{
    let length = s.unicode_len();
    if length == 0 {
        return None;
    }
    let first = s.get_char(0);
    if first == '-' {
        proof {
            lemma_digits_nonnegative(s@.skip(1));
        }
        match parse_digits(s, 1, 0x8000_0000) {
            Some(v) => {
                let negative: i64 = -(v as i64);
                Some(negative as i32)
            },
            None => None,
        }
    } else if first == '+' {
        proof {
            lemma_digits_nonnegative(s@.skip(1));
        }
        match parse_digits(s, 1, 0x7fff_ffff) {
            Some(v) => Some(v as i32),
            None => None,
        }
    } else {
        proof {
            assert(s@.skip(0) =~= s@);
            lemma_digits_nonnegative(s@);
        }
        match parse_digits(s, 0, 0x7fff_ffff) {
            Some(v) => Some(v as i32),
            None => None,
        }
    }
}

/// Reads a natural number below 256 written in decimal: digits, with `+`
/// in front of them or nothing. Nothing else is one, and no number out of
/// the range.
pub fn parse_u8(s: &str) -> (r: Option<u8>)
    ensures
        r == match natural_value(s@) {
            Some(v) => if 0 <= v <= u8::MAX {
                Some(v as u8)
            } else {
                None
            },
            None => None,
        },
{
    let length = s.unicode_len();
    if length == 0 {
        return None;
    }
    let first = s.get_char(0);
    let start: usize = if first == '+' {
        1
    } else {
        0
    };
    proof {
        assert(s@.skip(0) =~= s@);
        lemma_digits_nonnegative(s@.skip(start as int));
    }
    match parse_digits(s, start, 0xff) {
        Some(v) => Some(v as u8),
        None => None,
    }
}

/// Whether a character is white space: a character with the Unicode
/// property White_Space.
pub open spec fn is_space(c: char) -> bool {
    let code = c as u32;
    ||| 0x09 <= code <= 0x0d
    ||| code == 0x20
    ||| code == 0x85
    ||| code == 0xa0
    ||| code == 0x1680
    ||| 0x2000 <= code <= 0x200a
    ||| code == 0x2028
    ||| code == 0x2029
    ||| code == 0x202f
    ||| code == 0x205f
    ||| code == 0x3000
}

/// The index of the first character from `i` on that is no white space,
/// or the length of the text.
pub open spec fn skip_spaces(s: Seq<char>, i: int) -> int
    decreases s.len() - i,
{
    if 0 <= i < s.len() && is_space(s[i]) {
        skip_spaces(s, i + 1)
    } else {
        i
    }
}

/// The index of the first character from `i` on that is white space, or
/// the length of the text.
pub open spec fn skip_word(s: Seq<char>, i: int) -> int
    decreases s.len() - i,
{
    if 0 <= i < s.len() && !is_space(s[i]) {
        skip_word(s, i + 1)
    } else {
        i
    }
}

/// The words of a text from the index `i` on.
pub open spec fn words_from(s: Seq<char>, i: int) -> Seq<Seq<char>>
    decreases s.len() - i,
    when 0 <= i
    via words_from_decreases
{
    let start = skip_spaces(s, i);
    if start >= s.len() {
        Seq::empty()
    } else {
        seq![s.subrange(start, skip_word(s, start))] + words_from(s, skip_word(s, start))
    }
}

#[via_fn]
proof fn words_from_decreases(s: Seq<char>, i: int) {
    let start = skip_spaces(s, i);
    lemma_skip_spaces(s, i);
    if start < s.len() {
        lemma_skip_word(s, start);
    }
}

/// The words of a text: its longest runs of characters that are no white
/// space, in their order.
pub open spec fn words(s: Seq<char>) -> Seq<Seq<char>> {
    words_from(s, 0)
}

proof fn lemma_skip_spaces(s: Seq<char>, i: int)
    requires
        0 <= i,
    ensures
        i <= skip_spaces(s, i),
        i <= s.len() ==> skip_spaces(s, i) <= s.len(),
        skip_spaces(s, i) < s.len() ==> !is_space(s[skip_spaces(s, i)]),
    decreases s.len() - i,
{
    if i < s.len() && is_space(s[i]) {
        lemma_skip_spaces(s, i + 1);
    }
}

proof fn lemma_skip_word(s: Seq<char>, i: int)
    requires
        0 <= i <= s.len(),
    ensures
        i <= skip_word(s, i) <= s.len(),
        i < s.len() && !is_space(s[i]) ==> i < skip_word(s, i),
    decreases s.len() - i,
{
    if i < s.len() && !is_space(s[i]) {
        lemma_skip_word(s, i + 1);
    }
}

/// Tells whether a character is white space.
fn space(c: char) -> (r: bool)
    ensures
        r == is_space(c),
{
    let code = c as u32;
    (0x09 <= code && code <= 0x0d) || code == 0x20 || code == 0x85 || code == 0xa0 || code
        == 0x1680 || (0x2000 <= code && code <= 0x200a) || code == 0x2028 || code == 0x2029
        || code == 0x202f || code == 0x205f || code == 0x3000
}

/// The view of each string of a list.
pub open spec fn texts(list: Seq<String>) -> Seq<Seq<char>> {
    list.map_values(|word: String| word@)
}

/// Splits a text into its words.
pub fn split_words(s: &str) -> (r: Vec<String>)
    ensures
        texts(r@) == words(s@),
{
    let length = s.unicode_len();
    let mut found: Vec<String> = Vec::new();
    let mut i: usize = 0;
    assert(texts(found@) =~= Seq::empty());
    loop
        invariant
            i <= length,
            length == s@.len(),
            words(s@) == texts(found@) + words_from(s@, i as int),
        decreases length - i,
    {
        // pass over the white space
        let mut start = i;
        while start < length && space(s.get_char(start))
            invariant
                i <= start <= length,
                length == s@.len(),
                skip_spaces(s@, start as int) == skip_spaces(s@, i as int),
            decreases length - start,
        {
            start += 1;
        }
        if start >= length {
            assert(texts(found@) + Seq::<Seq<char>>::empty() =~= texts(found@));
            return found;
        }
        // pass over the word
        let mut end = start + 1;
        proof {
            lemma_skip_word(s@, start as int);
        }
        while end < length && !space(s.get_char(end))
            invariant
                start < end <= length,
                length == s@.len(),
                skip_word(s@, end as int) == skip_word(s@, start as int),
            decreases length - end,
        {
            end += 1;
        }
        let ghost before = texts(found@);
        found.push(s.substring_char(start, end).to_string());
        assert(texts(found@) =~= before.push(s@.subrange(start as int, end as int)));
        assert(before + (seq![s@.subrange(start as int, end as int)] + words_from(s@, end as int))
            =~= texts(found@) + words_from(s@, end as int));
        i = end;
    }
}

} // verus!
