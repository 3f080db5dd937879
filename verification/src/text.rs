//! Text: characters, whitespace, words and numerals.
//!
//! Text is read as a sequence of Unicode characters.
use vstd::prelude::*;
use vstd::string::*;

verus! {

/// Calls `String::push`: appends one character.
pub assume_specification[ String::push ](s: &mut String, c: char)
    ensures
        final(s)@ == old(s)@.push(c),
;

/// Compares two string slices with `==`: equal when they hold the same
/// characters.
#[verifier::external_body]
pub(crate) fn text_eq(a: &str, b: &str) -> (r: bool)
    ensures
        r == (a@ == b@),
{
    a == b
}

/// The characters with the Unicode property `White_Space`.
pub open spec fn is_space(c: char) -> bool {
    let n = c as u32;
    ||| 0x09 <= n <= 0x0D
    ||| n == 0x20
    ||| n == 0x85
    ||| n == 0xA0
    ||| n == 0x1680
    ||| 0x2000 <= n <= 0x200A
    ||| n == 0x2028
    ||| n == 0x2029
    ||| n == 0x202F
    ||| n == 0x205F
    ||| n == 0x3000
}

/// Whether a character has the Unicode property `White_Space`.
pub fn is_whitespace(c: char) -> (r: bool)
    ensures
        r == is_space(c),
{
    let n: u32 = c as u32;
    (0x09 <= n && n <= 0x0D) || n == 0x20 || n == 0x85 || n == 0xA0 || n == 0x1680 || (0x2000 <= n
        && n <= 0x200A) || n == 0x2028 || n == 0x2029 || n == 0x202F || n == 0x205F || n == 0x3000
}

/// A text without its leading whitespace.
pub open spec fn trimmed_start(s: Seq<char>) -> Seq<char>
    decreases s.len(),
{
    if s.len() > 0 && is_space(s[0]) {
        trimmed_start(s.skip(1))
    } else {
        s
    }
}

/// A text without its trailing whitespace.
pub open spec fn trimmed_end(s: Seq<char>) -> Seq<char>
    decreases s.len(),
{
    if s.len() > 0 && is_space(s.last()) {
        trimmed_end(s.drop_last())
    } else {
        s
    }
}

/// A text without its leading and trailing whitespace.
pub open spec fn trimmed(s: Seq<char>) -> Seq<char> {
    trimmed_start(trimmed_end(s))
}

/// The number of words in a text: the longest runs of characters that are not
/// whitespace.
pub open spec fn word_count(s: Seq<char>) -> nat
    decreases s.len(),
{
    if s.len() == 0 {
        0
    } else {
        word_count(s.drop_last()) + if !is_space(s.last()) && (s.len() == 1 || is_space(
            s[s.len() - 2],
        )) {
            1nat
        } else {
            0nat
        }
    }
}

/// The characters of a text, in order.
pub fn chars_of(s: &str) -> (r: Vec<char>)
    ensures
        r@ == s@,
{
    let mut out: Vec<char> = Vec::new();
    for c in it: s.chars()
        invariant
            it.seq() == s@,
            out@ == s@.take(it.index() as int),
    {
        out.push(c);
    }
    proof {
        assert(s@.take(s@.len() as int) =~= s@);
    }
    out
}

/// The text made of the characters from `from` up to `to`.
pub fn text_from(chars: &Vec<char>, from: usize, to: usize) -> (r: String)
    requires
        from <= to <= chars@.len(),
    ensures
        r@ == chars@.subrange(from as int, to as int),
{
    let mut out = String::new();
    let mut i: usize = from;
    while i < to
        invariant
            from <= i <= to <= chars@.len(),
            out@ == chars@.subrange(from as int, i as int),
        decreases to - i,
    {
        out.push(chars[i]);
        i = i + 1;
        proof {
            assert(chars@.subrange(from as int, i as int) =~= chars@.subrange(
                from as int,
                i - 1,
            ).push(chars@[i - 1]));
        }
    }
    out
}

/// Where the text between `from` and `to` starts once leading whitespace is
/// passed over.
pub fn skip_leading(chars: &Vec<char>, from: usize, to: usize) -> (r: usize)
    requires
        from <= to <= chars@.len(),
    ensures
        from <= r <= to,
        trimmed_start(chars@.subrange(from as int, to as int)) == chars@.subrange(
            r as int,
            to as int,
        ),
{
    let mut i: usize = from;
    while i < to && is_whitespace(chars[i])
        invariant
            from <= i <= to <= chars@.len(),
            trimmed_start(chars@.subrange(from as int, to as int)) == trimmed_start(
                chars@.subrange(i as int, to as int),
            ),
        decreases to - i,
    {
        proof {
            assert(chars@.subrange(i as int, to as int).skip(1) =~= chars@.subrange(
                i + 1,
                to as int,
            ));
        }
        i = i + 1;
    }
    i
}

/// Where the text between `from` and `to` ends once trailing whitespace is left
/// off.
pub fn skip_trailing(chars: &Vec<char>, from: usize, to: usize) -> (r: usize)
    requires
        from <= to <= chars@.len(),
    ensures
        from <= r <= to,
        trimmed_end(chars@.subrange(from as int, to as int)) == chars@.subrange(
            from as int,
            r as int,
        ),
{
    let mut i: usize = to;
    while from < i && is_whitespace(chars[i - 1])
        invariant
            from <= i <= to <= chars@.len(),
            trimmed_end(chars@.subrange(from as int, to as int)) == trimmed_end(
                chars@.subrange(from as int, i as int),
            ),
        decreases i - from,
    {
        proof {
            assert(chars@.subrange(from as int, i as int).drop_last() =~= chars@.subrange(
                from as int,
                i - 1,
            ));
        }
        i = i - 1;
    }
    i
}

/// The text between `from` and `to` without surrounding whitespace.
pub fn trim_range(chars: &Vec<char>, from: usize, to: usize) -> (r: String)
    requires
        from <= to <= chars@.len(),
    ensures
        r@ == trimmed(chars@.subrange(from as int, to as int)),
{
    let end: usize = skip_trailing(chars, from, to);
    let start: usize = skip_leading(chars, from, end);
    text_from(chars, start, end)
}

/// A text without surrounding whitespace.
pub fn trim(s: &str) -> (r: String)
    ensures
        r@ == trimmed(s@),
{
    let chars = chars_of(s);
    let n: usize = chars.len();
    proof {
        assert(chars@.subrange(0, n as int) =~= s@);
    }
    trim_range(&chars, 0, n)
}

/// Counts the words of a text.
pub fn count_words(s: &str) -> (r: usize)
    ensures
        r == word_count(s@),
{
    let chars = chars_of(s);
    let mut count: usize = 0;
    let mut i: usize = 0;
    while i < chars.len()
        invariant
            i <= chars@.len(),
            count <= i,
            count == word_count(chars@.take(i as int)),
        decreases chars@.len() - i,
    {
        if !is_whitespace(chars[i]) && (i == 0 || is_whitespace(chars[i - 1])) {
            count = count + 1;
        }
        i = i + 1;
        proof {
            assert(chars@.take(i as int).drop_last() =~= chars@.take(i - 1));
        }
    }
    proof {
        assert(chars@.take(chars@.len() as int) =~= s@);
    }
    count
}

/// The character of a decimal digit.
pub open spec fn digit(n: nat) -> char {
    seq!['0', '1', '2', '3', '4', '5', '6', '7', '8', '9'][n as int]
}

/// The decimal numeral of a number.
pub open spec fn numeral(n: nat) -> Seq<char>
    decreases n,
{
    if n < 10 {
        seq![digit(n)]
    } else {
        numeral(n / 10).push(digit(n % 10))
    }
}

fn digit_char(n: u64) -> (r: char)
    requires
        n < 10,
    ensures
        r == digit(n as nat),
{
    if n == 0 {
        '0'
    } else if n == 1 {
        '1'
    } else if n == 2 {
        '2'
    } else if n == 3 {
        '3'
    } else if n == 4 {
        '4'
    } else if n == 5 {
        '5'
    } else if n == 6 {
        '6'
    } else if n == 7 {
        '7'
    } else if n == 8 {
        '8'
    } else {
        '9'
    }
}

/// Writes a number in decimal.
pub fn decimal(n: u64) -> (r: String)
    ensures
        r@ == numeral(n as nat),
    decreases n,
{
    let mut out = if n < 10 {
        String::new()
    } else {
        decimal(n / 10)
    };
    out.push(digit_char(n % 10));
    proof {
        assert(out@ =~= numeral(n as nat));
    }
    out
}

/// The character of a hexadecimal digit, in lower case.
pub open spec fn hex_digit(n: nat) -> char {
    seq![
        '0',
        '1',
        '2',
        '3',
        '4',
        '5',
        '6',
        '7',
        '8',
        '9',
        'a',
        'b',
        'c',
        'd',
        'e',
        'f',
    ][n as int]
}

/// The last `width` hexadecimal digits of a number.
pub open spec fn hex_numeral(n: nat, width: nat) -> Seq<char>
    decreases width,
{
    if width == 0 {
        Seq::empty()
    } else {
        hex_numeral(n / 16, (width - 1) as nat).push(hex_digit(n % 16))
    }
}

fn hex_char(n: u128) -> (r: char)
    requires
        n < 16,
    ensures
        r == hex_digit(n as nat),
{
    if n < 10 {
        digit_char(n as u64)
    } else if n == 10 {
        'a'
    } else if n == 11 {
        'b'
    } else if n == 12 {
        'c'
    } else if n == 13 {
        'd'
    } else if n == 14 {
        'e'
    } else {
        'f'
    }
}

/// Writes the last `width` hexadecimal digits of a number.
pub fn hexadecimal(n: u128, width: usize) -> (r: String)
    ensures
        r@ == hex_numeral(n as nat, width as nat),
    decreases width,
{
    if width == 0 {
        return String::new();
    }
    let mut out = hexadecimal(n / 16, width - 1);
    out.push(hex_char(n % 16));
    out
}

/// A numeral has the width that was asked for.
pub proof fn lemma_hex_numeral_width(n: nat, width: nat)
    ensures
        hex_numeral(n, width).len() == width,
    decreases width,
{
    if width > 0 {
        lemma_hex_numeral_width(n / 16, (width - 1) as nat);
    }
}

/// Different digits are different characters.
proof fn lemma_digits_differ(a: nat, b: nat)
    requires
        a < 16,
        b < 16,
        a != b,
    ensures
        hex_digit(a) != hex_digit(b),
{
}

/// No two numbers have the same decimal numeral.
pub proof fn lemma_numerals_differ(a: nat, b: nat)
    requires
        a != b,
    ensures
        numeral(a) != numeral(b),
    decreases a,
{
    assert(numeral(a).last() == digit(a % 10));
    assert(numeral(b).last() == digit(b % 10));
    assert(digit(a % 10) == hex_digit(a % 10));
    assert(digit(b % 10) == hex_digit(b % 10));
    lemma_numeral_is_some(a / 10);
    lemma_numeral_is_some(b / 10);
    if a % 10 != b % 10 {
        lemma_digits_differ(a % 10, b % 10);
    } else if a >= 10 && b >= 10 {
        assert(numeral(a).drop_last() =~= numeral(a / 10));
        assert(numeral(b).drop_last() =~= numeral(b / 10));
        lemma_numerals_differ(a / 10, b / 10);
    } else {
        assert(a < 10 ==> numeral(a).len() == 1);
        assert(b < 10 ==> numeral(b).len() == 1);
        assert(a >= 10 ==> numeral(a).len() > 1);
        assert(b >= 10 ==> numeral(b).len() > 1);
    }
}

proof fn lemma_numeral_is_some(n: nat)
    ensures
        numeral(n).len() > 0,
    decreases n,
{
    if n >= 10 {
        lemma_numeral_is_some(n / 10);
    }
}

/// How many numbers have a hexadecimal numeral of a width.
pub open spec fn hex_range(width: nat) -> nat
    decreases width,
{
    if width == 0 {
        1
    } else {
        16 * hex_range((width - 1) as nat)
    }
}

/// No two numbers that fit in a width have the same numeral of that width.
pub proof fn lemma_hex_numerals_differ(a: nat, b: nat, width: nat)
    requires
        a < hex_range(width),
        b < hex_range(width),
        a != b,
    ensures
        hex_numeral(a, width) != hex_numeral(b, width),
    decreases width,
{
    if width > 0 {
        let shorter = (width - 1) as nat;
        assert(hex_numeral(a, width).last() == hex_digit(a % 16));
        assert(hex_numeral(b, width).last() == hex_digit(b % 16));
        assert(hex_numeral(a, width).drop_last() =~= hex_numeral(a / 16, shorter));
        assert(hex_numeral(b, width).drop_last() =~= hex_numeral(b / 16, shorter));
        if a % 16 != b % 16 {
            lemma_digits_differ(a % 16, b % 16);
        } else {
            lemma_hex_numerals_differ(a / 16, b / 16, shorter);
        }
    }
}

/// The text that `String::from_utf8_lossy` makes of bytes, with a replacement
/// character in place of what is not UTF-8.
pub uninterp spec fn lossy_text(bytes: Seq<u8>) -> Seq<char>;

/// Calls `String::from_utf8_lossy`: the result is [`lossy_text`] of the bytes.
/// Bytes that are UTF-8 give the text that they encode.
#[verifier::external_body]
pub(crate) fn text_from_bytes(bytes: &[u8]) -> (r: String)
    ensures
        r@ == lossy_text(bytes@),
        vstd::utf8::valid_utf8(bytes@) ==> vstd::utf8::encode_utf8(r@) == bytes@,
{
    String::from_utf8_lossy(bytes).into_owned()
}

/// The text behind a prefix, where a text begins with it.
pub fn strip_prefix(s: &str, prefix: &str) -> (r: Option<String>)
    ensures
        match r {
            Some(rest) => prefix@.is_prefix_of(s@) && rest@ == s@.skip(prefix@.len() as int),
            None => !prefix@.is_prefix_of(s@),
        },
{
    let chars = chars_of(s);
    let wanted = chars_of(prefix);
    if chars.len() < wanted.len() {
        return None;
    }
    let mut i: usize = 0;
    while i < wanted.len()
        invariant
            chars@ == s@,
            wanted@ == prefix@,
            i <= wanted@.len() <= chars@.len(),
            forall|j: int| 0 <= j < i ==> chars@[j] == wanted@[j],
        decreases wanted@.len() - i,
    {
        if chars[i] != wanted[i] {
            return None;
        }
        i = i + 1;
    }
    let n: usize = chars.len();
    proof {
        assert(prefix@ =~= s@.subrange(0, prefix@.len() as int));
        assert(s@.subrange(i as int, n as int) =~= s@.skip(i as int));
    }
    Some(text_from(&chars, i, n))
}

/// Where a character first occurs in a text, from position `from` on.
pub open spec fn first_at(s: Seq<char>, c: char, from: int) -> Option<int>
    decreases s.len() - from,
{
    if from >= s.len() {
        None
    } else if s[from] == c {
        Some(from)
    } else {
        first_at(s, c, from + 1)
    }
}

/// Finds the first occurrence of a character.
pub fn find_char(chars: &Vec<char>, c: char) -> (r: Option<usize>)
    ensures
        match r {
            Some(i) => first_at(chars@, c, 0) == Some(i as int) && i < chars@.len(),
            None => first_at(chars@, c, 0) is None,
        },
{
    let mut i: usize = 0;
    while i < chars.len()
        invariant
            i <= chars@.len(),
            first_at(chars@, c, 0) == first_at(chars@, c, i as int),
        decreases chars@.len() - i,
    {
        if chars[i] == c {
            return Some(i);
        }
        i = i + 1;
    }
    None
}

} // verus!
