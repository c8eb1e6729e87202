use vstd::prelude::*;
use vstd::string::StrSliceExecFns;
use vstd::string::StringExecFns;

verus! {

/// The character that writes a digit below ten.
pub open spec fn digit_char(d: nat) -> char {
    if d == 0 {
        '0'
    } else if d == 1 {
        '1'
    } else if d == 2 {
        '2'
    } else if d == 3 {
        '3'
    } else if d == 4 {
        '4'
    } else if d == 5 {
        '5'
    } else if d == 6 {
        '6'
    } else if d == 7 {
        '7'
    } else if d == 8 {
        '8'
    } else {
        '9'
    }
}

/// Decimal notation of a natural number: most significant digit first, no
/// leading zero, `0` for zero.
pub open spec fn decimal(n: nat) -> Seq<char>
    decreases n,
{
    if n < 10 {
        seq![digit_char(n)]
    } else {
        decimal(n / 10).push(digit_char(n % 10))
    }
}

/// Decimal notation of an integer: a minus sign before the magnitude of a
/// negative number.
pub open spec fn signed_decimal(n: int) -> Seq<char> {
    if n < 0 {
        seq!['-'] + decimal((-n) as nat)
    } else {
        decimal(n as nat)
    }
}

/// The one-character text of a digit.
fn digit_text(d: u8) -> (s: &'static str)
    requires
        d < 10,
    ensures
        s@ == seq![digit_char(d as nat)],
{
    proof {
        reveal_strlit("0");
        reveal_strlit("1");
        reveal_strlit("2");
        reveal_strlit("3");
        reveal_strlit("4");
        reveal_strlit("5");
        reveal_strlit("6");
        reveal_strlit("7");
        reveal_strlit("8");
        reveal_strlit("9");
    }
    let s = if d == 0 {
        "0"
    } else if d == 1 {
        "1"
    } else if d == 2 {
        "2"
    } else if d == 3 {
        "3"
    } else if d == 4 {
        "4"
    } else if d == 5 {
        "5"
    } else if d == 6 {
        "6"
    } else if d == 7 {
        "7"
    } else if d == 8 {
        "8"
    } else {
        "9"
    };
    assert(s@ =~= seq![digit_char(d as nat)]);
    s
}

/// Writes a number in decimal.
pub fn decimal_string(n: u64) -> (s: String)
    ensures
        s@ == decimal(n as nat),
    decreases n,
{
    if n < 10 {
        String::from_str(digit_text(n as u8))
    } else {
        let mut s = decimal_string(n / 10);
        s.append(digit_text((n % 10) as u8));
        assert(s@ =~= decimal(n as nat));
        s
    }
}

/// Writes a signed number in decimal.
pub fn signed_decimal_string(n: i64) -> (s: String)
    ensures
        s@ == signed_decimal(n as int),
{
    if n < 0 {
        let magnitude: u64 = (-(n + 1)) as u64 + 1;
        let digits = decimal_string(magnitude);
        let mut s = String::from_str("-");
        s.append(digits.as_str());
        proof {
            reveal_strlit("-");
            assert("-"@ =~= seq!['-']);
        }
        s
    } else {
        decimal_string(n as u64)
    }
}

/// Whether a list of ids holds a given id.
pub fn contains_id(ids: &Vec<u8>, id: u8) -> (found: bool)
    ensures
        found == ids@.contains(id),
{
    let mut i: usize = 0;
    while i < ids.len()
        invariant
            i <= ids@.len(),
            forall|j: int| 0 <= j < i ==> ids@[j] != id,
        decreases ids@.len() - i,
    {
        if ids[i] == id {
            return true;
        }
        i += 1;
    }
    false
}

/// The views of a list of texts.
pub open spec fn texts(entries: Seq<String>) -> Seq<Seq<char>> {
    Seq::new(entries.len(), |i: int| entries[i]@)
}

/// The value of a decimal digit; `None` for any other character.
pub open spec fn digit_value(c: char) -> Option<nat> {
    if 48 <= c as u32 <= 57 {
        Some((c as u32 - 48) as nat)
    } else {
        None
    }
}

/// The value of a run of decimal digits; `None` for an empty text or one
/// that holds anything but digits.
pub open spec fn digits_value(s: Seq<char>) -> Option<nat>
    decreases s.len(),
{
    if s.len() == 0 {
        None
    } else {
        match digit_value(s.last()) {
            None => None,
            Some(digit) => if s.len() == 1 {
                Some(digit)
            } else {
                match digits_value(s.drop_last()) {
                    Some(value) => Some(value * 10 + digit),
                    None => None,
                }
            },
        }
    }
}

/// A text read as a number that fits a byte: decimal digits, after an
/// optional plus sign, whose value is at most 255. Leading zeros count as
/// digits; anything else, an empty text or a greater value gives `None`.
pub open spec fn parsed_u8(s: Seq<char>) -> Option<u8> {
    let digits = if s.len() > 0 && s[0] == '+' {
        s.subrange(1, s.len() as int)
    } else {
        s
    };
    match digits_value(digits) {
        Some(value) => if value <= 255 {
            Some(value as u8)
        } else {
            None
        },
        None => None,
    }
}

proof fn lemma_stray_character(s: Seq<char>, k: int)
    requires
        0 <= k < s.len(),
        digit_value(s[k]) is None,
    ensures
        digits_value(s) is None,
    decreases s.len(),
{
    if k < s.len() - 1 {
        lemma_stray_character(s.drop_last(), k);
    }
}

proof fn lemma_value_grows(s: Seq<char>, k: int)
    requires
        0 < k <= s.len(),
        digits_value(s.subrange(0, k)) matches Some(value) && value > 255,
    ensures
        digits_value(s) matches Some(value) ==> value > 255,
    decreases s.len() - k,
{
    if k < s.len() {
        assert(s.drop_last().subrange(0, k) =~= s.subrange(0, k));
        lemma_value_grows(s.drop_last(), k);
    } else {
        assert(s.subrange(0, k) =~= s);
    }
}

/// Reads a number that fits a byte.
pub fn parse_u8(word: &str) -> (value: Option<u8>)
    ensures
        value == parsed_u8(word@),
{
    let n = word.unicode_len();
    let start: usize = if n > 0 && word.get_char(0) == '+' {
        1
    } else {
        0
    };
    let ghost digits = word@.subrange(start as int, n as int);
    proof {
        if start == 0 {
            assert(digits =~= word@);
        }
    }
    if start == n {
        return None;
    }
    let mut value: u32 = 0;
    let mut i: usize = start;
    while i < n
        invariant
            start <= i <= n,
            start < n,
            n == word@.len(),
            digits == (if word@.len() > 0 && word@[0] == '+' {
                word@.subrange(1, word@.len() as int)
            } else {
                word@
            }),
            digits.len() == n - start,
            forall|k: int| 0 <= k < n - start ==> digits[k] == word@[start + k],
            value <= 255,
            i == start ==> value == 0,
            i > start ==> digits_value(digits.subrange(0, i - start)) == Some(value as nat),
        decreases n - i,
    {
        let c = word.get_char(i);
        let code = c as u32;
        assert(digits[i - start] == c);
        if code < 48 || code > 57 {
            proof {
                lemma_stray_character(digits, i - start);
            }
            return None;
        }
        proof {
            let longer = digits.subrange(0, i - start + 1);
            assert(longer.last() == c);
            assert(longer.drop_last() =~= digits.subrange(0, i - start));
        }
        value = value * 10 + (code - 48);
        i += 1;
        if value > 255 {
            proof {
                lemma_value_grows(digits, i - start);
            }
            return None;
        }
    }
    proof {
        assert(digits.subrange(0, i - start) =~= digits);
    }
    Some(value as u8)
}

/// Appends a number in decimal.
pub fn append_decimal(target: &mut String, n: u64)
    ensures
        final(target)@ == old(target)@ + decimal(n as nat),
{
    target.append(decimal_string(n).as_str());
}

/// Appends a signed number in decimal.
pub fn append_signed(target: &mut String, n: i64)
    ensures
        final(target)@ == old(target)@ + signed_decimal(n as int),
{
    target.append(signed_decimal_string(n).as_str());
}

/// Whether two texts hold the same characters.
pub fn same_text(a: &str, b: &str) -> (same: bool)
    ensures
        same == (a@ == b@),
{
    String::from_str(a) == String::from_str(b)
}

/// Whether a character is white space: one of the characters with the
/// Unicode property `White_Space`.
pub open spec fn is_space(c: char) -> bool {
    let code = c as u32;
    ||| 0x09 <= code <= 0x0D
    ||| code == 0x20
    ||| code == 0x85
    ||| code == 0xA0
    ||| code == 0x1680
    ||| 0x2000 <= code <= 0x200A
    ||| code == 0x2028
    ||| code == 0x2029
    ||| code == 0x202F
    ||| code == 0x205F
    ||| code == 0x3000
}

/// The words among the first `upto` characters of a text, in order. A
/// word is a run of characters that are not white space; a character that
/// follows such a character lengthens the last word, and one that does not
/// begins a new word.
pub open spec fn words_upto(s: Seq<char>, upto: nat) -> Seq<Seq<char>>
    decreases upto,
{
    if upto == 0 {
        Seq::empty()
    } else {
        let before = words_upto(s, (upto - 1) as nat);
        let c = s[upto - 1];
        if is_space(c) {
            before
        } else if upto >= 2 && !is_space(s[upto - 2]) {
            before.drop_last().push(before.last().push(c))
        } else {
            before.push(seq![c])
        }
    }
}

/// The words of a text: its maximal runs of characters that are not white
/// space, in order.
pub open spec fn words_of(s: Seq<char>) -> Seq<Seq<char>> {
    words_upto(s, s.len())
}

/// Whether a character is white space.
pub fn is_space_char(c: char) -> (space: bool)
    ensures
        space == is_space(c),
{
    let code = c as u32;
    (0x09 <= code && code <= 0x0D) || code == 0x20 || code == 0x85 || code == 0xA0 || code
        == 0x1680 || (0x2000 <= code && code <= 0x200A) || code == 0x2028 || code == 0x2029
        || code == 0x202F || code == 0x205F || code == 0x3000
}

/// Splits a text into its words.
pub fn split_words(text: &str) -> (words: Vec<String>)
    ensures
        texts(words@) == words_of(text@),
{
    let n = text.unicode_len();
    let mut words: Vec<String> = Vec::new();
    let mut start: usize = 0;
    let mut in_word = false;
    let mut i: usize = 0;
    assert(texts(words@) =~= words_upto(text@, 0));
    while i < n
        invariant
            n == text@.len(),
            0 <= i <= n,
            in_word ==> start < i && !is_space(text@[i - 1]) && texts(words@).push(
                text@.subrange(start as int, i as int),
            ) == words_upto(text@, i as nat),
            !in_word ==> (i == 0 || is_space(text@[i - 1])) && texts(words@) == words_upto(
                text@,
                i as nat,
            ),
        decreases n - i,
    {
        let c = text.get_char(i);
        let ghost listed = texts(words@);
        if is_space_char(c) {
            if in_word {
                words.push(String::from_str(text.substring_char(start, i)));
                in_word = false;
                assert(texts(words@) =~= listed.push(text@.subrange(start as int, i as int)));
            }
        } else {
            if in_word {
                proof {
                    let before = listed.push(text@.subrange(start as int, i as int));
                    assert(before.drop_last() =~= listed);
                    assert(before.last().push(c) =~= text@.subrange(start as int, i + 1));
                }
            } else {
                start = i;
                in_word = true;
                assert(text@.subrange(i as int, i + 1) =~= seq![c]);
            }
        }
        i += 1;
    }
    if in_word {
        let ghost listed = texts(words@);
        words.push(String::from_str(text.substring_char(start, n)));
        assert(texts(words@) =~= listed.push(text@.subrange(start as int, n as int)));
    }
    words
}

} // verus!
