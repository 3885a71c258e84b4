//! Text as it stands in a message: integers in decimal, words between blanks.
use vstd::prelude::*;

verus! {

/// Whether `c` is one of the ten decimal digits.
pub open spec fn is_digit(c: char) -> bool {
    '0' <= c <= '9'
}

/// The number that a run of decimal digits writes.
pub open spec fn digits_value(digits: Seq<char>) -> nat
    decreases digits.len(),
{
    if digits.len() == 0 {
        0
    } else {
        (10 * digits_value(digits.drop_last()) + (digits.last() as int - '0' as int)) as nat
    }
}

/// What follows the sign, where `s` begins with one.
pub open spec fn unsigned_part(s: Seq<char>) -> Seq<char> {
    if s.len() > 0 && (s[0] == '+' || s[0] == '-') {
        s.skip(1)
    } else {
        s
    }
}

/// The integer that `s` writes: an optional sign and one or more digits, nothing else.
#[verifier::opaque]
pub open spec fn integer(s: Seq<char>) -> Option<int> {
    let digits = unsigned_part(s);
    if digits.len() == 0 || !(forall|i: int| 0 <= i < digits.len() ==> is_digit(digits[i])) {
        None
    } else if s[0] == '-' {
        Some(-digits_value(digits))
    } else {
        Some(digits_value(digits) as int)
    }
}

/// The `i32` that `s` writes; none where `s` is no integer or is out of range.
pub open spec fn integer_i32(s: Seq<char>) -> Option<i32> {
    match integer(s) {
        Some(v) => if i32::MIN <= v <= i32::MAX {
            Some(v as i32)
        } else {
            None
        },
        None => None,
    }
}

/// The `i64` that `s` writes; none where `s` is no integer or is out of range.
pub open spec fn integer_i64(s: Seq<char>) -> Option<i64> {
    match integer(s) {
        Some(v) => if i64::MIN <= v <= i64::MAX {
            Some(v as i64)
        } else {
            None
        },
        None => None,
    }
}

/// `str::parse` for `i32`. Trusted: it succeeds exactly on an optional `+` or `-` followed by
/// one or more ASCII digits whose value is in the range of `i32`, and gives that value.
#[verifier::external_body]
pub(crate) fn parse_i32(s: &str) -> (r: Option<i32>)
    ensures
        r == integer_i32(s@),
{
    s.parse::<i32>().ok()
}

/// `str::parse` for `i64`. Trusted: it succeeds exactly on an optional `+` or `-` followed by
/// one or more ASCII digits whose value is in the range of `i64`, and gives that value.
#[verifier::external_body]
pub(crate) fn parse_i64(s: &str) -> (r: Option<i64>)
    ensures
        r == integer_i64(s@),
{
    s.parse::<i64>().ok()
}

/// Whether `c` has the Unicode property `White_Space`.
pub open spec fn is_blank(c: char) -> bool {
    ||| 0x9 <= c as int <= 0xd
    ||| c as int == 0x20
    ||| c as int == 0x85
    ||| c as int == 0xa0
    ||| c as int == 0x1680
    ||| 0x2000 <= c as int <= 0x200a
    ||| 0x2028 <= c as int <= 0x2029
    ||| c as int == 0x202f
    ||| c as int == 0x205f
    ||| c as int == 0x3000
}

/// Trusted: `char::is_whitespace` tells whether a character has the Unicode property
/// `White_Space`.
pub assume_specification[ char::is_whitespace ](c: char) -> (r: bool)
    ensures
        r == is_blank(c),
;

/// Trusted: `String::push` appends a character to a string.
pub assume_specification[ String::push ](s: &mut String, c: char)
    ensures
        final(s)@ == old(s)@.push(c),
;

/// The words of `s`: its longest runs of characters that are no blanks, in order.
pub open spec fn words(s: Seq<char>) -> Seq<Seq<char>>
    decreases s.len(),
{
    if s.len() == 0 {
        seq![]
    } else {
        let before = words(s.drop_last());
        if is_blank(s.last()) {
            before
        } else if s.len() == 1 || is_blank(s[s.len() - 2]) {
            before.push(seq![s.last()])
        } else {
            before.drop_last().push(before.last().push(s.last()))
        }
    }
}

/// What each of the strings holds.
pub open spec fn texts(v: Seq<String>) -> Seq<Seq<char>> {
    v.map_values(|t: String| t@)
}

/// The texts of strings are what they hold, one by one.
pub proof fn lemma_texts(v: Seq<String>)
    ensures
        texts(v).len() == v.len(),
        forall|i: int| 0 <= i < v.len() ==> #[trigger] texts(v)[i] == v[i]@,
{
}

/// The words of `s`, in order.
pub fn split_words(s: &str) -> (r: Vec<String>)
    ensures
        texts(r@) == words(s@),
{
    let mut done: Vec<String> = Vec::new();
    let mut current: String = String::new();
    let mut in_word: bool = false;
    for c in iter: s.chars()
        invariant
            iter.seq() == s@,
            in_word <==> iter.index() > 0 && !is_blank(s@[iter.index() - 1]),
            !in_word ==> texts(done@) == words(s@.take(iter.index() as int)),
            in_word ==> current@.len() > 0 && texts(done@).push(current@) == words(
                s@.take(iter.index() as int),
            ),
    {
        let ghost k = iter.index() as int;
        assert(s@.take(k + 1).drop_last() == s@.take(k));
        if c.is_whitespace() {
            if in_word {
                let ghost before = done@;
                done.push(current);
                assert(texts(done@) == texts(before).push(done@.last()@));
                current = String::new();
                in_word = false;
            }
        } else {
            if !in_word {
                current = String::new();
                in_word = true;
            }
            current.push(c);
        }
    }
    assert(s@.take(s@.len() as int) == s@);
    if in_word {
        let ghost before = done@;
        done.push(current);
        assert(texts(done@) == texts(before).push(done@.last()@));
    }
    done
}

/// The decimal digits of `n`, without leading zeros.
pub open spec fn decimal(n: nat) -> Seq<char>
    decreases n,
{
    if n < 10 {
        seq![digit(n)]
    } else {
        decimal(n / 10).push(digit(n % 10))
    }
}

/// The digit for `d`, which is less than ten.
pub open spec fn digit(d: nat) -> char {
    ('0' as nat + d) as char
}

/// The decimal digits of `n`.
pub fn decimal_text(n: usize) -> (r: String)
    ensures
        r@ == decimal(n as nat),
    decreases n,
{
    let mut r: String = if n < 10 {
        String::new()
    } else {
        decimal_text(n / 10)
    };
    let last: u8 = (n % 10) as u8;
    r.push((48 + last) as char);
    r
}

/// The text of an integer: a minus sign where it is negative, then its digits.
pub open spec fn integer_text(v: int) -> Seq<char> {
    if v < 0 {
        seq!['-'] + decimal((-v) as nat)
    } else {
        decimal(v as nat)
    }
}

/// The text of an integer is read as that integer.
pub proof fn lemma_integer_reads_back(v: int)
    ensures
        integer(integer_text(v)) == Some(v),
        i32::MIN <= v <= i32::MAX ==> integer_i32(integer_text(v)) == Some(v as i32),
        i64::MIN <= v <= i64::MAX ==> integer_i64(integer_text(v)) == Some(v as i64),
{
    reveal(integer);
    let n: nat = if v < 0 {
        (-v) as nat
    } else {
        v as nat
    };
    lemma_decimal_digits(n);
    assert(is_digit(decimal(n)[0]));
    assert(unsigned_part(integer_text(v)) =~= decimal(n));
}

/// Digits only, at least one of them, and the value is `n`.
proof fn lemma_decimal_digits(n: nat)
    ensures
        decimal(n).len() > 0,
        forall|i: int| 0 <= i < decimal(n).len() ==> is_digit(#[trigger] decimal(n)[i]),
        digits_value(decimal(n)) == n,
    decreases n,
{
    reveal_with_fuel(digits_value, 2);
    if n < 10 {
        assert(decimal(n).drop_last() =~= seq![]);
    } else {
        lemma_decimal_digits(n / 10);
        assert(decimal(n).drop_last() =~= decimal(n / 10));
    }
}

/// Words hold no blanks and are not empty, and side by side they are the text without its blanks.
pub proof fn lemma_words(s: Seq<char>)
    ensures
        forall|i: int|
            0 <= i < words(s).len() ==> (#[trigger] words(s)[i]).len() > 0 && forall|j: int|
                0 <= j < words(s)[i].len() ==> !is_blank(#[trigger] words(s)[i][j]),
        words(s).flatten() == s.filter(|c: char| !is_blank(c)),
    decreases s.len(),
{
    reveal(Seq::filter);
    if s.len() == 0 {
        assert(words(s).flatten() =~= seq![]);
    } else {
        let before = words(s.drop_last());
        lemma_words(s.drop_last());
        lemma_words_open(s.drop_last());
        if is_blank(s.last()) {
        } else if s.len() == 1 || is_blank(s[s.len() - 2]) {
            before.lemma_flatten_push(seq![s.last()]);
            assert(before.flatten() + seq![s.last()] =~= before.flatten().push(s.last()));
        } else {
            let grown = before.last().push(s.last());
            before.drop_last().lemma_flatten_push(grown);
            before.drop_last().lemma_flatten_push(before.last());
            assert(before =~= before.drop_last().push(before.last()));
            assert(before.drop_last().flatten() + grown =~= before.flatten().push(s.last()));
        }
    }
}

/// A text that does not end in a blank ends in a word.
proof fn lemma_words_open(s: Seq<char>)
    ensures
        s.len() > 0 && !is_blank(s.last()) ==> words(s).len() > 0,
{
}

/// Whether a text is nothing but blanks.
pub open spec fn is_gap(s: Seq<char>) -> bool {
    forall|i: int| 0 <= i < s.len() ==> is_blank(#[trigger] s[i])
}

/// Whether a text is a word: not empty, and without blanks.
pub open spec fn is_word(s: Seq<char>) -> bool {
    s.len() > 0 && forall|i: int| 0 <= i < s.len() ==> !is_blank(#[trigger] s[i])
}

/// A text that begins with a gap, which words follow, each with a gap after it.
pub open spec fn spaced(gap: Seq<char>, rest: Seq<(Seq<char>, Seq<char>)>) -> Seq<char>
    decreases rest.len(),
{
    if rest.len() == 0 {
        gap
    } else {
        spaced(gap, rest.drop_last()) + rest.last().0 + rest.last().1
    }
}

/// Words with blanks between them are told apart again, whatever the blanks are and how many. Only
/// the gaps before the first word and after the last one may be empty.
pub proof fn lemma_words_of_spaced(gap: Seq<char>, rest: Seq<(Seq<char>, Seq<char>)>)
    requires
        is_gap(gap),
        forall|i: int| 0 <= i < rest.len() ==> is_word((#[trigger] rest[i]).0) && is_gap(rest[i].1),
        forall|i: int| 0 <= i < rest.len() - 1 ==> (#[trigger] rest[i]).1.len() > 0,
    ensures
        words(spaced(gap, rest)) == rest.map_values(|p: (Seq<char>, Seq<char>)| p.0),
    decreases rest.len(),
{
    let told = rest.map_values(|p: (Seq<char>, Seq<char>)| p.0);
    if rest.len() == 0 {
        assert(seq![] + gap =~= gap);
        lemma_words_then_gap(seq![], gap);
        assert(told =~= seq![]);
    } else {
        let before = rest.drop_last();
        let (word, after) = rest.last();
        lemma_words_of_spaced(gap, before);
        lemma_spaced_end(gap, before);
        lemma_words_then_word(spaced(gap, before), word);
        lemma_words_then_gap(spaced(gap, before) + word, after);
        assert(told =~= before.map_values(|p: (Seq<char>, Seq<char>)| p.0).push(word));
    }
}

/// Such a text is empty or ends in a blank, if its last gap is not empty.
proof fn lemma_spaced_end(gap: Seq<char>, rest: Seq<(Seq<char>, Seq<char>)>)
    requires
        is_gap(gap),
        forall|i: int| 0 <= i < rest.len() ==> is_gap((#[trigger] rest[i]).1),
        rest.len() > 0 ==> rest.last().1.len() > 0,
    ensures
        spaced(gap, rest).len() == 0 || is_blank(spaced(gap, rest).last()),
{
    if rest.len() > 0 {
        let after = rest.last().1;
        assert(is_blank(after[after.len() - 1]));
        assert(spaced(gap, rest).last() == after.last());
    } else if gap.len() > 0 {
        assert(is_blank(gap[gap.len() - 1]));
    }
}

/// Blanks after a text add no word.
proof fn lemma_words_then_gap(s: Seq<char>, gap: Seq<char>)
    requires
        is_gap(gap),
    ensures
        words(s + gap) == words(s),
    decreases gap.len(),
{
    if gap.len() == 0 {
        assert(s + gap =~= s);
    } else {
        let t = s + gap;
        assert(t.drop_last() =~= s + gap.drop_last());
        assert(is_blank(gap[gap.len() - 1]));
        assert(t.last() == gap.last());
        lemma_words_then_gap(s, gap.drop_last());
    }
}

/// A word after a text that is empty or ends in a blank is a word more.
proof fn lemma_words_then_word(s: Seq<char>, word: Seq<char>)
    requires
        is_word(word),
        s.len() == 0 || is_blank(s.last()),
    ensures
        words(s + word) == words(s).push(word),
    decreases word.len(),
{
    let t = s + word;
    let n = word.len() as int;
    assert(t.drop_last() =~= s + word.drop_last());
    assert(!is_blank(word[n - 1]));
    assert(t.last() == word.last());
    if n == 1 {
        assert(word =~= seq![word.last()]);
        assert(s + word.drop_last() =~= s);
        if s.len() > 0 {
            assert(t[t.len() - 2] == s.last());
        }
    } else {
        let shorter = word.drop_last();
        assert forall|i: int| 0 <= i < shorter.len() implies !is_blank(#[trigger] shorter[i]) by {
            assert(shorter[i] == word[i]);
        }
        lemma_words_then_word(s, shorter);
        assert(t[t.len() - 2] == word[n - 2]);
        assert(!is_blank(word[n - 2]));
        assert(words(s).push(shorter).drop_last() =~= words(s));
        assert(shorter.push(word.last()) =~= word);
    }
}

} // verus!
