//! Searching and cutting text, character by character.

use vstd::prelude::*;
use vstd::string::StrSliceExecFns;

verus! {

/// `pattern` occurs in `text` starting at position `i`
pub open spec fn occurs_at(text: Seq<char>, pattern: Seq<char>, i: int) -> bool {
    0 <= i && i + pattern.len() <= text.len() && text.subrange(i, i + pattern.len()) == pattern
}

/// `pattern` occurs somewhere in `text`
pub open spec fn spec_contains(text: Seq<char>, pattern: Seq<char>) -> bool {
    exists|i: int| occurs_at(text, pattern, i)
}

/// The position of the first `c` in `text`, if there is one
pub open spec fn spec_first_index_of(text: Seq<char>, c: char) -> Option<int> {
    if exists|i: int| 0 <= i < text.len() && text[i] == c {
        Some(
            choose|i: int|
                0 <= i < text.len() && text[i] == c && forall|j: int| 0 <= j < i ==> text[j] != c,
        )
    } else {
        None
    }
}

/// The position of the first `c` in `text`, if there is one
pub fn first_index_of(text: &str, c: char) -> (res: Option<usize>)
    ensures
        match res {
            Some(i) => {
                &&& i < text@.len()
                &&& text@[i as int] == c
                &&& forall|j: int| 0 <= j < i ==> text@[j] != c
            },
            None => forall|j: int| 0 <= j < text@.len() ==> text@[j] != c,
        },
        res matches Some(i) ==> spec_first_index_of(text@, c) == Some(i as int),
        res is None ==> spec_first_index_of(text@, c) is None,
{
    let len = text.unicode_len();
    let mut i: usize = 0;
    while i < len
        invariant
            len == text@.len(),
            i <= len,
            forall|j: int| 0 <= j < i ==> text@[j] != c,
        decreases len - i,
    {
        if text.get_char(i) == c {
            proof {
                let k = choose|k: int|
                    0 <= k < text@.len() && text@[k] == c && forall|j: int|
                        0 <= j < k ==> text@[j] != c;
                if k < i {
                } else if k > i {
                    assert(text@[i as int] == c);
                }
            }
            return Some(i);
        }
        i = i + 1;
    }
    None
}

/// Does `pattern` occur in `text`?
pub fn contains(text: &str, pattern: &str) -> (res: bool)
    ensures
        res == spec_contains(text@, pattern@),
{
    let n = text.unicode_len();
    let m = pattern.unicode_len();
    if m > n {
        proof {
            assert forall|i: int| !occurs_at(text@, pattern@, i) by {}
        }
        return false;
    }
    let mut i: usize = 0;
    while i <= n - m
        invariant
            n == text@.len(),
            m == pattern@.len(),
            m <= n,
            i <= n - m + 1,
            forall|k: int| 0 <= k < i ==> !occurs_at(text@, pattern@, k),
        decreases n - m + 1 - i,
    {
        let mut j: usize = 0;
        let mut matched = true;
        while j < m
            invariant
                n == text@.len(),
                m == pattern@.len(),
                i + m <= n,
                j <= m,
                matched <==> forall|k: int| 0 <= k < j ==> text@[i + k] == pattern@[k],
            decreases m - j,
        {
            if text.get_char(i + j) != pattern.get_char(j) {
                matched = false;
            }
            j = j + 1;
        }
        if matched {
            proof {
                assert(text@.subrange(i as int, i + m) =~= pattern@);
                assert(occurs_at(text@, pattern@, i as int));
            }
            return true;
        }
        proof {
            assert(!occurs_at(text@, pattern@, i as int)) by {
                if text@.subrange(i as int, i + m) == pattern@ {
                    assert forall|k: int| 0 <= k < m implies text@[i + k] == pattern@[k] by {
                        assert(text@.subrange(i as int, i + m)[k] == text@[i + k]);
                    }
                }
            }
        }
        i = i + 1;
    }
    proof {
        assert forall|k: int| !occurs_at(text@, pattern@, k) by {
            if occurs_at(text@, pattern@, k) {
                assert(k < i);
            }
        }
    }
    false
}

/// The first `n` characters of `text` (all of it when it is shorter)
pub fn take_chars(text: &str, n: usize) -> (res: String)
    ensures
        res@ == (if n < text@.len() { text@.take(n as int) } else { text@ }),
{
    let len = text.unicode_len();
    let end = if n < len { n } else { len };
    let part = text.substring_char(0, end);
    proof {
        if n >= len {
            assert(text@.subrange(0, len as int) =~= text@);
        }
    }
    String::from_str(part)
}

/// The characters of `text` before position `end`
pub fn prefix_chars(text: &str, end: usize) -> (res: String)
    requires
        end <= text@.len(),
    ensures
        res@ == text@.take(end as int),
{
    String::from_str(text.substring_char(0, end))
}

/// `c` has the Unicode White_Space property
pub open spec fn spec_is_whitespace(c: char) -> bool {
    ||| c == ' '
    ||| ('\u{9}' <= c && c <= '\u{d}')
    ||| c == '\u{85}'
    ||| c == '\u{a0}'
    ||| c == '\u{1680}'
    ||| ('\u{2000}' <= c && c <= '\u{200a}')
    ||| c == '\u{2028}'
    ||| c == '\u{2029}'
    ||| c == '\u{202f}'
    ||| c == '\u{205f}'
    ||| c == '\u{3000}'
}

/// Does `c` have the Unicode White_Space property?
pub fn is_whitespace(c: char) -> (res: bool)
    ensures
        res == spec_is_whitespace(c),
{
    c == ' ' || ('\u{9}' <= c && c <= '\u{d}') || c == '\u{85}' || c == '\u{a0}' || c
        == '\u{1680}' || ('\u{2000}' <= c && c <= '\u{200a}') || c == '\u{2028}' || c
        == '\u{2029}' || c == '\u{202f}' || c == '\u{205f}' || c == '\u{3000}'
}

/// `text` without its leading whitespace
pub open spec fn spec_trim_start(text: Seq<char>) -> Seq<char>
    decreases text.len(),
{
    if text.len() > 0 && spec_is_whitespace(text[0]) {
        spec_trim_start(text.drop_first())
    } else {
        text
    }
}

/// `text` without its trailing whitespace
pub open spec fn spec_trim_end(text: Seq<char>) -> Seq<char>
    decreases text.len(),
{
    if text.len() > 0 && spec_is_whitespace(text.last()) {
        spec_trim_end(text.drop_last())
    } else {
        text
    }
}

/// `text` without its leading and trailing whitespace
pub open spec fn spec_trim(text: Seq<char>) -> Seq<char> {
    spec_trim_end(spec_trim_start(text))
}

proof fn lemma_trim_start_skip(text: Seq<char>, i: int)
    requires
        0 <= i <= text.len(),
        forall|j: int| 0 <= j < i ==> spec_is_whitespace(text[j]),
    ensures
        spec_trim_start(text) == spec_trim_start(text.subrange(i, text.len() as int)),
    decreases i,
{
    if i > 0 {
        lemma_trim_start_skip(text.drop_first(), i - 1);
        assert(text.drop_first().subrange(i - 1, text.drop_first().len() as int) =~= text.subrange(
            i,
            text.len() as int,
        ));
    } else {
        assert(text.subrange(0, text.len() as int) =~= text);
    }
}

proof fn lemma_trim_end_skip(text: Seq<char>, k: int)
    requires
        0 <= k <= text.len(),
        forall|j: int| k <= j < text.len() ==> spec_is_whitespace(text[j]),
    ensures
        spec_trim_end(text) == spec_trim_end(text.subrange(0, k)),
    decreases text.len() - k,
{
    if k < text.len() {
        lemma_trim_end_skip(text.drop_last(), k);
        assert(text.drop_last().subrange(0, k) =~= text.subrange(0, k));
    } else {
        assert(text.subrange(0, k) =~= text);
    }
}

/// `text` without its leading and trailing whitespace
pub fn trim(text: &str) -> (res: String)
    ensures
        res@ == spec_trim(text@),
{
    let len = text.unicode_len();
    let mut start: usize = 0;
    while start < len && is_whitespace(text.get_char(start))
        invariant
            len == text@.len(),
            start <= len,
            forall|j: int| 0 <= j < start ==> spec_is_whitespace(text@[j]),
        decreases len - start,
    {
        start = start + 1;
    }
    let mut end: usize = len;
    while end > start && is_whitespace(text.get_char(end - 1))
        invariant
            len == text@.len(),
            start <= end <= len,
            forall|j: int| end <= j < len ==> spec_is_whitespace(text@[j]),
        decreases end - start,
    {
        end = end - 1;
    }
    proof {
        lemma_trim_start_skip(text@, start as int);
        let rest = text@.subrange(start as int, len as int);
        if start < len {
            assert(!spec_is_whitespace(rest[0]));
        }
        assert(spec_trim_start(rest) == rest);
        lemma_trim_end_skip(rest, end - start);
        assert(rest.subrange(0, end - start) =~= text@.subrange(start as int, end as int));
        let kept = text@.subrange(start as int, end as int);
        if end > start {
            assert(!spec_is_whitespace(kept.last()));
        }
        assert(spec_trim_end(kept) == kept);
    }
    String::from_str(text.substring_char(start, end))
}

/// The decimal digits of `n`, most significant first, with no leading zero
pub open spec fn spec_decimal(n: nat) -> Seq<char>
    decreases n,
{
    if n < 10 {
        seq![spec_digit(n)]
    } else {
        spec_decimal(n / 10).push(spec_digit(n % 10))
    }
}

/// The character of the decimal digit `d`
pub open spec fn spec_digit(d: nat) -> char {
    if d == 0 { '0' }
    else if d == 1 { '1' }
    else if d == 2 { '2' }
    else if d == 3 { '3' }
    else if d == 4 { '4' }
    else if d == 5 { '5' }
    else if d == 6 { '6' }
    else if d == 7 { '7' }
    else if d == 8 { '8' }
    else { '9' }
}

/// The one-character text of the decimal digit `d`
fn digit_text(d: u8) -> (res: &'static str)
    requires
        d < 10,
    ensures
        res@ == seq![spec_digit(d as nat)],
{
    proof {
        reveal_strlit("0");
        reveal_strlit("1");
        reveal_strlit("2");
        reveal_strlit("3");
        reveal_strlit("4");
        reveal_strlit("5");
        reveal_strlit("6");
        reveal_strlit("7");
        reveal_strlit("8");
        reveal_strlit("9");
    }
    match d {
        0 => "0",
        1 => "1",
        2 => "2",
        3 => "3",
        4 => "4",
        5 => "5",
        6 => "6",
        7 => "7",
        8 => "8",
        _ => "9",
    }
}

/// The decimal text of `n`, as `Display` writes it
pub fn decimal_text(n: u8) -> (res: String)
    ensures
        res@ == spec_decimal(n as nat),
{
    proof {
        reveal_with_fuel(spec_decimal, 3);
    }
    let mut res = String::new();
    if n >= 100 {
        res.append(digit_text(n / 100));
    }
    if n >= 10 {
        res.append(digit_text((n / 10) % 10));
    }
    res.append(digit_text(n % 10));
    proof {
        if n >= 100 {
            assert((n / 10) / 10 == n / 100);
            assert(spec_decimal((n / 10) as nat) =~= seq![spec_digit((n / 100) as nat), spec_digit(
                ((n / 10) % 10) as nat,
            )]);
        } else if n >= 10 {
            assert(spec_decimal((n / 10) as nat) =~= seq![spec_digit(((n / 10) % 10) as nat)]);
        }
        assert(res@ =~= spec_decimal(n as nat));
    }
    res
}

/// The parts of `text` before and after the first `c`, if `c` occurs in it
pub open spec fn spec_split_once(text: Seq<char>, c: char) -> Option<(Seq<char>, Seq<char>)> {
    match spec_first_index_of(text, c) {
        Some(i) => Some((text.take(i), text.skip(i + 1))),
        None => None,
    }
}

/// The parts of `text` before and after the first `c`, if `c` occurs in it
pub fn split_once(text: &str, c: char) -> (res: Option<(&str, &str)>)
    ensures
        match spec_split_once(text@, c) {
            Some((before, after)) => res matches Some((b, a)) && b@ == before && a@ == after,
            None => res is None,
        },
{
    match first_index_of(text, c) {
        Some(i) => {
            let len = text.unicode_len();
            let before = text.substring_char(0, i);
            let after = text.substring_char(i + 1, len);
            proof {
                assert(before@ =~= text@.take(i as int));
                assert(after@ =~= text@.skip(i + 1));
            }
            Some((before, after))
        },
        None => None,
    }
}

/// `c` is an ASCII decimal digit
pub open spec fn is_digit(c: char) -> bool {
    '0' <= c && c <= '9'
}

/// Every character of `s` is an ASCII decimal digit
pub open spec fn all_digits(s: Seq<char>) -> bool {
    forall|i: int| 0 <= i < s.len() ==> #[trigger] is_digit(s[i])
}

/// The value of the decimal numeral `s`
pub open spec fn spec_decimal_value(s: Seq<char>) -> nat
    decreases s.len(),
{
    if s.len() == 0 {
        0
    } else {
        spec_decimal_value(s.drop_last()) * 10 + ((s.last() as int) - ('0' as int)) as nat
    }
}

/// Appending digits to a numeral does not make its value smaller
proof fn lemma_decimal_value_grows(s: Seq<char>, i: int)
    requires
        all_digits(s),
        0 <= i <= s.len(),
    ensures
        spec_decimal_value(s.take(i)) <= spec_decimal_value(s),
    decreases s.len(),
{
    if i < s.len() {
        let shorter = s.drop_last();
        assert(all_digits(shorter)) by {
            assert forall|k: int| 0 <= k < shorter.len() implies #[trigger] is_digit(shorter[k]) by {
                assert(is_digit(s[k]));
            }
        }
        lemma_decimal_value_grows(shorter, i);
        assert(shorter.take(i) =~= s.take(i));
    } else {
        assert(s.take(i) =~= s);
    }
}

/// The value of the decimal numeral `text`, if it is a non-empty string of ASCII digits whose
/// value is at most `limit`
fn decimal_value(text: &str, limit: u32) -> (res: Option<u32>)
    requires
        limit <= 65535,
    ensures
        res == (if text@.len() > 0 && all_digits(text@) && spec_decimal_value(text@) <= limit {
            Some(spec_decimal_value(text@) as u32)
        } else {
            None::<u32>
        }),
{
    let len = text.unicode_len();
    if len == 0 {
        return None;
    }
    let mut value: u32 = 0;
    let mut i: usize = 0;
    while i < len
        invariant
            len == text@.len(),
            limit <= 65535,
            i <= len,
            all_digits(text@.take(i as int)),
            value == spec_decimal_value(text@.take(i as int)),
            value <= limit,
        decreases len - i,
    {
        let c = text.get_char(i);
        if !('0' <= c && c <= '9') {
            proof {
                assert(!is_digit(text@[i as int]));
            }
            return None;
        }
        let d: u32 = (c as u32) - ('0' as u32);
        let next: u32 = value * 10 + d;
        proof {
            let taken = text@.take(i + 1);
            assert(taken.drop_last() =~= text@.take(i as int));
            assert(taken.last() == c);
            assert(all_digits(taken)) by {
                assert forall|k: int| 0 <= k < taken.len() implies #[trigger] is_digit(taken[k]) by {
                    if k < i {
                        assert(text@.take(i as int)[k] == taken[k]);
                    }
                }
            }
        }
        if next > limit {
            proof {
                if all_digits(text@) {
                    lemma_decimal_value_grows(text@, i + 1);
                }
            }
            return None;
        }
        value = next;
        i = i + 1;
    }
    proof {
        assert(text@.take(len as int) =~= text@);
    }
    Some(value)
}

/// What parsing `text` as a `u16` gives: an optional '+', then a non-empty string of ASCII
/// digits (leading zeros allowed) whose value is at most 65535
pub open spec fn spec_parse_u16(text: Seq<char>) -> Option<u16> {
    let digits = if text.len() > 0 && text[0] == '+' { text.drop_first() } else { text };
    if digits.len() > 0 && all_digits(digits) && spec_decimal_value(digits) <= 65535 {
        Some(spec_decimal_value(digits) as u16)
    } else {
        None
    }
}

/// Parse `text` as a `u16`
pub fn parse_u16(text: &str) -> (res: Option<u16>)
    ensures
        res == spec_parse_u16(text@),
{
    let len = text.unicode_len();
    let digits = if len > 0 && text.get_char(0) == '+' {
        text.substring_char(1, len)
    } else {
        text
    };
    proof {
        if len > 0 && text@[0] == '+' {
            assert(digits@ =~= text@.drop_first());
        }
    }
    match decimal_value(digits, 65535) {
        Some(v) => Some(v as u16),
        None => None,
    }
}

/// What parsing `text` as one octet of a dotted IPv4 address gives: one to three ASCII digits,
/// without a leading zero unless the octet is "0", whose value is at most 255
pub open spec fn spec_parse_octet(text: Seq<char>) -> Option<u8> {
    if 1 <= text.len() <= 3 && all_digits(text) && !(text.len() > 1 && text[0] == '0')
        && spec_decimal_value(text) <= 255 {
        Some(spec_decimal_value(text) as u8)
    } else {
        None
    }
}

/// Parse `text` as one octet of a dotted IPv4 address
pub fn parse_octet(text: &str) -> (res: Option<u8>)
    ensures
        res == spec_parse_octet(text@),
{
    let len = text.unicode_len();
    if len < 1 || len > 3 || (len > 1 && text.get_char(0) == '0') {
        return None;
    }
    match decimal_value(text, 255) {
        Some(v) => Some(v as u8),
        None => None,
    }
}

} // verus!
