//! Small verified operations on text that the rest of the library shares.

use vstd::prelude::*;

verus! {

/// Whether two strings hold the same characters.
pub fn text_eq(a: &str, b: &str) -> (r: bool)
    ensures
        r == (a@ == b@),
{
    let n = a.unicode_len();
    if n != b.unicode_len() {
        return false;
    }
    let mut i: usize = 0;
    while i < n
        invariant
            n == a@.len(),
            n == b@.len(),
            i <= n,
            forall|j: int| 0 <= j < i ==> a@[j] == b@[j],
        decreases n - i,
    {
        if a.get_char(i) != b.get_char(i) {
            return false;
        }
        i = i + 1;
    }
    assert(a@ =~= b@);
    true
}

} // verus!

verus! {

/// Whether `c` has the Unicode `White_Space` property, the whitespace of
/// `char::is_whitespace`: the 25 code points U+0009 to U+000D, U+0020,
/// U+0085, U+00A0, U+1680, U+2000 to U+200A, U+2028, U+2029, U+202F, U+205F
/// and U+3000.
pub open spec fn is_white_space(c: char) -> bool {
    ||| ('\u{9}' <= c && c <= '\u{d}')
    ||| c == ' '
    ||| c == '\u{85}'
    ||| c == '\u{a0}'
    ||| c == '\u{1680}'
    ||| ('\u{2000}' <= c && c <= '\u{200a}')
    ||| c == '\u{2028}'
    ||| c == '\u{2029}'
    ||| c == '\u{202f}'
    ||| c == '\u{205f}'
    ||| c == '\u{3000}'
}

/// Whether `c` is whitespace, as `char::is_whitespace` reads it.
pub fn char_is_whitespace(c: char) -> (r: bool)
    ensures
        r == is_white_space(c),
{
    ('\u{9}' <= c && c <= '\u{d}') || c == ' ' || c == '\u{85}' || c == '\u{a0}'
        || c == '\u{1680}' || ('\u{2000}' <= c && c <= '\u{200a}') || c == '\u{2028}'
        || c == '\u{2029}' || c == '\u{202f}' || c == '\u{205f}' || c == '\u{3000}'
}

/// `s` without its leading whitespace.
pub open spec fn trim_start(s: Seq<char>) -> Seq<char>
    decreases s.len(),
{
    if s.len() > 0 && is_white_space(s[0]) {
        trim_start(s.drop_first())
    } else {
        s
    }
}

/// `s` without its trailing whitespace.
pub open spec fn trim_end(s: Seq<char>) -> Seq<char>
    decreases s.len(),
{
    if s.len() > 0 && is_white_space(s.last()) {
        trim_end(s.drop_last())
    } else {
        s
    }
}

/// `s` without its leading and trailing whitespace.
pub open spec fn trimmed(s: Seq<char>) -> Seq<char> {
    trim_end(trim_start(s))
}

/// `s` with leading and trailing whitespace removed.
pub fn trim(s: &str) -> (r: &str)
    ensures
        r@ == trimmed(s@),
{
    let n = s.unicode_len();
    let mut a: usize = 0;
    let mut found = false;
    assert(s@.subrange(0, n as int) =~= s@);
    while a < n && !found
        invariant
            n == s@.len(),
            a <= n,
            trim_start(s@) == trim_start(s@.subrange(a as int, n as int)),
            found ==> a < n && !is_white_space(s@[a as int]),
        decreases n - a + (if found { 0int } else { 1int }),
    {
        if char_is_whitespace(s.get_char(a)) {
            assert(s@.subrange(a as int, n as int).drop_first() =~= s@.subrange(
                a + 1,
                n as int,
            ));
            a = a + 1;
        } else {
            found = true;
        }
    }
    assert(s@.subrange(0, n as int) =~= s@);
    let ghost front = s@.subrange(a as int, n as int);
    assert(trim_start(s@) == front);
    let mut b: usize = n;
    let mut stop = false;
    while b > a && !stop
        invariant
            n == s@.len(),
            a <= b <= n,
            front == s@.subrange(a as int, n as int),
            trim_end(front) == trim_end(s@.subrange(a as int, b as int)),
            stop ==> b > a && !is_white_space(s@[b - 1]),
        decreases b + (if stop { 0int } else { 1int }),
    {
        if char_is_whitespace(s.get_char(b - 1)) {
            assert(s@.subrange(a as int, b as int).drop_last() =~= s@.subrange(
                a as int,
                b - 1,
            ));
            b = b - 1;
        } else {
            stop = true;
        }
    }
    s.substring_char(a, b)
}

/// The characters that a human number may use to group digits.
pub open spec fn is_separator(c: char) -> bool {
    c == ',' || c == '_'
}

/// `s` with every `,` and `_` removed.
pub open spec fn without_separators(s: Seq<char>) -> Seq<char>
    decreases s.len(),
{
    if s.len() == 0 {
        s
    } else {
        let rest = without_separators(s.drop_last());
        if is_separator(s.last()) {
            rest
        } else {
            rest.push(s.last())
        }
    }
}

/// `s` with every `,` and `_` removed.
pub fn remove_separators(s: &str) -> (r: String)
    ensures
        r@ == without_separators(s@),
{
    let n = s.unicode_len();
    let mut out = String::new();
    let mut i: usize = 0;
    while i < n
        invariant
            n == s@.len(),
            i <= n,
            out@ == without_separators(s@.subrange(0, i as int)),
        decreases n - i,
    {
        let c = s.get_char(i);
        assert(s@.subrange(0, i + 1).drop_last() =~= s@.subrange(0, i as int));
        if c != ',' && c != '_' {
            let one = s.substring_char(i, i + 1);
            assert(one@ =~= seq![c]);
            out.append(one);
        }
        i = i + 1;
    }
    assert(s@.subrange(0, n as int) =~= s@);
    out
}

/// `s` in lower case, as std's `str::to_lowercase` writes it.
pub uninterp spec fn lowercase(s: Seq<char>) -> Seq<char>;

/// std's `str::to_lowercase`.
///
/// Claimed: the result is `lowercase(s)`, a function of the text alone.
/// What the lower case of a text is (it follows Unicode's tables and the
/// final-sigma rule) is not stated.
#[verifier::external_body]
pub(crate) fn to_lowercase(s: &str) -> (r: String)
    ensures
        r@ == lowercase(s@),
{
    s.to_lowercase()
}

/// An ASCII decimal digit.
pub open spec fn is_digit(c: char) -> bool {
    '0' <= c && c <= '9'
}

/// The value of a run of decimal digits.
pub open spec fn digits_value(d: Seq<char>) -> int
    decreases d.len(),
{
    if d.len() == 0 {
        0
    } else {
        digits_value(d.drop_last()) * 10 + (d.last() as int - '0' as int)
    }
}

/// `s` without one leading `+`.
pub open spec fn unsigned_digits(s: Seq<char>) -> Seq<char> {
    if s.len() > 0 && s[0] == '+' {
        s.drop_first()
    } else {
        s
    }
}

/// How `u64` reads a decimal text: an optional `+` and then one or more
/// ASCII digits whose value fits in a `u64`; anything else (a sign alone,
/// whitespace, `_`, overflow) is refused.
pub open spec fn spec_parse_u64(s: Seq<char>) -> Option<u64> {
    let d = unsigned_digits(s);
    if d.len() > 0 && (forall|i: int| 0 <= i < d.len() ==> is_digit(#[trigger] d[i]))
        && digits_value(d) <= u64::MAX {
        Some(digits_value(d) as u64)
    } else {
        None
    }
}

/// Read a decimal `u64` as `str::parse::<u64>` does.
pub fn parse_u64(s: &str) -> (r: Option<u64>)
    ensures
        r == spec_parse_u64(s@),
{
    let n = s.unicode_len();
    let start: usize = if n > 0 && s.get_char(0) == '+' {
        1
    } else {
        0
    };
    let ghost d = unsigned_digits(s@);
    assert(d =~= s@.subrange(start as int, n as int));
    if start >= n {
        return None;
    }
    let mut value: u64 = 0;
    let mut over = false;
    let mut i: usize = start;
    while i < n
        invariant
            n == s@.len(),
            start <= i <= n,
            d == s@.subrange(start as int, n as int),
            d == unsigned_digits(s@),
            forall|j: int| start <= j < i ==> is_digit(#[trigger] s@[j]),
            !over ==> value == digits_value(s@.subrange(start as int, i as int)),
            over ==> digits_value(s@.subrange(start as int, i as int)) > u64::MAX,
        decreases n - i,
    {
        let c = s.get_char(i);
        if !(c >= '0' && c <= '9') {
            assert(!is_digit(d[i - start]));
            return None;
        }
        let digit = (c as u32 - '0' as u32) as u64;
        assert(s@.subrange(start as int, i + 1).drop_last() =~= s@.subrange(
            start as int,
            i as int,
        ));
        if !over {
            match value.checked_mul(10) {
                Some(t) => match t.checked_add(digit) {
                    Some(v) => {
                        value = v;
                    },
                    None => {
                        over = true;
                    },
                },
                None => {
                    over = true;
                },
            }
        }
        i = i + 1;
    }
    assert(s@.subrange(start as int, n as int) =~= d);
    assert forall|j: int| 0 <= j < d.len() implies is_digit(#[trigger] d[j]) by {
        assert(d[j] == s@[start + j]);
    }
    if over {
        None
    } else {
        Some(value)
    }
}

} // verus!

verus! {

/// `n` is the position of the first line feed of `s`.
pub open spec fn is_first_newline(s: Seq<char>, n: int) -> bool {
    &&& 0 <= n < s.len()
    &&& s[n] == '\n'
    &&& forall|j: int| 0 <= j < n ==> (#[trigger] s[j]) != '\n'
}

/// A line without the carriage return of its `\r\n` ending.
pub open spec fn line_body(l: Seq<char>) -> Seq<char> {
    if l.len() > 0 && l.last() == '\r' {
        l.drop_last()
    } else {
        l
    }
}

/// The first line of `s` as `str::lines` yields it: the text up to the first
/// line feed, without a carriage return just before it; the whole text when
/// it holds no line feed; nothing when it is empty.
pub open spec fn spec_first_line(s: Seq<char>) -> Option<Seq<char>> {
    if s.len() == 0 {
        None
    } else if exists|n: int| is_first_newline(s, n) {
        Some(line_body(s.take(choose|n: int| is_first_newline(s, n))))
    } else {
        Some(s)
    }
}

/// The first line of `s`, as `s.lines().next()` gives it.
pub fn first_line(s: &str) -> (r: Option<String>)
    ensures
        match spec_first_line(s@) {
            Some(l) => r matches Some(t) && t@ == l,
            None => r is None,
        },
{
    let len = s.unicode_len();
    if len == 0 {
        return None;
    }
    let mut i: usize = 0;
    while i < len
        invariant
            len == s@.len(),
            i <= len,
            forall|j: int| 0 <= j < i ==> (#[trigger] s@[j]) != '\n',
        decreases len - i,
    {
        if s.get_char(i) == '\n' {
            assert(is_first_newline(s@, i as int));
            let ghost k = choose|n: int| is_first_newline(s@, n);
            assert(k == i) by {
                if k < i {
                    assert(s@[k] != '\n');
                } else if k > i {
                    assert(s@[i as int] != '\n');
                }
            }
            assert(s@.take(i as int) =~= s@.subrange(0, i as int));
            if i > 0 && s.get_char(i - 1) == '\r' {
                assert(s@.take(i as int).drop_last() =~= s@.subrange(0, i - 1));
                return Some(String::from_str(s.substring_char(0, i - 1)));
            }
            return Some(String::from_str(s.substring_char(0, i)));
        }
        i = i + 1;
    }
    assert(!exists|n: int| is_first_newline(s@, n)) by {
        if exists|n: int| is_first_newline(s@, n) {
            let n = choose|n: int| is_first_newline(s@, n);
            assert(s@[n] != '\n');
        }
    }
    assert(s@.subrange(0, len as int) =~= s@);
    Some(String::from_str(s.substring_char(0, len)))
}

/// The text std's `String::from_utf8_lossy` makes of `bytes`.
pub uninterp spec fn utf8_lossy(bytes: Seq<u8>) -> Seq<char>;

/// std's `String::from_utf8_lossy`, taken as an owned `String`.
///
/// Claimed: the result is `utf8_lossy(bytes)`, a function of the bytes
/// alone, and it is their decoding where the bytes are valid UTF-8 (the
/// documentation: only invalid sequences are replaced, by U+FFFD). How
/// invalid sequences are replaced is not stated.
#[verifier::external_body]
pub(crate) fn decode_lossy(bytes: &[u8]) -> (r: String)
    ensures
        r@ == utf8_lossy(bytes@),
        vstd::utf8::valid_utf8(bytes@) ==> r@ == vstd::utf8::decode_utf8(bytes@),
{
    String::from_utf8_lossy(bytes).into_owned()
}

} // verus!

verus! {

/// `trim_start` drops a run of leading whitespace and keeps the rest whole.
proof fn lemma_trim_start(s: Seq<char>) -> (a: int)
    ensures
        0 <= a <= s.len(),
        trim_start(s) == s.subrange(a, s.len() as int),
        forall|j: int| 0 <= j < a ==> is_white_space(#[trigger] s[j]),
        a < s.len() ==> !is_white_space(s[a]),
    decreases s.len(),
{
    if s.len() > 0 && is_white_space(s[0]) {
        let a = lemma_trim_start(s.drop_first());
        assert(s.drop_first().subrange(a, s.drop_first().len() as int) =~= s.subrange(
            a + 1,
            s.len() as int,
        ));
        assert forall|j: int| 0 <= j < a + 1 implies is_white_space(#[trigger] s[j]) by {
            if j > 0 {
                assert(s[j] == s.drop_first()[j - 1]);
            }
        }
        assert(a + 1 < s.len() ==> s[a + 1] == s.drop_first()[a]);
        a + 1
    } else {
        assert(s.subrange(0, s.len() as int) =~= s);
        0
    }
}

/// `trim_end` drops a run of trailing whitespace and keeps the rest whole.
proof fn lemma_trim_end(s: Seq<char>) -> (b: int)
    ensures
        0 <= b <= s.len(),
        trim_end(s) == s.subrange(0, b),
        forall|j: int| b <= j < s.len() ==> is_white_space(#[trigger] s[j]),
        b > 0 ==> !is_white_space(s[b - 1]),
    decreases s.len(),
{
    if s.len() > 0 && is_white_space(s.last()) {
        let b = lemma_trim_end(s.drop_last());
        assert(s.drop_last().subrange(0, b) =~= s.subrange(0, b));
        assert forall|j: int| b <= j < s.len() implies is_white_space(#[trigger] s[j]) by {
            if j < s.len() - 1 {
                assert(s[j] == s.drop_last()[j]);
            }
        }
        assert(b > 0 ==> s[b - 1] == s.drop_last()[b - 1]);
        b
    } else {
        assert(s.subrange(0, s.len() as int) =~= s);
        s.len() as int
    }
}

/// Trimming removes whitespace from both ends and nothing else: the result
/// is a contiguous part of the text, everything before and after it is
/// whitespace, and it neither starts nor ends with whitespace.
pub proof fn trim_drops_only_outer_whitespace(s: Seq<char>)
    ensures
        exists|a: int, b: int|
            #![trigger s.subrange(a, b)]
            {
                &&& 0 <= a <= b <= s.len()
                &&& trimmed(s) == s.subrange(a, b)
                &&& forall|j: int| 0 <= j < a ==> is_white_space(#[trigger] s[j])
                &&& forall|j: int| b <= j < s.len() ==> is_white_space(#[trigger] s[j])
                &&& a < b ==> !is_white_space(s[a]) && !is_white_space(s[b - 1])
            },
{
    let a = lemma_trim_start(s);
    let t = s.subrange(a, s.len() as int);
    let b = lemma_trim_end(t);
    assert(t.subrange(0, b) =~= s.subrange(a, a + b));
    assert forall|j: int| a + b <= j < s.len() implies is_white_space(#[trigger] s[j]) by {
        assert(s[j] == t[j - a]);
    }
    if 0 < b {
        assert(s[a] == t[0]);
        assert(s[a + b - 1] == t[b - 1]);
    }
    assert(s.subrange(a, a + b) == trimmed(s));
}

/// Removing separators leaves no `,` or `_`, keeps a text that has none as
/// it is, and never lengthens the text.
pub proof fn separators_are_all_removed(s: Seq<char>)
    ensures
        forall|i: int|
            0 <= i < without_separators(s).len() ==> !is_separator(
                #[trigger] without_separators(s)[i],
            ),
        (forall|i: int| 0 <= i < s.len() ==> !is_separator(#[trigger] s[i])) ==> without_separators(
            s,
        ) == s,
        without_separators(s).len() <= s.len(),
    decreases s.len(),
{
    if s.len() > 0 {
        separators_are_all_removed(s.drop_last());
        if forall|i: int| 0 <= i < s.len() ==> !is_separator(#[trigger] s[i]) {
            assert forall|i: int| 0 <= i < s.drop_last().len() implies !is_separator(
                #[trigger] s.drop_last()[i],
            ) by {
                assert(s.drop_last()[i] == s[i]);
            }
            assert(!is_separator(s[s.len() - 1]));
            assert(s.drop_last().push(s.last()) =~= s);
        }
    }
}

/// The first line is the text before the first line feed, without the
/// carriage return of a `\r\n` ending; a text with no line feed is one
/// line; an empty text has none.
pub proof fn first_line_ends_at_first_newline(s: Seq<char>, k: int)
    ensures
        s.len() == 0 ==> spec_first_line(s) is None,
        s.len() > 0 && (forall|j: int| 0 <= j < s.len() ==> (#[trigger] s[j]) != '\n')
            ==> spec_first_line(s) == Some(s),
        (0 <= k < s.len() && s[k] == '\n' && (forall|j: int| 0 <= j < k ==> (#[trigger] s[j])
            != '\n')) ==> spec_first_line(s) == Some(
            if k > 0 && s[k - 1] == '\r' {
                s.subrange(0, k - 1)
            } else {
                s.subrange(0, k)
            },
        ),
{
    if s.len() > 0 && (forall|j: int| 0 <= j < s.len() ==> (#[trigger] s[j]) != '\n') {
        assert(!exists|n: int| is_first_newline(s, n)) by {
            if exists|n: int| is_first_newline(s, n) {
                let n = choose|n: int| is_first_newline(s, n);
                assert(s[n] != '\n');
            }
        }
    }
    if 0 <= k < s.len() && s[k] == '\n' && (forall|j: int| 0 <= j < k ==> (#[trigger] s[j])
        != '\n') {
        assert(is_first_newline(s, k));
        let n = choose|n: int| is_first_newline(s, n);
        assert(n == k) by {
            if n < k {
                assert(s[n] != '\n');
            } else if n > k {
                assert(s[k] != '\n');
            }
        }
        assert(s.take(k) =~= s.subrange(0, k));
        if k > 0 {
            assert(s.take(k).drop_last() =~= s.subrange(0, k - 1));
        }
    }
}

/// The value of a run of digits is never negative.
proof fn digits_value_is_nonnegative(d: Seq<char>)
    requires
        forall|i: int| 0 <= i < d.len() ==> is_digit(#[trigger] d[i]),
    ensures
        digits_value(d) >= 0,
    decreases d.len(),
{
    if d.len() > 0 {
        assert forall|i: int| 0 <= i < d.drop_last().len() implies is_digit(
            #[trigger] d.drop_last()[i],
        ) by {
            assert(d.drop_last()[i] == d[i]);
        }
        digits_value_is_nonnegative(d.drop_last());
        assert(is_digit(d[d.len() - 1]));
    }
}

/// Reading decimals: a single digit reads as its value; appending a digit
/// to a number that reads multiplies it by ten and adds the digit, or is
/// refused when that overflows a `u64`; appending anything else is refused;
/// a leading `+` changes nothing; an empty text and a lone `+` are refused.
pub proof fn parse_u64_reads_decimals(s: Seq<char>, c: char)
    ensures
        is_digit(c) ==> spec_parse_u64(seq![c]) == Some((c as int - '0' as int) as u64),
        spec_parse_u64(s) matches Some(v) ==> (is_digit(c) && v * 10 + (c as int - '0' as int)
            <= u64::MAX ==> spec_parse_u64(s.push(c)) == Some(
            (v * 10 + (c as int - '0' as int)) as u64,
        )),
        spec_parse_u64(s) matches Some(v) ==> (is_digit(c) && v * 10 + (c as int - '0' as int)
            > u64::MAX ==> spec_parse_u64(s.push(c)) is None),
        spec_parse_u64(s) is Some && !is_digit(c) ==> spec_parse_u64(s.push(c)) is None,
        s.len() > 0 && s[0] != '+' ==> spec_parse_u64(seq!['+'] + s) == spec_parse_u64(s),
        spec_parse_u64(Seq::empty()) is None,
        spec_parse_u64(seq!['+']) is None,
{
    assert(seq![c].drop_last() =~= Seq::<char>::empty());
    assert(digits_value(Seq::<char>::empty()) == 0);
    assert(unsigned_digits(seq!['+']) =~= Seq::<char>::empty());
    if s.len() > 0 && s[0] != '+' {
        assert((seq!['+'] + s).drop_first() =~= s);
    }
    if spec_parse_u64(s) is Some {
        let d = unsigned_digits(s);
        let e = unsigned_digits(s.push(c));
        assert(s.len() > 0);
        if s[0] == '+' {
            assert(s.push(c).drop_first() =~= s.drop_first().push(c));
        }
        assert(e =~= d.push(c));
        assert(e.drop_last() =~= d);
        digits_value_is_nonnegative(d);
        assert(digits_value(e) == digits_value(d) * 10 + (c as int - '0' as int));
        if is_digit(c) {
            assert forall|i: int| 0 <= i < e.len() implies is_digit(#[trigger] e[i]) by {
                if i < d.len() {
                    assert(e[i] == d[i]);
                }
            }
        } else {
            assert(!is_digit(e[e.len() - 1]));
        }
    }
}

} // verus!
