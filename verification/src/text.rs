//! Character and string helpers shared by the rest of the crate: comparison
//! without regard to ASCII case, trimming, and decimal numerals.

use vstd::prelude::*;
use vstd::string::StrSliceExecFns;
use vstd::string::StringExecFns;

verus! {

/// The characters of a text, in order.
pub fn chars_of(s: &str) -> (v: Vec<char>)
    ensures
        v@ == s@,
{
    let mut v: Vec<char> = Vec::new();
    for c in it: s.chars()
        invariant
            it.seq() == s@,
            v@ == it.seq().take(it.index() as int),
    {
        v.push(c);
    }
    v
}

// ---------------------------------------------------------------------------
// ASCII case
// ---------------------------------------------------------------------------

/// The upper-case form of an ASCII letter; every other character is left as it is.
pub open spec fn ascii_upper(c: char) -> char {
    if 'a' <= c && c <= 'z' {
        ((c as u32) - 32) as char
    } else {
        c
    }
}

/// A text with each of its ASCII letters in upper case.
pub open spec fn ascii_upper_text(s: Seq<char>) -> Seq<char> {
    Seq::new(s.len(), |i: int| ascii_upper(s[i]))
}

/// Two texts are equal up to the case of their ASCII letters.
pub open spec fn same_ignoring_ascii_case(a: Seq<char>, b: Seq<char>) -> bool {
    &&& a.len() == b.len()
    &&& forall|i: int| 0 <= i < a.len() ==> ascii_upper(#[trigger] a[i]) == ascii_upper(b[i])
}

/// Upper-cases one character if it is an ASCII letter.
pub fn to_ascii_upper(c: char) -> (r: char)
    ensures
        r == ascii_upper(c),
{
    if 'a' <= c && c <= 'z' {
        let code: u32 = c as u32;
        let up: u32 = code - 32;
        up as u8 as char
    } else {
        c
    }
}

/// Compares two texts without regard to the case of their ASCII letters.
pub fn eq_ignore_ascii_case(a: &str, b: &str) -> (r: bool)
    ensures
        r == same_ignoring_ascii_case(a@, b@),
{
    let ca = chars_of(a);
    let cb = chars_of(b);
    let n: usize = ca.len();
    if n != cb.len() {
        return false;
    }
    let mut i: usize = 0;
    while i < n
        invariant
            ca@ == a@,
            cb@ == b@,
            n == ca@.len(),
            n == cb@.len(),
            i <= n,
            forall|j: int| 0 <= j < i ==> ascii_upper(#[trigger] a@[j]) == ascii_upper(b@[j]),
        decreases n - i,
    {
        if to_ascii_upper(ca[i]) != to_ascii_upper(cb[i]) {
            return false;
        }
        i += 1;
    }
    true
}

// ---------------------------------------------------------------------------
// Whitespace
// ---------------------------------------------------------------------------

/// The characters that Unicode gives the property `White_Space`.
pub open spec fn is_whitespace(c: char) -> bool {
    let u = c as u32;
    ||| 0x09 <= u <= 0x0D
    ||| u == 0x20
    ||| u == 0x85
    ||| u == 0xA0
    ||| u == 0x1680
    ||| 0x2000 <= u <= 0x200A
    ||| u == 0x2028
    ||| u == 0x2029
    ||| u == 0x202F
    ||| u == 0x205F
    ||| u == 0x3000
}

/// A text without the whitespace at its start.
pub open spec fn skip_leading(s: Seq<char>) -> Seq<char>
    decreases s.len(),
{
    if s.len() > 0 && is_whitespace(s.first()) {
        skip_leading(s.drop_first())
    } else {
        s
    }
}

/// A text without the whitespace at its end.
pub open spec fn skip_trailing(s: Seq<char>) -> Seq<char>
    decreases s.len(),
{
    if s.len() > 0 && is_whitespace(s.last()) {
        skip_trailing(s.drop_last())
    } else {
        s
    }
}

/// A text without the whitespace at either end.
pub open spec fn trimmed(s: Seq<char>) -> Seq<char> {
    skip_trailing(skip_leading(s))
}

/// Skipping `k` leading whitespace characters up to the first other character.
pub proof fn lemma_skip_leading(s: Seq<char>, k: int)
    requires
        0 <= k <= s.len(),
        forall|j: int| 0 <= j < k ==> is_whitespace(#[trigger] s[j]),
        k == s.len() || !is_whitespace(s[k]),
    ensures
        skip_leading(s) == s.subrange(k, s.len() as int),
    decreases k,
{
    if k == 0 {
        assert(s.subrange(0, s.len() as int) =~= s);
    } else {
        let rest = s.drop_first();
        assert forall|j: int| 0 <= j < k - 1 implies is_whitespace(#[trigger] rest[j]) by {
            assert(rest[j] == s[j + 1]);
        }
        lemma_skip_leading(rest, k - 1);
        assert(rest.subrange(k - 1, rest.len() as int) =~= s.subrange(k, s.len() as int));
    }
}

/// Skipping the trailing whitespace characters from position `k` on.
pub proof fn lemma_skip_trailing(s: Seq<char>, k: int)
    requires
        0 <= k <= s.len(),
        forall|j: int| k <= j < s.len() ==> is_whitespace(#[trigger] s[j]),
        k == 0 || !is_whitespace(s[k - 1]),
    ensures
        skip_trailing(s) == s.subrange(0, k),
    decreases s.len() - k,
{
    if k == s.len() {
        assert(s.subrange(0, k) =~= s);
    } else {
        let rest = s.drop_last();
        assert forall|j: int| k <= j < rest.len() implies is_whitespace(#[trigger] rest[j]) by {
            assert(rest[j] == s[j]);
        }
        lemma_skip_trailing(rest, k);
        assert(rest.subrange(0, k) =~= s.subrange(0, k));
    }
}

/// Where the whitespace at the start of a text ends.
pub proof fn leading_whitespace_end(s: Seq<char>) -> (k: int)
    ensures
        0 <= k <= s.len(),
        forall|j: int| 0 <= j < k ==> is_whitespace(#[trigger] s[j]),
        k == s.len() || !is_whitespace(s[k]),
        skip_leading(s) == s.subrange(k, s.len() as int),
    decreases s.len(),
{
    if s.len() > 0 && is_whitespace(s.first()) {
        let rest = s.drop_first();
        let inner = leading_whitespace_end(rest);
        assert forall|j: int| 0 <= j < inner + 1 implies is_whitespace(#[trigger] s[j]) by {
            if j > 0 {
                assert(s[j] == rest[j - 1]);
            }
        }
        if inner < rest.len() {
            assert(rest[inner] == s[inner + 1]);
        }
        lemma_skip_leading(s, inner + 1);
        inner + 1
    } else {
        lemma_skip_leading(s, 0);
        0
    }
}

/// Where the whitespace at the end of a text starts.
pub proof fn trailing_whitespace_start(s: Seq<char>) -> (k: int)
    ensures
        0 <= k <= s.len(),
        forall|j: int| k <= j < s.len() ==> is_whitespace(#[trigger] s[j]),
        k == 0 || !is_whitespace(s[k - 1]),
        skip_trailing(s) == s.subrange(0, k),
    decreases s.len(),
{
    if s.len() > 0 && is_whitespace(s.last()) {
        let rest = s.drop_last();
        let inner = trailing_whitespace_start(rest);
        assert forall|j: int| inner <= j < s.len() implies is_whitespace(#[trigger] s[j]) by {
            if j < rest.len() {
                assert(s[j] == rest[j]);
            }
        }
        if inner > 0 {
            assert(rest[inner - 1] == s[inner - 1]);
        }
        lemma_skip_trailing(s, inner);
        inner
    } else {
        lemma_skip_trailing(s, s.len() as int);
        s.len() as int
    }
}

/// A trimmed text is the stretch of the text between two positions: all that
/// stands before and behind it is whitespace, and unless it is empty it neither
/// starts nor ends with whitespace.
pub proof fn law_trimmed_is_the_core(s: Seq<char>) -> (bounds: (int, int))
    ensures
        0 <= bounds.0 <= bounds.1 <= s.len(),
        trimmed(s) == s.subrange(bounds.0, bounds.1),
        forall|j: int| 0 <= j < bounds.0 ==> is_whitespace(#[trigger] s[j]),
        forall|j: int| bounds.1 <= j < s.len() ==> is_whitespace(#[trigger] s[j]),
        bounds.0 < bounds.1 ==> !is_whitespace(s[bounds.0]) && !is_whitespace(s[bounds.1 - 1]),
{
    let start = leading_whitespace_end(s);
    let tail = s.subrange(start, s.len() as int);
    let within = trailing_whitespace_start(tail);
    let end = start + within;
    assert(tail.subrange(0, within) =~= s.subrange(start, end));
    assert forall|j: int| end <= j < s.len() implies is_whitespace(#[trigger] s[j]) by {
        assert(s[j] == tail[j - start]);
    }
    if start < end {
        assert(tail[within - 1] == s[end - 1]);
    }
    (start, end)
}

/// Trimming a trimmed text changes nothing.
pub proof fn law_trim_is_idempotent(s: Seq<char>)
    ensures
        trimmed(trimmed(s)) == trimmed(s),
{
    let bounds = law_trimmed_is_the_core(s);
    let core = trimmed(s);
    if core.len() > 0 {
        assert(core[0] == s[bounds.0]);
        assert(core[core.len() - 1] == s[bounds.1 - 1]);
    }
    lemma_skip_leading(core, 0);
    lemma_skip_trailing(core, core.len() as int);
    assert(core.subrange(0, core.len() as int) =~= core);
}

/// Whether a character is whitespace.
pub fn is_whitespace_char(c: char) -> (r: bool)
    ensures
        r == is_whitespace(c),
{
    let u: u32 = c as u32;
    (0x09 <= u && u <= 0x0D) || u == 0x20 || u == 0x85 || u == 0xA0 || u == 0x1680 || (0x2000 <= u
        && u <= 0x200A) || u == 0x2028 || u == 0x2029 || u == 0x202F || u == 0x205F || u == 0x3000
}

/// The text between the first and the last character that is not whitespace.
pub fn trim(s: &str) -> (r: &str)
    ensures
        r@ == trimmed(s@),
{
    let chars = chars_of(s);
    let n: usize = chars.len();
    let mut start: usize = 0;
    while start < n && is_whitespace_char(chars[start])
        invariant
            n == chars@.len(),
            start <= n,
            forall|j: int| 0 <= j < start ==> is_whitespace(#[trigger] chars@[j]),
        decreases n - start,
    {
        start += 1;
    }
    let mut end: usize = n;
    while end > start && is_whitespace_char(chars[end - 1])
        invariant
            n == chars@.len(),
            start <= end <= n,
            forall|j: int| end <= j < n ==> is_whitespace(#[trigger] chars@[j]),
        decreases end,
    {
        end -= 1;
    }
    proof {
        let full = s@;
        let tail = full.subrange(start as int, n as int);
        lemma_skip_leading(full, start as int);
        assert forall|j: int| end - start <= j < tail.len() implies is_whitespace(
            #[trigger] tail[j],
        ) by {
            assert(tail[j] == full[j + start]);
        }
        if end > start {
            assert(tail[end - start - 1] == full[end - 1]);
        }
        lemma_skip_trailing(tail, end - start);
        assert(tail.subrange(0, end - start) =~= full.subrange(start as int, end as int));
    }
    s.substring_char(start, end)
}

// ---------------------------------------------------------------------------
// Decimal numerals
// ---------------------------------------------------------------------------

/// One of the ten decimal digits.
pub open spec fn is_digit(c: char) -> bool {
    '0' <= c && c <= '9'
}

/// The number a decimal digit stands for; 0 for any other character.
pub open spec fn digit_value(c: char) -> nat {
    if is_digit(c) {
        ((c as u32) - 0x30) as nat
    } else {
        0
    }
}

/// The decimal digit that stands for a number below ten.
pub open spec fn digit_char(d: nat) -> char {
    if d == 0 {
        '0'
    } else if d == 1 {
        '1'
    } else if d == 2 {
        '2'
    } else if d == 3 {
        '3'
    } else if d == 4 {
        '4'
    } else if d == 5 {
        '5'
    } else if d == 6 {
        '6'
    } else if d == 7 {
        '7'
    } else if d == 8 {
        '8'
    } else {
        '9'
    }
}

/// Every character of the text is a decimal digit.
pub open spec fn all_digits(s: Seq<char>) -> bool {
    forall|i: int| 0 <= i < s.len() ==> is_digit(#[trigger] s[i])
}

/// The number that a string of decimal digits stands for.
pub open spec fn decimal_value(s: Seq<char>) -> nat
    decreases s.len(),
{
    if s.len() == 0 {
        0
    } else {
        10 * decimal_value(s.drop_last()) + digit_value(s.last())
    }
}

/// The digits of an unsigned numeral: the text without one leading `+`.
pub open spec fn numeral_digits(s: Seq<char>) -> Seq<char> {
    if s.len() > 0 && s[0] == '+' {
        s.drop_first()
    } else {
        s
    }
}

/// The number a text stands for, if the text is an unsigned decimal numeral:
/// an optional `+` and then one or more decimal digits, nothing else.
pub open spec fn parsed_number(s: Seq<char>) -> Option<nat> {
    let digits = numeral_digits(s);
    if digits.len() > 0 && all_digits(digits) {
        Some(decimal_value(digits))
    } else {
        None
    }
}

/// The number a text stands for, if it is a numeral and the number fits a `usize`.
pub open spec fn parsed_usize(s: Seq<char>) -> Option<usize> {
    match parsed_number(s) {
        Some(v) => if v <= usize::MAX {
            Some(v as usize)
        } else {
            None
        },
        None => None,
    }
}

/// The shortest decimal text of a number.
pub open spec fn decimal_text(n: nat) -> Seq<char>
    decreases n,
{
    if n < 10 {
        seq![digit_char(n)]
    } else {
        decimal_text(n / 10).push(digit_char(n % 10))
    }
}

/// A prefix of a digit string stands for no more than the whole.
pub proof fn lemma_decimal_prefix(s: Seq<char>, k: int)
    requires
        0 <= k <= s.len(),
    ensures
        decimal_value(s.subrange(0, k)) <= decimal_value(s),
    decreases s.len() - k,
{
    if k == s.len() {
        assert(s.subrange(0, k) =~= s);
    } else {
        lemma_decimal_prefix(s.drop_last(), k);
        assert(s.drop_last().subrange(0, k) =~= s.subrange(0, k));
    }
}

/// The decimal text of a number is a numeral, and stands for that number.
pub proof fn law_decimal_text_reads_back(n: nat)
    ensures
        decimal_text(n).len() > 0,
        all_digits(decimal_text(n)),
        decimal_value(decimal_text(n)) == n,
        parsed_number(decimal_text(n)) == Some(n),
    decreases n,
{
    let text = decimal_text(n);
    if n < 10 {
        assert(is_digit(digit_char(n)));
        assert(digit_value(digit_char(n)) == n);
        assert(text.drop_last() =~= Seq::<char>::empty());
        assert(decimal_value(text.drop_last()) == 0);
    } else {
        law_decimal_text_reads_back(n / 10);
        let head = decimal_text(n / 10);
        let d = n % 10;
        assert(is_digit(digit_char(d)));
        assert(digit_value(digit_char(d)) == d);
        assert(text.drop_last() =~= head);
        assert(text.last() == digit_char(d));
        assert forall|i: int| 0 <= i < text.len() implies is_digit(#[trigger] text[i]) by {
            if i < head.len() {
                assert(text[i] == head[i]);
            }
        }
    }
    assert(is_digit(text[0]));
    assert(numeral_digits(text) == text);
}

/// Reads an unsigned decimal numeral; `None` if the text is no numeral or the
/// number does not fit.
pub fn parse_usize(token: &str) -> (r: Option<usize>)
    ensures
        r == parsed_usize(token@),
{
    let chars = chars_of(token);
    let n: usize = chars.len();
    let mut first: usize = 0;
    if n > 0 && chars[0] == '+' {
        first = 1;
    }
    let ghost digits = numeral_digits(token@);
    assert(digits =~= token@.subrange(first as int, n as int));
    if first == n {
        return None;
    }
    let mut i: usize = first;
    let mut acc: usize = 0;
    assert(digits.subrange(0, 0) =~= Seq::<char>::empty());
    while i < n
        invariant
            chars@ == token@,
            n == chars@.len(),
            first <= i <= n,
            first < n,
            digits == token@.subrange(first as int, n as int),
            digits == numeral_digits(token@),
            forall|j: int| 0 <= j < i - first ==> is_digit(#[trigger] digits[j]),
            acc == decimal_value(digits.subrange(0, i - first)),
        decreases n - i,
    {
        let c: char = chars[i];
        assert(c == digits[i - first]);
        if !('0' <= c && c <= '9') {
            return None;
        }
        let d: usize = ((c as u32) - 0x30) as usize;
        let ghost longer = digits.subrange(0, i - first + 1);
        assert(longer.drop_last() =~= digits.subrange(0, i - first));
        assert(longer.last() == c);
        assert(decimal_value(longer) == 10 * acc + d);
        if acc > (usize::MAX - d) / 10 {
            proof {
                lemma_decimal_prefix(digits, i - first + 1);
            }
            return None;
        }
        acc = acc * 10 + d;
        i += 1;
    }
    assert(digits.subrange(0, n - first) =~= digits);
    Some(acc)
}

/// The text of one decimal digit.
fn digit_str(d: usize) -> (s: &'static str)
    requires
        d < 10,
    ensures
        s@ == seq![digit_char(d as nat)],
{
    proof {
        reveal_strlit("0");
        reveal_strlit("1");
        reveal_strlit("2");
        reveal_strlit("3");
        reveal_strlit("4");
        reveal_strlit("5");
        reveal_strlit("6");
        reveal_strlit("7");
        reveal_strlit("8");
        reveal_strlit("9");
    }
    let s: &'static str = if d == 0 {
        "0"
    } else if d == 1 {
        "1"
    } else if d == 2 {
        "2"
    } else if d == 3 {
        "3"
    } else if d == 4 {
        "4"
    } else if d == 5 {
        "5"
    } else if d == 6 {
        "6"
    } else if d == 7 {
        "7"
    } else if d == 8 {
        "8"
    } else {
        "9"
    };
    assert(s@ =~= seq![digit_char(d as nat)]);
    s
}

/// Writes a number in decimal.
pub fn decimal_string(n: usize) -> (s: String)
    ensures
        s@ == decimal_text(n as nat),
    decreases n,
{
    if n < 10 {
        String::from_str(digit_str(n))
    } else {
        let mut s = decimal_string(n / 10);
        s.append(digit_str(n % 10));
        assert(s@ =~= decimal_text(n as nat));
        s
    }
}

} // verus!
