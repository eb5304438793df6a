//! Text operations over the characters of a string: searching, cutting, trimming, folding the
//! case of ASCII letters and reading or writing decimal numbers.
use vstd::prelude::*;

verus! {

/// `String::push` appends the given character to the end of the string.
pub assume_specification[ String::push ](text: &mut String, c: char)
    ensures
        final(text)@ == old(text)@.push(c),
;

/// The characters of Unicode's `White_Space` property.
pub open spec fn white_space(c: char) -> bool {
    ||| '\u{9}' <= c <= '\u{d}'
    ||| c == '\u{20}'
    ||| c == '\u{85}'
    ||| c == '\u{a0}'
    ||| c == '\u{1680}'
    ||| '\u{2000}' <= c <= '\u{200a}'
    ||| c == '\u{2028}'
    ||| c == '\u{2029}'
    ||| c == '\u{202f}'
    ||| c == '\u{205f}'
    ||| c == '\u{3000}'
}

/// `s` without the white space that it starts with.
pub open spec fn trimmed_start(s: Seq<char>) -> Seq<char>
    decreases s.len(),
{
    if s.len() > 0 && white_space(s[0]) {
        trimmed_start(s.skip(1))
    } else {
        s
    }
}

/// `s` without the white space that it ends with.
pub open spec fn trimmed_end(s: Seq<char>) -> Seq<char>
    decreases s.len(),
{
    if s.len() > 0 && white_space(s.last()) {
        trimmed_end(s.drop_last())
    } else {
        s
    }
}

/// `s` without the white space at either end.
pub open spec fn trimmed(s: Seq<char>) -> Seq<char> {
    trimmed_end(trimmed_start(s))
}

/// An upper-case ASCII letter in lower case, any other character as it is.
pub open spec fn lower_char(c: char) -> char {
    if 'A' <= c <= 'Z' {
        (c as u8 + 32) as char
    } else {
        c
    }
}

/// `s` with its ASCII letters in lower case.
pub open spec fn lower(s: Seq<char>) -> Seq<char> {
    Seq::new(s.len(), |i: int| lower_char(s[i]))
}

/// Whether two texts differ at most in the case of their ASCII letters.
pub open spec fn same_ignoring_case(a: Seq<char>, b: Seq<char>) -> bool {
    lower(a) == lower(b)
}

/// Whether `pattern` stands in `s` at position `i`.
pub open spec fn occurs_at(s: Seq<char>, pattern: Seq<char>, i: int) -> bool {
    0 <= i && i + pattern.len() <= s.len() && s.subrange(i, i + pattern.len()) == pattern
}

/// Whether `pattern` stands anywhere in `s`.
pub open spec fn holds(s: Seq<char>, pattern: Seq<char>) -> bool {
    exists|i: int| occurs_at(s, pattern, i)
}

/// The first position, from `from` on, at which `pattern` stands in `s`.
pub open spec fn found_from(s: Seq<char>, pattern: Seq<char>, from: int) -> Option<int>
    decreases s.len() + 1 - from,
{
    if from + pattern.len() > s.len() {
        None
    } else if occurs_at(s, pattern, from) {
        Some(from)
    } else {
        found_from(s, pattern, from + 1)
    }
}

/// The first position at which `pattern` stands in `s`.
pub open spec fn found(s: Seq<char>, pattern: Seq<char>) -> Option<int> {
    found_from(s, pattern, 0)
}

/// The last position below `below` at which `pattern` stands in `s`.
pub open spec fn found_last_below(s: Seq<char>, pattern: Seq<char>, below: int) -> Option<int>
    decreases below,
{
    if below <= 0 {
        None
    } else if occurs_at(s, pattern, below - 1) {
        Some(below - 1)
    } else {
        found_last_below(s, pattern, below - 1)
    }
}

/// The last position at which `pattern` stands in `s`.
pub open spec fn found_last(s: Seq<char>, pattern: Seq<char>) -> Option<int> {
    found_last_below(s, pattern, s.len() - pattern.len() + 1)
}

/// What stands in `s` before the first `pattern`, the whole of `s` if there is none.
pub open spec fn before_first(s: Seq<char>, pattern: Seq<char>) -> Seq<char> {
    match found(s, pattern) {
        Some(i) => s.take(i),
        None => s,
    }
}

/// What stands in `s` behind the first `pattern`.
pub open spec fn after_first(s: Seq<char>, pattern: Seq<char>) -> Option<Seq<char>> {
    match found(s, pattern) {
        Some(i) => Some(s.skip(i + pattern.len())),
        None => None,
    }
}

/// What stands in `s` behind the last `pattern`, the whole of `s` if there is none.
pub open spec fn after_last(s: Seq<char>, pattern: Seq<char>) -> Seq<char> {
    match found_last(s, pattern) {
        Some(i) => s.skip(i + pattern.len()),
        None => s,
    }
}

/// The pieces of `s` between the separators, from left to right.
pub open spec fn pieces(s: Seq<char>, separator: Seq<char>) -> Seq<Seq<char>>
    decreases s.len(),
{
    match found(s, separator) {
        Some(i) => if separator.len() > 0 && 0 <= i && i + separator.len() <= s.len() {
            seq![s.take(i)] + pieces(s.skip(i + separator.len()), separator)
        } else {
            seq![s]
        },
        None => seq![s],
    }
}

/// `s` with every `pattern`, taken from left to right, replaced by `substitute`.
pub open spec fn replaced(s: Seq<char>, pattern: Seq<char>, substitute: Seq<char>) -> Seq<char>
    decreases s.len(),
{
    match found(s, pattern) {
        Some(i) => if pattern.len() > 0 && 0 <= i && i + pattern.len() <= s.len() {
            s.take(i) + substitute + replaced(s.skip(i + pattern.len()), pattern, substitute)
        } else {
            s
        },
        None => s,
    }
}

/// `s` with its first `pattern` replaced by `substitute`.
pub open spec fn replaced_once(s: Seq<char>, pattern: Seq<char>, substitute: Seq<char>) -> Seq<char> {
    match found(s, pattern) {
        Some(i) => s.take(i) + substitute + s.skip(i + pattern.len()),
        None => s,
    }
}

/// What stands in `s` behind `prefix`, if `s` starts with it.
pub open spec fn stripped(s: Seq<char>, prefix: Seq<char>) -> Option<Seq<char>> {
    if prefix.len() <= s.len() && s.take(prefix.len() as int) == prefix {
        Some(s.skip(prefix.len() as int))
    } else {
        None
    }
}

/// Whether `a` stands before `b`, or is `b`, in the order of their first differing characters.
pub open spec fn ordered(a: Seq<char>, b: Seq<char>) -> bool
    decreases a.len(),
{
    if a.len() == 0 {
        true
    } else if b.len() == 0 {
        false
    } else if a[0] == b[0] {
        ordered(a.skip(1), b.skip(1))
    } else {
        a[0] < b[0]
    }
}

/// Whether every character of `s` is a decimal digit.
pub open spec fn all_digits(s: Seq<char>) -> bool {
    forall|i: int| 0 <= i < s.len() ==> '0' <= #[trigger] s[i] <= '9'
}

/// The number that the digits of `s` write.
pub open spec fn digits_value(s: Seq<char>) -> nat
    decreases s.len(),
{
    if s.len() == 0 {
        0
    } else {
        10 * digits_value(s.drop_last()) + (s.last() as nat - '0' as nat) as nat
    }
}

/// The digits of a port number: at least one, behind an optional plus sign.
pub open spec fn port_digits(s: Seq<char>) -> Seq<char> {
    if s.len() > 0 && s[0] == '+' {
        s.skip(1)
    } else {
        s
    }
}

/// The number from 0 to 65535 that `s` writes in decimal, if it does.
pub open spec fn port_value(s: Seq<char>) -> Option<u16> {
    let digits = port_digits(s);
    if digits.len() > 0 && all_digits(digits) && digits_value(digits) <= u16::MAX {
        Some(digits_value(digits) as u16)
    } else {
        None
    }
}

/// The character that writes a digit.
pub open spec fn digit_char(d: nat) -> char {
    ('0' as u8 + d) as char
}

/// `n` in decimal, without leading zeros.
pub open spec fn decimal(n: nat) -> Seq<char>
    decreases n,
{
    if n < 10 {
        seq![digit_char(n)]
    } else {
        decimal(n / 10).push(digit_char(n % 10))
    }
}

/// The characters of texts.
pub open spec fn texts_of(strs: Seq<&str>) -> Seq<Seq<char>> {
    Seq::new(strs.len(), |i: int| strs[i]@)
}

/// The characters of a text.
pub fn chars_of(text: &str) -> (chars: Vec<char>)
    ensures
        chars@ == text@,
{
    let mut chars: Vec<char> = Vec::new();
    for c in it: text.chars()
        invariant
            it.seq() == text@,
            chars@ == text@.take(it.index() as int),
    {
        chars.push(c);
    }
    chars
}

/// Whether a character has Unicode's `White_Space` property.
pub fn is_white_space(c: char) -> (r: bool)
    ensures
        r == white_space(c),
{
    ('\u{9}' <= c && c <= '\u{d}') || c == '\u{20}' || c == '\u{85}' || c == '\u{a0}' || c
        == '\u{1680}' || ('\u{2000}' <= c && c <= '\u{200a}') || c == '\u{2028}' || c
        == '\u{2029}' || c == '\u{202f}' || c == '\u{205f}' || c == '\u{3000}'
}

/// The text without the white space at either end.
pub fn trim(text: &str) -> (r: &str)
    ensures
        r@ == trimmed(text@),
{
    let chars = chars_of(text);
    let mut start: usize = 0;
    let mut end: usize = chars.len();
    assert(text@.skip(0) == text@);
    while start < end && is_white_space(chars[start])
        invariant
            chars@ == text@,
            end == chars.len(),
            start <= end,
            trimmed_start(text@) == trimmed_start(text@.skip(start as int)),
        decreases end - start,
    {
        assert(text@.skip(start as int).skip(1) == text@.skip(start + 1));
        start = start + 1;
    }
    assert(trimmed_start(text@) == text@.skip(start as int));
    assert(text@.subrange(start as int, end as int) == text@.skip(start as int));
    while start < end && is_white_space(chars[end - 1])
        invariant
            chars@ == text@,
            start <= end <= chars.len(),
            trimmed(text@) == trimmed_end(text@.subrange(start as int, end as int)),
        decreases end - start,
    {
        assert(text@.subrange(start as int, end as int).drop_last() == text@.subrange(
            start as int,
            end - 1,
        ));
        end = end - 1;
    }
    text.substring_char(start, end)
}

/// The character with an upper-case ASCII letter put in lower case.
pub fn to_lower_char(c: char) -> (r: char)
    ensures
        r == lower_char(c),
{
    if 'A' <= c && c <= 'Z' {
        (c as u8 + 32) as char
    } else {
        c
    }
}

/// The text with its ASCII letters in lower case.
pub fn to_ascii_lowercase(text: &str) -> (r: String)
    ensures
        r@ == lower(text@),
{
    let chars = chars_of(text);
    let mut r = String::new();
    for i in 0..chars.len()
        invariant
            chars@ == text@,
            r@ == lower(text@).take(i as int),
    {
        r.push(to_lower_char(chars[i]));
        assert(r@ == lower(text@).take(i + 1));
    }
    assert(lower(text@).take(chars.len() as int) == lower(text@));
    r
}

/// Whether two texts differ at most in the case of their ASCII letters.
pub fn eq_ignore_ascii_case(a: &str, b: &str) -> (r: bool)
    ensures
        r == same_ignoring_case(a@, b@),
{
    let xs = chars_of(a);
    let ys = chars_of(b);
    if xs.len() != ys.len() {
        assert(lower(a@).len() != lower(b@).len());
        return false;
    }
    for i in 0..xs.len()
        invariant
            xs@ == a@,
            ys@ == b@,
            xs.len() == ys.len(),
            forall|j: int| 0 <= j < i ==> #[trigger] lower(a@)[j] == lower(b@)[j],
    {
        if to_lower_char(xs[i]) != to_lower_char(ys[i]) {
            assert(lower(a@)[i as int] != lower(b@)[i as int]);
            return false;
        }
    }
    assert(lower(a@) =~= lower(b@));
    true
}

/// Whether two texts are the same.
pub fn same(a: &str, b: &str) -> (r: bool)
    ensures
        r == (a@ == b@),
{
    let xs = chars_of(a);
    let ys = chars_of(b);
    if xs.len() != ys.len() {
        return false;
    }
    for i in 0..xs.len()
        invariant
            xs@ == a@,
            ys@ == b@,
            xs.len() == ys.len(),
            forall|j: int| 0 <= j < i ==> #[trigger] a@[j] == b@[j],
    {
        if xs[i] != ys[i] {
            return false;
        }
    }
    assert(a@ =~= b@);
    true
}

/// What `found_from` names: the first position from `from` on, or that there is none.
proof fn lemma_found_from(s: Seq<char>, pattern: Seq<char>, from: int)
    requires
        0 <= from,
    ensures
        match found_from(s, pattern, from) {
            Some(i) => from <= i && occurs_at(s, pattern, i) && forall|j: int|
                from <= j < i ==> !occurs_at(s, pattern, j),
            None => forall|j: int| from <= j ==> !occurs_at(s, pattern, j),
        },
    decreases s.len() + 1 - from,
{
    if from + pattern.len() > s.len() {
    } else if occurs_at(s, pattern, from) {
    } else {
        lemma_found_from(s, pattern, from + 1);
    }
}

/// What `found` names: the first position at which the pattern stands, or that it stands nowhere.
pub proof fn lemma_found(s: Seq<char>, pattern: Seq<char>)
    ensures
        match found(s, pattern) {
            Some(i) => occurs_at(s, pattern, i) && forall|j: int|
                j < i ==> !occurs_at(s, pattern, j),
            None => !holds(s, pattern),
        },
{
    lemma_found_from(s, pattern, 0);
}

proof fn lemma_found_last_below(s: Seq<char>, pattern: Seq<char>, below: int)
    ensures
        match found_last_below(s, pattern, below) {
            Some(i) => i < below && occurs_at(s, pattern, i) && forall|j: int|
                i < j < below ==> !occurs_at(s, pattern, j),
            None => forall|j: int| j < below ==> !occurs_at(s, pattern, j),
        },
    decreases below,
{
    if below <= 0 {
    } else if occurs_at(s, pattern, below - 1) {
    } else {
        lemma_found_last_below(s, pattern, below - 1);
    }
}

/// What `found_last` names: the last position at which the pattern stands, or that it stands
/// nowhere.
pub proof fn lemma_found_last(s: Seq<char>, pattern: Seq<char>)
    ensures
        match found_last(s, pattern) {
            Some(i) => occurs_at(s, pattern, i) && forall|j: int|
                i < j ==> !occurs_at(s, pattern, j),
            None => !holds(s, pattern),
        },
{
    lemma_found_last_below(s, pattern, s.len() - pattern.len() + 1);
}

/// Whether the pattern stands in the text at position `i`.
fn stands_at(text: &Vec<char>, pattern: &Vec<char>, i: usize) -> (r: bool)
    requires
        i + pattern.len() <= text.len(),
    ensures
        r == occurs_at(text@, pattern@, i as int),
{
    for k in 0..pattern.len()
        invariant
            i + pattern.len() <= text.len(),
            forall|j: int| 0 <= j < k ==> #[trigger] pattern@[j] == text@[i + j],
    {
        if text[i + k] != pattern[k] {
            assert(text@.subrange(i as int, i + pattern@.len())[k as int] != pattern@[k as int]);
            return false;
        }
    }
    assert(text@.subrange(i as int, i + pattern@.len()) =~= pattern@);
    true
}

/// The first position at which the pattern stands in the text.
pub fn find(text: &str, pattern: &str) -> (r: Option<usize>)
    ensures
        match r {
            Some(i) => found(text@, pattern@) == Some(i as int),
            None => found(text@, pattern@) is None,
        },
{
    let xs = chars_of(text);
    let ps = chars_of(pattern);
    if ps.len() > xs.len() {
        return None;
    }
    let last: usize = xs.len() - ps.len();
    let mut i: usize = 0;
    loop
        invariant
            xs@ == text@,
            ps@ == pattern@,
            last == xs.len() - ps.len(),
            i <= last,
            found(text@, pattern@) == found_from(text@, pattern@, i as int),
        decreases last - i,
    {
        if stands_at(&xs, &ps, i) {
            return Some(i);
        }
        if i == last {
            assert(found_from(text@, pattern@, i + 1) is None);
            return None;
        }
        i = i + 1;
    }
}

/// The last position at which the pattern stands in the text.
pub fn rfind(text: &str, pattern: &str) -> (r: Option<usize>)
    ensures
        match r {
            Some(i) => found_last(text@, pattern@) == Some(i as int),
            None => found_last(text@, pattern@) is None,
        },
{
    let xs = chars_of(text);
    let ps = chars_of(pattern);
    if ps.len() > xs.len() {
        return None;
    }
    let mut i: usize = xs.len() - ps.len();
    loop
        invariant
            xs@ == text@,
            ps@ == pattern@,
            i <= xs.len() - ps.len(),
            found_last(text@, pattern@) == found_last_below(text@, pattern@, i + 1),
        decreases i,
    {
        if stands_at(&xs, &ps, i) {
            return Some(i);
        }
        if i == 0 {
            assert(found_last_below(text@, pattern@, 0) is None);
            return None;
        }
        i = i - 1;
    }
}

/// The pieces of the text between the separators, from left to right.
pub fn split(text: &str, separator: &str) -> (r: Vec<String>)
    requires
        separator@.len() > 0,
    ensures
        r.deep_view() == pieces(text@, separator@),
{
    let step: usize = separator.unicode_len();
    let mut r: Vec<String> = Vec::new();
    let mut rest = text;
    loop
        invariant
            step == separator@.len(),
            separator@.len() > 0,
            r.deep_view() + pieces(rest@, separator@) == pieces(text@, separator@),
        decreases rest@.len(),
    {
        proof {
            lemma_found(rest@, separator@);
        }
        let ghost before = r.deep_view();
        match find(rest, separator) {
            Some(i) => {
                let piece = rest.substring_char(0, i);
                let len: usize = rest.unicode_len();
                let tail = rest.substring_char(i + step, len);
                r.push(piece.to_string());
                assert(piece@ == rest@.take(i as int));
                assert(tail@ == rest@.skip(i + step));
                assert(r.deep_view() == before.push(piece@));
                assert(before.push(piece@) + pieces(tail@, separator@) == before + (seq![piece@]
                    + pieces(tail@, separator@)));
                rest = tail;
            },
            None => {
                r.push(rest.to_string());
                assert(r.deep_view() == before + seq![rest@]);
                return r;
            },
        }
    }
}

/// The text with every pattern, taken from left to right, replaced by the substitute.
pub fn replace(text: &str, pattern: &str, substitute: &str) -> (r: String)
    requires
        pattern@.len() > 0,
    ensures
        r@ == replaced(text@, pattern@, substitute@),
{
    let step: usize = pattern.unicode_len();
    let mut r = String::new();
    let mut rest = text;
    assert(r@ + replaced(rest@, pattern@, substitute@) == replaced(text@, pattern@, substitute@));
    loop
        invariant
            step == pattern@.len(),
            pattern@.len() > 0,
            r@ + replaced(rest@, pattern@, substitute@) == replaced(text@, pattern@, substitute@),
        decreases rest@.len(),
    {
        proof {
            lemma_found(rest@, pattern@);
        }
        let ghost before = r@;
        match find(rest, pattern) {
            Some(i) => {
                let piece = rest.substring_char(0, i);
                let len: usize = rest.unicode_len();
                let tail = rest.substring_char(i + step, len);
                r.append(piece);
                r.append(substitute);
                assert(piece@ == rest@.take(i as int));
                assert(tail@ == rest@.skip(i + step));
                assert(r@ + replaced(tail@, pattern@, substitute@) == before + (rest@.take(
                    i as int,
                ) + substitute@ + replaced(tail@, pattern@, substitute@)));
                rest = tail;
            },
            None => {
                r.append(rest);
                return r;
            },
        }
    }
}

/// The text with its first pattern replaced by the substitute.
pub fn replace_once(text: &str, pattern: &str, substitute: &str) -> (r: String)
    ensures
        r@ == replaced_once(text@, pattern@, substitute@),
{
    proof {
        lemma_found(text@, pattern@);
    }
    match find(text, pattern) {
        Some(i) => {
            let len: usize = text.unicode_len();
            let step: usize = pattern.unicode_len();
            let mut r = text.substring_char(0, i).to_string();
            r.append(substitute);
            r.append(text.substring_char(i + step, len));
            assert(r@ == text@.take(i as int) + substitute@ + text@.skip(i + step));
            r
        },
        None => text.to_string(),
    }
}

/// What stands in the text behind the prefix, if the text starts with it.
pub fn strip_prefix<'a>(text: &'a str, prefix: &str) -> (r: Option<&'a str>)
    ensures
        match r {
            Some(rest) => stripped(text@, prefix@) == Some(rest@),
            None => stripped(text@, prefix@) is None,
        },
{
    let xs = chars_of(text);
    let ps = chars_of(prefix);
    if ps.len() > xs.len() {
        return None;
    }
    assert(text@.subrange(0, prefix@.len() as int) == text@.take(prefix@.len() as int));
    if stands_at(&xs, &ps, 0) {
        assert(text@.subrange(prefix@.len() as int, text@.len() as int) == text@.skip(
            prefix@.len() as int,
        ));
        Some(text.substring_char(ps.len(), xs.len()))
    } else {
        None
    }
}

/// What stands in the text before the first pattern, the whole text if there is none.
pub fn cut_before_first<'a>(text: &'a str, pattern: &str) -> (r: &'a str)
    ensures
        r@ == before_first(text@, pattern@),
{
    proof {
        lemma_found(text@, pattern@);
    }
    match find(text, pattern) {
        Some(i) => {
            assert(text@.subrange(0, i as int) == text@.take(i as int));
            text.substring_char(0, i)
        },
        None => text,
    }
}

/// What stands in the text behind the first pattern.
pub fn cut_after_first<'a>(text: &'a str, pattern: &str) -> (r: Option<&'a str>)
    ensures
        match r {
            Some(rest) => after_first(text@, pattern@) == Some(rest@),
            None => after_first(text@, pattern@) is None,
        },
{
    proof {
        lemma_found(text@, pattern@);
    }
    match find(text, pattern) {
        Some(i) => {
            let end: usize = text.unicode_len();
            let start: usize = i + pattern.unicode_len();
            assert(text@.subrange(start as int, end as int) == text@.skip(start as int));
            Some(text.substring_char(start, end))
        },
        None => None,
    }
}

/// What stands in the text behind the last pattern, the whole text if there is none.
pub fn cut_after_last<'a>(text: &'a str, pattern: &str) -> (r: &'a str)
    ensures
        r@ == after_last(text@, pattern@),
{
    proof {
        lemma_found_last(text@, pattern@);
    }
    match rfind(text, pattern) {
        Some(i) => {
            let end: usize = text.unicode_len();
            let start: usize = i + pattern.unicode_len();
            assert(text@.subrange(start as int, end as int) == text@.skip(start as int));
            text.substring_char(start, end)
        },
        None => text,
    }
}

/// Whether `a` stands before `b`, or is `b`, in the order of their first differing characters.
pub fn at_most(a: &str, b: &str) -> (r: bool)
    ensures
        r == ordered(a@, b@),
{
    let xs = chars_of(a);
    let ys = chars_of(b);
    let mut i: usize = 0;
    assert(a@.skip(0) == a@);
    assert(b@.skip(0) == b@);
    while i < xs.len() && i < ys.len()
        invariant
            xs@ == a@,
            ys@ == b@,
            i <= xs.len(),
            i <= ys.len(),
            ordered(a@, b@) == ordered(a@.skip(i as int), b@.skip(i as int)),
        decreases xs.len() - i,
    {
        assert(a@.skip(i as int).skip(1) == a@.skip(i + 1));
        assert(b@.skip(i as int).skip(1) == b@.skip(i + 1));
        if xs[i] != ys[i] {
            return xs[i] < ys[i];
        }
        i = i + 1;
    }
    i == xs.len()
}

/// Of two texts at least one stands before the other or is the other.
pub proof fn lemma_ordered_total(a: Seq<char>, b: Seq<char>)
    ensures
        ordered(a, b) || ordered(b, a),
    decreases a.len(),
{
    if a.len() > 0 && b.len() > 0 && a[0] == b[0] {
        lemma_ordered_total(a.skip(1), b.skip(1));
    }
}

/// Two texts that stand before one another or are one another are the same.
pub proof fn lemma_ordered_antisymmetric(a: Seq<char>, b: Seq<char>)
    requires
        ordered(a, b),
        ordered(b, a),
    ensures
        a == b,
    decreases a.len(),
{
    if a.len() > 0 && b.len() > 0 {
        lemma_ordered_antisymmetric(a.skip(1), b.skip(1));
        assert(a =~= seq![a[0]] + a.skip(1));
        assert(b =~= seq![b[0]] + b.skip(1));
    } else {
        assert(a =~= b);
    }
}

/// A text that stands before a second stands before all that the second stands before.
pub proof fn lemma_ordered_transitive(a: Seq<char>, b: Seq<char>, c: Seq<char>)
    requires
        ordered(a, b),
        ordered(b, c),
    ensures
        ordered(a, c),
    decreases a.len(),
{
    if a.len() > 0 && b.len() > 0 && c.len() > 0 {
        if a[0] == b[0] && b[0] == c[0] {
            lemma_ordered_transitive(a.skip(1), b.skip(1), c.skip(1));
        }
    }
}

proof fn lemma_digits_value_grows(s: Seq<char>, n: int)
    requires
        all_digits(s),
        0 <= n <= s.len(),
    ensures
        digits_value(s.take(n)) <= digits_value(s),
    decreases s.len(),
{
    if n == s.len() {
        assert(s.take(n) == s);
    } else {
        assert(all_digits(s.drop_last()));
        assert(s.drop_last().take(n) == s.take(n));
        lemma_digits_value_grows(s.drop_last(), n);
    }
}

/// The number from 0 to 65535 that the text writes in decimal, if it does.
pub fn parse_port(text: &str) -> (r: Option<u16>)
    ensures
        r == port_value(text@),
{
    let chars = chars_of(text);
    let start: usize = if chars.len() > 0 && chars[0] == '+' {
        1
    } else {
        0
    };
    if start == chars.len() {
        return None;
    }
    let ghost digits = port_digits(text@);
    assert(digits == text@.skip(start as int));
    let mut value: u32 = 0;
    for i in start..chars.len()
        invariant
            chars@ == text@,
            start < chars.len(),
            digits == text@.skip(start as int),
            digits == port_digits(text@),
            all_digits(digits.take(i - start)),
            value == digits_value(digits.take(i - start)),
            value <= u16::MAX,
    {
        let c = chars[i];
        assert(digits[i - start] == c);
        if c < '0' || '9' < c {
            return None;
        }
        let ghost next = digits.take(i + 1 - start);
        assert(next.drop_last() == digits.take(i - start));
        value = value * 10 + (c as u32 - '0' as u32);
        assert(value == digits_value(next));
        if value > 65535 {
            proof {
                if all_digits(digits) {
                    lemma_digits_value_grows(digits, i + 1 - start);
                }
            }
            return None;
        }
    }
    assert(digits.take(chars.len() - start) == digits);
    Some(value as u16)
}

/// A number in decimal.
pub fn decimal_u16(n: u16) -> (r: String)
    ensures
        r@ == decimal(n as nat),
    decreases n,
{
    let digit = ('0' as u8 + (n % 10) as u8) as char;
    let mut r = if n < 10 {
        String::new()
    } else {
        decimal_u16(n / 10)
    };
    r.push(digit);
    assert(r@ == decimal(n as nat));
    r
}

} // verus!
