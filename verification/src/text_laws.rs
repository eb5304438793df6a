//! What always holds of the text operations.
use vstd::prelude::*;

use crate::text::{after_first, after_last, all_digits, before_first, decimal, digit_char, digits_value, found, found_last, holds, lemma_found, lemma_found_last, lower, lower_char, occurs_at, ordered, pieces, port_digits, port_value, replaced, replaced_once, same_ignoring_case, stripped, trimmed, trimmed_end, trimmed_start, white_space};

verus! {

/// What a trimmed text has no white space at: its ends.
pub open spec fn bare(s: Seq<char>) -> bool {
    s.len() > 0 ==> !white_space(s[0]) && !white_space(s.last())
}

proof fn lemma_trimmed_start(s: Seq<char>)
    ensures
        trimmed_start(s).len() > 0 ==> !white_space(trimmed_start(s)[0]),
    decreases s.len(),
{
    if s.len() > 0 && white_space(s[0]) {
        lemma_trimmed_start(s.skip(1));
    }
}

proof fn lemma_trimmed_end(s: Seq<char>)
    requires
        s.len() > 0 ==> !white_space(s[0]),
    ensures
        bare(trimmed_end(s)),
    decreases s.len(),
{
    if s.len() > 0 && white_space(s.last()) {
        assert(s.drop_last().len() > 0 ==> s.drop_last()[0] == s[0]);
        lemma_trimmed_end(s.drop_last());
    }
}

/// A trimmed text neither starts nor ends with white space.
pub proof fn law_trimmed_is_bare(s: Seq<char>)
    ensures
        bare(trimmed(s)),
{
    lemma_trimmed_start(s);
    lemma_trimmed_end(trimmed_start(s));
}

/// Trimming a text that has no white space at its ends changes nothing.
pub proof fn law_trim_keeps_bare(s: Seq<char>)
    requires
        bare(s),
    ensures
        trimmed(s) == s,
{
}

/// Trimming twice is trimming once.
pub proof fn law_trim_twice(s: Seq<char>)
    ensures
        trimmed(trimmed(s)) == trimmed(s),
{
    law_trimmed_is_bare(s);
    law_trim_keeps_bare(trimmed(s));
}

/// Texts that differ at most in case are the same for this comparison: it is reflexive, symmetric
/// and transitive.
pub proof fn law_same_ignoring_case_is_equivalence(a: Seq<char>, b: Seq<char>, c: Seq<char>)
    ensures
        same_ignoring_case(a, a),
        same_ignoring_case(a, b) ==> same_ignoring_case(b, a),
        same_ignoring_case(a, b) && same_ignoring_case(b, c) ==> same_ignoring_case(a, c),
{
}

/// A text and its lower-case form differ at most in case.
pub proof fn law_lower_is_same(a: Seq<char>)
    ensures
        same_ignoring_case(a, lower(a)),
{
    assert forall|i: int| 0 <= i < a.len() implies #[trigger] lower(lower(a))[i] == lower(a)[i] by {
        lemma_lower_char_twice(a[i]);
    }
    assert(lower(lower(a)) =~= lower(a));
}

proof fn lemma_lower_char_twice(c: char)
    ensures
        lower_char(lower_char(c)) == lower_char(c),
{
    if 'A' <= c <= 'Z' {
        let d = lower_char(c);
        assert(d as u8 == c as u8 + 32);
    }
}

/// A pattern that stands in a part of a text stands in the text.
pub proof fn lemma_holds_part(s: Seq<char>, pattern: Seq<char>, from: int, to: int)
    requires
        0 <= from <= to <= s.len(),
        holds(s.subrange(from, to), pattern),
    ensures
        holds(s, pattern),
{
    let part = s.subrange(from, to);
    let i = choose|i: int| occurs_at(part, pattern, i);
    assert(part.subrange(i, i + pattern.len()) =~= s.subrange(from + i, from + i + pattern.len()));
    assert(occurs_at(s, pattern, from + i));
}

/// A pattern does not come to stand across a substitute whose ends it does not contain.
proof fn lemma_not_across(a: Seq<char>, sub: Seq<char>, c: Seq<char>, pattern: Seq<char>)
    requires
        pattern.len() > 0,
        sub.len() > 0,
        !pattern.contains(sub[0]),
        !pattern.contains(sub.last()),
        !holds(a, pattern),
        !holds(sub, pattern),
        !holds(c, pattern),
    ensures
        !holds(a + sub + c, pattern),
{
    let s = a + sub + c;
    if holds(s, pattern) {
        let j = choose|j: int| occurs_at(s, pattern, j);
        let n = pattern.len() as int;
        let part = s.subrange(j, j + n);
        assert(part == pattern);
        let first = a.len() as int;
        let last = first + sub.len() - 1;
        if j + n <= first {
            assert(a.subrange(j, j + n) =~= part);
            assert(occurs_at(a, pattern, j));
        } else if j > last {
            assert(c.subrange(j - last - 1, j - last - 1 + n) =~= part);
            assert(occurs_at(c, pattern, j - last - 1));
        } else if j <= first {
            assert(s[first] == sub[0]);
            assert(part[first - j] == sub[0]);
        } else if j + n > last {
            assert(s[last] == sub.last());
            assert(part[last - j] == sub.last());
        } else {
            assert(sub.subrange(j - first, j - first + n) =~= part);
            assert(occurs_at(sub, pattern, j - first));
        }
    }
}

/// Where every `pattern` is replaced by a substitute, a text that could stand there neither in the
/// substitute nor across its ends stands there nowhere, if it is the pattern itself or did not
/// stand there before.
pub proof fn law_replaced_is_free(
    s: Seq<char>,
    pattern: Seq<char>,
    sub: Seq<char>,
    other: Seq<char>,
)
    requires
        pattern.len() > 0,
        other.len() > 0,
        sub.len() > 0,
        !other.contains(sub[0]),
        !other.contains(sub.last()),
        !holds(sub, other),
        other == pattern || !holds(s, other),
    ensures
        !holds(replaced(s, pattern, sub), other),
    decreases s.len(),
{
    lemma_found(s, pattern);
    if let Some(i) = found(s, pattern) {
        let head = s.take(i);
        let tail = s.skip(i + pattern.len());
        if holds(head, other) {
            if other == pattern {
                let j = choose|j: int| occurs_at(head, pattern, j);
                assert(head.subrange(j, j + pattern.len()) =~= s.subrange(j, j + pattern.len()));
                assert(occurs_at(s, pattern, j));
            } else {
                assert(head =~= s.subrange(0, i));
                lemma_holds_part(s, other, 0, i);
            }
        }
        if other != pattern && holds(tail, other) {
            assert(tail =~= s.subrange(i + pattern.len(), s.len() as int));
            lemma_holds_part(s, other, i + pattern.len(), s.len() as int);
        }
        law_replaced_is_free(tail, pattern, sub, other);
        lemma_not_across(head, sub, replaced(tail, pattern, sub), other);
    }
}

/// A number reads back from its decimal form, which consists of digits.
pub proof fn lemma_decimal(n: nat)
    ensures
        decimal(n).len() > 0,
        all_digits(decimal(n)),
        digits_value(decimal(n)) == n,
    decreases n,
{
    reveal_with_fuel(digits_value, 2);
    if n < 10 {
        let s = decimal(n);
        assert(s[0] as nat == '0' as nat + n);
        assert(s.drop_last() =~= Seq::<char>::empty());
        assert(digits_value(s.drop_last()) == 0);
    } else {
        lemma_decimal(n / 10);
        let s = decimal(n);
        assert(s.drop_last() =~= decimal(n / 10));
        assert(s.last() == digit_char(n % 10));
        assert(s.last() as nat == '0' as nat + n % 10);
        assert forall|i: int| 0 <= i < s.len() implies '0' <= #[trigger] s[i] <= '9' by {
            if i < s.len() - 1 {
                assert(s[i] == decimal(n / 10)[i]);
            }
        }
    }
}

/// A port number reads back from its decimal form.
pub proof fn law_port_round_trip(port: u16)
    ensures
        port_value(decimal(port as nat)) == Some(port),
{
    lemma_decimal(port as nat);
    let s = decimal(port as nat);
    assert('0' <= s[0] <= '9');
    assert(port_digits(s) == s);
}

/// Splitting takes a piece without the separator's character off the front.
pub proof fn law_split_front(piece: Seq<char>, separator: char, rest: Seq<char>)
    requires
        !piece.contains(separator),
    ensures
        pieces(piece + seq![separator] + rest, seq![separator]) == seq![piece] + pieces(
            rest,
            seq![separator],
        ),
{
    let sep = seq![separator];
    let s = piece + sep + rest;
    let n = piece.len() as int;
    lemma_found(s, sep);
    assert(s.subrange(n, n + 1) =~= sep);
    assert(occurs_at(s, sep, n));
    let i = found(s, sep)->0;
    assert(s.subrange(i, i + 1)[0] == s[i]);
    if i < n {
        assert(piece[i] == s[i]);
        assert(piece.contains(separator));
    }
    assert(i == n);
    assert(s.take(n) =~= piece);
    assert(s.skip(n + 1) =~= rest);
}

/// A text without the separator's character is one piece.
pub proof fn law_split_whole(piece: Seq<char>, separator: char)
    requires
        !piece.contains(separator),
    ensures
        pieces(piece, seq![separator]) == seq![piece],
{
    let sep = seq![separator];
    lemma_found(piece, sep);
    if let Some(i) = found(piece, sep) {
        assert(piece.subrange(i, i + 1)[0] == piece[i]);
        assert(piece.contains(separator));
    }
}

/// The characters that count as white space, by their numbers in Unicode.
pub proof fn law_white_space(c: char)
    ensures
        white_space(c) <==> {
            let n = c as int;
            9 <= n <= 13 || n == 32 || n == 133 || n == 160 || n == 5760 || 8192 <= n <= 8202 || n
                == 8232 || n == 8233 || n == 8239 || n == 8287 || n == 12288
        },
{
}

proof fn lemma_start_of_trimmed(s: Seq<char>) -> (from: int)
    ensures
        0 <= from <= s.len(),
        trimmed_start(s) == s.skip(from),
        forall|i: int| 0 <= i < from ==> white_space(#[trigger] s[i]),
    decreases s.len(),
{
    if s.len() > 0 && white_space(s[0]) {
        let rest = s.skip(1);
        let from = lemma_start_of_trimmed(rest);
        assert(rest.skip(from) =~= s.skip(from + 1));
        assert forall|i: int| 0 <= i < from + 1 implies white_space(#[trigger] s[i]) by {
            if i > 0 {
                assert(white_space(rest[i - 1]));
            }
        }
        from + 1
    } else {
        assert(s.skip(0) =~= s);
        0
    }
}

proof fn lemma_end_of_trimmed(s: Seq<char>) -> (to: int)
    ensures
        0 <= to <= s.len(),
        trimmed_end(s) == s.take(to),
        forall|i: int| to <= i < s.len() ==> white_space(#[trigger] s[i]),
    decreases s.len(),
{
    if s.len() > 0 && white_space(s.last()) {
        let front = s.drop_last();
        let to = lemma_end_of_trimmed(front);
        assert(front.take(to) =~= s.take(to));
        assert forall|i: int| to <= i < s.len() implies white_space(#[trigger] s[i]) by {
            if i < s.len() - 1 {
                assert(white_space(front[i]));
            }
        }
        to
    } else {
        assert(s.take(s.len() as int) =~= s);
        s.len() as int
    }
}

/// Trimming takes white space off both ends and nothing else.
pub proof fn law_trim_takes_only_white_space(s: Seq<char>)
    ensures
        exists|from: int, to: int|
            0 <= from <= to <= s.len() && trimmed(s) == #[trigger] s.subrange(from, to) && (forall|
                i: int,
            |
                0 <= i < from || to <= i < s.len() ==> white_space(#[trigger] s[i])),
{
    let from = lemma_start_of_trimmed(s);
    let rest = s.skip(from);
    let to = lemma_end_of_trimmed(rest);
    assert(rest.take(to) =~= s.subrange(from, from + to));
    assert forall|i: int| 0 <= i < from || from + to <= i < s.len() implies white_space(
        #[trigger] s[i],
    ) by {
        if i >= from {
            assert(white_space(rest[i - from]));
        }
    }
}

/// A text is left blank by trimming exactly if it holds nothing but white space.
pub proof fn law_blank(s: Seq<char>)
    ensures
        trimmed(s).len() == 0 <==> forall|i: int| 0 <= i < s.len() ==> white_space(#[trigger] s[i]),
{
    law_trim_takes_only_white_space(s);
    law_trimmed_is_bare(s);
    let (from, to) = choose|from: int, to: int|
        0 <= from <= to <= s.len() && trimmed(s) == #[trigger] s.subrange(from, to) && (forall|
            i: int,
        |
            0 <= i < from || to <= i < s.len() ==> white_space(#[trigger] s[i]));
    if trimmed(s).len() > 0 {
        assert(trimmed(s)[0] == s[from]);
    }
}

/// Lower case changes the letters from `A` to `Z`, each to the letter 32 places on, and nothing
/// else.
pub proof fn law_lower(s: Seq<char>)
    ensures
        lower(s).len() == s.len(),
        forall|i: int|
            0 <= i < s.len() ==> #[trigger] lower(s)[i] as int == if 65 <= s[i] as int <= 90 {
                s[i] as int + 32
            } else {
                s[i] as int
            },
{
}

/// Whether two characters are the same letter in either case, or the same character.
pub open spec fn alike(a: char, b: char) -> bool {
    ||| a == b
    ||| 65 <= a as int <= 90 && b as int == a as int + 32
    ||| 65 <= b as int <= 90 && a as int == b as int + 32
}

/// Two texts are the same whatever the case exactly if they are as long and alike at every place.
pub proof fn law_same_ignoring_case(a: Seq<char>, b: Seq<char>)
    ensures
        same_ignoring_case(a, b) <==> a.len() == b.len() && forall|i: int|
            0 <= i < a.len() ==> #[trigger] alike(a[i], b[i]),
{
    law_lower(a);
    law_lower(b);
    if same_ignoring_case(a, b) {
        assert(lower(a).len() == lower(b).len());
        assert forall|i: int| 0 <= i < a.len() implies #[trigger] alike(a[i], b[i]) by {
            assert(lower(a)[i] as int == lower(b)[i] as int);
        }
    }
    if a.len() == b.len() && forall|i: int| 0 <= i < a.len() ==> #[trigger] alike(a[i], b[i]) {
        assert forall|i: int| 0 <= i < a.len() implies lower(a)[i] == lower(b)[i] by {
            assert(alike(a[i], b[i]));
            assert(lower(a)[i] as int == lower(b)[i] as int);
        }
        assert(lower(a) =~= lower(b));
    }
}

/// A pattern stands at a place exactly if its characters do, one after the other.
pub proof fn law_occurs_at(s: Seq<char>, pattern: Seq<char>, i: int)
    ensures
        occurs_at(s, pattern, i) <==> 0 <= i && i + pattern.len() <= s.len() && forall|k: int|
            0 <= k < pattern.len() ==> #[trigger] pattern[k] == s[i + k],
{
    if occurs_at(s, pattern, i) {
        assert forall|k: int| 0 <= k < pattern.len() implies #[trigger] pattern[k] == s[i + k] by {
            assert(s.subrange(i, i + pattern.len())[k] == s[i + k]);
        }
    }
    if 0 <= i && i + pattern.len() <= s.len() && forall|k: int|
        0 <= k < pattern.len() ==> #[trigger] pattern[k] == s[i + k] {
        assert(s.subrange(i, i + pattern.len()) =~= pattern);
    }
}

/// Searching gives the first place at which a pattern stands, or the last one from the other end,
/// and none exactly if it stands nowhere.
pub proof fn law_search(s: Seq<char>, pattern: Seq<char>)
    ensures
        match found(s, pattern) {
            Some(i) => occurs_at(s, pattern, i) && forall|j: int|
                occurs_at(s, pattern, j) ==> i <= j,
            None => forall|j: int| !occurs_at(s, pattern, j),
        },
        match found_last(s, pattern) {
            Some(i) => occurs_at(s, pattern, i) && forall|j: int|
                occurs_at(s, pattern, j) ==> j <= i,
            None => forall|j: int| !occurs_at(s, pattern, j),
        },
{
    lemma_found(s, pattern);
    lemma_found_last(s, pattern);
}

/// Cutting at the first pattern leaves what stands before it and what stands behind it, and a text
/// without the pattern whole.
pub proof fn law_cut_first(s: Seq<char>, pattern: Seq<char>)
    ensures
        match after_first(s, pattern) {
            Some(rest) => s == before_first(s, pattern) + pattern + rest && forall|j: int|
                occurs_at(s, pattern, j) ==> before_first(s, pattern).len() <= j,
            None => before_first(s, pattern) == s && forall|j: int| !occurs_at(s, pattern, j),
        },
{
    lemma_found(s, pattern);
    if let Some(i) = found(s, pattern) {
        assert(s =~= s.take(i) + s.subrange(i, i + pattern.len()) + s.skip(i + pattern.len()));
    }
}

/// Cutting behind the last pattern leaves what stands behind it, and a text without the pattern
/// whole.
pub proof fn law_cut_last(s: Seq<char>, pattern: Seq<char>)
    ensures
        if holds(s, pattern) {
            exists|head: Seq<char>|
                s == #[trigger] (head + pattern) + after_last(s, pattern) && forall|j: int|
                    occurs_at(s, pattern, j) ==> j <= head.len()
        } else {
            after_last(s, pattern) == s
        },
{
    lemma_found_last(s, pattern);
    if holds(s, pattern) {
        let i = found_last(s, pattern)->0;
        let head = s.take(i);
        assert(s =~= (head + s.subrange(i, i + pattern.len())) + s.skip(i + pattern.len()));
        assert(s == (head + pattern) + after_last(s, pattern));
    }
}

/// Replacing changes nothing in a text without the pattern; else it puts the substitute in place of
/// the first pattern and, unless only that is asked for, goes on behind it.
pub proof fn law_replace(head: Seq<char>, pattern: Seq<char>, rest: Seq<char>, sub: Seq<char>)
    requires
        pattern.len() > 0,
    ensures
        !holds(head, pattern) ==> replaced(head, pattern, sub) == head && replaced_once(
            head,
            pattern,
            sub,
        ) == head,
        (forall|j: int| occurs_at(head + pattern + rest, pattern, j) ==> head.len() <= j)
            ==> replaced(head + pattern + rest, pattern, sub) == head + sub + replaced(
            rest,
            pattern,
            sub,
        ) && replaced_once(head + pattern + rest, pattern, sub) == head + sub + rest,
{
    lemma_found(head, pattern);
    let s = head + pattern + rest;
    let n = head.len() as int;
    lemma_found(s, pattern);
    assert(s.subrange(n, n + pattern.len()) =~= pattern);
    assert(occurs_at(s, pattern, n));
    if forall|j: int| occurs_at(s, pattern, j) ==> head.len() <= j {
        assert(found(s, pattern) == Some(n));
        assert(s.take(n) =~= head);
        assert(s.skip(n + pattern.len()) =~= rest);
    }
}

/// What is left behind a prefix is the rest of a text that starts with it.
pub proof fn law_stripped(s: Seq<char>, prefix: Seq<char>, rest: Seq<char>)
    ensures
        stripped(s, prefix) == Some(rest) <==> s == prefix + rest,
        stripped(s, prefix) is None <==> !occurs_at(s, prefix, 0),
{
    if prefix.len() <= s.len() {
        assert(s.subrange(0, prefix.len() as int) =~= s.take(prefix.len() as int));
    }
    if stripped(s, prefix) == Some(rest) {
        assert(s =~= s.take(prefix.len() as int) + s.skip(prefix.len() as int));
    }
    if s == prefix + rest {
        assert(s.take(prefix.len() as int) =~= prefix);
        assert(s.skip(prefix.len() as int) =~= rest);
    }
}

/// Texts are ordered like words in a dictionary: by the first characters that differ, and a text
/// comes before those that it starts.
pub proof fn law_ordered(a: Seq<char>, b: Seq<char>)
    ensures
        ordered(a, b) <==> occurs_at(b, a, 0) || exists|k: int|
            0 <= k < a.len() && k < b.len() && #[trigger] a.take(k) == b.take(k) && a[k] < b[k],
    decreases a.len(),
{
    if a.len() == 0 {
        assert(b.subrange(0, 0) =~= a);
    } else if b.len() == 0 {
    } else if a[0] != b[0] {
        assert(b.len() >= a.len() ==> b.subrange(0, a.len() as int)[0] == b[0]);
        assert(a.take(0) =~= b.take(0));
        if exists|k: int|
            0 <= k < a.len() && k < b.len() && #[trigger] a.take(k) == b.take(k) && a[k] < b[k] {
            let k = choose|k: int|
                0 <= k < a.len() && k < b.len() && #[trigger] a.take(k) == b.take(k) && a[k] < b[k];
            if k > 0 {
                assert(a.take(k)[0] == b.take(k)[0]);
            }
        }
    } else {
        let x = a.skip(1);
        let y = b.skip(1);
        law_ordered(x, y);
        if occurs_at(y, x, 0) {
            assert(y.subrange(0, x.len() as int) == x);
            assert forall|i: int| 0 <= i < a.len() implies #[trigger] b.subrange(0, a.len() as int)[i]
                == a[i] by {
                if i > 0 {
                    assert(y.subrange(0, x.len() as int)[i - 1] == x[i - 1]);
                }
            }
            assert(b.subrange(0, a.len() as int) =~= a);
        }
        if occurs_at(b, a, 0) {
            assert forall|i: int| 0 <= i < x.len() implies #[trigger] y.subrange(0, x.len() as int)[i]
                == x[i] by {
                assert(b.subrange(0, a.len() as int)[i + 1] == a[i + 1]);
            }
            assert(y.subrange(0, x.len() as int) =~= x);
        }
        if exists|k: int|
            0 <= k < x.len() && k < y.len() && #[trigger] x.take(k) == y.take(k) && x[k] < y[k] {
            let k = choose|k: int|
                0 <= k < x.len() && k < y.len() && #[trigger] x.take(k) == y.take(k) && x[k] < y[k];
            assert forall|i: int| 0 <= i < k + 1 implies #[trigger] a.take(k + 1)[i] == b.take(k + 1)[i] by {
                if i > 0 {
                    assert(x.take(k)[i - 1] == y.take(k)[i - 1]);
                }
            }
            assert(a.take(k + 1) =~= b.take(k + 1));
            assert(a[k + 1] < b[k + 1]);
        }
        if exists|k: int|
            0 <= k < a.len() && k < b.len() && #[trigger] a.take(k) == b.take(k) && a[k] < b[k] {
            let k = choose|k: int|
                0 <= k < a.len() && k < b.len() && #[trigger] a.take(k) == b.take(k) && a[k] < b[k];
            assert(k > 0);
            assert forall|i: int| 0 <= i < k - 1 implies #[trigger] x.take(k - 1)[i] == y.take(k - 1)[i] by {
                assert(a.take(k)[i + 1] == b.take(k)[i + 1]);
            }
            assert(x.take(k - 1) =~= y.take(k - 1));
            assert(x[k - 1] < y[k - 1]);
        }
    }
}

/// A number's decimal form is that of its tens, if there are any, and the digit of its ones.
pub proof fn law_decimal(tens: nat, ones: nat)
    requires
        ones < 10,
    ensures
        decimal(10 * tens + ones).last() as int == '0' as int + ones,
        decimal(10 * tens + ones).drop_last() == if tens == 0 {
            Seq::<char>::empty()
        } else {
            decimal(tens)
        },
{
    let n = 10 * tens + ones;
    assert(n / 10 == tens && n % 10 == ones);
    assert(digit_char(ones) as int == '0' as int + ones);
    if tens == 0 {
        assert(decimal(n).drop_last() =~= Seq::<char>::empty());
    } else {
        assert(decimal(n).drop_last() =~= decimal(tens));
    }
}

/// The decimal form of a number is read as a port exactly if it is one.
pub proof fn law_port_of_decimal(n: nat)
    ensures
        port_value(decimal(n)) == if n <= 65535 {
            Some(n as u16)
        } else {
            None::<u16>
        },
{
    lemma_decimal(n);
    let s = decimal(n);
    assert('0' <= s[0] <= '9');
    assert(port_digits(s) == s);
}

proof fn lemma_leading_zero(s: Seq<char>)
    ensures
        digits_value(seq!['0'] + s) == digits_value(s),
    decreases s.len(),
{
    let t = seq!['0'] + s;
    reveal_with_fuel(digits_value, 2);
    if s.len() == 0 {
        assert(t.drop_last() =~= Seq::<char>::empty());
        assert(digits_value(t.drop_last()) == 0);
    } else {
        assert(t.drop_last() =~= seq!['0'] + s.drop_last());
        lemma_leading_zero(s.drop_last());
    }
}

/// Leading zeros and one leading plus sign make no difference to a port number, and it holds nothing
/// else but digits, at least one.
pub proof fn law_port_forms(s: Seq<char>)
    ensures
        s.len() > 0 && s[0] != '+' ==> port_value(seq!['0'] + s) == port_value(s)
            && port_value(seq!['+'] + s) == port_value(s),
        port_value(s) is Some ==> s.len() > 0 && ('0' <= s[0] <= '9' || (s[0] == '+' && s.len()
            > 1)) && forall|i: int| 1 <= i < s.len() ==> '0' <= #[trigger] s[i] <= '9',
{
    if s.len() > 0 && s[0] != '+' {
        let zero = seq!['0'] + s;
        let plus = seq!['+'] + s;
        assert(plus.skip(1) =~= s);
        lemma_leading_zero(s);
        assert(all_digits(zero) == all_digits(s)) by {
            if all_digits(s) {
                assert forall|i: int| 0 <= i < zero.len() implies '0' <= #[trigger] zero[i]
                    <= '9' by {
                    if i > 0 {
                        assert(zero[i] == s[i - 1]);
                    }
                }
            }
            if all_digits(zero) {
                assert forall|i: int| 0 <= i < s.len() implies '0' <= #[trigger] s[i] <= '9' by {
                    assert(zero[i + 1] == s[i]);
                }
            }
        }
    }
    if port_value(s) is Some {
        let digits = port_digits(s);
        assert forall|i: int| 1 <= i < s.len() implies '0' <= #[trigger] s[i] <= '9' by {
            if s[0] == '+' {
                assert(digits[i - 1] == s[i]);
            }
        }
    }
}

/// A text without the separator is one piece; else the first piece ends where the separator first
/// stands, and the others are those of what stands behind it.
pub proof fn law_split(head: Seq<char>, separator: Seq<char>, rest: Seq<char>)
    requires
        separator.len() > 0,
    ensures
        !holds(head, separator) ==> pieces(head, separator) == seq![head],
        (forall|j: int| occurs_at(head + separator + rest, separator, j) ==> head.len() <= j)
            ==> pieces(head + separator + rest, separator) == seq![head] + pieces(rest, separator),
{
    lemma_found(head, separator);
    let s = head + separator + rest;
    let n = head.len() as int;
    lemma_found(s, separator);
    assert(s.subrange(n, n + separator.len()) =~= separator);
    assert(occurs_at(s, separator, n));
    if forall|j: int| occurs_at(s, separator, j) ==> head.len() <= j {
        assert(found(s, separator) == Some(n));
        assert(s.take(n) =~= head);
        assert(s.skip(n + separator.len()) =~= rest);
    }
}

} // verus!
