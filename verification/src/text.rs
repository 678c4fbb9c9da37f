//! Character-level text operations with exact contracts.
//!
//! Every function here speaks of a string through its view, the sequence of
//! its characters, so that lengths and positions count characters, not bytes.

use vstd::prelude::*;

verus! {

/// `String::push` of the standard library: the character is appended at the
/// end and nothing else changes.
pub assume_specification[ String::push ](s: &mut String, c: char)
    ensures
        final(s)@ == old(s)@.push(c),
;

/// The lower-case form of a text, as the standard library's Unicode tables
/// give it.
pub uninterp spec fn lowercase_of(s: Seq<char>) -> Seq<char>;

/// `str::to_lowercase` of the standard library. Its result is a function of
/// the text alone; the contract gives that function a name and says nothing
/// of its values.
#[verifier::external_body]
pub(crate) fn lowercase(s: &str) -> (out: String)
    ensures
        out@ == lowercase_of(s@),
{
    s.to_lowercase()
}

/// `pat` stands in `s` at position `at`.
pub open spec fn occurs_at(s: Seq<char>, pat: Seq<char>, at: int) -> bool {
    &&& 0 <= at
    &&& at + pat.len() <= s.len()
    &&& s.subrange(at, at + pat.len()) == pat
}

/// `pat` stands somewhere in `s`.
pub open spec fn occurs_in(s: Seq<char>, pat: Seq<char>) -> bool {
    exists|at: int| occurs_at(s, pat, at)
}

/// The characters of `s`, in order.
pub fn chars_of(s: &str) -> (out: Vec<char>)
    ensures
        out@ == s@,
{
    let mut out: Vec<char> = Vec::new();
    let it = s.chars();
    for c in iter: it
        invariant
            out@ == iter.seq().take(iter.index@),
    {
        out.push(c);
    }
    out
}

/// The string made of `chars[from..to]`.
pub fn string_of_range(chars: &Vec<char>, from: usize, to: usize) -> (out: String)
    requires
        from <= to <= chars@.len(),
    ensures
        out@ == chars@.subrange(from as int, to as int),
{
    let mut out = String::new();
    let mut i: usize = from;
    while i < to
        invariant
            from <= i <= to <= chars@.len(),
            out@ == chars@.subrange(from as int, i as int),
        decreases to - i,
    {
        out.push(chars[i]);
        i = i + 1;
        assert(out@ =~= chars@.subrange(from as int, i as int));
    }
    out
}

/// The string made of `chars`.
pub fn string_of(chars: &Vec<char>) -> (out: String)
    ensures
        out@ == chars@,
{
    let out = string_of_range(chars, 0, chars.len());
    assert(chars@.subrange(0, chars@.len() as int) =~= chars@);
    out
}

/// Whether `pat` stands in `s` at position `at`.
pub fn matches_at(s: &Vec<char>, pat: &Vec<char>, at: usize) -> (found: bool)
    ensures
        found == occurs_at(s@, pat@, at as int),
{
    if at > s.len() || pat.len() > s.len() - at {
        return false;
    }
    let mut k: usize = 0;
    while k < pat.len()
        invariant
            at + pat.len() <= s.len(),
            k <= pat.len(),
            s@.subrange(at as int, at + k) == pat@.subrange(0, k as int),
        decreases pat@.len() - k,
    {
        if s[at + k] != pat[k] {
            proof {
                let whole = s@.subrange(at as int, at + pat@.len());
                assert(whole[k as int] == s@[at + k]);
            }
            return false;
        }
        k = k + 1;
        assert(s@.subrange(at as int, at + k) =~= pat@.subrange(0, k as int)) by {
            let a = s@.subrange(at as int, at + k);
            let b = pat@.subrange(0, k as int);
            let a0 = s@.subrange(at as int, at + k - 1);
            let b0 = pat@.subrange(0, k - 1);
            assert forall|j: int| 0 <= j < k implies a[j] == b[j] by {
                if j < k - 1 {
                    assert(a0[j] == b0[j]);
                }
            }
        }
    }
    assert(pat@.subrange(0, pat@.len() as int) =~= pat@);
    true
}

/// Whether two texts hold the same characters.
pub fn same_text(a: &str, b: &str) -> (same: bool)
    ensures
        same == (a@ == b@),
{
    let ac = chars_of(a);
    let bc = chars_of(b);
    if ac.len() != bc.len() {
        return false;
    }
    let same = matches_at(&ac, &bc, 0);
    proof {
        assert(a@.subrange(0, a@.len() as int) =~= a@);
    }
    same
}

/// Whether `s` begins with `prefix`.
pub fn starts_with(s: &str, prefix: &str) -> (found: bool)
    ensures
        found == prefix@.is_prefix_of(s@),
{
    let sc = chars_of(s);
    let pc = chars_of(prefix);
    let found = matches_at(&sc, &pc, 0);
    proof {
        if found {
            assert(s@.subrange(0, prefix@.len() as int) == prefix@);
        }
        if prefix@.is_prefix_of(s@) {
            assert(s@.subrange(0, prefix@.len() as int) =~= prefix@);
        }
    }
    found
}

/// Whether `s` ends with `suffix`.
pub fn ends_with(s: &str, suffix: &str) -> (found: bool)
    ensures
        found == suffix@.is_suffix_of(s@),
{
    let sc = chars_of(s);
    let pc = chars_of(suffix);
    if pc.len() > sc.len() {
        return false;
    }
    let at: usize = sc.len() - pc.len();
    let found = matches_at(&sc, &pc, at);
    proof {
        if suffix@.is_suffix_of(s@) {
            assert(s@.subrange(at as int, s@.len() as int) =~= suffix@);
        }
    }
    found
}

/// Whether `pat` stands somewhere in `s`.
pub fn contains(s: &Vec<char>, pat: &Vec<char>) -> (found: bool)
    ensures
        found == occurs_in(s@, pat@),
{
    if pat.len() > s.len() {
        return false;
    }
    let last: usize = s.len() - pat.len();
    let mut at: usize = 0;
    loop
        invariant
            last == s.len() - pat.len(),
            at <= last,
            forall|j: int| 0 <= j < at ==> !occurs_at(s@, pat@, j),
        decreases last - at,
    {
        if matches_at(s, pat, at) {
            return true;
        }
        if at == last {
            return false;
        }
        at = at + 1;
    }
}

/// The decimal digit `d` as a character.
pub open spec fn digit_char(d: nat) -> char {
    if d == 0 {
        '0'
    } else if d == 1 {
        '1'
    } else if d == 2 {
        '2'
    } else if d == 3 {
        '3'
    } else if d == 4 {
        '4'
    } else if d == 5 {
        '5'
    } else if d == 6 {
        '6'
    } else if d == 7 {
        '7'
    } else if d == 8 {
        '8'
    } else {
        '9'
    }
}

/// The decimal notation of `n`, without sign and without leading zeros.
pub open spec fn decimal_text(n: nat) -> Seq<char>
    decreases n,
{
    if n < 10 {
        seq![digit_char(n)]
    } else {
        decimal_text(n / 10).push(digit_char(n % 10))
    }
}

fn digit(d: u64) -> (c: char)
    requires
        d < 10,
    ensures
        c == digit_char(d as nat),
{
    if d == 0 {
        '0'
    } else if d == 1 {
        '1'
    } else if d == 2 {
        '2'
    } else if d == 3 {
        '3'
    } else if d == 4 {
        '4'
    } else if d == 5 {
        '5'
    } else if d == 6 {
        '6'
    } else if d == 7 {
        '7'
    } else if d == 8 {
        '8'
    } else {
        '9'
    }
}

/// The decimal notation of `n`.
pub fn decimal(n: u64) -> (out: String)
    ensures
        out@ == decimal_text(n as nat),
    decreases n,
{
    if n < 10 {
        let mut out = String::new();
        out.push(digit(n));
        assert(out@ =~= seq![digit_char(n as nat)]);
        out
    } else {
        let mut out = decimal(n / 10);
        out.push(digit(n % 10));
        out
    }
}

/// Whether `c` is white space: the characters with the Unicode property
/// `White_Space`.
pub open spec fn is_space(c: char) -> bool {
    ||| '\u{0009}' <= c <= '\u{000D}'
    ||| c == ' '
    ||| c == '\u{0085}'
    ||| c == '\u{00A0}'
    ||| c == '\u{1680}'
    ||| '\u{2000}' <= c <= '\u{200A}'
    ||| c == '\u{2028}'
    ||| c == '\u{2029}'
    ||| c == '\u{202F}'
    ||| c == '\u{205F}'
    ||| c == '\u{3000}'
}

/// Whether `c` is white space.
pub fn space(c: char) -> (out: bool)
    ensures
        out == is_space(c),
{
    ('\u{0009}' <= c && c <= '\u{000D}') || c == ' ' || c == '\u{0085}' || c == '\u{00A0}' || c
        == '\u{1680}' || ('\u{2000}' <= c && c <= '\u{200A}') || c == '\u{2028}' || c == '\u{2029}'
        || c == '\u{202F}' || c == '\u{205F}' || c == '\u{3000}'
}

/// The first position from `from` on that holds no white space, the length
/// where there is none.
pub open spec fn skip_spaces(s: Seq<char>, from: int) -> int
    decreases s.len() - from,
{
    if 0 <= from < s.len() && is_space(s[from]) {
        skip_spaces(s, from + 1)
    } else {
        from
    }
}

/// The end of the text that is left of `s[low..to]` when the white space at
/// its end is taken away.
pub open spec fn skip_spaces_back(s: Seq<char>, low: int, to: int) -> int
    decreases to - low,
{
    if 0 <= low < to <= s.len() && is_space(s[to - 1]) {
        skip_spaces_back(s, low, to - 1)
    } else {
        to
    }
}

/// `s` without the white space at its two ends.
pub open spec fn trimmed(s: Seq<char>) -> Seq<char> {
    let start = skip_spaces(s, 0);
    s.subrange(start, skip_spaces_back(s, start, s.len() as int))
}

/// The number of words that begin at or after `from`, where a word is a run
/// of characters that are not white space, as long as it can be; `inside`
/// says that position `from` continues a word.
pub open spec fn words_from(s: Seq<char>, from: int, inside: bool) -> nat
    decreases s.len() - from,
{
    if from < 0 || from >= s.len() {
        0
    } else if is_space(s[from]) {
        words_from(s, from + 1, false)
    } else if inside {
        words_from(s, from + 1, true)
    } else {
        1 + words_from(s, from + 1, true)
    }
}

/// The number of words in `s`.
pub open spec fn word_total(s: Seq<char>) -> nat {
    words_from(s, 0, false)
}

/// `s` without the white space at its two ends.
pub fn trim(s: &str) -> (out: String)
    ensures
        out@ == trimmed(s@),
{
    let chars = chars_of(s);
    let n = chars.len();
    let mut start: usize = 0;
    while start < n && space(chars[start])
        invariant
            n == chars@.len(),
            start <= n,
            skip_spaces(chars@, start as int) == skip_spaces(chars@, 0),
        decreases n - start,
    {
        start = start + 1;
    }
    let mut end: usize = n;
    while end > start && space(chars[end - 1])
        invariant
            start <= end <= n,
            n == chars@.len(),
            skip_spaces_back(chars@, start as int, end as int) == skip_spaces_back(
                chars@,
                start as int,
                n as int,
            ),
        decreases end,
    {
        end = end - 1;
    }
    string_of_range(&chars, start, end)
}

/// The number of words in `s`.
pub fn word_count(s: &str) -> (out: usize)
    ensures
        out == word_total(s@),
{
    let chars = chars_of(s);
    let n = chars.len();
    let mut count: usize = 0;
    let mut inside = false;
    let mut i: usize = 0;
    while i < n
        invariant
            n == chars@.len(),
            i <= n,
            count <= i,
            count + words_from(chars@, i as int, inside) == word_total(chars@),
        decreases n - i,
    {
        if space(chars[i]) {
            inside = false;
        } else {
            if !inside {
                count = count + 1;
            }
            inside = true;
        }
        i = i + 1;
    }
    count
}

/// `s` from position `from` on, with every occurrence of `pat` replaced by
/// `with`; occurrences are taken from left to right and do not overlap.
pub open spec fn replaced_from(s: Seq<char>, pat: Seq<char>, with: Seq<char>, from: int) -> Seq<char>
    decreases s.len() - from,
{
    if from < 0 || from >= s.len() {
        Seq::<char>::empty()
    } else if pat.len() > 0 && occurs_at(s, pat, from) {
        with + replaced_from(s, pat, with, from + pat.len())
    } else {
        seq![s[from]] + replaced_from(s, pat, with, from + 1)
    }
}

/// `s` with every occurrence of `pat` replaced by `with`. An empty `pat`
/// occurs nowhere.
pub open spec fn replaced(s: Seq<char>, pat: Seq<char>, with: Seq<char>) -> Seq<char> {
    replaced_from(s, pat, with, 0)
}

/// The first position from `from` on that holds `c`, the length where none
/// does.
pub open spec fn first_at(s: Seq<char>, c: char, from: int) -> int
    decreases s.len() - from,
{
    if 0 <= from < s.len() && s[from] != c {
        first_at(s, c, from + 1)
    } else {
        from
    }
}

/// The part of `s` before its first `c`, all of `s` where it holds none.
pub open spec fn before_first(s: Seq<char>, c: char) -> Seq<char> {
    s.subrange(0, first_at(s, c, 0))
}

/// The position after the last `c` before position `to`, 0 where there is
/// none.
pub open spec fn after_last_at(s: Seq<char>, c: char, to: int) -> int
    decreases to,
{
    if 0 < to <= s.len() && s[to - 1] != c {
        after_last_at(s, c, to - 1)
    } else {
        to
    }
}

/// The part of `s` after its last `c`, all of `s` where it holds none.
pub open spec fn after_last(s: Seq<char>, c: char) -> Seq<char> {
    s.subrange(after_last_at(s, c, s.len() as int), s.len() as int)
}

/// The items in order, with `sep` between each two.
pub open spec fn joined(items: Seq<Seq<char>>, sep: Seq<char>) -> Seq<char>
    decreases items.len(),
{
    if items.len() == 0 {
        Seq::<char>::empty()
    } else if items.len() == 1 {
        items[0]
    } else {
        joined(items.drop_last(), sep) + sep + items.last()
    }
}

/// The first `n` characters of `s`, all of `s` where it has no more.
pub open spec fn first_chars(s: Seq<char>, n: nat) -> Seq<char> {
    if s.len() <= n {
        s
    } else {
        s.take(n as int)
    }
}

/// `s` with every occurrence of `pat` replaced by `with`.
pub fn replace_all(s: &str, pat: &str, with: &str) -> (out: String)
    ensures
        out@ == replaced(s@, pat@, with@),
{
    let sc = chars_of(s);
    let pc = chars_of(pat);
    let n = sc.len();
    let mut out = String::new();
    let mut i: usize = 0;
    while i < n
        invariant
            n == sc@.len(),
            sc@ == s@,
            pc@ == pat@,
            i <= n,
            out@ + replaced_from(s@, pat@, with@, i as int) == replaced(s@, pat@, with@),
        decreases n - i,
    {
        let ghost before = out@;
        let ghost rest = replaced_from(s@, pat@, with@, i as int);
        if pc.len() > 0 && matches_at(&sc, &pc, i) {
            out.append(with);
            i = i + pc.len();
            assert(out@ + replaced_from(s@, pat@, with@, i as int) =~= before + rest);
        } else {
            out.push(sc[i]);
            i = i + 1;
            assert(out@ + replaced_from(s@, pat@, with@, i as int) =~= before + rest);
        }
    }
    assert(out@ + Seq::<char>::empty() =~= out@);
    out
}

/// The part of `s` before its first `c`.
pub fn text_before_first(s: &str, c: char) -> (out: String)
    ensures
        out@ == before_first(s@, c),
{
    let chars = chars_of(s);
    let n = chars.len();
    let mut i: usize = 0;
    while i < n && chars[i] != c
        invariant
            n == chars@.len(),
            i <= n,
            first_at(chars@, c, i as int) == first_at(chars@, c, 0),
        decreases n - i,
    {
        i = i + 1;
    }
    string_of_range(&chars, 0, i)
}

/// The part of `s` after its last `c`.
pub fn text_after_last(s: &str, c: char) -> (out: String)
    ensures
        out@ == after_last(s@, c),
{
    let chars = chars_of(s);
    let n = chars.len();
    let mut i: usize = n;
    while i > 0 && chars[i - 1] != c
        invariant
            n == chars@.len(),
            i <= n,
            after_last_at(chars@, c, i as int) == after_last_at(chars@, c, n as int),
        decreases i,
    {
        i = i - 1;
    }
    string_of_range(&chars, i, n)
}

/// The views of the items.
pub open spec fn texts(items: Seq<String>) -> Seq<Seq<char>> {
    items.map_values(|s: String| s@)
}

/// The items in order, with `sep` between each two.
pub fn join(items: &Vec<String>, sep: &str) -> (out: String)
    ensures
        out@ == joined(texts(items@), sep@),
{
    let mut out = String::new();
    let mut i: usize = 0;
    while i < items.len()
        invariant
            i <= items.len(),
            out@ == joined(texts(items@).take(i as int), sep@),
        decreases items.len() - i,
    {
        let ghost done = texts(items@).take(i as int);
        let ghost next = texts(items@).take(i + 1);
        proof {
            assert(next.drop_last() =~= done);
            assert(next.last() == items@[i as int]@);
        }
        if i > 0 {
            out.append(sep);
        }
        out.append(items[i].as_str());
        proof {
            if i == 0 {
                assert(out@ =~= next[0]);
            }
        }
        i = i + 1;
    }
    assert(texts(items@).take(items.len() as int) =~= texts(items@));
    out
}

/// The first `n` characters of `s`.
pub fn take_chars(s: &str, n: usize) -> (out: String)
    ensures
        out@ == first_chars(s@, n as nat),
{
    let chars = chars_of(s);
    if chars.len() <= n {
        string_of(&chars)
    } else {
        string_of_range(&chars, 0, n)
    }
}

/// Where the skipping of white space from `from` on ends: at a character
/// that is none, or at the end; what it passes over is white space.
pub proof fn lemma_skip_spaces(s: Seq<char>, from: int)
    requires
        0 <= from <= s.len(),
    ensures
        from <= skip_spaces(s, from) <= s.len(),
        forall|k: int| from <= k < skip_spaces(s, from) ==> is_space(#[trigger] s[k]),
        skip_spaces(s, from) < s.len() ==> !is_space(s[skip_spaces(s, from)]),
    decreases s.len() - from,
{
    if from < s.len() && is_space(s[from]) {
        lemma_skip_spaces(s, from + 1);
    }
}

/// Where the skipping of white space backwards from `to` ends: after a
/// character that is none, or at `low`; what it passes over is white space.
pub proof fn lemma_skip_spaces_back(s: Seq<char>, low: int, to: int)
    requires
        0 <= low <= to <= s.len(),
    ensures
        low <= skip_spaces_back(s, low, to) <= to,
        forall|k: int| skip_spaces_back(s, low, to) <= k < to ==> is_space(#[trigger] s[k]),
        skip_spaces_back(s, low, to) > low ==> !is_space(s[skip_spaces_back(s, low, to) - 1]),
    decreases to - low,
{
    if low < to && is_space(s[to - 1]) {
        lemma_skip_spaces_back(s, low, to - 1);
    }
}

/// A trimmed text is a piece of the text it was made from, with nothing
/// but white space before it and after it, and neither begins nor ends
/// with white space.
pub proof fn lemma_trimmed(s: Seq<char>)
    ensures
        trimmed(s).len() <= s.len(),
        trimmed(s).len() > 0 ==> !is_space(trimmed(s).first()) && !is_space(trimmed(s).last()),
        exists|a: int, b: int|
            0 <= a <= b <= s.len() && trimmed(s) == #[trigger] s.subrange(a, b) && (forall|k: int|
                0 <= k < a ==> is_space(#[trigger] s[k])) && (forall|k: int|
                b <= k < s.len() ==> is_space(#[trigger] s[k])),
{
    let a = skip_spaces(s, 0);
    lemma_skip_spaces(s, 0);
    let b = skip_spaces_back(s, a, s.len() as int);
    lemma_skip_spaces_back(s, a, s.len() as int);
    assert(trimmed(s) == s.subrange(a, b));
}

/// A text has no words if and only if it holds nothing but white space.
pub proof fn lemma_no_words(s: Seq<char>)
    ensures
        word_total(s) == 0 <==> (forall|k: int| 0 <= k < s.len() ==> is_space(#[trigger] s[k])),
{
    lemma_no_words_from(s, 0);
}

proof fn lemma_no_words_from(s: Seq<char>, from: int)
    requires
        0 <= from <= s.len(),
    ensures
        words_from(s, from, false) == 0 <==> (forall|k: int|
            from <= k < s.len() ==> is_space(#[trigger] s[k])),
    decreases s.len() - from,
{
    if from < s.len() {
        lemma_no_words_from(s, from + 1);
        if !is_space(s[from]) {
            assert(words_from(s, from, false) >= 1);
        }
    }
}

/// A text in which the pattern stands nowhere is left as it is.
pub proof fn lemma_replaced_without_occurrence(s: Seq<char>, pat: Seq<char>, with: Seq<char>)
    requires
        !occurs_in(s, pat),
    ensures
        replaced(s, pat, with) == s,
{
    lemma_replaced_from_without_occurrence(s, pat, with, 0);
    assert(s.subrange(0, s.len() as int) =~= s);
}

proof fn lemma_replaced_from_without_occurrence(s: Seq<char>, pat: Seq<char>, with: Seq<char>, from: int)
    requires
        !occurs_in(s, pat),
        0 <= from <= s.len(),
    ensures
        replaced_from(s, pat, with, from) == s.subrange(from, s.len() as int),
    decreases s.len() - from,
{
    if from < s.len() {
        assert(!occurs_at(s, pat, from));
        lemma_replaced_from_without_occurrence(s, pat, with, from + 1);
        assert(seq![s[from]] + s.subrange(from + 1, s.len() as int) =~= s.subrange(
            from,
            s.len() as int,
        ));
    } else {
        assert(s.subrange(from, s.len() as int) =~= Seq::<char>::empty());
    }
}

} // verus!
