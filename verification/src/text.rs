//! Text handling on sequences of characters.
//!
//! Every function here is stated over `Seq<char>`, the view of `str`, `String`
//! and `Vec<char>`, so that the parsers and formatters built on them share one
//! vocabulary.

use vstd::prelude::*;

verus! {

/// `String::push` of the standard library: the string afterwards is the string
/// before with `c` as one more character at its end.
pub assume_specification[ String::push ](s: &mut String, c: char)
    ensures
        final(s)@ == old(s)@.push(c),
;

/// `str == str` of the standard library: two string slices are equal exactly
/// when they hold the same characters in the same order.
pub assume_specification[ <str as PartialEq>::eq ](a: &str, b: &str) -> (r: bool)
    ensures
        r == (a@ == b@),
;

/// The characters of `s`, in order.
pub fn chars_of(s: &str) -> (v: Vec<char>)
    ensures
        v@ == s@,
{
    let mut v: Vec<char> = Vec::new();
    for c in it: s.chars()
        invariant
            it.seq() == s@,
            v@ == it.seq().take(it.index()),
    {
        v.push(c);
    }
    v
}

/// A string holding the characters of `v`, in order.
pub fn string_of(v: &Vec<char>) -> (s: String)
    ensures
        s@ == v@,
{
    let mut s = String::new();
    let mut i: usize = 0;
    while i < v.len()
        invariant
            i <= v.len(),
            s@ == v@.take(i as int),
        decreases v.len() - i,
    {
        s.push(v[i]);
        i = i + 1;
    }
    s
}

/// Whether two string slices hold the same text.
pub fn str_eq(a: &str, b: &str) -> (r: bool)
    ensures
        r == (a@ == b@),
{
    *a == *b
}

/// Whether the characters in `v` spell the text `s`.
pub fn spells(v: &Vec<char>, s: &str) -> (r: bool)
    ensures
        r == (v@ == s@),
{
    let w = chars_of(s);
    same_chars(v, &w)
}

/// Whether two character vectors hold the same text.
pub fn same_chars(a: &Vec<char>, b: &Vec<char>) -> (r: bool)
    ensures
        r == (a@ == b@),
{
    if a.len() != b.len() {
        return false;
    }
    let mut i: usize = 0;
    while i < a.len()
        invariant
            i <= a.len(),
            a.len() == b.len(),
            a@.take(i as int) == b@.take(i as int),
        decreases a.len() - i,
    {
        if a[i] != b[i] {
            return false;
        }
        assert(a@.take(i + 1) == a@.take(i as int).push(a@[i as int]));
        assert(b@.take(i + 1) == b@.take(i as int).push(b@[i as int]));
        i = i + 1;
    }
    assert(a@.take(a.len() as int) == a@);
    assert(b@.take(b.len() as int) == b@);
    true
}

/// The views of a sequence of character vectors.
pub open spec fn texts(v: Seq<Vec<char>>) -> Seq<Seq<char>> {
    v.map_values(|t: Vec<char>| t@)
}

/// The Unicode `White_Space` characters.
pub open spec fn is_whitespace(c: char) -> bool {
    let n = c as u32;
    ||| 0x09 <= n <= 0x0D
    ||| n == 0x20
    ||| n == 0x85
    ||| n == 0xA0
    ||| n == 0x1680
    ||| 0x2000 <= n <= 0x200A
    ||| n == 0x2028
    ||| n == 0x2029
    ||| n == 0x202F
    ||| n == 0x205F
    ||| n == 0x3000
}

/// A class of characters, used to describe runs inside a text.
#[derive(Debug, Clone, Copy, PartialEq, Eq, Structural)]
pub enum CharSet {
    /// Unicode white space.
    Whitespace,
    /// Everything but Unicode white space.
    Visible,
    /// The one given character.
    Just(char),
    /// Every character but the given one.
    AllBut(char),
    /// Either of the two given characters.
    OneOf(char, char),
    /// Every character but the two given ones.
    NoneOf(char, char),
}

/// Membership of `c` in `set`.
pub open spec fn in_set(set: CharSet, c: char) -> bool {
    match set {
        CharSet::Whitespace => is_whitespace(c),
        CharSet::Visible => !is_whitespace(c),
        CharSet::Just(x) => c == x,
        CharSet::AllBut(x) => c != x,
        CharSet::OneOf(x, y) => c == x || c == y,
        CharSet::NoneOf(x, y) => c != x && c != y,
    }
}

/// Executable test for [`is_whitespace`].
pub fn whitespace(c: char) -> (r: bool)
    ensures
        r == is_whitespace(c),
{
    let n: u32 = c as u32;
    (0x09 <= n && n <= 0x0D) || n == 0x20 || n == 0x85 || n == 0xA0 || n == 0x1680 || (0x2000 <= n
        && n <= 0x200A) || n == 0x2028 || n == 0x2029 || n == 0x202F || n == 0x205F || n == 0x3000
}

/// Executable test for [`in_set`].
pub fn char_in(set: CharSet, c: char) -> (r: bool)
    ensures
        r == in_set(set, c),
{
    match set {
        CharSet::Whitespace => whitespace(c),
        CharSet::Visible => !whitespace(c),
        CharSet::Just(x) => c == x,
        CharSet::AllBut(x) => c != x,
        CharSet::OneOf(x, y) => c == x || c == y,
        CharSet::NoneOf(x, y) => c != x && c != y,
    }
}

/// Length of the longest prefix of `s` whose characters all lie in `set`.
pub open spec fn run_len(s: Seq<char>, set: CharSet) -> nat
    decreases s.len(),
{
    if s.len() > 0 && in_set(set, s[0]) {
        1 + run_len(s.drop_first(), set)
    } else {
        0
    }
}

/// Length of the longest suffix of `s` whose characters all lie in `set`.
pub open spec fn tail_run_len(s: Seq<char>, set: CharSet) -> nat
    decreases s.len(),
{
    if s.len() > 0 && in_set(set, s.last()) {
        1 + tail_run_len(s.drop_last(), set)
    } else {
        0
    }
}

/// A run is the longest prefix inside the set: it stays within the text, every
/// character of it is in the set, and the character after it, if any, is not.
pub proof fn lemma_run_len(s: Seq<char>, set: CharSet)
    ensures
        0 <= run_len(s, set) <= s.len(),
        forall|i: int| 0 <= i < run_len(s, set) ==> in_set(set, #[trigger] s[i]),
        run_len(s, set) < s.len() ==> !in_set(set, s[run_len(s, set) as int]),
    decreases s.len(),
{
    if s.len() > 0 && in_set(set, s[0]) {
        let t = s.drop_first();
        lemma_run_len(t, set);
        assert forall|i: int| 0 <= i < run_len(s, set) implies in_set(set, #[trigger] s[i]) by {
            if i > 0 {
                assert(s[i] == t[i - 1]);
            }
        }
        if run_len(s, set) < s.len() {
            assert(s[run_len(s, set) as int] == t[run_len(t, set) as int]);
        }
    }
}

/// Any prefix length with the properties of [`lemma_run_len`] is the run length.
pub proof fn lemma_run_len_is(s: Seq<char>, set: CharSet, n: nat)
    requires
        n <= s.len(),
        forall|i: int| 0 <= i < n ==> in_set(set, #[trigger] s[i]),
        n < s.len() ==> !in_set(set, s[n as int]),
    ensures
        run_len(s, set) == n,
    decreases s.len(),
{
    if n > 0 {
        let t = s.drop_first();
        assert(in_set(set, s[0]));
        assert forall|i: int| 0 <= i < n - 1 implies in_set(set, #[trigger] t[i]) by {
            assert(t[i] == s[i + 1]);
        }
        lemma_run_len_is(t, set, (n - 1) as nat);
    }
}

/// Any suffix length that stays within the set, and cannot be extended, is
/// the length of the trailing run.
pub proof fn lemma_tail_run_len_is(s: Seq<char>, set: CharSet, n: nat)
    requires
        n <= s.len(),
        forall|i: int| s.len() - n <= i < s.len() ==> in_set(set, #[trigger] s[i]),
        n < s.len() ==> !in_set(set, s[s.len() - n - 1]),
    ensures
        tail_run_len(s, set) == n,
    decreases s.len(),
{
    if n > 0 {
        let t = s.drop_last();
        assert(in_set(set, s[s.len() - 1]));
        assert forall|i: int| t.len() - (n - 1) <= i < t.len() implies in_set(set, #[trigger] t[i]) by {
            assert(t[i] == s[i]);
        }
        lemma_tail_run_len_is(t, set, (n - 1) as nat);
    }
}

/// Length of the run of `set` that starts at index `from` of `v`.
pub fn leading_run(v: &Vec<char>, from: usize, set: CharSet) -> (n: usize)
    requires
        from <= v.len(),
    ensures
        n == run_len(v@.skip(from as int), set),
        from + n <= v.len(),
{
    let mut i: usize = from;
    while i < v.len() && char_in(set, v[i])
        invariant
            from <= i <= v.len(),
            forall|k: int| from <= k < i ==> in_set(set, #[trigger] v@[k]),
        decreases v.len() - i,
    {
        i = i + 1;
    }
    proof {
        let s = v@.skip(from as int);
        assert forall|k: int| 0 <= k < i - from implies in_set(set, #[trigger] s[k]) by {
            assert(s[k] == v@[from + k]);
        }
        lemma_run_len_is(s, set, (i - from) as nat);
    }
    i - from
}

/// Length of the run of `set` that ends just before index `upto` of `v`.
pub fn trailing_run(v: &Vec<char>, upto: usize, set: CharSet) -> (n: usize)
    requires
        upto <= v.len(),
    ensures
        n == tail_run_len(v@.take(upto as int), set),
        n <= upto,
{
    let mut i: usize = upto;
    while i > 0 && char_in(set, v[i - 1])
        invariant
            i <= upto <= v.len(),
            forall|k: int| i <= k < upto ==> in_set(set, #[trigger] v@[k]),
        decreases i,
    {
        i = i - 1;
    }
    proof {
        let s = v@.take(upto as int);
        assert forall|k: int| s.len() - (upto - i) <= k < s.len() implies in_set(set, #[trigger] s[k]) by {
            assert(s[k] == v@[k]);
        }
        lemma_tail_run_len_is(s, set, (upto - i) as nat);
    }
    upto - i
}

/// A copy of the characters of `v` from index `from` up to, not including, `to`.
pub fn slice_of(v: &Vec<char>, from: usize, to: usize) -> (r: Vec<char>)
    requires
        from <= to <= v.len(),
    ensures
        r@ == v@.subrange(from as int, to as int),
{
    let mut r: Vec<char> = Vec::new();
    let mut i: usize = from;
    while i < to
        invariant
            from <= i <= to <= v.len(),
            r@ == v@.subrange(from as int, i as int),
        decreases to - i,
    {
        r.push(v[i]);
        i = i + 1;
    }
    r
}

/// `s` without its leading run of `set`.
pub open spec fn trim_start(s: Seq<char>, set: CharSet) -> Seq<char> {
    s.skip(run_len(s, set) as int)
}

/// `s` without its trailing run of `set`.
pub open spec fn trim_end(s: Seq<char>, set: CharSet) -> Seq<char> {
    s.take(s.len() - tail_run_len(s, set))
}

/// `s` without its leading and trailing runs of `set`.
pub open spec fn trim(s: Seq<char>, set: CharSet) -> Seq<char> {
    trim_end(trim_start(s, set), set)
}

/// Executable [`trim_start`].
pub fn trimmed_start(v: &Vec<char>, set: CharSet) -> (r: Vec<char>)
    ensures
        r@ == trim_start(v@, set),
{
    let a = leading_run(v, 0, set);
    assert(v@.skip(0) == v@);
    assert(v@.subrange(a as int, v.len() as int) == v@.skip(a as int));
    slice_of(v, a, v.len())
}

/// Executable [`trim_end`].
pub fn trimmed_end(v: &Vec<char>, set: CharSet) -> (r: Vec<char>)
    ensures
        r@ == trim_end(v@, set),
{
    let b = trailing_run(v, v.len(), set);
    assert(v@.take(v.len() as int) == v@);
    assert(v@.subrange(0, v.len() - b) == v@.take(v.len() - b));
    slice_of(v, 0, v.len() - b)
}

/// Executable [`trim`].
pub fn trimmed(v: &Vec<char>, set: CharSet) -> (r: Vec<char>)
    ensures
        r@ == trim(v@, set),
{
    let t = trimmed_start(v, set);
    trimmed_end(&t, set)
}

/// The pieces of `s` between occurrences of `sep`. A text without `sep` is one
/// piece; `n` occurrences give `n + 1` pieces, some of which may be empty.
pub open spec fn split(s: Seq<char>, sep: char) -> Seq<Seq<char>>
    decreases s.len(),
{
    let n = run_len(s, CharSet::AllBut(sep));
    if n >= s.len() {
        seq![s]
    } else {
        proof {
            lemma_run_len(s, CharSet::AllBut(sep));
            if n < s.len() {
                assert(s.skip(n as int + 1).len() == s.len() - n - 1);
            }
        }
        seq![s.take(n as int)] + split(s.skip(n as int + 1), sep)
    }
}

/// Executable [`split`].
pub fn split_on(v: &Vec<char>, sep: char) -> (r: Vec<Vec<char>>)
    ensures
        texts(r@) == split(v@, sep),
        r@.len() >= 1,
{
    let mut out: Vec<Vec<char>> = Vec::new();
    let mut start: usize = 0;
    assert(v@.skip(0) == v@);
    assert(texts(out@) + split(v@, sep) == split(v@, sep));
    loop
        invariant
            start <= v.len(),
            split(v@, sep) == texts(out@) + split(v@.skip(start as int), sep),
        decreases v.len() - start,
    {
        let n = leading_run(v, start, CharSet::AllBut(sep));
        let piece = slice_of(v, start, start + n);
        let ghost rest = v@.skip(start as int);
        let ghost before = texts(out@);
        assert(rest.take(n as int) == v@.subrange(start as int, start + n));
        out.push(piece);
        assert(texts(out@) == before + seq![rest.take(n as int)]);
        if start + n >= v.len() {
            assert(rest.take(n as int) == rest);
            assert(split(v@, sep) == texts(out@));
            return out;
        }
        assert(rest.skip(n + 1) == v@.skip(start + n + 1));
        assert(before + (seq![rest.take(n as int)] + split(rest.skip(n + 1), sep)) == (before
            + seq![rest.take(n as int)]) + split(rest.skip(n + 1), sep));
        start = start + n + 1;
    }
}

/// The maximal runs of visible characters in `s`, in order: what is left of a
/// text once it is cut at white space and the empty pieces are dropped.
pub open spec fn words(s: Seq<char>) -> Seq<Seq<char>>
    decreases s.len(),
{
    let t = trim_start(s, CharSet::Whitespace);
    let n = run_len(t, CharSet::Visible);
    if t.len() == 0 || n == 0 {
        Seq::empty()
    } else {
        proof {
            lemma_run_len(s, CharSet::Whitespace);
            lemma_run_len(t, CharSet::Visible);
            assert(t.skip(n as int).len() == t.len() - n);
        }
        seq![t.take(n as int)] + words(t.skip(n as int))
    }
}

/// Executable [`words`].
pub fn split_whitespace(v: &Vec<char>) -> (r: Vec<Vec<char>>)
    ensures
        texts(r@) == words(v@),
{
    let mut out: Vec<Vec<char>> = Vec::new();
    let mut start: usize = 0;
    assert(v@.skip(0) == v@);
    assert(texts(out@) + words(v@) == words(v@));
    loop
        invariant
            start <= v.len(),
            words(v@) == texts(out@) + words(v@.skip(start as int)),
        decreases v.len() - start,
    {
        let ghost rest = v@.skip(start as int);
        let gap = leading_run(v, start, CharSet::Whitespace);
        let begin = start + gap;
        let n = leading_run(v, begin, CharSet::Visible);
        let ghost t = trim_start(rest, CharSet::Whitespace);
        assert(t == v@.skip(begin as int));
        if n == 0 {
            proof {
                lemma_run_len(rest, CharSet::Whitespace);
                if t.len() > 0 {
                    assert(t[0] == rest[gap as int]);
                    assert(in_set(CharSet::Visible, t[0]));
                }
                assert(words(rest) == Seq::<Seq<char>>::empty());
                assert(words(v@) == texts(out@));
            }
            return out;
        }
        let piece = slice_of(v, begin, begin + n);
        let ghost before = texts(out@);
        assert(t.take(n as int) == v@.subrange(begin as int, begin + n));
        out.push(piece);
        assert(texts(out@) == before + seq![t.take(n as int)]);
        assert(t.skip(n as int) == v@.skip(begin + n));
        assert(before + (seq![t.take(n as int)] + words(t.skip(n as int))) == (before + seq![
            t.take(n as int),
        ]) + words(t.skip(n as int)));
        start = begin + n;
    }
}

/// Executable prefix test: whether `v` begins with the characters of `p`.
pub fn has_prefix(v: &Vec<char>, p: &Vec<char>) -> (r: bool)
    ensures
        r == p@.is_prefix_of(v@),
{
    if p.len() > v.len() {
        return false;
    }
    let mut i: usize = 0;
    while i < p.len()
        invariant
            i <= p.len() <= v.len(),
            v@.subrange(0, i as int) == p@.subrange(0, i as int),
        decreases p.len() - i,
    {
        if v[i] != p[i] {
            assert(v@.subrange(0, p.len() as int)[i as int] != p@[i as int]);
            return false;
        }
        assert(v@.subrange(0, i + 1) == v@.subrange(0, i as int).push(v@[i as int]));
        assert(p@.subrange(0, i + 1) == p@.subrange(0, i as int).push(p@[i as int]));
        i = i + 1;
    }
    assert(p@.subrange(0, p.len() as int) == p@);
    true
}

/// Whether `needle` stands in `hay` at index `k`.
pub open spec fn occurs_at(hay: Seq<char>, needle: Seq<char>, k: int) -> bool {
    0 <= k && k + needle.len() <= hay.len() && hay.subrange(k, k + needle.len()) == needle
}

/// Whether `needle` stands somewhere in `hay`.
pub open spec fn contains_text(hay: Seq<char>, needle: Seq<char>) -> bool {
    exists|k: int| occurs_at(hay, needle, k)
}

/// Executable [`occurs_at`].
pub fn occurs(hay: &Vec<char>, needle: &Vec<char>, k: usize) -> (r: bool)
    ensures
        r == occurs_at(hay@, needle@, k as int),
{
    if needle.len() > hay.len() || k > hay.len() - needle.len() {
        return false;
    }
    let mut i: usize = 0;
    while i < needle.len()
        invariant
            i <= needle.len(),
            k + needle.len() <= hay.len(),
            hay@.subrange(k as int, k + i) == needle@.subrange(0, i as int),
        decreases needle.len() - i,
    {
        if hay[k + i] != needle[i] {
            assert(hay@.subrange(k as int, k + needle.len())[i as int] != needle@[i as int]);
            return false;
        }
        assert(hay@.subrange(k as int, k + i + 1) == hay@.subrange(k as int, k + i).push(
            hay@[k + i],
        ));
        assert(needle@.subrange(0, i + 1) == needle@.subrange(0, i as int).push(needle@[i as int]));
        i = i + 1;
    }
    assert(needle@.subrange(0, needle.len() as int) == needle@);
    true
}

/// Executable [`contains_text`].
pub fn contains(hay: &Vec<char>, needle: &Vec<char>) -> (r: bool)
    ensures
        r == contains_text(hay@, needle@),
{
    if needle.len() > hay.len() {
        return false;
    }
    let last = hay.len() - needle.len();
    let mut k: usize = 0;
    loop
        invariant
            k <= last,
            last == hay.len() - needle.len(),
            forall|j: int| 0 <= j < k ==> !occurs_at(hay@, needle@, j),
        decreases last - k,
    {
        if occurs(hay, needle, k) {
            return true;
        }
        if k == last {
            return false;
        }
        k = k + 1;
    }
}

/// The lower-case form of an ASCII capital letter; any other character itself.
pub open spec fn lower(c: char) -> char {
    if 'A' <= c <= 'Z' {
        ((c as u8) + 32) as char
    } else {
        c
    }
}

/// `s` with each character replaced by its [`lower`] form.
pub open spec fn lowered(s: Seq<char>) -> Seq<char> {
    s.map_values(|c: char| lower(c))
}

/// Whether two texts are equal once ASCII letters are taken without case.
pub open spec fn eq_ignore_ascii_case(a: Seq<char>, b: Seq<char>) -> bool {
    lowered(a) == lowered(b)
}

/// Executable [`lower`].
pub fn to_lower(c: char) -> (r: char)
    ensures
        r == lower(c),
{
    if c >= 'A' && c <= 'Z' {
        ((c as u8) + 32) as char
    } else {
        c
    }
}

/// Executable [`lowered`].
pub fn lowercase(v: &Vec<char>) -> (r: Vec<char>)
    ensures
        r@ == lowered(v@),
{
    let mut r: Vec<char> = Vec::new();
    let mut i: usize = 0;
    while i < v.len()
        invariant
            i <= v.len(),
            r@ == lowered(v@.take(i as int)),
        decreases v.len() - i,
    {
        r.push(to_lower(v[i]));
        assert(v@.take(i + 1) == v@.take(i as int).push(v@[i as int]));
        i = i + 1;
    }
    assert(v@.take(v.len() as int) == v@);
    r
}

/// Executable [`eq_ignore_ascii_case`] against a literal.
pub fn spells_ignoring_case(v: &Vec<char>, s: &str) -> (r: bool)
    ensures
        r == eq_ignore_ascii_case(v@, s@),
{
    let a = lowercase(v);
    let w = chars_of(s);
    let b = lowercase(&w);
    same_chars(&a, &b)
}

/// The character for a decimal digit.
pub open spec fn digit_char(d: nat) -> char {
    if d == 0 {
        '0'
    } else if d == 1 {
        '1'
    } else if d == 2 {
        '2'
    } else if d == 3 {
        '3'
    } else if d == 4 {
        '4'
    } else if d == 5 {
        '5'
    } else if d == 6 {
        '6'
    } else if d == 7 {
        '7'
    } else if d == 8 {
        '8'
    } else {
        '9'
    }
}

/// The decimal numeral of `n`: no sign, no leading zero, `"0"` for zero.
pub open spec fn decimal(n: nat) -> Seq<char>
    decreases n,
{
    if n < 10 {
        seq![digit_char(n)]
    } else {
        decimal(n / 10).push(digit_char(n % 10))
    }
}

/// The decimal numeral of an integer, with `-` in front of a negative one.
pub open spec fn signed_decimal(n: int) -> Seq<char> {
    if n < 0 {
        seq!['-'] + decimal((-n) as nat)
    } else {
        decimal(n as nat)
    }
}

/// Executable [`digit_char`].
pub fn digit(d: u64) -> (c: char)
    requires
        d < 10,
    ensures
        c == digit_char(d as nat),
{
    if d == 0 {
        '0'
    } else if d == 1 {
        '1'
    } else if d == 2 {
        '2'
    } else if d == 3 {
        '3'
    } else if d == 4 {
        '4'
    } else if d == 5 {
        '5'
    } else if d == 6 {
        '6'
    } else if d == 7 {
        '7'
    } else if d == 8 {
        '8'
    } else {
        '9'
    }
}

/// Appends the decimal numeral of `n` to `out`.
pub fn push_decimal(out: &mut String, n: u64)
    ensures
        final(out)@ == old(out)@ + decimal(n as nat),
    decreases n,
{
    if n >= 10 {
        push_decimal(out, n / 10);
    }
    let ghost mid = out@;
    out.push(digit(n % 10));
    assert(out@ == old(out)@ + decimal(n as nat)) by {
        if n >= 10 {
            assert(mid.push(digit_char((n % 10) as nat)) == old(out)@ + decimal((n / 10) as nat).push(
                digit_char((n % 10) as nat),
            ));
        } else {
            assert(mid.push(digit_char(n as nat)) == old(out)@ + seq![digit_char(n as nat)]);
        }
    }
}

/// Appends the decimal numeral of the integer `n` to `out`.
pub fn push_signed_decimal(out: &mut String, n: i64)
    ensures
        final(out)@ == old(out)@ + signed_decimal(n as int),
{
    if n < 0 {
        out.push('-');
        let magnitude: u64 = ((-(n + 1)) as u64) + 1;
        let ghost mid = out@;
        push_decimal(out, magnitude);
        assert(out@ == old(out)@ + (seq!['-'] + decimal(magnitude as nat)));
    } else {
        push_decimal(out, n as u64);
    }
}

/// Appends the text `s` to `out`.
pub fn push_text(out: &mut String, s: &str)
    ensures
        final(out)@ == old(out)@ + s@,
{
    let ghost start = out@;
    for c in it: s.chars()
        invariant
            it.seq() == s@,
            out@ == start + it.seq().take(it.index()),
    {
        let ghost before = out@;
        out.push(c);
        assert(out@ == start + it.seq().take(it.index() + 1)) by {
            assert(it.seq().take(it.index() + 1) == it.seq().take(it.index()).push(c));
        }
    }
    assert(s@.take(s@.len() as int) == s@);
}

/// Whether `c` is an ASCII decimal digit.
pub open spec fn is_digit(c: char) -> bool {
    '0' <= c <= '9'
}

/// The value of a decimal digit character.
pub open spec fn digit_of(c: char) -> nat {
    (c as int - '0' as int) as nat
}

/// Whether `s` holds decimal digits only.
pub open spec fn all_digits(s: Seq<char>) -> bool {
    forall|i: int| 0 <= i < s.len() ==> is_digit(#[trigger] s[i])
}

/// The number that a text of decimal digits denotes; leading zeros count for
/// nothing and the empty text denotes zero.
pub open spec fn digits_value(s: Seq<char>) -> nat
    decreases s.len(),
{
    if s.len() == 0 {
        0
    } else {
        digits_value(s.drop_last()) * 10 + digit_of(s.last())
    }
}

/// What a text denotes as an unsigned number no larger than `max`: an optional
/// `+`, then one or more decimal digits. Anything else, and any number above
/// `max`, denotes nothing.
pub open spec fn parse_unsigned(s: Seq<char>, max: nat) -> Option<nat> {
    let body = if s.len() > 0 && s[0] == '+' {
        s.drop_first()
    } else {
        s
    };
    if body.len() > 0 && all_digits(body) && digits_value(body) <= max {
        Some(digits_value(body))
    } else {
        None
    }
}

/// What a text denotes as a signed number between `min` and `max`: an optional
/// `+` or `-`, then one or more decimal digits.
pub open spec fn parse_signed(s: Seq<char>, min: int, max: int) -> Option<int> {
    let negative = s.len() > 0 && s[0] == '-';
    let body = if s.len() > 0 && (s[0] == '+' || s[0] == '-') {
        s.drop_first()
    } else {
        s
    };
    let value = if negative {
        -(digits_value(body) as int)
    } else {
        digits_value(body) as int
    };
    if body.len() > 0 && all_digits(body) && min <= value <= max {
        Some(value)
    } else {
        None
    }
}

/// Executable [`digit_of`], for a character known to be a digit.
pub fn digit_value(c: char) -> (d: u64)
    requires
        is_digit(c),
    ensures
        d == digit_of(c),
        d < 10,
{
    (c as u64) - ('0' as u64)
}

/// Reads the digits of `v` from index `from` on as a number, as far as it stays
/// at or below `limit`.
pub fn read_digits(v: &Vec<char>, from: usize, limit: u64) -> (r: Option<u64>)
    requires
        from <= v.len(),
        limit <= 0xFFFF_FFFF_FFFF,
    ensures
        r == (if from < v.len() && all_digits(v@.skip(from as int)) && digits_value(
            v@.skip(from as int),
        ) <= limit {
            Some(digits_value(v@.skip(from as int)) as u64)
        } else {
            None
        }),
{
    let ghost body = v@.skip(from as int);
    if from >= v.len() {
        return None;
    }
    let mut acc: u64 = 0;
    let mut over: bool = false;
    let mut i: usize = from;
    while i < v.len()
        invariant
            from <= i <= v.len(),
            body == v@.skip(from as int),
            limit <= 0xFFFF_FFFF_FFFF,
            all_digits(body.take(i - from)),
            !over ==> acc == digits_value(body.take(i - from)) && acc <= limit,
            over ==> digits_value(body.take(i - from)) > limit,
        decreases v.len() - i,
    {
        let c = v[i];
        assert(c == body[i - from]);
        if !(c >= '0' && c <= '9') {
            assert(!is_digit(body[i - from]));
            return None;
        }
        let d = digit_value(c);
        proof {
            let next = body.take(i - from + 1);
            assert(next.drop_last() == body.take(i - from));
            assert(next.last() == c);
            assert forall|k: int| 0 <= k < next.len() implies is_digit(#[trigger] next[k]) by {
                if k < i - from {
                    assert(next[k] == body.take(i - from)[k]);
                }
            }
        }
        if !over {
            let next_value: u64 = acc * 10 + d;
            if next_value > limit {
                over = true;
            } else {
                acc = next_value;
            }
        }
        i = i + 1;
    }
    assert(body.take(body.len() as int) == body);
    if over {
        None
    } else {
        Some(acc)
    }
}

/// Executable [`parse_unsigned`] for 16-bit numbers.
pub fn parse_u16(v: &Vec<char>) -> (r: Option<u16>)
    ensures
        r is Some == parse_unsigned(v@, 0xFFFF) is Some,
        r matches Some(n) ==> parse_unsigned(v@, 0xFFFF) == Some(n as nat),
{
    let from: usize = if v.len() > 0 && v[0] == '+' {
        1
    } else {
        0
    };
    assert(v@.skip(1) == v@.drop_first());
    assert(v@.skip(0) == v@);
    match read_digits(v, from, 0xFFFF) {
        Some(n) => Some(n as u16),
        None => None,
    }
}

/// Executable [`parse_signed`] for 32-bit numbers.
pub fn parse_i32(v: &Vec<char>) -> (r: Option<i32>)
    ensures
        r is Some == parse_signed(v@, -0x8000_0000, 0x7FFF_FFFF) is Some,
        r matches Some(n) ==> parse_signed(v@, -0x8000_0000, 0x7FFF_FFFF) == Some(n as int),
{
    let negative = v.len() > 0 && v[0] == '-';
    let from: usize = if v.len() > 0 && (v[0] == '+' || v[0] == '-') {
        1
    } else {
        0
    };
    assert(v@.skip(1) == v@.drop_first());
    assert(v@.skip(0) == v@);
    if negative {
        match read_digits(v, from, 0x8000_0000) {
            Some(n) => Some((-(n as i64)) as i32),
            None => None,
        }
    } else {
        match read_digits(v, from, 0x7FFF_FFFF) {
            Some(n) => Some(n as i32),
            None => None,
        }
    }
}

/// The pieces of a text joined again, with `sep` between them.
pub open spec fn join(pieces: Seq<Seq<char>>, sep: char) -> Seq<char>
    decreases pieces.len(),
{
    if pieces.len() == 0 {
        Seq::empty()
    } else if pieces.len() == 1 {
        pieces[0]
    } else {
        pieces[0] + seq![sep] + join(pieces.drop_first(), sep)
    }
}

/// Splitting loses nothing: a text has at least one piece, no piece holds the
/// separator, and the pieces joined again give the text.
pub proof fn lemma_join_split(s: Seq<char>, sep: char)
    ensures
        split(s, sep).len() >= 1,
        join(split(s, sep), sep) == s,
        forall|i: int, j: int|
            0 <= i < split(s, sep).len() && 0 <= j < split(s, sep)[i].len() ==> #[trigger] split(
                s,
                sep,
            )[i][j] != sep,
    decreases s.len(),
{
    lemma_run_len(s, CharSet::AllBut(sep));
    let n = run_len(s, CharSet::AllBut(sep));
    if n < s.len() {
        let head = s.take(n as int);
        let rest = s.skip(n as int + 1);
        lemma_join_split(rest, sep);
        let p = split(s, sep);
        assert(p == seq![head] + split(rest, sep));
        assert(p.drop_first() == split(rest, sep));
        assert(p[0] == head);
        assert(head + seq![sep] + rest == s);
        assert forall|i: int, j: int| 0 <= i < p.len() && 0 <= j < p[i].len() implies #[trigger] p[i][j]
            != sep by {
            if i == 0 {
                assert(head[j] == s[j]);
            } else {
                assert(p[i] == split(rest, sep)[i - 1]);
            }
        }
    } else {
        assert(split(s, sep) == seq![s]);
    }
}

/// A text without the separator, followed by the separator and more text,
/// splits into that text and the pieces of the rest.
pub proof fn lemma_split_first(head: Seq<char>, rest: Seq<char>, sep: char)
    requires
        forall|i: int| 0 <= i < head.len() ==> head[i] != sep,
    ensures
        split(head + seq![sep] + rest, sep) == seq![head] + split(rest, sep),
{
    let s = head + seq![sep] + rest;
    assert forall|i: int| 0 <= i < head.len() implies in_set(CharSet::AllBut(sep), #[trigger] s[i]) by {
        assert(s[i] == head[i]);
    }
    assert(s[head.len() as int] == sep);
    lemma_run_len_is(s, CharSet::AllBut(sep), head.len());
    assert(s.take(head.len() as int) == head);
    assert(s.skip(head.len() as int + 1) == rest);
}

/// A text without the separator is its own single piece.
pub proof fn lemma_split_whole(s: Seq<char>, sep: char)
    requires
        forall|i: int| 0 <= i < s.len() ==> s[i] != sep,
    ensures
        split(s, sep) == seq![s],
{
    assert forall|i: int| 0 <= i < s.len() implies in_set(CharSet::AllBut(sep), #[trigger] s[i]) by {
    }
    lemma_run_len_is(s, CharSet::AllBut(sep), s.len());
}

/// A digit and its character determine each other.
pub proof fn lemma_digit_chars(d: nat, c: char)
    ensures
        d < 10 ==> is_digit(digit_char(d)) && digit_of(digit_char(d)) == d,
        is_digit(c) ==> digit_of(c) < 10 && digit_char(digit_of(c)) == c,
{
}

/// The numeral of a number is made of digits, has no leading zero, denotes
/// the number, and has at most three digits for a number below a thousand.
pub proof fn lemma_decimal_digits(n: nat)
    ensures
        decimal(n).len() >= 1,
        all_digits(decimal(n)),
        digits_value(decimal(n)) == n,
        n > 0 ==> decimal(n)[0] != '0',
        n < 10 ==> decimal(n).len() == 1,
        n < 100 ==> decimal(n).len() <= 2,
        n < 1000 ==> decimal(n).len() <= 3,
    decreases n,
{
    if n < 10 {
        lemma_digit_chars(n, '0');
        let t = decimal(n);
        assert(t == seq![digit_char(n)]);
        assert(t.drop_last() == Seq::<char>::empty());
        assert(digits_value(t.drop_last()) == 0);
    } else {
        lemma_decimal_digits(n / 10);
        lemma_digit_chars(n % 10, '0');
        let t = decimal(n);
        let u = decimal(n / 10);
        assert(t == u.push(digit_char(n % 10)));
        assert(t.drop_last() == u);
        assert(t.last() == digit_char(n % 10));
        assert(t[0] == u[0]);
        assert forall|i: int| 0 <= i < t.len() implies is_digit(#[trigger] t[i]) by {
            if i < u.len() {
                assert(t[i] == u[i]);
            }
        }
    }
}

/// A text of digits without a leading zero is the numeral of the number that
/// it denotes.
pub proof fn lemma_decimal_of_digits(t: Seq<char>)
    requires
        t.len() >= 1,
        all_digits(t),
        t.len() == 1 || t[0] != '0',
    ensures
        decimal(digits_value(t)) == t,
    decreases t.len(),
{
    lemma_digit_chars(0, t.last());
    let u = t.drop_last();
    let d = digit_of(t.last());
    if t.len() == 1 {
        assert(u.len() == 0);
        assert(digits_value(u) == 0);
        assert(digits_value(t) == digits_value(u) * 10 + d);
        assert(decimal(d) == seq![t[0]]);
        assert(seq![t[0]] == t);
    } else {
        assert(u[0] == t[0]);
        assert forall|i: int| 0 <= i < u.len() implies is_digit(#[trigger] u[i]) by {
            assert(u[i] == t[i]);
        }
        lemma_decimal_of_digits(u);
        let v = digits_value(u);
        if v == 0 {
            assert(decimal(0) == seq!['0']);
            assert(u[0] == '0');
        }
        let n = v * 10 + d;
        assert(n / 10 == v && n % 10 == d) by (nonlinear_arith)
            requires
                n == v * 10 + d,
                d < 10,
        ;
        assert(decimal(n) == decimal(v).push(digit_char(d)));
        assert(u.push(t.last()) == t);
    }
}

} // verus!
