//! Verified text utilities: character-level substring search and counting,
//! ASCII case folding, whitespace trimming and collapsing, line cleaning,
//! and decimal formatting. Every executable function is specified against a
//! direct mathematical description of its result.

use vstd::prelude::*;
use vstd::string::*;

verus! {

/// Whitespace, as the trimming and collapsing functions understand it: the
/// Unicode White_Space set, the same characters Rust's own trimming and
/// splitting recognise.
pub open spec fn is_space(c: char) -> bool {
    ('\u{9}' <= c && c <= '\u{d}') || c == ' ' || c == '\u{85}' || c == '\u{a0}'
        || c == '\u{1680}' || ('\u{2000}' <= c && c <= '\u{200a}') || c == '\u{2028}'
        || c == '\u{2029}' || c == '\u{202f}' || c == '\u{205f}' || c == '\u{3000}'
}

/// Executable form of [`is_space`].
pub fn space_char(c: char) -> (b: bool)
    ensures
        b == is_space(c),
{
    ('\u{9}' <= c && c <= '\u{d}') || c == ' ' || c == '\u{85}' || c == '\u{a0}'
        || c == '\u{1680}' || ('\u{2000}' <= c && c <= '\u{200a}') || c == '\u{2028}'
        || c == '\u{2029}' || c == '\u{202f}' || c == '\u{205f}' || c == '\u{3000}'
}

/// Lower-case image of a single character: ASCII capital letters fold to
/// their small counterparts, everything else — non-ASCII letters included —
/// is kept unchanged. This is deliberately narrower than Unicode lowering:
/// the scans built on it only ever look for ASCII indicators.
pub open spec fn lower_char(c: char) -> char {
    if 'A' <= c && c <= 'Z' {
        ((c as u32) + 32) as char
    } else {
        c
    }
}

/// The character-wise ASCII lower-casing of a sequence.
pub open spec fn lower(s: Seq<char>) -> Seq<char> {
    Seq::new(s.len(), |i: int| lower_char(s[i]))
}

/// Executable ASCII case folding of one character.
pub fn fold_char(c: char) -> (r: char)
    ensures
        r == lower_char(c),
{
    match c {
        'A' => 'a',
        'B' => 'b',
        'C' => 'c',
        'D' => 'd',
        'E' => 'e',
        'F' => 'f',
        'G' => 'g',
        'H' => 'h',
        'I' => 'i',
        'J' => 'j',
        'K' => 'k',
        'L' => 'l',
        'M' => 'm',
        'N' => 'n',
        'O' => 'o',
        'P' => 'p',
        'Q' => 'q',
        'R' => 'r',
        'S' => 's',
        'T' => 't',
        'U' => 'u',
        'V' => 'v',
        'W' => 'w',
        'X' => 'x',
        'Y' => 'y',
        'Z' => 'z',
        _ => c,
    }
}

/// The characters of a string slice, as a vector.
pub fn chars_of(s: &str) -> (v: Vec<char>)
    ensures
        v@ == s@,
{
    let n: usize = s.unicode_len();
    let mut v: Vec<char> = Vec::new();
    let mut i: usize = 0;
    while i < n
        invariant
            n == s@.len(),
            i <= n,
            v@ == s@.subrange(0, i as int),
        decreases n - i,
    {
        v.push(s.get_char(i));
        assert(v@ =~= s@.subrange(0, i + 1 as int));
        i = i + 1;
    }
    assert(v@ =~= s@);
    v
}

/// The characters of a string slice, ASCII case folded.
pub fn lower_chars_of(s: &str) -> (v: Vec<char>)
    ensures
        v@ == lower(s@),
{
    let n: usize = s.unicode_len();
    let mut v: Vec<char> = Vec::new();
    let mut i: usize = 0;
    while i < n
        invariant
            n == s@.len(),
            i <= n,
            v@ == lower(s@).subrange(0, i as int),
        decreases n - i,
    {
        v.push(fold_char(s.get_char(i)));
        assert(v@ =~= lower(s@).subrange(0, i + 1 as int));
        i = i + 1;
    }
    assert(v@ =~= lower(s@));
    v
}

/// The needle occurs in the haystack starting at position `i`.
pub open spec fn is_match_at(hay: Seq<char>, needle: Seq<char>, i: int) -> bool {
    &&& 0 <= i
    &&& i + needle.len() <= hay.len()
    &&& hay.subrange(i, i + needle.len() as int) == needle
}

/// The needle occurs somewhere in the haystack.
pub open spec fn has_match(hay: Seq<char>, needle: Seq<char>) -> bool {
    exists|i: int| is_match_at(hay, needle, i)
}

/// How many positions of the haystack, from `i` on, start an occurrence of
/// the needle. Overlapping occurrences all count.
pub open spec fn count_matches_from(hay: Seq<char>, needle: Seq<char>, i: int) -> nat
    decreases hay.len() - i,
{
    if i < 0 || i + needle.len() > hay.len() || needle.len() == 0 {
        0
    } else {
        (if is_match_at(hay, needle, i) {
            1nat
        } else {
            0nat
        }) + count_matches_from(hay, needle, i + 1)
    }
}

/// How many positions of the haystack start an occurrence of the needle.
pub open spec fn count_matches(hay: Seq<char>, needle: Seq<char>) -> nat {
    count_matches_from(hay, needle, 0)
}

proof fn lemma_count_from_bound(hay: Seq<char>, needle: Seq<char>, i: int)
    requires
        0 <= i,
        needle.len() >= 1,
    ensures
        i <= hay.len() ==> count_matches_from(hay, needle, i) <= hay.len() - i,
        i > hay.len() ==> count_matches_from(hay, needle, i) == 0,
    decreases hay.len() - i,
{
    if i + needle.len() > hay.len() {
    } else {
        lemma_count_from_bound(hay, needle, i + 1);
    }
}

/// Whether the needle occurs at position `i` of the haystack.
pub fn match_at(hay: &Vec<char>, needle: &Vec<char>, i: usize) -> (b: bool)
    ensures
        b == is_match_at(hay@, needle@, i as int),
{
    if i > hay.len() || needle.len() > hay.len() - i {
        return false;
    }
    let m: usize = needle.len();
    let mut j: usize = 0;
    while j < m
        invariant
            m == needle.len(),
            i + m <= hay.len(),
            j <= m,
            forall|k: int| 0 <= k < j ==> hay@[i + k] == needle@[k],
        decreases m - j,
    {
        if hay[i + j] != needle[j] {
            assert(hay@.subrange(i as int, i + m as int)[j as int] != needle@[j as int]);
            return false;
        }
        j = j + 1;
    }
    assert(hay@.subrange(i as int, i + m as int) =~= needle@);
    true
}

/// Whether the needle occurs anywhere in the haystack.
pub fn find_match(hay: &Vec<char>, needle: &Vec<char>) -> (b: bool)
    ensures
        b == has_match(hay@, needle@),
{
    if needle.len() == 0 {
        assert(hay@.subrange(0, 0) =~= needle@);
        assert(is_match_at(hay@, needle@, 0));
        return true;
    }
    let mut i: usize = 0;
    while i <= hay.len() && needle.len() <= hay.len() - i
        invariant
            needle.len() >= 1,
            forall|j: int| 0 <= j < i ==> !is_match_at(hay@, needle@, j),
            i <= hay.len(),
        decreases hay.len() - i,
    {
        if match_at(hay, needle, i) {
            return true;
        }
        i = i + 1;
    }
    assert(forall|j: int| is_match_at(hay@, needle@, j) ==> j + needle@.len() <= hay@.len());
    false
}

/// How many positions of the haystack start an occurrence of the needle.
pub fn count_occurrences(hay: &Vec<char>, needle: &Vec<char>) -> (n: usize)
    requires
        needle.len() >= 1,
    ensures
        n as nat == count_matches(hay@, needle@),
{
    proof {
        lemma_count_from_bound(hay@, needle@, 0);
    }
    let mut n: usize = 0;
    let mut i: usize = 0;
    while i <= hay.len() && needle.len() <= hay.len() - i
        invariant
            needle.len() >= 1,
            i <= hay.len() + 1,
            n as nat + count_matches_from(hay@, needle@, i as int) == count_matches(hay@, needle@),
            n as nat <= i,
        decreases hay.len() + 1 - i,
    {
        if match_at(hay, needle, i) {
            n = n + 1;
        }
        i = i + 1;
    }
    n
}

/// The first index at or after `i` holding a non-space character, or the
/// length of the sequence if there is none.
pub open spec fn first_non_space(s: Seq<char>, i: int) -> int
    decreases s.len() - i,
{
    if i < 0 || i >= s.len() {
        s.len() as int
    } else if is_space(s[i]) {
        first_non_space(s, i + 1)
    } else {
        i
    }
}

/// The last index at or before `i` holding a non-space character, or `-1`
/// if there is none.
pub open spec fn last_non_space(s: Seq<char>, i: int) -> int
    decreases i + 1,
{
    if i < 0 || i >= s.len() {
        -1
    } else if is_space(s[i]) {
        last_non_space(s, i - 1)
    } else {
        i
    }
}

/// The sequence with leading and trailing whitespace removed.
pub open spec fn trimmed(s: Seq<char>) -> Seq<char> {
    let a = first_non_space(s, 0);
    let b = last_non_space(s, s.len() - 1);
    if a <= b {
        s.subrange(a, b + 1)
    } else {
        Seq::empty()
    }
}

/// The string with leading and trailing whitespace removed, as an owned
/// string.
pub fn trim_text(s: &str) -> (r: String)
    ensures
        r@ == trimmed(s@),
{
    let n: usize = s.unicode_len();
    let mut a: usize = 0;
    while a < n && space_char(s.get_char(a))
        invariant
            n == s@.len(),
            a <= n,
            first_non_space(s@, 0) == first_non_space(s@, a as int),
        decreases n - a,
    {
        a = a + 1;
    }
    if a == n {
        assert(first_non_space(s@, 0) == n);
        assert(last_non_space(s@, s@.len() - 1) < n) by {
            lemma_last_non_space_le(s@, s@.len() - 1);
        }
        return String::new();
    }
    assert(first_non_space(s@, 0) == a);
    let mut b: usize = n;
    while space_char(s.get_char(b - 1))
        invariant
            n == s@.len(),
            a < b <= n,
            !is_space(s@[a as int]),
            last_non_space(s@, n - 1) == last_non_space(s@, b - 1),
        decreases b,
    {
        b = b - 1;
    }
    assert(last_non_space(s@, n - 1) == b - 1);
    let r = s.substring_char(a, b);
    assert(r@ =~= trimmed(s@));
    String::from_str(r)
}

proof fn lemma_last_non_space_le(s: Seq<char>, i: int)
    requires
        i >= -1,
    ensures
        last_non_space(s, i) <= i,
        last_non_space(s, i) < s.len(),
    decreases i + 1,
{
    if !(i < 0 || i >= s.len()) && is_space(s[i]) {
        lemma_last_non_space_le(s, i - 1);
    }
}

/// The words of a sequence (maximal runs of non-space characters) joined by
/// single spaces, defined as a left-to-right scan. `in_word` says whether
/// the previous character belonged to a word; `started` whether any word
/// has been emitted yet.
pub open spec fn collapse_from(s: Seq<char>, i: int, in_word: bool, started: bool) -> Seq<char>
    decreases s.len() - i,
{
    if i < 0 || i >= s.len() {
        Seq::empty()
    } else if is_space(s[i]) {
        collapse_from(s, i + 1, false, started)
    } else {
        (if started && !in_word {
            seq![' ']
        } else {
            Seq::<char>::empty()
        }) + seq![s[i]] + collapse_from(s, i + 1, true, true)
    }
}

/// The sequence with every maximal run of whitespace between words replaced
/// by a single space and outer whitespace dropped.
pub open spec fn collapse_ws(s: Seq<char>) -> Seq<char> {
    collapse_from(s, 0, false, false)
}

/// Collapses consecutive whitespace to single spaces and trims the ends.
pub fn collapse_whitespace(s: &str) -> (r: String)
    ensures
        r@ == collapse_ws(s@),
{
    let n: usize = s.unicode_len();
    let mut r = String::new();
    let mut in_word: bool = false;
    let mut started: bool = false;
    let mut i: usize = 0;
    while i < n
        invariant
            n == s@.len(),
            i <= n,
            r@ + collapse_from(s@, i as int, in_word, started) == collapse_ws(s@),
        decreases n - i,
    {
        let c = s.get_char(i);
        if space_char(c) {
            in_word = false;
        } else {
            if started && !in_word {
                r.append(" ");
                proof {
                    reveal_strlit(" ");
                }
            }
            let piece = s.substring_char(i, i + 1);
            assert(piece@ =~= seq![s@[i as int]]);
            r.append(piece);
            in_word = true;
            started = true;
        }
        i = i + 1;
    }
    assert(r@ =~= collapse_ws(s@));
    r
}

/// One line's contribution to the cleaned text: the trimmed line, preceded
/// by a newline if some earlier line already contributed; empty lines
/// contribute nothing. Returns the contribution and the new `started` flag.
pub open spec fn emit_line(cur: Seq<char>, started: bool) -> (Seq<char>, bool) {
    let t = trimmed(cur);
    if t.len() == 0 {
        (Seq::empty(), started)
    } else {
        ((if started {
            seq!['\n']
        } else {
            Seq::<char>::empty()
        }) + t, true)
    }
}

/// The cleaned form of the text from position `i` on, where `cur` holds the
/// characters of the current line read so far.
pub open spec fn clean_from(s: Seq<char>, i: int, cur: Seq<char>, started: bool) -> Seq<char>
    decreases s.len() - i,
{
    if i < 0 || i >= s.len() {
        emit_line(cur, started).0
    } else if s[i] == '\n' {
        emit_line(cur, started).0 + clean_from(s, i + 1, Seq::empty(), emit_line(cur, started).1)
    } else {
        clean_from(s, i + 1, cur + seq![s[i]], started)
    }
}

/// The text split at newlines, each line trimmed of surrounding whitespace,
/// empty lines dropped, and the rest joined back with single newlines.
pub open spec fn cleaned_text(s: Seq<char>) -> Seq<char> {
    clean_from(s, 0, Seq::empty(), false)
}

/// Trims every line, drops the empty ones, and joins the rest with
/// newlines.
pub fn clean_lines(s: &str) -> (r: String)
    ensures
        r@ == cleaned_text(s@),
{
    let n: usize = s.unicode_len();
    let mut r = String::new();
    let mut started: bool = false;
    let mut ls: usize = 0;
    let mut i: usize = 0;
    while i < n
        invariant
            n == s@.len(),
            ls <= i <= n,
            r@ + clean_from(s@, i as int, s@.subrange(ls as int, i as int), started)
                == cleaned_text(s@),
        decreases n - i,
    {
        let c = s.get_char(i);
        if c == '\n' {
            let line = s.substring_char(ls, i);
            let t = trim_text(line);
            if t.as_str().unicode_len() != 0 {
                assert(t@.len() > 0);
                if started {
                    r.append("\n");
                    proof {
                        reveal_strlit("\n");
                    }
                }
                r.append(t.as_str());
                started = true;
            } else {
                assert(t@.len() == 0);
            }
            ls = i + 1;
            assert(s@.subrange(ls as int, i + 1 as int) =~= Seq::<char>::empty());
        } else {
            assert(s@.subrange(ls as int, i + 1 as int)
                =~= s@.subrange(ls as int, i as int) + seq![s@[i as int]]);
        }
        i = i + 1;
    }
    let line = s.substring_char(ls, n);
    let t = trim_text(line);
    if t.as_str().unicode_len() != 0 {
        assert(t@.len() > 0);
        if started {
            r.append("\n");
            proof {
                reveal_strlit("\n");
            }
        }
        r.append(t.as_str());
    } else {
        assert(t@.len() == 0);
    }
    assert(r@ =~= cleaned_text(s@));
    r
}

/// The parts joined by single spaces, in order.
pub open spec fn join_space_from(parts: Seq<Seq<char>>, k: int) -> Seq<char>
    decreases parts.len() - k,
{
    if k < 0 || k >= parts.len() {
        Seq::empty()
    } else if k == parts.len() - 1 {
        parts[k]
    } else {
        parts[k] + seq![' '] + join_space_from(parts, k + 1)
    }
}

/// All parts joined by single spaces.
pub open spec fn join_space(parts: Seq<Seq<char>>) -> Seq<char> {
    join_space_from(parts, 0)
}

/// Joins the strings with a single space between consecutive entries.
pub fn join_with_space(parts: &Vec<String>) -> (r: String)
    ensures
        r@ == join_space(parts.deep_view()),
{
    let mut r = String::new();
    let mut k: usize = 0;
    while k < parts.len()
        invariant
            k <= parts.len(),
            parts.deep_view().len() == parts.len(),
            forall|j: int| 0 <= j < parts.len() ==> parts.deep_view()[j] == parts@[j]@,
            k == 0 ==> r@ == Seq::<char>::empty(),
            k == 0 ==> join_space(parts.deep_view())
                == r@ + join_space_from(parts.deep_view(), 0),
            0 < k < parts.len() ==> join_space(parts.deep_view())
                == r@ + seq![' '] + join_space_from(parts.deep_view(), k as int),
            k >= parts.len() ==> join_space(parts.deep_view()) == r@,
        decreases parts.len() - k,
    {
        if k > 0 {
            r.append(" ");
            proof {
                reveal_strlit(" ");
            }
        }
        r.append(parts[k].as_str());
        k = k + 1;
    }
    r
}

/// The decimal digit for a value below ten.
pub open spec fn digit_char(d: int) -> char {
    if d == 0 {
        '0'
    } else if d == 1 {
        '1'
    } else if d == 2 {
        '2'
    } else if d == 3 {
        '3'
    } else if d == 4 {
        '4'
    } else if d == 5 {
        '5'
    } else if d == 6 {
        '6'
    } else if d == 7 {
        '7'
    } else if d == 8 {
        '8'
    } else {
        '9'
    }
}

/// The decimal numeral of a natural number, most significant digit first.
pub open spec fn dec_str(n: nat) -> Seq<char>
    decreases n,
{
    if n < 10 {
        seq![digit_char(n as int)]
    } else {
        dec_str(n / 10) + seq![digit_char((n % 10) as int)]
    }
}

fn digit_str(d: u64) -> (r: &'static str)
    requires
        d < 10,
    ensures
        r@ == seq![digit_char(d as int)],
{
    proof {
        reveal_strlit("0");
        reveal_strlit("1");
        reveal_strlit("2");
        reveal_strlit("3");
        reveal_strlit("4");
        reveal_strlit("5");
        reveal_strlit("6");
        reveal_strlit("7");
        reveal_strlit("8");
        reveal_strlit("9");
    }
    if d == 0 {
        "0"
    } else if d == 1 {
        "1"
    } else if d == 2 {
        "2"
    } else if d == 3 {
        "3"
    } else if d == 4 {
        "4"
    } else if d == 5 {
        "5"
    } else if d == 6 {
        "6"
    } else if d == 7 {
        "7"
    } else if d == 8 {
        "8"
    } else {
        "9"
    }
}

/// Appends the decimal numeral of `n` to `out`.
pub fn push_decimal(n: u64, out: &mut String)
    ensures
        final(out)@ == old(out)@ + dec_str(n as nat),
    decreases n,
{
    if n < 10 {
        out.append(digit_str(n));
    } else {
        push_decimal(n / 10, out);
        out.append(digit_str(n % 10));
    }
}

/// The decimal numeral of `n`, as a string.
pub fn u64_to_string(n: u64) -> (r: String)
    ensures
        r@ == dec_str(n as nat),
{
    let mut r = String::new();
    push_decimal(n, &mut r);
    assert(r@ =~= dec_str(n as nat));
    r
}

} // verus!
