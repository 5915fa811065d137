//! Text primitives: conversion between `&str`/`String` and `Vec<char>`,
//! and the character-level operations the rest of the crate builds on.
use vstd::prelude::*;
use vstd::string::StringExecFns;

verus! {

/// Relies on `String::push`: appends one character to the string.
pub assume_specification[ String::push ](s: &mut String, c: char)
    ensures
        final(s)@ == old(s)@.push(c),
;

/// Collects the characters of a string slice into a vector.
pub fn chars_vec(s: &str) -> (v: Vec<char>)
    ensures
        v@ == s@,
{
    broadcast use vstd::string::axiom_spec_iter;

    let mut v: Vec<char> = Vec::new();
    for c in it: s.chars()
        invariant
            it.seq() == s@,
            v@ == it.seq().take(it.index() as int),
    {
        v.push(c);
    }
    proof {
        assert(v@ =~= s@);
    }
    v
}

/// Builds a string whose characters are exactly those of the slice.
pub fn string_from_chars(v: &[char]) -> (s: String)
    ensures
        s@ == v@,
{
    let mut s = String::new();
    let mut i: usize = 0;
    while i < v.len()
        invariant
            i <= v.len(),
            s@ == v@.take(i as int),
        decreases v.len() - i,
    {
        s.push(v[i]);
        i = i + 1;
    }
    proof {
        assert(s@ =~= v@);
    }
    s
}

// region: whitespace and trimming

/// The whitespace characters this crate trims: ASCII whitespace.
pub open spec fn is_space_char(c: char) -> bool {
    c == ' ' || c == '\t' || c == '\n' || c == '\r' || c == '\u{000C}'
}

pub fn is_space(c: char) -> (r: bool)
    ensures
        r == is_space_char(c),
{
    c == ' ' || c == '\t' || c == '\n' || c == '\r' || c == '\u{000C}'
}

pub open spec fn drop_leading_spaces(s: Seq<char>) -> Seq<char>
    decreases s.len(),
{
    if s.len() > 0 && is_space_char(s[0]) {
        drop_leading_spaces(s.drop_first())
    } else {
        s
    }
}

pub open spec fn drop_trailing_spaces(s: Seq<char>) -> Seq<char>
    decreases s.len(),
{
    if s.len() > 0 && is_space_char(s[s.len() - 1]) {
        drop_trailing_spaces(s.drop_last())
    } else {
        s
    }
}

/// The string with leading and trailing whitespace removed.
pub open spec fn trim_spec(s: Seq<char>) -> Seq<char> {
    drop_trailing_spaces(drop_leading_spaces(s))
}

proof fn lemma_drop_leading(s: Seq<char>, i: int)
    requires
        0 <= i <= s.len(),
        forall|k: int| 0 <= k < i ==> is_space_char(s[k]),
        i < s.len() ==> !is_space_char(s[i]),
    ensures
        drop_leading_spaces(s) == s.skip(i),
    decreases i,
{
    if i == 0 {
        assert(s.skip(0) =~= s);
    } else {
        let t = s.drop_first();
        assert(forall|k: int| 0 <= k < i - 1 ==> is_space_char(#[trigger] t[k]));
        lemma_drop_leading(t, i - 1);
        assert(t.skip(i - 1) =~= s.skip(i));
    }
}

proof fn lemma_drop_trailing(s: Seq<char>, j: int)
    requires
        0 <= j <= s.len(),
        forall|k: int| j <= k < s.len() ==> is_space_char(s[k]),
        j > 0 ==> !is_space_char(s[j - 1]),
    ensures
        drop_trailing_spaces(s) == s.take(j),
    decreases s.len() - j,
{
    if j == s.len() {
        assert(s.take(j) =~= s);
        if s.len() > 0 && is_space_char(s[s.len() - 1]) {
            let t = s.drop_last();
            lemma_drop_trailing(t, j - 1);
            assert(t.take(j - 1) =~= s.take(j - 1));
            assert(false);
        }
    } else {
        let t = s.drop_last();
        lemma_drop_trailing(t, j);
        assert(t.take(j) =~= s.take(j));
    }
}

/// Copy of `v[i..j]`.
pub fn sub_chars(v: &[char], i: usize, j: usize) -> (r: Vec<char>)
    requires
        i <= j <= v@.len(),
    ensures
        r@ == v@.subrange(i as int, j as int),
{
    let mut r: Vec<char> = Vec::new();
    let mut k: usize = i;
    while k < j
        invariant
            i <= k <= j <= v@.len(),
            r@ == v@.subrange(i as int, k as int),
        decreases j - k,
    {
        r.push(v[k]);
        proof {
            assert(v@.subrange(i as int, k + 1 as int) =~= v@.subrange(i as int, k as int).push(
                v@[k as int],
            ));
        }
        k = k + 1;
    }
    r
}

/// Removes leading and trailing whitespace.
pub fn trim_chars(v: &[char]) -> (r: Vec<char>)
    ensures
        r@ == trim_spec(v@),
{
    let n = v.len();
    let mut i: usize = 0;
    while i < n && is_space(v[i])
        invariant
            0 <= i <= n == v@.len(),
            forall|k: int| 0 <= k < i ==> is_space_char(v@[k]),
        decreases n - i,
    {
        i = i + 1;
    }
    let mut j: usize = n;
    while j > i && is_space(v[j - 1])
        invariant
            i <= j <= n == v@.len(),
            forall|k: int| j <= k < n ==> is_space_char(v@[k]),
        decreases j,
    {
        j = j - 1;
    }
    proof {
        lemma_drop_leading(v@, i as int);
        if j == i {
            lemma_drop_trailing(v@.skip(i as int), 0);
        } else {
            lemma_drop_trailing(v@.skip(i as int), j - i);
        }
        assert(v@.skip(i as int).take(j - i) =~= v@.subrange(i as int, j as int));
    }
    sub_chars(v, i, j)
}

/// Every character is whitespace (true of the empty string).
pub open spec fn all_spaces(s: Seq<char>) -> bool {
    forall|i: int| 0 <= i < s.len() ==> is_space_char(s[i])
}

/// True when the text is empty or only whitespace.
pub fn is_blank(v: &[char]) -> (r: bool)
    ensures
        r == all_spaces(v@),
{
    let mut i: usize = 0;
    while i < v.len()
        invariant
            0 <= i <= v@.len(),
            forall|k: int| 0 <= k < i ==> is_space_char(v@[k]),
        decreases v@.len() - i,
    {
        if !is_space(v[i]) {
            return false;
        }
        i = i + 1;
    }
    true
}

// endregion: whitespace and trimming

// region: searching and splitting

/// Index of the first occurrence of `c`, if any.
pub fn find_char(v: &[char], c: char) -> (r: Option<usize>)
    ensures
        match r {
            Some(i) => v@.index_of_first(c) == Some(i as int),
            None => v@.index_of_first(c) is None,
        },
{
    proof {
        v@.index_of_first_ensures(c);
    }
    let mut i: usize = 0;
    while i < v.len()
        invariant
            0 <= i <= v@.len(),
            forall|k: int| 0 <= k < i ==> v@[k] != c,
            match v@.index_of_first(c) {
                Some(idx) => {
                    &&& 0 <= idx < v@.len()
                    &&& v@[idx] == c
                    &&& forall|j: int| 0 <= j < idx ==> v@[j] != c
                },
                None => !v@.contains(c),
            },
        decreases v@.len() - i,
    {
        if v[i] == c {
            return Some(i);
        }
        i = i + 1;
    }
    proof {
        if v@.index_of_first(c) is Some {
            assert(v@[v@.index_of_first(c)->0] == c);
        }
    }
    None
}

/// The parts before and after the first occurrence of `c`:
/// `(s, None)` when `c` does not occur.
pub open spec fn spec_split_first(s: Seq<char>, c: char) -> (Seq<char>, Option<Seq<char>>) {
    match s.index_of_first(c) {
        Some(i) => (s.take(i), Some(s.skip(i + 1))),
        None => (s, None),
    }
}

/// Splits at the first occurrence of `c`, like `splitn(2, c)`.
pub fn split_first_char(v: &[char], c: char) -> (r: (Vec<char>, Option<Vec<char>>))
    ensures
        r.0@ == spec_split_first(v@, c).0,
        match r.1 {
            Some(rest) => spec_split_first(v@, c).1 == Some(rest@),
            None => spec_split_first(v@, c).1 is None,
        },
{
    proof {
        v@.index_of_first_ensures(c);
    }
    let n = v.len();
    match find_char(v, c) {
        Some(i) => {
            let left = sub_chars(v, 0, i);
            let right = sub_chars(v, i + 1, n);
            proof {
                assert(v@.subrange(0, i as int) =~= v@.take(i as int));
                assert(v@.subrange(i + 1 as int, v@.len() as int) =~= v@.skip(i + 1));
            }
            (left, Some(right))
        },
        None => (sub_chars(v, 0, v.len()), None),
    }
}

/// True when `p` is a prefix of `v`.
pub fn starts_with_chars(v: &[char], p: &[char]) -> (r: bool)
    ensures
        r == p@.is_prefix_of(v@),
{
    if p.len() > v.len() {
        proof {
            assert(!p@.is_prefix_of(v@));
        }
        return false;
    }
    let mut i: usize = 0;
    while i < p.len()
        invariant
            0 <= i <= p@.len() <= v@.len(),
            forall|k: int| 0 <= k < i ==> p@[k] == v@[k],
        decreases p@.len() - i,
    {
        if v[i] != p[i] {
            proof {
                assert(!p@.is_prefix_of(v@)) by {
                    assert(v@.subrange(0, p@.len() as int)[i as int] == v@[i as int]);
                };
            }
            return false;
        }
        i = i + 1;
    }
    proof {
        assert(p@ =~= v@.subrange(0, p@.len() as int));
    }
    true
}

/// Character-for-character equality of two slices.
pub fn eq_chars(a: &[char], b: &[char]) -> (r: bool)
    ensures
        r == (a@ == b@),
{
    if a.len() != b.len() {
        return false;
    }
    let mut i: usize = 0;
    while i < a.len()
        invariant
            0 <= i <= a@.len() == b@.len(),
            forall|k: int| 0 <= k < i ==> a@[k] == b@[k],
        decreases a@.len() - i,
    {
        if a[i] != b[i] {
            return false;
        }
        i = i + 1;
    }
    proof {
        assert(a@ =~= b@);
    }
    true
}

/// Equality of two string slices, by their characters.
pub fn str_eq(a: &str, b: &str) -> (r: bool)
    ensures
        r == (a@ == b@),
{
    let va = chars_vec(a);
    let vb = chars_vec(b);
    eq_chars(va.as_slice(), vb.as_slice())
}

// endregion: searching and splitting

// region: line operations

/// The text with its first `n` lines removed; the empty string when the
/// text has fewer than `n` line breaks.
pub open spec fn spec_drop_first_lines(s: Seq<char>, n: nat) -> Seq<char>
    decreases n,
{
    if n == 0 {
        s
    } else {
        match s.index_of_first('\n') {
            Some(i) => spec_drop_first_lines(s.skip(i + 1), (n - 1) as nat),
            None => Seq::empty(),
        }
    }
}

/// The text with its last `n` lines removed (the separating line break
/// goes too); the empty string when the text has fewer than `n` breaks.
pub open spec fn spec_drop_last_lines(s: Seq<char>, n: nat) -> Seq<char>
    decreases n,
{
    if n == 0 {
        s
    } else {
        match s.index_of_last('\n') {
            Some(i) => spec_drop_last_lines(s.take(i), (n - 1) as nat),
            None => Seq::empty(),
        }
    }
}

fn drop_first_lines_chars(v: Vec<char>, n: usize) -> (r: Vec<char>)
    ensures
        r@ == spec_drop_first_lines(v@, n as nat),
    decreases n,
{
    if n == 0 {
        v
    } else {
        let len = v.len();
        match find_char(v.as_slice(), '\n') {
            Some(i) => {
                proof {
                    v@.index_of_first_ensures('\n');
                }
                let rest = sub_chars(v.as_slice(), i + 1, len);
                proof {
                    assert(v@.subrange(i + 1 as int, v@.len() as int) =~= v@.skip(i + 1));
                }
                drop_first_lines_chars(rest, n - 1)
            },
            None => Vec::new(),
        }
    }
}

fn find_last_char(v: &[char], c: char) -> (r: Option<usize>)
    ensures
        match r {
            Some(i) => v@.index_of_last(c) == Some(i as int),
            None => v@.index_of_last(c) is None,
        },
{
    proof {
        v@.index_of_last_ensures(c);
    }
    let mut i: usize = v.len();
    while i > 0
        invariant
            0 <= i <= v@.len(),
            forall|k: int| i <= k < v@.len() ==> v@[k] != c,
            match v@.index_of_last(c) {
                Some(idx) => {
                    &&& 0 <= idx < v@.len()
                    &&& v@[idx] == c
                    &&& forall|j: int| idx < j < v@.len() ==> v@[j] != c
                },
                None => !v@.contains(c),
            },
        decreases i,
    {
        i = i - 1;
        if v[i] == c {
            return Some(i);
        }
    }
    proof {
        if v@.index_of_last(c) is Some {
            assert(v@[v@.index_of_last(c)->0] == c);
        }
    }
    None
}

fn drop_last_lines_chars(v: Vec<char>, n: usize) -> (r: Vec<char>)
    ensures
        r@ == spec_drop_last_lines(v@, n as nat),
    decreases n,
{
    if n == 0 {
        v
    } else {
        match find_last_char(v.as_slice(), '\n') {
            Some(i) => {
                proof {
                    v@.index_of_last_ensures('\n');
                }
                let head = sub_chars(v.as_slice(), 0, i);
                proof {
                    assert(v@.subrange(0, i as int) =~= v@.take(i as int));
                }
                drop_last_lines_chars(head, n - 1)
            },
            None => Vec::new(),
        }
    }
}

/// The content with its first `num_of_lines` lines removed; empty when
/// there are fewer line breaks than that.
pub fn remove_first_lines_impl(content: &str, num_of_lines: usize) -> (r: String)
    ensures
        r@ == spec_drop_first_lines(content@, num_of_lines as nat),
{
    let v = chars_vec(content);
    let out = drop_first_lines_chars(v, num_of_lines);
    string_from_chars(out.as_slice())
}

/// The content with its last `num_of_lines` lines removed; empty when
/// there are fewer line breaks than that.
pub fn remove_last_lines_impl(content: &str, num_of_lines: usize) -> (r: String)
    ensures
        r@ == spec_drop_last_lines(content@, num_of_lines as nat),
{
    let v = chars_vec(content);
    let out = drop_last_lines_chars(v, num_of_lines);
    string_from_chars(out.as_slice())
}

/// The first line of the text (without its line break, and without a
/// trailing carriage return), cut to at most `max` characters.
pub open spec fn spec_first_line_truncate(s: Seq<char>, max: nat) -> Seq<char> {
    let line = spec_split_first(s, '\n').0;
    let line = if line.len() > 0 && line[line.len() - 1] == '\r' {
        line.drop_last()
    } else {
        line
    };
    if line.len() <= max {
        line
    } else {
        line.take(max as int)
    }
}

/// First line of `s`, truncated to `max` characters.
pub fn first_line_truncate(s: &str, max: usize) -> (r: String)
    ensures
        r@ == spec_first_line_truncate(s@, max as nat),
{
    let v = chars_vec(s);
    let (line, _) = split_first_char(v.as_slice(), '\n');
    let line = if line.len() > 0 && line[line.len() - 1] == '\r' {
        let head = sub_chars(line.as_slice(), 0, line.len() - 1);
        proof {
            assert(line@.subrange(0, line@.len() - 1) =~= line@.drop_last());
        }
        head
    } else {
        line
    };
    let cut = if line.len() <= max {
        line
    } else {
        sub_chars(line.as_slice(), 0, max)
    };
    proof {
        assert(cut@ =~= spec_first_line_truncate(s@, max as nat));
    }
    string_from_chars(cut.as_slice())
}

// endregion: line operations

// region: case folding and joining

/// The ASCII-lowercase counterpart of a character.
pub open spec fn lower_char(c: char) -> char {
    if c == 'A' { 'a' } else if c == 'B' { 'b' } else if c == 'C' { 'c' } else if c == 'D' { 'd' } else if c == 'E' { 'e' } else if c == 'F' { 'f' } else if c == 'G' { 'g' } else if c == 'H' { 'h' } else if c == 'I' { 'i' } else if c == 'J' { 'j' } else if c == 'K' { 'k' } else if c == 'L' { 'l' } else if c == 'M' { 'm' } else if c == 'N' { 'n' } else if c == 'O' { 'o' } else if c == 'P' { 'p' } else if c == 'Q' { 'q' } else if c == 'R' { 'r' } else if c == 'S' { 's' } else if c == 'T' { 't' } else if c == 'U' { 'u' } else if c == 'V' { 'v' } else if c == 'W' { 'w' } else if c == 'X' { 'x' } else if c == 'Y' { 'y' } else if c == 'Z' { 'z' } else { c }
}

/// The text with every ASCII uppercase letter lowered.
pub open spec fn lower_ascii(s: Seq<char>) -> Seq<char> {
    Seq::new(s.len(), |i: int| lower_char(s[i]))
}

fn lower_one(c: char) -> (r: char)
    ensures
        r == lower_char(c),
{
    match c {
        'A' => 'a',
        'B' => 'b',
        'C' => 'c',
        'D' => 'd',
        'E' => 'e',
        'F' => 'f',
        'G' => 'g',
        'H' => 'h',
        'I' => 'i',
        'J' => 'j',
        'K' => 'k',
        'L' => 'l',
        'M' => 'm',
        'N' => 'n',
        'O' => 'o',
        'P' => 'p',
        'Q' => 'q',
        'R' => 'r',
        'S' => 's',
        'T' => 't',
        'U' => 'u',
        'V' => 'v',
        'W' => 'w',
        'X' => 'x',
        'Y' => 'y',
        'Z' => 'z',
        _ => c,
    }
}

/// ASCII-lowercases a string (as provider adapter names are matched).
pub fn to_ascii_lower(s: &str) -> (r: String)
    ensures
        r@ == lower_ascii(s@),
{
    let v = chars_vec(s);
    let mut out: Vec<char> = Vec::new();
    let mut i: usize = 0;
    while i < v.len()
        invariant
            0 <= i <= v@.len(),
            v@ == s@,
            out@.len() == i,
            forall|k: int| 0 <= k < i ==> out@[k] == lower_char(v@[k]),
        decreases v@.len() - i,
    {
        let c = lower_one(v[i]);
        out.push(c);
        i = i + 1;
    }
    proof {
        assert(out@ =~= lower_ascii(s@));
    }
    string_from_chars(out.as_slice())
}

/// The views of a list of strings, in order.
pub open spec fn strs_v(s: Seq<String>) -> Seq<Seq<char>>
    decreases s.len(),
{
    if s.len() == 0 {
        Seq::empty()
    } else {
        strs_v(s.drop_last()).push(s.last()@)
    }
}

pub proof fn lemma_strs_v(s: Seq<String>)
    ensures
        strs_v(s).len() == s.len(),
        forall|i: int| 0 <= i < s.len() ==> strs_v(s)[i] == s[i]@,
    decreases s.len(),
{
    if s.len() > 0 {
        lemma_strs_v(s.drop_last());
    }
}

/// The texts joined with a blank line between consecutive ones.
pub open spec fn spec_join_blank(s: Seq<Seq<char>>) -> Seq<char>
    decreases s.len(),
{
    if s.len() == 0 {
        Seq::empty()
    } else if s.len() == 1 {
        s[0]
    } else {
        spec_join_blank(s.drop_last()) + "\n\n"@ + s.last()
    }
}

/// Joins the strings with a blank line between consecutive ones.
pub fn join_blank(texts: &Vec<String>) -> (r: String)
    ensures
        r@ == spec_join_blank(strs_v(texts@)),
{
    proof {
        lemma_strs_v(texts@);
    }
    let mut out = String::new();
    let mut i: usize = 0;
    while i < texts.len()
        invariant
            0 <= i <= texts@.len(),
            strs_v(texts@).len() == texts@.len(),
            forall|k: int| 0 <= k < texts@.len() ==> strs_v(texts@)[k] == texts@[k]@,
            out@ == spec_join_blank(strs_v(texts@).take(i as int)),
        decreases texts@.len() - i,
    {
        if i > 0 {
            out.append("\n\n");
        }
        out.append(texts[i].as_str());
        proof {
            let sv = strs_v(texts@);
            assert(sv.take(i + 1).drop_last() =~= sv.take(i as int));
            assert(sv.take(i + 1).last() == sv[i as int]);
            if i == 0 {
                assert(spec_join_blank(sv.take(1)) == sv.take(1)[0]);
            }
        }
        i = i + 1;
    }
    proof {
        assert(strs_v(texts@).take(texts@.len() as int) =~= strs_v(texts@));
    }
    out
}

// endregion: case folding and joining

} // verus!

