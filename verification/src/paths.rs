//! Joining path components with Windows- or POSIX-style separators,
//! decided by the shape of the first component.
use vstd::prelude::*;

use crate::text::{chars_vec, string_from_chars};

verus! {

/// A Windows-style path: its second character is a colon (as in `C:`),
/// or it starts with a backslash.
pub open spec fn spec_is_windows_style(s: Seq<char>) -> bool {
    (s.len() >= 2 && s[1] == ':') || (s.len() >= 1 && s[0] == '\\')
}

/// Whether a path is written Windows-style.
pub fn is_windows_style(s: &str) -> (r: bool)
    ensures
        r == spec_is_windows_style(s@),
{
    let v = chars_vec(s);
    (v.len() >= 2 && v[1] == ':') || (v.len() >= 1 && v[0] == '\\')
}

/// True for the two separator characters.
pub open spec fn is_sep_char(c: char) -> bool {
    c == '/' || c == '\\'
}

fn is_sep(c: char) -> (r: bool)
    ensures
        r == is_sep_char(c),
{
    c == '/' || c == '\\'
}

/// Slashes replaced by the given separator.
pub open spec fn spec_seps_to(s: Seq<char>, sep: char) -> Seq<char> {
    Seq::new(s.len(), |i: int| if is_sep_char(s[i]) { sep } else { s[i] })
}

/// The text with trailing separators removed.
pub open spec fn spec_trim_trailing_seps(s: Seq<char>) -> Seq<char>
    decreases s.len(),
{
    if s.len() > 0 && is_sep_char(s[s.len() - 1]) {
        spec_trim_trailing_seps(s.drop_last())
    } else {
        s
    }
}

/// The text with leading separators removed.
pub open spec fn spec_trim_leading_seps(s: Seq<char>) -> Seq<char>
    decreases s.len(),
{
    if s.len() > 0 && is_sep_char(s[0]) {
        spec_trim_leading_seps(s.drop_first())
    } else {
        s
    }
}

proof fn lemma_trim_trailing_seps(s: Seq<char>, j: int)
    requires
        0 <= j <= s.len(),
        forall|k: int| j <= k < s.len() ==> is_sep_char(s[k]),
        j > 0 ==> !is_sep_char(s[j - 1]),
    ensures
        spec_trim_trailing_seps(s) == s.take(j),
    decreases s.len() - j,
{
    if j == s.len() {
        assert(s.take(j) =~= s);
        if s.len() > 0 && is_sep_char(s[s.len() - 1]) {
            lemma_trim_trailing_seps(s.drop_last(), j - 1);
            assert(false);
        }
    } else {
        let t = s.drop_last();
        lemma_trim_trailing_seps(t, j);
        assert(t.take(j) =~= s.take(j));
    }
}

proof fn lemma_trim_leading_seps(s: Seq<char>, i: int)
    requires
        0 <= i <= s.len(),
        forall|k: int| 0 <= k < i ==> is_sep_char(s[k]),
        i < s.len() ==> !is_sep_char(s[i]),
    ensures
        spec_trim_leading_seps(s) == s.skip(i),
    decreases i,
{
    if i == 0 {
        assert(s.skip(0) =~= s);
    } else {
        let t = s.drop_first();
        assert(forall|k: int| 0 <= k < i - 1 ==> is_sep_char(#[trigger] t[k]));
        lemma_trim_leading_seps(t, i - 1);
        assert(t.skip(i - 1) =~= s.skip(i));
    }
}

fn trim_trailing_seps(v: &Vec<char>) -> (r: Vec<char>)
    ensures
        r@ == spec_trim_trailing_seps(v@),
{
    let mut j: usize = v.len();
    while j > 0 && is_sep(v[j - 1])
        invariant
            0 <= j <= v@.len(),
            forall|k: int| j <= k < v@.len() ==> is_sep_char(v@[k]),
        decreases j,
    {
        j = j - 1;
    }
    proof {
        lemma_trim_trailing_seps(v@, j as int);
        assert(v@.subrange(0, j as int) =~= v@.take(j as int));
    }
    crate::text::sub_chars(v.as_slice(), 0, j)
}

fn trim_both_seps(v: &Vec<char>) -> (r: Vec<char>)
    ensures
        r@ == spec_trim_trailing_seps(spec_trim_leading_seps(v@)),
{
    let mut i: usize = 0;
    while i < v.len() && is_sep(v[i])
        invariant
            0 <= i <= v@.len(),
            forall|k: int| 0 <= k < i ==> is_sep_char(v@[k]),
        decreases v@.len() - i,
    {
        i = i + 1;
    }
    proof {
        lemma_trim_leading_seps(v@, i as int);
    }
    let head = crate::text::sub_chars(v.as_slice(), i, v.len());
    proof {
        assert(v@.subrange(i as int, v@.len() as int) =~= v@.skip(i as int));
    }
    trim_trailing_seps(&head)
}

fn seps_to(v: &Vec<char>, sep: char) -> (r: Vec<char>)
    ensures
        r@ == spec_seps_to(v@, sep),
{
    let mut out: Vec<char> = Vec::new();
    let mut i: usize = 0;
    while i < v.len()
        invariant
            0 <= i <= v@.len(),
            out@.len() == i,
            forall|k: int|
                0 <= k < i ==> out@[k] == (if is_sep_char(v@[k]) {
                    sep
                } else {
                    v@[k]
                }),
        decreases v@.len() - i,
    {
        if is_sep(v[i]) {
            out.push(sep);
        } else {
            out.push(v[i]);
        }
        i = i + 1;
    }
    proof {
        assert(out@ =~= spec_seps_to(v@, sep));
    }
    out
}

/// One joined component: nothing when the trimmed component is empty;
/// otherwise a separator (unless the text so far ends with one) and
/// the trimmed component - its slashes converted to backslashes for a
/// Windows-style join.
pub open spec fn spec_join_step(acc: Seq<char>, comp: Seq<char>, sep: char, convert: bool) -> Seq<
    char,
> {
    let trimmed = spec_trim_trailing_seps(spec_trim_leading_seps(comp));
    let part = if convert {
        spec_seps_to(trimmed, '\\')
    } else {
        trimmed
    };
    if part.len() == 0 {
        acc
    } else if acc.len() > 0 && acc[acc.len() - 1] == sep {
        acc + part
    } else {
        acc + seq![sep] + part
    }
}

/// The components after the first, joined left to right.
pub open spec fn spec_join_rest(
    first: Seq<char>,
    comps: Seq<Seq<char>>,
    sep: char,
    convert: bool,
    n: int,
) -> Seq<char>
    decreases n,
{
    if n <= 1 {
        first
    } else {
        spec_join_step(spec_join_rest(first, comps, sep, convert, n - 1), comps[n - 1], sep, convert)
    }
}

/// The OS-normalized join of components: Windows-style when the first
/// component looks Windows-style (backslash separator, slashes
/// converted), POSIX otherwise; the first component keeps its leading
/// separators and loses trailing ones, later components lose both.
pub open spec fn spec_path_join(comps: Seq<Seq<char>>, sep_default: char) -> Seq<char> {
    if comps.len() == 0 {
        Seq::empty()
    } else {
        let windows = spec_is_windows_style(comps[0]);
        let sep = if windows {
            '\\'
        } else {
            sep_default
        };
        let first = if windows {
            spec_seps_to(spec_trim_trailing_seps(comps[0]), '\\')
        } else {
            spec_trim_trailing_seps(comps[0])
        };
        spec_join_rest(first, comps, sep, windows, comps.len() as int)
    }
}

/// Joins path components, normalizing separators by the style of the
/// first component; `sep_default` is the platform separator used for
/// POSIX-style paths.
pub fn path_join_os_normalized(comps: &Vec<String>, sep_default: char) -> (r: String)
    ensures
        r@ == spec_path_join(crate::text::strs_v(comps@), sep_default),
{
    proof {
        crate::text::lemma_strs_v(comps@);
    }
    let ghost cv = crate::text::strs_v(comps@);
    if comps.len() == 0 {
        proof {
            assert(cv.len() == 0);
        }
        return String::new();
    }
    let first_chars = chars_vec(comps[0].as_str());
    let windows = is_windows_style(comps[0].as_str());
    let sep: char = if windows {
        '\\'
    } else {
        sep_default
    };
    let trimmed = trim_trailing_seps(&first_chars);
    let mut acc: Vec<char> = if windows {
        seps_to(&trimmed, '\\')
    } else {
        trimmed
    };
    let ghost first0 = acc@;
    let mut i: usize = 1;
    while i < comps.len()
        invariant
            1 <= i <= comps@.len(),
            cv == crate::text::strs_v(comps@),
            cv.len() == comps@.len(),
            forall|k: int| 0 <= k < comps@.len() ==> cv[k] == comps@[k]@,
            windows == spec_is_windows_style(cv[0]),
            sep == (if windows {
                '\\'
            } else {
                sep_default
            }),
            first0 == (if windows {
                spec_seps_to(spec_trim_trailing_seps(cv[0]), '\\')
            } else {
                spec_trim_trailing_seps(cv[0])
            }),
            acc@ == spec_join_rest(first0, cv, sep, windows, i as int),
        decreases comps@.len() - i,
    {
        let ghost acc0 = acc@;
        let comp_chars = chars_vec(comps[i].as_str());
        let part0 = trim_both_seps(&comp_chars);
        let part = if windows {
            seps_to(&part0, '\\')
        } else {
            part0
        };
        if part.len() > 0 {
            if !(acc.len() > 0 && acc[acc.len() - 1] == sep) {
                acc.push(sep);
            }
            let mut tail = part;
            acc.append(&mut tail);
        }
        proof {
            assert(acc@ =~= spec_join_step(acc0, cv[i as int], sep, windows));
        }
        i = i + 1;
    }
    string_from_chars(acc.as_slice())
}

} // verus!
