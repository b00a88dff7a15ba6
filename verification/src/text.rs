//! Verified text utilities shared across the engine.
//!
//! The engine normalizes dictated phrases, substitutes prompt templates and
//! assembles URLs. All of that is plain character work, specified over the
//! `Seq<char>` views of `String` and `&str`. Whitespace means the Unicode
//! White_Space set, and lowercasing is the full Unicode mapping that std
//! performs, named rather than restated.

use vstd::prelude::*;
use vstd::string::*;

verus! {

/// The whitespace characters that normalization recognizes: the Unicode
/// White_Space set, exactly the characters `char::is_whitespace` accepts.
pub open spec fn is_space_char(c: char) -> bool {
    let u = c as u32;
    u == 0x09 || u == 0x0A || u == 0x0B || u == 0x0C || u == 0x0D || u == 0x20 || u == 0x85
        || u == 0xA0 || u == 0x1680 || (0x2000 <= u && u <= 0x200A) || u == 0x2028 || u == 0x2029
        || u == 0x202F || u == 0x205F || u == 0x3000
}

/// Executable twin of [`is_space_char`].
pub fn char_is_space(c: char) -> (r: bool)
    ensures
        r == is_space_char(c),
{
    let u: u32 = c as u32;
    u == 0x09 || u == 0x0A || u == 0x0B || u == 0x0C || u == 0x0D || u == 0x20 || u == 0x85
        || u == 0xA0 || u == 0x1680 || (0x2000 <= u && u <= 0x200A) || u == 0x2028 || u == 0x2029
        || u == 0x202F || u == 0x205F || u == 0x3000
}

/// What `str::to_lowercase` returns for a text: the Unicode lowercase
/// mapping, a function of the characters alone.
pub uninterp spec fn lowercase_of(s: Seq<char>) -> Seq<char>;

/// Lowercases a string.
///
/// Relies on `str::to_lowercase` from std: the result is the input mapped
/// through the Unicode lowercase mapping, depending on its characters
/// alone; an empty string stays empty.
#[verifier::external_body]
pub(crate) fn lowercase_str(s: &str) -> (r: String)
    ensures
        r@ == lowercase_of(s@),
        s@.len() == 0 ==> r@.len() == 0,
{
    s.to_lowercase()
}

/// What remains of `s` after removing its leading whitespace.
pub open spec fn drop_leading_spaces(s: Seq<char>) -> Seq<char>
    decreases s.len(),
{
    if s.len() > 0 && is_space_char(s[0]) {
        drop_leading_spaces(s.drop_first())
    } else {
        s
    }
}

/// What remains of `s` after removing its trailing whitespace.
pub open spec fn drop_trailing_spaces(s: Seq<char>) -> Seq<char>
    decreases s.len(),
{
    if s.len() > 0 && is_space_char(s.last()) {
        drop_trailing_spaces(s.drop_last())
    } else {
        s
    }
}

/// `s` with leading and trailing whitespace removed.
pub open spec fn trim_seq(s: Seq<char>) -> Seq<char> {
    drop_trailing_spaces(drop_leading_spaces(s))
}

/// Appends one character to a string.
///
/// Relies on `String::push` from std: it appends the given `char` to the end
/// of the string.
#[verifier::external_body]
pub(crate) fn push_char(s: &mut String, c: char)
    ensures
        final(s)@ == old(s)@.push(c),
{
    s.push(c);
}

proof fn lemma_drop_leading_spaces_subrange(s: Seq<char>, k: int)
    requires
        0 <= k <= s.len(),
        forall|i: int| 0 <= i < k ==> is_space_char(s[i]),
        k == s.len() || !is_space_char(s[k]),
    ensures
        drop_leading_spaces(s) == s.subrange(k, s.len() as int),
    decreases k,
{
    if k == 0 {
        if s.len() > 0 && is_space_char(s[0]) {
            assert(false);
        }
        assert(s.subrange(0, s.len() as int) =~= s);
    } else {
        assert(is_space_char(s[0]));
        lemma_drop_leading_spaces_subrange(s.drop_first(), k - 1);
        assert(s.drop_first().subrange(k - 1, s.drop_first().len() as int) =~= s.subrange(
            k,
            s.len() as int,
        ));
    }
}

proof fn lemma_drop_trailing_spaces_subrange(s: Seq<char>, k: int)
    requires
        0 <= k <= s.len(),
        forall|i: int| k <= i < s.len() ==> is_space_char(s[i]),
        k == 0 || !is_space_char(s[k - 1]),
    ensures
        drop_trailing_spaces(s) == s.subrange(0, k),
    decreases s.len() - k,
{
    if k == s.len() {
        if s.len() > 0 && is_space_char(s.last()) {
            assert(false);
        }
        assert(s.subrange(0, s.len() as int) =~= s);
    } else {
        assert(is_space_char(s.last()));
        lemma_drop_trailing_spaces_subrange(s.drop_last(), k);
        assert(s.drop_last().subrange(0, k) =~= s.subrange(0, k));
    }
}

/// Removes leading and trailing whitespace.
pub fn trim_str(s: &str) -> (r: String)
    ensures
        r@ == trim_seq(s@),
{
    let n = s.unicode_len();
    let mut start: usize = 0;
    while start < n && char_is_space(s.get_char(start))
        invariant
            n == s@.len(),
            start <= n,
            forall|i: int| 0 <= i < start ==> is_space_char(s@[i]),
        decreases n - start,
    {
        start = start + 1;
    }
    proof {
        lemma_drop_leading_spaces_subrange(s@, start as int);
    }
    let ghost mid: Seq<char> = s@.subrange(start as int, n as int);
    let mut end: usize = n;
    while end > start && char_is_space(s.get_char(end - 1))
        invariant
            n == s@.len(),
            start <= end <= n,
            forall|i: int| end <= i < n ==> is_space_char(s@[i]),
        decreases end,
    {
        end = end - 1;
    }
    proof {
        assert(forall|i: int| end - start <= i < mid.len() ==> is_space_char(mid[i]));
        lemma_drop_trailing_spaces_subrange(mid, end - start);
    }
    let mut out = String::new();
    let mut i: usize = start;
    while i < end
        invariant
            n == s@.len(),
            start <= i <= end <= n,
            out@ == s@.subrange(start as int, i as int),
        decreases end - i,
    {
        push_char(&mut out, s.get_char(i));
        proof {
            assert(s@.subrange(start as int, i as int).push(s@[i as int]) =~= s@.subrange(
                start as int,
                i + 1,
            ));
        }
        i = i + 1;
    }
    proof {
        assert(mid.subrange(0, end - start as int) =~= s@.subrange(start as int, end as int));
    }
    out
}

/// The collapsed form of the first `i` characters of `s`, together with the
/// flag telling whether the last emitted character was a space.
pub open spec fn collapse_upto(s: Seq<char>, i: int) -> (Seq<char>, bool)
    decreases i,
{
    if i <= 0 {
        (Seq::<char>::empty(), false)
    } else {
        let (acc, prev) = collapse_upto(s, i - 1);
        let c = s[i - 1];
        if is_space_char(c) {
            if prev {
                (acc, true)
            } else {
                (acc.push(' '), true)
            }
        } else {
            (acc.push(c), false)
        }
    }
}

/// `s` with every run of whitespace replaced by a single space.
pub open spec fn collapse_spaces(s: Seq<char>) -> Seq<char> {
    collapse_upto(s, s.len() as int).0
}

/// Replaces each maximal run of whitespace by one space character.
pub fn collapse_str(s: &str) -> (r: String)
    ensures
        r@ == collapse_spaces(s@),
{
    let n = s.unicode_len();
    let mut out = String::new();
    let mut prev_space = false;
    let mut i: usize = 0;
    while i < n
        invariant
            n == s@.len(),
            i <= n,
            (out@, prev_space) == collapse_upto(s@, i as int),
        decreases n - i,
    {
        let c = s.get_char(i);
        if char_is_space(c) {
            if !prev_space {
                push_char(&mut out, ' ');
                prev_space = true;
            }
        } else {
            push_char(&mut out, c);
            prev_space = false;
        }
        i = i + 1;
    }
    out
}

/// One trailing period or comma removed, along with whitespace this uncovers.
pub open spec fn strip_trailing_punct(s: Seq<char>) -> Seq<char> {
    if s.len() > 0 && (s.last() == '.' || s.last() == ',') {
        drop_trailing_spaces(s.drop_last())
    } else {
        s
    }
}

/// Strips one trailing `.` or `,` and any whitespace left before it.
pub fn strip_trailing_punct_str(s: &str) -> (r: String)
    ensures
        r@ == strip_trailing_punct(s@),
{
    let n = s.unicode_len();
    if n > 0 {
        let last = s.get_char(n - 1);
        if last == '.' || last == ',' {
            let mut end = n - 1;
            while end > 0 && char_is_space(s.get_char(end - 1))
                invariant
                    n == s@.len(),
                    end < n,
                    forall|i: int| end <= i < n - 1 ==> is_space_char(s@[i]),
                decreases end,
            {
                end = end - 1;
            }
            proof {
                lemma_drop_trailing_spaces_subrange(s@.drop_last(), end as int);
            }
            let mut out = String::new();
            let mut i: usize = 0;
            while i < end
                invariant
                    n == s@.len(),
                    i <= end < n,
                    out@ == s@.subrange(0, i as int),
                decreases end - i,
            {
                push_char(&mut out, s.get_char(i));
                proof {
                    assert(s@.subrange(0, i as int).push(s@[i as int]) =~= s@.subrange(0, i + 1));
                }
                i = i + 1;
            }
            proof {
                assert(s@.drop_last().subrange(0, end as int) =~= s@.subrange(0, end as int));
            }
            return out;
        }
    }
    s.to_owned()
}

/// `s` with every occurrence of `pat` replaced by `sub`, scanning left to
/// right without overlap, as `str::replace` does.
pub open spec fn replace_seq(s: Seq<char>, pat: Seq<char>, sub: Seq<char>) -> Seq<char>
    decreases s.len(),
    when pat.len() > 0
{
    if s.len() < pat.len() {
        s
    } else if s.subrange(0, pat.len() as int) == pat {
        sub + replace_seq(s.skip(pat.len() as int), pat, sub)
    } else {
        seq![s[0]] + replace_seq(s.drop_first(), pat, sub)
    }
}

/// Whether `pat` occurs in `s` starting at position `i`.
pub open spec fn matches_at(s: Seq<char>, pat: Seq<char>, i: int) -> bool {
    i + pat.len() <= s.len() && s.subrange(i, i + pat.len() as int) == pat
}

/// Tests whether `pat` occurs in `s` at position `i`.
fn matches_at_str(s: &str, n: usize, pat: &str, m: usize, i: usize) -> (r: bool)
    requires
        n == s@.len(),
        m == pat@.len(),
        i <= n,
    ensures
        r == matches_at(s@, pat@, i as int),
{
    if m > n - i {
        proof {
            assert(!matches_at(s@, pat@, i as int));
        }
        return false;
    }
    let mut j: usize = 0;
    while j < m
        invariant
            n == s@.len(),
            m == pat@.len(),
            i + m <= n,
            j <= m,
            forall|k: int| 0 <= k < j ==> s@[i + k] == pat@[k],
        decreases m - j,
    {
        if s.get_char(i + j) != pat.get_char(j) {
            proof {
                assert(s@.subrange(i as int, i + m) != pat@) by {
                    assert(s@.subrange(i as int, i + m)[j as int] == s@[i + j]);
                }
            }
            return false;
        }
        j = j + 1;
    }
    proof {
        assert(s@.subrange(i as int, i + m) =~= pat@);
    }
    true
}

/// Replaces every occurrence of `pat` in `s` by `sub`, left to right.
pub fn replace_str(s: &str, pat: &str, sub: &str) -> (r: String)
    requires
        pat@.len() > 0,
    ensures
        r@ == replace_seq(s@, pat@, sub@),
{
    let n = s.unicode_len();
    let m = pat.unicode_len();
    let mut out = String::new();
    let mut i: usize = 0;
    proof {
        assert(s@.skip(0) =~= s@);
        assert(Seq::<char>::empty() + replace_seq(s@, pat@, sub@) =~= replace_seq(s@, pat@, sub@));
    }
    while i < n
        invariant
            n == s@.len(),
            m == pat@.len(),
            m > 0,
            i <= n,
            out@ + replace_seq(s@.skip(i as int), pat@, sub@) == replace_seq(s@, pat@, sub@),
        decreases n - i,
    {
        let ghost rest = s@.skip(i as int);
        let ghost prev_out = out@;
        if matches_at_str(s, n, pat, m, i) {
            proof {
                assert(rest.subrange(0, m as int) =~= s@.subrange(i as int, i + m));
                assert(rest.skip(m as int) =~= s@.skip(i + m));
                assert(replace_seq(rest, pat@, sub@) == sub@ + replace_seq(
                    s@.skip(i + m),
                    pat@,
                    sub@,
                ));
            }
            out.append(sub);
            proof {
                assert(out@ + replace_seq(s@.skip(i + m), pat@, sub@) =~= prev_out + replace_seq(
                    rest,
                    pat@,
                    sub@,
                ));
            }
            i = i + m;
        } else {
            proof {
                if rest.len() >= m {
                    assert(rest.subrange(0, m as int) =~= s@.subrange(i as int, i + m));
                }
                assert(rest.drop_first() =~= s@.skip(i + 1));
                assert(replace_seq(rest, pat@, sub@) =~= seq![rest[0]] + replace_seq(
                    s@.skip(i + 1),
                    pat@,
                    sub@,
                ));
            }
            push_char(&mut out, s.get_char(i));
            proof {
                assert(out@ + replace_seq(s@.skip(i + 1), pat@, sub@) =~= prev_out + replace_seq(
                    rest,
                    pat@,
                    sub@,
                ));
            }
            i = i + 1;
        }
    }
    proof {
        assert(s@.skip(n as int) =~= Seq::<char>::empty());
        assert(replace_seq(Seq::<char>::empty(), pat@, sub@) =~= Seq::<char>::empty());
        assert(out@ + Seq::<char>::empty() =~= out@);
    }
    out
}

/// `s` with every trailing occurrence of `c` removed.
pub open spec fn drop_trailing_char(s: Seq<char>, c: char) -> Seq<char>
    decreases s.len(),
{
    if s.len() > 0 && s.last() == c {
        drop_trailing_char(s.drop_last(), c)
    } else {
        s
    }
}

proof fn lemma_drop_trailing_char_subrange(s: Seq<char>, c: char, k: int)
    requires
        0 <= k <= s.len(),
        forall|i: int| k <= i < s.len() ==> s[i] == c,
        k == 0 || s[k - 1] != c,
    ensures
        drop_trailing_char(s, c) == s.subrange(0, k),
    decreases s.len() - k,
{
    if k == s.len() {
        if s.len() > 0 && s.last() == c {
            assert(false);
        }
        assert(s.subrange(0, s.len() as int) =~= s);
    } else {
        assert(s.last() == c);
        lemma_drop_trailing_char_subrange(s.drop_last(), c, k);
        assert(s.drop_last().subrange(0, k) =~= s.subrange(0, k));
    }
}

/// Removes every trailing occurrence of `c`, as `str::trim_end_matches` does
/// for a single-character pattern.
pub fn trim_end_char(s: &str, c: char) -> (r: String)
    ensures
        r@ == drop_trailing_char(s@, c),
{
    let n = s.unicode_len();
    let mut end: usize = n;
    while end > 0 && s.get_char(end - 1) == c
        invariant
            n == s@.len(),
            end <= n,
            forall|i: int| end <= i < n ==> s@[i] == c,
        decreases end,
    {
        end = end - 1;
    }
    proof {
        lemma_drop_trailing_char_subrange(s@, c, end as int);
    }
    let mut out = String::new();
    let mut i: usize = 0;
    while i < end
        invariant
            n == s@.len(),
            i <= end <= n,
            out@ == s@.subrange(0, i as int),
        decreases end - i,
    {
        push_char(&mut out, s.get_char(i));
        proof {
            assert(s@.subrange(0, i as int).push(s@[i as int]) =~= s@.subrange(0, i + 1));
        }
        i = i + 1;
    }
    out
}

} // verus!
