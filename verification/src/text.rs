//! Verified text utilities: the engines and detectors reason about source
//! code as sequences of characters, and every helper here carries an exact
//! contract over those sequences.

use vstd::prelude::*;

verus! {

/// True when `needle` occurs in `hay` starting at position `i`.
pub open spec fn matches_at(hay: Seq<char>, needle: Seq<char>, i: int) -> bool {
    0 <= i && i + needle.len() <= hay.len() && hay.subrange(i, i + needle.len()) == needle
}

/// True when `needle` occurs anywhere in `hay`.
pub open spec fn contains_seq(hay: Seq<char>, needle: Seq<char>) -> bool {
    exists|i: int| matches_at(hay, needle, i)
}

/// True when `prefix` is a prefix of `s`.
pub open spec fn starts_with_seq(s: Seq<char>, prefix: Seq<char>) -> bool {
    matches_at(s, prefix, 0)
}

/// True when `suffix` is a suffix of `s`.
pub open spec fn ends_with_seq(s: Seq<char>, suffix: Seq<char>) -> bool {
    matches_at(s, suffix, s.len() - suffix.len())
}

/// ASCII lower-casing of one character; other characters are unchanged.
pub open spec fn lower_char(c: char) -> char {
    if 'A' <= c && c <= 'Z' {
        ((c as u8) + 32) as char
    } else {
        c
    }
}

/// ASCII lower-casing of a character sequence.
pub open spec fn lower_seq(s: Seq<char>) -> Seq<char> {
    s.map(|_i: int, c: char| lower_char(c))
}

/// True when `needle` occurs in `hay` under ASCII case folding of `hay`.
pub open spec fn contains_lower(hay: Seq<char>, needle: Seq<char>) -> bool {
    contains_seq(lower_seq(hay), needle)
}

/// Lower-cases one character, ASCII-only.
pub fn lower_char_x(c: char) -> (r: char)
    ensures
        r == lower_char(c),
{
    if 'A' <= c && c <= 'Z' {
        ((c as u8) + 32) as char
    } else {
        c
    }
}

/// Compares two string slices character by character.
pub fn str_eq(a: &str, b: &str) -> (r: bool)
    ensures
        r == (a@ == b@),
{
    let alen = a.unicode_len();
    let blen = b.unicode_len();
    if alen != blen {
        assert(a@ != b@) by {
            assert(a@.len() != b@.len());
        }
        return false;
    }
    let mut i: usize = 0;
    while i < alen
        invariant
            alen == a@.len(),
            alen == b@.len(),
            0 <= i <= alen,
            forall|j: int| 0 <= j < i ==> a@[j] == b@[j],
        decreases alen - i,
    {
        if a.get_char(i) != b.get_char(i) {
            return false;
        }
        i = i + 1;
    }
    assert(a@ =~= b@);
    true
}

/// True when the characters of `hay` starting at `at` spell out `needle`.
fn matches_here(hay: &str, needle: &str, at: usize) -> (r: bool)
    requires
        at + needle@.len() <= hay@.len(),
    ensures
        r == matches_at(hay@, needle@, at as int),
{
    let hlen = hay.unicode_len();
    let nlen = needle.unicode_len();
    let mut j: usize = 0;
    while j < nlen
        invariant
            hlen == hay@.len(),
            nlen == needle@.len(),
            at + nlen <= hlen,
            0 <= j <= nlen,
            forall|k: int| 0 <= k < j ==> hay@[at + k] == needle@[k],
        decreases nlen - j,
    {
        if hay.get_char(at + j) != needle.get_char(j) {
            assert(hay@.subrange(at as int, at + needle@.len())[j as int] != needle@[j as int]);
            return false;
        }
        j = j + 1;
    }
    assert(hay@.subrange(at as int, at + needle@.len()) =~= needle@);
    true
}

/// True when `needle` occurs as a substring of `hay`.
pub fn contains_sub(hay: &str, needle: &str) -> (r: bool)
    ensures
        r == contains_seq(hay@, needle@),
{
    let hlen = hay.unicode_len();
    let nlen = needle.unicode_len();
    if nlen > hlen {
        assert(!contains_seq(hay@, needle@)) by {
            assert(forall|i: int| !matches_at(hay@, needle@, i));
        }
        return false;
    }
    if nlen == 0 {
        assert(matches_at(hay@, needle@, 0)) by {
            assert(hay@.subrange(0, 0) =~= needle@);
        }
        return true;
    }
    let last = hlen - nlen;
    let mut i: usize = 0;
    loop
        invariant
            hlen == hay@.len(),
            nlen == needle@.len(),
            1 <= nlen <= hlen,
            last == hlen - nlen,
            0 <= i <= last + 1,
            forall|k: int| 0 <= k < i ==> !matches_at(hay@, needle@, k),
        decreases last + 1 - i,
    {
        if i > last {
            assert(forall|k: int| matches_at(hay@, needle@, k) ==> 0 <= k <= last);
            return false;
        }
        if matches_here(hay, needle, i) {
            return true;
        }
        i = i + 1;
    }
}

/// True when the case-folded characters of `hay` starting at `at` spell out `needle`.
fn matches_here_lower(hay: &str, needle: &str, at: usize) -> (r: bool)
    requires
        at + needle@.len() <= hay@.len(),
    ensures
        r == matches_at(lower_seq(hay@), needle@, at as int),
{
    let hlen = hay.unicode_len();
    let nlen = needle.unicode_len();
    let mut j: usize = 0;
    while j < nlen
        invariant
            hlen == hay@.len(),
            nlen == needle@.len(),
            at + nlen <= hlen,
            0 <= j <= nlen,
            forall|k: int| 0 <= k < j ==> lower_seq(hay@)[at + k] == needle@[k],
        decreases nlen - j,
    {
        if lower_char_x(hay.get_char(at + j)) != needle.get_char(j) {
            assert(lower_seq(hay@).subrange(at as int, at + needle@.len())[j as int]
                != needle@[j as int]);
            return false;
        }
        j = j + 1;
    }
    assert(lower_seq(hay@).subrange(at as int, at + needle@.len()) =~= needle@);
    true
}

/// True when `needle` occurs in `hay` after ASCII-lower-casing `hay`.
/// The needle is expected already in lower case.
pub fn contains_lower_sub(hay: &str, needle: &str) -> (r: bool)
    ensures
        r == contains_lower(hay@, needle@),
{
    let hlen = hay.unicode_len();
    let nlen = needle.unicode_len();
    assert(lower_seq(hay@).len() == hay@.len());
    if nlen > hlen {
        assert(!contains_seq(lower_seq(hay@), needle@)) by {
            assert(forall|i: int| !matches_at(lower_seq(hay@), needle@, i));
        }
        return false;
    }
    if nlen == 0 {
        assert(matches_at(lower_seq(hay@), needle@, 0)) by {
            assert(lower_seq(hay@).subrange(0, 0) =~= needle@);
        }
        return true;
    }
    let last = hlen - nlen;
    let mut i: usize = 0;
    loop
        invariant
            hlen == hay@.len(),
            nlen == needle@.len(),
            1 <= nlen <= hlen,
            last == hlen - nlen,
            0 <= i <= last + 1,
            forall|k: int| 0 <= k < i ==> !matches_at(lower_seq(hay@), needle@, k),
        decreases last + 1 - i,
    {
        if i > last {
            assert(forall|k: int| matches_at(lower_seq(hay@), needle@, k) ==> 0 <= k <= last);
            return false;
        }
        if matches_here_lower(hay, needle, i) {
            return true;
        }
        i = i + 1;
    }
}

/// True when `s` begins with `prefix`.
pub fn starts_with_sub(s: &str, prefix: &str) -> (r: bool)
    ensures
        r == starts_with_seq(s@, prefix@),
{
    let slen = s.unicode_len();
    let plen = prefix.unicode_len();
    if plen > slen {
        return false;
    }
    matches_here(s, prefix, 0)
}

/// True when `s` ends with `suffix`.
pub fn ends_with_sub(s: &str, suffix: &str) -> (r: bool)
    ensures
        r == ends_with_seq(s@, suffix@),
{
    let slen = s.unicode_len();
    let xlen = suffix.unicode_len();
    if xlen > slen {
        return false;
    }
    matches_here(s, suffix, slen - xlen)
}

/// Index of the first newline in `s`, or `s.len()` if there is none.
pub open spec fn first_newline(s: Seq<char>) -> nat
    decreases s.len(),
{
    if s.len() == 0 {
        0
    } else if s[0] == '\n' {
        0
    } else {
        1 + first_newline(s.drop_first())
    }
}

pub proof fn lemma_first_newline_bounds(s: Seq<char>)
    ensures
        first_newline(s) <= s.len(),
        forall|j: int| 0 <= j < first_newline(s) ==> s[j] != '\n',
        first_newline(s) < s.len() ==> s[first_newline(s) as int] == '\n',
    decreases s.len(),
{
    if s.len() > 0 && s[0] != '\n' {
        lemma_first_newline_bounds(s.drop_first());
        assert forall|j: int| 0 <= j < first_newline(s) implies s[j] != '\n' by {
            if j >= 1 {
                assert(s.drop_first()[j - 1] != '\n');
                assert(s[j] == s.drop_first()[j - 1]);
            }
        }
    }
}

/// The position of the first newline is determined by any witness split:
/// a newline-free prefix followed by a newline (or the end of the text).
pub proof fn lemma_first_newline_is(s: Seq<char>, i: int)
    requires
        0 <= i <= s.len(),
        forall|j: int| 0 <= j < i ==> s[j] != '\n',
        i < s.len() ==> s[i] == '\n',
    ensures
        first_newline(s) == i,
    decreases i,
{
    if s.len() == 0 {
    } else if s[0] == '\n' {
        assert(i == 0);
    } else {
        assert(i >= 1);
        lemma_first_newline_is(s.drop_first(), i - 1);
    }
}

/// The lines of `s`: maximal newline-free segments. A trailing newline
/// produces no final empty line.
pub open spec fn split_lines_spec(s: Seq<char>) -> Seq<Seq<char>>
    decreases s.len(),
    via split_lines_spec_decreases
{
    if s.len() == 0 {
        Seq::empty()
    } else {
        let i = first_newline(s) as int;
        if i == s.len() {
            seq![s]
        } else {
            seq![s.subrange(0, i)] + split_lines_spec(s.subrange(i + 1, s.len() as int))
        }
    }
}

#[via_fn]
proof fn split_lines_spec_decreases(s: Seq<char>) {
    lemma_first_newline_bounds(s);
}

/// Unrolls `split_lines_spec` at a witnessed first newline.
proof fn lemma_split_lines_step(s: Seq<char>, i: int)
    requires
        0 <= i < s.len(),
        forall|j: int| 0 <= j < i ==> s[j] != '\n',
        s[i] == '\n',
    ensures
        split_lines_spec(s) == seq![s.subrange(0, i)] + split_lines_spec(
            s.subrange(i + 1, s.len() as int),
        ),
{
    lemma_first_newline_is(s, i);
}

/// Splits `s` into its lines.
pub fn split_lines(s: &str) -> (r: Vec<String>)
    ensures
        r@.map_values(|l: String| l@) == split_lines_spec(s@),
{
    let len = s.unicode_len();
    let mut out: Vec<String> = Vec::new();
    let mut start: usize = 0;
    let mut i: usize = 0;
    assert(s@.subrange(0, len as int) =~= s@);
    while i < len
        invariant
            len == s@.len(),
            0 <= start <= i <= len,
            forall|j: int| start <= j < i ==> s@[j] != '\n',
            out@.map_values(|l: String| l@) + split_lines_spec(
                s@.subrange(start as int, len as int),
            ) =~= split_lines_spec(s@),
        decreases len - i,
    {
        if s.get_char(i) == '\n' {
            let line = String::from_str(s.substring_char(start, i));
            let ghost rest = s@.subrange(start as int, len as int);
            proof {
                lemma_split_lines_step(rest, i - start);
                assert(rest.subrange(0, i - start) =~= s@.subrange(start as int, i as int));
                assert(rest.subrange(i - start + 1, rest.len() as int) =~= s@.subrange(
                    i + 1,
                    len as int,
                ));
            }
            let ghost old_out = out@;
            out.push(line);
            proof {
                assert(out@.map_values(|l: String| l@) =~= old_out.map_values(|l: String| l@)
                    + seq![line@]);
                assert(out@.map_values(|l: String| l@) + split_lines_spec(
                    s@.subrange(i + 1, len as int),
                ) =~= split_lines_spec(s@));
            }
            start = i + 1;
        }
        i = i + 1;
    }
    if start < len {
        let line = String::from_str(s.substring_char(start, len));
        let ghost rest = s@.subrange(start as int, len as int);
        proof {
            lemma_first_newline_is(rest, rest.len() as int);
            assert(split_lines_spec(rest) == seq![rest]);
        }
        let ghost old_out = out@;
        out.push(line);
        proof {
            assert(out@.map_values(|l: String| l@) =~= old_out.map_values(|l: String| l@)
                + seq![line@]);
            assert(out@.map_values(|l: String| l@) =~= split_lines_spec(s@));
        }
    } else {
        proof {
            assert(s@.subrange(start as int, len as int).len() == 0);
            assert(out@.map_values(|l: String| l@) =~= split_lines_spec(s@));
        }
    }
    out
}

/// ASCII whitespace.
pub open spec fn is_space_char(c: char) -> bool {
    c == ' ' || c == '\t' || c == '\r' || c == '\n'
}

/// `s` without its leading whitespace.
pub open spec fn trim_front(s: Seq<char>) -> Seq<char>
    decreases s.len(),
{
    if s.len() > 0 && is_space_char(s[0]) {
        trim_front(s.drop_first())
    } else {
        s
    }
}

/// `s` without its trailing whitespace.
pub open spec fn trim_back(s: Seq<char>) -> Seq<char>
    decreases s.len(),
{
    if s.len() > 0 && is_space_char(s.last()) {
        trim_back(s.drop_last())
    } else {
        s
    }
}

/// `s` without leading and trailing whitespace.
pub open spec fn trim_spec(s: Seq<char>) -> Seq<char> {
    trim_back(trim_front(s))
}

proof fn lemma_trim_front_is(s: Seq<char>, a: int)
    requires
        0 <= a <= s.len(),
        forall|j: int| 0 <= j < a ==> is_space_char(s[j]),
        a < s.len() ==> !is_space_char(s[a]),
    ensures
        trim_front(s) == s.subrange(a, s.len() as int),
    decreases a,
{
    if a == 0 {
        assert(s.subrange(0, s.len() as int) =~= s);
    } else {
        lemma_trim_front_is(s.drop_first(), a - 1);
        assert(s.drop_first().subrange(a - 1, s.len() - 1) =~= s.subrange(a, s.len() as int));
    }
}

proof fn lemma_trim_back_is(s: Seq<char>, b: int)
    requires
        0 <= b <= s.len(),
        forall|j: int| b <= j < s.len() ==> is_space_char(s[j]),
        b > 0 ==> !is_space_char(s[b - 1]),
    ensures
        trim_back(s) == s.subrange(0, b),
    decreases s.len() - b,
{
    if b == s.len() {
        if s.len() > 0 && is_space_char(s.last()) {
            assert(!is_space_char(s[b - 1]));
            assert(false);
        }
        assert(s.subrange(0, b) =~= s);
    } else {
        assert(is_space_char(s.last()));
        lemma_trim_back_is(s.drop_last(), b);
        assert(s.drop_last().subrange(0, b) =~= s.subrange(0, b));
    }
}

/// `s` with leading and trailing whitespace removed.
pub fn trim_str(s: &str) -> (r: &str)
    ensures
        r@ == trim_spec(s@),
{
    let len = s.unicode_len();
    let mut a: usize = 0;
    while a < len && is_space_char_x(s.get_char(a))
        invariant
            len == s@.len(),
            0 <= a <= len,
            forall|j: int| 0 <= j < a ==> is_space_char(s@[j]),
        decreases len - a,
    {
        a = a + 1;
    }
    proof {
        lemma_trim_front_is(s@, a as int);
    }
    if a == len {
        let r = s.substring_char(len, len);
        proof {
            assert(trim_front(s@).len() == 0);
            assert(trim_back(trim_front(s@)) =~= trim_front(s@));
            assert(r@ =~= trim_spec(s@));
        }
        return r;
    }
    let mut b: usize = len;
    while b > a && is_space_char_x(s.get_char(b - 1))
        invariant
            len == s@.len(),
            0 <= a <= b <= len,
            a < len,
            !is_space_char(s@[a as int]),
            forall|j: int| b <= j < len ==> is_space_char(s@[j]),
        decreases b,
    {
        b = b - 1;
    }
    let r = s.substring_char(a, b);
    proof {
        let t = trim_front(s@);
        assert(t == s@.subrange(a as int, len as int));
        assert(b > a);
        assert(!is_space_char(t[b - a - 1]));
        lemma_trim_back_is(t, b - a);
        assert(t.subrange(0, b - a) =~= s@.subrange(a as int, b as int));
    }
    r
}

/// Whitespace test for one character.
pub fn is_space_char_x(c: char) -> (r: bool)
    ensures
        r == is_space_char(c),
{
    c == ' ' || c == '\t' || c == '\r' || c == '\n'
}

/// Characters an identifier token is made of.
pub open spec fn is_ident_char(c: char) -> bool {
    ('a' <= c && c <= 'z') || ('A' <= c && c <= 'Z') || ('0' <= c && c <= '9') || c == '_'
}

/// ASCII letter.
pub open spec fn is_alpha_char(c: char) -> bool {
    ('a' <= c && c <= 'z') || ('A' <= c && c <= 'Z')
}

/// Length of the maximal identifier-character prefix of `s`.
pub open spec fn ident_run(s: Seq<char>) -> nat
    decreases s.len(),
{
    if s.len() > 0 && is_ident_char(s[0]) {
        1 + ident_run(s.drop_first())
    } else {
        0
    }
}

proof fn lemma_ident_run_bounds(s: Seq<char>)
    ensures
        ident_run(s) <= s.len(),
        forall|j: int| 0 <= j < ident_run(s) ==> is_ident_char(s[j]),
        ident_run(s) < s.len() ==> !is_ident_char(s[ident_run(s) as int]),
    decreases s.len(),
{
    if s.len() > 0 && is_ident_char(s[0]) {
        lemma_ident_run_bounds(s.drop_first());
        assert forall|j: int| 0 <= j < ident_run(s) implies is_ident_char(s[j]) by {
            if j >= 1 {
                assert(is_ident_char(s.drop_first()[j - 1]));
                assert(s[j] == s.drop_first()[j - 1]);
            }
        }
    }
}

proof fn lemma_ident_run_is(s: Seq<char>, k: int)
    requires
        0 <= k <= s.len(),
        forall|j: int| 0 <= j < k ==> is_ident_char(s[j]),
        k < s.len() ==> !is_ident_char(s[k]),
    ensures
        ident_run(s) == k,
    decreases k,
{
    if s.len() == 0 || !is_ident_char(s[0]) {
        assert(k == 0);
    } else {
        assert(k >= 1);
        lemma_ident_run_is(s.drop_first(), k - 1);
    }
}

/// The identifier tokens of `s`: maximal runs of identifier characters,
/// in order of appearance.
pub open spec fn tokens_spec(s: Seq<char>) -> Seq<Seq<char>>
    decreases s.len(),
    via tokens_spec_decreases
{
    if s.len() == 0 {
        Seq::empty()
    } else if !is_ident_char(s[0]) {
        tokens_spec(s.drop_first())
    } else {
        let k = ident_run(s) as int;
        seq![s.subrange(0, k)] + tokens_spec(s.subrange(k, s.len() as int))
    }
}

#[via_fn]
proof fn tokens_spec_decreases(s: Seq<char>) {
    lemma_ident_run_bounds(s);
}

/// Identifier-character test for one character.
pub fn is_ident_char_x(c: char) -> (r: bool)
    ensures
        r == is_ident_char(c),
{
    ('a' <= c && c <= 'z') || ('A' <= c && c <= 'Z') || ('0' <= c && c <= '9') || c == '_'
}

/// ASCII-letter test for one character.
pub fn is_alpha_char_x(c: char) -> (r: bool)
    ensures
        r == is_alpha_char(c),
{
    ('a' <= c && c <= 'z') || ('A' <= c && c <= 'Z')
}

/// Splits `s` into its identifier tokens.
pub fn ident_tokens(s: &str) -> (r: Vec<String>)
    ensures
        r@.map_values(|t: String| t@) == tokens_spec(s@),
{
    let len = s.unicode_len();
    let mut out: Vec<String> = Vec::new();
    let mut i: usize = 0;
    assert(s@.subrange(0, len as int) =~= s@);
    while i < len
        invariant
            len == s@.len(),
            0 <= i <= len,
            out@.map_values(|t: String| t@) + tokens_spec(s@.subrange(i as int, len as int))
                =~= tokens_spec(s@),
        decreases len - i,
    {
        let ghost rest = s@.subrange(i as int, len as int);
        if !is_ident_char_x(s.get_char(i)) {
            proof {
                assert(rest[0] == s@[i as int]);
                assert(tokens_spec(rest) == tokens_spec(rest.drop_first()));
                assert(rest.drop_first() =~= s@.subrange(i + 1, len as int));
            }
            i = i + 1;
        } else {
            let mut j: usize = i + 1;
            while j < len && is_ident_char_x(s.get_char(j))
                invariant
                    len == s@.len(),
                    0 <= i < j <= len,
                    forall|k: int| i <= k < j ==> is_ident_char(s@[k]),
                decreases len - j,
            {
                j = j + 1;
            }
            let tok = String::from_str(s.substring_char(i, j));
            proof {
                assert forall|k: int| 0 <= k < j - i implies is_ident_char(rest[k]) by {
                    assert(rest[k] == s@[i + k]);
                }
                if j < len {
                    assert(!is_ident_char(rest[j - i as int]));
                }
                lemma_ident_run_is(rest, j - i as int);
                assert(rest.subrange(0, j - i as int) =~= s@.subrange(i as int, j as int));
                assert(rest.subrange(j - i as int, rest.len() as int) =~= s@.subrange(
                    j as int,
                    len as int,
                ));
                assert(tokens_spec(rest) == seq![tok@] + tokens_spec(
                    s@.subrange(j as int, len as int),
                ));
            }
            let ghost old_out = out@;
            out.push(tok);
            proof {
                assert(out@.map_values(|t: String| t@) =~= old_out.map_values(|t: String| t@)
                    + seq![tok@]);
                assert(out@.map_values(|t: String| t@) + tokens_spec(
                    s@.subrange(j as int, len as int),
                ) =~= tokens_spec(s@));
            }
            i = j;
        }
    }
    proof {
        assert(s@.subrange(i as int, len as int).len() == 0);
        assert(out@.map_values(|t: String| t@) =~= tokens_spec(s@));
    }
    out
}

/// Index of the first occurrence of `c` in `s`, or `s.len()` if there is none.
pub open spec fn first_index_char(s: Seq<char>, c: char) -> nat
    decreases s.len(),
{
    if s.len() == 0 {
        0
    } else if s[0] == c {
        0
    } else {
        1 + first_index_char(s.drop_first(), c)
    }
}

pub proof fn lemma_first_index_char_bounds(s: Seq<char>, c: char)
    ensures
        first_index_char(s, c) <= s.len(),
        forall|j: int| 0 <= j < first_index_char(s, c) ==> s[j] != c,
        first_index_char(s, c) < s.len() ==> s[first_index_char(s, c) as int] == c,
    decreases s.len(),
{
    if s.len() > 0 && s[0] != c {
        lemma_first_index_char_bounds(s.drop_first(), c);
        assert forall|j: int| 0 <= j < first_index_char(s, c) implies s[j] != c by {
            if j >= 1 {
                assert(s.drop_first()[j - 1] != c);
                assert(s[j] == s.drop_first()[j - 1]);
            }
        }
    }
}

/// Index of the last occurrence of `c` in `s`, or `s.len()` if there is none.
pub open spec fn last_index_char(s: Seq<char>, c: char) -> nat
    decreases s.len(),
{
    if s.len() == 0 {
        0
    } else if s.last() == c {
        (s.len() - 1) as nat
    } else if last_index_char(s.drop_last(), c) == s.len() - 1 {
        s.len()
    } else {
        last_index_char(s.drop_last(), c)
    }
}

pub proof fn lemma_last_index_char_bounds(s: Seq<char>, c: char)
    ensures
        last_index_char(s, c) <= s.len(),
        forall|j: int| last_index_char(s, c) < j < s.len() ==> s[j] != c,
        last_index_char(s, c) < s.len() ==> s[last_index_char(s, c) as int] == c,
    decreases s.len(),
{
    if s.len() > 0 && s.last() != c {
        let t = s.drop_last();
        lemma_last_index_char_bounds(t, c);
        assert forall|j: int| last_index_char(s, c) < j < s.len() implies s[j] != c by {
            if j == s.len() - 1 {
                assert(s[j] == s.last());
            } else {
                assert(last_index_char(t, c) <= j ==> t[j] != c || j == last_index_char(t, c));
                assert(s[j] == t[j]);
            }
        }
    }
}

/// Position of the first occurrence of `c` in `s`.
pub fn find_char(s: &str, c: char) -> (r: Option<usize>)
    ensures
        match r {
            Some(i) => i == first_index_char(s@, c) && i < s@.len(),
            None => first_index_char(s@, c) == s@.len(),
        },
{
    let len = s.unicode_len();
    let mut i: usize = 0;
    while i < len
        invariant
            len == s@.len(),
            0 <= i <= len,
            forall|j: int| 0 <= j < i ==> s@[j] != c,
        decreases len - i,
    {
        if s.get_char(i) == c {
            proof {
                lemma_first_index_is(s@, c, i as int);
            }
            return Some(i);
        }
        i = i + 1;
    }
    proof {
        lemma_first_index_is(s@, c, len as int);
    }
    None
}

pub proof fn lemma_first_index_is(s: Seq<char>, c: char, i: int)
    requires
        0 <= i <= s.len(),
        forall|j: int| 0 <= j < i ==> s[j] != c,
        i < s.len() ==> s[i] == c,
    ensures
        first_index_char(s, c) == i,
    decreases i,
{
    if s.len() == 0 || s[0] == c {
    } else {
        assert(i >= 1);
        lemma_first_index_is(s.drop_first(), c, i - 1);
    }
}

proof fn lemma_last_index_none(s: Seq<char>, c: char)
    requires
        forall|j: int| 0 <= j < s.len() ==> s[j] != c,
    ensures
        last_index_char(s, c) == s.len(),
    decreases s.len(),
{
    if s.len() > 0 {
        assert(s.last() != c);
        assert forall|j: int| 0 <= j < s.drop_last().len() implies s.drop_last()[j] != c by {
            assert(s.drop_last()[j] == s[j]);
        }
        lemma_last_index_none(s.drop_last(), c);
    }
}

proof fn lemma_last_index_is(s: Seq<char>, c: char, i: int)
    requires
        0 <= i < s.len(),
        s[i] == c,
        forall|j: int| i < j < s.len() ==> s[j] != c,
    ensures
        last_index_char(s, c) == i,
    decreases s.len() - i,
{
    if i == s.len() - 1 {
        assert(s.last() == c);
    } else {
        assert(s.last() != c);
        let t = s.drop_last();
        assert(t[i] == s[i]);
        assert forall|j: int| i < j < t.len() implies t[j] != c by {
            assert(t[j] == s[j]);
        }
        lemma_last_index_is(t, c, i);
    }
}

/// Position of the last occurrence of `c` in `s`.
pub fn rfind_char(s: &str, c: char) -> (r: Option<usize>)
    ensures
        match r {
            Some(i) => i == last_index_char(s@, c) && i < s@.len(),
            None => last_index_char(s@, c) == s@.len(),
        },
{
    let len = s.unicode_len();
    let mut i: usize = len;
    while i > 0
        invariant
            len == s@.len(),
            0 <= i <= len,
            forall|j: int| i <= j < len ==> s@[j] != c,
        decreases i,
    {
        i = i - 1;
        if s.get_char(i) == c {
            proof {
                lemma_last_index_is(s@, c, i as int);
            }
            return Some(i);
        }
    }
    proof {
        lemma_last_index_none(s@, c);
    }
    None
}

/// The character for one decimal digit.
pub open spec fn digit_char(d: nat) -> char {
    (('0' as u8) + d) as char
}

/// The decimal rendering of `n`, most significant digit first.
pub open spec fn dec_digits(n: nat) -> Seq<char>
    decreases n,
{
    if n < 10 {
        seq![digit_char(n)]
    } else {
        dec_digits(n / 10).push(digit_char(n % 10))
    }
}

fn digit_str(d: u64) -> (r: &'static str)
    requires
        d < 10,
    ensures
        r@ == seq![digit_char(d as nat)],
{
    proof {
        reveal_strlit("0");
        reveal_strlit("1");
        reveal_strlit("2");
        reveal_strlit("3");
        reveal_strlit("4");
        reveal_strlit("5");
        reveal_strlit("6");
        reveal_strlit("7");
        reveal_strlit("8");
        reveal_strlit("9");
    }
    if d == 0 {
        "0"
    } else if d == 1 {
        "1"
    } else if d == 2 {
        "2"
    } else if d == 3 {
        "3"
    } else if d == 4 {
        "4"
    } else if d == 5 {
        "5"
    } else if d == 6 {
        "6"
    } else if d == 7 {
        "7"
    } else {
        if d == 8 {
            "8"
        } else {
            "9"
        }
    }
}

/// Renders `n` in decimal.
pub fn u64_to_string(n: u64) -> (r: String)
    ensures
        r@ == dec_digits(n as nat),
    decreases n,
{
    if n < 10 {
        String::from_str(digit_str(n))
    } else {
        let mut prefix = u64_to_string(n / 10);
        prefix.append(digit_str(n % 10));
        assert(prefix@ =~= dec_digits(n as nat));
        prefix
    }
}

/// The lower-case letter for one upper-case ASCII letter.
fn lower_lit(c: char) -> (r: &'static str)
    requires
        'A' <= c && c <= 'Z',
    ensures
        r@ == seq![lower_char(c)],
{
    proof {
        reveal_strlit("a");
        reveal_strlit("b");
        reveal_strlit("c");
        reveal_strlit("d");
        reveal_strlit("e");
        reveal_strlit("f");
        reveal_strlit("g");
        reveal_strlit("h");
        reveal_strlit("i");
        reveal_strlit("j");
        reveal_strlit("k");
        reveal_strlit("l");
        reveal_strlit("m");
        reveal_strlit("n");
        reveal_strlit("o");
        reveal_strlit("p");
        reveal_strlit("q");
        reveal_strlit("r");
        reveal_strlit("s");
        reveal_strlit("t");
        reveal_strlit("u");
        reveal_strlit("v");
        reveal_strlit("w");
        reveal_strlit("x");
        reveal_strlit("y");
        reveal_strlit("z");
    }
    if c == 'A' {
        "a"
    } else if c == 'B' {
        "b"
    } else if c == 'C' {
        "c"
    } else if c == 'D' {
        "d"
    } else if c == 'E' {
        "e"
    } else if c == 'F' {
        "f"
    } else if c == 'G' {
        "g"
    } else if c == 'H' {
        "h"
    } else if c == 'I' {
        "i"
    } else if c == 'J' {
        "j"
    } else if c == 'K' {
        "k"
    } else if c == 'L' {
        "l"
    } else if c == 'M' {
        "m"
    } else if c == 'N' {
        "n"
    } else if c == 'O' {
        "o"
    } else if c == 'P' {
        "p"
    } else if c == 'Q' {
        "q"
    } else if c == 'R' {
        "r"
    } else if c == 'S' {
        "s"
    } else if c == 'T' {
        "t"
    } else if c == 'U' {
        "u"
    } else if c == 'V' {
        "v"
    } else if c == 'W' {
        "w"
    } else if c == 'X' {
        "x"
    } else if c == 'Y' {
        "y"
    } else {
        "z"
    }
}

/// ASCII-lower-cases `s`.
pub fn to_lower(s: &str) -> (r: String)
    ensures
        r@ == lower_seq(s@),
{
    let len = s.unicode_len();
    let mut out = String::new();
    let mut i: usize = 0;
    proof {
        assert(out@ =~= lower_seq(s@.subrange(0, 0)));
    }
    while i < len
        invariant
            len == s@.len(),
            0 <= i <= len,
            out@ == lower_seq(s@.subrange(0, i as int)),
        decreases len - i,
    {
        let c = s.get_char(i);
        if 'A' <= c && c <= 'Z' {
            out.append(lower_lit(c));
        } else {
            out.append(s.substring_char(i, i + 1));
            proof {
                assert(s@.subrange(i as int, i + 1) =~= seq![s@[i as int]]);
            }
        }
        proof {
            assert(out@ =~= lower_seq(s@.subrange(0, i + 1)));
        }
        i = i + 1;
    }
    proof {
        assert(s@.subrange(0, len as int) =~= s@);
    }
    out
}

/// The parts joined with `sep` between adjacent parts.
pub open spec fn join_spec(parts: Seq<Seq<char>>, sep: Seq<char>) -> Seq<char>
    decreases parts.len(),
{
    if parts.len() == 0 {
        Seq::empty()
    } else if parts.len() == 1 {
        parts[0]
    } else {
        join_spec(parts.drop_last(), sep) + sep + parts.last()
    }
}

/// Joins string parts with a separator.
pub fn join_with(parts: &Vec<String>, sep: &str) -> (r: String)
    ensures
        r@ == join_spec(parts@.map_values(|p: String| p@), sep@),
{
    let ghost ps = parts@.map_values(|p: String| p@);
    let mut out = String::new();
    let mut i: usize = 0;
    proof {
        assert(out@ =~= join_spec(ps.subrange(0, 0), sep@));
    }
    while i < parts.len()
        invariant
            0 <= i <= parts@.len(),
            ps == parts@.map_values(|p: String| p@),
            out@ == join_spec(ps.subrange(0, i as int), sep@),
        decreases parts@.len() - i,
    {
        if i > 0 {
            out.append(sep);
        }
        out.append(parts[i].as_str());
        proof {
            assert(ps.subrange(0, i + 1).drop_last() =~= ps.subrange(0, i as int));
            assert(ps.subrange(0, i + 1).last() == ps[i as int]);
            if i == 0 {
                assert(ps.subrange(0, 1)[0] == ps[0]);
            }
            assert(out@ =~= join_spec(ps.subrange(0, i + 1), sep@));
        }
        i = i + 1;
    }
    proof {
        assert(ps.subrange(0, ps.len() as int) =~= ps);
    }
    out
}

} // verus!
