//! Character-level text utilities.
//!
//! Every probe result and every rendered line is text, so the whole crate
//! rests on a small set of verified string operations. Internally text is
//! handled as `Vec<char>`, whose view is the same `Seq<char>` as the view
//! of the `String` it came from.

use vstd::prelude::*;

verus! {

/// Relies on String::push: appends exactly the given character.
#[verifier::external_body]
pub fn push_char(s: &mut String, c: char)
    ensures
        final(s)@ == old(s)@.push(c),
{
    s.push(c);
}

/// The characters of a string slice, one vector element per `char`.
pub fn chars_of(s: &str) -> (v: Vec<char>)
    ensures
        v@ == s@,
{
    let n = s.unicode_len();
    let mut v: Vec<char> = Vec::new();
    let mut i: usize = 0;
    while i < n
        invariant
            n == s@.len(),
            i <= n,
            v@ == s@.subrange(0, i as int),
        decreases n - i,
    {
        v.push(s.get_char(i));
        i = i + 1;
        proof {
            assert(v@ =~= s@.subrange(0, i as int));
        }
    }
    proof {
        assert(v@ =~= s@);
    }
    v
}

/// A `String` holding exactly the given characters.
pub fn string_of(v: &Vec<char>) -> (s: String)
    ensures
        s@ == v@,
{
    let mut s = String::new();
    let mut i: usize = 0;
    while i < v.len()
        invariant
            i <= v@.len(),
            s@ == v@.subrange(0, i as int),
        decreases v@.len() - i,
    {
        push_char(&mut s, v[i]);
        i = i + 1;
        proof {
            assert(s@ =~= v@.subrange(0, i as int));
        }
    }
    proof {
        assert(s@ =~= v@);
    }
    s
}

// ---------------------------------------------------------------------------
// Character classes and case folding
// ---------------------------------------------------------------------------

/// ASCII whitespace, the only whitespace that occurs in the text this crate
/// handles.
pub open spec fn is_ws(c: char) -> bool {
    c == ' ' || c == '\t' || c == '\n' || c == '\r'
}

pub fn ws_char(c: char) -> (r: bool)
    ensures
        r == is_ws(c),
{
    c == ' ' || c == '\t' || c == '\n' || c == '\r'
}

pub open spec fn is_digit(c: char) -> bool {
    48 <= c as u32 && c as u32 <= 57
}

pub fn digit_test(c: char) -> (r: bool)
    ensures
        r == is_digit(c),
{
    let b = c as u32;
    48 <= b && b <= 57
}

/// ASCII letters are mapped to lower case; every other character is kept.
pub open spec fn lower_char(c: char) -> char {
    if 65 <= c as u32 && c as u32 <= 90 {
        ((c as u32 + 32) as u8) as char
    } else {
        c
    }
}

pub open spec fn spec_lower(s: Seq<char>) -> Seq<char> {
    s.map_values(|c: char| lower_char(c))
}

pub fn ascii_lower(v: &Vec<char>) -> (r: Vec<char>)
    ensures
        r@ == spec_lower(v@),
{
    let mut r: Vec<char> = Vec::new();
    let mut i: usize = 0;
    while i < v.len()
        invariant
            i <= v@.len(),
            r@ == spec_lower(v@).subrange(0, i as int),
        decreases v@.len() - i,
    {
        let c = v[i];
        let b = c as u32;
        if 65 <= b && b <= 90 {
            r.push(((b + 32) as u8) as char);
        } else {
            r.push(c);
        }
        i = i + 1;
        proof {
            assert(r@ =~= spec_lower(v@).subrange(0, i as int));
        }
    }
    proof {
        assert(r@ =~= spec_lower(v@));
    }
    r
}

/// ASCII letters are mapped to upper case; every other character is kept.
pub open spec fn upper_char(c: char) -> char {
    if 97 <= c as u32 && c as u32 <= 122 {
        ((c as u32 - 32) as u8) as char
    } else {
        c
    }
}

pub open spec fn spec_upper(s: Seq<char>) -> Seq<char> {
    s.map_values(|c: char| upper_char(c))
}

pub fn ascii_upper(v: &Vec<char>) -> (r: Vec<char>)
    ensures
        r@ == spec_upper(v@),
{
    let mut r: Vec<char> = Vec::new();
    let mut i: usize = 0;
    while i < v.len()
        invariant
            i <= v@.len(),
            r@ == spec_upper(v@).subrange(0, i as int),
        decreases v@.len() - i,
    {
        let c = v[i];
        let b = c as u32;
        if 97 <= b && b <= 122 {
            r.push(((b - 32) as u8) as char);
        } else {
            r.push(c);
        }
        i = i + 1;
        proof {
            assert(r@ =~= spec_upper(v@).subrange(0, i as int));
        }
    }
    proof {
        assert(r@ =~= spec_upper(v@));
    }
    r
}

// ---------------------------------------------------------------------------
// Comparison and search
// ---------------------------------------------------------------------------

/// Character-for-character equality of two string slices.
pub fn str_eq(a: &str, b: &str) -> (r: bool)
    ensures
        r == (a@ == b@),
{
    let na = a.unicode_len();
    let nb = b.unicode_len();
    if na != nb {
        proof {
            assert(a@ != b@);
        }
        return false;
    }
    let mut i: usize = 0;
    while i < na
        invariant
            na == a@.len(),
            na == b@.len(),
            i <= na,
            forall|j: int| 0 <= j < i ==> a@[j] == b@[j],
        decreases na - i,
    {
        if a.get_char(i) != b.get_char(i) {
            return false;
        }
        i = i + 1;
    }
    proof {
        assert(a@ =~= b@);
    }
    true
}

/// `needle` occurs in `hay` starting at position `i`.
pub open spec fn contains_at(hay: Seq<char>, i: int, needle: Seq<char>) -> bool {
    0 <= i && i + needle.len() <= hay.len() && hay.subrange(i, i + needle.len()) == needle
}

pub open spec fn seq_contains(hay: Seq<char>, needle: Seq<char>) -> bool {
    exists|i: int| contains_at(hay, i, needle)
}

pub open spec fn is_prefix(hay: Seq<char>, p: Seq<char>) -> bool {
    p.len() <= hay.len() && hay.subrange(0, p.len() as int) == p
}

pub open spec fn is_suffix(hay: Seq<char>, p: Seq<char>) -> bool {
    p.len() <= hay.len() && hay.subrange(hay.len() - p.len(), hay.len() as int) == p
}

fn match_at(hay: &Vec<char>, i: usize, needle: &Vec<char>) -> (r: bool)
    requires
        i + needle@.len() <= hay@.len(),
    ensures
        r == contains_at(hay@, i as int, needle@),
{
    let hn = hay.len();
    let mut j: usize = 0;
    while j < needle.len()
        invariant
            hn == hay@.len(),
            i + needle@.len() <= hn,
            j <= needle@.len(),
            forall|k: int| 0 <= k < j ==> hay@[i + k] == needle@[k],
        decreases needle@.len() - j,
    {
        if hay[i + j] != needle[j] {
            proof {
                assert(hay@.subrange(i as int, i + needle@.len())[j as int] == hay@[i + j]);
            }
            return false;
        }
        j = j + 1;
    }
    proof {
        assert(hay@.subrange(i as int, i + needle@.len()) =~= needle@);
    }
    true
}

/// First position where `needle` occurs in `hay`, if any.
pub fn find_sub(hay: &Vec<char>, needle: &Vec<char>) -> (r: Option<usize>)
    ensures
        match r {
            Some(i) => contains_at(hay@, i as int, needle@) && forall|j: int|
                0 <= j < i ==> !contains_at(hay@, j, needle@),
            None => !seq_contains(hay@, needle@),
        },
{
    if needle.len() > hay.len() {
        return None;
    }
    if needle.len() == 0 {
        proof {
            assert(contains_at(hay@, 0, needle@)) by {
                assert(hay@.subrange(0, 0) =~= needle@);
            }
        }
        return Some(0);
    }
    let last = hay.len() - needle.len();
    let mut i: usize = 0;
    while i <= last
        invariant
            1 <= needle@.len() <= hay@.len(),
            hay@.len() <= usize::MAX,
            last == hay@.len() - needle@.len(),
            i <= last + 1,
            forall|j: int| 0 <= j < i ==> !contains_at(hay@, j, needle@),
        decreases last + 1 - i,
    {
        if match_at(hay, i, needle) {
            return Some(i);
        }
        i = i + 1;
    }
    proof {
        assert forall|j: int| !contains_at(hay@, j, needle@) by {
            if 0 <= j && j + needle@.len() <= hay@.len() {
                assert(j < i);
            }
        }
    }
    None
}

pub fn contains_sub(hay: &Vec<char>, needle: &Vec<char>) -> (r: bool)
    ensures
        r == seq_contains(hay@, needle@),
{
    match find_sub(hay, needle) {
        Some(_) => true,
        None => false,
    }
}

pub fn starts_with_sub(hay: &Vec<char>, p: &Vec<char>) -> (r: bool)
    ensures
        r == is_prefix(hay@, p@),
{
    if p.len() > hay.len() {
        return false;
    }
    match_at(hay, 0, p)
}

pub fn ends_with_chars(hay: &Vec<char>, p: &Vec<char>) -> (r: bool)
    ensures
        r == is_suffix(hay@, p@),
{
    if p.len() > hay.len() {
        return false;
    }
    let i = hay.len() - p.len();
    let r = match_at(hay, i, p);
    proof {
        assert(i as int == hay@.len() - p@.len());
    }
    r
}

/// First position of character `c` in `v` at or after `from`, if any.
pub fn find_char(v: &Vec<char>, c: char, from: usize) -> (r: Option<usize>)
    ensures
        match r {
            Some(i) => from <= i < v@.len() && v@[i as int] == c && forall|j: int|
                from <= j < i ==> v@[j] != c,
            None => forall|j: int| from <= j < v@.len() ==> v@[j] != c,
        },
{
    let mut i: usize = from;
    while i < v.len()
        invariant
            from <= i,
            i <= v@.len() || from > v@.len(),
            forall|j: int| from <= j < i && j < v@.len() ==> v@[j] != c,
        decreases v@.len() - i,
    {
        if v[i] == c {
            return Some(i);
        }
        i = i + 1;
    }
    None
}

/// Last position of character `c` in `v`, if any.
pub fn rfind_char(v: &Vec<char>, c: char) -> (r: Option<usize>)
    ensures
        match r {
            Some(i) => i < v@.len() && v@[i as int] == c && forall|j: int|
                i < j < v@.len() ==> v@[j] != c,
            None => forall|j: int| 0 <= j < v@.len() ==> v@[j] != c,
        },
{
    let mut i: usize = v.len();
    while i > 0
        invariant
            i <= v@.len(),
            forall|j: int| i <= j < v@.len() ==> v@[j] != c,
        decreases i,
    {
        i = i - 1;
        if v[i] == c {
            return Some(i);
        }
    }
    None
}

// ---------------------------------------------------------------------------
// Building
// ---------------------------------------------------------------------------

pub fn repeat_char(c: char, n: usize) -> (r: Vec<char>)
    ensures
        r@ == Seq::new(n as nat, |i: int| c),
{
    let mut r: Vec<char> = Vec::new();
    let mut i: usize = 0;
    while i < n
        invariant
            i <= n,
            r@ == Seq::new(i as nat, |j: int| c),
        decreases n - i,
    {
        r.push(c);
        i = i + 1;
        proof {
            assert(r@ =~= Seq::new(i as nat, |j: int| c));
        }
    }
    r
}

pub fn sub_vec(v: &Vec<char>, from: usize, to: usize) -> (r: Vec<char>)
    requires
        from <= to <= v@.len(),
    ensures
        r@ == v@.subrange(from as int, to as int),
{
    let mut r: Vec<char> = Vec::new();
    let mut i: usize = from;
    while i < to
        invariant
            from <= i <= to <= v@.len(),
            r@ == v@.subrange(from as int, i as int),
        decreases to - i,
    {
        r.push(v[i]);
        i = i + 1;
        proof {
            assert(r@ =~= v@.subrange(from as int, i as int));
        }
    }
    r
}


/// `s` with every occurrence of `pat` replaced by `rep`, scanning left to
/// right; an empty pattern leaves the string unchanged.
pub open spec fn spec_replace(s: Seq<char>, pat: Seq<char>, rep: Seq<char>) -> Seq<char>
    decreases s.len(),
{
    if pat.len() == 0 || !seq_contains(s, pat) {
        s
    } else {
        let i = first_at(s, pat);
        if 0 <= i && i + pat.len() <= s.len() {
            s.subrange(0, i) + rep + spec_replace(s.subrange(i + pat.len(), s.len() as int),
                pat, rep)
        } else {
            s
        }
    }
}

/// The first position at which `pat` occurs in `s`.
pub open spec fn first_at(s: Seq<char>, pat: Seq<char>) -> int {
    choose|i: int| contains_at(s, i, pat) && forall|j: int| 0 <= j < i ==> !contains_at(s, j, pat)
}

pub proof fn lemma_first_at(s: Seq<char>, pat: Seq<char>, k: int)
    requires
        contains_at(s, k, pat),
        forall|j: int| 0 <= j < k ==> !contains_at(s, j, pat),
    ensures
        first_at(s, pat) == k,
{
    let i = first_at(s, pat);
    assert(contains_at(s, k, pat) && (forall|j: int| 0 <= j < k ==> !contains_at(s, j, pat)));
    assert(contains_at(s, i, pat) && (forall|j: int| 0 <= j < i ==> !contains_at(s, j, pat)));
    if i < k {
        assert(!contains_at(s, i, pat));
    } else if k < i {
        assert(!contains_at(s, k, pat));
    }
}

#[verifier::rlimit(100)]
#[verifier::spinoff_prover]
pub fn replace_all(v: &Vec<char>, pat: &Vec<char>, rep: &Vec<char>) -> (r: Vec<char>)
    ensures
        r@ == spec_replace(v@, pat@, rep@),
    decreases v@.len(),
{
    if pat.len() == 0 {
        return sub_vec(v, 0, v.len());
    }
    match find_sub(v, pat) {
        None => sub_vec(v, 0, v.len()),
        Some(i) => {
            proof {
                lemma_first_at(v@, pat@, i as int);
            }
            let n = v.len();
            let mut r = sub_vec(v, 0, i);
            let tail = sub_vec(v, i + pat.len(), n);
            let mut rest = replace_all(&tail, pat, rep);
            let mut rep_copy = sub_vec(rep, 0, rep.len());
            r.append(&mut rep_copy);
            r.append(&mut rest);
            proof {
                assert(r@ =~= spec_replace(v@, pat@, rep@));
            }
            r
        },
    }
}

// ---------------------------------------------------------------------------
// Trimming
// ---------------------------------------------------------------------------

/// Index of the first character at or after `i` that is not whitespace.
pub open spec fn first_non_ws(s: Seq<char>, i: int) -> int
    decreases s.len() - i,
{
    if i < 0 || i >= s.len() {
        s.len() as int
    } else if is_ws(s[i]) {
        first_non_ws(s, i + 1)
    } else {
        i
    }
}

/// One past the last character before `i` that is not whitespace.
pub open spec fn last_non_ws(s: Seq<char>, i: int) -> int
    decreases i,
{
    if i <= 0 || i > s.len() {
        0
    } else if is_ws(s[i - 1]) {
        last_non_ws(s, i - 1)
    } else {
        i
    }
}

/// The string with leading and trailing whitespace removed.
pub open spec fn spec_trim(s: Seq<char>) -> Seq<char> {
    let a = first_non_ws(s, 0);
    let b = last_non_ws(s, s.len() as int);
    if a < b {
        s.subrange(a, b)
    } else {
        Seq::empty()
    }
}

pub fn trim_vec(v: &Vec<char>) -> (r: Vec<char>)
    ensures
        r@ == spec_trim(v@),
{
    let n = v.len();
    let mut a: usize = 0;
    while a < n && ws_char(v[a])
        invariant
            a <= n,
            n == v@.len(),
            first_non_ws(v@, 0) == first_non_ws(v@, a as int),
        decreases n - a,
    {
        a = a + 1;
    }
    proof {
        assert(first_non_ws(v@, a as int) == a as int);
    }
    let mut b: usize = n;
    while b > a && ws_char(v[b - 1])
        invariant
            a <= b <= n,
            n == v@.len(),
            last_non_ws(v@, n as int) == last_non_ws(v@, b as int),
        decreases b,
    {
        b = b - 1;
    }
    if a < b {
        proof {
            assert(last_non_ws(v@, b as int) == b as int);
        }
        sub_vec(v, a, b)
    } else {
        proof {
            if b > 0 {
                assert(last_non_ws(v@, b as int) == last_non_ws(v@, a as int));
                lemma_last_non_ws_le(v@, a as int);
            }
            assert(spec_trim(v@) =~= Seq::<char>::empty());
        }
        Vec::new()
    }
}

proof fn lemma_last_non_ws_le(s: Seq<char>, i: int)
    ensures
        last_non_ws(s, i) <= i || i < 0,
    decreases i,
{
    if 0 < i <= s.len() && is_ws(s[i - 1]) {
        lemma_last_non_ws_le(s, i - 1);
    }
}

/// Convenience form: trim a string slice into a fresh `String`.
pub fn trim_str(s: &str) -> (r: String)
    ensures
        r@ == spec_trim(s@),
{
    let v = chars_of(s);
    let t = trim_vec(&v);
    string_of(&t)
}

// ---------------------------------------------------------------------------
// Splitting
// ---------------------------------------------------------------------------

/// The views of a sequence of character vectors.
pub open spec fn views(vs: Seq<Vec<char>>) -> Seq<Seq<char>> {
    vs.map_values(|v: Vec<char>| v@)
}

/// Index of the first occurrence of `c` at or after `from`, or the length.
pub open spec fn char_at(s: Seq<char>, c: char, from: int) -> int
    decreases s.len() - from,
{
    if from < 0 || from >= s.len() {
        s.len() as int
    } else if s[from] == c {
        from
    } else {
        char_at(s, c, from + 1)
    }
}

pub proof fn lemma_char_at(s: Seq<char>, c: char, from: int)
    requires
        0 <= from <= s.len(),
    ensures
        from <= char_at(s, c, from) <= s.len(),
        char_at(s, c, from) < s.len() ==> s[char_at(s, c, from)] == c,
        forall|j: int| from <= j < char_at(s, c, from) ==> s[j] != c,
    decreases s.len() - from,
{
    if from < s.len() && s[from] != c {
        lemma_char_at(s, c, from + 1);
    }
}

pub proof fn lemma_char_at_is(s: Seq<char>, c: char, from: int, k: int)
    requires
        0 <= from <= k < s.len(),
        s[k] == c,
        forall|j: int| from <= j < k ==> s[j] != c,
    ensures
        char_at(s, c, from) == k,
    decreases s.len() - from,
{
    if from < k {
        lemma_char_at_is(s, c, from + 1, k);
    }
}

pub proof fn lemma_char_at_none(s: Seq<char>, c: char, from: int)
    requires
        0 <= from <= s.len(),
        forall|j: int| from <= j < s.len() ==> s[j] != c,
    ensures
        char_at(s, c, from) == s.len(),
    decreases s.len() - from,
{
    if from < s.len() {
        lemma_char_at_none(s, c, from + 1);
    }
}

/// The pieces of `s` cut at every occurrence of `c`; an empty string yields
/// one empty piece, and a trailing separator yields a trailing empty piece.
pub open spec fn spec_split(s: Seq<char>, c: char) -> Seq<Seq<char>>
    decreases s.len(),
{
    let i = char_at(s, c, 0);
    if 0 <= i < s.len() {
        seq![s.subrange(0, i)] + spec_split(s.subrange(i + 1, s.len() as int), c)
    } else {
        seq![s]
    }
}

pub fn split_char_vec(v: &Vec<char>, c: char) -> (r: Vec<Vec<char>>)
    ensures
        views(r@) == spec_split(v@, c),
        r@.len() >= 1,
    decreases v@.len(),
{
    proof {
        lemma_char_at(v@, c, 0);
    }
    match find_char(v, c, 0) {
        None => {
            proof {
                lemma_char_at_none(v@, c, 0);
            }
            let mut r: Vec<Vec<char>> = Vec::new();
            r.push(v.clone());
            proof {
                assert(views(r@) =~= spec_split(v@, c));
            }
            r
        },
        Some(i) => {
            proof {
                lemma_char_at_is(v@, c, 0, i as int);
            }
            let head = sub_vec(v, 0, i);
            let n = v.len();
            let tail = sub_vec(v, i + 1, n);
            let mut r = split_char_vec(&tail, c);
            r.insert(0, head);
            proof {
                assert(views(r@) =~= seq![v@.subrange(0, i as int)] + views(r@.skip(1)));
                assert(views(r@.skip(1)) =~= spec_split(v@.subrange(i + 1, v@.len() as int), c));
            }
            r
        },
    }
}

/// A line piece with one trailing carriage return removed.
pub open spec fn strip_cr(s: Seq<char>) -> Seq<char> {
    if s.len() > 0 && s[s.len() - 1] == '\r' {
        s.drop_last()
    } else {
        s
    }
}

/// The lines of `s`: pieces cut at `'\n'`, each with a trailing `'\r'`
/// removed, and with no final empty piece for a terminating newline.
pub open spec fn spec_lines(s: Seq<char>) -> Seq<Seq<char>>
    decreases s.len(),
{
    if s.len() == 0 {
        seq![]
    } else {
        let i = char_at(s, '\n', 0);
        if 0 <= i < s.len() {
            seq![strip_cr(s.subrange(0, i))] + spec_lines(s.subrange(i + 1, s.len() as int))
        } else {
            seq![strip_cr(s)]
        }
    }
}

fn strip_cr_vec(v: Vec<char>) -> (r: Vec<char>)
    ensures
        r@ == strip_cr(v@),
{
    let mut v = v;
    let ghost orig = v@;
    if v.len() > 0 && v[v.len() - 1] == '\r' {
        let _ = v.pop();
        proof {
            assert(v@ =~= strip_cr(orig));
        }
    }
    v
}

pub fn lines_vec(v: &Vec<char>) -> (r: Vec<Vec<char>>)
    ensures
        views(r@) == spec_lines(v@),
    decreases v@.len(),
{
    if v.len() == 0 {
        let r: Vec<Vec<char>> = Vec::new();
        proof {
            assert(views(r@) =~= spec_lines(v@));
        }
        return r;
    }
    proof {
        lemma_char_at(v@, '\n', 0);
    }
    match find_char(v, '\n', 0) {
        None => {
            proof {
                lemma_char_at_none(v@, '\n', 0);
            }
            let piece = strip_cr_vec(sub_vec(v, 0, v.len()));
            let mut r: Vec<Vec<char>> = Vec::new();
            proof {
                assert(v@.subrange(0, v@.len() as int) =~= v@);
            }
            r.push(piece);
            proof {
                assert(views(r@) =~= spec_lines(v@));
            }
            r
        },
        Some(i) => {
            proof {
                lemma_char_at_is(v@, '\n', 0, i as int);
            }
            let piece = strip_cr_vec(sub_vec(v, 0, i));
            let n = v.len();
            let tail = sub_vec(v, i + 1, n);
            let mut r = lines_vec(&tail);
            r.insert(0, piece);
            proof {
                assert(views(r@) =~= seq![strip_cr(v@.subrange(0, i as int))] + views(
                    r@.skip(1),
                ));
                assert(views(r@.skip(1)) =~= spec_lines(v@.subrange(i + 1, v@.len() as int)));
            }
            r
        },
    }
}

/// Index of the first whitespace character at or after `from`, or the length.
pub open spec fn first_ws(s: Seq<char>, from: int) -> int
    decreases s.len() - from,
{
    if from < 0 || from >= s.len() {
        s.len() as int
    } else if is_ws(s[from]) {
        from
    } else {
        first_ws(s, from + 1)
    }
}

/// The maximal whitespace-free runs of `s`, in order: what remains when the
/// string is cut at every run of whitespace.
pub open spec fn spec_fields_from(s: Seq<char>, from: int) -> Seq<Seq<char>>
    decreases s.len() - from,
{
    if from < 0 || from >= s.len() {
        seq![]
    } else if is_ws(s[from]) {
        spec_fields_from(s, from + 1)
    } else {
        let b = first_ws(s, from);
        if from < b <= s.len() {
            seq![s.subrange(from, b)] + spec_fields_from(s, b)
        } else {
            seq![]
        }
    }
}

pub open spec fn spec_fields(s: Seq<char>) -> Seq<Seq<char>> {
    spec_fields_from(s, 0)
}

pub fn fields_vec(v: &Vec<char>) -> (r: Vec<Vec<char>>)
    ensures
        views(r@) == spec_fields(v@),
{
    let n = v.len();
    let mut r: Vec<Vec<char>> = Vec::new();
    let mut i: usize = 0;
    while i < n
        invariant
            n == v@.len(),
            i <= n,
            views(r@) + spec_fields_from(v@, i as int) == spec_fields(v@),
        decreases n - i,
    {
        if ws_char(v[i]) {
            i = i + 1;
        } else {
            // scan to the end of this field
            let mut b: usize = i;
            while b < n && !ws_char(v[b])
                invariant
                    i <= b <= n,
                    n == v@.len(),
                    first_ws(v@, i as int) == first_ws(v@, b as int),
                decreases n - b,
            {
                b = b + 1;
            }
            proof {
                assert(first_ws(v@, b as int) == b as int);
            }
            let piece = sub_vec(v, i, b);
            r.push(piece);
            proof {
                assert(views(r@) =~= views(r@.drop_last()) + seq![v@.subrange(i as int, b as int)]);
                assert(views(r@) + spec_fields_from(v@, b as int) =~= spec_fields(v@));
            }
            i = b;
        }
    }
    proof {
        assert(views(r@) =~= spec_fields(v@));
    }
    r
}


// ---------------------------------------------------------------------------
// Joining
// ---------------------------------------------------------------------------

/// The views of a sequence of strings.
pub open spec fn str_views(vs: Seq<String>) -> Seq<Seq<char>> {
    vs.map_values(|s: String| s@)
}

/// The pieces joined with `sep` between consecutive pieces.
pub open spec fn spec_join(ps: Seq<Seq<char>>, sep: Seq<char>) -> Seq<char>
    decreases ps.len(),
{
    if ps.len() == 0 {
        Seq::empty()
    } else if ps.len() == 1 {
        ps[0]
    } else {
        ps[0] + sep + spec_join(ps.skip(1), sep)
    }
}

pub proof fn lemma_join_push(ps: Seq<Seq<char>>, p: Seq<char>, sep: Seq<char>)
    ensures
        spec_join(ps.push(p), sep) == if ps.len() == 0 {
            p
        } else {
            spec_join(ps, sep) + sep + p
        },
    decreases ps.len(),
{
    if ps.len() == 0 {
        assert(ps.push(p)[0] == p);
        assert(spec_join(ps.push(p), sep) == p);
    } else if ps.len() == 1 {
        assert(ps.push(p).skip(1) =~= seq![p]);
        assert(spec_join(seq![p], sep) == p);
        assert(ps.push(p)[0] == ps[0]);
        assert(spec_join(ps, sep) == ps[0]);
        assert(spec_join(ps.push(p), sep) == ps[0] + sep + p);
    } else {
        lemma_join_push(ps.skip(1), p, sep);
        assert(ps.push(p).skip(1) =~= ps.skip(1).push(p));
        assert(spec_join(ps.skip(1).push(p), sep) == spec_join(ps.skip(1), sep) + sep + p);
        assert(spec_join(ps, sep) + sep + p =~= ps[0] + sep + (spec_join(ps.skip(1), sep) + sep
            + p));
    }
}

/// Joins strings with a separator, as the pieces of one line of output.
pub fn join_str(parts: &Vec<String>, sep: &str) -> (r: String)
    ensures
        r@ == spec_join(str_views(parts@), sep@),
{
    let mut r = String::new();
    let mut i: usize = 0;
    while i < parts.len()
        invariant
            i <= parts@.len(),
            r@ == spec_join(str_views(parts@).subrange(0, i as int), sep@),
        decreases parts@.len() - i,
    {
        if i > 0 {
            r.append(sep);
        }
        r.append(parts[i].as_str());
        i = i + 1;
        proof {
            let pre = str_views(parts@).subrange(0, i - 1);
            assert(str_views(parts@).subrange(0, i as int) =~= pre.push(parts@[i - 1]@));
            lemma_join_push(pre, parts@[i - 1]@, sep@);
        }
    }
    proof {
        assert(str_views(parts@).subrange(0, parts@.len() as int) =~= str_views(parts@));
    }
    r
}

/// The string with trailing whitespace removed.
pub open spec fn spec_trim_end(s: Seq<char>) -> Seq<char> {
    s.subrange(0, last_non_ws(s, s.len() as int))
}

pub fn trim_end_vec(v: &Vec<char>) -> (r: Vec<char>)
    ensures
        r@ == spec_trim_end(v@),
{
    let n = v.len();
    let mut b: usize = n;
    while b > 0 && ws_char(v[b - 1])
        invariant
            b <= n,
            n == v@.len(),
            last_non_ws(v@, n as int) == last_non_ws(v@, b as int),
        decreases b,
    {
        b = b - 1;
    }
    proof {
        assert(last_non_ws(v@, b as int) == b as int);
    }
    sub_vec(v, 0, b)
}

// ---------------------------------------------------------------------------
// Decimal numbers
// ---------------------------------------------------------------------------

pub open spec fn digit_val(c: char) -> nat {
    (c as u32 - 48) as nat
}

pub open spec fn all_digits(s: Seq<char>) -> bool {
    forall|i: int| 0 <= i < s.len() ==> is_digit(#[trigger] s[i])
}

/// Value of a string of decimal digits, most significant first.
pub open spec fn dec_val(s: Seq<char>) -> nat
    decreases s.len(),
{
    if s.len() == 0 {
        0
    } else {
        dec_val(s.drop_last()) * 10 + digit_val(s.last())
    }
}

proof fn lemma_dec_val_prefix_le(s: Seq<char>, i: int)
    requires
        0 <= i <= s.len(),
    ensures
        dec_val(s.subrange(0, i)) <= dec_val(s),
    decreases s.len() - i,
{
    if i < s.len() {
        lemma_dec_val_prefix_le(s, i + 1);
        let a = s.subrange(0, i);
        let b = s.subrange(0, i + 1);
        assert(b.drop_last() =~= a);
        assert(dec_val(b) == dec_val(a) * 10 + digit_val(b.last()));
        assert(dec_val(a) <= dec_val(a) * 10) by (nonlinear_arith);
    } else {
        assert(s.subrange(0, i) =~= s);
    }
}

/// Parses an unsigned decimal number; `None` on empty input, on any
/// non-digit character, and on overflow of `u64`.
pub fn parse_u64(v: &Vec<char>) -> (r: Option<u64>)
    ensures
        match r {
            Some(n) => v@.len() > 0 && all_digits(v@) && n as nat == dec_val(v@),
            None => v@.len() == 0 || !all_digits(v@) || dec_val(v@) > u64::MAX,
        },
{
    if v.len() == 0 {
        return None;
    }
    let mut acc: u64 = 0;
    let mut i: usize = 0;
    while i < v.len()
        invariant
            i <= v@.len(),
            all_digits(v@.subrange(0, i as int)),
            acc as nat == dec_val(v@.subrange(0, i as int)),
        decreases v@.len() - i,
    {
        let c = v[i];
        if !digit_test(c) {
            return None;
        }
        let d = (c as u32 - 48) as u64;
        let wide = acc as u128 * 10 + d as u128;
        proof {
            let pre = v@.subrange(0, i as int);
            let cur = v@.subrange(0, i + 1);
            assert(cur.drop_last() =~= pre);
            assert(dec_val(cur) == dec_val(pre) * 10 + digit_val(cur.last()));
        }
        if wide > u64::MAX as u128 {
            proof {
                lemma_dec_val_prefix_le(v@, i + 1);
            }
            return None;
        }
        acc = wide as u64;
        i = i + 1;
    }
    proof {
        assert(v@.subrange(0, v@.len() as int) =~= v@);
    }
    Some(acc)
}

pub open spec fn digit_char(d: nat) -> char {
    ((48 + d % 10) as u8) as char
}

/// Decimal digits of `n`, most significant first, with no leading zeros
/// except for the single digit of zero itself.
pub open spec fn dec_digits(n: nat) -> Seq<char>
    decreases n,
{
    if n < 10 {
        seq![digit_char(n)]
    } else {
        dec_digits(n / 10).push(digit_char(n % 10))
    }
}

pub fn u64_digits(n: u64) -> (r: Vec<char>)
    ensures
        r@ == dec_digits(n as nat),
    decreases n,
{
    if n < 10 {
        let mut r: Vec<char> = Vec::new();
        r.push(((48 + n % 10) as u8) as char);
        proof {
            assert(r@ =~= seq![digit_char(n as nat)]);
        }
        r
    } else {
        let mut r = u64_digits(n / 10);
        r.push(((48 + n % 10) as u8) as char);
        proof {
            assert(r@ =~= dec_digits((n / 10) as nat).push(digit_char(n as nat % 10)));
        }
        r
    }
}

/// `n` written in decimal.
pub fn u64_string(n: u64) -> (r: String)
    ensures
        r@ == dec_digits(n as nat),
{
    let v = u64_digits(n);
    string_of(&v)
}

/// Digits of `n`, left-padded with zeros to at least `w` characters.
pub open spec fn padded_dec(n: nat, w: nat) -> Seq<char> {
    let d = dec_digits(n);
    if d.len() >= w {
        d
    } else {
        Seq::new((w - d.len()) as nat, |i: int| '0') + d
    }
}

pub fn u64_padded(n: u64, w: usize) -> (r: Vec<char>)
    ensures
        r@ == padded_dec(n as nat, w as nat),
{
    let d = u64_digits(n);
    if d.len() >= w {
        proof {
            assert(d@ == padded_dec(n as nat, w as nat));
        }
        d
    } else {
        let mut r = repeat_char('0', w - d.len());
        let mut d = d;
        r.append(&mut d);
        proof {
            assert(r@ =~= padded_dec(n as nat, w as nat));
        }
        r
    }
}

} // verus!
