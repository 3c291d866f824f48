//! Character-level text helpers shared by the rest of the library.

use vstd::prelude::*;

verus! {

/// `p` is a prefix of `s`.
pub open spec fn is_prefix_of(p: Seq<char>, s: Seq<char>) -> bool {
    p.len() <= s.len() && s.subrange(0, p.len() as int) == p
}

/// `pat` occurs in `s` starting at position `i`.
pub open spec fn occurs_at(s: Seq<char>, pat: Seq<char>, i: int) -> bool {
    0 <= i && i + pat.len() <= s.len() && s.subrange(i, i + pat.len()) == pat
}

/// `pat` occurs somewhere in `s`.
pub open spec fn contains_seq(s: Seq<char>, pat: Seq<char>) -> bool {
    exists|i: int| occurs_at(s, pat, i)
}

/// Whether `s` starts with `prefix`.
pub fn starts_with(s: &str, prefix: &str) -> (r: bool)
    ensures
        r == is_prefix_of(prefix@, s@),
{
    let n = s.unicode_len();
    let m = prefix.unicode_len();
    if m > n {
        return false;
    }
    let mut i: usize = 0;
    while i < m
        invariant
            n == s@.len(),
            m == prefix@.len(),
            m <= n,
            i <= m,
            forall|j: int| 0 <= j < i ==> s@[j] == prefix@[j],
        decreases m - i,
    {
        if s.get_char(i) != prefix.get_char(i) {
            assert(s@.subrange(0, m as int)[i as int] == s@[i as int]);
            return false;
        }
        i = i + 1;
    }
    assert(s@.subrange(0, m as int) =~= prefix@);
    true
}


/// Whether `pat` occurs in `s` at character position `i`.
fn matches_at(s: &str, pat: &str, i: usize) -> (r: bool)
    requires
        i <= s@.len(),
    ensures
        r == occurs_at(s@, pat@, i as int),
{
    let n = s.unicode_len();
    let m = pat.unicode_len();
    if m > n - i {
        return false;
    }
    let mut j: usize = 0;
    while j < m
        invariant
            n == s@.len(),
            m == pat@.len(),
            i + m <= n,
            j <= m,
            forall|k: int| 0 <= k < j ==> s@[i + k] == pat@[k],
        decreases m - j,
    {
        if s.get_char(i + j) != pat.get_char(j) {
            assert(s@.subrange(i as int, i + m)[j as int] == s@[i + j]);
            return false;
        }
        j = j + 1;
    }
    assert(s@.subrange(i as int, i + m) =~= pat@);
    true
}

/// Whether `pat` occurs somewhere in `s` (the behaviour of `str::contains`
/// with a string pattern).
pub fn contains_str(s: &str, pat: &str) -> (r: bool)
    ensures
        r == contains_seq(s@, pat@),
{
    let n = s.unicode_len();
    let m = pat.unicode_len();
    if m > n {
        assert forall|i: int| !occurs_at(s@, pat@, i) by {}
        return false;
    }
    let last = n - m;
    let mut i: usize = 0;
    while i < last
        invariant
            n == s@.len(),
            m == pat@.len(),
            last == n - m,
            i <= last,
            forall|k: int| 0 <= k < i ==> !occurs_at(s@, pat@, k),
        decreases last - i,
    {
        if matches_at(s, pat, i) {
            return true;
        }
        i = i + 1;
    }
    if matches_at(s, pat, last) {
        return true;
    }
    assert forall|k: int| !occurs_at(s@, pat@, k) by {
        if 0 <= k && k + m <= n && k != last {
            assert(k < i);
        }
    }
    false
}

/// `s` with every non-overlapping occurrence of the non-empty pattern `from`,
/// scanning left to right, replaced by `to` (what `str::replace` computes).
pub open spec fn replace_all(s: Seq<char>, from: Seq<char>, to: Seq<char>) -> Seq<char>
    recommends
        from.len() > 0,
    decreases s.len(),
{
    if s.len() == 0 || from.len() == 0 {
        s
    } else if is_prefix_of(from, s) {
        to + replace_all(s.subrange(from.len() as int, s.len() as int), from, to)
    } else {
        seq![s[0]] + replace_all(s.subrange(1, s.len() as int), from, to)
    }
}

/// Replaces every occurrence of `from` in `s` by `to`.
pub fn replace_str(s: &str, from: &str, to: &str) -> (r: String)
    requires
        from@.len() > 0,
    ensures
        r@ == replace_all(s@, from@, to@),
{
    let n = s.unicode_len();
    let m = from.unicode_len();
    let mut out = String::new();
    let mut i: usize = 0;
    assert(s@.subrange(0, n as int) =~= s@);
    while i < n
        invariant
            n == s@.len(),
            m == from@.len(),
            m > 0,
            i <= n,
            out@ + replace_all(s@.subrange(i as int, n as int), from@, to@) == replace_all(s@, from@, to@),
        decreases n - i,
    {
        let ghost rest = s@.subrange(i as int, n as int);
        if matches_at(s, from, i) {
            assert(is_prefix_of(from@, rest)) by {
                assert(rest.subrange(0, m as int) =~= s@.subrange(i as int, i + m));
            }
            assert(rest.subrange(m as int, rest.len() as int) =~= s@.subrange(i + m, n as int));
            out.append(to);
            assert(out@ + replace_all(s@.subrange(i + m, n as int), from@, to@) == replace_all(s@, from@, to@)) by {
                assert(out@ =~= (out@.subrange(0, out@.len() - to@.len())) + to@);
            }
            i = i + m;
        } else {
            assert(!is_prefix_of(from@, rest)) by {
                if is_prefix_of(from@, rest) {
                    assert(rest.subrange(0, m as int) =~= s@.subrange(i as int, i + m));
                }
            }
            assert(rest.subrange(1, rest.len() as int) =~= s@.subrange(i + 1, n as int));
            let piece = s.substring_char(i, i + 1);
            assert(piece@ =~= seq![rest[0]]);
            out.append(piece);
            i = i + 1;
        }
    }
    assert(s@.subrange(n as int, n as int) =~= Seq::<char>::empty());
    assert(out@ + Seq::<char>::empty() =~= out@);
    out
}


/// What `str::to_lowercase` returns for a string (full Unicode lowercase mapping).
pub uninterp spec fn str_lowercase(s: Seq<char>) -> Seq<char>;

/// What `str::to_uppercase` returns for a string (full Unicode uppercase mapping).
pub uninterp spec fn str_uppercase(s: Seq<char>) -> Seq<char>;

/// Calls `str::to_lowercase`; the result is named by `str_lowercase`.
#[verifier::external_body]
pub(crate) fn lowercase(s: &str) -> (r: String)
    ensures
        r@ == str_lowercase(s@),
{
    s.to_lowercase()
}

/// Calls `str::to_uppercase`; the result is named by `str_uppercase`.
#[verifier::external_body]
pub(crate) fn uppercase(s: &str) -> (r: String)
    ensures
        r@ == str_uppercase(s@),
{
    s.to_uppercase()
}

/// A white-space character in the sense of `char::is_whitespace`: the
/// Unicode `White_Space` property, which holds for exactly these 25 code
/// points.
pub open spec fn is_white_space(c: char) -> bool {
    let n = c as u32;
    ||| 0x09 <= n <= 0x0D
    ||| n == 0x20
    ||| n == 0x85
    ||| n == 0xA0
    ||| n == 0x1680
    ||| 0x2000 <= n <= 0x200A
    ||| n == 0x2028
    ||| n == 0x2029
    ||| n == 0x202F
    ||| n == 0x205F
    ||| n == 0x3000
}

/// Whether `c` is a white-space character.
pub fn char_is_white_space(c: char) -> (r: bool)
    ensures
        r == is_white_space(c),
{
    let n = c as u32;
    (0x09 <= n && n <= 0x0D) || n == 0x20 || n == 0x85 || n == 0xA0 || n == 0x1680 || (0x2000 <= n && n <= 0x200A)
        || n == 0x2028 || n == 0x2029 || n == 0x202F || n == 0x205F || n == 0x3000
}

/// `s` has no white space at either end, so `str::trim` leaves it as it is.
pub open spec fn is_trimmed(s: Seq<char>) -> bool {
    s.len() > 0 ==> !is_white_space(s[0]) && !is_white_space(s[s.len() - 1])
}

/// `s` consists of white space only (or is empty): `s.trim()` is empty.
pub open spec fn is_blank(s: Seq<char>) -> bool {
    forall|i: int| 0 <= i < s.len() ==> is_white_space(s[i])
}

/// Whether the text is blank once surrounding white space is removed.
pub fn is_blank_str(s: &str) -> (r: bool)
    ensures
        r == is_blank(s@),
{
    let n = s.unicode_len();
    let mut i: usize = 0;
    while i < n
        invariant
            n == s@.len(),
            i <= n,
            forall|k: int| 0 <= k < i ==> is_white_space(s@[k]),
        decreases n - i,
    {
        if !char_is_white_space(s.get_char(i)) {
            return false;
        }
        i = i + 1;
    }
    true
}

/// Every character of `s` equals `c`.
pub open spec fn all_chars_are(s: Seq<char>, c: char) -> bool {
    forall|i: int| 0 <= i < s.len() ==> s[i] == c
}

/// `s` with all leading and trailing copies of `c` removed (what
/// `str::trim_matches` computes for a single-character pattern).
pub open spec fn is_trim_of(r: Seq<char>, s: Seq<char>, c: char) -> bool {
    exists|a: int, b: int|
        0 <= a <= b <= s.len() && r == s.subrange(a, b) && all_chars_are(s.subrange(0, a), c)
            && all_chars_are(s.subrange(b, s.len() as int), c) && (a < b ==> s[a] != c && s[b - 1] != c)
}

/// `s` with all leading and trailing copies of `c` removed.
pub open spec fn trimmed(s: Seq<char>, c: char) -> Seq<char> {
    choose|t: Seq<char>| is_trim_of(t, s, c)
}

/// There is one way only to trim a character from a text.
pub proof fn lemma_trim_unique(s: Seq<char>, t: Seq<char>, c: char)
    requires
        is_trim_of(t, s, c),
    ensures
        trimmed(s, c) == t,
{
    let u = trimmed(s, c);
    assert(is_trim_of(u, s, c));
    let (a, b) = choose|a: int, b: int|
        0 <= a <= b <= s.len() && t == s.subrange(a, b) && all_chars_are(s.subrange(0, a), c)
            && all_chars_are(s.subrange(b, s.len() as int), c) && (a < b ==> s[a] != c && s[b - 1] != c);
    let (a2, b2) = choose|a2: int, b2: int|
        0 <= a2 <= b2 <= s.len() && u == s.subrange(a2, b2) && all_chars_are(s.subrange(0, a2), c)
            && all_chars_are(s.subrange(b2, s.len() as int), c) && (a2 < b2 ==> s[a2] != c && s[b2 - 1] != c);
    if a < b && a2 < b2 {
        if a < a2 {
            assert(s.subrange(0, a2)[a] == s[a]);
        }
        if a2 < a {
            assert(s.subrange(0, a)[a2] == s[a2]);
        }
        if b < b2 {
            assert(s.subrange(b, s.len() as int)[b2 - 1 - b] == s[b2 - 1]);
        }
        if b2 < b {
            assert(s.subrange(b2, s.len() as int)[b - 1 - b2] == s[b - 1]);
        }
        assert(t =~= u);
    } else if a < b {
        if a < a2 {
            assert(s.subrange(0, a2)[a] == s[a]);
        } else {
            assert(s.subrange(b2, s.len() as int)[a - b2] == s[a]);
        }
    } else if a2 < b2 {
        if a2 < a {
            assert(s.subrange(0, a)[a2] == s[a2]);
        } else {
            assert(s.subrange(b, s.len() as int)[a2 - b] == s[a2]);
        }
    } else {
        assert(t =~= u);
    }
}

/// Removes every leading and trailing `c` from `s`.
pub fn trim_char(s: &str, c: char) -> (r: String)
    ensures
        is_trim_of(r@, s@, c),
        r@ == trimmed(s@, c),
{
    let n = s.unicode_len();
    let mut a: usize = 0;
    while a < n && s.get_char(a) == c
        invariant
            n == s@.len(),
            a <= n,
            forall|k: int| 0 <= k < a ==> s@[k] == c,
        decreases n - a,
    {
        a = a + 1;
    }
    let mut b: usize = n;
    while b > a && s.get_char(b - 1) == c
        invariant
            n == s@.len(),
            a <= b <= n,
            forall|k: int| b <= k < n ==> s@[k] == c,
        decreases b,
    {
        b = b - 1;
    }
    let piece = s.substring_char(a, b);
    let r = String::from_str(piece);
    assert(all_chars_are(s@.subrange(0, a as int), c));
    assert(all_chars_are(s@.subrange(b as int, n as int), c));
    assert(is_trim_of(r@, s@, c)) by {
        assert(r@ == s@.subrange(a as int, b as int));
    }
    proof {
        lemma_trim_unique(s@, r@, c);
    }
    r
}

/// Lower-case ASCII text: every character is ASCII and none is an upper-case
/// letter. Such text is left unchanged by case folding.
pub open spec fn is_lower_ascii(s: Seq<char>) -> bool {
    forall|i: int| 0 <= i < s.len() ==> (s[i] as u32) < 128 && !('A' <= s[i] && s[i] <= 'Z')
}

/// `c` does not occur in `s`.
pub open spec fn lacks(s: Seq<char>, c: char) -> bool {
    forall|i: int| 0 <= i < s.len() ==> s[i] != c
}

/// `s` with `t` appended, as a new string.
pub fn join_text(s: &str, t: &str) -> (r: String)
    ensures
        r@ == s@ + t@,
{
    let mut out = String::from_str(s);
    out.append(t);
    out
}


/// The text of an optional string.
pub open spec fn opt_view(o: Option<String>) -> Option<Seq<char>> {
    match o {
        Some(s) => Some(s@),
        None => None,
    }
}



/// Whether two texts are equal.
pub fn text_eq(a: &str, b: &str) -> (r: bool)
    ensures
        r == (a@ == b@),
{
    if a.unicode_len() != b.unicode_len() {
        return false;
    }
    let p = starts_with(a, b);
    proof {
        if p {
            assert(a@ =~= a@.subrange(0, b@.len() as int));
        } else {
            if a@ == b@ {
                assert(a@.subrange(0, b@.len() as int) =~= b@);
            }
        }
    }
    p
}

} // verus!
