//! Byte-sequence utilities shared by the command grammars: whitespace
//! trimming, ASCII lowering, and substring search, each with a spec-level
//! counterpart that the parsers' contracts are stated over.

use vstd::prelude::*;

verus! {

/// The ASCII whitespace bytes that trimming removes.
pub open spec fn is_space(b: u8) -> bool {
    b == 32 || (9 <= b && b <= 13)
}

/// ASCII lowering of one byte: `A`..`Z` map to `a`..`z`, all else unchanged.
pub open spec fn lower_byte(b: u8) -> u8 {
    if 65 <= b && b <= 90 {
        (b + 32) as u8
    } else {
        b
    }
}

/// ASCII lowering of a whole sequence.
pub open spec fn lower(s: Seq<u8>) -> Seq<u8> {
    s.map_values(|b: u8| lower_byte(b))
}

/// The sequence with leading and trailing ASCII whitespace removed.
pub open spec fn trimmed(s: Seq<u8>) -> Seq<u8>
    decreases s.len(),
{
    if s.len() > 0 && is_space(s[0]) {
        trimmed(s.drop_first())
    } else if s.len() > 0 && is_space(s[s.len() - 1]) {
        trimmed(s.drop_last())
    } else {
        s
    }
}

/// Whether `pat` occurs in `s` starting at index `i`.
pub open spec fn match_at(s: Seq<u8>, pat: Seq<u8>, i: int) -> bool {
    0 <= i && i + pat.len() <= s.len() && s.subrange(i, i + pat.len()) == pat
}

/// The least index `>= pos` at which byte `b` occurs in `s`, if any.
pub open spec fn find_byte_from(s: Seq<u8>, pos: int, b: u8) -> Option<int>
    decreases s.len() - pos,
{
    if pos < 0 || pos >= s.len() {
        None
    } else if s[pos] == b {
        Some(pos)
    } else {
        find_byte_from(s, pos + 1, b)
    }
}

/// The least index `>= pos` at which `pat` occurs in `s`, if any.
pub open spec fn find_sub_from(s: Seq<u8>, pat: Seq<u8>, pos: int) -> Option<int>
    decreases s.len() - pos,
{
    if pos < 0 || pos + pat.len() > s.len() || pat.len() == 0 {
        None
    } else if match_at(s, pat, pos) {
        Some(pos)
    } else {
        find_sub_from(s, pat, pos + 1)
    }
}

/// Where `pat` first occurs in `s`.
pub open spec fn find_sub(s: Seq<u8>, pat: Seq<u8>) -> Option<int> {
    find_sub_from(s, pat, 0)
}

/// The remainder of `s` after the first occurrence of `pat`, or empty when
/// `pat` does not occur.
pub open spec fn after_first(s: Seq<u8>, pat: Seq<u8>) -> Seq<u8> {
    match find_sub(s, pat) {
        Some(i) => s.subrange(i + pat.len(), s.len() as int),
        None => Seq::empty(),
    }
}

/// Whether `s` begins with `pat`.
pub open spec fn starts_with(s: Seq<u8>, pat: Seq<u8>) -> bool {
    pat.len() <= s.len() && s.subrange(0, pat.len() as int) == pat
}

/// `s` with every plain space byte removed.
pub open spec fn strip_spaces(s: Seq<u8>) -> Seq<u8>
    decreases s.len(),
{
    if s.len() == 0 {
        Seq::empty()
    } else if s[0] == 32 {
        strip_spaces(s.drop_first())
    } else {
        seq![s[0]] + strip_spaces(s.drop_first())
    }
}

pub proof fn lemma_find_byte_from_props(s: Seq<u8>, pos: int, b: u8)
    ensures
        find_byte_from(s, pos, b) matches Some(i) ==> pos <= i < s.len() && s[i] == b && (forall|k:
            int| pos <= k < i ==> s[k] != b),
        find_byte_from(s, pos, b) is None && pos >= 0 ==> forall|k: int|
            pos <= k < s.len() ==> s[k] != b,
    decreases s.len() - pos,
{
    if pos < 0 || pos >= s.len() {
    } else if s[pos] == b {
    } else {
        lemma_find_byte_from_props(s, pos + 1, b);
    }
}

pub proof fn lemma_find_sub_from_props(s: Seq<u8>, pat: Seq<u8>, pos: int)
    ensures
        find_sub_from(s, pat, pos) matches Some(i) ==> pos <= i && match_at(s, pat, i) && (forall|
            k: int| pos <= k < i ==> !match_at(s, pat, k)),
        find_sub_from(s, pat, pos) is None && pos >= 0 && pat.len() > 0 ==> forall|k: int|
            pos <= k ==> !match_at(s, pat, k),
    decreases s.len() - pos,
{
    if pos < 0 || pos + pat.len() > s.len() || pat.len() == 0 {
    } else if match_at(s, pat, pos) {
    } else {
        lemma_find_sub_from_props(s, pat, pos + 1);
    }
}

/// The sequence with every leading and trailing byte that occurs in `bs`
/// removed; how parens and backtick fences are stripped.
pub open spec fn trim_set(s: Seq<u8>, bs: Seq<u8>) -> Seq<u8>
    decreases s.len(),
{
    if s.len() > 0 && bs.contains(s[0]) {
        trim_set(s.drop_first(), bs)
    } else if s.len() > 0 && bs.contains(s[s.len() - 1]) {
        trim_set(s.drop_last(), bs)
    } else {
        s
    }
}

/// The comma-separated pieces of `s` from `pos` on; a piece keeps its
/// surrounding whitespace.
pub open spec fn toks_from(s: Seq<u8>, pos: int) -> Seq<Seq<u8>>
    decreases s.len() + 1 - pos,
{
    if pos < 0 || pos > s.len() {
        Seq::empty()
    } else {
        match find_byte_from(s, pos, 44) {
            None => seq![s.subrange(pos, s.len() as int)],
            Some(i) => {
                proof {
                    lemma_find_byte_from_props(s, pos, 44);
                }
                seq![s.subrange(pos, i)] + toks_from(s, i + 1)
            },
        }
    }
}

/// Relates the index form of a trim to the recursive `trimmed`: when every
/// byte outside `[a, b)` is whitespace and the bytes at the borders of the
/// range are not, the trimmed sequence is exactly that range.
pub proof fn lemma_trimmed_range(s: Seq<u8>, a: int, b: int)
    requires
        0 <= a <= b <= s.len(),
        forall|k: int| 0 <= k < a ==> is_space(s[k]),
        forall|k: int| b <= k < s.len() ==> is_space(s[k]),
        a < b ==> !is_space(s[a]) && !is_space(s[b - 1]),
    ensures
        trimmed(s) == s.subrange(a, b),
    decreases s.len(),
{
    if s.len() == 0 {
        assert(s.subrange(a, b) =~= s);
    } else if a == b {
        assert(forall|k: int| 0 <= k < s.len() ==> is_space(s[k]));
        assert(s.subrange(a, b) =~= Seq::<u8>::empty());
        lemma_trimmed_all_space(s);
    } else if is_space(s[0]) {
        assert(a > 0);
        lemma_trimmed_range(s.drop_first(), a - 1, b - 1);
        assert(s.drop_first().subrange(a - 1, b - 1) =~= s.subrange(a, b));
    } else if is_space(s[s.len() - 1]) {
        assert(b < s.len());
        lemma_trimmed_range(s.drop_last(), a, b);
        assert(s.drop_last().subrange(a, b) =~= s.subrange(a, b));
    } else {
        assert(a == 0);
        assert(b == s.len());
        assert(s.subrange(0, s.len() as int) =~= s);
    }
}

/// The counterpart of [`lemma_trimmed_range`] for [`trim_set`].
pub proof fn lemma_trim_set_range(s: Seq<u8>, bs: Seq<u8>, a: int, b: int)
    requires
        0 <= a <= b <= s.len(),
        forall|k: int| 0 <= k < a ==> bs.contains(s[k]),
        forall|k: int| b <= k < s.len() ==> bs.contains(s[k]),
        a < b ==> !bs.contains(s[a]) && !bs.contains(s[b - 1]),
    ensures
        trim_set(s, bs) == s.subrange(a, b),
    decreases s.len(),
{
    if s.len() == 0 {
        assert(s.subrange(a, b) =~= s);
    } else if a == b {
        assert(forall|k: int| 0 <= k < s.len() ==> bs.contains(s[k]));
        assert(s.subrange(a, b) =~= Seq::<u8>::empty());
        lemma_trim_set_all(s, bs);
    } else if bs.contains(s[0]) {
        assert(a > 0);
        lemma_trim_set_range(s.drop_first(), bs, a - 1, b - 1);
        assert(s.drop_first().subrange(a - 1, b - 1) =~= s.subrange(a, b));
    } else if bs.contains(s[s.len() - 1]) {
        assert(b < s.len());
        lemma_trim_set_range(s.drop_last(), bs, a, b);
        assert(s.drop_last().subrange(a, b) =~= s.subrange(a, b));
    } else {
        assert(a == 0);
        assert(b == s.len());
        assert(s.subrange(0, s.len() as int) =~= s);
    }
}

proof fn lemma_trim_set_all(s: Seq<u8>, bs: Seq<u8>)
    requires
        forall|k: int| 0 <= k < s.len() ==> bs.contains(s[k]),
    ensures
        trim_set(s, bs) == Seq::<u8>::empty(),
    decreases s.len(),
{
    if s.len() > 0 {
        lemma_trim_set_all(s.drop_first(), bs);
    }
}

/// Stripping leaves no space behind, wherever the spaces stood.
pub proof fn lemma_strip_spaces_removes_all(s: Seq<u8>)
    ensures
        forall|i: int| 0 <= i < strip_spaces(s).len() ==> strip_spaces(s)[i] != 32,
    decreases s.len(),
{
    if s.len() > 0 {
        lemma_strip_spaces_removes_all(s.drop_first());
        if s[0] == 32 {
            assert(strip_spaces(s) == strip_spaces(s.drop_first()));
        } else {
            assert forall|i: int| 0 <= i < strip_spaces(s).len() implies strip_spaces(s)[i]
                != 32 by {
                if i == 0 {
                    assert(strip_spaces(s)[0] == s[0]);
                } else {
                    assert(strip_spaces(s)[i] == strip_spaces(s.drop_first())[i - 1]);
                }
            }
        }
    }
}

proof fn lemma_trimmed_all_space(s: Seq<u8>)
    requires
        forall|k: int| 0 <= k < s.len() ==> is_space(s[k]),
    ensures
        trimmed(s) == Seq::<u8>::empty(),
    decreases s.len(),
{
    if s.len() > 0 {
        lemma_trimmed_all_space(s.drop_first());
    }
}

/// ASCII-lower a byte vector.
pub fn ascii_lower(s: &Vec<u8>) -> (r: Vec<u8>)
    ensures
        r@ == lower(s@),
{
    let mut r: Vec<u8> = Vec::new();
    let mut i: usize = 0;
    while i < s.len()
        invariant
            i <= s.len(),
            r@ == lower(s@.subrange(0, i as int)),
        decreases s.len() - i,
    {
        let b = s[i];
        if 65 <= b && b <= 90 {
            r.push(b + 32);
        } else {
            r.push(b);
        }
        proof {
            assert(s@.subrange(0, i + 1).drop_last() =~= s@.subrange(0, i as int));
            assert(lower(s@.subrange(0, i + 1)) =~= lower(s@.subrange(0, i as int)).push(
                lower_byte(s@[i as int]),
            ));
        }
        i += 1;
    }
    proof {
        assert(s@.subrange(0, s@.len() as int) =~= s@);
    }
    r
}

/// Copies a byte array into a vector; the way the byte constants of the
/// grammars become runtime values.
pub fn vec_of<const N: usize>(a: &[u8; N]) -> (r: Vec<u8>)
    ensures
        r@ == a@,
{
    let mut r: Vec<u8> = Vec::new();
    let mut i: usize = 0;
    while i < N
        invariant
            i <= N,
            a@.len() == N,
            r@ == a@.subrange(0, i as int),
        decreases N - i,
    {
        r.push(a[i]);
        proof {
            assert(a@.subrange(0, i + 1) =~= a@.subrange(0, i as int).push(a@[i as int]));
        }
        i += 1;
    }
    proof {
        assert(a@.subrange(0, N as int) =~= a@);
    }
    r
}

/// A fresh vector holding the same bytes.
pub fn copy_bytes(s: &Vec<u8>) -> (r: Vec<u8>)
    ensures
        r@ == s@,
{
    let r = sub_vec(s, 0, s.len());
    proof {
        assert(s@.subrange(0, s@.len() as int) =~= s@);
    }
    r
}

/// Whether one byte is ASCII whitespace.
pub fn is_space_byte(b: u8) -> (r: bool)
    ensures
        r == is_space(b),
{
    b == 32 || (9 <= b && b <= 13)
}

/// Copy of the byte range `[i, j)` of `s`.
pub fn sub_vec(s: &Vec<u8>, i: usize, j: usize) -> (r: Vec<u8>)
    requires
        i <= j <= s@.len(),
    ensures
        r@ == s@.subrange(i as int, j as int),
{
    let mut r: Vec<u8> = Vec::new();
    let mut k: usize = i;
    while k < j
        invariant
            i <= k <= j <= s@.len(),
            r@ == s@.subrange(i as int, k as int),
        decreases j - k,
    {
        r.push(s[k]);
        proof {
            assert(s@.subrange(i as int, k + 1) =~= s@.subrange(i as int, k as int).push(
                s@[k as int],
            ));
        }
        k += 1;
    }
    r
}

/// Leading and trailing ASCII whitespace removed.
pub fn trim(s: &Vec<u8>) -> (r: Vec<u8>)
    ensures
        r@ == trimmed(s@),
{
    let mut a: usize = 0;
    while a < s.len() && is_space_byte(s[a])
        invariant
            a <= s@.len(),
            forall|k: int| 0 <= k < a ==> is_space(s@[k]),
        decreases s@.len() - a,
    {
        a += 1;
    }
    if a == s.len() {
        proof {
            lemma_trimmed_range(s@, 0, 0);
            assert(s@.subrange(0, 0) =~= Seq::<u8>::empty());
        }
        Vec::new()
    } else {
        let mut b: usize = s.len();
        while is_space_byte(s[b - 1])
            invariant
                a < b <= s@.len(),
                !is_space(s@[a as int]),
                forall|k: int| b <= k < s@.len() ==> is_space(s@[k]),
            decreases b,
        {
            b -= 1;
        }
        proof {
            lemma_trimmed_range(s@, a as int, b as int);
        }
        sub_vec(s, a, b)
    }
}

/// Whether `b` occurs in the small set `bs`.
pub fn byte_in(b: u8, bs: &Vec<u8>) -> (r: bool)
    ensures
        r == bs@.contains(b),
{
    let mut i: usize = 0;
    while i < bs.len()
        invariant
            i <= bs@.len(),
            forall|k: int| 0 <= k < i ==> bs@[k] != b,
        decreases bs@.len() - i,
    {
        if bs[i] == b {
            return true;
        }
        i += 1;
    }
    false
}

/// Leading and trailing bytes of the set `bs` removed.
pub fn trim_set_vec(s: &Vec<u8>, bs: &Vec<u8>) -> (r: Vec<u8>)
    ensures
        r@ == trim_set(s@, bs@),
{
    let mut a: usize = 0;
    while a < s.len() && byte_in(s[a], bs)
        invariant
            a <= s@.len(),
            forall|k: int| 0 <= k < a ==> bs@.contains(s@[k]),
        decreases s@.len() - a,
    {
        a += 1;
    }
    if a == s.len() {
        proof {
            lemma_trim_set_range(s@, bs@, 0, 0);
            assert(s@.subrange(0, 0) =~= Seq::<u8>::empty());
        }
        Vec::new()
    } else {
        let mut b: usize = s.len();
        while byte_in(s[b - 1], bs)
            invariant
                a < b <= s@.len(),
                !bs@.contains(s@[a as int]),
                forall|k: int| b <= k < s@.len() ==> bs@.contains(s@[k]),
            decreases b,
        {
            b -= 1;
        }
        proof {
            lemma_trim_set_range(s@, bs@, a as int, b as int);
        }
        sub_vec(s, a, b)
    }
}

/// Whether two byte vectors hold the same bytes.
pub fn eq_bytes(a: &Vec<u8>, b: &Vec<u8>) -> (r: bool)
    ensures
        r == (a@ == b@),
{
    if a.len() != b.len() {
        return false;
    }
    let mut i: usize = 0;
    while i < a.len()
        invariant
            i <= a@.len() == b@.len(),
            forall|k: int| 0 <= k < i ==> a@[k] == b@[k],
        decreases a@.len() - i,
    {
        if a[i] != b[i] {
            return false;
        }
        i += 1;
    }
    proof {
        assert(a@ =~= b@);
    }
    true
}

/// First index at or after `pos` holding the byte `b`.
pub fn find_byte_at(s: &Vec<u8>, pos: usize, b: u8) -> (r: Option<usize>)
    ensures
        match r {
            Some(i) => find_byte_from(s@, pos as int, b) == Some(i as int),
            None => find_byte_from(s@, pos as int, b) is None,
        },
{
    let mut i: usize = pos;
    if i > s.len() {
        return None;
    }
    while i < s.len()
        invariant
            pos <= i <= s@.len(),
            find_byte_from(s@, pos as int, b) == find_byte_from(s@, i as int, b),
        decreases s@.len() - i,
    {
        if s[i] == b {
            return Some(i);
        }
        i += 1;
    }
    None
}

/// Whether `pat` occurs in `s` at exactly index `i`.
pub fn range_matches(s: &Vec<u8>, i: usize, pat: &Vec<u8>) -> (r: bool)
    requires
        i + pat@.len() <= s@.len(),
    ensures
        r == match_at(s@, pat@, i as int),
{
    let m = pat.len();
    let n = s.len();
    let mut k: usize = 0;
    while k < m
        invariant
            k <= m == pat@.len(),
            i + m <= n == s@.len(),
            forall|j: int| 0 <= j < k ==> s@[i + j] == pat@[j],
        decreases m - k,
    {
        if s[i + k] != pat[k] {
            proof {
                assert(s@.subrange(i as int, i + pat@.len())[k as int] != pat@[k as int]);
            }
            return false;
        }
        k += 1;
    }
    proof {
        assert(s@.subrange(i as int, i + pat@.len()) =~= pat@);
    }
    true
}

/// First index at or after `pos` where `pat` occurs in `s`.
pub fn find_sub_at(s: &Vec<u8>, pat: &Vec<u8>, pos: usize) -> (r: Option<usize>)
    ensures
        match r {
            Some(i) => find_sub_from(s@, pat@, pos as int) == Some(i as int),
            None => find_sub_from(s@, pat@, pos as int) is None,
        },
{
    if pat.len() == 0 || pos > s.len() || pat.len() > s.len() - pos {
        return None;
    }
    let mut i: usize = pos;
    while i <= s.len() - pat.len()
        invariant
            pos <= i,
            pat@.len() >= 1,
            pos + pat@.len() <= s@.len(),
            i <= s@.len() - pat@.len() + 1,
            find_sub_from(s@, pat@, pos as int) == find_sub_from(s@, pat@, i as int),
        decreases s@.len() - i,
    {
        if range_matches(s, i, pat) {
            return Some(i);
        }
        i += 1;
    }
    None
}

/// Whether `pat` occurs anywhere in `s`.
pub fn contains_sub(s: &Vec<u8>, pat: &Vec<u8>) -> (r: bool)
    ensures
        r == (find_sub(s@, pat@) is Some),
{
    find_sub_at(s, pat, 0).is_some()
}

/// The remainder of `s` after the first occurrence of `pat`; empty when `pat`
/// does not occur.
pub fn tail_after(s: &Vec<u8>, pat: &Vec<u8>) -> (r: Vec<u8>)
    ensures
        r@ == after_first(s@, pat@),
{
    match find_sub_at(s, pat, 0) {
        Some(i) => {
            let n = s.len();
            proof {
                lemma_find_sub_from_props(s@, pat@, 0);
                assert(i + pat@.len() <= n);
            }
            sub_vec(s, i + pat.len(), n)
        },
        None => Vec::new(),
    }
}

/// Whether `s` begins with `pat`.
pub fn has_prefix(s: &Vec<u8>, pat: &Vec<u8>) -> (r: bool)
    ensures
        r == starts_with(s@, pat@),
{
    if pat.len() > s.len() {
        return false;
    }
    range_matches(s, 0, pat)
}

/// `s` with every plain space byte removed.
pub fn remove_spaces(s: &Vec<u8>) -> (r: Vec<u8>)
    ensures
        r@ == strip_spaces(s@),
{
    let mut r: Vec<u8> = Vec::new();
    let mut i: usize = 0;
    proof {
        assert(s@.subrange(0, s@.len() as int) =~= s@);
        assert(Seq::<u8>::empty() + strip_spaces(s@) =~= strip_spaces(s@));
    }
    while i < s.len()
        invariant
            i <= s@.len(),
            strip_spaces(s@) == r@ + strip_spaces(s@.subrange(i as int, s@.len() as int)),
        decreases s@.len() - i,
    {
        let ghost pre = s@.subrange(i as int, s@.len() as int);
        let ghost suf = s@.subrange(i + 1, s@.len() as int);
        let ghost r_old = r@;
        proof {
            assert(pre.drop_first() =~= suf);
            assert(pre[0] == s@[i as int]);
        }
        if s[i] != 32 {
            r.push(s[i]);
            proof {
                assert(strip_spaces(pre) == seq![s@[i as int]] + strip_spaces(suf));
                assert(r_old + (seq![s@[i as int]] + strip_spaces(suf)) =~= r@ + strip_spaces(suf));
            }
        }
        i += 1;
    }
    proof {
        assert(s@.subrange(s@.len() as int, s@.len() as int) =~= Seq::<u8>::empty());
        assert(r@ + Seq::<u8>::empty() =~= r@);
    }
    r
}

} // verus!
