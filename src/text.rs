//! Byte and character level helpers shared by the classifiers and the
//! argument-template resolver.
use vstd::prelude::*;

verus! {

/// `needle` occurs in `hay` starting at position `i`.
pub open spec fn occurs_at<A>(hay: Seq<A>, needle: Seq<A>, i: int) -> bool {
    0 <= i && i + needle.len() <= hay.len() && hay.subrange(i, i + needle.len()) == needle
}

/// `needle` occurs somewhere in `hay`.
pub open spec fn contains<A>(hay: Seq<A>, needle: Seq<A>) -> bool {
    exists|i: int| #[trigger] occurs_at(hay, needle, i)
}

/// ASCII lower-case of one byte; other bytes are unchanged.
pub open spec fn ascii_lower(b: u8) -> u8 {
    if 65 <= b <= 90 { (b + 32) as u8 } else { b }
}

/// `needle`, already in lower case, occurs in `hay` when both are compared
/// ignoring ASCII case.
pub open spec fn contains_ignore_case(hay: Seq<u8>, needle: Seq<u8>) -> bool {
    contains(hay.map_values(|b: u8| ascii_lower(b)), needle)
}

fn lower_byte(b: u8) -> (r: u8)
    ensures
        r == ascii_lower(b),
{
    if 65 <= b && b <= 90 { b + 32 } else { b }
}

fn matches_at(hay: &[u8], needle: &[u8], i: usize, fold: bool) -> (r: bool)
    requires
        i + needle@.len() <= hay@.len(),
        hay@.len() <= usize::MAX,
    ensures
        !fold ==> r == occurs_at(hay@, needle@, i as int),
        fold ==> r == occurs_at(hay@.map_values(|b: u8| ascii_lower(b)), needle@, i as int),
{
    let ghost h = if fold { hay@.map_values(|b: u8| ascii_lower(b)) } else { hay@ };
    let mut j: usize = 0;
    while j < needle.len()
        invariant
            j <= needle@.len(),
            i + needle@.len() <= hay@.len(),
            hay@.len() <= usize::MAX,
            h.len() == hay@.len(),
            h == (if fold { hay@.map_values(|b: u8| ascii_lower(b)) } else { hay@ }),
            forall|k: int| 0 <= k < j ==> h[i + k] == needle@[k],
        decreases needle@.len() - j,
    {
        let c = if fold { lower_byte(hay[i + j]) } else { hay[i + j] };
        if c != needle[j] {
            proof {
                assert(h.subrange(i as int, i + needle@.len())[j as int] != needle@[j as int]);
            }
            return false;
        }
        j += 1;
    }
    proof {
        assert(h.subrange(i as int, i + needle@.len()) =~= needle@);
    }
    true
}

fn search(hay: &[u8], needle: &[u8], fold: bool) -> (r: bool)
    ensures
        !fold ==> r == contains(hay@, needle@),
        fold ==> r == contains(hay@.map_values(|b: u8| ascii_lower(b)), needle@),
{
    let ghost h = if fold { hay@.map_values(|b: u8| ascii_lower(b)) } else { hay@ };
    if needle.len() > hay.len() {
        proof {
            assert forall|i: int| !#[trigger] occurs_at(h, needle@, i) by {}
        }
        return false;
    }
    let n: usize = hay.len();
    let last: usize = n - needle.len();
    let mut i: usize = 0;
    loop
        invariant
            i <= last,
            last + needle@.len() == hay@.len(),
            hay@.len() == n,
            h == (if fold { hay@.map_values(|b: u8| ascii_lower(b)) } else { hay@ }),
            forall|k: int| 0 <= k < i ==> !#[trigger] occurs_at(h, needle@, k),
        ensures
            forall|k: int| 0 <= k <= last ==> !#[trigger] occurs_at(h, needle@, k),
        decreases last - i,
    {
        if matches_at(hay, needle, i, fold) {
            assert(occurs_at(h, needle@, i as int));
            return true;
        }
        if i == last {
            break;
        }
        i += 1;
    }
    proof {
        assert forall|k: int| !#[trigger] occurs_at(h, needle@, k) by {
            if 0 <= k <= last {
            }
        }
    }
    false
}

/// Whether `needle` occurs in `hay`.
pub fn find_bytes(hay: &[u8], needle: &[u8]) -> (r: bool)
    ensures
        r == contains(hay@, needle@),
{
    search(hay, needle, false)
}

/// Whether `needle` (given in lower case) occurs in `hay`, ignoring ASCII case.
pub fn find_bytes_ignore_case(hay: &[u8], needle: &[u8]) -> (r: bool)
    ensures
        r == contains_ignore_case(hay@, needle@),
{
    search(hay, needle, true)
}

/// Relies on str::chars: the characters of the string, in order.
#[verifier::external_body]
pub(crate) fn chars_of(s: &str) -> (r: Vec<char>)
    ensures
        r@ == s@,
{
    s.chars().collect()
}

/// Relies on String's FromIterator over chars: the string of these characters.
#[verifier::external_body]
pub(crate) fn string_of(cs: &[char]) -> (r: String)
    ensures
        r@ == cs@,
{
    cs.iter().collect()
}

/// Whether two character sequences are equal.
pub fn same_chars(a: &[char], b: &[char]) -> (r: bool)
    ensures
        r == (a@ == b@),
{
    if a.len() != b.len() {
        return false;
    }
    let mut i: usize = 0;
    while i < a.len()
        invariant
            a@.len() == b@.len(),
            forall|k: int| 0 <= k < i ==> a@[k] == b@[k],
        decreases a@.len() - i,
    {
        if a[i] != b[i] {
            return false;
        }
        i += 1;
    }
    proof {
        assert(a@ =~= b@);
    }
    true
}

} // verus!

verus! {

/// The characters `char::is_whitespace` accepts: Unicode's White_Space set.
pub open spec fn is_ws(c: char) -> bool {
    ('\t' <= c && c <= '\r') || c == ' ' || c == '\u{85}' || c == '\u{a0}' || c == '\u{1680}'
        || ('\u{2000}' <= c && c <= '\u{200a}') || c == '\u{2028}' || c == '\u{2029}'
        || c == '\u{202f}' || c == '\u{205f}' || c == '\u{3000}'
}

pub fn is_whitespace(c: char) -> (r: bool)
    ensures
        r == is_ws(c),
{
    ('\t' <= c && c <= '\r') || c == ' ' || c == '\u{85}' || c == '\u{a0}' || c == '\u{1680}'
        || ('\u{2000}' <= c && c <= '\u{200a}') || c == '\u{2028}' || c == '\u{2029}'
        || c == '\u{202f}' || c == '\u{205f}' || c == '\u{3000}'
}

/// Scanning `s` left to right: the words completed so far and the word
/// still being read.
pub open spec fn words_scan(s: Seq<char>) -> (Seq<Seq<char>>, Seq<char>)
    decreases s.len(),
{
    if s.len() == 0 {
        (Seq::empty(), Seq::empty())
    } else {
        let (done, cur) = words_scan(s.drop_last());
        let c = s.last();
        if is_ws(c) {
            if cur.len() > 0 {
                (done.push(cur), Seq::empty())
            } else {
                (done, Seq::empty())
            }
        } else {
            (done, cur.push(c))
        }
    }
}

/// The maximal runs of non-whitespace characters of `s`, in order.
pub open spec fn words(s: Seq<char>) -> Seq<Seq<char>> {
    let (done, cur) = words_scan(s);
    if cur.len() > 0 {
        done.push(cur)
    } else {
        done
    }
}

pub open spec fn char_views(v: Seq<Vec<char>>) -> Seq<Seq<char>> {
    v.map_values(|w: Vec<char>| w@)
}

/// Splits `s` into its whitespace-separated words.
pub fn split_words(s: &[char]) -> (r: Vec<Vec<char>>)
    ensures
        char_views(r@) == words(s@),
{
    let mut done: Vec<Vec<char>> = Vec::new();
    let mut cur: Vec<char> = Vec::new();
    let mut i: usize = 0;
    while i < s.len()
        invariant
            i <= s@.len(),
            (char_views(done@), cur@) == words_scan(s@.subrange(0, i as int)),
        decreases s@.len() - i,
    {
        let c = s[i];
        proof {
            assert(s@.subrange(0, i + 1).drop_last() =~= s@.subrange(0, i as int));
        }
        if is_whitespace(c) {
            if cur.len() > 0 {
                let ghost before = done@;
                done.push(cur);
                cur = Vec::new();
                proof {
                    assert(char_views(done@) =~= char_views(before).push(
                        words_scan(s@.subrange(0, i as int)).1,
                    ));
                }
            } else {
                cur = Vec::new();
                proof {
                    assert(cur@ =~= Seq::<char>::empty());
                }
            }
        } else {
            cur.push(c);
        }
        i += 1;
    }
    proof {
        assert(s@.subrange(0, s@.len() as int) =~= s@);
    }
    if cur.len() > 0 {
        let ghost before = done@;
        let ghost last = cur@;
        done.push(cur);
        proof {
            assert(char_views(done@) =~= char_views(before).push(last));
        }
    }
    done
}

/// `s` with each non-overlapping occurrence of `pat`, left to right, replaced
/// by `rep`.
pub open spec fn replace_all(s: Seq<char>, pat: Seq<char>, rep: Seq<char>) -> Seq<char>
    decreases s.len(),
{
    if s.len() == 0 || pat.len() == 0 {
        s
    } else if occurs_at(s, pat, 0) {
        rep + replace_all(s.skip(pat.len() as int), pat, rep)
    } else {
        seq![s[0]] + replace_all(s.skip(1), pat, rep)
    }
}

fn chars_at(s: &[char], pat: &[char], i: usize) -> (r: bool)
    requires
        i <= s@.len(),
    ensures
        r == occurs_at(s@.skip(i as int), pat@, 0),
{
    if pat.len() > s.len() - i {
        return false;
    }
    let ghost t = s@.skip(i as int);
    let mut j: usize = 0;
    while j < pat.len()
        invariant
            i <= s@.len(),
            j <= pat@.len(),
            i + pat@.len() <= s@.len(),
            s@.len() <= usize::MAX,
            t == s@.skip(i as int),
            forall|k: int| 0 <= k < j ==> t[k] == pat@[k],
        decreases pat@.len() - j,
    {
        if s[i + j] != pat[j] {
            proof {
                assert(t.subrange(0, pat@.len() as int)[j as int] != pat@[j as int]);
            }
            return false;
        }
        j += 1;
    }
    proof {
        assert(t.subrange(0, pat@.len() as int) =~= pat@);
    }
    true
}

/// Replaces every occurrence of `pat` in `s` by `rep`.
pub fn replace_chars(s: &[char], pat: &[char], rep: &[char]) -> (r: Vec<char>)
    requires
        pat@.len() > 0,
    ensures
        r@ == replace_all(s@, pat@, rep@),
{
    let mut out: Vec<char> = Vec::new();
    let mut i: usize = 0;
    proof {
        assert(s@.skip(0) =~= s@);
    }
    while i < s.len()
        invariant
            i <= s@.len(),
            pat@.len() > 0,
            out@ + replace_all(s@.skip(i as int), pat@, rep@) == replace_all(s@, pat@, rep@),
        decreases s@.len() - i,
    {
        let ghost rest = s@.skip(i as int);
        if chars_at(s, pat, i) {
            proof {
                assert(rest.skip(pat@.len() as int) =~= s@.skip(i + pat@.len()));
                assert(out@ + rep@ + replace_all(s@.skip(i + pat@.len()), pat@, rep@)
                    =~= out@ + (rep@ + replace_all(s@.skip(i + pat@.len()), pat@, rep@)));
            }
            let mut k: usize = 0;
            let ghost start = out@;
            while k < rep.len()
                invariant
                    k <= rep@.len(),
                    out@ == start + rep@.subrange(0, k as int),
                decreases rep@.len() - k,
            {
                out.push(rep[k]);
                k += 1;
                proof {
                    assert(out@ =~= start + rep@.subrange(0, k as int));
                }
            }
            proof {
                assert(rep@.subrange(0, rep@.len() as int) =~= rep@);
            }
            i += pat.len();
        } else {
            proof {
                assert(rest.skip(1) =~= s@.skip(i + 1));
                assert(out@.push(s@[i as int]) + replace_all(s@.skip(i + 1), pat@, rep@)
                    =~= out@ + (seq![s@[i as int]] + replace_all(s@.skip(i + 1), pat@, rep@)));
            }
            out.push(s[i]);
            i += 1;
        }
    }
    proof {
        assert(s@.skip(i as int).len() == 0);
        assert(out@ + s@.skip(i as int) =~= out@);
    }
    out
}

pub open spec fn digit_chars() -> Seq<char> {
    seq!['0', '1', '2', '3', '4', '5', '6', '7', '8', '9']
}

/// The decimal representation of `n`, without leading zeros.
pub open spec fn decimal(n: nat) -> Seq<char>
    decreases n,
{
    if n < 10 {
        seq![digit_chars()[n as int]]
    } else {
        decimal(n / 10).push(digit_chars()[(n % 10) as int])
    }
}

/// The decimal representation of a number is made of digits only.
pub proof fn lemma_decimal_digits(n: nat)
    ensures
        decimal(n).len() > 0,
        forall|k: int| 0 <= k < decimal(n).len() ==> '0' <= #[trigger] decimal(n)[k] <= '9',
    decreases n,
{
    if n >= 10 {
        lemma_decimal_digits(n / 10);
        let d = decimal(n / 10);
        assert forall|k: int| 0 <= k < decimal(n).len() implies '0' <= #[trigger] decimal(n)[k] <= '9' by {
            if k < d.len() {
                assert(decimal(n)[k] == d[k]);
            }
        }
    }
}

/// The decimal digits of `n`.
pub fn decimal_chars(n: u16) -> (r: Vec<char>)
    ensures
        r@ == decimal(n as nat),
    decreases n,
{
    let digits: [char; 10] = ['0', '1', '2', '3', '4', '5', '6', '7', '8', '9'];
    proof {
        assert(digits@ =~= digit_chars());
    }
    if n < 10 {
        let mut v: Vec<char> = Vec::new();
        v.push(digits[n as usize]);
        proof {
            assert(v@ =~= seq![digit_chars()[n as int]]);
        }
        v
    } else {
        let mut v = decimal_chars(n / 10);
        v.push(digits[(n % 10) as usize]);
        v
    }
}

} // verus!

verus! {

/// Whether `needle` occurs in `hay`.
pub fn contains_chars(hay: &[char], needle: &[char]) -> (r: bool)
    ensures
        r == contains(hay@, needle@),
{
    let n: usize = hay.len();
    let mut i: usize = 0;
    while i <= n
        invariant
            n == hay@.len(),
            i <= n + 1,
            forall|k: int| 0 <= k < i ==> !#[trigger] occurs_at(hay@, needle@, k),
        decreases n + 1 - i,
    {
        if chars_at(hay, needle, i) {
            proof {
                assert(hay@.skip(i as int).subrange(0, needle@.len() as int)
                    =~= hay@.subrange(i as int, i + needle@.len()));
                assert(occurs_at(hay@, needle@, i as int));
            }
            return true;
        }
        proof {
            if i + needle@.len() <= n {
                assert(hay@.skip(i as int).subrange(0, needle@.len() as int)
                    =~= hay@.subrange(i as int, i + needle@.len()));
            }
        }
        if i == n {
            proof {
                assert forall|k: int| !#[trigger] occurs_at(hay@, needle@, k) by {
                    if 0 <= k <= n {
                    }
                }
            }
            return false;
        }
        i += 1;
    }
    proof {
        assert forall|k: int| !#[trigger] occurs_at(hay@, needle@, k) by {
            if 0 <= k <= n {
            }
        }
    }
    false
}

} // verus!

verus! {

proof fn lemma_prefix_back(u: Seq<char>, pat: Seq<char>, rep: Seq<char>, w: Seq<char>)
    requires
        pat.len() > 0,
        rep.len() > 0,
        forall|j: int| 0 <= j < w.len() ==> w[j] != rep[0],
        occurs_at(replace_all(u, pat, rep), w, 0),
    ensures
        occurs_at(u, w, 0),
    decreases w.len(),
{
    let out = replace_all(u, pat, rep);
    if w.len() == 0 {
        assert(u.subrange(0, 0) =~= w);
        return;
    }
    assert(out.subrange(0, w.len() as int)[0] == w[0]);
    if u.len() == 0 {
        assert(out.len() == 0);
    } else if occurs_at(u, pat, 0) {
        assert(out == rep + replace_all(u.skip(pat.len() as int), pat, rep));
        assert(out[0] == rep[0]);
    } else {
        let rest = replace_all(u.skip(1), pat, rep);
        assert(out == seq![u[0]] + rest);
        let w1 = w.skip(1);
        assert forall|k: int| 0 <= k < w1.len() implies rest.subrange(0, w1.len() as int)[k] == w1[k] by {
            assert(out.subrange(0, w.len() as int)[k + 1] == w[k + 1]);
            assert(out[k + 1] == rest[k]);
        }
        assert(rest.subrange(0, w1.len() as int) =~= w1);
        lemma_prefix_back(u.skip(1), pat, rep, w1);
        assert forall|k: int| 0 <= k < w.len() implies u.subrange(0, w.len() as int)[k] == w[k] by {
            if k > 0 {
                assert(u.skip(1).subrange(0, w1.len() as int)[k - 1] == w1[k - 1]);
            }
        }
        assert(u.subrange(0, w.len() as int) =~= w);
    }
}

/// Replacing every occurrence of `pat` by `rep` leaves none behind, when no
/// occurrence can start inside `rep` (no character of `rep` is the first of
/// `pat`) nor be completed across its start (no later character of `pat` is
/// the first of `rep`).
pub proof fn lemma_replace_all_leaves_none(s: Seq<char>, pat: Seq<char>, rep: Seq<char>)
    requires
        pat.len() > 0,
        rep.len() > 0,
        forall|k: int| 0 <= k < rep.len() ==> rep[k] != pat[0],
        forall|j: int| 1 <= j < pat.len() ==> pat[j] != rep[0],
    ensures
        !contains(replace_all(s, pat, rep), pat),
    decreases s.len(),
{
    let out = replace_all(s, pat, rep);
    let p = pat.len() as int;
    if s.len() == 0 {
        assert forall|i: int| !#[trigger] occurs_at(out, pat, i) by {}
    } else if occurs_at(s, pat, 0) {
        let rest = replace_all(s.skip(p), pat, rep);
        lemma_replace_all_leaves_none(s.skip(p), pat, rep);
        assert(out == rep + rest);
        let r = rep.len() as int;
        assert forall|i: int| !#[trigger] occurs_at(out, pat, i) by {
            if occurs_at(out, pat, i) {
                assert(out.subrange(i, i + p)[0] == pat[0]);
                if i < r {
                    assert(out[i] == rep[i]);
                } else {
                    assert(rest.subrange(i - r, i - r + p) =~= out.subrange(i, i + p));
                    assert(occurs_at(rest, pat, i - r));
                }
            }
        }
    } else {
        let rest = replace_all(s.skip(1), pat, rep);
        lemma_replace_all_leaves_none(s.skip(1), pat, rep);
        assert(out == seq![s[0]] + rest);
        assert forall|i: int| !#[trigger] occurs_at(out, pat, i) by {
            if occurs_at(out, pat, i) {
                if i == 0 {
                    let w = pat.skip(1);
                    assert forall|k: int| 0 <= k < w.len() implies rest.subrange(0, w.len() as int)[k]
                        == w[k] by {
                        assert(out.subrange(0, p)[k + 1] == pat[k + 1]);
                        assert(out[k + 1] == rest[k]);
                    }
                    assert(rest.subrange(0, w.len() as int) =~= w);
                    lemma_prefix_back(s.skip(1), pat, rep, w);
                    assert(out.subrange(0, p)[0] == pat[0]);
                    assert forall|k: int| 0 <= k < p implies s.subrange(0, p)[k] == pat[k] by {
                        if k > 0 {
                            assert(s.skip(1).subrange(0, w.len() as int)[k - 1] == w[k - 1]);
                        }
                    }
                    assert(s.subrange(0, p) =~= pat);
                } else {
                    assert(rest.subrange(i - 1, i - 1 + p) =~= out.subrange(i, i + p));
                    assert(occurs_at(rest, pat, i - 1));
                }
            }
        }
    }
}

} // verus!
