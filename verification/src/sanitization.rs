//! Cleaning of scraped product names: shedding wrapping quotes, stray
//! asterisks, promotional markers and trailing exclamation marks, and taming
//! doubled double-quotes.

use vstd::prelude::*;

use crate::strutil::chars_to_string;
use crate::strutil::has_char;
use crate::strutil::starts_with;

verus! {

/// The characters `str::trim` removes: Unicode's White_Space set.
pub open spec fn is_space(c: char) -> bool {
    ||| ('\u{0009}' <= c && c <= '\u{000d}')
    ||| c == ' '
    ||| c == '\u{0085}'
    ||| c == '\u{00a0}'
    ||| c == '\u{1680}'
    ||| ('\u{2000}' <= c && c <= '\u{200a}')
    ||| c == '\u{2028}'
    ||| c == '\u{2029}'
    ||| c == '\u{202f}'
    ||| c == '\u{205f}'
    ||| c == '\u{3000}'
}

fn is_space_exec(c: char) -> (r: bool)
    ensures
        r == is_space(c),
{
    ('\u{0009}' <= c && c <= '\u{000d}') || c == ' ' || c == '\u{0085}' || c == '\u{00a0}' || c
        == '\u{1680}' || ('\u{2000}' <= c && c <= '\u{200a}') || c == '\u{2028}' || c == '\u{2029}'
        || c == '\u{202f}' || c == '\u{205f}' || c == '\u{3000}'
}

pub open spec fn trim_start(s: Seq<char>) -> Seq<char>
    decreases s.len(),
{
    if s.len() > 0 && is_space(s[0]) {
        trim_start(s.skip(1))
    } else {
        s
    }
}

pub open spec fn trim_end(s: Seq<char>) -> Seq<char>
    decreases s.len(),
{
    if s.len() > 0 && is_space(s[s.len() - 1]) {
        trim_end(s.drop_last())
    } else {
        s
    }
}

pub open spec fn spec_trim(s: Seq<char>) -> Seq<char> {
    trim_end(trim_start(s))
}

pub proof fn lemma_trim_start_len(s: Seq<char>)
    ensures
        trim_start(s).len() <= s.len(),
    decreases s.len(),
{
    if s.len() > 0 && is_space(s[0]) {
        lemma_trim_start_len(s.skip(1));
    }
}

pub proof fn lemma_trim_end_len(s: Seq<char>)
    ensures
        trim_end(s).len() <= s.len(),
    decreases s.len(),
{
    if s.len() > 0 && is_space(s[s.len() - 1]) {
        lemma_trim_end_len(s.drop_last());
    }
}

pub proof fn lemma_trim_len(s: Seq<char>)
    ensures
        spec_trim(s).len() <= s.len(),
{
    lemma_trim_start_len(s);
    lemma_trim_end_len(trim_start(s));
}

/// While both ends are double-quotes, shed the pair and trim.
pub open spec fn shed_quote_pairs(s: Seq<char>) -> Seq<char>
    decreases s.len(),
    via shed_quote_pairs_decreases
{
    if s.len() >= 2 && s[0] == '"' && s[s.len() - 1] == '"' {
        shed_quote_pairs(spec_trim(s.subrange(1, s.len() - 1)))
    } else {
        s
    }
}

#[via_fn]
proof fn shed_quote_pairs_decreases(s: Seq<char>) {
    if s.len() >= 2 && s[0] == '"' && s[s.len() - 1] == '"' {
        lemma_trim_len(s.subrange(1, s.len() - 1));
    }
}

/// A lone leading quote with no closing partner goes, and the rest is
/// trimmed.
pub open spec fn shed_unmatched(s: Seq<char>, q: char) -> Seq<char> {
    if s.len() > 0 && s[0] == q && !has_char(s.skip(1), q) {
        spec_trim(s.skip(1))
    } else {
        s
    }
}

/// Trailing exclamation marks go, with trimming between.
pub open spec fn shed_bangs(s: Seq<char>) -> Seq<char>
    decreases s.len(),
    via shed_bangs_decreases
{
    if s.len() > 0 && s[s.len() - 1] == '!' {
        shed_bangs(spec_trim(s.drop_last()))
    } else {
        s
    }
}

#[via_fn]
proof fn shed_bangs_decreases(s: Seq<char>) {
    if s.len() > 0 && s[s.len() - 1] == '!' {
        lemma_trim_len(s.drop_last());
    }
}

/// The promotional marker at the front goes, and the rest is trimmed.
pub open spec fn shed_promo_marker(s: Seq<char>) -> Seq<char> {
    if starts_with(s, "*מבצע*"@) {
        spec_trim(s.skip("*מבצע*"@.len() as int))
    } else {
        s
    }
}

/// Leading asterisks with no partner elsewhere go, untrimmed.
pub open spec fn shed_unmatched_stars(s: Seq<char>) -> Seq<char>
    decreases s.len(),
{
    if s.len() > 0 && s[0] == '*' && !has_char(s.skip(1), '*') {
        shed_unmatched_stars(s.skip(1))
    } else {
        s
    }
}

/// Every doubled double-quote becomes four rafe points and one quote, left
/// to right, without overlap.
pub open spec fn replace_double_quotes(s: Seq<char>) -> Seq<char>
    decreases s.len(),
{
    if s.len() >= 2 && s[0] == '"' && s[1] == '"' {
        seq!['\u{05bf}', '\u{05bf}', '\u{05bf}', '\u{05bf}', '"'].add(
            replace_double_quotes(s.skip(2)),
        )
    } else if s.len() > 0 {
        seq![s[0]].add(replace_double_quotes(s.skip(1)))
    } else {
        s
    }
}

/// What `sanitize_name` returns, for every input.
pub open spec fn spec_sanitize(s: Seq<char>) -> Seq<char> {
    spec_trim(
        replace_double_quotes(
            shed_unmatched_stars(
                shed_promo_marker(
                    shed_bangs(shed_unmatched(shed_unmatched(shed_quote_pairs(s), '"'), '\'')),
                ),
            ),
        ),
    )
}

// ---------------------------------------------------------------------------
// Executable steps over character vectors.
// ---------------------------------------------------------------------------

fn vec_slice(v: &Vec<char>, a: usize, b: usize) -> (r: Vec<char>)
    requires
        a <= b <= v@.len(),
    ensures
        r@ == v@.subrange(a as int, b as int),
{
    let mut out: Vec<char> = Vec::new();
    let mut i: usize = a;
    proof {
        assert(out@ =~= v@.subrange(a as int, a as int));
    }
    while i < b
        invariant
            a <= i <= b <= v@.len(),
            out@ == v@.subrange(a as int, i as int),
        decreases b - i,
    {
        let c = v[i];
        out.push(c);
        proof {
            assert(out@ =~= v@.subrange(a as int, i + 1));
        }
        i = i + 1;
    }
    out
}

fn vec_has_char_from(v: &Vec<char>, from: usize, c: char) -> (r: bool)
    requires
        from <= v@.len(),
    ensures
        r == has_char(v@.skip(from as int), c),
{
    let n = v.len();
    let mut i: usize = from;
    while i < n
        invariant
            from <= i <= n,
            n == v@.len(),
            forall|j: int| from <= j < i ==> v@[j] != c,
        decreases n - i,
    {
        if v[i] == c {
            proof {
                assert(v@.skip(from as int)[i - from] == c);
            }
            return true;
        }
        i = i + 1;
    }
    proof {
        if has_char(v@.skip(from as int), c) {
            let j = choose|j: int|
                0 <= j < v@.skip(from as int).len() && v@.skip(from as int)[j] == c;
            assert(v@[j + from] == c);
        }
    }
    false
}

fn trim_vec(v: Vec<char>) -> (r: Vec<char>)
    ensures
        r@ == spec_trim(v@),
{
    let n = v.len();
    let mut lo: usize = 0;
    proof {
        assert(v@.skip(0int) =~= v@);
    }
    while lo < n && is_space_exec(v[lo])
        invariant
            0 <= lo <= n,
            n == v@.len(),
            trim_start(v@.skip(lo as int)) == trim_start(v@),
        decreases n - lo,
    {
        proof {
            assert(v@.skip(lo as int)[0] == v@[lo as int]);
            assert(v@.skip(lo as int).skip(1) =~= v@.skip(lo + 1));
        }
        lo = lo + 1;
    }
    proof {
        if lo < n {
            assert(v@.skip(lo as int)[0] == v@[lo as int]);
        }
        assert(trim_start(v@.skip(lo as int)) == v@.skip(lo as int));
    }
    let mut hi: usize = n;
    proof {
        assert(v@.subrange(lo as int, n as int) =~= v@.skip(lo as int));
    }
    while hi > lo && is_space_exec(v[hi - 1])
        invariant
            lo <= hi <= n,
            n == v@.len(),
            trim_start(v@) == v@.skip(lo as int),
            trim_end(v@.subrange(lo as int, hi as int)) == trim_end(v@.skip(lo as int)),
        decreases hi,
    {
        proof {
            let cur = v@.subrange(lo as int, hi as int);
            assert(cur[cur.len() - 1] == v@[hi - 1]);
            assert(cur.drop_last() =~= v@.subrange(lo as int, hi - 1));
        }
        hi = hi - 1;
    }
    proof {
        let cur = v@.subrange(lo as int, hi as int);
        if hi > lo {
            assert(cur[cur.len() - 1] == v@[hi - 1]);
        }
        assert(trim_end(cur) == cur);
        assert(v@.skip(lo as int) =~= v@.subrange(lo as int, n as int));
    }
    vec_slice(&v, lo, hi)
}

fn shed_quote_pairs_vec(v: Vec<char>) -> (r: Vec<char>)
    ensures
        r@ == shed_quote_pairs(v@),
{
    let mut cur = v;
    let ghost orig = cur@;
    while cur.len() >= 2 && cur[0] == '"' && cur[cur.len() - 1] == '"'
        invariant
            shed_quote_pairs(cur@) == shed_quote_pairs(orig),
        decreases cur@.len(),
    {
        let n = cur.len();
        let inner = vec_slice(&cur, 1, n - 1);
        proof {
            lemma_trim_len(inner@);
        }
        cur = trim_vec(inner);
    }
    proof {
        assert(shed_quote_pairs(cur@) == cur@);
    }
    cur
}

fn shed_unmatched_vec(v: Vec<char>, q: char) -> (r: Vec<char>)
    ensures
        r@ == shed_unmatched(v@, q),
{
    let n = v.len();
    if n > 0 && v[0] == q && !vec_has_char_from(&v, 1, q) {
        let rest = vec_slice(&v, 1, n);
        proof {
            assert(rest@ =~= v@.skip(1));
        }
        trim_vec(rest)
    } else {
        v
    }
}

fn shed_bangs_vec(v: Vec<char>) -> (r: Vec<char>)
    ensures
        r@ == shed_bangs(v@),
{
    let mut cur = v;
    let ghost orig = cur@;
    while cur.len() > 0 && cur[cur.len() - 1] == '!'
        invariant
            shed_bangs(cur@) == shed_bangs(orig),
        decreases cur@.len(),
    {
        let n = cur.len();
        let head = vec_slice(&cur, 0, n - 1);
        proof {
            assert(head@ =~= cur@.drop_last());
            lemma_trim_len(head@);
        }
        cur = trim_vec(head);
    }
    proof {
        assert(shed_bangs(cur@) == cur@);
    }
    cur
}

fn starts_with_vec(v: &Vec<char>, p: &Vec<char>) -> (r: bool)
    ensures
        r == starts_with(v@, p@),
{
    let m = p.len();
    if m > v.len() {
        return false;
    }
    let mut j: usize = 0;
    while j < m
        invariant
            0 <= j <= m,
            m == p@.len(),
            m <= v@.len(),
            forall|k: int| 0 <= k < j ==> v@[k] == p@[k],
        decreases m - j,
    {
        if v[j] != p[j] {
            assert(v@.subrange(0, p@.len() as int) != p@) by {
                assert(v@.subrange(0, p@.len() as int)[j as int] != p@[j as int]);
            }
            return false;
        }
        j = j + 1;
    }
    assert(v@.subrange(0, p@.len() as int) =~= p@);
    true
}

fn shed_promo_marker_vec(v: Vec<char>) -> (r: Vec<char>)
    ensures
        r@ == shed_promo_marker(v@),
{
    let mut pat: Vec<char> = Vec::new();
    pat.push('*');
    pat.push('\u{05de}');
    pat.push('\u{05d1}');
    pat.push('\u{05e6}');
    pat.push('\u{05e2}');
    pat.push('*');
    proof {
        reveal_strlit("*מבצע*");
        assert(pat@ =~= "*מבצע*"@);
    }
    if starts_with_vec(&v, &pat) {
        let n = v.len();
        let rest = vec_slice(&v, 6, n);
        proof {
            assert(rest@ =~= v@.skip("*מבצע*"@.len() as int));
        }
        trim_vec(rest)
    } else {
        v
    }
}

fn shed_unmatched_stars_vec(v: Vec<char>) -> (r: Vec<char>)
    ensures
        r@ == shed_unmatched_stars(v@),
{
    let mut cur = v;
    let ghost orig = cur@;
    let mut more = true;
    while more
        invariant
            shed_unmatched_stars(cur@) == shed_unmatched_stars(orig),
            !more ==> shed_unmatched_stars(cur@) == cur@,
        decreases cur@.len() + (if more { 1int } else { 0int }),
    {
        let n = cur.len();
        if n > 0 && cur[0] == '*' && !vec_has_char_from(&cur, 1, '*') {
            let rest = vec_slice(&cur, 1, n);
            proof {
                assert(rest@ =~= cur@.skip(1));
            }
            cur = rest;
        } else {
            more = false;
        }
    }
    cur
}

fn replace_double_quotes_vec(v: &Vec<char>) -> (r: Vec<char>)
    ensures
        r@ == replace_double_quotes(v@),
{
    let n = v.len();
    let mut out: Vec<char> = Vec::new();
    let mut i: usize = 0;
    proof {
        assert(v@.skip(0int) =~= v@);
        assert(out@.add(replace_double_quotes(v@)) =~= replace_double_quotes(v@));
    }
    while i < n
        invariant
            0 <= i <= n,
            n == v@.len(),
            out@.add(replace_double_quotes(v@.skip(i as int))) == replace_double_quotes(v@),
        decreases n - i,
    {
        let ghost rest = v@.skip(i as int);
        let ghost before = out@;
        proof {
            assert(rest[0] == v@[i as int]);
            if i + 1 < n {
                assert(rest[1] == v@[i + 1]);
            }
        }
        if i + 1 < n && v[i] == '"' && v[i + 1] == '"' {
            out.push('\u{05bf}');
            out.push('\u{05bf}');
            out.push('\u{05bf}');
            out.push('\u{05bf}');
            out.push('"');
            proof {
                assert(rest.skip(2) =~= v@.skip(i + 2));
                assert(replace_double_quotes(rest) == seq![
                    '\u{05bf}',
                    '\u{05bf}',
                    '\u{05bf}',
                    '\u{05bf}',
                    '"',
                ].add(replace_double_quotes(v@.skip(i + 2))));
                assert(out@ =~= before.add(
                    seq!['\u{05bf}', '\u{05bf}', '\u{05bf}', '\u{05bf}', '"'],
                ));
                assert(out@.add(replace_double_quotes(v@.skip(i + 2))) =~= before.add(
                    replace_double_quotes(rest),
                ));
            }
            i = i + 2;
        } else {
            let c = v[i];
            out.push(c);
            proof {
                assert(rest.skip(1) =~= v@.skip(i + 1));
                assert(replace_double_quotes(rest) == seq![rest[0]].add(
                    replace_double_quotes(v@.skip(i + 1)),
                ));
                assert(out@ =~= before.push(rest[0]));
                assert(out@.add(replace_double_quotes(v@.skip(i + 1))) =~= before.add(
                    replace_double_quotes(rest),
                ));
            }
            i = i + 1;
        }
    }
    proof {
        assert(v@.skip(n as int) =~= Seq::<char>::empty());
        assert(out@.add(Seq::<char>::empty()) =~= out@);
    }
    out
}

/// Cleans one scraped product name. Total, and pinned to `spec_sanitize`:
/// shedding wrapping quote pairs, a lone leading quote or apostrophe,
/// trailing exclamation marks, the promotional marker, lone leading
/// asterisks; then rewriting doubled double-quotes and trimming.
pub fn sanitize_name(input: &str) -> (r: String)
    ensures
        r@ == spec_sanitize(input@),
{
    let n = input.unicode_len();
    let mut chars: Vec<char> = Vec::new();
    let mut i: usize = 0;
    while i < n
        invariant
            0 <= i <= n,
            n == input@.len(),
            chars@ == input@.take(i as int),
        decreases n - i,
    {
        let c = input.get_char(i);
        chars.push(c);
        proof {
            assert(chars@ =~= input@.take(i + 1));
        }
        i = i + 1;
    }
    proof {
        assert(input@.take(n as int) =~= input@);
    }
    let s1 = shed_quote_pairs_vec(chars);
    let s2 = shed_unmatched_vec(s1, '"');
    let s3 = shed_unmatched_vec(s2, '\'');
    let s4 = shed_bangs_vec(s3);
    let s5 = shed_promo_marker_vec(s4);
    let s6 = shed_unmatched_stars_vec(s5);
    let s7 = replace_double_quotes_vec(&s6);
    let s8 = trim_vec(s7);
    chars_to_string(&s8)
}

} // verus!
