//! Normalization of raw STUN/TURN server URL strings.
//!
//! A `stun`-prefixed URL (covering the `stun:` and `stuns:` schemes) is cut
//! at its first `?`, discarding any query component; every other URL passes
//! through verbatim. The transform is purely lexical: it never rejects an
//! input, and a string without a `?` comes back unchanged.

use vstd::prelude::*;
use vstd::string::StrSliceExecFns;

verus! {

/// True when `s` begins with the four characters `stun`. This matches both
/// the `stun:` and the `stuns:` scheme, and also a bare `stun` with no colon:
/// the check is on the prefix alone, not on scheme structure.
pub open spec fn stun_prefixed(s: Seq<char>) -> bool {
    s.len() >= 4 && s[0] == 's' && s[1] == 't' && s[2] == 'u' && s[3] == 'n'
}

/// True when `s` begins with the four characters `turn` (the `turn:` and
/// `turns:` schemes). Such a URL is never `stun`-prefixed.
pub open spec fn turn_prefixed(s: Seq<char>) -> bool {
    s.len() >= 4 && s[0] == 't' && s[1] == 'u' && s[2] == 'r' && s[3] == 'n'
}

/// Index of the first `?` in `s`, or `s.len()` when `s` holds none.
pub open spec fn query_start(s: Seq<char>) -> int
    decreases s.len(),
{
    if s.len() == 0 {
        0
    } else if s[0] == '?' {
        0
    } else {
        1 + query_start(s.skip(1))
    }
}

/// The normalized form of one raw URL: a `stun`-prefixed URL keeps only the
/// part before its first `?`; every other URL is kept verbatim.
pub open spec fn sanitized(s: Seq<char>) -> Seq<char> {
    if stun_prefixed(s) {
        s.take(query_start(s))
    } else {
        s
    }
}

/// `query_start` is a well-formed first-occurrence index: it lies within the
/// string, nothing before it is a `?`, and it points at a `?` unless the
/// string holds none.
pub proof fn lemma_query_start_bounds(s: Seq<char>)
    ensures
        0 <= query_start(s) <= s.len(),
        forall|j: int| 0 <= j < query_start(s) ==> s[j] != '?',
        query_start(s) < s.len() ==> s[query_start(s)] == '?',
    decreases s.len(),
{
    if s.len() == 0 {
    } else if s[0] == '?' {
    } else {
        lemma_query_start_bounds(s.skip(1));
        assert forall|j: int| 0 <= j < query_start(s) implies s[j] != '?' by {
            if j > 0 {
                assert(s.skip(1)[j - 1] == s[j]);
            }
        }
        if query_start(s) < s.len() {
            assert(s.skip(1)[query_start(s) - 1] == s[query_start(s)]);
        }
    }
}

/// Any index with the first-occurrence shape is `query_start`: the first `?`
/// of a string is unique.
pub proof fn lemma_query_start_of(s: Seq<char>, i: int)
    requires
        0 <= i <= s.len(),
        forall|j: int| 0 <= j < i ==> s[j] != '?',
        i < s.len() ==> s[i] == '?',
    ensures
        query_start(s) == i,
    decreases s.len(),
{
    if s.len() == 0 {
    } else if s[0] == '?' {
        assert(i == 0);
    } else {
        assert(i > 0);
        assert forall|j: int| 0 <= j < i - 1 implies s.skip(1)[j] != '?' by {
            assert(s.skip(1)[j] == s[j + 1]);
        }
        if i - 1 < s.skip(1).len() {
            assert(s.skip(1)[i - 1] == s[i]);
        }
        lemma_query_start_of(s.skip(1), i - 1);
    }
}

/// A `stun`-prefixed URL is cut exactly at its first `?`: the result is the
/// prefix before that `?`, and the result differs from the input precisely
/// when the input holds a `?` at all.
pub proof fn lemma_stun_url_query_stripped(s: Seq<char>)
    requires
        stun_prefixed(s),
    ensures
        sanitized(s) == s.take(query_start(s)),
        forall|j: int| 0 <= j < query_start(s) ==> s[j] != '?',
        query_start(s) < s.len() ==> s[query_start(s)] == '?',
        (sanitized(s) != s) <==> (exists|j: int| 0 <= j < s.len() && s[j] == '?'),
{
    lemma_query_start_bounds(s);
    let q = query_start(s);
    if q < s.len() {
        assert(s[q] == '?');
        assert(sanitized(s).len() == q);
    } else {
        assert(s.take(q) =~= s);
    }
}

/// A URL that does not begin with `stun` passes through verbatim.
pub proof fn lemma_non_stun_url_unchanged(s: Seq<char>)
    requires
        !stun_prefixed(s),
    ensures
        sanitized(s) == s,
{
}

/// A `turn`- or `turns`-scheme URL passes through verbatim, with or without
/// a query component.
pub proof fn lemma_turn_url_unchanged(s: Seq<char>)
    requires
        turn_prefixed(s),
    ensures
        sanitized(s) == s,
{
    assert(!stun_prefixed(s));
}

/// Sanitizing one URL is idempotent: a sanitized URL is a fixed point.
pub proof fn lemma_sanitized_idempotent(s: Seq<char>)
    ensures
        sanitized(sanitized(s)) == sanitized(s),
{
    if stun_prefixed(s) {
        lemma_query_start_bounds(s);
        let t = s.take(query_start(s));
        if stun_prefixed(t) {
            assert forall|j: int| 0 <= j < t.len() implies t[j] != '?' by {
                assert(t[j] == s[j]);
            }
            lemma_query_start_of(t, t.len() as int);
            assert(t.take(t.len() as int) =~= t);
        }
    }
}

/// Strip the query component from a `stun`-prefixed URL; every other URL
/// comes back unchanged. Total: no input is rejected.
pub fn sanitize_url(url: &str) -> (r: String)
    ensures
        r@ == sanitized(url@),
{
    let n = url.unicode_len();
    let is_stun: bool = if n >= 4 {
        url.get_char(0) == 's' && url.get_char(1) == 't' && url.get_char(2) == 'u'
            && url.get_char(3) == 'n'
    } else {
        false
    };
    if !is_stun {
        return url.to_owned();
    }
    let mut i: usize = 0;
    loop
        invariant_except_break
            n == url@.len(),
            i <= n,
            forall|j: int| 0 <= j < i ==> url@[j] != '?',
        ensures
            i <= n == url@.len(),
            forall|j: int| 0 <= j < i ==> url@[j] != '?',
            i < n ==> url@[i as int] == '?',
        decreases n - i,
    {
        if i >= n {
            break;
        }
        if url.get_char(i) == '?' {
            break;
        }
        i += 1;
    }
    proof {
        lemma_query_start_of(url@, i as int);
    }
    let pre = url.substring_char(0, i);
    pre.to_owned()
}

} // verus!

