//! Topic sanitization: strip the characters that the broker's topic-tree
//! syntax reserves (`#` and `+` are wildcards, `/` is the path separator)
//! from a room-identity string, preserving everything else in order.

use vstd::prelude::*;

verus! {

/// A character the broker's topic syntax reserves; it must never appear
/// inside a generated topic segment.
pub open spec fn is_reserved_char(c: char) -> bool {
    c == '#' || c == '/' || c == '+'
}

/// What sanitization means: the subsequence of `s` with every reserved
/// character removed and every other character kept, in order.
pub open spec fn sanitize_spec(s: Seq<char>) -> Seq<char> {
    s.filter(|c: char| !is_reserved_char(c))
}

/// Remove every occurrence of `#`, `/` and `+` from `s`, keeping all other
/// characters in their original order. Total; never fails.
pub fn sanitize(s: &str) -> (r: String)
    ensures
        r@ == sanitize_spec(s@),
{
    let len: usize = s.unicode_len();
    let mut out: String = String::new();
    let mut i: usize = 0;
    while i < len
        invariant
            i <= len,
            len == s@.len(),
            out@ == sanitize_spec(s@.subrange(0, i as int)),
        decreases len - i,
    {
        let c = s.get_char(i);
        let keep = !(c == '#' || c == '/' || c == '+');
        if keep {
            let piece = s.substring_char(i, i + 1);
            out.append(piece);
        }
        proof {
            let pred = |ch: char| !is_reserved_char(ch);
            let pre = s@.subrange(0, i as int);
            let cur = s@.subrange(0, i as int + 1);
            assert(cur.drop_last() =~= pre);
            assert(cur.last() == s@[i as int]);
            reveal(Seq::filter);
            if keep {
                assert(s@.subrange(i as int, i as int + 1) =~= seq![s@[i as int]]);
                assert(cur.filter(pred) =~= pre.filter(pred) + seq![s@[i as int]]);
            }
        }
        i = i + 1;
    }
    proof {
        assert(s@.subrange(0, len as int) =~= s@);
    }
    out
}

/// Filtering keeps a sequence unchanged when every element already passes
/// the predicate.
proof fn lemma_filter_all_kept(s: Seq<char>, pred: spec_fn(char) -> bool)
    requires
        forall|i: int| 0 <= i < s.len() ==> pred(#[trigger] s[i]),
    ensures
        s.filter(pred) == s,
    decreases s.len(),
{
    reveal(Seq::filter);
    if s.len() == 0 {
        assert(s.filter(pred) =~= s);
    } else {
        let head = s.drop_last();
        assert(forall|i: int| 0 <= i < head.len() ==> pred(#[trigger] head[i]));
        lemma_filter_all_kept(head, pred);
        assert(pred(s.last()));
        assert(s.filter(pred) =~= s);
    }
}

/// No reserved character survives sanitization: every character of
/// `sanitize_spec(s)` is one of the kept (non-reserved) characters of `s`.
pub proof fn lemma_sanitize_no_reserved(s: Seq<char>)
    ensures
        forall|i: int|
            0 <= i < sanitize_spec(s).len() ==> !is_reserved_char(#[trigger] sanitize_spec(s)[i]),
{
    broadcast use vstd::seq_lib::group_filter_ensures;

}

/// Sanitization is idempotent: a string with its reserved characters
/// already removed is left exactly as it is.
pub proof fn lemma_sanitize_idempotent(s: Seq<char>)
    ensures
        sanitize_spec(sanitize_spec(s)) == sanitize_spec(s),
{
    let pred = |c: char| !is_reserved_char(c);
    lemma_sanitize_no_reserved(s);
    lemma_filter_all_kept(sanitize_spec(s), pred);
}

} // verus!
