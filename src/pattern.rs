//! Wildcard patterns: `*` stands for any run of characters, `?` for exactly one character, and
//! every other character for itself.

use vstd::prelude::*;

verus! {

/// True when pattern `p` covers the whole of `s`.
pub open spec fn wild_match(p: Seq<char>, s: Seq<char>) -> bool
    decreases p.len() + s.len(),
{
    if p.len() == 0 {
        s.len() == 0
    } else if p[0] == '*' {
        wild_match(p.drop_first(), s) || (s.len() > 0 && wild_match(p, s.drop_first()))
    } else {
        s.len() > 0 && (p[0] == '?' || p[0] == s[0]) && wild_match(p.drop_first(), s.drop_first())
    }
}

/// True when `p` holds neither `*` nor `?`.
pub open spec fn is_plain(p: Seq<char>) -> bool {
    !p.contains('*') && !p.contains('?')
}

/// A pattern without wildcards matches exactly the identical string: no prefix, no longer path,
/// nothing else.
pub proof fn lemma_plain_pattern_matches_only_itself(p: Seq<char>, s: Seq<char>)
    requires
        is_plain(p),
    ensures
        wild_match(p, s) <==> p == s,
    decreases p.len(),
{
    if p.len() > 0 {
        assert(p[0] != '*' && p[0] != '?') by {
            assert(p.contains(p[0]));
        }
        let t = p.drop_first();
        assert(is_plain(t)) by {
            if t.contains('*') {
                let k: int = choose|k: int| 0 <= k < t.len() && t[k] == '*';
                assert(p[k + 1] == '*');
            }
            if t.contains('?') {
                let k: int = choose|k: int| 0 <= k < t.len() && t[k] == '?';
                assert(p[k + 1] == '?');
            }
        }
        if s.len() > 0 {
            lemma_plain_pattern_matches_only_itself(t, s.drop_first());
            if p == s {
                assert(t == s.drop_first());
            }
            if p[0] == s[0] && t == s.drop_first() {
                assert forall|k: int| 0 <= k < p.len() implies p[k] == s[k] by {
                    if k > 0 {
                        assert(p[k] == t[k - 1]);
                        assert(s[k] == s.drop_first()[k - 1]);
                    }
                }
                assert(p =~= s);
            }
        }
    } else {
        if s.len() == 0 {
            assert(p =~= s);
        }
    }
}

/// Relies on `wildmatch::WildMatch::new` and `WildMatch::matches`, case-sensitive: `?` matches
/// exactly one character, `*` any number of characters (none included), and the pattern must
/// match the entire input.
#[verifier::external_body]
pub(crate) fn wildmatch(pattern: &str, text: &str) -> (r: bool)
    ensures
        r == wild_match(pattern@, text@),
{
    wildmatch::WildMatch::new(pattern).matches(text)
}

} // verus!
