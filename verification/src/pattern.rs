//! Service-name patterns: a literal name, or a literal prefix followed by
//! one `*`.

use vstd::prelude::*;
use vstd::string::*;
use crate::text::{
    bytes_agree, lemma_encoding_injective, lemma_prefix_by_bytes, lemma_trailing_star, STAR,
};

verus! {

/// Whether the pattern ends in `*`.
pub open spec fn is_wildcard(pattern: Seq<char>) -> bool {
    pattern.len() > 0 && pattern.last() == '*'
}

/// Whether `pattern` matches `name`.
///
/// A pattern that ends in `*` matches every name that begins with what
/// stands before that `*`; the pattern `*` alone therefore matches every
/// name. Any other pattern matches the name equal to it and no other. A `*`
/// anywhere but at the end is an ordinary character, and case counts.
pub open spec fn pattern_matches(pattern: Seq<char>, name: Seq<char>) -> bool {
    if is_wildcard(pattern) {
        pattern.drop_last().is_prefix_of(name)
    } else {
        pattern == name
    }
}

/// Whether `pattern` matches `name`.
pub fn matches_name(pattern: &str, name: &str) -> (r: bool)
    ensures
        r == pattern_matches(pattern@, name@),
{
    let p = pattern.as_bytes();
    let n = name.as_bytes();
    let k = p.len();
    proof {
        lemma_trailing_star(pattern@);
    }
    if k > 0 && p[k - 1] == STAR {
        let r = bytes_agree(n, p, k - 1);
        proof {
            lemma_prefix_by_bytes(pattern@.drop_last(), name@);
        }
        r
    } else {
        let r = n.len() == k && bytes_agree(n, p, k);
        proof {
            lemma_encoding_injective(pattern@, name@);
            assert(p@.subrange(0, k as int) =~= p@);
            if n@.len() == k {
                assert(n@.subrange(0, k as int) =~= n@);
            }
        }
        r
    }
}

/// The pattern `*` matches every name, the empty one too.
pub proof fn lemma_catch_all_matches_every_name(name: Seq<char>)
    ensures
        pattern_matches("*"@, name),
{
    reveal_strlit("*");
    assert("*"@.drop_last() =~= Seq::<char>::empty());
}

/// A pattern without a trailing `*` matches its own text and nothing else.
pub proof fn lemma_literal_matches_itself_only(pattern: Seq<char>, name: Seq<char>)
    requires
        !is_wildcard(pattern),
    ensures
        pattern_matches(pattern, name) <==> name == pattern,
{
}

/// A pattern with a trailing `*` matches exactly the names that consist of
/// its prefix and anything after it.
pub proof fn lemma_wildcard_matches_by_prefix(pattern: Seq<char>, name: Seq<char>)
    requires
        is_wildcard(pattern),
    ensures
        pattern_matches(pattern, name) <==> exists|rest: Seq<char>|
            name == pattern.drop_last() + rest,
{
    let prefix = pattern.drop_last();
    if pattern_matches(pattern, name) {
        let rest = name.subrange(prefix.len() as int, name.len() as int);
        assert(name =~= prefix + rest);
    }
    if exists|rest: Seq<char>| name == prefix + rest {
        let rest = choose|rest: Seq<char>| name == prefix + rest;
        assert(prefix =~= name.subrange(0, prefix.len() as int));
    }
}

} // verus!
