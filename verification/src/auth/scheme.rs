//! The scheme that a bearer token claims by the tag in front of its first
//! delimiter.

use crate::text::prefix_is;
use vstd::prelude::*;
use vstd::string::*;

verus! {

/// An identity provider outside this system.
#[derive(Clone, Copy, Debug, PartialEq, Eq, Structural)]
pub enum AuthProvider {
    GitHub,
}

/// A family of bearer tokens, and with it the way such a token is checked.
#[derive(Clone, Copy, Debug, PartialEq, Eq, Structural)]
pub enum Scheme {
    /// A session issued by this system.
    Session,
    /// A token issued by an identity provider.
    Provider(AuthProvider),
}

/// The character that ends a token's tag.
pub const DELIMITER: char = '_';

/// No registered tag is longer than this many characters.
pub const LONGEST_TAG: usize = 6;

/// The table of registered tags. One provider may own several tags, so that
/// tokens of an older format keep their route.
pub open spec fn scheme_of_tag(tag: Seq<char>) -> Option<Scheme> {
    if tag == "mra"@ {
        Some(Scheme::Session)
    } else if tag == "github"@ || tag == "gho"@ || tag == "ghp"@ {
        Some(Scheme::Provider(AuthProvider::GitHub))
    } else {
        None
    }
}

/// `k` is the place of the first delimiter in `text`.
pub open spec fn is_first_delimiter(text: Seq<char>, k: int) -> bool {
    &&& 0 <= k < text.len()
    &&& text[k] == DELIMITER
    &&& forall|j: int| 0 <= j < k ==> text[j] != DELIMITER
}

/// The scheme that a token claims: the one registered for the characters in
/// front of its first delimiter. A token without a delimiter claims none.
pub open spec fn scheme_of(text: Seq<char>) -> Option<Scheme> {
    if exists|k: int| is_first_delimiter(text, k) {
        scheme_of_tag(text.subrange(0, choose|k: int| is_first_delimiter(text, k)))
    } else {
        None
    }
}

/// A text has at most one first delimiter.
pub proof fn lemma_first_delimiter_unique(text: Seq<char>, a: int, b: int)
    requires
        is_first_delimiter(text, a),
        is_first_delimiter(text, b),
    ensures
        a == b,
{
    if a < b {
        assert(text[a] != DELIMITER);
    } else if b < a {
        assert(text[b] != DELIMITER);
    }
}

/// The scheme of a token whose first delimiter stands at `k` is the one
/// registered for the `k` characters in front of it.
pub proof fn lemma_scheme_at_first_delimiter(text: Seq<char>, k: int)
    requires
        is_first_delimiter(text, k),
    ensures
        scheme_of(text) == scheme_of_tag(text.subrange(0, k)),
{
    lemma_first_delimiter_unique(text, k, choose|c: int| is_first_delimiter(text, c));
}

/// A token without a delimiter claims no scheme.
pub proof fn lemma_no_delimiter_no_scheme(text: Seq<char>)
    requires
        forall|j: int| 0 <= j < text.len() ==> text[j] != DELIMITER,
    ensures
        scheme_of(text) is None,
{
}

/// Every registered tag has at most `LONGEST_TAG` characters.
pub proof fn lemma_registered_tags_are_short(tag: Seq<char>)
    requires
        scheme_of_tag(tag) is Some,
    ensures
        tag.len() <= LONGEST_TAG,
{
    reveal_strlit("mra");
    reveal_strlit("github");
    reveal_strlit("gho");
    reveal_strlit("ghp");
}

/// Looks for the first delimiter among the first `limit` characters.
fn find_delimiter(token: &str, limit: usize) -> (found: Option<usize>)
    requires
        limit <= token@.len(),
    ensures
        match found {
            Some(k) => k < limit && is_first_delimiter(token@, k as int),
            None => forall|j: int| 0 <= j < limit ==> token@[j] != DELIMITER,
        },
{
    let mut k: usize = 0;
    while k < limit
        invariant
            k <= limit,
            limit <= token@.len(),
            forall|j: int| 0 <= j < k ==> token@[j] != DELIMITER,
        decreases limit - k,
    {
        if token.get_char(k) == DELIMITER {
            return Some(k);
        }
        k += 1;
    }
    None
}

/// Reads the registered tag table for the first `len` characters of `token`.
fn scheme_of_prefix(token: &str, len: usize) -> (scheme: Option<Scheme>)
    requires
        len <= token@.len(),
    ensures
        scheme == scheme_of_tag(token@.subrange(0, len as int)),
{
    if prefix_is(token, len, "mra") {
        Some(Scheme::Session)
    } else if prefix_is(token, len, "github") || prefix_is(token, len, "gho") || prefix_is(
        token,
        len,
        "ghp",
    ) {
        Some(Scheme::Provider(AuthProvider::GitHub))
    } else {
        None
    }
}

impl Scheme {
    /// Finds the scheme that `token` claims. Only the start of the token is
    /// read: a tag longer than every registered one cannot be registered.
    pub fn of_token(token: &str) -> (scheme: Option<Scheme>)
        ensures
            scheme == scheme_of(token@),
    {
        let len = token.unicode_len();
        let limit = if len <= LONGEST_TAG {
            len
        } else {
            LONGEST_TAG + 1
        };
        match find_delimiter(token, limit) {
            Some(k) => {
                proof {
                    lemma_scheme_at_first_delimiter(token@, k as int);
                }
                scheme_of_prefix(token, k)
            },
            None => {
                proof {
                    if exists|c: int| is_first_delimiter(token@, c) {
                        let c = choose|c: int| is_first_delimiter(token@, c);
                        assert(c >= limit);
                        assert(token@.subrange(0, c).len() == c);
                        if scheme_of_tag(token@.subrange(0, c)) is Some {
                            lemma_registered_tags_are_short(token@.subrange(0, c));
                        }
                    }
                }
                None
            },
        }
    }
}

} // verus!
