//! The scheme set: which URL schemes the relay accepts.
//!
//! The host configuration may carry a list of scheme strings. Blank entries
//! (empty or all-whitespace) are discarded; a missing or malformed
//! configuration yields the empty set, which downstream means "accept all".

use vstd::prelude::*;
use vstd::string::*;

verus! {

/// The Unicode `White_Space` property of a character, as
/// `char::is_whitespace` decides it.
pub uninterp spec fn is_white_char(c: char) -> bool;

/// A string is blank when every one of its characters is whitespace.
/// In particular the empty string is blank.
pub open spec fn is_blank(s: Seq<char>) -> bool {
    forall|i: int| 0 <= i < s.len() ==> is_white_char(s[i])
}

/// The views of a sequence of strings.
pub open spec fn views(l: Seq<String>) -> Seq<Seq<char>> {
    l.map_values(|s: String| s@)
}

/// The scheme set loaded from a configuration that parsed to `entries`:
/// the entries that are not blank, in their original order. A configuration
/// that was absent or failed to parse arrives as `None` and yields the
/// empty set.
pub open spec fn scheme_set_of(entries: Option<Seq<Seq<char>>>) -> Seq<Seq<char>> {
    match entries {
        None => Seq::<Seq<char>>::empty(),
        Some(l) => l.filter(|s: Seq<char>| !is_blank(s)),
    }
}

/// The views of an optional list of strings.
pub open spec fn entry_views(entries: Option<Vec<String>>) -> Option<Seq<Seq<char>>> {
    match entries {
        None => None,
        Some(l) => Some(views(l@)),
    }
}

/// Relies on `char::is_whitespace` (std): whether a character has the
/// Unicode `White_Space` property is a function of the character alone.
#[verifier::external_body]
fn char_is_whitespace(c: char) -> (r: bool)
    ensures
        r == is_white_char(c),
{
    c.is_whitespace()
}

/// True exactly when every character of `s` is whitespace.
pub fn str_is_blank(s: &str) -> (r: bool)
    ensures
        r == is_blank(s@),
{
    let n: usize = s.unicode_len();
    let mut i: usize = 0;
    while i < n
        invariant
            0 <= i <= n,
            n == s@.len(),
            forall|j: int| 0 <= j < i ==> is_white_char(s@[j]),
        decreases n - i,
    {
        if !char_is_whitespace(s.get_char(i)) {
            return false;
        }
        i = i + 1;
    }
    true
}

/// The one-shot load of the scheme set. `entries` is what the host
/// configuration's scheme list parsed to: `None` when the configuration was
/// absent or malformed, `Some` of the listed strings otherwise. The result
/// keeps exactly the non-blank entries, in order; on `None` it is empty, so
/// a broken configuration fails open to "accept all".
pub fn configured_schemes(entries: Option<Vec<String>>) -> (r: Vec<String>)
    ensures
        views(r@) == scheme_set_of(entry_views(entries)),
{
    broadcast use vstd::seq_lib::group_filter_ensures;

    match entries {
        Option::None => Vec::new(),
        Option::Some(l) => {
            let mut r: Vec<String> = Vec::new();
            let mut i: usize = 0;
            while i < l.len()
                invariant
                    0 <= i <= l@.len(),
                    views(r@) == views(l@.take(i as int)).filter(|s: Seq<char>| !is_blank(s)),
                decreases l@.len() - i,
            {
                let entry = &l[i];
                proof {
                    assert(l@.take(i + 1) =~= l@.take(i as int).push(l@[i as int]));
                    assert(views(l@.take(i + 1)) =~= views(l@.take(i as int)).push(l@[i as int]@));
                }
                if !str_is_blank(entry.as_str()) {
                    r.push(entry.clone());
                }
                proof {
                    views(l@.take(i as int)).lemma_filter_push(
                        l@[i as int]@,
                        |s: Seq<char>| !is_blank(s),
                    );
                    assert(views(r@) =~= views(l@.take(i + 1)).filter(
                        |s: Seq<char>| !is_blank(s),
                    ));
                }
                i = i + 1;
            }
            proof {
                assert(l@.take(l@.len() as int) =~= l@);
            }
            r
        },
    }
}

} // verus!
