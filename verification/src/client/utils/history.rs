//! The entries that the application leaves in the browser's history.

use vstd::prelude::*;
use crate::text::starts_with;
use crate::text::strip_prefix;

verus! {

/// What every entry of the application begins with.
pub const HIST_GAME_PREFIX: &'static str = "ygame_";

/// What follows the prefix in the first entry of a visit.
pub const HIST_INIT_PREFIX: &'static str = "init_";

/// The entry of the history that the browser is at, as the application
/// takes it: an empty one is none.
pub fn get_current_hist_state(state: Option<String>) -> (r: Option<String>)
    ensures
        crate::text::text_of(r) == match crate::text::text_of(state) {
            Some(s) => if s.len() == 0 {
                None
            } else {
                Some(s)
            },
            None => None,
        },
{
    match state {
        Some(state) => {
            if state.as_str().unicode_len() == 0 {
                None
            } else {
                Some(state)
            }
        },
        None => None,
    }
}

/// Whether an entry of the history is the first entry of a visit of the
/// application.
pub fn is_first_game_state(state: &str) -> (r: bool)
    ensures
        r == (HIST_GAME_PREFIX@ + HIST_INIT_PREFIX@).is_prefix_of(state@),
{
    match strip_prefix(state, HIST_GAME_PREFIX) {
        None => {
            proof {
                lemma_prefix_of_prefix(HIST_GAME_PREFIX@, HIST_INIT_PREFIX@, state@);
            }
            false
        },
        Some(rest) => {
            let r = starts_with(rest.as_str(), HIST_INIT_PREFIX);
            proof {
                lemma_prefix_after_prefix(HIST_GAME_PREFIX@, HIST_INIT_PREFIX@, state@);
            }
            r
        },
    }
}

/// Whether an entry of the history is one of the application.
pub fn is_game_state(state: &str) -> (r: bool)
    ensures
        r == HIST_GAME_PREFIX@.is_prefix_of(state@),
{
    starts_with(state, HIST_GAME_PREFIX)
}

/// A text that does not begin with `a` does not begin with `a` followed by
/// `b`.
pub proof fn lemma_prefix_of_prefix(a: Seq<char>, b: Seq<char>, s: Seq<char>)
    requires
        !a.is_prefix_of(s),
    ensures
        !(a + b).is_prefix_of(s),
{
    if (a + b).is_prefix_of(s) {
        assert(a =~= s.subrange(0, a.len() as int)) by {
            assert forall|i: int| 0 <= i < a.len() implies a[i] == s[i] by {
                assert((a + b)[i] == s.subrange(0, (a + b).len() as int)[i]);
            }
        }
    }
}

/// A text that begins with `a` begins with `a` followed by `b` exactly if
/// what follows `a` in it begins with `b`.
pub proof fn lemma_prefix_after_prefix(a: Seq<char>, b: Seq<char>, s: Seq<char>)
    requires
        a.is_prefix_of(s),
    ensures
        (a + b).is_prefix_of(s) == b.is_prefix_of(s.skip(a.len() as int)),
{
    let rest = s.skip(a.len() as int);
    if (a + b).is_prefix_of(s) {
        assert(b =~= rest.subrange(0, b.len() as int)) by {
            assert forall|i: int| 0 <= i < b.len() implies b[i] == rest[i] by {
                assert((a + b)[a.len() + i] == s.subrange(0, (a + b).len() as int)[a.len() + i]);
            }
        }
    }
    if b.is_prefix_of(rest) {
        assert((a + b) =~= s.subrange(0, (a + b).len() as int)) by {
            assert forall|i: int| 0 <= i < (a + b).len() implies (a + b)[i] == s[i] by {
                if i < a.len() {
                    assert(a[i] == s.subrange(0, a.len() as int)[i]);
                } else {
                    assert(b[i - a.len()] == rest.subrange(0, b.len() as int)[i - a.len()]);
                }
            }
        }
    }
}

} // verus!
