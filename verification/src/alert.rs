//! The alert payload codec.
//!
//! An alert is marshalled to the host's main thread as a single string:
//! the title, a delimiter, and the message. The decoder splits at the
//! delimiter when it occurs exactly once and falls back to a default
//! title otherwise, so a payload that was not produced by the encoder
//! still surfaces whole.

use vstd::prelude::*;
use vstd::string::StringExecFns;
use vstd::string::StrSliceExecFns;
use crate::text::{contains_str, contains_sub, find_str, is_first_match, matches_at};

verus! {

/// The delimiter between title and message.
pub open spec fn delim() -> Seq<char> {
    "|||"@
}

/// Joins a title and a message into one payload.
pub fn encode_alert(title: &str, message: &str) -> (r: String)
    ensures
        r@ == title@ + delim() + message@,
{
    let mut s = String::from_str(title);
    s.append("|||");
    s.append(message);
    s
}

/// The decoder falls back to the default title exactly when the payload
/// does not consist of a title, one delimiter, and a delimiter-free
/// message.
pub open spec fn alert_fallback(s: Seq<char>) -> bool {
    forall|i: int|
        #[trigger] is_first_match(s, delim(), i) ==> contains_sub(
            s.subrange(i + 3, s.len() as int),
            delim(),
        )
}

/// Splits a payload back into title and message: at the delimiter when
/// it occurs exactly once, else the whole payload under the default
/// title.
pub fn decode_alert(s: &str) -> (r: (String, String))
    ensures
        forall|i: int|
            #[trigger] is_first_match(s@, delim(), i) && !contains_sub(
                s@.subrange(i + 3, s@.len() as int),
                delim(),
            ) ==> r.0@ == s@.subrange(0, i) && r.1@ == s@.subrange(i + 3, s@.len() as int),
        alert_fallback(s@) ==> r.0@ == "Hachimi"@ && r.1@ == s@,
{
    match find_str(s, "|||") {
        Option::Some(i) => {
            proof {
                reveal_strlit("|||");
            }
            let slen = s.unicode_len();
            proof {
                assert(is_first_match(s@, delim(), i as int));
                assert(delim().len() == 3);
                assert forall|j: int| #[trigger] is_first_match(s@, delim(), j) implies j
                    == i as int by {
                    if j < i as int {
                        assert(!is_first_match(s@, delim(), i as int));
                    }
                    if j > i as int {
                        assert(!is_first_match(s@, delim(), j));
                    }
                }
            }
            let rest = s.substring_char(i + 3, slen);
            if !contains_str(rest, "|||") {
                let head = s.substring_char(0, i);
                proof {
                    assert(rest@ == s@.subrange(i as int + 3, s@.len() as int));
                    assert(!contains_sub(s@.subrange(i as int + 3, s@.len() as int), delim()));
                    assert(!alert_fallback(s@));
                }
                (String::from_str(head), String::from_str(rest))
            } else {
                (String::from_str("Hachimi"), String::from_str(s))
            }
        },
        Option::None => (String::from_str("Hachimi"), String::from_str(s)),
    }
}

/// Law: a payload encoded from a title without pipe characters and a
/// message without the delimiter decodes back to exactly that title and
/// message — the delimiter's first occurrence in the payload is the one
/// the encoder wrote, and what follows it is the message unchanged.
pub proof fn lemma_alert_round_trip(t: Seq<char>, m: Seq<char>)
    requires
        forall|i: int| 0 <= i < t.len() ==> t[i] != '|',
        !contains_sub(m, delim()),
    ensures
        is_first_match(t + delim() + m, delim(), t.len() as int),
        (t + delim() + m).subrange(0, t.len() as int) == t,
        (t + delim() + m).subrange(t.len() as int + 3, (t + delim() + m).len() as int) == m,
        !contains_sub((t + delim() + m).subrange(t.len() as int + 3, (t + delim() + m).len() as int), delim()),
{
    reveal_strlit("|||");
    let s = t + delim() + m;
    assert(delim().len() == 3);
    assert(delim()[0] == '|');
    assert(s.subrange(t.len() as int, t.len() as int + 3) =~= delim());
    assert(matches_at(s, delim(), t.len() as int));
    assert forall|j: int| 0 <= j < t.len() implies !matches_at(s, delim(), j) by {
        if matches_at(s, delim(), j) {
            assert(s.subrange(j, j + 3)[0] == delim()[0]);
            assert(s[j] == '|');
            assert(s[j] == t[j]);
        }
    }
    assert(is_first_match(s, delim(), t.len() as int));
    assert(s.subrange(0, t.len() as int) =~= t);
    assert(s.subrange(t.len() as int + 3, s.len() as int) =~= m);
}

} // verus!
