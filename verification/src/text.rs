//! Small questions about text.

use vstd::prelude::*;
use vstd::string::*;

verus! {

/// Whether `c` has the Unicode property White_Space.
pub open spec fn white_space(c: char) -> bool {
    ||| '\u{9}' <= c <= '\u{d}'
    ||| c == ' '
    ||| c == '\u{85}'
    ||| c == '\u{a0}'
    ||| c == '\u{1680}'
    ||| '\u{2000}' <= c <= '\u{200a}'
    ||| c == '\u{2028}'
    ||| c == '\u{2029}'
    ||| c == '\u{202f}'
    ||| c == '\u{205f}'
    ||| c == '\u{3000}'
}

/// Whether `s` is empty or holds white space only.
pub open spec fn blank(s: Seq<char>) -> bool {
    forall|i: int| 0 <= i < s.len() ==> white_space(#[trigger] s[i])
}

/// Whether `c` is a white space character.
pub fn is_white_space(c: char) -> (answer: bool)
    ensures
        answer == white_space(c),
{
    ('\u{9}' <= c && c <= '\u{d}') || c == ' ' || c == '\u{85}' || c == '\u{a0}' || c == '\u{1680}'
        || ('\u{2000}' <= c && c <= '\u{200a}') || c == '\u{2028}' || c == '\u{2029}' || c
        == '\u{202f}' || c == '\u{205f}' || c == '\u{3000}'
}

/// Whether nothing is left of `s` once it is trimmed of white space.
pub fn is_blank(s: &str) -> (answer: bool)
    ensures
        answer == blank(s@),
{
    let mut rest = s.chars();
    let ghost mut seen: int = 0;
    loop
        invariant
            0 <= seen <= s@.len(),
            vstd::std_specs::iter::IteratorSpec::remaining(&rest) == s@.skip(seen),
            forall|i: int| 0 <= i < seen ==> white_space(#[trigger] s@[i]),
        decreases s@.len() - seen,
    {
        match rest.next() {
            None => {
                return true;
            },
            Some(c) => {
                assert(c == s@[seen]);
                if !is_white_space(c) {
                    return false;
                }
                proof {
                    seen = seen + 1;
                }
            },
        }
    }
}

/// Whether `s` begins with `prefix`.
pub fn starts_with(s: &str, prefix: &str) -> (answer: bool)
    ensures
        answer == prefix@.is_prefix_of(s@),
{
    let mut rest = s.chars();
    let mut wanted = prefix.chars();
    let ghost mut seen: int = 0;
    loop
        invariant
            0 <= seen <= prefix@.len(),
            seen <= s@.len(),
            vstd::std_specs::iter::IteratorSpec::remaining(&rest) == s@.skip(seen),
            vstd::std_specs::iter::IteratorSpec::remaining(&wanted) == prefix@.skip(seen),
            prefix@.take(seen) == s@.take(seen),
        decreases prefix@.len() - seen,
    {
        match wanted.next() {
            None => {
                assert(prefix@ == prefix@.take(seen));
                return true;
            },
            Some(w) => {
                assert(w == prefix@[seen]);
                match rest.next() {
                    None => {
                        return false;
                    },
                    Some(c) => {
                        assert(c == s@[seen]);
                        if c != w {
                            assert(prefix@[seen] != s@.take(prefix@.len() as int)[seen]
                                || prefix@.len() > s@.len());
                            return false;
                        }
                        proof {
                            assert(prefix@.take(seen + 1) == prefix@.take(seen).push(w));
                            assert(s@.take(seen + 1) == s@.take(seen).push(c));
                            seen = seen + 1;
                        }
                    },
                }
            },
        }
    }
}

/// Writes `head` and `tail` one behind the other.
pub fn join(head: &str, tail: &str) -> (text: String)
    ensures
        text@ == head@ + tail@,
{
    let mut text: String = head.to_owned();
    text.append(tail);
    text
}

} // verus!
