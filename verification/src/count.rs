//! Counting a token in a text, and when the count of a text made of parts is
//! the sum of the counts of its parts.

use vstd::prelude::*;
use crate::text::{contains, occurs_at};

verus! {

/// How often `needle` stands in `hay`, counted by the positions at which it
/// begins.
pub open spec fn count(hay: Seq<char>, needle: Seq<char>) -> nat
    decreases hay.len(),
{
    if hay.len() == 0 || hay.len() < needle.len() {
        0
    } else {
        (if occurs_at(hay, needle, 0) {
            1nat
        } else {
            0nat
        }) + count(hay.drop_first(), needle)
    }
}

/// Whether no occurrence of `needle` in `left + right` begins in `left` and
/// ends in `right`.
pub open spec fn apart(left: Seq<char>, right: Seq<char>, needle: Seq<char>) -> bool {
    forall|at: int|
        0 <= at < left.len() && at + needle.len() > left.len() ==> !#[trigger] occurs_at(
            left + right,
            needle,
            at,
        )
}

/// Whether `needle` cannot run into a text that begins as `right` does:
/// `right` is empty, or its first character is none of those that follow the
/// first character of `needle`.
pub open spec fn closed_to(needle: Seq<char>, right: Seq<char>) -> bool {
    right.len() == 0 || forall|j: int| 1 <= j < needle.len() ==> #[trigger] needle[j] != right[0]
}

/// Whether `needle` cannot begin in `left` and run beyond it: no end of
/// `left` is a proper beginning of `needle`.
pub open spec fn closed_from(left: Seq<char>, needle: Seq<char>) -> bool {
    forall|at: int|
        0 <= at < left.len() && left.len() - at < needle.len() ==> #[trigger] left.subrange(
            at,
            left.len() as int,
        ) != needle.subrange(0, left.len() - at)
}

/// A text in which the needle stands nowhere counts none.
pub proof fn lemma_count_none(hay: Seq<char>, needle: Seq<char>)
    requires
        !contains(hay, needle),
    ensures
        count(hay, needle) == 0,
    decreases hay.len(),
{
    if !(hay.len() == 0 || hay.len() < needle.len()) {
        let rest = hay.drop_first();
        assert(!contains(rest, needle)) by {
            if contains(rest, needle) {
                let at = choose|at: int| occurs_at(rest, needle, at);
                assert(hay.subrange(at + 1, at + 1 + needle.len()) == rest.subrange(
                    at,
                    at + needle.len(),
                ));
                assert(occurs_at(hay, needle, at + 1));
            }
        }
        lemma_count_none(rest, needle);
    }
}

/// A text that counts none holds the needle nowhere.
pub proof fn lemma_none_counted(hay: Seq<char>, needle: Seq<char>)
    requires
        needle.len() > 0,
        count(hay, needle) == 0,
    ensures
        !contains(hay, needle),
    decreases hay.len(),
{
    if hay.len() == 0 || hay.len() < needle.len() {
    } else {
        let rest = hay.drop_first();
        lemma_none_counted(rest, needle);
        if contains(hay, needle) {
            let at = choose|at: int| occurs_at(hay, needle, at);
            assert(at > 0);
            assert(rest.subrange(at - 1, at - 1 + needle.len()) == hay.subrange(
                at,
                at + needle.len(),
            ));
            assert(occurs_at(rest, needle, at - 1));
        }
    }
}

/// Where no occurrence reaches from the left part into the right part, the
/// count of the whole is the sum of the counts of the parts.
pub proof fn lemma_count_of_parts(left: Seq<char>, right: Seq<char>, needle: Seq<char>)
    requires
        needle.len() > 0,
        apart(left, right, needle),
    ensures
        count(left + right, needle) == count(left, needle) + count(right, needle),
    decreases left.len(),
{
    let all = left + right;
    if left.len() == 0 {
        assert(all == right);
    } else {
        let rest = left.drop_first();
        assert(all.drop_first() == rest + right);
        assert(apart(rest, right, needle)) by {
            assert forall|at: int|
                0 <= at < rest.len() && at + needle.len() > rest.len() implies !#[trigger] occurs_at(
                rest + right,
                needle,
                at,
            ) by {
                if occurs_at(rest + right, needle, at) {
                    assert(all.subrange(at + 1, at + 1 + needle.len()) == (rest + right).subrange(
                        at,
                        at + needle.len(),
                    ));
                    assert(occurs_at(all, needle, at + 1));
                }
            }
        }
        lemma_count_of_parts(rest, right, needle);
        if left.len() < needle.len() {
            assert(!occurs_at(all, needle, 0));
            assert(count(left, needle) == 0);
            if rest.len() > 0 {
                assert(count(rest, needle) == 0);
            } else {
                assert(count(rest, needle) == 0);
            }
        } else {
            assert(all.subrange(0, needle.len() as int) == left.subrange(0, needle.len() as int));
        }
    }
}

/// No occurrence reaches into a right part that the needle is closed to.
pub proof fn lemma_apart_by_right(left: Seq<char>, right: Seq<char>, needle: Seq<char>)
    requires
        closed_to(needle, right),
    ensures
        apart(left, right, needle),
{
    let all = left + right;
    assert forall|at: int|
        0 <= at < left.len() && at + needle.len() > left.len() implies !#[trigger] occurs_at(
        all,
        needle,
        at,
    ) by {
        if occurs_at(all, needle, at) {
            let j = left.len() - at;
            assert(right.len() > 0);
            assert(all.subrange(at, at + needle.len())[j] == all[left.len() as int]);
            assert(needle[j] == right[0]);
        }
    }
}

/// No occurrence reaches beyond a left part that is closed from the needle.
pub proof fn lemma_apart_by_left(left: Seq<char>, right: Seq<char>, needle: Seq<char>)
    requires
        closed_from(left, needle),
    ensures
        apart(left, right, needle),
{
    let all = left + right;
    assert forall|at: int|
        0 <= at < left.len() && at + needle.len() > left.len() implies !#[trigger] occurs_at(
        all,
        needle,
        at,
    ) by {
        if occurs_at(all, needle, at) {
            let within = all.subrange(at, at + needle.len());
            assert(within.subrange(0, left.len() - at) == left.subrange(at, left.len() as int));
            assert(left.subrange(at, left.len() as int) != needle.subrange(0, left.len() - at));
        }
    }
}

/// A text that holds the needle at one position at most counts one where
/// the needle stands there, and none otherwise.
pub proof fn lemma_count_at_most_once(hay: Seq<char>, needle: Seq<char>, at: int)
    requires
        needle.len() > 0,
        forall|i: int| occurs_at(hay, needle, i) ==> i == at,
    ensures
        count(hay, needle) == if occurs_at(hay, needle, at) {
            1nat
        } else {
            0nat
        },
{
    if occurs_at(hay, needle, at) {
        let left = hay.subrange(0, at);
        let right = hay.subrange(at, hay.len() as int);
        assert(hay == left + right);
        assert(!contains(left, needle)) by {
            if contains(left, needle) {
                let i = choose|i: int| occurs_at(left, needle, i);
                assert(hay.subrange(i, i + needle.len()) == left.subrange(i, i + needle.len()));
                assert(occurs_at(hay, needle, i));
            }
        }
        lemma_count_none(left, needle);
        let rest = right.drop_first();
        assert(!contains(rest, needle)) by {
            if contains(rest, needle) {
                let i = choose|i: int| occurs_at(rest, needle, i);
                assert(hay.subrange(at + 1 + i, at + 1 + i + needle.len()) == rest.subrange(
                    i,
                    i + needle.len(),
                ));
                assert(occurs_at(hay, needle, at + 1 + i));
            }
        }
        lemma_count_none(rest, needle);
        assert(right.subrange(0, needle.len() as int) == hay.subrange(at, at + needle.len()));
        assert(occurs_at(right, needle, 0));
        assert(apart(left, right, needle)) by {
            assert forall|i: int|
                0 <= i < left.len() && i + needle.len() > left.len() implies !#[trigger] occurs_at(
                left + right,
                needle,
                i,
            ) by {
                if occurs_at(hay, needle, i) {
                    assert(i == at);
                }
            }
        }
        lemma_count_of_parts(left, right, needle);
    } else {
        assert(!contains(hay, needle)) by {
            if contains(hay, needle) {
                let i = choose|i: int| occurs_at(hay, needle, i);
                assert(i == at);
            }
        }
        lemma_count_none(hay, needle);
    }
}

/// Whether what stands in `marker` from the position `at` on differs from
/// `needle` within the first `reach` characters.
pub open spec fn differs_within(marker: Seq<char>, needle: Seq<char>, at: int, reach: nat) -> bool
    decreases reach,
{
    reach > 0 && (differs_within(marker, needle, at, (reach - 1) as nat) || (reach - 1
        < needle.len() && at + reach - 1 < marker.len() && marker[at + reach - 1] != needle[reach
        - 1]))
}

/// Where a text differs from the needle within some reach, it differs from it
/// at a position that lies in both.
pub proof fn lemma_differs_somewhere(marker: Seq<char>, needle: Seq<char>, at: int, reach: nat)
    requires
        differs_within(marker, needle, at, reach),
    ensures
        exists|k: int|
            0 <= k < needle.len() && at + k < marker.len() && marker[at + k] != needle[k],
    decreases reach,
{
    if reach > 0 {
        if differs_within(marker, needle, at, (reach - 1) as nat) {
            lemma_differs_somewhere(marker, needle, at, (reach - 1) as nat);
        } else {
            let k = reach - 1;
            assert(0 <= k < needle.len() && at + k < marker.len() && marker[at + k] != needle[k]);
        }
    }
}

/// A marker that differs early from the needle at every position but one
/// holds the needle at that position at most, and no end of the marker is a
/// proper beginning of the needle. `at` is negative where the needle stands
/// nowhere in the marker.
pub proof fn lemma_token_in_marker(marker: Seq<char>, needle: Seq<char>, at: int, reach: nat)
    requires
        needle.len() > 0,
        forall|i: int|
            0 <= i < marker.len() && i != at ==> #[trigger] differs_within(
                marker,
                needle,
                i,
                reach,
            ),
        0 <= at ==> occurs_at(marker, needle, at),
    ensures
        closed_from(marker, needle),
        count(marker, needle) == if 0 <= at {
            1nat
        } else {
            0nat
        },
{
    assert forall|i: int| occurs_at(marker, needle, i) implies i == at by {
        if i != at {
            if i < marker.len() {
                lemma_differs_somewhere(marker, needle, i, reach);
                let k = choose|k: int|
                    0 <= k < needle.len() && i + k < marker.len() && marker[i + k] != needle[k];
                assert(marker.subrange(i, i + needle.len())[k] == marker[i + k]);
            }
        }
    }
    lemma_count_at_most_once(marker, needle, at);
    assert forall|i: int|
        0 <= i < marker.len() && marker.len() - i < needle.len() implies #[trigger] marker.subrange(
        i,
        marker.len() as int,
    ) != needle.subrange(0, marker.len() - i) by {
        assert(i != at);
        lemma_differs_somewhere(marker, needle, i, reach);
        let k = choose|k: int|
            0 <= k < needle.len() && i + k < marker.len() && marker[i + k] != needle[k];
        assert(marker.subrange(i, marker.len() as int)[k] == marker[i + k]);
        assert(needle.subrange(0, marker.len() - i)[k] == needle[k]);
    }
}

} // verus!
