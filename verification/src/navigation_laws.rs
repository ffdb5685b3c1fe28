//! Laws of the search for bookmarks.

use crate::navigation::{bookmark_ahead, bookmark_behind};
use vstd::arithmetic::div_mod::{lemma_mod_add_multiples_vanish, lemma_small_mod};
use vstd::prelude::*;

verus! {

/// The place reached from `start` after `k` steps forward, round a catalog
/// of `len` albums.
pub open spec fn ahead(start: int, k: int, len: int) -> int {
    (start + k) % len
}

/// The place reached from `start` after `k` steps backward, round a catalog
/// of `len` albums.
pub open spec fn behind(start: int, k: int, len: int) -> int {
    (start + len - k) % len
}

/// What the forward search finds is bookmarked and is the first such place
/// on the way; where it finds nothing, no place on the way is bookmarked.
pub proof fn lemma_bookmark_ahead(marks: Seq<bool>, start: int, offset: int)
    requires
        0 <= start,
        1 <= offset,
    ensures
        match bookmark_ahead(marks, start, offset) {
            Some(found) => 0 <= found < marks.len() && marks[found] && exists|k: int|
                offset <= k <= marks.len() && found == #[trigger] ahead(
                    start,
                    k,
                    marks.len() as int,
                ) && forall|m: int|
                    offset <= m < k ==> !marks[#[trigger] ahead(start, m, marks.len() as int)],
            None => forall|m: int|
                offset <= m <= marks.len() ==> !marks[#[trigger] ahead(
                    start,
                    m,
                    marks.len() as int,
                )],
        },
    decreases marks.len() - offset + 1,
{
    let len = marks.len() as int;
    if offset <= len {
        if marks[ahead(start, offset, len)] {
            assert(offset <= offset <= len && ahead(start, offset, len) == ahead(
                start,
                offset,
                len,
            ));
        } else {
            lemma_bookmark_ahead(marks, start, offset + 1);
            match bookmark_ahead(marks, start, offset + 1) {
                Some(found) => {
                    let k = choose|k: int|
                        offset + 1 <= k <= len && found == #[trigger] ahead(start, k, len)
                            && forall|m: int|
                            offset + 1 <= m < k ==> !marks[#[trigger] ahead(start, m, len)];
                    assert(offset <= k <= len && found == ahead(start, k, len));
                },
                None => {},
            }
        }
    }
}

/// What the backward search finds is bookmarked and is the first such place
/// on the way; where it finds nothing, no place on the way is bookmarked.
pub proof fn lemma_bookmark_behind(marks: Seq<bool>, start: int, offset: int)
    requires
        0 <= start,
        1 <= offset,
    ensures
        match bookmark_behind(marks, start, offset) {
            Some(found) => 0 <= found < marks.len() && marks[found] && exists|k: int|
                offset <= k <= marks.len() && found == #[trigger] behind(
                    start,
                    k,
                    marks.len() as int,
                ) && forall|m: int|
                    offset <= m < k ==> !marks[#[trigger] behind(start, m, marks.len() as int)],
            None => forall|m: int|
                offset <= m <= marks.len() ==> !marks[#[trigger] behind(
                    start,
                    m,
                    marks.len() as int,
                )],
        },
    decreases marks.len() - offset + 1,
{
    let len = marks.len() as int;
    if offset <= len {
        if marks[behind(start, offset, len)] {
            assert(offset <= offset <= len && behind(start, offset, len) == behind(
                start,
                offset,
                len,
            ));
        } else {
            lemma_bookmark_behind(marks, start, offset + 1);
            match bookmark_behind(marks, start, offset + 1) {
                Some(found) => {
                    let k = choose|k: int|
                        offset + 1 <= k <= len && found == #[trigger] behind(start, k, len)
                            && forall|m: int|
                            offset + 1 <= m < k ==> !marks[#[trigger] behind(start, m, len)];
                    assert(offset <= k <= len && found == behind(start, k, len));
                },
                None => {},
            }
        }
    }
}

/// One round forward from `start` passes every place of the catalog.
pub proof fn lemma_round_ahead_reaches(start: int, place: int, len: int)
    requires
        0 <= start < len,
        0 <= place < len,
    ensures
        exists|k: int| 1 <= k <= len && #[trigger] ahead(start, k, len) == place,
{
    let k = if place > start {
        place - start
    } else {
        place - start + len
    };
    if place > start {
        lemma_small_mod(place as nat, len as nat);
    } else {
        lemma_mod_add_multiples_vanish(place, len);
        lemma_small_mod(place as nat, len as nat);
        assert(start + k == len + place);
    }
    assert(1 <= k <= len && ahead(start, k, len) == place);
}

/// One round backward from `start` passes every place of the catalog.
pub proof fn lemma_round_behind_reaches(start: int, place: int, len: int)
    requires
        0 <= start < len,
        0 <= place < len,
    ensures
        exists|k: int| 1 <= k <= len && #[trigger] behind(start, k, len) == place,
{
    let k = if place < start {
        start - place
    } else {
        start - place + len
    };
    if place < start {
        lemma_mod_add_multiples_vanish(place, len);
        lemma_small_mod(place as nat, len as nat);
        assert(start + len - k == len + place);
    } else {
        lemma_small_mod(place as nat, len as nat);
        assert(start + len - k == place);
    }
    assert(1 <= k <= len && behind(start, k, len) == place);
}

/// The search gives up only where no album is bookmarked: after a full round
/// in either direction every album has been looked at.
pub proof fn lemma_search_fails_only_without_bookmarks(marks: Seq<bool>, start: int)
    requires
        0 <= start < marks.len(),
    ensures
        bookmark_ahead(marks, start, 1) is None <==> forall|i: int|
            0 <= i < marks.len() ==> !#[trigger] marks[i],
        bookmark_behind(marks, start, 1) is None <==> forall|i: int|
            0 <= i < marks.len() ==> !#[trigger] marks[i],
{
    let len = marks.len() as int;
    lemma_bookmark_ahead(marks, start, 1);
    lemma_bookmark_behind(marks, start, 1);
    if bookmark_ahead(marks, start, 1) is None {
        assert forall|i: int| 0 <= i < marks.len() implies !#[trigger] marks[i] by {
            lemma_round_ahead_reaches(start, i, len);
            let k = choose|k: int| 1 <= k <= len && #[trigger] ahead(start, k, len) == i;
            assert(!marks[ahead(start, k, len)]);
        }
    }
    if bookmark_behind(marks, start, 1) is None {
        assert forall|i: int| 0 <= i < marks.len() implies !#[trigger] marks[i] by {
            lemma_round_behind_reaches(start, i, len);
            let k = choose|k: int| 1 <= k <= len && #[trigger] behind(start, k, len) == i;
            assert(!marks[behind(start, k, len)]);
        }
    }
}

} // verus!
