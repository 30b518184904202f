//! Ordering of the room list.
use crate::builders::pairwise_disjoint;
use crate::rect::MapRect;
use vstd::prelude::*;

verus! {

/// Which room comes first.
#[derive(PartialEq, Eq, Structural, Clone, Copy, Debug)]
pub enum RoomSort {
    Leftmost,
    Rightmost,
    Topmost,
    Bottommost,
}

/// The key that the rooms are sorted on, smallest first: the left or top
/// edge, or the right or bottom edge negated.
pub open spec fn sort_key(by: RoomSort, r: MapRect) -> int {
    match by {
        RoomSort::Leftmost => r.x1 as int,
        RoomSort::Rightmost => -(r.x2 as int),
        RoomSort::Topmost => r.y1 as int,
        RoomSort::Bottommost => -(r.y2 as int),
    }
}

/// The rooms are in order of their keys.
pub open spec fn sorted_by(by: RoomSort, rooms: Seq<MapRect>) -> bool {
    forall|i: int, j: int|
        0 <= i < j < rooms.len() ==> sort_key(by, #[trigger] rooms[i]) <= sort_key(
            by,
            #[trigger] rooms[j],
        )
}

fn key_of(by: RoomSort, r: &MapRect) -> (k: i64)
    ensures
        k == sort_key(by, *r),
{
    match by {
        RoomSort::Leftmost => r.x1 as i64,
        RoomSort::Rightmost => -(r.x2 as i64),
        RoomSort::Topmost => r.y1 as i64,
        RoomSort::Bottommost => -(r.y2 as i64),
    }
}

/// The rooms sorted on their keys; rooms of equal key keep their order. The
/// result holds the same rooms, and no two of them overlap where no two of
/// the input did.
pub fn sort_rooms(rooms: &Vec<MapRect>, by: RoomSort) -> (r: Vec<MapRect>)
    ensures
        sorted_by(by, r@),
        r@.to_multiset() == rooms@.to_multiset(),
        r@.len() == rooms@.len(),
        forall|i: int| 0 <= i < r@.len() ==> rooms@.contains(#[trigger] r@[i]),
        pairwise_disjoint(rooms@) ==> pairwise_disjoint(r@),
{
    broadcast use vstd::seq_lib::group_to_multiset_ensures;

    let mut out: Vec<MapRect> = Vec::new();
    let mut k: usize = 0;
    while k < rooms.len()
        invariant
            k <= rooms@.len(),
            sorted_by(by, out@),
            out@.to_multiset() == rooms@.subrange(0, k as int).to_multiset(),
            out@.len() == k,
            forall|i: int|
                0 <= i < out@.len() ==> exists|m: int|
                    0 <= m < k && #[trigger] out@[i] == rooms@[m],
            pairwise_disjoint(rooms@) ==> pairwise_disjoint(out@),
        decreases rooms@.len() - k,
    {
        let x = rooms[k];
        let kx = key_of(by, &x);
        let mut pos: usize = 0;
        while pos < out.len() && key_of(by, &out[pos]) <= kx
            invariant
                pos <= out@.len(),
                forall|i: int| 0 <= i < pos ==> sort_key(by, #[trigger] out@[i]) <= kx,
            decreases out@.len() - pos,
        {
            pos += 1;
        }
        let ghost before = out@;
        out.insert(pos, x);
        proof {
            assert(rooms@.subrange(0, k as int + 1) == rooms@.subrange(0, k as int).push(x));
            assert(out@ == before.insert(pos as int, x));
            vstd::seq_lib::to_multiset_insert(before, pos as int, x);
            vstd::seq_lib::to_multiset_build(rooms@.subrange(0, k as int), x);
            assert(out@.to_multiset() == before.to_multiset().insert(x));
            assert(rooms@.subrange(0, k as int).push(x).to_multiset() == rooms@.subrange(
                0,
                k as int,
            ).to_multiset().insert(x));
            assert forall|i: int| 0 <= i < out@.len() implies exists|m: int|
                0 <= m < k + 1 && #[trigger] out@[i] == rooms@[m] by {
                if i < pos {
                    assert(out@[i] == before[i]);
                } else if i == pos {
                    assert(out@[i] == rooms@[k as int]);
                } else {
                    assert(out@[i] == before[i - 1]);
                }
            }
            assert forall|i: int, j: int| 0 <= i < j < out@.len() implies sort_key(
                by,
                #[trigger] out@[i],
            ) <= sort_key(by, #[trigger] out@[j]) by {
                if j < pos {
                } else if j == pos {
                } else if i < pos {
                    assert(sort_key(by, before[j - 1]) > kx || j - 1 >= pos);
                    if pos < before.len() {
                        assert(sort_key(by, before[pos as int]) > kx);
                        assert(sort_key(by, before[pos as int]) <= sort_key(by, before[j - 1]));
                    }
                } else if i == pos {
                    if pos < before.len() {
                        assert(sort_key(by, before[pos as int]) > kx);
                        assert(sort_key(by, before[pos as int]) <= sort_key(by, before[j - 1]));
                    }
                } else {
                }
            }
            if pairwise_disjoint(rooms@) {
                assert forall|i: int, j: int|
                    0 <= i < out@.len() && 0 <= j < out@.len() && i != j implies !(
                    #[trigger] out@[i]).overlaps(#[trigger] out@[j]) by {
                    if i == pos || j == pos {
                        let o = if i == pos { j } else { i };
                        let bo = if o < pos { o } else { o - 1 };
                        assert(out@[o] == before[bo]);
                        let m = choose|m: int| 0 <= m < k && #[trigger] before[bo] == rooms@[m];
                        assert(out@[o] == rooms@[m]);
                        assert(!rooms@[m].overlaps(rooms@[k as int]));
                        assert(!rooms@[k as int].overlaps(rooms@[m]));
                    } else {
                        let bi = if i < pos { i } else { i - 1 };
                        let bj = if j < pos { j } else { j - 1 };
                        assert(out@[i] == before[bi]);
                        assert(out@[j] == before[bj]);
                    }
                }
            }
        }
        k += 1;
    }
    proof {
        assert(rooms@.subrange(0, rooms@.len() as int) == rooms@);
        assert forall|i: int| 0 <= i < out@.len() implies rooms@.contains(#[trigger] out@[i]) by {
            let m = choose|m: int| 0 <= m < rooms@.len() && #[trigger] out@[i] == rooms@[m];
        }
    }
    out
}

} // verus!
