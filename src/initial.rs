//! Initial stages: they give a fresh build context its rooms.
use crate::builders::{
    BuilderMap, center_inside, level_fits, pairwise_disjoint, room_inside,
};
use crate::rect::MapRect;
use crate::rng::{range, roll_dice, GameRng};
use vstd::prelude::*;

verus! {

/// How many candidate rooms the rooms stage draws.
pub const MAX_ROOMS: usize = 30;

/// The narrowest and widest candidate room.
pub const MIN_W: i32 = 3;

pub const MAX_W: i32 = 14;

/// The lowest and highest candidate room.
pub const MIN_H: i32 = 3;

pub const MAX_H: i32 = 10;

/// `r` overlaps none of `rooms`.
pub open spec fn clear_of(r: MapRect, rooms: Seq<MapRect>) -> bool {
    forall|k: int| 0 <= k < rooms.len() ==> !r.overlaps(#[trigger] rooms[k])
}

/// The rooms kept from the candidates, taken in order: a candidate is kept
/// when it overlaps none of the rooms kept before it.
pub open spec fn accepted(candidates: Seq<MapRect>) -> Seq<MapRect>
    decreases candidates.len(),
{
    if candidates.len() == 0 {
        Seq::empty()
    } else {
        let before = accepted(candidates.drop_last());
        if clear_of(candidates.last(), before) {
            before.push(candidates.last())
        } else {
            before
        }
    }
}

/// No two rooms kept from any list of candidates overlap.
pub proof fn lemma_accepted_disjoint(candidates: Seq<MapRect>)
    ensures
        pairwise_disjoint(accepted(candidates)),
    decreases candidates.len(),
{
    if candidates.len() > 0 {
        lemma_accepted_disjoint(candidates.drop_last());
        let before = accepted(candidates.drop_last());
        let c = candidates.last();
        if clear_of(c, before) {
            let after = before.push(c);
            assert forall|i: int, j: int|
                0 <= i < after.len() && 0 <= j < after.len() && i != j implies !(
                #[trigger] after[i]).overlaps(#[trigger] after[j]) by {
                if i == before.len() {
                    assert(!c.overlaps(before[j]));
                } else if j == before.len() {
                    assert(!c.overlaps(before[i]));
                }
            }
        }
    }
}

/// Every kept room is one of the candidates, and the first candidate is
/// always kept.
pub proof fn lemma_accepted_from(candidates: Seq<MapRect>)
    ensures
        forall|i: int|
            0 <= i < accepted(candidates).len() ==> candidates.contains(
                #[trigger] accepted(candidates)[i],
            ),
        accepted(candidates).len() <= candidates.len(),
        candidates.len() > 0 ==> accepted(candidates).len() > 0,
    decreases candidates.len(),
{
    if candidates.len() > 0 {
        let rest = candidates.drop_last();
        lemma_accepted_from(rest);
        let before = accepted(rest);
        assert forall|i: int| 0 <= i < accepted(candidates).len() implies candidates.contains(
            #[trigger] accepted(candidates)[i],
        ) by {
            if i < before.len() {
                let k = choose|k: int| 0 <= k < rest.len() && rest[k] == before[i];
                assert(candidates[k] == before[i]);
            } else {
                assert(candidates[candidates.len() - 1] == candidates.last());
            }
        }
        if rest.len() == 0 {
            assert(clear_of(candidates.last(), before));
        }
    }
}

/// Keeps, in order, each candidate that overlaps none of those kept before.
pub fn accept_rooms(candidates: &Vec<MapRect>) -> (r: Vec<MapRect>)
    ensures
        r@ == accepted(candidates@),
{
    let mut rooms: Vec<MapRect> = Vec::new();
    let mut i: usize = 0;
    while i < candidates.len()
        invariant
            i <= candidates@.len(),
            rooms@ == accepted(candidates@.subrange(0, i as int)),
        decreases candidates@.len() - i,
    {
        let c = candidates[i];
        let mut ok = true;
        let mut j: usize = 0;
        while j < rooms.len()
            invariant
                j <= rooms@.len(),
                ok == (forall|k: int| 0 <= k < j ==> !c.overlaps(#[trigger] rooms@[k])),
            decreases rooms@.len() - j,
        {
            if c.intersect(&rooms[j]) {
                ok = false;
            }
            j += 1;
        }
        let ghost prefix = candidates@.subrange(0, i as int + 1);
        assert(prefix.drop_last() == candidates@.subrange(0, i as int));
        assert(prefix.last() == c);
        if ok {
            rooms.push(c);
        }
        i += 1;
    }
    assert(candidates@.subrange(0, candidates@.len() as int) == candidates@);
    rooms
}

/// Initial stage that makes one room of the whole level but a ring of one
/// tile.
#[derive(Clone, Copy, Debug)]
pub struct EmptyMapBuilder {}

impl EmptyMapBuilder {
    pub fn new() -> (r: EmptyMapBuilder) {
        EmptyMapBuilder {  }
    }

    /// Sets the rooms to the one rectangle `(1, 1, width - 2, height - 2)`.
    pub fn build_map(&self, build_data: &mut BuilderMap)
        requires
            old(build_data).wf(),
            level_fits(old(build_data).width as int, old(build_data).height as int),
        ensures
            final(build_data).map == old(build_data).map,
            final(build_data).width == old(build_data).width,
            final(build_data).height == old(build_data).height,
            final(build_data).entry == old(build_data).entry,
            final(build_data).room_list() == seq![
                MapRect {
                    x1: 1,
                    y1: 1,
                    x2: (old(build_data).width - 1) as i32,
                    y2: (old(build_data).height - 1) as i32,
                },
            ],
            3 <= old(build_data).width && 3 <= old(build_data).height ==> final(build_data).rooms_ok(),
    {
        let w = build_data.width as i32;
        let h = build_data.height as i32;
        let room = MapRect::new(1, 1, w - 2, h - 2);
        let mut rooms: Vec<MapRect> = Vec::new();
        rooms.push(room);
        build_data.rooms = Some(rooms);
        assert(build_data.room_list() =~= seq![room]);
    }
}

/// A candidate that a rooms stage on a `w` by `h` level can draw.
pub open spec fn candidate_ok(r: MapRect, w: int, h: int) -> bool {
    &&& MIN_W <= r.x2 - r.x1 <= MAX_W
    &&& MIN_H <= r.y2 - r.y1 <= MAX_H
    &&& 0 <= r.x1
    &&& r.x2 <= w - 2
    &&& 0 <= r.y1
    &&& r.y2 <= h - 2
}

/// Initial stage that places rooms at random: it draws a fixed number of
/// candidates and keeps those that overlap no room kept before them.
#[derive(Clone, Copy, Debug)]
pub struct RoomsBuilder {}

impl RoomsBuilder {
    pub fn new() -> (r: RoomsBuilder) {
        RoomsBuilder {  }
    }

    /// Draws the candidates and keeps the rooms among them.
    pub fn build_map(&self, build_data: &mut BuilderMap, rng: &mut GameRng)
        requires
            old(build_data).wf(),
            MAX_W + 2 <= old(build_data).width,
            MAX_H + 2 <= old(build_data).height,
            level_fits(old(build_data).width as int, old(build_data).height as int),
        ensures
            final(build_data).map == old(build_data).map,
            final(build_data).width == old(build_data).width,
            final(build_data).height == old(build_data).height,
            final(build_data).entry == old(build_data).entry,
            final(build_data).rooms_ok(),
            final(build_data).room_list().len() <= MAX_ROOMS,
            exists|candidates: Seq<MapRect>|
                candidates.len() == MAX_ROOMS && (forall|i: int|
                    0 <= i < candidates.len() ==> candidate_ok(
                        #[trigger] candidates[i],
                        old(build_data).width as int,
                        old(build_data).height as int,
                    )) && final(build_data).room_list() == accepted(candidates),
    {
        let mw = build_data.width as i32;
        let mh = build_data.height as i32;
        let mut candidates: Vec<MapRect> = Vec::new();
        let mut i: usize = 0;
        while i < MAX_ROOMS
            invariant
                i <= MAX_ROOMS,
                candidates@.len() == i,
                mw == build_data.width,
                mh == build_data.height,
                MAX_W + 2 <= mw,
                MAX_H + 2 <= mh,
                forall|k: int|
                    0 <= k < candidates@.len() ==> candidate_ok(
                        #[trigger] candidates@[k],
                        mw as int,
                        mh as int,
                    ),
            decreases MAX_ROOMS - i,
        {
            let w = range(rng, MIN_W, MAX_W);
            let h = range(rng, MIN_H, MAX_H);
            let x = roll_dice(rng, 1, mw - w - 1) - 1;
            let y = roll_dice(rng, 1, mh - h - 1) - 1;
            candidates.push(MapRect::new(x, y, w, h));
            i += 1;
        }
        let rooms = accept_rooms(&candidates);
        proof {
            lemma_accepted_disjoint(candidates@);
            lemma_accepted_from(candidates@);
            assert forall|k: int| 0 <= k < rooms@.len() implies room_inside(
                #[trigger] rooms@[k],
                mw as int,
                mh as int,
            ) && center_inside(rooms@[k], mw as int, mh as int) by {
                let c = rooms@[k];
                let m = choose|m: int| 0 <= m < candidates@.len() && candidates@[m] == c;
                assert(candidate_ok(candidates@[m], mw as int, mh as int));
            }
        }
        build_data.rooms = Some(rooms);
    }
}

} // verus!
