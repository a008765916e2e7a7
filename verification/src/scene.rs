//! Room visibility: rooms are joined by views (portals such as doors); from
//! the room the camera stands in, the scene draws every room that can be
//! seen through a visible view, each room at most once.

use vstd::prelude::*;

verus! {

/// A room of the level: the model it is drawn from, the views it touches,
/// and the flags of the current frame.
pub struct Room {
    /// Path of the room's model.
    pub path: String,
    /// Indices of the views that join this room to others.
    pub view: Vec<usize>,
    /// Whether the room was drawn this frame.
    pub visible: bool,
    /// Whether the room was reached this frame.
    pub visit: bool,
}

/// A view between rooms, such as a door: seen through while `visible`.
pub struct ViewNode {
    pub visible: bool,
    /// Indices of the rooms this view joins.
    pub room: Vec<usize>,
}

/// Every index stored in a room or a view points into the lists.
pub open spec fn links_ok(rooms: Seq<Room>, views: Seq<ViewNode>) -> bool {
    &&& forall|r: int, i: int|
        0 <= r < rooms.len() && 0 <= i < rooms[r].view@.len() ==> #[trigger] rooms[r].view@[i]
            < views.len()
    &&& forall|v: int, j: int|
        0 <= v < views.len() && 0 <= j < views[v].room@.len() ==> #[trigger] views[v].room@[j]
            < rooms.len()
}

/// Room `b` lies behind one of the views of room `a`.
pub open spec fn linked(rooms: Seq<Room>, views: Seq<ViewNode>, a: int, b: int) -> bool {
    exists|i: int, j: int|
        0 <= i < rooms[a].view@.len() && 0 <= j < views[rooms[a].view@[i] as int].room@.len()
            && #[trigger] views[rooms[a].view@[i] as int].room@[j] == b
}

/// A room can be seen when it has no view at all, or when one of its views
/// is visible.
pub open spec fn sees(rooms: Seq<Room>, views: Seq<ViewNode>, r: int) -> bool {
    ||| rooms[r].view@.len() == 0
    ||| exists|i: int| 0 <= i < rooms[r].view@.len() && #[trigger] views[rooms[r].view@[i] as int].visible
}

/// `b` is `a` with only the flags of some rooms changed.
pub open spec fn same_rooms(a: Seq<Room>, b: Seq<Room>) -> bool {
    &&& a.len() == b.len()
    &&& forall|r: int| 0 <= r < a.len() ==> #[trigger] b[r].view@ == a[r].view@ && b[r].path@ == a[r].path@
}

/// From `a` to `b` rooms were only reached, never left: a reached room keeps
/// its flags, and a room still not reached keeps them too.
pub open spec fn reached_more(a: Seq<Room>, b: Seq<Room>) -> bool {
    &&& same_rooms(a, b)
    &&& forall|r: int|
        0 <= r < a.len() && a[r].visit ==> #[trigger] b[r].visit && b[r].visible == a[r].visible
    &&& forall|r: int| 0 <= r < a.len() && !b[r].visit ==> #[trigger] b[r].visible == a[r].visible
}

/// Number of rooms not reached yet.
pub open spec fn rooms_unreached(rooms: Seq<Room>) -> nat
    decreases rooms.len(),
{
    if rooms.len() == 0 {
        0
    } else {
        rooms_unreached(rooms.drop_last()) + if rooms.last().visit {
            0nat
        } else {
            1nat
        }
    }
}

proof fn lemma_unreached_shrinks(a: Seq<Room>, b: Seq<Room>, r: int)
    requires
        a.len() == b.len(),
        forall|k: int| 0 <= k < a.len() && a[k].visit ==> #[trigger] b[k].visit,
        0 <= r < a.len() ==> !a[r].visit && b[r].visit,
    ensures
        rooms_unreached(b) <= rooms_unreached(a),
        0 <= r < a.len() ==> rooms_unreached(b) < rooms_unreached(a),
    decreases a.len(),
{
    if a.len() > 0 {
        let n = a.len() - 1;
        assert forall|k: int| 0 <= k < n && a.drop_last()[k].visit implies #[trigger] b.drop_last()[k].visit by {
            assert(a[k].visit);
        }
        if r == n {
            lemma_unreached_shrinks(a.drop_last(), b.drop_last(), -1);
        } else {
            lemma_unreached_shrinks(a.drop_last(), b.drop_last(), r);
        }
        if a[n].visit {
            assert(b[n].visit);
        }
    }
}

/// The flags of each room: whether it is drawn (`.0`) and whether it was
/// reached (`.1`) this frame.
pub open spec fn flags(rooms: Seq<Room>) -> Seq<(bool, bool)> {
    Seq::new(rooms.len(), |r: int| (rooms[r].visible, rooms[r].visit))
}

/// The views of each room.
pub open spec fn view_links(rooms: Seq<Room>) -> Seq<Seq<usize>> {
    Seq::new(rooms.len(), |r: int| rooms[r].view@)
}

/// Room `r` can be seen: it has no view, or one of its views is visible.
pub open spec fn sees_in(links: Seq<Seq<usize>>, views: Seq<ViewNode>, r: int) -> bool {
    ||| links[r].len() == 0
    ||| exists|i: int| 0 <= i < links[r].len() && #[trigger] views[links[r][i] as int].visible
}

/// The rooms behind the first `i` views of room `r`, view by view, each
/// view's rooms in its order.
pub open spec fn rooms_behind(links: Seq<Seq<usize>>, views: Seq<ViewNode>, r: int, i: int) -> Seq<usize>
    decreases i,
{
    if i <= 0 {
        Seq::empty()
    } else {
        rooms_behind(links, views, r, i - 1) + views[links[r][i - 1] as int].room@
    }
}

/// Number of rooms not reached yet.
pub open spec fn flags_unreached(f: Seq<(bool, bool)>) -> nat
    decreases f.len(),
{
    if f.len() == 0 {
        0
    } else {
        flags_unreached(f.drop_last()) + if f.last().1 {
            0nat
        } else {
            1nat
        }
    }
}

/// Reaching more rooms leaves fewer rooms unreached.
pub proof fn lemma_flags_shrink(a: Seq<(bool, bool)>, b: Seq<(bool, bool)>, r: int)
    requires
        a.len() == b.len(),
        forall|k: int| 0 <= k < a.len() && a[k].1 ==> #[trigger] b[k].1,
        0 <= r < a.len() ==> !a[r].1 && b[r].1,
    ensures
        flags_unreached(b) <= flags_unreached(a),
        0 <= r < a.len() ==> flags_unreached(b) < flags_unreached(a),
    decreases a.len(),
{
    if a.len() > 0 {
        let n = a.len() - 1;
        assert forall|k: int| 0 <= k < n && a.drop_last()[k].1 implies #[trigger] b.drop_last()[k].1 by {
            assert(a[k].1);
        }
        if r == n {
            lemma_flags_shrink(a.drop_last(), b.drop_last(), -1);
        } else {
            lemma_flags_shrink(a.drop_last(), b.drop_last(), r);
        }
        if a[n].1 {
            assert(b[n].1);
        }
    }
}

/// What the frame's walk from room `r` does, depth first: a room already
/// reached is left; otherwise it is reached, and when it can be seen (or
/// the camera is `inside` it) it is drawn and the walk goes on to the rooms
/// behind its views, in view order and each view's rooms in order; a room
/// that cannot be seen is reached but not drawn. Gives the new flags and
/// the rooms drawn, in drawing order.
pub open spec fn walk(
    f: Seq<(bool, bool)>,
    links: Seq<Seq<usize>>,
    views: Seq<ViewNode>,
    r: int,
    inside: bool,
) -> (Seq<(bool, bool)>, Seq<usize>)
    decreases flags_unreached(f), 0nat, 0nat,
{
    if !(0 <= r < f.len()) || f[r].1 {
        (f, Seq::empty())
    } else if sees_in(links, views, r) || inside {
        let shown = f.update(r, (true, true));
        proof {
            lemma_flags_shrink(f, shown, r);
        }
        let rest = walk_list(shown, links, views, rooms_behind(links, views, r, links[r].len() as int));
        (rest.0, seq![r as usize] + rest.1)
    } else {
        (f.update(r, (false, true)), Seq::empty())
    }
}

/// The walk from each room of `list` in turn (never from inside).
pub open spec fn walk_list(
    f: Seq<(bool, bool)>,
    links: Seq<Seq<usize>>,
    views: Seq<ViewNode>,
    list: Seq<usize>,
) -> (Seq<(bool, bool)>, Seq<usize>)
    decreases flags_unreached(f), 1nat, list.len(),
{
    if list.len() == 0 {
        (f, Seq::empty())
    } else {
        let first = walk(f, links, views, list[0] as int, false);
        if flags_unreached(first.0) <= flags_unreached(f) {
            let rest = walk_list(first.0, links, views, list.drop_first());
            (rest.0, first.1 + rest.1)
        } else {
            first
        }
    }
}

proof fn lemma_walk_grows(f: Seq<(bool, bool)>, links: Seq<Seq<usize>>, views: Seq<ViewNode>, r: int, inside: bool)
    ensures
        walk(f, links, views, r, inside).0.len() == f.len(),
        forall|k: int| 0 <= k < f.len() && f[k].1 ==> #[trigger] walk(f, links, views, r, inside).0[k].1,
        flags_unreached(walk(f, links, views, r, inside).0) <= flags_unreached(f),
    decreases flags_unreached(f), 0nat, 0nat,
{
    if !(0 <= r < f.len()) || f[r].1 {
    } else if sees_in(links, views, r) || inside {
        let shown = f.update(r, (true, true));
        lemma_flags_shrink(f, shown, r);
        lemma_walk_list_grows(shown, links, views, rooms_behind(links, views, r, links[r].len() as int));
    } else {
        lemma_flags_shrink(f, f.update(r, (false, true)), r);
    }
    let g = walk(f, links, views, r, inside).0;
    lemma_flags_shrink(f, g, -1);
}

proof fn lemma_walk_list_grows(f: Seq<(bool, bool)>, links: Seq<Seq<usize>>, views: Seq<ViewNode>, list: Seq<usize>)
    ensures
        walk_list(f, links, views, list).0.len() == f.len(),
        forall|k: int| 0 <= k < f.len() && f[k].1 ==> #[trigger] walk_list(f, links, views, list).0[k].1,
        flags_unreached(walk_list(f, links, views, list).0) <= flags_unreached(f),
    decreases flags_unreached(f), 1nat, list.len(),
{
    if list.len() > 0 {
        let first = walk(f, links, views, list[0] as int, false);
        lemma_walk_grows(f, links, views, list[0] as int, false);
        lemma_walk_list_grows(first.0, links, views, list.drop_first());
    }
    let g = walk_list(f, links, views, list).0;
    lemma_flags_shrink(f, g, -1);
}

proof fn lemma_walk_list_push(
    f: Seq<(bool, bool)>,
    links: Seq<Seq<usize>>,
    views: Seq<ViewNode>,
    list: Seq<usize>,
    x: usize,
)
    ensures
        walk_list(f, links, views, list.push(x)).0 == walk(
            walk_list(f, links, views, list).0,
            links,
            views,
            x as int,
            false,
        ).0,
        walk_list(f, links, views, list.push(x)).1 == walk_list(f, links, views, list).1 + walk(
            walk_list(f, links, views, list).0,
            links,
            views,
            x as int,
            false,
        ).1,
    decreases list.len(),
{
    let long = list.push(x);
    if list.len() == 0 {
        lemma_walk_grows(f, links, views, x as int, false);
        let w = walk(f, links, views, x as int, false);
        assert(long[0] == x);
        assert(long.drop_first() =~= Seq::<usize>::empty());
        assert(walk_list(w.0, links, views, long.drop_first()) == (w.0, Seq::<usize>::empty()));
        assert(walk_list(f, links, views, long) == (w.0, w.1 + Seq::<usize>::empty()));
        assert(walk_list(f, links, views, list) == (f, Seq::<usize>::empty()));
        assert(w.1 + Seq::<usize>::empty() =~= w.1);
        assert(Seq::<usize>::empty() + w.1 =~= w.1);
    } else {
        let first = walk(f, links, views, list[0] as int, false);
        lemma_walk_grows(f, links, views, list[0] as int, false);
        assert(long.drop_first() =~= list.drop_first().push(x));
        assert(long[0] == list[0]);
        lemma_walk_list_push(first.0, links, views, list.drop_first(), x);
        let mid = walk_list(first.0, links, views, list.drop_first());
        let w = walk(mid.0, links, views, x as int, false);
        let tail = walk_list(first.0, links, views, long.drop_first());
        assert(tail.0 == w.0 && tail.1 == mid.1 + w.1);
        assert(walk_list(f, links, views, long) == (tail.0, first.1 + tail.1));
        assert(walk_list(f, links, views, list) == (mid.0, first.1 + mid.1));
        assert(first.1 + (mid.1 + w.1) =~= (first.1 + mid.1) + w.1);
    }
}

impl Room {
    /// Whether the room can be seen: it has no view, or one of its views
    /// is visible.
    pub fn is_visible(&self, view_list: &[ViewNode]) -> (seen: bool)
        requires
            forall|i: int| 0 <= i < self.view@.len() ==> #[trigger] self.view@[i] < view_list@.len(),
        ensures
            seen == (self.view@.len() == 0 || exists|i: int|
                0 <= i < self.view@.len() && #[trigger] view_list@[self.view@[i] as int].visible),
    {
        if self.view.len() == 0 {
            return true;
        }
        let mut k: usize = 0;
        while k < self.view.len()
            invariant
                k <= self.view@.len(),
                forall|i: int| 0 <= i < self.view@.len() ==> #[trigger] self.view@[i] < view_list@.len(),
                forall|i: int| 0 <= i < k ==> !(#[trigger] view_list@[self.view@[i] as int].visible),
            decreases self.view@.len() - k,
        {
            if view_list[self.view[k]].visible {
                return true;
            }
            k += 1;
        }
        false
    }

    /// Reaches the room at `room_index` and, when it can be seen (or the
    /// camera is `inside` it), draws it and goes on through its views to
    /// the rooms behind them, depth first, its views in order and each
    /// view's rooms in order (exactly as `walk` says). Each room is reached
    /// at most once per frame; `drawn` receives the rooms drawn, in drawing
    /// order.
    pub fn traverse(
        room_index: usize,
        view_list: &[ViewNode],
        room_list: &mut Vec<Room>,
        inside: bool,
        drawn: &mut Vec<usize>,
    )
        requires
            room_index < old(room_list)@.len(),
            links_ok(old(room_list)@, view_list@),
        ensures
            reached_more(old(room_list)@, final(room_list)@),
            final(room_list)@[room_index as int].visit,
            old(room_list)@[room_index as int].visit ==> final(room_list)@ == old(room_list)@
                && final(drawn)@ == old(drawn)@,
            !old(room_list)@[room_index as int].visit ==> final(room_list)@[room_index as int].visible
                == (sees(old(room_list)@, view_list@, room_index as int) || inside),
            !old(room_list)@[room_index as int].visit && final(room_list)@[room_index as int].visible
                ==> final(drawn)@.len() > old(drawn)@.len() && final(drawn)@[old(drawn)@.len() as int]
                == room_index,
            traversal(
                old(room_list)@,
                final(room_list)@,
                view_list@,
                old(drawn)@,
                final(drawn)@,
                room_index as int,
            ),
            flags(final(room_list)@) == walk(
                flags(old(room_list)@),
                view_links(old(room_list)@),
                view_list@,
                room_index as int,
                inside,
            ).0,
            final(drawn)@ == old(drawn)@ + walk(
                flags(old(room_list)@),
                view_links(old(room_list)@),
                view_list@,
                room_index as int,
                inside,
            ).1,
        decreases rooms_unreached(old(room_list)@),
    {
        let ghost first = room_list@;
        let ghost first_drawn = drawn@;
        if room_list[room_index].visit {
            proof {
                assert(drawn@.subrange(0, drawn@.len() as int) =~= drawn@);
                assert(flags(first)[room_index as int].1);
                assert(drawn@ + Seq::<usize>::empty() =~= drawn@);
            }
            return;
        }
        room_list[room_index].visit = true;
        let seen = room_list[room_index].is_visible(view_list);
        proof {
            lemma_links_kept(first, room_list@, view_list@);
        }
        if !(seen || inside) {
            room_list[room_index].visible = false;
            proof {
                assert(drawn@.subrange(0, drawn@.len() as int) =~= drawn@);
                assert(forall|r: int| 0 <= r < first.len() && r != room_index ==> #[trigger] room_list@[r] == first[r]);
                lemma_sees_in(first, view_list@, room_index as int);
                assert(flags(room_list@) =~= flags(first).update(room_index as int, (false, true)));
                assert(drawn@ + Seq::<usize>::empty() =~= drawn@);
            }
            return;
        }
        room_list[room_index].visible = true;
        drawn.push(room_index);
        proof {
            lemma_walk_begin(first, room_list@, view_list@, first_drawn, room_index);
            assert(flags(room_list@) =~= flags(first).update(room_index as int, (true, true)));
            assert(rooms_behind(view_links(first), view_list@, room_index as int, 0) =~= Seq::<usize>::empty());
            assert(drawn@ =~= first_drawn.push(room_index) + Seq::<usize>::empty());
        }
        let c_r_view = room_list[room_index].view.clone();
        assert(c_r_view@ == first[room_index as int].view@);
        let mut i: usize = 0;
        while i < c_r_view.len()
            invariant
                0 <= i <= c_r_view@.len(),
                c_r_view@ == first[room_index as int].view@,
                first == old(room_list)@,
                walking(first, room_list@, view_list@, first_drawn, drawn@, room_index as int),
                forall|a: int, b: int| 0 <= a < i && 0 <= b < view_list@[c_r_view@[a] as int].room@.len()
                    ==> room_list@[#[trigger] view_list@[c_r_view@[a] as int].room@[b] as int].visit,
                flags(room_list@) == walk_list(
                    flags(first).update(room_index as int, (true, true)),
                    view_links(first),
                    view_list@,
                    rooms_behind(view_links(first), view_list@, room_index as int, i as int),
                ).0,
                drawn@ == first_drawn.push(room_index) + walk_list(
                    flags(first).update(room_index as int, (true, true)),
                    view_links(first),
                    view_list@,
                    rooms_behind(view_links(first), view_list@, room_index as int, i as int),
                ).1,
            decreases c_r_view@.len() - i,
        {
            let view = c_r_view[i];
            assert(view < view_list@.len());
            let mut j: usize = 0;
            proof {
                let behind = rooms_behind(view_links(first), view_list@, room_index as int, i as int);
                assert(behind + view_list@[view as int].room@.take(0) =~= behind);
            }
            while j < view_list[view].room.len()
                invariant
                    0 <= i < c_r_view@.len(),
                    view == c_r_view@[i as int],
                    view < view_list@.len(),
                    0 <= j <= view_list@[view as int].room@.len(),
                    c_r_view@ == first[room_index as int].view@,
                    first == old(room_list)@,
                    walking(first, room_list@, view_list@, first_drawn, drawn@, room_index as int),
                    forall|a: int, b: int| 0 <= a < i && 0 <= b < view_list@[c_r_view@[a] as int].room@.len()
                        ==> room_list@[#[trigger] view_list@[c_r_view@[a] as int].room@[b] as int].visit,
                    forall|b: int| 0 <= b < j ==> room_list@[#[trigger] view_list@[view as int].room@[b] as int].visit,
                    flags(room_list@) == walk_list(
                        flags(first).update(room_index as int, (true, true)),
                        view_links(first),
                        view_list@,
                        rooms_behind(view_links(first), view_list@, room_index as int, i as int)
                            + view_list@[view as int].room@.take(j as int),
                    ).0,
                    drawn@ == first_drawn.push(room_index) + walk_list(
                        flags(first).update(room_index as int, (true, true)),
                        view_links(first),
                        view_list@,
                        rooms_behind(view_links(first), view_list@, room_index as int, i as int)
                            + view_list@[view as int].room@.take(j as int),
                    ).1,
                decreases view_list@[view as int].room@.len() - j,
            {
                let next = view_list[view].room[j];
                let ghost before = room_list@;
                let ghost before_drawn = drawn@;
                proof {
                    lemma_links_kept(first, before, view_list@);
                    lemma_unreached_shrinks(first, before, room_index as int);
                    assert(linked(first, view_list@, room_index as int, next as int));
                    assert(rooms_unreached(room_list@) < rooms_unreached(first));
                }
                Room::traverse(next, view_list, room_list, false, drawn);
                proof {
                    lemma_walk_step(first, before, room_list@, view_list@, first_drawn, before_drawn, drawn@,
                        room_index as int, next as int);
                    assert(reached_more(before, room_list@));
                    assert(view_links(before) =~= view_links(first));
                    let shown = flags(first).update(room_index as int, (true, true));
                    let links = view_links(first);
                    let done = rooms_behind(links, view_list@, room_index as int, i as int)
                        + view_list@[view as int].room@.take(j as int);
                    lemma_walk_list_push(shown, links, view_list@, done, next);
                    assert(done.push(next) =~= rooms_behind(links, view_list@, room_index as int, i as int)
                        + view_list@[view as int].room@.take(j + 1));
                    let past = walk_list(shown, links, view_list@, done);
                    let step = walk(past.0, links, view_list@, next as int, false);
                    assert(drawn@ =~= first_drawn.push(room_index) + (past.1 + step.1));
                }
                j += 1;
            }
            proof {
                let links = view_links(first);
                assert(links[room_index as int] == c_r_view@);
                assert(view_list@[view as int].room@.take(view_list@[view as int].room@.len() as int)
                    =~= view_list@[view as int].room@);
                assert(rooms_behind(links, view_list@, room_index as int, i + 1)
                    == rooms_behind(links, view_list@, room_index as int, i as int) + view_list@[view as int].room@);
            }
            i += 1;
        }
        proof {
            lemma_walk_end(first, room_list@, view_list@, first_drawn, drawn@, room_index as int);
            lemma_sees_in(first, view_list@, room_index as int);
            let links = view_links(first);
            assert(links[room_index as int].len() == c_r_view@.len());
            let rest = walk_list(
                flags(first).update(room_index as int, (true, true)),
                links,
                view_list@,
                rooms_behind(links, view_list@, room_index as int, c_r_view@.len() as int),
            );
            assert(drawn@ =~= first_drawn + (seq![room_index] + rest.1));
        }
    }
}

/// The rooms' views read as sequences give the same answer to "can this
/// room be seen".
proof fn lemma_sees_in(rooms: Seq<Room>, views: Seq<ViewNode>, r: int)
    requires
        0 <= r < rooms.len(),
    ensures
        sees_in(view_links(rooms), views, r) == sees(rooms, views, r),
{
    assert(view_links(rooms)[r] == rooms[r].view@);
}

/// From rooms `a` and list `d0` to rooms `b` and list `d`: rooms were only
/// reached; the list only grew; each room appended was not reached in `a`,
/// is reached and visible in `b`, and appears once; and every room reached
/// anew and visible was appended.
pub open spec fn drawn_anew(a: Seq<Room>, b: Seq<Room>, d0: Seq<usize>, d: Seq<usize>) -> bool {
    &&& reached_more(a, b)
    &&& d0.len() <= d.len()
    &&& d.subrange(0, d0.len() as int) == d0
    &&& forall|k: int|
        d0.len() <= k < d.len() ==> {
            &&& 0 <= #[trigger] d[k] < a.len()
            &&& !a[d[k] as int].visit
            &&& b[d[k] as int].visit
            &&& b[d[k] as int].visible
        }
    &&& forall|k1: int, k2: int| d0.len() <= k1 < k2 < d.len() ==> #[trigger] d[k1] != #[trigger] d[k2]
    &&& forall|r: int|
        0 <= r < a.len() && !a[r].visit && #[trigger] b[r].visit && b[r].visible ==> exists|k: int|
            d0.len() <= k < d.len() && d[k] == r
}

/// A room reached anew, other than `start`, is drawn exactly when it can be
/// seen.
pub open spec fn seen_rule(a: Seq<Room>, b: Seq<Room>, views: Seq<ViewNode>, start: int) -> bool {
    forall|r: int|
        0 <= r < a.len() && !a[r].visit && #[trigger] b[r].visit && r != start ==> b[r].visible
            == sees(a, views, r)
}

/// Every room behind a view of an appended room (other than `skip`) is
/// reached.
pub open spec fn closed_behind(
    a: Seq<Room>,
    b: Seq<Room>,
    views: Seq<ViewNode>,
    d0: Seq<usize>,
    d: Seq<usize>,
    skip: int,
) -> bool {
    forall|k: int, c: int|
        d0.len() <= k < d.len() && d[k] != skip && #[trigger] linked(a, views, d[k] as int, c) ==> b[c].visit
}

/// Each appended room other than `start` lies behind a view of a room
/// appended before it, and each room reached anew but not drawn (other than
/// `start`) lies behind a view of an appended room.
pub open spec fn came_through(
    a: Seq<Room>,
    b: Seq<Room>,
    views: Seq<ViewNode>,
    d0: Seq<usize>,
    d: Seq<usize>,
    start: int,
) -> bool {
    &&& forall|k: int|
        d0.len() <= k < d.len() && #[trigger] d[k] != start ==> exists|k2: int|
            d0.len() <= k2 < k && linked(a, views, d[k2] as int, d[k] as int)
    &&& forall|r: int|
        0 <= r < a.len() && !a[r].visit && #[trigger] b[r].visit && !b[r].visible && r != start
            ==> exists|k: int| d0.len() <= k < d.len() && linked(a, views, d[k] as int, r)
}

/// What one call of `Room::traverse` from room `start` does, from rooms `a`
/// and drawing list `d0` to rooms `b` and drawing list `d`: the rooms drawn
/// are appended once each, every room reached anew and visible is drawn, a
/// room reached anew other than `start` is drawn exactly when it can be
/// seen, every room behind a view of a room drawn is reached, and every
/// room reached anew other than `start` was reached through a view of a
/// room drawn before it.
pub open spec fn traversal(
    a: Seq<Room>,
    b: Seq<Room>,
    views: Seq<ViewNode>,
    d0: Seq<usize>,
    d: Seq<usize>,
    start: int,
) -> bool {
    &&& drawn_anew(a, b, d0, d)
    &&& seen_rule(a, b, views, start)
    &&& closed_behind(a, b, views, d0, d, -1)
    &&& came_through(a, b, views, d0, d, start)
}

proof fn lemma_links_kept(a: Seq<Room>, b: Seq<Room>, views: Seq<ViewNode>)
    requires
        links_ok(a, views),
        same_rooms(a, b),
    ensures
        links_ok(b, views),
        forall|x: int, y: int| 0 <= x < a.len() ==> linked(a, views, x, y) == linked(b, views, x, y),
        forall|x: int| 0 <= x < a.len() ==> sees(a, views, x) == sees(b, views, x),
        forall|x: int, y: int| 0 <= x < a.len() && #[trigger] linked(a, views, x, y) ==> 0 <= y < a.len(),
{
    assert forall|r: int, i: int| 0 <= r < b.len() && 0 <= i < b[r].view@.len() implies #[trigger] b[r].view@[i]
        < views.len() by {
        assert(b[r].view@ == a[r].view@);
    }
    assert forall|x: int, y: int| 0 <= x < a.len() implies linked(a, views, x, y) == linked(b, views, x, y) by {
        assert(b[x].view@ == a[x].view@);
    }
    assert forall|x: int| 0 <= x < a.len() implies sees(a, views, x) == sees(b, views, x) by {
        assert(b[x].view@ == a[x].view@);
    }
    assert forall|x: int, y: int| 0 <= x < a.len() && #[trigger] linked(a, views, x, y) implies 0 <= y < a.len() by {
        let (i, j) = choose|i: int, j: int|
            0 <= i < a[x].view@.len() && 0 <= j < views[a[x].view@[i] as int].room@.len()
                && #[trigger] views[a[x].view@[i] as int].room@[j] == y;
        assert(a[x].view@[i] < views.len());
    }
}

proof fn lemma_reached_more_trans(a: Seq<Room>, b: Seq<Room>, c: Seq<Room>)
    requires
        reached_more(a, b),
        reached_more(b, c),
    ensures
        reached_more(a, c),
{
    assert forall|r: int| 0 <= r < a.len() implies #[trigger] c[r].view@ == a[r].view@ && c[r].path@ == a[r].path@ by {
        assert(b[r].view@ == a[r].view@);
        assert(c[r].view@ == b[r].view@);
    }
    assert forall|r: int| 0 <= r < a.len() && a[r].visit implies #[trigger] c[r].visit && c[r].visible == a[r].visible by {
        assert(b[r].visit);
    }
    assert forall|r: int| 0 <= r < a.len() && !c[r].visit implies #[trigger] c[r].visible == a[r].visible by {
        assert(!b[r].visit);
    }
}

/// The state while `traverse` walks the views of `start`: `start` was not
/// reached in `first` and is drawn first; every property of a finished
/// traversal holds but the reach of the rooms behind `start`.
pub open spec fn walking(
    first: Seq<Room>,
    cur: Seq<Room>,
    views: Seq<ViewNode>,
    first_drawn: Seq<usize>,
    drawn: Seq<usize>,
    start: int,
) -> bool {
    &&& 0 <= start < first.len()
    &&& links_ok(first, views)
    &&& !first[start].visit
    &&& cur[start].visit
    &&& cur[start].visible
    &&& drawn.len() > first_drawn.len()
    &&& drawn[first_drawn.len() as int] == start
    &&& drawn_anew(first, cur, first_drawn, drawn)
    &&& seen_rule(first, cur, views, start)
    &&& closed_behind(first, cur, views, first_drawn, drawn, start)
    &&& came_through(first, cur, views, first_drawn, drawn, start)
}

proof fn lemma_walk_begin(
    first: Seq<Room>,
    marked: Seq<Room>,
    views: Seq<ViewNode>,
    first_drawn: Seq<usize>,
    start_index: usize,
)
    requires
        0 <= start_index < first.len(),
        links_ok(first, views),
        !first[start_index as int].visit,
        marked.len() == first.len(),
        marked[start_index as int].visit,
        marked[start_index as int].visible,
        marked[start_index as int].view@ == first[start_index as int].view@,
        marked[start_index as int].path@ == first[start_index as int].path@,
        forall|r: int| 0 <= r < first.len() && r != start_index ==> #[trigger] marked[r] == first[r],
    ensures
        walking(first, marked, views, first_drawn, first_drawn.push(start_index), start_index as int),
        reached_more(first, marked),
{
    let start = start_index as int;
    let d = first_drawn.push(start_index);
    assert(d.subrange(0, first_drawn.len() as int) =~= first_drawn);
    assert forall|r: int| 0 <= r < first.len() && !first[r].visit && #[trigger] marked[r].visit && marked[r].visible
        implies exists|k: int| first_drawn.len() <= k < d.len() && d[k] == r by {
        assert(r == start);
        assert(d[first_drawn.len() as int] == r);
    }
}

proof fn lemma_walk_step(
    first: Seq<Room>,
    before: Seq<Room>,
    after: Seq<Room>,
    views: Seq<ViewNode>,
    first_drawn: Seq<usize>,
    before_drawn: Seq<usize>,
    after_drawn: Seq<usize>,
    start: int,
    next: int,
)
    requires
        walking(first, before, views, first_drawn, before_drawn, start),
        traversal(before, after, views, before_drawn, after_drawn, next),
        0 <= next < first.len(),
        after[next].visit,
        !before[next].visit ==> after[next].visible == sees(before, views, next),
        before[next].visit ==> after == before && after_drawn == before_drawn,
        linked(first, views, start, next),
    ensures
        walking(first, after, views, first_drawn, after_drawn, start),
{
    lemma_links_kept(first, before, views);
    lemma_reached_more_trans(first, before, after);
    let n0 = first_drawn.len() as int;
    let n1 = before_drawn.len() as int;
    if before[next].visit {
        return;
    }
    assert forall|k: int| 0 <= k < n1 implies after_drawn[k] == #[trigger] before_drawn[k] by {
        assert(after_drawn.subrange(0, n1)[k] == after_drawn[k]);
    }
    assert(after_drawn.subrange(0, n0) =~= first_drawn) by {
        assert forall|k: int| 0 <= k < n0 implies after_drawn.subrange(0, n0)[k] == first_drawn[k] by {
            assert(before_drawn.subrange(0, n0)[k] == before_drawn[k]);
        }
    }
    assert(after_drawn[n0] == start);
    assert forall|k: int| n0 <= k < after_drawn.len() implies {
        &&& 0 <= #[trigger] after_drawn[k] < first.len()
        &&& !first[after_drawn[k] as int].visit
        &&& after[after_drawn[k] as int].visit
        &&& after[after_drawn[k] as int].visible
    } by {
        if k < n1 {
            assert(before_drawn[k] == after_drawn[k]);
        } else {
            let r = after_drawn[k] as int;
            if first[r].visit {
                assert(before[r].visit);
            }
        }
    }
    assert forall|k1: int, k2: int| n0 <= k1 < k2 < after_drawn.len() implies #[trigger] after_drawn[k1]
        != #[trigger] after_drawn[k2] by {
        if k2 < n1 {
            assert(before_drawn[k1] == after_drawn[k1]);
            assert(before_drawn[k2] == after_drawn[k2]);
        } else if k1 < n1 {
            assert(before_drawn[k1] == after_drawn[k1]);
            assert(before[before_drawn[k1] as int].visit);
            assert(!before[after_drawn[k2] as int].visit);
        }
    }
    assert forall|r: int| 0 <= r < first.len() && !first[r].visit && #[trigger] after[r].visit && after[r].visible
        implies exists|k: int| n0 <= k < after_drawn.len() && after_drawn[k] == r by {
        if before[r].visit {
            let k = choose|k: int| n0 <= k < n1 && before_drawn[k] == r;
            assert(after_drawn[k] == r);
        } else {
            let k = choose|k: int| n1 <= k < after_drawn.len() && after_drawn[k] == r;
        }
    }
    assert forall|r: int| 0 <= r < first.len() && !first[r].visit && #[trigger] after[r].visit && r != start
        implies after[r].visible == sees(first, views, r) by {
        if !before[r].visit {
            assert(sees(before, views, r) == sees(first, views, r));
        }
    }
    assert forall|k: int, c: int|
        n0 <= k < after_drawn.len() && after_drawn[k] != start && #[trigger] linked(first, views, after_drawn[k] as int, c)
        implies after[c].visit by {
        assert(0 <= c < first.len());
        if k < n1 {
            assert(before_drawn[k] == after_drawn[k]);
            assert(before[c].visit);
        } else {
            assert(linked(before, views, after_drawn[k] as int, c));
        }
    }
    assert forall|k: int| n0 <= k < after_drawn.len() && #[trigger] after_drawn[k] != start implies exists|k2: int|
        n0 <= k2 < k && linked(first, views, after_drawn[k2] as int, after_drawn[k] as int) by {
        if k < n1 {
            assert(before_drawn[k] == after_drawn[k]);
            let k2 = choose|k2: int| n0 <= k2 < k && linked(first, views, before_drawn[k2] as int, before_drawn[k] as int);
            assert(after_drawn[k2] == before_drawn[k2]);
        } else if after_drawn[k] == next {
            assert(linked(first, views, after_drawn[n0] as int, after_drawn[k] as int));
        } else {
            let k2 = choose|k2: int| n1 <= k2 < k && linked(before, views, after_drawn[k2] as int, after_drawn[k] as int);
            assert(linked(first, views, after_drawn[k2] as int, after_drawn[k] as int));
        }
    }
    assert forall|r: int|
        0 <= r < first.len() && !first[r].visit && #[trigger] after[r].visit && !after[r].visible && r != start
        implies exists|k: int| n0 <= k < after_drawn.len() && linked(first, views, after_drawn[k] as int, r) by {
        if before[r].visit {
            let k = choose|k: int| n0 <= k < n1 && linked(first, views, before_drawn[k] as int, r);
            assert(after_drawn[k] == before_drawn[k]);
        } else if r == next {
            assert(linked(first, views, after_drawn[n0] as int, r));
        } else {
            let k = choose|k: int| n1 <= k < after_drawn.len() && linked(before, views, after_drawn[k] as int, r);
            assert(linked(first, views, after_drawn[k] as int, r));
        }
    }
}

proof fn lemma_walk_end(
    first: Seq<Room>,
    last: Seq<Room>,
    views: Seq<ViewNode>,
    first_drawn: Seq<usize>,
    drawn: Seq<usize>,
    start: int,
)
    requires
        walking(first, last, views, first_drawn, drawn, start),
        forall|a: int, b: int|
            0 <= a < first[start].view@.len() && 0 <= b < views[first[start].view@[a] as int].room@.len()
                ==> last[#[trigger] views[first[start].view@[a] as int].room@[b] as int].visit,
    ensures
        traversal(first, last, views, first_drawn, drawn, start),
{
    assert forall|k: int, c: int|
        first_drawn.len() <= k < drawn.len() && drawn[k] != -1 && #[trigger] linked(first, views, drawn[k] as int, c)
        implies last[c].visit by {
        if drawn[k] == start {
            let (i, j) = choose|i: int, j: int|
                0 <= i < first[start].view@.len() && 0 <= j < views[first[start].view@[i] as int].room@.len()
                    && #[trigger] views[first[start].view@[i] as int].room@[j] == c;
        }
    }
}


/// Whether every index stored in a room or a view points into the lists,
/// as `Room::traverse` and `rooms_to_draw` need.
pub fn links_valid(room_list: &Vec<Room>, view_list: &Vec<ViewNode>) -> (valid: bool)
    ensures
        valid == links_ok(room_list@, view_list@),
{
    let mut r: usize = 0;
    while r < room_list.len()
        invariant
            r <= room_list@.len(),
            forall|x: int, i: int|
                0 <= x < r && 0 <= i < room_list@[x].view@.len() ==> #[trigger] room_list@[x].view@[i]
                    < view_list@.len(),
        decreases room_list@.len() - r,
    {
        let mut i: usize = 0;
        while i < room_list[r].view.len()
            invariant
                r < room_list@.len(),
                i <= room_list@[r as int].view@.len(),
                forall|x: int, k: int|
                    0 <= x < r && 0 <= k < room_list@[x].view@.len() ==> #[trigger] room_list@[x].view@[k]
                        < view_list@.len(),
                forall|k: int| 0 <= k < i ==> #[trigger] room_list@[r as int].view@[k] < view_list@.len(),
            decreases room_list@[r as int].view@.len() - i,
        {
            if room_list[r].view[i] >= view_list.len() {
                return false;
            }
            i += 1;
        }
        r += 1;
    }
    let mut v: usize = 0;
    while v < view_list.len()
        invariant
            v <= view_list@.len(),
            forall|x: int, i: int|
                0 <= x < room_list@.len() && 0 <= i < room_list@[x].view@.len() ==> #[trigger] room_list@[x].view@[i]
                    < view_list@.len(),
            forall|y: int, j: int|
                0 <= y < v && 0 <= j < view_list@[y].room@.len() ==> #[trigger] view_list@[y].room@[j]
                    < room_list@.len(),
        decreases view_list@.len() - v,
    {
        let mut j: usize = 0;
        while j < view_list[v].room.len()
            invariant
                v < view_list@.len(),
                j <= view_list@[v as int].room@.len(),
                forall|x: int, i: int|
                    0 <= x < room_list@.len() && 0 <= i < room_list@[x].view@.len() ==> #[trigger] room_list@[x].view@[i]
                        < view_list@.len(),
                forall|y: int, k: int|
                    0 <= y < v && 0 <= k < view_list@[y].room@.len() ==> #[trigger] view_list@[y].room@[k]
                        < room_list@.len(),
                forall|k: int| 0 <= k < j ==> #[trigger] view_list@[v as int].room@[k] < room_list@.len(),
            decreases view_list@[v as int].room@.len() - j,
        {
            if view_list[v].room[j] >= room_list.len() {
                return false;
            }
            j += 1;
        }
        v += 1;
    }
    true
}

/// Starts a frame: no room is reached nor drawn yet.
pub fn clear_rooms(room_list: &mut Vec<Room>)
    ensures
        same_rooms(old(room_list)@, final(room_list)@),
        forall|r: int| 0 <= r < final(room_list)@.len() ==> !(#[trigger] final(room_list)@[r]).visit && !final(room_list)@[r].visible,
{
    let mut k: usize = 0;
    while k < room_list.len()
        invariant
            k <= room_list@.len(),
            same_rooms(old(room_list)@, room_list@),
            forall|r: int| 0 <= r < k ==> !(#[trigger] room_list@[r]).visit && !room_list@[r].visible,
        decreases room_list@.len() - k,
    {
        room_list[k].visit = false;
        room_list[k].visible = false;
        k += 1;
    }
}

/// The rooms to draw this frame, in drawing order, with every room's flags
/// set for the frame: with no view at all every room is drawn (and no room
/// is marked); otherwise the rooms seen from the room the camera stands in,
/// if any, starting with that room.
pub fn rooms_to_draw(room_list: &mut Vec<Room>, view_list: &[ViewNode], active: Option<usize>) -> (drawn: Vec<usize>)
    requires
        links_ok(old(room_list)@, view_list@),
        active matches Some(r) ==> r < old(room_list)@.len(),
    ensures
        same_rooms(old(room_list)@, final(room_list)@),
        view_list@.len() == 0 ==> drawn@ == Seq::new(old(room_list)@.len(), |r: int| r as usize)
            && forall|r: int| 0 <= r < final(room_list)@.len() ==> !(#[trigger] final(room_list)@[r]).visit
                && !final(room_list)@[r].visible,
        view_list@.len() > 0 && active is None ==> drawn@.len() == 0
            && forall|r: int| 0 <= r < final(room_list)@.len() ==> !(#[trigger] final(room_list)@[r]).visit
                && !final(room_list)@[r].visible,
        view_list@.len() > 0 && active is Some ==> {
            let start = active->0 as int;
            let cleared = Seq::new(
                old(room_list)@.len(),
                |r: int| Room { visible: false, visit: false, ..old(room_list)@[r] },
            );
            &&& drawn@.len() > 0
            &&& drawn@[0] == start
            &&& final(room_list)@[start].visible
            &&& forall|r: int| 0 <= r < final(room_list)@.len() ==> #[trigger] final(room_list)@[r].visit == (
                r == start || exists|k: int| 0 <= k < drawn@.len() && linked(old(room_list)@, view_list@, drawn@[k] as int, r))
            &&& traversal_from(old(room_list)@, final(room_list)@, view_list@, drawn@, start)
            &&& flags(final(room_list)@) == walk(
                Seq::new(old(room_list)@.len(), |r: int| (false, false)),
                view_links(old(room_list)@),
                view_list@,
                start,
                true,
            ).0
            &&& drawn@ == walk(
                Seq::new(old(room_list)@.len(), |r: int| (false, false)),
                view_links(old(room_list)@),
                view_list@,
                start,
                true,
            ).1
        },
{
    clear_rooms(room_list);
    let mut drawn: Vec<usize> = Vec::new();
    if view_list.len() == 0 {
        let mut k: usize = 0;
        while k < room_list.len()
            invariant
                k <= room_list@.len(),
                drawn@ == Seq::new(k as nat, |r: int| r as usize),
            decreases room_list@.len() - k,
        {
            drawn.push(k);
            k += 1;
        }
        return drawn;
    }
    match active {
        Some(start) => {
            let ghost cleared = room_list@;
            proof {
                lemma_links_kept(old(room_list)@, cleared, view_list@);
            }
            Room::traverse(start, view_list, room_list, true, &mut drawn);
            proof {
                lemma_from_cleared(old(room_list)@, cleared, room_list@, view_list@, drawn@, start as int);
                assert(flags(cleared) =~= Seq::new(old(room_list)@.len(), |r: int| (false, false)));
                assert(view_links(cleared) =~= view_links(old(room_list)@));
                assert(drawn@ =~= Seq::<usize>::empty() + drawn@);
            }
            drawn
        },
        None => drawn,
    }
}

/// A traversal of a frame, from rooms all unreached: every room drawn is
/// drawn once; a room other than `start` is reached exactly when it lies
/// behind a view of a room drawn, and drawn exactly when it is also seen;
/// every room drawn after `start` lies behind a view of a room drawn before
/// it.
pub open spec fn traversal_from(
    rooms: Seq<Room>,
    after: Seq<Room>,
    views: Seq<ViewNode>,
    drawn: Seq<usize>,
    start: int,
) -> bool {
    &&& forall|k1: int, k2: int| 0 <= k1 < k2 < drawn.len() ==> #[trigger] drawn[k1] != #[trigger] drawn[k2]
    &&& forall|k: int| 0 <= k < drawn.len() ==> 0 <= #[trigger] drawn[k] < rooms.len() && after[drawn[k] as int].visible
    &&& forall|r: int| 0 <= r < after.len() && #[trigger] after[r].visible ==> after[r].visit && exists|k: int|
        0 <= k < drawn.len() && drawn[k] == r
    &&& forall|r: int| 0 <= r < after.len() && #[trigger] after[r].visit && r != start ==> after[r].visible == sees(rooms, views, r)
    &&& forall|k: int| 0 <= k < drawn.len() && #[trigger] drawn[k] != start ==> exists|k2: int|
        0 <= k2 < k && linked(rooms, views, drawn[k2] as int, drawn[k] as int)
}

proof fn lemma_from_cleared(
    first: Seq<Room>,
    cleared: Seq<Room>,
    after: Seq<Room>,
    views: Seq<ViewNode>,
    drawn: Seq<usize>,
    start: int,
)
    requires
        links_ok(first, views),
        same_rooms(first, cleared),
        forall|r: int| 0 <= r < cleared.len() ==> !(#[trigger] cleared[r]).visit && !cleared[r].visible,
        0 <= start < first.len(),
        traversal(cleared, after, views, Seq::empty(), drawn, start),
        after[start].visit,
        after[start].visible == (sees(cleared, views, start) || true),
        after[start].visible ==> drawn.len() > 0 && drawn[0] == start,
    ensures
        same_rooms(first, after),
        drawn.len() > 0,
        drawn[0] == start,
        after[start].visible,
        forall|r: int| 0 <= r < after.len() ==> #[trigger] after[r].visit == (
            r == start || exists|k: int| 0 <= k < drawn.len() && linked(first, views, drawn[k] as int, r)),
        traversal_from(first, after, views, drawn, start),
{
    lemma_links_kept(first, cleared, views);
    assert(drawn.subrange(0, 0) =~= Seq::<usize>::empty());
    assert forall|r: int| 0 <= r < after.len() implies #[trigger] after[r].visit == (
        r == start || exists|k: int| 0 <= k < drawn.len() && linked(first, views, drawn[k] as int, r)) by {
        if after[r].visit && r != start {
            if after[r].visible {
                let k = choose|k: int| 0 <= k < drawn.len() && drawn[k] == r;
                let k2 = choose|k2: int| 0 <= k2 < k && linked(cleared, views, drawn[k2] as int, drawn[k] as int);
                assert(linked(first, views, drawn[k2] as int, r));
            } else {
                let k = choose|k: int| 0 <= k < drawn.len() && linked(cleared, views, drawn[k] as int, r);
                assert(linked(first, views, drawn[k] as int, r));
            }
        }
        if exists|k: int| 0 <= k < drawn.len() && linked(first, views, drawn[k] as int, r) {
            let k = choose|k: int| 0 <= k < drawn.len() && linked(first, views, drawn[k] as int, r);
            assert(linked(cleared, views, drawn[k] as int, r));
        }
    }
    assert forall|r: int| 0 <= r < after.len() && #[trigger] after[r].visible implies after[r].visit && exists|k: int|
        0 <= k < drawn.len() && drawn[k] == r by {
        assert(!cleared[r].visit);
        if !after[r].visit {
            assert(after[r].visible == cleared[r].visible);
        }
    }
    assert forall|k: int| 0 <= k < drawn.len() && #[trigger] drawn[k] != start implies exists|k2: int|
        0 <= k2 < k && linked(first, views, drawn[k2] as int, drawn[k] as int) by {
        let k2 = choose|k2: int| 0 <= k2 < k && linked(cleared, views, drawn[k2] as int, drawn[k] as int);
        assert(linked(first, views, drawn[k2] as int, drawn[k] as int));
    }
}

/// The views, among the first `upto`, that `hits` joins to room `room`, in
/// increasing order.
pub open spec fn views_of(hits: Seq<Vec<bool>>, room: int, upto: int) -> Seq<usize> {
    Seq::new(upto as nat, |v: int| v as usize).filter(|v: usize| hits[v as int]@[room])
}

/// The rooms, among the first `upto`, that `hits` joins to view `view`, in
/// increasing order.
pub open spec fn rooms_of(hits: Seq<Vec<bool>>, view: int, upto: int) -> Seq<usize> {
    Seq::new(upto as nat, |r: int| r as usize).filter(|r: usize| hits[view]@[r as int])
}

proof fn lemma_views_of_step(hits: Seq<Vec<bool>>, room: int, upto: int)
    requires
        0 <= upto < usize::MAX,
    ensures
        views_of(hits, room, upto + 1) == if hits[upto]@[room] {
            views_of(hits, room, upto).push(upto as usize)
        } else {
            views_of(hits, room, upto)
        },
        views_of(hits, room, 0) == Seq::<usize>::empty(),
{
    reveal(Seq::filter);
    let f = |v: int| v as usize;
    assert(Seq::new((upto + 1) as nat, f).drop_last() =~= Seq::new(upto as nat, f));
    assert(Seq::new(0 as nat, f).len() == 0);
}

proof fn lemma_rooms_of_step(hits: Seq<Vec<bool>>, view: int, upto: int)
    requires
        0 <= upto < usize::MAX,
    ensures
        rooms_of(hits, view, upto + 1) == if hits[view]@[upto] {
            rooms_of(hits, view, upto).push(upto as usize)
        } else {
            rooms_of(hits, view, upto)
        },
        rooms_of(hits, view, 0) == Seq::<usize>::empty(),
{
    reveal(Seq::filter);
    let f = |r: int| r as usize;
    assert(Seq::new((upto + 1) as nat, f).drop_last() =~= Seq::new(upto as nat, f));
    assert(Seq::new(0 as nat, f).len() == 0);
}

/// Joins views and rooms: view `v` and room `r` are joined when `hits[v][r]`
/// holds (the view's ray meets the room's box). Each room lists its new
/// views in increasing order, and each view its new rooms.
pub fn link_rooms(room_list: &mut Vec<Room>, view_list: &mut Vec<ViewNode>, hits: &Vec<Vec<bool>>)
    requires
        hits@.len() == old(view_list)@.len(),
        forall|v: int| 0 <= v < hits@.len() ==> (#[trigger] hits@[v])@.len() == old(room_list)@.len(),
    ensures
        same_flags(old(room_list)@, final(room_list)@),
        forall|r: int| 0 <= r < final(room_list)@.len() ==> (#[trigger] final(room_list)@[r]).view@
            == old(room_list)@[r].view@ + views_of(hits@, r, hits@.len() as int),
        final(view_list)@.len() == old(view_list)@.len(),
        forall|v: int| 0 <= v < final(view_list)@.len() ==> {
            &&& (#[trigger] final(view_list)@[v]).visible == old(view_list)@[v].visible
            &&& final(view_list)@[v].room@ == old(view_list)@[v].room@ + rooms_of(hits@, v, old(room_list)@.len() as int)
        },
{
    let ghost rooms0 = room_list@;
    let ghost views0 = view_list@;
    let mut v: usize = 0;
    while v < view_list.len()
        invariant
            hits@.len() == views0.len(),
            forall|w: int| 0 <= w < hits@.len() ==> (#[trigger] hits@[w])@.len() == rooms0.len(),
            0 <= v <= view_list@.len(),
            view_list@.len() == views0.len(),
            same_flags(rooms0, room_list@),
            forall|x: int| 0 <= x < room_list@.len() ==> (#[trigger] room_list@[x]).view@
                == rooms0[x].view@ + views_of(hits@, x, v as int),
            forall|w: int| 0 <= w < view_list@.len() ==> (#[trigger] view_list@[w]).visible == views0[w].visible
                && view_list@[w].room@ == views0[w].room@ + if w < v {
                    rooms_of(hits@, w, rooms0.len() as int)
                } else {
                    Seq::empty()
                },
        decreases view_list@.len() - v,
    {
        let mut r: usize = 0;
        proof {
            lemma_rooms_of_step(hits@, v as int, 0);
            assert(view_list@[v as int].room@ == views0[v as int].room@ + rooms_of(hits@, v as int, 0));
        }
        while r < room_list.len()
            invariant
                hits@.len() == views0.len(),
                forall|w: int| 0 <= w < hits@.len() ==> (#[trigger] hits@[w])@.len() == rooms0.len(),
                0 <= v < view_list@.len(),
                v < usize::MAX,
                0 <= r <= room_list@.len(),
                view_list@.len() == views0.len(),
                same_flags(rooms0, room_list@),
                forall|x: int| 0 <= x < room_list@.len() ==> (#[trigger] room_list@[x]).view@
                    == rooms0[x].view@ + views_of(hits@, x, if x < r { v + 1 } else { v as int }),
                forall|w: int| 0 <= w < view_list@.len() ==> (#[trigger] view_list@[w]).visible == views0[w].visible
                    && view_list@[w].room@ == views0[w].room@ + if w < v {
                        rooms_of(hits@, w, rooms0.len() as int)
                    } else if w == v {
                        rooms_of(hits@, w, r as int)
                    } else {
                        Seq::empty()
                    },
            decreases room_list@.len() - r,
        {
            proof {
                lemma_views_of_step(hits@, r as int, v as int);
                lemma_rooms_of_step(hits@, v as int, r as int);
            }
            let ghost rooms_before = room_list@;
            let ghost views_before = view_list@;
            if hits[v][r] {
                room_list[r].view.push(v);
                view_list[v].room.push(r);
            }
            proof {
                assert forall|x: int| 0 <= x < room_list@.len() implies (#[trigger] room_list@[x]).view@
                    == rooms0[x].view@ + views_of(hits@, x, if x < r + 1 { v + 1 } else { v as int }) by {
                    if x != r {
                        assert(room_list@[x] == rooms_before[x]);
                    }
                }
                assert forall|w: int| 0 <= w < view_list@.len() implies (#[trigger] view_list@[w]).visible == views0[w].visible
                    && view_list@[w].room@ == views0[w].room@ + if w < v {
                        rooms_of(hits@, w, rooms0.len() as int)
                    } else if w == v {
                        rooms_of(hits@, w, r + 1)
                    } else {
                        Seq::empty()
                    } by {
                    if w != v {
                        assert(view_list@[w] == views_before[w]);
                    }
                }
            }
            r += 1;
        }
        v += 1;
    }
}

/// `b` is `a` with only the view lists of some rooms changed.
pub open spec fn same_flags(a: Seq<Room>, b: Seq<Room>) -> bool {
    &&& a.len() == b.len()
    &&& forall|r: int| 0 <= r < a.len() ==> (#[trigger] b[r]).path@ == a[r].path@ && b[r].visible == a[r].visible
        && b[r].visit == a[r].visit
}


/// A grid cell of the level, in whole steps of the path grid.
pub type Cell = (i32, i32, i32);

/// The path nodes of a level by grid cell: a hash map from cell to the
/// indices of the path nodes in it.
#[verifier::external_body]
pub struct PathHash {
    inner: hashbrown::HashMap<Cell, Vec<usize>>,
}

/// What a path hash holds: for each cell that has path nodes, their
/// indices in the order they were added.
pub uninterp spec fn path_cells(hash: PathHash) -> Map<Cell, Seq<usize>>;

/// An empty `hashbrown::HashMap`, made by its `Default` impl.
#[verifier::external_body]
fn path_hash_new() -> (made: PathHash)
    ensures
        path_cells(made).dom() == Set::<Cell>::empty(),
{
    PathHash { inner: hashbrown::HashMap::default() }
}

/// `hashbrown::HashMap::entry(cell).or_default().push(index)`: the list of
/// the cell (empty when the cell had none) gets `index` at its end; the
/// other cells keep theirs.
#[verifier::external_body]
fn path_hash_push(hash: &mut PathHash, cell: Cell, index: usize)
    ensures
        path_cells(*final(hash)) == path_cells(*old(hash)).insert(
            cell,
            if path_cells(*old(hash)).dom().contains(cell) {
                path_cells(*old(hash))[cell].push(index)
            } else {
                seq![index]
            },
        ),
{
    hash.inner.entry(cell).or_default().push(index);
}

/// `hashbrown::HashMap::get(&cell)`, cloned: the list of the cell, when it
/// has one.
#[verifier::external_body]
fn path_hash_get(hash: &PathHash, cell: Cell) -> (list: Option<Vec<usize>>)
    ensures
        list is Some <==> path_cells(*hash).dom().contains(cell),
        list matches Some(found) ==> found@ == path_cells(*hash)[cell],
{
    hash.inner.get(&cell).cloned()
}

/// The path nodes, among the first `upto`, that lie in `cell`.
pub open spec fn nodes_in(cells: Seq<Cell>, cell: Cell, upto: int) -> Seq<usize> {
    Seq::new(upto as nat, |k: int| k as usize).filter(|k: usize| cells[k as int] == cell)
}

/// The hash holds, for each cell, exactly the path nodes in it, in order.
pub open spec fn paths_indexed(cells: Seq<Cell>, map: Map<Cell, Seq<usize>>) -> bool {
    &&& forall|c: Cell| #[trigger] map.dom().contains(c) <==> cells.contains(c)
    &&& forall|c: Cell| #[trigger] map.dom().contains(c) ==> map[c] == nodes_in(cells, c, cells.len() as int)
}

proof fn lemma_nodes_in_step(cells: Seq<Cell>, cell: Cell, upto: int)
    requires
        0 <= upto < cells.len(),
        upto < usize::MAX,
    ensures
        nodes_in(cells, cell, upto + 1) == if cells[upto] == cell {
            nodes_in(cells, cell, upto).push(upto as usize)
        } else {
            nodes_in(cells, cell, upto)
        },
{
    reveal(Seq::filter);
    let f = |k: int| k as usize;
    assert(Seq::new((upto + 1) as nat, f).drop_last() =~= Seq::new(upto as nat, f));
}

proof fn lemma_nodes_in_prefix(cells: Seq<Cell>, more: Cell, cell: Cell, upto: int)
    requires
        0 <= upto <= cells.len(),
    ensures
        nodes_in(cells.push(more), cell, upto) == nodes_in(cells, cell, upto),
    decreases upto,
{
    reveal(Seq::filter);
    let f = |k: int| k as usize;
    if upto > 0 {
        assert(Seq::new(upto as nat, f).drop_last() =~= Seq::new((upto - 1) as nat, f));
        lemma_nodes_in_prefix(cells, more, cell, upto - 1);
    }
}

proof fn lemma_nodes_in_none(cells: Seq<Cell>, cell: Cell, upto: int)
    requires
        0 <= upto <= cells.len(),
        forall|k: int| 0 <= k < upto ==> cells[k] != cell,
    ensures
        nodes_in(cells, cell, upto) == Seq::<usize>::empty(),
    decreases upto,
{
    reveal(Seq::filter);
    let f = |k: int| k as usize;
    if upto > 0 {
        assert(Seq::new(upto as nat, f).drop_last() =~= Seq::new((upto - 1) as nat, f));
        lemma_nodes_in_none(cells, cell, upto - 1);
    } else {
        assert(Seq::new(0 as nat, f) =~= Seq::<usize>::empty());
    }
}

/// Adds node `index` in `cell` to a node list and its hash, keeping the
/// hash an index of the list.
fn index_push(list: &mut Vec<Cell>, hash: &mut PathHash, cell: Cell, index: usize)
    requires
        paths_indexed(old(list)@, path_cells(*old(hash))),
        index == old(list)@.len(),
        index < usize::MAX,
    ensures
        final(list)@ == old(list)@.push(cell),
        paths_indexed(final(list)@, path_cells(*final(hash))),
{
    let ghost cells = list@;
    let ghost map = path_cells(*hash);
    list.push(cell);
    path_hash_push(hash, cell, index);
    proof {
        let cells2 = list@;
        let map2 = path_cells(*hash);
        let n = index as int;
        assert(cells2[n] == cell);
        assert forall|c: Cell| #[trigger] map2.dom().contains(c) <==> cells2.contains(c) by {
            if cells2.contains(c) && c != cell {
                let k = choose|k: int| 0 <= k < cells2.len() && cells2[k] == c;
                assert(cells[k] == c);
            }
            if cells.contains(c) {
                let k = choose|k: int| 0 <= k < cells.len() && cells[k] == c;
                assert(cells2[k] == c);
            }
            if c == cell {
                assert(cells2[n] == c);
            }
        }
        assert forall|c: Cell| #[trigger] map2.dom().contains(c) implies map2[c] == nodes_in(cells2, c, cells2.len() as int) by {
            lemma_nodes_in_step(cells2, c, n);
            lemma_nodes_in_prefix(cells, cell, c, n);
            if c == cell && !map.dom().contains(c) {
                assert forall|k: int| 0 <= k < n implies cells[k] != c by {
                    if cells[k] == c {
                        assert(cells.contains(c));
                    }
                }
                lemma_nodes_in_none(cells, c, n);
            }
        }
    }
}

/// The path nodes of a level, found by their grid cell: the cell of each
/// node by index, and the hash that lists the nodes of each cell.
pub struct PathIndex {
    cells: Vec<Cell>,
    hash: PathHash,
}

impl PathIndex {
    /// The grid cell of each path node, by the node's index.
    pub closed spec fn nodes(self) -> Seq<Cell> {
        self.cells@
    }

    /// The hash lists, for each cell, exactly the nodes in it, in order.
    #[verifier::type_invariant]
    closed spec fn indexed(self) -> bool {
        paths_indexed(self.cells@, path_cells(self.hash))
    }

    /// An index with no path node.
    pub fn new() -> (index: PathIndex)
        ensures
            index.nodes().len() == 0,
    {
        PathIndex { cells: Vec::new(), hash: path_hash_new() }
    }

    /// Adds a path node in `cell`; returns its index.
    pub fn add(&mut self, cell: Cell) -> (index: usize)
        requires
            old(self).nodes().len() < usize::MAX,
        ensures
            index == old(self).nodes().len(),
            final(self).nodes() == old(self).nodes().push(cell),
    {
        let mut taken = PathIndex::new();
        std::mem::swap(&mut taken, self);
        proof {
            use_type_invariant(&taken);
        }
        let PathIndex { cells: mut list, hash: mut hash } = taken;
        let index = list.len();
        index_push(&mut list, &mut hash, cell, index);
        *self = PathIndex { cells: list, hash };
        index
    }

    /// The path nodes in `cell`, in the order they were added.
    pub fn find(&self, cell: Cell) -> (nodes: Vec<usize>)
        ensures
            nodes@ == nodes_in(self.nodes(), cell, self.nodes().len() as int),
    {
        proof {
            use_type_invariant(self);
        }
        match path_hash_get(&self.hash, cell) {
            Some(found) => found,
            None => {
                proof {
                    assert forall|k: int| 0 <= k < self.cells@.len() implies self.cells@[k] != cell by {
                        if self.cells@[k] == cell {
                            assert(self.cells@.contains(cell));
                        }
                    }
                    lemma_nodes_in_none(self.cells@, cell, self.cells@.len() as int);
                }
                Vec::new()
            },
        }
    }
}

/// The plain state of a scene: its rooms and views, its path nodes, and the
/// pause flag.
pub struct Scene {
    pub room_list: Vec<Room>,
    pub view_list: Vec<ViewNode>,
    pub paths: PathIndex,
    pub pause: bool,
}

impl Scene {
    /// An empty scene, not paused.
    pub fn new() -> (scene: Scene)
        ensures
            scene.room_list@.len() == 0,
            scene.view_list@.len() == 0,
            scene.paths.nodes().len() == 0,
            !scene.pause,
    {
        Scene { room_list: Vec::new(), view_list: Vec::new(), paths: PathIndex::new(), pause: false }
    }

    /// Adds a path node in `cell`; returns its index.
    pub fn path_add(&mut self, cell: Cell) -> (index: usize)
        requires
            old(self).paths.nodes().len() < usize::MAX,
        ensures
            index == old(self).paths.nodes().len(),
            final(self).paths.nodes() == old(self).paths.nodes().push(cell),
            final(self).room_list@ == old(self).room_list@,
            final(self).view_list@ == old(self).view_list@,
            final(self).pause == old(self).pause,
    {
        self.paths.add(cell)
    }

    /// The path nodes in `cell`, in the order they were added.
    pub fn path_find(&self, cell: Cell) -> (nodes: Vec<usize>)
        ensures
            nodes@ == nodes_in(self.paths.nodes(), cell, self.paths.nodes().len() as int),
    {
        self.paths.find(cell)
    }

    /// Whether the room that a point lies in is visible, given which room's
    /// box the physics query found the point in (`None` when it is in no
    /// room, which counts as not visible).
    pub fn room_active(&self, hit: Option<usize>) -> (active: bool)
        requires
            hit matches Some(r) ==> r < self.room_list@.len(),
        ensures
            active == match hit {
                Some(r) => self.room_list@[r as int].visible,
                None => false,
            },
    {
        match hit {
            Some(r) => self.room_list[r].visible,
            None => false,
        }
    }

    /// Adds a room drawn from the model at `path`, joined to no view yet;
    /// returns its index, which its box's collider carries.
    pub fn room_add(&mut self, path: String) -> (index: usize)
        ensures
            index == old(self).room_list@.len(),
            final(self).room_list@ == old(self).room_list@.push(
                Room { path, view: final(self).room_list@[index as int].view, visible: false, visit: false },
            ),
            final(self).room_list@[index as int].view@.len() == 0,
            final(self).view_list@ == old(self).view_list@,
            final(self).paths == old(self).paths,
            final(self).pause == old(self).pause,
    {
        let index = self.room_list.len();
        self.room_list.push(Room { path, view: Vec::new(), visible: false, visit: false });
        index
    }

    /// Adds a view, joined to no room yet and not visible; returns its
    /// index.
    pub fn view_add(&mut self) -> (index: usize)
        ensures
            index == old(self).view_list@.len(),
            final(self).view_list@.len() == old(self).view_list@.len() + 1,
            forall|v: int| 0 <= v < index ==> #[trigger] final(self).view_list@[v] == old(self).view_list@[v],
            !final(self).view_list@[index as int].visible,
            final(self).view_list@[index as int].room@.len() == 0,
            final(self).room_list@ == old(self).room_list@,
            final(self).paths == old(self).paths,
            final(self).pause == old(self).pause,
    {
        let index = self.view_list.len();
        self.view_list.push(ViewNode { visible: false, room: Vec::new() });
        index
    }
}

/// Where a new sound plays: `Some(i)` for alias `i` of the sound, the first
/// alias not playing, when the sound itself is playing; `None` for the
/// sound itself (also when every alias is playing).
pub fn sound_channel(sound_playing: bool, alias_playing: &Vec<bool>) -> (channel: Option<usize>)
    ensures
        match channel {
            Some(i) => sound_playing && i < alias_playing@.len() && !alias_playing@[i as int] && forall|k: int|
                0 <= k < i ==> #[trigger] alias_playing@[k],
            None => !sound_playing || forall|k: int| 0 <= k < alias_playing@.len() ==> #[trigger] alias_playing@[k],
        },
{
    if !sound_playing {
        return None;
    }
    let mut i: usize = 0;
    while i < alias_playing.len()
        invariant
            sound_playing,
            i <= alias_playing@.len(),
            forall|k: int| 0 <= k < i ==> #[trigger] alias_playing@[k],
        decreases alias_playing@.len() - i,
    {
        if !alias_playing[i] {
            return Some(i);
        }
        i += 1;
    }
    None
}

} // verus!
