//! Breadth-first reachability over 4-connected, player-owned cells.
//!
//! Both grid representations reduce a cell to the pair "who owns it" and
//! "is it a base", so the search works on those two projections and is
//! specified against the existence of a path: the result is true exactly
//! when a chain of 4-adjacent cells, each owned by the player after the
//! first, leads from the start to one of that player's bases.

use vstd::prelude::*;

use crate::consts::{GRID_SIZE, MAP_HEIGHT, MAP_WIDTH, SENTINEL_INDEX};
use crate::grid::{lemma_index_injective, spec_in_bounds, spec_index_of, GridVec, TileGrid};
use crate::player::Player;

verus! {

/// The two projections a search runs on: one owner and one base flag per
/// backing-array slot, with the sentinel slot unowned and baseless.
pub open spec fn spec_views_wf(owners: Seq<Option<Player>>, bases: Seq<bool>) -> bool {
    &&& owners.len() == GRID_SIZE
    &&& bases.len() == GRID_SIZE
    &&& owners[SENTINEL_INDEX as int] is None
    &&& !bases[SENTINEL_INDEX as int]
}

/// The owner recorded for `(x, y)`; off-board positions read the sentinel
/// slot and so are never owned.
pub open spec fn spec_owner_at(owners: Seq<Option<Player>>, x: int, y: int) -> Option<Player> {
    owners[spec_index_of(x, y)]
}

/// Whether `(x, y)` is a base owned by `player`.
pub open spec fn spec_base_at(
    owners: Seq<Option<Player>>,
    bases: Seq<bool>,
    x: int,
    y: int,
    player: Player,
) -> bool {
    &&& bases[spec_index_of(x, y)]
    &&& spec_owner_at(owners, x, y) == Some(player)
}

/// 4-neighbourhood: `b` is one step from `a` along exactly one axis.
pub open spec fn spec_adjacent(a: GridVec, b: GridVec) -> bool {
    ||| (b.x as int == a.x as int + 1 && b.y == a.y)
    ||| (b.x as int == a.x as int - 1 && b.y == a.y)
    ||| (b.y as int == a.y as int + 1 && b.x == a.x)
    ||| (b.y as int == a.y as int - 1 && b.x == a.x)
}

/// A walk from `start`: consecutive cells are 4-adjacent and every cell
/// after the first is owned by `player`.
pub open spec fn spec_linked(
    owners: Seq<Option<Player>>,
    path: Seq<GridVec>,
    start: GridVec,
    player: Player,
) -> bool {
    &&& path.len() > 0
    &&& path[0] == start
    &&& forall|i: int|
        1 <= i < path.len() ==> spec_owner_at(
            owners,
            (#[trigger] path[i]).x as int,
            path[i].y as int,
        ) == Some(player)
    &&& forall|i: int| 0 <= i < path.len() - 1 ==> spec_adjacent(#[trigger] path[i], path[i + 1])
}

/// A walk from `start` that ends on a base owned by `player`.
pub open spec fn spec_is_path(
    owners: Seq<Option<Player>>,
    bases: Seq<bool>,
    path: Seq<GridVec>,
    start: GridVec,
    player: Player,
) -> bool {
    &&& spec_linked(owners, path, start, player)
    &&& spec_base_at(owners, bases, path.last().x as int, path.last().y as int, player)
}

/// Whether some path of `player`-owned cells leads from `start` to one of
/// `player`'s bases.
pub open spec fn spec_reachable(
    owners: Seq<Option<Player>>,
    bases: Seq<bool>,
    start: GridVec,
    player: Player,
) -> bool {
    exists|path: Seq<GridVec>| spec_is_path(owners, bases, path, start, player)
}

/// Whether some walk from `start` ends at `c`.
pub open spec fn spec_can_reach(
    owners: Seq<Option<Player>>,
    start: GridVec,
    c: GridVec,
    player: Player,
) -> bool {
    exists|path: Seq<GridVec>|
        spec_linked(owners, path, start, player) && path.last() == c
}

/// Extending a walk by one adjacent owned cell keeps it a walk.
proof fn lemma_can_reach_step(
    owners: Seq<Option<Player>>,
    start: GridVec,
    c: GridVec,
    n: GridVec,
    player: Player,
)
    requires
        spec_can_reach(owners, start, c, player),
        spec_adjacent(c, n),
        spec_owner_at(owners, n.x as int, n.y as int) == Some(player),
    ensures
        spec_can_reach(owners, start, n, player),
{
    let path = choose|path: Seq<GridVec>|
        spec_linked(owners, path, start, player) && path.last() == c;
    let longer = path.push(n);
    assert(longer.last() == n);
    assert forall|i: int| 1 <= i < longer.len() implies spec_owner_at(
        owners,
        (#[trigger] longer[i]).x as int,
        longer[i].y as int,
    ) == Some(player) by {
        if i < path.len() {
            assert(longer[i] == path[i]);
        } else {
            assert(longer[i] == n);
        }
    }
    assert forall|i: int| 0 <= i < longer.len() - 1 implies spec_adjacent(
        #[trigger] longer[i],
        longer[i + 1],
    ) by {
        if i < path.len() - 1 {
            assert(longer[i] == path[i] && longer[i + 1] == path[i + 1]);
        } else {
            assert(longer[i] == path.last() && longer[i + 1] == n);
        }
    }
    assert(spec_linked(owners, longer, start, player) && longer.last() == n);
}

/// A walk whose last cell is a base witnesses reachability.
proof fn lemma_reach_base(
    owners: Seq<Option<Player>>,
    bases: Seq<bool>,
    start: GridVec,
    c: GridVec,
    player: Player,
)
    requires
        spec_can_reach(owners, start, c, player),
        spec_base_at(owners, bases, c.x as int, c.y as int, player),
    ensures
        spec_reachable(owners, bases, start, player),
{
    let path = choose|path: Seq<GridVec>|
        spec_linked(owners, path, start, player) && path.last() == c;
    assert(spec_is_path(owners, bases, path, start, player));
}

/// How many entries of `s` are set.
pub closed spec fn count_true(s: Seq<bool>) -> int
    decreases s.len(),
{
    if s.len() == 0 {
        0
    } else {
        count_true(s.drop_last()) + if s.last() {
            1int
        } else {
            0int
        }
    }
}

proof fn lemma_count_true_bounds(s: Seq<bool>)
    ensures
        0 <= count_true(s) <= s.len(),
    decreases s.len(),
{
    if s.len() > 0 {
        lemma_count_true_bounds(s.drop_last());
    }
}

proof fn lemma_count_true_set(s: Seq<bool>, i: int)
    requires
        0 <= i < s.len(),
        !s[i],
    ensures
        count_true(s.update(i, true)) == count_true(s) + 1,
    decreases s.len(),
{
    let t = s.update(i, true);
    if i == s.len() - 1 {
        assert(t.drop_last() =~= s.drop_last());
    } else {
        assert(t.drop_last() =~= s.drop_last().update(i, true));
        lemma_count_true_set(s.drop_last(), i);
        assert(t.last() == s.last());
    }
}

/// The visited flags hold exactly the slots of the cells placed on the
/// queue so far.
pub open spec fn inv_visited_queue(visited: Seq<bool>, queue: Seq<GridVec>) -> bool {
    forall|i: int|
        0 <= i < GRID_SIZE ==> ((#[trigger] visited[i]) <==> exists|j: int|
            0 <= j < queue.len() && spec_index_of(
                (#[trigger] queue[j]).x as int,
                queue[j].y as int,
            ) == i)
}

/// Every owned 4-neighbour of `c` has its slot marked in `visited`.
pub open spec fn neighbors_marked(
    owners: Seq<Option<Player>>,
    visited: Seq<bool>,
    c: GridVec,
    player: Player,
) -> bool {
    forall|n: GridVec|
        #[trigger] spec_adjacent(c, n) && spec_owner_at(owners, n.x as int, n.y as int) == Some(
            player,
        ) ==> visited[spec_index_of(n.x as int, n.y as int)]
}

/// Effect of offering one neighbour `(c.x + dx, c.y + dy)` to the search:
/// a cell owned by `player` and not yet visited is marked and queued;
/// anything else leaves both untouched.
pub open spec fn spec_push_result(
    owners: Seq<Option<Player>>,
    vis0: Seq<bool>,
    q0: Seq<GridVec>,
    vis1: Seq<bool>,
    q1: Seq<GridVec>,
    c: GridVec,
    dx: int,
    dy: int,
    player: Player,
) -> bool {
    let nx = c.x as int + dx;
    let ny = c.y as int + dy;
    let i = spec_index_of(nx, ny);
    if spec_owner_at(owners, nx, ny) == Some(player) && !vis0[i] {
        &&& vis1 == vis0.update(i, true)
        &&& q1 == q0.push(GridVec { x: nx as i32, y: ny as i32 })
    } else {
        &&& vis1 == vis0
        &&& q1 == q0
    }
}

/// Mark and enqueue the neighbour of `c` one step along `(dx, dy)` if it is
/// owned by `player` and not yet visited.
fn push_if_owned(
    owners: &Vec<Option<Player>>,
    visited: &mut Vec<bool>,
    queue: &mut Vec<GridVec>,
    c: GridVec,
    dx: i32,
    dy: i32,
    player: Player,
)
    requires
        owners@.len() == GRID_SIZE,
        owners@[SENTINEL_INDEX as int] is None,
        old(visited)@.len() == GRID_SIZE,
        -1 <= dx <= 1,
        -1 <= dy <= 1,
    ensures
        final(visited)@.len() == GRID_SIZE,
        spec_push_result(
            owners@,
            old(visited)@,
            old(queue)@,
            final(visited)@,
            final(queue)@,
            c,
            dx as int,
            dy as int,
            player,
        ),
{
    let nx = c.x as i64 + dx as i64;
    let ny = c.y as i64 + dy as i64;
    if nx >= -(MAP_WIDTH as i64) && ny >= -(MAP_HEIGHT as i64) && nx < MAP_WIDTH as i64 && ny
        < MAP_HEIGHT as i64 {
        let n = GridVec { x: nx as i32, y: ny as i32 };
        let idx = TileGrid::get_index(n);
        let owned = match owners[idx] {
            Some(p) => p == player,
            None => false,
        };
        if owned && !visited[idx] {
            visited.set(idx, true);
            queue.push(n);
        }
    }
}

/// Breadth-first search for one of `player`'s bases, starting at `start`
/// and stepping only onto cells owned by `player`.
///
/// Returns true exactly when such a base is reachable: a path of
/// 4-connected cells, each owned by `player` after the first, leads from
/// `start` to a base of `player`.
pub fn search(
    owners: &Vec<Option<Player>>,
    bases: &Vec<bool>,
    start: GridVec,
    player: Player,
) -> (r: bool)
    requires
        spec_views_wf(owners@, bases@),
    ensures
        r == spec_reachable(owners@, bases@, start, player),
{
    let mut visited: Vec<bool> = Vec::new();
    let mut i: usize = 0;
    while i < GRID_SIZE
        invariant
            i <= GRID_SIZE,
            visited@.len() == i,
            forall|j: int| 0 <= j < i ==> !(#[trigger] visited@[j]),
        decreases GRID_SIZE - i,
    {
        visited.push(false);
        i = i + 1;
    }
    proof {
        lemma_count_true_bounds(visited@);
    }

    let start_idx = TileGrid::get_index(start);
    visited.set(start_idx, true);
    let mut queue: Vec<GridVec> = Vec::new();
    queue.push(start);
    proof {
        // The fresh visited vector held no marks, so marking the start slot
        // leaves the count at one.
        lemma_count_true_set(visited@.update(start_idx as int, false), start_idx as int);
        assert(visited@.update(start_idx as int, false) =~= Seq::new(
            GRID_SIZE as nat,
            |j: int| false,
        ).update(start_idx as int, false));
        assert(visited@ =~= Seq::new(GRID_SIZE as nat, |j: int| false).update(
            start_idx as int,
            true,
        ));
        lemma_count_true_bounds(visited@);
        // The single mark is the start's slot, matching the one-element queue.
        assert(spec_can_reach(owners@, start, start, player)) by {
            let unit = seq![start];
            assert(unit.last() == start);
            assert(spec_linked(owners@, unit, start, player));
        }
    }

    let mut qhead: usize = 0;
    while qhead < queue.len()
        invariant
            spec_views_wf(owners@, bases@),
            visited@.len() == GRID_SIZE,
            queue@.len() >= 1,
            queue@[0] == start,
            qhead <= queue@.len(),
            queue@.len() <= 1 + count_true(visited@),
            count_true(visited@) <= GRID_SIZE,
            inv_visited_queue(visited@, queue@),
            forall|j: int|
                1 <= j < queue@.len() ==> spec_owner_at(
                    owners@,
                    (#[trigger] queue@[j]).x as int,
                    queue@[j].y as int,
                ) == Some(player),
            forall|j: int|
                0 <= j < queue@.len() ==> spec_can_reach(
                    owners@,
                    start,
                    #[trigger] queue@[j],
                    player,
                ),
            forall|j: int|
                0 <= j < qhead ==> neighbors_marked(owners@, visited@, #[trigger] queue@[j], player),
            forall|j: int|
                0 <= j < qhead ==> !spec_base_at(
                    owners@,
                    bases@,
                    (#[trigger] queue@[j]).x as int,
                    queue@[j].y as int,
                    player,
                ),
        decreases GRID_SIZE + 2 - qhead,
    {
        let c = queue[qhead];
        let c_idx = TileGrid::get_index(c);
        let is_base = bases[c_idx] && (match owners[c_idx] {
            Some(p) => p == player,
            None => false,
        });
        if is_base {
            proof {
                lemma_reach_base(owners@, bases@, start, c, player);
            }
            return true;
        }

        let ghost vis_a = visited@;
        let ghost q_a = queue@;
        push_if_owned(owners, &mut visited, &mut queue, c, 1, 0, player);
        let ghost vis_b = visited@;
        let ghost q_b = queue@;
        push_if_owned(owners, &mut visited, &mut queue, c, -1, 0, player);
        let ghost vis_c = visited@;
        let ghost q_c = queue@;
        push_if_owned(owners, &mut visited, &mut queue, c, 0, 1, player);
        let ghost vis_d = visited@;
        let ghost q_d = queue@;
        push_if_owned(owners, &mut visited, &mut queue, c, 0, -1, player);

        proof {
            lemma_push_invariants(owners@, bases@, vis_a, q_a, vis_b, q_b, c, 1, 0, start, player, qhead as int);
            lemma_push_invariants(owners@, bases@, vis_b, q_b, vis_c, q_c, c, -1, 0, start, player, qhead as int);
            lemma_push_invariants(owners@, bases@, vis_c, q_c, vis_d, q_d, c, 0, 1, start, player, qhead as int);
            lemma_push_invariants(owners@, bases@, vis_d, q_d, visited@, queue@, c, 0, -1, start, player, qhead as int);
            // Every owned neighbour of the processed cell is now marked:
            // each of the four offsets was offered, and marks persist.
            assert forall|n: GridVec|
                #[trigger] spec_adjacent(c, n) && spec_owner_at(owners@, n.x as int, n.y as int)
                    == Some(player) implies visited@[spec_index_of(n.x as int, n.y as int)] by {
                lemma_neighbor_covered(owners@, vis_a, q_a, vis_b, q_b, vis_c, q_c, vis_d, q_d,
                    visited@, queue@, c, n, player);
            }
        }
        qhead = qhead + 1;
    }

    proof {
        if spec_reachable(owners@, bases@, start, player) {
            let path = choose|path: Seq<GridVec>|
                spec_is_path(owners@, bases@, path, start, player);
            lemma_path_covered(owners@, queue@, visited@, start, player, path, path.len() - 1);
            assert(false);
        }
    }
    false
}

/// After one offer of the neighbour at `(dx, dy)`, every loop invariant of
/// the search is preserved.
proof fn lemma_push_invariants(
    owners: Seq<Option<Player>>,
    bases: Seq<bool>,
    vis0: Seq<bool>,
    q0: Seq<GridVec>,
    vis1: Seq<bool>,
    q1: Seq<GridVec>,
    c: GridVec,
    dx: int,
    dy: int,
    start: GridVec,
    player: Player,
    qhead: int,
)
    requires
        spec_views_wf(owners, bases),
        vis0.len() == GRID_SIZE,
        vis1.len() == GRID_SIZE,
        q0.len() >= 1,
        q0[0] == start,
        0 <= qhead < q0.len(),
        q0.len() <= 1 + count_true(vis0),
        inv_visited_queue(vis0, q0),
        forall|j: int|
            1 <= j < q0.len() ==> spec_owner_at(
                owners,
                (#[trigger] q0[j]).x as int,
                q0[j].y as int,
            ) == Some(player),
        forall|j: int|
            0 <= j < q0.len() ==> spec_can_reach(owners, start, #[trigger] q0[j], player),
        forall|j: int|
            0 <= j < qhead ==> neighbors_marked(owners, vis0, #[trigger] q0[j], player),
        forall|j: int|
            0 <= j < qhead ==> !spec_base_at(
                owners,
                bases,
                (#[trigger] q0[j]).x as int,
                q0[j].y as int,
                player,
            ),
        spec_can_reach(owners, start, c, player),
        spec_push_result(owners, vis0, q0, vis1, q1, c, dx, dy, player),
        -1 <= dx <= 1,
        -1 <= dy <= 1,
        dx == 0 || dy == 0,
        !(dx == 0 && dy == 0),
    ensures
        q1.len() >= 1,
        q1[0] == start,
        qhead < q1.len(),
        q1.len() <= 1 + count_true(vis1),
        count_true(vis1) <= GRID_SIZE,
        inv_visited_queue(vis1, q1),
        forall|j: int|
            1 <= j < q1.len() ==> spec_owner_at(
                owners,
                (#[trigger] q1[j]).x as int,
                q1[j].y as int,
            ) == Some(player),
        forall|j: int|
            0 <= j < q1.len() ==> spec_can_reach(owners, start, #[trigger] q1[j], player),
        forall|j: int|
            0 <= j < qhead ==> neighbors_marked(owners, vis1, #[trigger] q1[j], player),
        forall|j: int|
            0 <= j < qhead ==> !spec_base_at(
                owners,
                bases,
                (#[trigger] q1[j]).x as int,
                q1[j].y as int,
                player,
            ),
        forall|i: int| 0 <= i < GRID_SIZE && vis0[i] ==> vis1[i],
        q0.len() <= q1.len(),
        forall|j: int| 0 <= j < q0.len() ==> q1[j] == q0[j],
{
    lemma_count_true_bounds(vis1);
    let nx = c.x as int + dx;
    let ny = c.y as int + dy;
    let i = spec_index_of(nx, ny);
    if spec_owner_at(owners, nx, ny) == Some(player) && !vis0[i] {
        let n = GridVec { x: nx as i32, y: ny as i32 };
        // Owned cells are on the board, so the coordinates survive the cast.
        assert(spec_in_bounds(nx, ny));
        lemma_count_true_set(vis0, i);
        assert(spec_adjacent(c, n));
        lemma_can_reach_step(owners, start, c, n, player);
        assert forall|i0: int| 0 <= i0 < GRID_SIZE implies ((#[trigger] vis1[i0]) <==> exists|
            j: int,
        |
            0 <= j < q1.len() && spec_index_of(
                (#[trigger] q1[j]).x as int,
                q1[j].y as int,
            ) == i0) by {
            if i0 == i {
                assert(q1[q1.len() - 1] == n);
                assert(spec_index_of(n.x as int, n.y as int) == i0);
            } else {
                if vis1[i0] {
                    let j = choose|j: int|
                        0 <= j < q0.len() && spec_index_of(
                            (#[trigger] q0[j]).x as int,
                            q0[j].y as int,
                        ) == i0;
                    assert(q1[j] == q0[j]);
                } else {
                    assert forall|j: int|
                        0 <= j < q1.len() implies spec_index_of(
                            (#[trigger] q1[j]).x as int,
                            q1[j].y as int,
                        ) != i0 by {
                        if j < q0.len() {
                            assert(q1[j] == q0[j]);
                        } else {
                            assert(q1[j] == n);
                        }
                    }
                }
            }
        }
        assert forall|j: int| 0 <= j < qhead implies neighbors_marked(
            owners,
            vis1,
            #[trigger] q1[j],
            player,
        ) by {
            assert(q1[j] == q0[j]);
            assert(neighbors_marked(owners, vis0, q0[j], player));
            assert forall|m: GridVec|
                #[trigger] spec_adjacent(q1[j], m) && spec_owner_at(
                    owners,
                    m.x as int,
                    m.y as int,
                ) == Some(player) implies vis1[spec_index_of(m.x as int, m.y as int)] by {
                assert(vis0[spec_index_of(m.x as int, m.y as int)]);
            }
        }
    } else {
        assert(vis1 == vis0 && q1 == q0);
    }
}

/// After the four offers around `c`, any owned adjacent cell is marked.
proof fn lemma_neighbor_covered(
    owners: Seq<Option<Player>>,
    vis_a: Seq<bool>,
    q_a: Seq<GridVec>,
    vis_b: Seq<bool>,
    q_b: Seq<GridVec>,
    vis_c: Seq<bool>,
    q_c: Seq<GridVec>,
    vis_d: Seq<bool>,
    q_d: Seq<GridVec>,
    vis_e: Seq<bool>,
    q_e: Seq<GridVec>,
    c: GridVec,
    n: GridVec,
    player: Player,
)
    requires
        owners.len() == GRID_SIZE,
        owners[SENTINEL_INDEX as int] is None,
        vis_a.len() == GRID_SIZE,
        vis_b.len() == GRID_SIZE,
        vis_c.len() == GRID_SIZE,
        vis_d.len() == GRID_SIZE,
        vis_e.len() == GRID_SIZE,
        spec_push_result(owners, vis_a, q_a, vis_b, q_b, c, 1, 0, player),
        spec_push_result(owners, vis_b, q_b, vis_c, q_c, c, -1, 0, player),
        spec_push_result(owners, vis_c, q_c, vis_d, q_d, c, 0, 1, player),
        spec_push_result(owners, vis_d, q_d, vis_e, q_e, c, 0, -1, player),
        spec_adjacent(c, n),
        spec_owner_at(owners, n.x as int, n.y as int) == Some(player),
    ensures
        vis_e[spec_index_of(n.x as int, n.y as int)],
{
    let i = spec_index_of(n.x as int, n.y as int);
    // An owned cell is on the board: its slot is below the sentinel.
    assert(spec_in_bounds(n.x as int, n.y as int));
    if n.x as int == c.x as int + 1 && n.y == c.y {
        assert(vis_b[i]);
    } else if n.x as int == c.x as int - 1 && n.y == c.y {
        assert(vis_c[i]);
    } else if n.y as int == c.y as int + 1 && n.x == c.x {
        assert(vis_d[i]);
    } else {
        assert(vis_e[i]);
    }
    // Later offers never clear a mark.
    assert(vis_e[i]) by {
        if !vis_e[i] {
            assert(false);
        }
    }
}

/// Once the queue is exhausted, every cell of a purported path is on the
/// queue — so a path to a base would contradict having processed only
/// non-base cells.
proof fn lemma_path_covered(
    owners: Seq<Option<Player>>,
    queue: Seq<GridVec>,
    visited: Seq<bool>,
    start: GridVec,
    player: Player,
    path: Seq<GridVec>,
    k: int,
)
    requires
        owners.len() == GRID_SIZE,
        owners[SENTINEL_INDEX as int] is None,
        visited.len() == GRID_SIZE,
        queue.len() >= 1,
        queue[0] == start,
        inv_visited_queue(visited, queue),
        forall|j: int|
            0 <= j < queue.len() ==> neighbors_marked(owners, visited, #[trigger] queue[j], player),
        spec_linked(owners, path, start, player),
        0 <= k < path.len(),
    ensures
        exists|j: int| 0 <= j < queue.len() && #[trigger] queue[j] == path[k],
    decreases k,
{
    if k == 0 {
        assert(queue[0] == path[0]);
    } else {
        lemma_path_covered(owners, queue, visited, start, player, path, k - 1);
        let j = choose|j: int| 0 <= j < queue.len() && #[trigger] queue[j] == path[k - 1];
        assert(spec_adjacent(path[k - 1], path[k]));
        assert(spec_owner_at(owners, path[k].x as int, path[k].y as int) == Some(player));
        assert(neighbors_marked(owners, visited, queue[j], player));
        let i = spec_index_of(path[k].x as int, path[k].y as int);
        assert(visited[i]);
        let j2 = choose|j2: int|
            0 <= j2 < queue.len() && spec_index_of(
                (#[trigger] queue[j2]).x as int,
                queue[j2].y as int,
            ) == i;
        // Both cells sit on the board and share a slot, so they coincide.
        assert(spec_in_bounds(path[k].x as int, path[k].y as int));
        assert(spec_in_bounds(queue[j2].x as int, queue[j2].y as int));
        lemma_index_injective(queue[j2], path[k]);
        assert(queue[j2] == path[k]);
    }
}

} // verus!
