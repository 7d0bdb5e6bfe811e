//! Moving a line within the outline: what the checks of a move, and the walk over the new
//! parent's ancestors, guarantee of the tree.
use super::{
    has_line_with_id, ids_distinct, lemma_line_with_id_unique, lemma_path_within_more_fuel,
    line_position, line_with_id, outline_path, path_within,
};
use crate::dto::{PlannerLineDto, PlannerLineId, SiblingKey};
use crate::storage::outline::{walk_next, walk_step};
use vstd::prelude::*;
use vstd::set_lib::{lemma_int_range, lemma_len_subset, set_int_range};

verus! {

/// The indices met going up from line `i` through the links to parents, `i` first,
/// following at most `fuel` links.
pub open spec fn chain_nodes(lines: Seq<PlannerLineDto>, i: int, fuel: nat) -> Seq<int>
    decreases fuel,
{
    match lines[i].parent_id {
        None => seq![i],
        Some(parent) => if fuel == 0 || !has_line_with_id(lines, parent.0@) {
            seq![i]
        } else {
            seq![i] + chain_nodes(lines, line_with_id(lines, parent.0@), (fuel - 1) as nat)
        },
    }
}

/// The day's lines once line `x` has been moved under line `new_parent` (to the top level
/// when it is `None`) with sibling key `key`.
pub open spec fn moved_lines(
    lines: Seq<PlannerLineDto>,
    x: int,
    new_parent: Option<int>,
    key: SiblingKey,
) -> Seq<PlannerLineDto> {
    lines.update(
        x,
        PlannerLineDto {
            parent_id: match new_parent {
                Some(p) => Some(lines[p].id),
                None => None,
            },
            sibling_key: key,
            ..lines[x]
        },
    )
}

/// Consecutive entries of `c` are a line and its parent, and every entry is a line.
pub open spec fn chain_links(lines: Seq<PlannerLineDto>, c: Seq<int>) -> bool {
    &&& forall|j: int| 0 <= j < c.len() ==> 0 <= #[trigger] c[j] < lines.len()
    &&& forall|j: int|
        0 <= j < c.len() - 1 ==> ((#[trigger] lines[c[j]]).parent_id matches Some(parent)
            && has_line_with_id(lines, parent.0@) && c[j + 1] == line_with_id(
            lines,
            parent.0@,
        ))
}

proof fn lemma_chain_facts(lines: Seq<PlannerLineDto>, i: int, fuel: nat)
    requires
        0 <= i < lines.len(),
        path_within(lines, i, fuel) is Some,
    ensures
        chain_nodes(lines, i, fuel).len() >= 1,
        chain_nodes(lines, i, fuel)[0] == i,
        chain_links(lines, chain_nodes(lines, i, fuel)),
        lines[chain_nodes(lines, i, fuel).last()].parent_id is None,
    decreases fuel,
{
    let c = chain_nodes(lines, i, fuel);
    if let Some(parent) = lines[i].parent_id {
        let k = line_with_id(lines, parent.0@);
        lemma_chain_facts(lines, k, (fuel - 1) as nat);
        let rest = chain_nodes(lines, k, (fuel - 1) as nat);
        assert(c == seq![i] + rest);
        assert forall|j: int| 0 <= j < c.len() implies 0 <= #[trigger] c[j] < lines.len() by {
            if j > 0 {
                assert(c[j] == rest[j - 1]);
            }
        }
        assert forall|j: int| 0 <= j < c.len() - 1 implies ((#[trigger] lines[c[j]]).parent_id matches Some(
            p,
        ) && has_line_with_id(lines, p.0@) && c[j + 1] == line_with_id(lines, p.0@)) by {
            if j > 0 {
                assert(c[j] == rest[j - 1]);
                assert(c[j + 1] == rest[j]);
            }
        }
        assert(c.last() == rest.last());
    }
}

proof fn lemma_chain_repeats_forward(
    lines: Seq<PlannerLineDto>,
    c: Seq<int>,
    lo: int,
    hi: int,
    t: int,
)
    requires
        chain_links(lines, c),
        0 <= lo < hi,
        0 <= t,
        hi + t < c.len(),
        c[lo] == c[hi],
    ensures
        c[lo + t] == c[hi + t],
    decreases t,
{
    if t > 0 {
        lemma_chain_repeats_forward(lines, c, lo, hi, t - 1);
        assert(lines[c[lo + t - 1]] == lines[c[hi + t - 1]]);
    }
}

/// A chain that ends at a root never meets the same line twice.
proof fn lemma_chain_no_duplicates(lines: Seq<PlannerLineDto>, i: int, fuel: nat)
    requires
        0 <= i < lines.len(),
        path_within(lines, i, fuel) is Some,
    ensures
        chain_nodes(lines, i, fuel).no_duplicates(),
{
    lemma_chain_facts(lines, i, fuel);
    let c = chain_nodes(lines, i, fuel);
    let last = c.len() - 1;
    assert forall|a: int, b: int| 0 <= a < c.len() && 0 <= b < c.len() && a != b implies c[a]
        != c[b] by {
        if c[a] == c[b] {
            let lo = if a < b {
                a
            } else {
                b
            };
            let hi = if a < b {
                b
            } else {
                a
            };
            lemma_chain_repeats_forward(lines, c, lo, hi, last - hi);
            assert(lines[c[lo + last - hi]].parent_id is Some);
        }
    }
}

/// A chain that ends at a root meets at most every line once.
proof fn lemma_chain_bounded(lines: Seq<PlannerLineDto>, i: int, fuel: nat)
    requires
        0 <= i < lines.len(),
        path_within(lines, i, fuel) is Some,
    ensures
        chain_nodes(lines, i, fuel).len() <= lines.len(),
{
    lemma_chain_facts(lines, i, fuel);
    lemma_chain_no_duplicates(lines, i, fuel);
    let c = chain_nodes(lines, i, fuel);
    c.unique_seq_to_set();
    lemma_int_range(0, lines.len() as int);
    assert forall|v: int| c.to_set().contains(v) implies set_int_range(
        0,
        lines.len() as int,
    ).contains(v) by {
        let j = choose|j: int| 0 <= j < c.len() && c[j] == v;
        assert(0 <= c[j] < lines.len());
    }
    lemma_len_subset(c.to_set(), set_int_range(0, lines.len() as int));
}

/// A path found with some fuel is found with just the fuel that its chain uses.
proof fn lemma_path_within_least_fuel(lines: Seq<PlannerLineDto>, i: int, fuel: nat)
    requires
        0 <= i < lines.len(),
        path_within(lines, i, fuel) is Some,
    ensures
        path_within(lines, i, (chain_nodes(lines, i, fuel).len() - 1) as nat) == path_within(
            lines,
            i,
            fuel,
        ),
    decreases fuel,
{
    lemma_chain_facts(lines, i, fuel);
    if let Some(parent) = lines[i].parent_id {
        let k = line_with_id(lines, parent.0@);
        lemma_path_within_least_fuel(lines, k, (fuel - 1) as nat);
        let rest = chain_nodes(lines, k, (fuel - 1) as nat);
        lemma_chain_facts(lines, k, (fuel - 1) as nat);
        assert(chain_nodes(lines, i, fuel).len() == 1 + rest.len());
    }
}

/// A line that hangs from a root with any amount of fuel is in the outline, with the same
/// path.
proof fn lemma_rooted_with_any_fuel(lines: Seq<PlannerLineDto>, i: int, fuel: nat)
    requires
        0 <= i < lines.len(),
        path_within(lines, i, fuel) is Some,
    ensures
        outline_path(lines, i) == path_within(lines, i, fuel),
{
    lemma_chain_facts(lines, i, fuel);
    lemma_chain_bounded(lines, i, fuel);
    lemma_path_within_least_fuel(lines, i, fuel);
    let least = (chain_nodes(lines, i, fuel).len() - 1) as nat;
    lemma_path_within_more_fuel(lines, i, least, lines.len());
}

/// Moving a line keeps every identifier where it was: a lookup by identifier finds the
/// same index before and after.
proof fn lemma_moved_lookup(
    lines: Seq<PlannerLineDto>,
    x: int,
    new_parent: Option<int>,
    key: SiblingKey,
    id: Seq<char>,
)
    requires
        ids_distinct(lines),
        0 <= x < lines.len(),
        new_parent matches Some(p) ==> 0 <= p < lines.len(),
    ensures
        ids_distinct(moved_lines(lines, x, new_parent, key)),
        has_line_with_id(moved_lines(lines, x, new_parent, key), id) == has_line_with_id(lines, id),
        has_line_with_id(lines, id) ==> line_with_id(moved_lines(lines, x, new_parent, key), id)
            == line_with_id(lines, id),
{
    let moved = moved_lines(lines, x, new_parent, key);
    assert forall|j: int| 0 <= j < lines.len() implies #[trigger] moved[j].id == lines[j].id by {
    }
    assert(ids_distinct(moved)) by {
        assert forall|a: int, b: int|
            0 <= a < moved.len() && 0 <= b < moved.len() && a != b implies #[trigger] moved[a].id.0@
            != #[trigger] moved[b].id.0@ by {
            assert(moved[a].id == lines[a].id);
            assert(moved[b].id == lines[b].id);
        }
    }
    if has_line_with_id(lines, id) {
        let k = line_with_id(lines, id);
        assert(moved[k].id == lines[k].id);
        lemma_line_with_id_unique(moved, k);
    }
    if has_line_with_id(moved, id) {
        let k = line_with_id(moved, id);
        assert(moved[k].id == lines[k].id);
        assert(lines[k].id.0@ == id);
    }
}

/// A path whose chain keeps away from the moved line is the same after the move.
proof fn lemma_path_kept_away_from_move(
    lines: Seq<PlannerLineDto>,
    x: int,
    new_parent: Option<int>,
    key: SiblingKey,
    i: int,
    fuel: nat,
)
    requires
        ids_distinct(lines),
        0 <= x < lines.len(),
        new_parent matches Some(p) ==> 0 <= p < lines.len(),
        0 <= i < lines.len(),
        path_within(lines, i, fuel) is Some,
        !chain_nodes(lines, i, fuel).contains(x),
    ensures
        path_within(moved_lines(lines, x, new_parent, key), i, fuel) == path_within(lines, i, fuel),
    decreases fuel,
{
    let moved = moved_lines(lines, x, new_parent, key);
    let c = chain_nodes(lines, i, fuel);
    assert(c[0] == i);
    assert(i != x);
    assert(moved[i] == lines[i]);
    if let Some(parent) = lines[i].parent_id {
        let k = line_with_id(lines, parent.0@);
        lemma_moved_lookup(lines, x, new_parent, key, parent.0@);
        let rest = chain_nodes(lines, k, (fuel - 1) as nat);
        assert(c == seq![i] + rest);
        assert(!rest.contains(x)) by {
            if rest.contains(x) {
                let j = choose|j: int| 0 <= j < rest.len() && rest[j] == x;
                assert(c[j + 1] == x);
            }
        }
        lemma_path_kept_away_from_move(lines, x, new_parent, key, k, (fuel - 1) as nat);
    }
}

/// A line whose chain reaches the moved line, `d` links up, hangs from a root after the
/// move when the moved line does, with `d` more links of fuel.
proof fn lemma_path_through_moved_line(
    lines: Seq<PlannerLineDto>,
    x: int,
    new_parent: Option<int>,
    key: SiblingKey,
    i: int,
    fuel: nat,
    d: int,
    g: nat,
)
    requires
        ids_distinct(lines),
        0 <= x < lines.len(),
        new_parent matches Some(p) ==> 0 <= p < lines.len(),
        0 <= i < lines.len(),
        path_within(lines, i, fuel) is Some,
        0 <= d < chain_nodes(lines, i, fuel).len(),
        chain_nodes(lines, i, fuel)[d] == x,
        d <= g,
        path_within(moved_lines(lines, x, new_parent, key), x, (g - d) as nat) is Some,
    ensures
        path_within(moved_lines(lines, x, new_parent, key), i, g) is Some,
    decreases d,
{
    let moved = moved_lines(lines, x, new_parent, key);
    let c = chain_nodes(lines, i, fuel);
    lemma_chain_facts(lines, i, fuel);
    if d > 0 {
        lemma_chain_no_duplicates(lines, i, fuel);
        assert(i != x);
        assert(moved[i] == lines[i]);
        let parent = lines[i].parent_id->0;
        let k = line_with_id(lines, parent.0@);
        lemma_moved_lookup(lines, x, new_parent, key, parent.0@);
        let rest = chain_nodes(lines, k, (fuel - 1) as nat);
        assert(c == seq![i] + rest);
        assert(rest[d - 1] == x);
        lemma_path_through_moved_line(
            lines,
            x,
            new_parent,
            key,
            k,
            (fuel - 1) as nat,
            d - 1,
            (g - 1) as nat,
        );
    }
}

/// A move that the checks accept keeps the outline whole. When the line moves to the top
/// level, or under a new parent that hangs from a root and whose chain of ancestors does
/// not meet the moved line (what the walk over the new parent's ancestors establishes),
/// every line that hung from a root before the move still does after it, and so does the
/// moved line itself: the move cuts no line off and closes no cycle.
pub proof fn lemma_checked_move_keeps_outline(
    lines: Seq<PlannerLineDto>,
    x: int,
    new_parent: Option<int>,
    key: SiblingKey,
    i: int,
)
    requires
        ids_distinct(lines),
        0 <= x < lines.len(),
        0 <= i < lines.len(),
        new_parent matches Some(p) ==> {
            &&& 0 <= p < lines.len()
            &&& outline_path(lines, p) is Some
            &&& !chain_nodes(lines, p, lines.len()).contains(x)
        },
        outline_path(lines, i) is Some,
    ensures
        outline_path(moved_lines(lines, x, new_parent, key), x) is Some,
        outline_path(moved_lines(lines, x, new_parent, key), i) is Some,
{
    let n = lines.len();
    let moved = moved_lines(lines, x, new_parent, key);
    assert(moved.len() == n);
    lemma_moved_lookup(lines, x, new_parent, key, Seq::empty());
    match new_parent {
        None => {
            assert(path_within(moved, x, (n + 1) as nat) is Some);
        },
        Some(p) => {
            lemma_moved_lookup(lines, x, new_parent, key, lines[p].id.0@);
            lemma_line_with_id_unique(lines, p);
            lemma_path_kept_away_from_move(lines, x, new_parent, key, p, n);
            assert(path_within(moved, p, n) is Some);
            assert(path_within(moved, x, (n + 1) as nat) is Some);
        },
    }
    lemma_rooted_with_any_fuel(moved, x, (n + 1) as nat);
    let c = chain_nodes(lines, i, n);
    if c.contains(x) {
        let d = choose|d: int| 0 <= d < c.len() && c[d] == x;
        lemma_path_through_moved_line(lines, x, new_parent, key, i, n, d, (d + n + 1) as nat);
        lemma_rooted_with_any_fuel(moved, i, (d + n + 1) as nat);
    } else {
        lemma_path_kept_away_from_move(lines, x, new_parent, key, i, n);
    }
}

proof fn lemma_cycle_reaches_no_root(
    lines: Seq<PlannerLineDto>,
    x: int,
    p: int,
    key: SiblingKey,
    c: Seq<int>,
    d: int,
    j: int,
    fuel: nat,
)
    requires
        ids_distinct(lines),
        0 <= x < lines.len(),
        0 <= p < lines.len(),
        chain_links(lines, c),
        c.no_duplicates(),
        c[0] == p,
        0 <= d < c.len(),
        c[d] == x,
        0 <= j <= d,
    ensures
        path_within(moved_lines(lines, x, Some(p), key), c[j], fuel) is None,
    decreases fuel,
{
    let moved = moved_lines(lines, x, Some(p), key);
    if j < d {
        assert(c[j] != x);
        assert(moved[c[j]] == lines[c[j]]);
        let parent = lines[c[j]].parent_id->0;
        lemma_moved_lookup(lines, x, Some(p), key, parent.0@);
        if fuel > 0 {
            lemma_cycle_reaches_no_root(lines, x, p, key, c, d, j + 1, (fuel - 1) as nat);
        }
    } else {
        lemma_moved_lookup(lines, x, Some(p), key, lines[p].id.0@);
        lemma_line_with_id_unique(lines, p);
        if fuel > 0 {
            lemma_cycle_reaches_no_root(lines, x, p, key, c, d, 0, (fuel - 1) as nat);
        }
    }
}

/// The walk refuses only what must be refused: moving a line under a new parent whose
/// chain of ancestors meets it (the line itself or one of its descendants) would close a
/// cycle, and the moved line would hang from no root.
pub proof fn lemma_refused_move_would_close_cycle(
    lines: Seq<PlannerLineDto>,
    x: int,
    p: int,
    key: SiblingKey,
)
    requires
        ids_distinct(lines),
        0 <= x < lines.len(),
        0 <= p < lines.len(),
        outline_path(lines, p) is Some,
        chain_nodes(lines, p, lines.len()).contains(x),
    ensures
        outline_path(moved_lines(lines, x, Some(p), key), x) is None,
{
    let c = chain_nodes(lines, p, lines.len());
    lemma_chain_facts(lines, p, lines.len());
    lemma_chain_no_duplicates(lines, p, lines.len());
    let d = choose|d: int| 0 <= d < c.len() && c[d] == x;
    lemma_cycle_reaches_no_root(lines, x, p, key, c, d, d, lines.len());
}

/// The line that reading identifier `id` among `lines` gives: the line that carries it, or
/// `None` when no line does.
pub open spec fn loaded_line(lines: Seq<PlannerLineDto>, id: Seq<char>) -> Option<PlannerLineDto> {
    if has_line_with_id(lines, id) {
        Some(lines[line_with_id(lines, id)])
    } else {
        None
    }
}

/// The end of the walk over ancestors for a move of the line `moved_id`, started at
/// `cursor` over `lines` with at most `reads` reads: each step answers as `walk_step`
/// (`ancestor_step`), each read gives `loaded_line`, and the next cursor is `walk_next`
/// (`next_ancestor`). `Some(true)`: the move is refused; `Some(false)`: the walk ended and
/// the move may be written; `None`: the reads ran out first.
pub open spec fn walk_outcome(
    lines: Seq<PlannerLineDto>,
    moved_id: Seq<char>,
    cursor: Option<PlannerLineId>,
    reads: nat,
) -> Option<bool>
    decreases reads,
{
    match walk_step(moved_id, cursor) {
        Err(_) => Some(true),
        Ok(go_on) => if !go_on {
            Some(false)
        } else if reads == 0 {
            None
        } else {
            match cursor {
                Some(c) => walk_outcome(
                    lines,
                    moved_id,
                    walk_next(loaded_line(lines, c.0@)),
                    (reads - 1) as nat,
                ),
                None => Some(false),
            }
        },
    }
}

proof fn lemma_walk_follows_chain(
    lines: Seq<PlannerLineDto>,
    x: int,
    i: int,
    fuel: nat,
    cursor: Option<PlannerLineId>,
    reads: nat,
)
    requires
        ids_distinct(lines),
        0 <= x < lines.len(),
        0 <= i < lines.len(),
        path_within(lines, i, fuel) is Some,
        cursor matches Some(c) && c.0@ == lines[i].id.0@,
        reads >= chain_nodes(lines, i, fuel).len(),
    ensures
        walk_outcome(lines, lines[x].id.0@, cursor, reads) == Some(
            chain_nodes(lines, i, fuel).contains(x),
        ),
    decreases fuel,
{
    lemma_chain_facts(lines, i, fuel);
    lemma_line_with_id_unique(lines, i);
    let c = chain_nodes(lines, i, fuel);
    assert(loaded_line(lines, lines[i].id.0@) == Some(lines[i]));
    if i == x {
        assert(c[0] == x);
    } else {
        assert(lines[i].id.0@ != lines[x].id.0@);
        match lines[i].parent_id {
            None => {
                assert(c == seq![i]);
                assert(!c.contains(x)) by {
                    if c.contains(x) {
                        let j = choose|j: int| 0 <= j < c.len() && c[j] == x;
                        assert(c[j] == i);
                    }
                }
                assert(walk_outcome(lines, lines[x].id.0@, None, (reads - 1) as nat) == Some(
                    false,
                ));
            },
            Some(parent) => {
                let k = line_with_id(lines, parent.0@);
                let rest = chain_nodes(lines, k, (fuel - 1) as nat);
                assert(c == seq![i] + rest);
                lemma_walk_follows_chain(
                    lines,
                    x,
                    k,
                    (fuel - 1) as nat,
                    Some(parent),
                    (reads - 1) as nat,
                );
                assert(c.contains(x) == rest.contains(x)) by {
                    if c.contains(x) {
                        let j = choose|j: int| 0 <= j < c.len() && c[j] == x;
                        assert(j > 0);
                        assert(rest[j - 1] == x);
                    }
                    if rest.contains(x) {
                        let j = choose|j: int| 0 <= j < rest.len() && rest[j] == x;
                        assert(c[j + 1] == x);
                    }
                }
            },
        }
    }
}

/// The walk over the new parent's ancestors decides exactly the condition of the move laws
/// above. Run over the day's lines from the new parent, with one read per line, it ends,
/// and it refuses the move exactly when the new parent's chain of ancestors meets the
/// moved line.
pub proof fn lemma_walk_refuses_exactly_when_chain_meets_line(
    lines: Seq<PlannerLineDto>,
    x: int,
    p: int,
    cursor: Option<PlannerLineId>,
)
    requires
        ids_distinct(lines),
        0 <= x < lines.len(),
        0 <= p < lines.len(),
        outline_path(lines, p) is Some,
        cursor matches Some(c) && c.0@ == lines[p].id.0@,
    ensures
        walk_outcome(lines, lines[x].id.0@, cursor, lines.len()) == Some(
            chain_nodes(lines, p, lines.len()).contains(x),
        ),
{
    lemma_chain_bounded(lines, p, lines.len());
    lemma_walk_follows_chain(lines, x, p, lines.len(), cursor, lines.len());
}

} // verus!
