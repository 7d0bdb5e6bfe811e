//! The planner outline: how the lines of one day are arranged into the listed tree.
use crate::dto::PlannerLineDto;
use vstd::prelude::*;
use vstd::utf8::{encode_utf8, encode_utf8_decode_utf8};

pub mod moves;

verus! {

// ---------------------------------------------------------------------------
// Orders
// ---------------------------------------------------------------------------
/// Byte-wise lexicographic order (SQLite's BINARY collation, Rust's `[u8]` order).
pub open spec fn bytes_less(a: Seq<u8>, b: Seq<u8>) -> bool
    decreases a.len(),
{
    if a.len() == 0 {
        b.len() > 0
    } else if b.len() == 0 {
        false
    } else if a[0] != b[0] {
        a[0] < b[0]
    } else {
        bytes_less(a.drop_first(), b.drop_first())
    }
}

/// Where a line stands among its siblings: its sibling key, then its identifier, as bytes.
pub open spec fn line_position(line: PlannerLineDto) -> (Seq<u8>, Seq<u8>) {
    (encode_utf8(line.sibling_key.0@), encode_utf8(line.id.0@))
}

/// Siblings are ordered by key bytes, and by identifier bytes between equal keys.
pub open spec fn position_less(a: (Seq<u8>, Seq<u8>), b: (Seq<u8>, Seq<u8>)) -> bool {
    bytes_less(a.0, b.0) || (a.0 == b.0 && bytes_less(a.1, b.1))
}

/// The order of two lines given by their paths from a root: lexicographic over the
/// sibling positions along the paths, an ancestor before its descendants.
pub open spec fn path_less(p: Seq<(Seq<u8>, Seq<u8>)>, q: Seq<(Seq<u8>, Seq<u8>)>) -> bool
    decreases p.len(),
{
    if p.len() == 0 {
        q.len() > 0
    } else if q.len() == 0 {
        false
    } else if p[0] != q[0] {
        position_less(p[0], q[0])
    } else {
        path_less(p.drop_first(), q.drop_first())
    }
}

// ---------------------------------------------------------------------------
// The tree that parent links describe
// ---------------------------------------------------------------------------
/// No two lines share an identifier (the identifier is the table's primary key).
pub open spec fn ids_distinct(lines: Seq<PlannerLineDto>) -> bool {
    forall|i: int, j: int|
        0 <= i < lines.len() && 0 <= j < lines.len() && i != j ==> #[trigger] lines[i].id.0@
            != #[trigger] lines[j].id.0@
}

pub open spec fn has_line_with_id(lines: Seq<PlannerLineDto>, id: Seq<char>) -> bool {
    exists|j: int| 0 <= j < lines.len() && #[trigger] lines[j].id.0@ == id
}

pub open spec fn line_with_id(lines: Seq<PlannerLineDto>, id: Seq<char>) -> int {
    choose|j: int| 0 <= j < lines.len() && #[trigger] lines[j].id.0@ == id
}

/// The positions from a root down to line `i`, following at most `fuel` parent links;
/// `None` when the chain of parents leaves the set of lines or does not end within `fuel`.
pub open spec fn path_within(lines: Seq<PlannerLineDto>, i: int, fuel: nat) -> Option<
    Seq<(Seq<u8>, Seq<u8>)>,
>
    decreases fuel,
{
    match lines[i].parent_id {
        None => Some(seq![line_position(lines[i])]),
        Some(parent) => if fuel == 0 || !has_line_with_id(lines, parent.0@) {
            None
        } else {
            match path_within(lines, line_with_id(lines, parent.0@), (fuel - 1) as nat) {
                Some(p) => Some(p.push(line_position(lines[i]))),
                None => None,
            }
        },
    }
}

/// The path of line `i` from a root of the day's tree, or `None` when the line hangs
/// from no root (its parent is missing, or its ancestors form a cycle). With `n` lines a
/// root is at most `n - 1` links away.
pub open spec fn outline_path(lines: Seq<PlannerLineDto>, i: int) -> Option<
    Seq<(Seq<u8>, Seq<u8>)>,
> {
    path_within(lines, i, lines.len())
}

/// The path of a line, found by its identifier among `lines`.
pub open spec fn path_of_line(lines: Seq<PlannerLineDto>, line: PlannerLineDto) -> Option<
    Seq<(Seq<u8>, Seq<u8>)>,
> {
    outline_path(lines, line_with_id(lines, line.id.0@))
}

// ---------------------------------------------------------------------------
// Properties of the orders
// ---------------------------------------------------------------------------
/// No byte string comes before itself.
pub proof fn lemma_bytes_less_irreflexive(a: Seq<u8>)
    ensures
        !bytes_less(a, a),
    decreases a.len(),
{
    if a.len() > 0 {
        lemma_bytes_less_irreflexive(a.drop_first());
    }
}

/// A byte string comes before every longer string that begins with it, and never after it
/// (so "a0" precedes "a0V").
pub proof fn lemma_bytes_less_proper_prefix(p: Seq<u8>, s: Seq<u8>)
    requires
        s.len() > 0,
    ensures
        bytes_less(p, p + s),
        !bytes_less(p + s, p),
    decreases p.len(),
{
    if p.len() > 0 {
        assert((p + s).drop_first() =~= p.drop_first() + s);
        assert((p + s)[0] == p[0]);
        lemma_bytes_less_proper_prefix(p.drop_first(), s);
    }
}

/// Where two byte strings first differ, the one with the smaller byte there comes first,
/// whatever follows and whatever their lengths (so "a0V" precedes "a1").
pub proof fn lemma_bytes_less_first_difference(p: Seq<u8>, x: u8, y: u8, s: Seq<u8>, t: Seq<u8>)
    requires
        x != y,
    ensures
        bytes_less(p + seq![x] + s, p + seq![y] + t) == (x < y),
    decreases p.len(),
{
    let a = p + seq![x] + s;
    let b = p + seq![y] + t;
    if p.len() > 0 {
        assert(a[0] == p[0]);
        assert(b[0] == p[0]);
        assert(a.drop_first() =~= p.drop_first() + seq![x] + s);
        assert(b.drop_first() =~= p.drop_first() + seq![y] + t);
        lemma_bytes_less_first_difference(p.drop_first(), x, y, s, t);
    } else {
        assert(a[0] == x);
        assert(b[0] == y);
    }
}

/// Between siblings the sibling keys decide; only between equal keys do the identifiers
/// decide.
pub proof fn lemma_sibling_position_order(
    key_a: Seq<u8>,
    id_a: Seq<u8>,
    key_b: Seq<u8>,
    id_b: Seq<u8>,
)
    ensures
        key_a != key_b ==> position_less((key_a, id_a), (key_b, id_b)) == bytes_less(
            key_a,
            key_b,
        ),
        key_a == key_b ==> position_less((key_a, id_a), (key_b, id_b)) == bytes_less(
            id_a,
            id_b,
        ),
{
    if key_a == key_b {
        lemma_bytes_less_irreflexive(key_a);
    }
}

proof fn lemma_bytes_less_total(a: Seq<u8>, b: Seq<u8>)
    requires
        a != b,
    ensures
        bytes_less(a, b) || bytes_less(b, a),
    decreases a.len(),
{
    if a.len() > 0 && b.len() > 0 && a[0] == b[0] {
        if a.drop_first() == b.drop_first() {
            assert(a =~= seq![a[0]] + a.drop_first());
            assert(b =~= seq![b[0]] + b.drop_first());
        }
        lemma_bytes_less_total(a.drop_first(), b.drop_first());
    } else if a.len() == 0 && b.len() == 0 {
        assert(a =~= b);
    }
}

proof fn lemma_bytes_less_transitive(a: Seq<u8>, b: Seq<u8>, c: Seq<u8>)
    requires
        bytes_less(a, b),
        bytes_less(b, c),
    ensures
        bytes_less(a, c),
    decreases a.len(),
{
    if a.len() > 0 && b.len() > 0 && c.len() > 0 && a[0] == b[0] && b[0] == c[0] {
        lemma_bytes_less_transitive(a.drop_first(), b.drop_first(), c.drop_first());
    }
}

proof fn lemma_position_less_irreflexive(a: (Seq<u8>, Seq<u8>))
    ensures
        !position_less(a, a),
{
    lemma_bytes_less_irreflexive(a.0);
    lemma_bytes_less_irreflexive(a.1);
}

proof fn lemma_position_less_total(a: (Seq<u8>, Seq<u8>), b: (Seq<u8>, Seq<u8>))
    requires
        a != b,
    ensures
        position_less(a, b) || position_less(b, a),
{
    if a.0 != b.0 {
        lemma_bytes_less_total(a.0, b.0);
    } else {
        lemma_bytes_less_total(a.1, b.1);
    }
}

proof fn lemma_position_less_transitive(
    a: (Seq<u8>, Seq<u8>),
    b: (Seq<u8>, Seq<u8>),
    c: (Seq<u8>, Seq<u8>),
)
    requires
        position_less(a, b),
        position_less(b, c),
    ensures
        position_less(a, c),
{
    if bytes_less(a.0, b.0) && bytes_less(b.0, c.0) {
        lemma_bytes_less_transitive(a.0, b.0, c.0);
    } else if bytes_less(a.1, b.1) && bytes_less(b.1, c.1) && a.0 == b.0 && b.0 == c.0 {
        lemma_bytes_less_transitive(a.1, b.1, c.1);
    }
}

pub proof fn lemma_path_less_irreflexive(p: Seq<(Seq<u8>, Seq<u8>)>)
    ensures
        !path_less(p, p),
    decreases p.len(),
{
    if p.len() > 0 {
        lemma_path_less_irreflexive(p.drop_first());
    }
}

proof fn lemma_path_less_total(p: Seq<(Seq<u8>, Seq<u8>)>, q: Seq<(Seq<u8>, Seq<u8>)>)
    requires
        p != q,
    ensures
        path_less(p, q) || path_less(q, p),
    decreases p.len(),
{
    if p.len() > 0 && q.len() > 0 {
        if p[0] == q[0] {
            if p.drop_first() == q.drop_first() {
                assert(p =~= seq![p[0]] + p.drop_first());
                assert(q =~= seq![q[0]] + q.drop_first());
            }
            lemma_path_less_total(p.drop_first(), q.drop_first());
        } else {
            lemma_position_less_total(p[0], q[0]);
        }
    } else if p.len() == 0 && q.len() == 0 {
        assert(p =~= q);
    }
}

proof fn lemma_path_less_transitive(
    p: Seq<(Seq<u8>, Seq<u8>)>,
    q: Seq<(Seq<u8>, Seq<u8>)>,
    r: Seq<(Seq<u8>, Seq<u8>)>,
)
    requires
        path_less(p, q),
        path_less(q, r),
    ensures
        path_less(p, r),
    decreases p.len(),
{
    if p.len() > 0 && q.len() > 0 && r.len() > 0 {
        if p[0] == q[0] && q[0] == r[0] {
            lemma_path_less_transitive(p.drop_first(), q.drop_first(), r.drop_first());
        } else if p[0] == q[0] {
        } else if q[0] == r[0] {
        } else {
            lemma_position_less_transitive(p[0], q[0], r[0]);
            if p[0] == r[0] {
                lemma_position_less_transitive(p[0], q[0], p[0]);
                lemma_position_less_irreflexive(p[0]);
            }
        }
    }
}

/// A path precedes every path that extends it.
pub proof fn lemma_path_less_prefix(p: Seq<(Seq<u8>, Seq<u8>)>, q: Seq<(Seq<u8>, Seq<u8>)>)
    requires
        q.len() > 0,
    ensures
        path_less(p, p + q),
    decreases p.len(),
{
    if p.len() > 0 {
        assert((p + q).drop_first() =~= p.drop_first() + q);
        lemma_path_less_prefix(p.drop_first(), q);
    }
}

/// Two paths that agree up to their last step are ordered as their last positions.
pub proof fn lemma_path_less_siblings(
    p: Seq<(Seq<u8>, Seq<u8>)>,
    a: (Seq<u8>, Seq<u8>),
    b: (Seq<u8>, Seq<u8>),
)
    requires
        a != b,
    ensures
        path_less(p.push(a), p.push(b)) == position_less(a, b),
    decreases p.len(),
{
    if p.len() > 0 {
        assert(p.push(a).drop_first() =~= p.drop_first().push(a));
        assert(p.push(b).drop_first() =~= p.drop_first().push(b));
        lemma_path_less_siblings(p.drop_first(), a, b);
    } else {
        assert(p.push(a) =~= seq![a]);
        assert(p.push(b) =~= seq![b]);
    }
}

proof fn lemma_encode_injective(a: Seq<char>, b: Seq<char>)
    requires
        encode_utf8(a) == encode_utf8(b),
    ensures
        a == b,
{
    encode_utf8_decode_utf8(a);
    encode_utf8_decode_utf8(b);
}

/// The path of a line, when it has one, ends at that line's own position.
pub proof fn lemma_path_ends_at_line(lines: Seq<PlannerLineDto>, i: int, fuel: nat)
    requires
        0 <= i < lines.len(),
        path_within(lines, i, fuel) is Some,
    ensures
        path_within(lines, i, fuel)->0.len() > 0,
        path_within(lines, i, fuel)->0.last() == line_position(lines[i]),
    decreases fuel,
{
}

proof fn lemma_positions_differ(lines: Seq<PlannerLineDto>, i: int, j: int)
    requires
        ids_distinct(lines),
        0 <= i < lines.len(),
        0 <= j < lines.len(),
        i != j,
    ensures
        line_position(lines[i]) != line_position(lines[j]),
{
    if line_position(lines[i]) == line_position(lines[j]) {
        lemma_encode_injective(lines[i].id.0@, lines[j].id.0@);
    }
}

proof fn lemma_line_with_id_unique(lines: Seq<PlannerLineDto>, j: int)
    requires
        ids_distinct(lines),
        0 <= j < lines.len(),
    ensures
        has_line_with_id(lines, lines[j].id.0@),
        line_with_id(lines, lines[j].id.0@) == j,
{
    assert(lines[j].id.0@ == lines[j].id.0@);
    let k = line_with_id(lines, lines[j].id.0@);
    assert(0 <= k < lines.len() && lines[k].id.0@ == lines[j].id.0@);
}

proof fn lemma_path_within_more_fuel(lines: Seq<PlannerLineDto>, i: int, fuel: nat, more: nat)
    requires
        0 <= i < lines.len(),
        fuel <= more,
        path_within(lines, i, fuel) is Some,
    ensures
        path_within(lines, i, more) == path_within(lines, i, fuel),
    decreases fuel,
{
    if lines[i].parent_id is Some {
        let parent = lines[i].parent_id->0;
        let j = line_with_id(lines, parent.0@);
        lemma_path_within_more_fuel(lines, j, (fuel - 1) as nat, (more - 1) as nat);
    }
}

/// A line that hangs from a root is listed after its parent, which hangs from the root
/// as well: the parent's path is a proper prefix of the child's.
pub proof fn lemma_parent_listed_before_child(lines: Seq<PlannerLineDto>, child: int, parent: int)
    requires
        ids_distinct(lines),
        0 <= child < lines.len(),
        0 <= parent < lines.len(),
        lines[child].parent_id matches Some(id) && id.0@ == lines[parent].id.0@,
        outline_path(lines, child) is Some,
    ensures
        outline_path(lines, parent) is Some,
        path_less(outline_path(lines, parent)->0, outline_path(lines, child)->0),
{
    lemma_line_with_id_unique(lines, parent);
    let n = lines.len();
    let upper = path_within(lines, parent, (n - 1) as nat);
    lemma_path_within_more_fuel(lines, parent, (n - 1) as nat, n as nat);
    let p = upper->0;
    assert(p.push(line_position(lines[child])) =~= p + seq![line_position(lines[child])]);
    lemma_path_less_prefix(p, seq![line_position(lines[child])]);
}

/// Two distinct lines with the same parent (or two roots), both hanging from a root, are
/// listed in the order of their sibling keys, and of their identifiers between equal keys.
pub proof fn lemma_siblings_listed_in_key_order(lines: Seq<PlannerLineDto>, first: int, second: int)
    requires
        ids_distinct(lines),
        0 <= first < lines.len(),
        0 <= second < lines.len(),
        first != second,
        lines[first].parent_id is None <==> lines[second].parent_id is None,
        lines[first].parent_id matches Some(a) ==> lines[second].parent_id matches Some(b)
            && a.0@ == b.0@,
        outline_path(lines, first) is Some,
        outline_path(lines, second) is Some,
    ensures
        path_less(outline_path(lines, first)->0, outline_path(lines, second)->0) == position_less(
            line_position(lines[first]),
            line_position(lines[second]),
        ),
{
    lemma_positions_differ(lines, first, second);
    let a = line_position(lines[first]);
    let b = line_position(lines[second]);
    if lines[first].parent_id is None {
        assert(seq![a] =~= Seq::<(Seq<u8>, Seq<u8>)>::empty().push(a));
        assert(seq![b] =~= Seq::<(Seq<u8>, Seq<u8>)>::empty().push(b));
        lemma_path_less_siblings(Seq::empty(), a, b);
    } else {
        let n = lines.len();
        let parent_id = lines[first].parent_id->0;
        let parent = line_with_id(lines, parent_id.0@);
        let p = path_within(lines, parent, (n - 1) as nat)->0;
        lemma_path_less_siblings(p, a, b);
    }
}

// ---------------------------------------------------------------------------
// Computing the order
// ---------------------------------------------------------------------------
/// The positions of the lines that a chain of indices names, in chain order.
pub open spec fn chain_positions(lines: Seq<PlannerLineDto>, chain: Seq<usize>) -> Seq<
    (Seq<u8>, Seq<u8>),
> {
    chain.map_values(|j: usize| line_position(lines[j as int]))
}

fn bytes_before(a: &[u8], b: &[u8]) -> (less: bool)
    ensures
        less == bytes_less(a@, b@),
{
    let mut k: usize = 0;
    assert(a@.skip(0) =~= a@);
    assert(b@.skip(0) =~= b@);
    while k < a.len() && k < b.len()
        invariant
            k <= a@.len(),
            k <= b@.len(),
            bytes_less(a@, b@) == bytes_less(a@.skip(k as int), b@.skip(k as int)),
        decreases a@.len() - k,
    {
        if a[k] != b[k] {
            return a[k] < b[k];
        }
        assert(a@.skip(k as int).drop_first() =~= a@.skip(k + 1));
        assert(b@.skip(k as int).drop_first() =~= b@.skip(k + 1));
        k = k + 1;
    }
    k < b.len()
}

fn position_before(x: &PlannerLineDto, y: &PlannerLineDto) -> (less: bool)
    ensures
        less == position_less(line_position(*x), line_position(*y)),
{
    let key_x = x.sibling_key.0.as_str().as_bytes();
    let key_y = y.sibling_key.0.as_str().as_bytes();
    if bytes_before(key_x, key_y) {
        return true;
    }
    let same_key = x.sibling_key.0 == y.sibling_key.0;
    proof {
        if encode_utf8(x.sibling_key.0@) == encode_utf8(y.sibling_key.0@) {
            lemma_encode_injective(x.sibling_key.0@, y.sibling_key.0@);
        }
    }
    if same_key {
        bytes_before(x.id.0.as_str().as_bytes(), y.id.0.as_str().as_bytes())
    } else {
        false
    }
}

fn find_line(lines: &Vec<PlannerLineDto>, id: &String) -> (found: Option<usize>)
    ensures
        found is None <==> !has_line_with_id(lines@, id@),
        found matches Some(j) ==> j < lines@.len() && lines@[j as int].id.0@ == id@,
{
    let mut j: usize = 0;
    while j < lines.len()
        invariant
            j <= lines@.len(),
            forall|k: int| 0 <= k < j ==> lines@[k].id.0@ != id@,
        decreases lines@.len() - j,
    {
        if lines[j].id.0 == *id {
            return Some(j);
        }
        j = j + 1;
    }
    assert(!has_line_with_id(lines@, id@));
    None
}

fn reversed(up: &Vec<usize>) -> (chain: Vec<usize>)
    ensures
        chain@ =~= Seq::new(up@.len(), |k: int| up@[up@.len() - 1 - k]),
{
    let len = up.len();
    let mut chain: Vec<usize> = Vec::new();
    let mut r: usize = 0;
    while r < len
        invariant
            len == up@.len(),
            r <= len,
            chain@ =~= Seq::new(r as nat, |k: int| up@[len - 1 - k]),
        decreases len - r,
    {
        chain.push(up[len - 1 - r]);
        r = r + 1;
    }
    chain
}

/// The indices from a root down to line `i`, or `None` when the line hangs from no root.
fn ancestor_chain(lines: &Vec<PlannerLineDto>, i: usize) -> (chain: Option<Vec<usize>>)
    requires
        i < lines@.len(),
        ids_distinct(lines@),
    ensures
        chain is None <==> outline_path(lines@, i as int) is None,
        chain matches Some(c) ==> {
            &&& c@.len() > 0
            &&& c@.last() == i
            &&& forall|k: int| 0 <= k < c@.len() ==> #[trigger] c@[k] < lines@.len()
            &&& chain_positions(lines@, c@) == outline_path(lines@, i as int)->0
        },
{
    let n = lines.len();
    let mut up: Vec<usize> = Vec::new();
    up.push(i);
    let mut cur = i;
    let mut fuel = n;
    let ghost mut below: Seq<(Seq<u8>, Seq<u8>)> = Seq::empty();
    loop
        invariant
            n == lines@.len(),
            ids_distinct(lines@),
            up@.len() >= 1,
            up@[0] == i,
            cur == up@.last(),
            cur < n,
            fuel <= n,
            forall|k: int| 0 <= k < up@.len() ==> #[trigger] up@[k] < n,
            below =~= Seq::new(
                (up@.len() - 1) as nat,
                |k: int| line_position(lines@[up@[up@.len() - 2 - k] as int]),
            ),
            outline_path(lines@, i as int) == match path_within(lines@, cur as int, fuel as nat) {
                Some(p) => Some(p + below),
                None => None,
            },
        decreases fuel,
    {
        match &lines[cur].parent_id {
            None => {
                let chain = reversed(&up);
                proof {
                    assert(path_within(lines@, cur as int, fuel as nat) == Some(
                        seq![line_position(lines@[cur as int])],
                    ));
                    assert(chain_positions(lines@, chain@) =~= seq![
                        line_position(lines@[cur as int]),
                    ] + below);
                    assert(chain@.last() == up@[0]);
                    assert forall|k: int| 0 <= k < chain@.len() implies #[trigger] chain@[k]
                        < lines@.len() by {
                        assert(chain@[k] == up@[up@.len() - 1 - k]);
                    }
                }
                return Some(chain);
            },
            Some(parent) => {
                if fuel == 0 {
                    return None;
                }
                let j = match find_line(lines, &parent.0) {
                    Some(j) => j,
                    None => return None,
                };
                proof {
                    lemma_line_with_id_unique(lines@, j as int);
                    let old_below = below;
                    below = seq![line_position(lines@[cur as int])] + old_below;
                    match path_within(lines@, j as int, (fuel - 1) as nat) {
                        Some(p) => {
                            assert(p.push(line_position(lines@[cur as int])) + old_below =~= p
                                + below);
                        },
                        None => {},
                    }
                }
                up.push(j);
                cur = j;
                fuel = fuel - 1;
                proof {
                    assert forall|k: int| 0 <= k < up@.len() implies #[trigger] up@[k] < n by {
                        if k < up@.len() - 1 {
                            assert(up@[k] == up@.drop_last()[k]);
                        }
                    }
                }
            },
        }
    }
}

/// Whether the line at the end of chain `a` is listed before the one at the end of `b`.
fn chain_before(lines: &Vec<PlannerLineDto>, a: &Vec<usize>, b: &Vec<usize>) -> (less: bool)
    requires
        ids_distinct(lines@),
        forall|k: int| 0 <= k < a@.len() ==> #[trigger] a@[k] < lines@.len(),
        forall|k: int| 0 <= k < b@.len() ==> #[trigger] b@[k] < lines@.len(),
    ensures
        less == path_less(chain_positions(lines@, a@), chain_positions(lines@, b@)),
{
    let ghost p = chain_positions(lines@, a@);
    let ghost q = chain_positions(lines@, b@);
    let mut k: usize = 0;
    assert(p.skip(0) =~= p);
    assert(q.skip(0) =~= q);
    while k < a.len() && k < b.len()
        invariant
            k <= a@.len(),
            k <= b@.len(),
            p == chain_positions(lines@, a@),
            q == chain_positions(lines@, b@),
            ids_distinct(lines@),
            forall|t: int| 0 <= t < a@.len() ==> #[trigger] a@[t] < lines@.len(),
            forall|t: int| 0 <= t < b@.len() ==> #[trigger] b@[t] < lines@.len(),
            path_less(p, q) == path_less(p.skip(k as int), q.skip(k as int)),
        decreases a@.len() - k,
    {
        let x = a[k];
        let y = b[k];
        if x != y {
            proof {
                lemma_positions_differ(lines@, x as int, y as int);
                assert(p.skip(k as int)[0] == line_position(lines@[x as int]));
                assert(q.skip(k as int)[0] == line_position(lines@[y as int]));
            }
            return position_before(&lines[x], &lines[y]);
        }
        assert(p.skip(k as int).drop_first() =~= p.skip(k + 1));
        assert(q.skip(k as int).drop_first() =~= q.skip(k + 1));
        k = k + 1;
    }
    k < b.len()
}

/// Whether no two of `lines` share an identifier, as the table's primary key promises of
/// the lines read back.
pub fn ids_are_distinct(lines: &Vec<PlannerLineDto>) -> (distinct: bool)
    ensures
        distinct == ids_distinct(lines@),
{
    let n = lines.len();
    let mut i: usize = 0;
    while i < n
        invariant
            n == lines@.len(),
            i <= n,
            forall|a: int, b: int|
                0 <= a < i && 0 <= b < n && a != b ==> #[trigger] lines@[a].id.0@
                    != #[trigger] lines@[b].id.0@,
        decreases n - i,
    {
        let mut j: usize = 0;
        while j < n
            invariant
                n == lines@.len(),
                i < n,
                j <= n,
                forall|a: int, b: int|
                    0 <= a < i && 0 <= b < n && a != b ==> #[trigger] lines@[a].id.0@
                        != #[trigger] lines@[b].id.0@,
                forall|b: int| 0 <= b < j && b != i ==> lines@[i as int].id.0@ != #[trigger] lines@[b].id.0@,
            decreases n - j,
        {
            if j != i && lines[i].id.0 == lines[j].id.0 {
                return false;
            }
            j = j + 1;
        }
        i = i + 1;
    }
    true
}

/// `line` is one of `lines` and hangs from a root of their tree.
pub open spec fn hangs_from_root(lines: Seq<PlannerLineDto>, line: PlannerLineDto) -> bool {
    exists|i: int| 0 <= i < lines.len() && outline_path(lines, i) is Some && line == lines[i]
}

/// An entry of the order under construction: a line index and its chain from a root.
pub open spec fn is_listed_entry(lines: Seq<PlannerLineDto>, entry: (usize, Vec<usize>)) -> bool {
    &&& entry.0 < lines.len()
    &&& outline_path(lines, entry.0 as int) is Some
    &&& forall|k: int| 0 <= k < entry.1@.len() ==> #[trigger] entry.1@[k] < lines.len()
    &&& chain_positions(lines, entry.1@) == outline_path(lines, entry.0 as int)->0
}

pub open spec fn entry_path(lines: Seq<PlannerLineDto>, entry: (usize, Vec<usize>)) -> Seq<
    (Seq<u8>, Seq<u8>),
> {
    outline_path(lines, entry.0 as int)->0
}

/// Arranges the stored lines of one day as the outline lists them: every line that hangs
/// from a root, in depth-first order with each line before its descendants and siblings
/// in order of sibling key bytes, then identifier bytes. Lines whose parent is missing
/// from `lines`, or whose ancestors form a cycle, are left out.
pub fn arrange_outline(lines: &Vec<PlannerLineDto>) -> (ordered: Vec<PlannerLineDto>)
    requires
        ids_distinct(lines@),
    ensures
        forall|k: int| 0 <= k < ordered@.len() ==> hangs_from_root(lines@, #[trigger] ordered@[k]),
        forall|i: int|
            0 <= i < lines@.len() && outline_path(lines@, i) is Some ==> ordered@.contains(
                #[trigger] lines@[i],
            ),
        forall|a: int, b: int|
            0 <= a < b < ordered@.len() ==> path_less(
                #[trigger] path_of_line(lines@, ordered@[a])->0,
                #[trigger] path_of_line(lines@, ordered@[b])->0,
            ),
{
    let n = lines.len();
    let mut sorted: Vec<(usize, Vec<usize>)> = Vec::new();
    let mut i: usize = 0;
    while i < n
        invariant
            n == lines@.len(),
            i <= n,
            ids_distinct(lines@),
            forall|s: int| 0 <= s < sorted@.len() ==> is_listed_entry(lines@, #[trigger] sorted@[s]),
            forall|s: int| 0 <= s < sorted@.len() ==> #[trigger] sorted@[s].0 < i,
            forall|t: int|
                0 <= t < i && outline_path(lines@, t) is Some ==> exists|s: int|
                    0 <= s < sorted@.len() && #[trigger] sorted@[s].0 == t,
            forall|a: int, b: int|
                0 <= a < b < sorted@.len() ==> path_less(
                    entry_path(lines@, #[trigger] sorted@[a]),
                    entry_path(lines@, #[trigger] sorted@[b]),
                ),
        decreases n - i,
    {
        match ancestor_chain(lines, i) {
            None => {},
            Some(chain) => {
                let ghost new_path = outline_path(lines@, i as int)->0;
                let mut p: usize = 0;
                while p < sorted.len() && !chain_before(lines, &chain, &sorted[p].1)
                    invariant
                        p <= sorted@.len(),
                        ids_distinct(lines@),
                        forall|k: int| 0 <= k < chain@.len() ==> #[trigger] chain@[k] < lines@.len(),
                        chain_positions(lines@, chain@) == new_path,
                        forall|s: int|
                            0 <= s < sorted@.len() ==> is_listed_entry(lines@, #[trigger] sorted@[s]),
                        forall|s: int|
                            0 <= s < p ==> path_less(entry_path(lines@, #[trigger] sorted@[s]), new_path),
                        forall|s: int| 0 <= s < sorted@.len() ==> #[trigger] sorted@[s].0 < i,
                        outline_path(lines@, i as int) is Some,
                        new_path == outline_path(lines@, i as int)->0,
                        i < lines@.len(),
                    decreases sorted@.len() - p,
                {
                    proof {
                        let e = sorted@[p as int];
                        lemma_path_ends_at_line(lines@, e.0 as int, lines@.len() as nat);
                        lemma_path_ends_at_line(lines@, i as int, lines@.len() as nat);
                        lemma_positions_differ(lines@, e.0 as int, i as int);
                        lemma_path_less_total(entry_path(lines@, e), new_path);
                    }
                    p = p + 1;
                }
                let ghost old_sorted = sorted@;
                proof {
                    assert forall|s: int| p <= s < old_sorted.len() implies path_less(
                        new_path,
                        entry_path(lines@, #[trigger] old_sorted[s]),
                    ) by {
                        if s > p {
                            lemma_path_less_transitive(
                                new_path,
                                entry_path(lines@, old_sorted[p as int]),
                                entry_path(lines@, old_sorted[s]),
                            );
                        }
                    }
                }
                sorted.insert(p, (i, chain));
                proof {
                    old_sorted.insert_ensures(p as int, (i, chain));
                    assert forall|a: int, b: int| 0 <= a < b < sorted@.len() implies path_less(
                        entry_path(lines@, #[trigger] sorted@[a]),
                        entry_path(lines@, #[trigger] sorted@[b]),
                    ) by {
                        if b < p {
                        } else if b == p {
                        } else if a < p {
                            assert(sorted@[b] == old_sorted[b - 1]);
                            lemma_path_less_transitive(
                                entry_path(lines@, old_sorted[a]),
                                new_path,
                                entry_path(lines@, old_sorted[b - 1]),
                            );
                        } else if a == p {
                            assert(sorted@[b] == old_sorted[b - 1]);
                        } else {
                            assert(sorted@[a] == old_sorted[a - 1]);
                            assert(sorted@[b] == old_sorted[b - 1]);
                        }
                    }
                    assert forall|s: int| 0 <= s < sorted@.len() implies is_listed_entry(
                        lines@,
                        #[trigger] sorted@[s],
                    ) by {
                        if s > p {
                            assert(sorted@[s] == old_sorted[s - 1]);
                        }
                    }
                    assert forall|s: int| 0 <= s < sorted@.len() implies #[trigger] sorted@[s].0
                        < i + 1 by {
                        if s > p {
                            assert(sorted@[s] == old_sorted[s - 1]);
                        }
                    }
                    assert forall|t: int|
                        0 <= t < i + 1 && outline_path(lines@, t) is Some implies exists|s: int|
                        0 <= s < sorted@.len() && #[trigger] sorted@[s].0 == t by {
                        if t == i {
                            assert(sorted@[p as int].0 == t);
                        } else {
                            let s0 = choose|s: int|
                                0 <= s < old_sorted.len() && #[trigger] old_sorted[s].0 == t;
                            if s0 < p {
                                assert(sorted@[s0].0 == t);
                            } else {
                                assert(sorted@[s0 + 1].0 == t);
                            }
                        }
                    }
                }
            },
        }
        i = i + 1;
    }
    let mut ordered: Vec<PlannerLineDto> = Vec::new();
    let mut s: usize = 0;
    while s < sorted.len()
        invariant
            s <= sorted@.len(),
            ordered@.len() == s,
            forall|t: int| 0 <= t < sorted@.len() ==> is_listed_entry(lines@, #[trigger] sorted@[t]),
            forall|t: int| 0 <= t < s ==> #[trigger] ordered@[t] == lines@[sorted@[t].0 as int],
        decreases sorted@.len() - s,
    {
        let index = sorted[s].0;
        ordered.push(lines[index].clone());
        s = s + 1;
    }
    proof {
        assert forall|k: int| 0 <= k < ordered@.len() implies hangs_from_root(
            lines@,
            #[trigger] ordered@[k],
        ) by {
            assert(is_listed_entry(lines@, sorted@[k]));
            assert(ordered@[k] == lines@[sorted@[k].0 as int]);
        }
        assert forall|t: int| 0 <= t < lines@.len() && outline_path(lines@, t) is Some implies ordered@.contains(
            #[trigger] lines@[t],
        ) by {
            let s0 = choose|s: int| 0 <= s < sorted@.len() && #[trigger] sorted@[s].0 == t;
            assert(ordered@[s0] == lines@[t]);
        }
        assert forall|a: int, b: int| 0 <= a < b < ordered@.len() implies path_less(
            #[trigger] path_of_line(lines@, ordered@[a])->0,
            #[trigger] path_of_line(lines@, ordered@[b])->0,
        ) by {
            lemma_line_with_id_unique(lines@, sorted@[a].0 as int);
            lemma_line_with_id_unique(lines@, sorted@[b].0 as int);
            assert(path_less(entry_path(lines@, sorted@[a]), entry_path(lines@, sorted@[b])));
        }
    }
    ordered
}

} // verus!
