use vstd::prelude::*;

use crate::node::{display_name_spec, VmessNode};
use crate::status::{key_le, latency_sort_key, sort_key_spec, LatencyStatus};
use crate::text::{lemma_lex_total, lemma_lex_trans, lex_le, str_eq, str_lex_le};

verus! {

/// The column the view is sorted by.
#[derive(Debug, Clone, Copy, PartialEq, Eq, Structural)]
pub enum SortColumn {
    /// Canonical (insertion) order.
    Canonical,
    Name,
    Tcp,
    Http,
}

/// The direction of the sort.
#[derive(Debug, Clone, Copy, PartialEq, Eq, Structural)]
pub enum SortDirection {
    Ascending,
    Descending,
}

pub open spec fn column_from_spec(s: Option<Seq<char>>) -> SortColumn {
    match s {
        Some(t) => if t == "name"@ {
            SortColumn::Name
        } else if t == "tcp"@ {
            SortColumn::Tcp
        } else if t == "http"@ {
            SortColumn::Http
        } else {
            SortColumn::Canonical
        },
        None => SortColumn::Canonical,
    }
}

pub open spec fn direction_from_spec(s: Option<Seq<char>>) -> SortDirection {
    match s {
        Some(t) => if t == "desc"@ {
            SortDirection::Descending
        } else {
            SortDirection::Ascending
        },
        None => SortDirection::Ascending,
    }
}

pub open spec fn opt_view(s: Option<&str>) -> Option<Seq<char>> {
    match s {
        Some(t) => Some(t@),
        None => None,
    }
}

impl SortColumn {
    pub open spec fn next_spec(self) -> SortColumn {
        match self {
            SortColumn::Canonical => SortColumn::Tcp,
            SortColumn::Tcp => SortColumn::Http,
            SortColumn::Http => SortColumn::Name,
            SortColumn::Name => SortColumn::Canonical,
        }
    }

    /// The next column in the cycle canonical, TCP, HTTP, name.
    pub fn next(self) -> (r: Self)
        ensures
            r == self.next_spec(),
    {
        match self {
            SortColumn::Canonical => SortColumn::Tcp,
            SortColumn::Tcp => SortColumn::Http,
            SortColumn::Http => SortColumn::Name,
            SortColumn::Name => SortColumn::Canonical,
        }
    }

    /// The stored name of the column; nothing for canonical order.
    pub fn to_str(self) -> (r: Option<&'static str>)
        ensures
            match self {
                SortColumn::Canonical => r is None,
                SortColumn::Name => r is Some && r->0@ == "name"@,
                SortColumn::Tcp => r is Some && r->0@ == "tcp"@,
                SortColumn::Http => r is Some && r->0@ == "http"@,
            },
    {
        match self {
            SortColumn::Canonical => None,
            SortColumn::Name => Some("name"),
            SortColumn::Tcp => Some("tcp"),
            SortColumn::Http => Some("http"),
        }
    }

    /// Reads a stored column name; anything unknown means canonical order.
    pub fn from_str(s: Option<&str>) -> (r: Self)
        ensures
            r == column_from_spec(opt_view(s)),
    {
        match s {
            Some(t) => if str_eq(t, "name") {
                SortColumn::Name
            } else if str_eq(t, "tcp") {
                SortColumn::Tcp
            } else if str_eq(t, "http") {
                SortColumn::Http
            } else {
                SortColumn::Canonical
            },
            None => SortColumn::Canonical,
        }
    }
}

impl SortDirection {
    pub fn toggle(self) -> (r: Self)
        ensures
            r == match self {
                SortDirection::Ascending => SortDirection::Descending,
                SortDirection::Descending => SortDirection::Ascending,
            },
    {
        match self {
            SortDirection::Ascending => SortDirection::Descending,
            SortDirection::Descending => SortDirection::Ascending,
        }
    }

    /// The stored name of the direction.
    pub fn to_str(self) -> (r: &'static str)
        ensures
            match self {
                SortDirection::Ascending => r@ == "asc"@,
                SortDirection::Descending => r@ == "desc"@,
            },
    {
        match self {
            SortDirection::Ascending => "asc",
            SortDirection::Descending => "desc",
        }
    }

    /// Reads a stored direction; only `desc` means descending.
    pub fn from_str(s: Option<&str>) -> (r: Self)
        ensures
            r == direction_from_spec(opt_view(s)),
    {
        match s {
            Some(t) => if str_eq(t, "desc") {
                SortDirection::Descending
            } else {
                SortDirection::Ascending
            },
            None => SortDirection::Ascending,
        }
    }
}

/// A node of the sorted view, with its position in the canonical list.
#[derive(Debug)]
pub struct IndexedNode {
    pub node: VmessNode,
    pub original_index: usize,
}

impl Clone for IndexedNode {
    fn clone(&self) -> (r: Self)
        ensures
            r == *self,
    {
        IndexedNode { node: self.node.clone(), original_index: self.original_index }
    }
}

/// Ascending order of two view rows by a column.
pub open spec fn column_le(a: IndexedNode, b: IndexedNode, col: SortColumn) -> bool {
    match col {
        SortColumn::Canonical => a.original_index <= b.original_index,
        SortColumn::Name => lex_le(display_name_spec(a.node), display_name_spec(b.node)),
        SortColumn::Tcp => key_le(sort_key_spec(a.node.tcp_latency), sort_key_spec(b.node.tcp_latency)),
        SortColumn::Http => key_le(
            sort_key_spec(a.node.http_latency),
            sort_key_spec(b.node.http_latency),
        ),
    }
}

/// The order of the view: the column's order, reversed whole when descending.
/// Canonical order ignores the direction.
pub open spec fn row_le(a: IndexedNode, b: IndexedNode, col: SortColumn, dir: SortDirection) -> bool {
    if col != SortColumn::Canonical && dir == SortDirection::Descending {
        column_le(b, a, col)
    } else {
        column_le(a, b, col)
    }
}

pub open spec fn sorted_by(s: Seq<IndexedNode>, col: SortColumn, dir: SortDirection) -> bool {
    forall|i: int, j: int| 0 <= i < j < s.len() ==> row_le(#[trigger] s[i], #[trigger] s[j], col, dir)
}

/// `out[k]` is `inp[perm[k]]`, and `perm` picks each position of `inp` once.
pub open spec fn permutes(out: Seq<IndexedNode>, inp: Seq<IndexedNode>, perm: Seq<int>) -> bool {
    &&& out.len() == inp.len()
    &&& perm.len() == inp.len()
    &&& forall|k: int| 0 <= k < perm.len() ==> 0 <= #[trigger] perm[k] < inp.len()
    &&& forall|k: int| 0 <= k < perm.len() ==> out[k] == inp[#[trigger] perm[k]]
    &&& forall|k: int, l: int| 0 <= k < l < perm.len() ==> #[trigger] perm[k] != #[trigger] perm[l]
}

/// Rows that the order ties keep their relative order.
pub open spec fn keeps_ties(
    out: Seq<IndexedNode>,
    perm: Seq<int>,
    col: SortColumn,
    dir: SortDirection,
) -> bool {
    forall|k: int, l: int|
        0 <= k < l < out.len() && row_le(#[trigger] out[l], #[trigger] out[k], col, dir) ==> perm[k]
            < perm[l]
}

/// `out` is the stable sort of `inp` by the column and direction.
pub open spec fn stable_sort_of(
    out: Seq<IndexedNode>,
    inp: Seq<IndexedNode>,
    col: SortColumn,
    dir: SortDirection,
) -> bool {
    exists|perm: Seq<int>|
        permutes(out, inp, perm) && sorted_by(out, col, dir) && keeps_ties(out, perm, col, dir)
}

/// The latency a latency column sorts by.
pub open spec fn column_latency(n: IndexedNode, col: SortColumn) -> LatencyStatus {
    if col == SortColumn::Http {
        n.node.http_latency
    } else {
        n.node.tcp_latency
    }
}

/// A view sorted ascending by a latency column lists the successes first, by
/// increasing milliseconds, then the timeouts, then the untested nodes.
pub proof fn lemma_latency_order(s: Seq<IndexedNode>, col: SortColumn)
    requires
        col == SortColumn::Tcp || col == SortColumn::Http,
        sorted_by(s, col, SortDirection::Ascending),
    ensures
        forall|i: int, j: int|
            0 <= i < j < s.len() ==> match (column_latency(#[trigger] s[i], col), column_latency(#[trigger] s[j], col)) {
                (LatencyStatus::Success(a), LatencyStatus::Success(b)) => a <= b,
                (_, LatencyStatus::Success(_)) => false,
                (LatencyStatus::NotTested, LatencyStatus::TimedOut) => false,
                _ => true,
            },
{
    assert forall|i: int, j: int| 0 <= i < j < s.len() implies match (
        column_latency(#[trigger] s[i], col),
        column_latency(#[trigger] s[j], col),
    ) {
        (LatencyStatus::Success(a), LatencyStatus::Success(b)) => a <= b,
        (_, LatencyStatus::Success(_)) => false,
        (LatencyStatus::NotTested, LatencyStatus::TimedOut) => false,
        _ => true,
    } by {
        assert(row_le(s[i], s[j], col, SortDirection::Ascending));
    }
}

pub proof fn lemma_row_total(a: IndexedNode, b: IndexedNode, col: SortColumn, dir: SortDirection)
    ensures
        row_le(a, b, col, dir) || row_le(b, a, col, dir),
{
    if col == SortColumn::Name {
        lemma_lex_total(display_name_spec(a.node), display_name_spec(b.node));
    }
}

pub proof fn lemma_row_trans(
    a: IndexedNode,
    b: IndexedNode,
    c: IndexedNode,
    col: SortColumn,
    dir: SortDirection,
)
    requires
        row_le(a, b, col, dir),
        row_le(b, c, col, dir),
    ensures
        row_le(a, c, col, dir),
{
    if col == SortColumn::Name {
        let (x, y, z) = (display_name_spec(a.node), display_name_spec(b.node), display_name_spec(c.node));
        if dir == SortDirection::Descending {
            lemma_lex_trans(z, y, x);
        } else {
            lemma_lex_trans(x, y, z);
        }
    }
}

/// Whether `a` belongs strictly after `b` in the view's order.
fn row_after(a: &IndexedNode, b: &IndexedNode, col: SortColumn, dir: SortDirection) -> (r: bool)
    ensures
        r == !row_le(*a, *b, col, dir),
{
    let (x, y) = if col != SortColumn::Canonical && dir == SortDirection::Descending {
        (b, a)
    } else {
        (a, b)
    };
    match col {
        SortColumn::Canonical => x.original_index > y.original_index,
        SortColumn::Name => {
            let nx = x.node.display_name();
            let ny = y.node.display_name();
            !str_lex_le(nx.as_str(), ny.as_str())
        },
        SortColumn::Tcp => {
            let kx = latency_sort_key(&x.node.tcp_latency);
            let ky = latency_sort_key(&y.node.tcp_latency);
            !(kx.0 < ky.0 || (kx.0 == ky.0 && kx.1 <= ky.1))
        },
        SortColumn::Http => {
            let kx = latency_sort_key(&x.node.http_latency);
            let ky = latency_sort_key(&y.node.http_latency);
            !(kx.0 < ky.0 || (kx.0 == ky.0 && kx.1 <= ky.1))
        },
    }
}

/// Sorts the view in place by the column and direction, keeping the relative
/// order of rows that tie.
pub fn apply_sort_to_nodes(nodes: &mut Vec<IndexedNode>, sort_column: SortColumn, sort_direction: SortDirection)
    ensures
        stable_sort_of(final(nodes)@, old(nodes)@, sort_column, sort_direction),
{
    let ghost inp = nodes@;
    let n = nodes.len();
    let mut out: Vec<IndexedNode> = Vec::new();
    let ghost mut perm: Seq<int> = Seq::empty();
    let mut i: usize = 0;
    while i < n
        invariant
            n == inp.len(),
            nodes@ == inp,
            i <= n,
            out@.len() == i,
            perm.len() == i,
            forall|k: int| 0 <= k < i ==> 0 <= #[trigger] perm[k] < i,
            forall|k: int| 0 <= k < i ==> out@[k] == inp[#[trigger] perm[k]],
            forall|k: int, l: int| 0 <= k < l < i ==> #[trigger] perm[k] != #[trigger] perm[l],
            sorted_by(out@, sort_column, sort_direction),
            keeps_ties(out@, perm, sort_column, sort_direction),
        decreases n - i,
    {
        let x = nodes[i].clone();
        let mut p: usize = out.len();
        while p > 0 && row_after(&out[p - 1], &x, sort_column, sort_direction)
            invariant
                p <= out@.len(),
                forall|j: int| p <= j < out@.len() ==> !row_le(#[trigger] out@[j], x, sort_column, sort_direction),
            decreases p,
        {
            p = p - 1;
        }
        let ghost old_out = out@;
        let ghost old_perm = perm;
        proof {
            assert forall|j: int| 0 <= j < p implies row_le(#[trigger] old_out[j], x, sort_column, sort_direction) by {
                if j < p - 1 {
                    assert(row_le(old_out[j], old_out[p - 1], sort_column, sort_direction));
                    lemma_row_trans(old_out[j], old_out[p - 1], x, sort_column, sort_direction);
                }
            }
            assert forall|j: int| p <= j < old_out.len() implies row_le(x, #[trigger] old_out[j], sort_column, sort_direction) by {
                lemma_row_total(x, old_out[j], sort_column, sort_direction);
            }
        }
        out.insert(p, x);
        proof {
            perm = old_perm.insert(p as int, i as int);
            let o = out@;
            assert(o == old_out.insert(p as int, x));
            assert forall|k: int| 0 <= k < i + 1 implies 0 <= #[trigger] perm[k] < i + 1 && o[k] == inp[perm[k]] by {
                if k < p {
                    assert(perm[k] == old_perm[k]);
                } else if k > p {
                    assert(perm[k] == old_perm[k - 1]);
                }
            }
            assert forall|k: int, l: int| 0 <= k < l < i + 1 implies #[trigger] perm[k] != #[trigger] perm[l] by {
                if k != p && l != p {
                    let k0 = if k < p { k } else { k - 1 };
                    let l0 = if l < p { l } else { l - 1 };
                    assert(perm[k] == old_perm[k0]);
                    assert(perm[l] == old_perm[l0]);
                }
            }
            assert forall|k: int, l: int| 0 <= k < l < o.len() implies row_le(#[trigger] o[k], #[trigger] o[l], sort_column, sort_direction) by {
                if k != p && l != p {
                    let k0 = if k < p { k } else { k - 1 };
                    let l0 = if l < p { l } else { l - 1 };
                    assert(o[k] == old_out[k0]);
                    assert(o[l] == old_out[l0]);
                } else if k == p {
                    assert(o[l] == old_out[l - 1]);
                } else {
                    assert(o[k] == old_out[k]);
                }
            }
            assert forall|k: int, l: int|
                0 <= k < l < o.len() && row_le(#[trigger] o[l], #[trigger] o[k], sort_column, sort_direction) implies perm[k] < perm[l] by {
                if k != p && l != p {
                    let k0 = if k < p { k } else { k - 1 };
                    let l0 = if l < p { l } else { l - 1 };
                    assert(o[k] == old_out[k0]);
                    assert(o[l] == old_out[l0]);
                    assert(perm[k] == old_perm[k0]);
                    assert(perm[l] == old_perm[l0]);
                } else if k == p {
                    assert(o[l] == old_out[l - 1]);
                } else {
                    assert(o[k] == old_out[k]);
                    assert(perm[k] == old_perm[k]);
                }
            }
        }
        i = i + 1;
    }
    proof {
        assert(permutes(out@, inp, perm));
    }
    *nodes = out;
}

} // verus!
