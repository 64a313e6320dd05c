use vstd::prelude::*;

use crate::config::{node_of, saved_of, Config, SavedNode};
use crate::node::{find_active_node_index, first_active, ActiveNodeInfo, VmessNode};
use crate::sorting::{
    apply_sort_to_nodes, column_from_spec, direction_from_spec, keeps_ties, opt_view, permutes, sorted_by,
    stable_sort_of, IndexedNode, SortColumn, SortDirection,
};
use crate::status::{LatencyResult, LatencyStatus, TestType};
use crate::text::{decimal, push_decimal, trim_str, trimmed};

verus! {

/// The node with its latency of the given kind replaced.
pub open spec fn with_latency(n: VmessNode, t: TestType, l: LatencyStatus) -> VmessNode {
    match t {
        TestType::Http => VmessNode { http_latency: l, ..n },
        TestType::Tcp => VmessNode { tcp_latency: l, ..n },
    }
}

/// The latency of the given kind.
pub open spec fn latency_of(n: VmessNode, t: TestType) -> LatencyStatus {
    match t {
        TestType::Http => n.http_latency,
        TestType::Tcp => n.tcp_latency,
    }
}

/// The canonical list after a result: the node with the result's index gets
/// the latency; without such a node nothing changes.
pub open spec fn applied_nodes(nodes: Seq<VmessNode>, r: LatencyResult) -> Seq<VmessNode> {
    if r.index < nodes.len() {
        nodes.update(r.index as int, with_latency(nodes[r.index as int], r.test_type, r.latency))
    } else {
        nodes
    }
}

/// The view after a result: rows joined to the result's index get the latency.
pub open spec fn applied_view(view: Seq<IndexedNode>, r: LatencyResult) -> Seq<IndexedNode> {
    Seq::new(
        view.len(),
        |k: int|
            if view[k].original_index == r.index {
                IndexedNode {
                    node: with_latency(view[k].node, r.test_type, r.latency),
                    original_index: view[k].original_index,
                }
            } else {
                view[k]
            },
    )
}

/// Applying a result changes exactly one latency: the node with the result's
/// index gets the result's latency of the result's kind, in the canonical list
/// and in every view row joined to it; its other latency, its other fields and
/// every other node stay as they were.
pub proof fn lemma_result_touches_one_latency(nodes: Seq<VmessNode>, view: Seq<IndexedNode>, r: LatencyResult)
    requires
        joined(nodes, view),
        r.index < nodes.len(),
    ensures
        joined(applied_nodes(nodes, r), applied_view(view, r)),
        latency_of(applied_nodes(nodes, r)[r.index as int], r.test_type) == r.latency,
        forall|t: TestType| t != r.test_type ==> latency_of(applied_nodes(nodes, r)[r.index as int], t)
            == latency_of(nodes[r.index as int], t),
        applied_nodes(nodes, r)[r.index as int] == with_latency(nodes[r.index as int], r.test_type, r.latency),
        forall|i: int| 0 <= i < nodes.len() && i != r.index ==> #[trigger] applied_nodes(nodes, r)[i] == nodes[i],
        forall|k: int|
            0 <= k < view.len() ==> (#[trigger] applied_view(view, r)[k]).node == applied_nodes(
                nodes,
                r,
            )[view[k].original_index as int],
        forall|k: int|
            0 <= k < view.len() ==> (#[trigger] applied_view(view, r)[k]).original_index == view[k].original_index,
{
    let n2 = applied_nodes(nodes, r);
    let v2 = applied_view(view, r);
    assert forall|j: int| 0 <= j < v2.len() implies (#[trigger] v2[j]).original_index < n2.len() && v2[j].node
        == n2[v2[j].original_index as int] by {
        assert(view[j].node == nodes[view[j].original_index as int]);
    }
    assert forall|j: int, l: int| 0 <= j < l < v2.len() implies (#[trigger] v2[j]).original_index
        != (#[trigger] v2[l]).original_index by {
        assert(view[j].original_index != view[l].original_index);
    }
    assert forall|k: int| 0 <= k < view.len() implies (#[trigger] applied_view(view, r)[k]).node == n2[view[k].original_index as int] by {
        assert(view[k].node == nodes[view[k].original_index as int]);
    }
}

/// The canonical list with each node paired with its own position.
pub open spec fn indexed(nodes: Seq<VmessNode>) -> Seq<IndexedNode> {
    Seq::new(nodes.len(), |i: int| IndexedNode { node: nodes[i], original_index: i as usize })
}

/// The view holds each node of the canonical list exactly once, joined by its
/// original index.
pub open spec fn joined(nodes: Seq<VmessNode>, view: Seq<IndexedNode>) -> bool {
    &&& view.len() == nodes.len()
    &&& forall|k: int|
        0 <= k < view.len() ==> (#[trigger] view[k]).original_index < nodes.len() && view[k].node
            == nodes[view[k].original_index as int]
    &&& forall|k: int, l: int|
        0 <= k < l < view.len() ==> (#[trigger] view[k]).original_index != (#[trigger] view[l]).original_index
}

/// Number of rows whose latency of the given kind has been measured.
pub open spec fn count_tested(view: Seq<IndexedNode>, t: TestType) -> nat
    decreases view.len(),
{
    if view.len() == 0 {
        0
    } else {
        count_tested(view.drop_last(), t) + if latency_of(view.last().node, t) is NotTested {
            0nat
        } else {
            1nat
        }
    }
}

pub proof fn lemma_indexed_joined(nodes: Seq<VmessNode>)
    requires
        nodes.len() <= usize::MAX,
    ensures
        joined(nodes, indexed(nodes)),
{
}

/// Reordering a joined view keeps it joined.
pub proof fn lemma_permuted_view_joined(
    nodes: Seq<VmessNode>,
    inp: Seq<IndexedNode>,
    out: Seq<IndexedNode>,
    perm: Seq<int>,
)
    requires
        joined(nodes, inp),
        permutes(out, inp, perm),
    ensures
        joined(nodes, out),
{
    assert forall|k: int| 0 <= k < out.len() implies (#[trigger] out[k]).original_index < nodes.len()
        && out[k].node == nodes[out[k].original_index as int] by {
        assert(out[k] == inp[perm[k]]);
    }
    assert forall|k: int, l: int| 0 <= k < l < out.len() implies (#[trigger] out[k]).original_index
        != (#[trigger] out[l]).original_index by {
        assert(out[k] == inp[perm[k]]);
        assert(out[l] == inp[perm[l]]);
        if perm[k] < perm[l] {
            assert(inp[perm[k]].original_index != inp[perm[l]].original_index);
        } else {
            assert(perm[k] != perm[l]);
            assert(inp[perm[l]].original_index != inp[perm[k]].original_index);
        }
    }
}

pub proof fn lemma_sorted_view_joined(
    nodes: Seq<VmessNode>,
    inp: Seq<IndexedNode>,
    out: Seq<IndexedNode>,
    col: SortColumn,
    dir: SortDirection,
)
    requires
        joined(nodes, inp),
        stable_sort_of(out, inp, col, dir),
    ensures
        joined(nodes, out),
{
    let perm = choose|perm: Seq<int>|
        permutes(out, inp, perm) && sorted_by(out, col, dir)
            && keeps_ties(out, perm, col, dir);
    lemma_permuted_view_joined(nodes, inp, out, perm);
}

/// The state the consumer keeps: the canonical node list, its sorted view, the
/// selection, and the status of tests and input.
pub struct App {
    pub subscribe_url: Option<String>,
    pub nodes: Vec<VmessNode>,
    pub sorted_nodes: Vec<IndexedNode>,
    pub selected: usize,
    pub active_node_index: Option<usize>,
    pub status: String,
    pub should_quit: bool,
    pub testing: bool,
    pub refreshing: bool,
    pub input_mode: bool,
    pub input_buffer: String,
    pub current_test_type: Option<TestType>,
    pub error_message: Option<String>,
    pub parallel_count: usize,
    pub xray_config_path: String,
    pub sort_column: SortColumn,
    pub sort_direction: SortDirection,
}

/// The two apps agree on everything but the nodes and their view.
pub open spec fn same_settings(a: App, b: App) -> bool {
    &&& a.subscribe_url == b.subscribe_url
    &&& a.selected == b.selected
    &&& a.active_node_index == b.active_node_index
    &&& a.status == b.status
    &&& a.should_quit == b.should_quit
    &&& a.testing == b.testing
    &&& a.refreshing == b.refreshing
    &&& a.input_mode == b.input_mode
    &&& a.input_buffer == b.input_buffer
    &&& a.current_test_type == b.current_test_type
    &&& a.error_message == b.error_message
    &&& a.parallel_count == b.parallel_count
    &&& a.xray_config_path == b.xray_config_path
    &&& a.sort_column == b.sort_column
    &&& a.sort_direction == b.sort_direction
}

impl App {
    /// The canonical node list.
    pub open spec fn canonical(&self) -> Seq<VmessNode> {
        self.nodes@
    }

    pub open spec fn wf(&self) -> bool {
        joined(self.canonical(), self.sorted_nodes@)
    }

    /// Sorts the view by the current settings.
    fn apply_sort(&mut self)
        requires
            old(self).wf(),
        ensures
            final(self).wf(),
            final(self).canonical() == old(self).canonical(),
            same_settings(*final(self), *old(self)),
            stable_sort_of(
                final(self).sorted_nodes@,
                old(self).sorted_nodes@,
                old(self).sort_column,
                old(self).sort_direction,
            ),
    {
        apply_sort_to_nodes(&mut self.sorted_nodes, self.sort_column, self.sort_direction);
        proof {
            lemma_sorted_view_joined(
                self.nodes@,
                old(self).sorted_nodes@,
                self.sorted_nodes@,
                self.sort_column,
                self.sort_direction,
            );
        }
    }

    /// Derives the view afresh from the canonical list.
    fn rebuild_sorted_view(&mut self)
        ensures
            final(self).wf(),
            final(self).canonical() == old(self).canonical(),
            same_settings(*final(self), *old(self)),
            stable_sort_of(
                final(self).sorted_nodes@,
                indexed(old(self).canonical()),
                old(self).sort_column,
                old(self).sort_direction,
            ),
    {
        let mut view: Vec<IndexedNode> = Vec::new();
        let mut i: usize = 0;
        while i < self.nodes.len()
            invariant
                i <= self.nodes@.len(),
                view@ == indexed(self.nodes@).subrange(0, i as int),
            decreases self.nodes@.len() - i,
        {
            view.push(IndexedNode { node: self.nodes[i].clone(), original_index: i });
            i = i + 1;
            assert(view@ =~= indexed(self.nodes@).subrange(0, i as int));
        }
        assert(view@ =~= indexed(self.nodes@));
        self.sorted_nodes = view;
        proof {
            lemma_indexed_joined(self.nodes@);
        }
        self.apply_sort();
    }

    /// Applies a probe's result to the node with its index, in the canonical
    /// list and in the view; a result for an index that no node has is dropped.
    pub fn update_latency(&mut self, result: LatencyResult)
        requires
            old(self).wf(),
        ensures
            final(self).wf(),
            same_settings(*final(self), *old(self)),
            final(self).canonical() == applied_nodes(old(self).canonical(), result),
            final(self).sorted_nodes@ == applied_view(old(self).sorted_nodes@, result),
    {
        let ghost old_nodes = self.nodes@;
        let ghost old_view = self.sorted_nodes@;
        if result.index < self.nodes.len() {
            match result.test_type {
                TestType::Http => self.nodes[result.index].http_latency = result.latency,
                TestType::Tcp => self.nodes[result.index].tcp_latency = result.latency,
            }
        }
        let ghost new_nodes = self.nodes@;
        assert(new_nodes == if result.index < old_nodes.len() {
            old_nodes.update(result.index as int, with_latency(old_nodes[result.index as int], result.test_type, result.latency))
        } else {
            old_nodes
        });
        let mut k: usize = 0;
        while k < self.sorted_nodes.len()
            invariant
                self.nodes@ == new_nodes,
                same_settings(*self, *old(self)),
                self.sorted_nodes@.len() == old_view.len(),
                k <= old_view.len(),
                forall|j: int|
                    0 <= j < k ==> #[trigger] self.sorted_nodes@[j] == if old_view[j].original_index
                        == result.index {
                        IndexedNode {
                            node: with_latency(old_view[j].node, result.test_type, result.latency),
                            original_index: old_view[j].original_index,
                        }
                    } else {
                        old_view[j]
                    },
                forall|j: int| k <= j < old_view.len() ==> #[trigger] self.sorted_nodes@[j] == old_view[j],
            decreases old_view.len() - k,
        {
            if self.sorted_nodes[k].original_index == result.index {
                match result.test_type {
                    TestType::Http => self.sorted_nodes[k].node.http_latency = result.latency,
                    TestType::Tcp => self.sorted_nodes[k].node.tcp_latency = result.latency,
                }
            }
            k = k + 1;
        }
        proof {
            let v = self.sorted_nodes@;
            assert(v =~= applied_view(old_view, result));
            assert forall|j: int| 0 <= j < v.len() implies (#[trigger] v[j]).original_index < new_nodes.len()
                && v[j].node == new_nodes[v[j].original_index as int] by {
                assert(old_view[j].node == old_nodes[old_view[j].original_index as int]);
            }
            assert forall|j: int, l: int| 0 <= j < l < v.len() implies (#[trigger] v[j]).original_index
                != (#[trigger] v[l]).original_index by {
                assert(old_view[j].original_index != old_view[l].original_index);
            }
        }
    }

    /// Sorts the view by the current settings when a column is chosen.
    pub fn resort(&mut self)
        requires
            old(self).wf(),
        ensures
            final(self).wf(),
            final(self).canonical() == old(self).canonical(),
            same_settings(*final(self), *old(self)),
            old(self).sort_column == SortColumn::Canonical ==> final(self).sorted_nodes@ == old(self).sorted_nodes@,
            old(self).sort_column != SortColumn::Canonical ==> stable_sort_of(
                final(self).sorted_nodes@,
                old(self).sorted_nodes@,
                old(self).sort_column,
                old(self).sort_direction,
            ),
    {
        if self.sort_column != SortColumn::Canonical {
            self.apply_sort();
        }
    }

    /// Keeps the selection within the view.
    fn clamp_selection(&mut self)
        ensures
            final(self).selected == clamped(old(self).selected, old(self).sorted_nodes@.len()),
            final(self).nodes == old(self).nodes,
            final(self).sorted_nodes == old(self).sorted_nodes,
            final(self).sort_column == old(self).sort_column,
            final(self).sort_direction == old(self).sort_direction,
            final(self).status == old(self).status,
            final(self).active_node_index == old(self).active_node_index,
    {
        if self.sorted_nodes.len() == 0 {
            self.selected = 0;
        } else if self.selected >= self.sorted_nodes.len() {
            self.selected = self.sorted_nodes.len() - 1;
        }
    }

    /// Moves to the next sort column, ascending, and re-sorts the view. The
    /// caller persists the sort settings.
    pub fn cycle_sort(&mut self)
        requires
            old(self).wf(),
        ensures
            final(self).wf(),
            final(self).canonical() == old(self).canonical(),
            final(self).sort_column == old(self).sort_column.next_spec(),
            final(self).sort_direction == SortDirection::Ascending,
            stable_sort_of(
                final(self).sorted_nodes@,
                old(self).sorted_nodes@,
                final(self).sort_column,
                SortDirection::Ascending,
            ),
            final(self).selected == clamped(old(self).selected, old(self).sorted_nodes@.len()),
            final(self).status == old(self).status,
            final(self).active_node_index == old(self).active_node_index,
    {
        self.sort_column = self.sort_column.next();
        self.sort_direction = SortDirection::Ascending;
        self.apply_sort();
        self.clamp_selection();
    }

    /// Reverses the direction; with no column chosen, sorts by TCP latency
    /// descending. The caller persists the sort settings.
    pub fn toggle_sort_direction(&mut self)
        requires
            old(self).wf(),
        ensures
            final(self).wf(),
            final(self).canonical() == old(self).canonical(),
            old(self).sort_column == SortColumn::Canonical ==> final(self).sort_column == SortColumn::Tcp
                && final(self).sort_direction == SortDirection::Descending,
            old(self).sort_column != SortColumn::Canonical ==> final(self).sort_column == old(self).sort_column
                && final(self).sort_direction != old(self).sort_direction,
            stable_sort_of(
                final(self).sorted_nodes@,
                old(self).sorted_nodes@,
                final(self).sort_column,
                final(self).sort_direction,
            ),
            final(self).selected == old(self).selected,
            final(self).status == old(self).status,
            final(self).active_node_index == old(self).active_node_index,
    {
        if self.sort_column == SortColumn::Canonical {
            self.sort_column = SortColumn::Tcp;
            self.sort_direction = SortDirection::Descending;
        } else {
            self.sort_direction = self.sort_direction.toggle();
        }
        self.apply_sort();
    }

    /// Moves the selection up one row, if there is one.
    pub fn select_previous(&mut self)
        ensures
            final(self).selected == if old(self).sorted_nodes@.len() > 0 && old(self).selected > 0 {
                (old(self).selected - 1) as usize
            } else {
                old(self).selected
            },
            final(self).nodes == old(self).nodes,
            final(self).sorted_nodes == old(self).sorted_nodes,
    {
        if self.sorted_nodes.len() > 0 && self.selected > 0 {
            self.selected = self.selected - 1;
        }
    }

    /// Moves the selection down one row, if there is one.
    pub fn select_next(&mut self)
        ensures
            final(self).selected == if old(self).sorted_nodes@.len() > 0 && old(self).selected + 1
                < old(self).sorted_nodes@.len() {
                (old(self).selected + 1) as usize
            } else {
                old(self).selected
            },
            final(self).nodes == old(self).nodes,
            final(self).sorted_nodes == old(self).sorted_nodes,
    {
        if self.sorted_nodes.len() > 0 && self.selected < self.sorted_nodes.len() - 1 {
            self.selected = self.selected + 1;
        }
    }

    /// The node of the selected row.
    pub fn selected_node(&self) -> (r: Option<&VmessNode>)
        ensures
            self.selected < self.sorted_nodes@.len() ==> r == Some(&self.sorted_nodes@[self.selected as int].node),
            self.selected >= self.sorted_nodes@.len() ==> r is None,
    {
        if self.selected < self.sorted_nodes.len() {
            Some(&self.sorted_nodes[self.selected].node)
        } else {
            None
        }
    }

    /// The canonical index of the selected row.
    pub fn selected_original_index(&self) -> (r: Option<usize>)
        ensures
            self.selected < self.sorted_nodes@.len() ==> r == Some(
                self.sorted_nodes@[self.selected as int].original_index,
            ),
            self.selected >= self.sorted_nodes@.len() ==> r is None,
    {
        if self.selected < self.sorted_nodes.len() {
            Some(self.sorted_nodes[self.selected].original_index)
        } else {
            None
        }
    }

    /// The row of the view that holds the node with the given canonical index,
    /// or the first row.
    fn row_of(&self, index: Option<usize>) -> (r: usize)
        ensures
            selects(self.sorted_nodes@, index, r),
    {
        if let Some(ai) = index {
            let mut k: usize = 0;
            while k < self.sorted_nodes.len()
                invariant
                    index == Some(ai),
                    k <= self.sorted_nodes@.len(),
                    forall|j: int| 0 <= j < k ==> (#[trigger] self.sorted_nodes@[j]).original_index != ai,
                decreases self.sorted_nodes@.len() - k,
            {
                if self.sorted_nodes[k].original_index == ai {
                    assert(self.sorted_nodes@[k as int].original_index == ai);
                    return k;
                }
                k = k + 1;
            }
        }
        0
    }

    /// Replaces the node list, finds the active node in it, rebuilds the view
    /// and selects the active node's row (or the first).
    pub fn set_nodes(&mut self, nodes: Vec<VmessNode>, active: Option<ActiveNodeInfo>)
        ensures
            final(self).wf(),
            final(self).canonical() == nodes@,
            active_found(nodes@, active, final(self).active_node_index),
            stable_sort_of(
                final(self).sorted_nodes@,
                indexed(nodes@),
                old(self).sort_column,
                old(self).sort_direction,
            ),
            selects(final(self).sorted_nodes@, final(self).active_node_index, final(self).selected),
            final(self).sort_column == old(self).sort_column,
            final(self).sort_direction == old(self).sort_direction,
            final(self).status == old(self).status,
            final(self).testing == old(self).testing,
    {
        let active_node_index = match &active {
            Some(a) => find_active_node_index(nodes.as_slice(), a),
            None => None,
        };
        self.nodes = nodes;
        self.active_node_index = active_node_index;
        self.rebuild_sorted_view();
        self.selected = self.row_of(active_node_index);
    }

    /// Empties the node list and the view.
    pub fn clear_nodes(&mut self)
        ensures
            final(self).wf(),
            final(self).canonical().len() == 0,
            final(self).sorted_nodes@.len() == 0,
            final(self).selected == 0,
            final(self).active_node_index is None,
            final(self).status == old(self).status,
            final(self).testing == old(self).testing,
    {
        self.nodes = Vec::new();
        self.sorted_nodes = Vec::new();
        self.selected = 0;
        self.active_node_index = None;
    }

    /// Resets the latency of the given kind of every node, in both lists.
    fn clear_latencies(&mut self, t: TestType)
        requires
            old(self).wf(),
        ensures
            final(self).wf(),
            same_settings(*final(self), *old(self)),
            final(self).canonical().len() == old(self).canonical().len(),
            forall|i: int|
                0 <= i < old(self).canonical().len() ==> #[trigger] final(self).canonical()[i] == with_latency(
                    old(self).canonical()[i],
                    t,
                    LatencyStatus::NotTested,
                ),
            final(self).sorted_nodes@.len() == old(self).sorted_nodes@.len(),
            forall|k: int|
                0 <= k < old(self).sorted_nodes@.len() ==> #[trigger] final(self).sorted_nodes@[k] == (IndexedNode {
                    node: with_latency(old(self).sorted_nodes@[k].node, t, LatencyStatus::NotTested),
                    original_index: old(self).sorted_nodes@[k].original_index,
                }),
    {
        let ghost old_nodes = self.nodes@;
        let ghost old_view = self.sorted_nodes@;
        let mut i: usize = 0;
        while i < self.nodes.len()
            invariant
                same_settings(*self, *old(self)),
                self.sorted_nodes@ == old_view,
                self.nodes@.len() == old_nodes.len(),
                i <= old_nodes.len(),
                forall|j: int|
                    0 <= j < i ==> #[trigger] self.nodes@[j] == with_latency(old_nodes[j], t, LatencyStatus::NotTested),
                forall|j: int| i <= j < old_nodes.len() ==> #[trigger] self.nodes@[j] == old_nodes[j],
            decreases old_nodes.len() - i,
        {
            match t {
                TestType::Http => self.nodes[i].http_latency = LatencyStatus::NotTested,
                TestType::Tcp => self.nodes[i].tcp_latency = LatencyStatus::NotTested,
            }
            i = i + 1;
        }
        let ghost new_nodes = self.nodes@;
        let mut k: usize = 0;
        while k < self.sorted_nodes.len()
            invariant
                same_settings(*self, *old(self)),
                self.nodes@ == new_nodes,
                self.sorted_nodes@.len() == old_view.len(),
                k <= old_view.len(),
                forall|j: int|
                    0 <= j < k ==> #[trigger] self.sorted_nodes@[j] == (IndexedNode {
                        node: with_latency(old_view[j].node, t, LatencyStatus::NotTested),
                        original_index: old_view[j].original_index,
                    }),
                forall|j: int| k <= j < old_view.len() ==> #[trigger] self.sorted_nodes@[j] == old_view[j],
            decreases old_view.len() - k,
        {
            match t {
                TestType::Http => self.sorted_nodes[k].node.http_latency = LatencyStatus::NotTested,
                TestType::Tcp => self.sorted_nodes[k].node.tcp_latency = LatencyStatus::NotTested,
            }
            k = k + 1;
        }
        proof {
            let v = self.sorted_nodes@;
            assert forall|j: int| 0 <= j < v.len() implies (#[trigger] v[j]).original_index < new_nodes.len()
                && v[j].node == new_nodes[v[j].original_index as int] by {
                assert(old_view[j].node == old_nodes[old_view[j].original_index as int]);
            }
            assert forall|j: int, l: int| 0 <= j < l < v.len() implies (#[trigger] v[j]).original_index
                != (#[trigger] v[l]).original_index by {
                assert(old_view[j].original_index != old_view[l].original_index);
            }
        }
    }

    /// Resets every node's HTTP latency, in both lists.
    pub fn clear_http_latencies(&mut self)
        requires
            old(self).wf(),
        ensures
            final(self).wf(),
            same_settings(*final(self), *old(self)),
            final(self).canonical() == old(self).canonical().map_values(
                |n: VmessNode| with_latency(n, TestType::Http, LatencyStatus::NotTested),
            ),
            final(self).sorted_nodes@ == old(self).sorted_nodes@.map_values(
                |r: IndexedNode|
                    IndexedNode {
                        node: with_latency(r.node, TestType::Http, LatencyStatus::NotTested),
                        original_index: r.original_index,
                    },
            ),
    {
        self.clear_latencies(TestType::Http);
        assert(self.canonical() =~= old(self).canonical().map_values(
            |n: VmessNode| with_latency(n, TestType::Http, LatencyStatus::NotTested),
        ));
        assert(self.sorted_nodes@ =~= old(self).sorted_nodes@.map_values(
            |r: IndexedNode|
                IndexedNode {
                    node: with_latency(r.node, TestType::Http, LatencyStatus::NotTested),
                    original_index: r.original_index,
                },
        ));
    }

    /// Resets every node's TCP latency, in both lists.
    pub fn clear_tcp_latencies(&mut self)
        requires
            old(self).wf(),
        ensures
            final(self).wf(),
            same_settings(*final(self), *old(self)),
            final(self).canonical() == old(self).canonical().map_values(
                |n: VmessNode| with_latency(n, TestType::Tcp, LatencyStatus::NotTested),
            ),
            final(self).sorted_nodes@ == old(self).sorted_nodes@.map_values(
                |r: IndexedNode|
                    IndexedNode {
                        node: with_latency(r.node, TestType::Tcp, LatencyStatus::NotTested),
                        original_index: r.original_index,
                    },
            ),
    {
        self.clear_latencies(TestType::Tcp);
        assert(self.canonical() =~= old(self).canonical().map_values(
            |n: VmessNode| with_latency(n, TestType::Tcp, LatencyStatus::NotTested),
        ));
        assert(self.sorted_nodes@ =~= old(self).sorted_nodes@.map_values(
            |r: IndexedNode|
                IndexedNode {
                    node: with_latency(r.node, TestType::Tcp, LatencyStatus::NotTested),
                    original_index: r.original_index,
                },
        ));
    }

    /// The app over the stored settings, with `active` the node that the live
    /// proxy configuration points at, if it could be read.
    pub fn new(parallel_count: usize, xray_config_path: String, config: Config, active: Option<ActiveNodeInfo>) -> (r: App)
        ensures
            r.wf(),
            r.canonical() == config.nodes@.map_values(|s: SavedNode| node_of(s)),
            r.subscribe_url == config.subscribe_url,
            r.sort_column == column_from_spec(opt_string_view(config.sort_column)),
            r.sort_direction == direction_from_spec(opt_string_view(config.sort_direction)),
            active_found(r.canonical(), active, r.active_node_index),
            stable_sort_of(r.sorted_nodes@, indexed(r.canonical()), r.sort_column, r.sort_direction),
            selects(r.sorted_nodes@, r.active_node_index, r.selected),
            r.status@ == welcome_status(config.subscribe_url is Some, r.canonical().len()),
            !r.should_quit && !r.testing && !r.refreshing && !r.input_mode,
            r.input_buffer@.len() == 0,
            r.current_test_type is None,
            r.error_message is None,
            r.parallel_count == parallel_count,
            r.xray_config_path == xray_config_path,
    {
        let nodes = config.to_vmess_nodes();
        assert(nodes@ =~= config.nodes@.map_values(|s: SavedNode| node_of(s)));
        let has_url = config.subscribe_url.is_some();
        let has_nodes = nodes.len() > 0;
        let sort_column = SortColumn::from_str(opt_as_str(&config.sort_column));
        let sort_direction = SortDirection::from_str(opt_as_str(&config.sort_direction));
        let active_node_index = match &active {
            Some(a) => find_active_node_index(nodes.as_slice(), a),
            None => None,
        };
        let status = if has_url && has_nodes {
            let mut m = String::from_str("Loaded ");
            push_decimal(&mut m, nodes.len() as u64);
            m.append(" nodes. Press R to refresh, t/T to test.");
            m
        } else if has_url {
            String::from_str("Press R to refresh subscription")
        } else {
            String::from_str("Press U to set subscription URL")
        };
        let mut app = App {
            subscribe_url: config.subscribe_url,
            nodes,
            sorted_nodes: Vec::new(),
            selected: 0,
            active_node_index,
            status,
            should_quit: false,
            testing: false,
            refreshing: false,
            input_mode: false,
            input_buffer: String::new(),
            current_test_type: None,
            error_message: None,
            parallel_count,
            xray_config_path,
            sort_column,
            sort_direction,
        };
        app.rebuild_sorted_view();
        app.selected = app.row_of(active_node_index);
        app
    }

    /// Sets the status line.
    pub fn set_status(&mut self, status: String)
        ensures
            final(self).status == status,
            final(self).nodes == old(self).nodes,
            final(self).sorted_nodes == old(self).sorted_nodes,
            final(self).testing == old(self).testing,
            final(self).error_message == old(self).error_message,
    {
        self.status = status;
    }

    /// Shows an error until it is dismissed.
    pub fn set_error(&mut self, error: String)
        ensures
            final(self).error_message == Some(error),
            final(self).nodes == old(self).nodes,
            final(self).sorted_nodes == old(self).sorted_nodes,
            final(self).status == old(self).status,
    {
        self.error_message = Some(error);
    }

    /// Dismisses the error.
    pub fn clear_error(&mut self)
        ensures
            final(self).error_message is None,
            final(self).nodes == old(self).nodes,
            final(self).sorted_nodes == old(self).sorted_nodes,
            final(self).status == old(self).status,
    {
        self.error_message = None;
    }

    /// Starts editing the subscription URL, from its current value.
    pub fn enter_input_mode(&mut self)
        ensures
            final(self).input_mode,
            final(self).input_buffer@ == match old(self).subscribe_url {
                Some(u) => u@,
                None => Seq::<char>::empty(),
            },
            final(self).subscribe_url == old(self).subscribe_url,
            final(self).nodes == old(self).nodes,
            final(self).sorted_nodes == old(self).sorted_nodes,
    {
        self.input_mode = true;
        self.input_buffer = match &self.subscribe_url {
            Some(u) => u.clone(),
            None => String::new(),
        };
    }

    /// Leaves URL editing without keeping the input.
    pub fn exit_input_mode(&mut self)
        ensures
            !final(self).input_mode,
            final(self).input_buffer@.len() == 0,
            final(self).subscribe_url == old(self).subscribe_url,
            final(self).nodes == old(self).nodes,
            final(self).sorted_nodes == old(self).sorted_nodes,
    {
        self.input_mode = false;
        self.input_buffer = String::new();
    }

    /// Leaves URL editing, keeping the trimmed input as the subscription URL
    /// unless it is empty. Returns whether the URL changed, in which case the
    /// caller persists the settings.
    pub fn confirm_input(&mut self) -> (saved: bool)
        ensures
            saved == (trimmed(old(self).input_buffer@).len() > 0),
            saved ==> final(self).subscribe_url is Some && final(self).subscribe_url->0@ == trimmed(
                old(self).input_buffer@,
            ),
            saved ==> final(self).status@ == "URL saved. Press R to refresh subscription."@,
            !saved ==> final(self).subscribe_url == old(self).subscribe_url && final(self).status
                == old(self).status,
            !final(self).input_mode,
            final(self).input_buffer@.len() == 0,
            final(self).nodes == old(self).nodes,
            final(self).sorted_nodes == old(self).sorted_nodes,
    {
        let url = trim_str(self.input_buffer.as_str());
        let saved = url.unicode_len() > 0;
        if saved {
            self.subscribe_url = Some(String::from_str(url));
            self.status = String::from_str("URL saved. Press R to refresh subscription.");
        }
        self.input_mode = false;
        self.input_buffer = String::new();
        saved
    }

    /// Records the node that was made live.
    pub fn set_active_node(&mut self, original_index: usize)
        ensures
            final(self).active_node_index == Some(original_index),
            final(self).nodes == old(self).nodes,
            final(self).sorted_nodes == old(self).sorted_nodes,
            final(self).selected == old(self).selected,
    {
        self.active_node_index = Some(original_index);
    }

    /// A copy of the canonical list, for a batch to probe.
    pub fn get_nodes_clone(&self) -> (r: Vec<VmessNode>)
        ensures
            r@ == self.canonical(),
    {
        let mut out: Vec<VmessNode> = Vec::new();
        let mut i: usize = 0;
        while i < self.nodes.len()
            invariant
                i <= self.nodes@.len(),
                out@ == self.nodes@.subrange(0, i as int),
            decreases self.nodes@.len() - i,
        {
            out.push(self.nodes[i].clone());
            i = i + 1;
            assert(out@ =~= self.nodes@.subrange(0, i as int));
        }
        assert(out@ =~= self.nodes@);
        out
    }

    /// Stops the running test, if any. Returns whether one was running, in
    /// which case the caller fires the batch's cancellation token and mints a
    /// fresh one for the next batch.
    pub fn cancel_test(&mut self) -> (fire: bool)
        ensures
            fire == old(self).testing,
            !final(self).testing,
            fire ==> final(self).current_test_type is None && final(self).status@ == "Latency test cancelled"@,
            !fire ==> final(self).current_test_type == old(self).current_test_type && final(self).status
                == old(self).status,
            final(self).nodes == old(self).nodes,
            final(self).sorted_nodes == old(self).sorted_nodes,
    {
        if self.testing {
            self.testing = false;
            self.current_test_type = None;
            self.status = String::from_str("Latency test cancelled");
            true
        } else {
            false
        }
    }

    /// How many rows of the view have a measured latency of the given kind.
    pub fn tested_count(&self, t: TestType) -> (r: usize)
        ensures
            r == count_tested(self.sorted_nodes@, t),
    {
        let mut count: usize = 0;
        let mut k: usize = 0;
        while k < self.sorted_nodes.len()
            invariant
                k <= self.sorted_nodes@.len(),
                count == count_tested(self.sorted_nodes@.subrange(0, k as int), t),
                count <= k,
            decreases self.sorted_nodes@.len() - k,
        {
            proof {
                let next = self.sorted_nodes@.subrange(0, k + 1);
                assert(next.drop_last() =~= self.sorted_nodes@.subrange(0, k as int));
            }
            let tested = match t {
                TestType::Http => self.sorted_nodes[k].node.http_latency.is_tested(),
                TestType::Tcp => self.sorted_nodes[k].node.tcp_latency.is_tested(),
            };
            if tested {
                count = count + 1;
            }
            k = k + 1;
        }
        assert(self.sorted_nodes@.subrange(0, k as int) =~= self.sorted_nodes@);
        count
    }

    /// Starts a batch of the given kind unless one is running, the list is
    /// being refreshed, or there are no nodes: resets that latency of every
    /// node and returns the nodes to probe.
    pub fn start_test(&mut self, t: TestType) -> (r: Option<Vec<VmessNode>>)
        requires
            old(self).wf(),
        ensures
            final(self).wf(),
            (r is Some) == (!old(self).testing && !old(self).refreshing && old(self).sorted_nodes@.len() > 0),
            r is Some ==> {
                &&& final(self).testing
                &&& final(self).current_test_type == Some(t)
                &&& final(self).status@ == "Starting "@ + test_label(t) + " latency test..."@
                &&& final(self).canonical() == old(self).canonical().map_values(
                    |n: VmessNode| with_latency(n, t, LatencyStatus::NotTested),
                )
                &&& r->0@ == final(self).canonical()
                &&& final(self).sorted_nodes@.len() == old(self).sorted_nodes@.len()
                &&& forall|k: int|
                    0 <= k < old(self).sorted_nodes@.len() ==> #[trigger] final(self).sorted_nodes@[k] == (
                    IndexedNode {
                        node: with_latency(old(self).sorted_nodes@[k].node, t, LatencyStatus::NotTested),
                        original_index: old(self).sorted_nodes@[k].original_index,
                    })
            },
            r is None ==> *final(self) == *old(self),
    {
        if self.testing || self.refreshing || self.sorted_nodes.len() == 0 {
            return None;
        }
        self.testing = true;
        self.current_test_type = Some(t);
        self.clear_latencies(t);
        assert(self.canonical() =~= old(self).canonical().map_values(
            |n: VmessNode| with_latency(n, t, LatencyStatus::NotTested),
        ));
        let mut m = String::from_str("Starting ");
        m.append(test_label_str(t));
        m.append(" latency test...");
        self.status = m;
        Some(self.get_nodes_clone())
    }

    /// Applies a result as it arrives and reports the batch's progress. When
    /// every row has a measured latency of the result's kind the test ends,
    /// the view is re-sorted and `true` is returned; the caller then persists
    /// the settings.
    pub fn receive_result(&mut self, result: LatencyResult) -> (done: bool)
        requires
            old(self).wf(),
        ensures
            final(self).wf(),
            final(self).canonical() == applied_nodes(old(self).canonical(), result),
            done == (count_tested(applied_view(old(self).sorted_nodes@, result), result.test_type)
                == old(self).sorted_nodes@.len()),
            done ==> {
                &&& !final(self).testing
                &&& final(self).current_test_type is None
                &&& final(self).status@ == test_label(result.test_type) + " latency test completed"@
                &&& old(self).sort_column == SortColumn::Canonical ==> final(self).sorted_nodes@
                    == applied_view(old(self).sorted_nodes@, result)
                &&& old(self).sort_column != SortColumn::Canonical ==> stable_sort_of(
                    final(self).sorted_nodes@,
                    applied_view(old(self).sorted_nodes@, result),
                    old(self).sort_column,
                    old(self).sort_direction,
                )
            },
            !done ==> {
                &&& final(self).testing == old(self).testing
                &&& final(self).current_test_type == old(self).current_test_type
                &&& final(self).status@ == progress_status(
                    result.test_type,
                    count_tested(applied_view(old(self).sorted_nodes@, result), result.test_type),
                    old(self).sorted_nodes@.len(),
                )
                &&& final(self).sorted_nodes@ == applied_view(old(self).sorted_nodes@, result)
            },
            final(self).sort_column == old(self).sort_column,
            final(self).sort_direction == old(self).sort_direction,
            final(self).selected == old(self).selected,
    {
        self.update_latency(result);
        let tested = self.tested_count(result.test_type);
        let total = self.sorted_nodes.len();
        if tested == total {
            self.testing = false;
            self.current_test_type = None;
            let mut m = String::from_str(test_label_str(result.test_type));
            m.append(" latency test completed");
            self.status = m;
            self.resort();
            true
        } else {
            let mut m = String::from_str("Testing ");
            m.append(test_label_str(result.test_type));
            m.append(" latency... (");
            push_decimal(&mut m, tested as u64);
            m.append("/");
            push_decimal(&mut m, total as u64);
            m.append(")");
            self.status = m;
            false
        }
    }

    /// Writes the sort settings into the stored settings; the direction is
    /// kept only while a column is chosen.
    pub fn store_sort_settings(&self, config: &mut Config)
        ensures
            opt_string_view(final(config).sort_column) == column_name(self.sort_column),
            opt_string_view(final(config).sort_direction) == if self.sort_column == SortColumn::Canonical {
                None
            } else {
                Some(direction_name(self.sort_direction))
            },
            final(config).subscribe_url == old(config).subscribe_url,
            final(config).nodes == old(config).nodes,
    {
        config.sort_column = match self.sort_column.to_str() {
            Some(c) => Some(String::from_str(c)),
            None => None,
        };
        config.sort_direction = if self.sort_column != SortColumn::Canonical {
            Some(String::from_str(self.sort_direction.to_str()))
        } else {
            None
        };
    }

    /// Writes the subscription URL, the nodes with their latencies and the
    /// sort settings into the stored settings.
    pub fn store_settings(&self, config: &mut Config)
        ensures
            final(config).subscribe_url == self.subscribe_url,
            final(config).nodes@ == self.canonical().map_values(|n: VmessNode| saved_of(n)),
            opt_string_view(final(config).sort_column) == column_name(self.sort_column),
            opt_string_view(final(config).sort_direction) == if self.sort_column == SortColumn::Canonical {
                None
            } else {
                Some(direction_name(self.sort_direction))
            },
    {
        config.subscribe_url = match &self.subscribe_url {
            Some(u) => Some(u.clone()),
            None => None,
        };
        config.update_nodes(self.nodes.as_slice());
        assert(config.nodes@ =~= self.canonical().map_values(|n: VmessNode| saved_of(n)));
        self.store_sort_settings(config);
    }
}

fn opt_as_str(s: &Option<String>) -> (r: Option<&str>)
    ensures
        opt_view(r) == opt_string_view(*s),
{
    match s {
        Some(t) => Some(t.as_str()),
        None => None,
    }
}

fn test_label_str(t: TestType) -> (r: &'static str)
    ensures
        r@ == test_label(t),
{
    match t {
        TestType::Http => "HTTP",
        TestType::Tcp => "TCP",
    }
}

pub open spec fn opt_string_view(s: Option<String>) -> Option<Seq<char>> {
    match s {
        Some(t) => Some(t@),
        None => None,
    }
}

/// The stored name of a column; canonical order has none.
pub open spec fn column_name(c: SortColumn) -> Option<Seq<char>> {
    match c {
        SortColumn::Canonical => None,
        SortColumn::Name => Some("name"@),
        SortColumn::Tcp => Some("tcp"@),
        SortColumn::Http => Some("http"@),
    }
}

pub open spec fn direction_name(d: SortDirection) -> Seq<char> {
    match d {
        SortDirection::Ascending => "asc"@,
        SortDirection::Descending => "desc"@,
    }
}

pub open spec fn test_label(t: TestType) -> Seq<char> {
    match t {
        TestType::Http => "HTTP"@,
        TestType::Tcp => "TCP"@,
    }
}

/// The status line while a batch runs.
pub open spec fn progress_status(t: TestType, tested: nat, total: nat) -> Seq<char> {
    "Testing "@ + test_label(t) + " latency... ("@ + decimal(tested) + "/"@ + decimal(total) + ")"@
}

/// The status line of a freshly started app.
pub open spec fn welcome_status(has_url: bool, count: nat) -> Seq<char> {
    if has_url && count > 0 {
        "Loaded "@ + decimal(count) + " nodes. Press R to refresh, t/T to test."@
    } else if has_url {
        "Press R to refresh subscription"@
    } else {
        "Press U to set subscription URL"@
    }
}

/// The selection clamped to a view of `len` rows.
pub open spec fn clamped(selected: usize, len: nat) -> usize {
    if len == 0 {
        0
    } else if selected >= len {
        (len - 1) as usize
    } else {
        selected
    }
}

/// `sel` is the row holding canonical index `index`, or 0 when no row does.
pub open spec fn selects(view: Seq<IndexedNode>, index: Option<usize>, sel: usize) -> bool {
    match index {
        Some(ai) => if exists|k: int| 0 <= k < view.len() && (#[trigger] view[k]).original_index == ai {
            sel < view.len() && view[sel as int].original_index == ai
        } else {
            sel == 0
        },
        None => sel == 0,
    }
}

/// `r` is where the active node stands in `nodes`, when one is given.
pub open spec fn active_found(nodes: Seq<VmessNode>, active: Option<ActiveNodeInfo>, r: Option<usize>) -> bool {
    match active {
        Some(a) => first_active(nodes, a, r),
        None => r is None,
    }
}

} // verus!
