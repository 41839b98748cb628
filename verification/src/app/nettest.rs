//! The network test page: a delay test of every node, its sort orders,
//! and the streaming analysis shown beside it.

use vstd::prelude::*;
use crate::app::checker::AnalysisResult;
use crate::groups::members;
use crate::sort::{
    lemma_int_key_strict_weak, lemma_sort_by_nothing, lemma_sort_elements, lemma_sort_sorted, lemma_text_key_strict_weak,
    insert_by, lemma_insert_at, lemma_seq_lt_irreflexive, lemma_seq_lt_total, lemma_seq_lt_transitive,
    lemma_sort_step, seq_lt, sort_by, str_less,
};
use crate::tui::models::{Groups, Proxy};
use crate::text::str_eq;
use crate::tui::nav::{row_above_or_first, row_below, select_above_or_first, select_below, selected_as, ListCursor};

verus! {

/// The delay test state of a node.
#[derive(Debug, Clone, PartialEq, Eq)]
pub enum TestStatus {
    Pending,
    Testing,
    /// Finished, with the delay in milliseconds.
    Done(u16),
    Timeout,
    Error(String),
}

/// The two views of the page.
#[derive(Debug, Clone, Copy, PartialEq, Eq, Structural)]
pub enum NetTestTab {
    Latency,
    Analysis,
}

/// A node, its test state and its last delays (at most 20).
#[derive(Debug)]
pub struct NodeTestInfo {
    pub name: String,
    pub status: TestStatus,
    pub history: Vec<u16>,
}

/// How the node table is ordered.
#[derive(Debug, Clone, Copy, PartialEq, Eq, Structural)]
pub enum SortOrder {
    Unsorted,
    LatencyAsc,
    LatencyDesc,
    NameAsc,
    NameDesc,
}

/// The delay a node is ordered by: its measured delay, or `u16::MAX` when
/// it has none.
pub open spec fn sort_latency(n: NodeTestInfo) -> int {
    match n.status {
        TestStatus::Done(l) => l as int,
        _ => 65535,
    }
}

/// Whether node `a` goes before node `b` in `order` (`None` orders
/// nothing, so the table keeps its order).
pub open spec fn node_before(order: SortOrder, a: NodeTestInfo, b: NodeTestInfo) -> bool {
    match order {
        SortOrder::Unsorted => false,
        SortOrder::LatencyAsc => sort_latency(a) < sort_latency(b),
        SortOrder::LatencyDesc => sort_latency(b) < sort_latency(a),
        SortOrder::NameAsc => seq_lt(a.name@, b.name@),
        SortOrder::NameDesc => seq_lt(b.name@, a.name@),
    }
}

/// `node_before` as the order a sort uses.
pub open spec fn node_order(order: SortOrder) -> spec_fn(NodeTestInfo, NodeTestInfo) -> bool {
    |a: NodeTestInfo, b: NodeTestInfo| node_before(order, a, b)
}

/// `r` is ordered as `order` asks: by delay ascending or descending, by
/// name ascending or descending; any order for `Unsorted`.
pub open spec fn ordered_as(r: Seq<NodeTestInfo>, order: SortOrder) -> bool {
    forall|i: int, j: int|
        #![trigger r[i], r[j]]
        0 <= i < j < r.len() ==> match order {
            SortOrder::Unsorted => true,
            SortOrder::LatencyAsc => sort_latency(r[i]) <= sort_latency(r[j]),
            SortOrder::LatencyDesc => sort_latency(r[i]) >= sort_latency(r[j]),
            SortOrder::NameAsc => !seq_lt(r[j].name@, r[i].name@),
            SortOrder::NameDesc => !seq_lt(r[i].name@, r[j].name@),
        }
}

/// Sorting the node table keeps every node and orders it as chosen: by
/// delay ascending or descending (nodes without a delay count as the
/// largest), by name ascending or descending (code-point order), or not
/// at all, which leaves the table as it is.
pub proof fn lemma_sorted_nodes(nodes: Seq<NodeTestInfo>, order: SortOrder)
    ensures
        sort_by(nodes, node_order(order)).to_multiset() == nodes.to_multiset(),
        sort_by(nodes, node_order(order)).len() == nodes.len(),
        order == SortOrder::Unsorted ==> sort_by(nodes, node_order(order)) == nodes,
        ordered_as(sort_by(nodes, node_order(order)), order),
{
    let lt = node_order(order);
    lemma_sort_elements(nodes, lt);
    match order {
        SortOrder::Unsorted => {
            lemma_sort_by_nothing(nodes, lt);
        },
        SortOrder::LatencyAsc => {
            lemma_int_key_strict_weak(lt, |n: NodeTestInfo| sort_latency(n));
            lemma_sort_sorted(nodes, lt);
        },
        SortOrder::LatencyDesc => {
            lemma_int_key_strict_weak(lt, |n: NodeTestInfo| -sort_latency(n));
            lemma_sort_sorted(nodes, lt);
        },
        SortOrder::NameAsc => {
            lemma_text_key_strict_weak(lt, |n: NodeTestInfo| n.name@, false);
            lemma_sort_sorted(nodes, lt);
        },
        SortOrder::NameDesc => {
            lemma_text_key_strict_weak(lt, |n: NodeTestInfo| n.name@, true);
            lemma_sort_sorted(nodes, lt);
        },
    }
}

/// The order that `s` switches to: unsorted, then latency ascending and
/// descending, then name ascending and descending, and round again from
/// latency ascending.
pub open spec fn next_order(o: SortOrder) -> SortOrder {
    match o {
        SortOrder::Unsorted => SortOrder::LatencyAsc,
        SortOrder::LatencyAsc => SortOrder::LatencyDesc,
        SortOrder::LatencyDesc => SortOrder::NameAsc,
        SortOrder::NameAsc => SortOrder::NameDesc,
        SortOrder::NameDesc => SortOrder::LatencyAsc,
    }
}

/// Whether a node's test has a result (a delay, a timeout or an error).
pub open spec fn has_result(n: NodeTestInfo) -> bool {
    n.status is Done || n.status is Timeout || n.status is Error
}

/// The first node named `name`, if any.
pub open spec fn first_named(nodes: Seq<NodeTestInfo>, name: Seq<char>) -> Option<int> {
    if exists|i: int| 0 <= i < nodes.len() && nodes[i].name@ == name {
        Some(choose|i: int|
            0 <= i < nodes.len() && nodes[i].name@ == name && forall|j: int| 0 <= j < i ==> nodes[j].name@ != name)
    } else {
        None
    }
}

/// The last 20 of `h` followed by `x`.
pub open spec fn capped_push(h: Seq<u16>, x: u16) -> Seq<u16> {
    let p = h.push(x);
    if p.len() > 20 { p.drop_first() } else { p }
}

fn node_less(order: SortOrder, a: &NodeTestInfo, b: &NodeTestInfo) -> (r: bool)
    ensures
        r == node_before(order, *a, *b),
{
    let la: u16 = match a.status {
        TestStatus::Done(l) => l,
        _ => 65535,
    };
    let lb: u16 = match b.status {
        TestStatus::Done(l) => l,
        _ => 65535,
    };
    match order {
        SortOrder::Unsorted => false,
        SortOrder::LatencyAsc => la < lb,
        SortOrder::LatencyDesc => lb < la,
        SortOrder::NameAsc => str_less(a.name.as_str(), b.name.as_str(), false),
        SortOrder::NameDesc => str_less(b.name.as_str(), a.name.as_str(), false),
    }
}

/// `nodes` sorted stably by `order`.
pub fn sort_nodes(nodes: Vec<NodeTestInfo>, order: SortOrder) -> (r: Vec<NodeTestInfo>)
    ensures
        r@ == sort_by(nodes@, node_order(order)),
{
    let ghost orig = nodes@;
    let ghost lt = node_order(order);
    let mut rest = nodes;
    let mut out: Vec<NodeTestInfo> = Vec::new();
    let mut k: usize = 0;
    let total: usize = rest.len();
    assert(orig.take(0) =~= Seq::<NodeTestInfo>::empty());
    while rest.len() > 0
        invariant
            k + rest@.len() == orig.len(),
            orig.len() == total,
            rest@ == orig.skip(k as int),
            out@ == sort_by(orig.take(k as int), lt),
            lt == node_order(order),
        decreases rest@.len(),
    {
        let x = rest.remove(0);
        assert(x == orig[k as int]);
        let mut j: usize = out.len();
        while j > 0 && node_less(order, &x, &out[j - 1])
            invariant
                j <= out@.len(),
                forall|i: int| j <= i < out@.len() ==> lt(x, #[trigger] out@[i]),
                lt == node_order(order),
            decreases j,
        {
            j = j - 1;
        }
        proof {
            lemma_insert_at(out@, x, lt, j as int);
            lemma_sort_step(orig, k as int, lt);
            assert(out@.take(j as int).push(x) + out@.skip(j as int) =~= out@.insert(j as int, x));
            assert(rest@ =~= orig.skip(k + 1));
        }
        out.insert(j, x);
        k = k + 1;
    }
    assert(orig.take(k as int) =~= orig);
    out
}

fn with_latency(node: NodeTestInfo, latency: u16) -> (r: NodeTestInfo)
    ensures
        r.name == node.name,
        r.status == TestStatus::Done(latency),
        r.history@ == capped_push(node.history@, latency),
{
    let mut node = node;
    let ghost h0 = node.history@;
    node.status = TestStatus::Done(latency);
    node.history.push(latency);
    if node.history.len() > 20 {
        node.history.remove(0);
    }
    assert(node.history@ =~= capped_push(h0, latency));
    node
}

/// The network test page.
#[derive(Debug)]
pub struct NetTestState {
    pub nodes: Vec<NodeTestInfo>,
    pub list_state: ListCursor,
    pub sort_order: SortOrder,
    pub is_testing: bool,
    pub tab: NetTestTab,
    pub analysis_result: AnalysisResult,
    pub analysis_testing: bool,
}

/// `after` is `before` with its nodes replaced by `node_names` (see `set_nodes`).
pub open spec fn nodes_set(before: NetTestState, after: NetTestState, node_names: Vec<String>) -> bool {
    &&& (after.nodes@.len() == node_names@.len())
    &&& (forall|i: int|
        0 <= i < node_names@.len() ==> {
            &&& (#[trigger] after.nodes@[i]).name == node_names@[i]
            &&& after.nodes@[i].status == TestStatus::Pending
            &&& after.nodes@[i].history@.len() == 0
        })
    &&& (after.list_state == (if node_names@.len() > 0 {
        selected_as(before.list_state, Some(0))
    } else {
        before.list_state
    }))
    &&& (after.sort_order == before.sort_order)
    &&& (after.is_testing == before.is_testing)
    &&& (after.tab == before.tab)
    &&& (after.analysis_result == before.analysis_result)
    &&& (after.analysis_testing == before.analysis_testing)
}

/// `after` is `before` once `latency` is recorded for `name` (see `update_node_latency`).
pub open spec fn latency_recorded(before: NetTestState, after: NetTestState, name: &str, latency: u16) -> bool {
    &&& (after.nodes@.len() == before.nodes@.len())
    &&& (match first_named(before.nodes@, name@) {
        None => after.nodes@ == before.nodes@,
        Some(i) => {
            &&& after.nodes@ == before.nodes@.update(i, after.nodes@[i])
            &&& after.nodes@[i].name == before.nodes@[i].name
            &&& after.nodes@[i].status == TestStatus::Done(latency)
            &&& after.nodes@[i].history@ == capped_push(before.nodes@[i].history@, latency)
        },
    })
    &&& (after.list_state == before.list_state)
    &&& (after.is_testing == before.is_testing)
    &&& (after.sort_order == before.sort_order)
    &&& (after.tab == before.tab)
    &&& (after.analysis_result == before.analysis_result)
    &&& (after.analysis_testing == before.analysis_testing)
}

/// `after` is `before` once the failure `err` is recorded for `name` (see `update_node_error`).
pub open spec fn error_recorded(before: NetTestState, after: NetTestState, name: &str, err: String) -> bool {
    &&& (after.nodes@.len() == before.nodes@.len())
    &&& (match first_named(before.nodes@, name@) {
        None => after.nodes@ == before.nodes@,
        Some(i) => {
            &&& after.nodes@ == before.nodes@.update(i, after.nodes@[i])
            &&& after.nodes@[i].name == before.nodes@[i].name
            &&& after.nodes@[i].status == TestStatus::Error(err)
            &&& after.nodes@[i].history == before.nodes@[i].history
        },
    })
    &&& (after.list_state == before.list_state)
    &&& (after.is_testing == before.is_testing)
    &&& (after.sort_order == before.sort_order)
    &&& (after.tab == before.tab)
    &&& (after.analysis_result == before.analysis_result)
    &&& (after.analysis_testing == before.analysis_testing)
}

/// `after` is `before` once a finished run is ended, `done` saying whether it was (see `finish_testing_if_complete`).
pub open spec fn testing_finished(before: NetTestState, after: NetTestState, done: bool) -> bool {
    &&& (done == (before.is_testing && forall|i: int|
        0 <= i < before.nodes@.len() ==> has_result(#[trigger] before.nodes@[i])))
    &&& (done ==> !after.is_testing && after.nodes@ == sort_by(
        before.nodes@,
        node_order(before.sort_order),
    ))
    &&& (!done ==> after.nodes@ == before.nodes@ && after.is_testing == before.is_testing)
    &&& (after.sort_order == before.sort_order)
    &&& (after.list_state == before.list_state)
    &&& (after.tab == before.tab)
    &&& (after.analysis_result == before.analysis_result)
    &&& (after.analysis_testing == before.analysis_testing)
}

/// `r` is an empty network test page (see `new`).
pub open spec fn fresh_nettest_state(r: NetTestState) -> bool {
    &&& (r.nodes@.len() == 0)
    &&& (r.list_state == (ListCursor { selected: None, offset: 0 }))
    &&& (r.sort_order == SortOrder::Unsorted)
    &&& (!r.is_testing)
    &&& (r.tab == NetTestTab::Analysis)
    &&& (crate::app::checker::pending_analysis(r.analysis_result))
    &&& (!r.analysis_testing)
}

/// `after` is `before` after its down arrow (see `on_down_key`).
pub open spec fn nodes_moved_down(before: NetTestState, after: NetTestState) -> bool {
    &&& (after.list_state == (if before.nodes@.len() == 0 {
        before.list_state
    } else {
        selected_as(before.list_state, Some(row_below(before.list_state.selected, before.nodes@.len() as int) as usize))
    }))
    &&& (after.nodes == before.nodes)
    &&& (after.sort_order == before.sort_order)
    &&& (after.is_testing == before.is_testing)
    &&& (after.tab == before.tab)
    &&& (after.analysis_result == before.analysis_result)
    &&& (after.analysis_testing == before.analysis_testing)
}

/// `after` is `before` after its up arrow (see `on_up_key`).
pub open spec fn nodes_moved_up(before: NetTestState, after: NetTestState) -> bool {
    &&& (after.list_state == (if before.nodes@.len() == 0 {
        before.list_state
    } else {
        selected_as(before.list_state, Some(row_above_or_first(before.list_state.selected, before.nodes@.len() as int) as usize))
    }))
    &&& (after.nodes == before.nodes)
    &&& (after.sort_order == before.sort_order)
    &&& (after.is_testing == before.is_testing)
    &&& (after.tab == before.tab)
    &&& (after.analysis_result == before.analysis_result)
    &&& (after.analysis_testing == before.analysis_testing)
}

impl NetTestState {
    /// An empty page showing the analysis view, unsorted, nothing running.
    pub fn new() -> (r: Self)
        ensures
            fresh_nettest_state(r),

    {
        NetTestState {
            nodes: Vec::new(),
            list_state: ListCursor::default(),
            sort_order: SortOrder::Unsorted,
            is_testing: false,
            tab: NetTestTab::Analysis,
            analysis_result: AnalysisResult::default(),
            analysis_testing: false,
        }
    }

    /// Replaces the nodes by untested nodes of the given names, in order;
    /// a non-empty list selects its first row.
    pub fn set_nodes(&mut self, node_names: Vec<String>)
        ensures
            nodes_set(*old(self), *final(self), node_names),

    {
        let ghost names = node_names@;
        let mut rest = node_names;
        let mut nodes: Vec<NodeTestInfo> = Vec::new();
        let mut k: usize = 0;
        let total: usize = rest.len();
        while rest.len() > 0
            invariant
                k + rest@.len() == names.len(),
                names.len() == total,
                rest@ == names.skip(k as int),
                nodes@.len() == k,
                forall|i: int|
                    0 <= i < k ==> {
                        &&& (#[trigger] nodes@[i]).name == names[i]
                        &&& nodes@[i].status == TestStatus::Pending
                        &&& nodes@[i].history@.len() == 0
                    },
            decreases rest@.len(),
        {
            let name = rest.remove(0);
            assert(name == names[k as int]);
            nodes.push(NodeTestInfo { name, status: TestStatus::Pending, history: Vec::new() });
            k = k + 1;
            assert(rest@ =~= names.skip(k as int));
        }
        self.nodes = nodes;
        if self.nodes.len() > 0 {
            self.list_state.select(Some(0));
        }
    }

    /// Records a delay for the first node of that name: its test is done,
    /// and the delay ends its history, which keeps the last 20.
    pub fn update_node_latency(&mut self, name: &str, latency: u16)
        ensures
            latency_recorded(*old(self), *final(self), name, latency),

    {
        if let Some(i) = self.find_node(name) {
            let node = self.nodes.remove(i);
            let node = with_latency(node, latency);
            self.nodes.insert(i, node);
            assert(self.nodes@ =~= old(self).nodes@.update(i as int, self.nodes@[i as int]));
        }
    }

    /// Records a failed test for the first node of that name.
    pub fn update_node_error(&mut self, name: &str, err: String)
        ensures
            error_recorded(*old(self), *final(self), name, err),

    {
        if let Some(i) = self.find_node(name) {
            let mut node = self.nodes.remove(i);
            node.status = TestStatus::Error(err);
            self.nodes.insert(i, node);
            assert(self.nodes@ =~= old(self).nodes@.update(i as int, self.nodes@[i as int]));
        }
    }

    fn find_node(&self, name: &str) -> (r: Option<usize>)
        ensures
            match r {
                None => first_named(self.nodes@, name@) is None,
                Some(i) => first_named(self.nodes@, name@) == Some(i as int) && i < self.nodes@.len(),
            },
    {
        let n = self.nodes.len();
        let mut i: usize = 0;
        while i < n
            invariant
                n == self.nodes@.len(),
                i <= n,
                forall|j: int| 0 <= j < i ==> self.nodes@[j].name@ != name@,
            decreases n - i,
        {
            if str_eq(self.nodes[i].name.as_str(), name) {
                proof {
                    let nodes = self.nodes@;
                    assert(nodes[i as int].name@ == name@);
                    let w = choose|w: int|
                        0 <= w < nodes.len() && nodes[w].name@ == name@ && forall|j: int|
                            0 <= j < w ==> nodes[j].name@ != name@;
                    if w < i {
                    } else if w > i {
                        assert(nodes[i as int].name@ != name@);
                    }
                    assert(first_named(nodes, name@) == Some(i as int));
                }
                return Some(i);
            }
            i = i + 1;
        }
        None
    }

    /// Starts testing every node; refused (`false`) with no nodes or while
    /// a test runs.
    pub fn start_testing_all(&mut self) -> (started: bool)
        ensures
            started == (old(self).nodes@.len() > 0 && !old(self).is_testing),
            started ==> final(self).is_testing,
            started ==> final(self).nodes@.len() == old(self).nodes@.len() && forall|i: int|
                0 <= i < old(self).nodes@.len() ==> {
                    &&& (#[trigger] final(self).nodes@[i]).name == old(self).nodes@[i].name
                    &&& final(self).nodes@[i].status == TestStatus::Testing
                    &&& final(self).nodes@[i].history == old(self).nodes@[i].history
                },
            !started ==> *final(self) == *old(self),
            final(self).list_state == old(self).list_state,
            final(self).sort_order == old(self).sort_order,
            final(self).tab == old(self).tab,
            final(self).analysis_testing == old(self).analysis_testing,
    {
        if self.nodes.len() == 0 || self.is_testing {
            return false;
        }
        self.is_testing = true;
        let n = self.nodes.len();
        let mut i: usize = 0;
        while i < n
            invariant
                n == self.nodes@.len(),
                n == old(self).nodes@.len(),
                i <= n,
                self.is_testing,
                self.list_state == old(self).list_state,
                self.sort_order == old(self).sort_order,
                self.tab == old(self).tab,
                self.analysis_testing == old(self).analysis_testing,
                forall|j: int|
                    0 <= j < n ==> {
                        &&& (#[trigger] self.nodes@[j]).name == old(self).nodes@[j].name
                        &&& self.nodes@[j].history == old(self).nodes@[j].history
                        &&& (j < i ==> self.nodes@[j].status == TestStatus::Testing)
                    },
            decreases n - i,
        {
            let mut node = self.nodes.remove(i);
            node.status = TestStatus::Testing;
            self.nodes.insert(i, node);
            i = i + 1;
        }
        true
    }

    /// Ends a running test once every node has a result, and orders the
    /// table by the current order; says whether it ended.
    pub fn finish_testing_if_complete(&mut self) -> (done: bool)
        ensures
            testing_finished(*old(self), *final(self), done),

    {
        if !self.is_testing {
            return false;
        }
        let n = self.nodes.len();
        let mut i: usize = 0;
        while i < n
            invariant
                n == self.nodes@.len(),
                i <= n,
                forall|j: int| 0 <= j < i ==> has_result(#[trigger] self.nodes@[j]),
            decreases n - i,
        {
            let finished = match self.nodes[i].status {
                TestStatus::Done(_) => true,
                TestStatus::Timeout => true,
                TestStatus::Error(_) => true,
                _ => false,
            };
            if !finished {
                return false;
            }
            i = i + 1;
        }
        self.is_testing = false;
        self.apply_sort_order();
        true
    }

    /// Switches to the next order (see `next_order`) and applies it.
    pub fn sort(&mut self)
        ensures
            final(self).sort_order == next_order(old(self).sort_order),
            final(self).nodes@ == sort_by(old(self).nodes@, node_order(next_order(old(self).sort_order))),
            final(self).list_state == old(self).list_state,
            final(self).is_testing == old(self).is_testing,
    {
        self.sort_order = match self.sort_order {
            SortOrder::Unsorted => SortOrder::LatencyAsc,
            SortOrder::LatencyAsc => SortOrder::LatencyDesc,
            SortOrder::LatencyDesc => SortOrder::NameAsc,
            SortOrder::NameAsc => SortOrder::NameDesc,
            SortOrder::NameDesc => SortOrder::LatencyAsc,
        };
        self.apply_sort_order();
    }

    /// Orders the nodes stably by the current order.
    pub fn apply_sort_order(&mut self)
        ensures
            final(self).nodes@ == sort_by(old(self).nodes@, node_order(old(self).sort_order)),
            final(self).sort_order == old(self).sort_order,
            final(self).list_state == old(self).list_state,
            final(self).is_testing == old(self).is_testing,
            final(self).tab == old(self).tab,
            final(self).analysis_result == old(self).analysis_result,
            final(self).analysis_testing == old(self).analysis_testing,
    {
        let mut nodes: Vec<NodeTestInfo> = Vec::new();
        std::mem::swap(&mut nodes, &mut self.nodes);
        self.nodes = sort_nodes(nodes, self.sort_order);
    }

    /// Selects the next row, wrapping to the first.
    pub fn on_down_key(&mut self)
        ensures
            nodes_moved_down(*old(self), *final(self)),

    {
        select_below(&mut self.list_state, self.nodes.len());
    }

    /// Selects the previous row, wrapping to the last; without a
    /// selection the first row.
    pub fn on_up_key(&mut self)
        ensures
            nodes_moved_up(*old(self), *final(self)),

    {
        select_above_or_first(&mut self.list_state, self.nodes.len());
    }
}

/// `v` holds a string whose text is `x`.
pub open spec fn lists_name(v: Seq<String>, x: Seq<char>) -> bool {
    exists|i: int| 0 <= i < v.len() && #[trigger] v[i]@ == x
}

/// `x` is a member of one of the first `n` groups.
pub open spec fn member_of_first(groups: Seq<Proxy>, n: int, x: Seq<char>) -> bool {
    exists|g: int, m: int| 0 <= g < n && 0 <= m < members(groups[g]).len() && (#[trigger] members(groups[g])[m])@ == x
}

/// `x` is a member of some group.
pub open spec fn is_member_name(groups: Seq<Proxy>, x: Seq<char>) -> bool {
    member_of_first(groups, groups.len() as int, x)
}

/// The names are in strictly increasing code-point order (so no name
/// occurs twice).
pub open spec fn strictly_ascending(names: Seq<String>) -> bool {
    forall|i: int, j: int| 0 <= i < j < names.len() ==> seq_lt(#[trigger] names[i]@, #[trigger] names[j]@)
}

/// Inserts `name` into the strictly ascending `v` unless it is there.
fn insert_name(v: &mut Vec<String>, name: &String)
    requires
        strictly_ascending(old(v)@),
    ensures
        strictly_ascending(final(v)@),
        forall|x: Seq<char>| #[trigger] lists_name(final(v)@, x) <==> (x == name@ || lists_name(old(v)@, x)),
{
    let ghost v0 = v@;
    let mut p: usize = 0;
    while p < v.len() && str_less(v[p].as_str(), name.as_str(), false)
        invariant
            v@ == v0,
            p <= v@.len(),
            forall|i: int| 0 <= i < p ==> seq_lt(#[trigger] v@[i]@, name@),
        decreases v@.len() - p,
    {
        p = p + 1;
    }
    if p < v.len() && crate::text::str_eq(v[p].as_str(), name.as_str()) {
        proof {
            assert forall|x: Seq<char>| #[trigger] lists_name(v@, x) <==> (x == name@ || lists_name(v0, x)) by {
                if x == name@ {
                    assert(v@[p as int]@ == x);
                }
            }
        }
        return;
    }
    proof {
        if p < v@.len() {
            lemma_seq_lt_total(v@[p as int]@, name@);
            assert(seq_lt(name@, v@[p as int]@));
        }
        assert forall|j: int| p <= j < v@.len() implies seq_lt(name@, #[trigger] v@[j]@) by {
            if j > p {
                lemma_seq_lt_total(v@[p as int]@, name@);
                lemma_seq_lt_transitive(name@, v@[p as int]@, v@[j]@);
            }
        }
    }
    v.insert(p, name.clone());
    proof {
        assert(v@[p as int]@ == name@);
        assert forall|i: int, j: int| 0 <= i < j < v@.len() implies seq_lt(#[trigger] v@[i]@, #[trigger] v@[j]@) by {
            if j < p {
                assert(v@[i] == v0[i] && v@[j] == v0[j]);
            } else if j == p {
                assert(v@[i] == v0[i]);
            } else if i < p {
                assert(v@[i] == v0[i] && v@[j] == v0[j - 1]);
                lemma_seq_lt_transitive(v0[i]@, name@, v0[j - 1]@);
            } else if i == p {
                assert(v@[j] == v0[j - 1]);
            } else {
                assert(v@[i] == v0[i - 1] && v@[j] == v0[j - 1]);
            }
        }
        assert forall|x: Seq<char>| #[trigger] lists_name(v@, x) <==> (x == name@ || lists_name(v0, x)) by {
            if lists_name(v@, x) {
                let i = choose|i: int| 0 <= i < v@.len() && #[trigger] v@[i]@ == x;
                if i < p {
                    assert(v0[i]@ == x);
                } else if i > p {
                    assert(v0[i - 1]@ == x);
                }
            }
            if x == name@ {
                assert(v@[p as int]@ == x);
            } else if lists_name(v0, x) {
                let i = choose|i: int| 0 <= i < v0.len() && #[trigger] v0[i]@ == x;
                if i < p {
                    assert(v@[i]@ == x);
                } else {
                    assert(v@[i + 1]@ == x);
                }
            }
        }
    }
}

/// The nodes the network test measures: every member of every group,
/// each once, in code-point order.
pub fn nettest_node_names(groups: &Groups) -> (r: Vec<String>)
    ensures
        strictly_ascending(r@),
        forall|x: Seq<char>| #[trigger] lists_name(r@, x) <==> is_member_name(groups.proxies@, x),
{
    let ghost gs = groups.proxies@;
    let mut r: Vec<String> = Vec::new();
    let mut g: usize = 0;
    while g < groups.proxies.len()
        invariant
            gs == groups.proxies@,
            g <= gs.len(),
            strictly_ascending(r@),
            forall|x: Seq<char>| #[trigger] lists_name(r@, x) <==> member_of_first(gs, g as int, x),
        decreases gs.len() - g,
    {
        match &groups.proxies[g].all {
            Some(all) => {
                let mut m: usize = 0;
                while m < all.len()
                    invariant
                        gs == groups.proxies@,
                        g < gs.len(),
                        members(gs[g as int]) == all@,
                        m <= all@.len(),
                        strictly_ascending(r@),
                        forall|x: Seq<char>| #[trigger] lists_name(r@, x) <==> (member_of_first(gs, g as int, x)
                            || lists_name(all@.take(m as int), x)),
                    decreases all@.len() - m,
                {
                    insert_name(&mut r, &all[m]);
                    m = m + 1;
                    proof {
                        assert forall|x: Seq<char>| #[trigger] lists_name(all@.take(m as int), x) <==> (lists_name(
                            all@.take(m - 1),
                            x,
                        ) || x == all@[m - 1]@) by {
                            if lists_name(all@.take(m as int), x) {
                                let k = choose|k: int| 0 <= k < m && #[trigger] all@.take(m as int)[k]@ == x;
                                if k < m - 1 {
                                    assert(all@.take(m - 1)[k]@ == x);
                                }
                            }
                            if lists_name(all@.take(m - 1), x) {
                                let k = choose|k: int| 0 <= k < m - 1 && #[trigger] all@.take(m - 1)[k]@ == x;
                                assert(all@.take(m as int)[k]@ == x);
                            }
                            if x == all@[m - 1]@ {
                                assert(all@.take(m as int)[m - 1]@ == x);
                            }
                        }
                    }
                }
                proof {
                    assert(all@.take(m as int) =~= all@);
                    assert forall|x: Seq<char>| #[trigger] member_of_first(gs, g + 1, x) <==> (member_of_first(gs, g as int, x)
                        || lists_name(all@, x)) by {
                        if member_of_first(gs, g + 1, x) {
                            let (a, k) = choose|a: int, k: int| 0 <= a < g + 1 && 0 <= k < members(gs[a]).len() && (#[trigger] members(
                                gs[a],
                            )[k])@ == x;
                            if a == g {
                                assert(all@[k]@ == x);
                            }
                        }
                        if lists_name(all@, x) {
                            let k = choose|k: int| 0 <= k < all@.len() && #[trigger] all@[k]@ == x;
                            assert(members(gs[g as int])[k]@ == x);
                        }
                    }
                }
            },
            None => {
                proof {
                    assert(members(gs[g as int]).len() == 0);
                    assert forall|x: Seq<char>| #[trigger] member_of_first(gs, g + 1, x) <==> member_of_first(gs, g as int, x) by {
                        if member_of_first(gs, g + 1, x) {
                            let (a, k) = choose|a: int, k: int| 0 <= a < g + 1 && 0 <= k < members(gs[a]).len() && (#[trigger] members(
                                gs[a],
                            )[k])@ == x;
                            assert(a != g);
                        }
                    }
                }
            },
        }
        g = g + 1;
    }
    r
}

} // verus!
