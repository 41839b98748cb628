//! The Connections page: the active connections, largest transfer first,
//! and the recent traffic rates.

use vstd::prelude::*;
use crate::app::connections::{refit, refit_cursor};
use crate::sort::{insert_by, lemma_insert_at, lemma_sort_elements, lemma_sort_sorted, lemma_sort_step, sort_by, strict_weak};
use crate::tui::models::{Connection, Connections, Traffic};
use crate::tui::nav::{row_above_or_first, row_below, select_above_or_first, select_below, selected_as, ListCursor};

verus! {

/// Which transfer the table is ordered by, largest first.
#[derive(Debug, Clone, Copy, PartialEq, Eq, Structural)]
pub enum ConnectionsSort {
    Upload,
    Download,
}

/// Whether connection `a` goes before `b`: it moved more bytes in the
/// sorted direction.
pub open spec fn conn_order(sort: ConnectionsSort) -> spec_fn(Connection, Connection) -> bool {
    |a: Connection, b: Connection| match sort {
        ConnectionsSort::Upload => b.upload < a.upload,
        ConnectionsSort::Download => b.download < a.download,
    }
}

/// The last 60 of `h` followed by `x`.
pub open spec fn recent_rates(h: Seq<u64>, x: u64) -> Seq<u64> {
    let p = h.push(x);
    if p.len() > 60 { p.drop_first() } else { p }
}

fn moved_more(sort: ConnectionsSort, a: &Connection, b: &Connection) -> (r: bool)
    ensures
        r == conn_order(sort)(*a, *b),
{
    match sort {
        ConnectionsSort::Upload => b.upload < a.upload,
        ConnectionsSort::Download => b.download < a.download,
    }
}

/// Sorting connections by a transfer keeps them all and puts them in
/// non-increasing order of that transfer: largest upload (or download)
/// first.
pub proof fn lemma_sorted_connections(v: Seq<Connection>, sort: ConnectionsSort)
    ensures
        sort_by(v, conn_order(sort)).to_multiset() == v.to_multiset(),
        sort_by(v, conn_order(sort)).len() == v.len(),
        forall|i: int, j: int|
            0 <= i < j < v.len() ==> match sort {
                ConnectionsSort::Upload => sort_by(v, conn_order(sort))[i].upload >= sort_by(v, conn_order(sort))[j].upload,
                ConnectionsSort::Download => sort_by(v, conn_order(sort))[i].download >= sort_by(
                    v,
                    conn_order(sort),
                )[j].download,
            },
{
    let lt = conn_order(sort);
    assert(strict_weak(lt));
    lemma_sort_elements(v, lt);
    lemma_sort_sorted(v, lt);
}

/// Connections sorted stably by the transfer of `sort`, largest first.
pub fn sort_connections(v: Vec<Connection>, sort: ConnectionsSort) -> (r: Vec<Connection>)
    ensures
        r@ == sort_by(v@, conn_order(sort)),
        r@.to_multiset() == v@.to_multiset(),
        forall|i: int, j: int|
            0 <= i < j < r@.len() ==> match sort {
                ConnectionsSort::Upload => r@[i].upload >= r@[j].upload,
                ConnectionsSort::Download => r@[i].download >= r@[j].download,
            },
{
    proof {
        lemma_sorted_connections(v@, sort);
    }
    let ghost orig = v@;
    let ghost lt = conn_order(sort);
    let mut rest = v;
    let mut out: Vec<Connection> = Vec::new();
    let mut k: usize = 0;
    let total: usize = rest.len();
    assert(orig.take(0) =~= Seq::<Connection>::empty());
    while rest.len() > 0
        invariant
            k + rest@.len() == total,
            orig.len() == total,
            rest@ == orig.skip(k as int),
            out@ == sort_by(orig.take(k as int), lt),
            lt == conn_order(sort),
        decreases rest@.len(),
    {
        let x = rest.remove(0);
        assert(x == orig[k as int]);
        let mut j: usize = out.len();
        while j > 0 && moved_more(sort, &x, &out[j - 1])
            invariant
                j <= out@.len(),
                forall|i: int| j <= i < out@.len() ==> lt(x, #[trigger] out@[i]),
                lt == conn_order(sort),
            decreases j,
        {
            j = j - 1;
        }
        proof {
            lemma_insert_at(out@, x, lt, j as int);
            lemma_sort_step(orig, k as int, lt);
            assert(out@.take(j as int).push(x) + out@.skip(j as int) =~= out@.insert(j as int, x));
            assert(rest@ =~= orig.skip(k + 1));
        }
        out.insert(j, x);
        k = k + 1;
    }
    assert(orig.take(k as int) =~= orig);
    out
}

/// The Connections page.
#[derive(Debug)]
pub struct ConnectionsState {
    /// The last report; its list of connections is moved to `connections`.
    pub connections_data: Option<Connections>,
    pub list_state: ListCursor,
    pub connections: Vec<Connection>,
    pub sort: ConnectionsSort,
    pub traffic: Option<Traffic>,
    /// The last 60 upload rates.
    pub upload_history: Vec<u64>,
    /// The last 60 download rates.
    pub download_history: Vec<u64>,
}

/// `after` is `before` once it has taken the report `data` (see `update_connections`).
pub open spec fn connections_taken(before: ConnectionsState, after: ConnectionsState, data: Connections) -> bool {
    &&& (after.connections@ == sort_by(
        match data.connections {
            Some(v) => v@,
            None => Seq::empty(),
        },
        conn_order(before.sort),
    ))
    &&& (after.connections_data matches Some(d) && d.upload_total == data.upload_total
        && d.download_total == data.download_total && d.memory == data.memory && d.connections is None)
    &&& (after.list_state == refit(before.list_state, after.connections@.len() as int))
    &&& (after.sort == before.sort)
    &&& (after.upload_history == before.upload_history)
    &&& (after.download_history == before.download_history)
    &&& (after.traffic == before.traffic)
}

/// `after` is `before` once it has recorded `traffic` (see `update_traffic`).
pub open spec fn traffic_taken(before: ConnectionsState, after: ConnectionsState, traffic: Traffic) -> bool {
    &&& (after.traffic == Some(traffic))
    &&& (after.upload_history@ == recent_rates(before.upload_history@, traffic.up))
    &&& (after.download_history@ == recent_rates(before.download_history@, traffic.down))
    &&& (after.connections == before.connections)
    &&& (after.list_state == before.list_state)
    &&& (after.connections_data == before.connections_data)
    &&& (after.sort == before.sort)
}

/// `r` is an empty connections page (see `new`).
pub open spec fn fresh_connections_state(r: ConnectionsState) -> bool {
    &&& (r.connections_data is None)
    &&& (r.list_state == (ListCursor { selected: None, offset: 0 }))
    &&& (r.connections@.len() == 0)
    &&& (r.sort == ConnectionsSort::Download)
    &&& (r.traffic is None)
    &&& (r.upload_history@.len() == 0)
    &&& (r.download_history@.len() == 0)
}

/// `after` is `before` after its down arrow (see `on_down_key`).
pub open spec fn connections_moved_down(before: ConnectionsState, after: ConnectionsState) -> bool {
    &&& (after.list_state == (if before.connections@.len() == 0 {
        before.list_state
    } else {
        selected_as(before.list_state, Some(row_below(before.list_state.selected, before.connections@.len() as int) as usize))
    }))
    &&& (after.connections == before.connections)
    &&& (after.connections_data == before.connections_data)
    &&& (after.sort == before.sort)
    &&& (after.traffic == before.traffic)
    &&& (after.upload_history == before.upload_history)
    &&& (after.download_history == before.download_history)
}

/// `after` is `before` after its up arrow (see `on_up_key`).
pub open spec fn connections_moved_up(before: ConnectionsState, after: ConnectionsState) -> bool {
    &&& (after.list_state == (if before.connections@.len() == 0 {
        before.list_state
    } else {
        selected_as(before.list_state, Some(row_above_or_first(before.list_state.selected, before.connections@.len() as int) as usize))
    }))
    &&& (after.connections == before.connections)
    &&& (after.connections_data == before.connections_data)
    &&& (after.sort == before.sort)
    &&& (after.traffic == before.traffic)
    &&& (after.upload_history == before.upload_history)
    &&& (after.download_history == before.download_history)
}

impl ConnectionsState {
    /// An empty page ordered by download.
    pub fn new() -> (r: Self)
        ensures
            fresh_connections_state(r),

    {
        ConnectionsState {
            connections_data: None,
            list_state: ListCursor::default(),
            connections: Vec::new(),
            sort: ConnectionsSort::Download,
            traffic: None,
            upload_history: Vec::new(),
            download_history: Vec::new(),
        }
    }

    /// Takes a new report: its connections (none when it has no list),
    /// ordered by the current sort, become the table; the totals are kept;
    /// the cursor is re-fitted.
    pub fn update_connections(&mut self, data: Connections)
        ensures
            connections_taken(*old(self), *final(self), data),

    {
        let mut data = data;
        let list = data.connections.take();
        let conns = match list {
            Some(v) => v,
            None => Vec::new(),
        };
        self.connections = sort_connections(conns, self.sort);
        self.connections_data = Some(data);
        refit_cursor(&mut self.list_state, self.connections.len());
    }

    /// Records a traffic sample: it becomes the current one, and its rates
    /// end the two histories, which keep the last 60.
    pub fn update_traffic(&mut self, traffic: Traffic)
        ensures
            traffic_taken(*old(self), *final(self), traffic),

    {
        let ghost u0 = self.upload_history@;
        let ghost d0 = self.download_history@;
        self.upload_history.push(traffic.up);
        self.download_history.push(traffic.down);
        if self.upload_history.len() > 60 {
            self.upload_history.remove(0);
        }
        if self.download_history.len() > 60 {
            self.download_history.remove(0);
        }
        self.traffic = Some(traffic);
        assert(self.upload_history@ =~= recent_rates(u0, traffic.up));
        assert(self.download_history@ =~= recent_rates(d0, traffic.down));
    }

    /// Selects the next row, wrapping to the first.
    pub fn on_down_key(&mut self)
        ensures
            connections_moved_down(*old(self), *final(self)),

    {
        select_below(&mut self.list_state, self.connections.len());
    }

    /// Selects the previous row, wrapping to the last; without a selection
    /// the first row.
    pub fn on_up_key(&mut self)
        ensures
            connections_moved_up(*old(self), *final(self)),

    {
        select_above_or_first(&mut self.list_state, self.connections.len());
    }

    /// Orders the table by upload, largest first; an unselected non-empty
    /// table selects its first row.
    pub fn sort_by_upload(&mut self)
        ensures
            final(self).sort == ConnectionsSort::Upload,
            final(self).connections@ == sort_by(old(self).connections@, conn_order(ConnectionsSort::Upload)),
            final(self).list_state == first_if_unset(old(self).list_state, old(self).connections@.len() as int),
    {
        self.sort = ConnectionsSort::Upload;
        self.apply_sort();
        self.select_first_if_needed();
    }

    /// Orders the table by download, largest first; an unselected
    /// non-empty table selects its first row.
    pub fn sort_by_download(&mut self)
        ensures
            final(self).sort == ConnectionsSort::Download,
            final(self).connections@ == sort_by(old(self).connections@, conn_order(ConnectionsSort::Download)),
            final(self).list_state == first_if_unset(old(self).list_state, old(self).connections@.len() as int),
    {
        self.sort = ConnectionsSort::Download;
        self.apply_sort();
        self.select_first_if_needed();
    }

    fn apply_sort(&mut self)
        ensures
            final(self).connections@ == sort_by(old(self).connections@, conn_order(old(self).sort)),
            final(self).sort == old(self).sort,
            final(self).list_state == old(self).list_state,
    {
        let mut conns: Vec<Connection> = Vec::new();
        std::mem::swap(&mut conns, &mut self.connections);
        self.connections = sort_connections(conns, self.sort);
    }

    fn select_first_if_needed(&mut self)
        ensures
            final(self).list_state == first_if_unset(old(self).list_state, old(self).connections@.len() as int),
            final(self).connections == old(self).connections,
            final(self).sort == old(self).sort,
    {
        proof {
            crate::sort::lemma_sort_elements(self.connections@, conn_order(self.sort));
        }
        if self.connections.len() == 0 {
            self.list_state.select(None);
        } else if self.list_state.selected.is_none() {
            self.list_state.select(Some(0));
        }
    }
}

/// The cursor after a re-sort: cleared for an empty table, the first row
/// when unset, unchanged otherwise.
pub open spec fn first_if_unset(c: ListCursor, len: int) -> ListCursor {
    if len == 0 {
        selected_as(c, None)
    } else if c.selected is None {
        selected_as(c, Some(0))
    } else {
        c
    }
}

/// A rate history never holds more than 60 samples, its newest sample
/// is its last, and the older ones keep their order.
pub proof fn lemma_recent_rates_bounded(h: Seq<u64>, x: u64)
    requires
        h.len() <= 60,
    ensures
        recent_rates(h, x).len() == if h.len() < 60 { h.len() + 1 } else { 60 },
        recent_rates(h, x).last() == x,
        recent_rates(h, x).drop_last() == (if h.len() < 60 { h } else { h.drop_first() }),
{
    if h.len() == 60 {
        assert(h.push(x).drop_first().drop_last() =~= h.drop_first());
    } else {
        assert(h.push(x).drop_last() =~= h);
    }
}

} // verus!
