//! The menu of the terminal client: a cursor over three fixed items that
//! stops at both ends.

use vstd::prelude::*;

verus! {

/// A menu entry, in display order.
#[derive(Debug, PartialEq, Eq, Clone, Copy, Structural)]
pub enum MenuItem {
    Proxy,
    Connections,
    NetTest,
}

/// The 0-based position of a menu entry.
pub open spec fn item_position(i: MenuItem) -> int {
    match i {
        MenuItem::Proxy => 0,
        MenuItem::Connections => 1,
        MenuItem::NetTest => 2,
    }
}

impl MenuItem {
    /// Every entry, in display order.
    pub const ALL: [MenuItem; 3] = [MenuItem::Proxy, MenuItem::Connections, MenuItem::NetTest];

    /// The entry below; the last entry stays where it is.
    pub fn next(&self) -> (r: Self)
        ensures
            item_position(r) == if item_position(*self) < 2 { item_position(*self) + 1 } else { 2 },
    {
        match self {
            MenuItem::Proxy => MenuItem::Connections,
            MenuItem::Connections => MenuItem::NetTest,
            MenuItem::NetTest => MenuItem::NetTest,
        }
    }

    /// The entry above; the first entry stays where it is.
    pub fn prev(&self) -> (r: Self)
        ensures
            item_position(r) == if item_position(*self) > 0 { item_position(*self) - 1 } else { 0 },
    {
        match self {
            MenuItem::Proxy => MenuItem::Proxy,
            MenuItem::Connections => MenuItem::Proxy,
            MenuItem::NetTest => MenuItem::Connections,
        }
    }

    /// The first entry.
    pub fn first() -> (r: Self)
        ensures
            r == MenuItem::Proxy,
    {
        MenuItem::Proxy
    }

    /// The last entry.
    pub fn last() -> (r: Self)
        ensures
            r == MenuItem::NetTest,
    {
        MenuItem::NetTest
    }

    /// The label of this entry.
    pub fn to_str(&self) -> (r: &str)
        ensures
            r@ == item_label(*self),
    {
        match self {
            MenuItem::Proxy => "Proxy",
            MenuItem::Connections => "Connections",
            MenuItem::NetTest => "NetTest",
        }
    }
}

/// The label of a menu entry.
pub open spec fn item_label(i: MenuItem) -> Seq<char> {
    match i {
        MenuItem::Proxy => "Proxy"@,
        MenuItem::Connections => "Connections"@,
        MenuItem::NetTest => "NetTest"@,
    }
}

/// The menu cursor.
#[derive(Debug)]
pub struct MenuState {
    current_item: MenuItem,
}

impl MenuState {
    /// The item under the cursor.
    pub closed spec fn item(&self) -> MenuItem {
        self.current_item
    }

    /// A menu whose cursor is on the proxy entry.
    pub fn init() -> (r: Self)
        ensures
            r.item() == MenuItem::Proxy,
    {
        MenuState { current_item: MenuItem::Proxy }
    }

    /// The item under the cursor.
    pub fn current(&self) -> (r: MenuItem)
        ensures
            r == self.item(),
    {
        self.current_item
    }

    /// Moves the cursor down, stopping at the last item.
    pub fn next(&mut self)
        ensures
            item_position(final(self).item()) == if item_position(old(self).item()) < 2 {
                item_position(old(self).item()) + 1
            } else {
                2
            },
    {
        self.current_item = self.current_item.next();
    }

    /// Moves the cursor up, stopping at the first item.
    pub fn prev(&mut self)
        ensures
            item_position(final(self).item()) == if item_position(old(self).item()) > 0 {
                item_position(old(self).item()) - 1
            } else {
                0
            },
    {
        self.current_item = self.current_item.prev();
    }

    /// Moves the cursor to the first item.
    pub fn first(&mut self)
        ensures
            final(self).item() == MenuItem::Proxy,
    {
        self.current_item = MenuItem::first();
    }

    /// Moves the cursor to the last item.
    pub fn last(&mut self)
        ensures
            final(self).item() == MenuItem::NetTest,
    {
        self.current_item = MenuItem::last();
    }
}

/// Distinct entries have distinct positions, so a position names an entry.
pub proof fn lemma_item_position_injective(a: MenuItem, b: MenuItem)
    ensures
        item_position(a) == item_position(b) ==> a == b,
        0 <= item_position(a) <= 2,
{
}


/// The position one move down from `p`: the next, or the last again.
pub open spec fn position_below(p: int) -> int {
    if p < 2 { p + 1 } else { 2 }
}

/// Moving down saturates: along any run of moves down (each entry of
/// `trace` one move below the one before, as `next` ensures), once the
/// run is at least as long as the distance to the last entry, the cursor
/// is on the last entry, and from the last entry it stays there.
pub proof fn lemma_next_saturates(trace: Seq<MenuItem>)
    requires
        trace.len() >= 1,
        forall|j: int| 0 <= j < trace.len() - 1 ==> item_position(#[trigger] trace[j + 1]) == position_below(item_position(trace[j])),
        trace.len() - 1 >= 2 - item_position(trace[0]),
    ensures
        trace.last() == MenuItem::NetTest,
{
    lemma_climb(trace, trace.len() - 1);
    lemma_item_position_injective(trace.last(), MenuItem::NetTest);
}

/// After `i` moves down the cursor is `i` entries further, or on the last.
proof fn lemma_climb(trace: Seq<MenuItem>, i: int)
    requires
        0 <= i < trace.len(),
        forall|j: int| 0 <= j < trace.len() - 1 ==> item_position(#[trigger] trace[j + 1]) == position_below(item_position(trace[j])),
    ensures
        item_position(trace[i]) >= item_position(trace[0]) + i || item_position(trace[i]) == 2,
    decreases i,
{
    if i > 0 {
        lemma_climb(trace, i - 1);
        let j = i - 1;
        assert(item_position(trace[j + 1]) == position_below(item_position(trace[j])));
        lemma_item_position_injective(trace[j], trace[j]);
    }
}

} // verus!
