//! The start menu: a cursor over five fixed pages that stops at both
//! ends, and the key that quits from it.

use vstd::prelude::*;

verus! {

/// A menu entry, in display order.
#[derive(Debug, PartialEq, Eq, Clone, Copy, Structural)]
pub enum MenuItem {
    Preview,
    Proxy,
    Connections,
    Rules,
    NetTest,
}

/// The 0-based position of a menu entry.
pub open spec fn item_position(i: MenuItem) -> int {
    match i {
        MenuItem::Preview => 0,
        MenuItem::Proxy => 1,
        MenuItem::Connections => 2,
        MenuItem::Rules => 3,
        MenuItem::NetTest => 4,
    }
}

/// The label of a menu entry.
pub open spec fn item_label(i: MenuItem) -> Seq<char> {
    match i {
        MenuItem::Preview => "Preview"@,
        MenuItem::Proxy => "Proxy"@,
        MenuItem::Connections => "Connections"@,
        MenuItem::Rules => "Rules"@,
        MenuItem::NetTest => "NetTest"@,
    }
}

impl MenuItem {
    /// Every entry, in display order.
    pub const ALL: [MenuItem; 5] = [
        MenuItem::Preview,
        MenuItem::Proxy,
        MenuItem::Connections,
        MenuItem::Rules,
        MenuItem::NetTest,
    ];

    /// The entry below; the last entry stays where it is.
    pub fn next(&self) -> (r: Self)
        ensures
            item_position(r) == if item_position(*self) < 4 { item_position(*self) + 1 } else { 4 },
    {
        match self {
            MenuItem::Preview => MenuItem::Proxy,
            MenuItem::Proxy => MenuItem::Connections,
            MenuItem::Connections => MenuItem::Rules,
            MenuItem::Rules => MenuItem::NetTest,
            MenuItem::NetTest => MenuItem::NetTest,
        }
    }

    /// The entry above; the first entry stays where it is.
    pub fn prev(&self) -> (r: Self)
        ensures
            item_position(r) == if item_position(*self) > 0 { item_position(*self) - 1 } else { 0 },
    {
        match self {
            MenuItem::Preview => MenuItem::Preview,
            MenuItem::Proxy => MenuItem::Preview,
            MenuItem::Connections => MenuItem::Proxy,
            MenuItem::Rules => MenuItem::Connections,
            MenuItem::NetTest => MenuItem::Rules,
        }
    }

    /// The first entry.
    pub fn first() -> (r: Self)
        ensures
            r == MenuItem::Preview,
    {
        MenuItem::Preview
    }

    /// The last entry.
    pub fn last() -> (r: Self)
        ensures
            r == MenuItem::NetTest,
    {
        MenuItem::NetTest
    }

    /// The label of this entry.
    pub fn to_str(&self) -> (r: &str)
        ensures
            r@ == item_label(*self),
    {
        match self {
            MenuItem::Preview => "Preview",
            MenuItem::Proxy => "Proxy",
            MenuItem::Connections => "Connections",
            MenuItem::Rules => "Rules",
            MenuItem::NetTest => "NetTest",
        }
    }
}

/// The menu cursor.
#[derive(Debug)]
pub struct MenuState {
    current_item: MenuItem,
}

impl MenuState {
    /// The item under the cursor.
    pub closed spec fn item(&self) -> MenuItem {
        self.current_item
    }

    /// A menu whose cursor is on the preview entry.
    pub fn init() -> (r: Self)
        ensures
            r.item() == MenuItem::Preview,
    {
        MenuState { current_item: MenuItem::Preview }
    }

    /// The item under the cursor.
    pub fn current(&self) -> (r: MenuItem)
        ensures
            r == self.item(),
    {
        self.current_item
    }

    /// Moves the cursor down, stopping at the last item.
    pub fn next(&mut self)
        ensures
            item_position(final(self).item()) == if item_position(old(self).item()) < 4 {
                item_position(old(self).item()) + 1
            } else {
                4
            },
    {
        self.current_item = self.current_item.next();
    }

    /// Moves the cursor up, stopping at the first item.
    pub fn prev(&mut self)
        ensures
            item_position(final(self).item()) == if item_position(old(self).item()) > 0 {
                item_position(old(self).item()) - 1
            } else {
                0
            },
    {
        self.current_item = self.current_item.prev();
    }

    /// Moves the cursor to the first item.
    pub fn first(&mut self)
        ensures
            final(self).item() == MenuItem::Preview,
    {
        self.current_item = MenuItem::first();
    }

    /// Moves the cursor to the last item.
    pub fn last(&mut self)
        ensures
            final(self).item() == MenuItem::NetTest,
    {
        self.current_item = MenuItem::last();
    }

    /// Whether a key typed on the menu asks to quit (`q`).
    pub fn on_char(&self, c: char) -> (quit: bool)
        ensures
            quit == (c == 'q'),
    {
        c == 'q'
    }
}

/// Moving the menu cursor down and then up from any entry but the last
/// lands on that entry again: `b`, whose position is the one reached by
/// the two steps, is `a`.
pub proof fn lemma_menu_step_back(a: MenuItem, b: MenuItem)
    requires
        item_position(a) < 4,
        item_position(b) == {
            let down = if item_position(a) < 4 { item_position(a) + 1 } else { 4 };
            if down > 0 { down - 1 } else { 0 }
        },
    ensures
        b == a,
{
}

} // verus!
