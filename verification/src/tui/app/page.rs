//! Top-level pages and their digit keys: `1`-`7` open Home, Profiles,
//! Proxies, Connections, Logs, Settings and Rules, in that order.

use vstd::prelude::*;

verus! {

/// A top-level page; the declaration order is the digit-key order.
#[derive(Debug, Clone, Copy, PartialEq, Eq, Structural)]
pub enum Page {
    Home,
    Profiles,
    Proxies,
    Connections,
    Logs,
    Settings,
    Rules,
}

/// The page at a 0-based position of the navigation bar.
pub open spec fn page_at(i: int) -> Option<Page> {
    if i == 0 { Some(Page::Home) }
    else if i == 1 { Some(Page::Profiles) }
    else if i == 2 { Some(Page::Proxies) }
    else if i == 3 { Some(Page::Connections) }
    else if i == 4 { Some(Page::Logs) }
    else if i == 5 { Some(Page::Settings) }
    else if i == 6 { Some(Page::Rules) }
    else { None }
}

/// The 0-based position of a page.
pub open spec fn page_position(p: Page) -> int {
    match p {
        Page::Home => 0,
        Page::Profiles => 1,
        Page::Proxies => 2,
        Page::Connections => 3,
        Page::Logs => 4,
        Page::Settings => 5,
        Page::Rules => 6,
    }
}

/// The page a key opens: the digits `1`-`7` open the page at position
/// digit - 1, every other key opens nothing.
pub open spec fn page_for_key(key: char) -> Option<Page> {
    if '1' <= key && key <= '7' { page_at(key as int - '1' as int) } else { None }
}

impl Page {
    /// Every page, in digit-key order.
    pub const ALL: [Page; 7] = [
        Page::Home,
        Page::Profiles,
        Page::Proxies,
        Page::Connections,
        Page::Logs,
        Page::Settings,
        Page::Rules,
    ];

    /// The page that a digit key opens.
    pub fn from_key(key: char) -> (r: Option<Self>)
        ensures
            r == page_for_key(key),
    {
        if key == '1' { Some(Page::Home) }
        else if key == '2' { Some(Page::Profiles) }
        else if key == '3' { Some(Page::Proxies) }
        else if key == '4' { Some(Page::Connections) }
        else if key == '5' { Some(Page::Logs) }
        else if key == '6' { Some(Page::Settings) }
        else if key == '7' { Some(Page::Rules) }
        else { None }
    }

    /// The 0-based position of this page (navigation highlight).
    pub fn index(self) -> (r: usize)
        ensures
            r == page_position(self),
    {
        match self {
            Page::Home => 0,
            Page::Profiles => 1,
            Page::Proxies => 2,
            Page::Connections => 3,
            Page::Logs => 4,
            Page::Settings => 5,
            Page::Rules => 6,
        }
    }

    /// The English title of this page.
    pub fn title(self) -> (r: &'static str)
        ensures
            r@ == page_title(self),
    {
        match self {
            Page::Home => "Home",
            Page::Profiles => "Profiles",
            Page::Proxies => "Proxies",
            Page::Connections => "Connections",
            Page::Logs => "Logs",
            Page::Settings => "Settings",
            Page::Rules => "Rules",
        }
    }

    /// The digit key of this page, as shown in the footer and help.
    pub fn key(self) -> (r: &'static str)
        ensures
            r@ == page_key(self),
    {
        match self {
            Page::Home => "1",
            Page::Profiles => "2",
            Page::Proxies => "3",
            Page::Connections => "4",
            Page::Logs => "5",
            Page::Settings => "6",
            Page::Rules => "7",
        }
    }
}

/// English title of a page.
pub open spec fn page_title(p: Page) -> Seq<char> {
    match p {
        Page::Home => "Home"@,
        Page::Profiles => "Profiles"@,
        Page::Proxies => "Proxies"@,
        Page::Connections => "Connections"@,
        Page::Logs => "Logs"@,
        Page::Settings => "Settings"@,
        Page::Rules => "Rules"@,
    }
}

/// Digit key of a page, as text.
pub open spec fn page_key(p: Page) -> Seq<char> {
    match p {
        Page::Home => "1"@,
        Page::Profiles => "2"@,
        Page::Proxies => "3"@,
        Page::Connections => "4"@,
        Page::Logs => "5"@,
        Page::Settings => "6"@,
        Page::Rules => "7"@,
    }
}

/// Opening a page by its own digit key lands on that page, and the page's
/// position is that digit minus one.
pub proof fn lemma_key_round_trip(p: Page)
    ensures
        page_at(page_position(p)) == Some(p),
        page_for_key(('1' as int + page_position(p)) as char) == Some(p),
{
}

/// Distinct pages have distinct positions.
pub proof fn lemma_position_injective(p: Page, q: Page)
    ensures
        page_position(p) == page_position(q) ==> p == q,
{
}

} // verus!
