//! The `clard` command line: with no subcommand it starts the terminal
//! client; `profiles` manages subscription profiles through the helper.
//! Here stand the parsed commands and the text each subcommand prints.

use vstd::prelude::*;
use crate::parse::{decimal, decimal_string};
use crate::text::{str_eq};
use crate::tui::models::ProfileItem;

verus! {

/// A top-level subcommand.
#[derive(Debug, Clone)]
pub enum ClardCmd {
    /// Subscription profiles: import, list, update, remove, show or switch
    /// the current one, render the runtime configuration.
    Profiles(ProfilesCmd),
}

/// The `profiles` subcommand.
#[derive(Debug, Clone)]
pub struct ProfilesCmd {
    pub cmd: ProfilesSub,
}

/// What `profiles` is asked to do.
#[derive(Debug, Clone)]
pub enum ProfilesSub {
    /// Import a subscription from a URL; a profile with the same URL is
    /// replaced.
    Import {
        url: String,
        /// Profile name (the URL's host when absent).
        name: Option<String>,
        /// Update interval in seconds (0 = never).
        interval: u64,
    },
    /// List every profile.
    List,
    /// Download a profile again and replace it.
    Update { uid: String },
    /// Delete a profile.
    Remove { uid: String },
    /// Show the current profile.
    Current,
    /// Switch the current profile.
    SetCurrent { uid: String },
    /// Print the runtime configuration generated from a profile.
    Gen { uid: String },
}

/// The parsed command line.
#[derive(Debug, Clone)]
pub struct Cli {
    pub cmd: Option<ClardCmd>,
    /// Start the terminal client even when a subcommand is given.
    pub tui: bool,
}

impl Cli {
    /// The profiles subcommand to run, or `None` to start the terminal
    /// client: `--tui` wins over a subcommand, and no subcommand means
    /// the client.
    pub fn into_profiles_command(self) -> (r: Option<ProfilesSub>)
        ensures
            self.tui ==> r is None,
            !self.tui ==> match self.cmd {
                Some(ClardCmd::Profiles(p)) => r == Some(p.cmd),
                None => r is None,
            },
    {
        if self.tui {
            return None;
        }
        match self.cmd {
            Some(ClardCmd::Profiles(p)) => Some(p.cmd),
            None => None,
        }
    }
}

/// A signed integer in decimal.
pub open spec fn signed_decimal(i: int) -> Seq<char> {
    if i < 0 {
        seq!['-'] + decimal((-i) as nat)
    } else {
        decimal(i as nat)
    }
}

/// A signed integer in decimal.
pub fn signed_decimal_string(i: i64) -> (r: String)
    ensures
        r@ == signed_decimal(i as int),
{
    proof {
        reveal_strlit("-");
    }
    if i < 0 {
        let m: u64 = if i == i64::MIN { 9223372036854775808u64 } else { (-i) as u64 };
        assert(m == -(i as int));
        let d = decimal_string(m);
        let mut r = String::from_str("-");
        r.append(d.as_str());
        r
    } else {
        decimal_string(i as u64)
    }
}

/// An optional timestamp as debug-printed: `Some(N)` or `None`.
pub open spec fn optional_time_text(t: Option<i64>) -> Seq<char> {
    match t {
        Some(v) => "Some("@ + signed_decimal(v as int) + ")"@,
        None => "None"@,
    }
}

/// The line listing a profile: `*` in front of the current one, then its
/// uid, name, URL and last update.
pub open spec fn profile_line_text(current: Option<Seq<char>>, p: ProfileItem) -> Seq<char> {
    (if current == Some(p.uid@) { "*"@ } else { " "@ }) + " "@ + p.uid@ + "  "@ + p.name@ + "  "@ + p.url@
        + "  updated="@ + optional_time_text(p.updated_at)
}

/// What `profiles list` prints.
pub open spec fn profile_list_text(current: Option<Seq<char>>, items: Seq<ProfileItem>) -> Seq<Seq<char>> {
    if items.len() == 0 {
        seq!["(无配置)"@]
    } else {
        items.map_values(|p: ProfileItem| profile_line_text(current, p))
    }
}

fn profile_line(current: Option<&str>, p: &ProfileItem) -> (r: String)
    ensures
        r@ == profile_line_text(match current {
            Some(c) => Some(c@),
            None => None,
        }, *p),
{
    let is_current = match current {
        Some(c) => str_eq(c, p.uid.as_str()),
        None => false,
    };
    let mut r = String::from_str(if is_current { "*" } else { " " });
    r.append(" ");
    r.append(p.uid.as_str());
    r.append("  ");
    r.append(p.name.as_str());
    r.append("  ");
    r.append(p.url.as_str());
    r.append("  updated=");
    match p.updated_at {
        Some(v) => {
            r.append("Some(");
            let d = signed_decimal_string(v);
            r.append(d.as_str());
            r.append(")");
        },
        None => r.append("None"),
    }
    r
}

/// The lines `profiles list` prints.
pub fn profile_list_lines(current: Option<&str>, items: &Vec<ProfileItem>) -> (r: Vec<String>)
    ensures
        r@.map_values(|l: String| l@) == profile_list_text(match current {
            Some(c) => Some(c@),
            None => None,
        }, items@),
{
    let ghost cur = match current {
        Some(c) => Some(c@),
        None => None,
    };
    let mut r: Vec<String> = Vec::new();
    if items.len() == 0 {
        r.push(String::from_str("(无配置)"));
        assert(r@.map_values(|l: String| l@) =~= profile_list_text(cur, items@));
        return r;
    }
    let mut i: usize = 0;
    while i < items.len()
        invariant
            i <= items@.len(),
            r@.len() == i,
            cur == match current {
                Some(c) => Some(c@),
                None => None::<Seq<char>>,
            },
            forall|j: int| 0 <= j < i ==> #[trigger] r@[j]@ == profile_line_text(cur, items@[j]),
        decreases items@.len() - i,
    {
        let line = profile_line(current, &items[i]);
        r.push(line);
        i = i + 1;
    }
    assert(r@.map_values(|l: String| l@) =~= profile_list_text(cur, items@));
    r
}

/// The index of the first profile with the uid `uid`.
pub open spec fn profile_index(items: Seq<ProfileItem>, uid: Seq<char>) -> Option<int> {
    if exists|i: int| 0 <= i < items.len() && items[i].uid@ == uid {
        Some(choose|i: int| 0 <= i < items.len() && items[i].uid@ == uid
            && forall|j: int| 0 <= j < i ==> items[j].uid@ != uid)
    } else {
        None
    }
}

/// What `profiles current` prints: the uid and name of the current
/// profile, or why there is none.
pub open spec fn current_profile_text(current: Option<Seq<char>>, items: Seq<ProfileItem>) -> Seq<char> {
    match current {
        None => "(无当前配置)"@,
        Some(c) => match profile_index(items, c) {
            Some(i) => items[i].uid@ + "  "@ + items[i].name@,
            None => "(当前配置不存在)"@,
        },
    }
}

/// The line `profiles current` prints.
pub fn current_profile_line(current: Option<&str>, items: &Vec<ProfileItem>) -> (r: String)
    ensures
        r@ == current_profile_text(match current {
            Some(c) => Some(c@),
            None => None,
        }, items@),
{
    match current {
        None => String::from_str("(无当前配置)"),
        Some(c) => {
            let mut i: usize = 0;
            while i < items.len()
                invariant
                    i <= items@.len(),
                    current == Some(c),
                    forall|j: int| 0 <= j < i ==> items@[j].uid@ != c@,
                decreases items@.len() - i,
            {
                if str_eq(items[i].uid.as_str(), c) {
                    let ghost k = i as int;
                    proof {
                        let w = choose|w: int| 0 <= w < items@.len() && items@[w].uid@ == c@
                            && forall|j: int| 0 <= j < w ==> items@[j].uid@ != c@;
                        assert(0 <= k < items@.len() && items@[k].uid@ == c@
                            && forall|j: int| 0 <= j < k ==> items@[j].uid@ != c@);
                        if w < k {
                        } else if k < w {
                        }
                        assert(w == k);
                        assert(profile_index(items@, c@) == Some(k));
                    }
                    let mut r = String::new();
                    r.append(items[i].uid.as_str());
                    r.append("  ");
                    r.append(items[i].name.as_str());
                    assert(r@ =~= items@[k].uid@ + "  "@ + items@[k].name@);
                    return r;
                }
                i = i + 1;
            }
            proof {
                assert(!(exists|j: int| 0 <= j < items@.len() && items@[j].uid@ == c@));
            }
            String::from_str("(当前配置不存在)")
        },
    }
}

/// What `profiles import` prints: whether a profile with the same URL was
/// replaced, and the uid.
pub fn imported_message(uid: &str, updated: bool) -> (r: String)
    ensures
        r@ == (if updated { "同 URL 已覆盖更新: "@ } else { "已导入: "@ }) + uid@,
{
    let mut r = String::from_str(if updated { "同 URL 已覆盖更新: " } else { "已导入: " });
    r.append(uid);
    r
}

/// What `profiles update` prints: the uid and whether it replaced a
/// profile.
pub fn updated_message(uid: &str, updated: bool) -> (r: String)
    ensures
        r@ == "已更新: "@ + uid@ + "（覆盖更新: "@ + (if updated { "true"@ } else { "false"@ }) + "）"@,
{
    let mut r = String::from_str("已更新: ");
    r.append(uid);
    r.append("（覆盖更新: ");
    r.append(if updated { "true" } else { "false" });
    r.append("）");
    r
}

/// What `profiles remove` prints.
pub fn removed_message(uid: &str) -> (r: String)
    ensures
        r@ == "已删除: "@ + uid@,
{
    let mut r = String::from_str("已删除: ");
    r.append(uid);
    r
}

/// What `profiles set-current` prints.
pub fn switched_message(uid: &str) -> (r: String)
    ensures
        r@ == "已切换当前配置: "@ + uid@,
{
    let mut r = String::from_str("已切换当前配置: ");
    r.append(uid);
    r
}

} // verus!
