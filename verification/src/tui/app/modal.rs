//! Input and confirmation dialogs. The input dialog edits one line:
//! Ctrl+u clears it, Backspace deletes the character before the cursor,
//! Enter submits, Esc cancels. The confirmation dialog takes Enter or Esc.

use vstd::prelude::*;
use crate::text::{
    boundary_index, byte_offset, char_index_of, char_width, is_boundary, lemma_byte_offset_bound,
    lemma_byte_offset_step, lemma_byte_offset_strict, lemma_char_index_of, len_utf8, string_with_insert, string_with_remove,
    to_chars, utf8_len,
};

verus! {

/// What a submitted input is for.
#[derive(Debug, Clone, PartialEq, Eq)]
pub enum InputPurpose {
    /// Import a subscription from a URL.
    ImportProfileUrl,
    /// Keyword filter of the connections page.
    FilterConnections,
    /// Keyword filter of the rules page.
    FilterRules,
    /// New name of a profile.
    RenameProfile { uid: String },
    /// Member filter of the proxies page.
    FilterProxies,
    /// Keyword filter of the logs page.
    FilterLogs,
    /// The mixed port setting.
    EditMixedPort,
    /// The automatic update interval, in hours.
    EditAutoUpdateHours,
    /// The delay test URL.
    EditTestUrl,
    /// The DNS hijack list of TUN.
    EditDnsHijack,
    /// The routes TUN leaves alone.
    EditRouteExclude,
    /// The user ids TUN leaves alone.
    EditExcludeUid,
    /// The interfaces TUN leaves alone.
    EditExcludeInterface,
    /// The destination ports TUN leaves alone.
    EditExcludeDstPort,
    /// Operation filter of the audit view.
    FilterAuditOp,
    /// Where to export the audit view.
    ExportAudit,
}

/// Input dialog state. `cursor` is a byte offset into `buffer` and
/// normally lies on a character boundary.
#[derive(Debug)]
pub struct InputState {
    pub title: String,
    pub buffer: String,
    pub cursor: usize,
    pub purpose: InputPurpose,
}

/// The cursor after moving one character left: the start of the
/// character before it when it sits on a boundary past the start, else 0.
pub open spec fn cursor_left(s: Seq<char>, cursor: int) -> int {
    if cursor > 0 && is_boundary(s, cursor) {
        byte_offset(s, char_index_of(s, cursor) - 1) as int
    } else {
        0
    }
}

/// The cursor after moving one character right: the end of the character
/// after it when it sits on a boundary before the end, else unchanged.
pub open spec fn cursor_right(s: Seq<char>, cursor: int) -> int {
    if is_boundary(s, cursor) && char_index_of(s, cursor) < s.len() {
        byte_offset(s, char_index_of(s, cursor) + 1) as int
    } else {
        cursor
    }
}

impl InputState {
    /// An empty input dialog.
    pub fn new(title: &str, purpose: InputPurpose) -> (r: Self)
        ensures
            r.title@ == title@,
            r.buffer@ == Seq::<char>::empty(),
            r.cursor == 0,
            r.purpose == purpose,
    {
        InputState { title: String::from_str(title), buffer: String::new(), cursor: 0, purpose }
    }

    /// Inserts `c` at the cursor and moves the cursor past it. The cursor
    /// must sit on a character boundary.
    pub fn push_char(&mut self, c: char)
        requires
            is_boundary(old(self).buffer@, old(self).cursor as int),
            utf8_len(old(self).buffer@) + char_width(c) <= usize::MAX,
        ensures
            final(self).buffer@ == old(self).buffer@.insert(
                char_index_of(old(self).buffer@, old(self).cursor as int),
                c,
            ),
            final(self).cursor == old(self).cursor + char_width(c),
            final(self).title == old(self).title,
            final(self).purpose == old(self).purpose,
    {
        let v = to_chars(self.buffer.as_str());
        match boundary_index(&v, self.cursor) {
            Some(k) => {
                proof {
                    lemma_char_index_of(v@, self.cursor as int, k as int);
                    lemma_byte_offset_bound(v@, k as int);
                }
                self.buffer = string_with_insert(&v, k, c);
                self.cursor = self.cursor + len_utf8(c);
            },
            None => {
                proof {
                    assert(false);
                }
            },
        }
    }

    /// Deletes the character before the cursor. At the start nothing
    /// changes; off a boundary the first character goes and the cursor
    /// returns to the start.
    pub fn backspace(&mut self)
        requires
            old(self).cursor == 0 || is_boundary(old(self).buffer@, old(self).cursor as int)
                || old(self).buffer@.len() > 0,
        ensures
            old(self).cursor == 0 ==> final(self).buffer@ == old(self).buffer@ && final(self).cursor == 0,
            old(self).cursor > 0 && is_boundary(old(self).buffer@, old(self).cursor as int) ==> {
                let k = char_index_of(old(self).buffer@, old(self).cursor as int);
                &&& final(self).buffer@ == old(self).buffer@.remove(k - 1)
                &&& final(self).cursor == byte_offset(old(self).buffer@, k - 1)
            },
            old(self).cursor > 0 && !is_boundary(old(self).buffer@, old(self).cursor as int) ==> {
                &&& final(self).buffer@ == old(self).buffer@.remove(0)
                &&& final(self).cursor == 0
            },
            final(self).title == old(self).title,
            final(self).purpose == old(self).purpose,
    {
        if self.cursor == 0 {
            return;
        }
        let v = to_chars(self.buffer.as_str());
        match boundary_index(&v, self.cursor) {
            Some(k) => {
                proof {
                    lemma_char_index_of(v@, self.cursor as int, k as int);
                    assert(v@.take(0) =~= Seq::<char>::empty());
                }
                if k == 0 {
                    proof {
                        assert(false);
                    }
                    return;
                }
                proof {
                    lemma_byte_offset_strict(v@, (k - 1) as int, k as int);
                }
                let prev = prefix_bytes(&v, k - 1);
                self.buffer = string_with_remove(&v, k - 1);
                self.cursor = prev;
            },
            None => {
                self.buffer = string_with_remove(&v, 0);
                self.cursor = 0;
            },
        }
    }

    /// Moves the cursor one character left.
    pub fn move_left(&mut self)
        ensures
            final(self).cursor == cursor_left(old(self).buffer@, old(self).cursor as int),
            final(self).buffer == old(self).buffer,
            final(self).title == old(self).title,
            final(self).purpose == old(self).purpose,
    {
        let v = to_chars(self.buffer.as_str());
        match boundary_index(&v, self.cursor) {
            Some(k) => {
                proof {
                    lemma_char_index_of(v@, self.cursor as int, k as int);
                    assert(v@.take(0) =~= Seq::<char>::empty());
                }
                if k == 0 {
                    self.cursor = 0;
                } else {
                    proof {
                        lemma_byte_offset_strict(v@, (k - 1) as int, k as int);
                    }
                    self.cursor = prefix_bytes(&v, k - 1);
                }
            },
            None => {
                self.cursor = 0;
            },
        }
    }

    /// Moves the cursor one character right.
    pub fn move_right(&mut self)
        requires
            utf8_len(old(self).buffer@) <= usize::MAX,
        ensures
            final(self).cursor == cursor_right(old(self).buffer@, old(self).cursor as int),
            final(self).buffer == old(self).buffer,
            final(self).title == old(self).title,
            final(self).purpose == old(self).purpose,
    {
        let v = to_chars(self.buffer.as_str());
        match boundary_index(&v, self.cursor) {
            Some(k) => {
                proof {
                    lemma_char_index_of(v@, self.cursor as int, k as int);
                }
                if k < v.len() {
                    proof {
                        lemma_byte_offset_bound(v@, (k + 1) as int);
                        lemma_byte_offset_step(v@, k as int);
                    }
                    self.cursor = self.cursor + len_utf8(v[k]);
                }
            },
            None => {},
        }
    }

    /// Empties the line.
    pub fn clear(&mut self)
        ensures
            final(self).buffer@ == Seq::<char>::empty(),
            final(self).cursor == 0,
            final(self).title == old(self).title,
            final(self).purpose == old(self).purpose,
    {
        self.buffer = String::new();
        self.cursor = 0;
    }

    /// The text to submit.
    pub fn text(&self) -> (r: &str)
        ensures
            r@ == self.buffer@,
    {
        self.buffer.as_str()
    }
}

/// The byte offset of character index `k`.
fn prefix_bytes(v: &Vec<char>, k: usize) -> (r: usize)
    requires
        k <= v@.len(),
        byte_offset(v@, k as int) <= usize::MAX,
    ensures
        r == byte_offset(v@, k as int),
{
    let mut i: usize = 0;
    let mut acc: usize = 0;
    assert(v@.take(0) =~= Seq::<char>::empty());
    while i < k
        invariant
            k <= v@.len(),
            byte_offset(v@, k as int) <= usize::MAX,
            i <= k,
            acc == byte_offset(v@, i as int),
        decreases k - i,
    {
        proof {
            lemma_byte_offset_step(v@, i as int);
            if i + 1 < k {
                lemma_byte_offset_strict(v@, (i + 1) as int, k as int);
            }
        }
        acc = acc + len_utf8(v[i]);
        i = i + 1;
    }
    acc
}

/// Inserting a character and then deleting it with Backspace gives back
/// the line and the cursor as they were.
pub proof fn lemma_push_then_backspace(s: Seq<char>, cursor: int, c: char)
    requires
        is_boundary(s, cursor),
    ensures
        ({
            let k = char_index_of(s, cursor);
            let t = s.insert(k, c);
            let cursor2 = cursor + char_width(c);
            &&& cursor2 > 0
            &&& is_boundary(t, cursor2)
            &&& char_index_of(t, cursor2) == k + 1
            &&& t.remove(k) == s
            &&& byte_offset(t, k) == cursor
        }),
{
    let k = char_index_of(s, cursor);
    assert(0 <= k <= s.len() && byte_offset(s, k) == cursor);
    let t = s.insert(k, c);
    assert(t.take(k) =~= s.take(k));
    assert(t[k] == c);
    lemma_byte_offset_step(t, k);
    lemma_char_index_of(t, cursor + char_width(c), k + 1);
    assert(t.remove(k) =~= s);
}

/// Confirmation dialog state.
#[derive(Debug)]
pub struct ConfirmState {
    pub title: String,
    pub message: String,
    pub purpose: ConfirmPurpose,
}

impl ConfirmState {
    /// A confirmation dialog.
    pub fn new(title: &str, message: &str, purpose: ConfirmPurpose) -> (r: Self)
        ensures
            r.title@ == title@,
            r.message@ == message@,
            r.purpose == purpose,
    {
        ConfirmState { title: String::from_str(title), message: String::from_str(message), purpose }
    }
}

/// What a confirmation is for.
#[derive(Debug, Clone, PartialEq, Eq)]
pub enum ConfirmPurpose {
    /// Delete a profile.
    DeleteProfile { uid: String },
    /// Close every connection.
    CloseAllConnections,
    /// Switch TUN on or off.
    SetTun { enable: bool },
    /// Switch strict-route on.
    EnableStrictRoute,
    /// Switch auto-redirect on.
    EnableAutoRedirect,
    /// Remove what TUN left behind and go direct.
    CleanupTun,
    /// Stop the proxy core.
    StopCore,
    /// Upgrade the proxy core.
    UpgradeCore,
    /// Delete a backup.
    DeleteBackup { name: String },
    /// Restore a backup.
    RestoreBackup { name: String },
}

} // verus!
