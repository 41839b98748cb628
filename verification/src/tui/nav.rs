//! List navigation: moves the selection by a step with wrap-around and
//! keeps the scroll offset so that the selection stays in the viewport.
//! The offset lives in the state because rendering works on a copy.

use vstd::prelude::*;

verus! {

/// Selection and scroll offset of a list or table view.
#[derive(Debug, Clone, Copy, PartialEq, Eq, Structural)]
pub struct ListCursor {
    pub selected: Option<usize>,
    pub offset: usize,
}

impl Default for ListCursor {
    fn default() -> (r: Self)
        ensures
            r.selected is None,
            r.offset == 0,
    {
        ListCursor { selected: None, offset: 0 }
    }
}

impl ListCursor {
    /// The selected index, if any.
    pub fn selected(&self) -> (r: Option<usize>)
        ensures
            r == self.selected,
    {
        self.selected
    }

    /// Selects an index; clearing the selection also scrolls back to the top.
    pub fn select(&mut self, index: Option<usize>)
        ensures
            final(self).selected == index,
            final(self).offset == (if index is None { 0 } else { old(self).offset }),
    {
        self.selected = index;
        if index.is_none() {
            self.offset = 0;
        }
    }
}

/// What a view exposes to navigation: its selection and scroll offset.
pub trait CursorState {
    spec fn selection(&self) -> Option<usize>;

    spec fn scroll(&self) -> usize;

    fn cur_selected(&self) -> (r: Option<usize>)
        ensures
            r == self.selection(),
    ;

    fn cur_offset(&mut self) -> (r: usize)
        ensures
            r == old(self).scroll(),
            final(self).selection() == old(self).selection(),
            final(self).scroll() == old(self).scroll(),
    ;

    fn set_cursor(&mut self, offset: usize, selected: usize)
        ensures
            final(self).selection() == Some(selected),
            final(self).scroll() == offset,
    ;
}

impl CursorState for ListCursor {
    open spec fn selection(&self) -> Option<usize> {
        self.selected
    }

    open spec fn scroll(&self) -> usize {
        self.offset
    }

    fn cur_selected(&self) -> (r: Option<usize>) {
        self.selected
    }

    fn cur_offset(&mut self) -> (r: usize) {
        self.offset
    }

    fn set_cursor(&mut self, offset: usize, selected: usize) {
        self.offset = offset;
        self.selected = Some(selected);
    }
}

/// The index a move by `step` lands on in a list of `len` items, starting
/// from `sel`: `sel + step` taken modulo `len` (Euclidean, so it wraps at
/// both ends).
pub open spec fn wrapped_index(sel: int, step: int, len: int) -> int {
    (sel + step) % len
}

/// The scroll offset after the selection lands on `next`: scroll up to it
/// when it is above the viewport, scroll down so that it is the last
/// visible row when it is below, else keep the offset.
pub open spec fn follow_offset(offset: int, viewport: int, next: int) -> int {
    if next < offset {
        next
    } else if offset + viewport <= next {
        next + 1 - viewport
    } else {
        offset
    }
}

/// The index the selection starts from: the selection, or 0 without one.
pub open spec fn start_index(selected: Option<usize>) -> int {
    match selected {
        Some(i) => i as int,
        None => 0,
    }
}

/// Whether a move can be carried out: the list length and the sum of the
/// start index and the step fit in an `i32`, and offset plus viewport in a
/// `usize`.
pub open spec fn move_in_range(selected: Option<usize>, offset: usize, len: usize, viewport: usize, step: i32) -> bool {
    &&& len <= i32::MAX
    &&& start_index(selected) <= i32::MAX
    &&& i32::MIN <= start_index(selected) + step <= i32::MAX
    &&& offset + viewport <= usize::MAX
}

proof fn lemma_neg_mod(s: int, len: int)
    requires
        s < 0,
        len > 0,
    ensures
        s % len == len - 1 - ((-s - 1) % len),
{
    let a = -s - 1;
    assert(a >= 0);
    let q = a / len;
    let r = a % len;
    assert(a == q * len + r && 0 <= r < len) by (nonlinear_arith)
        requires
            len > 0,
            q == a / len,
            r == a % len,
    ;
    assert(s == (-q - 1) * len + (len - 1 - r)) by (nonlinear_arith)
        requires
            a == q * len + r,
            a == -s - 1,
    ;
    assert(s % len == len - 1 - r) by (nonlinear_arith)
        requires
            s == (-q - 1) * len + (len - 1 - r),
            0 <= len - 1 - r < len,
    ;
}

fn wrap_index(sel: i32, step: i32, len: usize) -> (r: usize)
    requires
        len > 0,
        len <= i32::MAX,
        i32::MIN <= sel + step <= i32::MAX,
    ensures
        r == wrapped_index(sel as int, step as int, len as int),
        r < len,
{
    let s: i64 = sel as i64 + step as i64;
    let n: i64 = len as i64;
    if s >= 0 {
        let r: i64 = s % n;
        r as usize
    } else {
        let a: i64 = -(s + 1);
        let r: i64 = n - 1 - a % n;
        proof {
            lemma_neg_mod(s as int, n as int);
        }
        r as usize
    }
}

/// Moves the selection of `state` by `step` (normally +1 or -1) in a list
/// of `len` items whose viewport shows `viewport` rows, wrapping at both
/// ends, and scrolls so that the new selection is visible. An empty list
/// is left as it is.
pub fn move_list_cursor<S: CursorState>(state: &mut S, len: usize, viewport: usize, step: i32)
    requires
        move_in_range(old(state).selection(), old(state).scroll(), len, viewport, step),
    ensures
        len == 0 ==> *final(state) == *old(state),
        len > 0 ==> {
            let next = wrapped_index(start_index(old(state).selection()), step as int, len as int);
            &&& final(state).selection() == Some(next as usize)
            &&& final(state).scroll() == follow_offset(old(state).scroll() as int, viewport as int, next)
        },
{
    if len == 0 {
        return;
    }
    let sel: i32 = match state.cur_selected() {
        Some(i) => i as i32,
        None => 0,
    };
    let next = wrap_index(sel, step, len);
    let offset = state.cur_offset();
    let new_off = if next < offset {
        next
    } else if offset + viewport <= next {
        next + 1 - viewport
    } else {
        offset
    };
    state.set_cursor(new_off, next);
}

/// After any move in a non-empty list whose viewport shows at least one
/// row, the selection lies inside the viewport.
pub proof fn lemma_move_keeps_selection_visible(offset: int, viewport: int, next: int)
    requires
        viewport > 0,
        offset >= 0,
        next >= 0,
    ensures
        follow_offset(offset, viewport, next) <= next < follow_offset(offset, viewport, next) + viewport,
        follow_offset(offset, viewport, next) >= 0,
{
}

/// Moving forward from the last item lands on the first, and moving back
/// from the first lands on the last; every move stays inside the list.
pub proof fn lemma_wrap_around(len: int, sel: int, step: int)
    requires
        len > 0,
    ensures
        wrapped_index(len - 1, 1, len) == 0,
        wrapped_index(0, -1, len) == len - 1,
        0 <= wrapped_index(sel, step, len) < len,
{
    assert(len % len == 0) by (nonlinear_arith)
        requires
            len > 0,
    ;
    assert((-1int) % len == len - 1) by (nonlinear_arith)
        requires
            len > 0,
    ;
}

} // verus!

verus! {

/// The cursor after `select(index)`: the selection becomes `index`, and
/// clearing it scrolls back to the top.
pub open spec fn selected_as(c: ListCursor, index: Option<usize>) -> ListCursor {
    ListCursor { selected: index, offset: if index is None { 0 } else { c.offset } }
}

/// The index one row down in a non-empty list of `len` rows: the next
/// row, or the first after the last row or without a selection.
pub open spec fn row_below(selected: Option<usize>, len: int) -> int {
    match selected {
        Some(i) => if i + 1 < len { i + 1 } else { 0 },
        None => 0,
    }
}

/// The index one row up in a non-empty list of `len` rows: the previous
/// row, or the last one from the first row or without a selection.
pub open spec fn row_above(selected: Option<usize>, len: int) -> int {
    match selected {
        Some(i) => if i == 0 { len - 1 } else { i - 1 },
        None => len - 1,
    }
}

/// Like [`row_above`], but without a selection the first row is taken.
pub open spec fn row_above_or_first(selected: Option<usize>, len: int) -> int {
    match selected {
        Some(i) => if i == 0 { len - 1 } else { i - 1 },
        None => 0,
    }
}

/// Selects the row below (see [`row_below`]); an empty list is left alone.
pub fn select_below(c: &mut ListCursor, len: usize)
    ensures
        len == 0 ==> *final(c) == *old(c),
        len > 0 ==> *final(c) == selected_as(*old(c), Some(row_below(old(c).selected, len as int) as usize)),
{
    if len == 0 {
        return;
    }
    let i = match c.selected {
        Some(i) => if i < len - 1 { i + 1 } else { 0 },
        None => 0,
    };
    c.select(Some(i));
}

/// Selects the row above (see [`row_above`]); an empty list is left alone.
pub fn select_above(c: &mut ListCursor, len: usize)
    ensures
        len == 0 ==> *final(c) == *old(c),
        len > 0 ==> *final(c) == selected_as(*old(c), Some(row_above(old(c).selected, len as int) as usize)),
{
    if len == 0 {
        return;
    }
    let i = match c.selected {
        Some(i) => if i == 0 { len - 1 } else { i - 1 },
        None => len - 1,
    };
    c.select(Some(i));
}

/// Selects the row above (see [`row_above_or_first`]); an empty list is
/// left alone.
pub fn select_above_or_first(c: &mut ListCursor, len: usize)
    ensures
        len == 0 ==> *final(c) == *old(c),
        len > 0 ==> *final(c) == selected_as(*old(c), Some(row_above_or_first(old(c).selected, len as int) as usize)),
{
    if len == 0 {
        return;
    }
    let i = match c.selected {
        Some(i) => if i == 0 { len - 1 } else { i - 1 },
        None => 0,
    };
    c.select(Some(i));
}

/// The cursor after a list is replaced by one of `len` rows: no rows
/// clears the selection, no selection selects the first row, a selection
/// past the end moves to the last row, any other selection stays.
pub open spec fn clamped(c: ListCursor, len: int) -> ListCursor {
    if len == 0 {
        selected_as(c, None)
    } else {
        match c.selected {
            None => selected_as(c, Some(0)),
            Some(i) => if i >= len { selected_as(c, Some((len - 1) as usize)) } else { c },
        }
    }
}

/// Re-fits the cursor to a list of `len` rows (see [`clamped`]).
pub fn clamp_cursor(c: &mut ListCursor, len: usize)
    ensures
        *final(c) == clamped(*old(c), len as int),
{
    if len == 0 {
        c.select(None);
    } else {
        match c.selected {
            None => c.select(Some(0)),
            Some(i) => {
                if i >= len {
                    c.select(Some(len - 1));
                }
            },
        }
    }
}

/// A step down followed by a step up returns to the same row, for every
/// row of a non-empty list.
pub proof fn lemma_below_then_above(i: usize, len: int)
    requires
        0 <= i < len <= usize::MAX,
    ensures
        row_above(Some(row_below(Some(i), len) as usize), len) == i,
        row_below(Some(row_above(Some(i), len) as usize), len) == i,
{
}

/// Every step lands inside a non-empty list.
pub proof fn lemma_steps_stay_in_list(selected: Option<usize>, len: int)
    requires
        len > 0,
        selected matches Some(i) ==> i < len,
    ensures
        0 <= row_below(selected, len) < len,
        0 <= row_above(selected, len) < len,
        0 <= row_above_or_first(selected, len) < len,
{
}

} // verus!
