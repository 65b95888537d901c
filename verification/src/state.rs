//! The authoritative record of managed windows and input focus.
//!
//! Windows are kept in insertion order; the focus index always points into
//! the sequence while it is non-empty and rests at zero while it is empty.

use vstd::prelude::*;

verus! {

/// The focus index after rotating forward once through `len` windows.
pub open spec fn spec_focus_next(focused: int, len: int) -> int {
    if len == 0 {
        focused
    } else {
        (focused + 1) % len
    }
}

/// The focus index after rotating backward once through `len` windows.
pub open spec fn spec_focus_prev(focused: int, len: int) -> int {
    if len == 0 {
        focused
    } else if focused == 0 {
        len - 1
    } else {
        focused - 1
    }
}

/// The window sequence after managing `window`: appended at the end, or
/// unchanged if it is already managed.
pub open spec fn spec_windows_after_add(windows: Seq<u32>, window: u32) -> Seq<u32> {
    if windows.contains(window) {
        windows
    } else {
        windows.push(window)
    }
}

/// The focus index after managing `window`: the new last position, or
/// unchanged if it was already managed.
pub open spec fn spec_focus_after_add(windows: Seq<u32>, focused: int, window: u32) -> int {
    if windows.contains(window) {
        focused
    } else {
        windows.len() as int
    }
}

/// The window sequence after removing `window`, if it is present.
pub open spec fn spec_windows_after_remove(windows: Seq<u32>, window: u32) -> Seq<u32> {
    if windows.contains(window) {
        windows.remove(windows.index_of(window))
    } else {
        windows
    }
}

/// The focus index after removing `window` from `windows` while `focused`
/// was the focus index. If the removed window was focused, focus moves to
/// the window immediately before it (or stays at the front); if it preceded
/// the focus, the index shifts left to keep naming the same window; if the
/// sequence empties, focus rests at zero.
pub open spec fn spec_focus_after_remove(windows: Seq<u32>, focused: int, window: u32) -> int {
    if !windows.contains(window) {
        focused
    } else if windows.len() == 1 {
        0
    } else if focused == windows.index_of(window) {
        if windows.index_of(window) == 0 {
            0
        } else {
            windows.index_of(window) - 1
        }
    } else if windows.index_of(window) < focused {
        focused - 1
    } else {
        focused
    }
}

/// In-memory window-manager state: the ordered managed-window sequence, the
/// focus index, and the share of usable width the master window occupies,
/// in whole percent.
pub struct WmState {
    pub windows: Vec<u32>,
    pub focused: usize,
    pub master_percent: u32,
}

impl WmState {
    /// State invariant: no window handle occurs twice, the focus index is a
    /// valid position whenever any window is managed (and zero otherwise),
    /// and the master share is a proper fraction.
    pub open spec fn wf(self) -> bool {
        &&& self.windows@.no_duplicates()
        &&& if self.windows@.len() == 0 {
            self.focused == 0
        } else {
            self.focused < self.windows@.len()
        }
        &&& 0 < self.master_percent < 100
    }

    /// A fresh state: nothing managed, no focus, master takes 60% of the width.
    pub fn new() -> (s: Self)
        ensures
            s.wf(),
            s.windows@.len() == 0,
            s.focused == 0,
            s.master_percent == 60,
    {
        Self { windows: Vec::new(), focused: 0, master_percent: 60 }
    }

    /// Rotates focus forward, wrapping from the last window to the first.
    /// On an empty sequence nothing changes.
    pub fn focus_next(&mut self)
        requires
            old(self).wf(),
        ensures
            final(self).wf(),
            final(self).windows@ == old(self).windows@,
            final(self).master_percent == old(self).master_percent,
            final(self).focused == spec_focus_next(
                old(self).focused as int,
                old(self).windows@.len() as int,
            ),
    {
        if self.windows.len() > 0 {
            self.focused = (self.focused + 1) % self.windows.len();
        }
    }

    /// Rotates focus backward, wrapping from the first window to the last.
    /// On an empty sequence nothing changes.
    pub fn focus_prev(&mut self)
        requires
            old(self).wf(),
        ensures
            final(self).wf(),
            final(self).windows@ == old(self).windows@,
            final(self).master_percent == old(self).master_percent,
            final(self).focused == spec_focus_prev(
                old(self).focused as int,
                old(self).windows@.len() as int,
            ),
    {
        if self.windows.len() > 0 {
            if self.focused == 0 {
                self.focused = self.windows.len() - 1;
            } else {
                self.focused = self.focused - 1;
            }
        }
    }

    /// Appends `window` and focuses it; managing an already-managed window
    /// changes nothing.
    pub fn add_window(&mut self, window: u32)
        requires
            old(self).wf(),
        ensures
            final(self).wf(),
            final(self).master_percent == old(self).master_percent,
            final(self).windows@ == spec_windows_after_add(old(self).windows@, window),
            final(self).focused == spec_focus_after_add(
                old(self).windows@,
                old(self).focused as int,
                window,
            ),
    {
        if find_window(&self.windows, window).is_none() {
            let ghost pre = self.windows@;
            self.focused = self.windows.len();
            self.windows.push(window);
            proof {
                assert forall|i: int, j: int|
                    0 <= i < pre.push(window).len() && 0 <= j < pre.push(window).len() && i
                        != j implies pre.push(window)[i] != pre.push(window)[j] by {
                    if i < pre.len() && j < pre.len() {
                        assert(pre[i] != pre[j]);
                    } else if i == pre.len() {
                        assert(pre[j] == pre.push(window)[j]);
                        assert(!pre.contains(window));
                    } else if j == pre.len() {
                        assert(pre[i] == pre.push(window)[i]);
                        assert(!pre.contains(window));
                    }
                }
            }
        }
    }

    /// Removes `window` if it is managed and re-derives the focus index per
    /// the removal policy; an unmanaged window changes nothing.
    pub fn remove_window(&mut self, window: u32)
        requires
            old(self).wf(),
        ensures
            final(self).wf(),
            final(self).master_percent == old(self).master_percent,
            final(self).windows@ == spec_windows_after_remove(old(self).windows@, window),
            final(self).focused == spec_focus_after_remove(
                old(self).windows@,
                old(self).focused as int,
                window,
            ),
    {
        let found = find_window(&self.windows, window);
        if let Some(index) = found {
            let ghost pre = self.windows@;
            proof {
                lemma_unique_index(pre, window, index as int);
            }
            self.windows.remove(index);
            proof {
                lemma_remove_keeps_no_duplicates(pre, index as int);
            }
            if self.windows.len() == 0 {
                self.focused = 0;
            } else if self.focused == index {
                self.focused = if index == 0 {
                    0
                } else {
                    index - 1
                };
            } else if index < self.focused {
                self.focused = self.focused - 1;
            }
        }
    }
}

/// Returns the position of the first occurrence of `window`, or `None` if it
/// is not managed.
pub fn find_window(windows: &Vec<u32>, window: u32) -> (r: Option<usize>)
    ensures
        match r {
            Some(i) => i < windows@.len() && windows@[i as int] == window && forall|j: int|
                0 <= j < i ==> windows@[j] != window,
            None => !windows@.contains(window),
        },
{
    let mut i: usize = 0;
    while i < windows.len()
        invariant
            i <= windows@.len(),
            forall|j: int| 0 <= j < i ==> windows@[j] != window,
        decreases windows@.len() - i,
    {
        if windows[i] == window {
            return Some(i);
        }
        i = i + 1;
    }
    None
}

/// Rotating focus forward then backward over a non-empty sequence (or the
/// other way around) restores the original focus index.
pub proof fn lemma_focus_rotation_round_trip(focused: int, len: int)
    requires
        len > 0,
        0 <= focused < len,
    ensures
        spec_focus_prev(spec_focus_next(focused, len), len) == focused,
        spec_focus_next(spec_focus_prev(focused, len), len) == focused,
{
    if focused + 1 < len {
        assert((focused + 1) % len == focused + 1) by {
            vstd::arithmetic::div_mod::lemma_small_mod((focused + 1) as nat, len as nat);
        }
    } else {
        assert(len % len == 0) by {
            vstd::arithmetic::div_mod::lemma_mod_self_0(len);
        }
    }
    if focused == 0 {
        assert(spec_focus_prev(focused, len) == len - 1);
        assert(len % len == 0) by {
            vstd::arithmetic::div_mod::lemma_mod_self_0(len);
        }
    } else {
        assert((focused - 1 + 1) % len == focused) by {
            vstd::arithmetic::div_mod::lemma_small_mod(focused as nat, len as nat);
        }
    }
}

/// Removing the focused window moves focus to the window immediately
/// before it, which keeps its position; removing it from the front leaves
/// focus at the front of what remains.
pub proof fn lemma_remove_focused_moves_to_previous(windows: Seq<u32>, focused: int, window: u32)
    requires
        windows.no_duplicates(),
        windows.contains(window),
        0 <= focused < windows.len(),
        focused == windows.index_of(window),
    ensures
        focused > 0 ==> spec_focus_after_remove(windows, focused, window) == focused - 1,
        focused > 0 ==> spec_windows_after_remove(windows, window)[focused - 1] == windows[focused
            - 1],
        focused == 0 ==> spec_focus_after_remove(windows, focused, window) == 0,
{
    if focused > 0 {
        windows.remove_ensures(focused);
    }
}

/// Removing a window that precedes the focused one shifts the focus index
/// left by exactly one: it stays within the shorter sequence and keeps
/// naming the same window.
pub proof fn lemma_remove_before_focus_shifts_left(windows: Seq<u32>, focused: int, window: u32)
    requires
        windows.no_duplicates(),
        windows.contains(window),
        0 <= focused < windows.len(),
        windows.index_of(window) < focused,
    ensures
        spec_focus_after_remove(windows, focused, window) == focused - 1,
        0 <= focused - 1 < spec_windows_after_remove(windows, window).len(),
        spec_windows_after_remove(windows, window)[focused - 1] == windows[focused],
{
    let i = windows.index_of(window);
    assert(0 <= i < windows.len() && windows[i] == window);
    windows.remove_ensures(i);
}

/// In a duplicate-free sequence, an index holding `window` is the one that
/// `index_of` names.
pub proof fn lemma_unique_index(windows: Seq<u32>, window: u32, i: int)
    requires
        windows.no_duplicates(),
        0 <= i < windows.len(),
        windows[i] == window,
    ensures
        windows.contains(window),
        windows.index_of(window) == i,
{
    assert(windows.contains(window));
    let j = windows.index_of(window);
    assert(0 <= j < windows.len() && windows[j] == window);
}

/// Removing an element keeps a sequence duplicate-free.
proof fn lemma_remove_keeps_no_duplicates(windows: Seq<u32>, i: int)
    requires
        windows.no_duplicates(),
        0 <= i < windows.len(),
    ensures
        windows.remove(i).no_duplicates(),
{
    let r = windows.remove(i);
    windows.remove_ensures(i);
    assert forall|p: int, q: int| 0 <= p < r.len() && 0 <= q < r.len() && p != q implies r[p]
        != r[q] by {
        let pi = if p < i {
            p
        } else {
            p + 1
        };
        let qi = if q < i {
            q
        } else {
            q + 1
        };
        assert(r[p] == windows[pi]);
        assert(r[q] == windows[qi]);
    }
}

} // verus!
