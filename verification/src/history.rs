//! The back/forward navigation history of the browser window.
//!
//! A history is a list of visited folders and a cursor on the folder shown.
//! Its model is the pair (folders as character sequences, cursor).

use vstd::prelude::*;

verus! {

/// The model of a navigation history: the folders, oldest first, and the cursor.
pub type HistoryModel = (Seq<Seq<char>>, nat);

/// The cursor stands on a folder, or the history is empty and the cursor is 0.
pub open spec fn history_wf(h: HistoryModel) -> bool {
    if h.0.len() == 0 {
        h.1 == 0
    } else {
        h.1 < h.0.len()
    }
}

/// The folder under the cursor, if any.
pub open spec fn current_of(h: HistoryModel) -> Option<Seq<char>> {
    if h.1 < h.0.len() {
        Some(h.0[h.1 as int])
    } else {
        None
    }
}

/// Whether there is a folder before the cursor.
pub open spec fn can_back(h: HistoryModel) -> bool {
    h.1 > 0
}

/// Whether there is a folder after the cursor.
pub open spec fn can_forward(h: HistoryModel) -> bool {
    h.1 + 1 < h.0.len()
}

/// Visiting `folder`: the folders after the cursor are dropped, `folder` is
/// appended and becomes current.
pub open spec fn visited(h: HistoryModel, folder: Seq<char>) -> HistoryModel {
    let kept = if h.0.len() == 0 {
        h.0
    } else {
        h.0.take(h.1 + 1 as int)
    };
    (kept.push(folder), kept.len())
}

/// One step back, when there is a folder before the cursor.
pub open spec fn stepped_back(h: HistoryModel) -> HistoryModel {
    if can_back(h) {
        (h.0, (h.1 - 1) as nat)
    } else {
        h
    }
}

/// One step forward, when there is a folder after the cursor.
pub open spec fn stepped_forward(h: HistoryModel) -> HistoryModel {
    if can_forward(h) {
        (h.0, h.1 + 1)
    } else {
        h
    }
}

/// Falling back from a folder that has gone: the current folder and those
/// after it are dropped, and the previous folder becomes current.
pub open spec fn fallen_back(h: HistoryModel) -> HistoryModel {
    if h.1 > 0 {
        (h.0.take(h.1 as int), (h.1 - 1) as nat)
    } else {
        h
    }
}

/// The folders the window has shown, and which of them is shown now.
#[derive(Debug)]
pub struct NavHistory {
    entries: Vec<String>,
    pos: usize,
}

/// The character sequences of a list of strings.
pub open spec fn string_views(v: Seq<String>) -> Seq<Seq<char>> {
    v.map_values(|s: String| s@)
}

impl View for NavHistory {
    type V = HistoryModel;

    closed spec fn view(&self) -> HistoryModel {
        (string_views(self.entries@), self.pos as nat)
    }
}

impl NavHistory {
    /// Whether the cursor stands where it may; every history keeps this.
    #[verifier::type_invariant]
    pub open spec fn wf(&self) -> bool {
        history_wf(self@)
    }

    /// An empty history.
    pub fn new() -> (h: NavHistory)
        ensures
            h.wf(),
            h@.0 == Seq::<Seq<char>>::empty(),
            h@.1 == 0,
    {
        let h = NavHistory { entries: Vec::new(), pos: 0 };
        assert(string_views(h.entries@) =~= Seq::<Seq<char>>::empty());
        h
    }

    /// The number of folders in the history.
    pub fn len(&self) -> (n: usize)
        ensures
            n == self@.0.len(),
    {
        self.entries.len()
    }

    /// The cursor.
    pub fn position(&self) -> (p: usize)
        ensures
            p == self@.1,
    {
        self.pos
    }

    /// The folder at index `i`.
    pub fn entry(&self, i: usize) -> (s: String)
        requires
            i < self@.0.len(),
        ensures
            s@ == self@.0[i as int],
    {
        self.entries[i].clone()
    }

    /// The folder under the cursor, if the history is not empty.
    pub fn current(&self) -> (r: Option<String>)
        ensures
            r matches Some(s) ==> current_of(self@) == Some(s@),
            r is None <==> current_of(self@) is None,
            r is None <==> self@.0.len() == 0,
    {
        proof {
            use_type_invariant(self);
        }
        if self.pos < self.entries.len() {
            Some(self.entries[self.pos].clone())
        } else {
            None
        }
    }

    /// Whether the back button leads anywhere.
    pub fn can_go_back(&self) -> (r: bool)
        ensures
            r == can_back(self@),
    {
        self.pos > 0
    }

    /// Whether the forward button leads anywhere.
    pub fn can_go_forward(&self) -> (r: bool)
        ensures
            r == can_forward(self@),
    {
        proof {
            use_type_invariant(self);
        }
        let n = self.entries.len();
        self.pos + 1 < n
    }

    /// Records that `folder` is now shown: the folders after the cursor are
    /// dropped and `folder` is appended as the current one.
    pub fn visit(&mut self, folder: &str)
        ensures
            final(self).wf(),
            final(self)@ == visited(old(self)@, folder@),
    {
        proof {
            use_type_invariant(&*self);
        }
        let ghost old_entries = self.entries@;
        let pos = self.pos;
        let mut entries: Vec<String> = Vec::new();
        self.pos = 0;
        std::mem::swap(&mut entries, &mut self.entries);
        if pos < entries.len() {
            entries.truncate(pos + 1);
        }
        proof {
            if old_entries.len() > 0 {
                assert(string_views(entries@) =~= string_views(old_entries).take(pos + 1 as int));
            } else {
                assert(string_views(entries@) =~= string_views(old_entries));
            }
        }
        let ghost kept = entries@;
        entries.push(folder.to_owned());
        let last = entries.len() - 1;
        assert(string_views(entries@) =~= string_views(kept).push(folder@));
        *self = NavHistory { entries, pos: last };
    }

    /// Moves the cursor one folder back, if it can, and gives that folder.
    pub fn go_back(&mut self) -> (r: Option<String>)
        ensures
            final(self).wf(),
            final(self)@ == stepped_back(old(self)@),
            r is Some <==> can_back(old(self)@),
            r matches Some(s) ==> current_of(final(self)@) == Some(s@),
    {
        proof {
            use_type_invariant(&*self);
        }
        if self.pos > 0 {
            self.pos = self.pos - 1;
            Some(self.entries[self.pos].clone())
        } else {
            None
        }
    }

    /// Moves the cursor one folder forward, if it can, and gives that folder.
    pub fn go_forward(&mut self) -> (r: Option<String>)
        ensures
            final(self).wf(),
            final(self)@ == stepped_forward(old(self)@),
            r is Some <==> can_forward(old(self)@),
            r matches Some(s) ==> current_of(final(self)@) == Some(s@),
    {
        proof {
            use_type_invariant(&*self);
        }
        let n = self.entries.len();
        if self.pos + 1 < n {
            self.pos = self.pos + 1;
            Some(self.entries[self.pos].clone())
        } else {
            None
        }
    }

    /// Drops the current folder and those after it and makes the previous
    /// folder current, giving it; does nothing at the first folder.
    pub fn fall_back(&mut self) -> (r: Option<String>)
        ensures
            final(self).wf(),
            final(self)@ == fallen_back(old(self)@),
            r is Some <==> old(self)@.1 > 0,
            r matches Some(s) ==> current_of(final(self)@) == Some(s@)
                && s@ == old(self)@.0[old(self)@.1 - 1],
    {
        proof {
            use_type_invariant(&*self);
        }
        if self.pos > 0 {
            let ghost old_entries = self.entries@;
            let pos = self.pos - 1;
            let mut entries: Vec<String> = Vec::new();
            self.pos = 0;
            std::mem::swap(&mut entries, &mut self.entries);
            entries.truncate(pos + 1);
            assert(string_views(entries@) =~= string_views(old_entries).take(pos + 1));
            let current = entries[pos].clone();
            *self = NavHistory { entries, pos };
            Some(current)
        } else {
            None
        }
    }
}

/// Every operation keeps the cursor on a folder (or at 0 on an empty history).
pub proof fn law_operations_keep_history_wf(h: HistoryModel, folder: Seq<char>)
    requires
        history_wf(h),
    ensures
        history_wf(visited(h, folder)),
        history_wf(stepped_back(h)),
        history_wf(stepped_forward(h)),
        history_wf(fallen_back(h)),
{
}

/// After visiting a folder, it is the current one, nothing lies ahead, and
/// the way back is open exactly when the history was not empty.
pub proof fn law_visit_shows_folder(h: HistoryModel, folder: Seq<char>)
    requires
        history_wf(h),
    ensures
        current_of(visited(h, folder)) == Some(folder),
        !can_forward(visited(h, folder)),
        can_back(visited(h, folder)) <==> h.0.len() > 0,
{
}

/// Visiting keeps every folder up to and including the current one.
pub proof fn law_visit_keeps_past(h: HistoryModel, folder: Seq<char>)
    requires
        history_wf(h),
        h.0.len() > 0,
    ensures
        visited(h, folder).0.take(h.1 + 1 as int) == h.0.take(h.1 + 1 as int),
        visited(h, folder).0.len() == h.1 + 2,
{
    assert(visited(h, folder).0.take(h.1 + 1 as int) =~= h.0.take(h.1 + 1 as int));
}

/// Going back and then forward returns to the same state.
pub proof fn law_back_then_forward(h: HistoryModel)
    requires
        history_wf(h),
        can_back(h),
    ensures
        stepped_forward(stepped_back(h)) == h,
{
}

/// Going forward and then back returns to the same state.
pub proof fn law_forward_then_back(h: HistoryModel)
    requires
        history_wf(h),
        can_forward(h),
    ensures
        stepped_back(stepped_forward(h)) == h,
{
}

/// Going back or forward never changes the list of folders.
pub proof fn law_moves_keep_folders(h: HistoryModel)
    ensures
        stepped_back(h).0 == h.0,
        stepped_forward(h).0 == h.0,
{
}

/// Falling back shows the previous folder, with nothing ahead of it, and
/// keeps every folder before the one that was dropped.
pub proof fn law_fall_back_shows_previous(h: HistoryModel)
    requires
        history_wf(h),
        h.1 > 0,
    ensures
        fallen_back(h).1 == h.1 - 1,
        current_of(fallen_back(h)) == Some(h.0[h.1 - 1]),
        !can_forward(fallen_back(h)),
        fallen_back(h).0 == h.0.take(h.1 as int),
{
}

/// An enabled navigation button moves the cursor; a disabled one leaves the
/// history as it is.
pub proof fn law_buttons_match_moves(h: HistoryModel)
    requires
        history_wf(h),
    ensures
        can_back(h) <==> stepped_back(h) != h,
        can_forward(h) <==> stepped_forward(h) != h,
{
}

} // verus!
