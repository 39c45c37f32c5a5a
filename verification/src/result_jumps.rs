//! Jumping from a search result to its row: when a jump waits for its file, which snapshot it
//! expects, which persisted search is restored first, and the scroll frames that carry the
//! newest scroll request of each region.
use vstd::prelude::*;
use crate::log_viewport::LogViewportState;
use crate::regions::{DocumentLoadState, SearchScope, WrappedRegion};

verus! {

/// A loaded document: the match key of its path and the identity of its snapshot.
#[derive(Clone, Debug)]
pub struct DocumentSnapshot {
    pub path_key: String,
    pub snapshot: u64,
}

/// The result of a multi-file search in one file.
#[derive(Clone, Debug)]
pub struct GlobalSearchDocumentResult {
    pub title: String,
    /// The match key of the file's path.
    pub path: String,
    /// The snapshot that was searched.
    pub snapshot: u64,
}

/// A jump to a result row of a file that is not open yet: it lands once the file is open in
/// the snapshot that was searched.
#[derive(Clone, Debug)]
pub struct PendingSearchResultJump {
    pub path: String,
    pub source_row: usize,
    pub expected_snapshot: u64,
}

/// A jump resolved to a row of the file's view.
#[derive(Clone, Copy, Debug, PartialEq, Eq, Structural)]
pub struct PreparedLogJump {
    pub source_row: usize,
    pub row_ix: usize,
}

/// A scroll request for the next frame of a region.
#[derive(Clone, Copy, Debug, PartialEq)]
pub enum LogScrollFrameTarget<O> {
    /// A viewport offset computed from a wheel step.
    Viewport(O),
    /// An offset the scrollbar was dragged to.
    Scrollbar(O),
}

/// A document shows a stored result as it was searched: it is at the stored path and it is
/// the result's snapshot.
pub open spec fn spec_snapshot_matches(stored_path: Seq<char>, result: DocumentSnapshot, document: DocumentSnapshot) -> bool {
    document.path_key@ == stored_path && document.snapshot == result.snapshot
}

/// Whether a document shows a stored result as it was searched.
pub fn result_snapshot_matches_document(stored_path: &String, result: &DocumentSnapshot, document: &DocumentSnapshot) -> (matches: bool)
    ensures
        matches == spec_snapshot_matches(stored_path@, *result, *document),
{
    document.path_key == *stored_path && document.snapshot == result.snapshot
}

/// A jump to a result row waits for the next selection frame until its file is fully loaded.
pub fn should_defer_search_result_jump(state: Option<DocumentLoadState>) -> (defer: bool)
    ensures
        defer == (state != Some(DocumentLoadState::Ready)),
{
    match state {
        Some(DocumentLoadState::Ready) => false,
        _ => true,
    }
}

/// The source row a file being opened is restored to: the selected result's row wins over
/// the row the file's session remembered.
pub fn opening_restore_source_row(selected_result_jump: Option<PreparedLogJump>, persisted_row: Option<usize>) -> (row: Option<usize>)
    ensures
        row == match selected_result_jump {
            Some(jump) => Some(jump.source_row),
            None => persisted_row,
        },
{
    match selected_result_jump {
        Some(jump) => Some(jump.source_row),
        None => persisted_row,
    }
}

/// The persisted multi-file search restored next: the active scope's first where it waits,
/// then the all-open-files search, then the directory search.
pub fn next_persisted_search_restore_scope(active: SearchScope, all_open_pending: bool, directory_pending: bool) -> (scope: Option<SearchScope>)
    ensures
        scope == if active == SearchScope::AllOpenFiles && all_open_pending {
            Some(SearchScope::AllOpenFiles)
        } else if active == SearchScope::Directory && directory_pending {
            Some(SearchScope::Directory)
        } else if all_open_pending {
            Some(SearchScope::AllOpenFiles)
        } else if directory_pending {
            Some(SearchScope::Directory)
        } else {
            None
        },
        scope is Some <==> (all_open_pending || directory_pending),
{
    match active {
        SearchScope::AllOpenFiles => if all_open_pending { return Some(SearchScope::AllOpenFiles) },
        SearchScope::Directory => if directory_pending { return Some(SearchScope::Directory) },
        SearchScope::CurrentFile => {},
    }
    if all_open_pending {
        Some(SearchScope::AllOpenFiles)
    } else if directory_pending {
        Some(SearchScope::Directory)
    } else {
        None
    }
}

/// Activating a directory result group waits while the file it opens is still loading.
pub fn should_defer_directory_group_activation(pending_path: Option<&String>, path: &String, state: DocumentLoadState) -> (defer: bool)
    ensures
        defer == (match pending_path { Some(p) => p@ == path@, None => false } && state != DocumentLoadState::Ready),
{
    let pending = match pending_path {
        Some(p) => *p == *path,
        None => false,
    };
    pending && state != DocumentLoadState::Ready
}

/// A click on a match row of a file that is not open: the multi-file searches remember a jump
/// to the row that lands once the file is open in the searched snapshot.
pub fn pending_search_result_jump(
    scope: Option<SearchScope>,
    result: Option<&GlobalSearchDocumentResult>,
    source_row: usize,
) -> (jump: Option<PendingSearchResultJump>)
    ensures
        match (scope, result) {
            (Some(s), Some(r)) => if s != SearchScope::CurrentFile {
                jump matches Some(j) && j.path@ == r.path@ && j.source_row == source_row && j.expected_snapshot == r.snapshot
            } else {
                jump is None
            },
            _ => jump is None,
        },
{
    match (scope, result) {
        (Some(s), Some(r)) => if s != SearchScope::CurrentFile {
            Some(PendingSearchResultJump { path: r.path.clone(), source_row, expected_snapshot: r.snapshot })
        } else {
            None
        },
        _ => None,
    }
}

impl PendingSearchResultJump {
    /// Whether an opened document is the one the jump waits for: its path and its snapshot.
    pub fn matches(&self, document: &DocumentSnapshot) -> (matches: bool)
        ensures
            matches == (document.path_key@ == self.path@ && document.snapshot == self.expected_snapshot),
    {
        document.path_key == self.path && document.snapshot == self.expected_snapshot
    }
}

/// The rows prepared around a jump target: three viewports' worth centred on the target,
/// shifted to stay within the rows.
pub open spec fn spec_jump_preload(target: int, count: int, visible: int) -> (int, int) {
    let span = 3 * visible;
    let start_centered = if target >= span / 2 { target - span / 2 } else { 0 };
    let last_start = if count >= span { count - span } else { 0 };
    let start = if start_centered <= last_start { start_centered } else { last_start };
    let end = if start + span <= count { start + span } else { count };
    (start, end)
}

/// The rows prepared around a jump target.
pub fn centered_log_jump_preload_range(target_row: usize, row_count: usize, visible_rows: usize) -> (range: std::ops::Range<usize>)
    requires
        3 * visible_rows <= usize::MAX,
    ensures
        (range.start as int, range.end as int) == spec_jump_preload(target_row as int, row_count as int, visible_rows as int),
        range.start <= range.end <= row_count,
{
    let span = 3 * visible_rows;
    let start_centered = target_row.saturating_sub(span / 2);
    let last_start = row_count.saturating_sub(span);
    let start = if start_centered <= last_start { start_centered } else { last_start };
    let end = if row_count >= span { start + span } else { row_count };
    start..end
}

/// The newest scroll request of each region, for the next frame.
pub struct PendingLogScrollFrames<T> {
    entries: Vec<((u64, WrappedRegion), T)>,
}

/// An entry of `key`.
pub open spec fn spec_key_is<T>(key: (u64, WrappedRegion)) -> spec_fn(((u64, WrappedRegion), T)) -> bool {
    |e: ((u64, WrappedRegion), T)| e.0 == key
}

/// The index of a key's entry.
pub open spec fn spec_frame_ix<T>(entries: Seq<((u64, WrappedRegion), T)>, key: (u64, WrappedRegion)) -> Option<int> {
    crate::workspace::first_index(entries, spec_key_is::<T>(key))
}

impl<T: Copy> PendingLogScrollFrames<T> {
    /// The requests by region.
    pub closed spec fn view(self) -> Map<(u64, WrappedRegion), T> {
        Map::new(
            |k: (u64, WrappedRegion)| spec_frame_ix(self.entries@, k) is Some,
            |k: (u64, WrappedRegion)| self.entries@[spec_frame_ix(self.entries@, k)->0].1,
        )
    }

    /// Keys occur once.
    pub closed spec fn wf(self) -> bool {
        forall|i: int, j: int| 0 <= i < j < self.entries.len() ==> self.entries@[i].0 != self.entries@[j].0
    }

    /// No request.
    pub fn new() -> (frames: Self)
        ensures
            frames.wf(),
            frames.view() == Map::<(u64, WrappedRegion), T>::empty(),
    {
        let frames = PendingLogScrollFrames { entries: Vec::new() };
        assert(frames.view() =~= Map::<(u64, WrappedRegion), T>::empty());
        frames
    }

    fn find(&self, key: (u64, WrappedRegion)) -> (ix: Option<usize>)
        ensures
            match ix {
                Some(i) => spec_frame_ix(self.entries@, key) == Some(i as int),
                None => spec_frame_ix(self.entries@, key) is None,
            },
            match spec_frame_ix(self.entries@, key) {
                Some(i) => 0 <= i < self.entries.len() && self.entries@[i].0 == key,
                None => forall|j: int| 0 <= j < self.entries.len() ==> self.entries@[j].0 != key,
            },
    {
        let ghost p = spec_key_is::<T>(key);
        let mut i: usize = 0;
        while i < self.entries.len()
            invariant
                i <= self.entries.len(),
                p == spec_key_is::<T>(key),
                forall|j: int| 0 <= j < i ==> !p(self.entries@[j]),
            decreases self.entries.len() - i,
        {
            let k = self.entries[i].0;
            if k.0 == key.0 && k.1 == key.1 {
                proof { crate::workspace::lemma_first_index(self.entries@, p, i as int); }
                return Some(i);
            }
            i = i + 1;
        }
        proof { crate::workspace::lemma_first_index(self.entries@, p, i as int); }
        None
    }

    /// Records a request; it replaces an older one of the region.
    pub fn request(&mut self, key: (u64, WrappedRegion), target: T)
        requires
            old(self).wf(),
        ensures
            final(self).wf(),
            final(self).view() == old(self).view().insert(key, target),
    {
        proof { lemma_frames_view_keys(self.entries@); }
        match self.find(key) {
            Some(i) => {
                let ghost pre = self.entries@;
                self.entries.set(i, (key, target));
                proof {
                    lemma_frames_update(pre, i as int, key, target);
                    assert(self.view() =~= old(self).view().insert(key, target));
                }
            },
            None => {
                let ghost pre = self.entries@;
                self.entries.push((key, target));
                proof {
                    lemma_frames_push(pre, key, target);
                    assert(self.view() =~= old(self).view().insert(key, target));
                }
            },
        }
    }

    /// The newest request of a region.
    pub fn latest(&self, key: (u64, WrappedRegion)) -> (target: Option<T>)
        ensures
            target == if self.view().dom().contains(key) { Some(self.view()[key]) } else { None },
    {
        match self.find(key) {
            Some(i) => Some(self.entries[i].1),
            None => None,
        }
    }

    /// Hands out the newest request of a region, once.
    pub fn take(&mut self, key: (u64, WrappedRegion)) -> (target: Option<T>)
        requires
            old(self).wf(),
        ensures
            final(self).wf(),
            target == if old(self).view().dom().contains(key) { Some(old(self).view()[key]) } else { None },
            final(self).view() == old(self).view().remove(key),
    {
        match self.find(key) {
            Some(i) => {
                let ghost pre = self.entries@;
                let entry = self.entries.remove(i);
                proof {
                    lemma_frames_remove(pre, i as int, key);
                    assert(self.view() =~= old(self).view().remove(key));
                }
                Some(entry.1)
            },
            None => {
                proof {
                    assert(self.view() =~= self.view().remove(key));
                }
                None
            },
        }
    }
}

/// Where a key's entry lies.
proof fn lemma_frames_view_keys<T>(entries: Seq<((u64, WrappedRegion), T)>)
    ensures
        forall|k: (u64, WrappedRegion)| #[trigger] spec_frame_ix(entries, k) is Some ==> {
            let i = spec_frame_ix(entries, k)->0;
            0 <= i < entries.len() && entries[i].0 == k
        },
{
    assert forall|k: (u64, WrappedRegion)| #[trigger] spec_frame_ix(entries, k) is Some implies {
        let i = spec_frame_ix(entries, k)->0;
        0 <= i < entries.len() && entries[i].0 == k
    } by {
        crate::workspace::lemma_first_index(entries, spec_key_is::<T>(k), 0);
    }
}

/// With distinct keys, the entry of a key is the one that holds it.
proof fn lemma_frames_ix<T>(entries: Seq<((u64, WrappedRegion), T)>, i: int)
    requires
        0 <= i < entries.len(),
        forall|a: int, b: int| 0 <= a < b < entries.len() ==> entries[a].0 != entries[b].0,
    ensures
        spec_frame_ix(entries, entries[i].0) == Some(i),
{
    let p = spec_key_is::<T>(entries[i].0);
    crate::workspace::lemma_first_index(entries, p, i);
    crate::workspace::lemma_first_index(entries, p, 0);
}

/// A key without an entry has no index.
proof fn lemma_frames_absent<T>(entries: Seq<((u64, WrappedRegion), T)>, k: (u64, WrappedRegion))
    requires
        forall|j: int| 0 <= j < entries.len() ==> entries[j].0 != k,
    ensures
        spec_frame_ix(entries, k) is None,
{
    crate::workspace::lemma_first_index(entries, spec_key_is::<T>(k), entries.len() as int);
}

proof fn lemma_frames_update<T>(pre: Seq<((u64, WrappedRegion), T)>, i: int, key: (u64, WrappedRegion), target: T)
    requires
        0 <= i < pre.len(),
        pre[i].0 == key,
        forall|a: int, b: int| 0 <= a < b < pre.len() ==> pre[a].0 != pre[b].0,
    ensures
        ({
            let post = pre.update(i, (key, target));
            &&& forall|a: int, b: int| 0 <= a < b < post.len() ==> post[a].0 != post[b].0
            &&& forall|k: (u64, WrappedRegion)| k != key ==> #[trigger] spec_frame_ix(post, k) == spec_frame_ix(pre, k)
            &&& spec_frame_ix(post, key) == Some(i)
        }),
{
    let post = pre.update(i, (key, target));
    lemma_frames_ix(post, i);
    assert forall|k: (u64, WrappedRegion)| k != key implies #[trigger] spec_frame_ix(post, k) == spec_frame_ix(pre, k) by {
        lemma_frames_view_keys(pre);
        match spec_frame_ix(pre, k) {
            Some(j) => {
                lemma_frames_ix(pre, j);
                lemma_frames_ix(post, j);
            },
            None => {
                crate::workspace::lemma_first_index(pre, spec_key_is::<T>(k), 0);
                lemma_frames_absent(post, k);
            },
        }
    }
}

proof fn lemma_frames_push<T>(pre: Seq<((u64, WrappedRegion), T)>, key: (u64, WrappedRegion), target: T)
    requires
        forall|j: int| 0 <= j < pre.len() ==> pre[j].0 != key,
        forall|a: int, b: int| 0 <= a < b < pre.len() ==> pre[a].0 != pre[b].0,
    ensures
        ({
            let post = pre.push((key, target));
            &&& forall|a: int, b: int| 0 <= a < b < post.len() ==> post[a].0 != post[b].0
            &&& forall|k: (u64, WrappedRegion)| k != key ==> #[trigger] spec_frame_ix(post, k) == spec_frame_ix(pre, k)
            &&& spec_frame_ix(post, key) == Some(pre.len() as int)
        }),
{
    let post = pre.push((key, target));
    lemma_frames_ix(post, pre.len() as int);
    assert forall|k: (u64, WrappedRegion)| k != key implies #[trigger] spec_frame_ix(post, k) == spec_frame_ix(pre, k) by {
        lemma_frames_view_keys(pre);
        match spec_frame_ix(pre, k) {
            Some(j) => {
                lemma_frames_ix(pre, j);
                lemma_frames_ix(post, j);
            },
            None => {
                crate::workspace::lemma_first_index(pre, spec_key_is::<T>(k), 0);
                lemma_frames_absent(post, k);
            },
        }
    }
}

proof fn lemma_frames_remove<T>(pre: Seq<((u64, WrappedRegion), T)>, i: int, key: (u64, WrappedRegion))
    requires
        0 <= i < pre.len(),
        pre[i].0 == key,
        forall|a: int, b: int| 0 <= a < b < pre.len() ==> pre[a].0 != pre[b].0,
    ensures
        ({
            let post = pre.remove(i);
            &&& forall|a: int, b: int| 0 <= a < b < post.len() ==> post[a].0 != post[b].0
            &&& spec_frame_ix(post, key) is None
            &&& forall|k: (u64, WrappedRegion)| k != key ==> (#[trigger] spec_frame_ix(post, k) is Some) == (spec_frame_ix(pre, k) is Some)
                && (spec_frame_ix(pre, k) is Some ==> post[spec_frame_ix(post, k)->0] == pre[spec_frame_ix(pre, k)->0])
        }),
{
    let post = pre.remove(i);
    assert forall|a: int, b: int| 0 <= a < b < post.len() implies post[a].0 != post[b].0 by {
        let a0 = if a < i { a } else { a + 1 };
        let b0 = if b < i { b } else { b + 1 };
        assert(post[a] == pre[a0] && post[b] == pre[b0]);
    }
    assert forall|j: int| 0 <= j < post.len() implies post[j].0 != key by {
        let j0 = if j < i { j } else { j + 1 };
        assert(post[j] == pre[j0]);
    }
    lemma_frames_absent(post, key);
    assert forall|k: (u64, WrappedRegion)| k != key implies (#[trigger] spec_frame_ix(post, k) is Some) == (spec_frame_ix(pre, k) is Some)
        && (spec_frame_ix(pre, k) is Some ==> post[spec_frame_ix(post, k)->0] == pre[spec_frame_ix(pre, k)->0]) by {
        lemma_frames_view_keys(pre);
        match spec_frame_ix(pre, k) {
            Some(j) => {
                let j1 = if j < i { j } else { j - 1 };
                assert(post[j1] == pre[j]);
                lemma_frames_ix(post, j1);
            },
            None => {
                crate::workspace::lemma_first_index(pre, spec_key_is::<T>(k), 0);
                assert forall|j: int| 0 <= j < post.len() implies post[j].0 != k by {
                    let j0 = if j < i { j } else { j + 1 };
                    assert(post[j] == pre[j0]);
                }
                lemma_frames_absent(post, k);
            },
        }
    }
}

/// The scroll request a region applies in its next frame: an offset the scrollbar was dragged
/// to wins over a request of a wheel step, which is dropped either way.
pub fn take_pending_log_scroll_target<B: Copy, O: Copy, L>(
    pending: &mut PendingLogScrollFrames<LogScrollFrameTarget<O>>,
    key: (u64, WrappedRegion),
    viewport: &mut LogViewportState<B, O, L>,
) -> (target: Option<LogScrollFrameTarget<O>>)
    requires
        old(pending).wf(),
    ensures
        final(pending).wf(),
        final(pending).view() == old(pending).view().remove(key),
        final(viewport).spec_pending() is None,
        final(viewport).spec_rows() == old(viewport).spec_rows(),
        final(viewport).spec_word_wrap() == old(viewport).spec_word_wrap(),
        final(viewport).spec_layout_key() == old(viewport).spec_layout_key(),
        target == match old(viewport).spec_pending() {
            Some(offset) => Some(LogScrollFrameTarget::Scrollbar(offset)),
            None => if old(pending).view().dom().contains(key) { Some(old(pending).view()[key]) } else { None },
        },
{
    let frame = pending.take(key);
    match viewport.take_pending_scrollbar_offset() {
        Some(offset) => Some(LogScrollFrameTarget::Scrollbar(offset)),
        None => frame,
    }
}

} // verus!
