//! Text marks on log rows: which row a mark belongs to, adding, editing, moving and deleting
//! marks, and what each change refreshes.
use vstd::prelude::*;
use crate::quick_find::FocusTarget;
use crate::regions::{DocumentLoadState, WrappedRegion};
use crate::workspace::{first_index, lemma_first_index, spec_first_tab, tab_ix, DocumentTab, FileActivity, Workspace};

verus! {

/// A row of a document, in the region where it is shown.
#[derive(Clone, Copy, Debug, PartialEq, Eq, Structural)]
pub struct TagTarget {
    pub document_id: u64,
    pub source_row: usize,
    pub region: WrappedRegion,
}

/// A row a mark can be placed on, and the loaded snapshot its text was read from.
#[derive(Clone, Copy, Debug, PartialEq, Eq, Structural)]
pub struct TagContext {
    pub target: TagTarget,
    pub snapshot: u64,
}

/// The appearance of a mark: its text, and its color and style by index.
#[derive(Clone, Debug)]
pub struct TagPreset {
    pub label: String,
    pub color: u32,
    pub style: u32,
}

/// A text mark on a source row. `x` and `y` are its offset from the row's origin in
/// thousandths of the font size; `source_digest` identifies the line text it was placed on.
#[derive(Clone, Debug)]
pub struct RowTag {
    /// Unique among the marks of its row.
    pub id: String,
    pub source_row: usize,
    pub label: String,
    pub color: u32,
    pub style: u32,
    pub x: u32,
    pub y: u32,
    pub source_digest: u64,
}

/// A mark being dragged.
#[derive(Clone, Debug)]
pub struct TagDrag<P> {
    pub context: TagContext,
    pub id: String,
    pub position: P,
}

/// The state of text-mark gestures.
#[derive(Clone, Debug)]
pub struct TagInteractionState<P> {
    /// The row the context menu was opened on, and where.
    pub context: Option<(TagContext, P)>,
    /// The mark dialog is open.
    pub dialog_open: bool,
    pub drag: Option<TagDrag<P>>,
}

/// A request to save a mark: an existing one by id, or the draft of a new one.
#[derive(Clone, Debug)]
pub struct TagEditRequest {
    pub context: TagContext,
    pub id: String,
    pub draft: RowTag,
    pub is_new: bool,
}

/// The "Text mark" submenu of a row's context menu.
#[derive(Clone, Copy, Debug, PartialEq)]
pub enum AddTagMenu<P> {
    /// The row cannot take marks now.
    Disabled,
    /// New mark, clear all (enabled where the file has marks) and up to ten recent presets.
    Enabled { context: TagContext, position: P, has_tags: bool, preset_count: usize },
}

/// What a change of marks refreshes.
#[derive(Clone, Copy, Debug, PartialEq, Eq, Structural)]
pub enum TagRefresh {
    /// The document is gone: nothing.
    Nothing,
    /// Save a checkpoint of the document.
    Checkpoint,
    /// A row was marked: refresh the result rows and surfaces, save the search state and a
    /// checkpoint.
    MarkedAndCheckpoint,
}

/// What opening the mark dialog does.
#[derive(Clone, Debug)]
pub struct TagDialogPlan {
    /// The region to focus.
    pub focus: FocusTarget,
    /// The document whose paused file refresh the watcher must retry.
    pub retry_refresh: Option<u64>,
    /// The appearance the dialog starts with.
    pub initial: TagPreset,
    pub is_new: bool,
}

/// The mark `id` of a row.
pub open spec fn spec_tag_key(source_row: usize, id: Seq<char>) -> spec_fn(RowTag) -> bool {
    |t: RowTag| t.source_row == source_row && t.id@ == id
}

/// The index of the mark `id` of a row.
pub open spec fn spec_tag_ix(tags: Seq<RowTag>, source_row: usize, id: Seq<char>) -> Option<int> {
    first_index(tags, spec_tag_key(source_row, id))
}

/// The marks with `tag` stored under its row and id: replacing the mark with that key, else
/// added last.
pub open spec fn spec_insert_tag(tags: Seq<RowTag>, tag: RowTag) -> Seq<RowTag> {
    match spec_tag_ix(tags, tag.source_row, tag.id@) {
        Some(k) => tags.update(k, tag),
        None => tags.push(tag),
    }
}

/// The marks without the mark `id` of a row.
pub open spec fn spec_remove_tag(tags: Seq<RowTag>, source_row: usize, id: Seq<char>) -> Seq<RowTag> {
    match spec_tag_ix(tags, source_row, id) {
        Some(k) => tags.remove(k),
        None => tags,
    }
}

/// A mark with the appearance of a preset.
pub open spec fn spec_with_preset(tag: RowTag, preset: TagPreset) -> RowTag {
    RowTag { label: preset.label, color: preset.color, style: preset.style, ..tag }
}

/// A set of rows with `row` in it.
pub open spec fn spec_with_row(rows: Seq<usize>, row: usize) -> Seq<usize> {
    if rows.contains(row) { rows } else { rows.push(row) }
}

/// The focus target of a region.
pub open spec fn spec_region_focus(region: WrappedRegion) -> FocusTarget {
    if region == WrappedRegion::Log { FocusTarget::LogViewer } else { FocusTarget::ResultsViewer }
}

fn copy_string(s: &String) -> (c: String)
    ensures
        c == *s,
{
    s.clone()
}

/// The tab `documents[i]` with other marks and nothing else changed.
pub open spec fn spec_tab_with_tags(pre: DocumentTab, post: DocumentTab, tags: Seq<RowTag>) -> bool {
    post == DocumentTab { row_tags: post.row_tags, ..pre } && post.row_tags@ == tags
}

impl DocumentTab {
    /// The index of the mark `id` of a row.
    pub fn find_tag(&self, source_row: usize, id: &String) -> (ix: Option<usize>)
        ensures
            match ix {
                Some(k) => spec_tag_ix(self.row_tags@, source_row, id@) == Some(k as int),
                None => spec_tag_ix(self.row_tags@, source_row, id@) is None,
            },
            match spec_tag_ix(self.row_tags@, source_row, id@) {
                Some(k) => 0 <= k < self.row_tags.len() && self.row_tags@[k].source_row == source_row
                    && self.row_tags@[k].id@ == id@,
                None => true,
            },
    {
        let ghost p = spec_tag_key(source_row, id@);
        let mut k: usize = 0;
        while k < self.row_tags.len()
            invariant
                k <= self.row_tags.len(),
                p == spec_tag_key(source_row, id@),
                forall|j: int| 0 <= j < k ==> !p(self.row_tags@[j]),
            decreases self.row_tags.len() - k,
        {
            if self.row_tags[k].source_row == source_row && self.row_tags[k].id == *id {
                proof { lemma_first_index(self.row_tags@, p, k as int); }
                return Some(k);
            }
            k = k + 1;
        }
        proof { lemma_first_index(self.row_tags@, p, k as int); }
        None
    }

    /// Stores a mark under its row and id.
    pub fn insert_tag(&mut self, tag: RowTag)
        ensures
            spec_tab_with_tags(*old(self), *final(self), spec_insert_tag(old(self).row_tags@, tag)),
    {
        let found = self.find_tag(tag.source_row, &tag.id);
        match found {
            Some(k) => { self.row_tags.set(k, tag); },
            None => { self.row_tags.push(tag); },
        }
    }

    /// Removes the mark `id` of a row; whether there was one.
    pub fn remove_tag(&mut self, source_row: usize, id: &String) -> (removed: bool)
        ensures
            spec_tab_with_tags(*old(self), *final(self), spec_remove_tag(old(self).row_tags@, source_row, id@)),
            removed == spec_tag_ix(old(self).row_tags@, source_row, id@) is Some,
    {
        let found = self.find_tag(source_row, id);
        match found {
            Some(k) => {
                self.row_tags.remove(k);
                true
            },
            None => false,
        }
    }

    /// Marks a row and keeps it for a restored session.
    pub fn mark_row(&mut self, row: usize)
        ensures
            *final(self) == (DocumentTab {
                marked_rows: final(self).marked_rows,
                pending_restore_marked_rows: final(self).pending_restore_marked_rows,
                ..*old(self)
            }),
            final(self).marked_rows@ == spec_with_row(old(self).marked_rows@, row),
            final(self).pending_restore_marked_rows@ == spec_with_row(old(self).pending_restore_marked_rows@, row),
    {
        insert_row(&mut self.marked_rows, row);
        insert_row(&mut self.pending_restore_marked_rows, row);
    }
}

/// Adds `row` to a set of rows.
fn insert_row(rows: &mut Vec<usize>, row: usize)
    ensures
        final(rows)@ == spec_with_row(old(rows)@, row),
{
    let mut i: usize = 0;
    while i < rows.len()
        invariant
            i <= rows.len(),
            forall|j: int| 0 <= j < i ==> rows@[j] != row,
        decreases rows.len() - i,
    {
        if rows[i] == row {
            assert(rows@.contains(row));
            return;
        }
        i = i + 1;
    }
    rows.push(row);
}

/// Whether `rows` has `row`.
fn contains_row(rows: &Vec<u64>, row: u64) -> (found: bool)
    ensures
        found == rows@.contains(row),
{
    let mut i: usize = 0;
    while i < rows.len()
        invariant
            i <= rows.len(),
            forall|j: int| 0 <= j < i ==> rows@[j] != row,
        decreases rows.len() - i,
    {
        if rows[i] == row {
            assert(rows@[i as int] == row);
            return true;
        }
        i = i + 1;
    }
    false
}

impl<P: Copy> Workspace<P> {
    /// The row is still the one the mark was placed on: a tab with its document id still shows
    /// the same loaded snapshot, and the snapshot has the row.
    pub open spec fn spec_tag_current(self, context: TagContext) -> bool {
        exists|i: int| 0 <= i < self.documents.len() && {
            let tab = #[trigger] self.documents@[i];
            &&& tab.id == context.target.document_id
            &&& tab.snapshot == context.snapshot
            &&& context.target.source_row < tab.line_count
        }
    }

    /// The row a mark placed from a region would belong to: the tab that shows the row (for the
    /// global results, the tab that shows the searched snapshot), if it is fully loaded and the
    /// row's source can be read.
    pub open spec fn spec_tag_row_context(self, document_id: u64, source_row: usize, region: WrappedRegion, source_unavailable: bool) -> Option<TagContext> {
        let ix = if region == WrappedRegion::GlobalResults {
            self.spec_presentation_ix(document_id)
        } else {
            spec_first_tab(self.documents@, document_id)
        };
        if source_unavailable {
            None
        } else {
            match ix {
                Some(i) => if self.documents@[i].load_state == DocumentLoadState::Ready {
                    Some(TagContext {
                        target: TagTarget { document_id: self.documents@[i].id, source_row, region },
                        snapshot: self.documents@[i].snapshot,
                    })
                } else {
                    None
                },
                None => None,
            }
        }
    }

    /// The row a mark placed from a region belongs to.
    pub fn tag_row_context(&self, document_id: u64, source_row: usize, region: WrappedRegion, source_unavailable: bool) -> (context: Option<TagContext>)
        ensures
            context == self.spec_tag_row_context(document_id, source_row, region, source_unavailable),
    {
        if source_unavailable {
            return None;
        }
        let ix = if region == WrappedRegion::GlobalResults {
            self.presentation_document_ix_for_global_result(document_id)
        } else {
            tab_ix(&self.documents, document_id)
        };
        proof {
            crate::workspace::lemma_first_index(self.documents@,
                crate::global_targets::spec_open_for_result(document_id, self.spec_result_path(document_id)), 0);
        }
        match ix {
            Some(i) => {
                let tab = &self.documents[i];
                if tab.load_state == DocumentLoadState::Ready {
                    Some(TagContext {
                        target: TagTarget { document_id: tab.id, source_row, region },
                        snapshot: tab.snapshot,
                    })
                } else {
                    None
                }
            },
            None => None,
        }
    }

    /// Remembers the row and pointer position of the context menu being opened.
    pub fn prepare_tag_context(&mut self, context: Option<TagContext>, position: P)
        ensures
            final(self).row_tags.context == match context {
                Some(c) => Some((c, position)),
                None => None::<(TagContext, P)>,
            },
            final(self).row_tags.dialog_open == old(self).row_tags.dialog_open,
            final(self).row_tags.drag == old(self).row_tags.drag,
            *final(self) == (Workspace { row_tags: final(self).row_tags, ..*old(self) }),
    {
        self.row_tags.context = match context {
            Some(c) => Some((c, position)),
            None => None,
        };
    }

    /// Whether the row a mark was placed on is still current.
    pub fn tag_target_is_current(&self, target: TagTarget, snapshot: u64) -> (current: bool)
        ensures
            current == self.spec_tag_current(TagContext { target, snapshot }),
    {
        let mut i: usize = 0;
        while i < self.documents.len()
            invariant
                i <= self.documents.len(),
                forall|j: int| 0 <= j < i ==> !({
                    let tab = #[trigger] self.documents@[j];
                    &&& tab.id == target.document_id
                    &&& tab.snapshot == snapshot
                    &&& target.source_row < tab.line_count
                }),
            decreases self.documents.len() - i,
        {
            let tab = &self.documents[i];
            if tab.id == target.document_id && tab.snapshot == snapshot && target.source_row < tab.line_count {
                assert(self.documents@[i as int] == *tab);
                return true;
            }
            i = i + 1;
        }
        false
    }

    /// The "Text mark" submenu: enabled for the remembered row while no file is being opened,
    /// the store is ready and the row is current. "Clear all marks" is enabled where the row's
    /// tab has marks; the menu lists the first ten of `preset_len` recent presets.
    pub fn append_add_tag_menu(&self, preset_len: usize) -> (menu: AddTagMenu<P>)
        ensures
            match self.row_tags.context {
                Some((c, position)) => if !self.files.open_task_running && self.files.store_ready && self.spec_tag_current(c) {
                    menu == AddTagMenu::Enabled {
                        context: c,
                        position,
                        has_tags: match spec_first_tab(self.documents@, c.target.document_id) {
                            Some(i) => self.documents@[i].row_tags.len() > 0,
                            None => false,
                        },
                        preset_count: if preset_len < 10 { preset_len } else { 10 },
                    }
                } else {
                    menu == AddTagMenu::<P>::Disabled
                },
                None => menu == AddTagMenu::<P>::Disabled,
            },
    {
        let (c, position) = match self.row_tags.context {
            Some(entry) => entry,
            None => return AddTagMenu::Disabled,
        };
        if self.files.open_task_running || !self.files.store_ready || !self.tag_target_is_current(c.target, c.snapshot) {
            return AddTagMenu::Disabled;
        }
        let has_tags = match tab_ix(&self.documents, c.target.document_id) {
            Some(i) => self.documents[i].row_tags.len() > 0,
            None => false,
        };
        AddTagMenu::Enabled { context: c, position, has_tags, preset_count: if preset_len < 10 { preset_len } else { 10 } }
    }

    /// The region a mark dialog returns the focus to.
    pub fn tag_region_focus(&self, region: WrappedRegion) -> (focus: FocusTarget)
        ensures
            focus == spec_region_focus(region),
    {
        if region == WrappedRegion::Log { FocusTarget::LogViewer } else { FocusTarget::ResultsViewer }
    }

    /// The effects of a change of marks in a document. A placed mark marks exactly its source
    /// row (never toggling it), and shows the results where they list marked rows: the tab's
    /// own results, and the multi-file results where they cover the document.
    pub open spec fn spec_tag_changed(self, post: Self, document_id: u64, mark: Option<usize>, refresh: TagRefresh) -> bool {
        match mark {
            None => refresh == TagRefresh::Checkpoint && post == self,
            Some(row) => match spec_first_tab(self.documents@, document_id) {
                None => refresh == TagRefresh::Nothing && post == self,
                Some(i) => {
                    let tab = self.documents@[i];
                    let new_tab = post.documents@[i];
                    &&& refresh == TagRefresh::MarkedAndCheckpoint
                    &&& post.documents.len() == self.documents.len()
                    &&& forall|j: int| 0 <= j < self.documents.len() && j != i ==> post.documents@[j] == self.documents@[j]
                    &&& new_tab == DocumentTab {
                        marked_rows: new_tab.marked_rows,
                        pending_restore_marked_rows: new_tab.pending_restore_marked_rows,
                        results_visible: tab.results_visible || tab.results_include_marks,
                        ..tab
                    }
                    &&& new_tab.marked_rows@ == spec_with_row(tab.marked_rows@, row)
                    &&& new_tab.pending_restore_marked_rows@ == spec_with_row(tab.pending_restore_marked_rows@, row)
                    &&& post.global_search == (crate::workspace::GlobalSearchState {
                        results_visible: self.global_search.results_visible
                            || (self.global_search.results_include_marks && self.global_search.selected_documents@.contains(document_id)),
                        ..self.global_search
                    })
                    &&& post == (Workspace { documents: post.documents, global_search: post.global_search, ..self })
                },
            },
        }
    }

    /// Applies a change of marks in a document; `mark` is the row a new mark was placed on.
    pub fn row_tag_changed(&mut self, document_id: u64, mark: Option<usize>) -> (refresh: TagRefresh)
        ensures
            old(self).spec_tag_changed(*final(self), document_id, mark, refresh),
    {
        let row = match mark {
            Some(row) => row,
            None => return TagRefresh::Checkpoint,
        };
        let ix = match tab_ix(&self.documents, document_id) {
            Some(ix) => ix,
            None => return TagRefresh::Nothing,
        };
        self.documents[ix].mark_row(row);
        if self.documents[ix].results_include_marks {
            self.documents[ix].results_visible = true;
        }
        if self.global_search.results_include_marks && contains_row(&self.global_search.selected_documents, document_id) {
            self.global_search.results_visible = true;
        }
        TagRefresh::MarkedAndCheckpoint
    }

    /// The marks of the tab after a save: the mark `id` of the row with the preset's appearance,
    /// or the draft of a new mark with it; nothing where neither exists.
    pub open spec fn spec_saved_tags(tags: Seq<RowTag>, request: TagEditRequest, preset: TagPreset) -> Option<Seq<RowTag>> {
        match spec_tag_ix(tags, request.context.target.source_row, request.id@) {
            Some(k) => Some(spec_insert_tag(tags, spec_with_preset(tags[k], preset))),
            None => if request.is_new {
                Some(spec_insert_tag(tags, spec_with_preset(RowTag { id: request.id, ..request.draft }, preset)))
            } else {
                None
            },
        }
    }

    /// What saving a mark does: see `save_row_tag`.
    pub open spec fn spec_save_row_tag(self, post: Self, request: TagEditRequest, preset: TagPreset, preset_valid: bool, saved: Option<TagRefresh>) -> bool {
        ({
            let ix = spec_first_tab(self.documents@, request.context.target.document_id);
            if !preset_valid || !self.spec_tag_current(request.context) {
                saved is None && post == self
            } else {
                ix is Some && match Self::spec_saved_tags(self.documents@[ix->0].row_tags@, request, preset) {
                    None => saved is None && post == self,
                    Some(tags) => exists|mid: Self| {
                        &&& mid.documents.len() == self.documents.len()
                        &&& spec_tab_with_tags(self.documents@[ix->0], #[trigger] mid.documents@[ix->0], tags)
                        &&& forall|j: int| 0 <= j < mid.documents.len() && j != ix->0 ==> mid.documents@[j] == self.documents@[j]
                        &&& mid == (Workspace { documents: mid.documents, ..self })
                        &&& saved matches Some(refresh) && mid.spec_tag_changed(post, request.context.target.document_id,
                            if request.is_new { Some(request.context.target.source_row) } else { None }, refresh)
                    },
                }
            }
        })
    }

    /// Saves a mark with a preset's appearance: the existing mark `id` of the row, or the
    /// draft of a new one. Refused for an invalid preset or a row that is no longer current.
    /// A new mark marks its row.
    pub fn save_row_tag(&mut self, request: TagEditRequest, preset: TagPreset, preset_valid: bool) -> (saved: Option<TagRefresh>)
        ensures
            old(self).spec_save_row_tag(*final(self), request, preset, preset_valid, saved),
    {
        if !preset_valid || !self.tag_target_is_current(request.context.target, request.context.snapshot) {
            return None;
        }
        let document_id = request.context.target.document_id;
        let ix = match tab_ix(&self.documents, document_id) {
            Some(ix) => ix,
            None => {
                assert(false);
                return None;
            },
        };
        let ghost tags = self.documents@[ix as int].row_tags@;
        let ghost expected = Self::spec_saved_tags(tags, request, preset);
        let found = self.documents[ix].find_tag(request.context.target.source_row, &request.id);
        let tag = match found {
            Some(k) => {
                let t = &self.documents[ix].row_tags[k];
                RowTag {
                    id: copy_string(&t.id),
                    source_row: t.source_row,
                    label: copy_string(&preset.label),
                    color: preset.color,
                    style: preset.style,
                    x: t.x,
                    y: t.y,
                    source_digest: t.source_digest,
                }
            },
            None => {
                if !request.is_new {
                    return None;
                }
                let draft = request.draft;
                RowTag {
                    id: request.id,
                    source_row: draft.source_row,
                    label: copy_string(&preset.label),
                    color: preset.color,
                    style: preset.style,
                    x: draft.x,
                    y: draft.y,
                    source_digest: draft.source_digest,
                }
            },
        };
        self.documents[ix].insert_tag(tag);
        let ghost mid = *self;
        let mark = if request.is_new { Some(request.context.target.source_row) } else { None };
        let refresh = self.row_tag_changed(document_id, mark);
        assert(spec_tab_with_tags(old(self).documents@[ix as int], mid.documents@[ix as int], expected->0));
        Some(refresh)
    }
}

/// What clearing a file's marks did.
#[derive(Clone, Copy, Debug, PartialEq, Eq, Structural)]
pub enum ClearTags {
    /// Refused, or the file has no marks.
    Ignored,
    /// The marks are gone; a drag of one of them was cancelled where `drag_cancelled`.
    Cleared { drag_cancelled: bool },
}

impl<P: Copy> Workspace<P> {
    /// Whether a mark is being dragged.
    pub fn row_tag_drag_active(&self) -> (active: bool)
        ensures
            active == self.row_tags.drag is Some,
    {
        self.row_tags.drag.is_some()
    }

    /// Whether a mark is being dragged or edited.
    pub fn row_tag_interaction_active(&self) -> (active: bool)
        ensures
            active == (self.row_tags.drag is Some || self.row_tags.dialog_open),
    {
        self.row_tags.drag.is_some() || self.row_tags.dialog_open
    }

    /// Stops a running file refresh while a mark is edited; the watcher must retry the watched
    /// document where one was stopped.
    pub fn pause_tag_file_refresh(&mut self) -> (retry: Option<u64>)
        ensures
            !final(self).files.file_refresh_running,
            *final(self) == (Workspace { files: FileActivity { file_refresh_running: false, ..old(self).files }, ..*old(self) }),
            retry == if old(self).files.file_refresh_running && old(self).files.file_watch_active { old(self).files.file_watch_document_id } else { None },
    {
        let was_running = self.files.file_refresh_running;
        self.files.file_refresh_running = false;
        if was_running && self.files.file_watch_active { self.files.file_watch_document_id } else { None }
    }

    /// Cancels a mark drag; whether one was running.
    pub fn cancel_tag_drag(&mut self) -> (cancelled: bool)
        ensures
            cancelled == old(self).row_tags.drag is Some,
            final(self).row_tags.drag is None,
            final(self).row_tags.context == old(self).row_tags.context,
            final(self).row_tags.dialog_open == old(self).row_tags.dialog_open,
            *final(self) == (Workspace { row_tags: final(self).row_tags, ..*old(self) }),
    {
        let cancelled = self.row_tags.drag.is_some();
        self.row_tags.drag = None;
        cancelled
    }

    /// Escape cancels a mark drag; whether the key was used.
    pub fn cancel_tag_gesture(&mut self, escape: bool) -> (handled: bool)
        ensures
            handled == (escape && old(self).row_tags.drag is Some),
            handled ==> final(self).row_tags.drag is None,
            !handled ==> *final(self) == *old(self),
            final(self).row_tags.context == old(self).row_tags.context,
            final(self).row_tags.dialog_open == old(self).row_tags.dialog_open,
            *final(self) == (Workspace { row_tags: final(self).row_tags, ..*old(self) }),
    {
        if escape && self.row_tags.drag.is_some() {
            self.cancel_tag_drag();
            true
        } else {
            false
        }
    }

    /// Clears all marks of the file of a current row; refused while a file is being opened,
    /// without a ready store, or where the file has no marks. A drag in that file is cancelled.
    #[verifier::rlimit(40)]
    pub fn clear_document_row_tags(&mut self, context: TagContext) -> (outcome: ClearTags)
        ensures
            ({
                let ix = spec_first_tab(old(self).documents@, context.target.document_id);
                if old(self).files.open_task_running || !old(self).files.store_ready || !old(self).spec_tag_current(context)
                    || (ix is Some && old(self).documents@[ix->0].row_tags.len() == 0) {
                    outcome == ClearTags::Ignored && *final(self) == *old(self)
                } else {
                    let cancel = match old(self).row_tags.drag {
                        Some(d) => d.context.target.document_id == context.target.document_id,
                        None => false,
                    };
                    &&& ix is Some
                    &&& outcome == ClearTags::Cleared { drag_cancelled: cancel }
                    &&& final(self).documents.len() == old(self).documents.len()
                    &&& spec_tab_with_tags(old(self).documents@[ix->0], final(self).documents@[ix->0], Seq::empty())
                    &&& forall|j: int| 0 <= j < final(self).documents.len() && j != ix->0 ==> final(self).documents@[j] == old(self).documents@[j]
                    &&& final(self).row_tags.drag == if cancel { None } else { old(self).row_tags.drag }
                    &&& final(self).row_tags.context == old(self).row_tags.context
                    &&& final(self).row_tags.dialog_open == old(self).row_tags.dialog_open
                    &&& *final(self) == (Workspace { documents: final(self).documents, row_tags: final(self).row_tags, ..*old(self) })
                }
            }),
    {
        if self.files.open_task_running || !self.files.store_ready || !self.tag_target_is_current(context.target, context.snapshot) {
            return ClearTags::Ignored;
        }
        let ix = match tab_ix(&self.documents, context.target.document_id) {
            Some(ix) => ix,
            None => {
                assert(false);
                return ClearTags::Ignored;
            },
        };
        if self.documents[ix].row_tags.len() == 0 {
            return ClearTags::Ignored;
        }
        self.documents[ix].row_tags = Vec::new();
        let cancel = match &self.row_tags.drag {
            Some(d) => d.context.target.document_id == context.target.document_id,
            None => false,
        };
        if cancel {
            self.row_tags.drag = None;
        }
        self.row_tag_changed(context.target.document_id, None);
        ClearTags::Cleared { drag_cancelled: cancel }
    }

    /// Deletes the mark `id` of a row; whether there was one.
    pub fn delete_row_tag(&mut self, target: TagTarget, id: &String) -> (deleted: bool)
        ensures
            match spec_first_tab(old(self).documents@, target.document_id) {
                None => !deleted && *final(self) == *old(self),
                Some(i) => {
                    &&& deleted == spec_tag_ix(old(self).documents@[i].row_tags@, target.source_row, id@) is Some
                    &&& final(self).documents.len() == old(self).documents.len()
                    &&& spec_tab_with_tags(old(self).documents@[i], final(self).documents@[i],
                        spec_remove_tag(old(self).documents@[i].row_tags@, target.source_row, id@))
                    &&& forall|j: int| 0 <= j < final(self).documents.len() && j != i ==> final(self).documents@[j] == old(self).documents@[j]
                    &&& *final(self) == (Workspace { documents: final(self).documents, ..*old(self) })
                },
            },
    {
        let ix = match tab_ix(&self.documents, target.document_id) {
            Some(ix) => ix,
            None => return false,
        };
        let removed = self.documents[ix].remove_tag(target.source_row, id);
        if removed {
            self.row_tag_changed(target.document_id, None);
        }
        removed
    }

    /// Ends a mark drag at a position given in thousandths of the font size: the dragged mark
    /// moves there where its row is still current and the mark still exists.
    pub fn finish_tag_drag(&mut self, x: u32, y: u32) -> (moved: bool)
        ensures
            final(self).row_tags.drag is None,
            final(self).row_tags.context == old(self).row_tags.context,
            final(self).row_tags.dialog_open == old(self).row_tags.dialog_open,
            match old(self).row_tags.drag {
                None => !moved && final(self).documents == old(self).documents,
                Some(d) => {
                    let ix = spec_first_tab(old(self).documents@, d.context.target.document_id);
                    let k = if ix is Some {
                        spec_tag_ix(old(self).documents@[ix->0].row_tags@, d.context.target.source_row, d.id@)
                    } else {
                        None
                    };
                    if !old(self).spec_tag_current(d.context) || k is None {
                        !moved && final(self).documents == old(self).documents
                    } else {
                        let tags = old(self).documents@[ix->0].row_tags@;
                        &&& moved
                        &&& final(self).documents.len() == old(self).documents.len()
                        &&& spec_tab_with_tags(old(self).documents@[ix->0], final(self).documents@[ix->0],
                            spec_insert_tag(tags, RowTag { x, y, ..tags[k->0] }))
                        &&& forall|j: int| 0 <= j < final(self).documents.len() && j != ix->0 ==> final(self).documents@[j] == old(self).documents@[j]
                    }
                },
            },
            *final(self) == (Workspace { documents: final(self).documents, row_tags: final(self).row_tags, ..*old(self) }),
    {
        let drag = match self.row_tags.drag.take() {
            Some(d) => d,
            None => return false,
        };
        if !self.tag_target_is_current(drag.context.target, drag.context.snapshot) {
            return false;
        }
        let ix = match tab_ix(&self.documents, drag.context.target.document_id) {
            Some(ix) => ix,
            None => {
                assert(false);
                return false;
            },
        };
        let found = self.documents[ix].find_tag(drag.context.target.source_row, &drag.id);
        let k = match found {
            Some(k) => k,
            None => return false,
        };
        let t = &self.documents[ix].row_tags[k];
        let tag = RowTag {
            id: copy_string(&t.id),
            source_row: t.source_row,
            label: copy_string(&t.label),
            color: t.color,
            style: t.style,
            x,
            y,
            source_digest: t.source_digest,
        };
        self.documents[ix].insert_tag(tag);
        self.row_tag_changed(drag.context.target.document_id, None);
        true
    }

    /// What opening the mark dialog does: see `open_row_tag_dialog`.
    pub open spec fn spec_open_tag_dialog(self, post: Self, request: TagEditRequest, last_used: Option<TagPreset>, plan: Option<TagDialogPlan>) -> bool {
        if self.files.open_task_running || !self.spec_tag_current(request.context) || self.row_tags.dialog_open {
            plan is None && post == self
        } else {
            &&& plan matches Some(p) && {
                &&& p.focus == spec_region_focus(request.context.target.region)
                &&& p.retry_refresh == if self.files.file_refresh_running && self.files.file_watch_active {
                    self.files.file_watch_document_id
                } else {
                    None
                }
                &&& p.initial.label@ == request.draft.label@
                &&& (p.initial.color, p.initial.style) == match last_used {
                    Some(last) => if request.is_new { (last.color, last.style) } else { (request.draft.color, request.draft.style) },
                    None => (request.draft.color, request.draft.style),
                }
                &&& p.is_new == request.is_new
            }
            &&& post.row_tags.dialog_open
            &&& post.row_tags.drag is None
            &&& post.row_tags.context == self.row_tags.context
            &&& post == (Workspace {
                row_tags: post.row_tags,
                row_drag_selection: None,
                files: FileActivity { file_refresh_running: false, ..self.files },
                ..self
            })
        }
    }

    /// Opens the mark dialog for a request, unless a file is being opened, the row is no longer
    /// current or a dialog is open already. The running file refresh pauses, a mark drag and a
    /// row drag end. A new mark starts with the color and style of the last used preset.
    pub fn open_row_tag_dialog(&mut self, request: &TagEditRequest, last_used: Option<&TagPreset>) -> (plan: Option<TagDialogPlan>)
        ensures
            old(self).spec_open_tag_dialog(*final(self), *request, match last_used { Some(p) => Some(*p), None => None }, plan),
    {
        if self.files.open_task_running || !self.tag_target_is_current(request.context.target, request.context.snapshot)
            || self.row_tags.dialog_open {
            return None;
        }
        let retry_refresh = self.pause_tag_file_refresh();
        self.cancel_tag_drag();
        self.row_drag_selection = None;
        self.row_tags.dialog_open = true;
        let (color, style) = match last_used {
            Some(last) => if request.is_new { (last.color, last.style) } else { (request.draft.color, request.draft.style) },
            None => (request.draft.color, request.draft.style),
        };
        Some(TagDialogPlan {
            focus: self.tag_region_focus(request.context.target.region),
            retry_refresh,
            initial: TagPreset { label: copy_string(&request.draft.label), color, style },
            is_new: request.is_new,
        })
    }
}

/// The palette index of the neutral mark color and of the default mark style, which a new
/// mark starts with.
pub const NEUTRAL_TAG_COLOR: u32 = 0;
pub const DEFAULT_TAG_STYLE: u32 = 0;

/// A lowercase hexadecimal digit.
pub open spec fn spec_lower_hex(c: char) -> bool {
    ('0' <= c && c <= '9') || ('a' <= c && c <= 'f')
}

/// The hyphenated lowercase text of a random (version 4) UUID: 32 hexadecimal digits in groups
/// of 8, 4, 4, 4 and 12 separated by hyphens, with the version digit `4` and a variant digit
/// of `8`, `9`, `a` or `b`.
pub open spec fn spec_uuid_v4_text(s: Seq<char>) -> bool {
    &&& s.len() == 36
    &&& forall|i: int| 0 <= i < 36 ==> if i == 8 || i == 13 || i == 18 || i == 23 {
        s[i] == '-'
    } else {
        spec_lower_hex(#[trigger] s[i])
    }
    &&& s[14] == '4'
    &&& (s[19] == '8' || s[19] == '9' || s[19] == 'a' || s[19] == 'b')
}

/// The lowercase hexadecimal digit of `n`, below 16.
pub open spec fn spec_hex_digit(n: int) -> char {
    if n == 0 { '0' } else if n == 1 { '1' } else if n == 2 { '2' } else if n == 3 { '3' }
    else if n == 4 { '4' } else if n == 5 { '5' } else if n == 6 { '6' } else if n == 7 { '7' }
    else if n == 8 { '8' } else if n == 9 { '9' } else if n == 10 { 'a' } else if n == 11 { 'b' }
    else if n == 12 { 'c' } else if n == 13 { 'd' } else if n == 14 { 'e' } else { 'f' }
}

/// The `k`th of the 32 hexadecimal digits of the random UUID made of `bytes`, high digit of
/// each byte first: the version digit (the 13th) is 4, and the variant digit (the 17th) keeps
/// the two low bits of its digit over 8.
pub open spec fn spec_uuid_nibble(bytes: Seq<u8>, k: int) -> int {
    let b = bytes[k / 2] as int;
    let n = if k % 2 == 0 { b / 16 } else { b % 16 };
    if k == 12 { 4 } else if k == 16 { 8 + n % 4 } else { n }
}

/// Which hexadecimal digit the `i`th character of the hyphenated text shows.
pub open spec fn spec_uuid_digit_index(i: int) -> int {
    i - (if i > 8 { 1int } else { 0 }) - (if i > 13 { 1int } else { 0 }) - (if i > 18 { 1int } else { 0 })
        - (if i > 23 { 1int } else { 0 })
}

/// The hyphenated lowercase text of the random (version 4, variant RFC 4122) UUID made of
/// sixteen random bytes.
pub open spec fn spec_uuid_v4_of(bytes: Seq<u8>) -> Seq<char> {
    Seq::new(36, |i: int| if i == 8 || i == 13 || i == 18 || i == 23 {
        '-'
    } else {
        spec_hex_digit(spec_uuid_nibble(bytes, spec_uuid_digit_index(i)))
    })
}

/// The text of a random UUID made of sixteen bytes has the version 4 form.
pub proof fn lemma_uuid_v4_of(bytes: Seq<u8>)
    requires
        bytes.len() == 16,
    ensures
        spec_uuid_v4_text(spec_uuid_v4_of(bytes)),
{
    let s = spec_uuid_v4_of(bytes);
    assert forall|i: int| 0 <= i < 36 implies if i == 8 || i == 13 || i == 18 || i == 23 {
        s[i] == '-'
    } else {
        spec_lower_hex(#[trigger] s[i])
    } by {
        if !(i == 8 || i == 13 || i == 18 || i == 23) {
            let k = spec_uuid_digit_index(i);
            assert(0 <= k < 32);
            let b = bytes[k / 2] as int;
            assert(0 <= b < 256);
            assert(0 <= spec_uuid_nibble(bytes, k) < 16);
        }
    }
    assert(spec_uuid_digit_index(14) == 12);
    assert(spec_uuid_digit_index(19) == 16);
    let v = bytes[8] as int / 16;
    assert(0 <= v % 4 < 4);
}

/// Sixteen bytes from the operating system's random source, by `getrandom::fill`; `None` where
/// the source fails, which `fill` reports as an error. Which bytes come is left open: they are
/// drawn at random.
#[verifier::external_body]
fn random_id_bytes() -> (bytes: Option<[u8; 16]>)
{
    let mut bytes = [0u8; 16];
    match getrandom::fill(&mut bytes) {
        Ok(()) => Some(bytes),
        Err(_) => None,
    }
}

/// The text of the random UUID made of `bytes`: `uuid::Builder::from_random_bytes` sets the
/// version bits of byte 6 to 4 and the variant bits of byte 8 to `10`, and the `Display` of
/// `Uuid` writes the bytes, high digit first, as lowercase hexadecimal in hyphenated groups
/// of 8, 4, 4, 4 and 12 digits.
#[verifier::external_body]
fn uuid_v4_text(bytes: [u8; 16]) -> (id: String)
    ensures
        id@ == spec_uuid_v4_of(bytes@),
{
    uuid::Builder::from_random_bytes(bytes).into_uuid().to_string()
}

/// A new random mark id in the version 4 UUID form; `None` where no random bytes could be had.
fn new_tag_id() -> (id: Option<String>)
    ensures
        id matches Some(t) ==> spec_uuid_v4_text(t@),
{
    match random_id_bytes() {
        Some(bytes) => {
            let id = uuid_v4_text(bytes);
            proof { lemma_uuid_v4_of(bytes@); }
            Some(id)
        },
        None => None,
    }
}

/// What placing a new mark did.
pub enum AddRowTag {
    /// A file is being opened, the row is no longer current or it has no painted geometry.
    Ignored,
    /// The operating system's random source failed: no id could be drawn for the mark.
    IdUnavailable,
    /// A preset was chosen: the mark was saved at once (`saved` as `save_row_tag` returns it).
    Saved { request: TagEditRequest, saved: Option<TagRefresh> },
    /// No preset: the mark dialog was asked to open for the draft (`plan` as
    /// `open_row_tag_dialog` returns it).
    Dialog { request: TagEditRequest, plan: Option<TagDialogPlan> },
}

/// The draft of a new mark with id `id` at a position of its row.
pub open spec fn spec_new_draft(request: TagEditRequest, context: TagContext, position: (u32, u32), source_digest: u64, id: Seq<char>) -> bool {
    &&& request.context == context
    &&& request.is_new
    &&& request.id@ == id
    &&& request.draft == (RowTag {
        id: request.draft.id,
        source_row: context.target.source_row,
        label: request.draft.label,
        color: NEUTRAL_TAG_COLOR,
        style: DEFAULT_TAG_STYLE,
        x: position.0,
        y: position.1,
        source_digest,
    })
    &&& request.draft.label@.len() == 0
}

/// The id an outcome of placing a mark gave the mark; empty where none was placed.
pub open spec fn spec_placed_id(outcome: AddRowTag) -> Seq<char> {
    match outcome {
        AddRowTag::Saved { request, .. } => request.id@,
        AddRowTag::Dialog { request, .. } => request.id@,
        _ => Seq::empty(),
    }
}

impl<P: Copy> Workspace<P> {
    /// How placing a new mark with id `id` at `position` of its row takes the workspace from
    /// `self` to `post`: with a chosen preset it is saved at once, without one the mark dialog
    /// opens for it.
    pub open spec fn spec_row_tag_placed(
        self,
        post: Self,
        context: TagContext,
        position: (u32, u32),
        source_digest: u64,
        preset: Option<(TagPreset, bool)>,
        last_used: Option<TagPreset>,
        id: Seq<char>,
        outcome: AddRowTag,
    ) -> bool {
        match outcome {
            AddRowTag::Saved { request, saved } => preset matches Some((p, valid))
                && spec_new_draft(request, context, position, source_digest, id)
                && self.spec_save_row_tag(post, request, p, valid, saved),
            AddRowTag::Dialog { request, plan } => preset is None
                && spec_new_draft(request, context, position, source_digest, id)
                && self.spec_open_tag_dialog(post, request, last_used, plan),
            _ => false,
        }
    }

    /// Places a new mark with id `id` on a row at `position` (its offset from the row's origin,
    /// in thousandths of the font size), with the line's digest: with a chosen preset (and
    /// whether it is valid) it is saved at once; without one the mark dialog opens for it.
    pub fn place_row_tag(
        &mut self,
        context: TagContext,
        position: (u32, u32),
        source_digest: u64,
        preset: Option<(TagPreset, bool)>,
        last_used: Option<&TagPreset>,
        id: String,
    ) -> (outcome: AddRowTag)
        ensures
            old(self).spec_row_tag_placed(*final(self), context, position, source_digest, preset,
                match last_used { Some(p) => Some(*p), None => None }, id@, outcome),
    {
        let (x, y) = position;
        let draft = RowTag {
            id: String::new(),
            source_row: context.target.source_row,
            label: String::new(),
            color: NEUTRAL_TAG_COLOR,
            style: DEFAULT_TAG_STYLE,
            x,
            y,
            source_digest,
        };
        let request = TagEditRequest { context, id, draft, is_new: true };
        match preset {
            Some((p, valid)) => {
                let request_copy = copy_request(&request);
                let saved = self.save_row_tag(request, p, valid);
                AddRowTag::Saved { request: request_copy, saved }
            },
            None => {
                let plan = self.open_row_tag_dialog(&request, last_used);
                AddRowTag::Dialog { request, plan }
            },
        }
    }

    /// Places a new mark on a row at `position` (`None` where the row has no painted
    /// geometry), as `place_row_tag` does, with a new random id in the version 4 UUID form.
    /// Nothing happens while a file is being opened or where the row is no longer current, nor
    /// where the random source fails.
    pub fn add_row_tag(
        &mut self,
        context: TagContext,
        position: Option<(u32, u32)>,
        source_digest: u64,
        preset: Option<(TagPreset, bool)>,
        last_used: Option<&TagPreset>,
    ) -> (outcome: AddRowTag)
        ensures
            if old(self).files.open_task_running || !old(self).spec_tag_current(context) || position is None {
                outcome is Ignored && *final(self) == *old(self)
            } else if outcome is IdUnavailable {
                *final(self) == *old(self)
            } else {
                &&& spec_uuid_v4_text(spec_placed_id(outcome))
                &&& old(self).spec_row_tag_placed(*final(self), context, position->0, source_digest, preset,
                    match last_used { Some(p) => Some(*p), None => None }, spec_placed_id(outcome), outcome)
            },
    {
        if self.files.open_task_running || !self.tag_target_is_current(context.target, context.snapshot) {
            return AddRowTag::Ignored;
        }
        let position = match position {
            Some(p) => p,
            None => return AddRowTag::Ignored,
        };
        let id = match new_tag_id() {
            Some(id) => id,
            None => return AddRowTag::IdUnavailable,
        };
        let ghost id_view = id@;
        let outcome = self.place_row_tag(context, position, source_digest, preset, last_used, id);
        assert(spec_placed_id(outcome) == id_view);
        outcome
    }
}

/// A copy of a mark.
fn copy_tag(t: &RowTag) -> (c: RowTag)
    ensures
        c == *t,
{
    RowTag {
        id: copy_string(&t.id),
        source_row: t.source_row,
        label: copy_string(&t.label),
        color: t.color,
        style: t.style,
        x: t.x,
        y: t.y,
        source_digest: t.source_digest,
    }
}

/// A copy of a save request.
fn copy_request(r: &TagEditRequest) -> (c: TagEditRequest)
    ensures
        c == *r,
{
    TagEditRequest { context: r.context, id: copy_string(&r.id), draft: copy_tag(&r.draft), is_new: r.is_new }
}

/// The presets without those labelled `label`.
pub open spec fn spec_other_presets(presets: Seq<TagPreset>, label: Seq<char>) -> Seq<TagPreset> {
    presets.filter(|p: TagPreset| p.label@ != label)
}

/// Remembers a mark's appearance as the most recent preset: the presets with the same label
/// are dropped and the new one comes first.
pub fn remember_row_tag_preset(presets: &mut Vec<TagPreset>, preset: TagPreset)
    ensures
        final(presets)@ == seq![preset] + spec_other_presets(old(presets)@, preset.label@),
{
    let ghost all = old(presets)@;
    let mut kept: Vec<TagPreset> = Vec::new();
    kept.push(preset);
    let label = kept[0].label.clone();
    let mut i: usize = 0;
    while i < presets.len()
        invariant
            i <= presets.len(),
            presets@ == all,
            label@ == preset.label@,
            kept@ == seq![preset] + spec_other_presets(all.take(i as int), preset.label@),
        decreases presets.len() - i,
    {
        proof {
            assert(all.take(i + 1) =~= all.take(i as int).push(all[i as int]));
            all.take(i as int).lemma_filter_push(all[i as int], |p: TagPreset| p.label@ != preset.label@);
        }
        if presets[i].label != label {
            let p = &presets[i];
            kept.push(TagPreset { label: p.label.clone(), color: p.color, style: p.style });
            proof {
                assert(kept@ =~= seq![preset] + spec_other_presets(all.take(i + 1), preset.label@));
            }
        } else {
            assert(kept@ =~= seq![preset] + spec_other_presets(all.take(i + 1), preset.label@));
        }
        i = i + 1;
    }
    proof { assert(all.take(i as int) =~= all); }
    *presets = kept;
}

} // verus!
