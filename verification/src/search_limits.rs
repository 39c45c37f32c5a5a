//! Per-file search ranges: a search may be limited to a start and an end line.
use vstd::prelude::*;
use crate::path_map::PathMap;
use crate::regions::{DocumentLoadState, LogRegion};
use crate::workspace::{DocumentTab, Workspace};

verus! {

/// The source rows a search covers: from `start`, to `end` inclusive or to the end of the file.
#[derive(Clone, Copy, Debug, PartialEq, Eq, Structural)]
pub struct SearchRange {
    pub start: usize,
    pub end: Option<usize>,
}

/// The range that covers the whole file.
pub open spec fn spec_unrestricted() -> SearchRange {
    SearchRange { start: 0, end: None }
}

impl SearchRange {
    /// The whole file.
    pub fn unrestricted() -> (range: SearchRange)
        ensures
            range == spec_unrestricted(),
    {
        SearchRange { start: 0, end: None }
    }

    /// The range covers the whole file.
    pub fn is_unrestricted(&self) -> (unrestricted: bool)
        ensures
            unrestricted == (*self == spec_unrestricted()),
    {
        self.start == 0 && self.end.is_none()
    }
}

/// One range per file, shared by the three search scopes of a workspace. The completed ranges
/// only record whether an appended search may reuse the installed results.
#[derive(Clone, Debug)]
pub struct FileSearchRanges {
    limits: PathMap<SearchRange>,
    local_results: PathMap<SearchRange>,
    global_results: PathMap<SearchRange>,
}

/// The range a map stores for a key, else the whole file.
pub open spec fn spec_range_or_default(map: Map<Seq<char>, SearchRange>, key: Seq<char>) -> SearchRange {
    if map.dom().contains(key) { map[key] } else { spec_unrestricted() }
}

impl FileSearchRanges {
    pub closed spec fn wf(self) -> bool {
        self.limits.wf() && self.local_results.wf() && self.global_results.wf()
    }

    /// The range set for each file.
    pub closed spec fn limits(self) -> Map<Seq<char>, SearchRange> {
        self.limits@
    }

    /// The range each file's last completed search covered, for the current-file scope
    /// (`global` false) or the multi-file scopes.
    pub closed spec fn completed_ranges(self, global: bool) -> Map<Seq<char>, SearchRange> {
        if global { self.global_results@ } else { self.local_results@ }
    }

    /// The range of a file.
    pub open spec fn spec_get(self, path_key: Seq<char>) -> SearchRange {
        spec_range_or_default(self.limits(), path_key)
    }

    /// No file is limited and no search completed.
    pub fn new() -> (ranges: Self)
        ensures
            ranges.wf(),
            ranges.limits() == Map::<Seq<char>, SearchRange>::empty(),
            ranges.completed_ranges(false) == Map::<Seq<char>, SearchRange>::empty(),
            ranges.completed_ranges(true) == Map::<Seq<char>, SearchRange>::empty(),
    {
        FileSearchRanges { limits: PathMap::new(), local_results: PathMap::new(), global_results: PathMap::new() }
    }

    /// Sets the range of a file.
    pub fn set(&mut self, path_key: String, range: SearchRange)
        requires
            old(self).wf(),
        ensures
            final(self).wf(),
            final(self).limits() == old(self).limits().insert(path_key@, range),
            final(self).completed_ranges(false) == old(self).completed_ranges(false),
            final(self).completed_ranges(true) == old(self).completed_ranges(true),
    {
        self.limits.insert(path_key, range);
    }

    /// The range of a file: the whole file unless one was set.
    pub fn get(&self, path_key: &String) -> (range: SearchRange)
        requires
            self.wf(),
        ensures
            range == self.spec_get(path_key@),
    {
        match self.limits.get(path_key) {
            Some(range) => range,
            None => SearchRange { start: 0, end: None },
        }
    }

    /// Records the range a completed search of a file covered.
    pub fn completed(&mut self, path_key: String, range: SearchRange, global: bool)
        requires
            old(self).wf(),
        ensures
            final(self).wf(),
            final(self).limits() == old(self).limits(),
            final(self).completed_ranges(global) == old(self).completed_ranges(global).insert(path_key@, range),
            final(self).completed_ranges(!global) == old(self).completed_ranges(!global),
    {
        if global {
            self.global_results.insert(path_key, range);
        } else {
            self.local_results.insert(path_key, range);
        }
    }

    /// An appended search may reuse the installed results when the last completed search of
    /// the file covered the file's current range.
    pub fn can_extend(&self, path_key: &String, global: bool) -> (extend: bool)
        requires
            self.wf(),
        ensures
            extend == (spec_range_or_default(self.completed_ranges(global), path_key@) == self.spec_get(path_key@)),
    {
        let completed = if global { self.global_results.get(path_key) } else { self.local_results.get(path_key) };
        let completed = match completed {
            Some(range) => range,
            None => SearchRange { start: 0, end: None },
        };
        completed == self.get(path_key)
    }
}

/// A search limit the user sets from a row's context menu.
#[derive(Clone, Copy, Debug, PartialEq, Eq, Structural)]
pub enum SearchBoundary {
    Start,
    End,
    Clear,
}

/// What setting a search limit did.
#[derive(Clone, Copy, Debug, PartialEq, Eq, Structural)]
pub enum BoundaryUpdate {
    /// The file is loading, or a start or end was asked for without a row: nothing changed.
    Ignored,
    /// The range is the one already set.
    Unchanged,
    /// The range changed: running searches were cancelled, the file's pending refresh dropped,
    /// and the next search uses the range. `unrestricted` tells which notice to show.
    Updated { unrestricted: bool },
}

/// The search-limit part of a row's context menu.
#[derive(Clone, Debug)]
pub struct SearchLimitMenu {
    pub path_key: String,
    pub row: Option<usize>,
    /// The current range, with one-based line numbers.
    pub first_line: usize,
    pub last_line: Option<usize>,
    pub set_start_disabled: bool,
    pub set_end_disabled: bool,
    pub clear_disabled: bool,
}

/// Some open tab of the file is still loading.
pub open spec fn spec_path_loading(documents: Seq<DocumentTab>, path_key: Seq<char>) -> bool {
    exists|i: int| 0 <= i < documents.len() && documents[i].path_key@ == path_key
        && documents[i].load_state != DocumentLoadState::Ready
}

/// Some open tab of the file is still loading.
pub fn path_loading(documents: &Vec<DocumentTab>, path_key: &String) -> (loading: bool)
    ensures
        loading == spec_path_loading(documents@, path_key@),
{
    let mut i: usize = 0;
    while i < documents.len()
        invariant
            i <= documents.len(),
            forall|j: int| 0 <= j < i ==> !(documents@[j].path_key@ == path_key@
                && documents@[j].load_state != DocumentLoadState::Ready),
        decreases documents.len() - i,
    {
        if documents[i].path_key == *path_key && documents[i].load_state != DocumentLoadState::Ready {
            return true;
        }
        i = i + 1;
    }
    false
}

/// The tabs after a search-range change of a file: each tab of that file gets a new revision.
pub open spec fn spec_bump_path_revisions(documents: Seq<DocumentTab>, path_key: Seq<char>) -> Seq<DocumentTab> {
    Seq::new(documents.len(), |i: int| if documents[i].path_key@ == path_key {
        DocumentTab { search_revision: crate::regions::spec_sat_inc(documents[i].search_revision), ..documents[i] }
    } else {
        documents[i]
    })
}

impl<P: Copy> Workspace<P> {
    /// The file and source row a search limit applies to, from the active row of `region`.
    ///
    /// For global results, `global_row` is the key of the global table's active row: its
    /// document id and, for a match row, its source row. For local regions, `local_source_row`
    /// is the source row of the active row of the active tab's table in that region.
    pub fn search_limit_target(
        &self,
        region: LogRegion,
        global_row: Option<(u64, Option<usize>)>,
        local_source_row: Option<usize>,
    ) -> (target: Option<(String, Option<usize>)>)
        ensures
            match target {
                None => if region == LogRegion::GlobalResults {
                    match global_row {
                        Some((document_id, _)) => crate::workspace::spec_first_result(self.global_search.results@, document_id) is None,
                        None => true,
                    }
                } else {
                    self.spec_active_tab() is None
                },
                Some((path, row)) => if region == LogRegion::GlobalResults {
                    match global_row {
                        Some((document_id, source_row)) => row == source_row && ({
                            let ix = crate::workspace::spec_first_result(self.global_search.results@, document_id);
                            ix is Some && path@ == self.global_search.results@[ix->0].path_key@
                        }),
                        None => false,
                    }
                } else {
                    self.spec_active_tab() is Some && row == local_source_row
                        && path@ == self.spec_active_tab()->0.path_key@
                },
            },
    {
        if region == LogRegion::GlobalResults {
            let (document_id, row) = match global_row {
                Some(key) => key,
                None => return None,
            };
            match crate::workspace::result_ix(&self.global_search.results, document_id) {
                Some(ix) => Some((self.global_search.results[ix].path_key.clone(), row)),
                None => None,
            }
        } else {
            match self.active_ix {
                Some(ix) => if ix < self.documents.len() {
                    Some((self.documents[ix].path_key.clone(), local_source_row))
                } else {
                    None
                },
                None => None,
            }
        }
    }

    /// The search-limit items of a row's context menu, for the target `search_limit_target`
    /// found; `None` adds no items.
    pub fn append_search_limit_menu(&self, target: Option<(String, Option<usize>)>) -> (menu: Option<SearchLimitMenu>)
        requires
            self.search_ranges.wf(),
        ensures
            match target {
                None => menu is None,
                Some((path, row)) => menu is Some && ({
                    let menu = menu->0;
                    let range = self.search_ranges.spec_get(path@);
                    let loading = spec_path_loading(self.documents@, path@);
                    &&& menu.path_key@ == path@
                    &&& menu.row == row
                    &&& menu.first_line == crate::regions::spec_sat_inc_usize(range.start)
                    &&& menu.last_line == match range.end {
                        Some(end) => Some(crate::regions::spec_sat_inc_usize(end)),
                        None => None,
                    }
                    &&& menu.set_start_disabled == (row is None || loading)
                    &&& menu.set_end_disabled == (row is None || loading)
                    &&& menu.clear_disabled == (range == spec_unrestricted() || loading)
                }),
            },
    {
        let (path, row) = match target {
            Some(target) => target,
            None => return None,
        };
        let range = self.search_ranges.get(&path);
        let loading = path_loading(&self.documents, &path);
        let last_line = match range.end {
            Some(end) => Some(end.saturating_add(1)),
            None => None,
        };
        Some(SearchLimitMenu {
            first_line: range.start.saturating_add(1),
            last_line,
            set_start_disabled: row.is_none() || loading,
            set_end_disabled: row.is_none() || loading,
            clear_disabled: range.is_unrestricted() || loading,
            path_key: path,
            row,
        })
    }

    /// Sets a search limit of a file.
    ///
    /// `moved` is the file's current range with its start (for `Start`) or end (for `End`)
    /// moved to `row`, as the range computes it; it is not read for `Clear`.
    pub fn set_search_boundary(
        &mut self,
        path_key: String,
        row: Option<usize>,
        boundary: SearchBoundary,
        moved: SearchRange,
    ) -> (update: BoundaryUpdate)
        requires
            old(self).search_ranges.wf(),
        ensures
            final(self).search_ranges.wf(),
            ({
                let previous = old(self).search_ranges.spec_get(path_key@);
                let next = if boundary == SearchBoundary::Clear { spec_unrestricted() } else { moved };
                if spec_path_loading(old(self).documents@, path_key@)
                    || (boundary != SearchBoundary::Clear && row is None) {
                    update == BoundaryUpdate::Ignored && *final(self) == *old(self)
                } else if next == previous {
                    update == BoundaryUpdate::Unchanged && *final(self) == *old(self)
                } else {
                    &&& update == BoundaryUpdate::Updated { unrestricted: next == spec_unrestricted() }
                    &&& final(self).search_ranges.limits() == old(self).search_ranges.limits().insert(path_key@, next)
                    &&& final(self).search_ranges.completed_ranges(false) == old(self).search_ranges.completed_ranges(false)
                    &&& final(self).search_ranges.completed_ranges(true) == old(self).search_ranges.completed_ranges(true)
                    &&& final(self).global_search.revision == crate::regions::spec_sat_inc(old(self).global_search.revision)
                    &&& final(self).documents@ == spec_bump_path_revisions(old(self).documents@, path_key@)
                    &&& *final(self) == (Workspace {
                        documents: final(self).documents,
                        search_ranges: final(self).search_ranges,
                        global_search: crate::workspace::GlobalSearchState {
                            revision: final(self).global_search.revision,
                            ..old(self).global_search
                        },
                        runs: crate::current_search::spec_cancelled(old(self).runs),
                        files: crate::workspace::FileActivity { file_refresh_running: false, ..old(self).files },
                        ..*old(self)
                    })
                }
            }),
    {
        if path_loading(&self.documents, &path_key) {
            return BoundaryUpdate::Ignored;
        }
        let previous = self.search_ranges.get(&path_key);
        let next = match boundary {
            SearchBoundary::Clear => SearchRange { start: 0, end: None },
            _ => {
                if row.is_none() {
                    return BoundaryUpdate::Ignored;
                }
                moved
            },
        };
        if next == previous {
            return BoundaryUpdate::Unchanged;
        }
        self.cancel_search();
        self.files.file_refresh_running = false;
        self.global_search.revision = self.global_search.revision.saturating_add(1);
        let ghost pre_docs = self.documents@;
        let ghost mid = *self;
        let mut i: usize = 0;
        while i < self.documents.len()
            invariant
                i <= self.documents.len(),
                *self == (Workspace { documents: self.documents, ..mid }),
                self.search_ranges == mid.search_ranges,
                self.search_ranges.wf(),
                self.global_search == mid.global_search,
                self.active_ix == mid.active_ix,
                self.active_log_region == mid.active_log_region,
                self.last_user_log_region == mid.last_user_log_region,
                self.row_drag_selection == mid.row_drag_selection,
                self.row_drag_frame_scheduled == mid.row_drag_frame_scheduled,
                self.quick_find == mid.quick_find,
                self.selected_source_row == mid.selected_source_row,
                self.documents.len() == pre_docs.len(),
                forall|j: int| 0 <= j < i ==> self.documents@[j] == spec_bump_path_revisions(pre_docs, path_key@)[j],
                forall|j: int| i <= j < self.documents.len() ==> self.documents@[j] == pre_docs[j],
            decreases self.documents.len() - i,
        {
            if self.documents[i].path_key == path_key {
                self.documents[i].search_revision = self.documents[i].search_revision.saturating_add(1);
            }
            i = i + 1;
        }
        assert(self.documents@ =~= spec_bump_path_revisions(pre_docs, path_key@));
        let unrestricted = next.is_unrestricted();
        self.search_ranges.set(path_key, next);
        BoundaryUpdate::Updated { unrestricted }
    }
}

} // verus!
