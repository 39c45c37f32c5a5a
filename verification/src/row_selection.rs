//! Pointer selection in the log regions: which region the user works in, where the focus goes
//! and what the row tables are told to do.
use vstd::prelude::*;
use crate::quick_find::FocusTarget;
use crate::regions::{LogRegion, SearchScope, WrappedRegion};
use crate::workspace::{spec_first_tab, tab_ix, DocumentTab, SelectionTable, Workspace};

verus! {

/// The surface that paints a region's rows.
#[derive(Clone, Copy, Debug, PartialEq, Eq, Structural)]
pub enum RegionSurface {
    LogViewer,
    SearchResultsViewer,
}

/// What a mouse-down on a log or results row does to its table.
#[derive(Clone, Copy, Debug, PartialEq, Eq, Structural)]
pub struct RowPress {
    /// The index of the row's tab.
    pub tab_ix: usize,
    pub focus: FocusTarget,
    /// The table that receives the press.
    pub table: SelectionTable,
    /// A modified or triple click selects rows, not text: text selection is suppressed.
    pub suppress_text_selection: bool,
    pub row_ix: usize,
}

/// What a mouse-down on a global results row does.
#[derive(Clone, Copy, Debug, PartialEq, Eq, Structural)]
pub struct GlobalRowPress {
    /// Text selection is suppressed.
    pub suppress_text_selection: bool,
    /// The press starts a pointer selection of match rows, and the active row follows in the
    /// next frame; on a group header the active row moves at once.
    pub begin_pointer_selection: bool,
}

/// The log region of a row region.
pub open spec fn spec_log_region(region: WrappedRegion) -> LogRegion {
    if region == WrappedRegion::Results { LogRegion::CurrentResults } else { LogRegion::Body }
}

/// A press selects rows rather than text.
pub open spec fn spec_row_gesture(control: bool, shift: bool, click_count: usize) -> bool {
    control || shift || click_count >= 3
}

impl<P: Copy> Workspace<P> {
    /// The user works in `region` now: it becomes the active region and the one find-in-view
    /// and keyboard commands follow.
    pub fn remember_user_log_region(&mut self, region: LogRegion)
        ensures
            *final(self) == (Workspace { active_log_region: region, last_user_log_region: region, ..*old(self) }),
    {
        self.active_log_region = region;
        self.last_user_log_region = region;
    }

    /// The surface that paints a region: the log viewer for the log, the results viewer for
    /// both result lists.
    pub fn log_region_surface(&self, document_id: u64, region: WrappedRegion) -> (surface: Option<RegionSurface>)
        ensures
            surface == Some(if region == WrappedRegion::Log { RegionSurface::LogViewer } else { RegionSurface::SearchResultsViewer }),
    {
        Some(match region {
            WrappedRegion::Log => RegionSurface::LogViewer,
            WrappedRegion::Results | WrappedRegion::GlobalResults => RegionSurface::SearchResultsViewer,
        })
    }

    /// The regions of the active tab where a text selection may start: its log, and the result
    /// list shown for the search scope (the tab's results while shown, or the multi-file
    /// results while shown).
    pub open spec fn spec_selection_regions(self) -> Seq<(u64, WrappedRegion)> {
        match self.spec_active_tab() {
            None => Seq::empty(),
            Some(tab) => {
                let log = (tab.id, WrappedRegion::Log);
                match self.global_search.scope {
                    SearchScope::CurrentFile => if tab.results_visible {
                        seq![log, (tab.id, WrappedRegion::Results)]
                    } else {
                        seq![log]
                    },
                    _ => if self.global_search.results_visible {
                        seq![log, (0u64, WrappedRegion::GlobalResults)]
                    } else {
                        seq![log]
                    },
                }
            },
        }
    }

    /// Whether a text selection starting at the pointer starts in a log region: `hit` reports
    /// whether the pointer lies in the rows painted for a region key.
    pub fn is_text_selection_origin_in_log_region<F: Fn((u64, WrappedRegion)) -> bool>(&self, hit: F) -> (inside: bool)
        requires
            forall|k: (u64, WrappedRegion)| hit.requires((k,)),
        ensures
            inside ==> exists|i: int| 0 <= i < self.spec_selection_regions().len()
                && #[trigger] hit.ensures((self.spec_selection_regions()[i],), true),
            !inside ==> forall|i: int| 0 <= i < self.spec_selection_regions().len()
                ==> #[trigger] hit.ensures((self.spec_selection_regions()[i],), false),
    {
        let tab = match self.active_ix {
            Some(ix) => if ix < self.documents.len() { &self.documents[ix] } else { return false },
            None => return false,
        };
        let ghost regions = self.spec_selection_regions();
        let log_hit = hit((tab.id, WrappedRegion::Log));
        assert(regions[0] == (tab.id, WrappedRegion::Log));
        if log_hit {
            return true;
        }
        let second = match self.global_search.scope {
            SearchScope::CurrentFile => if tab.results_visible { Some((tab.id, WrappedRegion::Results)) } else { None },
            _ => if self.global_search.results_visible { Some((0u64, WrappedRegion::GlobalResults)) } else { None },
        };
        match second {
            Some(key) => {
                assert(regions[1] == key);
                hit(key)
            },
            None => false,
        }
    }

    /// A mouse-down on a row of a tab's log or results: the region becomes the user's, the
    /// focus moves to its viewer, and its table starts a pointer selection at the row. Nothing
    /// where the tab is gone.
    pub fn select_wrapped_log_row(
        &mut self,
        document_id: u64,
        region: WrappedRegion,
        row_ix: usize,
        control: bool,
        shift: bool,
        click_count: usize,
    ) -> (press: Option<RowPress>)
        ensures
            match spec_first_tab(old(self).documents@, document_id) {
                None => press is None && *final(self) == *old(self),
                Some(i) => {
                    &&& press == Some(RowPress {
                        tab_ix: i as usize,
                        focus: if region == WrappedRegion::Results { FocusTarget::ResultsViewer } else { FocusTarget::LogViewer },
                        table: if region == WrappedRegion::Results { SelectionTable::Results } else { SelectionTable::Log },
                        suppress_text_selection: spec_row_gesture(control, shift, click_count),
                        row_ix,
                    })
                    &&& *final(self) == (Workspace {
                        active_log_region: spec_log_region(region),
                        last_user_log_region: spec_log_region(region),
                        ..*old(self)
                    })
                },
            },
    {
        let ix = match tab_ix(&self.documents, document_id) {
            Some(ix) => ix,
            None => return None,
        };
        let results = region == WrappedRegion::Results;
        self.remember_user_log_region(if results { LogRegion::CurrentResults } else { LogRegion::Body });
        Some(RowPress {
            tab_ix: ix,
            focus: if results { FocusTarget::ResultsViewer } else { FocusTarget::LogViewer },
            table: if results { SelectionTable::Results } else { SelectionTable::Log },
            suppress_text_selection: control || shift || click_count >= 3,
            row_ix,
        })
    }

    /// A mouse-down on a row of the global results: they become the user's region; on a match
    /// row a modified or triple click suppresses text selection and the press starts a pointer
    /// selection.
    pub fn select_wrapped_global_row(&mut self, is_match: bool, control: bool, shift: bool, click_count: usize) -> (press: GlobalRowPress)
        ensures
            press == (GlobalRowPress {
                suppress_text_selection: is_match && spec_row_gesture(control, shift, click_count),
                begin_pointer_selection: is_match,
            }),
            *final(self) == (Workspace {
                active_log_region: LogRegion::GlobalResults,
                last_user_log_region: LogRegion::GlobalResults,
                ..*old(self)
            }),
    {
        self.remember_user_log_region(LogRegion::GlobalResults);
        GlobalRowPress {
            suppress_text_selection: is_match && (control || shift || click_count >= 3),
            begin_pointer_selection: is_match,
        }
    }

    /// A secondary click on a row of a tab's log or results: the region becomes the user's;
    /// where the tab is open its viewer takes the focus, the region's table owns the tab's
    /// selection, and the status bar shows `source_row`, the row's source row.
    pub fn prepare_wrapped_log_context(&mut self, document_id: u64, region: WrappedRegion, source_row: Option<usize>) -> (focus: Option<FocusTarget>)
        ensures
            match spec_first_tab(old(self).documents@, document_id) {
                None => focus is None && *final(self) == (Workspace {
                    active_log_region: spec_log_region(region),
                    last_user_log_region: spec_log_region(region),
                    ..*old(self)
                }),
                Some(i) => {
                    &&& focus == Some(if region == WrappedRegion::Results { FocusTarget::ResultsViewer } else { FocusTarget::LogViewer })
                    &&& final(self).documents@ == old(self).documents@.update(i, DocumentTab {
                        selection_table: if region == WrappedRegion::Results { SelectionTable::Results } else { SelectionTable::Log },
                        ..old(self).documents@[i]
                    })
                    &&& *final(self) == (Workspace {
                        documents: final(self).documents,
                        active_log_region: spec_log_region(region),
                        last_user_log_region: spec_log_region(region),
                        selected_source_row: source_row,
                        ..*old(self)
                    })
                },
            },
    {
        let results = region == WrappedRegion::Results;
        self.remember_user_log_region(if results { LogRegion::CurrentResults } else { LogRegion::Body });
        let ix = match tab_ix(&self.documents, document_id) {
            Some(ix) => ix,
            None => return None,
        };
        self.documents[ix].selection_table = if results { SelectionTable::Results } else { SelectionTable::Log };
        self.selected_source_row = source_row;
        Some(if results { FocusTarget::ResultsViewer } else { FocusTarget::LogViewer })
    }

    /// A secondary click on a row of the global results: they become the user's region; a
    /// match row prepares the context selection (the result), and the row becomes active.
    pub fn prepare_wrapped_global_context(&mut self, is_match: bool) -> (prepare_selection: bool)
        ensures
            prepare_selection == is_match,
            *final(self) == (Workspace {
                active_log_region: LogRegion::GlobalResults,
                last_user_log_region: LogRegion::GlobalResults,
                ..*old(self)
            }),
    {
        self.remember_user_log_region(LogRegion::GlobalResults);
        is_match
    }

    /// A secondary click on a group header of the global results: they become the user's
    /// region; the caller clears their row selection.
    pub fn prepare_wrapped_global_group_context(&mut self) -> (focus: FocusTarget)
        ensures
            focus == FocusTarget::ResultsViewer,
            *final(self) == (Workspace {
                active_log_region: LogRegion::GlobalResults,
                last_user_log_region: LogRegion::GlobalResults,
                ..*old(self)
            }),
    {
        self.remember_user_log_region(LogRegion::GlobalResults);
        FocusTarget::ResultsViewer
    }
}

} // verus!
