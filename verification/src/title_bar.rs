//! What the title bar's menus and the file toolbar show: which items are enabled and which
//! are checked, read from the workspace.
use vstd::prelude::*;
use crate::regions::{DocumentLoadState, LogRegion, SearchScope};
use crate::workspace::Workspace;

verus! {

/// The state the title bar's menus show.
#[derive(Clone, Copy, Debug)]
pub struct TitleBarState {
    /// A file is active.
    pub has_document: bool,
    /// Rows are selected in the active log region.
    pub has_selected_log_rows: bool,
    pub active_file_is_pinned: bool,
    pub auto_follow: bool,
    pub show_line_numbers: bool,
    pub show_row_separators: bool,
    pub word_wrap: bool,
    pub case_sensitive: bool,
    pub regex: bool,
    /// The tabs of the tab bar: the files' and the new tabs.
    pub tab_count: usize,
    /// The active tab, and whether its encoding is still being detected.
    pub encoding_tab: Option<(u64, bool)>,
    /// Copying, copying with line numbers and marking act on selected rows of a file.
    pub row_actions_enabled: bool,
    /// Closing the other tabs needs two tabs.
    pub close_others_enabled: bool,
    /// The encoding menu needs an active file and no file being opened.
    pub encoding_menu_enabled: bool,
    /// The History… item is disabled: the state store is not ready or the history is loading.
    pub history_disabled: bool,
}

/// The state the file toolbar shows.
#[derive(Clone, Copy, Debug)]
pub struct FileToolbarState {
    pub has_document: bool,
    /// The pin button is on: the active file is pinned.
    pub pin_selected: bool,
    /// The pin button is disabled: no file is active or the history is loading.
    pub pin_disabled: bool,
    /// The follow button is on.
    pub auto_follow: bool,
    /// The follow button is enabled: the active file is fully indexed.
    pub follow_available: bool,
    /// The active tab, and whether its encoding is still being detected.
    pub encoding_tab: Option<(u64, bool)>,
    /// The encoding menu is disabled: a file is being opened.
    pub encoding_disabled: bool,
    /// The selected line (counted from one; the first where none is selected) and the active
    /// file's line count.
    pub line_position: Option<(usize, usize)>,
}

/// The number of tabs of the tab bar: the files' and the new tabs (saturating).
pub open spec fn spec_tab_count<P>(w: Workspace<P>) -> usize {
    if w.documents.len() + w.other_tabs <= usize::MAX { (w.documents.len() + w.other_tabs) as usize } else { usize::MAX }
}

/// The multi-file results own the word-wrap setting where they are the active region, are
/// shown, and come from a multi-file scope.
pub open spec fn spec_global_owns_wrap<P: Copy>(w: Workspace<P>) -> bool {
    w.active_log_region == LogRegion::GlobalResults && w.global_search.results_visible
        && w.global_search.scope != SearchScope::CurrentFile
}

impl<P: Copy> Workspace<P> {
    /// The state of the title bar's menus. `global_selected_rows` is the number of rows
    /// selected in the multi-file results and `global_wrapped` whether they wrap long lines;
    /// a file without an active tab shows line numbers.
    pub fn title_bar_state(&self, global_selected_rows: usize, global_wrapped: bool) -> (state: TitleBarState)
        ensures
            ({
                let tab = self.spec_active_tab();
                let has_document = tab is Some;
                let has_selected_log_rows = if self.active_log_region == LogRegion::GlobalResults && self.global_search.results_visible {
                    global_selected_rows > 0
                } else {
                    self.selected_source_row is Some
                };
                &&& state.has_document == has_document
                &&& state.has_selected_log_rows == has_selected_log_rows
                &&& state.active_file_is_pinned == match tab {
                    Some(t) => exists|i: int| 0 <= i < self.prefs.pinned_files.len() && #[trigger] self.prefs.pinned_files@[i]@ == t.path_key@,
                    None => false,
                }
                &&& state.auto_follow == (has_document && tab->0.auto_follow)
                &&& state.show_line_numbers == (!has_document || tab->0.view.show_line_numbers)
                &&& state.show_row_separators == (has_document && tab->0.view.show_row_separators)
                &&& state.word_wrap == if spec_global_owns_wrap(*self) {
                    global_wrapped
                } else {
                    has_document && tab->0.view.word_wrap
                }
                &&& state.case_sensitive == self.prefs.case_sensitive
                &&& state.regex == self.prefs.regex
                &&& state.tab_count == spec_tab_count(*self)
                &&& state.encoding_tab == match tab {
                    Some(t) => Some((t.id, t.load_state == DocumentLoadState::Opening)),
                    None => None,
                }
                &&& state.row_actions_enabled == (has_document && has_selected_log_rows)
                &&& state.close_others_enabled == (spec_tab_count(*self) >= 2)
                &&& state.encoding_menu_enabled == (has_document && !self.files.open_task_running)
                &&& state.history_disabled == (!self.files.store_ready || self.prefs.history_loading)
            }),
    {
        let active = match self.active_ix {
            Some(ix) => if ix < self.documents.len() { Some(ix) } else { None },
            None => None,
        };
        let has_document = active.is_some();
        let has_selected_log_rows = if self.active_log_region == LogRegion::GlobalResults && self.global_search.results_visible {
            global_selected_rows > 0
        } else {
            self.selected_source_row.is_some()
        };
        let active_file_is_pinned = self.active_file_is_pinned();
        let tab_count = self.documents.len().saturating_add(self.other_tabs);
        let global_owns_wrap = self.active_log_region == LogRegion::GlobalResults && self.global_search.results_visible
            && self.global_search.scope != SearchScope::CurrentFile;
        let (auto_follow, show_line_numbers, show_row_separators, tab_wrap, encoding_tab) = match active {
            Some(ix) => {
                let tab = &self.documents[ix];
                (
                    tab.auto_follow,
                    tab.view.show_line_numbers,
                    tab.view.show_row_separators,
                    tab.view.word_wrap,
                    Some((tab.id, tab.load_state == DocumentLoadState::Opening)),
                )
            },
            None => (false, true, false, false, None),
        };
        TitleBarState {
            has_document,
            has_selected_log_rows,
            active_file_is_pinned,
            auto_follow,
            show_line_numbers,
            show_row_separators,
            word_wrap: if global_owns_wrap { global_wrapped } else { tab_wrap },
            case_sensitive: self.prefs.case_sensitive,
            regex: self.prefs.regex,
            tab_count,
            encoding_tab,
            row_actions_enabled: has_document && has_selected_log_rows,
            close_others_enabled: tab_count >= 2,
            encoding_menu_enabled: has_document && !self.files.open_task_running,
            history_disabled: !self.files.store_ready || self.prefs.history_loading,
        }
    }

    /// The state of the file toolbar.
    pub fn file_toolbar_state(&self) -> (state: FileToolbarState)
        requires
            self.selected_source_row is Some ==> self.selected_source_row->0 < usize::MAX,
        ensures
            ({
                let tab = self.spec_active_tab();
                let has_document = tab is Some;
                &&& state.has_document == has_document
                &&& state.pin_selected == match tab {
                    Some(t) => exists|i: int| 0 <= i < self.prefs.pinned_files.len() && #[trigger] self.prefs.pinned_files@[i]@ == t.path_key@,
                    None => false,
                }
                &&& state.pin_disabled == (!has_document || self.prefs.history_loading)
                &&& state.auto_follow == (has_document && tab->0.auto_follow)
                &&& state.follow_available == (has_document && tab->0.load_state == DocumentLoadState::Ready)
                &&& state.encoding_tab == match tab {
                    Some(t) => Some((t.id, t.load_state == DocumentLoadState::Opening)),
                    None => None,
                }
                &&& state.encoding_disabled == self.files.open_task_running
                &&& state.line_position == match tab {
                    Some(t) => Some((
                        match self.selected_source_row { Some(row) => (row + 1) as usize, None => 1usize },
                        t.line_count,
                    )),
                    None => None,
                }
            }),
    {
        let active = match self.active_ix {
            Some(ix) => if ix < self.documents.len() { Some(ix) } else { None },
            None => None,
        };
        let pin_selected = self.active_file_is_pinned();
        match active {
            Some(ix) => {
                let tab = &self.documents[ix];
                let line = match self.selected_source_row {
                    Some(row) => row + 1,
                    None => 1,
                };
                FileToolbarState {
                    has_document: true,
                    pin_selected,
                    pin_disabled: self.prefs.history_loading,
                    auto_follow: tab.auto_follow,
                    follow_available: tab.load_state == DocumentLoadState::Ready,
                    encoding_tab: Some((tab.id, tab.load_state == DocumentLoadState::Opening)),
                    encoding_disabled: self.files.open_task_running,
                    line_position: Some((line, tab.line_count)),
                }
            },
            None => FileToolbarState {
                has_document: false,
                pin_selected,
                pin_disabled: true,
                auto_follow: false,
                follow_available: false,
                encoding_tab: None,
                encoding_disabled: self.files.open_task_running,
                line_position: None,
            },
        }
    }
}

} // verus!
