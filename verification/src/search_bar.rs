//! What the search bar and the quick-find bar show: which controls are enabled, which toggle
//! is on, and which notice a control explains itself with.
use vstd::prelude::*;
use crate::quick_find::{QuickFindBoundary, QuickFindTarget};
use crate::regions::{DocumentLoadState, SearchScope};
use crate::search_orchestration::SearchAutocompleteMode;
use crate::search_runs::SearchTarget;
use crate::workspace::Workspace;

verus! {

/// The state the search bar shows.
#[derive(Clone, Copy, Debug, PartialEq, Eq, Structural)]
pub struct SearchBarState {
    pub has_document: bool,
    /// The search button is disabled.
    pub search_disabled: bool,
    /// The clear button is disabled.
    pub clear_disabled: bool,
    /// The search button shows that the active scope is searching.
    pub searching: bool,
    /// The history button is disabled: the history is empty.
    pub history_disabled: bool,
    /// The history list is open.
    pub history_open: bool,
    /// The suggestion list shows.
    pub show_suggestions: bool,
    /// The result count shows: the active scope's results are shown.
    pub results_visible: bool,
}

/// A notice of the quick-find bar.
#[derive(Clone, Copy, Debug, PartialEq, Eq, Structural)]
pub enum QuickFindNotice {
    /// The query is not a valid pattern.
    Invalid,
    NoMatch,
    /// The search reached the first match: there are no earlier ones.
    ReachedStart,
    /// The search reached the last match: there are no more.
    ReachedEnd,
}

/// The state the quick-find bar shows.
#[derive(Clone, Copy, Debug, PartialEq, Eq, Structural)]
pub struct QuickFindBarState {
    pub target: Option<QuickFindTarget>,
    /// The notice the input announces.
    pub status: Option<QuickFindNotice>,
    /// The notice the "previous" button explains itself with; none for its plain action.
    pub previous_notice: Option<QuickFindNotice>,
    /// The notice the "next" button explains itself with; none for its plain action.
    pub next_notice: Option<QuickFindNotice>,
    /// The find buttons are disabled.
    pub controls_disabled: bool,
    pub case_sensitive: bool,
    pub whole_word: bool,
    pub regex: bool,
}

/// A selected tab is not fully indexed.
pub open spec fn spec_selected_unindexed<P>(w: Workspace<P>) -> bool {
    exists|i: int| 0 <= i < w.documents.len()
        && w.global_search.selected_documents@.contains(#[trigger] w.documents@[i].id)
        && w.documents@[i].load_state != DocumentLoadState::Ready
}

impl<P: Copy> Workspace<P> {
    /// The state of the search bar. `query_empty` tells whether the input is empty,
    /// `query_focused` whether it has the focus, and `suggestion_count` how many suggestions
    /// the autocomplete offers. A search needs a fully indexed active file in the current-file
    /// scope; an active file, a selection of files all fully indexed in the all-open-files
    /// scope; a directory in the directory scope. Clearing needs an active file and either a
    /// query or shown results.
    pub fn search_bar_state(&self, query_empty: bool, query_focused: bool, suggestion_count: usize) -> (state: SearchBarState)
        ensures
            ({
                let tab = self.spec_active_tab();
                let has_document = tab is Some;
                let gs = self.global_search;
                let results_visible = match gs.scope {
                    SearchScope::CurrentFile => has_document && tab->0.results_visible,
                    _ => gs.results_visible,
                };
                &&& state.has_document == has_document
                &&& state.search_disabled == match gs.scope {
                    SearchScope::CurrentFile => !(has_document && tab->0.load_state == DocumentLoadState::Ready),
                    SearchScope::AllOpenFiles => !has_document || gs.selected_documents.len() == 0 || spec_selected_unindexed(*self),
                    SearchScope::Directory => gs.directory_options.directory is None,
                }
                &&& state.clear_disabled == (!has_document || (query_empty && !results_visible))
                &&& state.searching == match gs.scope {
                    SearchScope::CurrentFile => has_document && (self.runs.running matches Some((t, _)) && t == SearchTarget::Document(tab->0.id)),
                    SearchScope::AllOpenFiles => self.runs.running matches Some((t, _)) && t == SearchTarget::AllOpenFiles,
                    SearchScope::Directory => self.runs.running matches Some((t, _)) && t == SearchTarget::Directory,
                }
                &&& state.history_disabled == (self.search_history.len() == 0)
                &&& state.history_open == (self.search_autocomplete_mode == SearchAutocompleteMode::History)
                &&& state.show_suggestions == (suggestion_count > 0 && query_focused)
                &&& state.results_visible == results_visible
            }),
    {
        let active = match self.active_ix {
            Some(ix) => if ix < self.documents.len() { Some(ix) } else { None },
            None => None,
        };
        let has_document = active.is_some();
        let gs = &self.global_search;
        let results_visible = match gs.scope {
            SearchScope::CurrentFile => match active {
                Some(ix) => self.documents[ix].results_visible,
                None => false,
            },
            _ => gs.results_visible,
        };
        let search_disabled = match gs.scope {
            SearchScope::CurrentFile => match active {
                Some(ix) => self.documents[ix].load_state != DocumentLoadState::Ready,
                None => true,
            },
            SearchScope::AllOpenFiles => !has_document || gs.selected_documents.len() == 0
                || crate::search_runs::selected_unindexed(&self.documents, &gs.selected_documents),
            SearchScope::Directory => gs.directory_options.directory.is_none(),
        };
        let searching = match (gs.scope, self.runs.running) {
            (SearchScope::CurrentFile, Some((SearchTarget::Document(id), _))) => match active {
                Some(ix) => self.documents[ix].id == id,
                None => false,
            },
            (SearchScope::AllOpenFiles, Some((SearchTarget::AllOpenFiles, _))) => true,
            (SearchScope::Directory, Some((SearchTarget::Directory, _))) => true,
            _ => false,
        };
        SearchBarState {
            has_document,
            search_disabled,
            clear_disabled: !has_document || (query_empty && !results_visible),
            searching,
            history_disabled: self.search_history.len() == 0,
            history_open: self.search_autocomplete_mode == SearchAutocompleteMode::History,
            show_suggestions: suggestion_count > 0 && query_focused,
            results_visible,
        }
    }

    /// The state of the quick-find bar. `query_empty` tells whether its input is empty and
    /// `invalid` whether its query fails to compile. The input announces an invalid query,
    /// else a search that found nothing, else the end of the view a search ran into; each
    /// find button explains itself with the same notices, the boundary only in its own
    /// direction. The find buttons are disabled without a query, while searching, or for an
    /// invalid query.
    pub fn quick_find_bar_state(&self, query_empty: bool, invalid: bool) -> (state: QuickFindBarState)
        ensures
            ({
                let q = self.quick_find;
                let boundary = match q.boundary {
                    Some(QuickFindBoundary::Start) => Some(QuickFindNotice::ReachedStart),
                    Some(QuickFindBoundary::End) => Some(QuickFindNotice::ReachedEnd),
                    None => None,
                };
                &&& state.target == q.target
                &&& state.status == if invalid {
                    Some(QuickFindNotice::Invalid)
                } else if q.no_match {
                    Some(QuickFindNotice::NoMatch)
                } else {
                    boundary
                }
                &&& state.previous_notice == if invalid {
                    Some(QuickFindNotice::Invalid)
                } else if q.no_match {
                    Some(QuickFindNotice::NoMatch)
                } else if q.boundary == Some(QuickFindBoundary::Start) {
                    Some(QuickFindNotice::ReachedStart)
                } else {
                    None
                }
                &&& state.next_notice == if invalid {
                    Some(QuickFindNotice::Invalid)
                } else if q.no_match {
                    Some(QuickFindNotice::NoMatch)
                } else if q.boundary == Some(QuickFindBoundary::End) {
                    Some(QuickFindNotice::ReachedEnd)
                } else {
                    None
                }
                &&& state.controls_disabled == (query_empty || q.busy || invalid)
                &&& state.case_sensitive == q.case_sensitive
                &&& state.whole_word == q.whole_word
                &&& state.regex == q.regex
            }),
    {
        let q = &self.quick_find;
        let boundary = match q.boundary {
            Some(QuickFindBoundary::Start) => Some(QuickFindNotice::ReachedStart),
            Some(QuickFindBoundary::End) => Some(QuickFindNotice::ReachedEnd),
            None => None,
        };
        let status = if invalid {
            Some(QuickFindNotice::Invalid)
        } else if q.no_match {
            Some(QuickFindNotice::NoMatch)
        } else {
            boundary
        };
        let previous_notice = if invalid {
            Some(QuickFindNotice::Invalid)
        } else if q.no_match {
            Some(QuickFindNotice::NoMatch)
        } else if q.boundary == Some(QuickFindBoundary::Start) {
            Some(QuickFindNotice::ReachedStart)
        } else {
            None
        };
        let next_notice = if invalid {
            Some(QuickFindNotice::Invalid)
        } else if q.no_match {
            Some(QuickFindNotice::NoMatch)
        } else if q.boundary == Some(QuickFindBoundary::End) {
            Some(QuickFindNotice::ReachedEnd)
        } else {
            None
        };
        QuickFindBarState {
            target: q.target,
            status,
            previous_notice,
            next_notice,
            controls_disabled: query_empty || q.busy || invalid,
            case_sensitive: q.case_sensitive,
            whole_word: q.whole_word,
            regex: q.regex,
        }
    }
}

} // verus!
