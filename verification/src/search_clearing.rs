//! Clearing a search session and dropping multi-file results: what each clear resets, and
//! where the active log region goes once the multi-file results are hidden.
use vstd::prelude::*;
use crate::current_search::spec_region_after_global;
use crate::preferences::{AppSettings, Preferences, QueryOptions};
use crate::regions::{spec_sat_inc, LogRegion, SearchScope};
use crate::search_orchestration::SearchAutocompleteMode;
use crate::search_runs::{Activity, SearchRuns, SearchTarget};
use crate::workspace::{DocumentTab, GlobalSearchState, SelectionTable, Workspace};

verus! {

/// The session a clear reset.
#[derive(Clone, Copy, Debug, PartialEq, Eq, Structural)]
pub enum ClearedSession {
    /// The active file's session, with the tab whose checkpoint is saved.
    CurrentFile(Option<u64>),
    AllOpenFiles,
    Directory,
}

/// A query with no text and the default options.
pub open spec fn spec_cleared_query(q: QueryOptions, settings: AppSettings) -> bool {
    &&& q.text@ == Seq::<char>::empty()
    &&& q.case_sensitive == settings.default_case_sensitive
    &&& q.regex == settings.default_use_regex
}

/// The active log region once the multi-file results are hidden: it leaves them for the
/// active file.
pub open spec fn spec_region_after_hidden<P: Copy>(w: Workspace<P>) -> LogRegion {
    if w.active_log_region == LogRegion::GlobalResults {
        spec_region_after_global(w)
    } else {
        w.active_log_region
    }
}

/// The workspace with the search input reset: wheel browsing of the history stopped and the
/// suggestions closed.
pub open spec fn spec_input_reset<P>(w: Workspace<P>) -> Workspace<P> {
    Workspace {
        search_history_ix: None,
        search_history_draft: None,
        search_autocomplete_mode: SearchAutocompleteMode::Closed,
        search_suggestion_ix: None,
        ..w
    }
}

/// The multi-file state once a multi-file session is cleared: its results dropped and the
/// revision bumped, so that a running search's answer is stale.
pub open spec fn spec_cleared_global(pre: GlobalSearchState, post: GlobalSearchState) -> bool {
    &&& post.results.len() == 0
    &&& post == (GlobalSearchState {
        revision: spec_sat_inc(pre.revision),
        results_visible: false,
        results: post.results,
        result_scope: None,
        query: post.query,
        directory_query: post.directory_query,
        all_open_rules: post.all_open_rules,
        directory_rules: post.directory_rules,
        pending_all_open_restore: post.pending_all_open_restore,
        pending_directory_restore: post.pending_directory_restore,
        ..pre
    })
}

/// How clearing the all-open-files session takes the workspace from `pre` to `post`.
pub open spec fn spec_global_cleared<P: Copy>(pre: Workspace<P>, post: Workspace<P>) -> bool {
    let gs = post.global_search;
    &&& spec_cleared_query(gs.query, pre.prefs.app_settings)
    &&& gs.all_open_rules.len() == 0
    &&& spec_cleared_global(pre.global_search, gs)
    &&& gs.pending_all_open_restore is None
    &&& gs.directory_query == pre.global_search.directory_query
    &&& gs.directory_rules == pre.global_search.directory_rules
    &&& gs.pending_directory_restore == pre.global_search.pending_directory_restore
    &&& post == (Workspace {
        global_search: gs,
        runs: SearchRuns { running: None, activity: Activity::Ready, ..pre.runs },
        prefs: Preferences {
            case_sensitive: pre.prefs.app_settings.default_case_sensitive,
            regex: pre.prefs.app_settings.default_use_regex,
            ..pre.prefs
        },
        active_log_region: spec_region_after_hidden(pre),
        ..spec_input_reset(pre)
    })
}

/// How clearing the directory session takes the workspace from `pre` to `post`.
pub open spec fn spec_directory_cleared<P: Copy>(pre: Workspace<P>, post: Workspace<P>) -> bool {
    let gs = post.global_search;
    &&& spec_cleared_query(gs.directory_query, pre.prefs.app_settings)
    &&& gs.directory_rules.len() == 0
    &&& spec_cleared_global(pre.global_search, gs)
    &&& gs.pending_directory_restore is None
    &&& gs.query == pre.global_search.query
    &&& gs.all_open_rules == pre.global_search.all_open_rules
    &&& gs.pending_all_open_restore == pre.global_search.pending_all_open_restore
    &&& post == (Workspace {
        global_search: gs,
        runs: SearchRuns { running: None, activity: Activity::Ready, ..pre.runs },
        prefs: Preferences {
            case_sensitive: pre.prefs.app_settings.default_case_sensitive,
            regex: pre.prefs.app_settings.default_use_regex,
            ..pre.prefs
        },
        active_log_region: spec_region_after_hidden(pre),
        ..spec_input_reset(pre)
    })
}

/// How clearing the active file's session takes the workspace from `pre` to `post`, with the
/// tab whose checkpoint is saved.
pub open spec fn spec_current_cleared<P: Copy>(pre: Workspace<P>, post: Workspace<P>, checkpoint: Option<u64>) -> bool {
    match pre.spec_active_tab() {
        None => checkpoint is None && post == pre,
        Some(tab) => {
            let ix = pre.active_ix->0 as int;
            let q = post.documents@[ix].search_query;
            let running = pre.runs.running;
            &&& checkpoint == Some(tab.id)
            &&& spec_cleared_query(q, pre.prefs.app_settings)
            &&& post.documents@ == pre.documents@.update(ix, DocumentTab {
                search_revision: spec_sat_inc(tab.search_revision),
                search_query: q,
                results_visible: false,
                selection_table: SelectionTable::Log,
                ..tab
            })
            &&& post == (Workspace {
                documents: post.documents,
                runs: SearchRuns {
                    running: if running matches Some((SearchTarget::Document(d), _)) && d == tab.id { None } else { running },
                    activity: Activity::Ready,
                    ..pre.runs
                },
                prefs: Preferences {
                    case_sensitive: pre.prefs.app_settings.default_case_sensitive,
                    regex: pre.prefs.app_settings.default_use_regex,
                    ..pre.prefs
                },
                active_log_region: if pre.active_log_region == LogRegion::CurrentResults {
                    LogRegion::Body
                } else {
                    pre.active_log_region
                },
                ..spec_input_reset(pre)
            })
        },
    }
}

impl<P: Copy> Workspace<P> {
    /// Cancels the running search where it searches `document_id`; whether it did. A workspace
    /// that was searching is ready again.
    pub fn cancel_search_for(&mut self, document_id: u64) -> (cancelled: bool)
        ensures
            cancelled == (old(self).runs.running matches Some((SearchTarget::Document(d), _)) && d == document_id),
            final(self).runs == if cancelled {
                SearchRuns {
                    running: None,
                    activity: if old(self).runs.activity == Activity::Searching { Activity::Ready } else { old(self).runs.activity },
                    ..old(self).runs
                }
            } else {
                old(self).runs
            },
            *final(self) == (Workspace { runs: final(self).runs, ..*old(self) }),
    {
        let cancelled = match self.runs.running {
            Some((SearchTarget::Document(d), _)) => d == document_id,
            _ => false,
        };
        if cancelled {
            self.runs.running = None;
            if self.runs.activity == Activity::Searching {
                self.runs.activity = Activity::Ready;
            }
        }
        cancelled
    }

    /// Leaves the multi-file results for the active file once they are hidden: its results
    /// where they are shown and own its selection, else its log.
    pub fn fallback_from_hidden_global_results(&mut self)
        ensures
            *final(self) == (Workspace {
                active_log_region: if old(self).global_search.results_visible {
                    old(self).active_log_region
                } else {
                    spec_region_after_hidden(*old(self))
                },
                ..*old(self)
            }),
    {
        if self.active_log_region != LogRegion::GlobalResults || self.global_search.results_visible {
            return;
        }
        let region = match self.active_ix {
            Some(ix) => if ix < self.documents.len() && self.documents[ix].results_visible
                && self.documents[ix].selection_table == SelectionTable::Results {
                LogRegion::CurrentResults
            } else {
                LogRegion::Body
            },
            None => LogRegion::Body,
        };
        self.active_log_region = region;
    }

    /// Drops the all-open-files results after the open files changed. Nothing happens where
    /// none are installed and no retained session context (`context_retained`) holds any;
    /// else the revision is bumped, installed all-open-files results are dropped and hidden,
    /// a persisted restore is dropped, and the active log region leaves hidden results.
    /// Returns whether the dropped results were on screen; the caller drops the retained
    /// context's results.
    pub fn invalidate_all_open_results(&mut self, context_retained: bool) -> (visible: Option<bool>)
        ensures
            visible == old(self).spec_invalidated_visible(context_retained),
            old(self).spec_invalidated(*final(self), context_retained),
    {
        let installed = self.global_search.result_scope == Some(SearchScope::AllOpenFiles);
        if !installed && !context_retained {
            return None;
        }
        let visible = installed && self.global_search.scope == SearchScope::AllOpenFiles && self.global_search.results_visible;
        self.global_search.revision = self.global_search.revision.saturating_add(1);
        if installed {
            self.global_search.results = Vec::new();
            self.global_search.result_scope = None;
            self.global_search.results_visible = false;
        }
        self.global_search.pending_all_open_restore = None;
        self.fallback_from_hidden_global_results();
        Some(visible)
    }

    /// Drops the all-open-files results after `document_id` was reloaded, where the installed
    /// all-open-files results or the retained context (`context_has_document`) list it.
    pub fn invalidate_all_open_results_for_reload(
        &mut self,
        document_id: u64,
        context_retained: bool,
        context_has_document: bool,
    ) -> (visible: Option<bool>)
        ensures
            ({
                let gs = old(self).global_search;
                let installed = gs.result_scope == Some(SearchScope::AllOpenFiles)
                    && exists|i: int| 0 <= i < gs.results.len() && (#[trigger] gs.results@[i]).document_id == document_id;
                if !installed && !context_has_document {
                    visible is None && *final(self) == *old(self)
                } else {
                    visible == old(self).spec_invalidated_visible(context_retained)
                        && old(self).spec_invalidated(*final(self), context_retained)
                }
            }),
    {
        let listed = match crate::workspace::result_ix(&self.global_search.results, document_id) {
            Some(r) => {
                assert(self.global_search.results@[r as int].document_id == document_id);
                true
            },
            None => false,
        };
        let installed = self.global_search.result_scope == Some(SearchScope::AllOpenFiles) && listed;
        if !installed && !context_has_document {
            return None;
        }
        self.invalidate_all_open_results(context_retained)
    }

    /// What `invalidate_all_open_results` returns.
    pub open spec fn spec_invalidated_visible(self, context_retained: bool) -> Option<bool> {
        let gs = self.global_search;
        let installed = gs.result_scope == Some(SearchScope::AllOpenFiles);
        if !installed && !context_retained {
            None
        } else {
            Some(installed && gs.scope == SearchScope::AllOpenFiles && gs.results_visible)
        }
    }

    /// How `invalidate_all_open_results` takes the workspace to `post`.
    pub open spec fn spec_invalidated(self, post: Self, context_retained: bool) -> bool {
        let gs = self.global_search;
        let installed = gs.result_scope == Some(SearchScope::AllOpenFiles);
        if !installed && !context_retained {
            post == self
        } else {
            let hidden = GlobalSearchState {
                revision: spec_sat_inc(gs.revision),
                results: post.global_search.results,
                result_scope: if installed { None } else { gs.result_scope },
                results_visible: if installed { false } else { gs.results_visible },
                pending_all_open_restore: None,
                ..gs
            };
            &&& if installed { post.global_search.results.len() == 0 } else { post.global_search.results == gs.results }
            &&& post == (Workspace {
                global_search: hidden,
                active_log_region: if hidden.results_visible { self.active_log_region } else { spec_region_after_hidden(self) },
                ..self
            })
        }
    }

    /// The query with no text and the default options.
    pub(crate) fn cleared_query(&self) -> (q: QueryOptions)
        ensures
            spec_cleared_query(q, self.prefs.app_settings),
    {
        QueryOptions {
            text: String::new(),
            case_sensitive: self.prefs.app_settings.default_case_sensitive,
            regex: self.prefs.app_settings.default_use_regex,
        }
    }

    /// Clears the all-open-files session: the running search is cancelled, its results and its
    /// session context (its color rules) dropped and hidden, a persisted restore dropped, and
    /// its query and the toolbar options reset to an empty query with the default options.
    /// The active log region leaves the hidden results, the search input is reset, and the
    /// workspace is ready.
    #[verifier::rlimit(40)]
    pub fn clear_global_search(&mut self)
        ensures
            spec_global_cleared(*old(self), *final(self)),
    {
        self.cancel_search();
        self.global_search.revision = self.global_search.revision.saturating_add(1);
        self.global_search.query = self.cleared_query();
        self.global_search.results_visible = false;
        self.global_search.results = Vec::new();
        self.global_search.result_scope = None;
        self.global_search.pending_all_open_restore = None;
        self.global_search.all_open_rules = Vec::new();
        self.prefs.case_sensitive = self.global_search.query.case_sensitive;
        self.prefs.regex = self.global_search.query.regex;
        self.fallback_from_hidden_global_results();
        self.reset_search_history_navigation();
        self.close_search_autocomplete();
        self.runs.activity = Activity::Ready;
    }

    /// Clears the directory session: the running search is cancelled, its results and its
    /// session context (its color rules) dropped and hidden, a persisted restore dropped, and
    /// its query and the toolbar options reset to an empty query with the default options.
    /// The active log region leaves the hidden results, the search input is reset, and the
    /// workspace is ready.
    #[verifier::rlimit(40)]
    pub fn clear_directory_search(&mut self)
        ensures
            spec_directory_cleared(*old(self), *final(self)),
    {
        self.cancel_search();
        self.global_search.revision = self.global_search.revision.saturating_add(1);
        self.global_search.directory_query = self.cleared_query();
        self.global_search.results_visible = false;
        self.global_search.results = Vec::new();
        self.global_search.result_scope = None;
        self.global_search.pending_directory_restore = None;
        self.global_search.directory_rules = Vec::new();
        self.prefs.case_sensitive = self.global_search.directory_query.case_sensitive;
        self.prefs.regex = self.global_search.directory_query.regex;
        self.fallback_from_hidden_global_results();
        self.reset_search_history_navigation();
        self.close_search_autocomplete();
        self.runs.activity = Activity::Ready;
    }

    /// Clears the search session of tab `ix`: its search revision is bumped, its query reset to
    /// an empty query with the default options, its results hidden and its log given the
    /// selection.
    fn clear_tab_session(&mut self, ix: usize)
        requires
            ix < old(self).documents.len(),
        ensures
            spec_cleared_query(final(self).documents@[ix as int].search_query, old(self).prefs.app_settings),
            final(self).documents@ == old(self).documents@.update(ix as int, DocumentTab {
                search_revision: spec_sat_inc(old(self).documents@[ix as int].search_revision),
                search_query: final(self).documents@[ix as int].search_query,
                results_visible: false,
                selection_table: SelectionTable::Log,
                ..old(self).documents@[ix as int]
            }),
            *final(self) == (Workspace { documents: final(self).documents, ..*old(self) }),
    {
        let ghost pre = *self;
        let query = self.cleared_query();
        let revision = self.documents[ix].search_revision.saturating_add(1);
        self.documents[ix].search_revision = revision;
        self.documents[ix].search_query = query;
        self.documents[ix].results_visible = false;
        self.documents[ix].selection_table = SelectionTable::Log;
        proof {
            assert(self.documents@ =~= pre.documents@.update(ix as int, DocumentTab {
                search_revision: revision,
                search_query: self.documents@[ix as int].search_query,
                results_visible: false,
                selection_table: SelectionTable::Log,
                ..pre.documents@[ix as int]
            }));
        }
    }

    /// Clears the active file's search session; the tab, whose checkpoint is saved, or none
    /// without an active file. A search of the file is cancelled and its search revision
    /// bumped, its results hidden and its log given the selection, and its query and the
    /// toolbar options reset to an empty query with the default options. The active log
    /// region leaves the file's results, the search input is reset, and the workspace is
    /// ready.
    #[verifier::rlimit(40)]
    pub fn clear_current_search(&mut self) -> (checkpoint: Option<u64>)
        ensures
            spec_current_cleared(*old(self), *final(self), checkpoint),
    {
        let ix = match self.active_ix {
            Some(ix) => if ix < self.documents.len() { ix } else { return None },
            None => return None,
        };
        let document_id = self.documents[ix].id;
        self.cancel_search_for(document_id);
        self.clear_tab_session(ix);
        self.prefs.case_sensitive = self.prefs.app_settings.default_case_sensitive;
        self.prefs.regex = self.prefs.app_settings.default_use_regex;
        if self.active_log_region == LogRegion::CurrentResults {
            self.active_log_region = LogRegion::Body;
        }
        self.reset_search_history_navigation();
        self.close_search_autocomplete();
        self.runs.activity = Activity::Ready;
        Some(document_id)
    }

    /// Clears the active scope's search session.
    pub fn clear_search(&mut self) -> (cleared: ClearedSession)
        ensures
            match old(self).global_search.scope {
                SearchScope::CurrentFile => cleared matches ClearedSession::CurrentFile(checkpoint)
                    && spec_current_cleared(*old(self), *final(self), checkpoint),
                SearchScope::AllOpenFiles => cleared is AllOpenFiles && spec_global_cleared(*old(self), *final(self)),
                SearchScope::Directory => cleared is Directory && spec_directory_cleared(*old(self), *final(self)),
            },
    {
        match self.global_search.scope {
            SearchScope::CurrentFile => ClearedSession::CurrentFile(self.clear_current_search()),
            SearchScope::AllOpenFiles => {
                self.clear_global_search();
                ClearedSession::AllOpenFiles
            },
            SearchScope::Directory => {
                self.clear_directory_search();
                ClearedSession::Directory
            },
        }
    }
}

} // verus!
