//! Searching the active file, switching between the search scopes, and the options of the
//! active search session.
use vstd::prelude::*;
use crate::preferences::{Preferences, QueryOptions};
use crate::retained_context::{spec_captured_context, spec_restore, RetainedContext};
use crate::regions::{spec_sat_inc, DocumentLoadState, LogRegion, SearchScope};
use crate::search_orchestration::SearchAutocompleteMode;
use crate::search_runs::{spec_directory_started, spec_global_started, spec_query_of, DirectorySearchStart, GlobalSearchStart, Activity, SearchQueryPlan, SearchRunOutcome, SearchRuns, SearchTarget};
use crate::workspace::{spec_first_tab, tab_ix, DocumentTab, GlobalSearchState, SelectionTable, Workspace};

verus! {

/// How a search of the active file starts.
#[derive(Clone, Debug)]
pub enum CurrentSearchStart {
    /// No file is active: nothing happens.
    NoDocument,
    /// The active file is not fully indexed yet: the user is told to wait.
    NotIndexed,
    /// The search runs in the background over the file.
    Started { document_id: u64, revision: u64, query: SearchQueryPlan },
}

/// How a search starts, in the active scope.
#[derive(Clone, Debug)]
pub enum SearchStart {
    CurrentFile(CurrentSearchStart),
    AllOpenFiles(GlobalSearchStart),
    Directory(DirectorySearchStart),
}

/// What restoring a persisted multi-file search started.
#[derive(Clone, Debug)]
pub enum PersistedRestore {
    /// Nothing waits to be restored, or it cannot start yet.
    Nothing,
    /// The all-open-files search runs again with its query text, which the input shows.
    AllOpenFiles { text: String, start: GlobalSearchStart },
    /// The directory search runs again with its query text, which the input shows.
    Directory { text: String, start: DirectorySearchStart },
}

/// What a finished search of one file does.
#[derive(Clone, Debug)]
pub enum CurrentSearchFinish<R> {
    /// Another search started meanwhile: the answer is dropped.
    Stale,
    /// The file's tab was closed or its search settings changed: nothing is installed, and
    /// the search is not marked finished. A completed search is still recorded in the history.
    Dropped { record_history: bool },
    /// The results are installed and shown; the query is recorded in the history.
    Installed(R),
    Cancelled,
    /// The file changed while it was searched: the user is told to reload it.
    SourceChanged,
    /// The search could not run; the message is shown.
    Failed(String),
}

/// What switching the search scope did.
#[derive(Clone, Debug)]
pub struct ScopeSwitch {
    /// The query text the search input shows for the new scope.
    pub text: String,
    /// The multi-file search that was running was cancelled.
    pub cancelled_search: bool,
    /// The context the left multi-file scope keeps until it is entered again; none where the
    /// current-file scope was left.
    pub left_context: Option<RetainedContext>,
}

/// What changing the options of the active search session did.
#[derive(Clone, Copy, Debug, PartialEq, Eq, Structural)]
pub struct OptionsChange {
    /// The search that was running was cancelled.
    pub cancelled_search: bool,
    /// The tab whose session changed, of which a checkpoint is saved; none where the
    /// workspace search state is saved.
    pub checkpoint: Option<u64>,
}

/// What choosing a predefined filter did.
#[derive(Clone, Copy, Debug, PartialEq, Eq, Structural)]
pub struct FilterChoice {
    /// The toolbar's options changed to regex matching for a regex filter.
    pub options: Option<OptionsChange>,
    /// The tab whose current-file session took the query, of which a checkpoint is saved.
    pub checkpoint: Option<u64>,
}

/// A search over all open files or a directory is running.
pub open spec fn spec_multi_file_running(runs: SearchRuns) -> bool {
    runs.running matches Some((t, _)) && (t == SearchTarget::AllOpenFiles || t == SearchTarget::Directory)
}

/// The runs once the running search is cancelled.
pub open spec fn spec_cancelled(runs: SearchRuns) -> SearchRuns {
    SearchRuns {
        running: None,
        activity: if runs.running is Some && runs.activity == Activity::Searching { Activity::Ready } else { runs.activity },
        ..runs
    }
}

/// The text and options the search input shows for a scope: those of its session, or an
/// empty query with the default options where the current-file scope has no active file.
pub open spec fn spec_shown_query<P: Copy>(w: Workspace<P>, scope: SearchScope) -> (Seq<char>, bool, bool) {
    match scope {
        SearchScope::CurrentFile => match w.spec_active_tab() {
            Some(tab) => (tab.search_query.text@, tab.search_query.case_sensitive, tab.search_query.regex),
            None => (Seq::empty(), w.prefs.app_settings.default_case_sensitive, w.prefs.app_settings.default_use_regex),
        },
        SearchScope::AllOpenFiles => (w.global_search.query.text@, w.global_search.query.case_sensitive, w.global_search.query.regex),
        SearchScope::Directory => (
            w.global_search.directory_query.text@,
            w.global_search.directory_query.case_sensitive,
            w.global_search.directory_query.regex,
        ),
    }
}

/// The log region once the multi-file results are left for the current file: the active
/// tab's results where they are shown and own its selection, else its log.
pub open spec fn spec_region_after_global<P: Copy>(w: Workspace<P>) -> LogRegion {
    match w.spec_active_tab() {
        Some(tab) => if tab.results_visible && tab.selection_table == SelectionTable::Results {
            LogRegion::CurrentResults
        } else {
            LogRegion::Body
        },
        None => LogRegion::Body,
    }
}

/// The tabs once `draft` is kept as the query text of the active tab's session, in the
/// current-file scope.
pub open spec fn spec_saved_documents<P: Copy>(w: Workspace<P>, draft: String) -> Seq<DocumentTab> {
    match w.spec_active_tab() {
        Some(tab) => if w.global_search.scope == SearchScope::CurrentFile {
            w.documents@.update(w.active_ix->0 as int, DocumentTab {
                search_query: QueryOptions { text: draft, ..tab.search_query },
                ..tab
            })
        } else {
            w.documents@
        },
        None => w.documents@,
    }
}

/// The multi-file state once `draft` is kept as the query text of the active multi-file
/// session.
pub open spec fn spec_saved_global(gs: GlobalSearchState, draft: String) -> GlobalSearchState {
    match gs.scope {
        SearchScope::AllOpenFiles => GlobalSearchState { query: QueryOptions { text: draft, ..gs.query }, ..gs },
        SearchScope::Directory => GlobalSearchState { directory_query: QueryOptions { text: draft, ..gs.directory_query }, ..gs },
        SearchScope::CurrentFile => gs,
    }
}

/// The active log region after a switch to `next`: leaving the multi-file results for the
/// current file moves it to that file.
pub open spec fn spec_region_on_switch<P: Copy>(w: Workspace<P>, next: SearchScope) -> LogRegion {
    if next == SearchScope::CurrentFile && w.active_log_region == LogRegion::GlobalResults {
        spec_region_after_global(w)
    } else {
        w.active_log_region
    }
}

/// The tab whose current-file session takes new options.
pub open spec fn spec_options_checkpoint<P: Copy>(w: Workspace<P>) -> Option<u64> {
    if w.global_search.scope == SearchScope::CurrentFile && w.spec_active_tab() is Some {
        Some(w.spec_active_tab()->0.id)
    } else {
        None
    }
}

/// The tabs once the active tab's current-file session takes the options.
pub open spec fn spec_optioned_documents<P: Copy>(w: Workspace<P>, case_sensitive: bool, regex: bool) -> Seq<DocumentTab> {
    match w.spec_active_tab() {
        Some(tab) => if w.global_search.scope == SearchScope::CurrentFile {
            w.documents@.update(w.active_ix->0 as int, DocumentTab {
                search_query: QueryOptions { case_sensitive, regex, ..tab.search_query },
                ..tab
            })
        } else {
            w.documents@
        },
        None => w.documents@,
    }
}

/// The multi-file state once the active multi-file session takes the options.
pub open spec fn spec_optioned_global(gs: GlobalSearchState, case_sensitive: bool, regex: bool) -> GlobalSearchState {
    match gs.scope {
        SearchScope::AllOpenFiles => GlobalSearchState { query: QueryOptions { case_sensitive, regex, ..gs.query }, ..gs },
        SearchScope::Directory => GlobalSearchState { directory_query: QueryOptions { case_sensitive, regex, ..gs.directory_query }, ..gs },
        SearchScope::CurrentFile => gs,
    }
}

/// How a search of the active file for `text` takes the workspace from `pre` to `post`: not
/// without an active file, nor before it is fully indexed; else the running search is
/// cancelled and the tab's search revision bumped, so that an older answer is stale.
pub open spec fn spec_current_started<P: Copy>(pre: Workspace<P>, post: Workspace<P>, text: Seq<char>, start: CurrentSearchStart) -> bool {
    match pre.spec_active_tab() {
        None => start is NoDocument && post == pre,
        Some(tab) => if tab.load_state != DocumentLoadState::Ready {
            start is NotIndexed && post == pre
        } else {
            start matches CurrentSearchStart::Started { document_id, revision, query }
                && document_id == tab.id
                && revision == spec_sat_inc(tab.search_revision)
                && spec_query_of(pre, text, query)
                && post == (Workspace {
                    documents: post.documents,
                    runs: SearchRuns {
                        running: Some((SearchTarget::Document(tab.id), revision)),
                        activity: Activity::Searching,
                        ..pre.runs
                    },
                    ..pre
                })
                && post.documents@ == pre.documents@.update(
                    pre.active_ix->0 as int,
                    DocumentTab { search_revision: revision, ..tab },
                )
        },
    }
}

/// How setting the toolbar's options to `case_sensitive` and `regex` takes the workspace from
/// `pre` to `post`: where they change, the running search is cancelled and the active
/// session's query takes them.
pub open spec fn spec_options_set<P: Copy>(pre: Workspace<P>, post: Workspace<P>, case_sensitive: bool, regex: bool, change: Option<OptionsChange>) -> bool {
    if pre.prefs.case_sensitive == case_sensitive && pre.prefs.regex == regex {
        change is None && post == pre
    } else {
        &&& change == Some(OptionsChange {
            cancelled_search: pre.runs.running is Some,
            checkpoint: spec_options_checkpoint(pre),
        })
        &&& post.documents@ == spec_optioned_documents(pre, case_sensitive, regex)
        &&& post == (Workspace {
            documents: post.documents,
            global_search: spec_optioned_global(pre.global_search, case_sensitive, regex),
            runs: spec_cancelled(pre.runs),
            prefs: Preferences { case_sensitive, regex, ..pre.prefs },
            ..pre
        })
    }
}

/// The tabs once the active tab's current-file session takes `text` and `regex`.
pub open spec fn spec_filtered_documents<P: Copy>(w: Workspace<P>, text: String, regex: bool) -> Seq<DocumentTab> {
    match w.spec_active_tab() {
        Some(tab) => if w.global_search.scope == SearchScope::CurrentFile {
            w.documents@.update(w.active_ix->0 as int, DocumentTab {
                search_query: QueryOptions { text, regex, ..tab.search_query },
                ..tab
            })
        } else {
            w.documents@
        },
        None => w.documents@,
    }
}

/// The multi-file state once the active multi-file session takes `text` and `regex`.
pub open spec fn spec_filtered_global(gs: GlobalSearchState, text: String, regex: bool) -> GlobalSearchState {
    match gs.scope {
        SearchScope::AllOpenFiles => GlobalSearchState { query: QueryOptions { text, regex, ..gs.query }, ..gs },
        SearchScope::Directory => GlobalSearchState { directory_query: QueryOptions { text, regex, ..gs.directory_query }, ..gs },
        SearchScope::CurrentFile => gs,
    }
}

/// How the answer of the search of `document_id` started at `revision` takes the workspace
/// from `pre` to `post`.
pub open spec fn spec_current_finished<P: Copy, R>(pre: Workspace<P>, post: Workspace<P>, document_id: u64, revision: u64, query: QueryOptions, outcome: SearchRunOutcome<R>, finish: CurrentSearchFinish<R>) -> bool {
    let current = pre.runs.running == Some((SearchTarget::Document(document_id), revision));
    let dropped = CurrentSearchFinish::<R>::Dropped { record_history: spec_completed(outcome) };
    let finished = |activity: Activity| (Workspace {
        runs: SearchRuns { running: None, activity, ..pre.runs },
        ..pre
    });
    if !current {
        finish is Stale && post == pre
    } else {
        match spec_first_tab(pre.documents@, document_id) {
            None => finish == dropped && post == pre,
            Some(i) => {
                let tab = pre.documents@[i];
                if tab.search_revision != revision {
                    finish == dropped && post == pre
                } else {
                    match outcome {
                        SearchRunOutcome::Completed(r) => {
                            &&& finish == CurrentSearchFinish::<R>::Installed(r)
                            &&& post == (Workspace { documents: post.documents, ..finished(Activity::Ready) })
                            &&& post.documents@ == pre.documents@.update(i, DocumentTab {
                                search_query: query,
                                results_visible: true,
                                ..tab
                            })
                        },
                        SearchRunOutcome::Cancelled => finish is Cancelled && post == finished(Activity::Ready),
                        SearchRunOutcome::SourceChanged => finish is SourceChanged && post == finished(Activity::Error),
                        SearchRunOutcome::Failed(message) => finish == CurrentSearchFinish::<R>::Failed(message)
                            && post == finished(Activity::Error),
                    }
                }
            },
        }
    }
}

/// The workspace once `next` is the active scope: the toolbar options show its session, and
/// the active log region moves off the multi-file results where they are left for the current
/// file.
pub open spec fn spec_show<P: Copy>(w: Workspace<P>, next: SearchScope) -> Workspace<P> {
    Workspace {
        global_search: GlobalSearchState { scope: next, ..w.global_search },
        active_log_region: spec_region_on_switch(w, next),
        prefs: Preferences {
            case_sensitive: spec_shown_query(w, next).1,
            regex: spec_shown_query(w, next).2,
            ..w.prefs
        },
        ..w
    }
}

/// How switching the search scope to `next_scope`, with `draft` in the search input and
/// `entered` the context the entered multi-file scope kept, takes the workspace from `pre` to
/// `post`.
pub open spec fn spec_scope_switched<P: Copy>(
    pre: Workspace<P>,
    post: Workspace<P>,
    next_scope: SearchScope,
    draft: String,
    entered: RetainedContext,
    switch: Option<ScopeSwitch>,
) -> bool {
    if pre.global_search.scope == next_scope {
        switch is None && post == pre
    } else {
        let from = pre.global_search.scope;
        let multi = spec_multi_file_running(pre.runs);
        let saved = Workspace {
            documents: post.documents,
            global_search: spec_saved_global(pre.global_search, draft),
            runs: if multi { spec_cancelled(pre.runs) } else { pre.runs },
            ..crate::search_clearing::spec_input_reset(pre)
        };
        let restored = spec_restore(saved, next_scope, entered);
        &&& post.documents@ == spec_saved_documents(pre, draft)
        &&& switch matches Some(s)
            && s.cancelled_search == multi
            && s.text@ == spec_shown_query(restored, next_scope).0
            && match s.left_context {
                Some(c) => from != SearchScope::CurrentFile && spec_captured_context(saved, from, c),
                None => from == SearchScope::CurrentFile,
            }
        &&& post == spec_show(restored, next_scope)
    }
}

/// Whether a search run completed.
pub open spec fn spec_completed<R>(outcome: SearchRunOutcome<R>) -> bool {
    outcome is Completed
}

impl<P: Copy> Workspace<P> {
    /// Starts a search of the active file for `text`: not without an active file, nor before
    /// it is fully indexed. The running search is cancelled and the tab's search revision
    /// bumped, so that an older answer is stale.
    pub fn start_current_search(&mut self, text: String) -> (start: CurrentSearchStart)
        ensures
            spec_current_started(*old(self), *final(self), text@, start),
    {
        let ix = match self.active_ix {
            Some(ix) => if ix < self.documents.len() { ix } else { return CurrentSearchStart::NoDocument },
            None => return CurrentSearchStart::NoDocument,
        };
        if self.documents[ix].load_state != DocumentLoadState::Ready {
            return CurrentSearchStart::NotIndexed;
        }
        let query = SearchQueryPlan {
            text,
            case_sensitive: self.prefs.case_sensitive,
            regex: self.prefs.regex,
            max_results: self.prefs.app_settings.search_result_limit,
        };
        self.cancel_search();
        let revision = self.documents[ix].search_revision.saturating_add(1);
        self.documents[ix].search_revision = revision;
        let document_id = self.documents[ix].id;
        self.runs.running = Some((SearchTarget::Document(document_id), revision));
        self.runs.activity = Activity::Searching;
        CurrentSearchStart::Started { document_id, revision, query }
    }

    /// Starts a search for `text` in the active scope, once the suggestions are closed.
    pub fn start_search(&mut self, text: String) -> (start: SearchStart)
        ensures
            ({
                let closed = Workspace {
                    search_autocomplete_mode: SearchAutocompleteMode::Closed,
                    search_suggestion_ix: None,
                    ..*old(self)
                };
                match old(self).global_search.scope {
                    SearchScope::CurrentFile => start matches SearchStart::CurrentFile(s)
                        && spec_current_started(closed, *final(self), text@, s),
                    SearchScope::AllOpenFiles => start matches SearchStart::AllOpenFiles(s)
                        && spec_global_started(closed, *final(self), text@, s),
                    SearchScope::Directory => start matches SearchStart::Directory(s)
                        && spec_directory_started(closed, *final(self), text@, s),
                }
            }),
    {
        self.close_search_autocomplete();
        match self.global_search.scope {
            SearchScope::CurrentFile => SearchStart::CurrentFile(self.start_current_search(text)),
            SearchScope::AllOpenFiles => SearchStart::AllOpenFiles(self.start_global_search(text)),
            SearchScope::Directory => SearchStart::Directory(self.start_directory_search(text)),
        }
    }

    /// Takes the answer of the search of `document_id` started at `revision`, run with
    /// `query`: dropped where another search started since; not installed where the tab was
    /// closed or its search revision moved on; else the search is finished, and completed
    /// results are installed and shown with their query, while a changed file or a failure
    /// leaves the workspace in error.
    pub fn finish_current_search<R>(
        &mut self,
        document_id: u64,
        revision: u64,
        query: QueryOptions,
        outcome: SearchRunOutcome<R>,
    ) -> (finish: CurrentSearchFinish<R>)
        ensures
            spec_current_finished(*old(self), *final(self), document_id, revision, query, outcome, finish),
    {
        if !self.search_is_current(SearchTarget::Document(document_id), revision) {
            return CurrentSearchFinish::Stale;
        }
        let completed = match &outcome {
            SearchRunOutcome::Completed(_) => true,
            _ => false,
        };
        let ix = match tab_ix(&self.documents, document_id) {
            Some(ix) => ix,
            None => return CurrentSearchFinish::Dropped { record_history: completed },
        };
        if self.documents[ix].search_revision != revision {
            return CurrentSearchFinish::Dropped { record_history: completed };
        }
        let ghost pre = *self;
        self.runs.running = None;
        match outcome {
            SearchRunOutcome::Completed(r) => {
                self.documents[ix].search_query = query;
                self.documents[ix].results_visible = true;
                self.runs.activity = Activity::Ready;
                assert(self.documents@ =~= pre.documents@.update(ix as int, DocumentTab {
                    search_query: query,
                    results_visible: true,
                    ..pre.documents@[ix as int]
                }));
                CurrentSearchFinish::Installed(r)
            },
            SearchRunOutcome::Cancelled => {
                self.runs.activity = Activity::Ready;
                CurrentSearchFinish::Cancelled
            },
            SearchRunOutcome::SourceChanged => {
                self.runs.activity = Activity::Error;
                CurrentSearchFinish::SourceChanged
            },
            SearchRunOutcome::Failed(message) => {
                self.runs.activity = Activity::Error;
                CurrentSearchFinish::Failed(message)
            },
        }
    }

    /// Keeps `draft` as the query text of the active scope's session.
    fn save_session_draft(&mut self, draft: String)
        ensures
            final(self).documents@ == spec_saved_documents(*old(self), draft),
            final(self).global_search == spec_saved_global(old(self).global_search, draft),
            *final(self) == (Workspace { documents: final(self).documents, global_search: final(self).global_search, ..*old(self) }),
    {
        match self.global_search.scope {
            SearchScope::CurrentFile => {
                if let Some(ix) = self.active_ix {
                    if ix < self.documents.len() {
                        self.documents[ix].search_query.text = draft;
                    }
                }
            },
            SearchScope::AllOpenFiles => self.global_search.query.text = draft,
            SearchScope::Directory => self.global_search.directory_query.text = draft,
        }
    }

    /// Makes `next_scope` the active scope: the toolbar options show its session, and the
    /// active log region moves off the multi-file results where they are left. Returns the
    /// query text the input shows.
    fn show_scope_session(&mut self, next_scope: SearchScope) -> (text: String)
        ensures
            text@ == spec_shown_query(*old(self), next_scope).0,
            *final(self) == spec_show(*old(self), next_scope),
    {
        let active = match self.active_ix {
            Some(ix) => if ix < self.documents.len() { Some(ix) } else { None },
            None => None,
        };
        if next_scope == SearchScope::CurrentFile && self.active_log_region == LogRegion::GlobalResults {
            self.active_log_region = match active {
                Some(ix) => if self.documents[ix].results_visible && self.documents[ix].selection_table == SelectionTable::Results {
                    LogRegion::CurrentResults
                } else {
                    LogRegion::Body
                },
                None => LogRegion::Body,
            };
        }
        let (text, case_sensitive, regex) = match next_scope {
            SearchScope::CurrentFile => match active {
                Some(ix) => {
                    let q = &self.documents[ix].search_query;
                    (q.text.clone(), q.case_sensitive, q.regex)
                },
                None => (
                    String::new(),
                    self.prefs.app_settings.default_case_sensitive,
                    self.prefs.app_settings.default_use_regex,
                ),
            },
            SearchScope::AllOpenFiles => {
                let q = &self.global_search.query;
                (q.text.clone(), q.case_sensitive, q.regex)
            },
            SearchScope::Directory => {
                let q = &self.global_search.directory_query;
                (q.text.clone(), q.case_sensitive, q.regex)
            },
        };
        self.global_search.scope = next_scope;
        self.prefs.case_sensitive = case_sensitive;
        self.prefs.regex = regex;
        text
    }

    /// Cancels a running multi-file search, whether there was one, and resets the search
    /// input.
    fn leave_scope(&mut self) -> (multi: bool)
        ensures
            multi == spec_multi_file_running(old(self).runs),
            *final(self) == (Workspace {
                runs: if multi { spec_cancelled(old(self).runs) } else { old(self).runs },
                ..crate::search_clearing::spec_input_reset(*old(self))
            }),
    {
        let multi = match self.runs.running {
            Some((SearchTarget::AllOpenFiles, _)) => true,
            Some((SearchTarget::Directory, _)) => true,
            _ => false,
        };
        if multi {
            self.cancel_search();
        }
        self.reset_search_history_navigation();
        self.close_search_autocomplete();
        multi
    }

    /// Switches the search scope to `next_scope`, where it is another one. A running search
    /// over all open files or a directory is cancelled, wheel browsing of the history stops
    /// and the suggestions close. `draft`, the text the input holds, is kept as the query text
    /// of the session left; the input and the toolbar options then show the new scope's
    /// session, and leaving the multi-file results for the current file moves the active log
    /// region to that file. The left multi-file scope's context is taken (with the draft) and
    /// handed back; an entered multi-file scope gets `entered`, the context it kept, back first.
    #[verifier::rlimit(80)]
    pub fn set_search_scope(&mut self, next_scope: SearchScope, draft: String, entered: RetainedContext) -> (switch: Option<ScopeSwitch>)
        ensures
            spec_scope_switched(*old(self), *final(self), next_scope, draft, entered, switch),
    {
        let from = self.global_search.scope;
        if from == next_scope {
            return None;
        }
        let multi = self.leave_scope();
        self.save_session_draft(draft);
        let left_context = self.capture_retained_global_context(from);
        self.restore_retained_global_context(next_scope, entered);
        let text = self.show_scope_session(next_scope);
        Some(ScopeSwitch { text, cancelled_search: multi, left_context })
    }

    /// Gives the active session's query the toolbar's options; the tab of a current-file
    /// session, where there is one.
    #[verifier::rlimit(40)]
    fn set_session_options(&mut self, case_sensitive: bool, regex: bool) -> (checkpoint: Option<u64>)
        ensures
            checkpoint == spec_options_checkpoint(*old(self)),
            final(self).documents@ == spec_optioned_documents(*old(self), case_sensitive, regex),
            final(self).global_search == spec_optioned_global(old(self).global_search, case_sensitive, regex),
            *final(self) == (Workspace { documents: final(self).documents, global_search: final(self).global_search, ..*old(self) }),
    {
        match self.global_search.scope {
            SearchScope::CurrentFile => match self.active_ix {
                Some(ix) => if ix < self.documents.len() {
                    self.documents[ix].search_query.set_options(case_sensitive, regex);
                    Some(self.documents[ix].id)
                } else {
                    None
                },
                None => None,
            },
            SearchScope::AllOpenFiles => {
                self.global_search.query.set_options(case_sensitive, regex);
                None
            },
            SearchScope::Directory => {
                self.global_search.directory_query.set_options(case_sensitive, regex);
                None
            },
        }
    }

    /// Cancels the running search, whether one was running, and sets the toolbar's options.
    fn cancel_with_options(&mut self, case_sensitive: bool, regex: bool) -> (cancelled: bool)
        ensures
            cancelled == old(self).runs.running is Some,
            *final(self) == (Workspace {
                runs: spec_cancelled(old(self).runs),
                prefs: Preferences { case_sensitive, regex, ..old(self).prefs },
                ..*old(self)
            }),
    {
        let cancelled = self.cancel_search();
        self.prefs.case_sensitive = case_sensitive;
        self.prefs.regex = regex;
        cancelled
    }

    /// Sets the toolbar's case and regex options for the active search session only, where
    /// they change: the running search is cancelled, and the session's query takes the
    /// options. A current-file session is saved with its tab's checkpoint, a multi-file one
    /// with the workspace search state.
    #[verifier::rlimit(60)]
    pub fn set_active_search_options(&mut self, case_sensitive: bool, regex: bool) -> (change: Option<OptionsChange>)
        ensures
            spec_options_set(*old(self), *final(self), case_sensitive, regex, change),
    {
        if self.prefs.case_sensitive == case_sensitive && self.prefs.regex == regex {
            return None;
        }
        let cancelled_search = self.cancel_with_options(case_sensitive, regex);
        let checkpoint = self.set_session_options(case_sensitive, regex);
        Some(OptionsChange { cancelled_search, checkpoint })
    }

    /// Gives the active session's query `text` and the toolbar's regex option; the tab of a
    /// current-file session, where there is one.
    #[verifier::rlimit(40)]
    fn set_session_filter(&mut self, text: String) -> (checkpoint: Option<u64>)
        ensures
            checkpoint == spec_options_checkpoint(*old(self)),
            final(self).documents@ == spec_filtered_documents(*old(self), text, old(self).prefs.regex),
            final(self).global_search == spec_filtered_global(old(self).global_search, text, old(self).prefs.regex),
            *final(self) == (Workspace { documents: final(self).documents, global_search: final(self).global_search, ..*old(self) }),
    {
        let regex = self.prefs.regex;
        match self.global_search.scope {
            SearchScope::CurrentFile => match self.active_ix {
                Some(ix) => if ix < self.documents.len() {
                    self.documents[ix].search_query.text = text;
                    self.documents[ix].search_query.regex = regex;
                    Some(self.documents[ix].id)
                } else {
                    None
                },
                None => None,
            },
            SearchScope::AllOpenFiles => {
                self.global_search.query.text = text;
                self.global_search.query.regex = regex;
                None
            },
            SearchScope::Directory => {
                self.global_search.directory_query.text = text;
                self.global_search.directory_query.regex = regex;
                None
            },
        }
    }

    /// Puts the query `next`, in which a predefined filter was checked or unchecked, into the
    /// search input: wheel browsing of the history stops and the suggestions close. Checking a
    /// regex filter turns on regex matching, as `set_active_search_options` does; the active
    /// session's query then takes `next` and the toolbar's regex option.
    pub fn choose_predefined_filter(&mut self, next: String, checked: bool, filter_uses_regex: bool) -> (choice: FilterChoice)
        ensures
            ({
                let reset = crate::search_clearing::spec_input_reset(*old(self));
                let optioned = if checked && filter_uses_regex {
                    exists|mid: Workspace<P>| spec_options_set(reset, mid, reset.prefs.case_sensitive, true, choice.options)
                        && spec_filter_installed(mid, *final(self), next, choice.checkpoint)
                } else {
                    choice.options is None && spec_filter_installed(reset, *final(self), next, choice.checkpoint)
                };
                optioned
            }),
    {
        let ghost reset = crate::search_clearing::spec_input_reset(*self);
        self.reset_search_history_navigation();
        self.close_search_autocomplete();
        assert(*self == reset);
        let options = if checked && filter_uses_regex {
            let case_sensitive = self.prefs.case_sensitive;
            self.set_active_search_options(case_sensitive, true)
        } else {
            None
        };
        let ghost mid = *self;
        let checkpoint = self.set_session_filter(next);
        proof {
            assert(spec_filter_installed(mid, *self, next, checkpoint));
            if checked && filter_uses_regex {
                assert(spec_options_set(reset, mid, reset.prefs.case_sensitive, true, options));
            }
        }
        FilterChoice { options, checkpoint }
    }

    /// Runs the active multi-file session's persisted search again, where one waits to be
    /// restored and nothing is searching or being opened: an all-open-files search once files
    /// are open and the selected ones are fully indexed, a directory search once a directory
    /// is set. The search runs with the session's query text.
    pub fn maybe_restore_persisted_search(&mut self) -> (restore: PersistedRestore)
        ensures
            ({
                let gs = old(self).global_search;
                let idle = old(self).runs.running is None && !old(self).files.open_task_running;
                let unindexed = exists|i: int| 0 <= i < old(self).documents.len()
                    && gs.selected_documents@.contains(#[trigger] old(self).documents@[i].id)
                    && old(self).documents@[i].load_state != DocumentLoadState::Ready;
                match gs.scope {
                    SearchScope::AllOpenFiles => if idle && gs.pending_all_open_restore is Some
                        && old(self).documents.len() > 0 && !unindexed {
                        restore matches PersistedRestore::AllOpenFiles { text, start }
                            && text@ == gs.query.text@
                            && spec_global_started(*old(self), *final(self), text@, start)
                    } else {
                        restore is Nothing && *final(self) == *old(self)
                    },
                    SearchScope::Directory => if idle && gs.pending_directory_restore is Some && gs.directory_options.directory is Some {
                        restore matches PersistedRestore::Directory { text, start }
                            && text@ == gs.directory_query.text@
                            && spec_directory_started(*old(self), *final(self), text@, start)
                    } else {
                        restore is Nothing && *final(self) == *old(self)
                    },
                    SearchScope::CurrentFile => restore is Nothing && *final(self) == *old(self),
                }
            }),
    {
        if self.runs.running.is_some() || self.files.open_task_running {
            return PersistedRestore::Nothing;
        }
        match self.global_search.scope {
            SearchScope::AllOpenFiles => {
                if self.global_search.pending_all_open_restore.is_none() || self.documents.len() == 0
                    || crate::search_runs::selected_unindexed(&self.documents, &self.global_search.selected_documents) {
                    return PersistedRestore::Nothing;
                }
                let text = self.global_search.query.text.clone();
                let start = self.start_global_search(text.clone());
                PersistedRestore::AllOpenFiles { text, start }
            },
            SearchScope::Directory => {
                if self.global_search.pending_directory_restore.is_none() || self.global_search.directory_options.directory.is_none() {
                    return PersistedRestore::Nothing;
                }
                let text = self.global_search.directory_query.text.clone();
                let start = self.start_directory_search(text.clone());
                PersistedRestore::Directory { text, start }
            },
            SearchScope::CurrentFile => PersistedRestore::Nothing,
        }
    }
}

/// How the active session's query takes `next` and the toolbar's regex option, from `pre` to
/// `post`, with the tab whose checkpoint is saved.
pub open spec fn spec_filter_installed<P: Copy>(pre: Workspace<P>, post: Workspace<P>, next: String, checkpoint: Option<u64>) -> bool {
    &&& checkpoint == spec_options_checkpoint(pre)
    &&& post.documents@ == spec_filtered_documents(pre, next, pre.prefs.regex)
    &&& post == (Workspace {
        documents: post.documents,
        global_search: spec_filtered_global(pre.global_search, next, pre.prefs.regex),
        ..pre
    })
}

} // verus!
