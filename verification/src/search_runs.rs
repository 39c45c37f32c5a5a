//! Running the multi-file searches: when a search may start, what it searches, which answer
//! of a background search is still wanted, and what its outcome installs.
use vstd::prelude::*;
use crate::preferences::QueryOptions;
use crate::regions::{spec_sat_inc, DocumentLoadState, SearchScope};
use crate::workspace::{DocumentTab, GlobalResultEntry, GlobalSearchState, Workspace};

verus! {

/// What the workspace is doing.
#[derive(Clone, Copy, Debug, PartialEq, Eq, Structural)]
pub enum Activity {
    Ready,
    Searching,
    /// The last search failed.
    Error,
}

/// What a search runs over.
#[derive(Clone, Copy, Debug, PartialEq, Eq, Structural)]
pub enum SearchTarget {
    Document(u64),
    AllOpenFiles,
    Directory,
}

/// The running search: its target and revision; an answer for another one is stale.
#[derive(Clone, Copy, Debug)]
pub struct SearchRuns {
    pub running: Option<(SearchTarget, u64)>,
    pub activity: Activity,
    /// Identifies the running preparation of a search tab's frame.
    pub activation_revision: u64,
    /// A search tab's frame is being prepared.
    pub activation_running: bool,
}

/// A search query with the options it runs with.
#[derive(Clone, Debug)]
pub struct SearchQueryPlan {
    pub text: String,
    pub case_sensitive: bool,
    pub regex: bool,
    pub max_results: Option<usize>,
}

/// The query a session persists: its text and options, without the match limit.
pub fn persisted_search_query(query: &SearchQueryPlan) -> (persisted: QueryOptions)
    ensures
        persisted.text@ == query.text@,
        persisted.case_sensitive == query.case_sensitive,
        persisted.regex == query.regex,
{
    QueryOptions { text: query.text.clone(), case_sensitive: query.case_sensitive, regex: query.regex }
}

/// A persisted query restored with the match limit the settings give now.
pub fn restored_search_query(query: &QueryOptions, fallback_limit: Option<usize>) -> (restored: SearchQueryPlan)
    ensures
        restored.text@ == query.text@,
        restored.case_sensitive == query.case_sensitive,
        restored.regex == query.regex,
        restored.max_results == fallback_limit,
{
    SearchQueryPlan { text: query.text.clone(), case_sensitive: query.case_sensitive, regex: query.regex, max_results: fallback_limit }
}

/// How an all-open-files search starts.
#[derive(Clone, Debug)]
pub enum GlobalSearchStart {
    /// No file is open: nothing happens.
    NoFiles,
    /// No file is selected for the search.
    NoFilesSelected,
    /// A selected file is not fully indexed yet.
    NotIndexed,
    /// The search runs in the background over `targets` (the selected tabs, in tab order).
    Started { revision: u64, query: SearchQueryPlan, targets: Vec<GlobalResultEntry>, preserve_viewport: bool },
}

/// How a directory search starts.
#[derive(Clone, Debug)]
pub enum DirectorySearchStart {
    /// No directory is set: the user is asked to set one.
    NoDirectory,
    /// The search runs in the background over the directory.
    Started { revision: u64, query: SearchQueryPlan, directory: String, preserve_viewport: bool },
}

/// How the search of one file ended.
#[derive(Clone, Debug)]
pub enum SearchRunOutcome<R> {
    Completed(R),
    /// The file changed while it was searched.
    SourceChanged,
    Cancelled,
    /// The file could not be searched.
    Failed(String),
}

/// Why a file of a multi-file search has no results.
#[derive(Clone, Debug)]
pub enum SearchFailure {
    SourceChanged,
    Error(String),
}

/// The result of one file of a multi-file search.
#[derive(Clone, Debug)]
pub struct FileSearchResult<R> {
    pub entry: GlobalResultEntry,
    pub result: Option<R>,
    pub failure: Option<SearchFailure>,
}

/// What a finished all-open-files search does.
#[derive(Clone, Debug)]
pub enum GlobalSearchFinish<R> {
    /// Another search started meanwhile: the answer is dropped.
    Stale,
    /// The search could not run; the message is shown.
    Failed(String),
    /// A file's search was cancelled: nothing is installed.
    Cancelled,
    /// The results of the files still open are installed.
    Installed(Vec<FileSearchResult<R>>),
}

/// A notice shown after a directory search.
#[derive(Clone, Copy, Debug, PartialEq, Eq, Structural)]
pub enum DirectoryNotice {
    Nothing,
    /// No file of the searched types is in the directory.
    NoMatchingFiles,
    /// Some files or subdirectories could not be read.
    Unreadable { files: usize, directories: usize },
}

/// What a directory scan found.
#[derive(Clone, Debug)]
pub struct DirectoryScan<R> {
    pub cancelled: bool,
    /// The files kept, with their results.
    pub results: Vec<(GlobalResultEntry, R)>,
    pub file_count: usize,
    pub open_error_count: usize,
    pub unreadable_directory_count: usize,
}

/// What a finished directory search does.
#[derive(Clone, Debug)]
pub enum DirectorySearchFinish<R> {
    Stale,
    Failed(String),
    Cancelled,
    Installed { results: Vec<(GlobalResultEntry, R)>, notice: DirectoryNotice },
}

/// The query a search runs with: the typed text, the toolbar's options and the settings'
/// match limit.
pub open spec fn spec_query_of<P>(w: Workspace<P>, text: Seq<char>, query: SearchQueryPlan) -> bool {
    &&& query.text@ == text
    &&& query.case_sensitive == w.prefs.case_sensitive
    &&& query.regex == w.prefs.regex
    &&& query.max_results == w.prefs.app_settings.search_result_limit
}

/// A persisted restore is dropped once a search with another text starts.
pub open spec fn spec_keep_restore(pending: Option<String>, text: Seq<char>) -> Option<String> {
    match pending {
        Some(t) => if t@ == text { Some(t) } else { None },
        None => None,
    }
}

/// The selected tabs of an all-open-files search, in tab order.
pub open spec fn spec_selected_targets(documents: Seq<DocumentTab>, selected: Seq<u64>) -> Seq<GlobalResultEntry>
    decreases documents.len(),
{
    if documents.len() == 0 {
        Seq::empty()
    } else {
        let rest = spec_selected_targets(documents.drop_last(), selected);
        let tab = documents.last();
        if selected.contains(tab.id) {
            rest.push(GlobalResultEntry { document_id: tab.id, path_key: tab.path_key, snapshot: tab.snapshot })
        } else {
            rest
        }
    }
}

/// The results an all-open-files search installs: those of files still open, with a failure
/// where a file changed or failed; a cancelled file installs nothing.
pub open spec fn spec_installed_results<R>(outcomes: Seq<(GlobalResultEntry, SearchRunOutcome<R>)>, open: Seq<u64>) -> Seq<(u64, Option<R>, bool)>
    decreases outcomes.len(),
{
    if outcomes.len() == 0 {
        Seq::empty()
    } else {
        let rest = spec_installed_results(outcomes.drop_last(), open);
        let (entry, outcome) = outcomes.last();
        if !open.contains(entry.document_id) {
            rest
        } else {
            match outcome {
                SearchRunOutcome::Completed(r) => rest.push((entry.document_id, Some(r), false)),
                SearchRunOutcome::Cancelled => rest,
                _ => rest.push((entry.document_id, None, true)),
            }
        }
    }
}

/// The ids, results and failure flags of installed results.
pub open spec fn spec_result_views<R>(results: Seq<FileSearchResult<R>>) -> Seq<(u64, Option<R>, bool)> {
    results.map_values(|r: FileSearchResult<R>| (r.entry.document_id, r.result, r.failure is Some))
}

/// The ids of open tabs.
pub open spec fn spec_tab_ids(documents: Seq<DocumentTab>) -> Seq<u64> {
    documents.map_values(|t: DocumentTab| t.id)
}

/// How an all-open-files search for `text` takes the workspace from `pre` to `post`: not
/// without open files, without a selected file, or while a selected file is not fully indexed;
/// else the running search is cancelled, the multi-file results show and keep their viewport
/// where they showed, and a persisted restore with another text is dropped.
pub open spec fn spec_global_started<P>(pre: Workspace<P>, post: Workspace<P>, text: Seq<char>, start: GlobalSearchStart) -> bool {
    let gs = pre.global_search;
    let unindexed = exists|i: int| 0 <= i < pre.documents.len()
        && gs.selected_documents@.contains(#[trigger] pre.documents@[i].id)
        && pre.documents@[i].load_state != DocumentLoadState::Ready;
    match start {
        GlobalSearchStart::NoFiles => pre.documents.len() == 0 && post == pre,
        GlobalSearchStart::NoFilesSelected => pre.documents.len() > 0 && gs.selected_documents.len() == 0
            && post == pre,
        GlobalSearchStart::NotIndexed => pre.documents.len() > 0 && gs.selected_documents.len() > 0
            && unindexed && post == pre,
        GlobalSearchStart::Started { revision, query, targets, preserve_viewport } => {
            &&& pre.documents.len() > 0 && gs.selected_documents.len() > 0 && !unindexed
            &&& spec_query_of(pre, text, query)
            &&& revision == spec_sat_inc(gs.revision)
            &&& targets@ == spec_selected_targets(pre.documents@, gs.selected_documents@)
            &&& preserve_viewport == gs.results_visible
            &&& post.runs == (SearchRuns { running: Some((SearchTarget::AllOpenFiles, revision)), activity: Activity::Searching, ..pre.runs })
            &&& post.global_search == (GlobalSearchState {
                revision,
                results_visible: true,
                pending_all_open_restore: spec_keep_restore(gs.pending_all_open_restore, text),
                ..gs
            })
            &&& post == (Workspace { runs: post.runs, global_search: post.global_search, ..pre })
        },
    }
}

/// How a directory search for `text` takes the workspace from `pre` to `post`: not before a
/// directory is set; else the running search is cancelled, the multi-file results show and
/// keep their viewport where they showed, and a persisted restore with another text is
/// dropped.
pub open spec fn spec_directory_started<P>(pre: Workspace<P>, post: Workspace<P>, text: Seq<char>, start: DirectorySearchStart) -> bool {
    let gs = pre.global_search;
    match start {
        DirectorySearchStart::NoDirectory => gs.directory_options.directory is None && post == pre,
        DirectorySearchStart::Started { revision, query, directory, preserve_viewport } => {
            &&& gs.directory_options.directory matches Some(d) && d@ == directory@
            &&& spec_query_of(pre, text, query)
            &&& revision == spec_sat_inc(gs.revision)
            &&& preserve_viewport == gs.results_visible
            &&& post.runs == (SearchRuns { running: Some((SearchTarget::Directory, revision)), activity: Activity::Searching, ..pre.runs })
            &&& post.global_search == (GlobalSearchState {
                revision,
                results_visible: true,
                pending_directory_restore: spec_keep_restore(gs.pending_directory_restore, text),
                ..gs
            })
            &&& post == (Workspace { runs: post.runs, global_search: post.global_search, ..pre })
        },
    }
}

fn contains_id(ids: &Vec<u64>, id: u64) -> (found: bool)
    ensures
        found == ids@.contains(id),
{
    let mut i: usize = 0;
    while i < ids.len()
        invariant
            i <= ids.len(),
            forall|j: int| 0 <= j < i ==> ids@[j] != id,
        decreases ids.len() - i,
    {
        if ids[i] == id {
            assert(ids@[i as int] == id);
            return true;
        }
        i = i + 1;
    }
    false
}

fn tab_is_open(documents: &Vec<DocumentTab>, id: u64) -> (open: bool)
    ensures
        open == spec_tab_ids(documents@).contains(id),
{
    let ghost ids = spec_tab_ids(documents@);
    let mut i: usize = 0;
    while i < documents.len()
        invariant
            i <= documents.len(),
            ids == spec_tab_ids(documents@),
            forall|j: int| 0 <= j < i ==> ids[j] != id,
        decreases documents.len() - i,
    {
        if documents[i].id == id {
            assert(ids[i as int] == id);
            return true;
        }
        i = i + 1;
    }
    false
}

/// A file a directory search found is kept where it has matches, or where it is open (to
/// show that it has none).
pub fn directory_result_kept(has_matches: bool, path_open: bool) -> (kept: bool)
    ensures
        kept == (has_matches || path_open),
{
    has_matches || path_open
}

/// A file that could not be opened.
pub open spec fn spec_open_failed<R>() -> spec_fn(Result<Option<R>, String>) -> bool {
    |o: Result<Option<R>, String>| o is Err
}

/// A file that opened and is kept.
pub open spec fn spec_opened<R>() -> spec_fn(Result<Option<R>, String>) -> bool {
    |o: Result<Option<R>, String>| o matches Ok(Some(_))
}

/// The result of a file that opened.
pub open spec fn spec_opened_result<R>() -> spec_fn(Result<Option<R>, String>) -> R {
    |o: Result<Option<R>, String>| o->Ok_0->0
}

/// The files of a directory scan that opened, and how many could not be opened.
pub fn tally_directory_outcomes<R>(outcomes: Vec<Result<Option<R>, String>>) -> (tally: (Vec<R>, usize))
    ensures
        tally.1 == outcomes@.filter(spec_open_failed::<R>()).len(),
        tally.0@ == outcomes@.filter(spec_opened::<R>()).map_values(spec_opened_result::<R>()),
{
    let ghost all = outcomes@;
    let mut kept: Vec<R> = Vec::new();
    let mut errors: usize = 0;
    let n = outcomes.len();
    let mut rest = outcomes;
    let mut i: usize = 0;
    while rest.len() > 0
        invariant
            i + rest.len() == all.len(),
            all.len() == n,
            rest@ == all.skip(i as int),
            errors == all.take(i as int).filter(spec_open_failed::<R>()).len(),
            errors <= i,
            kept@ == all.take(i as int).filter(spec_opened::<R>()).map_values(spec_opened_result::<R>()),
        decreases rest.len(),
    {
        let outcome = rest.remove(0);
        proof {
            assert(outcome == all[i as int]);
            assert(all.take(i + 1) =~= all.take(i as int).push(all[i as int]));
            all.take(i as int).lemma_filter_push(all[i as int], spec_open_failed::<R>());
            all.take(i as int).lemma_filter_push(all[i as int], spec_opened::<R>());
            assert(rest@ =~= all.skip(i + 1));
        }
        match outcome {
            Ok(Some(r)) => {
                let ghost before = kept@;
                kept.push(r);
                assert(kept@ =~= before.push(spec_opened_result::<R>()(all[i as int])));
            },
            Ok(None) => {},
            Err(_) => {
                errors = errors + 1;
            },
        }
        i = i + 1;
    }
    proof { assert(all.take(i as int) =~= all); }
    (kept, errors)
}

/// Whether a file's search was cancelled.
fn any_cancelled<R>(outcomes: &Vec<(GlobalResultEntry, SearchRunOutcome<R>)>) -> (cancelled: bool)
    ensures
        cancelled == exists|i: int| 0 <= i < outcomes.len() && (#[trigger] outcomes@[i]).1 is Cancelled,
{
    let mut c: usize = 0;
    while c < outcomes.len()
        invariant
            c <= outcomes.len(),
            forall|j: int| 0 <= j < c ==> !((#[trigger] outcomes@[j]).1 is Cancelled),
        decreases outcomes.len() - c,
    {
        if let SearchRunOutcome::Cancelled = outcomes[c].1 {
            assert(outcomes@[c as int].1 is Cancelled);
            return true;
        }
        c = c + 1;
    }
    false
}

/// Whether a selected tab is not fully indexed.
pub(crate) fn selected_unindexed(documents: &Vec<DocumentTab>, selected: &Vec<u64>) -> (found: bool)
    ensures
        found == exists|i: int| 0 <= i < documents.len() && selected@.contains(#[trigger] documents@[i].id)
            && documents@[i].load_state != DocumentLoadState::Ready,
{
    let mut i: usize = 0;
    while i < documents.len()
        invariant
            i <= documents.len(),
            forall|j: int| 0 <= j < i ==> !(selected@.contains(#[trigger] documents@[j].id)
                && documents@[j].load_state != DocumentLoadState::Ready),
        decreases documents.len() - i,
    {
        if contains_id(selected, documents[i].id) && documents[i].load_state != DocumentLoadState::Ready {
            return true;
        }
        i = i + 1;
    }
    false
}

/// The selected tabs, in tab order.
fn selected_targets(documents: &Vec<DocumentTab>, selected: &Vec<u64>) -> (targets: Vec<GlobalResultEntry>)
    ensures
        targets@ == spec_selected_targets(documents@, selected@),
{
    let mut targets: Vec<GlobalResultEntry> = Vec::new();
    let mut k: usize = 0;
    while k < documents.len()
        invariant
            k <= documents.len(),
            targets@ == spec_selected_targets(documents@.take(k as int), selected@),
        decreases documents.len() - k,
    {
        let tab = &documents[k];
        proof {
            let taken = documents@.take(k + 1);
            assert(taken.drop_last() =~= documents@.take(k as int));
            assert(taken.last() == documents@[k as int]);
        }
        if contains_id(selected, tab.id) {
            targets.push(GlobalResultEntry { document_id: tab.id, path_key: tab.path_key.clone(), snapshot: tab.snapshot });
        }
        k = k + 1;
    }
    proof { assert(documents@.take(documents.len() as int) =~= documents@); }
    targets
}

impl<P: Copy> Workspace<P> {
    /// Cancels the running search; whether one was running. A workspace that was searching is
    /// ready again.
    pub fn cancel_search(&mut self) -> (was_active: bool)
        ensures
            was_active == old(self).runs.running is Some,
            final(self).runs == (SearchRuns {
                running: None,
                activity: if was_active && old(self).runs.activity == Activity::Searching {
                    Activity::Ready
                } else {
                    old(self).runs.activity
                },
                ..old(self).runs
            }),
            *final(self) == (Workspace { runs: final(self).runs, ..*old(self) }),
    {
        let was_active = self.runs.running.is_some();
        self.runs.running = None;
        if was_active && self.runs.activity == Activity::Searching {
            self.runs.activity = Activity::Ready;
        }
        was_active
    }

    /// Whether an answer for `target` at `revision` is still wanted.
    pub fn search_is_current(&self, target: SearchTarget, revision: u64) -> (current: bool)
        ensures
            current == (self.runs.running == Some((target, revision))),
    {
        match self.runs.running {
            Some((t, r)) => t == target && r == revision,
            None => false,
        }
    }

    /// The query text a search runs with.
    fn query_plan(&self, text: String) -> (query: SearchQueryPlan)
        ensures
            spec_query_of(*self, text@, query),
    {
        SearchQueryPlan {
            text,
            case_sensitive: self.prefs.case_sensitive,
            regex: self.prefs.regex,
            max_results: self.prefs.app_settings.search_result_limit,
        }
    }

    /// Starts a search of the selected open files for `text`: not without open files, without
    /// a selected file, or while a selected file is not fully indexed. The running search is
    /// cancelled, the multi-file results show and keep their viewport where they showed, and
    /// a persisted restore with another text is dropped.
    #[verifier::rlimit(60)]
    pub fn start_global_search(&mut self, text: String) -> (start: GlobalSearchStart)
        ensures
            spec_global_started(*old(self), *final(self), text@, start),
    {
        if self.documents.len() == 0 {
            return GlobalSearchStart::NoFiles;
        }
        if self.global_search.selected_documents.len() == 0 {
            return GlobalSearchStart::NoFilesSelected;
        }
        if selected_unindexed(&self.documents, &self.global_search.selected_documents) {
            return GlobalSearchStart::NotIndexed;
        }
        let keep = match &self.global_search.pending_all_open_restore {
            Some(t) => *t == text,
            None => false,
        };
        if !keep {
            self.global_search.pending_all_open_restore = None;
        }
        let preserve_viewport = self.global_search.results_visible;
        let query = self.query_plan(text);
        self.cancel_search();
        self.global_search.revision = self.global_search.revision.saturating_add(1);
        let revision = self.global_search.revision;
        let targets = selected_targets(&self.documents, &self.global_search.selected_documents);
        self.runs.running = Some((SearchTarget::AllOpenFiles, revision));
        self.global_search.results_visible = true;
        self.runs.activity = Activity::Searching;
        GlobalSearchStart::Started { revision, query, targets, preserve_viewport }
    }

    /// Takes the answer of an all-open-files search started at `revision`: dropped where
    /// another search started since; a failure leaves the workspace in error; a cancelled file
    /// installs nothing; else the results of the files still open are installed as the
    /// multi-file results, with the query.
    pub fn finish_global_search<R>(
        &mut self,
        revision: u64,
        query: QueryOptions,
        outcome: Result<Vec<(GlobalResultEntry, SearchRunOutcome<R>)>, String>,
    ) -> (finish: GlobalSearchFinish<R>)
        ensures
            ({
                let current = old(self).runs.running == Some((SearchTarget::AllOpenFiles, revision))
                    && old(self).global_search.revision == revision;
                if !current {
                    finish is Stale && *final(self) == *old(self)
                } else {
                    match outcome {
                        Err(message) => finish == GlobalSearchFinish::<R>::Failed(message)
                            && *final(self) == (Workspace { runs: SearchRuns { running: None, activity: Activity::Error, ..old(self).runs }, ..*old(self) }),
                        Ok(outcomes) => if exists|i: int| 0 <= i < outcomes.len() && (#[trigger] outcomes@[i]).1 is Cancelled {
                            finish is Cancelled
                                && *final(self) == (Workspace { runs: SearchRuns { running: None, activity: Activity::Ready, ..old(self).runs }, ..*old(self) })
                        } else {
                            &&& finish matches GlobalSearchFinish::Installed(results)
                                && spec_result_views(results@) == spec_installed_results(outcomes@, spec_tab_ids(old(self).documents@))
                                && final(self).global_search.results@ == results@.map_values(|r: FileSearchResult<R>| r.entry)
                            &&& final(self).runs == (SearchRuns { running: None, activity: Activity::Ready, ..old(self).runs })
                            &&& final(self).global_search == (GlobalSearchState {
                                results: final(self).global_search.results,
                                result_scope: Some(SearchScope::AllOpenFiles),
                                query,
                                ..old(self).global_search
                            })
                            &&& *final(self) == (Workspace { runs: final(self).runs, global_search: final(self).global_search, ..*old(self) })
                        },
                    }
                }
            }),
    {
        if !(self.search_is_current(SearchTarget::AllOpenFiles, revision) && self.global_search.revision == revision) {
            return GlobalSearchFinish::Stale;
        }
        self.runs.running = None;
        let outcomes = match outcome {
            Err(message) => {
                self.runs.activity = Activity::Error;
                return GlobalSearchFinish::Failed(message);
            },
            Ok(outcomes) => outcomes,
        };
        if any_cancelled(&outcomes) {
            self.runs.activity = Activity::Ready;
            return GlobalSearchFinish::Cancelled;
        }
        let ghost all = outcomes@;
        let ghost open = spec_tab_ids(self.documents@);
        let mut results: Vec<FileSearchResult<R>> = Vec::new();
        let mut entries: Vec<GlobalResultEntry> = Vec::new();
        let n = outcomes.len();
        let mut rest = outcomes;
        let mut i: usize = 0;
        while rest.len() > 0
            invariant
                i + rest.len() == all.len(),
                all.len() == n,
                rest@ == all.skip(i as int),
                forall|j: int| 0 <= j < all.len() ==> !((#[trigger] all[j]).1 is Cancelled),
                open == spec_tab_ids(self.documents@),
                spec_result_views(results@) == spec_installed_results(all.take(i as int), open),
                entries@ == results@.map_values(|r: FileSearchResult<R>| r.entry),
            decreases rest.len(),
        {
            let (entry, outcome) = rest.remove(0);
            proof {
                assert(all.take(i + 1).drop_last() =~= all.take(i as int));
                assert(all.take(i + 1).last() == all[i as int]);
                assert(rest@ =~= all.skip(i + 1));
            }
            let ghost before = results@;
            if tab_is_open(&self.documents, entry.document_id) {
                let (result, failure) = match outcome {
                    SearchRunOutcome::Completed(r) => (Some(r), None),
                    SearchRunOutcome::SourceChanged => (None, Some(SearchFailure::SourceChanged)),
                    SearchRunOutcome::Failed(message) => (None, Some(SearchFailure::Error(message))),
                    SearchRunOutcome::Cancelled => {
                        assert(false);
                        (None, None)
                    },
                };
                let copy = GlobalResultEntry { document_id: entry.document_id, path_key: entry.path_key.clone(), snapshot: entry.snapshot };
                results.push(FileSearchResult { entry, result, failure });
                entries.push(copy);
                proof {
                    assert(spec_result_views(results@) =~= spec_result_views(before).push(spec_result_views(results@).last()));
                    assert(entries@ =~= results@.map_values(|r: FileSearchResult<R>| r.entry));
                }
            }
            i = i + 1;
        }
        proof {
            assert(all.take(i as int) =~= all);
            assert(!exists|j: int| 0 <= j < all.len() && (#[trigger] all[j]).1 is Cancelled);
        }
        self.global_search.results = entries;
        self.global_search.result_scope = Some(SearchScope::AllOpenFiles);
        self.global_search.query = query;
        self.runs.activity = Activity::Ready;
        GlobalSearchFinish::Installed(results)
    }

    /// Starts a directory search for `text`: not before a directory is set. The running
    /// search is cancelled, the multi-file results show and keep their viewport where they
    /// showed, and a persisted restore with another text is dropped.
    #[verifier::rlimit(40)]
    pub fn start_directory_search(&mut self, text: String) -> (start: DirectorySearchStart)
        ensures
            spec_directory_started(*old(self), *final(self), text@, start),
    {
        let directory = match &self.global_search.directory_options.directory {
            Some(d) => d.clone(),
            None => return DirectorySearchStart::NoDirectory,
        };
        let keep = match &self.global_search.pending_directory_restore {
            Some(t) => *t == text,
            None => false,
        };
        if !keep {
            self.global_search.pending_directory_restore = None;
        }
        let preserve_viewport = self.global_search.results_visible;
        let query = self.query_plan(text);
        self.cancel_search();
        self.global_search.revision = self.global_search.revision.saturating_add(1);
        let revision = self.global_search.revision;
        self.runs.running = Some((SearchTarget::Directory, revision));
        self.global_search.results_visible = true;
        self.runs.activity = Activity::Searching;
        DirectorySearchStart::Started { revision, query, directory, preserve_viewport }
    }

    /// Takes the answer of a directory search started at `revision`: dropped where another
    /// search started since; a failure leaves the workspace in error; a cancelled scan installs
    /// nothing; else the files found are installed as the multi-file results, with the query,
    /// and a notice tells of an empty directory or of unreadable files and subdirectories.
    pub fn finish_directory_search<R>(
        &mut self,
        revision: u64,
        query: QueryOptions,
        outcome: Result<DirectoryScan<R>, String>,
    ) -> (finish: DirectorySearchFinish<R>)
        ensures
            ({
                let current = old(self).runs.running == Some((SearchTarget::Directory, revision))
                    && old(self).global_search.revision == revision;
                if !current {
                    finish is Stale && *final(self) == *old(self)
                } else {
                    match outcome {
                        Err(message) => finish == DirectorySearchFinish::<R>::Failed(message)
                            && *final(self) == (Workspace { runs: SearchRuns { running: None, activity: Activity::Error, ..old(self).runs }, ..*old(self) }),
                        Ok(scan) => if scan.cancelled {
                            finish is Cancelled
                                && *final(self) == (Workspace { runs: SearchRuns { running: None, activity: Activity::Ready, ..old(self).runs }, ..*old(self) })
                        } else {
                            &&& finish matches DirectorySearchFinish::Installed { results, notice }
                                && results@ == scan.results@
                                && notice == if scan.file_count == 0 {
                                    DirectoryNotice::NoMatchingFiles
                                } else if scan.open_error_count > 0 || scan.unreadable_directory_count > 0 {
                                    DirectoryNotice::Unreadable { files: scan.open_error_count, directories: scan.unreadable_directory_count }
                                } else {
                                    DirectoryNotice::Nothing
                                }
                                && final(self).global_search.results@ == scan.results@.map_values(|r: (GlobalResultEntry, R)| r.0)
                            &&& final(self).runs == (SearchRuns { running: None, activity: Activity::Ready, ..old(self).runs })
                            &&& final(self).global_search == (GlobalSearchState {
                                results: final(self).global_search.results,
                                result_scope: Some(SearchScope::Directory),
                                directory_query: query,
                                ..old(self).global_search
                            })
                            &&& *final(self) == (Workspace { runs: final(self).runs, global_search: final(self).global_search, ..*old(self) })
                        },
                    }
                }
            }),
    {
        if !(self.search_is_current(SearchTarget::Directory, revision) && self.global_search.revision == revision) {
            return DirectorySearchFinish::Stale;
        }
        self.runs.running = None;
        let scan = match outcome {
            Err(message) => {
                self.runs.activity = Activity::Error;
                return DirectorySearchFinish::Failed(message);
            },
            Ok(scan) => scan,
        };
        if scan.cancelled {
            self.runs.activity = Activity::Ready;
            return DirectorySearchFinish::Cancelled;
        }
        let notice = if scan.file_count == 0 {
            DirectoryNotice::NoMatchingFiles
        } else if scan.open_error_count > 0 || scan.unreadable_directory_count > 0 {
            DirectoryNotice::Unreadable { files: scan.open_error_count, directories: scan.unreadable_directory_count }
        } else {
            DirectoryNotice::Nothing
        };
        let mut entries: Vec<GlobalResultEntry> = Vec::new();
        let mut i: usize = 0;
        while i < scan.results.len()
            invariant
                i <= scan.results.len(),
                entries@ == scan.results@.take(i as int).map_values(|r: (GlobalResultEntry, R)| r.0),
            decreases scan.results.len() - i,
        {
            let e = &scan.results[i].0;
            entries.push(GlobalResultEntry { document_id: e.document_id, path_key: e.path_key.clone(), snapshot: e.snapshot });
            proof {
                assert(scan.results@.take(i + 1).map_values(|r: (GlobalResultEntry, R)| r.0)
                    =~= scan.results@.take(i as int).map_values(|r: (GlobalResultEntry, R)| r.0).push(scan.results@[i as int].0));
            }
            i = i + 1;
        }
        proof { assert(scan.results@.take(i as int) =~= scan.results@); }
        self.global_search.results = entries;
        self.global_search.result_scope = Some(SearchScope::Directory);
        self.global_search.directory_query = query;
        self.runs.activity = Activity::Ready;
        DirectorySearchFinish::Installed { results: scan.results, notice }
    }
}

} // verus!
