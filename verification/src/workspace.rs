//! The workspace state that its decisions read and write.
use vstd::prelude::*;
use crate::regions::{DocumentLoadState, LogRegion, SearchScope};
use crate::row_drag::RowDragSelection;

verus! {

/// Which table of a document owns its row selection.
#[derive(Clone, Copy, Debug, PartialEq, Eq, Structural)]
pub enum SelectionTable {
    Log,
    Results,
}

/// An open log file.
#[derive(Clone, Debug)]
pub struct DocumentTab {
    /// Workspace-unique id of the tab.
    pub id: u64,
    pub load_state: DocumentLoadState,
    /// The match key of the file's path.
    pub path_key: String,
    /// Identity of the loaded snapshot of the file: equal values are the same snapshot.
    pub snapshot: u64,
    /// Number of source lines in the loaded snapshot.
    pub line_count: usize,
    /// The current-file results panel is shown.
    pub results_visible: bool,
    /// The log view follows appended lines.
    pub auto_follow: bool,
    pub selection_table: SelectionTable,
    /// Bumped whenever the tab's search settings change, so that running searches are stale.
    pub search_revision: u64,
    /// Marked source rows.
    pub marked_rows: Vec<usize>,
    /// The file's keyword color rules.
    pub keyword_color_rules: Vec<KeywordColorRule>,
    /// Marked rows that a restored session still has to show.
    pub pending_restore_marked_rows: Vec<usize>,
    /// The current-file results list the marked rows too.
    pub results_include_marks: bool,
    /// The text marks placed on the file's rows.
    pub row_tags: Vec<crate::row_tags::RowTag>,
    /// The query of the file's current-file search session.
    pub search_query: crate::preferences::QueryOptions,
    /// The options of the file's log view.
    pub view: TabView,
}

/// The options of a log view.
#[derive(Clone, Copy, Debug, PartialEq, Eq, Structural)]
pub struct TabView {
    /// The log wraps long lines.
    pub word_wrap: bool,
    pub show_line_numbers: bool,
    pub show_row_separators: bool,
    /// The view options follow the application defaults.
    pub uses_default_view_options: bool,
}

/// A rule that colors a keyword.
#[derive(Clone, Debug)]
pub struct KeywordColorRule {
    /// The color label the rule takes its color from; none for a rule with its own color.
    pub label_id: Option<String>,
    pub keyword: String,
    /// The rule's own color as 0xRRGGBB, and its opacity.
    pub color: u32,
    pub alpha: u8,
    pub case_sensitive: bool,
    pub enabled: bool,
}

/// A search result of one file in the all-open-files or directory scope.
#[derive(Clone, Debug)]
pub struct GlobalResultEntry {
    pub document_id: u64,
    /// The match key of the searched file's path.
    pub path_key: String,
    /// The snapshot that was searched.
    pub snapshot: u64,
}

/// The state of the multi-file searches.
#[derive(Clone, Debug)]
pub struct GlobalSearchState {
    pub scope: SearchScope,
    /// The scope the installed results came from.
    pub result_scope: Option<SearchScope>,
    pub results_visible: bool,
    pub revision: u64,
    /// Installed results, at most one per document id.
    pub results: Vec<GlobalResultEntry>,
    /// The keyword color rules of the all-open-files search session.
    pub all_open_rules: Vec<KeywordColorRule>,
    /// The keyword color rules of the directory search session.
    pub directory_rules: Vec<KeywordColorRule>,
    /// The multi-file results list the marked rows too.
    pub results_include_marks: bool,
    /// The documents the all-open-files search covers.
    pub selected_documents: Vec<u64>,
    /// The query of the all-open-files search.
    pub query: crate::preferences::QueryOptions,
    /// The query of the directory search.
    pub directory_query: crate::preferences::QueryOptions,
    /// The query text of a persisted all-open-files search still to be restored.
    pub pending_all_open_restore: Option<String>,
    /// The query text of a persisted directory search still to be restored.
    pub pending_directory_restore: Option<String>,
    /// The options of the directory search, its directory among them.
    pub directory_options: DirectorySearchOptions,
}

/// What the directory search covers.
#[derive(Clone, Debug)]
pub struct DirectorySearchOptions {
    /// The match key of the directory searched.
    pub directory: Option<String>,
    /// Only files whose names match the patterns are searched.
    pub file_type_filter_enabled: bool,
    /// The file name patterns of the filter.
    pub file_type_patterns: String,
    pub include_subdirectories: bool,
    pub include_hidden_directories: bool,
}

/// The workspace state that its decisions read and write. `P` is the pointer position type.
#[derive(Clone, Debug)]
pub struct Workspace<P> {
    pub documents: Vec<DocumentTab>,
    /// Tabs of the tab bar that hold no document (new tabs).
    pub other_tabs: usize,
    pub active_ix: Option<usize>,
    pub active_log_region: LogRegion,
    pub last_user_log_region: LogRegion,
    pub global_search: GlobalSearchState,
    pub row_drag_selection: Option<RowDragSelection<P>>,
    pub row_drag_frame_scheduled: bool,
    pub search_ranges: crate::search_limits::FileSearchRanges,
    pub quick_find: crate::quick_find::QuickFindState,
    /// The source row of the selection shown in the status bar.
    pub selected_source_row: Option<usize>,
    pub search_autocomplete_mode: crate::search_orchestration::SearchAutocompleteMode,
    /// The highlighted suggestion.
    pub search_suggestion_ix: Option<usize>,
    /// Earlier queries, most recent first.
    pub search_history: Vec<String>,
    /// The history entry shown while browsing the history with the wheel.
    pub search_history_ix: Option<usize>,
    /// The query typed before browsing the history.
    pub search_history_draft: Option<String>,
    /// The search input is a multiline editor.
    pub search_input_multiline: bool,
    /// Identifies the running color-rule update: a stale update is ignored.
    pub color_rule_revision: u64,
    /// A color-rule update is being prepared.
    pub color_rule_running: bool,
    /// Text-mark gestures and dialogs.
    pub row_tags: crate::row_tags::TagInteractionState<P>,
    /// File opening, storage and watching.
    pub files: FileActivity,
    /// Preferences and history.
    pub prefs: crate::preferences::Preferences,
    /// The running search and the workspace's activity.
    pub runs: crate::search_runs::SearchRuns,
}

/// File opening, storage and watching.
#[derive(Clone, Copy, Debug, PartialEq, Eq, Structural)]
pub struct FileActivity {
    /// A file is being opened.
    pub open_task_running: bool,
    /// The state store is ready to persist.
    pub store_ready: bool,
    /// A refresh of the watched file is running.
    pub file_refresh_running: bool,
    /// A file watcher is installed.
    pub file_watch_active: bool,
    /// The document the file watcher reports on.
    pub file_watch_document_id: Option<u64>,
    /// The export of search results that is running.
    pub export_operation: Option<crate::export_flow::ExportOperation>,
}

impl<P: Copy> Workspace<P> {
    /// A workspace without files: the current-file scope, nothing selected, searched or
    /// dragged, the find bar closed, and the given settings and store readiness.
    pub fn new(app_settings: crate::preferences::AppSettings, store_ready: bool) -> (workspace: Self)
        ensures
            workspace.documents.len() == 0,
            workspace.other_tabs == 0,
            workspace.active_ix is None,
            workspace.active_log_region == LogRegion::Body,
            workspace.global_search.scope == SearchScope::CurrentFile,
            workspace.global_search.results.len() == 0,
            workspace.row_drag_selection is None,
            workspace.search_ranges.wf(),
            !workspace.quick_find.open,
            workspace.search_history.len() == 0,
            workspace.row_tags.drag is None,
            !workspace.row_tags.dialog_open,
            workspace.files.store_ready == store_ready,
            !workspace.files.open_task_running,
            workspace.prefs.app_settings == app_settings,
            workspace.prefs.case_sensitive == app_settings.default_case_sensitive,
            workspace.prefs.regex == app_settings.default_use_regex,
    {
        let query = crate::preferences::QueryOptions {
            text: String::new(),
            case_sensitive: app_settings.default_case_sensitive,
            regex: app_settings.default_use_regex,
        };
        let directory_query = crate::preferences::QueryOptions {
            text: String::new(),
            case_sensitive: app_settings.default_case_sensitive,
            regex: app_settings.default_use_regex,
        };
        Workspace {
            documents: Vec::new(),
            other_tabs: 0,
            active_ix: None,
            active_log_region: LogRegion::Body,
            last_user_log_region: LogRegion::Body,
            global_search: GlobalSearchState {
                scope: SearchScope::CurrentFile,
                result_scope: None,
                results_visible: false,
                revision: 0,
                results: Vec::new(),
                all_open_rules: Vec::new(),
                directory_rules: Vec::new(),
                results_include_marks: false,
                selected_documents: Vec::new(),
                query,
                directory_query,
                pending_all_open_restore: None,
                pending_directory_restore: None,
                directory_options: DirectorySearchOptions {
                directory: None,
                file_type_filter_enabled: false,
                file_type_patterns: String::new(),
                include_subdirectories: false,
                include_hidden_directories: false,
            },
            },
            row_drag_selection: None,
            row_drag_frame_scheduled: false,
            search_ranges: crate::search_limits::FileSearchRanges::new(),
            quick_find: crate::quick_find::QuickFindState {
                open: false,
                target: None,
                anchor: 0,
                case_sensitive: false,
                whole_word: false,
                regex: false,
                has_matcher: false,
                matched: None,
                no_match: false,
                boundary: None,
                busy: false,
                direction: None,
                revision: 0,
            },
            selected_source_row: None,
            search_autocomplete_mode: crate::search_orchestration::SearchAutocompleteMode::Closed,
            search_suggestion_ix: None,
            search_history: Vec::new(),
            search_history_ix: None,
            search_history_draft: None,
            search_input_multiline: false,
            color_rule_revision: 0,
            color_rule_running: false,
            row_tags: crate::row_tags::TagInteractionState { context: None, dialog_open: false, drag: None },
            files: FileActivity {
                open_task_running: false,
                store_ready,
                file_refresh_running: false,
                file_watch_active: false,
                file_watch_document_id: None,
                export_operation: None,
            },
            prefs: crate::preferences::Preferences {
                app_settings,
                case_sensitive: app_settings.default_case_sensitive,
                regex: app_settings.default_use_regex,
                search_defaults_modified: false,
                pinned_files: Vec::new(),
                recent_files: Vec::new(),
                history_loading: false,
                history_clearing: false,
                color_labels_resolution_revision: 0,
                color_labels_resolution_running: false,
                color_labels_revision: 0,
                last_color_label_id: None,
                pinned_updating: false,
            },
            runs: crate::search_runs::SearchRuns {
                running: None,
                activity: crate::search_runs::Activity::Ready,
                activation_revision: 0,
                activation_running: false,
            },
        }
    }
}

/// The index of the first tab at or after `i` with the given id.
pub open spec fn spec_first_tab_from(documents: Seq<DocumentTab>, document_id: u64, i: int) -> Option<int>
    decreases documents.len() - i,
{
    if i < 0 || i >= documents.len() {
        None
    } else if documents[i].id == document_id {
        Some(i)
    } else {
        spec_first_tab_from(documents, document_id, i + 1)
    }
}

/// The index of the first tab with the given id.
pub open spec fn spec_first_tab(documents: Seq<DocumentTab>, document_id: u64) -> Option<int> {
    spec_first_tab_from(documents, document_id, 0)
}

/// The first tab with a given id lies in range, has that id, and no tab before it does.
pub proof fn lemma_first_tab(documents: Seq<DocumentTab>, document_id: u64, i: int)
    requires
        0 <= i <= documents.len(),
        forall|j: int| 0 <= j < i ==> documents[j].id != document_id,
    ensures
        spec_first_tab(documents, document_id) == spec_first_tab_from(documents, document_id, i),
        match spec_first_tab(documents, document_id) {
            Some(k) => i <= k < documents.len() && documents[k].id == document_id,
            None => forall|j: int| i <= j < documents.len() ==> documents[j].id != document_id,
        },
    decreases i,
{
    if i > 0 {
        lemma_first_tab(documents, document_id, i - 1);
    }
    lemma_first_tab_from(documents, document_id, i);
}

proof fn lemma_first_tab_from(documents: Seq<DocumentTab>, document_id: u64, i: int)
    requires
        0 <= i <= documents.len(),
    ensures
        match spec_first_tab_from(documents, document_id, i) {
            Some(k) => i <= k < documents.len() && documents[k].id == document_id,
            None => forall|j: int| i <= j < documents.len() ==> documents[j].id != document_id,
        },
    decreases documents.len() - i,
{
    if i < documents.len() {
        lemma_first_tab_from(documents, document_id, i + 1);
    }
}

/// The index of the first tab with the given id.
pub fn tab_ix(documents: &Vec<DocumentTab>, document_id: u64) -> (ix: Option<usize>)
    ensures
        match ix {
            Some(i) => spec_first_tab(documents@, document_id) == Some(i as int),
            None => spec_first_tab(documents@, document_id) is None,
        },
        match spec_first_tab(documents@, document_id) {
            Some(k) => 0 <= k < documents.len() && documents@[k].id == document_id,
            None => forall|j: int| 0 <= j < documents.len() ==> documents@[j].id != document_id,
        },
{
    proof { lemma_first_tab(documents@, document_id, 0); }
    let mut i: usize = 0;
    while i < documents.len()
        invariant
            i <= documents.len(),
            forall|j: int| 0 <= j < i ==> documents@[j].id != document_id,
        decreases documents.len() - i,
    {
        if documents[i].id == document_id {
            proof { lemma_first_tab(documents@, document_id, i as int); }
            return Some(i);
        }
        i = i + 1;
    }
    proof { lemma_first_tab(documents@, document_id, i as int); }
    None
}

/// The index of the first installed result of a document.
pub open spec fn spec_first_result(results: Seq<GlobalResultEntry>, document_id: u64) -> Option<int> {
    spec_first_result_from(results, document_id, 0)
}

pub open spec fn spec_first_result_from(results: Seq<GlobalResultEntry>, document_id: u64, i: int) -> Option<int>
    decreases results.len() - i,
{
    if i < 0 || i >= results.len() {
        None
    } else if results[i].document_id == document_id {
        Some(i)
    } else {
        spec_first_result_from(results, document_id, i + 1)
    }
}

proof fn lemma_first_result_from(results: Seq<GlobalResultEntry>, document_id: u64, i: int)
    requires
        0 <= i <= results.len(),
    ensures
        match spec_first_result_from(results, document_id, i) {
            Some(k) => i <= k < results.len() && results[k].document_id == document_id,
            None => forall|j: int| i <= j < results.len() ==> results[j].document_id != document_id,
        },
    decreases results.len() - i,
{
    if i < results.len() {
        lemma_first_result_from(results, document_id, i + 1);
    }
}

/// The first result of a document lies in range and has its id.
pub proof fn lemma_first_result(results: Seq<GlobalResultEntry>, document_id: u64, i: int)
    requires
        0 <= i <= results.len(),
        forall|j: int| 0 <= j < i ==> results[j].document_id != document_id,
    ensures
        spec_first_result(results, document_id) == spec_first_result_from(results, document_id, i),
        match spec_first_result(results, document_id) {
            Some(k) => 0 <= k < results.len() && results[k].document_id == document_id,
            None => forall|j: int| 0 <= j < results.len() ==> results[j].document_id != document_id,
        },
    decreases i,
{
    if i > 0 {
        lemma_first_result(results, document_id, i - 1);
    }
    lemma_first_result_from(results, document_id, 0);
}

/// The index of the first installed result of a document.
pub fn result_ix(results: &Vec<GlobalResultEntry>, document_id: u64) -> (ix: Option<usize>)
    ensures
        match ix {
            Some(i) => spec_first_result(results@, document_id) == Some(i as int),
            None => spec_first_result(results@, document_id) is None,
        },
        match spec_first_result(results@, document_id) {
            Some(k) => 0 <= k < results.len() && results@[k].document_id == document_id,
            None => forall|j: int| 0 <= j < results.len() ==> results@[j].document_id != document_id,
        },
{
    proof { lemma_first_result(results@, document_id, 0); }
    let mut i: usize = 0;
    while i < results.len()
        invariant
            i <= results.len(),
            forall|j: int| 0 <= j < i ==> results@[j].document_id != document_id,
        decreases results.len() - i,
    {
        if results[i].document_id == document_id {
            proof { lemma_first_result(results@, document_id, i as int); }
            return Some(i);
        }
        i = i + 1;
    }
    proof { lemma_first_result(results@, document_id, i as int); }
    None
}

/// The index of the first element at or after `i` that satisfies `p`.
pub open spec fn first_index_from<T>(s: Seq<T>, p: spec_fn(T) -> bool, i: int) -> Option<int>
    decreases s.len() - i,
{
    if i < 0 || i >= s.len() {
        None
    } else if p(s[i]) {
        Some(i)
    } else {
        first_index_from(s, p, i + 1)
    }
}

/// The index of the first element that satisfies `p`.
pub open spec fn first_index<T>(s: Seq<T>, p: spec_fn(T) -> bool) -> Option<int> {
    first_index_from(s, p, 0)
}

proof fn lemma_first_index_from<T>(s: Seq<T>, p: spec_fn(T) -> bool, i: int)
    requires
        0 <= i <= s.len(),
    ensures
        match first_index_from(s, p, i) {
            Some(k) => i <= k < s.len() && p(s[k]) && forall|j: int| i <= j < k ==> !p(s[j]),
            None => forall|j: int| i <= j < s.len() ==> !p(s[j]),
        },
    decreases s.len() - i,
{
    if i < s.len() {
        lemma_first_index_from(s, p, i + 1);
    }
}

/// Once no element before `i` satisfies `p`, the first one is found from `i` on.
pub proof fn lemma_first_index<T>(s: Seq<T>, p: spec_fn(T) -> bool, i: int)
    requires
        0 <= i <= s.len(),
        forall|j: int| 0 <= j < i ==> !p(s[j]),
    ensures
        first_index(s, p) == first_index_from(s, p, i),
        match first_index(s, p) {
            Some(k) => 0 <= k < s.len() && p(s[k]) && forall|j: int| 0 <= j < k ==> !p(s[j]),
            None => forall|j: int| 0 <= j < s.len() ==> !p(s[j]),
        },
    decreases i,
{
    if i > 0 {
        lemma_first_index(s, p, i - 1);
    }
    lemma_first_index_from(s, p, 0);
}

} // verus!
