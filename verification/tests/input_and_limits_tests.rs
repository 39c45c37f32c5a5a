use vclogg::context_menu::context_selected_text;
use vclogg::directory_options::{persisted_directory_options, restored_directory_options, DirectoryOptionsApply, DirectorySession, PersistedDirectorySearchOptions};
use vclogg::log_presentation::DragTableUpdate;
use vclogg::preferences::{AppSettings, QueryOptions};
use vclogg::regions::{DocumentLoadState, LogRegion, SearchScope, WrappedRegion};
use vclogg::row_drag::{DragFrame, RowDragMode, RowDragSelection};
use vclogg::row_tags::{AddRowTag, TagContext, TagPreset, TagRefresh, TagTarget};
use vclogg::search_limits::{BoundaryUpdate, SearchBoundary, SearchRange};
use vclogg::search_orchestration::{SearchAutocompleteMode, SearchEnter};
use vclogg::search_runs::{Activity, SearchTarget};
use vclogg::workspace::{DirectorySearchOptions, DocumentTab, GlobalResultEntry, SelectionTable, TabView, Workspace};

type Pointer = (f32, f32);

fn query(text: &str) -> QueryOptions {
    QueryOptions { text: text.to_string(), case_sensitive: false, regex: false }
}

fn tab(id: u64, path: &str) -> DocumentTab {
    DocumentTab {
        id,
        load_state: DocumentLoadState::Ready,
        path_key: path.to_string(),
        snapshot: 1,
        line_count: 100,
        results_visible: false,
        auto_follow: true,
        selection_table: SelectionTable::Results,
        search_revision: 0,
        marked_rows: Vec::new(),
        keyword_color_rules: Vec::new(),
        pending_restore_marked_rows: Vec::new(),
        results_include_marks: false,
        row_tags: Vec::new(),
        search_query: query(""),
        view: TabView { word_wrap: false, show_line_numbers: true, show_row_separators: false, uses_default_view_options: true },
    }
}

fn workspace(tabs: Vec<DocumentTab>) -> Workspace<Pointer> {
    let mut w = Workspace::new(AppSettings::defaults(), true);
    w.documents = tabs;
    if !w.documents.is_empty() {
        w.active_ix = Some(0);
    }
    w
}

fn frame(row_under_pointer: usize) -> DragFrame {
    DragFrame {
        row_count: 10,
        pointer_selecting: true,
        visible_rows: 5,
        current_top: 0,
        text_selection_allowed: false,
        row_under_pointer: Some(row_under_pointer),
        crossed_viewport_edge: false,
        visible_edge_row: None,
        edge: None,
    }
}

#[test]
fn dragging_a_row_selection_selects_the_target_source_row() {
    let mut w = workspace(vec![tab(1, "/a.log")]);
    w.selected_source_row = Some(2);
    w.row_drag_selection = Some(RowDragSelection {
        document_id: 1,
        region: WrappedRegion::Log,
        pointer: (0.0, 0.0),
        start_row: 2,
        target_row: 2,
        mode: RowDragMode::Lines,
    });

    let advance = w.advance_row_drag_selection(Some(frame(5)), None, |row: usize| Some(row + 100));

    assert_eq!(advance.table_update, Some(DragTableUpdate { target: 5, suppress_text_selection: true, extend_to: Some(5) }));
    assert_eq!(w.selected_source_row, Some(105));
    assert!(!w.documents[0].auto_follow);
    assert_eq!(w.documents[0].selection_table, SelectionTable::Log);

    let unchanged = w.advance_row_drag_selection(Some(frame(5)), None, |_: usize| -> Option<usize> { panic!("no selection change reads a source row") });
    assert_eq!(unchanged.table_update, None);
    assert_eq!(w.selected_source_row, Some(105));
}

#[test]
fn history_item_is_disabled_without_a_ready_store_or_while_loading() {
    let mut w = workspace(Vec::new());
    assert!(!w.title_bar_state(0, false).history_disabled);
    w.prefs.history_loading = true;
    assert!(w.title_bar_state(0, false).history_disabled);
    w.prefs.history_loading = false;
    w.files.store_ready = false;
    assert!(w.title_bar_state(0, false).history_disabled);
}

#[test]
fn changing_a_search_limit_cancels_the_running_search() {
    let mut w = workspace(vec![tab(1, "/a.log"), tab(2, "/b.log")]);
    w.runs.running = Some((SearchTarget::AllOpenFiles, 3));
    w.runs.activity = Activity::Searching;
    w.files.file_refresh_running = true;

    let moved = SearchRange { start: 3, end: None };
    let update = w.set_search_boundary("/a.log".to_string(), Some(3), SearchBoundary::Start, moved);

    assert_eq!(update, BoundaryUpdate::Updated { unrestricted: false });
    assert_eq!(w.runs.running, None);
    assert_eq!(w.runs.activity, Activity::Ready);
    assert!(!w.files.file_refresh_running);
    assert_eq!(w.search_ranges.get(&"/a.log".to_string()), moved);
    assert_eq!(w.documents[0].search_revision, 1);
    assert_eq!(w.documents[1].search_revision, 0);
    assert_eq!(w.global_search.revision, 1);

    w.runs.running = Some((SearchTarget::Document(1), 4));
    let same = w.set_search_boundary("/a.log".to_string(), Some(3), SearchBoundary::Start, moved);
    assert_eq!(same, BoundaryUpdate::Unchanged);
    assert_eq!(w.runs.running, Some((SearchTarget::Document(1), 4)));
}

#[test]
fn enter_accepts_the_highlighted_history_entry() {
    let mut w = workspace(Vec::new());
    w.search_input_multiline = true;
    w.search_history = vec!["saved expression".to_string()];
    w.search_autocomplete_mode = SearchAutocompleteMode::History;
    w.search_suggestion_ix = Some(0);
    let suggestions = vec!["saved expression".to_string()];

    match w.capture_search_input_enter(true, &suggestions, String::new()) {
        SearchEnter::LineBreak => {},
        other => panic!("Shift+Enter in the multiline editor breaks the line, not {:?}", other),
    }
    assert_eq!(w.search_suggestion_ix, Some(0));

    match w.capture_search_input_enter(false, &suggestions, String::new()) {
        SearchEnter::Accepted(Some(update)) => {
            assert_eq!(update.text, "saved expression");
            assert!(update.select_all);
        },
        other => panic!("Enter takes the highlighted entry, not {:?}", other),
    }
    assert!(w.search_input_multiline);
    assert_eq!(w.search_autocomplete_mode, SearchAutocompleteMode::Closed);
    assert_eq!(w.search_suggestion_ix, None);

    assert!(matches!(w.capture_search_input_enter(false, &suggestions, String::new()), SearchEnter::Search));
}

#[test]
fn enter_applies_a_highlighted_match() {
    let mut w = workspace(Vec::new());
    w.search_autocomplete_mode = SearchAutocompleteMode::Matches;
    w.search_suggestion_ix = Some(1);
    let suggestions = vec!["error".to_string(), "timeout".to_string()];

    match w.capture_search_input_enter(true, &suggestions, "error|timeout".to_string()) {
        SearchEnter::Accepted(Some(update)) => {
            assert_eq!(update.text, "error|timeout");
            assert!(!update.select_all);
        },
        other => panic!("Enter in the single-line editor takes the match, not {:?}", other),
    }
}

#[test]
fn blank_selection_counts_unicode_whitespace() {
    assert_eq!(context_selected_text("\u{2003}\u{3000}\t\n".to_string()), None);
    assert_eq!(context_selected_text("\u{a0}x\u{85}".to_string()), Some("\u{a0}x\u{85}".to_string()));
    assert_eq!(context_selected_text("\u{200b}".to_string()), Some("\u{200b}".to_string()));
}

#[test]
fn a_second_mark_on_the_same_row_keeps_the_marks() {
    let mut w = workspace(vec![tab(1, "/a.log")]);
    w.documents[0].marked_rows = vec![3];
    assert_eq!(w.row_tag_changed(1, Some(7)), TagRefresh::MarkedAndCheckpoint);
    assert_eq!(w.documents[0].marked_rows, vec![3, 7]);
    assert_eq!(w.documents[0].pending_restore_marked_rows, vec![7]);
    assert_eq!(w.row_tag_changed(1, Some(7)), TagRefresh::MarkedAndCheckpoint);
    assert_eq!(w.documents[0].marked_rows, vec![3, 7]);
    assert_eq!(w.documents[0].pending_restore_marked_rows, vec![7]);
}

fn options(directory: &str, patterns: &str) -> DirectorySearchOptions {
    DirectorySearchOptions {
        directory: Some(directory.to_string()),
        file_type_filter_enabled: !patterns.is_empty(),
        file_type_patterns: patterns.to_string(),
        include_subdirectories: true,
        include_hidden_directories: false,
    }
}

#[test]
fn a_new_directory_starts_a_fresh_session_and_drops_its_results() {
    let mut w = workspace(vec![tab(1, "/a.log")]);
    w.documents[0].results_visible = true;
    w.global_search.scope = SearchScope::Directory;
    w.global_search.directory_options = options("/logs", "*.log");
    w.global_search.directory_query = query("timeout");
    w.global_search.result_scope = Some(SearchScope::Directory);
    w.global_search.results = vec![GlobalResultEntry { document_id: 9, path_key: "/logs/x.log".to_string(), snapshot: 2 }];
    w.global_search.results_visible = true;
    w.active_log_region = LogRegion::GlobalResults;
    w.runs.running = Some((SearchTarget::Directory, 5));
    w.runs.activity = Activity::Searching;
    w.prefs.case_sensitive = true;

    assert!(matches!(w.apply_directory_search_options(options("/logs", "*.log"), None), DirectoryOptionsApply::Unchanged));
    assert_eq!(w.runs.running, Some((SearchTarget::Directory, 5)));

    match w.apply_directory_search_options(options("/other", "*.txt"), None) {
        DirectoryOptionsApply::Applied { directory_changed, left, kept, results_cleared } => {
            assert!(directory_changed);
            assert!(results_cleared);
            let (left_options, context) = left.expect("the directory left keeps its context");
            assert_eq!(left_options.directory, Some("/logs".to_string()));
            assert_eq!(left_options.file_type_patterns, "*.log");
            assert_eq!(context.query.text, "timeout");
            assert_eq!(context.results.len(), 1);
            assert!(context.active);
            assert_eq!(kept.query.text, "");
            assert!(kept.results.is_empty() && !kept.results_visible && !kept.active && !kept.initialized);
        },
        other => panic!("a new directory without a remembered session is taken, not {:?}", other),
    }
    assert_eq!(w.runs.running, None);
    assert_eq!(w.global_search.directory_options.directory, Some("/other".to_string()));
    assert_eq!(w.global_search.directory_options.file_type_patterns, "*.txt");
    assert_eq!(w.global_search.directory_query.text, "");
    assert!(!w.prefs.case_sensitive);
    assert!(w.global_search.results.is_empty());
    assert!(!w.global_search.results_visible);
    assert_eq!(w.global_search.result_scope, None);
    assert_eq!(w.global_search.revision, 1);
    assert_eq!(w.active_log_region, LogRegion::CurrentResults);
}

#[test]
fn changed_filters_of_the_same_directory_keep_its_query() {
    let mut w = workspace(Vec::new());
    w.global_search.directory_options = options("/logs", "");
    w.global_search.directory_query = query("timeout");
    let mut hidden = options("/logs", "");
    hidden.include_hidden_directories = true;
    match w.apply_directory_search_options(hidden, None) {
        DirectoryOptionsApply::Applied { directory_changed, left, results_cleared, .. } => {
            assert!(!directory_changed);
            assert!(left.is_none());
            assert!(!results_cleared);
        },
        other => panic!("the same directory keeps its session, not {:?}", other),
    }
    assert!(w.global_search.directory_options.include_hidden_directories);
    assert_eq!(w.global_search.directory_query.text, "timeout");
}

#[test]
fn a_remembered_directory_session_is_installed() {
    let mut w = workspace(Vec::new());
    w.global_search.directory_options = options("/logs", "");
    w.global_search.directory_query = query("timeout");
    w.global_search.revision = 4;
    let session = DirectorySession {
        options: options("/other", "*.gz"),
        query: QueryOptions { text: "panic".to_string(), case_sensitive: true, regex: true },
        results_visible: true,
        word_wrap: false,
        active: true,
    };
    match w.apply_directory_search_options(options("/other", ""), Some(session)) {
        DirectoryOptionsApply::Restored { left, kept } => {
            assert_eq!(left.expect("the directory left keeps its context").1.query.text, "timeout");
            assert_eq!(kept.query.text, "panic");
            assert!(kept.results_visible && kept.active && !kept.initialized);
        },
        other => panic!("a remembered session is installed, not {:?}", other),
    }
    assert_eq!(w.global_search.directory_options.directory, Some("/other".to_string()));
    assert_eq!(w.global_search.directory_options.file_type_patterns, "*.gz");
    assert_eq!(w.global_search.directory_query.text, "panic");
    assert_eq!(w.global_search.pending_directory_restore, Some("panic".to_string()));
    assert!(w.prefs.case_sensitive && w.prefs.regex);
    assert!(w.global_search.results_visible);
    assert_eq!(w.global_search.revision, 5);
    assert_eq!(w.active_log_region, LogRegion::GlobalResults);
}

#[test]
fn stored_directory_options_read_back_unchanged() {
    let original = options("/logs", "*.log;*.txt");
    let stored = persisted_directory_options(&original);
    assert_eq!(stored.file_type, 0);
    assert_eq!(stored.file_type_filter_enabled, Some(true));
    let back = restored_directory_options(stored, (false, "*.old".to_string()));
    assert_eq!(back.directory, original.directory);
    assert_eq!(back.file_type_patterns, original.file_type_patterns);
    assert!(back.file_type_filter_enabled && back.include_subdirectories && !back.include_hidden_directories);

    let legacy = PersistedDirectorySearchOptions {
        directory: None,
        file_type: 2,
        file_type_filter_enabled: None,
        file_type_patterns: None,
        include_subdirectories: false,
        include_hidden_directories: true,
    };
    let read = restored_directory_options(legacy, (true, "*.log".to_string()));
    assert!(read.file_type_filter_enabled);
    assert_eq!(read.file_type_patterns, "*.log");
    assert!(!read.include_subdirectories && read.include_hidden_directories);
}

#[test]
fn a_setting_change_waits_for_the_store() {
    let mut w = workspace(Vec::new());
    w.files.store_ready = false;
    let mut settings = AppSettings::defaults();
    settings.default_case_sensitive = !settings.default_case_sensitive;
    assert!(w.update_app_setting(settings).is_none());
    assert!(w.save_app_settings(settings).is_none());
    assert_eq!(w.prefs.app_settings, AppSettings::defaults());
    w.files.store_ready = true;
    assert!(w.update_app_setting(settings).is_some());
    assert_eq!(w.prefs.app_settings, settings);
}

#[test]
fn new_tabs_count_toward_closing_the_others() {
    let mut w = workspace(vec![tab(1, "/a.log")]);
    assert!(!w.title_bar_state(0, false).close_others_enabled);
    w.other_tabs = 1;
    let state = w.title_bar_state(0, false);
    assert_eq!(state.tab_count, 2);
    assert!(state.close_others_enabled);
}

#[test]
fn a_mark_placed_with_a_given_id_keeps_it() {
    let mut w = workspace(vec![tab(1, "/a.log")]);
    w.documents[0].snapshot = 11;
    let context = TagContext { target: TagTarget { document_id: 1, source_row: 4, region: WrappedRegion::Log }, snapshot: 11 };
    let preset = TagPreset { label: "slow".to_string(), color: 3, style: 1 };
    match w.place_row_tag(context, (10, 20), 7, Some((preset, true)), None, "mark-one".to_string()) {
        AddRowTag::Saved { request, saved } => {
            assert_eq!(request.id, "mark-one");
            assert_eq!(saved, Some(TagRefresh::MarkedAndCheckpoint));
        },
        _ => panic!("a chosen preset saves the mark at once"),
    }
    assert_eq!(w.documents[0].row_tags[0].id, "mark-one");
    assert_eq!(w.documents[0].marked_rows, vec![4]);
}
