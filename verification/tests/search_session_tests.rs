use vclogg::context_menu::{build_log_context_menu, context_selected_text, LogMenuContext, LogMenuItem};
use vclogg::global_targets::MarkLabel;
use vclogg::current_search::{CurrentSearchFinish, CurrentSearchStart, PersistedRestore, SearchStart};
use vclogg::export_flow::{result_export_suggested_name, ExportNotice, ExportOperation, ExportSnapshot};
use vclogg::global_selection::SelectionChange;
use vclogg::line_tasks::PreparedColorRules;
use vclogg::settings_apply::HistoryCleared;
use vclogg::preferences::{AppSettings, QueryOptions};
use vclogg::regions::{DocumentLoadState, LogRegion, SearchScope};
use vclogg::result_groups_source::{directory_group_kept, GlobalGroupSource};
use vclogg::quick_find::QuickFindBoundary;
use vclogg::retained_context::RetainedContext;
use vclogg::search_bar::QuickFindNotice;
use vclogg::result_navigation::{GlobalResultJump, GroupActivation};
use vclogg::search_clearing::ClearedSession;
use vclogg::search_runs::{Activity, GlobalSearchStart, SearchRunOutcome, SearchTarget};
use vclogg::workspace::{DocumentTab, TabView, GlobalResultEntry, SelectionTable, Workspace};

type Pointer = (f32, f32);

fn query(text: &str, case_sensitive: bool, regex: bool) -> QueryOptions {
    QueryOptions { text: text.to_string(), case_sensitive, regex }
}

fn tab(id: u64, path: &str, snapshot: u64) -> DocumentTab {
    DocumentTab {
        id,
        load_state: DocumentLoadState::Ready,
        path_key: path.to_string(),
        snapshot,
        line_count: 100,
        results_visible: false,
        auto_follow: true,
        selection_table: SelectionTable::Log,
        search_revision: 0,
        marked_rows: Vec::new(),
        keyword_color_rules: Vec::new(),
        pending_restore_marked_rows: Vec::new(),
        results_include_marks: false,
        row_tags: Vec::new(),
        search_query: query("", false, false),
        view: TabView { word_wrap: false, show_line_numbers: true, show_row_separators: false, uses_default_view_options: true },
    }
}

fn workspace(tabs: Vec<DocumentTab>) -> Workspace<Pointer> {
    let mut w = Workspace::new(AppSettings::defaults(), true);
    w.documents = tabs;
    if !w.documents.is_empty() {
        w.active_ix = Some(0);
    }
    w
}

fn context(text: &str, results: Vec<GlobalResultEntry>) -> RetainedContext {
    RetainedContext { query: query(text, false, false), initialized: false, results, results_visible: false, active: false }
}

fn entry(document_id: u64, path: &str, snapshot: u64) -> GlobalResultEntry {
    GlobalResultEntry { document_id, path_key: path.to_string(), snapshot }
}

#[test]
fn current_search_needs_an_indexed_active_file() {
    let mut empty = workspace(Vec::new());
    assert!(matches!(empty.start_current_search("x".to_string()), CurrentSearchStart::NoDocument));

    let mut loading = tab(1, "/a.log", 1);
    loading.load_state = DocumentLoadState::Preview;
    let mut w = workspace(vec![loading]);
    assert!(matches!(w.start_current_search("x".to_string()), CurrentSearchStart::NotIndexed));
    assert_eq!(w.documents[0].search_revision, 0);
    assert!(w.runs.running.is_none());
}

#[test]
fn current_search_bumps_the_revision_and_runs() {
    let mut w = workspace(vec![tab(7, "/a.log", 1)]);
    w.prefs.case_sensitive = true;
    w.prefs.app_settings.search_result_limit = Some(50);
    match w.start_current_search("needle".to_string()) {
        CurrentSearchStart::Started { document_id, revision, query } => {
            assert_eq!(document_id, 7);
            assert_eq!(revision, 1);
            assert_eq!(query.text, "needle");
            assert!(query.case_sensitive);
            assert!(!query.regex);
            assert_eq!(query.max_results, Some(50));
        }
        _ => panic!("the search should start"),
    }
    assert_eq!(w.documents[0].search_revision, 1);
    assert_eq!(w.runs.running, Some((SearchTarget::Document(7), 1)));
    assert_eq!(w.runs.activity, Activity::Searching);
}

#[test]
fn current_search_answer_installs_only_when_current() {
    let mut w = workspace(vec![tab(7, "/a.log", 1)]);
    w.start_current_search("needle".to_string());
    let stale = w.finish_current_search(7, 0, query("old", false, false), SearchRunOutcome::Completed(3u32));
    assert!(matches!(stale, CurrentSearchFinish::Stale));
    assert!(w.runs.running.is_some());

    let done = w.finish_current_search(7, 1, query("needle", true, false), SearchRunOutcome::Completed(3u32));
    assert!(matches!(done, CurrentSearchFinish::Installed(3)));
    assert_eq!(w.documents[0].search_query.text, "needle");
    assert!(w.documents[0].search_query.case_sensitive);
    assert!(w.documents[0].results_visible);
    assert!(w.runs.running.is_none());
    assert_eq!(w.runs.activity, Activity::Ready);
}

#[test]
fn current_search_failures_leave_the_workspace_in_error() {
    let mut w = workspace(vec![tab(7, "/a.log", 1)]);
    w.start_current_search("needle".to_string());
    let changed = w.finish_current_search::<u32>(7, 1, query("needle", false, false), SearchRunOutcome::SourceChanged);
    assert!(matches!(changed, CurrentSearchFinish::SourceChanged));
    assert_eq!(w.runs.activity, Activity::Error);
    assert!(!w.documents[0].results_visible);

    w.start_current_search("needle".to_string());
    let cancelled = w.finish_current_search::<u32>(7, 2, query("needle", false, false), SearchRunOutcome::Cancelled);
    assert!(matches!(cancelled, CurrentSearchFinish::Cancelled));
    assert_eq!(w.runs.activity, Activity::Ready);

    w.start_current_search("needle".to_string());
    let failed = w.finish_current_search::<u32>(7, 3, query("needle", false, false), SearchRunOutcome::Failed("bad regex".to_string()));
    match failed {
        CurrentSearchFinish::Failed(message) => assert_eq!(message, "bad regex"),
        _ => panic!("the failure should be reported"),
    }
    assert_eq!(w.runs.activity, Activity::Error);
}

#[test]
fn current_search_answer_for_a_closed_tab_is_dropped() {
    let mut w = workspace(vec![tab(7, "/a.log", 1)]);
    w.start_current_search("needle".to_string());
    w.documents.clear();
    w.active_ix = None;
    let dropped = w.finish_current_search(7, 1, query("needle", false, false), SearchRunOutcome::Completed(1u8));
    assert!(matches!(dropped, CurrentSearchFinish::Dropped { record_history: true }));
    assert!(w.runs.running.is_some());
}

#[test]
fn scope_switch_keeps_the_draft_and_shows_the_new_session() {
    let mut w = workspace(vec![tab(1, "/a.log", 1)]);
    assert!(w.set_search_scope(SearchScope::CurrentFile, "same".to_string(), context("", vec![])).is_none());

    let mut kept = context("all", vec![entry(1, "/a.log", 1)]);
    kept.query.case_sensitive = true;
    kept.query.regex = true;
    kept.initialized = true;
    kept.results_visible = true;
    kept.active = true;
    let switch = w.set_search_scope(SearchScope::AllOpenFiles, "draft".to_string(), kept).unwrap();
    assert_eq!(switch.text, "all");
    assert!(!switch.cancelled_search);
    assert!(switch.left_context.is_none());
    assert_eq!(w.documents[0].search_query.text, "draft");
    assert_eq!(w.global_search.scope, SearchScope::AllOpenFiles);
    assert_eq!(w.global_search.query.text, "all");
    assert_eq!(w.global_search.results.len(), 1);
    assert_eq!(w.global_search.result_scope, Some(SearchScope::AllOpenFiles));
    assert!(w.global_search.results_visible);
    assert_eq!(w.active_log_region, LogRegion::GlobalResults);
    assert!(w.prefs.case_sensitive);
    assert!(w.prefs.regex);

    let back = w.set_search_scope(SearchScope::CurrentFile, "typed".to_string(), context("", vec![])).unwrap();
    assert_eq!(back.text, "draft");
    let left = back.left_context.unwrap();
    assert_eq!(left.query.text, "typed");
    assert!(left.initialized);
    assert!(left.active);
    assert_eq!(left.results.len(), 1);
    assert_eq!(w.global_search.query.text, "typed");
    assert_eq!(w.active_log_region, LogRegion::Body);
    assert!(!w.prefs.case_sensitive);
}

#[test]
fn scope_switch_cancels_a_multi_file_search() {
    let mut w = workspace(vec![tab(1, "/a.log", 1)]);
    w.global_search.scope = SearchScope::AllOpenFiles;
    w.global_search.selected_documents = vec![1];
    assert!(matches!(w.start_global_search("x".to_string()), GlobalSearchStart::Started { .. }));
    let switch = w.set_search_scope(SearchScope::Directory, "x".to_string(), context("", vec![])).unwrap();
    assert!(switch.cancelled_search);
    assert!(w.runs.running.is_none());
    assert_eq!(w.runs.activity, Activity::Ready);
    assert!(!w.global_search.results_visible);
    assert_eq!(w.global_search.result_scope, None);
}

#[test]
fn search_options_change_only_the_active_session() {
    let mut w = workspace(vec![tab(4, "/a.log", 1)]);
    assert!(w.set_active_search_options(false, false).is_none());
    let change = w.set_active_search_options(true, false).unwrap();
    assert_eq!(change.checkpoint, Some(4));
    assert!(!change.cancelled_search);
    assert!(w.documents[0].search_query.case_sensitive);
    assert!(!w.global_search.query.case_sensitive);

    w.global_search.scope = SearchScope::Directory;
    let change = w.set_active_search_options(true, true).unwrap();
    assert_eq!(change.checkpoint, None);
    assert!(w.global_search.directory_query.regex);
    assert!(!w.documents[0].search_query.regex);
}

#[test]
fn start_search_runs_in_the_active_scope() {
    let mut w = workspace(Vec::new());
    w.global_search.scope = SearchScope::AllOpenFiles;
    assert!(matches!(w.start_search("x".to_string()), SearchStart::AllOpenFiles(GlobalSearchStart::NoFiles)));
    w.global_search.scope = SearchScope::CurrentFile;
    assert!(matches!(w.start_search("x".to_string()), SearchStart::CurrentFile(CurrentSearchStart::NoDocument)));
}

#[test]
fn directory_result_jump_opens_or_checks_the_file() {
    let mut w = workspace(Vec::new());
    w.global_search.results = vec![entry(9, "/d/x.log", 5)];
    w.global_search.result_scope = Some(SearchScope::AllOpenFiles);
    assert!(matches!(w.jump_to_global_result(9, 3), GlobalResultJump::Nothing));

    w.global_search.result_scope = Some(SearchScope::Directory);
    match w.jump_to_global_result(9, 3) {
        GlobalResultJump::OpenFile(jump) => {
            assert_eq!(jump.path, "/d/x.log");
            assert_eq!(jump.source_row, 3);
            assert_eq!(jump.expected_snapshot, 5);
        }
        _ => panic!("the file should be opened"),
    }
    w.files.open_task_running = true;
    assert!(matches!(w.jump_to_global_result(9, 3), GlobalResultJump::OpenBusy));

    w.files.open_task_running = false;
    w.documents = vec![tab(2, "/d/x.log", 6)];
    assert!(matches!(w.jump_to_global_result(9, 3), GlobalResultJump::StaleResult));
    w.documents[0].load_state = DocumentLoadState::Opening;
    assert!(matches!(w.jump_to_global_result(9, 3), GlobalResultJump::AwaitLoad { document_ix: 0, .. }));
    w.documents[0].load_state = DocumentLoadState::Ready;
    w.documents[0].snapshot = 5;
    w.documents[0].selection_table = SelectionTable::Results;
    assert!(matches!(w.jump_to_global_result(9, 3), GlobalResultJump::Select { document_ix: 0, document_id: 2 }));
    assert!(!w.documents[0].auto_follow);
    assert_eq!(w.documents[0].selection_table, SelectionTable::Log);
}

#[test]
fn result_group_activates_or_opens_its_file() {
    let mut w = workspace(vec![tab(1, "/a.log", 1)]);
    w.global_search.results = vec![entry(1, "/a.log", 1), entry(8, "/b.log", 2)];
    assert!(matches!(w.activate_global_group(1), GroupActivation::ActivateTab(0)));
    match w.activate_global_group(8) {
        GroupActivation::OpenFile(path) => assert_eq!(path, "/b.log"),
        _ => panic!("the group's file should be opened"),
    }
    assert!(matches!(w.activate_global_group(99), GroupActivation::Nothing));
    w.files.open_task_running = true;
    assert!(matches!(w.activate_global_group(8), GroupActivation::OpenBusy));
}

#[test]
fn cancelling_a_file_search_only_touches_that_file() {
    let mut w = workspace(vec![tab(1, "/a.log", 1)]);
    w.start_current_search("x".to_string());
    assert!(!w.cancel_search_for(2));
    assert!(w.runs.running.is_some());
    assert!(w.cancel_search_for(1));
    assert!(w.runs.running.is_none());
    assert_eq!(w.runs.activity, Activity::Ready);
}

#[test]
fn hidden_global_results_hand_the_region_back() {
    let mut w = workspace(vec![tab(1, "/a.log", 1)]);
    w.active_log_region = LogRegion::GlobalResults;
    w.global_search.results_visible = true;
    w.fallback_from_hidden_global_results();
    assert_eq!(w.active_log_region, LogRegion::GlobalResults);
    w.global_search.results_visible = false;
    w.documents[0].results_visible = true;
    w.documents[0].selection_table = SelectionTable::Results;
    w.fallback_from_hidden_global_results();
    assert_eq!(w.active_log_region, LogRegion::CurrentResults);
}

#[test]
fn invalidating_all_open_results_reports_what_was_on_screen() {
    let mut w = workspace(vec![tab(1, "/a.log", 1)]);
    assert_eq!(w.invalidate_all_open_results(false), None);
    assert_eq!(w.global_search.revision, 0);

    w.global_search.scope = SearchScope::AllOpenFiles;
    w.global_search.result_scope = Some(SearchScope::AllOpenFiles);
    w.global_search.results = vec![entry(1, "/a.log", 1)];
    w.global_search.results_visible = true;
    w.global_search.pending_all_open_restore = Some("x".to_string());
    w.active_log_region = LogRegion::GlobalResults;
    assert_eq!(w.invalidate_all_open_results_for_reload(2, false, false), None);
    assert_eq!(w.invalidate_all_open_results_for_reload(1, false, false), Some(true));
    assert!(w.global_search.results.is_empty());
    assert_eq!(w.global_search.result_scope, None);
    assert!(!w.global_search.results_visible);
    assert_eq!(w.global_search.pending_all_open_restore, None);
    assert_eq!(w.global_search.revision, 1);
    assert_eq!(w.active_log_region, LogRegion::Body);

    assert_eq!(w.invalidate_all_open_results(true), Some(false));
    assert_eq!(w.global_search.revision, 2);
}

#[test]
fn clearing_the_current_search_resets_its_session() {
    let mut w = workspace(vec![tab(3, "/a.log", 1)]);
    w.prefs.app_settings.default_use_regex = true;
    w.start_current_search("needle".to_string());
    w.documents[0].results_visible = true;
    w.documents[0].selection_table = SelectionTable::Results;
    w.documents[0].search_query = query("needle", true, false);
    w.active_log_region = LogRegion::CurrentResults;
    assert_eq!(w.clear_search(), ClearedSession::CurrentFile(Some(3)));
    let t = &w.documents[0];
    assert_eq!(t.search_query.text, "");
    assert!(!t.search_query.case_sensitive);
    assert!(t.search_query.regex);
    assert!(!t.results_visible);
    assert_eq!(t.selection_table, SelectionTable::Log);
    assert_eq!(t.search_revision, 2);
    assert!(w.runs.running.is_none());
    assert_eq!(w.active_log_region, LogRegion::Body);
    assert!(w.prefs.regex);

    let mut none = workspace(Vec::new());
    assert_eq!(none.clear_current_search(), None);
}

#[test]
fn clearing_a_multi_file_session_drops_its_results() {
    let mut w = workspace(vec![tab(1, "/a.log", 1)]);
    w.global_search.scope = SearchScope::AllOpenFiles;
    w.global_search.query = query("all", true, false);
    w.global_search.directory_query = query("dir", true, false);
    w.global_search.results = vec![entry(1, "/a.log", 1)];
    w.global_search.result_scope = Some(SearchScope::AllOpenFiles);
    w.global_search.results_visible = true;
    assert_eq!(w.clear_search(), ClearedSession::AllOpenFiles);
    assert_eq!(w.global_search.query.text, "");
    assert!(!w.global_search.query.case_sensitive);
    assert_eq!(w.global_search.directory_query.text, "dir");
    assert!(w.global_search.results.is_empty());
    assert!(!w.global_search.results_visible);
    assert_eq!(w.global_search.revision, 1);

    w.global_search.scope = SearchScope::Directory;
    assert_eq!(w.clear_search(), ClearedSession::Directory);
    assert_eq!(w.global_search.directory_query.text, "");
    assert_eq!(w.global_search.revision, 2);
    assert_eq!(w.runs.activity, Activity::Ready);
}

#[test]
fn choosing_searched_files_keeps_open_tabs_only() {
    let mut w = workspace(vec![tab(1, "/a.log", 1), tab(2, "/b.log", 1)]);
    w.global_search.selected_documents = vec![1, 2];
    assert!(w.apply_global_selected_documents(vec![2, 1, 1], false).is_none());

    let change: SelectionChange = w.apply_global_selected_documents(vec![2, 5], false).unwrap();
    assert_eq!(w.global_search.selected_documents, vec![2]);
    assert!(!change.results_dropped);
    assert_eq!(change.preferences, vec![(1, false), (2, true)]);
    assert_eq!(w.global_search.revision, 1);

    w.global_search.scope = SearchScope::AllOpenFiles;
    w.global_search.result_scope = Some(SearchScope::AllOpenFiles);
    w.global_search.results = vec![entry(2, "/b.log", 1)];
    w.global_search.results_visible = true;
    let change = w.apply_global_selected_documents(vec![1, 2], false).unwrap();
    assert!(change.results_dropped);
    assert!(w.global_search.results.is_empty());
    assert_eq!(w.global_search.selected_documents, vec![1, 2]);
    assert_eq!(w.global_search.revision, 2);
}

#[test]
fn context_menu_without_selection_offers_only_exports() {
    let labels: Vec<String> = vec!["red".to_string()];
    let plain = LogMenuContext { selected_text: "  \t".to_string(), include_results: false, include_global_merge: false, export_disabled: false };
    assert!(build_log_context_menu(plain, false, MarkLabel::Mark, &labels, None).is_empty());

    let results = LogMenuContext { selected_text: String::new(), include_results: true, include_global_merge: true, export_disabled: true };
    let items = build_log_context_menu(results, false, MarkLabel::Mark, &labels, None);
    assert_eq!(items.len(), 3);
    assert!(matches!(items[0], LogMenuItem::OpenInNewTab { disabled: true }));
    assert!(matches!(items[1], LogMenuItem::MergeInNewTab { disabled: true }));
    assert!(matches!(items[2], LogMenuItem::SaveToFile { disabled: true }));
}

#[test]
fn context_menu_for_selected_text_checks_the_current_label() {
    assert_eq!(context_selected_text(" error ".to_string()), Some(" error ".to_string()));
    assert_eq!(context_selected_text("   ".to_string()), None);
    let labels: Vec<String> = vec!["red".to_string(), "blue".to_string()];
    let context = LogMenuContext { selected_text: "error".to_string(), include_results: true, include_global_merge: false, export_disabled: false };
    let items = build_log_context_menu(context, false, MarkLabel::Unmark, &labels, Some("blue".to_string()));
    assert_eq!(items.len(), 6);
    assert!(matches!(items[0], LogMenuItem::Copy));
    match &items[1] {
        LogMenuItem::ColorLabels { none_checked, labels } => {
            assert!(!none_checked);
            assert_eq!(labels, &vec![("red".to_string(), false), ("blue".to_string(), true)]);
        }
        _ => panic!("the color labels should follow copy"),
    }
    assert!(matches!(items[2], LogMenuItem::Mark(MarkLabel::Unmark)));
    assert!(matches!(items[3], LogMenuItem::Separator));
    assert!(matches!(items[4], LogMenuItem::OpenInNewTab { disabled: false }));
    assert!(matches!(items[5], LogMenuItem::SaveToFile { disabled: false }));

    let rows_only = LogMenuContext { selected_text: String::new(), include_results: false, include_global_merge: false, export_disabled: false };
    let items = build_log_context_menu(rows_only, true, MarkLabel::Mark, &labels, None);
    assert_eq!(items.len(), 3);
    match &items[1] {
        LogMenuItem::ColorLabels { none_checked, .. } => assert!(!none_checked),
        _ => panic!("the color labels should follow copy"),
    }
}

#[test]
fn title_bar_reads_the_active_tab_and_region() {
    let mut w = workspace(Vec::new());
    let empty = w.title_bar_state(0, false);
    assert!(!empty.has_document);
    assert!(empty.show_line_numbers);
    assert!(!empty.row_actions_enabled);
    assert!(!empty.close_others_enabled);
    assert!(empty.encoding_tab.is_none());

    let mut first = tab(1, "/a.log", 1);
    first.view.word_wrap = true;
    first.load_state = DocumentLoadState::Opening;
    w.documents = vec![first, tab(2, "/b.log", 1)];
    w.active_ix = Some(0);
    w.selected_source_row = Some(4);
    w.prefs.pinned_files = vec!["/a.log".to_string()];
    let state = w.title_bar_state(0, false);
    assert!(state.has_document);
    assert!(state.has_selected_log_rows);
    assert!(state.row_actions_enabled);
    assert!(state.active_file_is_pinned);
    assert!(state.word_wrap);
    assert!(state.close_others_enabled);
    assert_eq!(state.tab_count, 2);
    assert_eq!(state.encoding_tab, Some((1, true)));
    assert!(state.encoding_menu_enabled);

    w.active_log_region = LogRegion::GlobalResults;
    w.global_search.results_visible = true;
    w.global_search.scope = SearchScope::AllOpenFiles;
    w.files.open_task_running = true;
    let global = w.title_bar_state(0, false);
    assert!(!global.has_selected_log_rows);
    assert!(!global.word_wrap);
    assert!(!global.encoding_menu_enabled);
    assert!(w.title_bar_state(2, true).word_wrap);
}

#[test]
fn predefined_filter_puts_the_query_in_the_active_session() {
    let mut w = workspace(vec![tab(5, "/a.log", 1)]);
    w.search_history_ix = Some(0);
    let plain = w.choose_predefined_filter("error".to_string(), true, false);
    assert!(plain.options.is_none());
    assert_eq!(plain.checkpoint, Some(5));
    assert_eq!(w.documents[0].search_query.text, "error");
    assert!(!w.documents[0].search_query.regex);
    assert!(w.search_history_ix.is_none());

    w.global_search.scope = SearchScope::AllOpenFiles;
    let regex = w.choose_predefined_filter("err|warn".to_string(), true, true);
    assert_eq!(regex.checkpoint, None);
    assert!(regex.options.is_some());
    assert!(w.prefs.regex);
    assert_eq!(w.global_search.query.text, "err|warn");
    assert!(w.global_search.query.regex);

    let unchecked = w.choose_predefined_filter("plain".to_string(), false, true);
    assert!(unchecked.options.is_none());
    assert!(w.global_search.query.regex);
}

#[test]
fn applying_settings_commits_defaults_only_when_saved() {
    let mut w = workspace(vec![tab(6, "/a.log", 1)]);
    w.start_current_search("x".to_string());
    let mut settings = AppSettings::defaults();
    settings.default_case_sensitive = true;
    settings.default_show_line_numbers = false;
    settings.default_show_row_separators = true;

    let preview = w.preview_app_settings(settings);
    assert!(!preview.cancelled_search);
    assert_eq!(preview.checkpoint, None);
    assert!(w.prefs.app_settings.default_case_sensitive);
    assert!(!w.prefs.search_defaults_modified);
    assert!(w.documents[0].view.show_line_numbers);
    assert!(w.runs.running.is_some());

    settings.search_result_limit = Some(10);
    let applied = w.apply_app_settings(settings);
    assert!(applied.cancelled_search);
    assert_eq!(applied.checkpoint, Some(6));
    assert!(w.runs.running.is_none());
    assert!(w.prefs.search_defaults_modified);
    assert!(!w.prefs.case_sensitive);
    assert!(!w.documents[0].view.show_line_numbers);
    assert!(w.documents[0].view.show_row_separators);
    assert_eq!(w.prefs.app_settings.search_result_limit, Some(10));
}

#[test]
fn pinning_waits_for_the_store_and_one_change_at_a_time() {
    let mut w = workspace(vec![tab(3, "/a.log", 1)]);
    w.files.store_ready = false;
    assert!(w.toggle_active_file_pinned().is_none());
    w.files.store_ready = true;
    let request = w.toggle_active_file_pinned().unwrap();
    assert_eq!(request.document_id, 3);
    assert!(request.pinned);
    assert!(w.prefs.pinned_updating);
    assert!(w.toggle_active_file_pinned().is_none());
    assert_eq!(w.finish_pinned_update(Ok((vec!["/a.log".to_string()], vec!["/a.log".to_string()]))), None);
    assert!(!w.prefs.pinned_updating);
    assert!(w.active_file_is_pinned());
    let unpin = w.toggle_active_file_pinned().unwrap();
    assert!(!unpin.pinned);
    assert_eq!(w.finish_pinned_update(Err("disk full".to_string())), Some("disk full".to_string()));
    assert!(!w.prefs.pinned_updating);
    assert!(w.active_file_is_pinned());
}

#[test]
fn clearing_pins_needs_pinned_files() {
    let mut w = workspace(Vec::new());
    assert!(!w.clear_pinned_files());
    w.prefs.pinned_files = vec!["/a.log".to_string()];
    assert!(w.clear_pinned_files());
    assert!(!w.clear_pinned_files());
    assert_eq!(w.finish_clear_pinned_files(Ok(vec!["/b.log".to_string()])), None);
    assert!(w.prefs.pinned_files.is_empty());
    assert_eq!(w.prefs.recent_files, vec!["/b.log".to_string()]);
    assert!(!w.prefs.pinned_updating);
}

#[test]
fn reapplying_the_same_searched_files_is_refused() {
    let mut w = workspace(vec![tab(1, "/a.log", 1), tab(2, "/b.log", 1), tab(3, "/c.log", 1)]);
    assert!(w.apply_global_selected_documents(vec![3, 1], false).is_some());
    assert_eq!(w.global_search.selected_documents, vec![1, 3]);
    assert!(w.apply_global_selected_documents(vec![3, 1], false).is_none());
    assert!(w.apply_global_selected_documents(vec![1, 3, 9], false).is_none());
}

#[test]
fn scope_round_trip_shows_the_draft_again() {
    let mut w = workspace(vec![tab(1, "/a.log", 1)]);
    w.global_search.scope = SearchScope::Directory;
    let away = w.set_search_scope(SearchScope::AllOpenFiles, "typed in directory".to_string(), context("", vec![])).unwrap();
    let kept = away.left_context.unwrap();
    let back = w.set_search_scope(SearchScope::Directory, "typed in all".to_string(), kept).unwrap();
    assert_eq!(back.text, "typed in directory");
    assert_eq!(back.left_context.unwrap().query.text, "typed in all");
}

#[test]
fn clearing_history_reports_what_was_removed() {
    let mut w = workspace(vec![tab(4, "/a.log", 1), tab(9, "/b.log", 1)]);
    assert_eq!(w.clear_history(), Some(vec![4, 9]));
    assert!(w.prefs.history_clearing);
    assert_eq!(w.clear_history(), None);
    assert!(matches!(w.finish_clear_history(Ok((0, Vec::new(), Vec::new()))), HistoryCleared::NothingToClear));
    assert!(!w.prefs.history_clearing);
    w.clear_history();
    assert!(matches!(w.finish_clear_history(Ok((5, vec!["/a.log".to_string()], Vec::new()))), HistoryCleared::Cleared(5)));
    assert_eq!(w.prefs.recent_files, vec!["/a.log".to_string()]);
    w.clear_history();
    match w.finish_clear_history(Err("locked".to_string())) {
        HistoryCleared::Failed(message) => assert_eq!(message, "locked"),
        _ => panic!("the failure should be reported"),
    }
    w.files.store_ready = false;
    assert_eq!(w.clear_history(), None);
}

#[test]
fn color_label_resolution_installs_only_current_answers() {
    let mut w = workspace(vec![tab(1, "/a.log", 7), tab(2, "/b.log", 8)]);
    w.prefs.last_color_label_id = Some("gone".to_string());
    let first = w.apply_color_labels(&vec!["red".to_string()]);
    assert_eq!(w.prefs.last_color_label_id, None);
    assert_eq!(first.inputs.len(), 2);
    assert_eq!(first.inputs[1].document_id, 2);
    assert_eq!(first.inputs[1].snapshot, 8);
    assert!(w.prefs.color_labels_resolution_running);

    let second = w.apply_color_labels(&vec!["red".to_string()]);
    let prepared = |snapshot: u64| vec![PreparedColorRules { document_id: 2, snapshot, rules: Vec::new(), resolved: "resolved" }];
    assert!(w.finish_color_labels_resolution(first.revision, first.labels_revision, Some(prepared(8))).is_empty());
    assert!(w.prefs.color_labels_resolution_running);
    let targets = w.finish_color_labels_resolution(second.revision, second.labels_revision, Some(prepared(8)));
    assert_eq!(targets, vec![(1, "resolved")]);
    assert!(!w.prefs.color_labels_resolution_running);

    let third = w.apply_color_labels(&vec!["red".to_string()]);
    assert!(w.finish_color_labels_resolution(third.revision, third.labels_revision, Some(prepared(99))).is_empty());
}

#[test]
fn all_open_groups_follow_the_searched_tabs() {
    let mut w = workspace(vec![tab(1, "/a.log", 1), tab(2, "/b.log", 1), tab(3, "/c.log", 1)]);
    w.global_search.scope = SearchScope::AllOpenFiles;
    w.global_search.selected_documents = vec![3, 1];
    assert_eq!(
        w.global_result_group_sources(),
        vec![
            GlobalGroupSource { document_id: 1, tab_ix: Some(0), result_ix: None },
            GlobalGroupSource { document_id: 3, tab_ix: Some(2), result_ix: None },
        ]
    );
    w.global_search.result_scope = Some(SearchScope::AllOpenFiles);
    w.global_search.results = vec![entry(3, "/c.log", 1)];
    assert_eq!(
        w.global_result_group_sources(),
        vec![GlobalGroupSource { document_id: 3, tab_ix: Some(2), result_ix: Some(0) }]
    );
    w.global_search.scope = SearchScope::CurrentFile;
    assert!(w.global_result_group_sources().is_empty());
}

#[test]
fn directory_groups_ascend_by_document_and_match_snapshots() {
    let mut w = workspace(vec![tab(1, "/d/x.log", 5), tab(2, "/d/y.log", 6), tab(7, "/d/x.log", 9)]);
    w.global_search.scope = SearchScope::Directory;
    w.global_search.results = vec![entry(30, "/d/x.log", 9), entry(10, "/d/y.log", 6), entry(20, "/d/z.log", 1), entry(10, "/d/w.log", 1)];
    assert!(w.global_result_group_sources().is_empty());
    w.global_search.result_scope = Some(SearchScope::Directory);
    assert_eq!(
        w.global_result_group_sources(),
        vec![
            GlobalGroupSource { document_id: 10, tab_ix: Some(1), result_ix: Some(1) },
            GlobalGroupSource { document_id: 20, tab_ix: None, result_ix: Some(2) },
            GlobalGroupSource { document_id: 30, tab_ix: Some(2), result_ix: Some(0) },
        ]
    );
    w.documents[2].snapshot = 10;
    assert_eq!(w.global_result_group_sources()[2].tab_ix, None);
    assert!(directory_group_kept(0, true));
    assert!(directory_group_kept(2, false));
    assert!(!directory_group_kept(0, false));
}

#[test]
fn exports_need_results_and_one_at_a_time() {
    let mut w = workspace(vec![tab(2, "/a.log", 1)]);
    assert_eq!(w.open_results_in_new_tab(0, &Vec::new()), None);
    assert_eq!(w.files.export_operation, None);
    assert_eq!(w.open_results_in_new_tab(4, &Vec::new()), Some(ExportSnapshot::Single { document_id: 2 }));
    assert_eq!(w.files.export_operation, Some(ExportOperation::OpenInNewTab));
    assert_eq!(w.save_results_as(4, &Vec::new()), None);
    assert_eq!(w.finish_result_export(Some(Ok(4))), ExportNotice::OpenedInTab { row_count: 4, merged: false });
    assert_eq!(w.files.export_operation, None);

    assert_eq!(w.open_timestamp_merged_results(&vec![1]), None);
    w.global_search.scope = SearchScope::AllOpenFiles;
    assert_eq!(w.open_timestamp_merged_results(&vec![0, 0]), None);
    assert_eq!(
        w.open_timestamp_merged_results(&vec![0, 3, 0, 1]),
        Some(ExportSnapshot::Global { groups: vec![1, 3] })
    );
    w.files.open_task_running = true;
    assert_eq!(w.finish_result_export(Some(Ok(4))), ExportNotice::OpenBusy);

    assert_eq!(w.save_results_as(0, &vec![2]), Some(ExportSnapshot::Global { groups: vec![0] }));
    assert_eq!(w.finish_result_export(None), ExportNotice::Nothing);
    w.save_results_as(0, &vec![2]);
    assert_eq!(w.finish_result_export(Some(Ok(2))), ExportNotice::Saved { row_count: 2 });
    w.save_results_as(0, &vec![2]);
    assert_eq!(w.finish_result_export(Some(Err("denied".to_string()))), ExportNotice::Failed("denied".to_string()));

    w.global_search.scope = SearchScope::Directory;
    assert_eq!(w.save_results_as(0, &vec![2]), None);
}

#[test]
fn export_names_follow_the_scope() {
    assert_eq!(result_export_suggested_name(SearchScope::CurrentFile, Some("server".to_string())), "server-results.log");
    assert_eq!(result_export_suggested_name(SearchScope::CurrentFile, None), "search-results.log");
    assert_eq!(result_export_suggested_name(SearchScope::AllOpenFiles, None), "global-search-results.log");
    assert_eq!(result_export_suggested_name(SearchScope::Directory, Some("x".to_string())), "directory-search-results.log");
}

#[test]
fn persisted_search_restores_once_files_are_ready() {
    let mut w = workspace(vec![tab(1, "/a.log", 1)]);
    w.global_search.scope = SearchScope::AllOpenFiles;
    w.global_search.query = query("timeout", false, false);
    w.global_search.selected_documents = vec![1];
    assert!(matches!(w.maybe_restore_persisted_search(), PersistedRestore::Nothing));
    w.global_search.pending_all_open_restore = Some("timeout".to_string());
    w.documents[0].load_state = DocumentLoadState::Preview;
    assert!(matches!(w.maybe_restore_persisted_search(), PersistedRestore::Nothing));
    w.documents[0].load_state = DocumentLoadState::Ready;
    match w.maybe_restore_persisted_search() {
        PersistedRestore::AllOpenFiles { text, start } => {
            assert_eq!(text, "timeout");
            assert!(matches!(start, GlobalSearchStart::Started { .. }));
        }
        _ => panic!("the persisted search should run"),
    }
    assert_eq!(w.global_search.pending_all_open_restore, Some("timeout".to_string()));
    assert!(matches!(w.maybe_restore_persisted_search(), PersistedRestore::Nothing));

    let mut d = workspace(Vec::new());
    d.global_search.scope = SearchScope::Directory;
    d.global_search.pending_directory_restore = Some("x".to_string());
    assert!(matches!(d.maybe_restore_persisted_search(), PersistedRestore::Nothing));
    d.global_search.directory_options.directory = Some("/logs".to_string());
    d.global_search.directory_query = query("x", false, true);
    assert!(matches!(d.maybe_restore_persisted_search(), PersistedRestore::Directory { .. }));
}

#[test]
fn persisted_paths_resolve_to_results_then_tabs() {
    let mut w = workspace(vec![tab(4, "/a.log", 1), tab(5, "/b.log", 1), tab(6, "/b.log", 2)]);
    assert_eq!(w.global_document_id_for_path(&"/b.log".to_string()), Some(5));
    assert_eq!(w.global_document_id_for_path(&"/c.log".to_string()), None);
    w.global_search.results = vec![entry(30, "/b.log", 1), entry(12, "/b.log", 2), entry(2, "/a.log", 1)];
    assert_eq!(w.global_document_id_for_path(&"/b.log".to_string()), Some(12));
    assert_eq!(w.global_document_id_for_path(&"/a.log".to_string()), Some(2));
}

#[test]
fn retained_context_round_trip_restores_the_session() {
    let mut w = workspace(vec![tab(1, "/a.log", 1)]);
    w.global_search.scope = SearchScope::Directory;
    w.global_search.directory_query = query("dir", true, false);
    w.global_search.results = vec![entry(5, "/d/a.log", 2)];
    w.global_search.result_scope = Some(SearchScope::Directory);
    w.global_search.results_visible = true;
    w.active_log_region = LogRegion::GlobalResults;
    assert!(w.capture_retained_global_context(SearchScope::CurrentFile).is_none());
    let kept = w.capture_retained_global_context(SearchScope::Directory).unwrap();
    assert!(kept.initialized && kept.active && kept.results_visible);

    let mut other = workspace(vec![tab(1, "/a.log", 1)]);
    other.restore_retained_global_context(SearchScope::Directory, kept);
    assert_eq!(other.global_search.directory_query.text, "dir");
    assert!(other.global_search.directory_query.case_sensitive);
    assert_eq!(other.global_search.results.len(), 1);
    assert_eq!(other.global_search.result_scope, Some(SearchScope::Directory));
    assert!(other.global_search.results_visible);
    assert_eq!(other.active_log_region, LogRegion::GlobalResults);

    let mut hidden = context("q", vec![]);
    hidden.active = true;
    other.restore_retained_global_context(SearchScope::AllOpenFiles, hidden);
    assert_eq!(other.global_search.query.text, "q");
    assert_eq!(other.global_search.result_scope, None);
    assert_eq!(other.active_log_region, LogRegion::Body);
}

#[test]
fn search_bar_enables_search_per_scope() {
    let mut w = workspace(Vec::new());
    let empty = w.search_bar_state(true, false, 0);
    assert!(empty.search_disabled && empty.clear_disabled && empty.history_disabled);

    w.documents = vec![tab(1, "/a.log", 1), tab(2, "/b.log", 1)];
    w.active_ix = Some(0);
    let ready = w.search_bar_state(true, true, 2);
    assert!(!ready.search_disabled);
    assert!(ready.clear_disabled);
    assert!(ready.show_suggestions);
    assert!(!w.search_bar_state(false, true, 0).clear_disabled);
    w.documents[0].results_visible = true;
    assert!(!w.search_bar_state(true, false, 0).clear_disabled);
    w.start_current_search("x".to_string());
    assert!(w.search_bar_state(true, false, 0).searching);

    w.global_search.scope = SearchScope::AllOpenFiles;
    assert!(w.search_bar_state(true, false, 0).search_disabled);
    w.global_search.selected_documents = vec![2];
    assert!(!w.search_bar_state(true, false, 0).search_disabled);
    w.documents[1].load_state = DocumentLoadState::Preview;
    assert!(w.search_bar_state(true, false, 0).search_disabled);
    assert!(!w.search_bar_state(true, false, 0).searching);

    w.global_search.scope = SearchScope::Directory;
    assert!(w.search_bar_state(true, false, 0).search_disabled);
    w.global_search.directory_options.directory = Some("/logs".to_string());
    assert!(!w.search_bar_state(true, false, 0).search_disabled);
    w.search_history = vec!["a".to_string()];
    assert!(!w.search_bar_state(true, false, 0).history_disabled);
}

#[test]
fn quick_find_bar_explains_its_buttons() {
    let mut w = workspace(vec![tab(1, "/a.log", 1)]);
    let idle = w.quick_find_bar_state(false, false);
    assert_eq!(idle.status, None);
    assert!(!idle.controls_disabled);
    assert!(w.quick_find_bar_state(true, false).controls_disabled);

    w.quick_find.boundary = Some(QuickFindBoundary::End);
    let end = w.quick_find_bar_state(false, false);
    assert_eq!(end.status, Some(QuickFindNotice::ReachedEnd));
    assert_eq!(end.next_notice, Some(QuickFindNotice::ReachedEnd));
    assert_eq!(end.previous_notice, None);

    w.quick_find.no_match = true;
    let none = w.quick_find_bar_state(false, false);
    assert_eq!(none.status, Some(QuickFindNotice::NoMatch));
    assert_eq!(none.previous_notice, Some(QuickFindNotice::NoMatch));

    let invalid = w.quick_find_bar_state(false, true);
    assert_eq!(invalid.status, Some(QuickFindNotice::Invalid));
    assert!(invalid.controls_disabled);
}

#[test]
fn file_toolbar_shows_the_active_file() {
    let mut w = workspace(Vec::new());
    let empty = w.file_toolbar_state();
    assert!(!empty.has_document && empty.pin_disabled && empty.line_position.is_none());

    let mut t = tab(3, "/a.log", 1);
    t.line_count = 120;
    t.load_state = DocumentLoadState::Preview;
    w.documents = vec![t];
    w.active_ix = Some(0);
    let loading = w.file_toolbar_state();
    assert!(!loading.follow_available);
    assert_eq!(loading.line_position, Some((1, 120)));
    w.selected_source_row = Some(41);
    w.documents[0].load_state = DocumentLoadState::Ready;
    let ready = w.file_toolbar_state();
    assert!(ready.follow_available && ready.auto_follow);
    assert_eq!(ready.line_position, Some((42, 120)));
    assert_eq!(ready.encoding_tab, Some((3, false)));
    w.prefs.history_loading = true;
    assert!(w.file_toolbar_state().pin_disabled);
}

#[test]
fn group_color_rules_come_from_the_matching_tab_and_session() {
    let mut w = workspace(vec![tab(1, "/d/x.log", 5), tab(2, "/d/x.log", 6)]);
    assert_eq!(w.group_color_rules_tab(&"/d/x.log".to_string(), 6), Some(1));
    assert_eq!(w.group_color_rules_tab(&"/d/x.log".to_string(), 5), None);
    assert_eq!(w.group_color_rules_tab(&"/d/y.log".to_string(), 5), None);
    assert!(w.session_color_rules().is_none());
    w.global_search.scope = SearchScope::Directory;
    w.global_search.directory_rules = vec![vclogg::workspace::KeywordColorRule {
        label_id: None,
        keyword: "x".to_string(),
        color: 1,
        alpha: 2,
        case_sensitive: true,
        enabled: true,
    }];
    assert_eq!(w.session_color_rules().map(|rules| rules.len()), Some(1));
    w.global_search.scope = SearchScope::AllOpenFiles;
    assert_eq!(w.session_color_rules().map(|rules| rules.len()), Some(0));
}

#[test]
fn a_cancelled_search_answer_is_dropped() {
    let mut w = workspace(vec![tab(7, "/a.log", 1)]);
    w.start_current_search("needle".to_string());
    assert!(w.cancel_search());
    let finish = w.finish_current_search(7, 1, query("needle", false, false), SearchRunOutcome::Completed(1u8));
    assert!(matches!(finish, CurrentSearchFinish::Stale));
    assert!(!w.documents[0].results_visible);
    assert_eq!(w.runs.activity, Activity::Ready);
}
