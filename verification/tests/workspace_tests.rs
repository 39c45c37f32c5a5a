use vclogg::color_rules::{
    ColorRuleAction, ColorRuleFinish, ColorRuleOutcome, ColorRuleStart, PreparedColorRuleUpdate, PropagatedColorRules,
};
use vclogg::global_targets::{ColorKeywordSelection, ColorKeywordTarget, SelectedRows};
use vclogg::line_tasks::{collect_log_lines_for_clipboard, prepare_color_keywords, DocumentLineTask};
use vclogg::preferences::{AppSettings, FontWheel, QueryOptions, WheelDelta};
use vclogg::quick_find::FocusTarget;
use vclogg::regions::{DocumentLoadState, LogRegion, SearchScope, WrappedRegion};
use vclogg::result_groups::group_result_rows_by_document;
use vclogg::result_jumps::{centered_log_jump_preload_range, LogScrollFrameTarget, PendingLogScrollFrames};
use vclogg::row_tags::{AddRowTag, ClearTags, TagContext, TagPreset, TagRefresh, TagTarget};
use vclogg::search_limits::{FileSearchRanges, SearchRange};
use vclogg::search_runs::{
    Activity, DirectoryNotice, DirectoryScan, DirectorySearchFinish, DirectorySearchStart, GlobalSearchFinish,
    GlobalSearchStart, SearchRunOutcome,
};
use vclogg::search_tab_activation::{ActivationCheck, ActivationFinish, ActivationStart, SearchTabOwner, SearchTabView};
use vclogg::workspace::{DocumentTab, TabView, GlobalResultEntry, KeywordColorRule, SelectionTable, Workspace};

type Pointer = (f32, f32);

fn tab(id: u64, path: &str, snapshot: u64, line_count: usize) -> DocumentTab {
    DocumentTab {
        id,
        load_state: DocumentLoadState::Ready,
        path_key: path.to_string(),
        snapshot,
        line_count,
        results_visible: false,
        auto_follow: true,
        selection_table: SelectionTable::Log,
        search_revision: 0,
        marked_rows: Vec::new(),
        keyword_color_rules: Vec::new(),
        pending_restore_marked_rows: Vec::new(),
        results_include_marks: false,
        row_tags: Vec::new(),
        search_query: QueryOptions { text: String::new(), case_sensitive: false, regex: false },
        view: TabView { word_wrap: false, show_line_numbers: true, show_row_separators: false, uses_default_view_options: true },
    }
}

fn workspace(tabs: Vec<DocumentTab>) -> Workspace<Pointer> {
    let mut w = Workspace::new(AppSettings::defaults(), true);
    w.documents = tabs;
    if !w.documents.is_empty() {
        w.active_ix = Some(0);
    }
    w
}

fn rule(keyword: &str, label: Option<&str>) -> KeywordColorRule {
    KeywordColorRule {
        label_id: label.map(|l| l.to_string()),
        keyword: keyword.to_string(),
        color: 0x123456,
        alpha: u8::MAX,
        case_sensitive: true,
        enabled: true,
    }
}

fn context(document_id: u64, source_row: usize, snapshot: u64) -> TagContext {
    TagContext { target: TagTarget { document_id, source_row, region: WrappedRegion::Log }, snapshot }
}

fn preset(label: &str) -> TagPreset {
    TagPreset { label: label.to_string(), color: 3, style: 1 }
}

#[test]
fn a_new_mark_gets_a_random_hyphenated_id_and_marks_its_row() {
    let mut w = workspace(vec![tab(1, "logs/a.log", 11, 10)]);
    let outcome = w.add_row_tag(context(1, 4, 11), Some((250, 500)), 99, Some((preset("slow"), true)), None);

    let request = match outcome {
        AddRowTag::Saved { request, saved } => {
            assert_eq!(saved, Some(TagRefresh::MarkedAndCheckpoint));
            request
        },
        _ => panic!("a chosen preset saves the mark at once"),
    };
    let id = request.id.clone();
    assert_eq!(id.len(), 36);
    for (i, c) in id.chars().enumerate() {
        if [8, 13, 18, 23].contains(&i) {
            assert_eq!(c, '-');
        } else {
            assert!(c.is_ascii_hexdigit() && !c.is_ascii_uppercase());
        }
    }
    assert_eq!(id.chars().nth(14), Some('4'));

    let tags = &w.documents[0].row_tags;
    assert_eq!(tags.len(), 1);
    assert_eq!(tags[0].id, id);
    assert_eq!(tags[0].label, "slow");
    assert_eq!((tags[0].x, tags[0].y, tags[0].source_digest), (250, 500, 99));
    assert_eq!(w.documents[0].marked_rows, vec![4]);

    assert!(w.delete_row_tag(TagTarget { document_id: 1, source_row: 4, region: WrappedRegion::Log }, &id));
    assert!(w.documents[0].row_tags.is_empty());
    assert!(!w.delete_row_tag(TagTarget { document_id: 1, source_row: 4, region: WrappedRegion::Log }, &id));
}

#[test]
fn two_new_marks_get_different_ids() {
    let mut w = workspace(vec![tab(1, "logs/a.log", 11, 10)]);
    w.add_row_tag(context(1, 1, 11), Some((0, 0)), 1, Some((preset("a"), true)), None);
    w.add_row_tag(context(1, 1, 11), Some((0, 0)), 1, Some((preset("b"), true)), None);
    let tags = &w.documents[0].row_tags;
    assert_eq!(tags.len(), 2);
    assert_ne!(tags[0].id, tags[1].id);
}

#[test]
fn marks_are_refused_for_a_stale_row_an_invalid_preset_or_a_busy_workspace() {
    let mut w = workspace(vec![tab(1, "logs/a.log", 11, 10)]);
    assert!(matches!(w.add_row_tag(context(1, 4, 12), Some((0, 0)), 1, None, None), AddRowTag::Ignored));
    assert!(matches!(w.add_row_tag(context(1, 10, 11), Some((0, 0)), 1, None, None), AddRowTag::Ignored));
    assert!(matches!(w.add_row_tag(context(1, 4, 11), None, 1, None, None), AddRowTag::Ignored));
    match w.add_row_tag(context(1, 4, 11), Some((0, 0)), 1, Some((preset(""), false)), None) {
        AddRowTag::Saved { saved, .. } => assert_eq!(saved, None),
        _ => panic!("a preset was given"),
    }
    assert!(w.documents[0].row_tags.is_empty());
    w.files.open_task_running = true;
    assert!(matches!(w.add_row_tag(context(1, 4, 11), Some((0, 0)), 1, None, None), AddRowTag::Ignored));
}

#[test]
fn a_new_mark_without_preset_opens_the_dialog_with_the_last_appearance() {
    let mut w = workspace(vec![tab(1, "logs/a.log", 11, 10)]);
    w.files.file_refresh_running = true;
    w.files.file_watch_active = true;
    w.files.file_watch_document_id = Some(1);
    let last = preset("old");
    match w.add_row_tag(context(1, 2, 11), Some((5, 6)), 7, None, Some(&last)) {
        AddRowTag::Dialog { plan: Some(plan), request } => {
            assert_eq!(plan.focus, FocusTarget::LogViewer);
            assert_eq!(plan.retry_refresh, Some(1));
            assert_eq!((plan.initial.color, plan.initial.style), (3, 1));
            assert_eq!(plan.initial.label, "");
            assert!(plan.is_new && request.is_new);
        },
        _ => panic!("without a preset the dialog opens"),
    }
    assert!(w.row_tags.dialog_open);
    assert!(!w.files.file_refresh_running);
    assert!(w.row_tag_interaction_active());
    assert!(w.documents[0].row_tags.is_empty());
}

#[test]
fn clearing_marks_needs_a_ready_store_and_cancels_a_drag_in_the_file() {
    let mut w = workspace(vec![tab(1, "logs/a.log", 11, 10)]);
    w.add_row_tag(context(1, 1, 11), Some((0, 0)), 1, Some((preset("a"), true)), None);
    w.files.store_ready = false;
    assert_eq!(w.clear_document_row_tags(context(1, 1, 11)), ClearTags::Ignored);
    w.files.store_ready = true;
    w.row_tags.drag = Some(vclogg::row_tags::TagDrag { context: context(1, 1, 11), id: "x".to_string(), position: (1., 2.) });
    assert_eq!(w.clear_document_row_tags(context(1, 1, 11)), ClearTags::Cleared { drag_cancelled: true });
    assert!(w.documents[0].row_tags.is_empty());
    assert!(!w.row_tag_drag_active());
    assert_eq!(w.clear_document_row_tags(context(1, 1, 11)), ClearTags::Ignored);
}

#[test]
fn a_finished_drag_moves_the_mark_and_escape_cancels_one() {
    let mut w = workspace(vec![tab(1, "logs/a.log", 11, 10)]);
    let id = match w.add_row_tag(context(1, 3, 11), Some((1, 1)), 1, Some((preset("a"), true)), None) {
        AddRowTag::Saved { request, .. } => request.id,
        _ => panic!("saved"),
    };
    w.row_tags.drag = Some(vclogg::row_tags::TagDrag { context: context(1, 3, 11), id: id.clone(), position: (0., 0.) });
    assert!(w.finish_tag_drag(1500, 2500));
    assert_eq!((w.documents[0].row_tags[0].x, w.documents[0].row_tags[0].y), (1500, 2500));
    assert!(!w.finish_tag_drag(1, 1));

    w.row_tags.drag = Some(vclogg::row_tags::TagDrag { context: context(1, 3, 11), id, position: (0., 0.) });
    assert!(!w.cancel_tag_gesture(false));
    assert!(w.cancel_tag_gesture(true));
    assert!(!w.cancel_tag_drag());
}

#[test]
fn the_font_wheel_stays_between_8_and_32_points() {
    let mut w = workspace(Vec::new());
    assert_eq!(w.adjust_log_font_size_from_wheel(false, WheelDelta::Up), FontWheel::Ignored);
    assert_eq!(w.adjust_log_font_size_from_wheel(true, WheelDelta::Zero), FontWheel::Ignored);
    assert_eq!(w.adjust_log_font_size_from_wheel(true, WheelDelta::Up), FontWheel::Changed { from: 13, to: 14 });
    w.prefs.app_settings.log_font_size = 32;
    assert_eq!(w.adjust_log_font_size_from_wheel(true, WheelDelta::Up), FontWheel::Consumed);
    w.prefs.app_settings.log_font_size = 8;
    assert_eq!(w.adjust_log_font_size_from_wheel(true, WheelDelta::Down), FontWheel::Consumed);
    assert_eq!(w.adjust_log_font_size_from_wheel(true, WheelDelta::Up), FontWheel::Changed { from: 8, to: 9 });
    w.files.store_ready = false;
    assert_eq!(w.adjust_log_font_size_from_wheel(true, WheelDelta::Up), FontWheel::Consumed);
    assert_eq!(w.prefs.app_settings.log_font_size, 9);
}

#[test]
fn a_wheel_step_over_the_log_stops_following_and_picks_its_measure() {
    let mut w = workspace(vec![tab(1, "logs/a.log", 11, 10)]);
    assert!(w.handle_log_region_scroll_wheel(1, WrappedRegion::Log, true, false, false, true, false, false).is_none());
    assert!(w.handle_log_region_scroll_wheel(1, WrappedRegion::Log, false, false, false, false, false, false).is_none());
    assert!(w.handle_log_region_scroll_wheel(2, WrappedRegion::Log, false, false, false, true, false, false).is_none());
    assert!(w.documents[0].auto_follow);

    let plan = w.handle_log_region_scroll_wheel(1, WrappedRegion::Log, false, false, false, true, false, false).unwrap();
    assert!(plan.auto_follow_changed && !plan.line_scroll && !plan.fixed_line_delta);
    assert_eq!((plan.key, plan.line_count), ((1, WrappedRegion::Log), 3));
    assert!(!w.documents[0].auto_follow);

    w.prefs.app_settings.mouse_wheel_scroll_percent = 150;
    let plan = w.handle_log_region_scroll_wheel(1, WrappedRegion::GlobalResults, false, false, false, true, true, false).unwrap();
    assert!(plan.fixed_line_delta && !plan.auto_follow_changed);
    assert_eq!(plan.key, (0, WrappedRegion::GlobalResults));
    assert!(w.handle_log_region_scroll_wheel(1, WrappedRegion::Results, false, false, false, true, true, true).is_none());
}

#[test]
fn search_defaults_become_current_only_in_an_empty_workspace() {
    let mut w = workspace(Vec::new());
    w.apply_search_defaults(true, true);
    assert!(w.prefs.case_sensitive && w.prefs.regex && w.global_search.query.regex && w.global_search.directory_query.case_sensitive);
    assert!(w.prefs.search_defaults_modified);

    let mut w = workspace(vec![tab(1, "logs/a.log", 11, 10)]);
    w.apply_search_defaults(true, true);
    assert!(w.prefs.app_settings.default_case_sensitive && w.prefs.app_settings.default_use_regex);
    assert!(!w.prefs.case_sensitive && !w.prefs.regex);
}

#[test]
fn pinning_history_and_label_resolution() {
    let mut w = workspace(vec![tab(1, "logs/a.log", 11, 10)]);
    assert!(!w.active_file_is_pinned());
    w.prefs.pinned_files.push("logs/a.log".to_string());
    assert!(w.active_file_is_pinned());

    assert!(!w.confirm_clear_history());
    w.prefs.recent_files.push("logs/b.log".to_string());
    assert!(w.confirm_clear_history());
    w.prefs.history_clearing = true;
    assert!(!w.confirm_clear_history());

    w.prefs.color_labels_resolution_running = true;
    assert!(w.cancel_color_labels_resolution());
    assert!(!w.cancel_color_labels_resolution());
    assert_eq!(w.prefs.color_labels_resolution_revision, 2);
}

#[test]
fn a_completed_search_can_be_extended_until_its_range_changes() {
    let mut ranges = FileSearchRanges::new();
    let path = "logs/a.log".to_string();
    assert!(ranges.can_extend(&path, false));
    ranges.set(path.clone(), SearchRange { start: 10, end: Some(20) });
    assert!(!ranges.can_extend(&path, false));
    let current = ranges.get(&path);
    ranges.completed(path.clone(), current, false);
    assert!(ranges.can_extend(&path, false));
    assert!(!ranges.can_extend(&path, true));
    ranges.set(path.clone(), SearchRange { start: 0, end: None });
    assert!(!ranges.can_extend(&path, false));
}

#[test]
fn a_region_frame_is_taken_once() {
    let mut pending = PendingLogScrollFrames::new();
    let log = (7, WrappedRegion::Log);
    let results = (7, WrappedRegion::Results);
    pending.request(log, LogScrollFrameTarget::Viewport(1));
    pending.request(results, LogScrollFrameTarget::Scrollbar(2));
    assert_eq!(pending.take(log), Some(LogScrollFrameTarget::Viewport(1)));
    assert_eq!(pending.take(log), None);
    assert_eq!(pending.latest(results), Some(LogScrollFrameTarget::Scrollbar(2)));
}

#[test]
fn every_jump_preload_range_holds_its_target() {
    for count in 1..40usize {
        for visible in 1..6usize {
            for target in 0..count {
                let range = centered_log_jump_preload_range(target, count, visible);
                assert!(range.start <= target && target < range.end && range.end <= count);
                assert_eq!(range.end - range.start, (3 * visible).min(count));
            }
        }
    }
}

#[test]
fn color_keywords_are_trimmed_distinct_lines() {
    let lines = [" alpha ", "", "beta", "alpha"];
    let target = ColorKeywordTarget { document_id: 7, snapshot: 3, selection: ColorKeywordSelection::Rows(vec![0, 1, 2, 3]) };
    match prepare_color_keywords(target, true, || false, |row: usize| Some(lines[row].to_string())) {
        DocumentLineTask::Completed(prepared) => {
            assert_eq!((prepared.document_id, prepared.snapshot), (7, 3));
            assert_eq!(prepared.keywords, vec!["alpha".to_string(), "beta".to_string()]);
        },
        _ => panic!("未取消的颜色关键词解析应完成"),
    }
    let target = ColorKeywordTarget { document_id: 7, snapshot: 3, selection: ColorKeywordSelection::Text("  needle ".to_string()) };
    match prepare_color_keywords(target, true, || false, |_: usize| -> Option<String> { panic!("text needs no line") }) {
        DocumentLineTask::Completed(prepared) => assert_eq!(prepared.keywords, vec!["needle".to_string()]),
        _ => panic!("a text keyword completes"),
    }
    let target = ColorKeywordTarget { document_id: 7, snapshot: 3, selection: ColorKeywordSelection::Rows(vec![0]) };
    assert!(matches!(prepare_color_keywords(target, true, || false, |_: usize| None), DocumentLineTask::SourceUnavailable));
}

#[test]
fn copied_lines_carry_their_line_numbers() {
    let lines = ["alpha", "beta", "gamma"];
    match collect_log_lines_for_clipboard(&vec![(1, 0), (1, 2)], true, || false, |_: u64, row: usize| Some(lines[row].to_string())) {
        DocumentLineTask::Completed(copied) => {
            assert_eq!(copied.text, "1\talpha\n3\tgamma");
            assert_eq!(copied.count, 2);
            assert_eq!(copied.first_source_row, Some(0));
        },
        _ => panic!("未取消的复制应完成"),
    }
    match collect_log_lines_for_clipboard(&vec![(1, 9), (1, 99)], true, || false, |_: u64, _: usize| Some("x".to_string())) {
        DocumentLineTask::Completed(copied) => assert_eq!(copied.text, "10\tx\n100\tx"),
        _ => panic!("a copy completes"),
    }
    match collect_log_lines_for_clipboard(&vec![(1, 1)], false, || false, |_: u64, _: usize| Some("plain".to_string())) {
        DocumentLineTask::Completed(copied) => assert_eq!(copied.text, "plain"),
        _ => panic!("a copy completes"),
    }
    assert!(matches!(
        collect_log_lines_for_clipboard(&vec![(1, 0)], true, || false, |_: u64, _: usize| None),
        DocumentLineTask::SourceUnavailable
    ));
}

#[test]
fn result_rows_of_files_with_one_tab_are_merged() {
    let selected = vec![SelectedRows { document_id: 101, rows: vec![2, 7] }, SelectedRows { document_id: 102, rows: vec![7, 4] }];
    let groups = group_result_rows_by_document(&selected, |_: &SelectedRows| Some(1)).unwrap();
    assert_eq!(groups.len(), 1);
    let mut rows = groups[0].rows.clone();
    rows.sort();
    assert_eq!((groups[0].document_id, rows), (1, vec![2, 4, 7]));
}

#[test]
fn a_color_action_spreads_a_text_keyword_to_the_other_searched_files() {
    let mut w = workspace(vec![tab(1, "logs/a.log", 11, 10), tab(2, "logs/b.log", 12, 10), tab(3, "logs/c.log", 13, 10)]);
    w.documents[1].keyword_color_rules.push(rule("keep-me", None));
    w.global_search.scope = SearchScope::AllOpenFiles;
    w.global_search.result_scope = Some(SearchScope::AllOpenFiles);
    w.global_search.revision = 4;
    for id in [1, 2] {
        w.global_search.results.push(GlobalResultEntry { document_id: id, path_key: String::new(), snapshot: 0 });
    }
    let target = ColorKeywordTarget { document_id: 1, snapshot: 11, selection: ColorKeywordSelection::Text("needle".to_string()) };
    match w.start_color_rule_action(target, ColorRuleAction::Apply { label_id: Some("red".to_string()), clear_all: false }) {
        ColorRuleStart::Started { revision, input } => {
            assert_eq!(revision, 1);
            assert!(input.collect_keywords);
            assert_eq!(input.propagation_targets.len(), 1);
            assert_eq!(input.propagation_targets[0].document_id, 2);
            assert_eq!(input.propagation_targets[0].expected_rules.len(), 1);
            let session = input.session_target.unwrap();
            assert_eq!((session.scope, session.expected_revision), (SearchScope::AllOpenFiles, 4));
        },
        _ => panic!("the file is open"),
    }
    assert!(w.color_rule_running);

    let gone = ColorKeywordTarget { document_id: 1, snapshot: 99, selection: ColorKeywordSelection::Rows(vec![0]) };
    assert!(matches!(w.start_color_rule_action(gone, ColorRuleAction::Cycle), ColorRuleStart::TargetGone));
    assert_eq!(w.color_rule_revision, 2);
    assert!(!w.color_rule_running);
}

#[test]
fn a_prepared_color_update_installs_only_over_the_state_it_was_prepared_from() {
    let mut w = workspace(vec![tab(1, "logs/a.log", 11, 10), tab(2, "logs/b.log", 12, 10)]);
    let prepared = |expected: Vec<KeywordColorRule>, outcome: ColorRuleOutcome| PreparedColorRuleUpdate {
        document_id: 1,
        snapshot: 11,
        expected_rules: expected,
        expected_labels_revision: 0,
        rules: vec![rule("needle", Some("red"))],
        last_color_label_id: Some("red".to_string()),
        propagated_files: vec![PropagatedColorRules {
            document_id: 2,
            snapshot: 12,
            expected_rules: Vec::new(),
            rules: vec![rule("needle", Some("red"))],
        }],
        search_session: None,
        outcome,
        resolved: true,
    };
    assert!(matches!(w.finish_color_rule_update(prepared(vec![rule("x", None)], ColorRuleOutcome::Applied)), ColorRuleFinish::SettingsChanged));
    assert!(matches!(w.finish_color_rule_update(prepared(Vec::new(), ColorRuleOutcome::EmptyKeywords)), ColorRuleFinish::Refused(ColorRuleOutcome::EmptyKeywords)));
    w.prefs.color_labels_revision = 1;
    assert!(matches!(w.finish_color_rule_update(prepared(Vec::new(), ColorRuleOutcome::Applied)), ColorRuleFinish::SettingsChanged));
    w.prefs.color_labels_revision = 0;
    match w.finish_color_rule_update(prepared(Vec::new(), ColorRuleOutcome::Applied)) {
        ColorRuleFinish::Installed { tab_ix, propagated, session_changed, .. } => {
            assert_eq!((tab_ix, propagated, session_changed), (0, vec![1], false));
        },
        _ => panic!("the state is unchanged"),
    }
    assert_eq!(w.documents[0].keyword_color_rules[0].keyword, "needle");
    assert_eq!(w.documents[1].keyword_color_rules.len(), 1);
    assert_eq!(w.prefs.last_color_label_id, Some("red".to_string()));
    assert!(matches!(w.finish_color_rule_update(prepared(Vec::new(), ColorRuleOutcome::Applied)), ColorRuleFinish::SettingsChanged));
}

#[test]
fn an_all_open_files_search_starts_only_over_indexed_selected_files() {
    let mut w = workspace(Vec::new());
    assert!(matches!(w.start_global_search("needle".to_string()), GlobalSearchStart::NoFiles));
    let mut w = workspace(vec![tab(1, "logs/a.log", 11, 10), tab(2, "logs/b.log", 12, 10)]);
    assert!(matches!(w.start_global_search("needle".to_string()), GlobalSearchStart::NoFilesSelected));
    w.global_search.selected_documents = vec![2];
    w.documents[1].load_state = DocumentLoadState::Preview;
    assert!(matches!(w.start_global_search("needle".to_string()), GlobalSearchStart::NotIndexed));
    w.documents[1].load_state = DocumentLoadState::Ready;
    w.global_search.pending_all_open_restore = Some("other".to_string());
    let (revision, targets) = match w.start_global_search("needle".to_string()) {
        GlobalSearchStart::Started { revision, query, targets, preserve_viewport } => {
            assert_eq!(query.text, "needle");
            assert!(!preserve_viewport);
            (revision, targets)
        },
        _ => panic!("the selected file is indexed"),
    };
    assert_eq!(revision, 1);
    assert_eq!(targets.len(), 1);
    assert_eq!(targets[0].document_id, 2);
    assert_eq!(w.global_search.pending_all_open_restore, None);
    assert_eq!(w.runs.activity, Activity::Searching);
    assert!(w.global_search.results_visible);

    let query = QueryOptions { text: "needle".to_string(), case_sensitive: false, regex: false };
    let stale = w.finish_global_search::<u32>(revision + 1, query.clone(), Ok(Vec::new()));
    assert!(matches!(stale, GlobalSearchFinish::Stale));
    let outcomes = vec![
        (targets[0].clone(), SearchRunOutcome::Completed(5u32)),
        (GlobalResultEntry { document_id: 9, path_key: "logs/closed.log".to_string(), snapshot: 1 }, SearchRunOutcome::Completed(6)),
    ];
    match w.finish_global_search(revision, query, Ok(outcomes)) {
        GlobalSearchFinish::Installed(results) => {
            assert_eq!(results.len(), 1);
            assert_eq!((results[0].entry.document_id, results[0].result), (2, Some(5)));
        },
        _ => panic!("the search is current"),
    }
    assert_eq!(w.global_search.result_scope, Some(SearchScope::AllOpenFiles));
    assert_eq!(w.runs.activity, Activity::Ready);
    assert!(!w.cancel_search());
}

#[test]
fn a_directory_search_needs_a_directory_and_reports_unreadable_files() {
    let mut w = workspace(Vec::new());
    assert!(matches!(w.start_directory_search("needle".to_string()), DirectorySearchStart::NoDirectory));
    w.global_search.directory_options.directory = Some("/var/log".to_string());
    let revision = match w.start_directory_search("needle".to_string()) {
        DirectorySearchStart::Started { revision, directory, .. } => {
            assert_eq!(directory, "/var/log");
            revision
        },
        _ => panic!("the directory is set"),
    };
    let query = QueryOptions { text: "needle".to_string(), case_sensitive: false, regex: false };
    let scan = DirectoryScan::<u32> { cancelled: false, results: Vec::new(), file_count: 3, open_error_count: 1, unreadable_directory_count: 0 };
    match w.finish_directory_search(revision, query, Ok(scan)) {
        DirectorySearchFinish::Installed { notice, .. } => assert_eq!(notice, DirectoryNotice::Unreadable { files: 1, directories: 0 }),
        _ => panic!("the search is current"),
    }
    assert_eq!(w.global_search.result_scope, Some(SearchScope::Directory));
    let query = QueryOptions { text: String::new(), case_sensitive: false, regex: false };
    assert!(matches!(w.finish_directory_search::<u32>(revision, query, Err("boom".to_string())), DirectorySearchFinish::Stale));
}

#[test]
fn a_failed_search_leaves_the_workspace_in_error() {
    let mut w = workspace(Vec::new());
    w.global_search.directory_options.directory = Some("/var/log".to_string());
    let revision = match w.start_directory_search("x".to_string()) {
        DirectorySearchStart::Started { revision, .. } => revision,
        _ => panic!("the directory is set"),
    };
    let query = QueryOptions { text: "x".to_string(), case_sensitive: false, regex: false };
    assert!(matches!(w.finish_directory_search::<u32>(revision, query, Err("denied".to_string())), DirectorySearchFinish::Failed(_)));
    assert_eq!(w.runs.activity, Activity::Error);
}

#[test]
fn a_search_tab_frame_is_published_only_over_unchanged_files() {
    let mut w = workspace(vec![tab(1, "logs/a.log", 11, 10)]);
    let view = SearchTabView { needs_restore: false, results_visible: true, local_snapshot: Some(11), revision: 5 };
    assert!(matches!(
        w.prepare_search_tab_activation(SearchTabOwner::File(1), Some(SearchTabView { needs_restore: true, ..view })),
        ActivationStart::CommitNow
    ));
    assert!(matches!(w.prepare_search_tab_activation(SearchTabOwner::File(2), Some(view)), ActivationStart::Nothing));
    let start = w.prepare_search_tab_activation(SearchTabOwner::File(1), Some(view));
    assert!(matches!(start, ActivationStart::PrepareFile { target_revision: 5, .. }));
    let check = ActivationCheck { cancelled: false, same_owner: true, target_revision: Some(5), same_results: true, same_layout: true };
    w.documents[0].marked_rows.push(3);
    assert_eq!(w.finish_search_tab_activation(&start, check), ActivationFinish::Retry);

    let start = w.prepare_search_tab_activation(SearchTabOwner::AllOpenFiles, Some(view));
    assert_eq!(w.finish_search_tab_activation(&start, ActivationCheck { cancelled: true, ..check }), ActivationFinish::Dropped);
    assert_eq!(w.finish_search_tab_activation(&start, check), ActivationFinish::Commit);
    assert!(!w.runs.activation_running);
    let older = w.prepare_search_tab_activation(SearchTabOwner::AllOpenFiles, Some(view));
    w.cancel_search_tab_activation();
    assert_eq!(w.finish_search_tab_activation(&older, check), ActivationFinish::Dropped);
}

#[test]
fn pressing_a_row_makes_its_region_the_users() {
    let mut w = workspace(vec![tab(1, "logs/a.log", 11, 10)]);
    let press = w.select_wrapped_log_row(1, WrappedRegion::Results, 4, false, true, 1).unwrap();
    assert_eq!((press.focus, press.table, press.suppress_text_selection), (FocusTarget::ResultsViewer, SelectionTable::Results, true));
    assert_eq!((w.active_log_region, w.last_user_log_region), (LogRegion::CurrentResults, LogRegion::CurrentResults));
    assert!(w.select_wrapped_log_row(2, WrappedRegion::Log, 4, false, false, 1).is_none());
    let press = w.select_wrapped_global_row(false, true, false, 3);
    assert!(!press.suppress_text_selection && !press.begin_pointer_selection);
    assert_eq!(w.active_log_region, LogRegion::GlobalResults);
    assert_eq!(w.prepare_wrapped_log_context(1, WrappedRegion::Log, Some(7)), Some(FocusTarget::LogViewer));
    assert_eq!((w.selected_source_row, w.documents[0].selection_table), (Some(7), SelectionTable::Log));
}

#[test]
fn text_selection_starts_only_in_the_shown_regions() {
    let mut w = workspace(vec![tab(1, "logs/a.log", 11, 10)]);
    assert!(!w.is_text_selection_origin_in_log_region(|key: (u64, WrappedRegion)| key.1 == WrappedRegion::Results));
    w.documents[0].results_visible = true;
    assert!(w.is_text_selection_origin_in_log_region(|key: (u64, WrappedRegion)| key == (1, WrappedRegion::Results)));
    w.global_search.scope = SearchScope::Directory;
    assert!(!w.is_text_selection_origin_in_log_region(|key: (u64, WrappedRegion)| key.1 == WrappedRegion::GlobalResults));
    w.global_search.results_visible = true;
    assert!(w.is_text_selection_origin_in_log_region(|key: (u64, WrappedRegion)| key == (0, WrappedRegion::GlobalResults)));
}
