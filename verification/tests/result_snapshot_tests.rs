use std::collections::BTreeMap;

use vclogg::global_targets::{ColorKeywordSelection, ColorKeywordTarget, SelectedRows};
use vclogg::line_tasks::{
    collect_log_lines_for_clipboard, prepare_color_keywords, prepare_color_rule_resolutions,
    ColorRuleResolutionInput, DocumentLineTask,
};
use vclogg::regions::{DocumentLoadState, SearchScope};
use vclogg::result_groups::group_result_rows_by_document;
use vclogg::result_jumps::{
    next_persisted_search_restore_scope, opening_restore_source_row, pending_search_result_jump,
    result_snapshot_matches_document, should_defer_directory_group_activation,
    should_defer_search_result_jump, DocumentSnapshot, GlobalSearchDocumentResult, PreparedLogJump,
};
use vclogg::workspace::KeywordColorRule;

#[test]
fn cancelled_clipboard_collection_does_not_read_documents() {
    let document_id = 1;
    let rows = vec![(document_id, 0)];

    assert!(collect_log_lines_for_clipboard(
        &rows,
        false,
        || true,
        |_: u64, _: usize| -> Option<String> { panic!("a cancelled copy reads no line of cancelled-copy.log") },
    )
    .is_cancelled());
}

#[test]
fn cancelled_color_keyword_preparation_does_not_read_documents() {
    let target = ColorKeywordTarget {
        document_id: 1,
        snapshot: 1,
        selection: ColorKeywordSelection::Rows(vec![0]),
    };

    assert!(prepare_color_keywords(
        target,
        true,
        || true,
        |_: usize| -> Option<String> { panic!("a cancelled preparation reads no line of cancelled-color.log") },
    )
    .is_cancelled());
}

#[test]
fn clearing_color_rules_skips_selected_row_decoding() {
    let target = ColorKeywordTarget {
        document_id: 1,
        snapshot: 1,
        selection: ColorKeywordSelection::Rows(vec![usize::MAX]),
    };

    let prepared = match prepare_color_keywords(
        target,
        false,
        || false,
        |_: usize| -> Option<String> { panic!("clearing reads no line of clear-color.log") },
    ) {
        DocumentLineTask::Completed(prepared) => prepared,
        _ => panic!("清除颜色规则无需读取所选行"),
    };

    assert!(prepared.keywords.is_empty());
}

#[test]
fn cancelled_color_label_resolution_batch_stops_before_work() {
    let inputs = vec![ColorRuleResolutionInput { document_id: 17, snapshot: 1, rules: Vec::new() }];

    assert!(prepare_color_rule_resolutions(
        inputs,
        || true,
        |_: &Vec<KeywordColorRule>| -> () { panic!("a cancelled batch resolves nothing of cancelled-label-batch.log") },
    )
    .is_none());
}

#[test]
fn result_presentation_state_requires_both_path_and_snapshot_identity() {
    let stored = "logs/a.log".to_string();
    let result = DocumentSnapshot { path_key: stored.clone(), snapshot: 1 };
    assert!(result_snapshot_matches_document(&stored, &result, &result));

    let other_path = DocumentSnapshot { path_key: "logs/b.log".to_string(), snapshot: 2 };
    assert!(!result_snapshot_matches_document(&stored, &result, &other_path));
}

#[test]
fn unopened_match_rows_create_pending_jumps_for_global_and_directory_results() {
    let result = GlobalSearchDocumentResult {
        title: "unopened.log".to_string(),
        path: "logs/unopened.log".to_string(),
        snapshot: 5,
    };

    for scope in [SearchScope::AllOpenFiles, SearchScope::Directory] {
        let pending = pending_search_result_jump(Some(scope), Some(&result), 17)
            .expect("工作区搜索结果应在打开文件后继续定位");

        assert_eq!(pending.path, "logs/unopened.log".to_string());
        assert_eq!(pending.source_row, 17);
        assert_eq!(pending.expected_snapshot, result.snapshot);
    }

    assert!(pending_search_result_jump(Some(SearchScope::CurrentFile), Some(&result), 17).is_none());
    assert!(pending_search_result_jump(None, Some(&result), 17).is_none());
}

#[test]
fn search_result_jump_waits_for_a_selection_frame_until_the_target_is_ready() {
    assert!(should_defer_search_result_jump(None));
    assert!(should_defer_search_result_jump(Some(DocumentLoadState::Opening)));
    assert!(should_defer_search_result_jump(Some(DocumentLoadState::Preview)));
    assert!(!should_defer_search_result_jump(Some(DocumentLoadState::Ready)));
}

#[test]
fn selected_search_result_row_overrides_the_files_persisted_row_while_opening() {
    let selected_result_jump = PreparedLogJump { source_row: 17, row_ix: 17 };

    assert_eq!(opening_restore_source_row(Some(selected_result_jump), Some(4)), Some(17));
    assert_eq!(opening_restore_source_row(None, Some(4)), Some(4));
}

#[test]
fn persisted_search_restore_prioritizes_active_scope_then_restores_the_other_scope() {
    assert_eq!(
        next_persisted_search_restore_scope(SearchScope::Directory, true, true),
        Some(SearchScope::Directory)
    );
    assert_eq!(
        next_persisted_search_restore_scope(SearchScope::Directory, true, false),
        Some(SearchScope::AllOpenFiles)
    );
    assert_eq!(
        next_persisted_search_restore_scope(SearchScope::CurrentFile, true, true),
        Some(SearchScope::AllOpenFiles)
    );
    assert_eq!(
        next_persisted_search_restore_scope(SearchScope::AllOpenFiles, false, true),
        Some(SearchScope::Directory)
    );
}

#[test]
fn directory_group_activation_waits_for_a_complete_target_frame() {
    let pending = "logs/a.log".to_string();

    assert!(should_defer_directory_group_activation(Some(&pending), &pending, DocumentLoadState::Opening));
    assert!(should_defer_directory_group_activation(Some(&pending), &pending, DocumentLoadState::Preview));
    assert!(!should_defer_directory_group_activation(Some(&pending), &pending, DocumentLoadState::Ready));
    assert!(!should_defer_directory_group_activation(
        Some(&pending),
        &"logs/b.log".to_string(),
        DocumentLoadState::Opening,
    ));
}

#[test]
fn result_row_target_resolution_is_atomic_and_groups_by_open_document() {
    let selected = vec![
        SelectedRows { document_id: 101, rows: vec![2, 7] },
        SelectedRows { document_id: 102, rows: vec![4] },
    ];
    let grouped = group_result_rows_by_document(&selected, |rows: &SelectedRows| {
        Some(match rows.document_id {
            101 => 1,
            102 => 2,
            _ => return None,
        })
    })
    .map(|groups| {
        groups
            .into_iter()
            .map(|group| {
                let mut rows = group.rows;
                rows.sort();
                (group.document_id, rows)
            })
            .collect::<BTreeMap<_, _>>()
    });
    assert_eq!(grouped, Some(BTreeMap::from([(1, vec![2, 7]), (2, vec![4])])));

    let unresolved = group_result_rows_by_document(&selected, |rows: &SelectedRows| {
        (rows.document_id == 101).then_some(1)
    });
    assert!(unresolved.is_none());
}

#[test]
fn color_label_resolution_batch_preserves_document_inputs() {
    let label = ("red".to_string(), 0xd03030u32, 0x80u8);
    let rule = KeywordColorRule {
        label_id: Some(label.0.clone()),
        keyword: "needle".to_string(),
        color: 0,
        alpha: 0,
        case_sensitive: true,
        enabled: true,
    };
    let labels = vec![label.clone()];
    let resolve = |rules: &Vec<KeywordColorRule>| -> Vec<(String, (u32, u8))> {
        rules
            .iter()
            .filter_map(|rule| {
                let id = rule.label_id.as_ref()?;
                let (_, color, alpha) = labels.iter().find(|(label_id, _, _)| label_id == id)?;
                Some((rule.keyword.clone(), (*color, *alpha)))
            })
            .collect()
    };

    let prepared = prepare_color_rule_resolutions(
        vec![ColorRuleResolutionInput { document_id: 17, snapshot: 3, rules: vec![rule.clone()] }],
        || false,
        resolve,
    )
    .expect("the color label batch completes");

    assert_eq!(prepared.len(), 1);
    assert_eq!(prepared[0].document_id, 17);
    assert_eq!(prepared[0].snapshot, 3);
    assert_eq!(prepared[0].rules.len(), 1);
    assert_eq!(prepared[0].rules[0].keyword, rule.keyword);
    assert_eq!(prepared[0].rules[0].label_id, rule.label_id);
    assert_eq!(prepared[0].resolved[0], ("needle".to_string(), (label.1, label.2)));
}
