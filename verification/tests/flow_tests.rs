use vclogg::filter_saves::{FilterSave, FilterSaveNotice, FilterSaves};
use vclogg::row_tags::{remember_row_tag_preset, TagPreset};
use vclogg::search_runs::{persisted_search_query, restored_search_query, SearchQueryPlan};
use vclogg::search_input::{single_line_query, sync_search_query_from_input, sync_single_line_search};

fn preset(label: &str, color: u32) -> TagPreset {
    TagPreset { label: label.to_string(), color, style: 0 }
}

#[test]
fn filter_saves_run_one_at_a_time_and_keep_the_latest() {
    let mut saves: FilterSaves<Vec<&str>> = FilterSaves::new();
    assert!(matches!(saves.save(false, 1, vec!["a"]), FilterSave::NotPersisted));
    assert!(!saves.saving);
    assert!(matches!(saves.save(true, 2, vec!["b"]), FilterSave::Persist(2, _)));
    assert!(matches!(saves.save(true, 3, vec!["c"]), FilterSave::Queued));
    assert!(matches!(saves.save(true, 4, vec!["d"]), FilterSave::Queued));
    let (notice, next) = saves.finish(Ok(false), true);
    assert_eq!(notice, FilterSaveNotice::Nothing);
    match next {
        Some(FilterSave::Persist(revision, filters)) => {
            assert_eq!(revision, 4);
            assert_eq!(filters, vec!["d"]);
        }
        _ => panic!("the latest waiting save should run"),
    }
    assert!(saves.saving);
    let (notice, next) = saves.finish(Ok(true), true);
    assert_eq!(notice, FilterSaveNotice::Saved);
    assert!(next.is_none());
    assert!(!saves.saving);
}

#[test]
fn filter_save_failures_are_reported() {
    let mut saves: FilterSaves<u8> = FilterSaves::new();
    saves.save(true, 1, 1);
    saves.save(true, 2, 2);
    let (notice, next) = saves.finish(Err("io".to_string()), false);
    assert_eq!(notice, FilterSaveNotice::Failed("io".to_string()));
    assert!(matches!(next, Some(FilterSave::NotPersisted)));
    assert!(!saves.saving);
    assert!(saves.pending.is_none());
}

#[test]
fn remembered_tag_preset_comes_first_once() {
    let mut presets = vec![preset("todo", 1), preset("bug", 2), preset("todo", 3)];
    remember_row_tag_preset(&mut presets, preset("todo", 9));
    let labels: Vec<(String, u32)> = presets.iter().map(|p| (p.label.clone(), p.color)).collect();
    assert_eq!(labels, vec![("todo".to_string(), 9), ("bug".to_string(), 2)]);
    remember_row_tag_preset(&mut presets, preset("new", 4));
    assert_eq!(presets.len(), 3);
    assert_eq!(presets[0].label, "new");
}

#[test]
fn single_line_editor_shows_line_breaks_as_spaces() {
    assert_eq!(single_line_query("a\r\nb\nc"), "a  b c");
    assert_eq!(single_line_query("ünï\ncode"), "ünï code");
    assert_eq!(sync_single_line_search("a\nb", "a b"), None);
    assert_eq!(sync_single_line_search("a\nb", "a"), Some("a b".to_string()));
    assert_eq!(sync_search_query_from_input(true, "a\nb", "x"), None);
    assert_eq!(sync_search_query_from_input(false, "a\nb", "a b"), None);
    assert_eq!(sync_search_query_from_input(false, "a\nb", "a c"), Some("a c".to_string()));
}

#[test]
fn persisted_queries_drop_and_regain_the_match_limit() {
    let plan = SearchQueryPlan { text: "err".to_string(), case_sensitive: true, regex: false, max_results: Some(9) };
    let persisted = persisted_search_query(&plan);
    assert_eq!(persisted.text, "err");
    assert!(persisted.case_sensitive && !persisted.regex);
    let restored = restored_search_query(&persisted, Some(50));
    assert_eq!(restored.text, "err");
    assert!(restored.case_sensitive && !restored.regex);
    assert_eq!(restored.max_results, Some(50));
    assert_eq!(restored_search_query(&persisted, None).max_results, None);
}
