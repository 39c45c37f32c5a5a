//! Decision logic of the log viewer's workspace: row-drag selection, keyboard
//! selection, quick find, search limits, viewport anchors, search autocomplete,
//! color rules and row tags, stated over plain values.
use vstd::prelude::*;

pub mod regions;
pub mod row_drag;
pub mod workspace;
pub mod log_presentation;
pub mod path_map;
pub mod search_limits;
pub mod quick_find;
pub mod search_orchestration;
pub mod global_targets;
pub mod log_viewport;
pub mod viewport_anchor;
pub mod row_tags;
pub mod row_selection;
pub mod preferences;
pub mod result_jumps;
pub mod result_groups;
pub mod line_tasks;
pub mod color_rules;
pub mod search_runs;
pub mod search_tab_activation;
pub mod current_search;
pub mod result_navigation;
pub mod search_clearing;
pub mod global_selection;
pub mod context_menu;
pub mod title_bar;
pub mod settings_apply;
pub mod color_labels;
pub mod result_groups_source;
pub mod export_flow;
pub mod filter_saves;
pub mod retained_context;
pub mod search_input;
pub mod search_bar;
pub mod directory_options;
pub mod laws;

verus! {

} // verus!
