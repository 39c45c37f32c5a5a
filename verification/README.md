# vclogg

The decision logic of a desktop log viewer's workspace, written in Verus and proved against
its contracts: what each user action and each background answer does to the workspace state,
stated over plain values (tabs, search sessions, result rows, selections, marks, settings).

Rendering, file and network I/O, timers and the GUI toolkit are not part of the library: where
an operation needs them, the library decides and returns what has to be done, and the caller
performs it and hands the answer back.

## Layout

- `src/workspace.rs` — the workspace state: tabs, multi-file search state, preferences.
- `src/current_search.rs`, `src/search_runs.rs`, `src/search_clearing.rs`,
  `src/search_tab_activation.rs`, `src/global_selection.rs`, `src/retained_context.rs` —
  starting, finishing, cancelling and clearing searches; switching scopes.
- `src/result_*.rs`, `src/export_flow.rs` — multi-file result groups, jumps and exports.
- `src/quick_find.rs`, `src/search_limits.rs`, `src/search_orchestration.rs`,
  `src/search_input.rs` — quick find, search ranges, autocomplete and history, the two
  search editors.
- `src/log_presentation.rs`, `src/row_drag.rs`, `src/row_selection.rs`,
  `src/log_viewport.rs`, `src/viewport_anchor.rs` — selection by drag and keyboard, the
  scroll owner of a log region and its anchors.
- `src/row_tags.rs`, `src/color_rules.rs`, `src/color_labels.rs`, `src/global_targets.rs`,
  `src/line_tasks.rs` — marks, keyword color rules and labels, the rows they target.
- `src/preferences.rs`, `src/settings_apply.rs`, `src/filter_saves.rs` — settings, pinned
  files, history, saves.
- `src/title_bar.rs`, `src/search_bar.rs`, `src/context_menu.rs` — what the menus and bars
  show.
- `src/laws.rs` — properties that span several operations.
- `tests/` — tests on concrete values; `app/` — the geometry helpers that work on floating
  point, which the library does not take.
