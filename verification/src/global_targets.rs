//! Which open tab a global search result belongs to, and what a row's context menu acts on.
use vstd::prelude::*;
use crate::regions::{LogRegion, SearchScope};
use crate::workspace::{
    first_index, lemma_first_index, result_ix, spec_first_result, spec_first_tab, tab_ix, DocumentTab,
    GlobalResultEntry, KeywordColorRule, Workspace,
};

verus! {

/// A result was searched in the snapshot that a tab shows: same path, same snapshot.
pub open spec fn spec_result_matches_tab(result: GlobalResultEntry, tab: DocumentTab) -> bool {
    result.path_key@ == tab.path_key@ && result.snapshot == tab.snapshot
}

/// The tab that shows the result of `document_id`: the tab with that id, or one of the result's
/// file.
pub open spec fn spec_open_for_result(document_id: u64, result_path: Option<Seq<char>>) -> spec_fn(DocumentTab) -> bool {
    |tab: DocumentTab| tab.id == document_id || (result_path is Some && tab.path_key@ == result_path->0)
}

/// Selected result rows of one file.
#[derive(Clone, Debug)]
pub struct SelectedRows {
    /// The document id the global results list the rows under.
    pub document_id: u64,
    /// The selected source rows, ascending.
    pub rows: Vec<usize>,
}

/// What a color label is applied to.
#[derive(Clone, Debug)]
pub enum ColorKeywordSelection {
    /// The selected text is the keyword.
    Text(String),
    /// The keywords are taken from the lines of these source rows.
    Rows(Vec<usize>),
}

/// The file and selection a color action applies to.
#[derive(Clone, Debug)]
pub struct ColorKeywordTarget {
    pub document_id: u64,
    pub snapshot: u64,
    pub selection: ColorKeywordSelection,
}

/// Why a color action has no target.
#[derive(Clone, Copy, Debug, PartialEq, Eq, Structural)]
pub enum ColorTargetError {
    /// No log row is selected.
    NoSelection,
    /// No open file can own the rule.
    NoOwner,
    /// Global rows of several files are selected.
    SeveralFiles,
    /// The directory result's file is not open in the searched snapshot.
    StaleDirectoryResult,
    /// The selected results' file was closed.
    ResultFileClosed,
    /// No tab is active.
    NoActiveFile,
}

/// The target is the tab at `ix` with the text keyword.
pub open spec fn spec_text_target(target: Result<(usize, ColorKeywordTarget), ColorTargetError>, ix: int, text: Seq<char>) -> bool {
    match target {
        Ok((t_ix, t)) => t_ix == ix && match t.selection {
            ColorKeywordSelection::Text(k) => k@ == text,
            _ => false,
        },
        Err(_) => false,
    }
}

/// The target is the tab at `ix` with the selected rows.
pub open spec fn spec_rows_target(target: Result<(usize, ColorKeywordTarget), ColorTargetError>, ix: int, rows: Seq<usize>) -> bool {
    match target {
        Ok((t_ix, t)) => t_ix == ix && match t.selection {
            ColorKeywordSelection::Rows(r) => r@ == rows,
            _ => false,
        },
        Err(_) => false,
    }
}

/// The label of the context menu's mark item.
#[derive(Clone, Copy, Debug, PartialEq, Eq, Structural)]
pub enum MarkLabel {
    Mark,
    Unmark,
}

/// A rule that applies to exactly `keyword`.
pub open spec fn spec_rule_for(rule: KeywordColorRule, keyword: Seq<char>) -> bool {
    rule.enabled && rule.case_sensitive && rule.keyword@ == keyword
}

/// The label of the first rule that applies to exactly `keyword`.
pub open spec fn spec_rule_label(rules: Seq<KeywordColorRule>, keyword: Seq<char>) -> Option<String> {
    match first_index(rules, |rule: KeywordColorRule| spec_rule_for(rule, keyword)) {
        Some(i) => rules[i].label_id,
        None => None,
    }
}

/// The label of the first rule that applies to exactly `keyword`.
pub fn rule_label(rules: &Vec<KeywordColorRule>, keyword: &String) -> (label: Option<String>)
    ensures
        label == spec_rule_label(rules@, keyword@),
{
    let ghost p = |rule: KeywordColorRule| spec_rule_for(rule, keyword@);
    let mut i: usize = 0;
    while i < rules.len()
        invariant
            i <= rules.len(),
            p == (|rule: KeywordColorRule| spec_rule_for(rule, keyword@)),
            forall|j: int| 0 <= j < i ==> !p(rules@[j]),
        decreases rules.len() - i,
    {
        let rule = &rules[i];
        if rule.enabled && rule.case_sensitive && rule.keyword == *keyword {
            proof { lemma_first_index(rules@, p, i as int); }
            return rule.label_id.clone();
        }
        i = i + 1;
    }
    proof { lemma_first_index(rules@, p, i as int); }
    None
}

/// Every row of `rows` is in `marked`.
pub open spec fn spec_contains_all(marked: Seq<usize>, rows: Seq<usize>) -> bool {
    forall|i: int| 0 <= i < rows.len() ==> marked.contains(#[trigger] rows[i])
}

/// Every row of `rows` is in `marked`.
pub fn contains_all(marked: &Vec<usize>, rows: &Vec<usize>) -> (all: bool)
    ensures
        all == spec_contains_all(marked@, rows@),
{
    let mut i: usize = 0;
    while i < rows.len()
        invariant
            i <= rows.len(),
            forall|j: int| 0 <= j < i ==> marked@.contains(#[trigger] rows@[j]),
        decreases rows.len() - i,
    {
        let row = rows[i];
        let mut found = false;
        let mut j: usize = 0;
        while j < marked.len()
            invariant
                j <= marked.len(),
                found ==> marked@.contains(row),
                !found ==> forall|k: int| 0 <= k < j ==> marked@[k] != row,
            decreases marked.len() - j,
        {
            if marked[j] == row {
                found = true;
            }
            j = j + 1;
        }
        if !found {
            return false;
        }
        i = i + 1;
    }
    true
}

impl<P: Copy> Workspace<P> {
    /// The path of the installed result of `document_id`.
    pub open spec fn spec_result_path(self, document_id: u64) -> Option<Seq<char>> {
        match spec_first_result(self.global_search.results@, document_id) {
            Some(i) => Some(self.global_search.results@[i].path_key@),
            None => None,
        }
    }

    /// The index of the tab that shows the global result of `document_id`: the first tab with
    /// that id or of the result's file.
    pub fn open_document_ix_for_global_result(&self, document_id: u64) -> (ix: Option<usize>)
        ensures
            match ix {
                Some(i) => first_index(self.documents@, spec_open_for_result(document_id, self.spec_result_path(document_id))) == Some(i as int),
                None => first_index(self.documents@, spec_open_for_result(document_id, self.spec_result_path(document_id))) is None,
            },
    {
        let result = result_ix(&self.global_search.results, document_id);
        let ghost path = self.spec_result_path(document_id);
        let ghost p = spec_open_for_result(document_id, path);
        let mut i: usize = 0;
        while i < self.documents.len()
            invariant
                i <= self.documents.len(),
                path == self.spec_result_path(document_id),
                p == spec_open_for_result(document_id, path),
                match result {
                    Some(r) => r < self.global_search.results.len() && path == Some(self.global_search.results@[r as int].path_key@),
                    None => path is None,
                },
                forall|j: int| 0 <= j < i ==> !p(self.documents@[j]),
            decreases self.documents.len() - i,
        {
            let tab = &self.documents[i];
            let hit = tab.id == document_id || match result {
                Some(r) => tab.path_key == self.global_search.results[r].path_key,
                None => false,
            };
            if hit {
                proof { lemma_first_index(self.documents@, p, i as int); }
                return Some(i);
            }
            i = i + 1;
        }
        proof { lemma_first_index(self.documents@, p, i as int); }
        None
    }

    /// The tab that shows a global result as it was searched: the tab
    /// `open_document_ix_for_global_result` finds, provided it shows the searched snapshot.
    pub open spec fn spec_presentation_ix(self, document_id: u64) -> Option<int> {
        let ix = first_index(self.documents@, spec_open_for_result(document_id, self.spec_result_path(document_id)));
        match ix {
            None => None,
            Some(i) => match spec_first_result(self.global_search.results@, document_id) {
                None => Some(i),
                Some(r) => if spec_result_matches_tab(self.global_search.results@[r], self.documents@[i]) {
                    Some(i)
                } else {
                    None
                },
            },
        }
    }

    /// The tab that shows a global result as it was searched.
    pub fn presentation_document_ix_for_global_result(&self, document_id: u64) -> (ix: Option<usize>)
        ensures
            match ix {
                Some(i) => self.spec_presentation_ix(document_id) == Some(i as int),
                None => self.spec_presentation_ix(document_id) is None,
            },
    {
        let ix = match self.open_document_ix_for_global_result(document_id) {
            Some(ix) => ix,
            None => return None,
        };
        proof {
            lemma_first_index(self.documents@, spec_open_for_result(document_id, self.spec_result_path(document_id)), 0);
        }
        match result_ix(&self.global_search.results, document_id) {
            None => Some(ix),
            Some(r) => {
                let result = &self.global_search.results[r];
                let tab = &self.documents[ix];
                if result.path_key == tab.path_key && result.snapshot == tab.snapshot { Some(ix) } else { None }
            },
        }
    }

    /// The tab id a global selection of one file is marked in: with directory results the tab
    /// that shows the searched snapshot, else the tab with the result's id; the tab's snapshot
    /// must hold the first and last selected rows.
    pub open spec fn spec_mark_target(self, selected: SelectedRows) -> Option<u64> {
        let directory = self.global_search.result_scope == Some(SearchScope::Directory);
        let ix = if directory {
            self.spec_presentation_ix(selected.document_id)
        } else {
            spec_first_tab(self.documents@, selected.document_id)
        };
        let rows = selected.rows@;
        match ix {
            Some(i) => if rows.len() > 0 && rows[0] < self.documents@[i].line_count
                && rows[rows.len() - 1] < self.documents@[i].line_count {
                Some(self.documents@[i].id)
            } else {
                None
            },
            None => None,
        }
    }

    /// The tab id each selected file's rows are marked in, in selection order; `None` unless
    /// every file resolves.
    pub fn resolve_global_mark_targets(&self, selected: &Vec<SelectedRows>) -> (targets: Option<Vec<u64>>)
        ensures
            match targets {
                Some(t) => t.len() == selected.len()
                    && forall|i: int| 0 <= i < selected.len() ==> self.spec_mark_target(#[trigger] selected@[i]) == Some(t@[i]),
                None => exists|i: int| 0 <= i < selected.len() && self.spec_mark_target(#[trigger] selected@[i]) is None,
            },
    {
        let directory = self.global_search.result_scope == Some(SearchScope::Directory);
        let mut targets: Vec<u64> = Vec::new();
        let mut i: usize = 0;
        while i < selected.len()
            invariant
                i <= selected.len(),
                directory == (self.global_search.result_scope == Some(SearchScope::Directory)),
                targets.len() == i,
                forall|j: int| 0 <= j < i ==> self.spec_mark_target(#[trigger] selected@[j]) == Some(targets@[j]),
            decreases selected.len() - i,
        {
            let rows = &selected[i];
            let ix = if directory {
                self.presentation_document_ix_for_global_result(rows.document_id)
            } else {
                tab_ix(&self.documents, rows.document_id)
            };
            proof {
                lemma_first_index(self.documents@, spec_open_for_result(rows.document_id, self.spec_result_path(rows.document_id)), 0);
            }
            let n = rows.rows.len();
            let resolved = match ix {
                Some(ix) => {
                    let tab = &self.documents[ix];
                    if n > 0 && rows.rows[0] < tab.line_count && rows.rows[n - 1] < tab.line_count {
                        Some(tab.id)
                    } else {
                        None
                    }
                },
                None => None,
            };
            match resolved {
                Some(id) => targets.push(id),
                None => {
                    assert(self.spec_mark_target(selected@[i as int]) is None);
                    return None;
                },
            }
            i = i + 1;
        }
        Some(targets)
    }
}

impl<P: Copy> Workspace<P> {
    /// The active index names a tab, if any.
    pub open spec fn spec_active_valid(self) -> bool {
        self.active_ix is Some ==> self.active_ix->0 < self.documents.len()
    }

    /// The selected rows of one file are all marked in the tab they resolve to.
    pub open spec fn spec_selection_marked(self, selected: SelectedRows) -> bool {
        match self.spec_mark_target(selected) {
            Some(id) => match spec_first_tab(self.documents@, id) {
                Some(ix) => spec_contains_all(self.documents@[ix].marked_rows@, selected.rows@),
                None => false,
            },
            None => false,
        }
    }

    /// Whether the context menu offers to unmark the selection: every selected row is already
    /// marked. In the global results the selection must be non-empty and each file must
    /// resolve to a tab whose marks hold its rows; elsewhere the active tab's selected rows must
    /// be non-empty and marked.
    pub fn context_mark_label(&self, global_selection: &Vec<SelectedRows>, local_selection: &Vec<usize>) -> (label: MarkLabel)
        ensures
            (label == MarkLabel::Unmark) == if self.active_log_region == LogRegion::GlobalResults {
                global_selection.len() > 0
                    && forall|i: int| 0 <= i < global_selection.len() ==> self.spec_selection_marked(#[trigger] global_selection@[i])
            } else {
                self.spec_active_tab() is Some && local_selection.len() > 0
                    && spec_contains_all(self.spec_active_tab()->0.marked_rows@, local_selection@)
            },
    {
        if self.active_log_region == LogRegion::GlobalResults {
            if global_selection.len() == 0 {
                return MarkLabel::Mark;
            }
            let targets = match self.resolve_global_mark_targets(global_selection) {
                Some(targets) => targets,
                None => {
                    proof {
                        let k = choose|k: int| 0 <= k < global_selection.len()
                            && self.spec_mark_target(#[trigger] global_selection@[k]) is None;
                        assert(!self.spec_selection_marked(global_selection@[k]));
                    }
                    return MarkLabel::Mark;
                },
            };
            let mut i: usize = 0;
            while i < global_selection.len()
                invariant
                    i <= global_selection.len(),
                    self.active_log_region == LogRegion::GlobalResults,
                    targets.len() == global_selection.len(),
                    forall|j: int| 0 <= j < global_selection.len() ==> self.spec_mark_target(#[trigger] global_selection@[j]) == Some(targets@[j]),
                    forall|j: int| 0 <= j < i ==> self.spec_selection_marked(#[trigger] global_selection@[j]),
                decreases global_selection.len() - i,
            {
                let found = tab_ix(&self.documents, targets[i]);
                let all = match found {
                    Some(ix) => contains_all(&self.documents[ix].marked_rows, &global_selection[i].rows),
                    None => false,
                };
                let ghost sel = global_selection@[i as int];
                assert(self.spec_mark_target(sel) == Some(targets@[i as int]));
                assert(self.spec_selection_marked(sel) == all);
                if !all {
                    return MarkLabel::Mark;
                }
                i = i + 1;
            }
            MarkLabel::Unmark
        } else {
            match self.active_ix {
                Some(ix) => if ix < self.documents.len() && local_selection.len() > 0
                    && contains_all(&self.documents[ix].marked_rows, local_selection) {
                    MarkLabel::Unmark
                } else {
                    MarkLabel::Mark
                },
                None => MarkLabel::Mark,
            }
        }
    }

    /// The file and selection a color action from the context menu applies to.
    ///
    /// `selected_text` is the selected text, trimmed, if not empty. In the global results,
    /// `global_selection` holds the selected rows per file: a text keyword belongs to the tab of
    /// the first file (or the active tab), while selected rows must come from one file that is
    /// open in the searched snapshot. Elsewhere the active tab owns the text or its selected
    /// `local_rows`.
    pub fn context_color_target(
        &self,
        selected_text: Option<String>,
        global_selection: &Vec<SelectedRows>,
        local_rows: Vec<usize>,
    ) -> (target: Result<(usize, ColorKeywordTarget), ColorTargetError>)
        requires
            self.spec_active_valid(),
        ensures
            match target {
                Ok((ix, t)) => ix < self.documents.len() && t.document_id == self.documents@[ix as int].id
                    && t.snapshot == self.documents@[ix as int].snapshot,
                Err(_) => true,
            },
            ({
                if self.active_log_region == LogRegion::GlobalResults {
                    if global_selection.len() == 0 {
                        target == Err::<(usize, ColorKeywordTarget), _>(ColorTargetError::NoSelection)
                    } else {
                        let first = global_selection@[0];
                        let owner = self.spec_presentation_ix(first.document_id);
                        match selected_text {
                            Some(text) => {
                                let ix = if owner is Some { owner } else {
                                    match self.active_ix { Some(a) => Some(a as int), None => None }
                                };
                                match ix {
                                    None => target == Err::<(usize, ColorKeywordTarget), _>(ColorTargetError::NoOwner),
                                    Some(i) => spec_text_target(target, i, text@),
                                }
                            },
                            None => if global_selection.len() > 1 {
                                target == Err::<(usize, ColorKeywordTarget), _>(ColorTargetError::SeveralFiles)
                            } else {
                                match owner {
                                    None => target == Err::<(usize, ColorKeywordTarget), _>(
                                        if self.global_search.scope == SearchScope::Directory {
                                            ColorTargetError::StaleDirectoryResult
                                        } else {
                                            ColorTargetError::ResultFileClosed
                                        }),
                                    Some(i) => spec_rows_target(target, i, first.rows@),
                                }
                            },
                        }
                    }
                } else {
                    match self.active_ix {
                        None => target == Err::<(usize, ColorKeywordTarget), _>(ColorTargetError::NoActiveFile),
                        Some(a) => match selected_text {
                            Some(text) => spec_text_target(target, a as int, text@),
                            None => spec_rows_target(target, a as int, local_rows@),
                        },
                    }
                }
            }),
    {
        if self.active_log_region == LogRegion::GlobalResults {
            if global_selection.len() == 0 {
                return Err(ColorTargetError::NoSelection);
            }
            let first = &global_selection[0];
            let owner = self.presentation_document_ix_for_global_result(first.document_id);
            match selected_text {
                Some(text) => {
                    let ix = match owner {
                        Some(ix) => ix,
                        None => match self.active_ix {
                            Some(a) => a,
                            None => return Err(ColorTargetError::NoOwner),
                        },
                    };
                    proof {
                        lemma_first_index(self.documents@, spec_open_for_result(first.document_id, self.spec_result_path(first.document_id)), 0);
                    }
                    let tab = &self.documents[ix];
                    Ok((ix, ColorKeywordTarget {
                        document_id: tab.id,
                        snapshot: tab.snapshot,
                        selection: ColorKeywordSelection::Text(text),
                    }))
                },
                None => {
                    if global_selection.len() > 1 {
                        return Err(ColorTargetError::SeveralFiles);
                    }
                    let ix = match owner {
                        Some(ix) => ix,
                        None => return Err(if self.global_search.scope == SearchScope::Directory {
                            ColorTargetError::StaleDirectoryResult
                        } else {
                            ColorTargetError::ResultFileClosed
                        }),
                    };
                    proof {
                        lemma_first_index(self.documents@, spec_open_for_result(first.document_id, self.spec_result_path(first.document_id)), 0);
                    }
                    let tab = &self.documents[ix];
                    Ok((ix, ColorKeywordTarget {
                        document_id: tab.id,
                        snapshot: tab.snapshot,
                        selection: ColorKeywordSelection::Rows(copy_rows(&first.rows)),
                    }))
                },
            }
        } else {
            let ix = match self.active_ix {
                Some(ix) => ix,
                None => return Err(ColorTargetError::NoActiveFile),
            };
            let tab = &self.documents[ix];
            let selection = match selected_text {
                Some(text) => ColorKeywordSelection::Text(text),
                None => ColorKeywordSelection::Rows(local_rows),
            };
            Ok((ix, ColorKeywordTarget { document_id: tab.id, snapshot: tab.snapshot, selection }))
        }
    }

    /// The label the context menu shows as checked for the selected text: the label of the
    /// session rule for exactly that text in a multi-file scope, else that of the owning tab's
    /// rule; `None` without selected text.
    pub fn context_color_label_id(
        &self,
        selected_text: Option<String>,
        global_selection: &Vec<SelectedRows>,
    ) -> (label: Option<String>)
        requires
            self.spec_active_valid(),
        ensures
            match selected_text {
                None => label is None,
                Some(text) => {
                    let session = match self.global_search.scope {
                        SearchScope::AllOpenFiles => spec_rule_label(self.global_search.all_open_rules@, text@),
                        SearchScope::Directory => spec_rule_label(self.global_search.directory_rules@, text@),
                        SearchScope::CurrentFile => None,
                    };
                    if session is Some {
                        label == session
                    } else {
                        true
                    }
                },
            },
    {
        let text = match selected_text {
            Some(text) => text,
            None => return None,
        };
        let session = match self.global_search.scope {
            SearchScope::AllOpenFiles => rule_label(&self.global_search.all_open_rules, &text),
            SearchScope::Directory => rule_label(&self.global_search.directory_rules, &text),
            SearchScope::CurrentFile => None,
        };
        if session.is_some() {
            return session;
        }
        let keyword = text.clone();
        match self.context_color_target(Some(text), global_selection, Vec::new()) {
            Ok((ix, _)) => rule_label(&self.documents[ix].keyword_color_rules, &keyword),
            Err(_) => None,
        }
    }

    /// Abandons the running color-rule update.
    pub fn cancel_color_rule_action(&mut self)
        ensures
            *final(self) == (Workspace {
                color_rule_revision: crate::regions::spec_sat_inc(old(self).color_rule_revision),
                color_rule_running: false,
                ..*old(self)
            }),
    {
        self.color_rule_revision = self.color_rule_revision.saturating_add(1);
        self.color_rule_running = false;
    }
}

/// A copy of a row list.
pub fn copy_rows(rows: &Vec<usize>) -> (copy: Vec<usize>)
    ensures
        copy@ == rows@,
{
    let mut copy: Vec<usize> = Vec::new();
    let mut i: usize = 0;
    while i < rows.len()
        invariant
            i <= rows.len(),
            copy@ == rows@.take(i as int),
        decreases rows.len() - i,
    {
        copy.push(rows[i]);
        proof { assert(rows@.take(i + 1) =~= rows@.take(i as int).push(rows@[i as int])); }
        i = i + 1;
    }
    assert(rows@.take(i as int) =~= rows@);
    copy
}

} // verus!
