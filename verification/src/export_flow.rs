//! Exporting search results: when an export may start, what it exports, and what its answer
//! tells the user.
use vstd::prelude::*;
use crate::regions::{DocumentLoadState, SearchScope};
use crate::workspace::{FileActivity, Workspace};

verus! {

/// An export of search results.
#[derive(Clone, Copy, Debug, PartialEq, Eq, Structural)]
pub enum ExportOperation {
    /// The results are written to a temporary file opened in a new tab.
    OpenInNewTab,
    /// The multi-file results are merged by timestamp into a new tab.
    MergeByTimestamp,
    /// The results are saved to a file the user picks.
    SaveAs,
}

/// What an export writes.
#[derive(Clone, Debug, PartialEq, Eq)]
pub enum ExportSnapshot {
    /// The active file's result rows.
    Single { document_id: u64 },
    /// The multi-file result groups with rows, by index.
    Global { groups: Vec<usize> },
}

/// What the answer of an export tells the user.
#[derive(Clone, Debug, PartialEq, Eq)]
pub enum ExportNotice {
    Nothing,
    /// This many result lines were written to a new tab, which opens; merged by timestamp
    /// where `merged`.
    OpenedInTab { row_count: usize, merged: bool },
    /// The results were written, but another file is being opened.
    OpenBusy,
    /// This many result lines were saved.
    Saved { row_count: usize },
    /// The export failed; the message is shown.
    Failed(String),
}

/// The indices of the groups with rows.
pub open spec fn spec_groups_with_rows(group_rows: Seq<usize>) -> Seq<usize>
    decreases group_rows.len(),
{
    if group_rows.len() == 0 {
        Seq::empty()
    } else {
        let rest = spec_groups_with_rows(group_rows.drop_last());
        if group_rows.last() > 0 { rest.push((group_rows.len() - 1) as usize) } else { rest }
    }
}

/// What an export of the active scope's results writes: the active file's rows where it is
/// fully loaded and has result rows (`current_rows` of them); the multi-file groups with rows
/// (`group_rows` holds each group's row count) where there are any, directory results only
/// where they are installed; else nothing.
pub open spec fn spec_export_snapshot<P: Copy>(w: Workspace<P>, current_rows: usize, group_rows: Seq<usize>, snapshot: Option<ExportSnapshot>) -> bool {
    match w.global_search.scope {
        SearchScope::CurrentFile => snapshot == match w.spec_active_tab() {
            Some(tab) => if tab.load_state == DocumentLoadState::Ready && current_rows > 0 {
                Some(ExportSnapshot::Single { document_id: tab.id })
            } else {
                None
            },
            None => None,
        },
        scope => if (scope == SearchScope::Directory && w.global_search.result_scope != Some(SearchScope::Directory))
            || spec_groups_with_rows(group_rows).len() == 0 {
            snapshot is None
        } else {
            snapshot matches Some(ExportSnapshot::Global { groups }) && groups@ == spec_groups_with_rows(group_rows)
        },
    }
}

/// The indices of the groups with rows.
fn groups_with_rows(group_rows: &Vec<usize>) -> (groups: Vec<usize>)
    ensures
        groups@ == spec_groups_with_rows(group_rows@),
{
    let mut groups: Vec<usize> = Vec::new();
    let mut k: usize = 0;
    while k < group_rows.len()
        invariant
            k <= group_rows.len(),
            groups@ == spec_groups_with_rows(group_rows@.take(k as int)),
        decreases group_rows.len() - k,
    {
        proof {
            let taken = group_rows@.take(k + 1);
            assert(taken.drop_last() =~= group_rows@.take(k as int));
            assert(taken.last() == group_rows@[k as int]);
        }
        if group_rows[k] > 0 {
            groups.push(k);
        }
        k = k + 1;
    }
    proof { assert(group_rows@.take(k as int) =~= group_rows@); }
    groups
}

/// The name a saved export suggests: the active file's name stem (`active_stem`) followed by
/// "-results.log", or a name after the scope.
pub fn result_export_suggested_name(scope: SearchScope, active_stem: Option<String>) -> (name: String)
    ensures
        match scope {
            SearchScope::CurrentFile => match active_stem {
                Some(stem) => name@ == stem@ + "-results.log"@,
                None => name@ == "search-results.log"@,
            },
            SearchScope::AllOpenFiles => name@ == "global-search-results.log"@,
            SearchScope::Directory => name@ == "directory-search-results.log"@,
        },
{
    match scope {
        SearchScope::CurrentFile => match active_stem {
            Some(stem) => {
                let mut name = stem;
                name.append("-results.log");
                name
            },
            None => "search-results.log".to_string(),
        },
        SearchScope::AllOpenFiles => "global-search-results.log".to_string(),
        SearchScope::Directory => "directory-search-results.log".to_string(),
    }
}

impl<P: Copy> Workspace<P> {
    /// What an export of the active scope's results writes.
    pub fn result_export_snapshot(&self, current_rows: usize, group_rows: &Vec<usize>) -> (snapshot: Option<ExportSnapshot>)
        ensures
            spec_export_snapshot(*self, current_rows, group_rows@, snapshot),
    {
        match self.global_search.scope {
            SearchScope::CurrentFile => {
                let tab = match self.active_ix {
                    Some(ix) => if ix < self.documents.len() { &self.documents[ix] } else { return None },
                    None => return None,
                };
                if tab.load_state == DocumentLoadState::Ready && current_rows > 0 {
                    Some(ExportSnapshot::Single { document_id: tab.id })
                } else {
                    None
                }
            },
            scope => {
                if scope == SearchScope::Directory && self.global_search.result_scope != Some(SearchScope::Directory) {
                    return None;
                }
                let groups = groups_with_rows(group_rows);
                if groups.len() == 0 {
                    None
                } else {
                    Some(ExportSnapshot::Global { groups })
                }
            },
        }
    }

    /// Starts `operation` on `snapshot`, marking the export as running.
    fn begin_export(&mut self, operation: ExportOperation)
        ensures
            *final(self) == (Workspace { files: FileActivity { export_operation: Some(operation), ..old(self).files }, ..*old(self) }),
    {
        self.files.export_operation = Some(operation);
    }

    /// Starts writing the active scope's results to a new tab: not while an export runs or a
    /// file is being opened, nor without results to write.
    pub fn open_results_in_new_tab(&mut self, current_rows: usize, group_rows: &Vec<usize>) -> (snapshot: Option<ExportSnapshot>)
        ensures
            ({
                if old(self).files.export_operation is Some || old(self).files.open_task_running {
                    snapshot is None && *final(self) == *old(self)
                } else if !spec_export_snapshot(*old(self), current_rows, group_rows@, None) {
                    &&& spec_export_snapshot(*old(self), current_rows, group_rows@, snapshot)
                    &&& *final(self) == (Workspace {
                        files: FileActivity { export_operation: Some(ExportOperation::OpenInNewTab), ..old(self).files },
                        ..*old(self)
                    })
                } else {
                    snapshot is None && *final(self) == *old(self)
                }
            }),
    {
        if self.files.export_operation.is_some() || self.files.open_task_running {
            return None;
        }
        let snapshot = self.result_export_snapshot(current_rows, group_rows);
        if snapshot.is_some() {
            self.begin_export(ExportOperation::OpenInNewTab);
        }
        snapshot
    }

    /// Starts merging the multi-file results by timestamp into a new tab: not in the
    /// current-file scope, while an export runs or a file is being opened, nor without results.
    pub fn open_timestamp_merged_results(&mut self, group_rows: &Vec<usize>) -> (snapshot: Option<ExportSnapshot>)
        ensures
            ({
                if old(self).global_search.scope == SearchScope::CurrentFile || old(self).files.export_operation is Some
                    || old(self).files.open_task_running {
                    snapshot is None && *final(self) == *old(self)
                } else if !spec_export_snapshot(*old(self), 0, group_rows@, None) {
                    &&& spec_export_snapshot(*old(self), 0, group_rows@, snapshot)
                    &&& *final(self) == (Workspace {
                        files: FileActivity { export_operation: Some(ExportOperation::MergeByTimestamp), ..old(self).files },
                        ..*old(self)
                    })
                } else {
                    snapshot is None && *final(self) == *old(self)
                }
            }),
    {
        if self.global_search.scope == SearchScope::CurrentFile || self.files.export_operation.is_some()
            || self.files.open_task_running {
            return None;
        }
        let snapshot = self.result_export_snapshot(0, group_rows);
        if snapshot.is_some() {
            self.begin_export(ExportOperation::MergeByTimestamp);
        }
        snapshot
    }

    /// Starts saving the active scope's results to a file the user picks: not while an export
    /// runs, nor without results.
    pub fn save_results_as(&mut self, current_rows: usize, group_rows: &Vec<usize>) -> (snapshot: Option<ExportSnapshot>)
        ensures
            ({
                if old(self).files.export_operation is Some {
                    snapshot is None && *final(self) == *old(self)
                } else if !spec_export_snapshot(*old(self), current_rows, group_rows@, None) {
                    &&& spec_export_snapshot(*old(self), current_rows, group_rows@, snapshot)
                    &&& *final(self) == (Workspace {
                        files: FileActivity { export_operation: Some(ExportOperation::SaveAs), ..old(self).files },
                        ..*old(self)
                    })
                } else {
                    snapshot is None && *final(self) == *old(self)
                }
            }),
    {
        if self.files.export_operation.is_some() {
            return None;
        }
        let snapshot = self.result_export_snapshot(current_rows, group_rows);
        if snapshot.is_some() {
            self.begin_export(ExportOperation::SaveAs);
        }
        snapshot
    }

    /// Takes the answer of the running export: the number of lines written, the error, or
    /// nothing where the user dismissed the file picker. The export is over. Lines written for
    /// a new tab open there unless another file is being opened.
    pub fn finish_result_export(&mut self, outcome: Option<Result<usize, String>>) -> (notice: ExportNotice)
        ensures
            *final(self) == (Workspace { files: FileActivity { export_operation: None, ..old(self).files }, ..*old(self) }),
            notice == match (old(self).files.export_operation, outcome) {
                (Some(ExportOperation::SaveAs), Some(Ok(row_count))) => ExportNotice::Saved { row_count },
                (Some(op), Some(Ok(row_count))) => if old(self).files.open_task_running {
                    ExportNotice::OpenBusy
                } else {
                    ExportNotice::OpenedInTab { row_count, merged: op == ExportOperation::MergeByTimestamp }
                },
                (Some(_), Some(Err(message))) => ExportNotice::Failed(message),
                _ => ExportNotice::Nothing,
            },
    {
        let operation = self.files.export_operation;
        self.files.export_operation = None;
        match (operation, outcome) {
            (Some(ExportOperation::SaveAs), Some(Ok(row_count))) => ExportNotice::Saved { row_count },
            (Some(op), Some(Ok(row_count))) => if self.files.open_task_running {
                ExportNotice::OpenBusy
            } else {
                ExportNotice::OpenedInTab { row_count, merged: op == ExportOperation::MergeByTimestamp }
            },
            (Some(_), Some(Err(message))) => ExportNotice::Failed(message),
            _ => ExportNotice::Nothing,
        }
    }
}

} // verus!
