//! Going from a multi-file result to its file: which tab shows it, when the file has to be
//! opened first, and when a directory result no longer matches the file.
use vstd::prelude::*;
use crate::global_targets::spec_open_for_result;
use crate::regions::{DocumentLoadState, SearchScope};
use crate::result_jumps::PendingSearchResultJump;
use crate::workspace::{first_index, lemma_first_index, result_ix, spec_first_result, DocumentTab, SelectionTable, Workspace};

verus! {

/// What a click on a multi-file result row does.
#[derive(Clone, Debug)]
pub enum GlobalResultJump {
    /// The row's file is not open and cannot be opened from here: nothing happens.
    Nothing,
    /// Another file is being opened: the user is asked to try again shortly.
    OpenBusy,
    /// The file of a directory result is opened; the jump lands once it is open.
    OpenFile(PendingSearchResultJump),
    /// The tab is activated; the jump waits until its file is fully loaded.
    AwaitLoad { document_ix: usize, jump: PendingSearchResultJump },
    /// The file changed since the directory search: the user is asked to search again.
    StaleResult,
    /// The tab is activated, stops following its file, and its log selects and centres the
    /// row.
    Select { document_ix: usize, document_id: u64 },
}

/// What a click on a multi-file result group does.
#[derive(Clone, Debug)]
pub enum GroupActivation {
    /// The group's file is not open and has no result path: nothing happens.
    Nothing,
    /// Another file is being opened: the user is asked to try again shortly.
    OpenBusy,
    /// The group's file, at this path, is opened.
    OpenFile(String),
    /// The tab that shows the group is activated.
    ActivateTab(usize),
}

impl<P: Copy> Workspace<P> {
    /// The tab that shows the multi-file result of `document_id`.
    pub open spec fn spec_result_tab(self, document_id: u64) -> Option<int> {
        first_index(self.documents@, spec_open_for_result(document_id, self.spec_result_path(document_id)))
    }

    /// The jump a directory result of `document_id` asks for: to its row in the snapshot that
    /// was searched. Other scopes ask for none.
    pub open spec fn spec_directory_jump(self, document_id: u64, source_row: usize) -> Option<PendingSearchResultJump> {
        match spec_first_result(self.global_search.results@, document_id) {
            Some(r) => if self.global_search.result_scope == Some(SearchScope::Directory) {
                Some(PendingSearchResultJump {
                    path: self.global_search.results@[r].path_key,
                    source_row,
                    expected_snapshot: self.global_search.results@[r].snapshot,
                })
            } else {
                None
            },
            None => None,
        }
    }

    /// Goes to `source_row` of the multi-file result of `document_id`. Where no tab shows the
    /// result, a directory result opens its file (unless another file is being opened), and
    /// other results do nothing. A directory result waits for its tab to be fully loaded and
    /// is refused once the file is no longer the snapshot that was searched. Else the tab
    /// stops following its file and its log owns the selection.
    #[verifier::rlimit(40)]
    pub fn jump_to_global_result(&mut self, document_id: u64, source_row: usize) -> (jump: GlobalResultJump)
        ensures
            ({
                let pending = old(self).spec_directory_jump(document_id, source_row);
                match old(self).spec_result_tab(document_id) {
                    None => *final(self) == *old(self) && match pending {
                        None => jump is Nothing,
                        Some(p) => if old(self).files.open_task_running {
                            jump is OpenBusy
                        } else {
                            jump matches GlobalResultJump::OpenFile(j) && j.path@ == p.path@
                                && j.source_row == p.source_row && j.expected_snapshot == p.expected_snapshot
                        },
                    },
                    Some(i) => {
                        let tab = old(self).documents@[i];
                        &&& 0 <= i < old(self).documents.len()
                        &&& match pending {
                            Some(p) => if tab.load_state != DocumentLoadState::Ready {
                                &&& *final(self) == *old(self)
                                &&& jump matches GlobalResultJump::AwaitLoad { document_ix, jump: j }
                                    && document_ix == i && j.path@ == p.path@ && j.source_row == p.source_row
                                    && j.expected_snapshot == p.expected_snapshot
                            } else if !(tab.path_key@ == p.path@ && tab.snapshot == p.expected_snapshot) {
                                *final(self) == *old(self) && jump is StaleResult
                            } else {
                                spec_selected_for_jump(*old(self), *final(self), i, jump)
                            },
                            None => spec_selected_for_jump(*old(self), *final(self), i, jump),
                        }
                    },
                }
            }),
    {
        let ghost pre = *self;
        let pending = match result_ix(&self.global_search.results, document_id) {
            Some(r) => if self.global_search.result_scope == Some(SearchScope::Directory) {
                let entry = &self.global_search.results[r];
                Some(PendingSearchResultJump { path: entry.path_key.clone(), source_row, expected_snapshot: entry.snapshot })
            } else {
                None
            },
            None => None,
        };
        let ix = match self.open_document_ix_for_global_result(document_id) {
            Some(ix) => ix,
            None => {
                return match pending {
                    None => GlobalResultJump::Nothing,
                    Some(p) => if self.files.open_task_running {
                        GlobalResultJump::OpenBusy
                    } else {
                        GlobalResultJump::OpenFile(p)
                    },
                };
            },
        };
        proof {
            lemma_first_index(self.documents@, spec_open_for_result(document_id, self.spec_result_path(document_id)), 0);
        }
        if let Some(p) = pending {
            if self.documents[ix].load_state != DocumentLoadState::Ready {
                return GlobalResultJump::AwaitLoad { document_ix: ix, jump: p };
            }
            if !(self.documents[ix].path_key == p.path && self.documents[ix].snapshot == p.expected_snapshot) {
                return GlobalResultJump::StaleResult;
            }
        }
        self.documents[ix].auto_follow = false;
        self.documents[ix].selection_table = SelectionTable::Log;
        proof {
            assert(self.documents@ =~= pre.documents@.update(ix as int, DocumentTab {
                auto_follow: false,
                selection_table: SelectionTable::Log,
                ..pre.documents@[ix as int]
            }));
        }
        GlobalResultJump::Select { document_ix: ix, document_id: self.documents[ix].id }
    }

    /// The document a persisted path refers to: among the multi-file results of that file the
    /// one with the smallest document id, else the first tab of that file.
    pub fn global_document_id_for_path(&self, path: &String) -> (id: Option<u64>)
        ensures
            spec_document_for_path(*self, path@, id),
    {
        let results = &self.global_search.results;
        let mut best: Option<u64> = None;
        let mut k: usize = 0;
        while k < results.len()
            invariant
                k <= results.len(),
                results == &self.global_search.results,
                match best {
                    Some(d) => {
                        &&& exists|j: int| 0 <= j < k && results@[j].path_key@ == path@ && #[trigger] results@[j].document_id == d
                        &&& forall|j: int| 0 <= j < k && results@[j].path_key@ == path@ ==> d <= #[trigger] results@[j].document_id
                    },
                    None => forall|j: int| 0 <= j < k ==> #[trigger] results@[j].path_key@ != path@,
                },
            decreases results.len() - k,
        {
            if results[k].path_key == *path {
                let id = results[k].document_id;
                let better = match best {
                    Some(d) => id < d,
                    None => true,
                };
                if better {
                    best = Some(id);
                }
            }
            k = k + 1;
        }
        if best.is_some() {
            return best;
        }
        let ghost p = spec_tab_of_path(path@);
        let mut i: usize = 0;
        while i < self.documents.len()
            invariant
                i <= self.documents.len(),
                p == spec_tab_of_path(path@),
                forall|j: int| 0 <= j < self.global_search.results.len() ==> #[trigger] self.global_search.results@[j].path_key@ != path@,
                forall|j: int| 0 <= j < i ==> !p(self.documents@[j]),
            decreases self.documents.len() - i,
        {
            if self.documents[i].path_key == *path {
                proof { lemma_first_index(self.documents@, p, i as int); }
                return Some(self.documents[i].id);
            }
            i = i + 1;
        }
        proof { lemma_first_index(self.documents@, p, i as int); }
        None
    }

    /// Activates the tab of a multi-file result group: where none shows it, its file is opened
    /// from the result's path, unless another file is being opened.
    pub fn activate_global_group(&self, document_id: u64) -> (activation: GroupActivation)
        ensures
            match self.spec_result_tab(document_id) {
                Some(i) => activation == GroupActivation::ActivateTab(i as usize),
                None => match self.spec_result_path(document_id) {
                    None => activation is Nothing,
                    Some(path) => if self.files.open_task_running {
                        activation is OpenBusy
                    } else {
                        activation matches GroupActivation::OpenFile(p) && p@ == path
                    },
                },
            },
    {
        match self.open_document_ix_for_global_result(document_id) {
            Some(ix) => GroupActivation::ActivateTab(ix),
            None => match result_ix(&self.global_search.results, document_id) {
                None => GroupActivation::Nothing,
                Some(r) => if self.files.open_task_running {
                    GroupActivation::OpenBusy
                } else {
                    GroupActivation::OpenFile(self.global_search.results[r].path_key.clone())
                },
            },
        }
    }
}

/// The smallest document id among the results of the file at `path`.
pub open spec fn spec_result_id_for_path(results: Seq<crate::workspace::GlobalResultEntry>, path: Seq<char>, id: u64) -> bool {
    &&& exists|k: int| 0 <= k < results.len() && results[k].path_key@ == path && #[trigger] results[k].document_id == id
    &&& forall|k: int| 0 <= k < results.len() && results[k].path_key@ == path ==> id <= #[trigger] results[k].document_id
}

/// A tab of the file at `path`.
pub open spec fn spec_tab_of_path(path: Seq<char>) -> spec_fn(DocumentTab) -> bool {
    |t: DocumentTab| t.path_key@ == path
}

/// The document a persisted path refers to: the smallest document id among the multi-file
/// results of that file, else the first tab of that file.
pub open spec fn spec_document_for_path<P: Copy>(w: Workspace<P>, path: Seq<char>, id: Option<u64>) -> bool {
    let results = w.global_search.results@;
    if exists|k: int| 0 <= k < results.len() && #[trigger] results[k].path_key@ == path {
        id matches Some(d) && spec_result_id_for_path(results, path, d)
    } else {
        id == match first_index(w.documents@, spec_tab_of_path(path)) {
            Some(i) => Some(w.documents@[i].id),
            None => None,
        }
    }
}

/// The jump that selects the row in tab `i`: the tab stops following its file and its log owns
/// the selection.
pub open spec fn spec_selected_for_jump<P>(pre: Workspace<P>, post: Workspace<P>, i: int, jump: GlobalResultJump) -> bool {
    &&& jump == GlobalResultJump::Select { document_ix: i as usize, document_id: pre.documents@[i].id }
    &&& post.documents@ == pre.documents@.update(i, DocumentTab {
        auto_follow: false,
        selection_table: SelectionTable::Log,
        ..pre.documents@[i]
    })
    &&& post == (Workspace { documents: post.documents, ..pre })
}

} // verus!
