//! Switching to another search tab: its next result frame is prepared off the workspace
//! state and published only while the state it was prepared from still holds.
use vstd::prelude::*;
use crate::search_runs::SearchRuns;
use crate::workspace::{spec_first_tab, tab_ix, DocumentTab, Workspace};

verus! {

/// Who owns a search tab: a file, or one of the multi-file scopes.
#[derive(Clone, Copy, Debug, PartialEq, Eq, Structural)]
pub enum SearchTabOwner {
    File(u64),
    AllOpenFiles,
    Directory,
}

/// What activation reads of a search tab's saved state.
#[derive(Clone, Copy, Debug, PartialEq, Eq, Structural)]
pub struct SearchTabView {
    /// The tab still has to restore its search: it has no completed frame.
    pub needs_restore: bool,
    /// The tab's results are shown.
    pub results_visible: bool,
    /// The snapshot of the file the tab's current-file result was computed on.
    pub local_snapshot: Option<u64>,
    /// The revision of the tab's saved state.
    pub revision: u64,
}

/// What a prepared frame was computed from, for one file.
#[derive(Clone, Debug)]
pub struct FrameDocument {
    pub document_id: u64,
    pub snapshot: u64,
    pub marked_rows: Vec<usize>,
}

/// How switching to a search tab starts.
#[derive(Clone, Debug)]
pub enum ActivationStart {
    /// The tab or its file is gone: nothing happens.
    Nothing,
    /// There is no completed frame to prepare: the tab is committed at once.
    CommitNow,
    /// The file's result frame is prepared in the background from the file's rows.
    PrepareFile { revision: u64, target_revision: u64, document: FrameDocument },
    /// The multi-file result frame is prepared in the background from the open files.
    PrepareGlobal { revision: u64, target_revision: u64, documents: Vec<FrameDocument> },
}

/// What the workspace reports when a prepared frame arrives.
#[derive(Clone, Copy, Debug, PartialEq, Eq, Structural)]
pub struct ActivationCheck {
    /// The preparation was cancelled.
    pub cancelled: bool,
    /// The same search tabs are installed and the same owner is shown.
    pub same_owner: bool,
    /// The revision of the tab's saved state now; none where the tab is gone.
    pub target_revision: Option<u64>,
    /// The tab's results are the same snapshot as when the preparation started.
    pub same_results: bool,
    /// The files' colors and titles, the row height and the window size are unchanged.
    pub same_layout: bool,
}

/// How a prepared frame is taken.
#[derive(Clone, Copy, Debug, PartialEq, Eq, Structural)]
pub enum ActivationFinish {
    /// The frame is no longer wanted.
    Dropped,
    /// The state changed meanwhile: the frame is prepared again.
    Retry,
    /// The frame is published and the tab committed.
    Commit,
}

/// A tab shows the snapshot and marks a frame was prepared from.
pub open spec fn spec_frame_matches(tab: DocumentTab, document: FrameDocument) -> bool {
    tab.id == document.document_id && tab.snapshot == document.snapshot && tab.marked_rows@ == document.marked_rows@
}

/// The frame documents of all open tabs, in order.
pub open spec fn spec_frame_documents(documents: Seq<DocumentTab>, frame: Seq<FrameDocument>) -> bool {
    documents.len() == frame.len() && forall|i: int| 0 <= i < documents.len() ==> spec_frame_matches(#[trigger] documents[i], frame[i])
}

fn copy_rows(rows: &Vec<usize>) -> (copy: Vec<usize>)
    ensures
        copy@ == rows@,
{
    let mut copy: Vec<usize> = Vec::new();
    let mut i: usize = 0;
    while i < rows.len()
        invariant
            i <= rows.len(),
            copy@ == rows@.take(i as int),
        decreases rows.len() - i,
    {
        copy.push(rows[i]);
        proof { assert(rows@.take(i + 1) =~= rows@.take(i as int).push(rows@[i as int])); }
        i = i + 1;
    }
    proof { assert(rows@.take(rows.len() as int) =~= rows@); }
    copy
}

fn rows_eq(a: &Vec<usize>, b: &Vec<usize>) -> (eq: bool)
    ensures
        eq == (a@ == b@),
{
    if a.len() != b.len() {
        return false;
    }
    let mut i: usize = 0;
    while i < a.len()
        invariant
            i <= a.len(),
            a.len() == b.len(),
            forall|j: int| 0 <= j < i ==> a@[j] == b@[j],
        decreases a.len() - i,
    {
        if a[i] != b[i] {
            return false;
        }
        i = i + 1;
    }
    assert(a@ =~= b@);
    true
}

fn frame_document(tab: &DocumentTab) -> (document: FrameDocument)
    ensures
        spec_frame_matches(*tab, document),
{
    FrameDocument { document_id: tab.id, snapshot: tab.snapshot, marked_rows: copy_rows(&tab.marked_rows) }
}

/// Whether the open tabs are still those a frame was prepared from.
fn frame_documents_match(documents: &Vec<DocumentTab>, frame: &Vec<FrameDocument>) -> (same: bool)
    ensures
        same == spec_frame_documents(documents@, frame@),
{
    if documents.len() != frame.len() {
        return false;
    }
    let mut i: usize = 0;
    while i < documents.len()
        invariant
            i <= documents.len(),
            documents.len() == frame.len(),
            forall|j: int| 0 <= j < i ==> spec_frame_matches(#[trigger] documents@[j], frame@[j]),
        decreases documents.len() - i,
    {
        let (tab, document) = (&documents[i], &frame[i]);
        if !(tab.id == document.document_id && tab.snapshot == document.snapshot && rows_eq(&tab.marked_rows, &document.marked_rows)) {
            return false;
        }
        i = i + 1;
    }
    true
}

impl<P: Copy> Workspace<P> {
    /// Abandons the preparation of a search tab's frame: its answer carries an old revision.
    pub fn cancel_search_tab_activation(&mut self)
        ensures
            *final(self) == (Workspace {
                runs: SearchRuns {
                    activation_revision: old(self).runs.activation_revision.wrapping_add(1),
                    activation_running: false,
                    ..old(self).runs
                },
                ..*old(self)
            }),
    {
        self.runs.activation_revision = self.runs.activation_revision.wrapping_add(1);
        self.runs.activation_running = false;
    }

    /// Starts switching to a search tab of `owner` whose saved state is `state`. The running
    /// preparation is abandoned. A tab without a completed frame (restoring, or results
    /// hidden) is committed at once, as is a file tab whose result was computed on another
    /// snapshot; else its frame is prepared from the file (its snapshot and marks) or from all
    /// open files.
    pub fn prepare_search_tab_activation(&mut self, owner: SearchTabOwner, state: Option<SearchTabView>) -> (start: ActivationStart)
        ensures
            ({
                let revision = old(self).runs.activation_revision.wrapping_add(1);
                let cancelled = Workspace {
                    runs: SearchRuns { activation_revision: revision, activation_running: false, ..old(self).runs },
                    ..*old(self)
                };
                let started = Workspace {
                    runs: SearchRuns { activation_revision: revision, activation_running: true, ..old(self).runs },
                    ..*old(self)
                };
                match state {
                    None => start is Nothing && *final(self) == cancelled,
                    Some(s) => if s.needs_restore || !s.results_visible {
                        start is CommitNow && *final(self) == cancelled
                    } else {
                        match owner {
                            SearchTabOwner::File(id) => match spec_first_tab(old(self).documents@, id) {
                                None => start is Nothing && *final(self) == cancelled,
                                Some(i) => if s.local_snapshot != Some(old(self).documents@[i].snapshot) {
                                    start is CommitNow && *final(self) == cancelled
                                } else {
                                    start matches ActivationStart::PrepareFile { revision: r, target_revision, document }
                                        && r == revision && target_revision == s.revision
                                        && spec_frame_matches(old(self).documents@[i], document)
                                        && *final(self) == started
                                },
                            },
                            _ => start matches ActivationStart::PrepareGlobal { revision: r, target_revision, documents }
                                && r == revision && target_revision == s.revision
                                && spec_frame_documents(old(self).documents@, documents@)
                                && *final(self) == started,
                        }
                    },
                }
            }),
    {
        self.cancel_search_tab_activation();
        let s = match state {
            Some(s) => s,
            None => return ActivationStart::Nothing,
        };
        if s.needs_restore || !s.results_visible {
            return ActivationStart::CommitNow;
        }
        let revision = self.runs.activation_revision;
        let start = match owner {
            SearchTabOwner::File(id) => {
                let ix = match tab_ix(&self.documents, id) {
                    Some(ix) => ix,
                    None => return ActivationStart::Nothing,
                };
                if s.local_snapshot != Some(self.documents[ix].snapshot) {
                    return ActivationStart::CommitNow;
                }
                ActivationStart::PrepareFile { revision, target_revision: s.revision, document: frame_document(&self.documents[ix]) }
            },
            _ => {
                let mut documents: Vec<FrameDocument> = Vec::new();
                let mut i: usize = 0;
                while i < self.documents.len()
                    invariant
                        i <= self.documents.len(),
                        documents.len() == i,
                        forall|j: int| 0 <= j < i ==> spec_frame_matches(#[trigger] self.documents@[j], documents@[j]),
                    decreases self.documents.len() - i,
                {
                    documents.push(frame_document(&self.documents[i]));
                    i = i + 1;
                }
                ActivationStart::PrepareGlobal { revision, target_revision: s.revision, documents }
            },
        };
        self.runs.activation_running = true;
        start
    }

    /// Takes a prepared frame of `start`'s preparation. It is dropped where the preparation
    /// was cancelled or superseded, where another owner is shown or the tab is gone. It is
    /// prepared again where the tab's state, its results, the prepared files (snapshot and
    /// marks) or the layout changed. Else it is published.
    pub fn finish_search_tab_activation(&mut self, start: &ActivationStart, check: ActivationCheck) -> (finish: ActivationFinish)
        ensures
            ({
                let (revision, target_revision, files_same) = match *start {
                    ActivationStart::PrepareFile { revision, target_revision, document } => (revision, target_revision,
                        exists|i: int| 0 <= i < old(self).documents.len() && spec_frame_matches(#[trigger] old(self).documents@[i], document)),
                    ActivationStart::PrepareGlobal { revision, target_revision, documents } => (revision, target_revision,
                        spec_frame_documents(old(self).documents@, documents@)),
                    _ => (0u64, 0u64, false),
                };
                let preparing = start is PrepareFile || start is PrepareGlobal;
                if !preparing || check.cancelled || old(self).runs.activation_revision != revision {
                    finish == ActivationFinish::Dropped && *final(self) == *old(self)
                } else {
                    &&& *final(self) == (Workspace {
                        runs: SearchRuns { activation_running: false, ..old(self).runs },
                        ..*old(self)
                    })
                    &&& finish == if !check.same_owner || check.target_revision is None {
                        ActivationFinish::Dropped
                    } else if check.target_revision != Some(target_revision) || !check.same_results || !files_same || !check.same_layout {
                        ActivationFinish::Retry
                    } else {
                        ActivationFinish::Commit
                    }
                }
            }),
    {
        let (revision, target_revision, files_same) = match start {
            ActivationStart::PrepareFile { revision, target_revision, document } => {
                let mut found = false;
                let mut i: usize = 0;
                while i < self.documents.len() && !found
                    invariant
                        i <= self.documents.len(),
                        found ==> exists|j: int| 0 <= j < self.documents.len() && spec_frame_matches(#[trigger] self.documents@[j], *document),
                        !found ==> forall|j: int| 0 <= j < i ==> !spec_frame_matches(#[trigger] self.documents@[j], *document),
                    decreases self.documents.len() - i,
                {
                    let tab = &self.documents[i];
                    if tab.id == document.document_id && tab.snapshot == document.snapshot && rows_eq(&tab.marked_rows, &document.marked_rows) {
                        assert(spec_frame_matches(self.documents@[i as int], *document));
                        found = true;
                    }
                    i = i + 1;
                }
                (*revision, *target_revision, found)
            },
            ActivationStart::PrepareGlobal { revision, target_revision, documents } => {
                (*revision, *target_revision, frame_documents_match(&self.documents, documents))
            },
            _ => return ActivationFinish::Dropped,
        };
        if check.cancelled || self.runs.activation_revision != revision {
            return ActivationFinish::Dropped;
        }
        self.runs.activation_running = false;
        if !check.same_owner || check.target_revision.is_none() {
            return ActivationFinish::Dropped;
        }
        if check.target_revision != Some(target_revision) || !check.same_results || !files_same || !check.same_layout {
            return ActivationFinish::Retry;
        }
        ActivationFinish::Commit
    }
}

} // verus!
