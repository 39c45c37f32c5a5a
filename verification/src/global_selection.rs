//! Choosing the open files an all-open-files search covers.
use vstd::prelude::*;
use crate::current_search::spec_cancelled;
use crate::regions::spec_sat_inc;
use crate::search_runs::SearchTarget;
use crate::workspace::{DocumentTab, GlobalSearchState, Workspace};

verus! {

/// What a new choice of searched files changed.
#[derive(Clone, Debug)]
pub struct SelectionChange {
    /// The all-open-files results on screen were dropped: the user is asked to search again.
    pub results_dropped: bool,
    /// Each open tab, in tab order, and whether it is searched: the preferences to persist.
    pub preferences: Vec<(u64, bool)>,
}

/// The ids of the open tabs that `selected` names, in tab order.
pub open spec fn spec_kept_selection(documents: Seq<DocumentTab>, selected: Seq<u64>) -> Seq<u64>
    decreases documents.len(),
{
    if documents.len() == 0 {
        Seq::empty()
    } else {
        let rest = spec_kept_selection(documents.drop_last(), selected);
        if selected.contains(documents.last().id) {
            rest.push(documents.last().id)
        } else {
            rest
        }
    }
}

/// Each tab, and whether `selected` names it.
pub open spec fn spec_selection_preferences(documents: Seq<DocumentTab>, selected: Seq<u64>) -> Seq<(u64, bool)> {
    documents.map_values(|t: DocumentTab| (t.id, selected.contains(t.id)))
}

/// A search over all open files is running.
pub open spec fn spec_all_open_running(runs: crate::search_runs::SearchRuns) -> bool {
    runs.running matches Some((t, _)) && t == SearchTarget::AllOpenFiles
}

fn contains_u64(ids: &Vec<u64>, id: u64) -> (found: bool)
    ensures
        found == ids@.contains(id),
{
    let mut i: usize = 0;
    while i < ids.len()
        invariant
            i <= ids.len(),
            forall|j: int| 0 <= j < i ==> ids@[j] != id,
        decreases ids.len() - i,
    {
        if ids[i] == id {
            assert(ids@[i as int] == id);
            return true;
        }
        i = i + 1;
    }
    false
}

/// Whether every id of `a` is in `b`.
fn contained_in(a: &Vec<u64>, b: &Vec<u64>) -> (all: bool)
    ensures
        all == forall|i: int| 0 <= i < a.len() ==> b@.contains(#[trigger] a@[i]),
{
    let mut i: usize = 0;
    while i < a.len()
        invariant
            i <= a.len(),
            forall|j: int| 0 <= j < i ==> b@.contains(#[trigger] a@[j]),
        decreases a.len() - i,
    {
        if !contains_u64(b, a[i]) {
            return false;
        }
        i = i + 1;
    }
    true
}

/// The same ids, whatever their order and repetition.
fn same_ids(a: &Vec<u64>, b: &Vec<u64>) -> (same: bool)
    ensures
        same == (a@.to_set() == b@.to_set()),
{
    let ab = contained_in(a, b);
    let ba = contained_in(b, a);
    proof {
        if ab && ba {
            assert forall|x: u64| a@.to_set().contains(x) == b@.to_set().contains(x) by {
                if a@.contains(x) {
                    let i = choose|i: int| 0 <= i < a.len() && a@[i] == x;
                    assert(b@.contains(a@[i]));
                }
                if b@.contains(x) {
                    let i = choose|i: int| 0 <= i < b.len() && b@[i] == x;
                    assert(a@.contains(b@[i]));
                }
            }
            assert(a@.to_set() =~= b@.to_set());
        } else if !ab {
            let i = choose|i: int| 0 <= i < a.len() && !b@.contains(#[trigger] a@[i]);
            assert(a@.to_set().contains(a@[i]));
            assert(!b@.to_set().contains(a@[i]));
        } else {
            let i = choose|i: int| 0 <= i < b.len() && !a@.contains(#[trigger] b@[i]);
            assert(b@.to_set().contains(b@[i]));
            assert(!a@.to_set().contains(b@[i]));
        }
    }
    ab && ba
}

/// The ids of the open tabs that `selected` names, in tab order, and each tab with whether it
/// is named.
fn kept_selection(documents: &Vec<DocumentTab>, selected: &Vec<u64>) -> (kept: (Vec<u64>, Vec<(u64, bool)>))
    ensures
        kept.0@ == spec_kept_selection(documents@, selected@),
        kept.1@ == spec_selection_preferences(documents@, selected@),
{
    let mut ids: Vec<u64> = Vec::new();
    let mut preferences: Vec<(u64, bool)> = Vec::new();
    let mut k: usize = 0;
    while k < documents.len()
        invariant
            k <= documents.len(),
            ids@ == spec_kept_selection(documents@.take(k as int), selected@),
            preferences@ == spec_selection_preferences(documents@.take(k as int), selected@),
        decreases documents.len() - k,
    {
        let id = documents[k].id;
        let named = contains_u64(selected, id);
        proof {
            let taken = documents@.take(k + 1);
            assert(taken.drop_last() =~= documents@.take(k as int));
            assert(taken.last() == documents@[k as int]);
        }
        if named {
            ids.push(id);
        }
        preferences.push((id, named));
        proof {
            assert(preferences@ =~= spec_selection_preferences(documents@.take(k + 1), selected@));
        }
        k = k + 1;
    }
    proof {
        assert(documents@.take(documents.len() as int) =~= documents@);
    }
    (ids, preferences)
}

/// How choosing `selected` as the searched files takes the workspace from `pre` to `post`.
pub open spec fn spec_selection_applied<P: Copy>(pre: Workspace<P>, post: Workspace<P>, selected: Seq<u64>, context_retained: bool, change: Option<SelectionChange>) -> bool {
    let kept = spec_kept_selection(pre.documents@, selected);
    if kept.to_set() == pre.global_search.selected_documents@.to_set() {
        change is None && post == pre
    } else {
        let c = if spec_all_open_running(pre.runs) { Workspace { runs: spec_cancelled(pre.runs), ..pre } } else { pre };
        let unselected = Workspace {
            global_search: GlobalSearchState {
                selected_documents: c.global_search.selected_documents,
                ..post.global_search
            },
            ..post
        };
        &&& post.global_search.selected_documents@ == kept
        &&& change matches Some(ch)
            && ch.results_dropped == (c.spec_invalidated_visible(context_retained) == Some(true))
            && ch.preferences@ == spec_selection_preferences(pre.documents@, selected)
        &&& match c.spec_invalidated_visible(context_retained) {
            None => unselected == (Workspace {
                global_search: GlobalSearchState { revision: spec_sat_inc(c.global_search.revision), ..c.global_search },
                ..c
            }),
            Some(_) => c.spec_invalidated(unselected, context_retained),
        }
    }
}

impl<P: Copy> Workspace<P> {
    /// Drops the all-open-files results as `invalidate_all_open_results` does, or else bumps
    /// the revision, and makes `kept` the searched files.
    fn reselect_documents(&mut self, kept: Vec<u64>, context_retained: bool) -> (invalidated: Option<bool>)
        ensures
            invalidated == old(self).spec_invalidated_visible(context_retained),
            final(self).global_search.selected_documents == kept,
            ({
                let unselected = Workspace {
                    global_search: GlobalSearchState {
                        selected_documents: old(self).global_search.selected_documents,
                        ..final(self).global_search
                    },
                    ..*final(self)
                };
                match invalidated {
                    None => unselected == (Workspace {
                        global_search: GlobalSearchState {
                            revision: spec_sat_inc(old(self).global_search.revision),
                            ..old(self).global_search
                        },
                        ..*old(self)
                    }),
                    Some(_) => old(self).spec_invalidated(unselected, context_retained),
                }
            }),
    {
        let invalidated = self.invalidate_all_open_results(context_retained);
        if invalidated.is_none() {
            self.global_search.revision = self.global_search.revision.saturating_add(1);
        }
        let ghost unselected = *self;
        self.global_search.selected_documents = kept;
        proof {
            assert(unselected == (Workspace {
                global_search: GlobalSearchState {
                    selected_documents: unselected.global_search.selected_documents,
                    ..self.global_search
                },
                ..*self
            }));
        }
        invalidated
    }

    /// Makes the open tabs named in `selected` the files an all-open-files search covers,
    /// where that changes which files are covered. A running all-open-files search is
    /// cancelled, and the all-open-files results are dropped as `invalidate_all_open_results`
    /// does (with `context_retained` telling whether a retained session context holds any);
    /// where there were none to drop, the revision is still bumped, so that a running
    /// search's answer is stale.
    #[verifier::rlimit(40)]
    pub fn apply_global_selected_documents(&mut self, selected: Vec<u64>, context_retained: bool) -> (change: Option<SelectionChange>)
        ensures
            spec_selection_applied(*old(self), *final(self), selected@, context_retained, change),
    {
        let (kept, preferences) = kept_selection(&self.documents, &selected);
        if same_ids(&kept, &self.global_search.selected_documents) {
            return None;
        }
        let all_open = match self.runs.running {
            Some((SearchTarget::AllOpenFiles, _)) => true,
            _ => false,
        };
        if all_open {
            self.cancel_search();
        }
        let invalidated = self.reselect_documents(kept, context_retained);
        let results_dropped = match invalidated {
            Some(visible) => visible,
            None => false,
        };
        Some(SelectionChange { results_dropped, preferences })
    }
}

} // verus!
