//! Saving the predefined filters: one save runs at a time, a later save waits for it, and of
//! several waiting saves only the latest is kept. `F` is the filter list.
use vstd::prelude::*;

verus! {

/// The saves of the predefined filters.
#[derive(Clone, Debug)]
pub struct FilterSaves<F> {
    /// A save is running.
    pub saving: bool,
    /// The save to run once the running one is over: its revision and filters.
    pub pending: Option<(u64, F)>,
}

/// What a request to save the filters does.
#[derive(Clone, Debug)]
pub enum FilterSave<F> {
    /// The store is not ready: the filters apply but are not saved, which the user is told.
    NotPersisted,
    /// A save is running: this one waits, replacing any that waited.
    Queued,
    /// This save of the filters, at this revision, runs now.
    Persist(u64, F),
}

/// What the answer of a save tells the user.
#[derive(Clone, Debug, PartialEq, Eq)]
pub enum FilterSaveNotice {
    Nothing,
    /// The filters were saved and no later save waits.
    Saved,
    /// The save failed; the message is shown.
    Failed(String),
}

/// How a request to save `filters` at `revision` takes the saves from `pre` to `post`.
pub open spec fn spec_filter_save<F>(pre: FilterSaves<F>, post: FilterSaves<F>, store_ready: bool, revision: u64, filters: F, save: FilterSave<F>) -> bool {
    if !store_ready {
        save is NotPersisted && post == pre
    } else if pre.saving {
        save is Queued && post == (FilterSaves { saving: true, pending: Some((revision, filters)) })
    } else {
        save == FilterSave::Persist(revision, filters) && post == (FilterSaves { saving: true, ..pre })
    }
}

/// How the answer of the running save takes the saves from `pre` to `post`, with the notice
/// and the save that runs next.
pub open spec fn spec_filter_finish<F>(
    pre: FilterSaves<F>,
    post: FilterSaves<F>,
    outcome: Result<bool, String>,
    store_ready: bool,
    done: (FilterSaveNotice, Option<FilterSave<F>>),
) -> bool {
    &&& done.0 == match outcome {
        Ok(kept) => if kept && pre.pending is None { FilterSaveNotice::Saved } else { FilterSaveNotice::Nothing },
        Err(message) => FilterSaveNotice::Failed(message),
    }
    &&& match pre.pending {
        Some((revision, filters)) => if store_ready {
            done.1 == Some(FilterSave::Persist(revision, filters)) && post == (FilterSaves::<F> { saving: true, pending: None })
        } else {
            done.1 == Some(FilterSave::<F>::NotPersisted) && post == (FilterSaves::<F> { saving: false, pending: None })
        },
        None => done.1 is None && post == (FilterSaves::<F> { saving: false, pending: None }),
    }
}

impl<F> FilterSaves<F> {
    /// No save running or waiting.
    pub fn new() -> (saves: Self)
        ensures
            !saves.saving,
            saves.pending is None,
    {
        FilterSaves { saving: false, pending: None }
    }

    /// Asks to save `filters` at `revision`: not without a ready store; after the running save
    /// where one runs (only the latest waiting save is kept); else now.
    pub fn save(&mut self, store_ready: bool, revision: u64, filters: F) -> (save: FilterSave<F>)
        ensures
            spec_filter_save(*old(self), *final(self), store_ready, revision, filters, save),
    {
        if !store_ready {
            return FilterSave::NotPersisted;
        }
        if self.saving {
            self.pending = Some((revision, filters));
            return FilterSave::Queued;
        }
        self.saving = true;
        FilterSave::Persist(revision, filters)
    }

    /// Takes the answer of the running save: whether the store kept the filters (it keeps
    /// only the latest revision), or the error. A waiting save then runs, where the store is
    /// still ready; none is returned where no save waited.
    pub fn finish(&mut self, outcome: Result<bool, String>, store_ready: bool) -> (done: (FilterSaveNotice, Option<FilterSave<F>>))
        ensures
            spec_filter_finish(*old(self), *final(self), outcome, store_ready, done),
    {
        self.saving = false;
        let pending = self.pending.take();
        let notice = match outcome {
            Ok(kept) => if kept && pending.is_none() { FilterSaveNotice::Saved } else { FilterSaveNotice::Nothing },
            Err(message) => FilterSaveNotice::Failed(message),
        };
        let next = match pending {
            Some((revision, filters)) => if store_ready {
                self.saving = true;
                Some(FilterSave::Persist(revision, filters))
            } else {
                Some(FilterSave::NotPersisted)
            },
            None => None,
        };
        (notice, next)
    }
}

} // verus!
