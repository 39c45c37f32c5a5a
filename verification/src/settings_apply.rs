//! Applying new application settings to a workspace, and pinning files.
use vstd::prelude::*;
use crate::current_search::spec_cancelled;
use crate::preferences::{spec_defaults_applied, AppSettings, Preferences};
use crate::workspace::{DocumentTab, TabView, Workspace};

verus! {

/// What applying new settings did.
#[derive(Clone, Copy, Debug, PartialEq, Eq, Structural)]
pub struct SettingsApplied {
    /// The match limit changed, so the running search was cancelled.
    pub cancelled_search: bool,
    /// The active tab took the default view options: its checkpoint is saved.
    pub checkpoint: Option<u64>,
}

/// A change of the active file's pin to save.
#[derive(Clone, Copy, Debug, PartialEq, Eq, Structural)]
pub struct PinRequest {
    pub document_id: u64,
    /// The file is pinned, rather than unpinned.
    pub pinned: bool,
}

/// What clearing the history reports.
#[derive(Clone, Debug)]
pub enum HistoryCleared {
    /// There was no history to clear.
    NothingToClear,
    /// This many history entries were cleared.
    Cleared(usize),
    /// The history could not be cleared; the message is shown.
    Failed(String),
}

/// The active file is pinned: a pinned path matches its path.
pub open spec fn spec_active_pinned<P: Copy>(w: Workspace<P>) -> bool {
    match w.spec_active_tab() {
        Some(tab) => exists|i: int| 0 <= i < w.prefs.pinned_files.len() && #[trigger] w.prefs.pinned_files@[i]@ == tab.path_key@,
        None => false,
    }
}

/// The workspace with the settings stored, once a changed match limit cancelled the running
/// search.
pub open spec fn spec_settings_stored<P: Copy>(pre: Workspace<P>, settings: AppSettings) -> Workspace<P> {
    let runs = if pre.prefs.app_settings.search_result_limit != settings.search_result_limit {
        spec_cancelled(pre.runs)
    } else {
        pre.runs
    };
    Workspace { runs, prefs: Preferences { app_settings: settings, ..pre.prefs }, ..pre }
}

/// The tabs once the active one takes the default view options of `settings`.
pub open spec fn spec_default_view_documents<P: Copy>(w: Workspace<P>, settings: AppSettings) -> Seq<DocumentTab> {
    match w.spec_active_tab() {
        Some(tab) => w.documents@.update(w.active_ix->0 as int, DocumentTab {
            view: TabView {
                show_line_numbers: settings.default_show_line_numbers,
                show_row_separators: settings.default_show_row_separators,
                uses_default_view_options: true,
                ..tab.view
            },
            ..tab
        }),
        None => w.documents@,
    }
}

/// How applying `settings` takes the workspace from `pre` to `post`, with what it reports;
/// `commit_defaults` also stores the search defaults and gives the active tab the default view
/// options.
pub open spec fn spec_settings_applied<P: Copy>(
    pre: Workspace<P>,
    post: Workspace<P>,
    settings: AppSettings,
    commit_defaults: bool,
    applied: SettingsApplied,
) -> bool {
    let stored = spec_settings_stored(pre, settings);
    &&& applied.cancelled_search == (pre.prefs.app_settings.search_result_limit != settings.search_result_limit
        && pre.runs.running is Some)
    &&& if commit_defaults {
        &&& applied.checkpoint == match pre.spec_active_tab() {
            Some(tab) => Some(tab.id),
            None => None,
        }
        &&& post.documents@ == spec_default_view_documents(pre, settings)
        &&& spec_defaults_applied(
            stored,
            Workspace { documents: stored.documents, ..post },
            settings.default_case_sensitive,
            settings.default_use_regex,
        )
    } else {
        applied.checkpoint is None && post == stored
    }
}

impl<P: Copy> Workspace<P> {
    /// Stores new settings; a changed match limit cancels the running search.
    fn store_settings(&mut self, settings: AppSettings) -> (cancelled: bool)
        ensures
            cancelled == (old(self).prefs.app_settings.search_result_limit != settings.search_result_limit
                && old(self).runs.running is Some),
            *final(self) == spec_settings_stored(*old(self), settings),
    {
        let cancelled = if self.prefs.app_settings.search_result_limit != settings.search_result_limit {
            self.cancel_search()
        } else {
            false
        };
        self.prefs.app_settings = settings;
        cancelled
    }

    /// Gives the active tab the default view options of `settings`; the tab, if any.
    fn apply_default_view(&mut self, settings: AppSettings) -> (checkpoint: Option<u64>)
        ensures
            checkpoint == match old(self).spec_active_tab() {
                Some(tab) => Some(tab.id),
                None => None,
            },
            final(self).documents@ == spec_default_view_documents(*old(self), settings),
            *final(self) == (Workspace { documents: final(self).documents, ..*old(self) }),
    {
        match self.active_ix {
            Some(ix) => if ix < self.documents.len() {
                let ghost pre = *self;
                self.documents[ix].view.show_line_numbers = settings.default_show_line_numbers;
                self.documents[ix].view.show_row_separators = settings.default_show_row_separators;
                self.documents[ix].view.uses_default_view_options = true;
                assert(self.documents@ =~= spec_default_view_documents(pre, settings));
                Some(self.documents[ix].id)
            } else {
                None
            },
            None => None,
        }
    }

    /// Applies new settings to the workspace: a changed match limit cancels the running
    /// search, and the settings are stored. `commit_defaults` also stores the search defaults
    /// (which an empty workspace takes as its options) and gives the active tab the default
    /// view options.
    pub fn apply_app_settings_inner(&mut self, settings: AppSettings, commit_defaults: bool) -> (applied: SettingsApplied)
        ensures
            spec_settings_applied(*old(self), *final(self), settings, commit_defaults, applied),
    {
        let cancelled_search = self.store_settings(settings);
        if !commit_defaults {
            return SettingsApplied { cancelled_search, checkpoint: None };
        }
        let ghost stored = *self;
        self.apply_search_defaults(settings.default_case_sensitive, settings.default_use_regex);
        let ghost defaulted = *self;
        let checkpoint = self.apply_default_view(settings);
        proof {
            assert(defaulted == Workspace { documents: stored.documents, ..*self });
            assert(spec_default_view_documents(defaulted, settings) == spec_default_view_documents(stored, settings));
        }
        SettingsApplied { cancelled_search, checkpoint }
    }

    /// Applies settings being edited, without committing the search defaults.
    pub fn preview_app_settings(&mut self, settings: AppSettings) -> (applied: SettingsApplied)
        ensures
            spec_settings_applied(*old(self), *final(self), settings, false, applied),
    {
        self.apply_app_settings_inner(settings, false)
    }

    /// Changes one setting: `settings` are the current settings with the change made. While
    /// the state store is not ready nothing changes (the caller reports that the settings were
    /// not saved); otherwise they are applied as being edited, and the caller saves them.
    pub fn update_app_setting(&mut self, settings: AppSettings) -> (applied: Option<SettingsApplied>)
        ensures
            if !old(self).files.store_ready {
                applied is None && *final(self) == *old(self)
            } else {
                applied matches Some(a) && spec_settings_applied(*old(self), *final(self), settings, false, a)
            },
    {
        if !self.files.store_ready {
            return None;
        }
        Some(self.apply_app_settings_inner(settings, false))
    }

    /// Saves new settings: while the state store is not ready nothing changes (the caller
    /// reports that the settings were not saved); otherwise they are applied as saved
    /// settings, and the caller saves them.
    pub fn save_app_settings(&mut self, settings: AppSettings) -> (applied: Option<SettingsApplied>)
        ensures
            if !old(self).files.store_ready {
                applied is None && *final(self) == *old(self)
            } else {
                applied matches Some(a) && spec_settings_applied(*old(self), *final(self), settings, true, a)
            },
    {
        if !self.files.store_ready {
            return None;
        }
        Some(self.apply_app_settings(settings))
    }

    /// Applies saved settings, committing the search defaults and the default view options.
    pub fn apply_app_settings(&mut self, settings: AppSettings) -> (applied: SettingsApplied)
        ensures
            spec_settings_applied(*old(self), *final(self), settings, true, applied),
    {
        self.apply_app_settings_inner(settings, true)
    }

    /// Starts pinning or unpinning the active file: not without an active file or a ready
    /// store, nor while a change of the pinned files is being saved.
    pub fn toggle_active_file_pinned(&mut self) -> (request: Option<PinRequest>)
        ensures
            match old(self).spec_active_tab() {
                Some(tab) => if old(self).files.store_ready && !old(self).prefs.pinned_updating {
                    request == Some(PinRequest { document_id: tab.id, pinned: !spec_active_pinned(*old(self)) })
                        && *final(self) == (Workspace { prefs: Preferences { pinned_updating: true, ..old(self).prefs }, ..*old(self) })
                } else {
                    request is None && *final(self) == *old(self)
                },
                None => request is None && *final(self) == *old(self),
            },
    {
        let document_id = match self.active_ix {
            Some(ix) => if ix < self.documents.len() { self.documents[ix].id } else { return None },
            None => return None,
        };
        if !self.files.store_ready || self.prefs.pinned_updating {
            return None;
        }
        let pinned = !self.active_file_is_pinned();
        self.prefs.pinned_updating = true;
        Some(PinRequest { document_id, pinned })
    }

    /// Takes the answer of a saved pin change: the recently opened and the pinned files the
    /// store reports, or the error to show.
    pub fn finish_pinned_update(&mut self, outcome: Result<(Vec<String>, Vec<String>), String>) -> (error: Option<String>)
        ensures
            match outcome {
                Ok((recent, pinned)) => error is None && *final(self) == (Workspace {
                    prefs: Preferences { pinned_updating: false, recent_files: recent, pinned_files: pinned, ..old(self).prefs },
                    ..*old(self)
                }),
                Err(message) => error == Some(message)
                    && *final(self) == (Workspace { prefs: Preferences { pinned_updating: false, ..old(self).prefs }, ..*old(self) }),
            },
    {
        self.prefs.pinned_updating = false;
        match outcome {
            Ok((recent, pinned)) => {
                self.prefs.recent_files = recent;
                self.prefs.pinned_files = pinned;
                None
            },
            Err(message) => Some(message),
        }
    }

    /// Starts clearing the pinned files: not without a ready store, while a change of the
    /// pinned files is being saved, or without pinned files.
    pub fn clear_pinned_files(&mut self) -> (started: bool)
        ensures
            started == (old(self).files.store_ready && !old(self).prefs.pinned_updating && old(self).prefs.pinned_files.len() > 0),
            *final(self) == if started {
                Workspace { prefs: Preferences { pinned_updating: true, ..old(self).prefs }, ..*old(self) }
            } else {
                *old(self)
            },
    {
        if !self.files.store_ready || self.prefs.pinned_updating || self.prefs.pinned_files.len() == 0 {
            return false;
        }
        self.prefs.pinned_updating = true;
        true
    }

    /// Takes the answer of clearing the pinned files: the recently opened files the store
    /// reports, with no file pinned, or the error to show.
    pub fn finish_clear_pinned_files(&mut self, outcome: Result<Vec<String>, String>) -> (error: Option<String>)
        ensures
            match outcome {
                Ok(recent) => error is None && final(self).prefs.pinned_files.len() == 0 && *final(self) == (Workspace {
                    prefs: Preferences {
                        pinned_updating: false,
                        recent_files: recent,
                        pinned_files: final(self).prefs.pinned_files,
                        ..old(self).prefs
                    },
                    ..*old(self)
                }),
                Err(message) => error == Some(message)
                    && *final(self) == (Workspace { prefs: Preferences { pinned_updating: false, ..old(self).prefs }, ..*old(self) }),
            },
    {
        self.prefs.pinned_updating = false;
        match outcome {
            Ok(recent) => {
                self.prefs.recent_files = recent;
                self.prefs.pinned_files = Vec::new();
                None
            },
            Err(message) => Some(message),
        }
    }

    /// Starts clearing the history of every file but the open ones, whose tab ids are returned:
    /// not without a ready store nor while it is being cleared.
    pub fn clear_history(&mut self) -> (open: Option<Vec<u64>>)
        ensures
            match open {
                Some(ids) => old(self).files.store_ready && !old(self).prefs.history_clearing
                    && ids@ == old(self).documents@.map_values(|t: DocumentTab| t.id)
                    && *final(self) == (Workspace { prefs: Preferences { history_clearing: true, ..old(self).prefs }, ..*old(self) }),
                None => !(old(self).files.store_ready && !old(self).prefs.history_clearing) && *final(self) == *old(self),
            },
    {
        if !self.files.store_ready || self.prefs.history_clearing {
            return None;
        }
        let mut ids: Vec<u64> = Vec::new();
        let mut k: usize = 0;
        while k < self.documents.len()
            invariant
                k <= self.documents.len(),
                ids@ == self.documents@.take(k as int).map_values(|t: DocumentTab| t.id),
            decreases self.documents.len() - k,
        {
            ids.push(self.documents[k].id);
            proof {
                assert(self.documents@.take(k + 1).map_values(|t: DocumentTab| t.id)
                    =~= self.documents@.take(k as int).map_values(|t: DocumentTab| t.id).push(self.documents@[k as int].id));
            }
            k = k + 1;
        }
        proof { assert(self.documents@.take(k as int) =~= self.documents@); }
        self.prefs.history_clearing = true;
        Some(ids)
    }

    /// Takes the answer of clearing the history: the number of entries removed with the
    /// recently opened and pinned files the store reports, or the error.
    pub fn finish_clear_history(&mut self, outcome: Result<(usize, Vec<String>, Vec<String>), String>) -> (report: HistoryCleared)
        ensures
            match outcome {
                Ok((removed, recent, pinned)) => {
                    &&& report == if removed == 0 { HistoryCleared::NothingToClear } else { HistoryCleared::Cleared(removed) }
                    &&& *final(self) == (Workspace {
                        prefs: Preferences { history_clearing: false, recent_files: recent, pinned_files: pinned, ..old(self).prefs },
                        ..*old(self)
                    })
                },
                Err(message) => report == HistoryCleared::Failed(message)
                    && *final(self) == (Workspace { prefs: Preferences { history_clearing: false, ..old(self).prefs }, ..*old(self) }),
            },
    {
        self.prefs.history_clearing = false;
        match outcome {
            Ok((removed, recent, pinned)) => {
                self.prefs.recent_files = recent;
                self.prefs.pinned_files = pinned;
                if removed == 0 { HistoryCleared::NothingToClear } else { HistoryCleared::Cleared(removed) }
            },
            Err(message) => HistoryCleared::Failed(message),
        }
    }
}

} // verus!
