//! Changing the options of the directory search: a new directory starts a fresh session, or
//! the one remembered for it, and drops the results of the old one.
use vstd::prelude::*;
use crate::current_search::spec_cancelled;
use crate::preferences::Preferences;
use crate::regions::{spec_sat_inc, SearchScope};
use crate::retained_context::{spec_captured_context, RetainedContext};
use crate::search_clearing::{spec_cleared_query, spec_region_after_hidden};
use crate::search_runs::SearchTarget;
use crate::preferences::QueryOptions;
use crate::regions::LogRegion;
use crate::retained_context::copy_query;
use crate::workspace::{DirectorySearchOptions, GlobalSearchState, Workspace};

verus! {

/// What applying directory-search options did.
#[derive(Clone, Debug)]
pub enum DirectoryOptionsApply {
    /// The options are those in use: nothing changed.
    Unchanged,
    /// The directory changed to one whose session is remembered, and that session was
    /// installed. The caller remembers the session of the directory left, whose options and
    /// context are `left`, keeps `kept` as the directory scope's context, and shows the directory query
    /// in the search input.
    Restored { left: Option<(DirectorySearchOptions, RetainedContext)>, kept: RetainedContext },
    /// The options were taken. Where `directory_changed`, the caller remembers the session of
    /// the directory left, whose options and context are `left`, and empties the search input; `kept`, the
    /// reset context, is the directory scope's context now; `results_cleared` says that the
    /// directory results were dropped.
    Applied { directory_changed: bool, left: Option<(DirectorySearchOptions, RetainedContext)>, kept: RetainedContext, results_cleared: bool },
}

/// A session remembered for a directory: its options, query and how its results were shown.
#[derive(Clone, Debug)]
pub struct DirectorySession {
    pub options: DirectorySearchOptions,
    pub query: QueryOptions,
    pub results_visible: bool,
    /// The directory results wrapped long lines: the caller's results viewport takes it.
    pub word_wrap: bool,
    /// The directory results were the active log region.
    pub active: bool,
}

/// Two sets of directory options say the same.
pub open spec fn spec_same_options(a: DirectorySearchOptions, b: DirectorySearchOptions) -> bool {
    &&& spec_same_directory(a.directory, b.directory)
    &&& a.file_type_filter_enabled == b.file_type_filter_enabled
    &&& a.file_type_patterns@ == b.file_type_patterns@
    &&& a.include_subdirectories == b.include_subdirectories
    &&& a.include_hidden_directories == b.include_hidden_directories
}

fn same_options(a: &DirectorySearchOptions, b: &DirectorySearchOptions) -> (same: bool)
    ensures
        same == spec_same_options(*a, *b),
{
    same_directory(&a.directory, &b.directory)
        && a.file_type_filter_enabled == b.file_type_filter_enabled
        && a.file_type_patterns == b.file_type_patterns
        && a.include_subdirectories == b.include_subdirectories
        && a.include_hidden_directories == b.include_hidden_directories
}

/// The context a directory session starts with: its query and how its results were shown,
/// with no results installed yet.
pub open spec fn spec_session_context(context: RetainedContext, session: DirectorySession) -> bool {
    &&& context.query == session.query
    &&& !context.initialized
    &&& context.results.len() == 0
    &&& context.results_visible == session.results_visible
    &&& context.active == session.active
}

/// A reset context: an empty query without options, no results, not shown and not active.
pub open spec fn spec_reset_context(context: RetainedContext) -> bool {
    &&& context.query.text@.len() == 0
    &&& !context.query.case_sensitive
    &&& !context.query.regex
    &&& !context.initialized
    &&& context.results.len() == 0
    &&& !context.results_visible
    &&& !context.active
}

fn reset_context() -> (context: RetainedContext)
    ensures
        spec_reset_context(context),
{
    RetainedContext {
        query: QueryOptions { text: String::new(), case_sensitive: false, regex: false },
        initialized: false,
        results: Vec::new(),
        results_visible: false,
        active: false,
    }
}

/// How installing a remembered directory session takes `pre` to `post`: the session's options
/// and query become the directory's, a persisted restore waits where its results were shown,
/// its color rules and the installed results are dropped (the results revision moving on),
/// its context is put back, and the toolbar takes the query's options.
pub open spec fn spec_directory_session_installed<P: Copy>(pre: Workspace<P>, post: Workspace<P>, session: DirectorySession) -> bool {
    let gs = post.global_search;
    &&& gs.directory_options == session.options
    &&& gs.directory_query == session.query
    &&& gs.directory_rules.len() == 0
    &&& match gs.pending_directory_restore {
        Some(text) => session.results_visible && text@ == session.query.text@,
        None => !session.results_visible,
    }
    &&& gs.results.len() == 0
    &&& gs == (GlobalSearchState {
        directory_options: gs.directory_options,
        directory_query: gs.directory_query,
        directory_rules: gs.directory_rules,
        pending_directory_restore: gs.pending_directory_restore,
        results: gs.results,
        results_visible: session.results_visible,
        result_scope: None,
        revision: spec_sat_inc(pre.global_search.revision),
        ..pre.global_search
    })
    &&& post == (Workspace {
        global_search: gs,
        prefs: Preferences {
            case_sensitive: session.query.case_sensitive,
            regex: session.query.regex,
            ..pre.prefs
        },
        active_log_region: if session.active && session.results_visible {
            LogRegion::GlobalResults
        } else if pre.active_log_region == LogRegion::GlobalResults {
            LogRegion::Body
        } else {
            pre.active_log_region
        },
        ..pre
    })
}

/// Directory-search options as the state store keeps them. Older stores hold a legacy file
/// type in place of the filter and its patterns.
#[derive(Clone, Debug)]
pub struct PersistedDirectorySearchOptions {
    pub directory: Option<String>,
    /// The legacy file type; written as 0.
    pub file_type: u32,
    pub file_type_filter_enabled: Option<bool>,
    pub file_type_patterns: Option<String>,
    pub include_subdirectories: bool,
    pub include_hidden_directories: bool,
}

/// The stored form of directory options.
pub open spec fn spec_persisted_options(options: DirectorySearchOptions) -> PersistedDirectorySearchOptions {
    PersistedDirectorySearchOptions {
        directory: options.directory,
        file_type: 0,
        file_type_filter_enabled: Some(options.file_type_filter_enabled),
        file_type_patterns: Some(options.file_type_patterns),
        include_subdirectories: options.include_subdirectories,
        include_hidden_directories: options.include_hidden_directories,
    }
}

/// Directory options read back from their stored form; `legacy` is the filter and patterns
/// the stored legacy file type stands for, taken where the store holds no filter or patterns.
pub open spec fn spec_restored_options(stored: PersistedDirectorySearchOptions, legacy: (bool, String)) -> DirectorySearchOptions {
    DirectorySearchOptions {
        directory: stored.directory,
        file_type_filter_enabled: match stored.file_type_filter_enabled { Some(e) => e, None => legacy.0 },
        file_type_patterns: match stored.file_type_patterns { Some(p) => p, None => legacy.1 },
        include_subdirectories: stored.include_subdirectories,
        include_hidden_directories: stored.include_hidden_directories,
    }
}

/// The stored form of directory options (the caller encodes the directory's path).
pub fn persisted_directory_options(options: &DirectorySearchOptions) -> (stored: PersistedDirectorySearchOptions)
    ensures
        stored == spec_persisted_options(*options),
{
    PersistedDirectorySearchOptions {
        directory: copy_options(options).directory,
        file_type: 0,
        file_type_filter_enabled: Some(options.file_type_filter_enabled),
        file_type_patterns: Some(options.file_type_patterns.clone()),
        include_subdirectories: options.include_subdirectories,
        include_hidden_directories: options.include_hidden_directories,
    }
}

/// Directory options read back from their stored form; `legacy` is the filter and patterns
/// that the stored legacy file type stands for.
pub fn restored_directory_options(stored: PersistedDirectorySearchOptions, legacy: (bool, String)) -> (options: DirectorySearchOptions)
    ensures
        options == spec_restored_options(stored, legacy),
{
    let (legacy_enabled, legacy_patterns) = legacy;
    DirectorySearchOptions {
        directory: stored.directory,
        file_type_filter_enabled: match stored.file_type_filter_enabled { Some(e) => e, None => legacy_enabled },
        file_type_patterns: match stored.file_type_patterns { Some(p) => p, None => legacy_patterns },
        include_subdirectories: stored.include_subdirectories,
        include_hidden_directories: stored.include_hidden_directories,
    }
}

/// Two directories, by their match keys, are the same.
pub open spec fn spec_same_directory(a: Option<String>, b: Option<String>) -> bool {
    match (a, b) {
        (Some(x), Some(y)) => x@ == y@,
        (None, None) => true,
        _ => false,
    }
}

fn same_directory(a: &Option<String>, b: &Option<String>) -> (same: bool)
    ensures
        same == spec_same_directory(*a, *b),
{
    match (a, b) {
        (Some(x), Some(y)) => *x == *y,
        (None, None) => true,
        _ => false,
    }
}

/// What is kept of the directory left: its options and its scope's context, where the
/// directory changed.
pub open spec fn spec_left_context<P>(pre: Workspace<P>, changed: bool, left: Option<(DirectorySearchOptions, RetainedContext)>) -> bool {
    if changed {
        left matches Some((options, context)) && options == pre.global_search.directory_options
            && spec_captured_context(pre, SearchScope::Directory, context)
    } else {
        left is None
    }
}

fn copy_options(o: &DirectorySearchOptions) -> (c: DirectorySearchOptions)
    ensures
        c == *o,
{
    DirectorySearchOptions {
        directory: match &o.directory { Some(d) => Some(d.clone()), None => None },
        file_type_filter_enabled: o.file_type_filter_enabled,
        file_type_patterns: o.file_type_patterns.clone(),
        include_subdirectories: o.include_subdirectories,
        include_hidden_directories: o.include_hidden_directories,
    }
}

/// The workspace with a running directory search cancelled, where the directory scope is the
/// selected one.
pub open spec fn spec_directory_search_stopped<P>(w: Workspace<P>) -> Workspace<P> {
    if w.global_search.scope == SearchScope::Directory && (w.runs.running matches Some((t, _)) && t == SearchTarget::Directory) {
        Workspace { runs: spec_cancelled(w.runs), ..w }
    } else {
        w
    }
}

/// How taking changed `options` (no remembered session being installed) takes `pre`, where a
/// running directory search is already stopped, to `post`: the options are set, a persisted
/// restore and the session's color rules are
/// dropped, a changed directory starts from an empty query with the default options (which
/// the toolbar takes), and results that came from the directory scope are dropped and hidden,
/// the active log region leaving them.
pub open spec fn spec_directory_options_taken<P: Copy>(
    pre: Workspace<P>,
    post: Workspace<P>,
    options: DirectorySearchOptions,
    changed: bool,
    results_cleared: bool,
) -> bool {
    let gs = post.global_search;
    &&& results_cleared == (pre.global_search.result_scope == Some(SearchScope::Directory))
    &&& gs.directory_options == options
    &&& gs.pending_directory_restore is None
    &&& gs.directory_rules.len() == 0
    &&& if changed {
        spec_cleared_query(gs.directory_query, pre.prefs.app_settings)
    } else {
        gs.directory_query == pre.global_search.directory_query
    }
    &&& if results_cleared {
        &&& gs.results.len() == 0
        &&& !gs.results_visible
        &&& gs.result_scope is None
        &&& gs.revision == spec_sat_inc(pre.global_search.revision)
    } else {
        &&& gs.results == pre.global_search.results
        &&& gs.results_visible == pre.global_search.results_visible
        &&& gs.result_scope == pre.global_search.result_scope
        &&& gs.revision == pre.global_search.revision
    }
    &&& gs == (GlobalSearchState {
        directory_options: gs.directory_options,
        pending_directory_restore: gs.pending_directory_restore,
        directory_rules: gs.directory_rules,
        directory_query: gs.directory_query,
        results: gs.results,
        results_visible: gs.results_visible,
        result_scope: gs.result_scope,
        revision: gs.revision,
        ..pre.global_search
    })
    &&& post == (Workspace {
        global_search: gs,
        prefs: if changed {
            Preferences {
                case_sensitive: pre.prefs.app_settings.default_case_sensitive,
                regex: pre.prefs.app_settings.default_use_regex,
                ..pre.prefs
            }
        } else {
            pre.prefs
        },
        active_log_region: if results_cleared { spec_region_after_hidden(pre) } else { pre.active_log_region },
        ..pre
    })
}

impl<P: Copy> Workspace<P> {
    /// Applies new directory-search options.
    ///
    /// `remembered` is the session remembered for the options' directory, if any. A running
    /// directory search of the selected directory scope is cancelled. When the directory
    /// changes, the context of the one left is taken, and a remembered session of the new one
    /// is installed; otherwise the options are taken (see `spec_directory_options_taken`) and
    /// the directory scope's context is reset.
    #[verifier::rlimit(60)]
    pub fn apply_directory_search_options(
        &mut self,
        options: DirectorySearchOptions,
        remembered: Option<DirectorySession>,
    ) -> (applied: DirectoryOptionsApply)
        ensures
            ({
                let pre = *old(self);
                let changed = !spec_same_directory(pre.global_search.directory_options.directory, options.directory);
                if spec_same_options(pre.global_search.directory_options, options) {
                    applied is Unchanged && *final(self) == pre
                } else if changed && options.directory is Some && remembered is Some {
                    &&& applied matches DirectoryOptionsApply::Restored { left, kept }
                        && spec_left_context(pre, true, left) && spec_session_context(kept, remembered->0)
                    &&& spec_directory_session_installed(spec_directory_search_stopped(pre), *final(self), remembered->0)
                } else {
                    &&& applied matches DirectoryOptionsApply::Applied { directory_changed, left, kept, results_cleared }
                        && directory_changed == changed && spec_left_context(pre, changed, left)
                        && spec_reset_context(kept)
                        && spec_directory_options_taken(spec_directory_search_stopped(pre), *final(self), options, changed, results_cleared)
                }
            }),
    {
        if same_options(&self.global_search.directory_options, &options) {
            return DirectoryOptionsApply::Unchanged;
        }
        let changed = !same_directory(&self.global_search.directory_options.directory, &options.directory);
        let directory_running = match self.runs.running {
            Some((t, _)) => t == SearchTarget::Directory,
            None => false,
        };
        if self.global_search.scope == SearchScope::Directory && directory_running {
            self.cancel_search();
        }
        let left = if changed {
            match self.capture_retained_global_context(SearchScope::Directory) {
                Some(context) => Some((copy_options(&self.global_search.directory_options), context)),
                None => None,
            }
        } else {
            None
        };
        if changed && options.directory.is_some() {
            match remembered {
                Some(session) => {
                    let kept = self.install_directory_session(session);
                    return DirectoryOptionsApply::Restored { left, kept };
                },
                None => {},
            }
        }
        let results_cleared = self.take_directory_options(options, changed);
        DirectoryOptionsApply::Applied { directory_changed: changed, left, kept: reset_context(), results_cleared }
    }

    /// Installs a session remembered for a directory (see `spec_directory_session_installed`);
    /// the context it puts back, which the directory scope keeps. The caller shows the
    /// directory query in the search input, and may then run a waiting restore by
    /// `maybe_restore_persisted_search`.
    pub fn install_directory_session(&mut self, session: DirectorySession) -> (kept: RetainedContext)
        ensures
            spec_session_context(kept, session),
            spec_directory_session_installed(*old(self), *final(self), session),
    {
        let ghost pre = *self;
        let kept = RetainedContext {
            query: copy_query(&session.query),
            initialized: false,
            results: Vec::new(),
            results_visible: session.results_visible,
            active: session.active,
        };
        let context = RetainedContext {
            query: copy_query(&session.query),
            initialized: false,
            results: Vec::new(),
            results_visible: session.results_visible,
            active: session.active,
        };
        self.global_search.pending_directory_restore = if session.results_visible {
            Some(session.query.text.clone())
        } else {
            None
        };
        self.global_search.directory_options = session.options;
        self.global_search.directory_rules = Vec::new();
        self.global_search.revision = self.global_search.revision.saturating_add(1);
        self.global_search.results = Vec::new();
        self.global_search.result_scope = None;
        self.restore_retained_global_context(SearchScope::Directory, context);
        self.prefs.case_sensitive = session.query.case_sensitive;
        self.prefs.regex = session.query.regex;
        kept
    }

    /// Takes changed `options`; `changed` says that the directory changed.
    fn take_directory_options(&mut self, options: DirectorySearchOptions, changed: bool) -> (results_cleared: bool)
        ensures
            spec_directory_options_taken(*old(self), *final(self), options, changed, results_cleared),
    {
        self.set_directory_session(options, changed);
        self.drop_directory_results()
    }

    /// Sets the options and resets the directory session's restore and color rules; a changed
    /// directory starts from an empty query with the default options, which the toolbar takes.
    fn set_directory_session(&mut self, options: DirectorySearchOptions, changed: bool)
        ensures
            final(self).global_search.directory_options == options,
            final(self).global_search.pending_directory_restore is None,
            final(self).global_search.directory_rules.len() == 0,
            if changed {
                spec_cleared_query(final(self).global_search.directory_query, old(self).prefs.app_settings)
            } else {
                final(self).global_search.directory_query == old(self).global_search.directory_query
            },
            final(self).global_search == (GlobalSearchState {
                directory_options: final(self).global_search.directory_options,
                pending_directory_restore: final(self).global_search.pending_directory_restore,
                directory_rules: final(self).global_search.directory_rules,
                directory_query: final(self).global_search.directory_query,
                ..old(self).global_search
            }),
            *final(self) == (Workspace {
                global_search: final(self).global_search,
                prefs: if changed {
                    Preferences {
                        case_sensitive: old(self).prefs.app_settings.default_case_sensitive,
                        regex: old(self).prefs.app_settings.default_use_regex,
                        ..old(self).prefs
                    }
                } else {
                    old(self).prefs
                },
                ..*old(self)
            }),
    {
        self.global_search.directory_options = options;
        if changed {
            let query = self.cleared_query();
            self.prefs.case_sensitive = query.case_sensitive;
            self.prefs.regex = query.regex;
            self.global_search.directory_query = query;
        }
        self.global_search.pending_directory_restore = None;
        self.global_search.directory_rules = Vec::new();
    }

    /// Drops and hides results that came from the directory scope, the active log region
    /// leaving them; whether there were such results.
    fn drop_directory_results(&mut self) -> (dropped: bool)
        ensures
            dropped == (old(self).global_search.result_scope == Some(SearchScope::Directory)),
            !dropped ==> *final(self) == *old(self),
            dropped ==> {
                &&& final(self).global_search.results.len() == 0
                &&& final(self).global_search == (GlobalSearchState {
                    results: final(self).global_search.results,
                    results_visible: false,
                    result_scope: None,
                    revision: spec_sat_inc(old(self).global_search.revision),
                    ..old(self).global_search
                })
                &&& *final(self) == (Workspace {
                    global_search: final(self).global_search,
                    active_log_region: spec_region_after_hidden(*old(self)),
                    ..*old(self)
                })
            },
    {
        let dropped = self.global_search.result_scope == Some(SearchScope::Directory);
        if dropped {
            self.global_search.revision = self.global_search.revision.saturating_add(1);
            self.global_search.results_visible = false;
            self.global_search.results = Vec::new();
            self.global_search.result_scope = None;
            self.fallback_from_hidden_global_results();
        }
        dropped
    }
}

} // verus!
