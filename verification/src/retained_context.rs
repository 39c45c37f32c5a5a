//! The session context a multi-file scope keeps while another scope is active: its query, its
//! installed results and whether they were shown and active, taken when the scope is left and
//! put back when it is entered again.
use vstd::prelude::*;
use crate::preferences::QueryOptions;
use crate::regions::{LogRegion, SearchScope};
use crate::workspace::{GlobalResultEntry, GlobalSearchState, Workspace};

verus! {

/// What a multi-file scope keeps of its session while another scope is active.
#[derive(Clone, Debug)]
pub struct RetainedContext {
    pub query: QueryOptions,
    /// The installed results came from this scope.
    pub initialized: bool,
    pub results: Vec<GlobalResultEntry>,
    pub results_visible: bool,
    /// The multi-file results were the active log region.
    pub active: bool,
}

/// The query of a multi-file scope's session.
pub open spec fn spec_scope_query(gs: GlobalSearchState, scope: SearchScope) -> QueryOptions {
    if scope == SearchScope::Directory { gs.directory_query } else { gs.query }
}

/// The context a capture of `scope` takes from `w`.
pub open spec fn spec_captured_context<P>(w: Workspace<P>, scope: SearchScope, context: RetainedContext) -> bool {
    &&& context.query == spec_scope_query(w.global_search, scope)
    &&& context.initialized == (w.global_search.result_scope == Some(scope))
    &&& context.results@ == w.global_search.results@
    &&& context.results_visible == w.global_search.results_visible
    &&& context.active == (w.active_log_region == LogRegion::GlobalResults)
}

/// The active log region once a context is put back: the multi-file results where they were
/// active and shown, else not the multi-file results.
pub open spec fn spec_restored_region(region: LogRegion, context: RetainedContext) -> LogRegion {
    if context.active && context.results_visible {
        LogRegion::GlobalResults
    } else if region == LogRegion::GlobalResults {
        LogRegion::Body
    } else {
        region
    }
}

/// The workspace once `context` is put back for `scope`: its query, results and their
/// visibility, its results' scope where they came from it, and the active log region. The
/// current-file scope keeps no context.
pub open spec fn spec_restore<P>(pre: Workspace<P>, scope: SearchScope, context: RetainedContext) -> Workspace<P> {
    if scope == SearchScope::CurrentFile {
        pre
    } else {
        let gs = pre.global_search;
        Workspace {
            global_search: GlobalSearchState {
                query: if scope == SearchScope::AllOpenFiles { context.query } else { gs.query },
                directory_query: if scope == SearchScope::Directory { context.query } else { gs.directory_query },
                results: context.results,
                results_visible: context.results_visible,
                result_scope: if context.initialized { Some(scope) } else { None },
                ..gs
            },
            active_log_region: spec_restored_region(pre.active_log_region, context),
            ..pre
        }
    }
}

/// How putting `context` back for `scope` takes the workspace from `pre` to `post`.
pub open spec fn spec_context_restored<P>(pre: Workspace<P>, post: Workspace<P>, scope: SearchScope, context: RetainedContext) -> bool {
    post == spec_restore(pre, scope, context)
}

/// A copy of a query.
pub(crate) fn copy_query(q: &QueryOptions) -> (c: QueryOptions)
    ensures
        c == *q,
{
    QueryOptions { text: q.text.clone(), case_sensitive: q.case_sensitive, regex: q.regex }
}

/// A copy of installed results.
fn copy_results(results: &Vec<GlobalResultEntry>) -> (c: Vec<GlobalResultEntry>)
    ensures
        c@ == results@,
{
    let mut c: Vec<GlobalResultEntry> = Vec::new();
    let mut i: usize = 0;
    while i < results.len()
        invariant
            i <= results.len(),
            c@ == results@.take(i as int),
        decreases results.len() - i,
    {
        let r = &results[i];
        c.push(GlobalResultEntry { document_id: r.document_id, path_key: r.path_key.clone(), snapshot: r.snapshot });
        proof { assert(c@ =~= results@.take(i + 1)); }
        i = i + 1;
    }
    proof { assert(results@.take(i as int) =~= results@); }
    c
}

impl<P: Copy> Workspace<P> {
    /// The context a multi-file scope keeps when it is left; none for the current-file scope.
    pub fn capture_retained_global_context(&self, scope: SearchScope) -> (context: Option<RetainedContext>)
        ensures
            match context {
                Some(c) => scope != SearchScope::CurrentFile && spec_captured_context(*self, scope, c),
                None => scope == SearchScope::CurrentFile,
            },
    {
        let query = match scope {
            SearchScope::AllOpenFiles => copy_query(&self.global_search.query),
            SearchScope::Directory => copy_query(&self.global_search.directory_query),
            SearchScope::CurrentFile => return None,
        };
        Some(RetainedContext {
            query,
            initialized: self.global_search.result_scope == Some(scope),
            results: copy_results(&self.global_search.results),
            results_visible: self.global_search.results_visible,
            active: self.active_log_region == LogRegion::GlobalResults,
        })
    }

    /// Puts a multi-file scope's kept context back when the scope is entered: its query,
    /// results and their visibility, its results' scope where they came from it, and the
    /// active log region. Nothing happens for the current-file scope.
    pub fn restore_retained_global_context(&mut self, scope: SearchScope, context: RetainedContext)
        ensures
            spec_context_restored(*old(self), *final(self), scope, context),
    {
        match scope {
            SearchScope::AllOpenFiles => self.global_search.query = context.query,
            SearchScope::Directory => self.global_search.directory_query = context.query,
            SearchScope::CurrentFile => return,
        }
        self.global_search.results = context.results;
        self.global_search.results_visible = context.results_visible;
        self.global_search.result_scope = if context.initialized { Some(scope) } else { None };
        if context.active && context.results_visible {
            self.active_log_region = LogRegion::GlobalResults;
        } else if self.active_log_region == LogRegion::GlobalResults {
            self.active_log_region = LogRegion::Body;
        }
    }
}

} // verus!
