//! Which files the multi-file results list, in which order, and which open tab each group
//! shows: the searched tabs for the all-open-files scope, the results of a directory search
//! (by ascending document id) with the open tab that still shows the searched snapshot.
use vstd::prelude::*;
use crate::regions::SearchScope;
use crate::workspace::{lemma_first_result, result_ix, spec_first_result, spec_first_result_from, DocumentTab, GlobalResultEntry, GlobalSearchState, Workspace};

verus! {

/// One group of the multi-file results: the document it lists, the open tab that shows it
/// and the installed result it lists, where there are.
#[derive(Clone, Copy, Debug, PartialEq, Eq, Structural)]
pub struct GlobalGroupSource {
    pub document_id: u64,
    pub tab_ix: Option<usize>,
    pub result_ix: Option<usize>,
}

/// The index of a document's first installed result.
pub open spec fn spec_result_ix(results: Seq<GlobalResultEntry>, document_id: u64) -> Option<usize> {
    match spec_first_result(results, document_id) {
        Some(r) => Some(r as usize),
        None => None,
    }
}

/// The groups of the all-open-files scope: each searched tab, in tab order, that has a result
/// where all-open-files results are installed.
pub open spec fn spec_all_open_sources(documents: Seq<DocumentTab>, gs: GlobalSearchState) -> Seq<GlobalGroupSource>
    decreases documents.len(),
{
    if documents.len() == 0 {
        Seq::empty()
    } else {
        let rest = spec_all_open_sources(documents.drop_last(), gs);
        let tab = documents.last();
        let result = spec_result_ix(gs.results@, tab.id);
        if gs.selected_documents@.contains(tab.id)
            && (gs.result_scope != Some(SearchScope::AllOpenFiles) || result is Some) {
            rest.push(GlobalGroupSource { document_id: tab.id, tab_ix: Some((documents.len() - 1) as usize), result_ix: result })
        } else {
            rest
        }
    }
}

/// The last tab of a file: the one a lookup by path finds.
pub open spec fn spec_last_tab_with_path(documents: Seq<DocumentTab>, path: Seq<char>) -> Option<int>
    decreases documents.len(),
{
    if documents.len() == 0 {
        None
    } else if documents.last().path_key@ == path {
        Some(documents.len() - 1)
    } else {
        spec_last_tab_with_path(documents.drop_last(), path)
    }
}

/// The group of directory result `k`: the last tab of its file, where that tab still shows the
/// searched snapshot.
pub open spec fn spec_directory_source(documents: Seq<DocumentTab>, results: Seq<GlobalResultEntry>, k: int) -> GlobalGroupSource {
    let r = results[k];
    GlobalGroupSource {
        document_id: r.document_id,
        tab_ix: match spec_last_tab_with_path(documents, r.path_key@) {
            Some(i) => if documents[i].snapshot == r.snapshot { Some(i as usize) } else { None },
            None => None,
        },
        result_ix: Some(k as usize),
    }
}

/// The directory groups: one per document id among the results, by ascending id, each from
/// the document's first result.
pub open spec fn spec_directory_sources(documents: Seq<DocumentTab>, results: Seq<GlobalResultEntry>, sources: Seq<GlobalGroupSource>) -> bool {
    &&& forall|i: int, j: int| 0 <= i < j < sources.len() ==> sources[i].document_id < sources[j].document_id
    &&& forall|i: int| 0 <= i < sources.len() ==> {
        let s = #[trigger] sources[i];
        &&& s.result_ix is Some
        &&& spec_first_result(results, s.document_id) == Some(s.result_ix->0 as int)
        &&& s == spec_directory_source(documents, results, s.result_ix->0 as int)
    }
    &&& forall|k: int| 0 <= k < results.len() ==> exists|i: int| 0 <= i < sources.len() && #[trigger] sources[i].document_id == #[trigger] results[k].document_id
}

/// An id above `last`, or any id where nothing was taken yet.
pub open spec fn spec_above(id: u64, last: Option<u64>) -> bool {
    match last {
        Some(l) => id > l,
        None => true,
    }
}

/// The first result with the smallest document id above `last`.
fn next_result_after(results: &Vec<GlobalResultEntry>, last: Option<u64>) -> (next: Option<usize>)
    ensures
        match next {
            Some(b) => {
                &&& b < results.len()
                &&& spec_above(results@[b as int].document_id, last)
                &&& forall|j: int| 0 <= j < results.len() && spec_above(#[trigger] results@[j].document_id, last)
                    ==> results@[b as int].document_id <= results@[j].document_id
                &&& forall|j: int| 0 <= j < b ==> #[trigger] results@[j].document_id != results@[b as int].document_id
            },
            None => forall|j: int| 0 <= j < results.len() ==> !spec_above(#[trigger] results@[j].document_id, last),
        },
{
    let mut best: Option<usize> = None;
    let mut i: usize = 0;
    while i < results.len()
        invariant
            i <= results.len(),
            match best {
                Some(b) => {
                    &&& b < i
                    &&& spec_above(results@[b as int].document_id, last)
                    &&& forall|j: int| 0 <= j < i && spec_above(#[trigger] results@[j].document_id, last)
                        ==> results@[b as int].document_id <= results@[j].document_id
                    &&& forall|j: int| 0 <= j < b && spec_above(#[trigger] results@[j].document_id, last)
                        ==> results@[b as int].document_id < results@[j].document_id
                },
                None => forall|j: int| 0 <= j < i ==> !spec_above(#[trigger] results@[j].document_id, last),
            },
        decreases results.len() - i,
    {
        let id = results[i].document_id;
        let above = match last {
            Some(l) => id > l,
            None => true,
        };
        if above {
            let better = match best {
                Some(b) => id < results[b].document_id,
                None => true,
            };
            if better {
                best = Some(i);
            }
        }
        i = i + 1;
    }
    best
}

/// The last tab of a file.
fn last_tab_with_path(documents: &Vec<DocumentTab>, path: &String) -> (ix: Option<usize>)
    ensures
        match ix {
            Some(i) => spec_last_tab_with_path(documents@, path@) == Some(i as int) && i < documents.len(),
            None => spec_last_tab_with_path(documents@, path@) is None,
        },
{
    let mut found: Option<usize> = None;
    let mut k: usize = 0;
    while k < documents.len()
        invariant
            k <= documents.len(),
            match found {
                Some(i) => spec_last_tab_with_path(documents@.take(k as int), path@) == Some(i as int) && i < k,
                None => spec_last_tab_with_path(documents@.take(k as int), path@) is None,
            },
        decreases documents.len() - k,
    {
        proof {
            let taken = documents@.take(k + 1);
            assert(taken.drop_last() =~= documents@.take(k as int));
            assert(taken.last() == documents@[k as int]);
        }
        if documents[k].path_key == *path {
            found = Some(k);
        }
        k = k + 1;
    }
    proof { assert(documents@.take(k as int) =~= documents@); }
    found
}

/// The first result of a document lies at `b` where no earlier result has its id.
proof fn lemma_first_result_at(results: Seq<GlobalResultEntry>, b: int)
    requires
        0 <= b < results.len(),
        forall|j: int| 0 <= j < b ==> #[trigger] results[j].document_id != results[b].document_id,
    ensures
        spec_first_result(results, results[b].document_id) == Some(b),
{
    lemma_first_result(results, results[b].document_id, b);
    assert(spec_first_result_from(results, results[b].document_id, b) == Some(b));
}

/// Whether a directory group is listed: where it has rows to show, or its file failed.
pub fn directory_group_kept(row_count: usize, failed: bool) -> (kept: bool)
    ensures
        kept == (row_count > 0 || failed),
{
    row_count > 0 || failed
}

impl<P: Copy> Workspace<P> {
    /// The groups of the all-open-files scope.
    fn all_open_sources(&self) -> (sources: Vec<GlobalGroupSource>)
        ensures
            sources@ == spec_all_open_sources(self.documents@, self.global_search),
    {
        let gs = &self.global_search;
        let mut sources: Vec<GlobalGroupSource> = Vec::new();
        let mut k: usize = 0;
        while k < self.documents.len()
            invariant
                k <= self.documents.len(),
                gs == &self.global_search,
                sources@ == spec_all_open_sources(self.documents@.take(k as int), self.global_search),
            decreases self.documents.len() - k,
        {
            let id = self.documents[k].id;
            proof {
                let taken = self.documents@.take(k + 1);
                assert(taken.drop_last() =~= self.documents@.take(k as int));
                assert(taken.last() == self.documents@[k as int]);
            }
            let mut selected = false;
            let mut s: usize = 0;
            while s < gs.selected_documents.len()
                invariant
                    s <= gs.selected_documents.len(),
                    selected == exists|j: int| 0 <= j < s && gs.selected_documents@[j] == id,
                decreases gs.selected_documents.len() - s,
            {
                if gs.selected_documents[s] == id {
                    selected = true;
                }
                s = s + 1;
            }
            assert(selected == gs.selected_documents@.contains(id));
            let result = result_ix(&gs.results, id);
            if selected && (gs.result_scope != Some(SearchScope::AllOpenFiles) || result.is_some()) {
                sources.push(GlobalGroupSource { document_id: id, tab_ix: Some(k), result_ix: result });
            }
            k = k + 1;
        }
        proof { assert(self.documents@.take(k as int) =~= self.documents@); }
        sources
    }

    /// The group of directory result `k`.
    fn directory_source(&self, k: usize) -> (source: GlobalGroupSource)
        requires
            k < self.global_search.results.len(),
        ensures
            source == spec_directory_source(self.documents@, self.global_search.results@, k as int),
    {
        let r = &self.global_search.results[k];
        let tab_ix = match last_tab_with_path(&self.documents, &r.path_key) {
            Some(i) => if self.documents[i].snapshot == r.snapshot { Some(i) } else { None },
            None => None,
        };
        GlobalGroupSource { document_id: r.document_id, tab_ix, result_ix: Some(k) }
    }

    /// The groups of installed directory results, by ascending document id.
    fn directory_sources(&self) -> (sources: Vec<GlobalGroupSource>)
        ensures
            spec_directory_sources(self.documents@, self.global_search.results@, sources@),
    {
        let results = &self.global_search.results;
        let mut sources: Vec<GlobalGroupSource> = Vec::new();
        let mut last: Option<u64> = None;
        loop
            invariant_except_break
                results == &self.global_search.results,
                forall|i: int, j: int| 0 <= i < j < sources.len() ==> sources@[i].document_id < sources@[j].document_id,
                match last {
                    Some(l) => sources.len() > 0 && sources@[sources.len() - 1].document_id == l,
                    None => sources.len() == 0,
                },
                forall|i: int| 0 <= i < sources.len() ==> {
                    let s = #[trigger] sources@[i];
                    &&& s.result_ix is Some
                    &&& spec_first_result(results@, s.document_id) == Some(s.result_ix->0 as int)
                    &&& s == spec_directory_source(self.documents@, results@, s.result_ix->0 as int)
                },
                forall|k: int| 0 <= k < results.len() && !spec_above(#[trigger] results@[k].document_id, last)
                    ==> exists|i: int| 0 <= i < sources.len() && #[trigger] sources@[i].document_id == results@[k].document_id,
            ensures
                spec_directory_sources(self.documents@, self.global_search.results@, sources@),
            decreases (match last { Some(l) => u64::MAX - l, None => u64::MAX + 1 }),
        {
            match next_result_after(results, last) {
                None => {
                    break;
                },
                Some(b) => {
                    let ghost before = sources@;
                    let id = results[b].document_id;
                    proof { lemma_first_result_at(results@, b as int); }
                    let source = self.directory_source(b);
                    sources.push(source);
                    proof {
                        assert forall|k: int| 0 <= k < results.len() && !spec_above(#[trigger] results@[k].document_id, Some(id))
                            implies exists|i: int| 0 <= i < sources.len() && #[trigger] sources@[i].document_id == results@[k].document_id by {
                            if spec_above(results@[k].document_id, last) {
                                assert(results@[k].document_id == id);
                                assert(sources@[before.len() as int].document_id == results@[k].document_id);
                            } else {
                                let i = choose|i: int| 0 <= i < before.len() && #[trigger] before[i].document_id == results@[k].document_id;
                                assert(sources@[i] == before[i]);
                            }
                        }
                    }
                    last = Some(id);
                },
            }
        }
        sources
    }

    /// The groups the multi-file results list: in the all-open-files scope each searched tab
    /// (that has a result where all-open-files results are installed); in the directory scope,
    /// with directory results installed, each result's document by ascending id with the tab
    /// that still shows the searched snapshot; else none. Which directory groups are listed
    /// also depends on their rows, as `directory_group_kept` tells.
    pub fn global_result_group_sources(&self) -> (sources: Vec<GlobalGroupSource>)
        ensures
            match self.global_search.scope {
                SearchScope::AllOpenFiles => sources@ == spec_all_open_sources(self.documents@, self.global_search),
                SearchScope::Directory => if self.global_search.result_scope == Some(SearchScope::Directory) {
                    spec_directory_sources(self.documents@, self.global_search.results@, sources@)
                } else {
                    sources.len() == 0
                },
                SearchScope::CurrentFile => sources.len() == 0,
            },
    {
        match self.global_search.scope {
            SearchScope::AllOpenFiles => self.all_open_sources(),
            SearchScope::Directory => if self.global_search.result_scope == Some(SearchScope::Directory) {
                self.directory_sources()
            } else {
                Vec::new()
            },
            SearchScope::CurrentFile => Vec::new(),
        }
    }

    /// The open tab whose color rules color a multi-file result group of the file at `path`
    /// searched in `snapshot`: the last tab of that file, where it still shows that snapshot.
    pub fn group_color_rules_tab(&self, path: &String, snapshot: u64) -> (ix: Option<usize>)
        ensures
            ix == match spec_last_tab_with_path(self.documents@, path@) {
                Some(i) => if self.documents@[i].snapshot == snapshot { Some(i as usize) } else { None },
                None => None,
            },
    {
        match last_tab_with_path(&self.documents, path) {
            Some(i) => if self.documents[i].snapshot == snapshot { Some(i) } else { None },
            None => None,
        }
    }

    /// The session color rules layered over every multi-file result group: those of the
    /// active multi-file session; none in the current-file scope.
    pub fn session_color_rules(&self) -> (rules: Option<&Vec<crate::workspace::KeywordColorRule>>)
        ensures
            rules == match self.global_search.scope {
                SearchScope::AllOpenFiles => Some(&self.global_search.all_open_rules),
                SearchScope::Directory => Some(&self.global_search.directory_rules),
                SearchScope::CurrentFile => None,
            },
    {
        match self.global_search.scope {
            SearchScope::AllOpenFiles => Some(&self.global_search.all_open_rules),
            SearchScope::Directory => Some(&self.global_search.directory_rules),
            SearchScope::CurrentFile => None,
        }
    }
}

} // verus!
