//! Applying a color label to keywords: what an action reads before it is prepared off the
//! workspace state, and how a prepared update is checked against the state it was prepared
//! from and installed.
use vstd::prelude::*;
use crate::global_targets::{spec_result_matches_tab, ColorKeywordSelection, ColorKeywordTarget};
use crate::preferences::Preferences;
use crate::regions::{spec_sat_inc, SearchScope};
use crate::workspace::{DocumentTab, GlobalResultEntry, GlobalSearchState, KeywordColorRule, Workspace};

verus! {

/// What a color action does.
#[derive(Clone, Debug)]
pub enum ColorRuleAction {
    /// Applies a label to the keywords, or clears all colors of the file.
    Apply { label_id: Option<String>, clear_all: bool },
    /// Moves the keywords to the next label, removing their color after the last one.
    Cycle,
}

/// A file that gets the same keyword rules, with the rules it had when the action started.
#[derive(Clone, Debug)]
pub struct ColorRulePropagationTarget {
    pub document_id: u64,
    pub snapshot: u64,
    pub expected_rules: Vec<KeywordColorRule>,
}

/// The multi-file search session that gets the same keyword rules.
#[derive(Clone, Debug)]
pub struct ColorRuleSessionTarget {
    pub scope: SearchScope,
    pub expected_revision: u64,
    pub expected_rules: Vec<KeywordColorRule>,
}

/// What a color-rule update is prepared from.
#[derive(Clone, Debug)]
pub struct ColorRuleUpdateInput {
    pub target: ColorKeywordTarget,
    /// The keywords must be read (all but clearing the file's colors).
    pub collect_keywords: bool,
    pub action: ColorRuleAction,
    /// The file's rules when the action started.
    pub rules: Vec<KeywordColorRule>,
    pub labels_revision: u64,
    pub last_color_label_id: Option<String>,
    pub propagation_targets: Vec<ColorRulePropagationTarget>,
    pub session_target: Option<ColorRuleSessionTarget>,
}

/// How a color action starts.
#[derive(Clone, Debug)]
pub enum ColorRuleStart {
    /// The target file was refreshed or closed.
    TargetGone,
    /// The update is prepared in the background; its result is installed only while
    /// `revision` is the current color-rule revision.
    Started { revision: u64, input: ColorRuleUpdateInput },
}

/// Two rules say the same.
pub open spec fn spec_rule_eq(a: KeywordColorRule, b: KeywordColorRule) -> bool {
    &&& match (a.label_id, b.label_id) {
        (Some(x), Some(y)) => x@ == y@,
        (None, None) => true,
        _ => false,
    }
    &&& a.keyword@ == b.keyword@
    &&& a.color == b.color
    &&& a.alpha == b.alpha
    &&& a.case_sensitive == b.case_sensitive
    &&& a.enabled == b.enabled
}

/// Two rule lists say the same, rule by rule.
pub open spec fn spec_rules_eq(a: Seq<KeywordColorRule>, b: Seq<KeywordColorRule>) -> bool {
    a.len() == b.len() && forall|i: int| 0 <= i < a.len() ==> spec_rule_eq(#[trigger] a[i], b[i])
}

fn copy_label(label: &Option<String>) -> (c: Option<String>)
    ensures
        c == *label,
{
    match label {
        Some(s) => Some(s.clone()),
        None => None,
    }
}

fn copy_rule(rule: &KeywordColorRule) -> (c: KeywordColorRule)
    ensures
        c == *rule,
{
    KeywordColorRule {
        label_id: copy_label(&rule.label_id),
        keyword: rule.keyword.clone(),
        color: rule.color,
        alpha: rule.alpha,
        case_sensitive: rule.case_sensitive,
        enabled: rule.enabled,
    }
}

/// A copy of a rule list.
pub fn copy_rules(rules: &Vec<KeywordColorRule>) -> (c: Vec<KeywordColorRule>)
    ensures
        c@ == rules@,
{
    let mut c: Vec<KeywordColorRule> = Vec::new();
    let mut i: usize = 0;
    while i < rules.len()
        invariant
            i <= rules.len(),
            c@ == rules@.take(i as int),
        decreases rules.len() - i,
    {
        c.push(copy_rule(&rules[i]));
        proof { assert(rules@.take(i + 1) =~= rules@.take(i as int).push(rules@[i as int])); }
        i = i + 1;
    }
    proof { assert(rules@.take(rules.len() as int) =~= rules@); }
    c
}

fn label_eq(a: &Option<String>, b: &Option<String>) -> (eq: bool)
    ensures
        eq == match (*a, *b) {
            (Some(x), Some(y)) => x@ == y@,
            (None, None) => true,
            _ => false,
        },
{
    match (a, b) {
        (Some(x), Some(y)) => *x == *y,
        (None, None) => true,
        _ => false,
    }
}

/// Whether two rule lists say the same.
pub fn rules_eq(a: &Vec<KeywordColorRule>, b: &Vec<KeywordColorRule>) -> (eq: bool)
    ensures
        eq == spec_rules_eq(a@, b@),
{
    if a.len() != b.len() {
        return false;
    }
    let mut i: usize = 0;
    while i < a.len()
        invariant
            i <= a.len(),
            a.len() == b.len(),
            forall|j: int| 0 <= j < i ==> spec_rule_eq(#[trigger] a@[j], b@[j]),
        decreases a.len() - i,
    {
        let (x, y) = (&a[i], &b[i]);
        if !(label_eq(&x.label_id, &y.label_id) && x.keyword == y.keyword && x.color == y.color && x.alpha == y.alpha
            && x.case_sensitive == y.case_sensitive && x.enabled == y.enabled) {
            return false;
        }
        i = i + 1;
    }
    true
}

/// The index of the first tab that shows a snapshot of a document.
pub open spec fn spec_snapshot_tab(documents: Seq<DocumentTab>, document_id: u64, snapshot: u64) -> Option<int> {
    crate::workspace::first_index(documents, spec_is_snapshot_tab(document_id, snapshot))
}

/// A tab shows a snapshot of a document.
pub open spec fn spec_is_snapshot_tab(document_id: u64, snapshot: u64) -> spec_fn(DocumentTab) -> bool {
    |tab: DocumentTab| tab.id == document_id && tab.snapshot == snapshot
}

/// The index of the first tab that shows a snapshot of a document.
pub fn snapshot_tab_ix(documents: &Vec<DocumentTab>, document_id: u64, snapshot: u64) -> (ix: Option<usize>)
    ensures
        match ix {
            Some(i) => spec_snapshot_tab(documents@, document_id, snapshot) == Some(i as int),
            None => spec_snapshot_tab(documents@, document_id, snapshot) is None,
        },
        match spec_snapshot_tab(documents@, document_id, snapshot) {
            Some(k) => 0 <= k < documents.len() && documents@[k].id == document_id && documents@[k].snapshot == snapshot,
            None => true,
        },
{
    let ghost p = spec_is_snapshot_tab(document_id, snapshot);
    let mut i: usize = 0;
    while i < documents.len()
        invariant
            i <= documents.len(),
            p == spec_is_snapshot_tab(document_id, snapshot),
            forall|j: int| 0 <= j < i ==> !p(documents@[j]),
        decreases documents.len() - i,
    {
        if documents[i].id == document_id && documents[i].snapshot == snapshot {
            proof { crate::workspace::lemma_first_index(documents@, p, i as int); }
            return Some(i);
        }
        i = i + 1;
    }
    proof { crate::workspace::lemma_first_index(documents@, p, i as int); }
    None
}

/// A tab, other than the action's file, whose file has results in the multi-file scope the
/// rules spread to: in the all-open-files scope a result of its id, in the directory scope a
/// result searched in its snapshot.
pub open spec fn spec_propagates_to(results: Seq<GlobalResultEntry>, scope: SearchScope, target_id: u64, tab: DocumentTab) -> bool {
    &&& tab.id != target_id
    &&& match scope {
        SearchScope::AllOpenFiles => exists|r: int| 0 <= r < results.len() && results[r].document_id == tab.id,
        SearchScope::Directory => exists|r: int| 0 <= r < results.len() && spec_result_matches_tab(results[r], tab),
        SearchScope::CurrentFile => false,
    }
}

/// The files the rules spread to, in tab order, with their rules.
pub open spec fn spec_propagation_targets(documents: Seq<DocumentTab>, results: Seq<GlobalResultEntry>, scope: SearchScope, target_id: u64)
    -> Seq<(u64, u64, Seq<KeywordColorRule>)>
    decreases documents.len(),
{
    if documents.len() == 0 {
        Seq::empty()
    } else {
        let rest = spec_propagation_targets(documents.drop_last(), results, scope, target_id);
        let tab = documents.last();
        if spec_propagates_to(results, scope, target_id, tab) {
            rest.push((tab.id, tab.snapshot, tab.keyword_color_rules@))
        } else {
            rest
        }
    }
}

/// The views of propagation targets.
pub open spec fn spec_target_views(targets: Seq<ColorRulePropagationTarget>) -> Seq<(u64, u64, Seq<KeywordColorRule>)> {
    targets.map_values(|t: ColorRulePropagationTarget| (t.document_id, t.snapshot, t.expected_rules@))
}

fn has_result_for(results: &Vec<GlobalResultEntry>, scope: SearchScope, tab: &DocumentTab) -> (found: bool)
    ensures
        found == match scope {
            SearchScope::AllOpenFiles => exists|r: int| 0 <= r < results.len() && results@[r].document_id == tab.id,
            SearchScope::Directory => exists|r: int| 0 <= r < results.len() && spec_result_matches_tab(results@[r], *tab),
            SearchScope::CurrentFile => false,
        },
{
    if scope == SearchScope::CurrentFile {
        return false;
    }
    let mut r: usize = 0;
    while r < results.len()
        invariant
            r <= results.len(),
            scope != SearchScope::CurrentFile,
            forall|j: int| 0 <= j < r ==> !(match scope {
                SearchScope::AllOpenFiles => results@[j].document_id == tab.id,
                _ => spec_result_matches_tab(results@[j], *tab),
            }),
        decreases results.len() - r,
    {
        let result = &results[r];
        let hit = match scope {
            SearchScope::AllOpenFiles => result.document_id == tab.id,
            _ => result.path_key == tab.path_key && result.snapshot == tab.snapshot,
        };
        if hit {
            return true;
        }
        r = r + 1;
    }
    false
}

impl<P: Copy> Workspace<P> {
    /// The scope a text keyword's rules spread to: the multi-file scope whose results are
    /// installed, for a keyword that is not blank.
    pub open spec fn spec_propagation_scope(self, selection: ColorKeywordSelection) -> Option<SearchScope> {
        match selection {
            ColorKeywordSelection::Text(text) => if crate::line_tasks::trim_result(text@).len() > 0
                && self.global_search.scope != SearchScope::CurrentFile
                && self.global_search.result_scope == Some(self.global_search.scope) {
                Some(self.global_search.scope)
            } else {
                None
            },
            ColorKeywordSelection::Rows(_) => None,
        }
    }

    /// Starts a color action on a file: the running one is abandoned, and the update is
    /// prepared from the file's rules, the rules of the other files and of the search session a
    /// text keyword spreads to (files with results in the installed multi-file scope), the
    /// current labels and the label applied last. Clearing all colors reads no keywords.
    pub fn start_color_rule_action(&mut self, target: ColorKeywordTarget, action: ColorRuleAction) -> (start: ColorRuleStart)
        ensures
            ({
                let revision = spec_sat_inc(old(self).color_rule_revision);
                let ix = spec_snapshot_tab(old(self).documents@, target.document_id, target.snapshot);
                match start {
                    ColorRuleStart::TargetGone => ix is None && *final(self) == (Workspace {
                        color_rule_revision: revision,
                        color_rule_running: false,
                        ..*old(self)
                    }),
                    ColorRuleStart::Started { revision: r, input } => {
                        let scope = old(self).spec_propagation_scope(target.selection);
                        &&& ix is Some
                        &&& r == revision
                        &&& *final(self) == (Workspace { color_rule_revision: revision, color_rule_running: true, ..*old(self) })
                        &&& input.target == target
                        &&& input.collect_keywords == !(action matches ColorRuleAction::Apply { clear_all: true, .. })
                        &&& input.action == action
                        &&& input.rules@ == old(self).documents@[ix->0].keyword_color_rules@
                        &&& input.labels_revision == old(self).prefs.color_labels_revision
                        &&& input.last_color_label_id == old(self).prefs.last_color_label_id
                        &&& spec_target_views(input.propagation_targets@) == match scope {
                            Some(s) => spec_propagation_targets(old(self).documents@, old(self).global_search.results@, s, target.document_id),
                            None => Seq::empty(),
                        }
                        &&& match (scope, input.session_target) {
                            (Some(s), Some(session)) => session.scope == s
                                && session.expected_revision == old(self).global_search.revision
                                && session.expected_rules@ == if s == SearchScope::AllOpenFiles {
                                    old(self).global_search.all_open_rules@
                                } else {
                                    old(self).global_search.directory_rules@
                                },
                            (None, None) => true,
                            _ => false,
                        }
                    },
                }
            }),
    {
        self.color_rule_revision = self.color_rule_revision.saturating_add(1);
        self.color_rule_running = false;
        let revision = self.color_rule_revision;
        let collect_keywords = match &action {
            ColorRuleAction::Apply { clear_all, .. } => !*clear_all,
            ColorRuleAction::Cycle => true,
        };
        let ix = match snapshot_tab_ix(&self.documents, target.document_id, target.snapshot) {
            Some(ix) => ix,
            None => return ColorRuleStart::TargetGone,
        };
        let rules = copy_rules(&self.documents[ix].keyword_color_rules);
        let scope = match &target.selection {
            ColorKeywordSelection::Text(text) => {
                let trimmed = crate::line_tasks::trim(text.as_str());
                if !trimmed.is_empty() && self.global_search.scope != SearchScope::CurrentFile
                    && self.global_search.result_scope == Some(self.global_search.scope) {
                    Some(self.global_search.scope)
                } else {
                    None
                }
            },
            ColorKeywordSelection::Rows(_) => None,
        };
        let mut propagation_targets: Vec<ColorRulePropagationTarget> = Vec::new();
        if let Some(s) = scope {
            let mut i: usize = 0;
            while i < self.documents.len()
                invariant
                    i <= self.documents.len(),
                    spec_target_views(propagation_targets@)
                        == spec_propagation_targets(self.documents@.take(i as int), self.global_search.results@, s, target.document_id),
                decreases self.documents.len() - i,
            {
                let tab = &self.documents[i];
                let ghost taken = self.documents@.take(i + 1);
                assert(taken.drop_last() =~= self.documents@.take(i as int));
                assert(taken.last() == self.documents@[i as int]);
                let ghost before = propagation_targets@;
                if tab.id != target.document_id && has_result_for(&self.global_search.results, s, tab) {
                    propagation_targets.push(ColorRulePropagationTarget {
                        document_id: tab.id,
                        snapshot: tab.snapshot,
                        expected_rules: copy_rules(&tab.keyword_color_rules),
                    });
                    assert(spec_target_views(propagation_targets@) =~= spec_target_views(before).push(
                        (tab.id, tab.snapshot, tab.keyword_color_rules@)));
                }
                i = i + 1;
            }
            assert(self.documents@.take(self.documents.len() as int) =~= self.documents@);
        } else {
            assert(spec_target_views(propagation_targets@) =~= Seq::empty());
        }
        let session_target = match scope {
            Some(s) => Some(ColorRuleSessionTarget {
                scope: s,
                expected_revision: self.global_search.revision,
                expected_rules: if s == SearchScope::AllOpenFiles {
                    copy_rules(&self.global_search.all_open_rules)
                } else {
                    copy_rules(&self.global_search.directory_rules)
                },
            }),
            None => None,
        };
        self.color_rule_running = true;
        ColorRuleStart::Started {
            revision,
            input: ColorRuleUpdateInput {
                target,
                collect_keywords,
                action,
                rules,
                labels_revision: self.prefs.color_labels_revision,
                last_color_label_id: copy_label(&self.prefs.last_color_label_id),
                propagation_targets,
                session_target,
            },
        }
    }
}

/// What the prepared update did to the keywords.
#[derive(Clone, Debug)]
pub enum ColorRuleOutcome {
    /// No keyword was found in the selection.
    EmptyKeywords,
    /// There are no color labels.
    MissingLabels,
    /// The chosen label no longer exists.
    MissingLabel,
    /// Cycling removed the color of `count` keywords.
    CycleRemoved { count: usize },
    /// Cycling colored `count` keywords with a label.
    CycleApplied { label_id: String, count: usize },
    Applied,
    Removed,
    /// All colors of the file were cleared.
    Cleared,
}

/// The new rules of a file the update spreads to, with the rules it was prepared from.
#[derive(Clone, Debug)]
pub struct PropagatedColorRules {
    pub document_id: u64,
    pub snapshot: u64,
    pub expected_rules: Vec<KeywordColorRule>,
    pub rules: Vec<KeywordColorRule>,
}

/// The new rules of the search session, with the state they were prepared from.
#[derive(Clone, Debug)]
pub struct SessionColorRules {
    pub scope: SearchScope,
    pub expected_revision: u64,
    pub expected_rules: Vec<KeywordColorRule>,
    pub rules: Vec<KeywordColorRule>,
}

/// A color-rule update prepared off the workspace state.
#[derive(Clone, Debug)]
pub struct PreparedColorRuleUpdate {
    pub document_id: u64,
    pub snapshot: u64,
    /// The file's rules and the labels the update was prepared from.
    pub expected_rules: Vec<KeywordColorRule>,
    pub expected_labels_revision: u64,
    /// The file's new rules.
    pub rules: Vec<KeywordColorRule>,
    pub last_color_label_id: Option<String>,
    pub propagated_files: Vec<PropagatedColorRules>,
    pub search_session: Option<SessionColorRules>,
    pub outcome: ColorRuleOutcome,
    /// The new rules were compiled to matchers.
    pub resolved: bool,
}

/// How installing a prepared update ended.
#[derive(Clone, Debug)]
pub enum ColorRuleFinish {
    /// The file was refreshed or closed.
    TargetGone,
    /// The file's rules or the labels changed meanwhile.
    SettingsChanged,
    /// A file the rules spread to, or the search session, changed meanwhile.
    ResultsChanged,
    /// The update found nothing to apply; the outcome says why.
    Refused(ColorRuleOutcome),
    /// The rules were compiled to no matchers: nothing is installed.
    Unresolved,
    /// The rules were installed: in the file at `tab_ix`, the files at `propagated`, and the
    /// search session where `session_changed`.
    Installed { tab_ix: usize, propagated: Vec<usize>, session_changed: bool, outcome: ColorRuleOutcome },
}

/// An outcome that installs nothing.
pub open spec fn spec_refusal(outcome: ColorRuleOutcome) -> bool {
    outcome is EmptyKeywords || outcome is MissingLabels || outcome is MissingLabel
}

/// A tab that shows a snapshot of a document and still has the rules an update expects.
pub open spec fn spec_is_unchanged_tab(document_id: u64, snapshot: u64, rules: Seq<KeywordColorRule>) -> spec_fn(DocumentTab) -> bool {
    |tab: DocumentTab| tab.id == document_id && tab.snapshot == snapshot && spec_rules_eq(tab.keyword_color_rules@, rules)
}

/// The tab a propagated update goes to.
pub open spec fn spec_propagated_tab(documents: Seq<DocumentTab>, p: PropagatedColorRules) -> Option<int> {
    crate::workspace::first_index(documents, spec_is_unchanged_tab(p.document_id, p.snapshot, p.expected_rules@))
}

/// The search session is still the one the update was prepared for.
pub open spec fn spec_session_current(global: GlobalSearchState, session: Option<SessionColorRules>) -> bool {
    match session {
        None => true,
        Some(s) => global.scope == s.scope && global.result_scope == Some(s.scope) && global.revision == s.expected_revision
            && match s.scope {
                SearchScope::AllOpenFiles => spec_rules_eq(global.all_open_rules@, s.expected_rules@),
                SearchScope::Directory => spec_rules_eq(global.directory_rules@, s.expected_rules@),
                SearchScope::CurrentFile => false,
            },
    }
}

/// The rules of tab `j` after rule updates in order: the last update of `j`, else `rules`.
pub open spec fn spec_rules_after(rules: Seq<KeywordColorRule>, updates: Seq<(int, Seq<KeywordColorRule>)>, j: int) -> Seq<KeywordColorRule>
    decreases updates.len(),
{
    if updates.len() == 0 {
        rules
    } else if updates.last().0 == j {
        updates.last().1
    } else {
        spec_rules_after(rules, updates.drop_last(), j)
    }
}

/// The rule updates an installed update makes: the file first, then the files it spreads to.
pub open spec fn spec_rule_updates(tab_ix: int, prepared: PreparedColorRuleUpdate, propagated: Seq<usize>) -> Seq<(int, Seq<KeywordColorRule>)> {
    seq![(tab_ix, prepared.rules@)] + Seq::new(propagated.len(), |k: int| (propagated[k] as int, prepared.propagated_files@[k].rules@))
}

fn unchanged_tab_ix(documents: &Vec<DocumentTab>, p: &PropagatedColorRules) -> (ix: Option<usize>)
    ensures
        match ix {
            Some(i) => spec_propagated_tab(documents@, *p) == Some(i as int),
            None => spec_propagated_tab(documents@, *p) is None,
        },
        match spec_propagated_tab(documents@, *p) {
            Some(k) => 0 <= k < documents.len(),
            None => true,
        },
{
    let ghost pred = spec_is_unchanged_tab(p.document_id, p.snapshot, p.expected_rules@);
    let mut i: usize = 0;
    while i < documents.len()
        invariant
            i <= documents.len(),
            pred == spec_is_unchanged_tab(p.document_id, p.snapshot, p.expected_rules@),
            forall|j: int| 0 <= j < i ==> !pred(documents@[j]),
        decreases documents.len() - i,
    {
        let tab = &documents[i];
        if tab.id == p.document_id && tab.snapshot == p.snapshot && rules_eq(&tab.keyword_color_rules, &p.expected_rules) {
            proof { crate::workspace::lemma_first_index(documents@, pred, i as int); }
            return Some(i);
        }
        i = i + 1;
    }
    proof { crate::workspace::lemma_first_index(documents@, pred, i as int); }
    None
}

impl<P: Copy> Workspace<P> {
    /// Whether the search session is still the one the update was prepared for.
    fn session_current(&self, session: &Option<SessionColorRules>) -> (current: bool)
        ensures
            current == spec_session_current(self.global_search, *session),
    {
        match session {
            None => true,
            Some(s) => {
                if self.global_search.scope != s.scope || self.global_search.result_scope != Some(s.scope)
                    || self.global_search.revision != s.expected_revision {
                    return false;
                }
                match s.scope {
                    SearchScope::AllOpenFiles => rules_eq(&self.global_search.all_open_rules, &s.expected_rules),
                    SearchScope::Directory => rules_eq(&self.global_search.directory_rules, &s.expected_rules),
                    SearchScope::CurrentFile => false,
                }
            },
        }
    }

    /// The workspace is still in the state an update was prepared from: its file shows the
    /// same snapshot with the same rules and labels, every file it spreads to is found with its
    /// expected rules, and the search session is unchanged.
    pub open spec fn spec_update_applies(self, prepared: PreparedColorRuleUpdate) -> bool {
        match spec_snapshot_tab(self.documents@, prepared.document_id, prepared.snapshot) {
            None => false,
            Some(i) => spec_rules_eq(self.documents@[i].keyword_color_rules@, prepared.expected_rules@)
                && self.prefs.color_labels_revision == prepared.expected_labels_revision
                && (forall|k: int| 0 <= k < prepared.propagated_files.len()
                    ==> #[trigger] spec_propagated_tab(self.documents@, prepared.propagated_files@[k]) is Some)
                && spec_session_current(self.global_search, prepared.search_session),
        }
    }

    /// Installs a prepared color-rule update, unless the workspace changed since it was
    /// prepared or the update found nothing to apply: the file's rules, the rules of the
    /// files it spreads to and of the search session are replaced, and the label applied
    /// last is remembered.
    #[verifier::rlimit(60)]
    #[verifier::loop_isolation(false)]
    pub fn finish_color_rule_update(&mut self, prepared: PreparedColorRuleUpdate) -> (finish: ColorRuleFinish)
        ensures
            ({
                let ix = spec_snapshot_tab(old(self).documents@, prepared.document_id, prepared.snapshot);
                match finish {
                    ColorRuleFinish::Installed { tab_ix, propagated, session_changed, outcome } => {
                        let updates = spec_rule_updates(tab_ix as int, prepared, propagated@);
                        &&& old(self).spec_update_applies(prepared)
                        &&& !spec_refusal(prepared.outcome) && prepared.resolved
                        &&& outcome == prepared.outcome
                        &&& ix == Some(tab_ix as int)
                        &&& propagated.len() == prepared.propagated_files.len()
                        &&& forall|k: int| 0 <= k < propagated.len()
                            ==> spec_propagated_tab(old(self).documents@, prepared.propagated_files@[k]) == Some(#[trigger] propagated@[k] as int)
                        &&& final(self).documents.len() == old(self).documents.len()
                        &&& forall|j: int| 0 <= j < final(self).documents.len() ==> {
                            let post = #[trigger] final(self).documents@[j];
                            &&& post == DocumentTab { keyword_color_rules: post.keyword_color_rules, ..old(self).documents@[j] }
                            &&& post.keyword_color_rules@ == spec_rules_after(old(self).documents@[j].keyword_color_rules@, updates, j)
                        }
                        &&& session_changed == prepared.search_session is Some
                        &&& match prepared.search_session {
                            Some(s) => if s.scope == SearchScope::AllOpenFiles {
                                final(self).global_search.all_open_rules@ == s.rules@
                                    && final(self).global_search == (GlobalSearchState {
                                        all_open_rules: final(self).global_search.all_open_rules,
                                        ..old(self).global_search
                                    })
                            } else {
                                final(self).global_search.directory_rules@ == s.rules@
                                    && final(self).global_search == (GlobalSearchState {
                                        directory_rules: final(self).global_search.directory_rules,
                                        ..old(self).global_search
                                    })
                            },
                            None => final(self).global_search == old(self).global_search,
                        }
                        &&& *final(self) == (Workspace {
                            documents: final(self).documents,
                            global_search: final(self).global_search,
                            prefs: Preferences { last_color_label_id: prepared.last_color_label_id, ..old(self).prefs },
                            ..*old(self)
                        })
                    },
                    _ => *final(self) == *old(self) && match finish {
                        ColorRuleFinish::TargetGone => ix is None,
                        ColorRuleFinish::SettingsChanged => ix is Some && !(spec_rules_eq(
                            old(self).documents@[ix->0].keyword_color_rules@, prepared.expected_rules@)
                            && old(self).prefs.color_labels_revision == prepared.expected_labels_revision),
                        ColorRuleFinish::ResultsChanged => ix is Some && spec_rules_eq(
                            old(self).documents@[ix->0].keyword_color_rules@, prepared.expected_rules@)
                            && old(self).prefs.color_labels_revision == prepared.expected_labels_revision
                            && !old(self).spec_update_applies(prepared),
                        ColorRuleFinish::Refused(o) => old(self).spec_update_applies(prepared) && spec_refusal(prepared.outcome)
                            && o == prepared.outcome,
                        ColorRuleFinish::Unresolved => old(self).spec_update_applies(prepared) && !spec_refusal(prepared.outcome)
                            && !prepared.resolved,
                        _ => false,
                    },
                }
            }),
    {
        let ix = match snapshot_tab_ix(&self.documents, prepared.document_id, prepared.snapshot) {
            Some(ix) => ix,
            None => return ColorRuleFinish::TargetGone,
        };
        if !rules_eq(&self.documents[ix].keyword_color_rules, &prepared.expected_rules)
            || self.prefs.color_labels_revision != prepared.expected_labels_revision {
            return ColorRuleFinish::SettingsChanged;
        }
        let mut propagated: Vec<usize> = Vec::new();
        let mut k: usize = 0;
        while k < prepared.propagated_files.len()
            invariant
                k <= prepared.propagated_files.len(),
                propagated.len() == k,
                forall|m: int| 0 <= m < k
                    ==> spec_propagated_tab(self.documents@, prepared.propagated_files@[m]) == Some(#[trigger] propagated@[m] as int),
                forall|m: int| 0 <= m < k ==> #[trigger] propagated@[m] < self.documents.len(),
            decreases prepared.propagated_files.len() - k,
        {
            match unchanged_tab_ix(&self.documents, &prepared.propagated_files[k]) {
                Some(i) => propagated.push(i),
                None => {
                    assert(spec_propagated_tab(self.documents@, prepared.propagated_files@[k as int]) is None);
                    return ColorRuleFinish::ResultsChanged;
                },
            }
            k = k + 1;
        }
        if !self.session_current(&prepared.search_session) {
            return ColorRuleFinish::ResultsChanged;
        }
        assert forall|m: int| 0 <= m < prepared.propagated_files.len()
            implies #[trigger] spec_propagated_tab(self.documents@, prepared.propagated_files@[m]) is Some by {
            assert(spec_propagated_tab(self.documents@, prepared.propagated_files@[m]) == Some(propagated@[m] as int));
        }
        match prepared.outcome {
            ColorRuleOutcome::EmptyKeywords | ColorRuleOutcome::MissingLabels | ColorRuleOutcome::MissingLabel => {
                return ColorRuleFinish::Refused(prepared.outcome);
            },
            _ => {},
        }
        if !prepared.resolved {
            return ColorRuleFinish::Unresolved;
        }
        let PreparedColorRuleUpdate { rules, last_color_label_id, propagated_files, search_session, outcome, .. } = prepared;
        let ghost updates = spec_rule_updates(ix as int, prepared, propagated@);
        let ghost pre_docs = self.documents@;
        self.install_rules(ix, rules, &propagated, propagated_files, Ghost(updates));
        self.prefs.last_color_label_id = last_color_label_id;
        let session_changed = match search_session {
            Some(s) => {
                if s.scope == SearchScope::AllOpenFiles {
                    self.global_search.all_open_rules = s.rules;
                } else {
                    self.global_search.directory_rules = s.rules;
                }
                true
            },
            None => false,
        };
        ColorRuleFinish::Installed { tab_ix: ix, propagated, session_changed, outcome }
    }

    /// Replaces the rules of the file at `tab_ix` and then of the files at `propagated`.
    fn install_rules(
        &mut self,
        tab_ix: usize,
        rules: Vec<KeywordColorRule>,
        propagated: &Vec<usize>,
        files: Vec<PropagatedColorRules>,
        Ghost(updates): Ghost<Seq<(int, Seq<KeywordColorRule>)>>,
    )
        requires
            tab_ix < old(self).documents.len(),
            propagated.len() == files.len(),
            forall|m: int| 0 <= m < propagated.len() ==> #[trigger] propagated@[m] < old(self).documents.len(),
            updates == seq![(tab_ix as int, rules@)] + Seq::new(propagated.len() as nat, |k: int| (propagated@[k] as int, files@[k].rules@)),
        ensures
            final(self).documents.len() == old(self).documents.len(),
            forall|j: int| 0 <= j < final(self).documents.len() ==> {
                let post = #[trigger] final(self).documents@[j];
                &&& post == DocumentTab { keyword_color_rules: post.keyword_color_rules, ..old(self).documents@[j] }
                &&& post.keyword_color_rules@ == spec_rules_after(old(self).documents@[j].keyword_color_rules@, updates, j)
            },
            *final(self) == (Workspace { documents: final(self).documents, ..*old(self) }),
    {
        let ghost pre = self.documents@;
        let ghost rules_view = rules@;
        self.documents[tab_ix].keyword_color_rules = rules;
        proof {
            assert(updates[0] == (tab_ix as int, rules_view));
            assert(updates.take(1) =~= seq![updates[0]]);
            assert forall|j: int| 0 <= j < self.documents.len() implies
                spec_rules_after(pre[j].keyword_color_rules@, updates.take(1), j) == #[trigger] self.documents@[j].keyword_color_rules@ by {
                assert(updates.take(1).drop_last() =~= Seq::<(int, Seq<KeywordColorRule>)>::empty());
                assert(updates.take(1).last() == updates[0]);
                assert(spec_rules_after(pre[j].keyword_color_rules@, Seq::<(int, Seq<KeywordColorRule>)>::empty(), j)
                    == pre[j].keyword_color_rules@);
                if j != tab_ix {
                    assert(self.documents@[j] == pre[j]);
                }
            }
        }
        let mut files = files;
        let mut k: usize = 0;
        while k < propagated.len()
            invariant
                k <= propagated.len(),
                propagated.len() == files.len(),
                self.documents.len() == pre.len(),
                forall|m: int| 0 <= m < propagated.len() ==> #[trigger] propagated@[m] < pre.len(),
                forall|m: int| k <= m < files.len() ==> #[trigger] files@[m].rules@ == updates[m + 1].1,
                forall|m: int| 0 <= m < propagated.len() ==> #[trigger] updates[m + 1].0 == propagated@[m] as int,
                updates.len() == propagated.len() + 1,
                forall|j: int| 0 <= j < self.documents.len() ==> {
                    let post = #[trigger] self.documents@[j];
                    &&& post == DocumentTab { keyword_color_rules: post.keyword_color_rules, ..pre[j] }
                    &&& post.keyword_color_rules@ == spec_rules_after(pre[j].keyword_color_rules@, updates.take(k + 1), j)
                },
                *self == (Workspace { documents: self.documents, ..*old(self) }),
            decreases propagated.len() - k,
        {
            let target = propagated[k];
            let mut new_rules: Vec<KeywordColorRule> = Vec::new();
            std::mem::swap(&mut new_rules, &mut files[k].rules);
            let ghost mid = self.documents@;
            self.documents[target].keyword_color_rules = new_rules;
            proof {
                let next = updates.take(k + 2);
                assert(next.drop_last() =~= updates.take(k + 1));
                assert(next.last() == updates[k + 1]);
                assert forall|j: int| 0 <= j < self.documents.len() implies {
                    let post = #[trigger] self.documents@[j];
                    &&& post == DocumentTab { keyword_color_rules: post.keyword_color_rules, ..pre[j] }
                    &&& post.keyword_color_rules@ == spec_rules_after(pre[j].keyword_color_rules@, next, j)
                } by {
                    if j != target {
                        assert(self.documents@[j] == mid[j]);
                    }
                }
                assert forall|m: int| k + 1 <= m < files.len() implies #[trigger] files@[m].rules@ == updates[m + 1].1 by {}
            }
            k = k + 1;
        }
        proof { assert(updates.take(propagated.len() + 1) =~= updates); }
    }
}

} // verus!
