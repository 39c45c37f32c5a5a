//! Installing a new set of color labels: the resolution of every file's keyword color rules
//! against them runs in the background, and its answer is installed only where nothing moved
//! on meanwhile.
use vstd::prelude::*;
use crate::color_rules::{copy_rules, rules_eq, spec_rules_eq};
use crate::line_tasks::{ColorRuleResolutionInput, PreparedColorRules};
use crate::preferences::Preferences;
use crate::regions::spec_sat_inc;
use crate::workspace::{first_index, lemma_first_index, DocumentTab, Workspace};

verus! {

/// A resolution of the files' color rules against new color labels.
#[derive(Clone, Debug)]
pub struct ColorLabelsResolution {
    /// Identifies the resolution: a later one makes it stale.
    pub revision: u64,
    /// Identifies the labels resolved against.
    pub labels_revision: u64,
    /// Each open file's rules, in tab order.
    pub inputs: Vec<ColorRuleResolutionInput>,
}

/// The inputs of a resolution: each tab's id, snapshot and rules.
pub open spec fn spec_resolution_inputs(documents: Seq<DocumentTab>, inputs: Seq<ColorRuleResolutionInput>) -> bool {
    &&& inputs.len() == documents.len()
    &&& forall|k: int| 0 <= k < documents.len() ==> {
        let input = #[trigger] inputs[k];
        &&& input.document_id == documents[k].id
        &&& input.snapshot == documents[k].snapshot
        &&& input.rules@ == documents[k].keyword_color_rules@
    }
}

/// The tab a resolved rule set belongs to: same id, same snapshot, same rules.
pub open spec fn spec_resolution_tab(document_id: u64, snapshot: u64, rules: Seq<crate::workspace::KeywordColorRule>) -> spec_fn(DocumentTab) -> bool {
    |tab: DocumentTab| tab.id == document_id && tab.snapshot == snapshot && spec_rules_eq(tab.keyword_color_rules@, rules)
}

/// The tabs that take resolved rules, each with its rules, in the order of `prepared`.
pub open spec fn spec_install_targets<M>(documents: Seq<DocumentTab>, prepared: Seq<PreparedColorRules<M>>) -> Seq<(usize, M)>
    decreases prepared.len(),
{
    if prepared.len() == 0 {
        Seq::empty()
    } else {
        let rest = spec_install_targets(documents, prepared.drop_last());
        let p = prepared.last();
        match first_index(documents, spec_resolution_tab(p.document_id, p.snapshot, p.rules@)) {
            Some(i) => rest.push((i as usize, p.resolved)),
            None => rest,
        }
    }
}

/// The label ids contain `id`.
fn has_label(label_ids: &Vec<String>, id: &String) -> (found: bool)
    ensures
        found == exists|i: int| 0 <= i < label_ids.len() && #[trigger] label_ids@[i]@ == id@,
{
    let mut i: usize = 0;
    while i < label_ids.len()
        invariant
            i <= label_ids.len(),
            forall|j: int| 0 <= j < i ==> #[trigger] label_ids@[j]@ != id@,
        decreases label_ids.len() - i,
    {
        if label_ids[i] == *id {
            assert(label_ids@[i as int]@ == id@);
            return true;
        }
        i = i + 1;
    }
    false
}

/// The first tab a resolved rule set belongs to.
fn resolution_tab(documents: &Vec<DocumentTab>, document_id: u64, snapshot: u64, rules: &Vec<crate::workspace::KeywordColorRule>) -> (ix: Option<usize>)
    ensures
        match ix {
            Some(i) => first_index(documents@, spec_resolution_tab(document_id, snapshot, rules@)) == Some(i as int),
            None => first_index(documents@, spec_resolution_tab(document_id, snapshot, rules@)) is None,
        },
{
    let ghost p = spec_resolution_tab(document_id, snapshot, rules@);
    let mut i: usize = 0;
    while i < documents.len()
        invariant
            i <= documents.len(),
            p == spec_resolution_tab(document_id, snapshot, rules@),
            forall|j: int| 0 <= j < i ==> !p(documents@[j]),
        decreases documents.len() - i,
    {
        let tab = &documents[i];
        if tab.id == document_id && tab.snapshot == snapshot && rules_eq(&tab.keyword_color_rules, rules) {
            proof { lemma_first_index(documents@, p, i as int); }
            return Some(i);
        }
        i = i + 1;
    }
    proof { lemma_first_index(documents@, p, i as int); }
    None
}

impl<P: Copy> Workspace<P> {
    /// Installs a new set of color labels, `label_ids` being their ids. The running color-rule
    /// update and color-label resolution are abandoned, the labels' revision moves on, the
    /// label applied last is forgotten where it is gone, and a resolution of every open file's
    /// rules starts.
    pub fn apply_color_labels(&mut self, label_ids: &Vec<String>) -> (resolution: ColorLabelsResolution)
        ensures
            ({
                let pre = old(self).prefs;
                let revision = spec_sat_inc(pre.color_labels_resolution_revision);
                let labels_revision = spec_sat_inc(pre.color_labels_revision);
                let last = match pre.last_color_label_id {
                    Some(id) => if exists|i: int| 0 <= i < label_ids.len() && #[trigger] label_ids@[i]@ == id@ {
                        Some(id)
                    } else {
                        None
                    },
                    None => None,
                };
                &&& resolution.revision == revision
                &&& resolution.labels_revision == labels_revision
                &&& spec_resolution_inputs(old(self).documents@, resolution.inputs@)
                &&& *final(self) == (Workspace {
                    color_rule_revision: spec_sat_inc(old(self).color_rule_revision),
                    color_rule_running: false,
                    prefs: Preferences {
                        color_labels_resolution_revision: revision,
                        color_labels_resolution_running: true,
                        color_labels_revision: labels_revision,
                        last_color_label_id: last,
                        ..pre
                    },
                    ..*old(self)
                })
            }),
    {
        self.cancel_color_rule_action();
        self.cancel_color_labels_resolution();
        self.prefs.color_labels_revision = self.prefs.color_labels_revision.saturating_add(1);
        let forget = match &self.prefs.last_color_label_id {
            Some(id) => !has_label(label_ids, id),
            None => false,
        };
        if forget {
            self.prefs.last_color_label_id = None;
        }
        self.prefs.color_labels_resolution_running = true;
        let mut inputs: Vec<ColorRuleResolutionInput> = Vec::new();
        let mut k: usize = 0;
        while k < self.documents.len()
            invariant
                k <= self.documents.len(),
                inputs.len() == k,
                forall|j: int| 0 <= j < k ==> {
                    let input = #[trigger] inputs@[j];
                    &&& input.document_id == self.documents@[j].id
                    &&& input.snapshot == self.documents@[j].snapshot
                    &&& input.rules@ == self.documents@[j].keyword_color_rules@
                },
            decreases self.documents.len() - k,
        {
            let tab = &self.documents[k];
            inputs.push(ColorRuleResolutionInput {
                document_id: tab.id,
                snapshot: tab.snapshot,
                rules: copy_rules(&tab.keyword_color_rules),
            });
            k = k + 1;
        }
        ColorLabelsResolution {
            revision: self.prefs.color_labels_resolution_revision,
            labels_revision: self.prefs.color_labels_revision,
            inputs,
        }
    }

    /// Takes the answer of the color-label resolution started at `revision` against the labels
    /// of `labels_revision`: dropped where another resolution started since; else the
    /// resolution is over, and a completed one whose labels are still current hands each
    /// resolved rule set to the tab it belongs to (same id, snapshot and rules), if still open.
    pub fn finish_color_labels_resolution<M>(
        &mut self,
        revision: u64,
        labels_revision: u64,
        prepared: Option<Vec<PreparedColorRules<M>>>,
    ) -> (targets: Vec<(usize, M)>)
        ensures
            if old(self).prefs.color_labels_resolution_revision != revision {
                targets.len() == 0 && *final(self) == *old(self)
            } else {
                &&& *final(self) == (Workspace {
                    prefs: Preferences { color_labels_resolution_running: false, ..old(self).prefs },
                    ..*old(self)
                })
                &&& match prepared {
                    Some(p) => if old(self).prefs.color_labels_revision == labels_revision {
                        targets@ == spec_install_targets(old(self).documents@, p@)
                    } else {
                        targets.len() == 0
                    },
                    None => targets.len() == 0,
                }
            },
    {
        let mut targets: Vec<(usize, M)> = Vec::new();
        if self.prefs.color_labels_resolution_revision != revision {
            return targets;
        }
        self.prefs.color_labels_resolution_running = false;
        let prepared = match prepared {
            Some(p) => p,
            None => return targets,
        };
        if self.prefs.color_labels_revision != labels_revision {
            return targets;
        }
        let ghost all = prepared@;
        let n = prepared.len();
        let mut rest = prepared;
        let mut i: usize = 0;
        while rest.len() > 0
            invariant
                i + rest.len() == all.len(),
                all.len() == n,
                rest@ == all.skip(i as int),
                targets@ == spec_install_targets(self.documents@, all.take(i as int)),
            decreases rest.len(),
        {
            let p = rest.remove(0);
            proof {
                assert(all.take(i + 1).drop_last() =~= all.take(i as int));
                assert(all.take(i + 1).last() == all[i as int]);
                assert(rest@ =~= all.skip(i + 1));
            }
            match resolution_tab(&self.documents, p.document_id, p.snapshot, &p.rules) {
                Some(ix) => targets.push((ix, p.resolved)),
                None => {},
            }
            i = i + 1;
        }
        proof { assert(all.take(i as int) =~= all); }
        targets
    }
}

} // verus!
