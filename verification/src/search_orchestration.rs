//! The search input: autocomplete suggestions, history browsing and key handling.
use vstd::prelude::*;
use crate::workspace::Workspace;

verus! {

/// What the suggestion list under the search input shows.
#[derive(Clone, Copy, Debug, PartialEq, Eq, Structural)]
pub enum SearchAutocompleteMode {
    Closed,
    /// Suggestions matching the typed query.
    Matches,
    /// The whole search history.
    History,
}

/// A navigation key in the search input.
#[derive(Clone, Copy, Debug, PartialEq, Eq, Structural)]
pub enum NavigationKey {
    Escape,
    Up,
    Down,
    Other,
}

/// Which editor holds the search query.
#[derive(Clone, Copy, Debug, PartialEq, Eq, Structural)]
pub enum SearchInput {
    SingleLine,
    Multiline,
}

/// What Enter in the search input does.
#[derive(Clone, Debug)]
pub enum SearchEnter {
    /// Shift+Enter in the multiline editor: the editor inserts a line break.
    LineBreak,
    /// The highlighted suggestion was taken; the input shows the update, if there is one.
    Accepted(Option<QueryUpdate>),
    /// No suggestion is highlighted: search for the query.
    Search,
}

/// Text to put into the search input.
#[derive(Clone, Debug)]
pub struct QueryUpdate {
    pub text: String,
    /// Select the whole text afterwards.
    pub select_all: bool,
}

impl<P: Copy> Workspace<P> {
    /// The autocomplete fields only change as given.
    pub open spec fn same_but_search_input(self, pre: Self) -> bool {
        self == (Workspace {
            search_autocomplete_mode: self.search_autocomplete_mode,
            search_suggestion_ix: self.search_suggestion_ix,
            search_history_ix: self.search_history_ix,
            search_history_draft: self.search_history_draft,
            ..pre
        })
    }

    /// Stops browsing the history with the wheel.
    pub fn reset_search_history_navigation(&mut self)
        ensures
            final(self).same_but_search_input(*old(self)),
            final(self).search_history_ix is None,
            final(self).search_history_draft is None,
            final(self).search_autocomplete_mode == old(self).search_autocomplete_mode,
            final(self).search_suggestion_ix == old(self).search_suggestion_ix,
    {
        self.search_history_ix = None;
        self.search_history_draft = None;
    }

    /// Hides the suggestion list.
    pub fn close_search_autocomplete(&mut self)
        ensures
            final(self).same_but_search_input(*old(self)),
            final(self).search_autocomplete_mode == SearchAutocompleteMode::Closed,
            final(self).search_suggestion_ix is None,
            final(self).search_history_ix == old(self).search_history_ix,
            final(self).search_history_draft == old(self).search_history_draft,
    {
        self.search_autocomplete_mode = SearchAutocompleteMode::Closed;
        self.search_suggestion_ix = None;
    }

    /// The highlighted suggestion among `suggestions`, the list the input shows.
    pub fn accept_active_search_suggestion(&self, suggestions: &Vec<String>) -> (accepted: Option<String>)
        ensures
            match self.search_suggestion_ix {
                Some(ix) => if ix < suggestions.len() {
                    accepted is Some && accepted->0@ == suggestions@[ix as int]@
                } else {
                    accepted is None
                },
                None => accepted is None,
            },
    {
        match self.search_suggestion_ix {
            Some(ix) => if ix < suggestions.len() { Some(suggestions[ix].clone()) } else { None },
            None => None,
        }
    }

    /// Shows matching suggestions after the query changed: the list opens when the query has
    /// text to match and some suggestion matches it, and nothing is highlighted.
    pub fn refresh_search_autocomplete(&mut self, has_input: bool, has_suggestions: bool)
        ensures
            final(self).same_but_search_input(*old(self)),
            final(self).search_autocomplete_mode == if has_input && has_suggestions {
                SearchAutocompleteMode::Matches
            } else {
                SearchAutocompleteMode::Closed
            },
            final(self).search_suggestion_ix is None,
            final(self).search_history_ix == old(self).search_history_ix,
            final(self).search_history_draft == old(self).search_history_draft,
    {
        self.search_autocomplete_mode = if has_input && has_suggestions {
            SearchAutocompleteMode::Matches
        } else {
            SearchAutocompleteMode::Closed
        };
        self.search_suggestion_ix = None;
    }

    /// How taking `suggestion` (or `applied`, the query with it applied) into the input takes
    /// the workspace from `pre` to `self` and gives `update`, the text the input then shows.
    pub open spec fn spec_suggestion_accepted(self, pre: Self, suggestion: Seq<char>, applied: Seq<char>, update: Option<QueryUpdate>) -> bool {
        match pre.search_autocomplete_mode {
            SearchAutocompleteMode::Closed => update is None && self == pre,
            mode => {
                &&& update is Some
                &&& update->0.text@ == if mode == SearchAutocompleteMode::History { suggestion } else { applied }
                &&& update->0.select_all == (mode == SearchAutocompleteMode::History)
                &&& self.same_but_search_input(pre)
                &&& self.search_autocomplete_mode == SearchAutocompleteMode::Closed
                &&& self.search_suggestion_ix is None
                &&& self.search_history_ix is None
                &&& self.search_history_draft is None
            },
        }
    }

    /// Takes a suggestion into the input. A history entry replaces the query and is selected;
    /// a matching suggestion is `applied`, the query with the suggestion applied to it. The list
    /// closes and history browsing stops.
    pub fn accept_search_suggestion(&mut self, suggestion: String, applied: String) -> (update: Option<QueryUpdate>)
        ensures
            final(self).spec_suggestion_accepted(*old(self), suggestion@, applied@, update),
    {
        let history = match self.search_autocomplete_mode {
            SearchAutocompleteMode::Closed => return None,
            SearchAutocompleteMode::History => true,
            SearchAutocompleteMode::Matches => false,
        };
        let text = if history { suggestion } else { applied };
        self.reset_search_history_navigation();
        self.close_search_autocomplete();
        Some(QueryUpdate { text, select_all: history })
    }

    /// Opens or closes the history list; an empty history opens nothing. Returns whether the
    /// input should take the focus.
    pub fn toggle_search_history_popup(&mut self) -> (toggled: bool)
        ensures
            toggled == (old(self).search_history.len() > 0),
            !toggled ==> *final(self) == *old(self),
            toggled ==> {
                &&& final(self).same_but_search_input(*old(self))
                &&& final(self).search_history_ix is None
                &&& final(self).search_history_draft is None
                &&& final(self).search_suggestion_ix is None
                &&& final(self).search_autocomplete_mode == if old(self).search_autocomplete_mode == SearchAutocompleteMode::History {
                    SearchAutocompleteMode::Closed
                } else {
                    SearchAutocompleteMode::History
                }
            },
    {
        if self.search_history.len() == 0 {
            return false;
        }
        self.reset_search_history_navigation();
        if self.search_autocomplete_mode == SearchAutocompleteMode::History {
            self.close_search_autocomplete();
        } else {
            self.search_autocomplete_mode = SearchAutocompleteMode::History;
            self.search_suggestion_ix = None;
        }
        true
    }

    /// What a navigation key does to the suggestion list, from `pre` to `self`, and whether it
    /// was used (`used`); `suggestion_count` is the length of the list the input shows.
    pub open spec fn navigated_by_key(self, pre: Self, key: NavigationKey, suggestion_count: usize, used: bool) -> bool {
        let mode = pre.search_autocomplete_mode;
        let same_list = self.same_but_search_input(pre)
            && self.search_history_ix == pre.search_history_ix
            && self.search_history_draft == pre.search_history_draft;
        match key {
            NavigationKey::Escape => if mode != SearchAutocompleteMode::Closed {
                used && same_list && self.search_autocomplete_mode == SearchAutocompleteMode::Closed
                    && self.search_suggestion_ix is None
            } else {
                !used && self == pre
            },
            NavigationKey::Other => !used && self == pre,
            _ => {
                let down = key == NavigationKey::Down;
                if mode == SearchAutocompleteMode::Closed {
                    let n = pre.search_history.len();
                    if n == 0 {
                        !used && self == pre
                    } else {
                        used && same_list && self.search_autocomplete_mode == SearchAutocompleteMode::History
                            && self.search_suggestion_ix == Some(if down { 0usize } else { (n - 1) as usize })
                    }
                } else if suggestion_count == 0 {
                    !used && same_list && self.search_autocomplete_mode == SearchAutocompleteMode::Closed
                        && self.search_suggestion_ix is None
                } else {
                    &&& used && same_list
                    &&& self.search_autocomplete_mode == mode
                    &&& self.search_suggestion_ix == Some(match (down, pre.search_suggestion_ix) {
                        (true, Some(ix)) => if ix + 1 < suggestion_count { (ix + 1) as usize } else { 0usize },
                        (true, None) => 0usize,
                        (false, Some(ix)) => if 0 < ix < suggestion_count { (ix - 1) as usize } else { (suggestion_count - 1) as usize },
                        (false, None) => (suggestion_count - 1) as usize,
                    })
                }
            },
        }
    }

    /// Moves through the suggestion list by key; returns whether the key was used.
    ///
    /// `suggestion_count` is the length of the list the input currently shows. Escape closes an
    /// open list. Up or Down open the history on its last or first entry when the list is closed,
    /// else move the highlight, wrapping around; an empty open list closes.
    pub fn navigate_search_autocomplete_by_key(&mut self, key: NavigationKey, suggestion_count: usize) -> (used: bool)
        ensures
            final(self).navigated_by_key(*old(self), key, suggestion_count, used),
    {
        match key {
            NavigationKey::Escape => {
                if self.search_autocomplete_mode != SearchAutocompleteMode::Closed {
                    self.close_search_autocomplete();
                    true
                } else {
                    false
                }
            },
            NavigationKey::Other => false,
            _ => {
                let down = key == NavigationKey::Down;
                if self.search_autocomplete_mode == SearchAutocompleteMode::Closed {
                    let n = self.search_history.len();
                    if n == 0 {
                        return false;
                    }
                    self.search_autocomplete_mode = SearchAutocompleteMode::History;
                    self.search_suggestion_ix = Some(if down { 0 } else { n - 1 });
                    true
                } else {
                    if suggestion_count == 0 {
                        self.close_search_autocomplete();
                        return false;
                    }
                    let next = match self.search_suggestion_ix {
                        Some(ix) => if down {
                            if ix < suggestion_count - 1 { ix + 1 } else { 0 }
                        } else {
                            if 0 < ix && ix < suggestion_count { ix - 1 } else { suggestion_count - 1 }
                        },
                        None => if down { 0 } else { suggestion_count - 1 },
                    };
                    self.search_suggestion_ix = Some(next);
                    true
                }
            },
        }
    }

    /// Puts a history entry into the input and closes the list.
    pub fn set_query_from_search_history(&mut self, query: String) -> (update: QueryUpdate)
        ensures
            update.text@ == query@,
            !update.select_all,
            final(self).same_but_search_input(*old(self)),
            final(self).search_autocomplete_mode == SearchAutocompleteMode::Closed,
            final(self).search_suggestion_ix is None,
            final(self).search_history_ix == old(self).search_history_ix,
            final(self).search_history_draft == old(self).search_history_draft,
    {
        self.close_search_autocomplete();
        QueryUpdate { text: query, select_all: false }
    }

    /// Browses the history with the wheel over the input: the first step remembers the typed
    /// query and shows the most recent entry; later steps move toward newer (wheel up) or older
    /// entries, stopping at either end.
    pub fn navigate_search_history_by_wheel(&mut self, wheel_up: bool, current_query: String) -> (update: Option<QueryUpdate>)
        requires
            old(self).search_history_ix is Some ==> old(self).search_history_ix->0 < old(self).search_history.len(),
        ensures
            ({
                let n = old(self).search_history.len();
                if n == 0 {
                    update is None && *final(self) == *old(self)
                } else {
                    let next: int = match old(self).search_history_ix {
                        None => 0,
                        Some(ix) => if wheel_up {
                            if ix >= 1 { ix - 1 } else { 0 }
                        } else {
                            if ix + 1 < n { ix + 1 } else { n - 1 }
                        },
                    };
                    &&& final(self).search_history_ix == Some(next as usize)
                    &&& update is Some
                    &&& update->0.text@ == old(self).search_history@[next]@
                    &&& final(self).search_history_draft == if old(self).search_history_ix is None {
                        Some(current_query)
                    } else {
                        old(self).search_history_draft
                    }
                    &&& final(self).search_autocomplete_mode == SearchAutocompleteMode::Closed
                    &&& final(self).search_suggestion_ix is None
                    &&& final(self).same_but_search_input(*old(self))
                }
            }),
    {
        let n = self.search_history.len();
        if n == 0 {
            return None;
        }
        if self.search_history_ix.is_none() {
            self.search_history_draft = Some(current_query);
        }
        let next = match self.search_history_ix {
            None => 0,
            Some(ix) => if wheel_up { ix.saturating_sub(1) } else { if ix < n - 1 { ix + 1 } else { n - 1 } },
        };
        self.search_history_ix = Some(next);
        let text = self.search_history[next].clone();
        Some(self.set_query_from_search_history(text))
    }

    /// The history without the removed queries, in order; `None` when nothing is removed.
    pub fn remove_search_history_entries(&self, removed: &Vec<String>) -> (history: Option<Vec<String>>)
        ensures
            removed.len() == 0 <==> history is None,
            history is Some ==> history->0@.map_values(|q: String| q@)
                == self.search_history@.map_values(|q: String| q@).filter(|q: Seq<char>| !removed@.map_values(|r: String| r@).contains(q)),
    {
        if removed.len() == 0 {
            return None;
        }
        let ghost removed_view = removed@.map_values(|r: String| r@);
        let ghost keep = |q: Seq<char>| !removed_view.contains(q);
        let ghost hist = self.search_history@.map_values(|q: String| q@);
        let mut kept: Vec<String> = Vec::new();
        let mut i: usize = 0;
        while i < self.search_history.len()
            invariant
                i <= self.search_history.len(),
                hist == self.search_history@.map_values(|q: String| q@),
                removed_view == removed@.map_values(|r: String| r@),
                keep == (|q: Seq<char>| !removed_view.contains(q)),
                kept@.map_values(|q: String| q@) == hist.take(i as int).filter(keep),
            decreases self.search_history.len() - i,
        {
            let query = &self.search_history[i];
            let mut found = false;
            let mut j: usize = 0;
            while j < removed.len()
                invariant
                    j <= removed.len(),
                    removed_view == removed@.map_values(|r: String| r@),
                    found == removed_view.take(j as int).contains(query@),
                decreases removed.len() - j,
            {
                let same = removed[j] == *query;
                proof {
                    let before = removed_view.take(j as int);
                    let after = removed_view.take(j + 1);
                    assert(after =~= before.push(removed_view[j as int]));
                    assert(removed_view[j as int] == removed@[j as int]@);
                    if same {
                        assert(after[j as int] == query@);
                    } else if !before.contains(query@) {
                        assert forall|k: int| 0 <= k < after.len() implies after[k] != query@ by {
                            if k < j { assert(after[k] == before[k]); }
                        }
                    } else {
                        let k = choose|k: int| 0 <= k < before.len() && before[k] == query@;
                        assert(after[k] == query@);
                    }
                }
                if same {
                    found = true;
                }
                j = j + 1;
            }
            assert(removed_view.take(j as int) =~= removed_view);
            assert(found == removed_view.contains(query@));
            proof {
                reveal_with_fuel(Seq::filter, 1);
                assert(hist.take(i + 1).drop_last() =~= hist.take(i as int));
                assert(hist.take(i + 1).last() == query@);
            }
            if !found {
                kept.push(query.clone());
                assert(kept@.map_values(|q: String| q@) =~= hist.take(i as int).filter(keep).push(query@));
            } else {
                assert(kept@.map_values(|q: String| q@) =~= hist.take(i as int).filter(keep));
            }
            i = i + 1;
        }
        assert(hist.take(i as int) =~= hist);
        Some(kept)
    }

    /// The history with a non-empty query put first; `None` for an empty query.
    pub fn record_search_history(&self, query: String) -> (history: Option<Vec<String>>)
        ensures
            query@.len() == 0 <==> history is None,
            history is Some ==> history->0@.len() == self.search_history.len() + 1
                && history->0@[0]@ == query@ && history->0@.subrange(1, history->0@.len() as int) == self.search_history@,
    {
        if query.as_str().is_empty() {
            return None;
        }
        let mut history: Vec<String> = Vec::new();
        history.push(query);
        let mut i: usize = 0;
        while i < self.search_history.len()
            invariant
                i <= self.search_history.len(),
                history@.len() == i + 1,
                history@[0]@ == query@,
                history@.subrange(1, i + 1) == self.search_history@.take(i as int),
            decreases self.search_history.len() - i,
        {
            history.push(self.search_history[i].clone());
            proof {
                assert(history@.subrange(1, i + 2) =~= self.search_history@.take(i + 1));
            }
            i = i + 1;
        }
        assert(self.search_history@.take(i as int) =~= self.search_history@);
        assert(history@.subrange(1, history@.len() as int) =~= self.search_history@);
        Some(history)
    }

    /// The editor that holds the query.
    pub fn search_input_focus_handle(&self) -> (input: SearchInput)
        ensures
            input == if self.search_input_multiline { SearchInput::Multiline } else { SearchInput::SingleLine },
    {
        if self.search_input_multiline { SearchInput::Multiline } else { SearchInput::SingleLine }
    }

    /// Handles a navigation key in the search input; returns whether it was used.
    /// In the multiline editor, Up and Down move the caret unless the history list is open.
    pub fn capture_search_input_navigation(&mut self, key: NavigationKey, suggestion_count: usize) -> (used: bool)
        ensures
            if old(self).search_input_multiline && old(self).search_autocomplete_mode != SearchAutocompleteMode::History
                && (key == NavigationKey::Up || key == NavigationKey::Down) {
                !used && *final(self) == *old(self)
            } else {
                final(self).navigated_by_key(*old(self), key, suggestion_count, used)
            },
    {
        if self.search_input_multiline && self.search_autocomplete_mode != SearchAutocompleteMode::History
            && (key == NavigationKey::Up || key == NavigationKey::Down) {
            return false;
        }
        self.navigate_search_autocomplete_by_key(key, suggestion_count)
    }

    /// Switches between the single-line and the multiline editor and closes the list; returns
    /// the editor that takes the focus.
    pub fn toggle_search_input_multiline(&mut self) -> (input: SearchInput)
        ensures
            final(self).search_input_multiline == !old(self).search_input_multiline,
            input == if final(self).search_input_multiline { SearchInput::Multiline } else { SearchInput::SingleLine },
            final(self).search_autocomplete_mode == SearchAutocompleteMode::Closed,
            final(self).search_suggestion_ix is None,
            final(self).search_history == old(self).search_history,
            final(self).search_history_ix == old(self).search_history_ix,
    {
        self.search_input_multiline = !self.search_input_multiline;
        self.close_search_autocomplete();
        self.search_input_focus_handle()
    }

    /// Handles Enter in the search input.
    ///
    /// Shift+Enter in the multiline editor is left to the editor, which inserts a line break.
    /// Otherwise Enter takes the highlighted suggestion of `suggestions`, the list the input
    /// shows, as `accept_search_suggestion` does (`applied` is the query with that suggestion
    /// applied), or, with no suggestion highlighted, asks for a search.
    pub fn capture_search_input_enter(&mut self, shift: bool, suggestions: &Vec<String>, applied: String) -> (enter: SearchEnter)
        ensures
            if old(self).search_input_multiline && shift {
                enter is LineBreak && *final(self) == *old(self)
            } else if old(self).search_suggestion_ix is Some && old(self).search_suggestion_ix->0 < suggestions.len() {
                enter matches SearchEnter::Accepted(update) && final(self).spec_suggestion_accepted(*old(self),
                    suggestions@[old(self).search_suggestion_ix->0 as int]@, applied@, update)
            } else {
                enter is Search && *final(self) == *old(self)
            },
    {
        if self.search_input_multiline && shift {
            return SearchEnter::LineBreak;
        }
        match self.accept_active_search_suggestion(suggestions) {
            Some(suggestion) => SearchEnter::Accepted(self.accept_search_suggestion(suggestion, applied)),
            None => SearchEnter::Search,
        }
    }
}

} // verus!
