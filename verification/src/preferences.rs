//! Preferences that shape the workspace: search defaults, the log font size, wheel scrolling,
//! pinned files and history.
use vstd::prelude::*;
use crate::regions::{spec_region_key, region_key, spec_sat_inc, WrappedRegion};
use crate::workspace::{spec_first_tab, tab_ix, DocumentTab, GlobalSearchState, Workspace};

verus! {

/// The text and options of a search query.
#[derive(Clone, Debug)]
pub struct QueryOptions {
    pub text: String,
    pub case_sensitive: bool,
    pub regex: bool,
}

/// The application settings the workspace decisions read.
#[derive(Clone, Copy, Debug, PartialEq, Eq, Structural)]
pub struct AppSettings {
    /// The log font size in points, from 8 to 32.
    pub log_font_size: u16,
    pub default_case_sensitive: bool,
    pub default_use_regex: bool,
    /// The wheel scrolls by lines rather than by pixels.
    pub scroll_by_line: bool,
    /// ... also where rows wrap.
    pub scroll_by_line_when_word_wrap: bool,
    /// Lines per wheel step.
    pub mouse_wheel_scroll_lines: u16,
    /// The wheel's pixel distance, in percent.
    pub mouse_wheel_scroll_percent: u16,
    /// The most matches a search collects per file; none for no limit.
    pub search_result_limit: Option<usize>,
    /// New views show line numbers.
    pub default_show_line_numbers: bool,
    /// New views separate rows with lines.
    pub default_show_row_separators: bool,
}

/// Preferences and history.
#[derive(Clone, Debug)]
pub struct Preferences {
    pub app_settings: AppSettings,
    /// The search options of the toolbar.
    pub case_sensitive: bool,
    pub regex: bool,
    /// The search defaults were changed in this session.
    pub search_defaults_modified: bool,
    /// The match keys of the pinned files' paths.
    pub pinned_files: Vec<String>,
    /// The match keys of the recently opened files' paths.
    pub recent_files: Vec<String>,
    pub history_loading: bool,
    pub history_clearing: bool,
    /// Identifies the running color-label resolution: a stale one is ignored.
    pub color_labels_resolution_revision: u64,
    /// A color-label resolution is running.
    pub color_labels_resolution_running: bool,
    /// Identifies the current set of color labels: it changes whenever a label does.
    pub color_labels_revision: u64,
    /// The color label applied last, which cycling starts from.
    pub last_color_label_id: Option<String>,
    /// A change of the pinned files is being saved.
    pub pinned_updating: bool,
}

impl QueryOptions {
    /// Sets the case and regex options, keeping the text.
    pub fn set_options(&mut self, case_sensitive: bool, regex: bool)
        ensures
            *final(self) == (QueryOptions { case_sensitive, regex, ..*old(self) }),
    {
        self.case_sensitive = case_sensitive;
        self.regex = regex;
    }
}

impl Preferences {
    /// Stores new search defaults; `current` also makes them the toolbar's options.
    pub fn apply_search_defaults(&mut self, case_sensitive: bool, regex: bool, current: bool)
        ensures
            *final(self) == (Preferences {
                app_settings: AppSettings { default_case_sensitive: case_sensitive, default_use_regex: regex, ..old(self).app_settings },
                case_sensitive: if current { case_sensitive } else { old(self).case_sensitive },
                regex: if current { regex } else { old(self).regex },
                search_defaults_modified: true,
                ..*old(self)
            }),
    {
        self.app_settings.default_case_sensitive = case_sensitive;
        self.app_settings.default_use_regex = regex;
        if current {
            self.case_sensitive = case_sensitive;
            self.regex = regex;
        }
        self.search_defaults_modified = true;
    }
}

impl AppSettings {
    /// The settings of a fresh installation: a 13-point log font, case-insensitive plain-text
    /// search, pixel scrolling of three lines per wheel step at full distance, and no
    /// limit on the matches of a search; views show line numbers and no row separators.
    pub fn defaults() -> (settings: Self)
        ensures
            settings == (AppSettings {
                log_font_size: 13,
                default_case_sensitive: false,
                default_use_regex: false,
                scroll_by_line: false,
                scroll_by_line_when_word_wrap: false,
                mouse_wheel_scroll_lines: 3,
                mouse_wheel_scroll_percent: 100,
                search_result_limit: None,
                default_show_line_numbers: true,
                default_show_row_separators: false,
            }),
    {
        AppSettings {
            log_font_size: 13,
            default_case_sensitive: false,
            default_use_regex: false,
            scroll_by_line: false,
            scroll_by_line_when_word_wrap: false,
            mouse_wheel_scroll_lines: 3,
            mouse_wheel_scroll_percent: 100,
            search_result_limit: None,
            default_show_line_numbers: true,
            default_show_row_separators: false,
        }
    }
}

/// The smallest and largest log font sizes the wheel reaches.
pub const MIN_LOG_FONT_SIZE: u16 = 8;
pub const MAX_LOG_FONT_SIZE: u16 = 32;

/// The vertical direction of a wheel step.
#[derive(Clone, Copy, Debug, PartialEq, Eq, Structural)]
pub enum WheelDelta {
    Zero,
    /// Towards the top: a larger font.
    Up,
    Down,
}

/// What a wheel step with the font modifier did.
#[derive(Clone, Copy, Debug, PartialEq, Eq, Structural)]
pub enum FontWheel {
    /// Not a font gesture: the event goes on.
    Ignored,
    /// The event is consumed without a change.
    Consumed,
    /// The font size changed: the caller keeps the visible rows in place, refreshes the tables
    /// of every window and saves the settings.
    Changed { from: u16, to: u16 },
}

/// How a wheel step scrolls a log region.
#[derive(Clone, Copy, Debug)]
pub struct WheelScrollPlan {
    /// The index of the region's tab.
    pub tab_ix: usize,
    /// The region's key for pending scroll frames.
    pub key: (u64, WrappedRegion),
    /// Scroll by `line_count` rows rather than by pixels.
    pub line_scroll: bool,
    /// Measure the wheel in fixed 20-pixel lines rather than the window's line height.
    pub fixed_line_delta: bool,
    pub line_count: usize,
    /// The log stopped following appended lines.
    pub auto_follow_changed: bool,
}

/// The font size one wheel step gives: one point larger up to the largest, or one smaller
/// down to the smallest.
pub open spec fn spec_next_font_size(current: u16, up: bool) -> u16 {
    if up {
        let next: int = if current < u16::MAX { current + 1 } else { current as int };
        if next < MAX_LOG_FONT_SIZE { next as u16 } else { MAX_LOG_FONT_SIZE }
    } else {
        let next: int = if current > 0 { current - 1 } else { 0 };
        if next > MIN_LOG_FONT_SIZE { next as u16 } else { MIN_LOG_FONT_SIZE }
    }
}

/// How a font wheel step takes the workspace from `pre` to `post`: without a ready store or
/// at the end of the range it is consumed; else the log font size changes by one point.
pub open spec fn spec_font_step<P>(pre: Workspace<P>, post: Workspace<P>, up: bool, outcome: FontWheel) -> bool {
    let current = pre.prefs.app_settings.log_font_size;
    let next = spec_next_font_size(current, up);
    if !pre.files.store_ready || next == current {
        outcome == FontWheel::Consumed && post == pre
    } else {
        &&& outcome == (FontWheel::Changed { from: current, to: next })
        &&& post == (Workspace {
            prefs: Preferences {
                app_settings: AppSettings { log_font_size: next, ..pre.prefs.app_settings },
                ..pre.prefs
            },
            ..pre
        })
    }
}

/// The font size one wheel step gives.
fn next_font_size(current: u16, up: bool) -> (next: u16)
    ensures
        next == spec_next_font_size(current, up),
{
    if up {
        let n = current.saturating_add(1);
        if n < MAX_LOG_FONT_SIZE { n } else { MAX_LOG_FONT_SIZE }
    } else {
        let n = current.saturating_sub(1);
        if n > MIN_LOG_FONT_SIZE { n } else { MIN_LOG_FONT_SIZE }
    }
}

/// How storing the search defaults `case_sensitive` and `regex` takes the workspace from
/// `pre` to `post`: an empty workspace (no open file and empty multi-file queries) also takes
/// them as its current options.
pub open spec fn spec_defaults_applied<P>(pre: Workspace<P>, post: Workspace<P>, case_sensitive: bool, regex: bool) -> bool {
    let empty = pre.documents.len() == 0 && pre.global_search.query.text@.len() == 0
        && pre.global_search.directory_query.text@.len() == 0;
    &&& post.prefs == (Preferences {
        app_settings: AppSettings { default_case_sensitive: case_sensitive, default_use_regex: regex, ..pre.prefs.app_settings },
        case_sensitive: if empty { case_sensitive } else { pre.prefs.case_sensitive },
        regex: if empty { regex } else { pre.prefs.regex },
        search_defaults_modified: true,
        ..pre.prefs
    })
    &&& post.global_search == if empty {
        GlobalSearchState {
            query: QueryOptions { case_sensitive, regex, ..pre.global_search.query },
            directory_query: QueryOptions { case_sensitive, regex, ..pre.global_search.directory_query },
            ..pre.global_search
        }
    } else {
        pre.global_search
    }
    &&& post == (Workspace { prefs: post.prefs, global_search: post.global_search, ..pre })
}

impl<P: Copy> Workspace<P> {
    /// Whether the active file is pinned: a pinned path matches its path.
    #[verifier::loop_isolation(false)]
    pub fn active_file_is_pinned(&self) -> (pinned: bool)
        ensures
            pinned == match self.spec_active_tab() {
                Some(tab) => exists|i: int| 0 <= i < self.prefs.pinned_files.len() && #[trigger] self.prefs.pinned_files@[i]@ == tab.path_key@,
                None => false,
            },
    {
        let tab = match self.active_ix {
            Some(ix) => if ix < self.documents.len() { &self.documents[ix] } else { return false },
            None => return false,
        };
        let mut i: usize = 0;
        while i < self.prefs.pinned_files.len()
            invariant
                i <= self.prefs.pinned_files.len(),
                forall|j: int| 0 <= j < i ==> #[trigger] self.prefs.pinned_files@[j]@ != tab.path_key@,
            decreases self.prefs.pinned_files.len() - i,
        {
            if self.prefs.pinned_files[i] == tab.path_key {
                assert(self.prefs.pinned_files@[i as int]@ == tab.path_key@);
                return true;
            }
            i = i + 1;
        }
        false
    }

    /// Cancels a running color-label resolution; whether one was running. Its result, if it
    /// still arrives, carries an old revision and is ignored.
    pub fn cancel_color_labels_resolution(&mut self) -> (cancelled: bool)
        ensures
            cancelled == old(self).prefs.color_labels_resolution_running,
            *final(self) == (Workspace {
                prefs: Preferences {
                    color_labels_resolution_revision: spec_sat_inc(old(self).prefs.color_labels_resolution_revision),
                    color_labels_resolution_running: false,
                    ..old(self).prefs
                },
                ..*old(self)
            }),
    {
        self.prefs.color_labels_resolution_revision = self.prefs.color_labels_resolution_revision.saturating_add(1);
        let cancelled = self.prefs.color_labels_resolution_running;
        self.prefs.color_labels_resolution_running = false;
        cancelled
    }

    /// Stores new search defaults. An empty workspace (no open file and empty multi-file
    /// queries) also takes them as its current options.
    #[verifier::rlimit(40)]
    pub fn apply_search_defaults(&mut self, case_sensitive: bool, regex: bool)
        ensures
            spec_defaults_applied(*old(self), *final(self), case_sensitive, regex),
    {
        let empty = self.documents.len() == 0 && self.global_search.query.text.as_str().is_empty()
            && self.global_search.directory_query.text.as_str().is_empty();
        self.prefs.apply_search_defaults(case_sensitive, regex, empty);
        if empty {
            self.global_search.query.set_options(case_sensitive, regex);
            self.global_search.directory_query.set_options(case_sensitive, regex);
        }
    }

    /// A wheel step over a log region with the font modifier changes the log font size by one
    /// point within 8 to 32. Without the modifier the step is not a font gesture; a step
    /// without vertical motion is ignored; without a ready store the step is consumed unsaved.
    pub fn adjust_log_font_size_from_wheel(&mut self, secondary: bool, delta: WheelDelta) -> (outcome: FontWheel)
        ensures
            !secondary || delta == WheelDelta::Zero ==> outcome == FontWheel::Ignored && *final(self) == *old(self),
            secondary && delta != WheelDelta::Zero ==> spec_font_step(*old(self), *final(self), delta == WheelDelta::Up, outcome),
    {
        if !secondary {
            return FontWheel::Ignored;
        }
        let up = match delta {
            WheelDelta::Zero => return FontWheel::Ignored,
            WheelDelta::Up => true,
            WheelDelta::Down => false,
        };
        if !self.files.store_ready {
            return FontWheel::Consumed;
        }
        let current = self.prefs.app_settings.log_font_size;
        let next = next_font_size(current, up);
        assert(up == (delta == WheelDelta::Up));
        if next == current {
            return FontWheel::Consumed;
        }
        self.set_log_font_size(next);
        FontWheel::Changed { from: current, to: next }
    }

    /// Stores a new log font size.
    fn set_log_font_size(&mut self, size: u16)
        ensures
            *final(self) == (Workspace {
                prefs: Preferences {
                    app_settings: AppSettings { log_font_size: size, ..old(self).prefs.app_settings },
                    ..old(self).prefs
                },
                ..*old(self)
            }),
    {
        self.prefs.app_settings.log_font_size = size;
    }

    /// A plain wheel step over a log region scrolls it. Modified steps and mostly horizontal
    /// ones (`vertical` is false) are left to others, as are steps over a closed tab. Rows scroll
    /// by lines where the settings ask for it (also while wrapped where they say so); wrapped
    /// rows measure the wheel in fixed lines where they scroll by lines or with a custom pixel
    /// distance; a step of no distance in that measure does nothing. A step over the log stops
    /// following appended lines.
    pub fn handle_log_region_scroll_wheel(
        &mut self,
        document_id: u64,
        region: WrappedRegion,
        control: bool,
        platform: bool,
        shift: bool,
        vertical: bool,
        word_wrap: bool,
        fixed_delta_is_zero: bool,
    ) -> (plan: Option<WheelScrollPlan>)
        ensures
            ({
                let s = old(self).prefs.app_settings;
                let line_scroll = s.scroll_by_line && (!word_wrap || s.scroll_by_line_when_word_wrap);
                let fixed = word_wrap && (line_scroll || s.mouse_wheel_scroll_percent != 100);
                let ix = spec_first_tab(old(self).documents@, document_id);
                if control || platform || shift || !vertical || ix is None || (fixed && fixed_delta_is_zero) {
                    plan is None && *final(self) == *old(self)
                } else {
                    let i = ix->0;
                    let follow_changed = region == WrappedRegion::Log && old(self).documents@[i].auto_follow;
                    &&& plan == Some(WheelScrollPlan {
                        tab_ix: i as usize,
                        key: spec_region_key(document_id, region),
                        line_scroll,
                        fixed_line_delta: fixed,
                        line_count: if s.mouse_wheel_scroll_lines >= 1 { s.mouse_wheel_scroll_lines as usize } else { 1 },
                        auto_follow_changed: follow_changed,
                    })
                    &&& final(self).documents@ == if region == WrappedRegion::Log {
                        old(self).documents@.update(i, DocumentTab { auto_follow: false, ..old(self).documents@[i] })
                    } else {
                        old(self).documents@
                    }
                    &&& *final(self) == (Workspace { documents: final(self).documents, ..*old(self) })
                }
            }),
    {
        if control || platform || shift || !vertical {
            return None;
        }
        let ix = match tab_ix(&self.documents, document_id) {
            Some(ix) => ix,
            None => return None,
        };
        let s = self.prefs.app_settings;
        let line_scroll = s.scroll_by_line && (!word_wrap || s.scroll_by_line_when_word_wrap);
        let fixed = word_wrap && (line_scroll || s.mouse_wheel_scroll_percent != 100);
        if fixed && fixed_delta_is_zero {
            return None;
        }
        let follow_changed = region == WrappedRegion::Log && self.documents[ix].auto_follow;
        if region == WrappedRegion::Log {
            self.documents[ix].auto_follow = false;
        }
        Some(WheelScrollPlan {
            tab_ix: ix,
            key: region_key(document_id, region),
            line_scroll,
            fixed_line_delta: fixed,
            line_count: if s.mouse_wheel_scroll_lines >= 1 { s.mouse_wheel_scroll_lines as usize } else { 1 },
            auto_follow_changed: follow_changed,
        })
    }

    /// Whether "Clear history" may ask for confirmation: not while the history loads or is
    /// being cleared, and not without recent files.
    pub fn confirm_clear_history(&self) -> (ask: bool)
        ensures
            ask == (!self.prefs.history_loading && !self.prefs.history_clearing && self.prefs.recent_files.len() > 0),
    {
        !self.prefs.history_loading && !self.prefs.history_clearing && self.prefs.recent_files.len() > 0
    }
}

} // verus!
