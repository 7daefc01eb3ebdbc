//! The view state machine: owns the fetched records, the search and status
//! filter, the derived filtered index set, the selection, the log buffer and
//! its scroll offset, and the display-mode flags. All transitions are pure
//! and synchronous; the data sources hand their results in as plain values.

use vstd::prelude::*;
use vstd::string::StringExecFns;

use crate::record::{spec_status_category, StatusCategory, SystemdService};
use crate::strutil::{
    contains_sub, lower_of, opt_string_eq, opt_view, str_contains, string_pop_char,
    string_push_char, to_lowercase,
};

verus! {

/// The whole view state. Owned by the run loop alone; every mutation goes
/// through the transition operations below, which keep `wf` intact.
pub struct App {
    /// Last successfully fetched record list, in fetch order.
    pub services: Vec<SystemdService>,
    /// Index into `filtered_indices`; `None` exactly when that set is empty.
    pub selection: Option<usize>,
    /// Once true, the run loop exits after the current iteration.
    pub should_quit: bool,
    /// Set by a failed fetch, cleared by the next successful one.
    pub error: Option<String>,
    /// Raw text typed while in search-edit mode.
    pub search_query: String,
    /// True while the search query is being edited.
    pub search_mode: bool,
    /// The positions in `services` that pass the search and status filter,
    /// strictly increasing.
    pub filtered_indices: Vec<usize>,
    /// Log lines of the unit the selection resolves to.
    pub logs: Vec<String>,
    /// Scroll offset into `logs`; clamped at scroll time, not continuously.
    pub logs_scroll: usize,
    /// The unit name the current `logs` belong to.
    pub last_selected_service: Option<String>,
    /// Active status-category filter, or none.
    pub status_filter: Option<StatusCategory>,
    /// Whether the log panel is shown.
    pub show_logs: bool,
    /// Whether the help overlay is shown; it takes input priority.
    pub show_help: bool,
}

/// The record passes the text search: the query is empty, or the folded
/// query occurs in the folded unit name or description.
pub open spec fn matches_search(r: SystemdService, query: Seq<char>) -> bool {
    ||| query.len() == 0
    ||| contains_sub(lower_of(r.unit@), lower_of(query))
    ||| contains_sub(lower_of(r.description@), lower_of(query))
}

/// The record passes the status filter: no filter is active, or the
/// record's status category equals the filtered one.
pub open spec fn matches_status(r: SystemdService, filter: Option<StatusCategory>) -> bool {
    match filter {
        None => true,
        Some(c) => spec_status_category(r.sub@) == c,
    }
}

/// Both filter predicates at once.
pub open spec fn record_passes(
    r: SystemdService,
    query: Seq<char>,
    filter: Option<StatusCategory>,
) -> bool {
    matches_search(r, query) && matches_status(r, filter)
}

/// The positions of the records passing both predicates, in ascending order.
pub open spec fn spec_filtered(
    records: Seq<SystemdService>,
    query: Seq<char>,
    filter: Option<StatusCategory>,
) -> Seq<usize>
    decreases records.len(),
{
    if records.len() == 0 {
        Seq::empty()
    } else if record_passes(records.last(), query, filter) {
        spec_filtered(records.drop_last(), query, filter).push((records.len() - 1) as usize)
    } else {
        spec_filtered(records.drop_last(), query, filter)
    }
}

/// Filter soundness: `spec_filtered` holds exactly the positions whose
/// record passes both predicates, each in range, in strictly ascending
/// order, and no passing position is missing.
pub proof fn lemma_filter_soundness(
    records: Seq<SystemdService>,
    query: Seq<char>,
    filter: Option<StatusCategory>,
    fi: Seq<usize>,
)
    requires
        records.len() <= usize::MAX,
        fi == spec_filtered(records, query, filter),
    ensures
        forall|k: int|
            0 <= k < fi.len() ==> (#[trigger] fi[k]) < records.len() && record_passes(
                records[fi[k] as int],
                query,
                filter,
            ),
        forall|k1: int, k2: int| 0 <= k1 < k2 < fi.len() ==> fi[k1] < fi[k2],
        forall|i: int|
            0 <= i < records.len() && record_passes(#[trigger] records[i], query, filter)
                ==> fi.contains(i as usize),
    decreases records.len(),
{
    if records.len() == 0 {
    } else {
        let prev = records.drop_last();
        let fi_prev = spec_filtered(prev, query, filter);
        lemma_filter_soundness(prev, query, filter, fi_prev);
        assert(forall|j: int| 0 <= j < prev.len() ==> prev[j] == #[trigger] records[j]);
        let last_passes = record_passes(records.last(), query, filter);
        assert(records.last() == records[records.len() - 1]);
        assert forall|k: int| 0 <= k < fi.len() implies (#[trigger] fi[k]) < records.len()
            && record_passes(records[fi[k] as int], query, filter) by {
            if k < fi_prev.len() {
                assert(fi[k] == fi_prev[k]);
                assert(fi_prev[k] < prev.len());
                assert(record_passes(prev[fi_prev[k] as int], query, filter));
            } else {
                assert(last_passes);
                assert(fi[k] == (records.len() - 1) as usize);
            }
        }
        assert forall|k1: int, k2: int| 0 <= k1 < k2 < fi.len() implies fi[k1] < fi[k2] by {
            if k2 >= fi_prev.len() {
                assert(last_passes);
                assert(fi[k1] == fi_prev[k1]);
                assert(fi_prev[k1] < prev.len());
                assert(fi[k2] == (records.len() - 1) as usize);
            }
        }
        assert forall|i: int|
            0 <= i < records.len() && record_passes(#[trigger] records[i], query, filter)
            implies fi.contains(i as usize) by {
            if i < records.len() - 1 {
                assert(records[i] == prev[i]);
                assert(fi_prev.contains(i as usize));
                let j = choose|j: int| 0 <= j < fi_prev.len() && fi_prev[j] == i as usize;
                assert(fi[j] == i as usize);
            } else {
                assert(last_passes);
                assert(fi[fi.len() - 1] == i as usize);
            }
        }
    }
}

/// Where a forward step lands: one past the current selection, wrapping
/// from the last filtered index to the first; an empty set is left alone.
pub open spec fn wrap_next(sel: Option<usize>, n: nat) -> Option<usize> {
    if n == 0 {
        sel
    } else {
        match sel {
            Some(i) => if i as nat >= n - 1 {
                Some(0usize)
            } else {
                Some((i + 1) as usize)
            },
            None => Some(0usize),
        }
    }
}

/// Where a backward step lands: one before the current selection, wrapping
/// from the first filtered index to the last; an empty set is left alone.
pub open spec fn wrap_prev(sel: Option<usize>, n: nat) -> Option<usize> {
    if n == 0 {
        sel
    } else {
        match sel {
            Some(i) => if i == 0 {
                Some((n - 1) as usize)
            } else {
                Some((i - 1) as usize)
            },
            None => Some(0usize),
        }
    }
}

/// Wrap-around law: stepping forward from the last filtered index selects
/// the first, and stepping backward from the first selects the last.
pub proof fn lemma_wrap_around(n: nat)
    requires
        0 < n <= usize::MAX,
    ensures
        wrap_next(Some((n - 1) as usize), n) == Some(0usize),
        wrap_prev(Some(0usize), n) == Some((n - 1) as usize),
{
}

/// Where a page-sized backward jump lands: `amount` rows up, saturating
/// at the first filtered index; an empty set is left alone.
pub open spec fn page_up_sel(sel: Option<usize>, n: nat, amount: usize) -> Option<usize> {
    if n == 0 {
        sel
    } else {
        match sel {
            Some(i) => if i >= amount {
                Some((i - amount) as usize)
            } else {
                Some(0usize)
            },
            None => Some(0usize),
        }
    }
}

/// Where a page-sized forward jump lands: `amount` rows down, saturating
/// at the last filtered index; an empty set is left alone.
pub open spec fn page_down_sel(sel: Option<usize>, n: nat, amount: usize) -> Option<usize> {
    if n == 0 {
        sel
    } else {
        match sel {
            Some(i) => if i + amount < n {
                Some((i + amount) as usize)
            } else {
                Some((n - 1) as usize)
            },
            None => Some(0usize),
        }
    }
}

/// The fixed cycle of the status filter:
/// none, running, exited, failed, dead, and back to none.
pub open spec fn next_status_filter(f: Option<StatusCategory>) -> Option<StatusCategory> {
    match f {
        None => Some(StatusCategory::Running),
        Some(StatusCategory::Running) => Some(StatusCategory::Exited),
        Some(StatusCategory::Exited) => Some(StatusCategory::Failed),
        Some(StatusCategory::Failed) => Some(StatusCategory::Dead),
        Some(StatusCategory::Dead) => None,
        Some(StatusCategory::Unknown) => None,
    }
}

/// The greatest scroll offset that still shows a full window, floored at 0.
pub open spec fn max_scroll(len: int, visible: int) -> int {
    if len >= visible {
        len - visible
    } else {
        0
    }
}

/// The record the current selection resolves to, if any.
pub open spec fn spec_selected_record(s: App) -> Option<SystemdService> {
    match s.selection {
        None => None,
        Some(i) => if i < s.filtered_indices@.len() && s.filtered_indices@[i as int]
            < s.services@.len() {
            Some(s.services@[s.filtered_indices@[i as int] as int])
        } else {
            None
        },
    }
}

/// The unit name the current selection resolves to, if any.
pub open spec fn spec_resolved_unit(s: App) -> Option<Seq<char>> {
    match spec_selected_record(s) {
        None => None,
        Some(r) => Some(r.unit@),
    }
}

/// The log buffer belongs to another unit than the one the selection now
/// resolves to, so a fetch is due.
pub open spec fn needs_log_fetch(s: App) -> bool {
    spec_resolved_unit(s) != opt_view(s.last_selected_service)
}

/// How an existing selection is carried across a recomputation of the
/// filtered set of size `n`: a still-valid index is kept, an out-of-range
/// one falls back to the first entry, and an empty set clears it.
pub open spec fn reclamp(sel: Option<usize>, n: nat) -> Option<usize> {
    match sel {
        None => if n == 0 {
            None
        } else {
            Some(0usize)
        },
        Some(i) => if n == 0 {
            None
        } else if i as nat >= n {
            Some(0usize)
        } else {
            Some(i)
        },
    }
}

/// Selection validity: `None` exactly when the filtered set is empty,
/// otherwise a valid index into it.
pub open spec fn selection_ok(sel: Option<usize>, n: nat) -> bool {
    match sel {
        None => n == 0,
        Some(i) => (i as nat) < n,
    }
}

/// The parts of the state a selection move leaves alone.
pub open spec fn same_but_selection(a: App, b: App) -> bool {
    &&& b.services == a.services
    &&& b.should_quit == a.should_quit
    &&& b.error == a.error
    &&& b.search_query == a.search_query
    &&& b.search_mode == a.search_mode
    &&& b.filtered_indices == a.filtered_indices
    &&& b.logs == a.logs
    &&& b.logs_scroll == a.logs_scroll
    &&& b.last_selected_service == a.last_selected_service
    &&& b.status_filter == a.status_filter
    &&& b.show_logs == a.show_logs
    &&& b.show_help == a.show_help
}

/// The parts of the state a filter recomputation leaves alone.
pub open spec fn same_but_filter(a: App, b: App) -> bool {
    &&& b.services == a.services
    &&& b.should_quit == a.should_quit
    &&& b.error == a.error
    &&& b.search_mode == a.search_mode
    &&& b.logs == a.logs
    &&& b.logs_scroll == a.logs_scroll
    &&& b.last_selected_service == a.last_selected_service
    &&& b.show_logs == a.show_logs
    &&& b.show_help == a.show_help
}

/// The filtered set and the selection of `post` are the ones recomputation
/// derives from `post`'s own records, query and filter, carrying over
/// `pre`'s selection.
pub open spec fn refiltered(pre: App, post: App) -> bool {
    &&& post.filtered_indices@ == spec_filtered(
        post.services@,
        post.search_query@,
        post.status_filter,
    )
    &&& post.selection == reclamp(pre.selection, post.filtered_indices@.len())
}

impl App {
    /// The state invariant every operation preserves: the selection is
    /// valid for the filtered set, and every filtered index points into
    /// the record list.
    pub open spec fn wf(self) -> bool {
        &&& selection_ok(self.selection, self.filtered_indices@.len())
        &&& forall|k: int|
            0 <= k < self.filtered_indices@.len() ==> (#[trigger] self.filtered_indices@[k])
                < self.services@.len()
    }

    /// A fresh, empty view state: nothing fetched, nothing selected, every
    /// flag off. The caller fetches the unit list and hands the result to
    /// `load_services`.
    pub fn new() -> (r: App)
        ensures
            r.wf(),
            r.services@.len() == 0,
            r.selection is None,
            r.should_quit == false,
            r.error is None,
            r.search_query@.len() == 0,
            r.search_mode == false,
            r.filtered_indices@.len() == 0,
            r.logs@.len() == 0,
            r.logs_scroll == 0,
            r.last_selected_service is None,
            r.status_filter is None,
            r.show_logs == false,
            r.show_help == false,
    {
        App {
            services: Vec::new(),
            selection: None,
            should_quit: false,
            error: None,
            search_query: String::new(),
            search_mode: false,
            filtered_indices: Vec::new(),
            logs: Vec::new(),
            logs_scroll: 0,
            last_selected_service: None,
            status_filter: None,
            show_logs: false,
            show_help: false,
        }
    }

    /// Recomputes `filtered_indices` from the current records, query and
    /// status filter, then re-clamps the selection: a still-valid index is
    /// kept, an invalid one falls back to the first entry, and an empty
    /// filtered set clears it.
    pub fn update_filter(&mut self)
        ensures
            final(self).filtered_indices@ == spec_filtered(
                old(self).services@,
                old(self).search_query@,
                old(self).status_filter,
            ),
            final(self).selection == reclamp(
                old(self).selection,
                final(self).filtered_indices@.len(),
            ),
            final(self).wf(),
            refiltered(*old(self), *final(self)),
            same_but_filter(*old(self), *final(self)),
            final(self).search_query == old(self).search_query,
            final(self).status_filter == old(self).status_filter,
    {
        let query_lower = to_lowercase(self.search_query.as_str());
        let mut fi: Vec<usize> = Vec::new();
        let n = self.services.len();
        let mut i: usize = 0;
        while i < n
            invariant
                i <= n,
                n == self.services@.len(),
                fi@ == spec_filtered(
                    self.services@.take(i as int),
                    self.search_query@,
                    self.status_filter,
                ),
                query_lower@ == lower_of(self.search_query@),
            decreases n - i,
        {
            let svc = &self.services[i];
            let passes_search = self.search_query.as_str().is_empty() || str_contains(
                to_lowercase(svc.unit.as_str()).as_str(),
                query_lower.as_str(),
            ) || str_contains(to_lowercase(svc.description.as_str()).as_str(), query_lower.as_str());
            let passes_status = match self.status_filter {
                None => true,
                Some(c) => svc.status_category() == c,
            };
            proof {
                let s = self.services@;
                assert(s.take(i + 1).drop_last() =~= s.take(i as int));
                assert(s.take(i + 1).last() == s[i as int]);
                assert((passes_search && passes_status) == record_passes(
                    s[i as int],
                    self.search_query@,
                    self.status_filter,
                ));
            }
            if passes_search && passes_status {
                fi.push(i);
            }
            i += 1;
        }
        proof {
            assert(self.services@.take(n as int) =~= self.services@);
            lemma_filter_soundness(self.services@, self.search_query@, self.status_filter, fi@);
        }
        self.filtered_indices = fi;
        match self.selection {
            Some(sel) => {
                if sel >= self.filtered_indices.len() {
                    if self.filtered_indices.len() == 0 {
                        self.selection = None;
                    } else {
                        self.selection = Some(0);
                    }
                }
            },
            None => {
                if self.filtered_indices.len() > 0 {
                    self.selection = Some(0);
                }
            },
        }
    }

    /// Applies the unit data source's result. On success the records are
    /// replaced, the error banner cleared and the filter recomputed; on
    /// failure only the error is set, so the last good list stays visible.
    pub fn load_services(&mut self, fetched: Result<Vec<SystemdService>, String>)
        requires
            old(self).wf(),
        ensures
            final(self).wf(),
            (fetched matches Ok(v) ==> {
                &&& final(self).services == v
                &&& final(self).error is None
                &&& refiltered(*old(self), *final(self))
                &&& final(self).search_query == old(self).search_query
                &&& final(self).status_filter == old(self).status_filter
                &&& final(self).should_quit == old(self).should_quit
                &&& final(self).search_mode == old(self).search_mode
                &&& final(self).logs == old(self).logs
                &&& final(self).logs_scroll == old(self).logs_scroll
                &&& final(self).last_selected_service == old(self).last_selected_service
                &&& final(self).show_logs == old(self).show_logs
                &&& final(self).show_help == old(self).show_help
            }),
            (fetched matches Err(e) ==> *final(self) == (App {
                error: Some(e),
                ..*old(self)
            })),
    {
        match fetched {
            Ok(services) => {
                self.services = services;
                self.error = None;
                self.update_filter();
            },
            Err(e) => {
                self.error = Some(e);
            },
        }
    }

    /// Steps the selection forward by one filtered row, wrapping from the
    /// last to the first; does nothing when the filtered set is empty.
    pub fn next(&mut self)
        requires
            old(self).wf(),
        ensures
            final(self).wf(),
            final(self).selection == wrap_next(
                old(self).selection,
                old(self).filtered_indices@.len(),
            ),
            same_but_selection(*old(self), *final(self)),
    {
        if self.filtered_indices.len() == 0 {
            return ;
        }
        let i: usize = match self.selection {
            Some(i) => if i >= self.filtered_indices.len() - 1 {
                0
            } else {
                i + 1
            },
            None => 0,
        };
        self.selection = Some(i);
    }

    /// Steps the selection backward by one filtered row, wrapping from the
    /// first to the last; does nothing when the filtered set is empty.
    pub fn previous(&mut self)
        requires
            old(self).wf(),
        ensures
            final(self).wf(),
            final(self).selection == wrap_prev(
                old(self).selection,
                old(self).filtered_indices@.len(),
            ),
            same_but_selection(*old(self), *final(self)),
    {
        if self.filtered_indices.len() == 0 {
            return ;
        }
        let i: usize = match self.selection {
            Some(i) => if i == 0 {
                self.filtered_indices.len() - 1
            } else {
                i - 1
            },
            None => 0,
        };
        self.selection = Some(i);
    }

    /// Selects the first filtered row; does nothing when the set is empty.
    pub fn go_to_top(&mut self)
        requires
            old(self).wf(),
        ensures
            final(self).wf(),
            final(self).selection == (if old(self).filtered_indices@.len() > 0 {
                Some(0usize)
            } else {
                old(self).selection
            }),
            same_but_selection(*old(self), *final(self)),
    {
        if self.filtered_indices.len() > 0 {
            self.selection = Some(0);
        }
    }

    /// Selects the last filtered row; does nothing when the set is empty.
    pub fn go_to_bottom(&mut self)
        requires
            old(self).wf(),
        ensures
            final(self).wf(),
            final(self).selection == (if old(self).filtered_indices@.len() > 0 {
                Some((old(self).filtered_indices@.len() - 1) as usize)
            } else {
                old(self).selection
            }),
            same_but_selection(*old(self), *final(self)),
    {
        if self.filtered_indices.len() > 0 {
            self.selection = Some(self.filtered_indices.len() - 1);
        }
    }

    /// Jumps the selection a page up, saturating at the first filtered
    /// row; does nothing when the set is empty.
    pub fn page_up(&mut self, amount: usize)
        requires
            old(self).wf(),
        ensures
            final(self).wf(),
            final(self).selection == page_up_sel(
                old(self).selection,
                old(self).filtered_indices@.len(),
                amount,
            ),
            same_but_selection(*old(self), *final(self)),
    {
        if self.filtered_indices.len() == 0 {
            return ;
        }
        let i: usize = match self.selection {
            Some(i) => if i >= amount {
                i - amount
            } else {
                0
            },
            None => 0,
        };
        self.selection = Some(i);
    }

    /// Jumps the selection a page down, saturating at the last filtered
    /// row; does nothing when the set is empty.
    pub fn page_down(&mut self, amount: usize)
        requires
            old(self).wf(),
        ensures
            final(self).wf(),
            final(self).selection == page_down_sel(
                old(self).selection,
                old(self).filtered_indices@.len(),
                amount,
            ),
            same_but_selection(*old(self), *final(self)),
    {
        if self.filtered_indices.len() == 0 {
            return ;
        }
        let last = self.filtered_indices.len() - 1;
        let i: usize = match self.selection {
            Some(i) => if amount > last - i {
                last
            } else {
                i + amount
            },
            None => 0,
        };
        self.selection = Some(i);
    }

    /// Selects the given filtered row, as a pointer click does; silently
    /// does nothing when the row is past the end of the filtered set.
    pub fn select_at(&mut self, row: usize)
        requires
            old(self).wf(),
        ensures
            final(self).wf(),
            final(self).selection == (if (row as nat) < old(self).filtered_indices@.len() {
                Some(row)
            } else {
                old(self).selection
            }),
            same_but_selection(*old(self), *final(self)),
    {
        if row < self.filtered_indices.len() {
            self.selection = Some(row);
        }
    }

    /// Appends one typed character to the search query and refilters.
    pub fn push_char(&mut self, c: char)
        ensures
            final(self).wf(),
            final(self).search_query@ == old(self).search_query@.push(c),
            final(self).status_filter == old(self).status_filter,
            refiltered(*old(self), *final(self)),
            same_but_filter(*old(self), *final(self)),
    {
        string_push_char(&mut self.search_query, c);
        self.update_filter();
    }

    /// Removes the last character of the search query, if there is one,
    /// and refilters.
    pub fn pop_char(&mut self)
        ensures
            final(self).wf(),
            final(self).search_query@ == (if old(self).search_query@.len() == 0 {
                old(self).search_query@
            } else {
                old(self).search_query@.drop_last()
            }),
            final(self).status_filter == old(self).status_filter,
            refiltered(*old(self), *final(self)),
            same_but_filter(*old(self), *final(self)),
    {
        let _ = string_pop_char(&mut self.search_query);
        self.update_filter();
    }

    /// Replaces the whole search query and refilters.
    pub fn set_search_query(&mut self, text: String)
        ensures
            final(self).wf(),
            final(self).search_query == text,
            final(self).status_filter == old(self).status_filter,
            refiltered(*old(self), *final(self)),
            same_but_filter(*old(self), *final(self)),
    {
        self.search_query = text;
        self.update_filter();
    }

    /// Empties the search query and refilters.
    pub fn clear_search(&mut self)
        ensures
            final(self).wf(),
            final(self).search_query@.len() == 0,
            final(self).status_filter == old(self).status_filter,
            refiltered(*old(self), *final(self)),
            same_but_filter(*old(self), *final(self)),
    {
        self.search_query = String::new();
        self.update_filter();
    }

    /// Advances the status filter one step along its fixed cycle and
    /// refilters.
    pub fn cycle_status_filter(&mut self)
        ensures
            final(self).wf(),
            final(self).status_filter == next_status_filter(old(self).status_filter),
            final(self).search_query == old(self).search_query,
            refiltered(*old(self), *final(self)),
            same_but_filter(*old(self), *final(self)),
    {
        self.status_filter = match self.status_filter {
            None => Some(StatusCategory::Running),
            Some(StatusCategory::Running) => Some(StatusCategory::Exited),
            Some(StatusCategory::Exited) => Some(StatusCategory::Failed),
            Some(StatusCategory::Failed) => Some(StatusCategory::Dead),
            Some(StatusCategory::Dead) => None,
            Some(StatusCategory::Unknown) => None,
        };
        self.update_filter();
    }

    /// Drops the status filter and refilters.
    pub fn clear_status_filter(&mut self)
        ensures
            final(self).wf(),
            final(self).status_filter is None,
            final(self).search_query == old(self).search_query,
            refiltered(*old(self), *final(self)),
            same_but_filter(*old(self), *final(self)),
    {
        self.status_filter = None;
        self.update_filter();
    }

    /// Flips the log panel on or off; nothing else changes.
    pub fn toggle_logs(&mut self)
        ensures
            *final(self) == (App { show_logs: !old(self).show_logs, ..*old(self) }),
    {
        self.show_logs = !self.show_logs;
    }

    /// Flips the help overlay on or off; nothing else changes.
    pub fn toggle_help(&mut self)
        ensures
            *final(self) == (App { show_help: !old(self).show_help, ..*old(self) }),
    {
        self.show_help = !self.show_help;
    }

    /// Scrolls the log buffer up, saturating at the first line.
    pub fn scroll_logs_up(&mut self, amount: usize)
        ensures
            final(self).logs_scroll == (if amount > old(self).logs_scroll {
                0usize
            } else {
                (old(self).logs_scroll - amount) as usize
            }),
            final(self).logs_scroll <= old(self).logs_scroll,
            *final(self) == (App { logs_scroll: final(self).logs_scroll, ..*old(self) }),
    {
        if amount > self.logs_scroll {
            self.logs_scroll = 0;
        } else {
            self.logs_scroll = self.logs_scroll - amount;
        }
    }

    /// Scrolls the log buffer down, saturating at the greatest offset that
    /// still fills a window of `visible_lines`; an empty buffer is left
    /// alone. The offset never passes `max_scroll`, whatever it was before.
    pub fn scroll_logs_down(&mut self, amount: usize, visible_lines: usize)
        ensures
            old(self).logs@.len() == 0 ==> *final(self) == *old(self),
            old(self).logs@.len() > 0 ==> {
                let target = max_scroll(old(self).logs@.len() as int, visible_lines as int);
                &&& final(self).logs_scroll == (if old(self).logs_scroll + amount <= target {
                    old(self).logs_scroll + amount
                } else {
                    target
                })
                &&& final(self).logs_scroll <= target
            },
            *final(self) == (App { logs_scroll: final(self).logs_scroll, ..*old(self) }),
    {
        if self.logs.len() > 0 {
            let max: usize = if visible_lines > self.logs.len() {
                0
            } else {
                self.logs.len() - visible_lines
            };
            if self.logs_scroll >= max {
                self.logs_scroll = max;
            } else if amount >= max - self.logs_scroll {
                self.logs_scroll = max;
            } else {
                self.logs_scroll = self.logs_scroll + amount;
            }
        }
    }

    /// Computes the unit the selection now resolves to. When it is the one
    /// the log buffer already belongs to, nothing changes and no fetch is
    /// asked for — calling this twice without a selection change asks for
    /// at most one fetch. Otherwise the scroll offset is reset and the
    /// name of the unit to fetch logs for is returned; the caller fetches
    /// and hands the result to `apply_log_fetch`. With no resolved unit
    /// the log buffer is simply emptied.
    pub fn load_logs_for_selected(&mut self) -> (req: Option<String>)
        requires
            old(self).wf(),
        ensures
            final(self).wf(),
            !needs_log_fetch(*old(self)) ==> *final(self) == *old(self) && req is None,
            needs_log_fetch(*old(self)) ==> {
                &&& opt_view(final(self).last_selected_service) == spec_resolved_unit(*old(self))
                &&& final(self).logs_scroll == 0
                &&& (spec_resolved_unit(*old(self)) is None ==> final(self).logs@.len() == 0
                    && req is None)
                &&& (spec_resolved_unit(*old(self)) matches Some(u) ==> req matches Some(q)
                    && q@ == u && final(self).logs == old(self).logs)
                &&& final(self).services == old(self).services
                &&& final(self).selection == old(self).selection
                &&& final(self).filtered_indices == old(self).filtered_indices
                &&& final(self).search_query == old(self).search_query
                &&& final(self).status_filter == old(self).status_filter
                &&& final(self).error == old(self).error
                &&& final(self).should_quit == old(self).should_quit
                &&& final(self).search_mode == old(self).search_mode
                &&& final(self).show_logs == old(self).show_logs
                &&& final(self).show_help == old(self).show_help
            },
            !needs_log_fetch(*final(self)),
            req is Some <==> (needs_log_fetch(*old(self)) && spec_resolved_unit(*old(self))
                is Some),
    {
        let current: Option<String> = match self.selected_service() {
            Some(s) => Some(s.unit.clone()),
            None => None,
        };
        if !opt_string_eq(&current, &self.last_selected_service) {
            self.logs_scroll = 0;
            match current {
                Some(unit) => {
                    self.last_selected_service = Some(unit.clone());
                    Some(unit)
                },
                None => {
                    self.last_selected_service = None;
                    self.logs = Vec::new();
                    None
                },
            }
        } else {
            None
        }
    }

    /// Applies the log data source's result for the unit last asked for.
    /// On success the buffer is replaced and scrolled to its final line;
    /// on failure the buffer becomes a single line carrying the error text.
    pub fn apply_log_fetch(&mut self, fetched: Result<Vec<String>, String>)
        requires
            old(self).wf(),
        ensures
            final(self).wf(),
            needs_log_fetch(*final(self)) == needs_log_fetch(*old(self)),
            (fetched matches Ok(lines) ==> {
                &&& final(self).logs == lines
                &&& (lines@.len() > 0 ==> final(self).logs_scroll == lines@.len() - 1)
                &&& (lines@.len() == 0 ==> final(self).logs_scroll == old(self).logs_scroll)
            }),
            (fetched matches Err(e) ==> {
                &&& final(self).logs@.len() == 1
                &&& final(self).logs@[0]@ == "Error fetching logs: "@ + e@
                &&& final(self).logs_scroll == old(self).logs_scroll
            }),
            final(self).services == old(self).services,
            final(self).selection == old(self).selection,
            final(self).filtered_indices == old(self).filtered_indices,
            final(self).search_query == old(self).search_query,
            final(self).status_filter == old(self).status_filter,
            final(self).error == old(self).error,
            final(self).should_quit == old(self).should_quit,
            final(self).search_mode == old(self).search_mode,
            final(self).last_selected_service == old(self).last_selected_service,
            final(self).show_logs == old(self).show_logs,
            final(self).show_help == old(self).show_help,
    {
        match fetched {
            Ok(lines) => {
                let n = lines.len();
                self.logs = lines;
                if n > 0 {
                    self.logs_scroll = n - 1;
                }
            },
            Err(e) => {
                let mut line = "Error fetching logs: ".to_owned();
                line.append(e.as_str());
                self.logs = vec![line];
            },
        }
    }

    /// The record the current selection resolves to, if any.
    pub fn selected_service(&self) -> (r: Option<&SystemdService>)
        requires
            self.wf(),
        ensures
            (match spec_selected_record(*self) {
                None => r is None,
                Some(rec) => r matches Some(p) && *p == rec,
            }),
    {
        match self.selection {
            None => None,
            Some(i) => {
                let idx = self.filtered_indices[i];
                Some(&self.services[idx])
            },
        }
    }
}

} // verus!
