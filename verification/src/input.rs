//! Input handling: reduces a keyboard or pointer event into one transition
//! of the view state machine. The mode semantics live here: the help
//! overlay swallows every key, search-edit mode only takes text editing
//! and navigation, and normal mode takes the full command set.

use vstd::prelude::*;

use crate::layout::{
    get_layout_regions, hit_test, mouse_in_rect, spec_in_rect, spec_inner_rows, spec_logs_rect,
    spec_row_offset, spec_services_rect, HitTarget, Rect, rect_wf,
};
use crate::state::{
    max_scroll, next_status_filter, page_down_sel, page_up_sel, refiltered, same_but_filter,
    same_but_selection, wrap_next, wrap_prev, App,
};

verus! {

/// One keyboard event, already stripped to what the state machine reads.
#[derive(Debug, Clone, Copy, PartialEq, Eq, Structural)]
pub enum KeyInput {
    /// A plain character key.
    Char(char),
    /// A character key with the control modifier held.
    Ctrl(char),
    Esc,
    Enter,
    Backspace,
    Up,
    Down,
    PageUp,
    PageDown,
    Home,
    End,
    /// Any key the dashboard does not react to.
    Other,
}

/// What the caller must do after a key transition.
#[derive(Debug, Clone, Copy, PartialEq, Eq, Structural)]
pub enum KeyAction {
    /// Nothing; the state transition is all there was.
    NoAction,
    /// Fetch the unit list and hand the result to `load_services`.
    Refresh,
}

/// One pointer event kind the dashboard reacts to.
#[derive(Debug, Clone, Copy, PartialEq, Eq, Structural)]
pub enum MouseKind {
    /// The primary button went down.
    LeftDown,
    /// The wheel rolled up.
    ScrollUp,
    /// The wheel rolled down.
    ScrollDown,
    /// Anything else.
    Other,
}

/// The selection moved to `target` and nothing else changed.
pub open spec fn rel_move(pre: App, post: App, target: Option<usize>) -> bool {
    &&& post.selection == target
    &&& same_but_selection(pre, post)
}

/// The filtered set and selection were recomputed for `post`'s own query
/// and filter, and everything a refilter leaves alone is unchanged.
pub open spec fn rel_refilter(pre: App, post: App) -> bool {
    &&& refiltered(pre, post)
    &&& same_but_filter(pre, post)
}

/// The log buffer scrolled up by `amount`, saturating at the first line.
pub open spec fn rel_scroll_up(pre: App, post: App, amount: usize) -> bool {
    post == (App {
        logs_scroll: (if amount > pre.logs_scroll {
            0usize
        } else {
            (pre.logs_scroll - amount) as usize
        }),
        ..pre
    })
}

/// The log buffer scrolled down by `amount`, saturating at the greatest
/// offset that still fills a window of `visible` lines.
pub open spec fn rel_scroll_down(pre: App, post: App, amount: usize, visible: usize) -> bool {
    if pre.logs@.len() == 0 {
        post == pre
    } else {
        post == (App {
            logs_scroll: (if pre.logs_scroll + amount <= max_scroll(
                pre.logs@.len() as int,
                visible as int,
            ) {
                (pre.logs_scroll + amount) as usize
            } else {
                max_scroll(pre.logs@.len() as int, visible as int) as usize
            }),
            ..pre
        })
    }
}

/// One character was appended to the search query and the filter
/// recomputed.
pub open spec fn rel_push_char(pre: App, post: App, c: char) -> bool {
    &&& post.search_query@ == pre.search_query@.push(c)
    &&& post.status_filter == pre.status_filter
    &&& rel_refilter(pre, post)
}

/// The last query character, if any, was removed and the filter
/// recomputed.
pub open spec fn rel_pop_char(pre: App, post: App) -> bool {
    &&& post.search_query@ == (if pre.search_query@.len() == 0 {
        pre.search_query@
    } else {
        pre.search_query@.drop_last()
    })
    &&& post.status_filter == pre.status_filter
    &&& rel_refilter(pre, post)
}

/// What one key does while the search query is being edited: Escape and
/// Enter leave edit mode, text keys edit the query, arrow and page keys
/// navigate; every normal-mode command is unavailable.
pub open spec fn search_step(pre: App, post: App, key: KeyInput, lv: usize, sv: usize) -> bool {
    match key {
        KeyInput::Esc => post == (App { search_mode: false, ..pre }),
        KeyInput::Enter => post == (App { search_mode: false, ..pre }),
        KeyInput::Backspace => rel_pop_char(pre, post),
        KeyInput::Down => rel_move(pre, post, wrap_next(pre.selection, pre.filtered_indices@.len())),
        KeyInput::Up => rel_move(pre, post, wrap_prev(pre.selection, pre.filtered_indices@.len())),
        KeyInput::PageUp => if pre.show_logs {
            rel_scroll_up(pre, post, lv)
        } else {
            rel_move(pre, post, page_up_sel(pre.selection, pre.filtered_indices@.len(), sv))
        },
        KeyInput::PageDown => if pre.show_logs {
            rel_scroll_down(pre, post, lv, lv)
        } else {
            rel_move(pre, post, page_down_sel(pre.selection, pre.filtered_indices@.len(), sv))
        },
        KeyInput::Char(c) => rel_push_char(pre, post, c),
        _ => post == pre,
    }
}

/// What one key does in normal mode: the full command set.
pub open spec fn normal_step(pre: App, post: App, key: KeyInput, lv: usize, sv: usize) -> bool {
    match key {
        KeyInput::Char(c) => if c == 'q' {
            post == (App { should_quit: true, ..pre })
        } else if c == 'l' {
            post == (App { show_logs: !pre.show_logs, ..pre })
        } else if c == '/' {
            post == (App { search_mode: true, ..pre })
        } else if c == 'j' {
            rel_move(pre, post, wrap_next(pre.selection, pre.filtered_indices@.len()))
        } else if c == 'k' {
            rel_move(pre, post, wrap_prev(pre.selection, pre.filtered_indices@.len()))
        } else if c == 'g' {
            rel_move(
                pre,
                post,
                if pre.filtered_indices@.len() > 0 {
                    Some(0usize)
                } else {
                    pre.selection
                },
            )
        } else if c == 'G' {
            rel_move(
                pre,
                post,
                if pre.filtered_indices@.len() > 0 {
                    Some((pre.filtered_indices@.len() - 1) as usize)
                } else {
                    pre.selection
                },
            )
        } else if c == 'r' {
            post == pre
        } else if c == 's' {
            &&& post.status_filter == next_status_filter(pre.status_filter)
            &&& post.search_query == pre.search_query
            &&& rel_refilter(pre, post)
        } else if c == 'S' {
            &&& post.status_filter is None
            &&& post.search_query == pre.search_query
            &&& rel_refilter(pre, post)
        } else if c == '?' {
            post == (App { show_help: true, ..pre })
        } else {
            post == pre
        },
        KeyInput::Ctrl(c) => if c == 'u' {
            rel_scroll_up(pre, post, (lv / 2) as usize)
        } else if c == 'd' {
            rel_scroll_down(pre, post, (lv / 2) as usize, lv)
        } else {
            post == pre
        },
        KeyInput::Esc => if pre.search_query@.len() > 0 {
            &&& post.search_query@.len() == 0
            &&& post.status_filter == pre.status_filter
            &&& rel_refilter(pre, post)
        } else {
            post == (App { should_quit: true, ..pre })
        },
        KeyInput::Down => rel_move(pre, post, wrap_next(pre.selection, pre.filtered_indices@.len())),
        KeyInput::Up => rel_move(pre, post, wrap_prev(pre.selection, pre.filtered_indices@.len())),
        KeyInput::Home => rel_move(
            pre,
            post,
            if pre.filtered_indices@.len() > 0 {
                Some(0usize)
            } else {
                pre.selection
            },
        ),
        KeyInput::End => rel_move(
            pre,
            post,
            if pre.filtered_indices@.len() > 0 {
                Some((pre.filtered_indices@.len() - 1) as usize)
            } else {
                pre.selection
            },
        ),
        KeyInput::PageUp => if pre.show_logs {
            rel_scroll_up(pre, post, lv)
        } else {
            rel_move(pre, post, page_up_sel(pre.selection, pre.filtered_indices@.len(), sv))
        },
        KeyInput::PageDown => if pre.show_logs {
            rel_scroll_down(pre, post, lv, lv)
        } else {
            rel_move(pre, post, page_down_sel(pre.selection, pre.filtered_indices@.len(), sv))
        },
        _ => post == pre,
    }
}

/// What one pointer event does: a click on a list row selects it, the
/// wheel moves the selection over the list and scrolls over the log
/// panel, and everything is swallowed while the help overlay is up.
pub open spec fn mouse_step(
    pre: App,
    post: App,
    kind: MouseKind,
    col: u16,
    row: u16,
    frame: Rect,
    list_offset: usize,
) -> bool {
    if pre.show_help {
        post == pre
    } else {
        let sl = spec_services_rect(frame, pre.show_logs);
        let inside_sl = spec_in_rect(col as int, row as int, sl);
        let inside_logs = pre.show_logs && spec_in_rect(
            col as int,
            row as int,
            spec_logs_rect(frame),
        );
        match kind {
            MouseKind::LeftDown => if inside_sl {
                let clicked = list_offset + spec_row_offset(row as int, sl.y as int);
                &&& post.selection == (if clicked < pre.filtered_indices@.len() {
                    Some(clicked as usize)
                } else {
                    pre.selection
                })
                &&& same_but_selection(pre, post)
            } else {
                post == pre
            },
            MouseKind::ScrollUp => if inside_sl {
                rel_move(pre, post, wrap_prev(pre.selection, pre.filtered_indices@.len()))
            } else if inside_logs {
                rel_scroll_up(pre, post, 3)
            } else {
                post == pre
            },
            MouseKind::ScrollDown => if inside_sl {
                rel_move(pre, post, wrap_next(pre.selection, pre.filtered_indices@.len()))
            } else if inside_logs {
                rel_scroll_down(
                    pre,
                    post,
                    3,
                    spec_inner_rows(spec_logs_rect(frame).height as int) as usize,
                )
            } else {
                post == pre
            },
            MouseKind::Other => post == pre,
        }
    }
}

impl App {
    /// Reduces one key press into a state transition, honoring the mode
    /// priority: the help overlay swallows the key, search-edit mode only
    /// edits and navigates, normal mode takes the full command set. The
    /// returned action tells the caller whether to fetch the unit list.
    pub fn handle_key_event(
        &mut self,
        key: KeyInput,
        logs_visible: usize,
        services_visible: usize,
    ) -> (r: KeyAction)
        requires
            old(self).wf(),
        ensures
            final(self).wf(),
            (r == KeyAction::Refresh <==> (!old(self).show_help && !old(self).search_mode && key
                == KeyInput::Char('r'))),
            old(self).show_help ==> *final(self) == (App { show_help: false, ..*old(self) }),
            (!old(self).show_help && old(self).search_mode) ==> search_step(
                *old(self),
                *final(self),
                key,
                logs_visible,
                services_visible,
            ),
            (!old(self).show_help && !old(self).search_mode) ==> normal_step(
                *old(self),
                *final(self),
                key,
                logs_visible,
                services_visible,
            ),
    {
        if self.show_help {
            self.show_help = false;
            return KeyAction::NoAction;
        }
        if self.search_mode {
            match key {
                KeyInput::Esc => {
                    self.search_mode = false;
                },
                KeyInput::Enter => {
                    self.search_mode = false;
                },
                KeyInput::Backspace => {
                    self.pop_char();
                },
                KeyInput::Down => {
                    self.next();
                },
                KeyInput::Up => {
                    self.previous();
                },
                KeyInput::PageUp => {
                    if self.show_logs {
                        self.scroll_logs_up(logs_visible);
                    } else {
                        self.page_up(services_visible);
                    }
                },
                KeyInput::PageDown => {
                    if self.show_logs {
                        self.scroll_logs_down(logs_visible, logs_visible);
                    } else {
                        self.page_down(services_visible);
                    }
                },
                KeyInput::Char(c) => {
                    self.push_char(c);
                },
                _ => {},
            }
            return KeyAction::NoAction;
        }
        match key {
            KeyInput::Char(c) => {
                if c == 'q' {
                    self.should_quit = true;
                } else if c == 'l' {
                    self.toggle_logs();
                } else if c == '/' {
                    self.search_mode = true;
                } else if c == 'j' {
                    self.next();
                } else if c == 'k' {
                    self.previous();
                } else if c == 'g' {
                    self.go_to_top();
                } else if c == 'G' {
                    self.go_to_bottom();
                } else if c == 'r' {
                    return KeyAction::Refresh;
                } else if c == 's' {
                    self.cycle_status_filter();
                } else if c == 'S' {
                    self.clear_status_filter();
                } else if c == '?' {
                    self.toggle_help();
                }
                KeyAction::NoAction
            },
            KeyInput::Ctrl(c) => {
                if c == 'u' {
                    self.scroll_logs_up(logs_visible / 2);
                } else if c == 'd' {
                    self.scroll_logs_down(logs_visible / 2, logs_visible);
                }
                KeyAction::NoAction
            },
            KeyInput::Esc => {
                if !self.search_query.as_str().is_empty() {
                    self.clear_search();
                } else {
                    self.should_quit = true;
                }
                KeyAction::NoAction
            },
            KeyInput::Down => {
                self.next();
                KeyAction::NoAction
            },
            KeyInput::Up => {
                self.previous();
                KeyAction::NoAction
            },
            KeyInput::Home => {
                self.go_to_top();
                KeyAction::NoAction
            },
            KeyInput::End => {
                self.go_to_bottom();
                KeyAction::NoAction
            },
            KeyInput::PageUp => {
                if self.show_logs {
                    self.scroll_logs_up(logs_visible);
                } else {
                    self.page_up(services_visible);
                }
                KeyAction::NoAction
            },
            KeyInput::PageDown => {
                if self.show_logs {
                    self.scroll_logs_down(logs_visible, logs_visible);
                } else {
                    self.page_down(services_visible);
                }
                KeyAction::NoAction
            },
            _ => KeyAction::NoAction,
        }
    }

    /// Reduces one pointer event into a state transition. `frame` is the
    /// whole terminal area the layout was computed for, and `list_offset`
    /// the index of the first service row currently on screen, so a click
    /// can be mapped back to the filtered row it landed on.
    pub fn handle_mouse_event(
        &mut self,
        kind: MouseKind,
        column: u16,
        row: u16,
        frame: Rect,
        list_offset: usize,
    )
        requires
            old(self).wf(),
            rect_wf(frame),
        ensures
            final(self).wf(),
            mouse_step(*old(self), *final(self), kind, column, row, frame, list_offset),
    {
        if self.show_help {
            return ;
        }
        let regions = get_layout_regions(frame, self.show_logs);
        match kind {
            MouseKind::LeftDown => {
                match hit_test(&regions, column, row) {
                    HitTarget::ServiceRow(off) => {
                        let n = self.filtered_indices.len();
                        let off_us: usize = off as usize;
                        let clicked: usize = if list_offset > usize::MAX - off_us {
                            usize::MAX
                        } else {
                            list_offset + off_us
                        };
                        proof {
                            assert(self.filtered_indices@.len() <= usize::MAX);
                        }
                        self.select_at(clicked);
                    },
                    _ => {},
                }
            },
            MouseKind::ScrollUp => {
                if mouse_in_rect(column, row, regions.services_list) {
                    self.previous();
                } else {
                    match regions.logs_panel {
                        Some(lp) => {
                            if mouse_in_rect(column, row, lp) {
                                self.scroll_logs_up(3);
                            }
                        },
                        None => {},
                    }
                }
            },
            MouseKind::ScrollDown => {
                if mouse_in_rect(column, row, regions.services_list) {
                    self.next();
                } else {
                    match regions.logs_panel {
                        Some(lp) => {
                            if mouse_in_rect(column, row, lp) {
                                let visible: usize = if lp.height >= 2 {
                                    (lp.height - 2) as usize
                                } else {
                                    0
                                };
                                self.scroll_logs_down(3, visible);
                            }
                        },
                        None => {},
                    }
                }
            },
            MouseKind::Other => {},
        }
    }
}

} // verus!
