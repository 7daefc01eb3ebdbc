//! Tests of the view state machine: filtering, selection, log sync and
//! scrolling.

use unitdash::record::SystemdService;
use unitdash::state::App;

fn svc(unit: &str, sub: &str, description: &str) -> SystemdService {
    SystemdService {
        unit: unit.to_string(),
        load: "loaded".to_string(),
        active: "active".to_string(),
        sub: sub.to_string(),
        description: description.to_string(),
    }
}

fn app_with(records: Vec<SystemdService>) -> App {
    let mut app = App::new();
    app.load_services(Ok(records));
    app
}

#[test]
fn new_app_is_empty() {
    let app = App::new();
    assert!(app.services.is_empty());
    assert!(app.filtered_indices.is_empty());
    assert_eq!(app.selection, None);
    assert_eq!(app.error, None);
    assert!(!app.should_quit);
    assert!(!app.search_mode);
    assert!(!app.show_logs);
    assert!(!app.show_help);
}

#[test]
fn load_selects_first_row() {
    let app = app_with(vec![svc("a.service", "running", ""), svc("b.service", "failed", "")]);
    assert_eq!(app.filtered_indices, vec![0, 1]);
    assert_eq!(app.selection, Some(0));
    assert_eq!(app.error, None);
}

#[test]
fn status_filter_scenario() {
    let mut app = app_with(vec![svc("a.service", "running", ""), svc("b.service", "failed", "")]);
    // none -> running -> exited -> failed
    app.cycle_status_filter();
    assert_eq!(app.filtered_indices, vec![0]);
    app.cycle_status_filter();
    assert_eq!(app.filtered_indices, Vec::<usize>::new());
    assert_eq!(app.selection, None);
    app.cycle_status_filter();
    assert_eq!(app.filtered_indices, vec![1]);
    assert_eq!(app.selection, Some(0));
    assert_eq!(app.selected_service().unwrap().unit, "b.service");
}

#[test]
fn status_filter_full_cycle_returns_to_none() {
    let mut app = app_with(vec![svc("a.service", "running", "")]);
    for _ in 0..5 {
        app.cycle_status_filter();
    }
    assert_eq!(app.status_filter, None);
    assert_eq!(app.filtered_indices, vec![0]);
}

#[test]
fn clear_status_filter_restores_all_rows() {
    let mut app = app_with(vec![svc("a.service", "running", ""), svc("b.service", "failed", "")]);
    app.cycle_status_filter();
    assert_eq!(app.filtered_indices, vec![0]);
    app.clear_status_filter();
    assert_eq!(app.filtered_indices, vec![0, 1]);
}

#[test]
fn search_query_scenario() {
    let mut app = app_with(vec![svc("a.service", "running", ""), svc("b.service", "failed", "")]);
    app.set_search_query("a".to_string());
    assert_eq!(app.filtered_indices, vec![0]);
    assert_eq!(app.selected_service().unwrap().unit, "a.service");
}

#[test]
fn search_is_case_insensitive() {
    let mut app = app_with(vec![svc("A.Service", "running", ""), svc("b.service", "dead", "")]);
    app.set_search_query("a.serv".to_string());
    assert_eq!(app.filtered_indices, vec![0]);
    app.set_search_query("A.SERV".to_string());
    assert_eq!(app.filtered_indices, vec![0]);
}

#[test]
fn search_matches_description_too() {
    let mut app = app_with(vec![
        svc("x.service", "running", "Web Front End"),
        svc("y.service", "running", "db"),
    ]);
    app.set_search_query("front".to_string());
    assert_eq!(app.filtered_indices, vec![0]);
}

#[test]
fn search_and_status_filter_combine() {
    let mut app = app_with(vec![
        svc("web.service", "running", ""),
        svc("web-helper.service", "failed", ""),
        svc("db.service", "failed", ""),
    ]);
    app.set_search_query("web".to_string());
    assert_eq!(app.filtered_indices, vec![0, 1]);
    app.cycle_status_filter(); // running
    app.cycle_status_filter(); // exited
    app.cycle_status_filter(); // failed
    assert_eq!(app.filtered_indices, vec![1]);
}

#[test]
fn push_and_pop_char_refilter() {
    let mut app = app_with(vec![svc("alpha.service", "running", ""), svc("beta.service", "running", "")]);
    app.push_char('b');
    assert_eq!(app.search_query, "b");
    assert_eq!(app.filtered_indices, vec![1]);
    app.pop_char();
    assert_eq!(app.search_query, "");
    assert_eq!(app.filtered_indices, vec![0, 1]);
    app.pop_char();
    assert_eq!(app.search_query, "");
}

#[test]
fn clear_search_restores_all_rows() {
    let mut app = app_with(vec![svc("alpha.service", "running", ""), svc("beta.service", "running", "")]);
    app.set_search_query("alpha".to_string());
    assert_eq!(app.filtered_indices, vec![0]);
    app.clear_search();
    assert_eq!(app.search_query, "");
    assert_eq!(app.filtered_indices, vec![0, 1]);
}

#[test]
fn empty_records_scenario() {
    let mut app = app_with(Vec::new());
    assert_eq!(app.filtered_indices, Vec::<usize>::new());
    assert_eq!(app.selection, None);
    app.next();
    assert_eq!(app.selection, None);
    app.previous();
    assert_eq!(app.selection, None);
    app.go_to_top();
    assert_eq!(app.selection, None);
    app.go_to_bottom();
    assert_eq!(app.selection, None);
    app.page_up(5);
    app.page_down(5);
    assert_eq!(app.selection, None);
    app.select_at(0);
    assert_eq!(app.selection, None);
    assert!(app.selected_service().is_none());
}

#[test]
fn wrap_around_next_and_previous() {
    let mut app = app_with(vec![
        svc("a.service", "running", ""),
        svc("b.service", "running", ""),
        svc("c.service", "running", ""),
    ]);
    app.go_to_bottom();
    assert_eq!(app.selection, Some(2));
    app.next();
    assert_eq!(app.selection, Some(0));
    app.previous();
    assert_eq!(app.selection, Some(2));
    app.previous();
    assert_eq!(app.selection, Some(1));
    app.next();
    assert_eq!(app.selection, Some(2));
}

#[test]
fn page_jumps_saturate() {
    let mut app = app_with(vec![
        svc("a.service", "running", ""),
        svc("b.service", "running", ""),
        svc("c.service", "running", ""),
    ]);
    app.page_down(2);
    assert_eq!(app.selection, Some(2));
    app.page_down(10);
    assert_eq!(app.selection, Some(2));
    app.page_up(1);
    assert_eq!(app.selection, Some(1));
    app.page_up(10);
    assert_eq!(app.selection, Some(0));
}

#[test]
fn select_at_ignores_out_of_range_rows() {
    let mut app = app_with(vec![svc("a.service", "running", ""), svc("b.service", "running", "")]);
    app.select_at(1);
    assert_eq!(app.selection, Some(1));
    app.select_at(2);
    assert_eq!(app.selection, Some(1));
}

#[test]
fn selection_resets_when_filter_shrinks() {
    let mut app = app_with(vec![
        svc("a.service", "running", ""),
        svc("b.service", "running", ""),
        svc("c.service", "failed", ""),
    ]);
    app.go_to_bottom();
    assert_eq!(app.selection, Some(2));
    app.set_search_query("a".to_string());
    assert_eq!(app.filtered_indices, vec![0]);
    assert_eq!(app.selection, Some(0));
}

#[test]
fn selection_index_is_kept_when_still_valid() {
    // The dashboard keeps the selected row index, not the record identity,
    // across a refilter, as long as the index is still in range.
    let mut app = app_with(vec![
        svc("ab.service", "running", ""),
        svc("ac.service", "running", ""),
        svc("b.service", "running", ""),
    ]);
    app.next();
    assert_eq!(app.selection, Some(1));
    app.set_search_query("a".to_string());
    assert_eq!(app.filtered_indices, vec![0, 1]);
    assert_eq!(app.selection, Some(1));
    assert_eq!(app.selected_service().unwrap().unit, "ac.service");
}

#[test]
fn failed_fetch_keeps_stale_records() {
    let mut app = app_with(vec![svc("a.service", "running", ""), svc("b.service", "running", "")]);
    app.next();
    app.load_services(Err("unit source down".to_string()));
    assert_eq!(app.error, Some("unit source down".to_string()));
    assert_eq!(app.services.len(), 2);
    assert_eq!(app.filtered_indices, vec![0, 1]);
    assert_eq!(app.selection, Some(1));
}

#[test]
fn successful_fetch_clears_error() {
    let mut app = App::new();
    app.load_services(Err("down".to_string()));
    assert_eq!(app.error, Some("down".to_string()));
    app.load_services(Ok(vec![svc("a.service", "running", "")]));
    assert_eq!(app.error, None);
    assert_eq!(app.filtered_indices, vec![0]);
    assert_eq!(app.selection, Some(0));
}

#[test]
fn log_sync_fetches_once_per_selection() {
    let mut app = app_with(vec![svc("a.service", "running", ""), svc("b.service", "running", "")]);
    let req = app.load_logs_for_selected();
    assert_eq!(req, Some("a.service".to_string()));
    app.apply_log_fetch(Ok(vec!["one".to_string(), "two".to_string()]));
    assert_eq!(app.logs, vec!["one".to_string(), "two".to_string()]);
    assert_eq!(app.logs_scroll, 1);
    // No selection change: the second sync asks for nothing and changes
    // nothing.
    let again = app.load_logs_for_selected();
    assert_eq!(again, None);
    assert_eq!(app.logs, vec!["one".to_string(), "two".to_string()]);
    assert_eq!(app.logs_scroll, 1);
    // A selection change asks for the newly resolved unit and resets the
    // scroll offset.
    app.next();
    let req2 = app.load_logs_for_selected();
    assert_eq!(req2, Some("b.service".to_string()));
    assert_eq!(app.logs_scroll, 0);
}

#[test]
fn log_sync_without_selection_clears_buffer() {
    let mut app = app_with(vec![svc("a.service", "running", "")]);
    let req = app.load_logs_for_selected();
    assert_eq!(req, Some("a.service".to_string()));
    app.apply_log_fetch(Ok(vec!["line".to_string()]));
    app.set_search_query("zzz".to_string());
    assert_eq!(app.selection, None);
    let req2 = app.load_logs_for_selected();
    assert_eq!(req2, None);
    assert!(app.logs.is_empty());
    assert_eq!(app.last_selected_service, None);
}

#[test]
fn log_fetch_error_becomes_single_line() {
    let mut app = app_with(vec![svc("a.service", "running", "")]);
    let _ = app.load_logs_for_selected();
    app.apply_log_fetch(Err("journal unavailable".to_string()));
    assert_eq!(app.logs, vec!["Error fetching logs: journal unavailable".to_string()]);
    assert_eq!(app.logs_scroll, 0);
}

#[test]
fn empty_log_fetch_leaves_scroll_at_zero() {
    let mut app = app_with(vec![svc("a.service", "running", "")]);
    let _ = app.load_logs_for_selected();
    app.apply_log_fetch(Ok(Vec::new()));
    assert!(app.logs.is_empty());
    assert_eq!(app.logs_scroll, 0);
}

#[test]
fn scroll_clamps_at_both_ends() {
    let mut app = app_with(vec![svc("a.service", "running", "")]);
    let _ = app.load_logs_for_selected();
    let lines: Vec<String> = (0..10).map(|i| format!("line {}", i)).collect();
    app.apply_log_fetch(Ok(lines));
    assert_eq!(app.logs_scroll, 9);
    // Ten lines, three visible: the greatest useful offset is 7.
    app.scroll_logs_down(5, 3);
    assert_eq!(app.logs_scroll, 7);
    app.scroll_logs_down(100, 3);
    assert_eq!(app.logs_scroll, 7);
    app.scroll_logs_up(2);
    assert_eq!(app.logs_scroll, 5);
    app.scroll_logs_up(100);
    assert_eq!(app.logs_scroll, 0);
    app.scroll_logs_down(2, 3);
    assert_eq!(app.logs_scroll, 2);
    // A window larger than the buffer pins the offset at zero.
    app.scroll_logs_down(100, 50);
    assert_eq!(app.logs_scroll, 0);
}

#[test]
fn scrolling_empty_logs_is_a_no_op() {
    let mut app = App::new();
    app.scroll_logs_down(10, 3);
    assert_eq!(app.logs_scroll, 0);
    app.scroll_logs_up(10);
    assert_eq!(app.logs_scroll, 0);
}

#[test]
fn toggles_flip_only_their_flag() {
    let mut app = App::new();
    app.toggle_logs();
    assert!(app.show_logs);
    assert!(!app.show_help);
    app.toggle_help();
    assert!(app.show_help);
    assert!(app.show_logs);
    app.toggle_logs();
    app.toggle_help();
    assert!(!app.show_logs);
    assert!(!app.show_help);
}
