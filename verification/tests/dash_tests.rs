use logtail::dash::{do_bracketed_next_previous, DashState, DashVertical, DashViewMain, StatefulList};
use logtail::monitor::LogMonitor;
use logtail::timeline::Granularity;

#[test]
fn stateful_list_push_bounded_keeps_the_newest_lines() {
    let mut list = StatefulList::new();
    for i in 0..5 {
        list.push_bounded(&format!("line {}", i), 3);
    }
    assert_eq!(list.items, vec!["line 2", "line 3", "line 4"]);
}

#[test]
fn bracketed_moves_do_not_wrap() {
    let mut list = StatefulList::with_items(vec![
        String::from("a"),
        String::from("b"),
        String::from("c"),
    ]);
    // Nothing selected: the first move selects the start.
    do_bracketed_next_previous(&mut list, true);
    assert_eq!(list.selected, Some(0));
    do_bracketed_next_previous(&mut list, false);
    assert_eq!(list.selected, Some(0));
    do_bracketed_next_previous(&mut list, true);
    do_bracketed_next_previous(&mut list, true);
    assert_eq!(list.selected, Some(2));
    do_bracketed_next_previous(&mut list, true);
    assert_eq!(list.selected, Some(2));
}

#[test]
fn dash_state_starts_on_the_vault_view() {
    let d = DashState::new();
    assert!(matches!(d.main_view, DashViewMain::DashVault));
    assert!(matches!(d.active_timeline, Granularity::Minute));
    assert!(!d.debug_window);
    assert_eq!(d.max_debug_window, 100);
}

#[test]
fn debug_window_is_bounded() {
    let mut d = DashState::new();
    for i in 0..150 {
        d._debug_window(&format!("debug {}", i));
    }
    assert_eq!(d.debug_window_list.items.len(), 100);
    assert_eq!(d.debug_window_list.items[0], "debug 50");
}

#[test]
fn dash_vertical_starts_at_the_first_view() {
    let v = DashVertical::new();
    assert_eq!(v.active_view, 0);
}

#[test]
fn monitor_feeds_metrics_and_bounds_its_content() {
    let mut mon = LogMonitor::new(String::from("vault.log"), 2, 10, 0);
    assert_eq!(mon.logfile, "vault.log");
    let line = "INFO 2020-07-08T19:58:26.841778689+01:00 [src/bin/app.rs:114] starting up";
    mon.append_to_content(line);
    mon.append_to_content("noise one");
    mon.append_to_content("noise two");
    assert_eq!(mon.content.items, vec!["noise one", "noise two"]);
    assert_eq!(mon.metrics.log_history.len(), 1);
    assert_eq!(mon.metrics.log_history[0].category, "INFO");
}
