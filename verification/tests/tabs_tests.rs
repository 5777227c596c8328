use raffle::tabs::StatefulTabs;

fn two_tabs() -> StatefulTabs {
    StatefulTabs::new(vec!["Home".to_string(), "Participants".to_string()])
}

#[test]
fn new_starts_on_first_tab() {
    let tabs = two_tabs();
    assert_eq!(tabs.active, 0);
    assert_eq!(tabs.titles.len(), 2);
    assert_eq!(tabs.titles[0], "Home");
    assert_eq!(tabs.titles[1], "Participants");
}

#[test]
fn next_tab_wraps_forward() {
    let mut tabs = two_tabs();
    tabs.next_tab();
    assert_eq!(tabs.active, 1);
    tabs.next_tab();
    assert_eq!(tabs.active, 0);
}

#[test]
fn prev_tab_wraps_backward() {
    let mut tabs = two_tabs();
    tabs.prev_tab();
    assert_eq!(tabs.active, 1);
    tabs.prev_tab();
    assert_eq!(tabs.active, 0);
}

#[test]
fn single_tab_stays_put() {
    let mut tabs = StatefulTabs::new(vec!["Only".to_string()]);
    tabs.next_tab();
    assert_eq!(tabs.active, 0);
    tabs.prev_tab();
    assert_eq!(tabs.active, 0);
}
