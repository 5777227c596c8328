use raffle::app::App;
use raffle::data::Participant;

fn roster(list: &[&str]) -> Vec<Participant> {
    list.iter().map(|n| Participant::from_name(n.to_string())).collect()
}

#[test]
fn new_app_is_idle() {
    let app = App::new(roster(&["Alice", "Bob"]), 50);
    assert!(app.running);
    assert!(!app.is_spinning);
    assert_eq!(app.spin_counter, 0);
    assert!(app.spin_winner.is_none());
    assert!(app.all_winners.is_empty());
    assert_eq!(app.round_budget, 50);
    assert_eq!(app.tabs.titles, vec!["Home".to_string(), "Participants".to_string()]);
}

#[test]
fn quit_clears_only_the_running_flag() {
    let mut app = App::new(roster(&["Alice"]), 10);
    app.quit();
    assert!(!app.running);
    assert!(!app.is_spinning);
    assert_eq!(app.all_participants.items.len(), 1);
}

#[test]
fn start_spin_on_empty_roster_is_a_noop() {
    let mut app = App::new(Vec::new(), 50);
    app.start_spin();
    assert!(!app.is_spinning);
    assert_eq!(app.spin_counter, 0);
    assert!(app.spin_winner.is_none());
    assert!(app.all_winners.is_empty());
}

#[test]
fn start_spin_arms_the_engine() {
    let mut app = App::new(roster(&["Alice", "Bob", "Carol"]), 50);
    app.start_spin();
    assert!(app.is_spinning);
    assert_eq!(app.spin_counter, 50);
    assert!(app.spin_winner.is_none());
}

#[test]
fn full_spin_declares_exactly_one_winner_on_the_final_tick() {
    let names = ["Alice", "Bob", "Carol"];
    let mut app = App::new(roster(&names), 50);
    app.start_spin();
    assert!(app.is_spinning);
    assert_eq!(app.spin_counter, 50);
    for expected_left in (0..50).rev() {
        app.tick();
        assert!(app.is_spinning);
        assert_eq!(app.spin_counter, expected_left);
        assert!(app.spin_winner.is_none());
        assert!(app.all_winners.is_empty());
    }
    app.tick();
    assert!(!app.is_spinning);
    let winner = app.spin_winner.clone().expect("a winner must be declared");
    assert!(winner.is_winner);
    assert!(names.contains(&winner.name.as_str()));
    assert_eq!(app.all_winners.len(), 1);
    assert_eq!(app.all_winners[0], winner);
    assert_eq!(app.spin_counter, 50);
    let marked: Vec<&Participant> =
        app.all_participants.items.iter().filter(|p| p.is_winner).collect();
    assert_eq!(marked.len(), 1);
    assert_eq!(marked[0].name, winner.name);
}

#[test]
fn ticks_after_the_winner_are_noops() {
    let mut app = App::new(roster(&["Alice", "Bob"]), 3);
    app.start_spin();
    for _ in 0..4 {
        app.tick();
    }
    assert!(!app.is_spinning);
    let winner = app.spin_winner.clone().unwrap();
    app.tick();
    app.tick();
    assert!(!app.is_spinning);
    assert_eq!(app.spin_winner, Some(winner));
    assert_eq!(app.all_winners.len(), 1);
}

#[test]
fn tick_while_idle_is_a_noop() {
    let mut app = App::new(roster(&["Alice", "Bob"]), 5);
    app.tick();
    assert!(!app.is_spinning);
    assert_eq!(app.spin_counter, 0);
    assert!(app.all_winners.is_empty());
    assert!(app.all_participants.selected.is_none());
}

#[test]
fn stop_spin_aborts_without_a_winner() {
    let mut app = App::new(roster(&["Alice", "Bob"]), 10);
    app.start_spin();
    app.tick();
    app.stop_spin();
    assert!(!app.is_spinning);
    assert!(app.spin_winner.is_none());
    assert_eq!(app.spin_counter, 9);
    assert!(app.all_winners.is_empty());
}

#[test]
fn reset_spin_clears_the_winner_and_restores_the_budget() {
    let mut app = App::new(roster(&["Alice", "Bob"]), 4);
    app.start_spin();
    for _ in 0..5 {
        app.tick();
    }
    assert!(app.spin_winner.is_some());
    app.reset_spin();
    assert!(!app.is_spinning);
    assert!(app.spin_winner.is_none());
    assert_eq!(app.spin_counter, 4);
    assert_eq!(app.all_winners.len(), 1);
    app.reset_spin();
    assert!(!app.is_spinning);
    assert!(app.spin_winner.is_none());
    assert_eq!(app.spin_counter, 4);
}

#[test]
fn winner_log_accumulates_across_spins() {
    let mut app = App::new(roster(&["Alice", "Bob", "Carol"]), 2);
    for round in 1..=3 {
        app.start_spin();
        for _ in 0..3 {
            app.tick();
        }
        assert!(!app.is_spinning);
        assert_eq!(app.all_winners.len(), round);
    }
    for w in &app.all_winners {
        assert!(w.is_winner);
    }
}

#[test]
fn spin_survives_removal_down_to_an_empty_roster() {
    let mut app = App::new(roster(&["Alice"]), 5);
    app.start_spin();
    app.tick();
    app.all_participants.remove();
    assert!(app.all_participants.items.is_empty());
    app.tick();
    assert!(app.is_spinning);
    assert!(app.spin_winner.is_none());
    assert!(app.all_winners.is_empty());
}
