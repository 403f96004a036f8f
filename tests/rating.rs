use std::cell::RefCell;
use std::collections::HashMap;

use elo_mmr_bindings::contest::{validate_standings, Contest, Standing};
use elo_mmr_bindings::dataset::{chronological_order, ContestList};
use elo_mmr_bindings::error::RatingError;
use elo_mmr_bindings::event::{is_history_increasing, RatingEvent};
use elo_mmr_bindings::result::{PlayerHistory, RateResult};
use elo_mmr_bindings::run::prepare_run;
use elo_mmr_bindings::system::resolve_system;
use multi_skill::systems::{get_rating_system_by_name, simulate_contest, Player, PlayersByName};

fn line(name: &str, lo: usize, hi: usize) -> Standing {
    (name.to_string(), lo, hi)
}

fn contest(standings: Vec<Standing>, time: u64) -> Contest {
    Contest::new(standings, Some(format!("round at {}", time)), Some(time), None)
}

fn to_engine(c: &Contest) -> multi_skill::data_processing::Contest {
    multi_skill::data_processing::Contest {
        name: c.name.clone(),
        url: c.url.clone(),
        weight: 1.0,
        time_seconds: c.time_seconds,
        standings: c.standings(),
    }
}

fn run_engine(system: &str, contests: Vec<Contest>, seed: PlayersByName) -> (RateResult, PlayersByName) {
    run_engine_from(system, contests, seed, 0)
}

fn run_engine_from(
    system: &str,
    contests: Vec<Contest>,
    seed: PlayersByName,
    first_index: usize,
) -> (RateResult, PlayersByName) {
    let dataset = prepare_run(system, contests).ok().unwrap();
    let engine = get_rating_system_by_name(system).unwrap();
    let mut players = seed;
    for index in 0..dataset.len() {
        let c = to_engine(&dataset.get(index));
        simulate_contest(&mut players, &c, &*engine, 1500.0, 350.0, first_index + index);
    }
    let mut names: Vec<String> = players.keys().cloned().collect();
    names.sort();
    let histories = names
        .iter()
        .map(|n| (n.clone(), players[n].borrow().event_history.clone()))
        .collect();
    (RateResult::from_histories(histories, 0), players)
}

fn history<'a>(r: &'a RateResult, name: &str) -> &'a PlayerHistory {
    r.players_events.iter().find(|h| h.name == name).unwrap()
}

fn ev(contest_index: usize, place: usize) -> RatingEvent {
    RatingEvent { contest_index, rating_mu: 1500, rating_sig: 300, perf_score: 1500, place }
}

#[test]
fn unknown_system_is_a_configuration_error() {
    assert_eq!(resolve_system("nonexistent"), Err(RatingError::Configuration));
    assert_eq!(resolve_system("mmr"), Ok(()));
    assert_eq!(resolve_system("glicko"), Ok(()));
    assert_eq!(resolve_system("MMR"), Err(RatingError::Configuration));
}

#[test]
fn configuration_error_comes_before_any_contest_is_read() {
    let bad = contest(vec![line("a", 0, 0), line("a", 1, 1)], 0);
    match prepare_run("nonexistent", vec![bad]) {
        Err(e) => assert_eq!(e, RatingError::Configuration),
        Ok(_) => panic!("expected a configuration error"),
    }
}

#[test]
fn first_malformed_contest_aborts_the_run() {
    let ok = contest(vec![line("a", 0, 0), line("b", 1, 1)], 0);
    let bad = contest(vec![line("a", 0, 1), line("b", 1, 1)], 1);
    let worse = contest(vec![line("a", 0, 0), line("a", 1, 1)], 2);
    match prepare_run("mmr", vec![ok, bad, worse]) {
        Err(e) => assert_eq!(e, RatingError::MalformedInput { contest_index: 1 }),
        Ok(_) => panic!("expected malformed input"),
    }
}

#[test]
fn standings_validation() {
    assert!(validate_standings(&vec![]));
    assert!(validate_standings(&vec![line("a", 0, 0), line("b", 1, 2), line("c", 1, 2)]));
    assert!(validate_standings(&vec![line("a", 0, 2), line("b", 0, 2), line("c", 0, 2)]));
    // overlapping tie groups
    assert!(!validate_standings(&vec![line("a", 0, 1), line("b", 1, 1)]));
    // a gap in the ranks
    assert!(!validate_standings(&vec![line("a", 0, 0), line("b", 2, 2)]));
    // a rank past the end
    assert!(!validate_standings(&vec![line("a", 0, 0), line("b", 1, 2)]));
    // a participant twice
    assert!(!validate_standings(&vec![line("a", 0, 0), line("a", 1, 1)]));
}

#[test]
fn contest_defaults_and_getters() {
    let c = Contest::new(vec![line("x", 0, 0)], None, None, None);
    assert_eq!(c.name(), "");
    assert_eq!(c.time_seconds(), 0);
    assert_eq!(c.url(), None);
    assert_eq!(c.standings(), vec![line("x", 0, 0)]);
    let d = Contest::new(vec![], Some("Round 1".to_string()), Some(86400), Some("http://r".to_string()));
    assert_eq!(d.name(), "Round 1");
    assert_eq!(d.time_seconds(), 86400);
    assert_eq!(d.url(), Some("http://r"));
    assert!(d.standings().is_empty());
}

#[test]
fn dataset_reads_by_index_and_checks_order() {
    let list = ContestList::new(vec![
        contest(vec![line("a", 0, 0)], 10),
        contest(vec![line("b", 0, 0)], 10),
        contest(vec![line("c", 0, 0)], 20),
    ]);
    assert_eq!(list.len(), 3);
    assert_eq!(list.get(2).time_seconds, 20);
    assert_eq!(list.get(1).standings, vec![line("b", 0, 0)]);
    assert!(list.is_chronological());
    let late_first = ContestList::new(vec![contest(vec![], 20), contest(vec![], 10)]);
    assert!(!late_first.is_chronological());
    assert!(ContestList::new(vec![]).is_chronological());
}

#[test]
fn history_order_check() {
    assert!(is_history_increasing(&vec![]));
    assert!(is_history_increasing(&vec![ev(0, 1), ev(3, 0), ev(4, 2)]));
    assert!(!is_history_increasing(&vec![ev(0, 1), ev(3, 0), ev(3, 2)]));
    assert!(!is_history_increasing(&vec![ev(5, 1), ev(2, 0)]));
}

#[test]
fn events_are_taken_over_unchanged() {
    let e = multi_skill::systems::PlayerEvent {
        contest_index: 7,
        rating_mu: 1612,
        rating_sig: 201,
        perf_score: 1890,
        place: 3,
    };
    let r = RatingEvent::from_event(e);
    assert_eq!(r, RatingEvent { contest_index: 7, rating_mu: 1612, rating_sig: 201, perf_score: 1890, place: 3 });
    let result = RateResult::from_histories(vec![("p".to_string(), vec![e, e]), ("q".to_string(), vec![])], 42);
    assert_eq!(result.nanos_elapsed, 42);
    assert_eq!(result.n_players(), 2);
    assert_eq!(result.n_total_events(), 2);
    assert_eq!(result.players_events[0].name, "p");
    assert_eq!(result.players_events[0].events[1], r);
    assert!(result.players_events[1].events.is_empty());
}

#[test]
fn tied_pair_is_rated_symmetrically() {
    let c = contest(vec![line("A", 0, 0), line("B", 1, 2), line("C", 1, 2)], 0);
    let (result, _) = run_engine("mmr", vec![c], HashMap::new());
    let a = history(&result, "A");
    let b = history(&result, "B");
    let c = history(&result, "C");
    for h in [a, b, c] {
        assert_eq!(h.events.len(), 1);
        assert_eq!(h.events[0].contest_index, 0);
    }
    assert!(a.events[0].rating_mu > b.events[0].rating_mu);
    assert!(a.events[0].rating_mu > c.events[0].rating_mu);
    assert_eq!(b.events[0].rating_mu, c.events[0].rating_mu);
    assert_eq!(b.events[0].rating_sig, c.events[0].rating_sig);
    assert_eq!(result.n_total_events(), 3);
}

#[test]
fn places_are_the_lowest_ranks_of_the_standings() {
    let standings = vec![line("A", 0, 0), line("B", 1, 2), line("C", 1, 2), line("D", 3, 3)];
    let c = contest(standings.clone(), 0);
    let (result, _) = run_engine("glicko", vec![c.copy()], HashMap::new());
    assert!(result.places_recorded(&c, 0));
    assert_eq!(history(&result, "C").events[0].place, 1);
    assert_eq!(history(&result, "D").events[0].place, 3);
    // the same standings do not describe a contest at another position
    assert!(!result.places_recorded(&c, 1));
    // nor other places
    let moved = contest(vec![line("A", 0, 1), line("B", 0, 1), line("C", 2, 2), line("D", 3, 3)], 0);
    assert!(!result.places_recorded(&moved, 0));
}

#[test]
fn histories_are_strictly_ordered_by_contest() {
    let contests = vec![
        contest(vec![line("A", 0, 0), line("B", 1, 1), line("C", 2, 2)], 0),
        contest(vec![line("B", 0, 0), line("C", 1, 1)], 100),
        contest(vec![line("C", 0, 0), line("A", 1, 1), line("D", 2, 2)], 200),
    ];
    let (result, _) = run_engine("mmr", contests, HashMap::new());
    assert!(result.histories_ordered());
    assert_eq!(result.n_players(), 4);
    assert_eq!(result.n_total_events(), 8);
    let c = history(&result, "C");
    let idx: Vec<usize> = c.events.iter().map(|e| e.contest_index).collect();
    assert_eq!(idx, vec![0, 1, 2]);
    let unordered = RateResult {
        players_events: vec![PlayerHistory { name: "x".to_string(), events: vec![ev(1, 0), ev(1, 0)] }],
        nanos_elapsed: 0,
    };
    assert!(!unordered.histories_ordered());
}

#[test]
fn identical_runs_give_identical_results() {
    let make = || {
        vec![
            contest(vec![line("A", 0, 0), line("B", 1, 2), line("C", 1, 2)], 0),
            contest(vec![line("C", 0, 0), line("A", 1, 1)], 50),
        ]
    };
    let (first, _) = run_engine("mmr", make(), HashMap::new());
    let (second, _) = run_engine("mmr", make(), HashMap::new());
    assert_eq!(first.n_players(), second.n_players());
    for (x, y) in first.players_events.iter().zip(second.players_events.iter()) {
        assert_eq!(x.name, y.name);
        assert_eq!(x.events, y.events);
    }
}

#[test]
fn empty_dataset_leaves_the_pool_unchanged() {
    let mut seed: PlayersByName = HashMap::new();
    seed.insert("old".to_string(), RefCell::new(Player::with_rating(1700.0, 120.0, 0)));
    let (result, players) = run_engine("mmr", vec![], seed);
    assert_eq!(result.n_players(), 1);
    assert_eq!(result.n_total_events(), 0);
    let p = players["old"].borrow();
    assert_eq!(p.approx_posterior.mu, 1700.0);
    assert_eq!(p.approx_posterior.sig, 120.0);
}

#[test]
fn dataset_index_past_the_end_is_a_bounds_error() {
    let list = ContestList::new(vec![contest(vec![line("a", 0, 0)], 5)]);
    assert_eq!(list.try_get(0).ok().unwrap().time_seconds, 5);
    match list.try_get(1) {
        Err(e) => assert_eq!(e, RatingError::Bounds),
        Ok(_) => panic!("expected a bounds error"),
    }
}

#[test]
fn checkpoint_round_trip_keeps_beliefs() {
    let make = || {
        vec![
            contest(vec![line("A", 0, 0), line("B", 1, 1), line("C", 2, 2)], 0),
            contest(vec![line("B", 0, 0), line("A", 1, 2), line("C", 1, 2)], 10),
            contest(vec![line("C", 0, 0), line("D", 1, 1), line("A", 2, 2)], 20),
            contest(vec![line("D", 0, 0), line("B", 1, 1)], 30),
        ]
    };
    let (_, whole) = run_engine("glicko", make(), HashMap::new());
    let mut all = make();
    let rest = all.split_off(2);
    let (_, half) = run_engine("glicko", all, HashMap::new());
    let checkpoint: PlayersByName = half
        .iter()
        .map(|(name, cell)| {
            let p = cell.borrow();
            let r = p.approx_posterior;
            (name.clone(), RefCell::new(Player::with_rating(r.mu, r.sig, p.update_time)))
        })
        .collect();
    let (resumed_result, resumed) = run_engine_from("glicko", rest, checkpoint, 2);
    assert_eq!(resumed.len(), whole.len());
    for (name, cell) in whole.iter() {
        let a = cell.borrow().approx_posterior;
        let b = resumed[name].borrow().approx_posterior;
        assert_eq!(a.mu, b.mu);
        assert_eq!(a.sig, b.sig);
    }
    // histories start afresh after the checkpoint
    assert_eq!(history(&resumed_result, "A").events.len(), 1);
    assert_eq!(history(&resumed_result, "A").events[0].contest_index, 2);
    assert!(resumed_result.histories_ordered());
}

#[test]
fn dataset_is_sorted_by_end_time_keeping_ties_in_order() {
    let contests = vec![
        contest(vec![line("w", 0, 0)], 30),
        contest(vec![line("x", 0, 0)], 10),
        contest(vec![line("y", 0, 0)], 30),
        contest(vec![line("z", 0, 0)], 20),
    ];
    assert_eq!(chronological_order(&contests), vec![1, 3, 0, 2]);
    let list = ContestList::sorted(&contests);
    assert!(list.is_chronological());
    let names: Vec<String> = (0..list.len()).map(|i| list.get(i).standings[0].0.clone()).collect();
    assert_eq!(names, vec!["x", "z", "w", "y"]);
    assert!(chronological_order(&vec![]).is_empty());
}
