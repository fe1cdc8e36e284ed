use gem_scout::Config;
use gem_scout::Player;
use gem_scout::find_gems;
use gem_scout::passes_filter;
use gem_scout::rank;

fn player(name: &str, age: u8, value: u64, potential: u8, position: &str) -> Player {
    Player {
        name: String::from(name),
        age,
        club: String::from("FC Test"),
        nationality: String::from("Testland"),
        position: String::from(position),
        value,
        wage: 10_000,
        current_ability: 120,
        potential_ability: potential,
        finishing: 18,
        first_touch: 16,
        passing: 10,
        technique: 10,
        dribbling: 10,
        tackling: 10,
        decisions: 10,
        anticipation: 10,
        composure: 14,
        vision: 10,
        work_rate: 10,
        acceleration: 17,
        pace: 18,
        stamina: 10,
        strength: 10,
        jumping: 10,
    }
}

fn config() -> Config {
    Config::from_millions(23, 5, 130, String::from("ST"))
}

#[test]
fn from_millions_converts_to_base_units() {
    let cfg = config();
    assert_eq!(cfg.max_age, 23);
    assert_eq!(cfg.max_value, 5_000_000);
    assert_eq!(cfg.min_potential, 130);
    assert_eq!(cfg.target_position, "ST");
}

#[test]
fn filter_requires_all_four_clauses() {
    let cfg = config();
    let keeper = player("ok", 20, 2_000_000, 150, "ST");
    let too_old = player("old", 24, 2_000_000, 150, "ST");
    let too_dear = player("dear", 20, 5_000_001, 150, "ST");
    let too_raw = player("raw", 20, 2_000_000, 129, "ST");
    let wrong_spot = player("spot", 20, 2_000_000, 150, "CB");
    assert!(passes_filter(&keeper, &cfg));
    assert!(!passes_filter(&too_old, &cfg));
    assert!(!passes_filter(&too_dear, &cfg));
    assert!(!passes_filter(&too_raw, &cfg));
    assert!(!passes_filter(&wrong_spot, &cfg));
}

#[test]
fn filter_bounds_are_inclusive() {
    let cfg = config();
    let edge = player("edge", 23, 5_000_000, 130, "ST");
    assert!(passes_filter(&edge, &cfg));
}

#[test]
fn substring_position_matches() {
    let cfg = config();
    let wide = player("wide", 20, 2_000_000, 150, "AM, ST");
    assert!(passes_filter(&wide, &cfg));
    let gems = find_gems(vec![wide], &cfg);
    assert_eq!(gems.len(), 1);
    assert_eq!(gems[0].name, "wide");
}

#[test]
fn substring_match_is_case_insensitive() {
    let cfg = config();
    let low = player("low", 20, 2_000_000, 150, "am, st");
    assert!(passes_filter(&low, &cfg));
    let other = Config::from_millions(23, 5, 130, String::from("st"));
    let up = player("up", 20, 2_000_000, 150, "AM, ST");
    assert!(passes_filter(&up, &other));
}

#[test]
fn no_survivors_yields_empty_result() {
    let cfg = config();
    let records = vec![
        player("old", 30, 2_000_000, 150, "ST"),
        player("spot", 20, 2_000_000, 150, "GK"),
    ];
    let gems = find_gems(records, &cfg);
    assert!(gems.is_empty());
}

#[test]
fn end_to_end_shortlist() {
    let cfg = config();
    let record_a = player("Record A", 20, 2_000_000, 150, "ST");
    let record_b = player("Record B", 25, 1_000_000, 160, "ST");
    let gems = find_gems(vec![record_a, record_b], &cfg);
    assert_eq!(gems.len(), 1);
    assert_eq!(gems[0].name, "Record A");
}

#[test]
fn ranking_is_non_increasing_in_score() {
    let cfg = config();
    let records = vec![
        player("low", 20, 2_000_000, 140, "ST"),
        player("high", 20, 2_000_000, 170, "ST"),
        player("mid", 20, 2_000_000, 155, "ST"),
    ];
    let gems = find_gems(records, &cfg);
    assert_eq!(gems.len(), 3);
    for pair in gems.windows(2) {
        assert!(pair[0].calculate_score("ST") >= pair[1].calculate_score("ST"));
    }
    assert_eq!(gems[0].name, "high");
    assert_eq!(gems[1].name, "mid");
    assert_eq!(gems[2].name, "low");
}

#[test]
fn rank_keeps_every_record() {
    let records = vec![
        player("a", 20, 2_000_000, 140, "ST"),
        player("b", 31, 9_000_000, 170, "CB"),
        player("c", 27, 4_000_000, 155, "CM"),
    ];
    let ranked = rank(records, "cm");
    assert_eq!(ranked.len(), 3);
    let mut names: Vec<&str> = ranked.iter().map(|p| p.name.as_str()).collect();
    names.sort();
    assert_eq!(names, vec!["a", "b", "c"]);
}

#[test]
fn rank_of_empty_set_is_empty() {
    let ranked = rank(Vec::new(), "ST");
    assert!(ranked.is_empty());
}

#[test]
fn equal_scores_both_survive() {
    let cfg = config();
    let twin_a = player("twin a", 20, 2_000_000, 150, "ST");
    let twin_b = player("twin b", 20, 2_000_000, 150, "ST");
    let gems = find_gems(vec![twin_a, twin_b], &cfg);
    assert_eq!(gems.len(), 2);
    let mut names: Vec<&str> = gems.iter().map(|p| p.name.as_str()).collect();
    names.sort();
    assert_eq!(names, vec!["twin a", "twin b"]);
}
