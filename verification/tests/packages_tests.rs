use aegis::packages::{rank_by_score, PackageManager};
use fuzzy_matcher::skim::SkimMatcherV2;
use fuzzy_matcher::FuzzyMatcher;

fn names(v: &[&str]) -> Vec<String> {
    v.iter().map(|s| s.to_string()).collect()
}

fn manager() -> PackageManager {
    PackageManager::new(names(&["vim", "neovim", "firefox", "fish", "git"]), names(&["git"]))
}

#[test]
fn new_splits_available_and_selected() {
    let m = manager();
    assert_eq!(m.get_available_packages(), names(&["firefox", "fish", "neovim", "vim"]));
    assert_eq!(m.get_selected_packages(), names(&["git"]));
    assert!(m.contains_available("vim"));
    assert!(!m.contains_available("git"));
    assert!(m.contains_selected("git"));
}

#[test]
fn preselected_names_missing_from_the_list_are_ignored() {
    let m = PackageManager::new(names(&["a", "b"]), names(&["zzz"]));
    assert_eq!(m.get_available_packages(), names(&["a", "b"]));
    assert!(m.get_selected_packages().is_empty());
}

#[test]
fn select_then_unselect_restores_the_lists() {
    let mut m = manager();
    assert!(m.move_to_selected("vim"));
    assert!(!m.contains_available("vim"));
    assert!(m.contains_selected("vim"));
    assert!(m.move_to_available("vim"));
    assert_eq!(m.get_available_packages(), names(&["firefox", "fish", "neovim", "vim"]));
    assert_eq!(m.get_selected_packages(), names(&["git"]));
}

#[test]
fn moving_an_unknown_package_changes_nothing() {
    let mut m = manager();
    assert!(!m.move_to_selected("emacs"));
    assert!(!m.move_to_available("vim"));
    assert_eq!(m.get_available_packages(), names(&["firefox", "fish", "neovim", "vim"]));
    assert_eq!(m.get_selected_packages(), names(&["git"]));
}

#[test]
fn current_available_without_search_is_the_sorted_list() {
    let m = manager();
    assert_eq!(m.get_current_available(), names(&["firefox", "fish", "neovim", "vim"]));
}

fn expected_ranking(pool: &[&str], pattern: &str) -> Vec<String> {
    let matcher = SkimMatcherV2::default();
    let mut scored: Vec<(String, i64)> = pool
        .iter()
        .filter_map(|p| matcher.fuzzy_match(p, pattern).map(|s| (p.to_string(), s)))
        .collect();
    scored.sort_by(|a, b| b.1.cmp(&a.1).then(a.0.cmp(&b.0)));
    scored.into_iter().map(|(n, _)| n).collect()
}

#[test]
fn search_ranks_matches_by_score() {
    let mut m = manager();
    let found = m.get_available_filtered("vim");
    assert_eq!(found, expected_ranking(&["firefox", "fish", "neovim", "vim"], "vim"));
    assert!(found.contains(&"vim".to_string()));
    assert!(found.contains(&"neovim".to_string()));
    assert!(!found.contains(&"firefox".to_string()));
    assert_eq!(m.get_current_available(), found);
}

#[test]
fn search_with_empty_pattern_keeps_everything_by_name() {
    let mut m = manager();
    assert_eq!(m.get_available_filtered(""), names(&["firefox", "fish", "neovim", "vim"]));
}

#[test]
fn repeated_search_reuses_results() {
    let mut m = manager();
    let first = m.get_available_filtered("fi");
    let second = m.get_available_filtered("fi");
    assert_eq!(first, second);
    assert_eq!(first, expected_ranking(&["firefox", "fish", "neovim", "vim"], "fi"));
}

#[test]
fn selected_package_leaves_search_results_and_comes_back() {
    let mut m = manager();
    let before = m.get_available_filtered("fi");
    assert!(before.contains(&"fish".to_string()));
    assert!(m.move_to_selected("fish"));
    assert!(!m.get_current_available().contains(&"fish".to_string()));
    assert!(m.move_to_available("fish"));
    assert_eq!(m.get_current_available(), before);
}

#[test]
fn ranking_puts_higher_scores_first_and_ties_by_name() {
    let pairs = vec![
        ("b".to_string(), (0usize, 5i64)),
        ("a".to_string(), (1usize, 5i64)),
        ("c".to_string(), (2usize, 9i64)),
    ];
    assert_eq!(rank_by_score(&pairs), names(&["c", "a", "b"]));
}

#[test]
fn ranking_of_nothing_is_empty() {
    assert!(rank_by_score(&Vec::new()).is_empty());
}

#[test]
fn search_after_moves_answers_as_a_fresh_search() {
    let mut m = manager();
    let _ = m.get_available_filtered("i");
    assert!(m.move_to_selected("vim"));
    assert!(m.move_to_available("git"));
    let held = m.get_current_available();
    let again = m.get_available_filtered("i");
    assert_eq!(held, again);
    let mut fresh = PackageManager::new(names(&["vim", "neovim", "firefox", "fish", "git"]), names(&["vim"]));
    assert_eq!(fresh.get_available_filtered("i"), held);
    for p in &held {
        assert!(!m.contains_selected(p));
    }
}
