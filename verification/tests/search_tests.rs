//! The capability search: rule ordering, case folding, the edit distance,
//! and the score floor.

use mcp_probe::search::{levenshtein, IndexedItem, SearchCategory, SearchEngine};

fn engine_with(names: &[(&str, &str)]) -> SearchEngine {
    let mut engine = SearchEngine::new();
    for (i, (name, desc)) in names.iter().enumerate() {
        engine.index_item(IndexedItem {
            category: SearchCategory::Tool,
            name: name.to_string(),
            description: desc.to_string(),
            source_index: i,
        });
    }
    engine
}

#[test]
fn exact_name_outranks_prefix_substring_and_fuzzy() {
    let engine = engine_with(&[
        ("addition", "adds many numbers"),
        ("add", "adds two numbers"),
        ("radd", "reverse add"),
        ("subtract", "subtracts numbers"),
    ]);
    let results = engine.search("add", 10);
    assert!(results.len() >= 3);
    assert_eq!(results[0].score, 100);
    assert_eq!(results[0].match_reason, "exact name");
    let item = engine.get_item(results[0].index).unwrap();
    assert_eq!(item.name, "add");
    for r in results.iter().skip(1) {
        assert!(r.score <= 90);
    }
}

#[test]
fn search_is_case_insensitive() {
    let engine = engine_with(&[("Add", "Adds Numbers")]);
    let results = engine.search("ADD", 10);
    assert_eq!(results[0].score, 100);
}

#[test]
fn prefix_beats_substring() {
    let engine = engine_with(&[("pad_add", "x"), ("add_numbers", "y")]);
    let results = engine.search("add", 10);
    assert_eq!(results[0].score, 90);
    assert_eq!(engine.get_item(results[0].index).unwrap().name, "add_numbers");
    assert_eq!(results[1].score, 70);
}

#[test]
fn description_match_scores_fifty() {
    let engine = engine_with(&[("sum", "adds two numbers together")]);
    let results = engine.search("adds", 10);
    assert_eq!(results[0].score, 50);
    assert_eq!(results[0].match_reason, "description");
}

#[test]
fn weak_matches_fall_under_the_floor() {
    let engine = engine_with(&[("completely", "unrelated")]);
    let results = engine.search("zzzzzzzzzz", 10);
    assert!(results.is_empty());
}

#[test]
fn results_honor_the_limit_and_order() {
    let engine = engine_with(&[
        ("list_files", "lists files"),
        ("list_dirs", "lists directories"),
        ("list", "lists everything"),
    ]);
    let results = engine.search("list", 2);
    assert_eq!(results.len(), 2);
    assert!(results[0].score >= results[1].score);
    assert_eq!(results[0].score, 100);
}

#[test]
fn edit_distance_matches_known_values() {
    assert_eq!(levenshtein(b"kitten", b"sitting"), 3);
    assert_eq!(levenshtein(b"", b"abc"), 3);
    assert_eq!(levenshtein(b"same", b"same"), 0);
    assert_eq!(levenshtein(b"flaw", b"lawn"), 2);
}

#[test]
fn fuzzy_matches_close_names() {
    let engine = engine_with(&[("gather", "collects things")]);
    let results = engine.search("gathers", 10);
    assert!(!results.is_empty());
    assert_eq!(results[0].match_reason, "fuzzy");
    assert!(results[0].score <= 40);
}

#[test]
fn search_lists_every_hit_when_the_limit_allows() {
    let engine = engine_with(&[
        ("alpha_list", "lists alphas"),
        ("unrelated", "nothing here"),
        ("beta_list", "lists betas"),
        ("list", "lists everything"),
    ]);
    let results = engine.search("list", 10);
    assert_eq!(results.len(), 3);
    let names: Vec<&str> = results
        .iter()
        .map(|r| engine.get_item(r.index).unwrap().name.as_str())
        .collect();
    assert!(names.contains(&"alpha_list"));
    assert!(names.contains(&"beta_list"));
    assert!(names.contains(&"list"));
}

#[test]
fn equal_scores_keep_earlier_items_first() {
    let engine = engine_with(&[("run_fast", "a"), ("run_slow", "b")]);
    let results = engine.search("run", 10);
    assert_eq!(results.len(), 2);
    assert_eq!(results[0].score, results[1].score);
    assert!(results[0].index < results[1].index);
}
