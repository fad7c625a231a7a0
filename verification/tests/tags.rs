use media_ingest::settings::AutoTagRule;
use media_ingest::tagging::tags_for_path;

fn rule(folder: &str, tags: &str) -> AutoTagRule {
    AutoTagRule {
        folder: String::from(folder),
        tags: String::from(tags),
    }
}

#[test]
fn tags_are_order_stable() {
    let rules = vec![rule("cats", "animal cute"), rule("2024", "recent")];
    let tags = tags_for_path("library/cats/2024/photo.jpg", &rules);
    assert_eq!(tags, vec!["animal", "cute", "recent"]);
}

#[test]
fn tags_are_deduplicated() {
    let rules = vec![rule("cats", "animal"), rule("pets", "animal cute")];
    let tags = tags_for_path("x/cats/pets/photo.jpg", &rules);
    assert_eq!(tags, vec!["animal", "cute"]);
}

#[test]
fn rule_order_sets_tag_order() {
    let rules = vec![rule("b", "two"), rule("a", "one")];
    let tags = tags_for_path("a/b/f.png", &rules);
    assert_eq!(tags, vec!["two", "one"]);
}

#[test]
fn non_matching_rules_contribute_nothing() {
    let rules = vec![rule("dogs", "animal")];
    let tags = tags_for_path("library/cats/photo.jpg", &rules);
    assert!(tags.is_empty());
}

#[test]
fn match_is_exact_and_case_sensitive() {
    let rules = vec![rule("Cats", "a"), rule("cat", "b"), rule("cats", "c")];
    let tags = tags_for_path("library/cats/photo.jpg", &rules);
    assert_eq!(tags, vec!["c"]);
}

#[test]
fn filename_component_does_not_match() {
    let rules = vec![rule("photo.jpg", "a")];
    let tags = tags_for_path("library/cats/photo.jpg", &rules);
    assert!(tags.is_empty());
}

#[test]
fn dot_segments_are_not_components() {
    let rules = vec![rule(".", "a"), rule("..", "b"), rule("cats", "c")];
    let tags = tags_for_path("./../cats/photo.jpg", &rules);
    assert_eq!(tags, vec!["c"]);
}

#[test]
fn blank_runs_split_tags() {
    let rules = vec![rule("cats", "  one \t two\nthree  ")];
    let tags = tags_for_path("cats/photo.jpg", &rules);
    assert_eq!(tags, vec!["one", "two", "three"]);
}

#[test]
fn absolute_path_components_match() {
    let rules = vec![rule("cats", "animal")];
    let tags = tags_for_path("/home/me/cats/photo.jpg", &rules);
    assert_eq!(tags, vec!["animal"]);
}
