use chimenet::matcher::{split_levels, topic_matches};
use chimenet::text::chars_of;

fn levels(topic: &str) -> Vec<String> {
    split_levels(&chars_of(topic)).into_iter().map(|level| level.into_iter().collect()).collect()
}

#[test]
fn single_level_wildcards_match_level_by_level() {
    assert!(topic_matches("/+/chime/+/+", "/alice/chime/abc/ring"));
}

#[test]
fn single_level_wildcards_need_the_same_number_of_levels() {
    assert!(!topic_matches("/+/chime/+/+", "/alice/chime/abc"));
    assert!(!topic_matches("/+/chime/+/+", "/alice/chime/abc/ring/extra"));
}

#[test]
fn multi_level_wildcard_matches_by_prefix() {
    assert!(topic_matches("/alice/#", "/alice/chime/abc/ring"));
    assert!(topic_matches("/alice/#", "/alice/"));
    assert!(!topic_matches("/alice/#", "/bob/chime/abc/ring"));
    assert!(!topic_matches("/alice/#", "/alice"));
}

#[test]
fn equal_strings_always_match() {
    assert!(topic_matches("/alice/chime/list", "/alice/chime/list"));
    assert!(topic_matches("", ""));
    assert!(topic_matches("/+/x", "/+/x"));
    assert!(topic_matches("#", "#"));
}

#[test]
fn a_pattern_without_wildcards_matches_itself_only() {
    assert!(!topic_matches("/alice/chime/list", "/alice/chime/lists"));
    assert!(!topic_matches("/alice/chime/list", "/alice/chime"));
    assert!(!topic_matches("", "/"));
}

#[test]
fn literal_levels_beside_a_wildcard_must_be_equal() {
    assert!(!topic_matches("/+/chime/+/ring", "/alice/chime/abc/response"));
    assert!(!topic_matches("/+/chime/+/+", "/alice/ringer/abc/ring"));
    assert!(topic_matches("/+/chime/+/ring", "/alice/chime/abc/ring"));
}

#[test]
fn a_wildcard_level_matches_an_empty_level() {
    assert!(topic_matches("/+/a", "//a"));
    assert!(topic_matches("+", ""));
}

#[test]
fn a_plus_inside_a_level_is_no_wildcard() {
    assert!(!topic_matches("/a+/b", "/ax/b"));
    assert!(topic_matches("/a+/+", "/a+/b"));
}

#[test]
fn with_a_plus_the_hash_stands_for_itself() {
    assert!(!topic_matches("/+/#", "/alice/chime/abc"));
    assert!(topic_matches("/+/#", "/alice/#"));
    assert!(!topic_matches("/+/#", "/alice/x"));
}

#[test]
fn a_hash_that_is_not_last_is_no_wildcard() {
    assert!(!topic_matches("/#/b", "/a/b"));
    assert!(!topic_matches("/a/#/b", "/a/x/b"));
}

#[test]
fn the_lone_hash_matches_everything() {
    assert!(topic_matches("#", "/alice/chime/abc/ring"));
    assert!(topic_matches("#", ""));
}

#[test]
fn matching_is_repeatable() {
    for _ in 0..3 {
        assert!(topic_matches("/+/chime/+/+", "/alice/chime/abc/ring"));
        assert!(!topic_matches("/+/chime/+/+", "/alice/chime/abc"));
    }
}

#[test]
fn a_topic_is_cut_at_every_slash() {
    assert_eq!(levels("/alice/chime/abc/ring"), vec!["", "alice", "chime", "abc", "ring"]);
    assert_eq!(levels(""), vec![""]);
    assert_eq!(levels("a"), vec!["a"]);
    assert_eq!(levels("a/"), vec!["a", ""]);
    assert_eq!(levels("//"), vec!["", "", ""]);
}

#[test]
fn characters_beyond_ascii_count_as_one() {
    assert!(topic_matches("/+/é", "/ü/é"));
    assert!(topic_matches("/é#", "/éa"));
    assert_eq!(chars_of("é/ü"), vec!['é', '/', 'ü']);
}
