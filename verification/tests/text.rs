use rainze_core::text::{chars_of, contains, matches_at};

fn chars(s: &str) -> Vec<char> {
    s.chars().collect()
}

#[test]
fn chars_of_keeps_every_character_in_order() {
    assert_eq!(chars_of("zoom"), vec!['z', 'o', 'o', 'm']);
    assert_eq!(chars_of(""), Vec::<char>::new());
    assert_eq!(chars_of("飞书 ok"), vec!['飞', '书', ' ', 'o', 'k']);
}

#[test]
fn contains_finds_a_pattern_at_the_start_in_the_middle_and_at_the_end() {
    assert!(contains(&chars("zoomcast_helper"), &chars("zoom")));
    assert!(contains(&chars("ms-teams.exe"), &chars("teams")));
    assert!(contains(&chars("my_slack"), &chars("slack")));
    assert!(contains(&chars("webex"), &chars("webex")));
}

#[test]
fn contains_rejects_a_pattern_that_does_not_occur() {
    assert!(!contains(&chars("explorer"), &chars("zoom")));
    assert!(!contains(&chars("zo om"), &chars("zoom")));
    assert!(!contains(&chars("zooz"), &chars("zoom")));
    assert!(!contains(&chars("team"), &chars("teams")));
}

#[test]
fn contains_needs_the_characters_side_by_side_and_in_order() {
    assert!(!contains(&chars("mooz"), &chars("zoom")));
    assert!(!contains(&chars("z-o-o-m"), &chars("zoom")));
    assert!(contains(&chars("zozoom"), &chars("zoom")));
    assert!(contains(&chars("aab"), &chars("ab")));
}

#[test]
fn contains_is_case_sensitive() {
    assert!(!contains(&chars("Zoom"), &chars("zoom")));
    assert!(!contains(&chars("zoom"), &chars("Zoom")));
}

#[test]
fn the_empty_pattern_occurs_in_every_text() {
    assert!(contains(&chars("bash"), &chars("")));
    assert!(contains(&chars(""), &chars("")));
}

#[test]
fn a_pattern_longer_than_the_text_does_not_occur() {
    assert!(!contains(&chars("zoo"), &chars("zoom")));
    assert!(!contains(&chars(""), &chars("z")));
}

#[test]
fn contains_agrees_with_the_standard_library() {
    let texts = ["", "a", "zoom", "Zoom.exe", "wemeetapp", "飞书feishu", "aaab", "abab"];
    let patterns = ["", "a", "ab", "zoom", "oom", "feishu", "书f", "b", "bab", "aab"];
    for text in texts {
        for pattern in patterns {
            assert_eq!(contains(&chars(text), &chars(pattern)), text.contains(pattern));
        }
    }
}

#[test]
fn matches_at_compares_at_the_given_position_only() {
    let text = chars("dingtalk");
    assert!(matches_at(&text, &chars("ding"), 0));
    assert!(matches_at(&text, &chars("talk"), 4));
    assert!(!matches_at(&text, &chars("talk"), 3));
    assert!(!matches_at(&text, &chars("ding"), 1));
    assert!(matches_at(&text, &chars(""), 8));
}
