use claw10::tui::{
    accordion_tab_name, get_fixed_centered_rect, get_palette_items, parse_markdown_line, provider_api_key_env,
    table_separator_columns, wrap_text, Rect, Tab,
};

#[test]
fn wraps_words_to_width() {
    assert_eq!(wrap_text("the quick brown fox", 9), vec!["the quick", "brown fox"]);
    assert_eq!(wrap_text("a\n\n  \nb c", 10), vec!["a", "", "", "b c"]);
    assert_eq!(wrap_text("supercalifragilistic word", 5), vec!["supercalifragilistic", "word"]);
    assert_eq!(wrap_text("hello", 3), vec!["hello"]);
    assert_eq!(wrap_text("ab hello", 3), vec!["ab", "hello"]);
    assert_eq!(wrap_text("x\r\ny\n", 3), vec!["x", "y"]);
    assert!(wrap_text("", 3).is_empty());
    assert_eq!(wrap_text("tab\tseparated  words", 100), vec!["tab separated words"]);
}

#[test]
fn palette_and_tabs() {
    let items = get_palette_items();
    assert_eq!(items.len(), 10);
    assert_eq!(items[0], ("Suggested".into(), "Switch session".into(), "ctrl+x l".into(), "/session_switch".into()));
    assert_eq!(items[9].0, "System");
    assert_eq!(accordion_tab_name(Tab::SpawnRequests), "Broker");
    assert_eq!(accordion_tab_name(Tab::Costs), "Costs");
}

#[test]
fn key_env_names() {
    assert_eq!(provider_api_key_env("openai"), "OPENAI_API_KEY");
    assert_eq!(provider_api_key_env("github-copilot"), "GITHUB_TOKEN");
    assert_eq!(provider_api_key_env("my-llm"), "MY-LLM_API_KEY");
}

fn spans(text: &str) -> Vec<(String, bool)> {
    parse_markdown_line(text).into_iter().map(|s| (s.text, s.bold)).collect()
}

#[test]
fn markdown_bold_runs() {
    assert_eq!(
        spans("plain **bold** text"),
        vec![("plain ".to_string(), false), ("bold".to_string(), true), (" text".to_string(), false)]
    );
    assert_eq!(spans(""), vec![(String::new(), false)]);
    assert_eq!(spans("**open"), vec![("**open".to_string(), false)]);
    assert_eq!(spans("a**b"), vec![("a".to_string(), false), ("**b".to_string(), false)]);
    assert_eq!(spans("****"), vec![(String::new(), true)]);
    assert_eq!(spans("**a***"), vec![("a".to_string(), true), ("*".to_string(), false)]);
}

#[test]
fn centred_rects_are_clipped() {
    let area = Rect { x: 10, y: 5, width: 100, height: 40 };
    assert_eq!(get_fixed_centered_rect(60, 20, area), Rect { x: 30, y: 15, width: 60, height: 20 });
    assert_eq!(get_fixed_centered_rect(61, 21, area), Rect { x: 29, y: 14, width: 61, height: 21 });
    assert_eq!(get_fixed_centered_rect(200, 80, area), Rect { x: 10, y: 5, width: 100, height: 40 });
}

#[test]
fn table_separators_follow_the_percentages() {
    let area = Rect { x: 2, y: 0, width: 100, height: 10 };
    assert_eq!(table_separator_columns(area, &vec![30, 50, 20]), vec![32, 82]);
    assert_eq!(table_separator_columns(area, &vec![100]), Vec::<u16>::new());
    assert_eq!(table_separator_columns(area, &vec![60, 60, 10]), vec![62]);
    let flat = Rect { x: 2, y: 0, width: 100, height: 2 };
    assert!(table_separator_columns(flat, &vec![30, 70]).is_empty());
}

#[test]
fn wrapping_keeps_words_and_line_breaks() {
    let joined = wrap_text("aa bb cc\ndd ee", 5);
    let mut parts = wrap_text("aa bb cc", 5);
    parts.extend(wrap_text("dd ee", 5));
    assert_eq!(joined, parts);
    let words: Vec<String> = joined.iter().flat_map(|l| l.split_whitespace().map(|w| w.to_string())).collect();
    assert_eq!(words, vec!["aa", "bb", "cc", "dd", "ee"]);
}
