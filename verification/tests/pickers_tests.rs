use claw10::pickers::{
    accordion_header, family_picker_items, home_content_height, palette_rows, provider_picker_items,
    variant_picker_items, workspace_row_label, PaletteRow,
};
use claw10::router::ModelProfile;
use claw10::tui::{get_palette_items, Tab};

fn variant(id: &str, model_name: &str, tags: &[&str]) -> ModelProfile {
    ModelProfile {
        id: id.into(),
        provider: "p".into(),
        model_name: model_name.into(),
        context_window: 8_192,
        max_output_tokens: 1_024,
        cost_per_1m_input: 0,
        cost_per_1m_output: 0,
        suitable_for: tags.iter().map(|t| t.to_string()).collect(),
    }
}

#[test]
fn providers_filter_by_search_ignoring_case() {
    let ps = vec![("OpenAI".to_string(), true), ("Groq".to_string(), false), ("openrouter".to_string(), false)];
    assert_eq!(provider_picker_items(&ps, "OPEN"), vec!["✓ OpenAI", "  openrouter"]);
    assert_eq!(provider_picker_items(&ps, ""), vec!["✓ OpenAI", "  Groq", "  openrouter"]);
    assert!(provider_picker_items(&ps, "xyz").is_empty());
}

#[test]
fn families_start_with_the_manual_entry() {
    let fs = vec!["GPT-4".to_string(), "Llama".to_string()];
    assert_eq!(family_picker_items(&fs, "gpt"), vec!["< Tambah Model Manual >", "GPT-4"]);
    assert_eq!(family_picker_items(&fs, ""), vec!["< Tambah Model Manual >", "GPT-4", "Llama"]);
}

#[test]
fn model_types_match_by_id_name_or_task() {
    let vs = vec![variant("a-1", "Alpha", &["coding"]), variant("b-2", "Beta", &["chat"])];
    assert_eq!(variant_picker_items(&vs, "COD"), vec!["a-1"]);
    assert_eq!(variant_picker_items(&vs, "beta"), vec!["b-2"]);
    assert_eq!(variant_picker_items(&vs, "-"), vec!["a-1", "b-2"]);
    assert_eq!(variant_picker_items(&vs, ""), vec!["a-1", "b-2"]);
    assert!(variant_picker_items(&vs, "zzz").is_empty());
}

#[test]
fn palette_rows_group_by_category() {
    let all = get_palette_items();
    let items = vec![all[0].clone(), all[1].clone(), all[5].clone()];
    let rows = palette_rows(&items, 1, 40);
    assert_eq!(
        rows,
        vec![
            PaletteRow::Spacer,
            PaletteRow::Category(" Suggested".into()),
            PaletteRow::Command {
                label: "  Switch session".into(),
                padding: 12,
                shortcut: "ctrl+x l  ".into(),
                selected: false
            },
            PaletteRow::Command { label: "  New session".into(), padding: 15, shortcut: "ctrl+x n  ".into(), selected: true },
            PaletteRow::Spacer,
            PaletteRow::Category(" Session".into()),
            PaletteRow::Command {
                label: "  Switch session".into(),
                padding: 12,
                shortcut: "ctrl+x l  ".into(),
                selected: false
            },
        ]
    );
    let untitled = vec![("".to_string(), "Go".to_string(), "".to_string(), "/go".to_string())];
    assert_eq!(
        palette_rows(&untitled, 0, 4),
        vec![PaletteRow::Command { label: "  Go".into(), padding: 0, shortcut: "  ".into(), selected: true }]
    );
}

#[test]
fn home_and_sidebar_rows() {
    assert_eq!(home_content_height(6, 3), 21);
    assert_eq!(home_content_height(6, 20), 26);
    assert_eq!(workspace_row_label("alpha", true), format!("▶ alpha{}", " ".repeat(25)));
    assert_eq!(workspace_row_label("alpha", false), format!("  alpha{}", " ".repeat(25)));
    let long = "abcdefghijklmnopqrstuvwxyz0123456789";
    assert_eq!(workspace_row_label(long, false), format!("  {}  ", &long[..28]));
    assert_eq!(accordion_header(Tab::Agents, 3, true), ("▼ ", "Agents [3]".to_string()));
    assert_eq!(accordion_header(Tab::Session, 0, false), ("▶ ", "Session".to_string()));
    assert_eq!(accordion_header(Tab::SpawnRequests, 12, false), ("▶ ", "Broker [12]".to_string()));
}
