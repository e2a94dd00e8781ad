use claw10::chat_view::{
    active_model_label, bubble_height, bubble_wrap_widths, chat_content_height, chat_input_lines, chat_scroll,
    command_description, command_suggestion_label, eq_ignore_ascii_case, input_box_height, model_provider_label,
    model_suggestion_label, picker_window, place_bubble, spinner_frame, status_label, status_spacer_len,
    approval_lines, assistant_label, input_cursor, show_sidebar, tool_bubble_header, model_list_header,
    model_list_notes, model_search_query, suggestion_panel_height, suggestion_window,
    BubblePlacement,
};
use claw10::router::ModelProfile;

fn profile(id: &str, model_name: &str, provider: &str) -> ModelProfile {
    ModelProfile {
        id: id.into(),
        provider: provider.into(),
        model_name: model_name.into(),
        context_window: 8_192,
        max_output_tokens: 1_024,
        cost_per_1m_input: 0,
        cost_per_1m_output: 0,
        suitable_for: vec![],
    }
}

#[test]
fn names_compare_ignoring_ascii_case() {
    assert!(eq_ignore_ascii_case("TOOL", "tool"));
    assert!(eq_ignore_ascii_case("System", "sYSTEM"));
    assert!(eq_ignore_ascii_case("tööl", "TööL"));
    assert!(!eq_ignore_ascii_case("Ä", "ä"));
    assert!(!eq_ignore_ascii_case("tool", "tools"));
    assert!(!eq_ignore_ascii_case("a[", "A{"));
}

#[test]
fn spinner_cycles_through_ten_frames() {
    assert_eq!(spinner_frame(0), "⠋");
    assert_eq!(spinner_frame(13), "⠸");
    assert_eq!(spinner_frame(9), "⠏");
    assert_eq!(status_label(false, 4), "TUI");
    assert_eq!(status_label(true, 1), "TUI ⠙ Merespons...");
}

#[test]
fn suggestion_window_follows_the_selection() {
    assert_eq!(suggestion_window(25, 0), (0, 10));
    assert_eq!(suggestion_window(25, 12), (3, 13));
    assert_eq!(suggestion_window(25, 24), (15, 25));
    assert_eq!(suggestion_window(12, 11), (2, 12));
    assert_eq!(suggestion_window(5, 3), (0, 5));
    assert_eq!(suggestion_window(0, 0), (0, 0));
}

#[test]
fn picker_window_keeps_the_selection_in_sight() {
    assert_eq!(picker_window(0, 5, 3), (0, 3));
    assert_eq!(picker_window(7, 5, 20), (3, 8));
    assert_eq!(picker_window(2, 0, 10), (3, 3));
}

#[test]
fn scrolling_clamps_and_follows_the_bottom() {
    assert_eq!(chat_scroll(50, 20, 5, false), (5, 25));
    assert_eq!(chat_scroll(50, 20, 100, false), (30, 0));
    assert_eq!(chat_scroll(50, 20, 5, true), (5, 30));
    assert_eq!(chat_scroll(10, 20, 7, false), (0, 0));
}

#[test]
fn bubbles_are_placed_against_the_viewport() {
    assert_eq!(place_bubble(0, 3, 5, 10), BubblePlacement::Above);
    assert_eq!(place_bubble(4, 4, 5, 10), BubblePlacement::Shown { offset: 0, height: 3, skip: 1 });
    assert_eq!(place_bubble(10, 5, 5, 10), BubblePlacement::Shown { offset: 5, height: 5, skip: 0 });
    assert_eq!(place_bubble(20, 4, 5, 10), BubblePlacement::Below);
    assert_eq!(place_bubble(7, 0, 5, 10), BubblePlacement::Hidden);
    assert_eq!(place_bubble(70_000, 2, 0, 10), BubblePlacement::Below);
    assert_eq!(place_bubble(65_538, 3, 0, 10), BubblePlacement::Shown { offset: 2, height: 8, skip: 0 });
}

#[test]
fn bubble_heights_count_wrapped_lines() {
    assert_eq!(bubble_wrap_widths(40), (34, 30));
    assert_eq!(bubble_wrap_widths(8), (2, 1));
    assert_eq!(bubble_wrap_widths(5), (1, 1));
    assert_eq!(bubble_height("tool", "x", false, 10, 10), 1);
    assert_eq!(bubble_height("Tool", "a b c", true, 10, 3), 4);
    assert_eq!(bubble_height("USER", "hello world", false, 5, 100), 4);
    assert_eq!(bubble_height("system", "hello world", false, 100, 5), 3);
    assert_eq!(bubble_height("assistant", "", false, 10, 10), 3);
}

#[test]
fn history_height_adds_bubbles_and_the_status() {
    let history = vec![
        ("user".to_string(), "".to_string(), "hi".to_string()),
        ("tool".to_string(), "shell".to_string(), "run".to_string()),
        ("bot".to_string(), "m".to_string(), "a b".to_string()),
    ];
    assert_eq!(chat_content_height(&history, false, 10, 10, true), 9);
    assert_eq!(chat_content_height(&history, true, 10, 10, false), 9);
    assert_eq!(chat_content_height(&vec![], false, 10, 10, false), 0);
}

#[test]
fn input_lines_wrap_or_show_the_hint() {
    assert_eq!(chat_input_lines("", Some("ws"), 40), vec!["  [ws] Ketik pesan di sini..."]);
    assert_eq!(chat_input_lines("", None, 40), vec!["  Ketik pesan di sini..."]);
    assert_eq!(chat_input_lines("hello world", None, 12), vec!["  hello", "  world"]);
}

#[test]
fn suggestion_panel_heights() {
    assert_eq!(suggestion_panel_height("hi", 5, 0), 0);
    assert_eq!(suggestion_panel_height("/he", 2, 0), 5);
    assert_eq!(suggestion_panel_height("/x", 0, 0), 0);
    assert_eq!(suggestion_panel_height("/model", 4, 0), 7);
    assert_eq!(suggestion_panel_height("/model gpt", 25, 0), 14);
    assert_eq!(suggestion_panel_height("/model", 25, 12), 15);
    assert_eq!(suggestion_panel_height("/model", 25, 24), 14);
    assert_eq!(input_box_height(2, 5, true), 13);
    assert_eq!(input_box_height(1, 0, false), 3);
}

#[test]
fn status_line_spacing() {
    assert_eq!(status_spacer_len(200, "TUI", "gpt-4o", "openai", false), 100);
    assert_eq!(status_spacer_len(200, "TUI", "gpt-4o", "openai", true), 98);
    assert_eq!(status_spacer_len(50, "TUI", "gpt-4o", "openai", false), 1);
}

#[test]
fn the_active_model_is_found_by_name_or_id() {
    let ps = vec![profile("a", "m1", "p1"), profile("b", "m2", "p2")];
    assert_eq!(active_model_label(&vec![], "x"), ("Belum Dikonfigurasi".to_string(), "None".to_string()));
    assert_eq!(active_model_label(&ps, "b"), ("m2".to_string(), "p2".to_string()));
    assert_eq!(active_model_label(&ps, "m1"), ("m1".to_string(), "p1".to_string()));
    assert_eq!(active_model_label(&ps, "zzz"), ("m1".to_string(), "p1".to_string()));
    assert_eq!(model_provider_label(&ps, "b"), " (p2)");
    assert_eq!(model_provider_label(&ps, "zz"), " (Unknown)");
    assert_eq!(model_provider_label(&vec![], "a"), " (Unknown)");
}

#[test]
fn command_suggestions_are_described() {
    assert_eq!(command_description("/model "), "   - Ganti model aktif secara cepat");
    assert_eq!(command_description("/he"), "         - Tampilkan daftar perintah lengkap");
    assert_eq!(command_description("/q"), "            - Keluar dari aplikasi TUI");
    assert_eq!(command_description("/"), "   - Ganti model aktif secara cepat");
    assert_eq!(command_description("/x"), "");
    assert_eq!(command_suggestion_label("/help", true), " >  /help          ");
    assert_eq!(command_suggestion_label("/model ", false), "    /model <id>    ");
    assert_eq!(model_suggestion_label("gpt", false, "gpt"), format!(" ✓  gpt{}", " ".repeat(22)));
    assert_eq!(model_suggestion_label("gpt", true, "gpt"), format!(" >  gpt{}", " ".repeat(22)));
    assert_eq!(model_suggestion_label("gpt", false, "x"), format!("    gpt{}", " ".repeat(22)));
}

#[test]
fn the_model_list_header_shows_search_and_window() {
    assert_eq!(model_search_query("/model"), "");
    assert_eq!(model_search_query("/model "), "");
    assert_eq!(model_search_query("/model  gpt "), "gpt");
    assert_eq!(model_list_header("", 0, 0), "   [Select Model]---------------------------------");
    assert_eq!(model_list_header("", 25, 12), "   [Select Model]  4 - 13 dari 25 ---------------------------------");
    assert_eq!(
        model_list_header("gpt", 3, 0),
        "   [Select Model]  Cari: 'gpt' | 1 - 3 dari 3 ---------------------------------"
    );
    assert_eq!(
        model_list_notes(25, 12),
        (Some("     ▲ (Ada 3 model sebelumnya...)".to_string()), Some("     ▼ (Ada 12 model lainnya...)".to_string()))
    );
    assert_eq!(model_list_notes(5, 0), (None, None));
}

#[test]
fn chat_screen_details() {
    assert!(show_sidebar(90));
    assert!(!show_sidebar(89));
    assert_eq!(tool_bubble_header("shell", "x", true), "Tool: shell (F3/Ctrl+G to collapse)");
    assert_eq!(tool_bubble_header("shell", "proses selesai", false), "Tool: shell ✓ (F3/Ctrl+G to expand)");
    assert_eq!(tool_bubble_header("shell", "running", false), "Tool: shell ▶ (F3/Ctrl+G to expand)");
    assert_eq!(assistant_label("gpt", 2, 3, true), "gpt (Merespons...)");
    assert_eq!(assistant_label("gpt", 1, 3, true), "gpt");
    assert_eq!(assistant_label("gpt", 2, 3, false), "gpt");
    assert_eq!(
        approval_lines("shell", "ls -la"),
        vec![
            "  ⚠️  PERSETUJUAN EKSEKUSI SHELL: shell".to_string(),
            "     $ ls -la".to_string(),
            String::new(),
            "     Ketik di form input: :approve / :approve always / :deny".to_string(),
        ]
    );
    assert_eq!(input_cursor(3, 10, true, 0, 1, 5), (5, 15));
    assert_eq!(input_cursor(3, 10, false, 7, 2, 5), (10, 16));
}
