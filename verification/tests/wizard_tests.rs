use claw10::setup_wizard::{
    card_left_padding, centered_cursor_x, BindingEvent, FetchOutcome, SetupWizard, Step, WizardAction, WizardKey,
};

fn wizard() -> SetupWizard {
    SetupWizard::new(
        "/tmp/claw10.toml".into(),
        vec![("TELEGRAM_BOT_TOKEN".into(), "t".into()), ("OPENAI_API_KEY".into(), "sk-1".into())],
    )
}

fn typed(w: &mut SetupWizard, text: &str) {
    for c in text.chars() {
        assert_eq!(w.handle_key(WizardKey::Char(c)), WizardAction::Nothing);
    }
}

#[test]
fn wizard_steps_forward_and_back() {
    let mut w = wizard();
    assert!(w.setup_telegram);
    assert_eq!(w.step, Step::Welcome);
    assert_eq!(w.next_step(), WizardAction::Nothing);
    assert_eq!(w.step, Step::ProviderSelect);
    w.next_step();
    w.next_step();
    assert_eq!(w.step, Step::ModelFetch);
    w.prev_step();
    assert_eq!(w.step, Step::ApiKeyInput);
    w.selected = w.providers.len() - 1;
    w.next_step();
    assert_eq!(w.step, Step::BaseUrlInput);
    w.step = Step::TelegramSetupPrompt;
    w.next_step();
    assert_eq!(w.step, Step::TelegramTokenInput);
    assert_eq!(w.next_step(), WizardAction::StartBindingPoll);
    assert_eq!(w.step, Step::TelegramBindingWait);
    w.error_msg = "x".into();
    w.next_step();
    assert_eq!(w.step, Step::Review);
    assert!(w.error_msg.is_empty());
    w.prev_step();
    assert_eq!(w.step, Step::TelegramBindingWait);
}

#[test]
fn wizard_model_lists() {
    let mut w = wizard();
    w.fetched_models = vec!["GPT-4o".into(), "gpt-4o-mini".into(), "llama".into()];
    w.model_search = "gpt".into();
    assert_eq!(w.filtered_models(), vec!["GPT-4o".to_string(), "gpt-4o-mini".to_string()]);
    w.model_search.clear();
    assert_eq!(w.filtered_models().len(), 3);

    let mut w = wizard();
    w.fallback_to_static();
    assert!(w.fetch_failed);
    assert_eq!(w.error_msg, " Input manual.");
    let mut w = wizard();
    w.static_models = vec!["m".into()];
    w.fallback_to_static();
    assert_eq!(w.fetched_models, vec!["m".to_string()]);
    assert_eq!(w.error_msg, " Gunakan daftar statis.");
}

#[test]
fn keys_walk_through_the_wizard() {
    let mut w = wizard();
    assert_eq!(w.handle_key(WizardKey::Char(' ')), WizardAction::Nothing);
    assert_eq!(w.step, Step::ProviderSelect);
    w.handle_key(WizardKey::Down);
    w.handle_key(WizardKey::Right);
    assert_eq!(w.selected, 6);
    w.handle_key(WizardKey::Char('h'));
    w.handle_key(WizardKey::Char('k'));
    assert_eq!(w.selected, 0);
    w.handle_key(WizardKey::Up);
    assert_eq!(w.selected, 0);
    w.handle_key(WizardKey::Enter);
    assert_eq!(w.step, Step::ApiKeyInput);
    assert_eq!(w.api_key, "sk-1");
    w.handle_key(WizardKey::Backspace);
    typed(&mut w, "2x");
    w.handle_key(WizardKey::Backspace);
    assert_eq!(w.api_key, "sk-2");
    w.handle_key(WizardKey::Enter);
    assert_eq!(w.step, Step::ModelFetch);
    assert_eq!(w.handle_key(WizardKey::Enter), WizardAction::Nothing);
    assert_eq!(w.step, Step::ModelFetch);

    let fetch = w.prepare_fetch(vec!["static-model".into()]);
    assert_eq!(fetch, Some(("https://api.openai.com/v1".to_string(), "sk-2".to_string())));
    w.finish_fetch(FetchOutcome::Models(vec!["gpt-4o".into(), "gpt-4o-mini".into(), "o3".into()]));
    w.leave_model_fetch();
    assert_eq!(w.step, Step::ModelList);
    typed(&mut w, "4o");
    w.handle_key(WizardKey::Down);
    w.handle_key(WizardKey::Down);
    assert_eq!(w.model_list_selected, 1);
    w.handle_key(WizardKey::Enter);
    assert_eq!(w.custom_model, "gpt-4o-mini");
    assert_eq!(w.step, Step::TelegramSetupPrompt);

    w.handle_key(WizardKey::Char('y'));
    assert_eq!(w.step, Step::TelegramTokenInput);
    w.handle_key(WizardKey::Backspace);
    assert_eq!(w.handle_key(WizardKey::Enter), WizardAction::Nothing);
    assert_eq!(w.error_msg, "Masukkan token bot Telegram atau tekan Esc.");
    typed(&mut w, "123:abc");
    assert!(w.error_msg.is_empty());
    assert_eq!(w.handle_key(WizardKey::Enter), WizardAction::StartBindingPoll);
    assert_eq!(w.step, Step::TelegramBindingWait);

    w.begin_binding(-1_234_567_008);
    assert_eq!(w.binding_code, "567008");
    assert_eq!(w.binding_status, "Buka Telegram Anda, cari bot Anda, lalu kirim pesan /start...");
    assert_eq!(w.handle_key(WizardKey::Enter), WizardAction::Nothing);
    w.handle_binding_event(BindingEvent::ChatDetected { username: "ana".into(), chat_id: "42".into() });
    assert_eq!(w.binding_status, "Ditemukan chat dari @ana! Kirim kode verifikasi ke bot: 567008");
    assert_eq!(
        w.handle_binding_event(BindingEvent::CodeMatched { chat_id: "42".into() }),
        WizardAction::ShowThenAdvance
    );
    w.next_step();
    assert_eq!(w.step, Step::Review);
    assert_eq!(w.telegram_settings(), ("123:abc".to_string(), "42".to_string()));
    assert_eq!(w.config_model(&vec![]), "gpt-4o-mini");

    assert_eq!(w.handle_key(WizardKey::Enter), WizardAction::SaveConfig);
    assert_eq!(w.after_save(Err("disk full".into())), WizardAction::Nothing);
    assert_eq!(w.error_msg, "Gagal menyimpan: disk full");
    assert_eq!(w.step, Step::Review);
    w.after_save(Ok(()));
    assert_eq!(w.step, Step::Complete);
    assert_eq!(w.handle_key(WizardKey::Other), WizardAction::Quit);
}

#[test]
fn wizard_edge_keys() {
    let mut w = wizard();
    w.handle_key(WizardKey::Char('q'));
    assert_eq!(w.step, Step::Complete);

    let mut w = wizard();
    w.step = Step::ProviderSelect;
    w.handle_key(WizardKey::Char('S'));
    assert_eq!(w.step, Step::Review);
    w.handle_key(WizardKey::Esc);
    assert_eq!(w.step, Step::TelegramBindingWait);
    assert_eq!(w.handle_key(WizardKey::Esc), WizardAction::StopBindingPoll);
    assert_eq!(w.step, Step::TelegramTokenInput);

    let mut w = wizard();
    w.selected = w.providers.len() - 1;
    w.step = Step::BaseUrlInput;
    w.handle_key(WizardKey::Enter);
    assert_eq!(w.error_msg, "Base URL tidak boleh kosong.");
    assert_eq!(w.step, Step::BaseUrlInput);
    assert_eq!(w.prepare_fetch(vec![]), None);
    assert!(w.fetch_failed);
    assert_eq!(w.error_msg, "Tidak ada daftar model. Input manual.");
    w.leave_model_fetch();
    assert_eq!(w.step, Step::ModelSelect);
    w.handle_key(WizardKey::Enter);
    assert_eq!(w.error_msg, "Masukkan nama model.");

    let mut w = wizard();
    w.step = Step::ModelList;
    w.fetched_models = vec!["a".into()];
    typed(&mut w, "zz");
    w.handle_key(WizardKey::Enter);
    assert_eq!(w.custom_model, "zz");
    let mut w = wizard();
    w.step = Step::ModelList;
    w.handle_key(WizardKey::Tab);
    assert_eq!(w.step, Step::ModelSelect);
    assert_eq!(w.error_msg, "Beralih ke input manual.");

    let mut w = wizard();
    w.finish_fetch(FetchOutcome::Failed("timeout".into()));
    assert_eq!(w.error_msg, "Gagal fetch API: timeout. Input manual.");
    let mut w = wizard();
    w.static_models = vec!["s".into()];
    w.finish_fetch(FetchOutcome::Panicked);
    assert_eq!(w.error_msg, "Thread fetch panic. Gunakan daftar statis.");
    assert_eq!(w.fetched_models, vec!["s".to_string()]);

    let mut w = wizard();
    w.begin_binding(7);
    assert_eq!(w.binding_code, "000007");
    w.telegram_chat_id = "9".into();
    w.begin_binding(1_000_000);
    assert_eq!(w.binding_code, "000000");
    assert_eq!(
        w.binding_status,
        "Sudah terhubung (Chat ID: 9). Tekan Enter untuk lanjut, atau kirim /start untuk pairing ulang."
    );
    w.handle_binding_event(BindingEvent::Error("boom".into()));
    assert_eq!(w.error_msg, "boom");
    w.setup_telegram = false;
    assert_eq!(w.telegram_settings(), (String::new(), String::new()));
}

#[test]
fn saved_model_falls_back_in_order() {
    let mut w = wizard();
    assert_eq!(w.config_model(&vec!["static".into()]), "static");
    assert_eq!(w.config_model(&vec![]), "");
    w.fetched_models = vec!["x".into(), "gpt-4o".into()];
    assert_eq!(w.config_model(&vec![]), "gpt-4o");
    w.selected = 3;
    assert_eq!(w.config_model(&vec![]), "x");
    w.custom_model = "mine".into();
    assert_eq!(w.config_model(&vec![]), "mine");
}

#[test]
fn footer_hints_follow_the_step() {
    let mut w = wizard();
    assert_eq!(w.footer_hint(), "Enter/Space: mulai  |  q/Esc: keluar");
    w.step = Step::TelegramBindingWait;
    assert_eq!(w.footer_hint(), "Kirim /start ke bot lalu ketik kode verifikasi  |  Esc: kembali");
    w.telegram_chat_id = "42".into();
    assert_eq!(w.footer_hint(), "Kirim /start untuk pairing baru  |  Enter: lanjut  |  Esc: kembali");
    w.step = Step::Review;
    assert_eq!(w.footer_hint(), "Enter: simpan  |  Esc: kembali");
}

#[test]
fn the_key_box_hides_the_key() {
    let mut w = wizard();
    assert_eq!(w.api_key_display(), " (input hidden — ketik API key Anda)");
    w.api_key = "sk-1".into();
    assert_eq!(w.api_key_display(), "****");
    w.api_key = "x".repeat(50);
    assert_eq!(w.api_key_display(), "*".repeat(40));
    w.api_key = "é".into();
    assert_eq!(w.api_key_display(), "**");
}

fn row(a: &str, b: &str) -> (String, String) {
    (a.to_string(), b.to_string())
}

#[test]
fn the_review_lists_the_settings() {
    let mut w = wizard();
    assert_eq!(
        w.review_rows(),
        vec![
            row("  Provider:    ", "OpenAI"),
            row("  Model:       ", ""),
            row("  API Key:     ", "(env var)"),
            row("  Base URL:    ", "https://api.openai.com/v1"),
            row("", ""),
            row("  Telegram:    ", "Aktif"),
            row("  Tele Token:  ", "********"),
            row("", ""),
            row("  File config: ", "/tmp/claw10.toml"),
            row("", ""),
            row("  Tekan Enter untuk menyimpan, Esc untuk kembali", ""),
        ]
    );
    w.telegram_chat_id = "42".into();
    w.api_key = "k".into();
    w.custom_model = "gpt-4o".into();
    let rows = w.review_rows();
    assert_eq!(rows[1], row("  Model:       ", "gpt-4o"));
    assert_eq!(rows[2], row("  API Key:     ", "********"));
    assert_eq!(rows[7], row("  Chat ID:     ", "42"));
    assert_eq!(rows.len(), 12);
    w.setup_telegram = false;
    w.selected = w.providers.len() - 1;
    w.custom_url = "http://local/v1".into();
    let rows = w.review_rows();
    assert_eq!(rows[3], row("  Base URL:    ", "http://local/v1"));
    assert_eq!(rows[5], row("  Telegram:    ", "Non-aktif"));
    assert_eq!(rows.len(), 10);
}

#[test]
fn cards_and_cursors_are_centered() {
    assert_eq!(card_left_padding(100, 60), 20);
    assert_eq!(card_left_padding(50, 60), 0);
    assert_eq!(centered_cursor_x(10, 40, 4), 32);
    assert_eq!(centered_cursor_x(10, 40, 100), 49);
    assert_eq!(centered_cursor_x(0, 0, 0), 0);
}
