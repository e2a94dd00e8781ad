//! The setup wizard: its steps, the provider it configures, and how each
//! key moves it on. Drawing the screens and talking to the network are
//! left to the program that runs it.
use vstd::prelude::*;
use crate::text::{
    frac_digits, has_infix, lowercase_text, push_char, push_frac_digits, str_contains, str_equal, to_lowercase_string,
};
use crate::tui::strings_view;

verus! {

// ----- setup wizard -----
/// A provider the setup wizard offers.
pub struct ProviderOption {
    pub name: String,
    pub slot: String,
    pub env_var: String,
    pub base_url: String,
}

fn option(name: &str, slot: &str, env_var: &str, base_url: &str) -> (o: ProviderOption)
    ensures
        o.name@ == name@ && o.slot@ == slot@ && o.env_var@ == env_var@ && o.base_url@ == base_url@,
{
    ProviderOption {
        name: String::from_str(name),
        slot: String::from_str(slot),
        env_var: String::from_str(env_var),
        base_url: String::from_str(base_url),
    }
}

/// The providers the wizard offers, in order, each as its name, slot,
/// key variable and base URL; the last is a custom provider, whose base
/// URL the user gives.
pub open spec fn wizard_table() -> Seq<(Seq<char>, Seq<char>, Seq<char>, Seq<char>)> {
    seq![
        ("OpenAI"@, "openai"@, "OPENAI_API_KEY"@, "https://api.openai.com/v1"@),
        ("Anthropic"@, "anthropic"@, "ANTHROPIC_API_KEY"@, "https://api.anthropic.com/v1"@),
        ("Google Gemini"@, "google-gemini"@, "GEMINI_API_KEY"@, "https://generativelanguage.googleapis.com/v1beta/openai"@),
        ("DeepSeek"@, "deepseek"@, "DEEPSEEK_API_KEY"@, "https://api.deepseek.com"@),
        ("Mistral AI"@, "mistral"@, "MISTRAL_API_KEY"@, "https://api.mistral.ai/v1"@),
        ("Cohere"@, "cohere"@, "COHERE_API_KEY"@, "https://api.cohere.com/v1"@),
        ("Groq"@, "groq"@, "GROQ_API_KEY"@, "https://api.groq.com/openai/v1"@),
        ("Perplexity"@, "perplexity"@, "PERPLEXITY_API_KEY"@, "https://api.perplexity.ai"@),
        ("xAI"@, "xai"@, "XAI_API_KEY"@, "https://api.x.ai/v1"@),
        ("NVIDIA NIM"@, "nvidia"@, "NVIDIA_API_KEY"@, "https://integrate.api.nvidia.com/v1"@),
        ("Together AI"@, "together"@, "TOGETHER_API_KEY"@, "https://api.together.xyz/v1"@),
        ("Fireworks AI"@, "fireworks"@, "FIREWORKS_API_KEY"@, "https://api.fireworks.ai/inference/v1"@),
        ("Ollama (Local)"@, "ollama"@, "OLLAMA_API_KEY"@, "http://localhost:11434/v1"@),
        ("OpenRouter"@, "openrouter"@, "OPENROUTER_API_KEY"@, "https://openrouter.ai/api/v1"@),
        ("Custom Provider"@, "custom"@, "CUSTOM_API_KEY"@, ""@),
    ]
}

/// The option's name, slot, key variable and base URL.
pub open spec fn option_view(o: ProviderOption) -> (Seq<char>, Seq<char>, Seq<char>, Seq<char>) {
    (o.name@, o.slot@, o.env_var@, o.base_url@)
}

/// The providers the wizard offers.
pub fn wizard_providers() -> (v: Vec<ProviderOption>)
    ensures
        v@.len() == wizard_table().len(),
        forall|i: int| 0 <= i < v@.len() ==> option_view(#[trigger] v@[i]) == wizard_table()[i],
{
    let mut v: Vec<ProviderOption> = Vec::new();
    v.push(option("OpenAI", "openai", "OPENAI_API_KEY", "https://api.openai.com/v1"));
    v.push(option("Anthropic", "anthropic", "ANTHROPIC_API_KEY", "https://api.anthropic.com/v1"));
    v.push(
        option(
            "Google Gemini",
            "google-gemini",
            "GEMINI_API_KEY",
            "https://generativelanguage.googleapis.com/v1beta/openai",
        ),
    );
    v.push(option("DeepSeek", "deepseek", "DEEPSEEK_API_KEY", "https://api.deepseek.com"));
    v.push(option("Mistral AI", "mistral", "MISTRAL_API_KEY", "https://api.mistral.ai/v1"));
    v.push(option("Cohere", "cohere", "COHERE_API_KEY", "https://api.cohere.com/v1"));
    v.push(option("Groq", "groq", "GROQ_API_KEY", "https://api.groq.com/openai/v1"));
    v.push(option("Perplexity", "perplexity", "PERPLEXITY_API_KEY", "https://api.perplexity.ai"));
    v.push(option("xAI", "xai", "XAI_API_KEY", "https://api.x.ai/v1"));
    v.push(option("NVIDIA NIM", "nvidia", "NVIDIA_API_KEY", "https://integrate.api.nvidia.com/v1"));
    v.push(option("Together AI", "together", "TOGETHER_API_KEY", "https://api.together.xyz/v1"));
    v.push(option("Fireworks AI", "fireworks", "FIREWORKS_API_KEY", "https://api.fireworks.ai/inference/v1"));
    v.push(option("Ollama (Local)", "ollama", "OLLAMA_API_KEY", "http://localhost:11434/v1"));
    v.push(option("OpenRouter", "openrouter", "OPENROUTER_API_KEY", "https://openrouter.ai/api/v1"));
    v.push(option("Custom Provider", "custom", "CUSTOM_API_KEY", ""));
    v
}

/// The steps of the setup wizard.
#[derive(Clone, Copy, Debug, PartialEq, Eq, Structural)]
pub enum Step {
    Welcome,
    ProviderSelect,
    ApiKeyInput,
    BaseUrlInput,
    ModelFetch,
    ModelList,
    ModelSelect,
    TelegramSetupPrompt,
    TelegramTokenInput,
    TelegramBindingWait,
    Review,
    Complete,
}

/// The step after `s`: custom providers ask for a base URL, the Telegram
/// steps only run when Telegram is being set up.
pub open spec fn step_after(s: Step, is_custom: bool, telegram: bool) -> Step {
    match s {
        Step::Welcome => Step::ProviderSelect,
        Step::ProviderSelect => Step::ApiKeyInput,
        Step::ApiKeyInput => if is_custom {
            Step::BaseUrlInput
        } else {
            Step::ModelFetch
        },
        Step::BaseUrlInput => Step::ModelFetch,
        Step::ModelList | Step::ModelSelect => Step::TelegramSetupPrompt,
        Step::TelegramSetupPrompt => if telegram {
            Step::TelegramTokenInput
        } else {
            Step::Review
        },
        Step::TelegramTokenInput => Step::TelegramBindingWait,
        Step::TelegramBindingWait => Step::Review,
        _ => Step::Complete,
    }
}

/// The step before `s`.
pub open spec fn step_before(s: Step, is_custom: bool, telegram: bool, have_models: bool) -> Step {
    match s {
        Step::Welcome => Step::Welcome,
        Step::ProviderSelect => Step::Welcome,
        Step::ApiKeyInput => Step::ProviderSelect,
        Step::BaseUrlInput => Step::ApiKeyInput,
        Step::ModelList | Step::ModelFetch | Step::ModelSelect => if is_custom {
            Step::BaseUrlInput
        } else {
            Step::ApiKeyInput
        },
        Step::TelegramSetupPrompt => if have_models {
            Step::ModelList
        } else {
            Step::ModelSelect
        },
        Step::TelegramTokenInput => Step::TelegramSetupPrompt,
        Step::TelegramBindingWait => Step::TelegramTokenInput,
        Step::Review => if telegram {
            Step::TelegramBindingWait
        } else {
            Step::TelegramSetupPrompt
        },
        Step::Complete => Step::Complete,
    }
}

/// The first-run setup wizard's state.
pub struct SetupWizard {
    pub step: Step,
    pub providers: Vec<ProviderOption>,
    pub selected: usize,
    pub api_key: String,
    pub custom_model: String,
    pub custom_url: String,
    pub config_path: String,
    pub error_msg: String,
    pub scroll: usize,
    pub fetched_models: Vec<String>,
    pub static_models: Vec<String>,
    pub model_search: String,
    pub model_list_selected: usize,
    pub fetch_failed: bool,
    pub setup_telegram: bool,
    pub telegram_token: String,
    pub telegram_chat_id: String,
    pub binding_code: String,
    pub binding_status: String,
    /// Variables already configured, in the order they were read; a later
    /// one overrides an earlier one of the same name.
    pub configured_env_vars: Vec<(String, String)>,
}

/// The value of the last pair with that name.
pub open spec fn last_value(pairs: Seq<(String, String)>, name: Seq<char>) -> Option<Seq<char>>
    decreases pairs.len(),
{
    if pairs.len() == 0 {
        None
    } else if pairs.last().0@ == name {
        Some(pairs.last().1@)
    } else {
        last_value(pairs.drop_last(), name)
    }
}

fn last_value_exec(pairs: &Vec<(String, String)>, name: &str) -> (r: String)
    ensures
        r@ == match last_value(pairs@, name@) {
            Some(v) => v,
            None => Seq::empty(),
        },
{
    let mut k: usize = pairs.len();
    assert(pairs@.subrange(0, k as int) =~= pairs@);
    while k > 0
        invariant
            k <= pairs@.len(),
            last_value(pairs@, name@) == last_value(pairs@.subrange(0, k as int), name@),
        decreases k,
    {
        assert(pairs@.subrange(0, k as int).drop_last() =~= pairs@.subrange(0, k - 1));
        if str_equal(pairs[k - 1].0.as_str(), name) {
            return pairs[k - 1].1.clone();
        }
        k = k - 1;
    }
    String::new()
}

/// The models whose lowercased name contains the lowercased search, in
/// order; all of them for an empty search.
pub open spec fn models_matching(models: Seq<Seq<char>>, search: Seq<char>) -> Seq<Seq<char>>
    decreases models.len(),
{
    if models.len() == 0 {
        Seq::empty()
    } else if search.len() == 0 || has_infix(lowercase_text(models.last()), lowercase_text(search)) {
        models_matching(models.drop_last(), search).push(models.last())
    } else {
        models_matching(models.drop_last(), search)
    }
}

/// A key press, as the wizard sees it.
#[derive(Clone, Copy, Debug, PartialEq, Eq, Structural)]
pub enum WizardKey {
    Enter,
    Esc,
    Up,
    Down,
    Left,
    Right,
    Tab,
    Backspace,
    Function(u8),
    Char(char),
    Other,
}

/// What the wizard asks of the loop that runs it.
#[derive(Clone, Copy, Debug, PartialEq, Eq, Structural)]
pub enum WizardAction {
    Nothing,
    /// Start polling Telegram for the binding of the bot.
    StartBindingPoll,
    /// Stop polling Telegram.
    StopBindingPoll,
    /// Save the configuration, then report how it went.
    SaveConfig,
    /// Show the wizard once more, pause, then move on.
    ShowThenAdvance,
    /// The wizard is done.
    Quit,
}

/// Is the selected provider the custom one?
pub open spec fn custom_selected(w: SetupWizard) -> bool {
    w.providers@[w.selected as int].slot@ == "custom"@
}

/// `b` is `a` moved on one step: only the step differs, with the error
/// cleared and the scroll reset.
pub open spec fn advanced(a: SetupWizard, b: SetupWizard) -> bool {
    &&& b == (SetupWizard {
        step: step_after(a.step, custom_selected(a), a.setup_telegram),
        error_msg: b.error_msg,
        scroll: 0,
        ..a
    })
    &&& b.error_msg@.len() == 0
}

/// `b` is `a` moved back one step.
pub open spec fn went_back(a: SetupWizard, b: SetupWizard) -> bool {
    &&& b == (SetupWizard {
        step: step_before(a.step, custom_selected(a), a.setup_telegram, a.fetched_models@.len() > 0),
        error_msg: b.error_msg,
        scroll: 0,
        ..a
    })
    &&& b.error_msg@.len() == 0
}

/// What moving on from `a` asks: the binding poll starts when the token
/// input is left.
pub open spec fn advance_action(a: SetupWizard) -> WizardAction {
    if a.step == Step::TelegramTokenInput {
        WizardAction::StartBindingPoll
    } else {
        WizardAction::Nothing
    }
}

/// A text after an editing key: a character appended, or the last one
/// removed.
pub open spec fn edited(t: Seq<char>, key: WizardKey) -> Seq<char> {
    match key {
        WizardKey::Char(c) => t.push(c),
        WizardKey::Backspace => if t.len() > 0 {
            t.drop_last()
        } else {
            t
        },
        _ => t,
    }
}

/// Does the key edit a text field?
pub open spec fn is_edit(key: WizardKey) -> bool {
    key is Char || key is Backspace
}

/// `b` shows an error message `msg` and is otherwise `a`.
pub open spec fn with_error(a: SetupWizard, b: SetupWizard, msg: Seq<char>) -> bool {
    b == (SetupWizard { error_msg: b.error_msg, ..a }) && b.error_msg@ == msg
}

/// The key stored for the selected provider's variable, or nothing.
pub open spec fn configured_key(w: SetupWizard) -> Seq<char> {
    match last_value(w.configured_env_vars@, w.providers@[w.selected as int].env_var@) {
        Some(v) => v,
        None => Seq::empty(),
    }
}

/// The welcome screen: Enter or space starts, Esc or `q` ends.
pub open spec fn welcome_effect(a: SetupWizard, b: SetupWizard, key: WizardKey, act: WizardAction) -> bool {
    if key == WizardKey::Enter || key == WizardKey::Char(' ') {
        advanced(a, b) && act == advance_action(a)
    } else if key == WizardKey::Esc || key == WizardKey::Char('q') {
        b == (SetupWizard { step: Step::Complete, ..a }) && act == WizardAction::Nothing
    } else {
        b == a && act == WizardAction::Nothing
    }
}

/// The provider list, shown in columns of five: arrows (or `hjkl`) move
/// the selection, Enter takes the provider with its stored key, Esc goes
/// back, Tab or `s` skips to the review.
pub open spec fn provider_select_effect(a: SetupWizard, b: SetupWizard, key: WizardKey, act: WizardAction) -> bool {
    let n = a.providers@.len();
    if key == WizardKey::Up || key == WizardKey::Char('k') {
        b == (SetupWizard { selected: if a.selected >= 1 { (a.selected - 1) as usize } else { 0 }, ..a })
            && act == WizardAction::Nothing
    } else if key == WizardKey::Down || key == WizardKey::Char('j') {
        b == (SetupWizard { selected: if a.selected + 1 < n { (a.selected + 1) as usize } else { a.selected }, ..a })
            && act == WizardAction::Nothing
    } else if key == WizardKey::Left || key == WizardKey::Char('h') {
        b == (SetupWizard { selected: if a.selected >= 5 { (a.selected - 5) as usize } else { 0 }, ..a })
            && act == WizardAction::Nothing
    } else if key == WizardKey::Right || key == WizardKey::Char('l') {
        b == (SetupWizard { selected: if a.selected + 5 < n { (a.selected + 5) as usize } else { a.selected }, ..a })
            && act == WizardAction::Nothing
    } else if key == WizardKey::Enter {
        advanced(SetupWizard { api_key: b.api_key, ..a }, b) && b.api_key@ == configured_key(a) && act
            == advance_action(a)
    } else if key == WizardKey::Esc {
        went_back(a, b) && act == WizardAction::Nothing
    } else if key == WizardKey::Tab || key == WizardKey::Char('s') || key == WizardKey::Char('S') {
        b == (SetupWizard { step: Step::Review, ..a }) && act == WizardAction::Nothing
    } else {
        b == a && act == WizardAction::Nothing
    }
}

/// A text input: Enter moves on (or shows `empty_msg` when the text is
/// empty and `empty_msg` is given), Esc goes back, other keys edit the
/// text, which `field` reads, clearing the error.
pub open spec fn text_input_effect(
    a: SetupWizard,
    b: SetupWizard,
    key: WizardKey,
    act: WizardAction,
    field: spec_fn(SetupWizard) -> Seq<char>,
    empty_msg: Option<Seq<char>>,
) -> bool {
    if key == WizardKey::Enter {
        if field(a).len() == 0 && empty_msg is Some {
            with_error(a, b, empty_msg->0) && act == WizardAction::Nothing
        } else {
            advanced(a, b) && act == advance_action(a)
        }
    } else if key == WizardKey::Esc {
        went_back(a, b) && act == WizardAction::Nothing
    } else if is_edit(key) {
        field(b) == edited(field(a), key) && b.error_msg@.len() == 0 && act == WizardAction::Nothing
    } else {
        b == a && act == WizardAction::Nothing
    }
}

/// The models of the list screen: the fetched ones matching the search.
pub open spec fn listed_models(w: SetupWizard) -> Seq<Seq<char>> {
    models_matching(strings_view(w.fetched_models@), w.model_search@)
}

/// The model Enter picks on the list screen: the search itself when
/// nothing matches it, else the selected match, else the model already
/// chosen.
pub open spec fn picked_model(w: SetupWizard) -> Seq<char> {
    let listed = listed_models(w);
    if w.model_search@.len() > 0 && listed.len() == 0 {
        w.model_search@
    } else if listed.len() > 0 {
        listed[w.model_list_selected as int]
    } else {
        w.custom_model@
    }
}

/// The model list: arrows (or `jk`) move the selection, Enter picks a
/// model and moves on when there is one, Esc goes back, typing edits the
/// search and selects the first match, Tab or F2 switches to manual
/// input.
pub open spec fn model_list_effect(a: SetupWizard, b: SetupWizard, key: WizardKey, act: WizardAction) -> bool {
    let listed = listed_models(a);
    if key == WizardKey::Up || key == WizardKey::Char('k') {
        b == (SetupWizard {
            model_list_selected: if a.model_list_selected > 0 {
                (a.model_list_selected - 1) as usize
            } else {
                0
            },
            ..a
        }) && act == WizardAction::Nothing
    } else if key == WizardKey::Down || key == WizardKey::Char('j') {
        b == (SetupWizard {
            model_list_selected: if a.model_list_selected + 1 < listed.len() {
                (a.model_list_selected + 1) as usize
            } else {
                a.model_list_selected
            },
            ..a
        }) && act == WizardAction::Nothing
    } else if key == WizardKey::Enter {
        &&& b.custom_model@ == picked_model(a)
        &&& if picked_model(a).len() > 0 {
            advanced(SetupWizard { custom_model: b.custom_model, ..a }, b) && act == advance_action(a)
        } else {
            b == (SetupWizard { custom_model: b.custom_model, ..a }) && act == WizardAction::Nothing
        }
    } else if key == WizardKey::Esc {
        went_back(a, b) && act == WizardAction::Nothing
    } else if is_edit(key) {
        b == (SetupWizard { model_search: b.model_search, model_list_selected: 0, ..a }) && b.model_search@
            == edited(a.model_search@, key) && act == WizardAction::Nothing
    } else if key == WizardKey::Tab || key == WizardKey::Function(2) {
        with_error(SetupWizard { step: Step::ModelSelect, ..a }, b, "Beralih ke input manual."@) && act
            == WizardAction::Nothing
    } else {
        b == a && act == WizardAction::Nothing
    }
}

/// Whether to set up Telegram: `y` or `n` decides and moves on, Enter
/// moves on as decided before, Esc goes back.
pub open spec fn telegram_prompt_effect(a: SetupWizard, b: SetupWizard, key: WizardKey, act: WizardAction) -> bool {
    if key == WizardKey::Char('y') || key == WizardKey::Char('Y') {
        advanced(SetupWizard { setup_telegram: true, ..a }, b) && act == advance_action(a)
    } else if key == WizardKey::Char('n') || key == WizardKey::Char('N') {
        advanced(SetupWizard { setup_telegram: false, ..a }, b) && act == advance_action(a)
    } else if key == WizardKey::Enter {
        advanced(a, b) && act == advance_action(a)
    } else if key == WizardKey::Esc {
        went_back(a, b) && act == WizardAction::Nothing
    } else {
        b == a && act == WizardAction::Nothing
    }
}

/// Waiting for the bot's binding: Esc stops the poll and goes back, Enter
/// moves on once a chat is known.
pub open spec fn binding_wait_effect(a: SetupWizard, b: SetupWizard, key: WizardKey, act: WizardAction) -> bool {
    if key == WizardKey::Esc {
        went_back(a, b) && act == WizardAction::StopBindingPoll
    } else if key == WizardKey::Enter && a.telegram_chat_id@.len() > 0 {
        advanced(a, b) && act == advance_action(a)
    } else {
        b == a && act == WizardAction::Nothing
    }
}

/// The review: Enter asks for the configuration to be saved, Esc goes
/// back.
pub open spec fn review_effect(a: SetupWizard, b: SetupWizard, key: WizardKey, act: WizardAction) -> bool {
    if key == WizardKey::Enter {
        b == a && act == WizardAction::SaveConfig
    } else if key == WizardKey::Esc {
        went_back(a, b) && act == WizardAction::Nothing
    } else {
        b == a && act == WizardAction::Nothing
    }
}

/// The API key input; an empty key may be skipped.
pub open spec fn api_key_effect(a: SetupWizard, b: SetupWizard, key: WizardKey, act: WizardAction) -> bool {
    &&& text_input_effect(a, b, key, act, |w: SetupWizard| w.api_key@, None)
    &&& is_edit(key) ==> b == (SetupWizard { api_key: b.api_key, error_msg: b.error_msg, ..a })
}

/// The base URL input of a custom provider; it may not stay empty.
pub open spec fn base_url_effect(a: SetupWizard, b: SetupWizard, key: WizardKey, act: WizardAction) -> bool {
    &&& text_input_effect(a, b, key, act, |w: SetupWizard| w.custom_url@, Some("Base URL tidak boleh kosong."@))
    &&& is_edit(key) ==> b == (SetupWizard { custom_url: b.custom_url, error_msg: b.error_msg, ..a })
}

/// The manual model input; it may not stay empty.
pub open spec fn model_name_effect(a: SetupWizard, b: SetupWizard, key: WizardKey, act: WizardAction) -> bool {
    &&& text_input_effect(a, b, key, act, |w: SetupWizard| w.custom_model@, Some("Masukkan nama model."@))
    &&& is_edit(key) ==> b == (SetupWizard { custom_model: b.custom_model, error_msg: b.error_msg, ..a })
}

/// The bot token input; it may not stay empty.
pub open spec fn token_effect(a: SetupWizard, b: SetupWizard, key: WizardKey, act: WizardAction) -> bool {
    &&& text_input_effect(
        a,
        b,
        key,
        act,
        |w: SetupWizard| w.telegram_token@,
        Some("Masukkan token bot Telegram atau tekan Esc."@),
    )
    &&& is_edit(key) ==> b == (SetupWizard { telegram_token: b.telegram_token, error_msg: b.error_msg, ..a })
}

/// What a key does at the wizard's current step.
pub open spec fn key_effect(a: SetupWizard, b: SetupWizard, key: WizardKey, act: WizardAction) -> bool {
    match a.step {
        Step::Welcome => welcome_effect(a, b, key, act),
        Step::ProviderSelect => provider_select_effect(a, b, key, act),
        Step::ApiKeyInput => api_key_effect(a, b, key, act),
        Step::BaseUrlInput => base_url_effect(a, b, key, act),
        Step::ModelList => model_list_effect(a, b, key, act),
        Step::ModelSelect => model_name_effect(a, b, key, act),
        Step::TelegramSetupPrompt => telegram_prompt_effect(a, b, key, act),
        Step::TelegramTokenInput => token_effect(a, b, key, act),
        Step::TelegramBindingWait => binding_wait_effect(a, b, key, act),
        Step::Review => review_effect(a, b, key, act),
        Step::Complete => b == a && act == WizardAction::Quit,
        Step::ModelFetch => b == a && act == WizardAction::Nothing,
    }
}

/// What a wizard must hold for a key to be handled: a provider is
/// selected, and on the list screen the selection is one of the matches
/// when there are any.
pub open spec fn key_ready(w: SetupWizard) -> bool {
    &&& w.selected < w.providers@.len()
    &&& w.step == Step::ModelList ==> (listed_models(w).len() > 0 ==> w.model_list_selected < listed_models(w).len())
}

/// What the Telegram polling reports while the bot is being bound.
pub enum BindingEvent {
    ChatDetected { username: String, chat_id: String },
    CodeMatched { chat_id: String },
    Error(String),
}

/// How fetching the provider's model list ended.
pub enum FetchOutcome {
    Models(Vec<String>),
    Failed(String),
    Panicked,
}

/// The six-digit code a user sends the bot: the last six decimal digits
/// of the clock's nanoseconds, zero-padded.
pub open spec fn binding_code_text(now_nanos: i64) -> Seq<char> {
    let magnitude: int = if now_nanos >= 0 {
        now_nanos as int
    } else {
        -now_nanos
    };
    frac_digits((magnitude % 1_000_000) as nat, 6)
}

/// The status shown while waiting for the binding.
pub open spec fn binding_wait_status(chat_id: Seq<char>) -> Seq<char> {
    if chat_id.len() > 0 {
        "Sudah terhubung (Chat ID: "@ + chat_id
            + "). Tekan Enter untuk lanjut, atau kirim /start untuk pairing ulang."@
    } else {
        "Buka Telegram Anda, cari bot Anda, lalu kirim pesan /start..."@
    }
}

/// The base URL models are fetched from: the provider's, or the custom
/// one when the provider has none.
pub open spec fn fetch_base_url(w: SetupWizard) -> Seq<char> {
    let u = w.providers@[w.selected as int].base_url@;
    if u.len() == 0 {
        w.custom_url@
    } else {
        u
    }
}

/// The model a provider slot prefers when none was picked.
pub open spec fn preferred_model(slot: Seq<char>) -> Seq<char> {
    if slot == "nvidia"@ {
        "meta/llama-3.3-70b-instruct"@
    } else if slot == "openai"@ {
        "gpt-4o"@
    } else if slot == "google-gemini"@ {
        "gemini-1.5-flash"@
    } else if slot == "deepseek"@ {
        "deepseek-chat"@
    } else if slot == "groq"@ {
        "llama-3.3-70b-versatile"@
    } else if slot == "ollama"@ {
        "llama3"@
    } else {
        Seq::empty()
    }
}

/// The model the configuration is saved with: the one picked; else the
/// slot's preferred model when it was fetched; else the first fetched
/// model; else the first static one; else none.
pub open spec fn config_model_text(w: SetupWizard, static_list: Seq<Seq<char>>) -> Seq<char> {
    let preferred = preferred_model(w.providers@[w.selected as int].slot@);
    let fetched = strings_view(w.fetched_models@);
    if w.custom_model@.len() > 0 {
        w.custom_model@
    } else if preferred.len() > 0 && fetched.contains(preferred) {
        preferred
    } else if fetched.len() > 0 {
        fetched[0]
    } else if static_list.len() > 0 {
        static_list[0]
    } else {
        Seq::empty()
    }
}

fn preferred_model_exec(slot: &str) -> (r: &'static str)
    ensures
        r@ == preferred_model(slot@),
{
    if str_equal(slot, "nvidia") {
        "meta/llama-3.3-70b-instruct"
    } else if str_equal(slot, "openai") {
        "gpt-4o"
    } else if str_equal(slot, "google-gemini") {
        "gemini-1.5-flash"
    } else if str_equal(slot, "deepseek") {
        "deepseek-chat"
    } else if str_equal(slot, "groq") {
        "llama-3.3-70b-versatile"
    } else if str_equal(slot, "ollama") {
        "llama3"
    } else {
        let r = "";
        proof {
            reveal_strlit("");
        }
        r
    }
}

fn contains_string(v: &Vec<String>, x: &str) -> (r: bool)
    ensures
        r == strings_view(v@).contains(x@),
{
    let mut k: usize = 0;
    while k < v.len()
        invariant
            k <= v@.len(),
            forall|j: int| 0 <= j < k ==> v@[j]@ != x@,
        decreases v.len() - k,
    {
        if str_equal(v[k].as_str(), x) {
            assert(strings_view(v@)[k as int] == x@);
            return true;
        }
        k = k + 1;
    }
    proof {
        if strings_view(v@).contains(x@) {
            let j = choose|j: int| 0 <= j < strings_view(v@).len() && strings_view(v@)[j] == x@;
            assert(v@[j]@ == x@);
        }
    }
    false
}

fn copy_strings(v: &Vec<String>) -> (r: Vec<String>)
    ensures
        r@ == v@,
{
    let mut out: Vec<String> = Vec::new();
    let mut i: usize = 0;
    while i < v.len()
        invariant
            i <= v@.len(),
            out@ == v@.subrange(0, i as int),
        decreases v.len() - i,
    {
        out.push(v[i].clone());
        assert(out@ =~= v@.subrange(0, i + 1));
        i = i + 1;
    }
    assert(v@.subrange(0, i as int) =~= v@);
    out
}

/// `b` is `a` after a failed fetch noted as `msg`: the static list is
/// used when there is one, else manual input is chosen.
pub open spec fn fell_back(a: SetupWizard, b: SetupWizard, msg: Seq<char>) -> bool {
    &&& b == (SetupWizard {
        fetched_models: b.fetched_models,
        error_msg: b.error_msg,
        fetch_failed: b.fetch_failed,
        ..a
    })
    &&& if a.static_models@.len() > 0 {
        &&& b.fetched_models@ == a.static_models@
        &&& b.error_msg@ == msg + " Gunakan daftar statis."@
        &&& b.fetch_failed == a.fetch_failed
    } else {
        &&& b.fetched_models == a.fetched_models
        &&& b.fetch_failed
        &&& b.error_msg@ == msg + " Input manual."@
    }
}

fn pop_char(s: &mut String)
    ensures
        final(s)@ == edited(old(s)@, WizardKey::Backspace),
{
    let n = s.unicode_len();
    if n > 0 {
        let t = String::from_str(s.substring_char(0, n - 1));
        *s = t;
        assert(s@ =~= old(s)@.drop_last());
    }
}

fn edit_text(s: &mut String, key: WizardKey)
    requires
        is_edit(key),
    ensures
        final(s)@ == edited(old(s)@, key),
{
    match key {
        WizardKey::Char(c) => push_char(s, c),
        _ => pop_char(s),
    }
}

impl SetupWizard {
    /// A wizard at its first step, with the provider list, writing to
    /// `config_path`; Telegram setup is on when a bot token is already
    /// configured.
    pub fn new(config_path: String, configured_env_vars: Vec<(String, String)>) -> (w: SetupWizard)
        ensures
            w.step == Step::Welcome,
            w.selected == 0,
            w.providers@.len() == wizard_table().len(),
            forall|i: int| 0 <= i < w.providers@.len() ==> option_view(#[trigger] w.providers@[i]) == wizard_table()[i],
            w.config_path == config_path,
            w.telegram_token@ == (match last_value(configured_env_vars@, "TELEGRAM_BOT_TOKEN"@) {
                Some(v) => v,
                None => Seq::empty(),
            }),
            w.telegram_chat_id@ == (match last_value(configured_env_vars@, "TELEGRAM_CHAT_ID"@) {
                Some(v) => v,
                None => Seq::empty(),
            }),
            w.setup_telegram == (w.telegram_token@.len() > 0),
            w.fetched_models@.len() == 0 && w.static_models@.len() == 0 && !w.fetch_failed,
            w.api_key@.len() == 0 && w.custom_model@.len() == 0 && w.custom_url@.len() == 0,
            w.error_msg@.len() == 0 && w.model_search@.len() == 0,
            w.binding_code@.len() == 0 && w.binding_status@.len() == 0,
            w.scroll == 0 && w.model_list_selected == 0,
            w.configured_env_vars == configured_env_vars,
    {
        let telegram_token = last_value_exec(&configured_env_vars, "TELEGRAM_BOT_TOKEN");
        let telegram_chat_id = last_value_exec(&configured_env_vars, "TELEGRAM_CHAT_ID");
        let setup_telegram = telegram_token.unicode_len() > 0;
        SetupWizard {
            step: Step::Welcome,
            providers: wizard_providers(),
            selected: 0,
            api_key: String::new(),
            custom_model: String::new(),
            custom_url: String::new(),
            config_path,
            error_msg: String::new(),
            scroll: 0,
            fetched_models: Vec::new(),
            static_models: Vec::new(),
            model_search: String::new(),
            model_list_selected: 0,
            fetch_failed: false,
            setup_telegram,
            telegram_token,
            telegram_chat_id,
            binding_code: String::new(),
            binding_status: String::new(),
            configured_env_vars,
        }
    }

    /// The provider currently selected.
    pub fn current_provider(&self) -> (p: &ProviderOption)
        requires
            self.selected < self.providers@.len(),
        ensures
            *p == self.providers@[self.selected as int],
    {
        &self.providers[self.selected]
    }

    /// Moves to the next step, clearing the error and the scroll. Leaving
    /// the token input asks for the Telegram binding poll to start.
    pub fn next_step(&mut self) -> (act: WizardAction)
        requires
            old(self).selected < old(self).providers@.len(),
        ensures
            advanced(*old(self), *final(self)),
            act == advance_action(*old(self)),
    {
        let is_custom = str_equal(self.current_provider().slot.as_str(), "custom");
        let act = if self.step == Step::TelegramTokenInput {
            WizardAction::StartBindingPoll
        } else {
            WizardAction::Nothing
        };
        self.step = match self.step {
            Step::Welcome => Step::ProviderSelect,
            Step::ProviderSelect => Step::ApiKeyInput,
            Step::ApiKeyInput => if is_custom {
                Step::BaseUrlInput
            } else {
                Step::ModelFetch
            },
            Step::BaseUrlInput => Step::ModelFetch,
            Step::ModelList | Step::ModelSelect => Step::TelegramSetupPrompt,
            Step::TelegramSetupPrompt => if self.setup_telegram {
                Step::TelegramTokenInput
            } else {
                Step::Review
            },
            Step::TelegramTokenInput => Step::TelegramBindingWait,
            Step::TelegramBindingWait => Step::Review,
            _ => Step::Complete,
        };
        self.error_msg = String::new();
        self.scroll = 0;
        act
    }

    /// Moves to the previous step, clearing the error and the scroll.
    pub fn prev_step(&mut self)
        requires
            old(self).selected < old(self).providers@.len(),
        ensures
            went_back(*old(self), *final(self)),
    {
        let is_custom = str_equal(self.current_provider().slot.as_str(), "custom");
        self.step = match self.step {
            Step::Welcome => Step::Welcome,
            Step::ProviderSelect => Step::Welcome,
            Step::ApiKeyInput => Step::ProviderSelect,
            Step::BaseUrlInput => Step::ApiKeyInput,
            Step::ModelList | Step::ModelFetch | Step::ModelSelect => if is_custom {
                Step::BaseUrlInput
            } else {
                Step::ApiKeyInput
            },
            Step::TelegramSetupPrompt => if self.fetched_models.len() > 0 {
                Step::ModelList
            } else {
                Step::ModelSelect
            },
            Step::TelegramTokenInput => Step::TelegramSetupPrompt,
            Step::TelegramBindingWait => Step::TelegramTokenInput,
            Step::Review => if self.setup_telegram {
                Step::TelegramBindingWait
            } else {
                Step::TelegramSetupPrompt
            },
            Step::Complete => Step::Complete,
        };
        self.error_msg = String::new();
        self.scroll = 0;
    }

    /// After a failed fetch: use the static model list when there is one,
    /// else fall back to manual input, noting which in the error message.
    pub fn fallback_to_static(&mut self)
        ensures
            fell_back(*old(self), *final(self), old(self).error_msg@),
    {
        if self.static_models.len() > 0 {
            self.fetched_models = copy_strings(&self.static_models);
            self.error_msg.append(" Gunakan daftar statis.");
        } else {
            self.fetch_failed = true;
            self.error_msg.append(" Input manual.");
        }
    }

    /// The fetched models that match the search, ignoring case.
    pub fn filtered_models(&self) -> (v: Vec<String>)
        ensures
            strings_view(v@) == models_matching(strings_view(self.fetched_models@), self.model_search@),
    {
        let q = to_lowercase_string(self.model_search.as_str());
        let empty = self.model_search.unicode_len() == 0;
        let ghost all = strings_view(self.fetched_models@);
        let mut out: Vec<String> = Vec::new();
        let mut i: usize = 0;
        while i < self.fetched_models.len()
            invariant
                i <= self.fetched_models@.len(),
                all == strings_view(self.fetched_models@),
                q@ == lowercase_text(self.model_search@),
                empty == (self.model_search@.len() == 0),
                strings_view(out@) == models_matching(all.subrange(0, i as int), self.model_search@),
            decreases self.fetched_models.len() - i,
        {
            assert(all.subrange(0, i + 1).drop_last() =~= all.subrange(0, i as int));
            let m = &self.fetched_models[i];
            let keep = if empty {
                true
            } else {
                let lm = to_lowercase_string(m.as_str());
                str_contains(lm.as_str(), q.as_str())
            };
            if keep {
                let ghost before = strings_view(out@);
                out.push(m.clone());
                assert(strings_view(out@) =~= before.push(m@));
            }
            i = i + 1;
        }
        assert(all.subrange(0, all.len() as int) =~= all);
        out
    }

    /// The welcome screen's keys.
    pub fn handle_welcome(&mut self, key: WizardKey) -> (act: WizardAction)
        requires
            old(self).selected < old(self).providers@.len(),
        ensures
            welcome_effect(*old(self), *final(self), key, act),
    {
        match key {
            WizardKey::Enter | WizardKey::Char(' ') => self.next_step(),
            WizardKey::Esc | WizardKey::Char('q') => {
                self.step = Step::Complete;
                WizardAction::Nothing
            },
            _ => WizardAction::Nothing,
        }
    }

    /// The provider list's keys.
    pub fn handle_provider_select(&mut self, key: WizardKey) -> (act: WizardAction)
        requires
            old(self).selected < old(self).providers@.len(),
        ensures
            provider_select_effect(*old(self), *final(self), key, act),
    {
        match key {
            WizardKey::Up | WizardKey::Char('k') => {
                self.selected = if self.selected >= 1 {
                    self.selected - 1
                } else {
                    0
                };
                WizardAction::Nothing
            },
            WizardKey::Down | WizardKey::Char('j') => {
                if self.selected < self.providers.len() - 1 {
                    self.selected = self.selected + 1;
                }
                WizardAction::Nothing
            },
            WizardKey::Left | WizardKey::Char('h') => {
                self.selected = if self.selected >= 5 {
                    self.selected - 5
                } else {
                    0
                };
                WizardAction::Nothing
            },
            WizardKey::Right | WizardKey::Char('l') => {
                if self.providers.len() > 5 && self.selected < self.providers.len() - 5 {
                    self.selected = self.selected + 5;
                }
                WizardAction::Nothing
            },
            WizardKey::Enter => {
                let stored = last_value_exec(
                    &self.configured_env_vars,
                    self.providers[self.selected].env_var.as_str(),
                );
                self.api_key = stored;
                self.next_step()
            },
            WizardKey::Esc => {
                self.prev_step();
                WizardAction::Nothing
            },
            WizardKey::Tab | WizardKey::Char('s') | WizardKey::Char('S') => {
                self.step = Step::Review;
                WizardAction::Nothing
            },
            _ => WizardAction::Nothing,
        }
    }

    /// The API key input's keys.
    pub fn handle_api_key_input(&mut self, key: WizardKey) -> (act: WizardAction)
        requires
            old(self).selected < old(self).providers@.len(),
        ensures
            api_key_effect(*old(self), *final(self), key, act),
    {
        match key {
            WizardKey::Enter => {
                if self.api_key.unicode_len() == 0 {
                    self.error_msg = String::from_str("API key kosong. Lewati? Tekan Esc untuk kembali.");
                }
                self.next_step()
            },
            WizardKey::Esc => {
                self.prev_step();
                WizardAction::Nothing
            },
            WizardKey::Backspace | WizardKey::Char(_) => {
                edit_text(&mut self.api_key, key);
                self.error_msg = String::new();
                WizardAction::Nothing
            },
            _ => WizardAction::Nothing,
        }
    }

    /// The base URL input's keys.
    pub fn handle_base_url_input(&mut self, key: WizardKey) -> (act: WizardAction)
        requires
            old(self).selected < old(self).providers@.len(),
        ensures
            base_url_effect(*old(self), *final(self), key, act),
    {
        match key {
            WizardKey::Enter => {
                if self.custom_url.unicode_len() == 0 {
                    self.error_msg = String::from_str("Base URL tidak boleh kosong.");
                    WizardAction::Nothing
                } else {
                    self.next_step()
                }
            },
            WizardKey::Esc => {
                self.prev_step();
                WizardAction::Nothing
            },
            WizardKey::Backspace | WizardKey::Char(_) => {
                edit_text(&mut self.custom_url, key);
                self.error_msg = String::new();
                WizardAction::Nothing
            },
            _ => WizardAction::Nothing,
        }
    }

    /// The model list's keys.
    pub fn handle_model_list(&mut self, key: WizardKey) -> (act: WizardAction)
        requires
            old(self).selected < old(self).providers@.len(),
            listed_models(*old(self)).len() > 0 ==> old(self).model_list_selected < listed_models(*old(self)).len(),
        ensures
            model_list_effect(*old(self), *final(self), key, act),
    {
        match key {
            WizardKey::Up | WizardKey::Char('k') => {
                if self.model_list_selected > 0 {
                    self.model_list_selected = self.model_list_selected - 1;
                }
                WizardAction::Nothing
            },
            WizardKey::Down | WizardKey::Char('j') => {
                let filtered = self.filtered_models();
                if filtered.len() > 0 && self.model_list_selected < filtered.len() - 1 {
                    self.model_list_selected = self.model_list_selected + 1;
                }
                WizardAction::Nothing
            },
            WizardKey::Enter => {
                let filtered = self.filtered_models();
                if self.model_search.unicode_len() > 0 && filtered.len() == 0 {
                    self.custom_model = self.model_search.clone();
                } else if filtered.len() > 0 {
                    self.custom_model = filtered[self.model_list_selected].clone();
                }
                if self.custom_model.unicode_len() > 0 {
                    self.next_step()
                } else {
                    WizardAction::Nothing
                }
            },
            WizardKey::Esc => {
                self.prev_step();
                WizardAction::Nothing
            },
            WizardKey::Backspace | WizardKey::Char(_) => {
                edit_text(&mut self.model_search, key);
                self.model_list_selected = 0;
                WizardAction::Nothing
            },
            WizardKey::Tab | WizardKey::Function(2) => {
                self.error_msg = String::from_str("Beralih ke input manual.");
                self.step = Step::ModelSelect;
                WizardAction::Nothing
            },
            _ => WizardAction::Nothing,
        }
    }

    /// The manual model input's keys.
    pub fn handle_model_select(&mut self, key: WizardKey) -> (act: WizardAction)
        requires
            old(self).selected < old(self).providers@.len(),
        ensures
            model_name_effect(*old(self), *final(self), key, act),
    {
        match key {
            WizardKey::Enter => {
                if self.custom_model.unicode_len() == 0 {
                    self.error_msg = String::from_str("Masukkan nama model.");
                    WizardAction::Nothing
                } else {
                    self.next_step()
                }
            },
            WizardKey::Esc => {
                self.prev_step();
                WizardAction::Nothing
            },
            WizardKey::Backspace | WizardKey::Char(_) => {
                edit_text(&mut self.custom_model, key);
                self.error_msg = String::new();
                WizardAction::Nothing
            },
            _ => WizardAction::Nothing,
        }
    }

    /// The Telegram question's keys.
    pub fn handle_telegram_setup_prompt(&mut self, key: WizardKey) -> (act: WizardAction)
        requires
            old(self).selected < old(self).providers@.len(),
        ensures
            telegram_prompt_effect(*old(self), *final(self), key, act),
    {
        match key {
            WizardKey::Char('y') | WizardKey::Char('Y') => {
                self.setup_telegram = true;
                self.next_step()
            },
            WizardKey::Char('n') | WizardKey::Char('N') => {
                self.setup_telegram = false;
                self.next_step()
            },
            WizardKey::Enter => self.next_step(),
            WizardKey::Esc => {
                self.prev_step();
                WizardAction::Nothing
            },
            _ => WizardAction::Nothing,
        }
    }

    /// The bot token input's keys.
    pub fn handle_telegram_token_input(&mut self, key: WizardKey) -> (act: WizardAction)
        requires
            old(self).selected < old(self).providers@.len(),
        ensures
            token_effect(*old(self), *final(self), key, act),
    {
        match key {
            WizardKey::Enter => {
                if self.telegram_token.unicode_len() == 0 {
                    self.error_msg = String::from_str("Masukkan token bot Telegram atau tekan Esc.");
                    WizardAction::Nothing
                } else {
                    self.next_step()
                }
            },
            WizardKey::Esc => {
                self.prev_step();
                WizardAction::Nothing
            },
            WizardKey::Backspace | WizardKey::Char(_) => {
                edit_text(&mut self.telegram_token, key);
                self.error_msg = String::new();
                WizardAction::Nothing
            },
            _ => WizardAction::Nothing,
        }
    }

    /// The keys while waiting for the bot's binding.
    pub fn handle_binding_wait(&mut self, key: WizardKey) -> (act: WizardAction)
        requires
            old(self).selected < old(self).providers@.len(),
        ensures
            binding_wait_effect(*old(self), *final(self), key, act),
    {
        if key == WizardKey::Esc {
            self.prev_step();
            WizardAction::StopBindingPoll
        } else if key == WizardKey::Enter && self.telegram_chat_id.unicode_len() > 0 {
            self.next_step()
        } else {
            WizardAction::Nothing
        }
    }

    /// The review's keys.
    pub fn handle_review(&mut self, key: WizardKey) -> (act: WizardAction)
        requires
            old(self).selected < old(self).providers@.len(),
        ensures
            review_effect(*old(self), *final(self), key, act),
    {
        match key {
            WizardKey::Enter => WizardAction::SaveConfig,
            WizardKey::Esc => {
                self.prev_step();
                WizardAction::Nothing
            },
            _ => WizardAction::Nothing,
        }
    }

    /// Handles a key at the current step.
    pub fn handle_key(&mut self, key: WizardKey) -> (act: WizardAction)
        requires
            key_ready(*old(self)),
        ensures
            key_effect(*old(self), *final(self), key, act),
    {
        match self.step {
            Step::Welcome => self.handle_welcome(key),
            Step::ProviderSelect => self.handle_provider_select(key),
            Step::ApiKeyInput => self.handle_api_key_input(key),
            Step::BaseUrlInput => self.handle_base_url_input(key),
            Step::ModelList => self.handle_model_list(key),
            Step::ModelSelect => self.handle_model_select(key),
            Step::TelegramSetupPrompt => self.handle_telegram_setup_prompt(key),
            Step::TelegramTokenInput => self.handle_telegram_token_input(key),
            Step::TelegramBindingWait => self.handle_binding_wait(key),
            Step::Review => self.handle_review(key),
            Step::Complete => WizardAction::Quit,
            Step::ModelFetch => WizardAction::Nothing,
        }
    }

    /// Starts waiting for the bot's binding at clock reading `now_nanos`:
    /// the status says what to do, the code is derived from the clock.
    pub fn begin_binding(&mut self, now_nanos: i64)
        ensures
            *final(self) == (SetupWizard {
                binding_status: final(self).binding_status,
                binding_code: final(self).binding_code,
                ..*old(self)
            }),
            final(self).binding_status@ == binding_wait_status(old(self).telegram_chat_id@),
            final(self).binding_code@ == binding_code_text(now_nanos),
    {
        if self.telegram_chat_id.unicode_len() > 0 {
            let mut status = String::from_str("Sudah terhubung (Chat ID: ");
            status.append(self.telegram_chat_id.as_str());
            status.append("). Tekan Enter untuk lanjut, atau kirim /start untuk pairing ulang.");
            self.binding_status = status;
        } else {
            self.binding_status = String::from_str("Buka Telegram Anda, cari bot Anda, lalu kirim pesan /start...");
        }
        let magnitude: u64 = if now_nanos >= 0 {
            now_nanos as u64
        } else {
            (-(now_nanos + 1)) as u64 + 1
        };
        let mut code = String::new();
        push_frac_digits(&mut code, magnitude % 1_000_000, 6);
        assert(code@ =~= binding_code_text(now_nanos));
        self.binding_code = code;
    }

    /// Takes a report of the Telegram polling.
    pub fn handle_binding_event(&mut self, event: BindingEvent) -> (act: WizardAction)
        ensures
            match event {
                BindingEvent::ChatDetected { username, chat_id } => {
                    &&& *final(self) == (SetupWizard {
                        telegram_chat_id: final(self).telegram_chat_id,
                        binding_status: final(self).binding_status,
                        ..*old(self)
                    })
                    &&& final(self).telegram_chat_id@ == chat_id@
                    &&& final(self).binding_status@ == "Ditemukan chat dari @"@ + username@
                        + "! Kirim kode verifikasi ke bot: "@ + old(self).binding_code@
                    &&& act == WizardAction::Nothing
                },
                BindingEvent::CodeMatched { chat_id } => {
                    &&& *final(self) == (SetupWizard {
                        telegram_chat_id: final(self).telegram_chat_id,
                        binding_status: final(self).binding_status,
                        ..*old(self)
                    })
                    &&& final(self).telegram_chat_id@ == chat_id@
                    &&& final(self).binding_status@ == "Koneksi bot Telegram sukses terverifikasi!"@
                    &&& act == WizardAction::ShowThenAdvance
                },
                BindingEvent::Error(err) => {
                    &&& *final(self) == (SetupWizard { error_msg: final(self).error_msg, ..*old(self) })
                    &&& final(self).error_msg@ == err@
                    &&& act == WizardAction::Nothing
                },
            },
    {
        match event {
            BindingEvent::ChatDetected { username, chat_id } => {
                self.telegram_chat_id = chat_id;
                let mut status = String::from_str("Ditemukan chat dari @");
                status.append(username.as_str());
                status.append("! Kirim kode verifikasi ke bot: ");
                status.append(self.binding_code.as_str());
                self.binding_status = status;
                WizardAction::Nothing
            },
            BindingEvent::CodeMatched { chat_id } => {
                self.telegram_chat_id = chat_id;
                self.binding_status = String::from_str("Koneksi bot Telegram sukses terverifikasi!");
                WizardAction::ShowThenAdvance
            },
            BindingEvent::Error(err) => {
                self.error_msg = err;
                WizardAction::Nothing
            },
        }
    }

    /// Gets ready to fetch the provider's models, given the static list
    /// cached for it. Without a base URL or a key nothing is fetched: the
    /// static list is used when there is one, else manual input is
    /// chosen. Otherwise returns the base URL and key to fetch with.
    pub fn prepare_fetch(&mut self, static_models: Vec<String>) -> (r: Option<(String, String)>)
        requires
            old(self).selected < old(self).providers@.len(),
        ensures
            final(self).static_models@ == static_models@,
            final(self).step == old(self).step,
            final(self).selected == old(self).selected,
            final(self).providers == old(self).providers,
            fetch_base_url(*old(self)).len() == 0 || old(self).api_key@.len() == 0 ==> {
                &&& r is None
                &&& static_models@.len() > 0 ==> final(self).fetched_models@ == static_models@
                    && final(self).error_msg@ == "Gunakan daftar model statis (API key tidak tersedia)."@
                    && final(self).fetch_failed == old(self).fetch_failed
                &&& static_models@.len() == 0 ==> final(self).fetched_models == old(self).fetched_models
                    && final(self).error_msg@ == "Tidak ada daftar model. Input manual."@ && final(self).fetch_failed
            },
            !(fetch_base_url(*old(self)).len() == 0 || old(self).api_key@.len() == 0) ==> {
                &&& r matches Some((url, key)) && url@ == fetch_base_url(*old(self)) && key@ == old(self).api_key@
                &&& *final(self) == (SetupWizard { static_models: final(self).static_models, ..*old(self) })
            },
    {
        self.static_models = static_models;
        let provider_url = &self.providers[self.selected].base_url;
        let base_url = if provider_url.unicode_len() == 0 {
            self.custom_url.clone()
        } else {
            provider_url.clone()
        };
        if base_url.unicode_len() == 0 || self.api_key.unicode_len() == 0 {
            if self.static_models.len() > 0 {
                self.fetched_models = copy_strings(&self.static_models);
                self.error_msg = String::from_str("Gunakan daftar model statis (API key tidak tersedia).");
            } else {
                self.error_msg = String::from_str("Tidak ada daftar model. Input manual.");
                self.fetch_failed = true;
            }
            return None;
        }
        Some((base_url, self.api_key.clone()))
    }

    /// Takes the outcome of fetching the models: the list with a fresh
    /// search, or an error noted before falling back to the static list.
    pub fn finish_fetch(&mut self, outcome: FetchOutcome)
        ensures
            final(self).step == old(self).step,
            final(self).selected == old(self).selected,
            final(self).providers == old(self).providers,
            match outcome {
                FetchOutcome::Models(v) => {
                    &&& *final(self) == (SetupWizard {
                        fetched_models: final(self).fetched_models,
                        model_search: final(self).model_search,
                        model_list_selected: 0,
                        ..*old(self)
                    })
                    &&& final(self).fetched_models@ == v@
                    &&& final(self).model_search@.len() == 0
                },
                FetchOutcome::Failed(e) => fell_back(
                    *old(self),
                    *final(self),
                    "Gagal fetch API: "@ + e@ + "."@,
                ),
                FetchOutcome::Panicked => fell_back(*old(self), *final(self), "Thread fetch panic."@),
            },
    {
        match outcome {
            FetchOutcome::Models(v) => {
                self.fetched_models = v;
                self.model_search = String::new();
                self.model_list_selected = 0;
            },
            FetchOutcome::Failed(e) => {
                let mut msg = String::from_str("Gagal fetch API: ");
                msg.append(e.as_str());
                msg.append(".");
                self.error_msg = msg;
                self.fallback_to_static();
            },
            FetchOutcome::Panicked => {
                self.error_msg = String::from_str("Thread fetch panic.");
                self.fallback_to_static();
            },
        }
    }

    /// Leaves the fetch step: to the list, or to manual input when the
    /// fetch failed.
    pub fn leave_model_fetch(&mut self)
        ensures
            *final(self) == (SetupWizard {
                step: if old(self).fetch_failed {
                    Step::ModelSelect
                } else {
                    Step::ModelList
                },
                ..*old(self)
            }),
    {
        self.step = if self.fetch_failed {
            Step::ModelSelect
        } else {
            Step::ModelList
        };
    }

    /// The model to save the configuration with, given the static list
    /// cached for the provider.
    pub fn config_model(&self, static_list: &Vec<String>) -> (r: String)
        requires
            self.selected < self.providers@.len(),
        ensures
            r@ == config_model_text(*self, strings_view(static_list@)),
    {
        if self.custom_model.unicode_len() > 0 {
            return self.custom_model.clone();
        }
        let preferred = preferred_model_exec(self.providers[self.selected].slot.as_str());
        if preferred.unicode_len() > 0 && contains_string(&self.fetched_models, preferred) {
            String::from_str(preferred)
        } else if self.fetched_models.len() > 0 {
            self.fetched_models[0].clone()
        } else if static_list.len() > 0 {
            static_list[0].clone()
        } else {
            String::new()
        }
    }

    /// The bot token and chat id saved: both empty unless Telegram is set
    /// up.
    pub fn telegram_settings(&self) -> (r: (String, String))
        ensures
            self.setup_telegram ==> r.0@ == self.telegram_token@ && r.1@ == self.telegram_chat_id@,
            !self.setup_telegram ==> r.0@.len() == 0 && r.1@.len() == 0,
    {
        if self.setup_telegram {
            (self.telegram_token.clone(), self.telegram_chat_id.clone())
        } else {
            (String::new(), String::new())
        }
    }

    /// Takes the outcome of saving: an error is shown, success moves on.
    pub fn after_save(&mut self, result: Result<(), String>) -> (act: WizardAction)
        requires
            old(self).selected < old(self).providers@.len(),
        ensures
            match result {
                Ok(()) => advanced(*old(self), *final(self)) && act == advance_action(*old(self)),
                Err(e) => with_error(*old(self), *final(self), "Gagal menyimpan: "@ + e@) && act
                    == WizardAction::Nothing,
            },
    {
        match result {
            Ok(()) => self.next_step(),
            Err(e) => {
                let mut msg = String::from_str("Gagal menyimpan: ");
                msg.append(e.as_str());
                self.error_msg = msg;
                WizardAction::Nothing
            },
        }
    }
}


// ----- what the screens show -----
/// The key hints of the footer on each step; the binding step's hint
/// depends on whether a chat is already bound.
pub open spec fn footer_hint_spec(step: Step, chat_bound: bool) -> Seq<char> {
    match step {
        Step::Welcome => "Enter/Space: mulai  |  q/Esc: keluar"@,
        Step::ProviderSelect => "j/k/h/l: pilih  |  Enter: lanjut  |  s/Tab: skip ke review  |  Esc: kembali"@,
        Step::ApiKeyInput => "Ketik API key  |  Enter: lanjut  |  Esc: kembali"@,
        Step::BaseUrlInput => "Ketik Base URL  |  Enter: lanjut  |  Esc: kembali"@,
        Step::ModelFetch => "Mengambil daftar model..."@,
        Step::ModelList => "j/k/↑/↓: pilih  |  ketik: cari/filter  |  Enter: pilih/ketik manual  |  Esc: kembali"@,
        Step::ModelSelect => "Ketik nama model  |  Enter: lanjut  |  Esc: kembali"@,
        Step::TelegramSetupPrompt => "y: Ya  |  n: Tidak  |  Esc: kembali"@,
        Step::TelegramTokenInput => "Ketik Token Bot Telegram  |  Enter: lanjut  |  Esc: kembali"@,
        Step::TelegramBindingWait => if chat_bound {
            "Kirim /start untuk pairing baru  |  Enter: lanjut  |  Esc: kembali"@
        } else {
            "Kirim /start ke bot lalu ketik kode verifikasi  |  Esc: kembali"@
        },
        Step::Review => "Enter: simpan  |  Esc: kembali"@,
        Step::Complete => "Tekan tombol apa pun untuk keluar"@,
    }
}

/// `n` asterisks.
pub open spec fn stars(n: nat) -> Seq<char> {
    Seq::new(n, |i: int| '*')
}

/// The left margin that centers a card of `card` columns in `width`.
pub fn card_left_padding(width: u16, card: u16) -> (p: u16)
    ensures
        p as int == (if width > card {
            width - card
        } else {
            0
        }) / 2,
{
    width.saturating_sub(card) / 2
}

/// The cursor's column after a centered input text of `text_len` bytes,
/// in a box at column `x` that is `width` wide: after the text, and no
/// further than the box's last column. The length is taken as the layout
/// takes it, cut to 16 bits.
pub fn centered_cursor_x(x: u16, width: u16, text_len: usize) -> (c: u16)
    requires
        x + width <= u16::MAX,
        x + (if width > text_len as u16 {
            width - text_len as u16
        } else {
            0
        }) / 2 + text_len as u16 <= u16::MAX,
    ensures
        ({
            let t = text_len as u16;
            let after = x + (if width > t {
                width - t
            } else {
                0
            }) / 2 + t;
            let last = x + if width > 0 {
                width - 1
            } else {
                0
            };
            c as int == if after < last {
                after
            } else {
                last
            }
        }),
{
    let t = text_len as u16;
    let after = x + width.saturating_sub(t) / 2 + t;
    let last = x + width.saturating_sub(1);
    if after < last {
        after
    } else {
        last
    }
}

impl SetupWizard {
    /// The footer's key hints for the current step.
    pub fn footer_hint(&self) -> (h: &'static str)
        ensures
            h@ == footer_hint_spec(self.step, self.telegram_chat_id@.len() > 0),
    {
        match self.step {
            Step::Welcome => "Enter/Space: mulai  |  q/Esc: keluar",
            Step::ProviderSelect => "j/k/h/l: pilih  |  Enter: lanjut  |  s/Tab: skip ke review  |  Esc: kembali",
            Step::ApiKeyInput => "Ketik API key  |  Enter: lanjut  |  Esc: kembali",
            Step::BaseUrlInput => "Ketik Base URL  |  Enter: lanjut  |  Esc: kembali",
            Step::ModelFetch => "Mengambil daftar model...",
            Step::ModelList => "j/k/↑/↓: pilih  |  ketik: cari/filter  |  Enter: pilih/ketik manual  |  Esc: kembali",
            Step::ModelSelect => "Ketik nama model  |  Enter: lanjut  |  Esc: kembali",
            Step::TelegramSetupPrompt => "y: Ya  |  n: Tidak  |  Esc: kembali",
            Step::TelegramTokenInput => "Ketik Token Bot Telegram  |  Enter: lanjut  |  Esc: kembali",
            Step::TelegramBindingWait => if self.telegram_chat_id.as_str().unicode_len() > 0 {
                "Kirim /start untuk pairing baru  |  Enter: lanjut  |  Esc: kembali"
            } else {
                "Kirim /start ke bot lalu ketik kode verifikasi  |  Esc: kembali"
            },
            Step::Review => "Enter: simpan  |  Esc: kembali",
            Step::Complete => "Tekan tombol apa pun untuk keluar",
        }
    }

    /// What the key box shows: a hint while empty, else an asterisk per
    /// byte of the key, at most forty.
    pub fn api_key_display(&self) -> (d: String)
        ensures
            d@ == if self.api_key@.len() == 0 {
                " (input hidden — ketik API key Anda)"@
            } else {
                stars(
                    (if crate::pickers::byte_len(self.api_key@) < 40 {
                        crate::pickers::byte_len(self.api_key@)
                    } else {
                        40
                    }) as nat,
                )
            },
    {
        if self.api_key.as_str().unicode_len() == 0 {
            return String::from_str(" (input hidden — ketik API key Anda)");
        }
        let n = self.api_key.as_str().len();
        let n: usize = if n < 40 {
            n
        } else {
            40
        };
        let mut d = String::new();
        let mut k: usize = 0;
        while k < n
            invariant
                k <= n,
                d@ =~= stars(k as nat),
            decreases n - k,
        {
            push_char(&mut d, '*');
            assert(stars((k + 1) as nat) =~= stars(k as nat).push('*'));
            k = k + 1;
        }
        d
    }

    /// The lines of the review card, each a label and a value (blank lines
    /// have both empty): provider, model, key (hidden), base URL (the
    /// typed one for a custom provider), Telegram, its token (hidden) and
    /// bound chat when set up, the config file, and how to go on.
    pub fn review_rows(&self) -> (rows: Vec<(String, String)>)
        requires
            self.selected < self.providers@.len(),
        ensures
            pair_views(rows@) == review_rows_spec(
                self.providers@[self.selected as int].name@,
                self.custom_model@,
                self.api_key@.len() > 0,
                if self.providers@[self.selected as int].base_url@.len() == 0 {
                    self.custom_url@
                } else {
                    self.providers@[self.selected as int].base_url@
                },
                self.setup_telegram,
                self.telegram_token@.len() > 0,
                self.telegram_chat_id@,
                self.config_path@,
            ),
    {
        let p = &self.providers[self.selected];
        let mut rows: Vec<(String, String)> = Vec::new();
        push_pair(&mut rows, "  Provider:    ", p.name.as_str());
        push_pair(&mut rows, "  Model:       ", self.custom_model.as_str());
        push_pair(
            &mut rows,
            "  API Key:     ",
            if self.api_key.as_str().unicode_len() == 0 {
                "(env var)"
            } else {
                "********"
            },
        );
        push_pair(
            &mut rows,
            "  Base URL:    ",
            if p.base_url.as_str().unicode_len() == 0 {
                self.custom_url.as_str()
            } else {
                p.base_url.as_str()
            },
        );
        push_pair(&mut rows, "", "");
        push_pair(
            &mut rows,
            "  Telegram:    ",
            if self.setup_telegram {
                "Aktif"
            } else {
                "Non-aktif"
            },
        );
        if self.setup_telegram && self.telegram_token.as_str().unicode_len() > 0 {
            push_pair(&mut rows, "  Tele Token:  ", "********");
            if self.telegram_chat_id.as_str().unicode_len() > 0 {
                push_pair(&mut rows, "  Chat ID:     ", self.telegram_chat_id.as_str());
            }
        }
        push_pair(&mut rows, "", "");
        push_pair(&mut rows, "  File config: ", self.config_path.as_str());
        push_pair(&mut rows, "", "");
        push_pair(&mut rows, "  Tekan Enter untuk menyimpan, Esc untuk kembali", "");
        rows
    }
}

/// The texts of label and value pairs.
pub open spec fn pair_views(v: Seq<(String, String)>) -> Seq<(Seq<char>, Seq<char>)> {
    Seq::new(v.len(), |i: int| (v[i].0@, v[i].1@))
}

fn push_pair(rows: &mut Vec<(String, String)>, label: &str, value: &str)
    ensures
        pair_views(final(rows)@) == pair_views(old(rows)@).push((label@, value@)),
{
    let ghost before = pair_views(rows@);
    rows.push((String::from_str(label), String::from_str(value)));
    assert(pair_views(rows@) =~= before.push((label@, value@)));
}

/// The lines of the review card for the given settings.
pub open spec fn review_rows_spec(
    provider: Seq<char>,
    model: Seq<char>,
    has_key: bool,
    base_url: Seq<char>,
    telegram: bool,
    has_token: bool,
    chat_id: Seq<char>,
    config_path: Seq<char>,
) -> Seq<(Seq<char>, Seq<char>)> {
    let head = seq![
        ("  Provider:    "@, provider),
        ("  Model:       "@, model),
        ("  API Key:     "@, if has_key {
            "********"@
        } else {
            "(env var)"@
        }),
        ("  Base URL:    "@, base_url),
        (""@, ""@),
        ("  Telegram:    "@, if telegram {
            "Aktif"@
        } else {
            "Non-aktif"@
        }),
    ];
    let tele = if telegram && has_token {
        if chat_id.len() > 0 {
            seq![("  Tele Token:  "@, "********"@), ("  Chat ID:     "@, chat_id)]
        } else {
            seq![("  Tele Token:  "@, "********"@)]
        }
    } else {
        Seq::empty()
    };
    head + tele + seq![
        (""@, ""@),
        ("  File config: "@, config_path),
        (""@, ""@),
        ("  Tekan Enter untuk menyimpan, Esc untuk kembali"@, ""@),
    ]
}

} // verus!
