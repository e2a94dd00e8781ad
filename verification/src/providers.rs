//! The catalog of built-in provider slots: every known OpenAI-compatible
//! provider, where it lives, the environment variable of its key, and the
//! models it offers. Costs are per million tokens, in millionths of a
//! dollar.
use vstd::prelude::*;
use crate::router::{ModelProfile, ModelProfileView, ProviderConfig, profile_views, str_views};
use crate::text::str_equal;

verus! {

/// The names of the built-in slots, in catalog order.
pub open spec fn catalog_names() -> Seq<Seq<char>> {
    seq![
        "openai"@,
        "anthropic"@,
        "mistral"@,
        "cohere"@,
        "google-gemini"@,
        "deepseek"@,
        "moonshot"@,
        "xai"@,
        "openrouter"@,
        "litellm"@,
        "cloudflare-ai-gateway"@,
        "vercel-ai-gateway"@,
        "together"@,
        "fireworks"@,
        "groq"@,
        "perplexity"@,
        "cerebras"@,
        "chutes"@,
        "inferrs"@,
        "alibaba"@,
        "qwen-cloud"@,
        "volcengine"@,
        "tencent"@,
        "qianfan"@,
        "stepfun"@,
        "minimax"@,
        "zhipu"@,
        "xiaomi"@,
        "byteplus"@,
        "novita"@,
        "kilocode"@,
        "venice"@,
        "synthetic"@,
        "gradium"@,
        "gmi-cloud"@,
        "arcee"@,
        "chutes-alt"@,
        "ollama"@,
        "lm-studio"@,
        "sglang"@,
        "vllm"@,
        "ds4-local"@,
        "fal"@,
        "runway"@,
        "comfyui"@,
        "elevenlabs"@,
        "github-copilot"@,
        "huggingface"@,
        "senseaudio"@,
        "vydra"@,
        "azure-speech"@,
        "nvidia"@,
        "opencode"@,
        "opencode-go"@,
    ]
}

/// The base URLs of the built-in slots, in catalog order.
pub open spec fn catalog_base_urls() -> Seq<Seq<char>> {
    seq![
        "https://api.openai.com/v1"@,
        "https://api.anthropic.com/v1"@,
        "https://api.mistral.ai/v1"@,
        "https://api.cohere.ai/v1"@,
        "https://generativelanguage.googleapis.com/v1beta/openai"@,
        "https://api.deepseek.com"@,
        "https://api.moonshot.cn/v1"@,
        "https://api.x.ai/v1"@,
        "https://openrouter.ai/api/v1"@,
        "http://localhost:4000/v1"@,
        "https://gateway.ai.cloudflare.com/v1"@,
        "https://gateway.vercel.ai/v1"@,
        "https://api.together.xyz/v1"@,
        "https://api.fireworks.ai/inference/v1"@,
        "https://api.groq.com/openai/v1"@,
        "https://api.perplexity.ai"@,
        "https://api.cerebras.ai/v1"@,
        "https://api.chutes.ai/v1"@,
        "https://api.inferrs.ai/v1"@,
        "https://dashscope.aliyuncs.com/compatible-mode/v1"@,
        "https://dashscope-intl.aliyuncs.com/compatible-mode/v1"@,
        "https://ark.cn-beijing.volces.com/api/v3"@,
        "https://api.hunyuan.cloud.tencent.com/v1"@,
        "https://aip.baidubce.com/rpc/2.0/ai_custom/v1/wenxinworkshop/chat"@,
        "https://api.stepfun.com/v1"@,
        "https://api.minimax.chat/v1"@,
        "https://open.bigmodel.cn/api/paas/v4"@,
        "https://api.mi.com/v1"@,
        "https://ark.byteplus.com/api/v3"@,
        "https://api.novita.ai/v3/openai"@,
        "https://api.kilocode.ai/v1"@,
        "https://api.venice.ai/api/v1"@,
        "https://api.synthetic.ai/v1"@,
        "https://api.gradium.ai/v1"@,
        "https://api.gmicloud.ai/v1"@,
        "https://api.arcee.ai/v1"@,
        "https://alt.chutes.ai/v1"@,
        "http://localhost:11434/v1"@,
        "http://localhost:1234/v1"@,
        "http://localhost:30000/v1"@,
        "http://localhost:8000/v1"@,
        "http://localhost:8080/v1"@,
        "https://api.fal.ai/v1"@,
        "https://api.runwayml.com/v1"@,
        "http://localhost:8188"@,
        "https://api.elevenlabs.io/v1"@,
        "https://api.githubcopilot.com"@,
        "https://api-inference.huggingface.co/v1"@,
        "https://api.senseaudio.ai/v1"@,
        "https://api.vydra.ai/v1"@,
        "https://api.cognitive.microsoft.com/stt/v1"@,
        "https://integrate.api.nvidia.com/v1"@,
        "https://api.opencode.ai/v1"@,
        "https://api.opencode.ai/v1"@,
    ]
}

/// The environment variables of the slots' keys, in catalog order.
pub open spec fn catalog_key_envs() -> Seq<Seq<char>> {
    seq![
        "OPENAI_API_KEY"@,
        "ANTHROPIC_API_KEY"@,
        "MISTRAL_API_KEY"@,
        "COHERE_API_KEY"@,
        "GEMINI_API_KEY"@,
        "DEEPSEEK_API_KEY"@,
        "MOONSHOT_API_KEY"@,
        "XAI_API_KEY"@,
        "OPENROUTER_API_KEY"@,
        "LITELLM_API_KEY"@,
        "CLOUDFLARE_AI_GATEWAY_KEY"@,
        "VERCEL_AI_GATEWAY_KEY"@,
        "TOGETHER_API_KEY"@,
        "FIREWORKS_API_KEY"@,
        "GROQ_API_KEY"@,
        "PERPLEXITY_API_KEY"@,
        "CEREBRAS_API_KEY"@,
        "CHUTES_API_KEY"@,
        "INFERRS_API_KEY"@,
        "ALIBABA_API_KEY"@,
        "QWEN_API_KEY"@,
        "VOLCENGINE_API_KEY"@,
        "TENCENT_API_KEY"@,
        "QIANFAN_API_KEY"@,
        "STEPFUN_API_KEY"@,
        "MINIMAX_API_KEY"@,
        "ZHIPU_API_KEY"@,
        "XIAOMI_API_KEY"@,
        "BYTEPLUS_API_KEY"@,
        "NOVITA_API_KEY"@,
        "KILOCODE_API_KEY"@,
        "VENICE_API_KEY"@,
        "SYNTHETIC_API_KEY"@,
        "GRADIUM_API_KEY"@,
        "GMI_CLOUD_API_KEY"@,
        "ARCEE_API_KEY"@,
        "CHUTES_ALT_API_KEY"@,
        "OLLAMA_API_KEY"@,
        "LM_STUDIO_API_KEY"@,
        "SGLANG_API_KEY"@,
        "VLLM_API_KEY"@,
        "DS4_API_KEY"@,
        "FAL_API_KEY"@,
        "RUNWAY_API_KEY"@,
        "COMFYUI_API_KEY"@,
        "ELEVENLABS_API_KEY"@,
        "GITHUB_TOKEN"@,
        "HUGGINGFACE_API_KEY"@,
        "SENSEAUDIO_API_KEY"@,
        "VYDRA_API_KEY"@,
        "AZURE_SPEECH_KEY"@,
        "NVIDIA_API_KEY"@,
        "OPENCODE_API_KEY"@,
        "OPENCODE_GO_API_KEY"@,
    ]
}

/// The notes describing the slots, in catalog order.
pub open spec fn catalog_notes() -> Seq<Seq<char>> {
    seq![
        "OpenAI API — GPT-4o, GPT-4o-mini, o-series"@,
        "Anthropic (OpenAI-compatible endpoint)"@,
        "Mistral AI — Mistral Large, Small, Codestral"@,
        "Cohere — Command R7B, embed, rerank"@,
        "Google Gemini — OpenAI-compatible endpoint"@,
        "DeepSeek — V3, R1 reasoning model"@,
        "Moonshot AI — Kimi K2, K2.6"@,
        "xAI — Grok models"@,
        "OpenRouter — unified access to 300+ models"@,
        "LiteLLM — unified proxy gateway (default http://localhost:4000)"@,
        "Cloudflare AI Gateway"@,
        "Vercel AI Gateway"@,
        "Together AI — hosted open models"@,
        "Fireworks AI — fast inference for open models"@,
        "Groq — LPU inference, extremely fast"@,
        "Perplexity — LLM with web search capability"@,
        "Cerebras — wafer-scale inference"@,
        "Chutes AI — hosted open models"@,
        "Inferrs — local/cloud model hosting"@,
        "Alibaba Cloud Model Studio — Qwen models"@,
        "Qwen Cloud (international region)"@,
        "Volcengine — Doubao models (ByteDance)"@,
        "Tencent Cloud — Hunyuan (TokenHub)"@,
        "Baidu Qianfan — ERNIE models"@,
        "StepFun — Step-2, Step-1 models"@,
        "MiniMax — MiniMax-Text, MiniMax-VL"@,
        "Zhipu AI — GLM-4 series"@,
        "Xiaomi AI — MiLM models"@,
        "BytePlus (International) — Doubao models"@,
        "Novita AI — hosted open models"@,
        "Kilocode — coding-focused models"@,
        "Venice AI — privacy-focused inference"@,
        "Synthetic AI — enterprise models"@,
        "Gradium AI inference"@,
        "GMI Cloud — GPU cloud inference"@,
        "Arcee AI — Trinity, specialized models"@,
        "Chutes (alternative endpoint)"@,
        "Ollama — local models (default http://localhost:11434)"@,
        "LM Studio — local models (default http://localhost:1234)"@,
        "SGLang — local inference server"@,
        "vLLM — local inference server"@,
        "DeepSeek V4 locally hosted"@,
        "fal.ai — image, video, audio generation"@,
        "Runway ML — video generation models"@,
        "ComfyUI — local image generation"@,
        "ElevenLabs — text-to-speech, voice cloning"@,
        "GitHub Copilot — code completion & chat"@,
        "Hugging Face Inference API"@,
        "SenseAudio — audio generation models"@,
        "Vydra AI inference"@,
        "Azure Speech Services — STT / TTS"@,
        "NVIDIA NIM — hosted GPU inference"@,
        "OpenCode AI agent platform"@,
        "OpenCode Go — Golang-focused agent"@,
    ]
}

/// The models of the slots, in catalog order, before registration.
pub open spec fn catalog_models() -> Seq<Seq<ModelProfileView>> {
    seq![
        openai_models(),
        anthropic_compat_models(),
        mistral_models(),
        cohere_models(),
        google_gemini_compat_models(),
        deepseek_models(),
        moonshot_models(),
        xai_models(),
        openrouter_models(),
        litellm_models(),
        cloudflare_ai_gateway_models(),
        vercel_ai_gateway_models(),
        together_models(),
        fireworks_models(),
        groq_models(),
        perplexity_models(),
        cerebras_models(),
        chutes_models(),
        inferrs_models(),
        alibaba_model_studio_models(),
        qwen_cloud_models(),
        volcengine_models(),
        tencent_cloud_models(),
        baidu_qianfan_models(),
        stepfun_models(),
        minimax_models(),
        zhipu_glm_models(),
        xiaomi_models(),
        bytedance_byteplus_models(),
        novita_models(),
        kilocode_models(),
        venice_models(),
        synthex_models(),
        gradium_models(),
        gmi_cloud_models(),
        arcee_models(),
        chutes_alt_models(),
        ollama_models(),
        lm_studio_models(),
        sglang_models(),
        vllm_models(),
        ds4_local_models(),
        fal_ai_models(),
        runway_models(),
        comfyui_models(),
        elevenlabs_models(),
        github_copilot_models(),
        huggingface_models(),
        sense_audio_models(),
        vydra_models(),
        azure_speech_models(),
        nvidia_models(),
        opencode_models(),
        opencode_go_models(),
    ]
}

/// The texts of a list of literals.
pub open spec fn literal_texts(items: Seq<&str>) -> Seq<Seq<char>> {
    Seq::new(items.len(), |i: int| items[i]@)
}

/// A profile as a slot lists it: served under its id, with no provider
/// yet.
pub open spec fn fresh_profile(
    id: Seq<char>,
    ctx: u32,
    max_out: u32,
    cost_in: u64,
    cost_out: u64,
    suitable: Seq<Seq<char>>,
) -> ModelProfileView {
    ModelProfileView {
        id,
        provider: Seq::empty(),
        model_name: id,
        context_window: ctx,
        max_output_tokens: max_out,
        cost_per_1m_input: cost_in,
        cost_per_1m_output: cost_out,
        suitable_for: suitable,
    }
}

/// The profile under another provider.
pub open spec fn under_provider(p: ModelProfileView, provider: Seq<char>) -> ModelProfileView {
    ModelProfileView { provider, ..p }
}

/// The profiles, each under `provider`.
pub open spec fn served_under(ms: Seq<ModelProfileView>, provider: Seq<char>) -> Seq<ModelProfileView> {
    Seq::new(ms.len(), |j: int| under_provider(ms[j], provider))
}

fn model(id: &str, ctx: u32, max_out: u32, cost_in: u64, cost_out: u64, suitable: Vec<&str>) -> (m: ModelProfile)
    ensures
        m@ == fresh_profile(id@, ctx, max_out, cost_in, cost_out, literal_texts(suitable@)),
{
    let mut tags: Vec<String> = Vec::new();
    let mut i: usize = 0;
    while i < suitable.len()
        invariant
            i <= suitable@.len(),
            str_views(tags@) =~= literal_texts(suitable@).subrange(0, i as int),
        decreases suitable.len() - i,
    {
        let ghost before = str_views(tags@);
        tags.push(String::from_str(suitable[i]));
        assert(str_views(tags@) =~= before.push(suitable@[i as int]@));
        i = i + 1;
    }
    assert(literal_texts(suitable@).subrange(0, i as int) =~= literal_texts(suitable@));
    let m = ModelProfile {
        id: String::from_str(id),
        provider: String::new(),
        model_name: String::from_str(id),
        context_window: ctx,
        max_output_tokens: max_out,
        cost_per_1m_input: cost_in,
        cost_per_1m_output: cost_out,
        suitable_for: tags,
    };
    assert(m@.provider =~= Seq::<char>::empty());
    m
}

fn config(name: &str, base_url: &str, api_key_env: &str, notes: &str, models: Vec<ModelProfile>) -> (c: ProviderConfig)
    ensures
        c.name@ == name@,
        c.base_url@ == base_url@,
        c.api_key_env@ == api_key_env@,
        c.notes@ == notes@,
        c.models@ == models@,
        !c.native,
{
    ProviderConfig {
        name: String::from_str(name),
        base_url: String::from_str(base_url),
        api_key_env: String::from_str(api_key_env),
        notes: String::from_str(notes),
        models,
        native: false,
    }
}

/// The slot with every model served under the slot's name.
fn with_provider_filled(cfg: ProviderConfig) -> (r: ProviderConfig)
    ensures
        r.name@ == cfg.name@,
        r.base_url@ == cfg.base_url@,
        r.api_key_env@ == cfg.api_key_env@,
        r.notes@ == cfg.notes@,
        r.native == cfg.native,
        profile_views(r.models@) == served_under(profile_views(cfg.models@), cfg.name@),
{
    let ProviderConfig { name, base_url, api_key_env, notes, models, native } = cfg;
    let ghost old_models = models@;
    let mut rest = models;
    let mut filled: Vec<ModelProfile> = Vec::new();
    let total: usize = rest.len();
    let mut j: usize = 0;
    while rest.len() > 0
        invariant
            j <= old_models.len(),
            old_models.len() == total,
            rest@ == old_models.subrange(j as int, old_models.len() as int),
            profile_views(filled@) =~= Seq::new(j as nat, |k: int| under_provider(old_models[k]@, name@)),
        decreases rest.len(),
    {
        assert(j < old_models.len());
        let mut m = rest.remove(0);
        assert(m == old_models[j as int]);
        m.provider = name.clone();
        let ghost before = profile_views(filled@);
        filled.push(m);
        assert(profile_views(filled@) =~= before.push(under_provider(old_models[j as int]@, name@)));
        j = j + 1;
        assert(rest@ =~= old_models.subrange(j as int, old_models.len() as int));
    }
    assert(profile_views(filled@) =~= served_under(profile_views(old_models), name@));
    ProviderConfig { name, base_url, api_key_env, notes, models: filled, native }
}

/// The slot is the catalog's slot `i`, with every model served under the
/// slot's name.
pub open spec fn is_catalog_slot(c: ProviderConfig, i: int) -> bool {
    &&& c.name@ == catalog_names()[i]
    &&& c.base_url@ == catalog_base_urls()[i]
    &&& c.api_key_env@ == catalog_key_envs()[i]
    &&& c.notes@ == catalog_notes()[i]
    &&& !c.native
    &&& profile_views(c.models@) == served_under(catalog_models()[i], catalog_names()[i])
}

/// The slots of the catalog, in order.
pub open spec fn is_catalog(v: Seq<ProviderConfig>) -> bool {
    &&& v.len() == catalog_names().len()
    &&& forall|i: int| 0 <= i < v.len() ==> is_catalog_slot(#[trigger] v[i], i)
}

/// The slot is the catalog's slot `i` as listed, before registration.
pub open spec fn is_listed_slot(c: ProviderConfig, i: int) -> bool {
    &&& c.name@ == catalog_names()[i]
    &&& c.base_url@ == catalog_base_urls()[i]
    &&& c.api_key_env@ == catalog_key_envs()[i]
    &&& c.notes@ == catalog_notes()[i]
    &&& !c.native
    &&& profile_views(c.models@) == catalog_models()[i]
}

#[verifier::rlimit(100)]
fn all_configs() -> (r: Vec<ProviderConfig>)
    ensures
        is_catalog(r@),
{
    let raw: Vec<ProviderConfig> = vec![
        openai(),
        anthropic_compat(),
        mistral(),
        cohere(),
        google_gemini_compat(),
        deepseek(),
        moonshot(),
        xai(),
        openrouter(),
        litellm(),
        cloudflare_ai_gateway(),
        vercel_ai_gateway(),
        together(),
        fireworks(),
        groq(),
        perplexity(),
        cerebras(),
        chutes(),
        inferrs(),
        alibaba_model_studio(),
        qwen_cloud(),
        volcengine(),
        tencent_cloud(),
        baidu_qianfan(),
        stepfun(),
        minimax(),
        zhipu_glm(),
        xiaomi(),
        bytedance_byteplus(),
        novita(),
        kilocode(),
        venice(),
        synthex(),
        gradium(),
        gmi_cloud(),
        arcee(),
        chutes_alt(),
        ollama(),
        lm_studio(),
        sglang(),
        vllm(),
        ds4_local(),
        fal_ai(),
        runway(),
        comfyui(),
        elevenlabs(),
        github_copilot(),
        huggingface(),
        sense_audio(),
        vydra(),
        azure_speech(),
        nvidia(),
        opencode(),
        opencode_go(),
    ];
    assert forall|i: int| 0 <= i < raw@.len() implies is_listed_slot(#[trigger] raw@[i], i) by {}
    let ghost all = raw@;
    let mut rest = raw;
    let mut configs: Vec<ProviderConfig> = Vec::new();
    let total: usize = rest.len();
    let mut i: usize = 0;
    while rest.len() > 0
        invariant
            i <= all.len(),
            all.len() == total,
            all.len() == catalog_names().len(),
            forall|k: int| 0 <= k < all.len() ==> is_listed_slot(#[trigger] all[k], k),
            rest@ == all.subrange(i as int, all.len() as int),
            configs@.len() == i,
            forall|k: int| 0 <= k < i ==> is_catalog_slot(#[trigger] configs@[k], k),
        decreases rest.len(),
    {
        assert(i < all.len());
        let cfg = rest.remove(0);
        assert(cfg == all[i as int]);
        assert(is_listed_slot(all[i as int], i as int));
        let filled = with_provider_filled(cfg);
        let ghost prev = configs@;
        configs.push(filled);
        assert(configs@ == prev.push(filled));
        i = i + 1;
        assert(rest@ =~= all.subrange(i as int, all.len() as int));
    }
    configs
}

/// The configurations of every built-in provider slot.
pub fn provider_configs() -> (r: Vec<ProviderConfig>)
    ensures
        is_catalog(r@),
{
    all_configs()
}

/// The position of the first catalog slot of that name.
pub open spec fn catalog_index(name: Seq<char>) -> Option<int> {
    if catalog_names().contains(name) {
        Some(choose|i: int| 0 <= i < catalog_names().len() && catalog_names()[i] == name && forall|k: int|
            0 <= k < i ==> catalog_names()[k] != name)
    } else {
        None
    }
}

/// The built-in slot of that name, if the catalog has one.
pub fn get_provider_slot(name: &str) -> (r: Option<ProviderConfig>)
    ensures
        r is Some <==> catalog_names().contains(name@),
        r matches Some(c) ==> catalog_index(name@) matches Some(i) && is_catalog_slot(c, i),
{
    let configs = all_configs();
    let ghost all = configs@;
    let mut rest = configs;
    let mut i: usize = 0;
    let total: usize = rest.len();
    while rest.len() > 0
        invariant
            i <= all.len(),
            all.len() == total,
            is_catalog(all),
            rest@ == all.subrange(i as int, all.len() as int),
            forall|k: int| 0 <= k < i ==> catalog_names()[k] != name@,
        decreases rest.len(),
    {
        assert(i < all.len());
        let cfg = rest.remove(0);
        assert(cfg == all[i as int]);
        assert(is_catalog_slot(all[i as int], i as int));
        if str_equal(cfg.name.as_str(), name) {
            proof {
                assert(catalog_names().contains(name@));
                let w = choose|w: int| 0 <= w < catalog_names().len() && catalog_names()[w] == name@ && forall|k: int|
                    0 <= k < w ==> catalog_names()[k] != name@;
                assert(0 <= i < catalog_names().len() && catalog_names()[i as int] == name@ && forall|k: int|
                    0 <= k < i ==> catalog_names()[k] != name@);
                if w < i {
                } else if w > i {
                    assert(catalog_names()[i as int] != name@);
                }
                assert(w == i);
            }
            return Some(cfg);
        }
        i = i + 1;
        assert(rest@ =~= all.subrange(i as int, all.len() as int));
    }
    proof {
        if catalog_names().contains(name@) {
            let w = choose|w: int| 0 <= w < catalog_names().len() && catalog_names()[w] == name@;
            assert(catalog_names()[w] != name@);
        }
    }
    None
}

// ----- the slots -----
/// The models of the `openai` slot, before registration.
pub open spec fn openai_models() -> Seq<ModelProfileView> {
    seq![
        fresh_profile("gpt-4o"@, 128_000, 16_384, 2_500_000, 10_000_000, literal_texts(seq!["general", "reasoning", "coding"])),
        fresh_profile("gpt-4o-mini"@, 128_000, 16_384, 150_000, 600_000, literal_texts(seq!["general", "coding", "fast"])),
        fresh_profile("gpt-4.1"@, 1_047_576, 16_384, 2_000_000, 8_000_000, literal_texts(seq!["general", "reasoning", "coding"])),
        fresh_profile("gpt-4.1-mini"@, 1_047_576, 16_384, 400_000, 1_600_000, literal_texts(seq!["general", "coding"])),
        fresh_profile("gpt-4.1-nano"@, 1_047_576, 16_384, 100_000, 400_000, literal_texts(seq!["general", "fast"])),
        fresh_profile("o3-mini"@, 200_000, 100_000, 1_100_000, 4_400_000, literal_texts(seq!["reasoning", "coding"])),
        fresh_profile("o4-mini"@, 200_000, 100_000, 1_100_000, 4_400_000, literal_texts(seq!["reasoning", "coding"])),
        fresh_profile("gpt-4o-audio-preview"@, 128_000, 16_384, 2_500_000, 10_000_000, literal_texts(seq!["audio"])),
    ]
}

fn openai() -> (c: ProviderConfig)
    ensures
        c.name@ == "openai"@,
        c.base_url@ == "https://api.openai.com/v1"@,
        c.api_key_env@ == "OPENAI_API_KEY"@,
        c.notes@ == "OpenAI API — GPT-4o, GPT-4o-mini, o-series"@,
        !c.native,
        profile_views(c.models@) == openai_models(),
{
    let c = config(
        "openai",
        "https://api.openai.com/v1",
        "OPENAI_API_KEY",
        "OpenAI API — GPT-4o, GPT-4o-mini, o-series",
        vec![
            model("gpt-4o", 128_000, 16_384, 2_500_000, 10_000_000, vec!["general", "reasoning", "coding"]),
            model("gpt-4o-mini", 128_000, 16_384, 150_000, 600_000, vec!["general", "coding", "fast"]),
            model("gpt-4.1", 1_047_576, 16_384, 2_000_000, 8_000_000, vec!["general", "reasoning", "coding"]),
            model("gpt-4.1-mini", 1_047_576, 16_384, 400_000, 1_600_000, vec!["general", "coding"]),
            model("gpt-4.1-nano", 1_047_576, 16_384, 100_000, 400_000, vec!["general", "fast"]),
            model("o3-mini", 200_000, 100_000, 1_100_000, 4_400_000, vec!["reasoning", "coding"]),
            model("o4-mini", 200_000, 100_000, 1_100_000, 4_400_000, vec!["reasoning", "coding"]),
            model("gpt-4o-audio-preview", 128_000, 16_384, 2_500_000, 10_000_000, vec!["audio"]),
        ],
    );
    assert(profile_views(c.models@) =~~= openai_models());
    c
}

/// The models of the `anthropic` slot, before registration.
pub open spec fn anthropic_compat_models() -> Seq<ModelProfileView> {
    Seq::empty()
}

fn anthropic_compat() -> (c: ProviderConfig)
    ensures
        c.name@ == "anthropic"@,
        c.base_url@ == "https://api.anthropic.com/v1"@,
        c.api_key_env@ == "ANTHROPIC_API_KEY"@,
        c.notes@ == "Anthropic (OpenAI-compatible endpoint)"@,
        !c.native,
        profile_views(c.models@) == anthropic_compat_models(),
{
    let c = config(
        "anthropic",
        "https://api.anthropic.com/v1",
        "ANTHROPIC_API_KEY",
        "Anthropic (OpenAI-compatible endpoint)",
        vec![],
    );
    assert(profile_views(c.models@) =~~= anthropic_compat_models());
    c
}

/// The models of the `mistral` slot, before registration.
pub open spec fn mistral_models() -> Seq<ModelProfileView> {
    seq![
        fresh_profile("mistral-large-2411"@, 128_000, 8_192, 2_000_000, 6_000_000, literal_texts(seq!["general", "reasoning"])),
        fresh_profile("mistral-small-2501"@, 32_000, 8_192, 100_000, 300_000, literal_texts(seq!["general", "fast"])),
        fresh_profile("codestral-2501"@, 256_000, 8_192, 1_000_000, 3_000_000, literal_texts(seq!["coding"])),
        fresh_profile("mistral-moderation-2411"@, 32_000, 4_096, 10_000, 10_000, literal_texts(seq!["moderation"])),
    ]
}

fn mistral() -> (c: ProviderConfig)
    ensures
        c.name@ == "mistral"@,
        c.base_url@ == "https://api.mistral.ai/v1"@,
        c.api_key_env@ == "MISTRAL_API_KEY"@,
        c.notes@ == "Mistral AI — Mistral Large, Small, Codestral"@,
        !c.native,
        profile_views(c.models@) == mistral_models(),
{
    let c = config(
        "mistral",
        "https://api.mistral.ai/v1",
        "MISTRAL_API_KEY",
        "Mistral AI — Mistral Large, Small, Codestral",
        vec![
            model("mistral-large-2411", 128_000, 8_192, 2_000_000, 6_000_000, vec!["general", "reasoning"]),
            model("mistral-small-2501", 32_000, 8_192, 100_000, 300_000, vec!["general", "fast"]),
            model("codestral-2501", 256_000, 8_192, 1_000_000, 3_000_000, vec!["coding"]),
            model("mistral-moderation-2411", 32_000, 4_096, 10_000, 10_000, vec!["moderation"]),
        ],
    );
    assert(profile_views(c.models@) =~~= mistral_models());
    c
}

/// The models of the `cohere` slot, before registration.
pub open spec fn cohere_models() -> Seq<ModelProfileView> {
    seq![
        fresh_profile("command-r7b-12-2024"@, 128_000, 4_096, 150_000, 600_000, literal_texts(seq!["general", "rag"])),
        fresh_profile("command-r-plus-08-2024"@, 128_000, 4_096, 2_500_000, 10_000_000, literal_texts(seq!["general", "reasoning"])),
        fresh_profile("command-light"@, 4_096, 4_096, 300_000, 600_000, literal_texts(seq!["general", "fast"])),
    ]
}

fn cohere() -> (c: ProviderConfig)
    ensures
        c.name@ == "cohere"@,
        c.base_url@ == "https://api.cohere.ai/v1"@,
        c.api_key_env@ == "COHERE_API_KEY"@,
        c.notes@ == "Cohere — Command R7B, embed, rerank"@,
        !c.native,
        profile_views(c.models@) == cohere_models(),
{
    let c = config(
        "cohere",
        "https://api.cohere.ai/v1",
        "COHERE_API_KEY",
        "Cohere — Command R7B, embed, rerank",
        vec![
            model("command-r7b-12-2024", 128_000, 4_096, 150_000, 600_000, vec!["general", "rag"]),
            model("command-r-plus-08-2024", 128_000, 4_096, 2_500_000, 10_000_000, vec!["general", "reasoning"]),
            model("command-light", 4_096, 4_096, 300_000, 600_000, vec!["general", "fast"]),
        ],
    );
    assert(profile_views(c.models@) =~~= cohere_models());
    c
}

/// The models of the `google-gemini` slot, before registration.
pub open spec fn google_gemini_compat_models() -> Seq<ModelProfileView> {
    seq![
        fresh_profile("gemini-2.5-pro-exp-03-25"@, 1_048_576, 64_000, 1_250_000, 5_000_000, literal_texts(seq!["reasoning", "coding", "general"])),
        fresh_profile("gemini-2.0-flash"@, 1_048_576, 8_192, 100_000, 400_000, literal_texts(seq!["general", "fast", "vision"])),
        fresh_profile("gemini-2.0-flash-lite"@, 1_048_576, 8_192, 75_000, 300_000, literal_texts(seq!["general", "fast"])),
        fresh_profile("gemini-1.5-pro"@, 2_097_152, 8_192, 1_250_000, 5_000_000, literal_texts(seq!["general", "reasoning"])),
        fresh_profile("gemini-1.5-flash"@, 1_048_576, 8_192, 75_000, 300_000, literal_texts(seq!["general", "fast"])),
    ]
}

fn google_gemini_compat() -> (c: ProviderConfig)
    ensures
        c.name@ == "google-gemini"@,
        c.base_url@ == "https://generativelanguage.googleapis.com/v1beta/openai"@,
        c.api_key_env@ == "GEMINI_API_KEY"@,
        c.notes@ == "Google Gemini — OpenAI-compatible endpoint"@,
        !c.native,
        profile_views(c.models@) == google_gemini_compat_models(),
{
    let c = config(
        "google-gemini",
        "https://generativelanguage.googleapis.com/v1beta/openai",
        "GEMINI_API_KEY",
        "Google Gemini — OpenAI-compatible endpoint",
        vec![
            model("gemini-2.5-pro-exp-03-25", 1_048_576, 64_000, 1_250_000, 5_000_000, vec!["reasoning", "coding", "general"]),
            model("gemini-2.0-flash", 1_048_576, 8_192, 100_000, 400_000, vec!["general", "fast", "vision"]),
            model("gemini-2.0-flash-lite", 1_048_576, 8_192, 75_000, 300_000, vec!["general", "fast"]),
            model("gemini-1.5-pro", 2_097_152, 8_192, 1_250_000, 5_000_000, vec!["general", "reasoning"]),
            model("gemini-1.5-flash", 1_048_576, 8_192, 75_000, 300_000, vec!["general", "fast"]),
        ],
    );
    assert(profile_views(c.models@) =~~= google_gemini_compat_models());
    c
}

/// The models of the `deepseek` slot, before registration.
pub open spec fn deepseek_models() -> Seq<ModelProfileView> {
    seq![
        fresh_profile("deepseek-chat"@, 64_000, 8_192, 270_000, 1_100_000, literal_texts(seq!["general", "coding"])),
        fresh_profile("deepseek-reasoner"@, 64_000, 8_192, 550_000, 2_190_000, literal_texts(seq!["reasoning", "coding"])),
        fresh_profile("deepseek-v3"@, 64_000, 8_192, 270_000, 1_100_000, literal_texts(seq!["general", "coding"])),
        fresh_profile("deepseek-r1"@, 64_000, 8_192, 550_000, 2_190_000, literal_texts(seq!["reasoning"])),
    ]
}

fn deepseek() -> (c: ProviderConfig)
    ensures
        c.name@ == "deepseek"@,
        c.base_url@ == "https://api.deepseek.com"@,
        c.api_key_env@ == "DEEPSEEK_API_KEY"@,
        c.notes@ == "DeepSeek — V3, R1 reasoning model"@,
        !c.native,
        profile_views(c.models@) == deepseek_models(),
{
    let c = config(
        "deepseek",
        "https://api.deepseek.com",
        "DEEPSEEK_API_KEY",
        "DeepSeek — V3, R1 reasoning model",
        vec![
            model("deepseek-chat", 64_000, 8_192, 270_000, 1_100_000, vec!["general", "coding"]),
            model("deepseek-reasoner", 64_000, 8_192, 550_000, 2_190_000, vec!["reasoning", "coding"]),
            model("deepseek-v3", 64_000, 8_192, 270_000, 1_100_000, vec!["general", "coding"]),
            model("deepseek-r1", 64_000, 8_192, 550_000, 2_190_000, vec!["reasoning"]),
        ],
    );
    assert(profile_views(c.models@) =~~= deepseek_models());
    c
}

/// The models of the `moonshot` slot, before registration.
pub open spec fn moonshot_models() -> Seq<ModelProfileView> {
    seq![
        fresh_profile("moonshotai/kimi-k2.6"@, 128_000, 16_384, 1_000_000, 3_000_000, literal_texts(seq!["general", "reasoning", "coding", "planning"])),
        fresh_profile("moonshotai/kimi-k2"@, 128_000, 16_384, 800_000, 2_500_000, literal_texts(seq!["general", "coding"])),
    ]
}

fn moonshot() -> (c: ProviderConfig)
    ensures
        c.name@ == "moonshot"@,
        c.base_url@ == "https://api.moonshot.cn/v1"@,
        c.api_key_env@ == "MOONSHOT_API_KEY"@,
        c.notes@ == "Moonshot AI — Kimi K2, K2.6"@,
        !c.native,
        profile_views(c.models@) == moonshot_models(),
{
    let c = config(
        "moonshot",
        "https://api.moonshot.cn/v1",
        "MOONSHOT_API_KEY",
        "Moonshot AI — Kimi K2, K2.6",
        vec![
            model("moonshotai/kimi-k2.6", 128_000, 16_384, 1_000_000, 3_000_000, vec!["general", "reasoning", "coding", "planning"]),
            model("moonshotai/kimi-k2", 128_000, 16_384, 800_000, 2_500_000, vec!["general", "coding"]),
        ],
    );
    assert(profile_views(c.models@) =~~= moonshot_models());
    c
}

/// The models of the `xai` slot, before registration.
pub open spec fn xai_models() -> Seq<ModelProfileView> {
    seq![
        fresh_profile("grok-3-beta"@, 128_000, 8_192, 3_000_000, 15_000_000, literal_texts(seq!["general", "reasoning", "coding"])),
        fresh_profile("grok-2-1212"@, 128_000, 8_192, 2_000_000, 10_000_000, literal_texts(seq!["general", "reasoning"])),
        fresh_profile("grok-2-vision-1212"@, 16_384, 8_192, 2_000_000, 10_000_000, literal_texts(seq!["general", "vision"])),
    ]
}

fn xai() -> (c: ProviderConfig)
    ensures
        c.name@ == "xai"@,
        c.base_url@ == "https://api.x.ai/v1"@,
        c.api_key_env@ == "XAI_API_KEY"@,
        c.notes@ == "xAI — Grok models"@,
        !c.native,
        profile_views(c.models@) == xai_models(),
{
    let c = config(
        "xai",
        "https://api.x.ai/v1",
        "XAI_API_KEY",
        "xAI — Grok models",
        vec![
            model("grok-3-beta", 128_000, 8_192, 3_000_000, 15_000_000, vec!["general", "reasoning", "coding"]),
            model("grok-2-1212", 128_000, 8_192, 2_000_000, 10_000_000, vec!["general", "reasoning"]),
            model("grok-2-vision-1212", 16_384, 8_192, 2_000_000, 10_000_000, vec!["general", "vision"]),
        ],
    );
    assert(profile_views(c.models@) =~~= xai_models());
    c
}

/// The models of the `openrouter` slot, before registration.
pub open spec fn openrouter_models() -> Seq<ModelProfileView> {
    seq![
        fresh_profile("openai/gpt-4o"@, 128_000, 16_384, 2_500_000, 10_000_000, literal_texts(seq!["general", "coding"])),
        fresh_profile("openai/gpt-4o-mini"@, 128_000, 16_384, 150_000, 600_000, literal_texts(seq!["general", "fast"])),
        fresh_profile("openai/o3-mini"@, 200_000, 100_000, 1_100_000, 4_400_000, literal_texts(seq!["reasoning"])),
        fresh_profile("google/gemini-2.0-flash-001"@, 1_048_576, 8_192, 100_000, 400_000, literal_texts(seq!["general", "fast"])),
        fresh_profile("google/gemini-2.5-pro-preview-03-25"@, 1_048_576, 64_000, 1_250_000, 5_000_000, literal_texts(seq!["reasoning"])),
        fresh_profile("deepseek/deepseek-chat"@, 64_000, 8_192, 270_000, 1_100_000, literal_texts(seq!["general", "coding"])),
        fresh_profile("deepseek/deepseek-r1"@, 64_000, 8_192, 550_000, 2_190_000, literal_texts(seq!["reasoning", "coding"])),
        fresh_profile("mistralai/mistral-large-2411"@, 128_000, 8_192, 2_000_000, 6_000_000, literal_texts(seq!["general", "reasoning"])),
        fresh_profile("cohere/command-r7b-12-2024"@, 128_000, 4_096, 150_000, 600_000, literal_texts(seq!["general"])),
        fresh_profile("meta-llama/llama-3.3-70b-instruct"@, 128_000, 8_192, 250_000, 1_000_000, literal_texts(seq!["general"])),
        fresh_profile("qwen/qwen-2.5-72b-instruct"@, 32_768, 8_192, 350_000, 1_400_000, literal_texts(seq!["general", "coding"])),
    ]
}

fn openrouter() -> (c: ProviderConfig)
    ensures
        c.name@ == "openrouter"@,
        c.base_url@ == "https://openrouter.ai/api/v1"@,
        c.api_key_env@ == "OPENROUTER_API_KEY"@,
        c.notes@ == "OpenRouter — unified access to 300+ models"@,
        !c.native,
        profile_views(c.models@) == openrouter_models(),
{
    let c = config(
        "openrouter",
        "https://openrouter.ai/api/v1",
        "OPENROUTER_API_KEY",
        "OpenRouter — unified access to 300+ models",
        vec![
            model("openai/gpt-4o", 128_000, 16_384, 2_500_000, 10_000_000, vec!["general", "coding"]),
            model("openai/gpt-4o-mini", 128_000, 16_384, 150_000, 600_000, vec!["general", "fast"]),
            model("openai/o3-mini", 200_000, 100_000, 1_100_000, 4_400_000, vec!["reasoning"]),
            model("google/gemini-2.0-flash-001", 1_048_576, 8_192, 100_000, 400_000, vec!["general", "fast"]),
            model("google/gemini-2.5-pro-preview-03-25", 1_048_576, 64_000, 1_250_000, 5_000_000, vec!["reasoning"]),
            model("deepseek/deepseek-chat", 64_000, 8_192, 270_000, 1_100_000, vec!["general", "coding"]),
            model("deepseek/deepseek-r1", 64_000, 8_192, 550_000, 2_190_000, vec!["reasoning", "coding"]),
            model("mistralai/mistral-large-2411", 128_000, 8_192, 2_000_000, 6_000_000, vec!["general", "reasoning"]),
            model("cohere/command-r7b-12-2024", 128_000, 4_096, 150_000, 600_000, vec!["general"]),
            model("meta-llama/llama-3.3-70b-instruct", 128_000, 8_192, 250_000, 1_000_000, vec!["general"]),
            model("qwen/qwen-2.5-72b-instruct", 32_768, 8_192, 350_000, 1_400_000, vec!["general", "coding"]),
        ],
    );
    assert(profile_views(c.models@) =~~= openrouter_models());
    c
}

/// The models of the `litellm` slot, before registration.
pub open spec fn litellm_models() -> Seq<ModelProfileView> {
    seq![
        fresh_profile("litellm-proxy"@, 128_000, 16_384, 0, 0, literal_texts(seq!["general", "gateway"])),
    ]
}

fn litellm() -> (c: ProviderConfig)
    ensures
        c.name@ == "litellm"@,
        c.base_url@ == "http://localhost:4000/v1"@,
        c.api_key_env@ == "LITELLM_API_KEY"@,
        c.notes@ == "LiteLLM — unified proxy gateway (default http://localhost:4000)"@,
        !c.native,
        profile_views(c.models@) == litellm_models(),
{
    let c = config(
        "litellm",
        "http://localhost:4000/v1",
        "LITELLM_API_KEY",
        "LiteLLM — unified proxy gateway (default http://localhost:4000)",
        vec![
            model("litellm-proxy", 128_000, 16_384, 0, 0, vec!["general", "gateway"]),
        ],
    );
    assert(profile_views(c.models@) =~~= litellm_models());
    c
}

/// The models of the `cloudflare-ai-gateway` slot, before registration.
pub open spec fn cloudflare_ai_gateway_models() -> Seq<ModelProfileView> {
    seq![
        fresh_profile("cf-gateway"@, 128_000, 16_384, 0, 0, literal_texts(seq!["general", "gateway"])),
    ]
}

fn cloudflare_ai_gateway() -> (c: ProviderConfig)
    ensures
        c.name@ == "cloudflare-ai-gateway"@,
        c.base_url@ == "https://gateway.ai.cloudflare.com/v1"@,
        c.api_key_env@ == "CLOUDFLARE_AI_GATEWAY_KEY"@,
        c.notes@ == "Cloudflare AI Gateway"@,
        !c.native,
        profile_views(c.models@) == cloudflare_ai_gateway_models(),
{
    let c = config(
        "cloudflare-ai-gateway",
        "https://gateway.ai.cloudflare.com/v1",
        "CLOUDFLARE_AI_GATEWAY_KEY",
        "Cloudflare AI Gateway",
        vec![
            model("cf-gateway", 128_000, 16_384, 0, 0, vec!["general", "gateway"]),
        ],
    );
    assert(profile_views(c.models@) =~~= cloudflare_ai_gateway_models());
    c
}

/// The models of the `vercel-ai-gateway` slot, before registration.
pub open spec fn vercel_ai_gateway_models() -> Seq<ModelProfileView> {
    seq![
        fresh_profile("vercel-gateway"@, 128_000, 16_384, 0, 0, literal_texts(seq!["general", "gateway"])),
    ]
}

fn vercel_ai_gateway() -> (c: ProviderConfig)
    ensures
        c.name@ == "vercel-ai-gateway"@,
        c.base_url@ == "https://gateway.vercel.ai/v1"@,
        c.api_key_env@ == "VERCEL_AI_GATEWAY_KEY"@,
        c.notes@ == "Vercel AI Gateway"@,
        !c.native,
        profile_views(c.models@) == vercel_ai_gateway_models(),
{
    let c = config(
        "vercel-ai-gateway",
        "https://gateway.vercel.ai/v1",
        "VERCEL_AI_GATEWAY_KEY",
        "Vercel AI Gateway",
        vec![
            model("vercel-gateway", 128_000, 16_384, 0, 0, vec!["general", "gateway"]),
        ],
    );
    assert(profile_views(c.models@) =~~= vercel_ai_gateway_models());
    c
}

/// The models of the `together` slot, before registration.
pub open spec fn together_models() -> Seq<ModelProfileView> {
    seq![
        fresh_profile("meta-llama/Llama-3.3-70B-Instruct-Turbo"@, 128_000, 8_192, 400_000, 1_600_000, literal_texts(seq!["general", "reasoning"])),
        fresh_profile("meta-llama/Llama-3.2-90B-Vision-Instruct-Turbo"@, 128_000, 8_192, 800_000, 3_200_000, literal_texts(seq!["general", "vision"])),
        fresh_profile("mistralai/Mixtral-8x22B-Instruct-v0.1"@, 128_000, 8_192, 600_000, 2_400_000, literal_texts(seq!["general"])),
        fresh_profile("Qwen/Qwen2.5-72B-Instruct-Turbo"@, 32_768, 8_192, 350_000, 1_400_000, literal_texts(seq!["general", "coding"])),
        fresh_profile("deepseek-ai/DeepSeek-R1"@, 64_000, 8_192, 3_500_000, 7_000_000, literal_texts(seq!["reasoning", "coding"])),
    ]
}

fn together() -> (c: ProviderConfig)
    ensures
        c.name@ == "together"@,
        c.base_url@ == "https://api.together.xyz/v1"@,
        c.api_key_env@ == "TOGETHER_API_KEY"@,
        c.notes@ == "Together AI — hosted open models"@,
        !c.native,
        profile_views(c.models@) == together_models(),
{
    let c = config(
        "together",
        "https://api.together.xyz/v1",
        "TOGETHER_API_KEY",
        "Together AI — hosted open models",
        vec![
            model("meta-llama/Llama-3.3-70B-Instruct-Turbo", 128_000, 8_192, 400_000, 1_600_000, vec!["general", "reasoning"]),
            model("meta-llama/Llama-3.2-90B-Vision-Instruct-Turbo", 128_000, 8_192, 800_000, 3_200_000, vec!["general", "vision"]),
            model("mistralai/Mixtral-8x22B-Instruct-v0.1", 128_000, 8_192, 600_000, 2_400_000, vec!["general"]),
            model("Qwen/Qwen2.5-72B-Instruct-Turbo", 32_768, 8_192, 350_000, 1_400_000, vec!["general", "coding"]),
            model("deepseek-ai/DeepSeek-R1", 64_000, 8_192, 3_500_000, 7_000_000, vec!["reasoning", "coding"]),
        ],
    );
    assert(profile_views(c.models@) =~~= together_models());
    c
}

/// The models of the `fireworks` slot, before registration.
pub open spec fn fireworks_models() -> Seq<ModelProfileView> {
    seq![
        fresh_profile("accounts/fireworks/models/llama-v3p3-70b-instruct"@, 128_000, 8_192, 500_000, 2_000_000, literal_texts(seq!["general"])),
        fresh_profile("accounts/fireworks/models/deepseek-r1"@, 64_000, 8_192, 4_000_000, 8_000_000, literal_texts(seq!["reasoning"])),
        fresh_profile("accounts/fireworks/models/qwen2p5-72b-instruct"@, 32_768, 8_192, 400_000, 1_600_000, literal_texts(seq!["general", "coding"])),
        fresh_profile("accounts/fireworks/models/mixtral-8x22b-instruct"@, 128_000, 8_192, 800_000, 3_200_000, literal_texts(seq!["general"])),
    ]
}

fn fireworks() -> (c: ProviderConfig)
    ensures
        c.name@ == "fireworks"@,
        c.base_url@ == "https://api.fireworks.ai/inference/v1"@,
        c.api_key_env@ == "FIREWORKS_API_KEY"@,
        c.notes@ == "Fireworks AI — fast inference for open models"@,
        !c.native,
        profile_views(c.models@) == fireworks_models(),
{
    let c = config(
        "fireworks",
        "https://api.fireworks.ai/inference/v1",
        "FIREWORKS_API_KEY",
        "Fireworks AI — fast inference for open models",
        vec![
            model("accounts/fireworks/models/llama-v3p3-70b-instruct", 128_000, 8_192, 500_000, 2_000_000, vec!["general"]),
            model("accounts/fireworks/models/deepseek-r1", 64_000, 8_192, 4_000_000, 8_000_000, vec!["reasoning"]),
            model("accounts/fireworks/models/qwen2p5-72b-instruct", 32_768, 8_192, 400_000, 1_600_000, vec!["general", "coding"]),
            model("accounts/fireworks/models/mixtral-8x22b-instruct", 128_000, 8_192, 800_000, 3_200_000, vec!["general"]),
        ],
    );
    assert(profile_views(c.models@) =~~= fireworks_models());
    c
}

/// The models of the `groq` slot, before registration.
pub open spec fn groq_models() -> Seq<ModelProfileView> {
    seq![
        fresh_profile("llama-3.3-70b-versatile"@, 128_000, 32_768, 590_000, 790_000, literal_texts(seq!["general", "reasoning", "fast"])),
        fresh_profile("llama-3.1-8b-instant"@, 128_000, 8_192, 30_000, 30_000, literal_texts(seq!["general", "fast"])),
        fresh_profile("mixtral-8x7b-32768"@, 32_768, 8_192, 270_000, 270_000, literal_texts(seq!["general"])),
        fresh_profile("gemma2-9b-it"@, 8_192, 8_192, 100_000, 100_000, literal_texts(seq!["general", "fast"])),
        fresh_profile("deepseek-r1-distill-llama-70b"@, 128_000, 16_384, 750_000, 990_000, literal_texts(seq!["reasoning"])),
    ]
}

fn groq() -> (c: ProviderConfig)
    ensures
        c.name@ == "groq"@,
        c.base_url@ == "https://api.groq.com/openai/v1"@,
        c.api_key_env@ == "GROQ_API_KEY"@,
        c.notes@ == "Groq — LPU inference, extremely fast"@,
        !c.native,
        profile_views(c.models@) == groq_models(),
{
    let c = config(
        "groq",
        "https://api.groq.com/openai/v1",
        "GROQ_API_KEY",
        "Groq — LPU inference, extremely fast",
        vec![
            model("llama-3.3-70b-versatile", 128_000, 32_768, 590_000, 790_000, vec!["general", "reasoning", "fast"]),
            model("llama-3.1-8b-instant", 128_000, 8_192, 30_000, 30_000, vec!["general", "fast"]),
            model("mixtral-8x7b-32768", 32_768, 8_192, 270_000, 270_000, vec!["general"]),
            model("gemma2-9b-it", 8_192, 8_192, 100_000, 100_000, vec!["general", "fast"]),
            model("deepseek-r1-distill-llama-70b", 128_000, 16_384, 750_000, 990_000, vec!["reasoning"]),
        ],
    );
    assert(profile_views(c.models@) =~~= groq_models());
    c
}

/// The models of the `perplexity` slot, before registration.
pub open spec fn perplexity_models() -> Seq<ModelProfileView> {
    seq![
        fresh_profile("sonar-pro"@, 128_000, 4_096, 1_000_000, 1_000_000, literal_texts(seq!["general", "research", "search"])),
        fresh_profile("sonar"@, 128_000, 4_096, 500_000, 500_000, literal_texts(seq!["general", "search"])),
        fresh_profile("sonar-deep-research"@, 128_000, 8_192, 2_000_000, 2_000_000, literal_texts(seq!["research", "deep"])),
    ]
}

fn perplexity() -> (c: ProviderConfig)
    ensures
        c.name@ == "perplexity"@,
        c.base_url@ == "https://api.perplexity.ai"@,
        c.api_key_env@ == "PERPLEXITY_API_KEY"@,
        c.notes@ == "Perplexity — LLM with web search capability"@,
        !c.native,
        profile_views(c.models@) == perplexity_models(),
{
    let c = config(
        "perplexity",
        "https://api.perplexity.ai",
        "PERPLEXITY_API_KEY",
        "Perplexity — LLM with web search capability",
        vec![
            model("sonar-pro", 128_000, 4_096, 1_000_000, 1_000_000, vec!["general", "research", "search"]),
            model("sonar", 128_000, 4_096, 500_000, 500_000, vec!["general", "search"]),
            model("sonar-deep-research", 128_000, 8_192, 2_000_000, 2_000_000, vec!["research", "deep"]),
        ],
    );
    assert(profile_views(c.models@) =~~= perplexity_models());
    c
}

/// The models of the `cerebras` slot, before registration.
pub open spec fn cerebras_models() -> Seq<ModelProfileView> {
    seq![
        fresh_profile("cerebras/llama-3.3-70b"@, 128_000, 8_192, 500_000, 2_000_000, literal_texts(seq!["general"])),
    ]
}

fn cerebras() -> (c: ProviderConfig)
    ensures
        c.name@ == "cerebras"@,
        c.base_url@ == "https://api.cerebras.ai/v1"@,
        c.api_key_env@ == "CEREBRAS_API_KEY"@,
        c.notes@ == "Cerebras — wafer-scale inference"@,
        !c.native,
        profile_views(c.models@) == cerebras_models(),
{
    let c = config(
        "cerebras",
        "https://api.cerebras.ai/v1",
        "CEREBRAS_API_KEY",
        "Cerebras — wafer-scale inference",
        vec![
            model("cerebras/llama-3.3-70b", 128_000, 8_192, 500_000, 2_000_000, vec!["general"]),
        ],
    );
    assert(profile_views(c.models@) =~~= cerebras_models());
    c
}

/// The models of the `chutes` slot, before registration.
pub open spec fn chutes_models() -> Seq<ModelProfileView> {
    seq![
        fresh_profile("chutes-v1"@, 32_768, 8_192, 400_000, 1_600_000, literal_texts(seq!["general"])),
    ]
}

fn chutes() -> (c: ProviderConfig)
    ensures
        c.name@ == "chutes"@,
        c.base_url@ == "https://api.chutes.ai/v1"@,
        c.api_key_env@ == "CHUTES_API_KEY"@,
        c.notes@ == "Chutes AI — hosted open models"@,
        !c.native,
        profile_views(c.models@) == chutes_models(),
{
    let c = config(
        "chutes",
        "https://api.chutes.ai/v1",
        "CHUTES_API_KEY",
        "Chutes AI — hosted open models",
        vec![
            model("chutes-v1", 32_768, 8_192, 400_000, 1_600_000, vec!["general"]),
        ],
    );
    assert(profile_views(c.models@) =~~= chutes_models());
    c
}

/// The models of the `inferrs` slot, before registration.
pub open spec fn inferrs_models() -> Seq<ModelProfileView> {
    seq![
        fresh_profile("inferrs-v1"@, 32_768, 8_192, 300_000, 1_200_000, literal_texts(seq!["general"])),
    ]
}

fn inferrs() -> (c: ProviderConfig)
    ensures
        c.name@ == "inferrs"@,
        c.base_url@ == "https://api.inferrs.ai/v1"@,
        c.api_key_env@ == "INFERRS_API_KEY"@,
        c.notes@ == "Inferrs — local/cloud model hosting"@,
        !c.native,
        profile_views(c.models@) == inferrs_models(),
{
    let c = config(
        "inferrs",
        "https://api.inferrs.ai/v1",
        "INFERRS_API_KEY",
        "Inferrs — local/cloud model hosting",
        vec![
            model("inferrs-v1", 32_768, 8_192, 300_000, 1_200_000, vec!["general"]),
        ],
    );
    assert(profile_views(c.models@) =~~= inferrs_models());
    c
}

/// The models of the `alibaba` slot, before registration.
pub open spec fn alibaba_model_studio_models() -> Seq<ModelProfileView> {
    seq![
        fresh_profile("qwen-max"@, 32_768, 8_192, 1_600_000, 6_400_000, literal_texts(seq!["general", "reasoning"])),
        fresh_profile("qwen-plus"@, 131_072, 8_192, 400_000, 1_600_000, literal_texts(seq!["general", "coding"])),
        fresh_profile("qwen-turbo"@, 131_072, 8_192, 100_000, 400_000, literal_texts(seq!["general", "fast"])),
        fresh_profile("qwen2.5-72b-instruct"@, 32_768, 8_192, 800_000, 3_200_000, literal_texts(seq!["general"])),
    ]
}

fn alibaba_model_studio() -> (c: ProviderConfig)
    ensures
        c.name@ == "alibaba"@,
        c.base_url@ == "https://dashscope.aliyuncs.com/compatible-mode/v1"@,
        c.api_key_env@ == "ALIBABA_API_KEY"@,
        c.notes@ == "Alibaba Cloud Model Studio — Qwen models"@,
        !c.native,
        profile_views(c.models@) == alibaba_model_studio_models(),
{
    let c = config(
        "alibaba",
        "https://dashscope.aliyuncs.com/compatible-mode/v1",
        "ALIBABA_API_KEY",
        "Alibaba Cloud Model Studio — Qwen models",
        vec![
            model("qwen-max", 32_768, 8_192, 1_600_000, 6_400_000, vec!["general", "reasoning"]),
            model("qwen-plus", 131_072, 8_192, 400_000, 1_600_000, vec!["general", "coding"]),
            model("qwen-turbo", 131_072, 8_192, 100_000, 400_000, vec!["general", "fast"]),
            model("qwen2.5-72b-instruct", 32_768, 8_192, 800_000, 3_200_000, vec!["general"]),
        ],
    );
    assert(profile_views(c.models@) =~~= alibaba_model_studio_models());
    c
}

/// The models of the `qwen-cloud` slot, before registration.
pub open spec fn qwen_cloud_models() -> Seq<ModelProfileView> {
    seq![
        fresh_profile("qwen-max"@, 32_768, 8_192, 1_600_000, 6_400_000, literal_texts(seq!["general", "reasoning"])),
        fresh_profile("qwen-plus"@, 131_072, 8_192, 400_000, 1_600_000, literal_texts(seq!["general", "coding"])),
        fresh_profile("qwen-turbo"@, 131_072, 8_192, 100_000, 400_000, literal_texts(seq!["general", "fast"])),
    ]
}

fn qwen_cloud() -> (c: ProviderConfig)
    ensures
        c.name@ == "qwen-cloud"@,
        c.base_url@ == "https://dashscope-intl.aliyuncs.com/compatible-mode/v1"@,
        c.api_key_env@ == "QWEN_API_KEY"@,
        c.notes@ == "Qwen Cloud (international region)"@,
        !c.native,
        profile_views(c.models@) == qwen_cloud_models(),
{
    let c = config(
        "qwen-cloud",
        "https://dashscope-intl.aliyuncs.com/compatible-mode/v1",
        "QWEN_API_KEY",
        "Qwen Cloud (international region)",
        vec![
            model("qwen-max", 32_768, 8_192, 1_600_000, 6_400_000, vec!["general", "reasoning"]),
            model("qwen-plus", 131_072, 8_192, 400_000, 1_600_000, vec!["general", "coding"]),
            model("qwen-turbo", 131_072, 8_192, 100_000, 400_000, vec!["general", "fast"]),
        ],
    );
    assert(profile_views(c.models@) =~~= qwen_cloud_models());
    c
}

/// The models of the `volcengine` slot, before registration.
pub open spec fn volcengine_models() -> Seq<ModelProfileView> {
    seq![
        fresh_profile("doubao-pro-32k"@, 32_768, 8_192, 400_000, 1_600_000, literal_texts(seq!["general"])),
        fresh_profile("doubao-pro-128k"@, 128_000, 8_192, 1_200_000, 4_800_000, literal_texts(seq!["general", "long"])),
        fresh_profile("doubao-lite-32k"@, 32_768, 8_192, 100_000, 400_000, literal_texts(seq!["general", "fast"])),
    ]
}

fn volcengine() -> (c: ProviderConfig)
    ensures
        c.name@ == "volcengine"@,
        c.base_url@ == "https://ark.cn-beijing.volces.com/api/v3"@,
        c.api_key_env@ == "VOLCENGINE_API_KEY"@,
        c.notes@ == "Volcengine — Doubao models (ByteDance)"@,
        !c.native,
        profile_views(c.models@) == volcengine_models(),
{
    let c = config(
        "volcengine",
        "https://ark.cn-beijing.volces.com/api/v3",
        "VOLCENGINE_API_KEY",
        "Volcengine — Doubao models (ByteDance)",
        vec![
            model("doubao-pro-32k", 32_768, 8_192, 400_000, 1_600_000, vec!["general"]),
            model("doubao-pro-128k", 128_000, 8_192, 1_200_000, 4_800_000, vec!["general", "long"]),
            model("doubao-lite-32k", 32_768, 8_192, 100_000, 400_000, vec!["general", "fast"]),
        ],
    );
    assert(profile_views(c.models@) =~~= volcengine_models());
    c
}

/// The models of the `tencent` slot, before registration.
pub open spec fn tencent_cloud_models() -> Seq<ModelProfileView> {
    seq![
        fresh_profile("hunyuan-turbo"@, 256_000, 8_192, 1_200_000, 4_800_000, literal_texts(seq!["general", "reasoning"])),
        fresh_profile("hunyuan-standard"@, 256_000, 8_192, 300_000, 1_200_000, literal_texts(seq!["general"])),
    ]
}

fn tencent_cloud() -> (c: ProviderConfig)
    ensures
        c.name@ == "tencent"@,
        c.base_url@ == "https://api.hunyuan.cloud.tencent.com/v1"@,
        c.api_key_env@ == "TENCENT_API_KEY"@,
        c.notes@ == "Tencent Cloud — Hunyuan (TokenHub)"@,
        !c.native,
        profile_views(c.models@) == tencent_cloud_models(),
{
    let c = config(
        "tencent",
        "https://api.hunyuan.cloud.tencent.com/v1",
        "TENCENT_API_KEY",
        "Tencent Cloud — Hunyuan (TokenHub)",
        vec![
            model("hunyuan-turbo", 256_000, 8_192, 1_200_000, 4_800_000, vec!["general", "reasoning"]),
            model("hunyuan-standard", 256_000, 8_192, 300_000, 1_200_000, vec!["general"]),
        ],
    );
    assert(profile_views(c.models@) =~~= tencent_cloud_models());
    c
}

/// The models of the `qianfan` slot, before registration.
pub open spec fn baidu_qianfan_models() -> Seq<ModelProfileView> {
    seq![
        fresh_profile("ernie-4.0-8k"@, 8_192, 4_096, 1_200_000, 4_800_000, literal_texts(seq!["general", "reasoning"])),
        fresh_profile("ernie-3.5-8k"@, 8_192, 4_096, 300_000, 1_200_000, literal_texts(seq!["general"])),
    ]
}

fn baidu_qianfan() -> (c: ProviderConfig)
    ensures
        c.name@ == "qianfan"@,
        c.base_url@ == "https://aip.baidubce.com/rpc/2.0/ai_custom/v1/wenxinworkshop/chat"@,
        c.api_key_env@ == "QIANFAN_API_KEY"@,
        c.notes@ == "Baidu Qianfan — ERNIE models"@,
        !c.native,
        profile_views(c.models@) == baidu_qianfan_models(),
{
    let c = config(
        "qianfan",
        "https://aip.baidubce.com/rpc/2.0/ai_custom/v1/wenxinworkshop/chat",
        "QIANFAN_API_KEY",
        "Baidu Qianfan — ERNIE models",
        vec![
            model("ernie-4.0-8k", 8_192, 4_096, 1_200_000, 4_800_000, vec!["general", "reasoning"]),
            model("ernie-3.5-8k", 8_192, 4_096, 300_000, 1_200_000, vec!["general"]),
        ],
    );
    assert(profile_views(c.models@) =~~= baidu_qianfan_models());
    c
}

/// The models of the `stepfun` slot, before registration.
pub open spec fn stepfun_models() -> Seq<ModelProfileView> {
    seq![
        fresh_profile("step-2-16k"@, 16_384, 8_192, 500_000, 2_000_000, literal_texts(seq!["general"])),
        fresh_profile("step-1-8k"@, 8_192, 8_192, 200_000, 800_000, literal_texts(seq!["general", "fast"])),
    ]
}

fn stepfun() -> (c: ProviderConfig)
    ensures
        c.name@ == "stepfun"@,
        c.base_url@ == "https://api.stepfun.com/v1"@,
        c.api_key_env@ == "STEPFUN_API_KEY"@,
        c.notes@ == "StepFun — Step-2, Step-1 models"@,
        !c.native,
        profile_views(c.models@) == stepfun_models(),
{
    let c = config(
        "stepfun",
        "https://api.stepfun.com/v1",
        "STEPFUN_API_KEY",
        "StepFun — Step-2, Step-1 models",
        vec![
            model("step-2-16k", 16_384, 8_192, 500_000, 2_000_000, vec!["general"]),
            model("step-1-8k", 8_192, 8_192, 200_000, 800_000, vec!["general", "fast"]),
        ],
    );
    assert(profile_views(c.models@) =~~= stepfun_models());
    c
}

/// The models of the `minimax` slot, before registration.
pub open spec fn minimax_models() -> Seq<ModelProfileView> {
    seq![
        fresh_profile("minimax-text-01"@, 128_000, 8_192, 400_000, 1_600_000, literal_texts(seq!["general"])),
        fresh_profile("minimax-vl-01"@, 128_000, 8_192, 600_000, 2_400_000, literal_texts(seq!["general", "vision"])),
    ]
}

fn minimax() -> (c: ProviderConfig)
    ensures
        c.name@ == "minimax"@,
        c.base_url@ == "https://api.minimax.chat/v1"@,
        c.api_key_env@ == "MINIMAX_API_KEY"@,
        c.notes@ == "MiniMax — MiniMax-Text, MiniMax-VL"@,
        !c.native,
        profile_views(c.models@) == minimax_models(),
{
    let c = config(
        "minimax",
        "https://api.minimax.chat/v1",
        "MINIMAX_API_KEY",
        "MiniMax — MiniMax-Text, MiniMax-VL",
        vec![
            model("minimax-text-01", 128_000, 8_192, 400_000, 1_600_000, vec!["general"]),
            model("minimax-vl-01", 128_000, 8_192, 600_000, 2_400_000, vec!["general", "vision"]),
        ],
    );
    assert(profile_views(c.models@) =~~= minimax_models());
    c
}

/// The models of the `zhipu` slot, before registration.
pub open spec fn zhipu_glm_models() -> Seq<ModelProfileView> {
    seq![
        fresh_profile("glm-4-plus"@, 128_000, 8_192, 500_000, 2_000_000, literal_texts(seq!["general", "reasoning"])),
        fresh_profile("glm-4-flash"@, 128_000, 8_192, 100_000, 400_000, literal_texts(seq!["general", "fast"])),
        fresh_profile("glm-4v-plus"@, 128_000, 8_192, 800_000, 3_200_000, literal_texts(seq!["general", "vision"])),
    ]
}

fn zhipu_glm() -> (c: ProviderConfig)
    ensures
        c.name@ == "zhipu"@,
        c.base_url@ == "https://open.bigmodel.cn/api/paas/v4"@,
        c.api_key_env@ == "ZHIPU_API_KEY"@,
        c.notes@ == "Zhipu AI — GLM-4 series"@,
        !c.native,
        profile_views(c.models@) == zhipu_glm_models(),
{
    let c = config(
        "zhipu",
        "https://open.bigmodel.cn/api/paas/v4",
        "ZHIPU_API_KEY",
        "Zhipu AI — GLM-4 series",
        vec![
            model("glm-4-plus", 128_000, 8_192, 500_000, 2_000_000, vec!["general", "reasoning"]),
            model("glm-4-flash", 128_000, 8_192, 100_000, 400_000, vec!["general", "fast"]),
            model("glm-4v-plus", 128_000, 8_192, 800_000, 3_200_000, vec!["general", "vision"]),
        ],
    );
    assert(profile_views(c.models@) =~~= zhipu_glm_models());
    c
}

/// The models of the `xiaomi` slot, before registration.
pub open spec fn xiaomi_models() -> Seq<ModelProfileView> {
    seq![
        fresh_profile("milv-2.0"@, 32_768, 8_192, 300_000, 1_200_000, literal_texts(seq!["general"])),
    ]
}

fn xiaomi() -> (c: ProviderConfig)
    ensures
        c.name@ == "xiaomi"@,
        c.base_url@ == "https://api.mi.com/v1"@,
        c.api_key_env@ == "XIAOMI_API_KEY"@,
        c.notes@ == "Xiaomi AI — MiLM models"@,
        !c.native,
        profile_views(c.models@) == xiaomi_models(),
{
    let c = config(
        "xiaomi",
        "https://api.mi.com/v1",
        "XIAOMI_API_KEY",
        "Xiaomi AI — MiLM models",
        vec![
            model("milv-2.0", 32_768, 8_192, 300_000, 1_200_000, vec!["general"]),
        ],
    );
    assert(profile_views(c.models@) =~~= xiaomi_models());
    c
}

/// The models of the `byteplus` slot, before registration.
pub open spec fn bytedance_byteplus_models() -> Seq<ModelProfileView> {
    seq![
        fresh_profile("doubao-pro-32k"@, 32_768, 8_192, 400_000, 1_600_000, literal_texts(seq!["general"])),
        fresh_profile("doubao-lite-32k"@, 32_768, 8_192, 100_000, 400_000, literal_texts(seq!["general", "fast"])),
    ]
}

fn bytedance_byteplus() -> (c: ProviderConfig)
    ensures
        c.name@ == "byteplus"@,
        c.base_url@ == "https://ark.byteplus.com/api/v3"@,
        c.api_key_env@ == "BYTEPLUS_API_KEY"@,
        c.notes@ == "BytePlus (International) — Doubao models"@,
        !c.native,
        profile_views(c.models@) == bytedance_byteplus_models(),
{
    let c = config(
        "byteplus",
        "https://ark.byteplus.com/api/v3",
        "BYTEPLUS_API_KEY",
        "BytePlus (International) — Doubao models",
        vec![
            model("doubao-pro-32k", 32_768, 8_192, 400_000, 1_600_000, vec!["general"]),
            model("doubao-lite-32k", 32_768, 8_192, 100_000, 400_000, vec!["general", "fast"]),
        ],
    );
    assert(profile_views(c.models@) =~~= bytedance_byteplus_models());
    c
}

/// The models of the `novita` slot, before registration.
pub open spec fn novita_models() -> Seq<ModelProfileView> {
    seq![
        fresh_profile("meta-llama/llama-3.3-70b-instruct"@, 128_000, 8_192, 450_000, 1_800_000, literal_texts(seq!["general"])),
        fresh_profile("deepseek/deepseek-r1"@, 64_000, 8_192, 800_000, 3_200_000, literal_texts(seq!["reasoning"])),
    ]
}

fn novita() -> (c: ProviderConfig)
    ensures
        c.name@ == "novita"@,
        c.base_url@ == "https://api.novita.ai/v3/openai"@,
        c.api_key_env@ == "NOVITA_API_KEY"@,
        c.notes@ == "Novita AI — hosted open models"@,
        !c.native,
        profile_views(c.models@) == novita_models(),
{
    let c = config(
        "novita",
        "https://api.novita.ai/v3/openai",
        "NOVITA_API_KEY",
        "Novita AI — hosted open models",
        vec![
            model("meta-llama/llama-3.3-70b-instruct", 128_000, 8_192, 450_000, 1_800_000, vec!["general"]),
            model("deepseek/deepseek-r1", 64_000, 8_192, 800_000, 3_200_000, vec!["reasoning"]),
        ],
    );
    assert(profile_views(c.models@) =~~= novita_models());
    c
}

/// The models of the `kilocode` slot, before registration.
pub open spec fn kilocode_models() -> Seq<ModelProfileView> {
    seq![
        fresh_profile("kilocode-v1"@, 128_000, 16_384, 500_000, 2_000_000, literal_texts(seq!["coding"])),
    ]
}

fn kilocode() -> (c: ProviderConfig)
    ensures
        c.name@ == "kilocode"@,
        c.base_url@ == "https://api.kilocode.ai/v1"@,
        c.api_key_env@ == "KILOCODE_API_KEY"@,
        c.notes@ == "Kilocode — coding-focused models"@,
        !c.native,
        profile_views(c.models@) == kilocode_models(),
{
    let c = config(
        "kilocode",
        "https://api.kilocode.ai/v1",
        "KILOCODE_API_KEY",
        "Kilocode — coding-focused models",
        vec![
            model("kilocode-v1", 128_000, 16_384, 500_000, 2_000_000, vec!["coding"]),
        ],
    );
    assert(profile_views(c.models@) =~~= kilocode_models());
    c
}

/// The models of the `venice` slot, before registration.
pub open spec fn venice_models() -> Seq<ModelProfileView> {
    seq![
        fresh_profile("venice-v1"@, 32_768, 8_192, 500_000, 2_000_000, literal_texts(seq!["general"])),
    ]
}

fn venice() -> (c: ProviderConfig)
    ensures
        c.name@ == "venice"@,
        c.base_url@ == "https://api.venice.ai/api/v1"@,
        c.api_key_env@ == "VENICE_API_KEY"@,
        c.notes@ == "Venice AI — privacy-focused inference"@,
        !c.native,
        profile_views(c.models@) == venice_models(),
{
    let c = config(
        "venice",
        "https://api.venice.ai/api/v1",
        "VENICE_API_KEY",
        "Venice AI — privacy-focused inference",
        vec![
            model("venice-v1", 32_768, 8_192, 500_000, 2_000_000, vec!["general"]),
        ],
    );
    assert(profile_views(c.models@) =~~= venice_models());
    c
}

/// The models of the `synthetic` slot, before registration.
pub open spec fn synthex_models() -> Seq<ModelProfileView> {
    seq![
        fresh_profile("synthetic-v1"@, 128_000, 8_192, 1_000_000, 4_000_000, literal_texts(seq!["general"])),
    ]
}

fn synthex() -> (c: ProviderConfig)
    ensures
        c.name@ == "synthetic"@,
        c.base_url@ == "https://api.synthetic.ai/v1"@,
        c.api_key_env@ == "SYNTHETIC_API_KEY"@,
        c.notes@ == "Synthetic AI — enterprise models"@,
        !c.native,
        profile_views(c.models@) == synthex_models(),
{
    let c = config(
        "synthetic",
        "https://api.synthetic.ai/v1",
        "SYNTHETIC_API_KEY",
        "Synthetic AI — enterprise models",
        vec![
            model("synthetic-v1", 128_000, 8_192, 1_000_000, 4_000_000, vec!["general"]),
        ],
    );
    assert(profile_views(c.models@) =~~= synthex_models());
    c
}

/// The models of the `gradium` slot, before registration.
pub open spec fn gradium_models() -> Seq<ModelProfileView> {
    seq![
        fresh_profile("gradium-v1"@, 32_768, 8_192, 500_000, 2_000_000, literal_texts(seq!["general"])),
    ]
}

fn gradium() -> (c: ProviderConfig)
    ensures
        c.name@ == "gradium"@,
        c.base_url@ == "https://api.gradium.ai/v1"@,
        c.api_key_env@ == "GRADIUM_API_KEY"@,
        c.notes@ == "Gradium AI inference"@,
        !c.native,
        profile_views(c.models@) == gradium_models(),
{
    let c = config(
        "gradium",
        "https://api.gradium.ai/v1",
        "GRADIUM_API_KEY",
        "Gradium AI inference",
        vec![
            model("gradium-v1", 32_768, 8_192, 500_000, 2_000_000, vec!["general"]),
        ],
    );
    assert(profile_views(c.models@) =~~= gradium_models());
    c
}

/// The models of the `gmi-cloud` slot, before registration.
pub open spec fn gmi_cloud_models() -> Seq<ModelProfileView> {
    seq![
        fresh_profile("gmi-v1"@, 32_768, 8_192, 500_000, 2_000_000, literal_texts(seq!["general"])),
    ]
}

fn gmi_cloud() -> (c: ProviderConfig)
    ensures
        c.name@ == "gmi-cloud"@,
        c.base_url@ == "https://api.gmicloud.ai/v1"@,
        c.api_key_env@ == "GMI_CLOUD_API_KEY"@,
        c.notes@ == "GMI Cloud — GPU cloud inference"@,
        !c.native,
        profile_views(c.models@) == gmi_cloud_models(),
{
    let c = config(
        "gmi-cloud",
        "https://api.gmicloud.ai/v1",
        "GMI_CLOUD_API_KEY",
        "GMI Cloud — GPU cloud inference",
        vec![
            model("gmi-v1", 32_768, 8_192, 500_000, 2_000_000, vec!["general"]),
        ],
    );
    assert(profile_views(c.models@) =~~= gmi_cloud_models());
    c
}

/// The models of the `arcee` slot, before registration.
pub open spec fn arcee_models() -> Seq<ModelProfileView> {
    seq![
        fresh_profile("trinity-v1"@, 32_768, 8_192, 500_000, 2_000_000, literal_texts(seq!["general", "coding"])),
    ]
}

fn arcee() -> (c: ProviderConfig)
    ensures
        c.name@ == "arcee"@,
        c.base_url@ == "https://api.arcee.ai/v1"@,
        c.api_key_env@ == "ARCEE_API_KEY"@,
        c.notes@ == "Arcee AI — Trinity, specialized models"@,
        !c.native,
        profile_views(c.models@) == arcee_models(),
{
    let c = config(
        "arcee",
        "https://api.arcee.ai/v1",
        "ARCEE_API_KEY",
        "Arcee AI — Trinity, specialized models",
        vec![
            model("trinity-v1", 32_768, 8_192, 500_000, 2_000_000, vec!["general", "coding"]),
        ],
    );
    assert(profile_views(c.models@) =~~= arcee_models());
    c
}

/// The models of the `chutes-alt` slot, before registration.
pub open spec fn chutes_alt_models() -> Seq<ModelProfileView> {
    seq![
        fresh_profile("chutes-alt-v1"@, 32_768, 8_192, 400_000, 1_600_000, literal_texts(seq!["general"])),
    ]
}

fn chutes_alt() -> (c: ProviderConfig)
    ensures
        c.name@ == "chutes-alt"@,
        c.base_url@ == "https://alt.chutes.ai/v1"@,
        c.api_key_env@ == "CHUTES_ALT_API_KEY"@,
        c.notes@ == "Chutes (alternative endpoint)"@,
        !c.native,
        profile_views(c.models@) == chutes_alt_models(),
{
    let c = config(
        "chutes-alt",
        "https://alt.chutes.ai/v1",
        "CHUTES_ALT_API_KEY",
        "Chutes (alternative endpoint)",
        vec![
            model("chutes-alt-v1", 32_768, 8_192, 400_000, 1_600_000, vec!["general"]),
        ],
    );
    assert(profile_views(c.models@) =~~= chutes_alt_models());
    c
}

/// The models of the `ollama` slot, before registration.
pub open spec fn ollama_models() -> Seq<ModelProfileView> {
    seq![
        fresh_profile("llama3.3:70b"@, 128_000, 8_192, 0, 0, literal_texts(seq!["general", "local"])),
        fresh_profile("llama3.2:3b"@, 128_000, 8_192, 0, 0, literal_texts(seq!["general", "fast", "local"])),
        fresh_profile("qwen2.5:72b"@, 32_768, 8_192, 0, 0, literal_texts(seq!["general", "local"])),
        fresh_profile("mistral:7b"@, 32_768, 8_192, 0, 0, literal_texts(seq!["general", "fast", "local"])),
        fresh_profile("deepseek-r1:70b"@, 128_000, 8_192, 0, 0, literal_texts(seq!["reasoning", "local"])),
        fresh_profile("phi4:14b"@, 16_384, 8_192, 0, 0, literal_texts(seq!["general", "local"])),
    ]
}

fn ollama() -> (c: ProviderConfig)
    ensures
        c.name@ == "ollama"@,
        c.base_url@ == "http://localhost:11434/v1"@,
        c.api_key_env@ == "OLLAMA_API_KEY"@,
        c.notes@ == "Ollama — local models (default http://localhost:11434)"@,
        !c.native,
        profile_views(c.models@) == ollama_models(),
{
    let c = config(
        "ollama",
        "http://localhost:11434/v1",
        "OLLAMA_API_KEY",
        "Ollama — local models (default http://localhost:11434)",
        vec![
            model("llama3.3:70b", 128_000, 8_192, 0, 0, vec!["general", "local"]),
            model("llama3.2:3b", 128_000, 8_192, 0, 0, vec!["general", "fast", "local"]),
            model("qwen2.5:72b", 32_768, 8_192, 0, 0, vec!["general", "local"]),
            model("mistral:7b", 32_768, 8_192, 0, 0, vec!["general", "fast", "local"]),
            model("deepseek-r1:70b", 128_000, 8_192, 0, 0, vec!["reasoning", "local"]),
            model("phi4:14b", 16_384, 8_192, 0, 0, vec!["general", "local"]),
        ],
    );
    assert(profile_views(c.models@) =~~= ollama_models());
    c
}

/// The models of the `lm-studio` slot, before registration.
pub open spec fn lm_studio_models() -> Seq<ModelProfileView> {
    seq![
        fresh_profile("local-model"@, 32_768, 8_192, 0, 0, literal_texts(seq!["general", "local"])),
    ]
}

fn lm_studio() -> (c: ProviderConfig)
    ensures
        c.name@ == "lm-studio"@,
        c.base_url@ == "http://localhost:1234/v1"@,
        c.api_key_env@ == "LM_STUDIO_API_KEY"@,
        c.notes@ == "LM Studio — local models (default http://localhost:1234)"@,
        !c.native,
        profile_views(c.models@) == lm_studio_models(),
{
    let c = config(
        "lm-studio",
        "http://localhost:1234/v1",
        "LM_STUDIO_API_KEY",
        "LM Studio — local models (default http://localhost:1234)",
        vec![
            model("local-model", 32_768, 8_192, 0, 0, vec!["general", "local"]),
        ],
    );
    assert(profile_views(c.models@) =~~= lm_studio_models());
    c
}

/// The models of the `sglang` slot, before registration.
pub open spec fn sglang_models() -> Seq<ModelProfileView> {
    seq![
        fresh_profile("local-model"@, 32_768, 8_192, 0, 0, literal_texts(seq!["general", "local"])),
    ]
}

fn sglang() -> (c: ProviderConfig)
    ensures
        c.name@ == "sglang"@,
        c.base_url@ == "http://localhost:30000/v1"@,
        c.api_key_env@ == "SGLANG_API_KEY"@,
        c.notes@ == "SGLang — local inference server"@,
        !c.native,
        profile_views(c.models@) == sglang_models(),
{
    let c = config(
        "sglang",
        "http://localhost:30000/v1",
        "SGLANG_API_KEY",
        "SGLang — local inference server",
        vec![
            model("local-model", 32_768, 8_192, 0, 0, vec!["general", "local"]),
        ],
    );
    assert(profile_views(c.models@) =~~= sglang_models());
    c
}

/// The models of the `vllm` slot, before registration.
pub open spec fn vllm_models() -> Seq<ModelProfileView> {
    seq![
        fresh_profile("local-model"@, 32_768, 8_192, 0, 0, literal_texts(seq!["general", "local"])),
    ]
}

fn vllm() -> (c: ProviderConfig)
    ensures
        c.name@ == "vllm"@,
        c.base_url@ == "http://localhost:8000/v1"@,
        c.api_key_env@ == "VLLM_API_KEY"@,
        c.notes@ == "vLLM — local inference server"@,
        !c.native,
        profile_views(c.models@) == vllm_models(),
{
    let c = config(
        "vllm",
        "http://localhost:8000/v1",
        "VLLM_API_KEY",
        "vLLM — local inference server",
        vec![
            model("local-model", 32_768, 8_192, 0, 0, vec!["general", "local"]),
        ],
    );
    assert(profile_views(c.models@) =~~= vllm_models());
    c
}

/// The models of the `ds4-local` slot, before registration.
pub open spec fn ds4_local_models() -> Seq<ModelProfileView> {
    seq![
        fresh_profile("deepseek-v4-local"@, 128_000, 16_384, 0, 0, literal_texts(seq!["general", "reasoning", "local"])),
    ]
}

fn ds4_local() -> (c: ProviderConfig)
    ensures
        c.name@ == "ds4-local"@,
        c.base_url@ == "http://localhost:8080/v1"@,
        c.api_key_env@ == "DS4_API_KEY"@,
        c.notes@ == "DeepSeek V4 locally hosted"@,
        !c.native,
        profile_views(c.models@) == ds4_local_models(),
{
    let c = config(
        "ds4-local",
        "http://localhost:8080/v1",
        "DS4_API_KEY",
        "DeepSeek V4 locally hosted",
        vec![
            model("deepseek-v4-local", 128_000, 16_384, 0, 0, vec!["general", "reasoning", "local"]),
        ],
    );
    assert(profile_views(c.models@) =~~= ds4_local_models());
    c
}

/// The models of the `fal` slot, before registration.
pub open spec fn fal_ai_models() -> Seq<ModelProfileView> {
    seq![
        fresh_profile("fal-ai/default"@, 4_096, 4_096, 500_000, 500_000, literal_texts(seq!["image", "video"])),
    ]
}

fn fal_ai() -> (c: ProviderConfig)
    ensures
        c.name@ == "fal"@,
        c.base_url@ == "https://api.fal.ai/v1"@,
        c.api_key_env@ == "FAL_API_KEY"@,
        c.notes@ == "fal.ai — image, video, audio generation"@,
        !c.native,
        profile_views(c.models@) == fal_ai_models(),
{
    let c = config(
        "fal",
        "https://api.fal.ai/v1",
        "FAL_API_KEY",
        "fal.ai — image, video, audio generation",
        vec![
            model("fal-ai/default", 4_096, 4_096, 500_000, 500_000, vec!["image", "video"]),
        ],
    );
    assert(profile_views(c.models@) =~~= fal_ai_models());
    c
}

/// The models of the `runway` slot, before registration.
pub open spec fn runway_models() -> Seq<ModelProfileView> {
    seq![
        fresh_profile("runway/gen3"@, 4_096, 4_096, 2_000_000, 2_000_000, literal_texts(seq!["video"])),
    ]
}

fn runway() -> (c: ProviderConfig)
    ensures
        c.name@ == "runway"@,
        c.base_url@ == "https://api.runwayml.com/v1"@,
        c.api_key_env@ == "RUNWAY_API_KEY"@,
        c.notes@ == "Runway ML — video generation models"@,
        !c.native,
        profile_views(c.models@) == runway_models(),
{
    let c = config(
        "runway",
        "https://api.runwayml.com/v1",
        "RUNWAY_API_KEY",
        "Runway ML — video generation models",
        vec![
            model("runway/gen3", 4_096, 4_096, 2_000_000, 2_000_000, vec!["video"]),
        ],
    );
    assert(profile_views(c.models@) =~~= runway_models());
    c
}

/// The models of the `comfyui` slot, before registration.
pub open spec fn comfyui_models() -> Seq<ModelProfileView> {
    seq![
        fresh_profile("comfyui/default"@, 4_096, 4_096, 0, 0, literal_texts(seq!["image", "local"])),
    ]
}

fn comfyui() -> (c: ProviderConfig)
    ensures
        c.name@ == "comfyui"@,
        c.base_url@ == "http://localhost:8188"@,
        c.api_key_env@ == "COMFYUI_API_KEY"@,
        c.notes@ == "ComfyUI — local image generation"@,
        !c.native,
        profile_views(c.models@) == comfyui_models(),
{
    let c = config(
        "comfyui",
        "http://localhost:8188",
        "COMFYUI_API_KEY",
        "ComfyUI — local image generation",
        vec![
            model("comfyui/default", 4_096, 4_096, 0, 0, vec!["image", "local"]),
        ],
    );
    assert(profile_views(c.models@) =~~= comfyui_models());
    c
}

/// The models of the `elevenlabs` slot, before registration.
pub open spec fn elevenlabs_models() -> Seq<ModelProfileView> {
    seq![
        fresh_profile("elevenlabs/default"@, 4_096, 4_096, 500_000, 500_000, literal_texts(seq!["audio", "tts"])),
    ]
}

fn elevenlabs() -> (c: ProviderConfig)
    ensures
        c.name@ == "elevenlabs"@,
        c.base_url@ == "https://api.elevenlabs.io/v1"@,
        c.api_key_env@ == "ELEVENLABS_API_KEY"@,
        c.notes@ == "ElevenLabs — text-to-speech, voice cloning"@,
        !c.native,
        profile_views(c.models@) == elevenlabs_models(),
{
    let c = config(
        "elevenlabs",
        "https://api.elevenlabs.io/v1",
        "ELEVENLABS_API_KEY",
        "ElevenLabs — text-to-speech, voice cloning",
        vec![
            model("elevenlabs/default", 4_096, 4_096, 500_000, 500_000, vec!["audio", "tts"]),
        ],
    );
    assert(profile_views(c.models@) =~~= elevenlabs_models());
    c
}

/// The models of the `github-copilot` slot, before registration.
pub open spec fn github_copilot_models() -> Seq<ModelProfileView> {
    seq![
        fresh_profile("copilot/gpt-4o"@, 128_000, 8_192, 0, 0, literal_texts(seq!["coding"])),
    ]
}

fn github_copilot() -> (c: ProviderConfig)
    ensures
        c.name@ == "github-copilot"@,
        c.base_url@ == "https://api.githubcopilot.com"@,
        c.api_key_env@ == "GITHUB_TOKEN"@,
        c.notes@ == "GitHub Copilot — code completion & chat"@,
        !c.native,
        profile_views(c.models@) == github_copilot_models(),
{
    let c = config(
        "github-copilot",
        "https://api.githubcopilot.com",
        "GITHUB_TOKEN",
        "GitHub Copilot — code completion & chat",
        vec![
            model("copilot/gpt-4o", 128_000, 8_192, 0, 0, vec!["coding"]),
        ],
    );
    assert(profile_views(c.models@) =~~= github_copilot_models());
    c
}

/// The models of the `huggingface` slot, before registration.
pub open spec fn huggingface_models() -> Seq<ModelProfileView> {
    seq![
        fresh_profile("meta-llama/Llama-3.3-70B-Instruct"@, 128_000, 8_192, 200_000, 800_000, literal_texts(seq!["general"])),
        fresh_profile("microsoft/Phi-4"@, 16_384, 8_192, 100_000, 400_000, literal_texts(seq!["general", "fast"])),
        fresh_profile("google/gemma-2-27b-it"@, 8_192, 8_192, 150_000, 600_000, literal_texts(seq!["general"])),
    ]
}

fn huggingface() -> (c: ProviderConfig)
    ensures
        c.name@ == "huggingface"@,
        c.base_url@ == "https://api-inference.huggingface.co/v1"@,
        c.api_key_env@ == "HUGGINGFACE_API_KEY"@,
        c.notes@ == "Hugging Face Inference API"@,
        !c.native,
        profile_views(c.models@) == huggingface_models(),
{
    let c = config(
        "huggingface",
        "https://api-inference.huggingface.co/v1",
        "HUGGINGFACE_API_KEY",
        "Hugging Face Inference API",
        vec![
            model("meta-llama/Llama-3.3-70B-Instruct", 128_000, 8_192, 200_000, 800_000, vec!["general"]),
            model("microsoft/Phi-4", 16_384, 8_192, 100_000, 400_000, vec!["general", "fast"]),
            model("google/gemma-2-27b-it", 8_192, 8_192, 150_000, 600_000, vec!["general"]),
        ],
    );
    assert(profile_views(c.models@) =~~= huggingface_models());
    c
}

/// The models of the `senseaudio` slot, before registration.
pub open spec fn sense_audio_models() -> Seq<ModelProfileView> {
    seq![
        fresh_profile("senseaudio/default"@, 4_096, 4_096, 500_000, 500_000, literal_texts(seq!["audio"])),
    ]
}

fn sense_audio() -> (c: ProviderConfig)
    ensures
        c.name@ == "senseaudio"@,
        c.base_url@ == "https://api.senseaudio.ai/v1"@,
        c.api_key_env@ == "SENSEAUDIO_API_KEY"@,
        c.notes@ == "SenseAudio — audio generation models"@,
        !c.native,
        profile_views(c.models@) == sense_audio_models(),
{
    let c = config(
        "senseaudio",
        "https://api.senseaudio.ai/v1",
        "SENSEAUDIO_API_KEY",
        "SenseAudio — audio generation models",
        vec![
            model("senseaudio/default", 4_096, 4_096, 500_000, 500_000, vec!["audio"]),
        ],
    );
    assert(profile_views(c.models@) =~~= sense_audio_models());
    c
}

/// The models of the `vydra` slot, before registration.
pub open spec fn vydra_models() -> Seq<ModelProfileView> {
    seq![
        fresh_profile("vydra-v1"@, 32_768, 8_192, 300_000, 1_200_000, literal_texts(seq!["general"])),
    ]
}

fn vydra() -> (c: ProviderConfig)
    ensures
        c.name@ == "vydra"@,
        c.base_url@ == "https://api.vydra.ai/v1"@,
        c.api_key_env@ == "VYDRA_API_KEY"@,
        c.notes@ == "Vydra AI inference"@,
        !c.native,
        profile_views(c.models@) == vydra_models(),
{
    let c = config(
        "vydra",
        "https://api.vydra.ai/v1",
        "VYDRA_API_KEY",
        "Vydra AI inference",
        vec![
            model("vydra-v1", 32_768, 8_192, 300_000, 1_200_000, vec!["general"]),
        ],
    );
    assert(profile_views(c.models@) =~~= vydra_models());
    c
}

/// The models of the `azure-speech` slot, before registration.
pub open spec fn azure_speech_models() -> Seq<ModelProfileView> {
    seq![
        fresh_profile("azure-speech/default"@, 4_096, 4_096, 0, 0, literal_texts(seq!["audio", "stt", "tts"])),
    ]
}

fn azure_speech() -> (c: ProviderConfig)
    ensures
        c.name@ == "azure-speech"@,
        c.base_url@ == "https://api.cognitive.microsoft.com/stt/v1"@,
        c.api_key_env@ == "AZURE_SPEECH_KEY"@,
        c.notes@ == "Azure Speech Services — STT / TTS"@,
        !c.native,
        profile_views(c.models@) == azure_speech_models(),
{
    let c = config(
        "azure-speech",
        "https://api.cognitive.microsoft.com/stt/v1",
        "AZURE_SPEECH_KEY",
        "Azure Speech Services — STT / TTS",
        vec![
            model("azure-speech/default", 4_096, 4_096, 0, 0, vec!["audio", "stt", "tts"]),
        ],
    );
    assert(profile_views(c.models@) =~~= azure_speech_models());
    c
}

/// The models of the `nvidia` slot, before registration.
pub open spec fn nvidia_models() -> Seq<ModelProfileView> {
    seq![
        fresh_profile("moonshotai/kimi-k2.6"@, 128_000, 16_384, 1_000_000, 3_000_000, literal_texts(seq!["general", "reasoning", "coding", "planning"])),
        fresh_profile("meta/llama-3.3-70b-instruct"@, 128_000, 16_384, 500_000, 1_500_000, literal_texts(seq!["general", "reasoning"])),
        fresh_profile("mistralai/mistral-nemo-12b-instruct"@, 128_000, 16_384, 200_000, 600_000, literal_texts(seq!["general", "fast"])),
        fresh_profile("nvidia/llama-3.1-nemotron-70b-instruct"@, 128_000, 16_384, 500_000, 1_500_000, literal_texts(seq!["reasoning", "coding"])),
    ]
}

fn nvidia() -> (c: ProviderConfig)
    ensures
        c.name@ == "nvidia"@,
        c.base_url@ == "https://integrate.api.nvidia.com/v1"@,
        c.api_key_env@ == "NVIDIA_API_KEY"@,
        c.notes@ == "NVIDIA NIM — hosted GPU inference"@,
        !c.native,
        profile_views(c.models@) == nvidia_models(),
{
    let c = config(
        "nvidia",
        "https://integrate.api.nvidia.com/v1",
        "NVIDIA_API_KEY",
        "NVIDIA NIM — hosted GPU inference",
        vec![
            model("moonshotai/kimi-k2.6", 128_000, 16_384, 1_000_000, 3_000_000, vec!["general", "reasoning", "coding", "planning"]),
            model("meta/llama-3.3-70b-instruct", 128_000, 16_384, 500_000, 1_500_000, vec!["general", "reasoning"]),
            model("mistralai/mistral-nemo-12b-instruct", 128_000, 16_384, 200_000, 600_000, vec!["general", "fast"]),
            model("nvidia/llama-3.1-nemotron-70b-instruct", 128_000, 16_384, 500_000, 1_500_000, vec!["reasoning", "coding"]),
        ],
    );
    assert(profile_views(c.models@) =~~= nvidia_models());
    c
}

/// The models of the `opencode` slot, before registration.
pub open spec fn opencode_models() -> Seq<ModelProfileView> {
    seq![
        fresh_profile("opencode-v1"@, 128_000, 16_384, 500_000, 2_000_000, literal_texts(seq!["coding", "general"])),
    ]
}

fn opencode() -> (c: ProviderConfig)
    ensures
        c.name@ == "opencode"@,
        c.base_url@ == "https://api.opencode.ai/v1"@,
        c.api_key_env@ == "OPENCODE_API_KEY"@,
        c.notes@ == "OpenCode AI agent platform"@,
        !c.native,
        profile_views(c.models@) == opencode_models(),
{
    let c = config(
        "opencode",
        "https://api.opencode.ai/v1",
        "OPENCODE_API_KEY",
        "OpenCode AI agent platform",
        vec![
            model("opencode-v1", 128_000, 16_384, 500_000, 2_000_000, vec!["coding", "general"]),
        ],
    );
    assert(profile_views(c.models@) =~~= opencode_models());
    c
}

/// The models of the `opencode-go` slot, before registration.
pub open spec fn opencode_go_models() -> Seq<ModelProfileView> {
    seq![
        fresh_profile("opencode-go-v1"@, 128_000, 16_384, 500_000, 2_000_000, literal_texts(seq!["coding"])),
    ]
}

fn opencode_go() -> (c: ProviderConfig)
    ensures
        c.name@ == "opencode-go"@,
        c.base_url@ == "https://api.opencode.ai/v1"@,
        c.api_key_env@ == "OPENCODE_GO_API_KEY"@,
        c.notes@ == "OpenCode Go — Golang-focused agent"@,
        !c.native,
        profile_views(c.models@) == opencode_go_models(),
{
    let c = config(
        "opencode-go",
        "https://api.opencode.ai/v1",
        "OPENCODE_GO_API_KEY",
        "OpenCode Go — Golang-focused agent",
        vec![
            model("opencode-go-v1", 128_000, 16_384, 500_000, 2_000_000, vec!["coding"]),
        ],
    );
    assert(profile_views(c.models@) =~~= opencode_go_models());
    c
}


/// Every configuration of the catalog names itself as the provider of
/// each model it serves, and none is a native provider (one with a factory
/// of its own).
pub proof fn law_catalog_models_under_their_slot(v: Seq<ProviderConfig>, i: int, j: int)
    requires
        is_catalog(v),
        0 <= i < v.len(),
        0 <= j < v[i].models@.len(),
    ensures
        v[i].models@[j].provider@ == v[i].name@,
        !v[i].native,
{
    assert(is_catalog_slot(v[i], i));
    let pv = profile_views(v[i].models@);
    assert(pv.len() == v[i].models@.len());
    assert(pv[j] == v[i].models@[j]@);
    assert(pv[j] == served_under(catalog_models()[i], catalog_names()[i])[j]);
}


} // verus!
