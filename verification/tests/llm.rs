use std::path::{Path, PathBuf};

use emu_studio::llm::chat_template::{
    auto_detect, ChatMLTemplate, ChatMessage, ChatTemplate, GenericTemplate, Llama3Template, Role,
};
use emu_studio::llm::hf::{
    HfError, HuggingFaceClient, HuggingFaceFile, HuggingFaceModel, HuggingFaceModelRef, local_model_path, model_from_hits,
    model_resolution, ModelResolution, ResolveError,
};
use emu_studio::llm::registry::{
    is_gguf_file, model_id_from_path, FindError, ModelLoadStatus, ModelRecord, ModelRegistry, ModelSource,
};

fn sample_messages() -> Vec<ChatMessage> {
    vec![
        ChatMessage { role: Role::System, content: "You are a helpful assistant.".into() },
        ChatMessage { role: Role::User, content: "Hello!".into() },
    ]
}

#[test]
fn chatml_template_formats_correctly() {
    let template = ChatMLTemplate;
    let output = template.apply(&sample_messages());
    let expected = "\
<|im_start|>system
You are a helpful assistant.<|im_end|>
<|im_start|>user
Hello!<|im_end|>
<|im_start|>assistant
";
    assert_eq!(output, expected);
    assert_eq!(template.name(), "chatml");
}

#[test]
fn llama3_template_formats_correctly() {
    let template = Llama3Template;
    let output = template.apply(&sample_messages());
    let expected = "\
<|begin_of_text|>\
<|start_header_id|>system<|end_header_id|>\n\n\
You are a helpful assistant.\
<|eot_id|>\
<|start_header_id|>user<|end_header_id|>\n\n\
Hello!\
<|eot_id|>\
<|start_header_id|>assistant<|end_header_id|>\n\n";
    assert_eq!(output, expected);
    assert_eq!(template.name(), "llama3");
}

#[test]
fn generic_template_formats_correctly() {
    let template = GenericTemplate;
    let output = template.apply(&sample_messages());
    let expected = "\
You are a helpful assistant.\n\n\
### User:\n\
Hello!\n\n\
### Assistant:\n";
    assert_eq!(output, expected);
    assert_eq!(template.name(), "generic");
}

#[test]
fn auto_detect_picks_llama3_for_llama_model() {
    let template = auto_detect("Meta-Llama-3-8B");
    assert_eq!(template.name(), "llama3");
}

#[test]
fn auto_detect_picks_llama3_case_insensitive() {
    let template = auto_detect("llama3-instruct-v2");
    assert_eq!(template.name(), "llama3");
}

#[test]
fn auto_detect_picks_chatml_for_chatml_model() {
    let template = auto_detect("my-model-chatml");
    assert_eq!(template.name(), "chatml");
}

#[test]
fn auto_detect_defaults_to_chatml_for_unknown() {
    let template = auto_detect("some-random-model");
    assert_eq!(template.name(), "chatml");
}

#[test]
fn role_display() {
    assert_eq!(Role::System.to_string(), "system");
    assert_eq!(Role::User.to_string(), "user");
    assert_eq!(Role::Assistant.to_string(), "assistant");
}

#[test]
fn detects_gguf_extension_case_insensitively() {
    assert!(is_gguf_file("model.gguf"));
    assert!(is_gguf_file("model.GGUF"));
    assert!(!is_gguf_file("model.bin"));
}

#[test]
fn parses_hugging_face_model_ref() {
    let model: HuggingFaceModelRef = "TheBloke/TinyLlama-1.1B-GGUF".parse().unwrap();
    assert_eq!(model.owner, "TheBloke");
    assert_eq!(model.repo, "TinyLlama-1.1B-GGUF");
    assert_eq!(model.id(), "TheBloke/TinyLlama-1.1B-GGUF");
}

#[test]
fn builds_download_url() {
    let client = HuggingFaceClient::new("https://huggingface.co/");
    let model: HuggingFaceModelRef = "owner/repo".parse().unwrap();
    assert_eq!(
        client.gguf_download_url(&model, "model.gguf"),
        "https://huggingface.co/owner/repo/resolve/main/model.gguf"
    );
}

#[test]
fn builds_search_url_with_gguf_library_filter() {
    let client = HuggingFaceClient::new("https://huggingface.co/");
    assert_eq!(
        client.search_url("tiny llama"),
        "https://huggingface.co/models?search=tiny%20llama&library=gguf&sort=downloads"
    );
}

#[test]
fn chooses_preferred_quant_when_filename_is_not_requested() {
    let client = HuggingFaceClient::default_site();
    let files = vec![
        HuggingFaceFile { rfilename: "model.Q8_0.gguf".to_string(), size: None },
        HuggingFaceFile { rfilename: "model.Q4_K_M.gguf".to_string(), size: None },
    ];
    assert_eq!(client.choose_gguf_file(&files, None).unwrap().rfilename, "model.Q4_K_M.gguf");
}

#[test]
fn builds_local_hugging_face_model_path() {
    let model: HuggingFaceModelRef = "owner/repo".parse().unwrap();
    let components = local_model_path("models", &model, "nested/model.gguf").unwrap();
    let path: PathBuf = components.iter().collect();
    assert_eq!(
        path,
        Path::new("models")
            .join("huggingface")
            .join("owner")
            .join("repo")
            .join("nested")
            .join("model.gguf")
    );
}

// ── Further scenarios ──────────────────────────────────────────────────────

#[test]
fn rejects_malformed_repository_ids() {
    for bad in ["noslash", "/repo", "owner/", "a/b/c", ""] {
        assert_eq!(
            HuggingFaceModelRef::parse_ref(bad),
            Err(HfError::InvalidRepoId { value: bad.to_string() })
        );
    }
}

#[test]
fn refuses_escaping_file_names() {
    let model: HuggingFaceModelRef = "owner/repo".parse().unwrap();
    assert_eq!(
        local_model_path("models", &model, "../x.gguf"),
        Err(HfError::InvalidFilename { filename: "../x.gguf".to_string() })
    );
    assert_eq!(
        local_model_path("models", &model, "//a/./b.gguf"),
        Err(HfError::InvalidFilename { filename: "a/./b.gguf".to_string() })
    );
    assert_eq!(
        local_model_path("models", &model, "///"),
        Err(HfError::InvalidFilename { filename: "".to_string() })
    );
    assert_eq!(
        local_model_path("models", &model, "a//b"),
        Err(HfError::InvalidFilename { filename: "a//b".to_string() })
    );
}

#[test]
fn chooses_requested_file_or_reports_missing() {
    let client = HuggingFaceClient::default_site();
    let files = vec![
        HuggingFaceFile { rfilename: "a.Q2_K.gguf".to_string(), size: Some(1) },
        HuggingFaceFile { rfilename: "b.Q3_K.gguf".to_string(), size: Some(2) },
    ];
    assert_eq!(client.choose_gguf_file(&files, Some("b.Q3_K.gguf")).unwrap().size, Some(2));
    assert_eq!(
        client.choose_gguf_file(&files, Some("c.gguf")),
        Err(HfError::FileNotFound { requested: "c.gguf".to_string() })
    );
    assert_eq!(client.choose_gguf_file(&files, None).unwrap().rfilename, "a.Q2_K.gguf");
    assert_eq!(client.choose_gguf_file(&[], None), Err(HfError::NoGgufFiles));
}

#[test]
fn client_urls_from_trimmed_base() {
    let client = HuggingFaceClient::new("https://example.org///");
    assert_eq!(client.base_url, "https://example.org");
    assert_eq!(client.api_url, "https://example.org/api");
    assert_eq!(
        client.search_api_url("a+b", 500),
        "https://example.org/api/models?search=a%2Bb&filter=gguf&sort=downloads&direction=-1&limit=100"
    );
    let model: HuggingFaceModelRef = "o/r".parse().unwrap();
    assert_eq!(client.model_api_url(&model), "https://example.org/api/models/o/r");
    assert_eq!(
        client.gguf_download_url(&model, "/x.gguf"),
        "https://example.org/o/r/resolve/main/x.gguf"
    );
}

fn record(id: &str, path: &str) -> ModelRecord {
    ModelRecord {
        id: id.to_string(),
        path: path.to_string(),
        size_bytes: 1,
        source: ModelSource::Local,
        status: ModelLoadStatus::Available,
    }
}

#[test]
fn registry_lookup_exact_then_partial() {
    let registry = ModelRegistry {
        models: vec![
            record("llama-7b", "/m/llama-7b.gguf"),
            record("llama-13b", "/m/llama-13b.gguf"),
            record("mistral", "/m/mistral.Q4.gguf"),
        ],
    };
    assert_eq!(registry.find("LLAMA-13B").unwrap().id, "llama-13b");
    assert_eq!(registry.find("mistral.q4.gguf").unwrap().id, "mistral");
    assert_eq!(registry.find("MIST").unwrap().id, "mistral");
    assert_eq!(
        registry.find("llama"),
        Err(FindError::Ambiguous {
            query: "llama".to_string(),
            ids: vec!["llama-7b".to_string(), "llama-13b".to_string()],
        })
    );
    assert_eq!(registry.find("phi"), Err(FindError::NoMatch { query: "phi".to_string() }));
    assert_eq!(registry.models().len(), 3);
}

fn model(id: &str) -> ModelRecord {
    ModelRecord {
        id: id.to_string(),
        path: format!("models/{id}.gguf"),
        size_bytes: 1,
        source: ModelSource::Local,
        status: ModelLoadStatus::Available,
    }
}

#[test]
fn registry_orders_models_by_id() {
    let registry = ModelRegistry::from_records(vec![model("zeta"), model("alpha"), model("mid")]);
    let ids: Vec<&str> = registry.models().iter().map(|m| m.id.as_str()).collect();
    assert_eq!(ids, vec!["alpha", "mid", "zeta"]);
}

#[test]
fn keeps_only_gguf_files_sorted_by_name() {
    let files = vec![
        HuggingFaceFile { rfilename: "README.md".to_string(), size: None },
        HuggingFaceFile { rfilename: "model.Q8_0.gguf".to_string(), size: Some(8) },
        HuggingFaceFile { rfilename: "model.Q4_K_M.GGUF".to_string(), size: Some(4) },
        HuggingFaceFile { rfilename: "config.json".to_string(), size: Some(1) },
    ];
    let kept = emu_studio::llm::hf::gguf_files(files);
    let names: Vec<&str> = kept.iter().map(|f| f.rfilename.as_str()).collect();
    assert_eq!(names, vec!["model.Q4_K_M.GGUF", "model.Q8_0.gguf"]);
}

#[test]
fn repository_ids_round_trip() {
    let m = HuggingFaceModelRef::parse_ref("TheBloke/TinyLlama-1.1B-GGUF").unwrap();
    let again = HuggingFaceModelRef::parse_ref(&m.id()).unwrap();
    assert_eq!(again, m);
    assert!(HuggingFaceModelRef::parse_ref("owner/repo/extra").is_err());
    assert!(HuggingFaceModelRef::parse_ref("/repo").is_err());
}

#[test]
fn gguf_files_are_told_by_the_last_extension() {
    assert!(is_gguf_file("models/llama-3.Q4_K_M.gguf"));
    assert!(!is_gguf_file("models/model.gguf.part"));
    assert!(!is_gguf_file(".gguf"));
    assert!(!is_gguf_file(""));
}

#[test]
fn model_ids_are_file_stems() {
    assert_eq!(model_id_from_path("models/llama-3.Q4_K_M.gguf"), "llama-3.Q4_K_M");
    assert_eq!(model_id_from_path("/srv/models/tiny"), "tiny");
    assert_eq!(model_id_from_path(".hidden"), ".hidden");
    assert_eq!(model_id_from_path(""), "unknown-model");
}

fn hit(id: &str) -> HuggingFaceModel {
    HuggingFaceModel { id: id.to_string(), downloads: None, likes: None, tags: Vec::new(), last_modified: None }
}

#[test]
fn model_names_are_repositories_or_searches() {
    match model_resolution("TheBloke/Llama-2-7B-GGUF") {
        ModelResolution::Named(m) => assert_eq!(m.id(), "TheBloke/Llama-2-7B-GGUF"),
        ModelResolution::Search => panic!("a repository id needs no search"),
    }
    assert!(matches!(model_resolution("llama 2"), ModelResolution::Search));
}

#[test]
fn search_hits_resolve_to_the_last_hit() {
    assert_eq!(model_from_hits("llama", &[]), Err(ResolveError::NoModelsFound { query: "llama".to_string() }));
    assert_eq!(model_from_hits("llama", &[hit("a/b"), hit("owner/repo")]).unwrap().id(), "owner/repo");
    assert_eq!(
        model_from_hits("llama", &[hit("no-slash")]),
        Err(ResolveError::InvalidModelId { id: "no-slash".to_string() })
    );
}

#[test]
fn find_prefers_exact_file_names_and_reports_ambiguous_ids_in_order() {
    let rec = |id: &str, path: &str| ModelRecord {
        id: id.to_string(),
        path: path.to_string(),
        size_bytes: 1,
        source: ModelSource::Local,
        status: ModelLoadStatus::Available,
    };
    let registry = ModelRegistry::from_records(vec![
        rec("beta", "models/b/Model-B.gguf"),
        rec("alpha", "models/a/model-a.gguf"),
        rec("gamma", "models/g/other.gguf"),
    ]);
    assert_eq!(registry.find("MODEL-A.GGUF").unwrap().id, "alpha");
    assert_eq!(registry.find("other").unwrap().id, "gamma");
    assert_eq!(
        registry.find("model-"),
        Err(FindError::Ambiguous { query: "model-".to_string(), ids: vec!["alpha".to_string(), "beta".to_string()] })
    );
}
