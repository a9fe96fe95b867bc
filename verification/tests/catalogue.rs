use ai_base::models::{
    choose_weight_file, find_first, WeightFile,
    download_url, file_type, files_url, find_tokenizer_in_directory, folder_name,
    is_tokenizer_file, local_kind, local_model_name, plan_download, progress_basis_points,
    reports_progress, search_url, tokenizer_folder_kind, DownloadModelRequest,
    DownloadModelResponse, DownloadPlan, ModelFileInfo, ModelKind, SearchError,
    SearchRemoteModelsRequest, SearchRemoteModelsResponse, TokenizerPlace, TokenizerProbe,
};
use ai_base::requests::{route, RoutingError, UnifiedInferenceRequest};
use ai_base::storage::{
    check_parts, check_path, deletion_for, sort_entries, Deletion, FileEntry, PathPart,
    StorageError,
};

#[test]
fn model_kinds_are_read_from_their_names_only() {
    assert_eq!(ModelKind::parse("gguf"), Some(ModelKind::Gguf));
    assert_eq!(ModelKind::parse("safetensors"), Some(ModelKind::Safetensors));
    assert_eq!(ModelKind::parse("GGUF"), None);
    assert_eq!(ModelKind::parse("onnx"), None);
    assert_eq!(ModelKind::parse(""), None);
    assert_eq!(ModelKind::Gguf.as_str(), "gguf");
    assert_eq!(ModelKind::Safetensors.as_str(), "safetensors");
}

#[test]
fn files_of_a_repository_are_told_apart_by_name() {
    assert_eq!(file_type("model-q8_0.gguf"), "gguf");
    assert_eq!(file_type("model-00001-of-00002.safetensors"), "safetensors");
    assert_eq!(file_type("tokenizer.json"), "tokenizer");
    assert_eq!(file_type("tokenizer.model"), "tokenizer");
    assert_eq!(file_type("config.json"), "tokenizer");
    assert_eq!(file_type("README.md"), "other");
    assert_eq!(file_type("model.GGUF"), "other");
    assert_eq!(file_type("tokenizer.gguf"), "gguf");
    assert_eq!(file_type(""), "other");
    let info = ModelFileInfo::new("a/tokenizer_config.json".to_string(), Some(7));
    assert_eq!(info.filename, "a/tokenizer_config.json");
    assert_eq!(info.size, Some(7));
    assert_eq!(info.file_type, "tokenizer");
}

#[test]
fn local_models_take_their_kind_from_the_folder_before_the_ending() {
    let parts = |p: &[&str]| p.iter().map(|s| s.to_string()).collect::<Vec<_>>();
    assert_eq!(local_kind(&parts(&["models", "gguf", "m", "w.bin"]), "bin"), Some(ModelKind::Gguf));
    assert_eq!(
        local_kind(&parts(&["models", "safetensors", "m", "w.gguf"]), "gguf"),
        Some(ModelKind::Safetensors)
    );
    assert_eq!(
        local_kind(&parts(&["safetensors", "gguf", "w.txt"]), "txt"),
        Some(ModelKind::Gguf)
    );
    assert_eq!(local_kind(&parts(&["models", "w.gguf"]), "gguf"), Some(ModelKind::Gguf));
    assert_eq!(
        local_kind(&parts(&["models", "w.safetensors"]), "safetensors"),
        Some(ModelKind::Safetensors)
    );
    assert_eq!(local_kind(&parts(&["models", "w.txt"]), "txt"), None);
    assert_eq!(local_kind(&parts(&[]), ""), None);
}

#[test]
fn local_models_are_named_after_their_folder_below_a_kind() {
    assert_eq!(local_model_name("w.gguf", "SmolLM2", Some("gguf")), "SmolLM2");
    assert_eq!(local_model_name("w.safetensors", "Qwen", Some("safetensors")), "Qwen");
    assert_eq!(local_model_name("w.gguf", "gguf", Some("models")), "w.gguf");
    assert_eq!(local_model_name("w.gguf", "models", None), "w.gguf");
}

#[test]
fn the_tokenizer_beside_the_model_comes_first() {
    let probe = |a, b, c| TokenizerProbe {
        json_beside: a,
        json_in_tokenizer_folder: b,
        json_in_named_folder: c,
    };
    assert_eq!(find_tokenizer_in_directory(probe(true, true, true)), Some(TokenizerPlace::JsonBeside));
    assert_eq!(find_tokenizer_in_directory(probe(true, false, false)), Some(TokenizerPlace::JsonBeside));
    assert_eq!(
        find_tokenizer_in_directory(probe(false, true, true)),
        Some(TokenizerPlace::TokenizerFolder)
    );
    assert_eq!(
        find_tokenizer_in_directory(probe(false, false, true)),
        Some(TokenizerPlace::NamedFolder)
    );
    assert_eq!(find_tokenizer_in_directory(probe(false, false, false)), None);
}

#[test]
fn tokenizer_files_end_in_json_and_say_so() {
    assert!(is_tokenizer_file("tokenizer.json", "json"));
    assert!(is_tokenizer_file("my_tokenizer.JSON", "JSON"));
    assert!(!is_tokenizer_file("config.json", "json"));
    assert!(!is_tokenizer_file("tokenizer.model", "model"));
    assert!(!is_tokenizer_file("Tokenizer.json", "json"));
}

fn search(query: &str, limit: Option<usize>, model_type: Option<&str>) -> SearchRemoteModelsRequest {
    SearchRemoteModelsRequest {
        query: query.to_string(),
        limit,
        model_type: model_type.map(|s| s.to_string()),
    }
}

#[test]
fn search_addresses_carry_the_encoded_query_the_limit_and_the_filter() {
    assert_eq!(
        search_url(&search("llama", None, None)).unwrap(),
        "https://huggingface.co/api/models?search=llama&limit=20"
    );
    assert_eq!(
        search_url(&search("  llama 3 & more/é  ", Some(5), Some("gguf"))).unwrap(),
        "https://huggingface.co/api/models?search=llama%203%20%26%20more%2F%C3%A9&limit=5&filter=gguf"
    );
    assert_eq!(
        search_url(&search("a-b_c.d~e", Some(0), Some("safetensors"))).unwrap(),
        "https://huggingface.co/api/models?search=a-b_c.d~e&limit=0&filter=safetensors"
    );
    assert_eq!(
        search_url(&search("x", Some(1234567890), Some("onnx"))).unwrap(),
        "https://huggingface.co/api/models?search=x&limit=1234567890"
    );
}

#[test]
fn a_search_for_nothing_is_refused() {
    assert_eq!(search_url(&search("", None, None)), Err(SearchError::EmptyQuery));
    assert_eq!(search_url(&search("  \t\n ", Some(3), Some("gguf"))), Err(SearchError::EmptyQuery));
}

#[test]
fn hub_addresses_name_the_repository_and_the_file() {
    assert_eq!(
        files_url("HuggingFaceTB/SmolLM2-360M-Instruct-GGUF"),
        "https://huggingface.co/api/models/HuggingFaceTB/SmolLM2-360M-Instruct-GGUF/tree/main"
    );
    assert_eq!(
        download_url("org/repo", "sub/model.gguf"),
        "https://huggingface.co/org/repo/resolve/main/sub/model.gguf"
    );
}

#[test]
fn model_folders_are_named_after_the_repository_without_its_kind() {
    assert_eq!(folder_name("HuggingFaceTB/SmolLM2-360M-Instruct-GGUF"), "SmolLM2-360M-Instruct");
    assert_eq!(folder_name("org/model-gguf"), "model");
    assert_eq!(folder_name("org/model-gguf-gguf"), "model");
    assert_eq!(folder_name("org/model-GGUF-gguf"), "model-GGUF");
    assert_eq!(folder_name("org/model-Safetensors"), "model");
    assert_eq!(folder_name("org/model-safetensors"), "model");
    assert_eq!(folder_name("org/model"), "model");
    assert_eq!(folder_name("model-Gguf"), "model-Gguf");
    assert_eq!(folder_name("a/b/c"), "c");
    assert_eq!(folder_name("org/"), "");
    assert_eq!(folder_name(""), "");
    assert_eq!(folder_name("org/-GGUF"), "");
}

fn download(repo_id: &str, filename: &str, save_path: Option<&str>) -> DownloadModelRequest {
    DownloadModelRequest {
        repo_id: repo_id.to_string(),
        filename: filename.to_string(),
        save_path: save_path.map(|s| s.to_string()),
    }
}

#[test]
fn downloads_go_where_their_kind_belongs() {
    assert_eq!(
        plan_download(&download("org/m-GGUF", "m-q8.gguf", Some("/tmp/x.gguf")), "gguf"),
        DownloadPlan::Custom("/tmp/x.gguf".to_string())
    );
    assert_eq!(
        plan_download(&download("org/m-GGUF", "m-q8.gguf", None), "gguf"),
        DownloadPlan::ModelFolder { kind: ModelKind::Gguf, name: "m".to_string() }
    );
    assert_eq!(
        plan_download(&download("org/m-GGUF", "m-q8.GGUF", None), "GGUF"),
        DownloadPlan::ModelFolder { kind: ModelKind::Gguf, name: "m".to_string() }
    );
    assert_eq!(
        plan_download(&download("org/m", "model.safetensors", None), "safetensors"),
        DownloadPlan::ModelFolder { kind: ModelKind::Safetensors, name: "m".to_string() }
    );
    assert_eq!(
        plan_download(&download("org/m-GGUF", "tokenizer.model", None), "model"),
        DownloadPlan::BesideModel { name: "m-GGUF".to_string() }
    );
    assert_eq!(
        plan_download(&download("org/m", "config.JSON", None), "JSON"),
        DownloadPlan::BesideModel { name: "m".to_string() }
    );
    assert_eq!(plan_download(&download("org/m", "README.md", None), "md"), DownloadPlan::Root);
    assert_eq!(plan_download(&download("org/m", "LICENSE", None), ""), DownloadPlan::Root);
}

#[test]
fn tokenizer_files_go_beside_the_model_that_exists() {
    assert_eq!(tokenizer_folder_kind(true, true), (ModelKind::Gguf, false));
    assert_eq!(tokenizer_folder_kind(true, false), (ModelKind::Gguf, false));
    assert_eq!(tokenizer_folder_kind(false, true), (ModelKind::Safetensors, false));
    assert_eq!(tokenizer_folder_kind(false, false), (ModelKind::Safetensors, true));
}

#[test]
fn progress_is_reported_every_ten_mebibytes() {
    assert!(reports_progress(0));
    assert!(reports_progress(10 * 1024 * 1024));
    assert!(reports_progress(30 * 1024 * 1024));
    assert!(!reports_progress(10 * 1024 * 1024 + 1));
    assert!(!reports_progress(1));
    assert_eq!(progress_basis_points(0, 7), 0);
    assert_eq!(progress_basis_points(7, 7), 10_000);
    assert_eq!(progress_basis_points(1, 3), 3_333);
    assert_eq!(progress_basis_points(u64::MAX / 2, u64::MAX), 4_999);
}

#[test]
fn answers_of_the_catalogue_carry_a_result_or_a_reason() {
    let r = SearchRemoteModelsResponse::found(Vec::new());
    assert!(r.success && r.error.is_none() && r.models.is_empty());
    let r = SearchRemoteModelsResponse::failed("offline".to_string());
    assert!(!r.success && r.models.is_empty());
    assert_eq!(r.error.as_deref(), Some("offline"));
    let r = DownloadModelResponse::failed("offline".to_string());
    assert!(!r.success);
    assert_eq!(r.message, "offline");
    assert_eq!(r.local_path, None);
    assert_eq!(r.error.as_deref(), Some("offline"));
}

#[test]
fn paths_that_climb_are_refused() {
    assert_eq!(check_path("notes/a.txt"), Ok(()));
    assert_eq!(check_path("/abs/notes/a.txt"), Ok(()));
    assert_eq!(check_path("./a.txt"), Ok(()));
    assert_eq!(check_path("a/.../b"), Ok(()));
    assert_eq!(check_path("a.b/c.d"), Ok(()));
    assert_eq!(check_path("a/../b"), Err(StorageError::PathTraversal));
    assert_eq!(check_path(".."), Err(StorageError::PathTraversal));
    assert_eq!(check_path("a..b/c.."), Ok(()));
    assert_eq!(check_path(""), Ok(()));
    assert_eq!(check_path("../a.txt"), Err(StorageError::PathTraversal));
    assert_eq!(check_path("notes/../../etc/passwd"), Err(StorageError::PathTraversal));
    assert_eq!(check_path("notes/.."), Err(StorageError::PathTraversal));
    assert_eq!(check_parts(&vec![]), Ok(()));
    assert_eq!(
        check_parts(&vec![PathPart::Root, PathPart::Normal("a".to_string()), PathPart::Current]),
        Ok(())
    );
    assert_eq!(
        check_parts(&vec![PathPart::Normal("a".to_string()), PathPart::Parent]),
        Err(StorageError::PathTraversal)
    );
}

#[test]
fn deleting_follows_what_is_there() {
    assert_eq!(deletion_for(false, false, false), Deletion::Nothing);
    assert_eq!(deletion_for(false, true, true), Deletion::Nothing);
    assert_eq!(deletion_for(true, false, false), Deletion::File);
    assert_eq!(deletion_for(true, false, true), Deletion::File);
    assert_eq!(deletion_for(true, true, true), Deletion::Tree);
    assert_eq!(deletion_for(true, true, false), Deletion::EmptyFolder);
}

fn entry(name: &str, is_directory: bool) -> FileEntry {
    FileEntry {
        name: name.to_string(),
        path: format!("/x/{}", name),
        is_directory,
        size: 1,
        modified_at: None,
    }
}

#[test]
fn listings_show_folders_first_and_ignore_letter_case() {
    let mut entries = vec![
        entry("zeta.txt", false),
        entry("Beta", true),
        entry("alpha.txt", false),
        entry("Alpha.txt", false),
        entry("gamma", true),
        entry("B", false),
        entry("alpha", true),
    ];
    sort_entries(&mut entries);
    let names: Vec<&str> = entries.iter().map(|e| e.name.as_str()).collect();
    assert_eq!(names, vec!["alpha", "Beta", "gamma", "alpha.txt", "Alpha.txt", "B", "zeta.txt"]);
    let mut none: Vec<FileEntry> = Vec::new();
    sort_entries(&mut none);
    assert!(none.is_empty());
}

fn unified(model_type: &str, tokenizer_path: Option<&str>) -> UnifiedInferenceRequest {
    UnifiedInferenceRequest {
        model_type: model_type.to_string(),
        model_path: "models/m".to_string(),
        tokenizer_path: tokenizer_path.map(|p| p.to_string()),
        prompt: "Hello".to_string(),
        max_tokens: None,
    }
}

#[test]
fn a_request_goes_to_the_engine_of_its_kind() {
    assert_eq!(route(&unified("gguf", None)), Ok(ModelKind::Gguf));
    assert_eq!(route(&unified("gguf", Some("tokenizer.json"))), Ok(ModelKind::Gguf));
    assert_eq!(route(&unified("safetensors", Some("tokenizer.json"))), Ok(ModelKind::Safetensors));
    assert_eq!(route(&unified("safetensors", None)), Err(RoutingError::MissingTokenizer));
    assert_eq!(route(&unified("onnx", Some("t"))), Err(RoutingError::UnsupportedModelType));
    assert_eq!(route(&unified("GGUF", None)), Err(RoutingError::UnsupportedModelType));
    assert_eq!(route(&unified("", None)), Err(RoutingError::UnsupportedModelType));
}

#[test]
fn the_weight_file_of_a_folder_is_looked_for() {
    let none: Vec<String> = Vec::new();
    let listing: Vec<String> =
        ["json", "", "safetensors", "bin", "safetensors"].iter().map(|s| s.to_string()).collect();
    assert_eq!(choose_weight_file(false, false, &listing), WeightFile::AsGiven);
    assert_eq!(choose_weight_file(false, true, &listing), WeightFile::AsGiven);
    assert_eq!(choose_weight_file(true, true, &listing), WeightFile::Default);
    assert_eq!(choose_weight_file(true, false, &listing), WeightFile::Listed(2));
    assert_eq!(choose_weight_file(true, false, &none), WeightFile::AsGiven);
    let others: Vec<String> = ["json", "SAFETENSORS"].iter().map(|s| s.to_string()).collect();
    assert_eq!(choose_weight_file(true, false, &others), WeightFile::AsGiven);
    assert_eq!(find_first(&listing, "bin"), Some(3));
    assert_eq!(find_first(&listing, "safetensors"), Some(2));
    assert_eq!(find_first(&listing, "gguf"), None);
    assert_eq!(find_first(&none, ""), None);
}
