use moonshine_rs::deps::{
    cached_models_present, diarization_cache_components, download_needed,
    parse_diarization_manifest, plan_diarization_downloads, DiarizationManifest, ManifestFile,
    ManifestGroup, ModelDownload,
};
use moonshine_rs::transcriber::ModelArch;
use moonshine_rs::{stt_dependencies_request, Error, SttDependenciesOptions};

fn pair(k: &str, v: &str) -> (String, String) {
    (k.to_string(), v.to_string())
}

#[test]
fn basic_query_options() {
    let opts = SttDependenciesOptions::basic(Some(ModelArch::Tiny), false);
    let req = stt_dependencies_request("en", &opts).unwrap();
    assert_eq!(req.language, "en");
    assert_eq!(req.options, vec![pair("model_arch", "0")]);

    let opts = SttDependenciesOptions::basic(None, true);
    let req = stt_dependencies_request("en", &opts).unwrap();
    assert_eq!(req.options, vec![pair("include_spelling", "true")]);
}

#[test]
fn word_timestamp_query_options() {
    let opts = SttDependenciesOptions::new()
        .with_arch(ModelArch::Tiny)
        .with_word_timestamps(true);
    let req = stt_dependencies_request("en", &opts).unwrap();
    assert_eq!(
        req.options,
        vec![pair("model_arch", "0"), pair("word_timestamps", "true")]
    );
}

#[test]
fn streaming_and_spelling_query_options() {
    let opts = SttDependenciesOptions::new()
        .with_arch(ModelArch::TinyStreaming)
        .with_include_spelling(true)
        .with_word_timestamps(true)
        .with_spelling_model_path("/spell/en");
    let req = stt_dependencies_request("en", &opts).unwrap();
    assert_eq!(
        req.options,
        vec![
            pair("model_arch", "2"),
            pair("include_spelling", "true"),
            pair("word_timestamps", "true"),
            pair("spelling_model_path", "/spell/en"),
        ]
    );
    let none = SttDependenciesOptions::default();
    assert!(stt_dependencies_request("en", &none).unwrap().options.is_empty());
}

#[test]
fn query_checks_language_then_path() {
    let opts = SttDependenciesOptions::new().with_spelling_model_path("p\0");
    assert_eq!(
        stt_dependencies_request("e\0n", &opts).err(),
        Some(Error::NulError { position: 1 })
    );
    assert_eq!(
        stt_dependencies_request("en", &opts).err(),
        Some(Error::NulError { position: 1 })
    );
}

fn file(name: Option<&str>, url: Option<&str>, size: Option<u64>) -> ManifestFile {
    ManifestFile {
        name: name.map(|s| s.to_string()),
        url: url.map(|s| s.to_string()),
        size,
    }
}

#[test]
fn well_formed_manifest_plans_every_file() {
    let manifest = DiarizationManifest {
        groups: Some(vec![
            ManifestGroup {
                files: Some(vec![file(Some("segmentation.ort"), Some("https://cdn/seg"), Some(10))]),
            },
            ManifestGroup { files: Some(vec![]) },
            ManifestGroup {
                files: Some(vec![file(Some("embedding.ort"), Some("https://cdn/emb"), None)]),
            },
        ]),
    };
    let plan = plan_diarization_downloads(&manifest);
    assert!(plan.error.is_none());
    assert_eq!(
        plan.downloads,
        vec![
            ModelDownload {
                name: "segmentation.ort".to_string(),
                url: "https://cdn/seg".to_string(),
                expected_size: 10
            },
            ModelDownload {
                name: "embedding.ort".to_string(),
                url: "https://cdn/emb".to_string(),
                expected_size: 0
            },
        ]
    );
}

#[test]
fn malformed_manifests_stop_at_the_first_fault() {
    let plan = plan_diarization_downloads(&DiarizationManifest { groups: None });
    assert!(plan.downloads.is_empty());
    assert_eq!(
        plan.error,
        Some(Error::ApiError {
            code: -1,
            message: "Diarization manifest missing `groups` array".to_string()
        })
    );

    let manifest = DiarizationManifest {
        groups: Some(vec![
            ManifestGroup { files: Some(vec![file(Some("a"), Some("u"), Some(1))]) },
            ManifestGroup { files: None },
            ManifestGroup { files: Some(vec![file(Some("b"), Some("v"), Some(2))]) },
        ]),
    };
    let plan = plan_diarization_downloads(&manifest);
    assert_eq!(plan.downloads.len(), 1);
    assert_eq!(
        plan.error,
        Some(Error::ApiError {
            code: -1,
            message: "Diarization group missing `files` array".to_string()
        })
    );

    let manifest = DiarizationManifest {
        groups: Some(vec![ManifestGroup {
            files: Some(vec![
                file(Some("a"), Some("u"), Some(1)),
                file(None, Some("u"), None),
                file(Some("c"), None, None),
            ]),
        }]),
    };
    let plan = plan_diarization_downloads(&manifest);
    assert_eq!(plan.downloads.len(), 1);
    assert_eq!(
        plan.error,
        Some(Error::ApiError {
            code: -1,
            message: "Diarization file entry missing `name`".to_string()
        })
    );

    let manifest = DiarizationManifest {
        groups: Some(vec![ManifestGroup { files: Some(vec![file(Some("c"), None, None)]) }]),
    };
    let plan = plan_diarization_downloads(&manifest);
    assert!(plan.downloads.is_empty());
    assert_eq!(
        plan.error,
        Some(Error::ApiError {
            code: -1,
            message: "Diarization file entry missing `url`".to_string()
        })
    );
}

#[test]
fn existing_files_are_kept_when_sizes_agree() {
    assert!(download_needed(10, None));
    assert!(!download_needed(10, Some(10)));
    assert!(download_needed(10, Some(9)));
    assert!(!download_needed(0, Some(9)));
    assert!(!download_needed(0, Some(0)));
}

#[test]
fn cached_models_need_both_non_empty_files() {
    assert!(cached_models_present(Some(1), Some(2)));
    assert!(!cached_models_present(Some(0), Some(2)));
    assert!(!cached_models_present(Some(1), None));
    assert!(!cached_models_present(None, None));
}

#[test]
fn cache_location_preference() {
    assert_eq!(
        diarization_cache_components(Some("/custom".to_string()), Some("/home/u/.cache".to_string()), "/tmp".to_string()),
        vec!["/custom".to_string(), "diarization".to_string()]
    );
    assert_eq!(
        diarization_cache_components(None, Some("/home/u/.cache".to_string()), "/tmp".to_string()),
        vec!["/home/u/.cache".to_string(), "moonshine-rs".to_string(), "diarization".to_string()]
    );
    assert_eq!(
        diarization_cache_components(None, None, "/tmp".to_string()),
        vec!["/tmp".to_string(), "moonshine-rs".to_string(), "diarization".to_string()]
    );
}

fn s(v: &str) -> Option<String> {
    Some(v.to_string())
}

#[test]
fn manifest_text_is_read_into_groups_and_files() {
    let text = r#"{"groups": [{"files": [
        {"name": "segmentation.ort", "url": "https://host/seg", "size": 5905},
        {"name": "embedding.ort", "url": "https://host/emb"}
    ]}]}"#;
    let m = parse_diarization_manifest(text).unwrap();
    let groups = m.groups.as_ref().unwrap();
    assert_eq!(groups.len(), 1);
    let files = groups[0].files.as_ref().unwrap();
    assert_eq!(files.len(), 2);
    assert_eq!((files[0].name.clone(), files[0].url.clone(), files[0].size), (s("segmentation.ort"), s("https://host/seg"), Some(5905)));
    assert_eq!((files[1].name.clone(), files[1].url.clone(), files[1].size), (s("embedding.ort"), s("https://host/emb"), None));
    let plan = plan_diarization_downloads(&m);
    assert!(plan.error.is_none());
    assert_eq!(
        plan.downloads,
        vec![
            ModelDownload { name: "segmentation.ort".to_string(), url: "https://host/seg".to_string(), expected_size: 5905 },
            ModelDownload { name: "embedding.ort".to_string(), url: "https://host/emb".to_string(), expected_size: 0 },
        ]
    );
}

#[test]
fn manifest_entries_of_the_wrong_kind_are_unread() {
    let text = r#"{"groups": [{"files": [{"name": 7, "url": "u", "size": -3}, {"name": "n", "size": 1.5}]}, {"files": {}}, 3]}"#;
    let m = parse_diarization_manifest(text).unwrap();
    let groups = m.groups.as_ref().unwrap();
    assert_eq!(groups.len(), 3);
    let files = groups[0].files.as_ref().unwrap();
    assert_eq!((files[0].name.clone(), files[0].url.clone(), files[0].size), (None, s("u"), None));
    assert_eq!((files[1].name.clone(), files[1].url.clone(), files[1].size), (s("n"), None, None));
    assert!(groups[1].files.is_none());
    assert!(groups[2].files.is_none());
    let plan = plan_diarization_downloads(&m);
    assert!(plan.downloads.is_empty());
    assert_eq!(
        plan.error,
        Some(Error::ApiError { code: -1, message: "Diarization file entry missing `name`".to_string() })
    );

    let m = parse_diarization_manifest("[1, 2]").unwrap();
    assert!(m.groups.is_none());
    let m = parse_diarization_manifest(r#"{"groups": {"files": []}}"#).unwrap();
    assert!(m.groups.is_none());
}

#[test]
fn manifest_text_that_is_not_json_is_an_error() {
    let detail = serde_json::from_str::<serde_json::Value>("{\"groups\": [").unwrap_err().to_string();
    match parse_diarization_manifest("{\"groups\": [") {
        Err(e) => assert_eq!(
            e,
            Error::ApiError {
                code: -1,
                message: format!("Failed to parse diarization manifest JSON: {detail}"),
            }
        ),
        Ok(_) => panic!("expected a parse error"),
    }
}
