use moonshine_rs::TranscriberOptions;

#[test]
fn test_transcriber_options_get_and_speculative_decoding() {
    let opts = TranscriberOptions::new()
        .with_identify_speakers(true)
        .with_speculative_decoding(false)
        .with_diarization_model_dir("/tmp/test_dir");

    assert_eq!(opts.get("identify_speakers"), Some("true"));
    assert_eq!(opts.get("use_speculative_decoding"), Some("false"));
    assert_eq!(opts.get("diarization_model_dir"), Some("/tmp/test_dir"));
}

use moonshine_rs::transcriber::ModelArch;

#[test]
fn test_transcriber_options_keyterm_and_context() {
    // The keyterm boost is a float option; its builder writes the float's text
    // under "keyterm_boost".
    let opts = TranscriberOptions::new()
        .with_keyterms("Kubernetes,Ceph,etcd")
        .set("keyterm_boost", &3.5f32.to_string())
        .with_context("Platform migration notes for cluster services.")
        .with_context_max_terms(150);

    assert_eq!(opts.get("keyterms"), Some("Kubernetes,Ceph,etcd"));
    assert_eq!(opts.get("keyterm_boost"), Some("3.5"));
    assert_eq!(
        opts.get("context"),
        Some("Platform migration notes for cluster services.")
    );
    assert_eq!(opts.get("context_max_terms"), Some("150"));
}

#[test]
fn keyterm_and_context_options_are_recorded() {
    let opts = TranscriberOptions::new()
        .with_keyterms("Kubernetes,Ceph,etcd")
        .with_context("Platform migration notes for cluster services.")
        .with_context_max_terms(150);

    assert_eq!(opts.get("keyterms"), Some("Kubernetes,Ceph,etcd"));
    assert_eq!(
        opts.get("context"),
        Some("Platform migration notes for cluster services.")
    );
    assert_eq!(opts.get("context_max_terms"), Some("150"));
    assert_eq!(opts.get("keyterm_boost"), None);
}

#[test]
fn builders_use_their_keys() {
    let opts = TranscriberOptions::new()
        .with_ort_providers("CPU")
        .with_spelling_model("/models/spell")
        .with_identify_speakers(false)
        .with_speculative_decoding(true);
    assert_eq!(opts.get("ort_providers"), Some("CPU"));
    assert_eq!(opts.get("spelling_model_path"), Some("/models/spell"));
    assert_eq!(opts.get("identify_speakers"), Some("false"));
    assert_eq!(opts.get("use_speculative_decoding"), Some("true"));
    assert_eq!(opts.pairs().len(), 4);
    assert_eq!(opts.pairs()[0], ("ort_providers".to_string(), "CPU".to_string()));
}

#[test]
fn earliest_setting_of_a_key_wins() {
    let opts = TranscriberOptions::new()
        .set("voice", "a")
        .set("other", "x")
        .set("voice", "b");
    assert_eq!(opts.get("voice"), Some("a"));
    assert_eq!(opts.get("other"), Some("x"));
    assert_eq!(opts.get("missing"), None);
    assert_eq!(opts.pairs().len(), 3);
}

#[test]
fn new_options_are_empty() {
    let opts = TranscriberOptions::new();
    assert!(opts.pairs().is_empty());
    assert_eq!(opts.get("identify_speakers"), None);
    let copy = TranscriberOptions::resolve(None);
    assert!(copy.pairs().is_empty());
    let given = TranscriberOptions::new().set("k", "v");
    let resolved = TranscriberOptions::resolve(Some(&given));
    assert_eq!(resolved.get("k"), Some("v"));
}

#[test]
fn context_max_terms_zero_and_large() {
    assert_eq!(
        TranscriberOptions::new().with_context_max_terms(0).get("context_max_terms"),
        Some("0")
    );
    assert_eq!(
        TranscriberOptions::new()
            .with_context_max_terms(u32::MAX)
            .get("context_max_terms"),
        Some("4294967295")
    );
}

#[test]
fn diarization_models_needed_only_without_directory() {
    let none = TranscriberOptions::new();
    assert!(!none.needs_diarization_models());

    let on = TranscriberOptions::new().with_identify_speakers(true);
    assert!(on.needs_diarization_models());

    let off = TranscriberOptions::new().with_identify_speakers(false);
    assert!(!off.needs_diarization_models());

    let with_dir = TranscriberOptions::new()
        .with_identify_speakers(true)
        .with_diarization_model_dir("/cache/diarization");
    assert!(!with_dir.needs_diarization_models());

    let first_off = TranscriberOptions::new()
        .with_identify_speakers(false)
        .with_identify_speakers(true);
    assert!(!first_off.needs_diarization_models());
}

#[test]
fn diarization_models_needed_for_memory_unless_shipped() {
    let on = TranscriberOptions::new().with_identify_speakers(true);
    let plain = vec!["encoder_model.ort".to_string(), "tokenizer.bin".to_string()];
    assert!(on.needs_diarization_models_for_memory(&plain));
    let shipped = vec![
        "encoder_model.ort".to_string(),
        "segmentation.ort".to_string(),
    ];
    assert!(!on.needs_diarization_models_for_memory(&shipped));
    let off = TranscriberOptions::new();
    assert!(!off.needs_diarization_models_for_memory(&plain));
}

#[test]
fn model_arch_codes_round_trip() {
    let all = [
        ModelArch::Tiny,
        ModelArch::Base,
        ModelArch::TinyStreaming,
        ModelArch::BaseStreaming,
        ModelArch::SmallStreaming,
        ModelArch::MediumStreaming,
    ];
    for (i, arch) in all.iter().enumerate() {
        assert_eq!(arch.as_u32(), i as u32);
        assert_eq!(ModelArch::from_u32(arch.as_u32()), Some(*arch));
    }
    assert_eq!(ModelArch::from_u32(6), None);
    assert_eq!(ModelArch::from_u32(u32::MAX), None);
}
