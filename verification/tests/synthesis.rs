use moonshine_rs::audio::ResampleQuality;
use moonshine_rs::tts::{
    audio_sample_count, catalog_request, chunk_status, utterance_request,
    utterances_from_output, ChunkStatus,
};
use moonshine_rs::{Error, GraphemeToPhonemizer, TtsOptions, TtsSynthesizer};

#[test]
fn test_tts_options_builder() {
    // The speed is a float option; its builder writes the float's text under
    // "speed".
    let opts = TtsOptions::new()
        .with_voice("kokoro_af_heart")
        .set("speed", &1.2f32.to_string())
        .with_g2p_root("/tmp/g2p")
        .with_split_on_colon(true)
        .with_min_codepoints(10);

    assert_eq!(opts.get("voice"), Some("kokoro_af_heart"));
    assert_eq!(opts.get("speed"), Some("1.2"));
    assert_eq!(opts.get("g2p_root"), Some("/tmp/g2p"));
    assert_eq!(opts.get("split_on_colon"), Some("true"));
    assert_eq!(opts.get("min_codepoints"), Some("10"));
}

#[test]
fn tts_options_builder() {
    let opts = TtsOptions::new()
        .with_voice("kokoro_af_heart")
        .with_g2p_root("/tmp/g2p")
        .with_split_on_colon(true)
        .with_min_codepoints(10);

    assert_eq!(opts.get("voice"), Some("kokoro_af_heart"));
    assert_eq!(opts.get("g2p_root"), Some("/tmp/g2p"));
    assert_eq!(opts.get("split_on_colon"), Some("true"));
    assert_eq!(opts.get("min_codepoints"), Some("10"));
    assert_eq!(opts.get("speed"), None);
}

#[test]
fn model_directory_is_the_default_model_root() {
    let req = TtsSynthesizer::load_request("en", "./models/tts/kokoro", None).unwrap();
    assert_eq!(req.language, "en");
    assert_eq!(
        req.options,
        vec![("model_root".to_string(), "./models/tts/kokoro".to_string())]
    );

    let opts = TtsOptions::new().with_voice("kokoro_af_heart");
    let req = TtsSynthesizer::load_request("en", "dir", Some(&opts)).unwrap();
    assert_eq!(req.options.len(), 2);
    assert_eq!(req.options[1], ("model_root".to_string(), "dir".to_string()));

    for key in ["g2p_root", "model_root"] {
        let opts = TtsOptions::new().set(key, "/explicit");
        let req = TtsSynthesizer::load_request("en", "dir", Some(&opts)).unwrap();
        assert_eq!(req.options, vec![(key.to_string(), "/explicit".to_string())]);
    }
    for key in ["tts_root", "path_root"] {
        let opts = TtsOptions::new().set(key, "/explicit");
        let req = TtsSynthesizer::load_request("en", "dir", Some(&opts)).unwrap();
        assert_eq!(
            req.options,
            vec![
                (key.to_string(), "/explicit".to_string()),
                ("model_root".to_string(), "dir".to_string())
            ]
        );
    }
    assert_eq!(
        TtsSynthesizer::load_request("e\0", "dir", None).err(),
        Some(Error::NulError { position: 1 })
    );
}

#[test]
fn model_directory_is_the_default_phonemizer_root() {
    let req = GraphemeToPhonemizer::load_request("en_us", "/g2p", None).unwrap();
    assert_eq!(req.options, vec![("g2p_root".to_string(), "/g2p".to_string())]);
    let opts = TtsOptions::new().with_model_root("/m");
    let req = GraphemeToPhonemizer::load_request("en_us", "/g2p", Some(&opts)).unwrap();
    assert_eq!(req.options, vec![("model_root".to_string(), "/m".to_string())]);
    let opts = TtsOptions::new().set("tts_root", "/t");
    let req = GraphemeToPhonemizer::load_request("en_us", "/g2p", Some(&opts)).unwrap();
    assert_eq!(req.options.len(), 2);
}

#[test]
fn memory_loads_check_language_names_then_options() {
    let names = vec!["kokoro/config.json".to_string()];
    let req = TtsSynthesizer::memory_load_request("en", &names, None).unwrap();
    assert_eq!(req.file_names, names);
    assert!(req.options.is_empty());
    let bad = vec!["x\0".to_string()];
    assert_eq!(
        TtsSynthesizer::memory_load_request("en", &bad, None).err(),
        Some(Error::NulError { position: 1 })
    );
}

#[test]
fn synthesizer_calls() {
    let synth = TtsSynthesizer::from_native_handle(2, String::new()).unwrap();
    assert_eq!(synth.handle(), 2);
    let call = synth.text_call("Hello test", None).unwrap();
    assert_eq!((call.handle, call.text.as_str()), (2, "Hello test"));
    assert!(call.options.is_empty());
    let call = synth.push_text_call("tokens").unwrap();
    assert_eq!(call.text, "tokens");
    assert_eq!(synth.push_text_call("\0").err(), Some(Error::NulError { position: 0 }));
    assert!(TtsSynthesizer::streaming_from_status(1));
    assert!(!TtsSynthesizer::streaming_from_status(0));
    assert!(!TtsSynthesizer::streaming_from_status(-1));
    assert_eq!(
        TtsSynthesizer::from_native_handle(-1, "bad".to_string()).err(),
        Some(Error::ApiError { code: -1, message: "bad".to_string() })
    );
}

#[test]
fn phonemizer_calls() {
    let g2p = GraphemeToPhonemizer::from_native_handle(0, String::new()).unwrap();
    let call = g2p.phonemes_call("test", None).unwrap();
    assert_eq!((call.handle, call.text.as_str()), (0, "test"));
    assert!(GraphemeToPhonemizer::from_native_handle(-4, String::new()).is_err());
}

#[test]
fn synthesis_sample_counts() {
    assert_eq!(audio_sample_count(0, false, 48_000, String::new()), Ok(48_000));
    assert_eq!(audio_sample_count(0, true, 0, String::new()), Ok(0));
    assert_eq!(audio_sample_count(0, true, 5, String::new()), Err(Error::NullPointer));
    assert_eq!(
        audio_sample_count(-2, false, 5, "failed".to_string()),
        Err(Error::ApiError { code: -2, message: "failed".to_string() })
    );
}

#[test]
fn chunk_statuses() {
    assert_eq!(chunk_status(0, false, String::new()), Ok(ChunkStatus::Ready));
    assert_eq!(chunk_status(0, true, String::new()), Err(Error::NullPointer));
    assert_eq!(chunk_status(1, true, String::new()), Ok(ChunkStatus::NeedText));
    assert_eq!(chunk_status(2, true, String::new()), Ok(ChunkStatus::EndOfStream));
    assert_eq!(chunk_status(3, true, String::new()), Ok(ChunkStatus::Cancelled));
    assert_eq!(
        chunk_status(4, false, "m".to_string()),
        Err(Error::ApiError { code: 4, message: "m".to_string() })
    );
    assert_eq!(
        chunk_status(-1, false, "m".to_string()),
        Err(Error::ApiError { code: -1, message: "m".to_string() })
    );
}

#[test]
fn catalog_and_utterance_requests() {
    let req = catalog_request(Some("en"), None).unwrap();
    assert_eq!(req.languages, Some("en".to_string()));
    let req = catalog_request(None, Some(&TtsOptions::new().with_voice("v"))).unwrap();
    assert_eq!(req.languages, None);
    assert_eq!(req.options.len(), 1);
    assert_eq!(catalog_request(Some("\0"), None).err(), Some(Error::NulError { position: 0 }));

    let req = utterance_request(Some("en"), "Hello world! This is a test sentence.", None).unwrap();
    assert_eq!(req.text, "Hello world! This is a test sentence.");
    assert_eq!(
        utterance_request(None, "a\0", None).err(),
        Some(Error::NulError { position: 1 })
    );
}

#[test]
fn utterance_lists_are_decoded_from_json() {
    let units = utterances_from_output(
        0,
        Some("[\"Hello world!\", \"This is a test sentence.\"]".to_string()),
        String::new(),
    )
    .unwrap();
    assert_eq!(units, vec!["Hello world!".to_string(), "This is a test sentence.".to_string()]);
    assert_eq!(utterances_from_output(0, None, String::new()), Ok(Vec::new()));
    assert_eq!(
        utterances_from_output(5, Some("[]".to_string()), "bad".to_string()),
        Err(Error::ApiError { code: 5, message: "bad".to_string() })
    );
    let detail = serde_json::from_str::<Vec<String>>("{\"a\": 1}").unwrap_err().to_string();
    assert_eq!(
        utterances_from_output(0, Some("{\"a\": 1}".to_string()), String::new()),
        Err(Error::ApiError {
            code: -1,
            message: format!("Failed to parse split utterances JSON: {detail}"),
        })
    );
}

#[test]
fn default_resample_quality_is_fast() {
    assert_eq!(ResampleQuality::default(), ResampleQuality::Fast);
    assert_ne!(ResampleQuality::High, ResampleQuality::Fast);
}
