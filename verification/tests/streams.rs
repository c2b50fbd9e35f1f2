use std::sync::Arc;

use moonshine_rs::transcriber::{CloseStep, NativeStream};
use moonshine_rs::{Error, Transcriber, TranscriberOptions};

fn loaded(handle: i32) -> Transcriber {
    Transcriber::from_native_handle(handle, String::new()).unwrap()
}

fn created(handle: i32) -> NativeStream {
    NativeStream::from_native_handle(handle, String::new()).unwrap()
}

#[test]
fn loading_maps_negative_handles_to_errors() {
    let t = loaded(3);
    assert_eq!(t.handle(), 3);
    let err = Transcriber::from_native_handle(-2, "missing files".to_string()).unwrap_err();
    assert_eq!(
        err,
        Error::ApiError { code: -2, message: "missing files".to_string() }
    );
}

#[test]
fn load_request_checks_path_then_options() {
    let opts = TranscriberOptions::new().with_ort_providers("CPU");
    let err = Transcriber::load_request(None, &opts).err().unwrap();
    assert_eq!(
        err,
        Error::ApiError { code: -1, message: "Path contains invalid UTF-8".to_string() }
    );

    let bad_opts = TranscriberOptions::new().set("k", "v\0");
    let err = Transcriber::load_request(Some("dir\0x"), &bad_opts).err().unwrap();
    assert_eq!(err, Error::NulError { position: 3 });
    let err = Transcriber::load_request(Some("dir"), &bad_opts).err().unwrap();
    assert_eq!(err, Error::NulError { position: 1 });

    let req = Transcriber::load_request(Some("./models/tiny-en"), &opts).unwrap();
    assert_eq!(req.path, "./models/tiny-en");
    assert_eq!(req.options, vec![("ort_providers".to_string(), "CPU".to_string())]);
}

#[test]
fn memory_load_request_checks_file_names() {
    let opts = TranscriberOptions::new();
    let names = vec!["encoder_model.ort".to_string(), "bad\0".to_string()];
    let err = Transcriber::memory_load_request(&names, &opts).err().unwrap();
    assert_eq!(err, Error::NulError { position: 3 });
    let names = vec!["encoder_model.ort".to_string(), "tokenizer.bin".to_string()];
    let req = Transcriber::memory_load_request(&names, &opts).unwrap();
    assert_eq!(req.file_names, names);
    assert!(req.options.is_empty());
}

#[test]
fn keyterm_and_context_calls() {
    let t = loaded(5);
    let call = t.set_keyterms("Kubernetes").unwrap();
    assert_eq!(call.transcriber, 5);
    assert_eq!(call.keyterms, "Kubernetes");
    assert_eq!(t.set_keyterms("a\0").err(), Some(Error::NulError { position: 1 }));
    let call = t.set_context("Meeting with Anushka Sharma and Jurgen Klopp", 100).unwrap();
    assert_eq!(call.max_terms, 100);
    assert_eq!(call.context, "Meeting with Anushka Sharma and Jurgen Klopp");
    let call = t.set_context("", u32::MAX).unwrap();
    assert_eq!(call.max_terms, -1);
}

#[test]
fn failed_start_does_not_open_a_stream() {
    let t = loaded(1);
    let err = t.open_stream(created(4), -7, "start failed".to_string()).err().unwrap();
    assert_eq!(
        err,
        Error::ApiError { code: -7, message: "start failed".to_string() }
    );
}

#[test]
fn open_stream_calls_target_the_stream() {
    let t = loaded(1);
    let s = t.open_stream(created(4), 0, String::new()).unwrap();
    assert_eq!(s.handle(), 4);
    assert!(!s.closed());
    assert_eq!(s.transcriber().handle(), 1);
    let call = s.add_audio_call(16_000).unwrap();
    assert_eq!((call.transcriber, call.stream, call.sample_rate), (1, 4, 16_000));
    let call = s.poll_call(true).unwrap();
    assert_eq!((call.transcriber, call.stream, call.force), (1, 4, true));
    let call = s.stream_call().unwrap();
    assert_eq!((call.transcriber, call.stream), (1, 4));
    let call = s.set_keyterms("PostgreSQL,ClickHouse").unwrap();
    assert_eq!(call.transcriber, 1);
    let call = s.set_context("Database migration plan", 20).unwrap();
    assert_eq!(call.max_terms, 20);
}

#[test]
fn closing_twice_releases_once() {
    let t = loaded(1);
    let mut s = t.open_stream(created(4), 0, String::new()).unwrap();
    assert_eq!(s.begin_close(), CloseStep::Release { transcriber: 1, stream: 4 });
    assert!(s.closed());
    assert_eq!(s.begin_close(), CloseStep::AlreadyClosed);
    assert_eq!(s.check_open(), Err(Error::InvalidHandle));
    assert_eq!(s.add_audio_call(16_000).err(), Some(Error::InvalidHandle));
    assert_eq!(s.poll_call(false).err(), Some(Error::InvalidHandle));
    assert_eq!(s.stream_call().err(), Some(Error::InvalidHandle));
}

#[test]
fn failed_creates_yield_no_stream() {
    let err = NativeStream::from_native_handle(-1, "create failed".to_string()).unwrap_err();
    assert_eq!(
        err,
        Error::ApiError { code: -1, message: "create failed".to_string() }
    );
    let n = created(0);
    assert_eq!(n.handle(), 0);
    let t = loaded(1);
    let mut s = t.open_stream(n, 0, String::new()).unwrap();
    assert_eq!(s.handle(), 0);
    assert_eq!(s.begin_close(), CloseStep::Release { transcriber: 1, stream: 0 });
    assert_eq!(s.handle(), 0);
    assert_eq!(s.begin_close(), CloseStep::AlreadyClosed);
    assert_eq!(s.handle(), 0);
}

#[test]
fn owned_streams_share_the_transcriber() {
    let t = Arc::new(loaded(9));
    let mut s = Transcriber::open_owned_stream(Arc::clone(&t), created(2), 0, String::new()).unwrap();
    assert_eq!(s.handle(), 2);
    assert_eq!(s.transcriber().handle(), 9);
    let call = s.add_audio_call(44_100).unwrap();
    assert_eq!((call.transcriber, call.stream, call.sample_rate), (9, 2, 44_100));
    let call = s.set_keyterms("Rust,Tokio,Tauri").unwrap();
    assert_eq!(call.keyterms, "Rust,Tokio,Tauri");
    let call = s.set_context("GUI voice application in Rust", 10).unwrap();
    assert_eq!(call.max_terms, 10);
    assert_eq!(s.begin_close(), CloseStep::Release { transcriber: 9, stream: 2 });
    assert_eq!(s.begin_close(), CloseStep::AlreadyClosed);
    assert_eq!(s.poll_call(true).err(), Some(Error::InvalidHandle));
    let err = Transcriber::open_owned_stream(t, created(3), 5, "x".to_string()).err().unwrap();
    assert_eq!(err, Error::ApiError { code: 5, message: "x".to_string() });
}

#[test]
fn large_sample_rates_wrap_like_the_native_argument() {
    let t = loaded(1);
    let s = t.open_stream(created(0), 0, String::new()).unwrap();
    assert_eq!(s.add_audio_call(u32::MAX).unwrap().sample_rate, -1);
}

#[test]
fn finalizing_polls_after_a_successful_stop() {
    let t = loaded(1);
    let mut s = t.open_stream(created(6), 0, String::new()).unwrap();
    let err = s.finalize_poll_call(-3, "stop failed".to_string()).err().unwrap();
    assert_eq!(err, Error::ApiError { code: -3, message: "stop failed".to_string() });
    let call = s.finalize_poll_call(0, String::new()).unwrap();
    assert_eq!((call.transcriber, call.stream, call.force), (1, 6, true));
    s.begin_close();
    assert_eq!(s.finalize_poll_call(0, String::new()).err(), Some(Error::InvalidHandle));

    let owned = Arc::new(loaded(2));
    let s = Transcriber::open_owned_stream(owned, created(8), 0, String::new()).unwrap();
    let call = s.finalize_poll_call(0, String::new()).unwrap();
    assert_eq!((call.transcriber, call.stream, call.force), (2, 8, true));
}
