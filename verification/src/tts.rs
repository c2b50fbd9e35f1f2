//! Text-to-speech and grapheme-to-phoneme: option sets, the synthesizer
//! and phonemizer handles, and the decoding of their native results.

use std::sync::Mutex;

use vstd::prelude::*;

use crate::cstring::{c_string_result, c_strings_result, check_c_string, check_c_strings, copy_strings, strings_view};
use crate::decimal::{decimal, decimal_string};
use crate::json::{json_string_array, parse_string_array};
use crate::error::{check_handle, is_api_error, local_error, Error, Result};
use crate::options::{check_pairs, copy_pairs, find_value, lemma_lookup_push, lookup, pair_strings, pairs_view, push_pair, OptionPairs};
use crate::sync::new_call_lock;
use crate::transcriber::{bool_str, bool_text};

verus! {

/// Options for synthesis and voice resolution: an ordered list of
/// key/value string pairs, looked up by earliest entry.
#[derive(Debug, Clone)]
pub struct TtsOptions {
    options: Vec<(String, String)>,
}

impl View for TtsOptions {
    type V = OptionPairs;

    closed spec fn view(&self) -> OptionPairs {
        pairs_view(self.options@)
    }
}

/// Whether an option set names the asset root explicitly, as `g2p_root` or
/// as `model_root`.
pub open spec fn names_asset_root(o: OptionPairs) -> bool {
    lookup(o, "g2p_root"@) is Some || lookup(o, "model_root"@) is Some
}

/// The options a synthesizer load hands to the engine: the given ones, with
/// `model_dir` appended as `model_root` unless they name an asset root.
pub open spec fn synthesizer_load_options(given: OptionPairs, model_dir: Seq<char>) -> OptionPairs {
    if names_asset_root(given) {
        given
    } else {
        given.push(("model_root"@, model_dir))
    }
}

/// The options a phonemizer load hands to the engine: the given ones, with
/// `model_dir` appended as `g2p_root` unless they name an asset root.
pub open spec fn phonemizer_load_options(given: OptionPairs, model_dir: Seq<char>) -> OptionPairs {
    if names_asset_root(given) {
        given
    } else {
        given.push(("g2p_root"@, model_dir))
    }
}

impl Default for TtsOptions {
    fn default() -> (r: Self)
        ensures
            r@ == Seq::<(Seq<char>, Seq<char>)>::empty(),
    {
        TtsOptions::new()
    }
}

impl TtsOptions {
    /// Creates an empty option set.
    pub fn new() -> (r: Self)
        ensures
            r@ == Seq::<(Seq<char>, Seq<char>)>::empty(),
    {
        let r = TtsOptions { options: Vec::new() };
        assert(r@ =~= Seq::<(Seq<char>, Seq<char>)>::empty());
        r
    }

    /// The option set `options` names, or an empty one.
    pub fn resolve(options: Option<&TtsOptions>) -> (r: Self)
        ensures
            r@ == match options {
                Some(o) => o@,
                None => Seq::empty(),
            },
    {
        match options {
            Some(o) => o.duplicate(),
            None => TtsOptions::new(),
        }
    }

    /// A copy of this option set.
    pub fn duplicate(&self) -> (r: Self)
        ensures
            r@ == self@,
    {
        TtsOptions { options: copy_pairs(&self.options) }
    }

    /// The key/value pairs in order.
    pub fn pairs(&self) -> (r: &Vec<(String, String)>)
        ensures
            pairs_view(r@) == self@,
    {
        &self.options
    }

    /// Appends the option `key` = `value`.
    pub fn set(self, key: &str, value: &str) -> (r: Self)
        ensures
            r@ == self@.push((key@, value@)),
    {
        let mut s = self;
        push_pair(&mut s.options, key, value);
        s
    }

    /// The value of the earliest entry with key `key`.
    pub fn get(&self, key: &str) -> (r: Option<&str>)
        ensures
            match r {
                Some(v) => lookup(self@, key@) == Some(v@),
                None => lookup(self@, key@) is None,
            },
    {
        find_value(&self.options, key)
    }

    /// Sets the voice identifier (e.g. `"kokoro_af_heart"`).
    pub fn with_voice(self, voice: &str) -> (r: Self)
        ensures
            r@ == self@.push(("voice"@, voice@)),
    {
        self.set("voice", voice)
    }

    /// Sets the root directory of the phonemizer and synthesizer assets.
    pub fn with_g2p_root(self, path: &str) -> (r: Self)
        ensures
            r@ == self@.push(("g2p_root"@, path@)),
    {
        self.set("g2p_root", path)
    }

    /// Sets the root directory of the model assets.
    pub fn with_model_root(self, path: &str) -> (r: Self)
        ensures
            r@ == self@.push(("model_root"@, path@)),
    {
        self.set("model_root", path)
    }

    /// Whether utterances break after colons.
    pub fn with_split_on_colon(self, enable: bool) -> (r: Self)
        ensures
            r@ == self@.push(("split_on_colon"@, bool_text(enable))),
    {
        self.set("split_on_colon", bool_str(enable))
    }

    /// Sets the minimum number of codepoints of a merged utterance unit.
    pub fn with_min_codepoints(self, min: usize) -> (r: Self)
        ensures
            r@ == self@.push(("min_codepoints"@, decimal(min as nat))),
    {
        let text = decimal_string(min as u64);
        self.set("min_codepoints", text.as_str())
    }

    /// Checks that every key and value can be handed to the engine as a C
    /// string, in order.
    pub fn check_c_options(&self) -> (r: Result<()>)
        ensures
            r == c_strings_result(pair_strings(self@)),
    {
        check_pairs(&self.options)
    }

    /// Uses `model_dir` as the model root unless `g2p_root` or `model_root`
    /// is already named.
    pub fn with_default_model_root(self, model_dir: &str) -> (r: Self)
        ensures
            r@ == synthesizer_load_options(self@, model_dir@),
    {
        if self.get("g2p_root").is_none() && self.get("model_root").is_none() {
            self.with_model_root(model_dir)
        } else {
            self
        }
    }

    /// Uses `model_dir` as the phonemizer root unless `g2p_root` or
    /// `model_root` is already named.
    pub fn with_default_g2p_root(self, model_dir: &str) -> (r: Self)
        ensures
            r@ == phonemizer_load_options(self@, model_dir@),
    {
        if self.get("g2p_root").is_none() && self.get("model_root").is_none() {
            self.with_g2p_root(model_dir)
        } else {
            self
        }
    }
}

/// An asset root given explicitly (`g2p_root` or `model_root`) is never
/// replaced by the model directory; without one, the model directory becomes
/// the root that is looked up: the model root for the synthesizer, the
/// phonemizer root for the phonemizer.
pub proof fn lemma_default_roots(given: OptionPairs, model_dir: Seq<char>)
    ensures
        !names_asset_root(given) ==> lookup(given.push(("model_root"@, model_dir)), "model_root"@) == Some(model_dir),
        !names_asset_root(given) ==> lookup(given.push(("g2p_root"@, model_dir)), "g2p_root"@) == Some(model_dir),
{
    lemma_lookup_push(given, "model_root"@, model_dir, "model_root"@);
    lemma_lookup_push(given, "g2p_root"@, model_dir, "g2p_root"@);
}

/// Only the root keys decide whether the model directory is used as root:
/// with no `g2p_root` and no `model_root` entry, a load hands the engine the
/// given options followed by the model directory as `model_root` (for the
/// synthesizer) or `g2p_root` (for the phonemizer), whatever else they hold,
/// such as a voice or a speed; with either entry, exactly the given options.
/// Adding an entry under any other key never changes that decision.
pub proof fn lemma_default_root_decided_by_root_keys(
    given: OptionPairs,
    model_dir: Seq<char>,
    key: Seq<char>,
    value: Seq<char>,
)
    ensures
        lookup(given, "g2p_root"@) is None && lookup(given, "model_root"@) is None ==> synthesizer_load_options(
            given,
            model_dir,
        ) == given.push(("model_root"@, model_dir)) && phonemizer_load_options(given, model_dir) == given.push(
            ("g2p_root"@, model_dir),
        ),
        lookup(given, "g2p_root"@) is Some || lookup(given, "model_root"@) is Some ==> synthesizer_load_options(
            given,
            model_dir,
        ) == given && phonemizer_load_options(given, model_dir) == given,
        key != "g2p_root"@ && key != "model_root"@ ==> names_asset_root(given.push((key, value)))
            == names_asset_root(given),
{
    lemma_lookup_push(given, key, value, "g2p_root"@);
    lemma_lookup_push(given, key, value, "model_root"@);
}

/// The arguments of a native synthesizer or phonemizer load.
pub struct TtsLoadRequest {
    pub language: String,
    pub options: Vec<(String, String)>,
}

/// The arguments of a native synthesizer load from in-memory assets.
pub struct TtsMemoryLoadRequest {
    pub language: String,
    pub file_names: Vec<String>,
    pub options: Vec<(String, String)>,
}

/// The arguments of a native call that takes a text and options.
pub struct TtsTextCall {
    pub handle: i32,
    pub text: String,
    pub options: Vec<(String, String)>,
}

/// The arguments of a native call that appends streaming text.
pub struct TtsPushCall {
    pub handle: i32,
    pub text: String,
}

/// The arguments of a native catalog query over optional languages.
pub struct CatalogRequest {
    pub languages: Option<String>,
    pub options: Vec<(String, String)>,
}

/// The arguments of a native utterance split.
pub struct UtteranceRequest {
    pub language: Option<String>,
    pub text: String,
    pub options: Vec<(String, String)>,
}

/// What converting an optional string to a C string yields.
pub open spec fn optional_c_string_result(s: Option<Seq<char>>) -> Result<()> {
    match s {
        Some(t) => c_string_result(t),
        None => Ok(()),
    }
}

/// The character view of an optional string.
pub open spec fn optional_view(s: Option<&str>) -> Option<Seq<char>> {
    match s {
        Some(t) => Some(t@),
        None => None,
    }
}

fn check_optional_c_string(s: Option<&str>) -> (r: Result<Option<String>>)
    ensures
        match optional_c_string_result(optional_view(s)) {
            Err(e) => r == Err::<Option<String>, Error>(e),
            Ok(()) => r matches Ok(o) && match o {
                Some(t) => optional_view(s) == Some(t@),
                None => s is None,
            },
        },
{
    match s {
        Some(t) => {
            check_c_string(t)?;
            Ok(Some(t.to_owned()))
        },
        None => Ok(None),
    }
}

/// An active synthesizer, identified by its native handle. Native calls on
/// it are serialized by its call lock.
#[derive(Debug)]
pub struct TtsSynthesizer {
    handle: i32,
    lock: Mutex<()>,
}

impl TtsSynthesizer {
    /// The native handle.
    pub closed spec fn native_handle(&self) -> i32 {
        self.handle
    }

    /// The lock owned by this engine instance; every call of `call_lock`
    /// hands out this same lock.
    pub closed spec fn native_lock(&self) -> Mutex<()> {
        self.lock
    }

    /// Builds the arguments of a load of the synthesizer for `language`
    /// from the assets under `model_dir`: the language is checked, then the
    /// options, with `model_dir` as model root when they name neither
    /// `g2p_root` nor `model_root`.
    pub fn load_request(language: &str, model_dir: &str, options: Option<&TtsOptions>) -> (r: Result<TtsLoadRequest>)
        ensures
            ({
                let given = match options {
                    Some(o) => o@,
                    None => Seq::empty(),
                };
                let effective = synthesizer_load_options(given, model_dir@);
                match c_string_result(language@) {
                    Err(e) => r == Err::<TtsLoadRequest, Error>(e),
                    Ok(()) => match c_strings_result(pair_strings(effective)) {
                        Err(e) => r == Err::<TtsLoadRequest, Error>(e),
                        Ok(()) => r matches Ok(req) && req.language@ == language@ && pairs_view(req.options@) == effective,
                    },
                }
            }),
    {
        check_c_string(language)?;
        let effective = TtsOptions::resolve(options).with_default_model_root(model_dir);
        effective.check_c_options()?;
        Ok(TtsLoadRequest { language: language.to_owned(), options: effective.options })
    }

    /// Builds the arguments of a load from in-memory assets: the language
    /// is checked, then the file names in order, then the options.
    pub fn memory_load_request(language: &str, file_names: &Vec<String>, options: Option<&TtsOptions>) -> (r: Result<TtsMemoryLoadRequest>)
        ensures
            ({
                let given = match options {
                    Some(o) => o@,
                    None => Seq::empty(),
                };
                match c_string_result(language@) {
                    Err(e) => r == Err::<TtsMemoryLoadRequest, Error>(e),
                    Ok(()) => match c_strings_result(strings_view(file_names@)) {
                        Err(e) => r == Err::<TtsMemoryLoadRequest, Error>(e),
                        Ok(()) => match c_strings_result(pair_strings(given)) {
                            Err(e) => r == Err::<TtsMemoryLoadRequest, Error>(e),
                            Ok(()) => r matches Ok(req) && req.language@ == language@
                                && strings_view(req.file_names@) == strings_view(file_names@)
                                && pairs_view(req.options@) == given,
                        },
                    },
                }
            }),
    {
        check_c_string(language)?;
        check_c_strings(file_names)?;
        let effective = TtsOptions::resolve(options);
        effective.check_c_options()?;
        let names = copy_strings(file_names);
        Ok(TtsMemoryLoadRequest { language: language.to_owned(), file_names: names, options: effective.options })
    }

    /// Completes a load: a non-negative native result is the synthesizer's
    /// handle, a negative one is the error code.
    pub fn from_native_handle(code: i32, message: String) -> (r: Result<TtsSynthesizer>)
        ensures
            r is Ok <==> code >= 0,
            r matches Ok(t) ==> t.native_handle() == code,
            r matches Err(e) ==> is_api_error(e, code, message@),
    {
        let handle = check_handle(code, message)?;
        Ok(TtsSynthesizer { handle, lock: new_call_lock() })
    }

    /// Returns the raw native handle.
    pub fn handle(&self) -> (h: i32)
        ensures
            h == self.native_handle(),
    {
        self.handle
    }

    /// The lock that serializes native calls on this synthesizer.
    pub fn call_lock(&self) -> (l: &Mutex<()>)
        ensures
            *l == self.native_lock(),
    {
        &self.lock
    }

    /// The native call that synthesizes `text` (or phonemes) with the given
    /// per-call options: the text is checked, then the options.
    pub fn text_call(&self, text: &str, options: Option<&TtsOptions>) -> (r: Result<TtsTextCall>)
        ensures
            ({
                let given = match options {
                    Some(o) => o@,
                    None => Seq::empty(),
                };
                match c_string_result(text@) {
                    Err(e) => r == Err::<TtsTextCall, Error>(e),
                    Ok(()) => match c_strings_result(pair_strings(given)) {
                        Err(e) => r == Err::<TtsTextCall, Error>(e),
                        Ok(()) => r matches Ok(c) && c.handle == self.native_handle() && c.text@ == text@
                            && pairs_view(c.options@) == given,
                    },
                }
            }),
    {
        check_c_string(text)?;
        let effective = TtsOptions::resolve(options);
        effective.check_c_options()?;
        Ok(TtsTextCall { handle: self.handle, text: text.to_owned(), options: effective.options })
    }

    /// The native call that appends streaming text.
    pub fn push_text_call(&self, text: &str) -> (r: Result<TtsPushCall>)
        ensures
            match c_string_result(text@) {
                Err(e) => r == Err::<TtsPushCall, Error>(e),
                Ok(()) => r matches Ok(c) && c.handle == self.native_handle() && c.text@ == text@,
            },
    {
        check_c_string(text)?;
        Ok(TtsPushCall { handle: self.handle, text: text.to_owned() })
    }

    /// Reads the native streaming query: a positive result means a
    /// streaming generation is active.
    pub fn streaming_from_status(code: i32) -> (r: bool)
        ensures
            r == (code > 0),
    {
        code > 0
    }
}

/// Builds the arguments of a catalog query (dependencies, voices or
/// phonemizer assets): the languages are checked, then the options.
pub fn catalog_request(languages: Option<&str>, options: Option<&TtsOptions>) -> (r: Result<CatalogRequest>)
    ensures
        ({
            let given = match options {
                Some(o) => o@,
                None => Seq::empty(),
            };
            match optional_c_string_result(optional_view(languages)) {
                Err(e) => r == Err::<CatalogRequest, Error>(e),
                Ok(()) => match c_strings_result(pair_strings(given)) {
                    Err(e) => r == Err::<CatalogRequest, Error>(e),
                    Ok(()) => r matches Ok(req) && pairs_view(req.options@) == given && match req.languages {
                        Some(l) => optional_view(languages) == Some(l@),
                        None => languages is None,
                    },
                },
            }
        }),
{
    let languages = check_optional_c_string(languages)?;
    let effective = TtsOptions::resolve(options);
    effective.check_c_options()?;
    Ok(CatalogRequest { languages, options: effective.options })
}

/// Builds the arguments of an utterance split: the language is checked,
/// then the text, then the options.
pub fn utterance_request(language: Option<&str>, text: &str, options: Option<&TtsOptions>) -> (r: Result<UtteranceRequest>)
    ensures
        ({
            let given = match options {
                Some(o) => o@,
                None => Seq::empty(),
            };
            match optional_c_string_result(optional_view(language)) {
                Err(e) => r == Err::<UtteranceRequest, Error>(e),
                Ok(()) => match c_string_result(text@) {
                    Err(e) => r == Err::<UtteranceRequest, Error>(e),
                    Ok(()) => match c_strings_result(pair_strings(given)) {
                        Err(e) => r == Err::<UtteranceRequest, Error>(e),
                        Ok(()) => r matches Ok(req) && req.text@ == text@ && pairs_view(req.options@) == given
                            && match req.language {
                                Some(l) => optional_view(language) == Some(l@),
                                None => language is None,
                            },
                    },
                },
            }
        }),
{
    let language = check_optional_c_string(language)?;
    check_c_string(text)?;
    let effective = TtsOptions::resolve(options);
    effective.check_c_options()?;
    Ok(UtteranceRequest { language, text: text.to_owned(), options: effective.options })
}

/// The number of samples to copy out of a native synthesis result: the
/// status is checked first; a missing buffer that should hold samples is an
/// error; otherwise all `size` samples are taken.
pub fn audio_sample_count(code: i32, data_is_null: bool, size: u64, message: String) -> (r: Result<u64>)
    ensures
        code != 0 ==> (r matches Err(e) && is_api_error(e, code, message@)),
        code == 0 && data_is_null && size > 0 ==> r == Err::<u64, Error>(Error::NullPointer),
        code == 0 && !(data_is_null && size > 0) ==> r == Ok::<u64, Error>(size),
{
    if code != 0 {
        return Err(Error::ApiError { code, message });
    }
    if data_is_null && size > 0 {
        return Err(Error::NullPointer);
    }
    Ok(size)
}

/// Outcome of pulling the next streaming chunk.
#[derive(Debug, Clone, Copy, PartialEq, Eq, Structural)]
pub enum ChunkStatus {
    /// A chunk of synthesized audio is ready.
    Ready,
    /// No complete sentence is buffered yet.
    NeedText,
    /// Input ended and all queued audio has been produced.
    EndOfStream,
    /// Generation was abandoned by a cancel.
    Cancelled,
}

/// Reads the native status of a chunk pull: 0 is a chunk (which must be
/// present), 1, 2 and 3 are the waiting, finished and cancelled states, and
/// any other code is an engine error.
pub fn chunk_status(code: i32, chunk_is_null: bool, message: String) -> (r: Result<ChunkStatus>)
    ensures
        code == 0 && !chunk_is_null ==> r == Ok::<ChunkStatus, Error>(ChunkStatus::Ready),
        code == 0 && chunk_is_null ==> r == Err::<ChunkStatus, Error>(Error::NullPointer),
        code == 1 ==> r == Ok::<ChunkStatus, Error>(ChunkStatus::NeedText),
        code == 2 ==> r == Ok::<ChunkStatus, Error>(ChunkStatus::EndOfStream),
        code == 3 ==> r == Ok::<ChunkStatus, Error>(ChunkStatus::Cancelled),
        !(0 <= code <= 3) ==> (r matches Err(e) && is_api_error(e, code, message@)),
{
    match code {
        0 => {
            if chunk_is_null {
                Err(Error::NullPointer)
            } else {
                Ok(ChunkStatus::Ready)
            }
        },
        1 => Ok(ChunkStatus::NeedText),
        2 => Ok(ChunkStatus::EndOfStream),
        3 => Ok(ChunkStatus::Cancelled),
        _ => Err(Error::ApiError { code, message }),
    }
}

/// Grapheme-to-phoneme converter, identified by its native handle. Native
/// calls on it are serialized by its call lock.
#[derive(Debug)]
pub struct GraphemeToPhonemizer {
    handle: i32,
    lock: Mutex<()>,
}

impl GraphemeToPhonemizer {
    /// The native handle.
    pub closed spec fn native_handle(&self) -> i32 {
        self.handle
    }

    /// The lock owned by this engine instance; every call of `call_lock`
    /// hands out this same lock.
    pub closed spec fn native_lock(&self) -> Mutex<()> {
        self.lock
    }

    /// Builds the arguments of a load of the phonemizer for `language` from
    /// the assets under `model_dir`: the language is checked, then the
    /// options with `model_dir` as default phonemizer root.
    pub fn load_request(language: &str, model_dir: &str, options: Option<&TtsOptions>) -> (r: Result<TtsLoadRequest>)
        ensures
            ({
                let given = match options {
                    Some(o) => o@,
                    None => Seq::empty(),
                };
                let effective = phonemizer_load_options(given, model_dir@);
                match c_string_result(language@) {
                    Err(e) => r == Err::<TtsLoadRequest, Error>(e),
                    Ok(()) => match c_strings_result(pair_strings(effective)) {
                        Err(e) => r == Err::<TtsLoadRequest, Error>(e),
                        Ok(()) => r matches Ok(req) && req.language@ == language@ && pairs_view(req.options@) == effective,
                    },
                }
            }),
    {
        check_c_string(language)?;
        let effective = TtsOptions::resolve(options).with_default_g2p_root(model_dir);
        effective.check_c_options()?;
        Ok(TtsLoadRequest { language: language.to_owned(), options: effective.options })
    }

    /// Completes a load: a non-negative native result is the phonemizer's
    /// handle, a negative one is the error code.
    pub fn from_native_handle(code: i32, message: String) -> (r: Result<GraphemeToPhonemizer>)
        ensures
            r is Ok <==> code >= 0,
            r matches Ok(t) ==> t.native_handle() == code,
            r matches Err(e) ==> is_api_error(e, code, message@),
    {
        let handle = check_handle(code, message)?;
        Ok(GraphemeToPhonemizer { handle, lock: new_call_lock() })
    }

    /// Returns the raw native handle.
    pub fn handle(&self) -> (h: i32)
        ensures
            h == self.native_handle(),
    {
        self.handle
    }

    /// The lock that serializes native calls on this phonemizer.
    pub fn call_lock(&self) -> (l: &Mutex<()>)
        ensures
            *l == self.native_lock(),
    {
        &self.lock
    }

    /// The native call that converts `text` to phonemes: the text is
    /// checked, then the options.
    pub fn phonemes_call(&self, text: &str, options: Option<&TtsOptions>) -> (r: Result<TtsTextCall>)
        ensures
            ({
                let given = match options {
                    Some(o) => o@,
                    None => Seq::empty(),
                };
                match c_string_result(text@) {
                    Err(e) => r == Err::<TtsTextCall, Error>(e),
                    Ok(()) => match c_strings_result(pair_strings(given)) {
                        Err(e) => r == Err::<TtsTextCall, Error>(e),
                        Ok(()) => r matches Ok(c) && c.handle == self.native_handle() && c.text@ == text@
                            && pairs_view(c.options@) == given,
                    },
                }
            }),
    {
        check_c_string(text)?;
        let effective = TtsOptions::resolve(options);
        effective.check_c_options()?;
        Ok(TtsTextCall { handle: self.handle, text: text.to_owned(), options: effective.options })
    }
}

// ---------------------------------------------------------------------------
// Utterance lists
// ---------------------------------------------------------------------------

/// The text that precedes the parser's message in the error raised for an
/// utterance list that is not a JSON array of strings.
pub open spec fn utterance_parse_prefix() -> Seq<char> {
    "Failed to parse split utterances JSON: "@
}

/// Turns the outcome of a native utterance split into the list of
/// utterances: the status is checked first; no buffer means no utterances;
/// otherwise the buffer must be a JSON array of strings.
pub fn utterances_from_output(code: i32, json: Option<String>, message: String) -> (r: Result<Vec<String>>)
    ensures
        code != 0 ==> (r matches Err(e) && is_api_error(e, code, message@)),
        code == 0 && json is None ==> (r matches Ok(v) && v@.len() == 0),
        code == 0 && json is Some ==> match json_string_array(json.unwrap()@) {
            Ok(items) => r matches Ok(v) && strings_view(v@) == items,
            Err(detail) => r matches Err(e) && is_api_error(e, -1i32, utterance_parse_prefix() + detail),
        },
{
    if code != 0 {
        return Err(Error::ApiError { code, message });
    }
    let text = match json {
        Some(t) => t,
        None => {
            return Ok(Vec::new());
        },
    };
    match parse_string_array(text.as_str()) {
        Ok(items) => Ok(items),
        Err(detail) => {
            let mut m = "Failed to parse split utterances JSON: ".to_owned();
            m.append(detail.as_str());
            proof {
                reveal_strlit("Failed to parse split utterances JSON: ");
            }
            Err(local_error(m))
        },
    }
}

} // verus!
