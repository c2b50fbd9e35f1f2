//! Speech-to-text: model architectures, transcriber options, the loaded
//! transcriber and its streaming sessions.
//!
//! The native engine is driven by the caller: each operation here checks its
//! inputs and the session state, and yields the exact arguments of the native
//! call to make, or the error the operation returns. Status codes that come
//! back are turned into results by [`check_status`] and [`check_handle`].

use std::sync::{Arc, Mutex};

use vstd::prelude::*;

use crate::cstring::{c_string_result, c_strings_result, check_c_string, check_c_strings, copy_strings, strings_view};
use crate::decimal::{decimal, decimal_string};
use crate::error::{check_status, check_handle, is_api_error, local_error, Error, Result};
use crate::options::{
    check_pairs, copy_pairs, find_value, lookup, pair_strings, pairs_view,
    push_pair, OptionPairs,
};
use crate::sync::new_call_lock;

verus! {

/// The model architecture to load. Must match the model files on disk.
#[derive(Debug, Clone, Copy, PartialEq, Eq, Structural)]
pub enum ModelArch {
    /// Smallest, fastest English model (`tiny-en`).
    Tiny,
    /// Higher-accuracy English model (`base-en`).
    Base,
    /// Streaming tiny model.
    TinyStreaming,
    /// Streaming base model.
    BaseStreaming,
    /// Streaming small model.
    SmallStreaming,
    /// Streaming medium model.
    MediumStreaming,
}

/// The native engine's code for each architecture.
pub open spec fn arch_code(arch: ModelArch) -> u32 {
    match arch {
        ModelArch::Tiny => 0,
        ModelArch::Base => 1,
        ModelArch::TinyStreaming => 2,
        ModelArch::BaseStreaming => 3,
        ModelArch::SmallStreaming => 4,
        ModelArch::MediumStreaming => 5,
    }
}

/// The architecture with native code `code`, if there is one.
pub open spec fn arch_of_code(code: u32) -> Option<ModelArch> {
    if code == 0 {
        Some(ModelArch::Tiny)
    } else if code == 1 {
        Some(ModelArch::Base)
    } else if code == 2 {
        Some(ModelArch::TinyStreaming)
    } else if code == 3 {
        Some(ModelArch::BaseStreaming)
    } else if code == 4 {
        Some(ModelArch::SmallStreaming)
    } else if code == 5 {
        Some(ModelArch::MediumStreaming)
    } else {
        None
    }
}

impl ModelArch {
    /// Returns the raw native code for this architecture.
    pub fn as_u32(self) -> (code: u32)
        ensures
            code == arch_code(self),
    {
        match self {
            ModelArch::Tiny => 0,
            ModelArch::Base => 1,
            ModelArch::TinyStreaming => 2,
            ModelArch::BaseStreaming => 3,
            ModelArch::SmallStreaming => 4,
            ModelArch::MediumStreaming => 5,
        }
    }

    /// The architecture with native code `code`; `None` for codes of no
    /// architecture.
    pub fn from_u32(code: u32) -> (r: Option<ModelArch>)
        ensures
            r == arch_of_code(code),
            r is Some <==> code < 6,
    {
        match code {
            0 => Some(ModelArch::Tiny),
            1 => Some(ModelArch::Base),
            2 => Some(ModelArch::TinyStreaming),
            3 => Some(ModelArch::BaseStreaming),
            4 => Some(ModelArch::SmallStreaming),
            5 => Some(ModelArch::MediumStreaming),
            _ => None,
        }
    }
}

/// Reading back an architecture's code gives the architecture, and the codes
/// of distinct architectures differ.
pub proof fn lemma_arch_code_round_trip(arch: ModelArch, other: ModelArch)
    ensures
        arch_of_code(arch_code(arch)) == Some(arch),
        arch_code(arch) < 6,
        arch_code(arch) == arch_code(other) ==> arch == other,
{
}

/// The text of a boolean option value.
pub open spec fn bool_text(b: bool) -> Seq<char> {
    if b {
        "true"@
    } else {
        "false"@
    }
}

pub(crate) fn bool_str(b: bool) -> (s: &'static str)
    ensures
        s@ == bool_text(b),
{
    if b {
        "true"
    } else {
        "false"
    }
}

/// Configuration passed to the engine when a transcriber is loaded: an
/// ordered list of key/value string pairs. Setting a key again appends a
/// second entry; lookups find the earliest one.
#[derive(Debug, Clone)]
pub struct TranscriberOptions {
    options: Vec<(String, String)>,
}

impl View for TranscriberOptions {
    type V = OptionPairs;

    closed spec fn view(&self) -> OptionPairs {
        pairs_view(self.options@)
    }
}

impl Default for TranscriberOptions {
    fn default() -> (r: Self)
        ensures
            r@ == Seq::<(Seq<char>, Seq<char>)>::empty(),
    {
        TranscriberOptions::new()
    }
}

impl TranscriberOptions {
    /// Creates an empty option set.
    pub fn new() -> (r: Self)
        ensures
            r@ == Seq::<(Seq<char>, Seq<char>)>::empty(),
    {
        let r = TranscriberOptions { options: Vec::new() };
        assert(r@ =~= Seq::<(Seq<char>, Seq<char>)>::empty());
        r
    }

    /// The option set `options` names, or an empty one.
    pub fn resolve(options: Option<&TranscriberOptions>) -> (r: Self)
        ensures
            r@ == match options {
                Some(o) => o@,
                None => Seq::empty(),
            },
    {
        match options {
            Some(o) => o.duplicate(),
            None => TranscriberOptions::new(),
        }
    }

    /// A copy of this option set.
    pub fn duplicate(&self) -> (r: Self)
        ensures
            r@ == self@,
    {
        TranscriberOptions { options: copy_pairs(&self.options) }
    }

    /// The key/value pairs in order.
    pub fn pairs(&self) -> (r: &Vec<(String, String)>)
        ensures
            pairs_view(r@) == self@,
    {
        &self.options
    }

    /// Appends the option `key` = `value`.
    pub fn set(self, key: &str, value: &str) -> (r: Self)
        ensures
            r@ == self@.push((key@, value@)),
    {
        let mut s = self;
        push_pair(&mut s.options, key, value);
        s
    }

    /// The value of the earliest entry with key `key`.
    pub fn get(&self, key: &str) -> (r: Option<&str>)
        ensures
            match r {
                Some(v) => lookup(self@, key@) == Some(v@),
                None => lookup(self@, key@) is None,
            },
    {
        find_value(&self.options, key)
    }

    /// Selects the ONNX Runtime execution providers (e.g. `"CPU"`).
    pub fn with_ort_providers(self, providers: &str) -> (r: Self)
        ensures
            r@ == self@.push(("ort_providers"@, providers@)),
    {
        self.set("ort_providers", providers)
    }

    /// Whether streaming updates re-decode the previous hypothesis with
    /// speculative decoding.
    pub fn with_speculative_decoding(self, enable: bool) -> (r: Self)
        ensures
            r@ == self@.push(("use_speculative_decoding"@, bool_text(enable))),
    {
        self.set("use_speculative_decoding", bool_str(enable))
    }

    /// Enables or disables speaker identification (diarization).
    pub fn with_identify_speakers(self, enable: bool) -> (r: Self)
        ensures
            r@ == self@.push(("identify_speakers"@, bool_text(enable))),
    {
        self.set("identify_speakers", bool_str(enable))
    }

    /// Sets the directory holding the diarization models
    /// (`segmentation.ort` and `embedding.ort`).
    pub fn with_diarization_model_dir(self, path: &str) -> (r: Self)
        ensures
            r@ == self@.push(("diarization_model_dir"@, path@)),
    {
        self.set("diarization_model_dir", path)
    }

    /// Sets the path to an optional spelling model.
    pub fn with_spelling_model(self, path: &str) -> (r: Self)
        ensures
            r@ == self@.push(("spelling_model_path"@, path@)),
    {
        self.set("spelling_model_path", path)
    }

    /// Sets comma-separated key terms that bias the decoder (streaming
    /// architectures only).
    pub fn with_keyterms(self, keyterms: &str) -> (r: Self)
        ensures
            r@ == self@.push(("keyterms"@, keyterms@)),
    {
        self.set("keyterms", keyterms)
    }

    /// Supplies free-form context text from which key terms are extracted.
    pub fn with_context(self, context: &str) -> (r: Self)
        ensures
            r@ == self@.push(("context"@, context@)),
    {
        self.set("context", context)
    }

    /// Caps the number of key terms extracted from context text.
    pub fn with_context_max_terms(self, max_terms: u32) -> (r: Self)
        ensures
            r@ == self@.push(("context_max_terms"@, decimal(max_terms as nat))),
    {
        let text = decimal_string(max_terms as u64);
        self.set("context_max_terms", text.as_str())
    }

    /// Whether loading from files must first fetch the diarization models:
    /// speaker identification is on and no model directory is given.
    pub fn needs_diarization_models(&self) -> (r: bool)
        ensures
            r == (lookup(self@, "identify_speakers"@) == Some("true"@)
                && lookup(self@, "diarization_model_dir"@) is None),
    {
        let identify = match self.get("identify_speakers") {
            Some(v) => v.to_owned() == "true".to_owned(),
            None => false,
        };
        identify && self.get("diarization_model_dir").is_none()
    }

    /// Whether loading from in-memory files named `file_names` must first
    /// fetch the diarization models: as for files, and no file is named
    /// `segmentation.ort`.
    pub fn needs_diarization_models_for_memory(&self, file_names: &Vec<String>) -> (r: bool)
        ensures
            r == (lookup(self@, "identify_speakers"@) == Some("true"@)
                && lookup(self@, "diarization_model_dir"@) is None
                && !strings_view(file_names@).contains("segmentation.ort"@)),
    {
        if !self.needs_diarization_models() {
            return false;
        }
        let wanted = "segmentation.ort".to_owned();
        let n = file_names.len();
        let mut i: usize = 0;
        while i < n
            invariant
                n == file_names@.len(),
                i <= n,
                wanted@ == "segmentation.ort"@,
                forall|j: int| 0 <= j < i ==> strings_view(file_names@)[j] != "segmentation.ort"@,
            decreases n - i,
        {
            if file_names[i] == wanted {
                assert(strings_view(file_names@)[i as int] == "segmentation.ort"@);
                return false;
            }
            i = i + 1;
        }
        true
    }

    /// Checks that every key and value can be handed to the engine as a C
    /// string, in order.
    pub fn check_c_options(&self) -> (r: Result<()>)
        ensures
            r == c_strings_result(pair_strings(self@)),
    {
        check_pairs(&self.options)
    }
}

/// The arguments of a native load from a model directory.
pub struct LoadRequest {
    pub path: String,
    pub options: Vec<(String, String)>,
}

/// The arguments of a native load from in-memory model files.
pub struct MemoryLoadRequest {
    pub file_names: Vec<String>,
    pub options: Vec<(String, String)>,
}

/// The arguments of a native key-term update.
pub struct KeytermsCall {
    pub transcriber: i32,
    pub keyterms: String,
}

/// The arguments of a native context update.
pub struct ContextCall {
    pub transcriber: i32,
    pub context: String,
    pub max_terms: i32,
}

/// The message of the error for a model path that is not valid UTF-8.
pub open spec fn invalid_path_message() -> Seq<char> {
    "Path contains invalid UTF-8"@
}

/// A loaded model ready to transcribe audio, identified by its native
/// handle. Native calls on it are serialized by its call lock.
#[derive(Debug)]
pub struct Transcriber {
    handle: i32,
    lock: Mutex<()>,
}

impl Transcriber {
    /// The native handle.
    pub closed spec fn native_handle(&self) -> i32 {
        self.handle
    }

    /// The lock owned by this engine instance; every call of `call_lock`
    /// hands out this same lock.
    pub closed spec fn native_lock(&self) -> Mutex<()> {
        self.lock
    }

    /// Builds the arguments of a load from the model directory `path`
    /// (`None` when the path is not valid UTF-8) with the resolved option
    /// set: the path is checked, then the options in order.
    pub fn load_request(path: Option<&str>, options: &TranscriberOptions) -> (r: Result<LoadRequest>)
        ensures
            path is None ==> (r matches Err(e) && is_api_error(e, -1i32, invalid_path_message())),
            path matches Some(p) ==> match c_string_result(p@) {
                Err(e) => r == Err::<LoadRequest, Error>(e),
                Ok(()) => match c_strings_result(pair_strings(options@)) {
                    Err(e) => r == Err::<LoadRequest, Error>(e),
                    Ok(()) => r matches Ok(req) && req.path@ == p@ && pairs_view(req.options@) == options@,
                },
            },
    {
        let p = match path {
            Some(p) => p,
            None => {
                return Err(local_error("Path contains invalid UTF-8".to_owned()));
            },
        };
        check_c_string(p)?;
        options.check_c_options()?;
        Ok(LoadRequest { path: p.to_owned(), options: copy_pairs(&options.options) })
    }

    /// Builds the arguments of a load from in-memory files: the file names
    /// are checked in order, then the options.
    pub fn memory_load_request(file_names: &Vec<String>, options: &TranscriberOptions) -> (r: Result<MemoryLoadRequest>)
        ensures
            match c_strings_result(strings_view(file_names@)) {
                Err(e) => r == Err::<MemoryLoadRequest, Error>(e),
                Ok(()) => match c_strings_result(pair_strings(options@)) {
                    Err(e) => r == Err::<MemoryLoadRequest, Error>(e),
                    Ok(()) => r matches Ok(req) && strings_view(req.file_names@) == strings_view(file_names@)
                        && pairs_view(req.options@) == options@,
                },
            },
    {
        check_c_strings(file_names)?;
        options.check_c_options()?;
        let names = copy_strings(file_names);
        Ok(MemoryLoadRequest { file_names: names, options: copy_pairs(&options.options) })
    }

    /// Completes a load: a non-negative native result is the new
    /// transcriber's handle, a negative one is the error code.
    pub fn from_native_handle(code: i32, message: String) -> (r: Result<Transcriber>)
        ensures
            r is Ok <==> code >= 0,
            r matches Ok(t) ==> t.native_handle() == code,
            r matches Err(e) ==> is_api_error(e, code, message@),
    {
        let handle = check_handle(code, message)?;
        Ok(Transcriber { handle, lock: new_call_lock() })
    }

    /// Returns the raw native handle.
    pub fn handle(&self) -> (h: i32)
        ensures
            h == self.native_handle(),
    {
        self.handle
    }

    /// The lock that serializes native calls on this transcriber.
    pub fn call_lock(&self) -> (l: &Mutex<()>)
        ensures
            *l == self.native_lock(),
    {
        &self.lock
    }

    /// Builds the native call that replaces the key terms; fails when the
    /// terms cannot be passed as a C string.
    pub fn set_keyterms(&self, keyterms: &str) -> (r: Result<KeytermsCall>)
        ensures
            match c_string_result(keyterms@) {
                Err(e) => r == Err::<KeytermsCall, Error>(e),
                Ok(()) => r matches Ok(c) && c.transcriber == self.native_handle() && c.keyterms@ == keyterms@,
            },
    {
        check_c_string(keyterms)?;
        Ok(KeytermsCall { transcriber: self.handle, keyterms: keyterms.to_owned() })
    }

    /// Builds the native call that extracts key terms from `context`, at
    /// most `max_terms` of them (0 for the engine's default).
    pub fn set_context(&self, context: &str, max_terms: u32) -> (r: Result<ContextCall>)
        ensures
            match c_string_result(context@) {
                Err(e) => r == Err::<ContextCall, Error>(e),
                Ok(()) => r matches Ok(c) && c.transcriber == self.native_handle() && c.context@ == context@
                    && c.max_terms == max_terms as i32,
            },
    {
        check_c_string(context)?;
        Ok(ContextCall { transcriber: self.handle, context: context.to_owned(), max_terms: max_terms as i32 })
    }

    /// Opens a streaming session on the native stream `stream` once the
    /// native start has returned `start_code`. When the start failed the
    /// native stream must be freed and the error is returned.
    pub fn open_stream<'a>(&'a self, stream: NativeStream, start_code: i32, message: String) -> (r: Result<TranscriberStream<'a>>)
        ensures
            r is Ok <==> start_code == 0,
            r matches Ok(s) ==> s.stream_handle() == stream.id() && s.stream_handle() >= 0 && !s.is_closed()
                && s.transcriber_handle() == self.native_handle(),
            r matches Err(e) ==> is_api_error(e, start_code, message@),
    {
        check_status(start_code, message)?;
        let stream_handle = stream.handle();
        Ok(TranscriberStream { transcriber: self, stream_handle, closed: false })
    }

    /// As [`open_stream`](Self::open_stream), for a session that shares
    /// ownership of the transcriber.
    pub fn open_owned_stream(transcriber: Arc<Transcriber>, stream: NativeStream, start_code: i32, message: String) -> (r: Result<OwnedTranscriberStream>)
        ensures
            r is Ok <==> start_code == 0,
            r matches Ok(s) ==> s.stream_handle() == stream.id() && s.stream_handle() >= 0 && !s.is_closed()
                && s.transcriber_handle() == transcriber.native_handle(),
            r matches Err(e) ==> is_api_error(e, start_code, message@),
    {
        check_status(start_code, message)?;
        let stream_handle = stream.handle();
        Ok(OwnedTranscriberStream { transcriber, stream_handle, closed: false })
    }
}

/// A native stream created on a transcriber: the non-negative handle that a
/// successful native create returned.
#[derive(Debug, Clone, Copy)]
pub struct NativeStream {
    handle: i32,
}

impl NativeStream {
    #[verifier::type_invariant]
    spec fn valid(self) -> bool {
        self.handle >= 0
    }

    /// The native stream handle.
    pub closed spec fn id(&self) -> i32 {
        self.handle
    }

    /// Completes a native stream create: a non-negative result is the new
    /// stream's handle, a negative one is the error code.
    pub fn from_native_handle(code: i32, message: String) -> (r: Result<NativeStream>)
        ensures
            r is Ok <==> code >= 0,
            r matches Ok(n) ==> n.id() == code,
            r matches Err(e) ==> is_api_error(e, code, message@),
    {
        let handle = check_handle(code, message)?;
        Ok(NativeStream { handle })
    }

    /// Returns the native stream handle, which is never negative.
    pub fn handle(&self) -> (h: i32)
        ensures
            h == self.id(),
            h >= 0,
    {
        proof {
            use_type_invariant(self);
        }
        self.handle
    }
}

/// One step in the life of a stream, each state being its native handle and
/// whether it is closed: the handle stays the same, and a closed stream
/// stays closed.
pub open spec fn stream_transition(before: (i32, bool), after: (i32, bool)) -> bool {
    after.0 == before.0 && (before.1 ==> after.1)
}

/// Over any run of stream operations, each a step as
/// [`stream_transition`] allows, every state has the handle the stream was
/// opened with, and once closed the stream is closed from then on.
pub proof fn lemma_stream_handle_fixed(trace: Seq<(i32, bool)>)
    requires
        trace.len() > 0,
        forall|i: int| 0 <= i < trace.len() - 1 ==> #[trigger] stream_transition(trace[i], trace[i + 1]),
    ensures
        forall|i: int| 0 <= i < trace.len() ==> #[trigger] trace[i].0 == trace[0].0,
        forall|i: int, j: int| #![trigger trace[i], trace[j]] 0 <= i <= j < trace.len() && trace[i].1 ==> trace[j].1,
    decreases trace.len(),
{
    if trace.len() > 1 {
        let prefix = trace.drop_last();
        assert forall|i: int| 0 <= i < prefix.len() - 1 implies #[trigger] stream_transition(prefix[i], prefix[i + 1]) by {
            assert(stream_transition(trace[i], trace[i + 1]));
        }
        lemma_stream_handle_fixed(prefix);
        let last = trace.len() - 1;
        let k = last - 1;
        assert(stream_transition(trace[k], trace[k + 1]));
        assert(prefix[k] == trace[k]);
        assert forall|i: int| 0 <= i < trace.len() implies #[trigger] trace[i].0 == trace[0].0 by {
            if i < last {
                assert(prefix[i] == trace[i]);
            }
        }
        assert forall|i: int, j: int| #![trigger trace[i], trace[j]] 0 <= i <= j < trace.len() && trace[i].1 implies trace[j].1 by {
            if j < last {
                assert(prefix[i] == trace[i] && prefix[j] == trace[j]);
            } else if i < last {
                assert(prefix[i] == trace[i]);
            }
        }
    }
}

/// The native arguments of a call on an open stream.
pub struct StreamCall {
    pub transcriber: i32,
    pub stream: i32,
}

/// The native arguments of adding audio to an open stream (the samples are
/// passed alongside).
pub struct AudioCall {
    pub transcriber: i32,
    pub stream: i32,
    pub sample_rate: i32,
}

/// The native arguments of transcribing an open stream.
pub struct PollCall {
    pub transcriber: i32,
    pub stream: i32,
    pub force: bool,
}

/// What closing a stream requires of the native engine.
#[derive(Debug, PartialEq, Eq, Structural)]
pub enum CloseStep {
    /// The stream was already closed: nothing to do, the close succeeds.
    AlreadyClosed,
    /// The stream has no native counterpart (a negative handle, which a
    /// stream opened from a [`NativeStream`] never has): the close succeeds.
    NothingToRelease,
    /// Stop the native stream (its status is ignored), then free it; the
    /// close returns the status of the free.
    Release { transcriber: i32, stream: i32 },
}

/// The step that closing a stream in state (`closed`, `stream`) takes.
pub open spec fn close_step(closed: bool, transcriber: i32, stream: i32) -> CloseStep {
    if closed {
        CloseStep::AlreadyClosed
    } else if stream >= 0 {
        CloseStep::Release { transcriber, stream }
    } else {
        CloseStep::NothingToRelease
    }
}

/// Closing a stream twice: the second close finds it closed, whatever the
/// first close did; the first close of an open stream releases its native
/// stream exactly when it has one.
pub proof fn lemma_close_idempotent(closed: bool, transcriber: i32, stream: i32)
    ensures
        close_step(true, transcriber, stream) == CloseStep::AlreadyClosed,
        close_step(closed, transcriber, stream) == CloseStep::AlreadyClosed <==> closed,
        close_step(false, transcriber, stream) == (CloseStep::Release { transcriber, stream }) <==> stream >= 0,
{
}

/// An active streaming session on a borrowed transcriber.
#[derive(Debug)]
pub struct TranscriberStream<'a> {
    transcriber: &'a Transcriber,
    stream_handle: i32,
    closed: bool,
}

impl<'a> TranscriberStream<'a> {
    #[verifier::type_invariant]
    spec fn valid(self) -> bool {
        self.stream_handle >= 0
    }

    /// The native stream handle.
    pub closed spec fn stream_handle(&self) -> i32 {
        self.stream_handle
    }

    /// The stream's state: its native handle and whether it is closed.
    pub open spec fn state(&self) -> (i32, bool) {
        (self.stream_handle(), self.is_closed())
    }

    /// Whether the session has been closed.
    pub closed spec fn is_closed(&self) -> bool {
        self.closed
    }

    /// The native handle of the transcriber the stream runs on.
    pub closed spec fn transcriber_handle(&self) -> i32 {
        self.transcriber.native_handle()
    }

    /// Returns the native stream handle, which is never negative.
    pub fn handle(&self) -> (h: i32)
        ensures
            h == self.stream_handle(),
            h >= 0,
    {
        proof {
            use_type_invariant(self);
        }
        self.stream_handle
    }

    /// The transcriber this session runs on.
    pub fn transcriber(&self) -> (t: &'a Transcriber)
        ensures
            t.native_handle() == self.transcriber_handle(),
    {
        self.transcriber
    }

    /// Whether the session has been closed.
    pub fn closed(&self) -> (c: bool)
        ensures
            c == self.is_closed(),
    {
        self.closed
    }

    /// Fails with [`Error::InvalidHandle`] once the session is closed.
    pub fn check_open(&self) -> (r: Result<()>)
        ensures
            r is Ok <==> !self.is_closed(),
            r is Err ==> r == Err::<(), Error>(Error::InvalidHandle),
    {
        if self.closed {
            Err(Error::InvalidHandle)
        } else {
            Ok(())
        }
    }

    /// The native call that appends audio sampled at `sample_rate`.
    pub fn add_audio_call(&self, sample_rate: u32) -> (r: Result<AudioCall>)
        ensures
            self.is_closed() ==> r == Err::<AudioCall, Error>(Error::InvalidHandle),
            !self.is_closed() ==> (r matches Ok(c) && c.transcriber == self.transcriber_handle()
                && c.stream == self.stream_handle() && c.sample_rate == sample_rate as i32),
    {
        self.check_open()?;
        Ok(AudioCall { transcriber: self.transcriber.handle(), stream: self.stream_handle, sample_rate: sample_rate as i32 })
    }

    /// The native call that evaluates the stream buffer, forced or not.
    pub fn poll_call(&self, force: bool) -> (r: Result<PollCall>)
        ensures
            self.is_closed() ==> r == Err::<PollCall, Error>(Error::InvalidHandle),
            !self.is_closed() ==> (r matches Ok(c) && c.transcriber == self.transcriber_handle()
                && c.stream == self.stream_handle() && c.force == force),
    {
        self.check_open()?;
        Ok(PollCall { transcriber: self.transcriber.handle(), stream: self.stream_handle, force })
    }

    /// The native stream on which a restart (stop, then start) or a
    /// finalization (stop, forced poll, close) runs.
    pub fn stream_call(&self) -> (r: Result<StreamCall>)
        ensures
            self.is_closed() ==> r == Err::<StreamCall, Error>(Error::InvalidHandle),
            !self.is_closed() ==> (r matches Ok(c) && c.transcriber == self.transcriber_handle()
                && c.stream == self.stream_handle()),
    {
        self.check_open()?;
        Ok(StreamCall { transcriber: self.transcriber.handle(), stream: self.stream_handle })
    }

    /// The second step of finalizing: once the native stop (made on
    /// [`stream_call`](Self::stream_call)) has returned `stop_status`, a
    /// failed stop is the error, and otherwise the forced evaluation whose
    /// transcript the finalization returns, before the stream is closed.
    pub fn finalize_poll_call(&self, stop_status: i32, message: String) -> (r: Result<PollCall>)
        ensures
            self.is_closed() ==> r == Err::<PollCall, Error>(Error::InvalidHandle),
            !self.is_closed() && stop_status != 0 ==> (r matches Err(e) && is_api_error(e, stop_status, message@)),
            !self.is_closed() && stop_status == 0 ==> (r matches Ok(c) && c.transcriber == self.transcriber_handle()
                && c.stream == self.stream_handle() && c.force),
    {
        self.check_open()?;
        check_status(stop_status, message)?;
        self.poll_call(true)
    }

    /// Replaces the key terms of the underlying transcriber mid-stream.
    pub fn set_keyterms(&self, keyterms: &str) -> (r: Result<KeytermsCall>)
        ensures
            match c_string_result(keyterms@) {
                Err(e) => r == Err::<KeytermsCall, Error>(e),
                Ok(()) => r matches Ok(c) && c.transcriber == self.transcriber_handle() && c.keyterms@ == keyterms@,
            },
    {
        self.transcriber.set_keyterms(keyterms)
    }

    /// Extracts key terms from `context` for the underlying transcriber
    /// mid-stream.
    pub fn set_context(&self, context: &str, max_terms: u32) -> (r: Result<ContextCall>)
        ensures
            match c_string_result(context@) {
                Err(e) => r == Err::<ContextCall, Error>(e),
                Ok(()) => r matches Ok(c) && c.transcriber == self.transcriber_handle() && c.context@ == context@
                    && c.max_terms == max_terms as i32,
            },
    {
        self.transcriber.set_context(context, max_terms)
    }

    /// Marks the session closed and says what the native engine must do.
    pub fn begin_close(&mut self) -> (step: CloseStep)
        ensures
            step == close_step(old(self).is_closed(), old(self).transcriber_handle(), old(self).stream_handle()),
            final(self).is_closed(),
            stream_transition(old(self).state(), final(self).state()),
            final(self).transcriber_handle() == old(self).transcriber_handle(),
    {
        proof {
            use_type_invariant(&*self);
        }
        if self.closed {
            return CloseStep::AlreadyClosed;
        }
        self.closed = true;
        if self.stream_handle >= 0 {
            CloseStep::Release { transcriber: self.transcriber.handle(), stream: self.stream_handle }
        } else {
            CloseStep::NothingToRelease
        }
    }
}

/// An active streaming session that shares ownership of its transcriber.
#[derive(Debug)]
pub struct OwnedTranscriberStream {
    transcriber: Arc<Transcriber>,
    stream_handle: i32,
    closed: bool,
}

impl OwnedTranscriberStream {
    #[verifier::type_invariant]
    spec fn valid(self) -> bool {
        self.stream_handle >= 0
    }

    /// The native stream handle.
    pub closed spec fn stream_handle(&self) -> i32 {
        self.stream_handle
    }

    /// The stream's state: its native handle and whether it is closed.
    pub open spec fn state(&self) -> (i32, bool) {
        (self.stream_handle(), self.is_closed())
    }

    /// Whether the session has been closed.
    pub closed spec fn is_closed(&self) -> bool {
        self.closed
    }

    /// The native handle of the transcriber the stream runs on.
    pub closed spec fn transcriber_handle(&self) -> i32 {
        self.transcriber.native_handle()
    }

    /// Returns the native stream handle, which is never negative.
    pub fn handle(&self) -> (h: i32)
        ensures
            h == self.stream_handle(),
            h >= 0,
    {
        proof {
            use_type_invariant(self);
        }
        self.stream_handle
    }

    /// The transcriber this session runs on.
    pub fn transcriber(&self) -> (t: &Transcriber)
        ensures
            t.native_handle() == self.transcriber_handle(),
    {
        &self.transcriber
    }

    /// Whether the session has been closed.
    pub fn closed(&self) -> (c: bool)
        ensures
            c == self.is_closed(),
    {
        self.closed
    }

    /// Fails with [`Error::InvalidHandle`] once the session is closed.
    pub fn check_open(&self) -> (r: Result<()>)
        ensures
            r is Ok <==> !self.is_closed(),
            r is Err ==> r == Err::<(), Error>(Error::InvalidHandle),
    {
        if self.closed {
            Err(Error::InvalidHandle)
        } else {
            Ok(())
        }
    }

    /// The native call that appends audio sampled at `sample_rate`.
    pub fn add_audio_call(&self, sample_rate: u32) -> (r: Result<AudioCall>)
        ensures
            self.is_closed() ==> r == Err::<AudioCall, Error>(Error::InvalidHandle),
            !self.is_closed() ==> (r matches Ok(c) && c.transcriber == self.transcriber_handle()
                && c.stream == self.stream_handle() && c.sample_rate == sample_rate as i32),
    {
        self.check_open()?;
        Ok(AudioCall { transcriber: self.transcriber.handle(), stream: self.stream_handle, sample_rate: sample_rate as i32 })
    }

    /// The native call that evaluates the stream buffer, forced or not.
    pub fn poll_call(&self, force: bool) -> (r: Result<PollCall>)
        ensures
            self.is_closed() ==> r == Err::<PollCall, Error>(Error::InvalidHandle),
            !self.is_closed() ==> (r matches Ok(c) && c.transcriber == self.transcriber_handle()
                && c.stream == self.stream_handle() && c.force == force),
    {
        self.check_open()?;
        Ok(PollCall { transcriber: self.transcriber.handle(), stream: self.stream_handle, force })
    }

    /// The native stream on which a restart or a finalization runs.
    pub fn stream_call(&self) -> (r: Result<StreamCall>)
        ensures
            self.is_closed() ==> r == Err::<StreamCall, Error>(Error::InvalidHandle),
            !self.is_closed() ==> (r matches Ok(c) && c.transcriber == self.transcriber_handle()
                && c.stream == self.stream_handle()),
    {
        self.check_open()?;
        Ok(StreamCall { transcriber: self.transcriber.handle(), stream: self.stream_handle })
    }

    /// The second step of finalizing: once the native stop (made on
    /// [`stream_call`](Self::stream_call)) has returned `stop_status`, a
    /// failed stop is the error, and otherwise the forced evaluation whose
    /// transcript the finalization returns, before the stream is closed.
    pub fn finalize_poll_call(&self, stop_status: i32, message: String) -> (r: Result<PollCall>)
        ensures
            self.is_closed() ==> r == Err::<PollCall, Error>(Error::InvalidHandle),
            !self.is_closed() && stop_status != 0 ==> (r matches Err(e) && is_api_error(e, stop_status, message@)),
            !self.is_closed() && stop_status == 0 ==> (r matches Ok(c) && c.transcriber == self.transcriber_handle()
                && c.stream == self.stream_handle() && c.force),
    {
        self.check_open()?;
        check_status(stop_status, message)?;
        self.poll_call(true)
    }

    /// Replaces the key terms of the underlying transcriber mid-stream.
    pub fn set_keyterms(&self, keyterms: &str) -> (r: Result<KeytermsCall>)
        ensures
            match c_string_result(keyterms@) {
                Err(e) => r == Err::<KeytermsCall, Error>(e),
                Ok(()) => r matches Ok(c) && c.transcriber == self.transcriber_handle() && c.keyterms@ == keyterms@,
            },
    {
        self.transcriber.set_keyterms(keyterms)
    }

    /// Extracts key terms from `context` for the underlying transcriber
    /// mid-stream.
    pub fn set_context(&self, context: &str, max_terms: u32) -> (r: Result<ContextCall>)
        ensures
            match c_string_result(context@) {
                Err(e) => r == Err::<ContextCall, Error>(e),
                Ok(()) => r matches Ok(c) && c.transcriber == self.transcriber_handle() && c.context@ == context@
                    && c.max_terms == max_terms as i32,
            },
    {
        self.transcriber.set_context(context, max_terms)
    }

    /// Marks the session closed and says what the native engine must do.
    pub fn begin_close(&mut self) -> (step: CloseStep)
        ensures
            step == close_step(old(self).is_closed(), old(self).transcriber_handle(), old(self).stream_handle()),
            final(self).is_closed(),
            stream_transition(old(self).state(), final(self).state()),
            final(self).transcriber_handle() == old(self).transcriber_handle(),
    {
        proof {
            use_type_invariant(&*self);
        }
        if self.closed {
            return CloseStep::AlreadyClosed;
        }
        self.closed = true;
        if self.stream_handle >= 0 {
            CloseStep::Release { transcriber: self.transcriber.handle(), stream: self.stream_handle }
        } else {
            CloseStep::NothingToRelease
        }
    }
}

} // verus!
