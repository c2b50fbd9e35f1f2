# moonshine-rs

Bindings for Moonshine Voice on-device speech-to-text and text-to-speech,
split in two:

- `src/` is the verified library. It holds the option sets of the
  transcriber and the synthesizer, the model architectures, the checks that
  decide which strings can be handed to the native engine, the arguments of
  every native call, the state of streaming sessions, the decoding of native
  status codes and buffers, the dependency queries, the reading of the diarization download
  manifest from its JSON text and the plan for fetching the speaker
  diarization models. Each function carries a contract that Verus
  proves.
- `app/` is the native front end: the calls into `libmoonshine`, audio
  decoding and resampling, downloads, and the types that carry
  floating-point audio and timing data. It takes every decision through the
  library.

`tests/` exercises the library on concrete values.
