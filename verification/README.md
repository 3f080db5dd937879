# pipecat

Building blocks of a real-time voice pipeline, written in Rust and proved with
[Verus](https://github.com/verus-lang/verus): services that turn speech into
text and text into speech, the OpenAI chat completions and realtime services,
transports that carry audio and video, and the detection of user turns.

Every component is a state machine over plain values. It takes an event (a
frame, a server message, the time) and returns the actions that the event calls
for. What a component does is stated in its contracts over a mathematical model
of its state; properties that span several calls are stated as proof functions.

- `src/frames.rs`, `src/json.rs`, `src/payload.rs`, `src/text.rs`,
  `src/collections.rs`: frames, and the data that they carry.
- `src/services`: settings, text aggregation, speech recognition and synthesis,
  Whisper, and the OpenAI services (`src/services/openai`).
- `src/transport`: input and output transports, audio chunks, bot speaking
  detection, timed delivery, images, WAV data, local files and devices.
- `src/turns`: strategies that start and stop a user turn, and the controller
  that combines them.
- `tests`: the library run on concrete values.
- `app`: the program around the library, with its tasks, timers, devices, files
  and connections. Signal processing on floating-point samples is there as well.

What is taken on trust is what the outside crates `serde_json`, `bytes`,
`base64`, `image` and `hound`, and a few functions of the standard library, do.
Each such function is called through one item whose contract says what is
claimed of it.
