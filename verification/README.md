# voxio

The core of Voxio, a desktop voice-typing tool, as a verified library.

- `src/` is verified with Verus: the dictation session state machine and its
  laws (`state.rs`, `commands.rs`), settings and their validation
  (`config.rs`), transcription routing, readiness checks and the arguments
  and forms each backend is given (`modules/asr.rs`), sample handling and
  WAV encoding (`modules/audio.rs`), injection checks
  (`modules/injector.rs`), and text helpers (`text.rs`).
- `app/` is the Tauri shell: commands, microphone capture, processes, HTTP,
  clipboard and files. It asks the library what to do and does it.
- `tests/` runs the library on concrete values.
