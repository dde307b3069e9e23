# murmur

Hold a hotkey to record, release to transcribe — fully offline, from the
menubar.

- `src/` is the library, verified with Verus: settings and their loading
  rules (`config`), model file locations and download bookkeeping
  (`downloader`), the recording state machine and permission prompts (`app`),
  hotkey debouncing (`hotkey`), the choice between whisper and FluidAudio
  (Parakeet, on Apple Silicon) with its fallback, language choice and
  transcript clean-up (`transcriber`), the language table and the languages
  each tier supports (`languages`), the menu's layout and dispatch (`tray`),
  and small string helpers (`text`).
- `app/` is the program around it: the tao event loop, the tray icon, audio
  capture, whisper.cpp and the FluidAudio backend, HTTP downloads, the clipboard and key simulation. It
  carries out the `Action`s the library decides on and reports back the
  outcomes it waits for (`Feedback`).
- `tests/` exercises the library on concrete values.
