# hlas

The decision logic of Hlas, a push-to-talk dictation tool for Windows (hold a
key, speak, release, and the transcript is pasted at the cursor), written in
Verus and verified against its contracts.

## Layout

- `src/` - the verified library:
  - `hotkey` - push-to-talk edge detection over keyboard messages, with the
    law that reported edges always alternate.
  - `control` - the dictation controller (record, check or download the local
    model, transcribe, paste, error pill) as a state machine, with the laws
    that the pill always matches the phase and that only non-empty
    transcripts of long-enough recordings are pasted.
  - `wav` - 16-bit mono PCM framed as a WAVE file, with header and sample
    read-back laws.
  - `config` - preferences, their defaults and how a stored file fills them;
    the application's directories.
  - `keystore` - API keys in the platform credential store.
  - `settings`, `overlay`, `inject`, `tray`, `autostart` - what the settings
    window, the status pill, the paste step, the tray menu and launch-at-login
    decide.
  - `transcribe` - engine routing, cloud request and response handling, the
    local model's file and download bookkeeping.
  - `text` - Unicode white space and trimming.
- `app/` - the Windows program around the library: audio capture, the
  keyboard hook, HTTP, whisper.cpp, the clipboard and the Win32 windows.
- `tests/` - tests of the library on concrete values.
