# shout

Local voice dictation and meeting capture: hold a hotkey, speak, release —
the words are transcribed on the machine, cleaned up by your own Ollama
server and typed at the cursor. Ghost mode records a meeting and writes one
Obsidian note per meeting.

## Layout

- `src/` — the verified library (Verus). Every decision the app makes is a
  function with a contract here:
  - `pipeline` — the dictation worker as a state machine (`Dictation::step`):
    which recordings are worth transcribing, the "scratch that" command, how
    live-typed text at the cursor is morphed into the cleaned text, where the
    status pill goes.
  - `ghost` — the ghost worker's state machine and the assembly of a meeting
    note (speakers, times, transcript, summary fallback).
  - `pkm/obsidian` — note file name, slug and markdown body.
  - `audio` — push-to-talk recording decisions, channel extraction and the
    voice-activity detector's 512-sample framing.
  - `llm/ollama` — endpoint, prompts, and what becomes of a reply.
  - `config`, `models` (registry, install paths, download progress), `stamp`,
    `text`, `hotkey`, `stt/whisper`.
- `tests/` — tests of the library, run with the real outside crates.
- `app/` — the desktop shell (Tauri, cpal, sherpa-onnx, whisper-rs, enigo,
  arboard, reqwest, toml): devices, threads, windows, files and network,
  driving the library's state machines.
