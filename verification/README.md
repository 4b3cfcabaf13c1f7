# tvoice

Push-to-talk transcription from the macOS menu bar: hold Control, speak, let go,
and the transcript is pasted at the cursor.

- `src/` is the verified library (Verus):
  - `text` — white space and trimming, as `str::trim` does it;
  - `settings` — the settings, their defaults, and how they are normalized before saving;
  - `openrouter` — the transcription request (headers, base64 audio) and what a reply comes to;
  - `recorder` — which key events start and stop a recording, and the recording controller with its laws over whole runs;
  - `audio` — unsigned microphone samples as signed WAV samples;
  - `ui` — UI commands, the UI loop step, window tracking, and the display for the overlay;
  - `config` — the start-up configuration from environment values.
- `app/` is the program around it: microphone, WAV files, `afconvert`, HTTP, JSON,
  clipboard, the key tap, the status item and the windows.
- `tests/` runs the library on concrete values.
