# songrec

A music recognition client. The verified library (`src/`) holds the logic:

- `recognition` — reading the recognition service's JSON answer into a
  recognised song, the request address, the rate-limit status, what the
  window is told after each attempt, and writing the answer on one line;
- `json` — a JSON document as plain values;
- `history` — the history of recognised songs: ordering rows read from the
  history file (newest first, stable by date), adding, removing, wiping, and
  the rows to write back;
- `devices` — ordering audio sources, listing other applications' streams,
  finding the program's own stream;
- `capture` — the per-application capture session as a state machine whose
  actions (`pactl` commands, server queries, stream moves) are run outside;
- `window` — the main window's state and what each message does to it,
  the log limit, splitting history entries, the video search address;
- `listed_app`, `messages`, `text` — chooser entries, messages between the
  parts of the program, and character-level helpers.

`app/` holds the program around it: the window (egui/eframe), the audio
backends (PulseAudio, CPAL), the HTTP task and the CSV history file.
