# voice_sessions

Voice input for an editor, and the list of conversations that goes with it: a Verus library whose
behaviour is stated in contracts and proved.

- `src/` is the library. Files, threads, tasks and speech engines stay outside: the functions take
  plain values and say what is to be done. The channels of a session are made here, and commands
  are sent through them; waiting at them is left to the program.
  - `audio`, `sapi`, `windows`, `fallback`: transcription of a recording.
  - `realtime`, `realtime_fallback`, `voice_input`: a recognition session, from its start to its
    last event.
  - `editor_voice`: what the button, the key and the events of a session do to the editor.
  - `transcriber`: transcription behind one interface.
  - `session_scanner`, `session_cache`: the sessions that command-line agents keep on disk.
  - `conversation_list`: the list and the search in it.
  - `error`, `ranking`, `text`: what the others share.
- `tests/` runs the library on concrete values.
- `app/` is the program around the library.
