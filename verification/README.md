# KMA Audio Agent

The agent connects one FLOW 8 mixer to a KMA server: it plays songs over USB, records
the two microphones dry, and sets the mixer over MIDI.

- `src/` is the library: what the agent decides and computes, verified with Verus. It
  does no input or output of its own. A session (`session`), the players (`player`), a
  pairing and the supervision of connections (`connection`) are state machines: they
  say what is to be done next, and are told how it turned out.
- `app/` is the program around it: command line, files, sockets, and the device.
- `tests/` runs the library on given values.

| Module | What it holds |
| --- | --- |
| `session` | the conversation with the server, and the takes that wait for upload |
| `connection` | finding the server, pairing, reconnecting |
| `player` | which players run, and how one source hands over to another |
| `playback` | order and repetition of commands and mixer revisions |
| `recording`, `take` | the timeline of a take, its life cycle, its files |
| `calibration`, `sample` | the lag of captures behind playback, samples and bytes |
| `midi` | messages to the mixer |
| `logging` | values for the log without their secrets |
| `config`, `credentials`, `device`, `protocol` | plain data and its rules |
| `web`, `digest`, `identity`, `path`, `text` | URLs, digests, ids, paths and texts |
