# diarize-log

A command-line tool that records the microphone, one application's audio,
or both at once, sends each stretch of the recording to OpenAI's
transcription service, and keeps the audio, every transcript, the merged
timeline and the session's settings on disk. Registered speakers' voice
samples can be attached to the requests so that the service can name them.

## Layout

- `src/` is the library, written in Verus and verified: the settings and
  their validation, the command line's meaning, the planning of each
  capture within the recording, the capture loop and its failure handling,
  the joining of the microphone's and the application's timelines, the
  speaker registry's commands, the audio arithmetic (down-mixing, frame and
  millisecond conversions, sample ranges), the storage layout, the request
  details sent to the service, and the text of every error.
- `app/` is the program around it: argument parsing with clap, the
  environment and `.env` file, the audio devices, the HTTP client, the
  files on disk, the signal handler and the threads of a mixed session.
- `tests/` exercises the library from outside.

The `separated` transcription pipeline is accepted by the command line and
the settings, but a session that selects it stops at once with an error:
only the diarizing pipeline runs.

## Verified properties, in brief

- Settings: the environment wins over the `.env` file key by key; a blank
  value in the environment is reported, never filled in; unknown keys are
  ignored; later entries replace earlier ones; every rejected setting is
  reported, in a fixed order.
- Capture planning: captures follow one another through the recording; a
  pause starts the next capture where it was found, a capture that reached
  its length overlaps the next by the configured overlap, and an
  interruption ends the recording.
- The capture loop: the store is handed the session's settings first;
  each capture is cut exactly where the plan puts it, stored under its
  number, then sent with the configured model, language and known
  speakers; each transcript is stored with its number and start and handed
  to the merger shifted by that start; the run stops at the first answer
  that is not a transcript or a failure to send, and a finished run's
  transcripts and failures together count its captures.
- Fixed-window capture: a finished run wrote exactly its progress lines,
  in order: the start, then for each window the end of the recording where
  the window reaches it, the request sent and the response received.
- The speaker registry: a sample is cut as requested and stored under the
  given name; listing returns what the store lists; errors pass through
  unchanged, and a failed cut leaves the store untouched.
- Joining captures: where a capture's first utterance repeats, character
  for character, the end of the previous capture's last one, the repeated
  text is kept once, in the later capture, and the join is recorded.
- Mixed sessions: the final timeline is sorted by time, then source, then
  speaker and text, holds exactly the segments of the sources that
  finished, and does not depend on which source is listed first; the
  session's metadata and timeline are stored before success is decided.
