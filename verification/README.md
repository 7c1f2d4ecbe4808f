# codex_light

Reads the quota of the Codex account signed in on this computer: the usage API
first, Codex's local SQLite request logs when the API gives no answer.

- `src/` is the verified library (Verus): the error kinds and their messages,
  the judgement of `auth.json`, the classification of the API's reply, the
  extraction of quota headers from a log entry, staleness and reset times, the
  fallback from the API to the logs, the text report, duration formatting, and
  the tray light's colour and image.
- `app/` is the command-line program: it finds the Codex home directory, reads
  files, queries the network and the SQLite logs, turns the floating-point
  figures of the API and the logs into whole numbers, and prints the library's
  report (or JSON with `--json`).
- `tests/` runs the library on concrete values.
