# ExamUQ client library

The decision logic of the ExamUQ kiosk client, verified with Verus, and the
Tauri shell around it.

`src/` (verified):

- `text` — trimming, ASCII lower-casing, prefix/suffix tests, `replace`, and
  decimal/hexadecimal numerals over characters, each against its spec.
- `ipv4` — dot-decimal IPv4 addresses as `Ipv4Addr` reads them.
- `web_url` — `WebUrl`, an absolute URL parsed and edited by the `url` crate;
  its view models the parts the client reads.
- `json` — the two `serde_json` calls the client makes on plain text.
- `server_url` — normalising a typed server address, migrating legacy
  addresses, and the launch, launch-request and admin URLs.
- `overlay` — the exam overlay carried in portal URLs, its default and merge.
- `session` — session API addresses and how server answers are reported.
- `updater` — the build-time update channel and endpoint.
- `runtime` — the runtime state and the exam-mode state machine (lock,
  overlay, heartbeat and watchdog bookkeeping), with its laws.
- `shell` — launcher scripts, shortcut decisions and the Android permission
  markers.

`app/` (not verified): windows, files, HTTP requests, background threads and
the Tauri runtime, calling the library for every decision.
