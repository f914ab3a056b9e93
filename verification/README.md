# cloud_stt

Cloud speech-to-text through the Codex transcription endpoint, with its decisions
verified by Verus.

`src/` is the library. It holds no I/O: where a file, a lock, a clock or a server has
to be asked, a function returns the step to take, and the value that waits for it takes
what the step came to.

- `jwt`, `json`: access tokens and their claims
- `credentials`, `auth_file`, `manager`: credentials, the credential file, the session
- `refresh`, `refresh_laws`: the refresh of a file's tokens, and what holds of it as a
  whole
- `login_laws`: what holds from one explicit change of the session to the next
- `wav`, `multipart`, `codex_api`, `transcribe`, `transcribe_laws`: one transcription,
  and what holds of it as a whole
- `pipeline`: the life of a recording, with its cancellation
- `events`, `text`: events for the frontend, and text primitives

`app/` does the I/O around it. `tests/` runs the library on concrete values.
