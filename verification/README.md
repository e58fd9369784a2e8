# kanban_io

The input and output side of a terminal kanban board, verified with Verus.

The library in `src/` decides and computes: which local save is the latest, what is shown of the
boards, how cloud saves are encrypted and opened again, which requests go to the service that keeps
accounts and cloud saves, what its replies mean, what the user is told, and what the user interface
hears of the terminal. Each function states in its contract what it returns or how it changes the
state of the program, and public proof functions state what holds across functions.

Calls into other crates stand behind small functions marked `external_body`, each with a contract
that says what the call is taken to do: AES-256-GCM (`aes-gcm`), base64 (`base64`), dates and times
(`chrono`), the ordered map of what is shown (`linked-hash-map`), the pattern of save file names
(`regex`) and JSON (`serde_json`).

| Module | Subject |
| --- | --- |
| `app` | the state of the program, toasts, what is shown |
| `account` | logging in and out, signing up, resetting the password |
| `cloud` | storing, listing, previewing, loading and deleting cloud saves |
| `local` | the same for the files in the save directory |
| `startup` | settings directory, themes, the start of the program, the last login |
| `events` | terminal events and ticks |
| `http`, `replies`, `json` | requests, replies and the JSON in them |
| `cipher`, `access_token`, `base64_text` | encryption, the key file, the token file |
| `saves`, `timestamp` | save file names, times of cloud saves |
| `board` | boards, cards and which of them are shown |
| `password`, `file_name`, `text`, `constants` | passwords, safe file names, text, settings |

`app/` is ordinary Rust around the library: it reads and writes files, sends requests, polls the
terminal and locks the shared state. `tests/` runs the library with the real crates.
