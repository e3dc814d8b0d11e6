# eruser

Sends data-removal requests to data brokers and reads what they send back.
This crate is the verified core: every rule that decides something is
written with a contract and proved with Verus.

## Layout

- `src/` — the library, verified.
  - `inbox/` — reading broker replies: URL extraction (`parser`), the
    pattern classifier (`classifier`), working out who a message is from and
    decoding raw mail (`monitor`), and the decisions of a mailbox scan
    (`scan`).
  - `send/` — the decisions of a send run (each broker accounted for once,
    the daily cap never passed) and the pool that spreads a run across
    sending accounts (`pool`).
  - `reply/` — the rules a drafted reply is held to (`validate`), the
    prompts, which reply an email deserves (`routing`), the shipped wording
    (`choices`), drafting runs (`pipeline`) and sending a draft alone
    (`auto_send`).
  - `history/` — the stored enums and rows, sending accounts, user names and
    passwords, drafts, and timestamps written by older versions.
  - `text`, `patterns`, `weburl`, `mail` — text handling, and the calls into
    the regular-expression, URL and mail-parsing crates, each behind a
    trusted item whose contract says what is believed of it.
  - `decision`, `template`, `config`, `broker` — questions put to a decision
    model, request letters (their data, subjects, and rendering a template's
    source with the template engine), settings, the directory.
- `tests/` — tests of the library on concrete values.
- `app/` — the program around it: the command line, SQLite history, IMAP,
  the drafting model over HTTP, and reading the template files and the
  clock. It performs what
  the library decides.
