# Hermes

An ultra minimalist self-hosted RSS and Atom reader, written in Verus.

- `src/` is the verified library: reading fetched feeds (`feed`, `syndication`),
  telling new items from stored ones and delivering them to subscribers
  (`feed`, `db`), password hashing and checking (`models`, `crypto`), dates
  (`time`), decimal numbers (`number`), regular-expression routing (`router`,
  `pattern`), and what the web interface decides for each request (`web`).
  Calls into `rss`, `atom_syndication`, `quick-xml`, `chrono`, `sha2`, `base64`
  and `regex` stand behind small trusted functions whose contracts say what is
  assumed of those crates.
- `app/` is the program around it: the PostgreSQL store (diesel), fetching
  (hyper), the web server and websocket (warp), tokens (jsonwebtoken) and the
  two-minute refresh loop.
- `tests/` runs the library against the real outside crates.
