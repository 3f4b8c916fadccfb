# Board Game Tracker

A self-hosted tracker for a household's board game collection and the plays
logged against it.

- `src/` is the library, verified with Verus: who may see and edit a play,
  tagging and its approvals, the play forms, statistics, the BoardGameGeek XML
  readers, the BG Catalog importer and the data export, account security
  (lockout, IP bans, passwords, two-factor set-up), backups and the update
  schedule. Calls into outside crates (XML, Argon2, TOTP, zip, chrono, URL
  encoding) sit behind small trusted wrappers whose contracts are documented
  next to them.
- `tests/` runs the library against concrete values.
- `app/` is the web server around it: routing, the database, HTTP calls to
  BoardGameGeek, the file system, image resizing and the HTML pages.
