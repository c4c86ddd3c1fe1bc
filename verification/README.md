# stella_record

StellaRecord keeps VRChat's game logs: it packs each raw `output_log_*.txt`
into a `.tar.zst` archive, reads the logs line by line into a SQLite
database (sessions, world visits, the players met, notifications,
screenshots, OSC services, subscription state), and lets the user browse
both the database and the logs.

The library under `src/` holds the project's rules and decisions, each
function with a contract that Verus proves:

- `import`: the line-by-line state machine that turns a log into database
  writes; `runs`: the run over many archives (what is read, reported,
  committed or rolled back).
- `archive`: which files are logs, when an archive is created or replaced,
  listings and deletions; `replace`: swapping in a rewritten archive without
  losing the old one; `order`: name order and sorting.
- `viewer` and `stream`: classifying log lines for the viewer and cutting
  them into chunks; `database`: the table browser's registry and the SQL text
  it builds.
- `settings`: the registry-backed settings and the all-or-nothing saving of
  the settings dialog; `launcher`: the application launcher.
- `friendship`: pairing avatar downloads with players to record friend
  status; `parser`, `patterns`, `datetime`, `text`, `collections`: the
  building blocks.

The friend-status tracker keys its state by display names, user ids and
avatar names. `collections` holds those as `StrSet` and `StrMap`, vectors
without repeated keys, in place of std's `HashSet` and `HashMap`: with a
`String` key, the specifications Verus gives those std types prove nothing
about what the collection holds, and every law of the tracker depends on
exactly that.

`app/` is a command-line front end: it reads and writes files, the
registry and the database, and performs the work the library decides.
