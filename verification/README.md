# vita-presence-rs

Discord rich presence for the PS Vita, as a verified library and a thin program.

The library (`src/`) is verified with Verus:

- `tsv` — the game database parser (`parse_tsv`), specified over the lines and
  tab-separated fields of the text, with laws on how tables of joined texts combine.
- `catalog` — PlayStation / PSP title-id prefixes and the cover URL of a title
  (`get_chihiro_url`).
- `cache` — the Litterbox upload cache: lookups honour the three-day lifetime and
  drop expired entries.
- `packet` — the status packet of the VitaPresence plugin (magic, NUL-terminated fields).
- `vita` — the console clients' decisions: failure counting, keeping a game's cover,
  reading the fork's HTTP status page, and what to do with it.
- `images` — the steps of finding a cover (cache, upload, fallback).
- `discord` — what Discord is told.
- `text` — string helpers (trimming, ASCII case) and the wrappers around std and
  `scraper` calls whose results the contracts name.

The program (`app/`) does the I/O: configuration, files, HTTP, TCP, Discord IPC,
threads and the clock.
