# codex_usage_tray

A tray applet that watches local Codex usage, split in two:

- `src/` is a Verus-verified library. It splits the text of a Codex session
  log into lines, parses each with `serde_json` and turns the `token_count`
  events into usage totals by model, day and month; prices them at public API
  rates (exactly, in billionths of a dollar); keeps the latest rate limits;
  caches per-file results so that unchanged logs are not added up again;
  decides when a rate-limit reset or a fast pace is announced; reads the
  settings from the settings file's text and writes the text to save; places
  each event on its local calendar day (from the instant and the time zone's
  offset); and lays out the menu, the summary and the details page (thousands
  separators, durations, countdowns, month titles, HTML escaping).
- `app/` is the GTK3 / Ayatana AppIndicator program: it walks the session
  directories, reads and writes files, shows percentages and dollar figures
  (floating point), draws the confetti overlay and sends notifications.

Modules of the library: `text`, `usage`, `tally`, `json`, `pricing`,
`calendar`, `clock`, `stats`, `cache`, `config`, `notify`, `report`, `layout`,
`page`.
